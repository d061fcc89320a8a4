//! Attention tuning: the candidate kernels, the order in which a tuner tries them, and the
//! inputs and the key that it is given.

pub mod calls;
pub mod inputs;
pub mod key;
pub mod laws;
pub mod tune;
pub mod tune_key;
