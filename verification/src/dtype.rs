//! Tensor element types and the device element types that stand for them.

use burn_backend::cubecl::{dtype_to_elem_type, dtype_to_storage_type};
use burn_backend::quantization::{QuantScheme, QuantStore, QuantValue};
use burn_backend::{BoolStore, DType};
use cubecl::ir::{ElemType, FloatKind, IntKind, UIntKind};
use vstd::prelude::*;

verus! {

/// The element type of a tensor. A quantized type is given by how its values are read and
/// stored, which is all that its device type depends on.
#[derive(Clone, Copy, Debug, PartialEq, Eq)]
pub enum TensorDType {
    /// A type that is not quantized.
    Plain(DType),
    /// A quantized type.
    Quantized(QuantValue, QuantStore),
}

/// The device type of a type that is not quantized.
pub open spec fn plain_elem_type(dtype: DType) -> Option<ElemType> {
    match dtype {
        DType::F64 => Some(ElemType::Float(FloatKind::F64)),
        DType::F32 => Some(ElemType::Float(FloatKind::F32)),
        DType::Flex32 => Some(ElemType::Float(FloatKind::Flex32)),
        DType::F16 => Some(ElemType::Float(FloatKind::F16)),
        DType::BF16 => Some(ElemType::Float(FloatKind::BF16)),
        DType::I64 => Some(ElemType::Int(IntKind::I64)),
        DType::I32 => Some(ElemType::Int(IntKind::I32)),
        DType::I16 => Some(ElemType::Int(IntKind::I16)),
        DType::I8 => Some(ElemType::Int(IntKind::I8)),
        DType::U64 => Some(ElemType::UInt(UIntKind::U64)),
        DType::U32 => Some(ElemType::UInt(UIntKind::U32)),
        DType::U16 => Some(ElemType::UInt(UIntKind::U16)),
        DType::U8 => Some(ElemType::UInt(UIntKind::U8)),
        DType::Bool(BoolStore::Native) => Some(ElemType::Bool),
        DType::Bool(BoolStore::U8) => Some(ElemType::UInt(UIntKind::U8)),
        DType::Bool(BoolStore::U32) => Some(ElemType::UInt(UIntKind::U32)),
        DType::QFloat(_) => None,
    }
}

/// The device type of a quantized type: packed words are unsigned integers, and a value of
/// eight bits stored as it is has a type of its own. Nothing else is a single element.
pub open spec fn quantized_elem_type(value: QuantValue, store: QuantStore) -> Option<ElemType> {
    match (store, value) {
        (QuantStore::PackedU32(_), _) => Some(ElemType::UInt(UIntKind::U32)),
        (QuantStore::Native, QuantValue::Q8F) => Some(ElemType::Int(IntKind::I8)),
        (QuantStore::Native, QuantValue::Q8S) => Some(ElemType::Int(IntKind::I8)),
        (QuantStore::Native, QuantValue::E4M3) => Some(ElemType::Float(FloatKind::E4M3)),
        (QuantStore::Native, QuantValue::E5M2) => Some(ElemType::Float(FloatKind::E5M2)),
        _ => None,
    }
}

impl TensorDType {
    /// The device type that holds one element of this type, where there is one.
    pub open spec fn spec_elem_type(self) -> Option<ElemType> {
        match self {
            TensorDType::Plain(dtype) => plain_elem_type(dtype),
            TensorDType::Quantized(value, store) => quantized_elem_type(value, store),
        }
    }

    /// Whether some device type holds one element of this type.
    pub fn has_elem_type(&self) -> (held: bool)
        ensures
            held == (self.spec_elem_type() is Some),
    {
        match self {
            TensorDType::Plain(DType::QFloat(_)) => false,
            TensorDType::Plain(_) => true,
            TensorDType::Quantized(_, QuantStore::PackedU32(_)) => true,
            TensorDType::Quantized(_, QuantStore::PackedNative(_)) => false,
            TensorDType::Quantized(value, QuantStore::Native) => match value {
                QuantValue::Q8F | QuantValue::Q8S | QuantValue::E4M3 | QuantValue::E5M2 => true,
                _ => false,
            },
        }
    }
}

/// `burn_backend::cubecl::dtype_to_elem_type`, on a tensor type: the device type is the one of
/// the two tables above. A type without one makes the call panic. Of a quantization scheme the
/// call reads the value and the store alone, so the other parts of the scheme are the default
/// ones.
#[verifier::external_body]
pub(crate) fn elem_type(dtype: TensorDType) -> (elem: ElemType)
    requires
        dtype.spec_elem_type() is Some,
    ensures
        Some(elem) == dtype.spec_elem_type(),
{
    match dtype {
        TensorDType::Plain(plain) => dtype_to_elem_type(plain),
        TensorDType::Quantized(value, store) => dtype_to_elem_type(
            DType::QFloat(QuantScheme::default().with_value(value).with_store(store)),
        ),
    }
}

/// `burn_backend::cubecl::dtype_to_storage_type`: for a type that is not quantized, the device
/// type of the table above.
pub assume_specification [dtype_to_storage_type](dtype: DType) -> (elem: ElemType)
    requires
        plain_elem_type(dtype) is Some,
    ensures
        Some(elem) == plain_elem_type(dtype),
;

/// Equality of `cubecl::ir::ElemType`, derived in that crate: two element types are equal when
/// they are the same variant with the same kind.
pub assume_specification [<ElemType as PartialEq>::eq](left: &ElemType, right: &ElemType) -> (same: bool)
    ensures
        same == (*left == *right),
;

} // verus!
