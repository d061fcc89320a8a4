//! Types of the `cubecl`, `cubek` and `burn_backend` crates that the library works on.
//!
//! The enums and the structs without private fields are declared with their variants and
//! fields, so that verified code reads them as it reads its own. The others are carried as
//! they are and never looked into.

use vstd::prelude::*;

verus! {

/// The floating-point formats of a device.
#[verifier::external_type_specification]
pub struct ExFloatKind(cubecl::ir::FloatKind);

/// The signed integers of a device.
#[verifier::external_type_specification]
pub struct ExIntKind(cubecl::ir::IntKind);

/// The unsigned integers of a device.
#[verifier::external_type_specification]
pub struct ExUIntKind(cubecl::ir::UIntKind);

/// The complex numbers of a device.
#[verifier::external_type_specification]
pub struct ExComplexKind(cubecl::ir::ComplexKind);

/// The element types of a device.
#[verifier::external_type_specification]
pub struct ExElemType(cubecl::ir::ElemType);

/// A matrix instruction of a device: the types of its operands and its shape.
#[verifier::external_type_specification]
pub struct ExMmaConfig(cubecl::ir::features::MmaConfig);

/// How the values of a boolean tensor are stored.
#[verifier::external_type_specification]
pub struct ExBoolStore(burn_backend::BoolStore);

/// The logical type of a quantized value.
#[verifier::external_type_specification]
pub struct ExQuantValue(burn_backend::quantization::QuantValue);

/// How the values of a quantized tensor are stored.
#[verifier::external_type_specification]
pub struct ExQuantStore(burn_backend::quantization::QuantStore);

/// A whole quantization scheme, which has private fields.
#[verifier::external_type_specification]
#[verifier::external_body]
pub struct ExQuantScheme(burn_backend::quantization::QuantScheme);

/// The element types of a tensor.
#[verifier::external_type_specification]
pub struct ExDType(burn_backend::DType);

/// The options of an attention call, floating-point numbers among them.
#[verifier::external_type_specification]
#[verifier::external_body]
pub struct ExAttentionModuleOptions(burn_backend::ops::AttentionModuleOptions);

/// The key that the results of attention tuning are kept under, which has private fields.
#[verifier::external_type_specification]
#[verifier::external_body]
pub struct ExAttentionAutotuneKey(cubek::attention::forward::launch::AttentionAutotuneKey);

/// The sizes of an accelerated attention kernel, in planes and in tiles.
#[verifier::external_type_specification]
pub struct ExBlackboxAcceleratedStrategy(
    cubek::attention::forward::routines::blackbox_accelerated::BlackboxAcceleratedStrategy,
);

/// Which reduction a kernel computes.
#[verifier::external_type_specification]
pub struct ExReduceOperationConfig(cubek::reduce::components::instructions::ReduceOperationConfig);

/// Whether a vector runs along the reduced axis or across it.
#[verifier::external_type_specification]
pub struct ExVectorizationMode(cubek::reduce::VectorizationMode);

/// What workers without a row do.
#[verifier::external_type_specification]
pub struct ExIdleMode(cubek::reduce::IdleMode);

/// How reads past the end of a row are kept in bounds.
#[verifier::external_type_specification]
pub struct ExBoundChecks(cubek::reduce::BoundChecks);

/// When the units of a plane merge what they have accumulated.
#[verifier::external_type_specification]
pub struct ExPlaneMergeStrategy(cubek::reduce::routines::PlaneMergeStrategy);

/// A reduction of one row by one unit.
#[verifier::external_type_specification]
pub struct ExUnitReduceBlueprint(cubek::reduce::routines::UnitReduceBlueprint);

/// A reduction of one row by one plane.
#[verifier::external_type_specification]
pub struct ExPlaneReduceBlueprint(cubek::reduce::routines::PlaneReduceBlueprint);

/// A reduction of one row by one cube.
#[verifier::external_type_specification]
pub struct ExCubeBlueprint(cubek::reduce::routines::CubeBlueprint);

/// Which workers reduce a row.
#[verifier::external_type_specification]
pub struct ExGlobalReduceBlueprint(cubek::reduce::routines::GlobalReduceBlueprint);

} // verus!
