//! What a fused block reads and writes.

use cubecl::ir::{ElemType, FloatKind, IntKind, Type, UIntKind};
use vstd::prelude::*;

verus! {

/// The precision of an argument of a fused block.
#[derive(Clone, Copy, Debug, PartialEq, Eq, Structural)]
pub enum FuseType {
    F64,
    F32,
    Flex32,
    F16,
    BF16,
    I64,
    I32,
    I16,
    I8,
    U64,
    U32,
    U16,
    U8,
}

/// A type as a device holds it: an element, and how many of them make a vector.
#[derive(Clone, Copy, Debug, PartialEq, Eq)]
pub struct DeviceType {
    pub elem: ElemType,
    pub width: usize,
}

/// The device type of vectors of `width` elements, where a width of zero or one is a scalar.
pub open spec fn device_type_of(elem: ElemType, width: usize) -> DeviceType {
    DeviceType {
        elem,
        width: if width > 1 {
            width
        } else {
            1
        },
    }
}

/// `cubecl`'s `Type::new` and `Type::with_vector_size`, read back by `Type::elem_type` and
/// `Type::vector_size`: the element is kept, and a width below two makes a scalar, whose width
/// is one.
#[verifier::external_body]
pub(crate) fn device_type(elem: ElemType, width: usize) -> (ty: DeviceType)
    ensures
        ty == device_type_of(elem, width),
{
    let ty = Type::new(elem).with_vector_size(width);
    DeviceType { elem: ty.elem_type(), width: ty.vector_size() }
}

impl FuseType {
    /// The element that has this precision.
    pub open spec fn elem(self) -> ElemType {
        match self {
            FuseType::F64 => ElemType::Float(FloatKind::F64),
            FuseType::F32 => ElemType::Float(FloatKind::F32),
            FuseType::Flex32 => ElemType::Float(FloatKind::Flex32),
            FuseType::F16 => ElemType::Float(FloatKind::F16),
            FuseType::BF16 => ElemType::Float(FloatKind::BF16),
            FuseType::I64 => ElemType::Int(IntKind::I64),
            FuseType::I32 => ElemType::Int(IntKind::I32),
            FuseType::I16 => ElemType::Int(IntKind::I16),
            FuseType::I8 => ElemType::Int(IntKind::I8),
            FuseType::U64 => ElemType::UInt(UIntKind::U64),
            FuseType::U32 => ElemType::UInt(UIntKind::U32),
            FuseType::U16 => ElemType::UInt(UIntKind::U16),
            FuseType::U8 => ElemType::UInt(UIntKind::U8),
        }
    }

    /// The precision that values of this precision are accumulated in: their own from 32 bits
    /// on, 32 bits of the same kind below.
    pub open spec fn accumulator(self) -> FuseType {
        match self {
            FuseType::F64 | FuseType::F32 | FuseType::I64 | FuseType::I32 | FuseType::U64
            | FuseType::U32 => self,
            FuseType::Flex32 | FuseType::F16 | FuseType::BF16 => FuseType::F32,
            FuseType::I16 | FuseType::I8 => FuseType::I32,
            FuseType::U16 | FuseType::U8 => FuseType::U32,
        }
    }

    /// The element that has this precision.
    pub fn into_elem(self) -> (elem: ElemType)
        ensures
            elem == self.elem(),
    {
        match self {
            FuseType::F64 => ElemType::Float(FloatKind::F64),
            FuseType::F32 => ElemType::Float(FloatKind::F32),
            FuseType::Flex32 => ElemType::Float(FloatKind::Flex32),
            FuseType::F16 => ElemType::Float(FloatKind::F16),
            FuseType::BF16 => ElemType::Float(FloatKind::BF16),
            FuseType::I64 => ElemType::Int(IntKind::I64),
            FuseType::I32 => ElemType::Int(IntKind::I32),
            FuseType::I16 => ElemType::Int(IntKind::I16),
            FuseType::I8 => ElemType::Int(IntKind::I8),
            FuseType::U64 => ElemType::UInt(UIntKind::U64),
            FuseType::U32 => ElemType::UInt(UIntKind::U32),
            FuseType::U16 => ElemType::UInt(UIntKind::U16),
            FuseType::U8 => ElemType::UInt(UIntKind::U8),
        }
    }

    /// The device type of vectors of `width` values of this precision.
    pub fn into_type(self, width: usize) -> (ty: DeviceType)
        ensures
            ty == device_type_of(self.elem(), width),
    {
        device_type(self.into_elem(), width)
    }

    /// The precision that values of this precision are accumulated in.
    pub fn into_accumulator(self) -> (precision: FuseType)
        ensures
            precision == self.accumulator(),
    {
        match self {
            FuseType::F64 => FuseType::F64,
            FuseType::F32 => FuseType::F32,
            FuseType::Flex32 => FuseType::F32,
            FuseType::F16 => FuseType::F32,
            FuseType::BF16 => FuseType::F32,
            FuseType::I64 => FuseType::I64,
            FuseType::I32 => FuseType::I32,
            FuseType::I16 => FuseType::I32,
            FuseType::I8 => FuseType::I32,
            FuseType::U64 => FuseType::U64,
            FuseType::U32 => FuseType::U32,
            FuseType::U16 => FuseType::U32,
            FuseType::U8 => FuseType::U32,
        }
    }
}

/// An argument of a fused block: where it is found, and its precision.
#[derive(Clone, Copy, Debug, PartialEq, Eq)]
pub struct FuseArg {
    pub id: usize,
    pub ty: FuseType,
}

impl FuseArg {
    /// The precision of the argument.
    pub fn precision(&self) -> (precision: FuseType)
        ensures
            precision == self.ty,
    {
        self.ty
    }
}

/// A variable that one block leaves to the blocks after it: the block that writes it, and its
/// place among the variables of that block.
#[derive(Clone, Copy, Debug, PartialEq, Eq, Structural)]
pub struct MultiBlockPos {
    pub block_pos: usize,
    pub block_local_pos: usize,
}

/// The configuration of a fused block.
#[derive(Debug, PartialEq, Eq)]
pub struct FuseBlockConfig {
    /// How many elements a vector of the block holds.
    pub width: usize,
    /// The variables that the block leaves to the blocks after it, and their elements.
    pub variables: Vec<(MultiBlockPos, ElemType)>,
}

impl FuseBlockConfig {
    /// Whether both configurations have the same width and leave the same variables.
    pub open spec fn same(self, other: FuseBlockConfig) -> bool {
        &&& self.width == other.width
        &&& self.variables@ == other.variables@
    }

    /// Appends the variables that the block leaves to the blocks after it.
    pub fn multi_block_variables(&self, keys: &mut Vec<(MultiBlockPos, ElemType)>)
        ensures
            final(keys)@ == old(keys)@ + self.variables@,
    {
        let mut i: usize = 0;
        while i < self.variables.len()
            invariant
                i <= self.variables.len(),
                keys@ == old(keys)@ + self.variables@.take(i as int),
            decreases self.variables.len() - i,
        {
            keys.push(self.variables[i]);
            assert(self.variables@.take(i + 1) == self.variables@.take(i as int).push(
                self.variables@[i as int],
            ));
            i += 1;
        }
        assert(self.variables@.take(i as int) == self.variables@);
    }
}

impl Clone for FuseBlockConfig {
    fn clone(&self) -> (copy: Self)
        ensures
            copy.same(*self),
    {
        let mut variables: Vec<(MultiBlockPos, ElemType)> = Vec::new();
        self.multi_block_variables(&mut variables);
        assert(variables@ =~= self.variables@);
        FuseBlockConfig { width: self.width, variables }
    }
}

} // verus!
