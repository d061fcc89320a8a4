//! The numbers that a kernel computes with on the device.

use vstd::prelude::*;

verus! {

/// A number that a kernel is launched with, by its place among the arguments of the kernel. One
/// compiled kernel takes every value of it.
#[derive(Clone, Copy, Debug, PartialEq, Eq, Structural)]
pub struct Argument {
    pub position: usize,
}

/// The size of an axis of the input of `block`. The axis is an argument of the kernel.
#[derive(Clone, Copy, Debug, PartialEq, Eq, Structural)]
pub struct AxisSize {
    pub block: usize,
    pub axis: Argument,
}

/// What a unit knows of its place on the device.
#[derive(Clone, Copy, Debug, PartialEq, Eq, Structural)]
pub enum Builtin {
    /// The unit, among all those that were launched.
    AbsolutePos,
    /// The cube of the unit, among all those that were launched.
    CubePos,
    /// The unit, within its cube.
    UnitPos,
    /// The unit within its cube, along the first axis: its lane.
    UnitPosX,
    /// The unit within its cube, along the second axis: its plane.
    UnitPosY,
    /// How many units a cube holds.
    CubeDim,
    /// How many units a cube holds along the first axis.
    CubeDimX,
    /// How many units a cube holds along the second axis.
    CubeDimY,
}

/// Where a unit is on the device.
#[derive(Clone, Copy, Debug, PartialEq, Eq, Structural)]
pub struct UnitPosition {
    pub absolute_pos: usize,
    pub cube_pos: usize,
    pub unit_pos: u32,
    pub unit_pos_x: u32,
    pub unit_pos_y: u32,
    pub cube_dim: u32,
    pub cube_dim_x: u32,
    pub cube_dim_y: u32,
}

/// What a kernel is launched with: its arguments, and the shape of the input of each block.
pub struct Launch {
    pub arguments: Vec<usize>,
    pub shapes: Vec<Vec<usize>>,
}

/// A number that a unit computes.
#[derive(Debug, PartialEq, Eq)]
pub enum Expr {
    Constant(usize),
    Argument(Argument),
    AxisSize(AxisSize),
    Builtin(Builtin),
    /// The counter of the loop that the expression stands in.
    Step,
    Sum(Box<Expr>, Box<Expr>),
    Product(Box<Expr>, Box<Expr>),
    Quotient(Box<Expr>, Box<Expr>),
}

impl Launch {
    /// The value of an argument.
    pub open spec fn argument(self, argument: Argument) -> usize {
        self.arguments@[argument.position as int]
    }

    /// The size of an axis.
    pub open spec fn axis_size(self, size: AxisSize) -> usize {
        self.shapes@[size.block as int]@[self.argument(size.axis) as int]
    }

    /// Whether the kernel is launched with the argument.
    pub open spec fn has_argument(self, argument: Argument) -> bool {
        argument.position < self.arguments@.len()
    }

    /// Whether there are such a block and such an axis.
    pub open spec fn has_axis(self, size: AxisSize) -> bool {
        &&& self.has_argument(size.axis)
        &&& size.block < self.shapes@.len()
        &&& self.argument(size.axis) < self.shapes@[size.block as int]@.len()
    }
}

impl UnitPosition {
    /// What a builtin is on this unit.
    pub open spec fn builtin(self, builtin: Builtin) -> int {
        match builtin {
            Builtin::AbsolutePos => self.absolute_pos as int,
            Builtin::CubePos => self.cube_pos as int,
            Builtin::UnitPos => self.unit_pos as int,
            Builtin::UnitPosX => self.unit_pos_x as int,
            Builtin::UnitPosY => self.unit_pos_y as int,
            Builtin::CubeDim => self.cube_dim as int,
            Builtin::CubeDimX => self.cube_dim_x as int,
            Builtin::CubeDimY => self.cube_dim_y as int,
        }
    }

    /// What a builtin is on this unit.
    pub fn read(&self, builtin: Builtin) -> (value: usize)
        ensures
            value == self.builtin(builtin),
    {
        match builtin {
            Builtin::AbsolutePos => self.absolute_pos,
            Builtin::CubePos => self.cube_pos,
            Builtin::UnitPos => self.unit_pos as usize,
            Builtin::UnitPosX => self.unit_pos_x as usize,
            Builtin::UnitPosY => self.unit_pos_y as usize,
            Builtin::CubeDim => self.cube_dim as usize,
            Builtin::CubeDimX => self.cube_dim_x as usize,
            Builtin::CubeDimY => self.cube_dim_y as usize,
        }
    }
}

impl Expr {
    /// What the expression is on a unit, where the counter is at `step`.
    pub open spec fn eval(self, launch: Launch, unit: UnitPosition, step: int) -> int
        decreases self,
    {
        match self {
            Expr::Constant(value) => value as int,
            Expr::Argument(argument) => launch.argument(argument) as int,
            Expr::AxisSize(size) => launch.axis_size(size) as int,
            Expr::Builtin(builtin) => unit.builtin(builtin),
            Expr::Step => step,
            Expr::Sum(a, b) => a.eval(launch, unit, step) + b.eval(launch, unit, step),
            Expr::Product(a, b) => a.eval(launch, unit, step) * b.eval(launch, unit, step),
            Expr::Quotient(a, b) => a.eval(launch, unit, step) / b.eval(launch, unit, step),
        }
    }

    /// Whether a device computes the expression: what it reads is there, nothing is divided by
    /// zero, and every number on the way can be held.
    pub open spec fn computes(self, launch: Launch, unit: UnitPosition, step: int) -> bool
        decreases self,
    {
        match self {
            Expr::Constant(_) => true,
            Expr::Argument(argument) => launch.has_argument(argument),
            Expr::AxisSize(size) => launch.has_axis(size),
            Expr::Builtin(_) => true,
            Expr::Step => 0 <= step <= usize::MAX,
            Expr::Sum(a, b) | Expr::Product(a, b) => {
                &&& a.computes(launch, unit, step)
                &&& b.computes(launch, unit, step)
                &&& self.eval(launch, unit, step) <= usize::MAX
            },
            Expr::Quotient(a, b) => {
                &&& a.computes(launch, unit, step)
                &&& b.computes(launch, unit, step)
                &&& b.eval(launch, unit, step) != 0
            },
        }
    }

    /// Computes the expression as a device does on the unit at `unit`.
    pub fn value(&self, launch: &Launch, unit: &UnitPosition, step: usize) -> (value: usize)
        requires
            self.computes(*launch, *unit, step as int),
        ensures
            value == self.eval(*launch, *unit, step as int),
        decreases self,
    {
        match self {
            Expr::Constant(value) => *value,
            Expr::Argument(argument) => launch.arguments[argument.position],
            Expr::AxisSize(size) => {
                let axis: usize = launch.arguments[size.axis.position];
                launch.shapes[size.block][axis]
            },
            Expr::Builtin(builtin) => unit.read(*builtin),
            Expr::Step => step,
            Expr::Sum(a, b) => a.value(launch, unit, step) + b.value(launch, unit, step),
            Expr::Product(a, b) => {
                let left: usize = a.value(launch, unit, step);
                let right: usize = b.value(launch, unit, step);
                assert(0 <= left * right) by (nonlinear_arith);
                left * right
            },
            Expr::Quotient(a, b) => a.value(launch, unit, step) / b.value(launch, unit, step),
        }
    }
}

} // verus!
