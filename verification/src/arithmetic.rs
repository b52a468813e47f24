//! The arithmetic that the integrator is given.
//!
//! The caller hands in one executable function that carries out an
//! [`Operation`] on two operands. Contracts speak of a `model`: a
//! mathematical function of the same shape. The executable function
//! *follows* a model if every result it can return is the model's.

use vstd::prelude::*;

verus! {

/// One step of arithmetic on binary64 patterns.
///
/// The four binary operations take two patterns and give one. The two
/// conversions take their argument as the first operand and are handed
/// zero as the second.
#[derive(Clone, Copy, Debug, PartialEq, Eq)]
pub enum Operation {
    /// The sum of the operands.
    Add,
    /// The first operand less the second.
    Subtract,
    /// The product of the operands.
    Multiply,
    /// The first operand divided by the second.
    Divide,
    /// From an unsigned integer, held in the first operand as it is, to
    /// the pattern of that number.
    FromInteger,
    /// From a pattern to the integer part of its number, as an unsigned
    /// integer.
    ToInteger,
}

/// A mathematical arithmetic: what each operation gives on each pair of
/// operands.
pub type Model = spec_fn(Operation, u64, u64) -> u64;

/// The function may be called on every operation and every pair of operands.
pub open spec fn total<A: Fn(Operation, u64, u64) -> u64>(arith: A) -> bool {
    forall|op: Operation, a: u64, b: u64| #[trigger] call_requires(arith, (op, a, b))
}

/// Every result that the function can return is the model's.
pub open spec fn follows<A: Fn(Operation, u64, u64) -> u64>(arith: A, model: Model) -> bool {
    forall|op: Operation, a: u64, b: u64, r: u64| #[trigger]
        call_ensures(arith, (op, a, b), r) ==> r == model(op, a, b)
}

/// The model's `a + b`.
pub open spec fn sum(model: Model, a: u64, b: u64) -> u64 {
    model(Operation::Add, a, b)
}

/// The model's `a - b`.
pub open spec fn difference(model: Model, a: u64, b: u64) -> u64 {
    model(Operation::Subtract, a, b)
}

/// The model's `a * b`.
pub open spec fn product(model: Model, a: u64, b: u64) -> u64 {
    model(Operation::Multiply, a, b)
}

/// The model's `a / b`.
pub open spec fn quotient(model: Model, a: u64, b: u64) -> u64 {
    model(Operation::Divide, a, b)
}

/// The model's pattern for the unsigned integer `n`.
pub open spec fn from_integer(model: Model, n: u64) -> u64 {
    model(Operation::FromInteger, n, 0)
}

/// The model's integer part of the pattern `a`.
pub open spec fn to_integer(model: Model, a: u64) -> u64 {
    model(Operation::ToInteger, a, 0)
}

/// Carries out one operation.
pub fn evaluate<A: Fn(Operation, u64, u64) -> u64>(arith: &A, op: Operation, a: u64, b: u64) -> (r:
    u64)
    requires
        total(*arith),
    ensures
        call_ensures(*arith, (op, a, b), r),
        forall|model: Model| #[trigger] follows(*arith, model) ==> r == model(op, a, b),
{
    arith(op, a, b)
}

} // verus!
