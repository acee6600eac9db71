//! Closed operand enumerations and opaque call-site metadata.
//!
//! Each enumeration is a closed set of discriminants that appears as an
//! operand value inside certain instructions and selects a specialized
//! behavior at decode or execute time. Consumers are expected to match
//! exhaustively, so adding a discriminant is a compile-time-visible change.

use vstd::prelude::*;

verus! {

/// Condition test of a conditional jump.
#[derive(Clone, Copy, Debug, PartialEq, Eq, Hash, Structural)]
pub enum BranchKind {
    If,
    Unless,
    Nil,
}

/// Which specialized fast-path operator an optimized-operator instruction
/// performs.
#[derive(Clone, Copy, Debug, PartialEq, Eq, Hash, Structural)]
pub enum OpKind {
    NilP,
    Plus,
    Minus,
    Mult,
    Div,
    Mod,
    Eq,
    Neq,
    Lt,
    Le,
    Gt,
    Ge,
    LtLt,
    And,
    Or,
    ARef,
    ASet,
    Length,
    Size,
    EmptyP,
    Succ,
    Not,
    RegexpMatch2,
}

/// Specialized indexed-access variant of the with-cache-key optimized form.
#[derive(Clone, Copy, Debug, PartialEq, Eq, Hash, Structural)]
pub enum OpWithKind {
    ARef,
    ASet,
}

/// Specific behavior of a debug/no-op opcode.
#[derive(Clone, Copy, Debug, PartialEq, Eq, Hash, Structural)]
pub enum JokeKind {
    Blt,
    Answer,
}

/// Opaque call-site metadata (argument count and shape, method name
/// reference, block presence). The call-site table is an external
/// collaborator, so the descriptor is carried here as an opaque unit:
/// every calling instruction reserves a distinct field for it.
#[derive(Clone, Copy, Debug, PartialEq, Eq, Structural)]
pub struct CallData();

/// Reference into an externally defined builtin-function table.
///
/// The table's shape is not committed yet, so this type is a deliberate
/// extension point: it has no constructor, nothing in this crate makes a
/// value of it, and the field is private, so no value can exist outside the
/// crate either. Every instruction that carries one is structurally present
/// but unreachable until the table is defined. (The verifier requires every
/// datatype to be inhabited, so the type is a sealed struct rather than an
/// empty enum.)
#[derive(Clone, Copy, Debug)]
pub struct BuiltIn(());

/// The builtin-function reference is a placeholder that carries no
/// information of its own: any two values of it are equal. (No value can be
/// constructed at all outside this crate, and this crate constructs none.)
pub proof fn lemma_builtin_carries_nothing(a: BuiltIn, b: BuiltIn)
    ensures
        a == b,
{
}

} // verus!
