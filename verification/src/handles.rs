//! Opaque handles into the externally owned tables of the virtual machine.
//!
//! Each handle wraps a single non-negative index and is semantically distinct
//! from every other handle kind: the type system forbids comparing or mixing
//! handles of different kinds even when they wrap the same raw index. The
//! owning table, an external collaborator, is the only place where the raw
//! index is interpreted; this crate never does arithmetic on it.

use vstd::prelude::*;

verus! {

/// Index into the identifier/name table (variable, constant, method, global
/// and class-variable names).
#[derive(Clone, Copy, Debug, PartialEq, Eq, PartialOrd, Ord, Hash, Structural)]
pub struct Id(pub u32);

/// Index into the per-sequence inline-cache-variable table, paired with
/// instance-variable access to enable cached-offset lookups.
#[derive(Clone, Copy, Debug, PartialEq, Eq, PartialOrd, Ord, Hash, Structural)]
pub struct Ivc(pub usize);

/// Index into the per-sequence inline-storage-entry table, used by run-once
/// execution and dynamic-constant caching.
#[derive(Clone, Copy, Debug, PartialEq, Eq, PartialOrd, Ord, Hash, Structural)]
pub struct Ise(pub usize);

/// Index into the constant/literal pool (immediate numbers, strings, symbols,
/// ranges, frozen literals, duplication templates).
#[derive(Clone, Copy, Debug, PartialEq, Eq, PartialOrd, Ord, Hash, Structural)]
pub struct Value(pub usize);

/// Index into a case-dispatch jump table mapping literal values to
/// instruction offsets, used by optimized case/when dispatch.
#[derive(Clone, Copy, Debug, PartialEq, Eq, PartialOrd, Ord, Hash, Structural)]
pub struct CDHash(pub usize);

} // verus!
