//! Intermediate representation of the instruction set of a stack-based,
//! Ruby-style bytecode virtual machine.
//!
//! The representation is a closed tagged union ([`Instruction`]) with one
//! variant per opcode and typed operands, so an invalid opcode/operand
//! pairing cannot be represented. Operands that index external tables are
//! carried as distinct opaque handle types ([`Id`], [`Ivc`], [`Ise`],
//! [`Value`], [`CDHash`]); packed bitfield operands expose named predicates
//! ([`ExpandArrayFlags`]); and a few opcodes own entire nested instruction
//! sequences (closure, method and class bodies, run-once blocks) as
//! exclusively owned subtrees.
//!
//! The crate defines the representation and its local invariants only. An
//! external decoder builds trees bottom-up, and consumers (printer,
//! verifier, interpreter) read them; the representation itself is immutable
//! once built.

pub mod flags;
pub mod handles;
pub mod instruction;
pub mod operands;

pub use flags::ExpandArrayFlags;
pub use handles::CDHash;
pub use handles::Id;
pub use handles::Ise;
pub use handles::Ivc;
pub use handles::Value;
pub use instruction::Instruction;
pub use operands::BranchKind;
pub use operands::BuiltIn;
pub use operands::CallData;
pub use operands::JokeKind;
pub use operands::OpKind;
pub use operands::OpWithKind;
