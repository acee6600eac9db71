//! The instruction union: one variant per opcode, with typed operands.
//!
//! Six opcodes own a nested instruction sequence: the three definition
//! bodies (class, method, singleton method), the block bodies of calls and
//! super-calls, and run-once bodies. Ownership is exclusive and recursive,
//! so a tree can be
//! walked structurally with no out-of-band offsets. Jump offsets are local
//! to the sequence that contains the jump: they never cross into or out of a
//! nested sequence, and [`check_offsets_local`] checks exactly that.

use vstd::prelude::*;

use crate::flags::ExpandArrayFlags;
use crate::handles::CDHash;
use crate::handles::Id;
use crate::handles::Ise;
use crate::handles::Ivc;
use crate::handles::Value;
use crate::operands::BranchKind;
use crate::operands::BuiltIn;
use crate::operands::CallData;
use crate::operands::JokeKind;
use crate::operands::OpKind;
use crate::operands::OpWithKind;

verus! {

broadcast use vstd::std_specs::vec::group_vec_axioms, vstd::seq::group_seq_axioms;

/// One opcode of the virtual machine together with its operands.
///
/// The union is closed: every variant lists exactly the operand set of its
/// opcode, so a field combination that does not belong to a variant cannot
/// be constructed. A value is inert data, immutable once built.
#[derive(Debug)]
#[allow(inconsistent_fields)]
pub enum Instruction {
    Nop,
    GetLocal { index: usize, level: usize },
    SetLocal { index: usize, level: usize },
    GetBlockParam { index: usize, level: usize },
    SetBlockParam { index: usize, level: usize },
    GetBlockParamProxy { index: usize, level: usize },
    GetSpecial { key: u32, ty: u32 },
    SetSpecial { key: u32 },
    GetInstanceVariable { id: Id, ivc: Ivc },
    SetInstanceVariable { id: Id, ivc: Ivc },
    GetClassVariable { id: Id },
    SetClassVariable { id: Id },
    GetConstant { id: Id },
    SetConstant { id: Id },
    GetGlobal { id: Id },
    SetGlobal { id: Id },
    PutNil,
    PutSelf,
    PutObject { value: Value },
    PutSpecialObject { value_type: u32 },
    PutString { string: u32 },
    ConcatStrings { num: usize },
    ToString,
    ToRegexp,
    Intern,
    NewArray { num: usize },
    NewArrayKwSplat { num: usize },
    DupArray { ary: Value },
    DupHash { hash: Value },
    ExpandArray { num: usize, flags: ExpandArrayFlags },
    ConcatArray,
    SplatArray { flag: Value },
    NewHash { num: u32 },
    NewRange { flag: u32 },
    Pop,
    Dup,
    DupN { n: u32 },
    Swap,
    Reverse { n: u32 },
    RePut,
    TopN { n: u32 },
    SetN { n: u32 },
    AdjustStack { n: usize },
    Defined { op: u32, obj: Value },
    CheckMatch { flag: u32 },
    CheckKeyword { kw_bits_index: usize, kw_index: usize },
    CheckType { ty: u32 },
    DefineClass { id: Id, iseq: Vec<Instruction>, flags: u32 },
    DefineMethod { id: Id, iseq: Vec<Instruction> },
    DefineSMethod { id: Id, iseq: Vec<Instruction> },
    Send { call_data: CallData, block_iseq: Vec<Instruction> },
    OptSendWithoutBlock { call_data: CallData },
    OptStrFreeze { string: Value, call_data: CallData },
    OptStrUminus { string: Value, call_data: CallData },
    OptNewArrayMax { num: u32 },
    OptNewArrayMin { num: u32 },
    InvokeSuper { call_data: CallData, block_iseq: Vec<Instruction> },
    InvokeBlock { call_data: CallData },
    Leave,
    Throw { throw_state: u32 },
    Jump { dst_offset: usize },
    Branch { kind: BranchKind, dst_offset: usize },
    OptSetInlineCache { inline_cache: u32 },
    Once { iseq: Vec<Instruction>, ise: Ise },
    OptCaseDispatch { hash: CDHash, else_offset: usize },
    OptOp { kind: OpKind, call_data: CallData },
    OptOpWith { kind: OpWithKind, key: Value, all_data: u32 },
    OptCallCFunc { ptr: usize },
    InvokeBuiltin { builtin: BuiltIn },
    InvokeBuiltinDelegate { builtin: BuiltIn, index: usize, leave: bool },
    Joke { kind: JokeKind },
}

impl Instruction {
    /// The nested instruction sequence this opcode owns, if it owns one.
    /// Exactly the class/method/singleton-method bodies, the block bodies of
    /// calls and super-calls, and run-once bodies own a sequence; every
    /// other opcode has none (an absence, not an empty sequence).
    pub open spec fn spec_nested_sequence(self) -> Option<Seq<Instruction>> {
        match self {
            Instruction::DefineClass { id, iseq, flags } => Some(iseq@),
            Instruction::DefineMethod { id, iseq } => Some(iseq@),
            Instruction::DefineSMethod { id, iseq } => Some(iseq@),
            Instruction::Send { call_data, block_iseq } => Some(block_iseq@),
            Instruction::InvokeSuper { call_data, block_iseq } => Some(block_iseq@),
            Instruction::Once { iseq, ise } => Some(iseq@),
            _ => None,
        }
    }

    /// Read-only access to the nested sequence of the six sequence-owning
    /// opcodes; `None` for every leaf opcode, so a consumer cannot recurse
    /// into an opcode that owns no body.
    pub fn nested_sequence(&self) -> (r: Option<&Vec<Instruction>>)
        ensures
            match r {
                Some(v) => self.spec_nested_sequence() == Some(v@),
                None => self.spec_nested_sequence() is None,
            },
    {
        match self {
            Instruction::DefineClass { iseq, .. } => Some(iseq),
            Instruction::DefineMethod { iseq, .. } => Some(iseq),
            Instruction::DefineSMethod { iseq, .. } => Some(iseq),
            Instruction::Send { block_iseq, .. } => Some(block_iseq),
            Instruction::InvokeSuper { block_iseq, .. } => Some(block_iseq),
            Instruction::Once { iseq, .. } => Some(iseq),
            _ => None,
        }
    }

    /// The jump-target offset this opcode carries, if it carries one: the
    /// destination of an unconditional or conditional jump, or the
    /// else-branch of an optimized case dispatch. The offset is relative to
    /// the sequence that contains the instruction, never to the whole
    /// program.
    pub open spec fn spec_jump_offset(self) -> Option<usize> {
        match self {
            Instruction::Jump { dst_offset } => Some(dst_offset),
            Instruction::Branch { kind, dst_offset } => Some(dst_offset),
            Instruction::OptCaseDispatch { hash, else_offset } => Some(else_offset),
            _ => None,
        }
    }

    /// Read-only access to the jump-target offset, `None` for opcodes that
    /// carry none.
    pub fn jump_offset(&self) -> (r: Option<usize>)
        ensures
            r == self.spec_jump_offset(),
    {
        match self {
            Instruction::Jump { dst_offset } => Some(*dst_offset),
            Instruction::Branch { dst_offset, .. } => Some(*dst_offset),
            Instruction::OptCaseDispatch { else_offset, .. } => Some(*else_offset),
            _ => None,
        }
    }

    /// Structural equality of two instructions: same opcode, equal operands,
    /// and, for the sequence-owning opcodes, nested sequences of the same
    /// length whose elements are structurally equal in order.
    pub open spec fn deep_eq(self, other: Instruction) -> bool
        decreases self,
    {
        match (self, other) {
            (Instruction::Nop, Instruction::Nop) => true,
            (
                Instruction::GetLocal { index: index_a, level: level_a },
                Instruction::GetLocal { index: index_b, level: level_b },
            ) => index_a == index_b && level_a == level_b,
            (
                Instruction::SetLocal { index: index_a, level: level_a },
                Instruction::SetLocal { index: index_b, level: level_b },
            ) => index_a == index_b && level_a == level_b,
            (
                Instruction::GetBlockParam { index: index_a, level: level_a },
                Instruction::GetBlockParam { index: index_b, level: level_b },
            ) => index_a == index_b && level_a == level_b,
            (
                Instruction::SetBlockParam { index: index_a, level: level_a },
                Instruction::SetBlockParam { index: index_b, level: level_b },
            ) => index_a == index_b && level_a == level_b,
            (
                Instruction::GetBlockParamProxy { index: index_a, level: level_a },
                Instruction::GetBlockParamProxy { index: index_b, level: level_b },
            ) => index_a == index_b && level_a == level_b,
            (
                Instruction::GetSpecial { key: key_a, ty: ty_a },
                Instruction::GetSpecial { key: key_b, ty: ty_b },
            ) => key_a == key_b && ty_a == ty_b,
            (
                Instruction::SetSpecial { key: key_a },
                Instruction::SetSpecial { key: key_b },
            ) => key_a == key_b,
            (
                Instruction::GetInstanceVariable { id: id_a, ivc: ivc_a },
                Instruction::GetInstanceVariable { id: id_b, ivc: ivc_b },
            ) => id_a == id_b && ivc_a == ivc_b,
            (
                Instruction::SetInstanceVariable { id: id_a, ivc: ivc_a },
                Instruction::SetInstanceVariable { id: id_b, ivc: ivc_b },
            ) => id_a == id_b && ivc_a == ivc_b,
            (
                Instruction::GetClassVariable { id: id_a },
                Instruction::GetClassVariable { id: id_b },
            ) => id_a == id_b,
            (
                Instruction::SetClassVariable { id: id_a },
                Instruction::SetClassVariable { id: id_b },
            ) => id_a == id_b,
            (
                Instruction::GetConstant { id: id_a },
                Instruction::GetConstant { id: id_b },
            ) => id_a == id_b,
            (
                Instruction::SetConstant { id: id_a },
                Instruction::SetConstant { id: id_b },
            ) => id_a == id_b,
            (
                Instruction::GetGlobal { id: id_a },
                Instruction::GetGlobal { id: id_b },
            ) => id_a == id_b,
            (
                Instruction::SetGlobal { id: id_a },
                Instruction::SetGlobal { id: id_b },
            ) => id_a == id_b,
            (Instruction::PutNil, Instruction::PutNil) => true,
            (Instruction::PutSelf, Instruction::PutSelf) => true,
            (
                Instruction::PutObject { value: value_a },
                Instruction::PutObject { value: value_b },
            ) => value_a == value_b,
            (
                Instruction::PutSpecialObject { value_type: value_type_a },
                Instruction::PutSpecialObject { value_type: value_type_b },
            ) => value_type_a == value_type_b,
            (
                Instruction::PutString { string: string_a },
                Instruction::PutString { string: string_b },
            ) => string_a == string_b,
            (
                Instruction::ConcatStrings { num: num_a },
                Instruction::ConcatStrings { num: num_b },
            ) => num_a == num_b,
            (Instruction::ToString, Instruction::ToString) => true,
            (Instruction::ToRegexp, Instruction::ToRegexp) => true,
            (Instruction::Intern, Instruction::Intern) => true,
            (
                Instruction::NewArray { num: num_a },
                Instruction::NewArray { num: num_b },
            ) => num_a == num_b,
            (
                Instruction::NewArrayKwSplat { num: num_a },
                Instruction::NewArrayKwSplat { num: num_b },
            ) => num_a == num_b,
            (
                Instruction::DupArray { ary: ary_a },
                Instruction::DupArray { ary: ary_b },
            ) => ary_a == ary_b,
            (
                Instruction::DupHash { hash: hash_a },
                Instruction::DupHash { hash: hash_b },
            ) => hash_a == hash_b,
            (
                Instruction::ExpandArray { num: num_a, flags: flags_a },
                Instruction::ExpandArray { num: num_b, flags: flags_b },
            ) => num_a == num_b && flags_a == flags_b,
            (Instruction::ConcatArray, Instruction::ConcatArray) => true,
            (
                Instruction::SplatArray { flag: flag_a },
                Instruction::SplatArray { flag: flag_b },
            ) => flag_a == flag_b,
            (
                Instruction::NewHash { num: num_a },
                Instruction::NewHash { num: num_b },
            ) => num_a == num_b,
            (
                Instruction::NewRange { flag: flag_a },
                Instruction::NewRange { flag: flag_b },
            ) => flag_a == flag_b,
            (Instruction::Pop, Instruction::Pop) => true,
            (Instruction::Dup, Instruction::Dup) => true,
            (Instruction::DupN { n: n_a }, Instruction::DupN { n: n_b }) => n_a == n_b,
            (Instruction::Swap, Instruction::Swap) => true,
            (
                Instruction::Reverse { n: n_a },
                Instruction::Reverse { n: n_b },
            ) => n_a == n_b,
            (Instruction::RePut, Instruction::RePut) => true,
            (Instruction::TopN { n: n_a }, Instruction::TopN { n: n_b }) => n_a == n_b,
            (Instruction::SetN { n: n_a }, Instruction::SetN { n: n_b }) => n_a == n_b,
            (
                Instruction::AdjustStack { n: n_a },
                Instruction::AdjustStack { n: n_b },
            ) => n_a == n_b,
            (
                Instruction::Defined { op: op_a, obj: obj_a },
                Instruction::Defined { op: op_b, obj: obj_b },
            ) => op_a == op_b && obj_a == obj_b,
            (
                Instruction::CheckMatch { flag: flag_a },
                Instruction::CheckMatch { flag: flag_b },
            ) => flag_a == flag_b,
            (
                Instruction::CheckKeyword { kw_bits_index: kw_bits_index_a, kw_index: kw_index_a },
                Instruction::CheckKeyword { kw_bits_index: kw_bits_index_b, kw_index: kw_index_b },
            ) => kw_bits_index_a == kw_bits_index_b && kw_index_a == kw_index_b,
            (
                Instruction::CheckType { ty: ty_a },
                Instruction::CheckType { ty: ty_b },
            ) => ty_a == ty_b,
            (
                Instruction::DefineClass { id: id_a, iseq: iseq_a, flags: flags_a },
                Instruction::DefineClass { id: id_b, iseq: iseq_b, flags: flags_b },
            ) => id_a == id_b && flags_a == flags_b && seq_deep_eq(iseq_a@, iseq_b@),
            (
                Instruction::DefineMethod { id: id_a, iseq: iseq_a },
                Instruction::DefineMethod { id: id_b, iseq: iseq_b },
            ) => id_a == id_b && seq_deep_eq(iseq_a@, iseq_b@),
            (
                Instruction::DefineSMethod { id: id_a, iseq: iseq_a },
                Instruction::DefineSMethod { id: id_b, iseq: iseq_b },
            ) => id_a == id_b && seq_deep_eq(iseq_a@, iseq_b@),
            (
                Instruction::Send { call_data: call_data_a, block_iseq: block_iseq_a },
                Instruction::Send { call_data: call_data_b, block_iseq: block_iseq_b },
            ) => call_data_a == call_data_b && seq_deep_eq(block_iseq_a@, block_iseq_b@),
            (
                Instruction::OptSendWithoutBlock { call_data: call_data_a },
                Instruction::OptSendWithoutBlock { call_data: call_data_b },
            ) => call_data_a == call_data_b,
            (
                Instruction::OptStrFreeze { string: string_a, call_data: call_data_a },
                Instruction::OptStrFreeze { string: string_b, call_data: call_data_b },
            ) => string_a == string_b && call_data_a == call_data_b,
            (
                Instruction::OptStrUminus { string: string_a, call_data: call_data_a },
                Instruction::OptStrUminus { string: string_b, call_data: call_data_b },
            ) => string_a == string_b && call_data_a == call_data_b,
            (
                Instruction::OptNewArrayMax { num: num_a },
                Instruction::OptNewArrayMax { num: num_b },
            ) => num_a == num_b,
            (
                Instruction::OptNewArrayMin { num: num_a },
                Instruction::OptNewArrayMin { num: num_b },
            ) => num_a == num_b,
            (
                Instruction::InvokeSuper { call_data: call_data_a, block_iseq: block_iseq_a },
                Instruction::InvokeSuper { call_data: call_data_b, block_iseq: block_iseq_b },
            ) => call_data_a == call_data_b && seq_deep_eq(block_iseq_a@, block_iseq_b@),
            (
                Instruction::InvokeBlock { call_data: call_data_a },
                Instruction::InvokeBlock { call_data: call_data_b },
            ) => call_data_a == call_data_b,
            (Instruction::Leave, Instruction::Leave) => true,
            (
                Instruction::Throw { throw_state: throw_state_a },
                Instruction::Throw { throw_state: throw_state_b },
            ) => throw_state_a == throw_state_b,
            (
                Instruction::Jump { dst_offset: dst_offset_a },
                Instruction::Jump { dst_offset: dst_offset_b },
            ) => dst_offset_a == dst_offset_b,
            (
                Instruction::Branch { kind: kind_a, dst_offset: dst_offset_a },
                Instruction::Branch { kind: kind_b, dst_offset: dst_offset_b },
            ) => kind_a == kind_b && dst_offset_a == dst_offset_b,
            (
                Instruction::OptSetInlineCache { inline_cache: inline_cache_a },
                Instruction::OptSetInlineCache { inline_cache: inline_cache_b },
            ) => inline_cache_a == inline_cache_b,
            (
                Instruction::Once { iseq: iseq_a, ise: ise_a },
                Instruction::Once { iseq: iseq_b, ise: ise_b },
            ) => ise_a == ise_b && seq_deep_eq(iseq_a@, iseq_b@),
            (
                Instruction::OptCaseDispatch { hash: hash_a, else_offset: else_offset_a },
                Instruction::OptCaseDispatch { hash: hash_b, else_offset: else_offset_b },
            ) => hash_a == hash_b && else_offset_a == else_offset_b,
            (
                Instruction::OptOp { kind: kind_a, call_data: call_data_a },
                Instruction::OptOp { kind: kind_b, call_data: call_data_b },
            ) => kind_a == kind_b && call_data_a == call_data_b,
            (
                Instruction::OptOpWith { kind: kind_a, key: key_a, all_data: all_data_a },
                Instruction::OptOpWith { kind: kind_b, key: key_b, all_data: all_data_b },
            ) => kind_a == kind_b && key_a == key_b && all_data_a == all_data_b,
            (
                Instruction::OptCallCFunc { ptr: ptr_a },
                Instruction::OptCallCFunc { ptr: ptr_b },
            ) => ptr_a == ptr_b,
            (
                Instruction::InvokeBuiltin { builtin: builtin_a },
                Instruction::InvokeBuiltin { builtin: builtin_b },
            ) => builtin_a == builtin_b,
            (
                Instruction::InvokeBuiltinDelegate {
                    builtin: builtin_a,
                    index: index_a,
                    leave: leave_a,
                },
                Instruction::InvokeBuiltinDelegate {
                    builtin: builtin_b,
                    index: index_b,
                    leave: leave_b,
                },
            ) => builtin_a == builtin_b && index_a == index_b && leave_a == leave_b,
            (
                Instruction::Joke { kind: kind_a },
                Instruction::Joke { kind: kind_b },
            ) => kind_a == kind_b,
            _ => false,
        }
    }

    /// Executable structural equality, exactly [`Self::deep_eq`]. This is
    /// what `==` on instructions runs.
    pub fn structural_eq(&self, other: &Instruction) -> (r: bool)
        ensures
            r == self.deep_eq(*other),
        decreases *self,
    {
        match (self, other) {
            (Instruction::Nop, Instruction::Nop) => true,
            (
                Instruction::GetLocal { index: index_a, level: level_a },
                Instruction::GetLocal { index: index_b, level: level_b },
            ) => index_a == index_b && level_a == level_b,
            (
                Instruction::SetLocal { index: index_a, level: level_a },
                Instruction::SetLocal { index: index_b, level: level_b },
            ) => index_a == index_b && level_a == level_b,
            (
                Instruction::GetBlockParam { index: index_a, level: level_a },
                Instruction::GetBlockParam { index: index_b, level: level_b },
            ) => index_a == index_b && level_a == level_b,
            (
                Instruction::SetBlockParam { index: index_a, level: level_a },
                Instruction::SetBlockParam { index: index_b, level: level_b },
            ) => index_a == index_b && level_a == level_b,
            (
                Instruction::GetBlockParamProxy { index: index_a, level: level_a },
                Instruction::GetBlockParamProxy { index: index_b, level: level_b },
            ) => index_a == index_b && level_a == level_b,
            (
                Instruction::GetSpecial { key: key_a, ty: ty_a },
                Instruction::GetSpecial { key: key_b, ty: ty_b },
            ) => key_a == key_b && ty_a == ty_b,
            (
                Instruction::SetSpecial { key: key_a },
                Instruction::SetSpecial { key: key_b },
            ) => key_a == key_b,
            (
                Instruction::GetInstanceVariable { id: id_a, ivc: ivc_a },
                Instruction::GetInstanceVariable { id: id_b, ivc: ivc_b },
            ) => id_a == id_b && ivc_a == ivc_b,
            (
                Instruction::SetInstanceVariable { id: id_a, ivc: ivc_a },
                Instruction::SetInstanceVariable { id: id_b, ivc: ivc_b },
            ) => id_a == id_b && ivc_a == ivc_b,
            (
                Instruction::GetClassVariable { id: id_a },
                Instruction::GetClassVariable { id: id_b },
            ) => id_a == id_b,
            (
                Instruction::SetClassVariable { id: id_a },
                Instruction::SetClassVariable { id: id_b },
            ) => id_a == id_b,
            (
                Instruction::GetConstant { id: id_a },
                Instruction::GetConstant { id: id_b },
            ) => id_a == id_b,
            (
                Instruction::SetConstant { id: id_a },
                Instruction::SetConstant { id: id_b },
            ) => id_a == id_b,
            (
                Instruction::GetGlobal { id: id_a },
                Instruction::GetGlobal { id: id_b },
            ) => id_a == id_b,
            (
                Instruction::SetGlobal { id: id_a },
                Instruction::SetGlobal { id: id_b },
            ) => id_a == id_b,
            (Instruction::PutNil, Instruction::PutNil) => true,
            (Instruction::PutSelf, Instruction::PutSelf) => true,
            (
                Instruction::PutObject { value: value_a },
                Instruction::PutObject { value: value_b },
            ) => value_a == value_b,
            (
                Instruction::PutSpecialObject { value_type: value_type_a },
                Instruction::PutSpecialObject { value_type: value_type_b },
            ) => value_type_a == value_type_b,
            (
                Instruction::PutString { string: string_a },
                Instruction::PutString { string: string_b },
            ) => string_a == string_b,
            (
                Instruction::ConcatStrings { num: num_a },
                Instruction::ConcatStrings { num: num_b },
            ) => num_a == num_b,
            (Instruction::ToString, Instruction::ToString) => true,
            (Instruction::ToRegexp, Instruction::ToRegexp) => true,
            (Instruction::Intern, Instruction::Intern) => true,
            (
                Instruction::NewArray { num: num_a },
                Instruction::NewArray { num: num_b },
            ) => num_a == num_b,
            (
                Instruction::NewArrayKwSplat { num: num_a },
                Instruction::NewArrayKwSplat { num: num_b },
            ) => num_a == num_b,
            (
                Instruction::DupArray { ary: ary_a },
                Instruction::DupArray { ary: ary_b },
            ) => ary_a == ary_b,
            (
                Instruction::DupHash { hash: hash_a },
                Instruction::DupHash { hash: hash_b },
            ) => hash_a == hash_b,
            (
                Instruction::ExpandArray { num: num_a, flags: flags_a },
                Instruction::ExpandArray { num: num_b, flags: flags_b },
            ) => num_a == num_b && flags_a == flags_b,
            (Instruction::ConcatArray, Instruction::ConcatArray) => true,
            (
                Instruction::SplatArray { flag: flag_a },
                Instruction::SplatArray { flag: flag_b },
            ) => flag_a == flag_b,
            (
                Instruction::NewHash { num: num_a },
                Instruction::NewHash { num: num_b },
            ) => num_a == num_b,
            (
                Instruction::NewRange { flag: flag_a },
                Instruction::NewRange { flag: flag_b },
            ) => flag_a == flag_b,
            (Instruction::Pop, Instruction::Pop) => true,
            (Instruction::Dup, Instruction::Dup) => true,
            (Instruction::DupN { n: n_a }, Instruction::DupN { n: n_b }) => n_a == n_b,
            (Instruction::Swap, Instruction::Swap) => true,
            (
                Instruction::Reverse { n: n_a },
                Instruction::Reverse { n: n_b },
            ) => n_a == n_b,
            (Instruction::RePut, Instruction::RePut) => true,
            (Instruction::TopN { n: n_a }, Instruction::TopN { n: n_b }) => n_a == n_b,
            (Instruction::SetN { n: n_a }, Instruction::SetN { n: n_b }) => n_a == n_b,
            (
                Instruction::AdjustStack { n: n_a },
                Instruction::AdjustStack { n: n_b },
            ) => n_a == n_b,
            (
                Instruction::Defined { op: op_a, obj: obj_a },
                Instruction::Defined { op: op_b, obj: obj_b },
            ) => op_a == op_b && obj_a == obj_b,
            (
                Instruction::CheckMatch { flag: flag_a },
                Instruction::CheckMatch { flag: flag_b },
            ) => flag_a == flag_b,
            (
                Instruction::CheckKeyword { kw_bits_index: kw_bits_index_a, kw_index: kw_index_a },
                Instruction::CheckKeyword { kw_bits_index: kw_bits_index_b, kw_index: kw_index_b },
            ) => kw_bits_index_a == kw_bits_index_b && kw_index_a == kw_index_b,
            (
                Instruction::CheckType { ty: ty_a },
                Instruction::CheckType { ty: ty_b },
            ) => ty_a == ty_b,
            (
                Instruction::DefineClass { id: id_a, iseq: iseq_a, flags: flags_a },
                Instruction::DefineClass { id: id_b, iseq: iseq_b, flags: flags_b },
            ) => {
                proof {
                    assert(decreases_to!(*self => *iseq_a));
                    assert(decreases_to!(*iseq_a => iseq_a@));
                }
                id_a == id_b && flags_a == flags_b && seq_structural_eq(iseq_a, iseq_b)
            },
            (
                Instruction::DefineMethod { id: id_a, iseq: iseq_a },
                Instruction::DefineMethod { id: id_b, iseq: iseq_b },
            ) => {
                proof {
                    assert(decreases_to!(*self => *iseq_a));
                    assert(decreases_to!(*iseq_a => iseq_a@));
                }
                id_a == id_b && seq_structural_eq(iseq_a, iseq_b)
            },
            (
                Instruction::DefineSMethod { id: id_a, iseq: iseq_a },
                Instruction::DefineSMethod { id: id_b, iseq: iseq_b },
            ) => {
                proof {
                    assert(decreases_to!(*self => *iseq_a));
                    assert(decreases_to!(*iseq_a => iseq_a@));
                }
                id_a == id_b && seq_structural_eq(iseq_a, iseq_b)
            },
            (
                Instruction::Send { call_data: call_data_a, block_iseq: block_iseq_a },
                Instruction::Send { call_data: call_data_b, block_iseq: block_iseq_b },
            ) => {
                proof {
                    assert(decreases_to!(*self => *block_iseq_a));
                    assert(decreases_to!(*block_iseq_a => block_iseq_a@));
                }
                call_data_a == call_data_b && seq_structural_eq(block_iseq_a, block_iseq_b)
            },
            (
                Instruction::OptSendWithoutBlock { call_data: call_data_a },
                Instruction::OptSendWithoutBlock { call_data: call_data_b },
            ) => call_data_a == call_data_b,
            (
                Instruction::OptStrFreeze { string: string_a, call_data: call_data_a },
                Instruction::OptStrFreeze { string: string_b, call_data: call_data_b },
            ) => string_a == string_b && call_data_a == call_data_b,
            (
                Instruction::OptStrUminus { string: string_a, call_data: call_data_a },
                Instruction::OptStrUminus { string: string_b, call_data: call_data_b },
            ) => string_a == string_b && call_data_a == call_data_b,
            (
                Instruction::OptNewArrayMax { num: num_a },
                Instruction::OptNewArrayMax { num: num_b },
            ) => num_a == num_b,
            (
                Instruction::OptNewArrayMin { num: num_a },
                Instruction::OptNewArrayMin { num: num_b },
            ) => num_a == num_b,
            (
                Instruction::InvokeSuper { call_data: call_data_a, block_iseq: block_iseq_a },
                Instruction::InvokeSuper { call_data: call_data_b, block_iseq: block_iseq_b },
            ) => {
                proof {
                    assert(decreases_to!(*self => *block_iseq_a));
                    assert(decreases_to!(*block_iseq_a => block_iseq_a@));
                }
                call_data_a == call_data_b && seq_structural_eq(block_iseq_a, block_iseq_b)
            },
            (
                Instruction::InvokeBlock { call_data: call_data_a },
                Instruction::InvokeBlock { call_data: call_data_b },
            ) => call_data_a == call_data_b,
            (Instruction::Leave, Instruction::Leave) => true,
            (
                Instruction::Throw { throw_state: throw_state_a },
                Instruction::Throw { throw_state: throw_state_b },
            ) => throw_state_a == throw_state_b,
            (
                Instruction::Jump { dst_offset: dst_offset_a },
                Instruction::Jump { dst_offset: dst_offset_b },
            ) => dst_offset_a == dst_offset_b,
            (
                Instruction::Branch { kind: kind_a, dst_offset: dst_offset_a },
                Instruction::Branch { kind: kind_b, dst_offset: dst_offset_b },
            ) => kind_a == kind_b && dst_offset_a == dst_offset_b,
            (
                Instruction::OptSetInlineCache { inline_cache: inline_cache_a },
                Instruction::OptSetInlineCache { inline_cache: inline_cache_b },
            ) => inline_cache_a == inline_cache_b,
            (
                Instruction::Once { iseq: iseq_a, ise: ise_a },
                Instruction::Once { iseq: iseq_b, ise: ise_b },
            ) => {
                proof {
                    assert(decreases_to!(*self => *iseq_a));
                    assert(decreases_to!(*iseq_a => iseq_a@));
                }
                ise_a == ise_b && seq_structural_eq(iseq_a, iseq_b)
            },
            (
                Instruction::OptCaseDispatch { hash: hash_a, else_offset: else_offset_a },
                Instruction::OptCaseDispatch { hash: hash_b, else_offset: else_offset_b },
            ) => hash_a == hash_b && else_offset_a == else_offset_b,
            (
                Instruction::OptOp { kind: kind_a, call_data: call_data_a },
                Instruction::OptOp { kind: kind_b, call_data: call_data_b },
            ) => kind_a == kind_b && call_data_a == call_data_b,
            (
                Instruction::OptOpWith { kind: kind_a, key: key_a, all_data: all_data_a },
                Instruction::OptOpWith { kind: kind_b, key: key_b, all_data: all_data_b },
            ) => kind_a == kind_b && key_a == key_b && all_data_a == all_data_b,
            (
                Instruction::OptCallCFunc { ptr: ptr_a },
                Instruction::OptCallCFunc { ptr: ptr_b },
            ) => ptr_a == ptr_b,
            (
                Instruction::InvokeBuiltin { builtin: builtin_a },
                Instruction::InvokeBuiltin { builtin: builtin_b },
            ) => {
                proof {
                    crate::operands::lemma_builtin_carries_nothing(*builtin_a, *builtin_b);
                }
                true
            },
            (
                Instruction::InvokeBuiltinDelegate {
                    builtin: builtin_a,
                    index: index_a,
                    leave: leave_a,
                },
                Instruction::InvokeBuiltinDelegate {
                    builtin: builtin_b,
                    index: index_b,
                    leave: leave_b,
                },
            ) => {
                proof {
                    crate::operands::lemma_builtin_carries_nothing(*builtin_a, *builtin_b);
                }
                index_a == index_b && leave_a == leave_b
            },
            (
                Instruction::Joke { kind: kind_a },
                Instruction::Joke { kind: kind_b },
            ) => kind_a == kind_b,
            _ => false,
        }
    }
}

/// Structural equality of two instruction sequences: same length, elements
/// structurally equal position by position.
pub open spec fn seq_deep_eq(a: Seq<Instruction>, b: Seq<Instruction>) -> bool
    decreases a,
{
    &&& a.len() == b.len()
    &&& forall|i: int| 0 <= i < a.len() ==> (#[trigger] a[i]).deep_eq(b[i])
}

/// Executable structural equality of two instruction sequences, exactly
/// [`seq_deep_eq`] on their views.
pub fn seq_structural_eq(x: &Vec<Instruction>, y: &Vec<Instruction>) -> (r: bool)
    ensures
        r == seq_deep_eq(x@, y@),
    decreases x@,
{
    if x.len() != y.len() {
        return false;
    }
    let mut i: usize = 0;
    while i < x.len()
        invariant
            i <= x@.len(),
            x@.len() == y@.len(),
            forall|j: int| 0 <= j < i ==> (#[trigger] x@[j]).deep_eq(y@[j]),
        decreases x@.len() - i,
    {
        proof {
            assert(decreases_to!(x@ => x@[i as int]));
        }
        if !x[i].structural_eq(&y[i]) {
            return false;
        }
        i = i + 1;
    }
    true
}

impl Instruction {
    /// The instruction is well formed with respect to a containing sequence
    /// of length `len`: its own jump offset, if any, lands inside
    /// `[0, len)`, and every nested sequence it owns is well formed with
    /// respect to its own length. Offsets never cross sequence levels, so
    /// `len` is not passed down into nested sequences.
    pub open spec fn spec_offsets_local(self, len: int) -> bool
        decreases self,
    {
        match self {
            Instruction::Jump { dst_offset } => dst_offset < len,
            Instruction::Branch { kind, dst_offset } => dst_offset < len,
            Instruction::OptCaseDispatch { hash, else_offset } => else_offset < len,
            Instruction::DefineClass { id, iseq, flags } => seq_offsets_local(iseq@),
            Instruction::DefineMethod { id, iseq } => seq_offsets_local(iseq@),
            Instruction::DefineSMethod { id, iseq } => seq_offsets_local(iseq@),
            Instruction::Send { call_data, block_iseq } => seq_offsets_local(block_iseq@),
            Instruction::InvokeSuper { call_data, block_iseq } => seq_offsets_local(block_iseq@),
            Instruction::Once { iseq, ise } => seq_offsets_local(iseq@),
            _ => true,
        }
    }

    /// Executable form of [`Self::spec_offsets_local`].
    pub fn check_offsets_local_in(&self, len: usize) -> (r: bool)
        ensures
            r == self.spec_offsets_local(len as int),
        decreases *self,
    {
        match self {
            Instruction::Jump { dst_offset } => *dst_offset < len,
            Instruction::Branch { dst_offset, .. } => *dst_offset < len,
            Instruction::OptCaseDispatch { else_offset, .. } => *else_offset < len,
            Instruction::DefineClass { iseq, .. } => {
                proof {
                    assert(decreases_to!(*self => *iseq));
                    assert(decreases_to!(*iseq => iseq@));
                }
                check_offsets_local(iseq)
            },
            Instruction::DefineMethod { iseq, .. } => {
                proof {
                    assert(decreases_to!(*self => *iseq));
                    assert(decreases_to!(*iseq => iseq@));
                }
                check_offsets_local(iseq)
            },
            Instruction::DefineSMethod { iseq, .. } => {
                proof {
                    assert(decreases_to!(*self => *iseq));
                    assert(decreases_to!(*iseq => iseq@));
                }
                check_offsets_local(iseq)
            },
            Instruction::Send { block_iseq, .. } => {
                proof {
                    assert(decreases_to!(*self => *block_iseq));
                    assert(decreases_to!(*block_iseq => block_iseq@));
                }
                check_offsets_local(block_iseq)
            },
            Instruction::InvokeSuper { block_iseq, .. } => {
                proof {
                    assert(decreases_to!(*self => *block_iseq));
                    assert(decreases_to!(*block_iseq => block_iseq@));
                }
                check_offsets_local(block_iseq)
            },
            Instruction::Once { iseq, .. } => {
                proof {
                    assert(decreases_to!(*self => *iseq));
                    assert(decreases_to!(*iseq => iseq@));
                }
                check_offsets_local(iseq)
            },
            _ => true,
        }
    }
}

/// Every jump offset in the sequence, at this level and inside every nested
/// sequence, lands inside the sequence that contains its jump instruction.
pub open spec fn seq_offsets_local(s: Seq<Instruction>) -> bool
    decreases s,
{
    forall|i: int| 0 <= i < s.len() ==> (#[trigger] s[i]).spec_offsets_local(s.len() as int)
}

/// Checks that every jump offset in `seq`, recursively through nested
/// sequences, is local: each lands in `[0, len)` of the sequence containing
/// its jump instruction, exactly [`seq_offsets_local`]. A jump at the last
/// offset of its sequence (`len - 1`) is accepted; one at `len` is not.
pub fn check_offsets_local(seq: &Vec<Instruction>) -> (r: bool)
    ensures
        r == seq_offsets_local(seq@),
    decreases seq@,
{
    let len: usize = seq.len();
    let mut i: usize = 0;
    while i < seq.len()
        invariant
            i <= seq@.len(),
            len == seq@.len(),
            forall|j: int|
                0 <= j < i ==> (#[trigger] seq@[j]).spec_offsets_local(seq@.len() as int),
        decreases seq@.len() - i,
    {
        proof {
            assert(decreases_to!(seq@ => seq@[i as int]));
        }
        if !seq[i].check_offsets_local_in(len) {
            return false;
        }
        i = i + 1;
    }
    true
}

/// An instruction is locally well formed exactly when its own jump offset
/// (as exposed by [`Instruction::spec_jump_offset`]) lands inside the
/// containing sequence and its nested sequence (as exposed by
/// [`Instruction::spec_nested_sequence`]) is well formed in itself. This
/// ties the offset checker to the two accessor views of an instruction.
pub proof fn lemma_offsets_local_characterization(ins: Instruction, len: int)
    ensures
        ins.spec_offsets_local(len) <==> {
            &&& match ins.spec_jump_offset() {
                Some(off) => off < len,
                None => true,
            }
            &&& match ins.spec_nested_sequence() {
                Some(s) => seq_offsets_local(s),
                None => true,
            }
        },
{
}

/// Structural equality is reflexive: every instruction tree equals itself.
/// With congruence of [`Instruction::deep_eq`] this is the positive half of
/// structural equality: two independently built trees with the same
/// opcodes, operands and nesting are structurally equal.
pub proof fn lemma_deep_eq_reflexive(a: Instruction)
    ensures
        a.deep_eq(a),
    decreases a,
{
    match a {
        Instruction::DefineClass { id, iseq, flags } => {
            lemma_seq_deep_eq_reflexive(iseq@);
        },
        Instruction::DefineMethod { id, iseq } => {
            lemma_seq_deep_eq_reflexive(iseq@);
        },
        Instruction::DefineSMethod { id, iseq } => {
            lemma_seq_deep_eq_reflexive(iseq@);
        },
        Instruction::Send { call_data, block_iseq } => {
            lemma_seq_deep_eq_reflexive(block_iseq@);
        },
        Instruction::InvokeSuper { call_data, block_iseq } => {
            lemma_seq_deep_eq_reflexive(block_iseq@);
        },
        Instruction::Once { iseq, ise } => {
            lemma_seq_deep_eq_reflexive(iseq@);
        },
        _ => {},
    }
}

/// Structural equality of sequences is reflexive.
pub proof fn lemma_seq_deep_eq_reflexive(s: Seq<Instruction>)
    ensures
        seq_deep_eq(s, s),
    decreases s,
{
    assert forall|i: int| 0 <= i < s.len() implies (#[trigger] s[i]).deep_eq(s[i]) by {
        lemma_deep_eq_reflexive(s[i]);
    }
}

/// Structural equality is symmetric.
pub proof fn lemma_deep_eq_symmetric(a: Instruction, b: Instruction)
    ensures
        a.deep_eq(b) == b.deep_eq(a),
    decreases a,
{
    match (a, b) {
        (
            Instruction::DefineClass { id: id_a, iseq: iseq_a, flags: flags_a },
            Instruction::DefineClass { id: id_b, iseq: iseq_b, flags: flags_b },
        ) => {
            lemma_seq_deep_eq_symmetric(iseq_a@, iseq_b@);
        },
        (
            Instruction::DefineMethod { id: id_a, iseq: iseq_a },
            Instruction::DefineMethod { id: id_b, iseq: iseq_b },
        ) => {
            lemma_seq_deep_eq_symmetric(iseq_a@, iseq_b@);
        },
        (
            Instruction::DefineSMethod { id: id_a, iseq: iseq_a },
            Instruction::DefineSMethod { id: id_b, iseq: iseq_b },
        ) => {
            lemma_seq_deep_eq_symmetric(iseq_a@, iseq_b@);
        },
        (
            Instruction::Send { call_data: call_data_a, block_iseq: block_iseq_a },
            Instruction::Send { call_data: call_data_b, block_iseq: block_iseq_b },
        ) => {
            lemma_seq_deep_eq_symmetric(block_iseq_a@, block_iseq_b@);
        },
        (
            Instruction::InvokeSuper { call_data: call_data_a, block_iseq: block_iseq_a },
            Instruction::InvokeSuper { call_data: call_data_b, block_iseq: block_iseq_b },
        ) => {
            lemma_seq_deep_eq_symmetric(block_iseq_a@, block_iseq_b@);
        },
        (
            Instruction::Once { iseq: iseq_a, ise: ise_a },
            Instruction::Once { iseq: iseq_b, ise: ise_b },
        ) => {
            lemma_seq_deep_eq_symmetric(iseq_a@, iseq_b@);
        },
        _ => {},
    }
}

/// Structural equality of sequences is symmetric.
pub proof fn lemma_seq_deep_eq_symmetric(x: Seq<Instruction>, y: Seq<Instruction>)
    ensures
        seq_deep_eq(x, y) == seq_deep_eq(y, x),
    decreases x,
{
    assert forall|i: int|
        0 <= i < x.len() && x.len() == y.len() implies (#[trigger] x[i]).deep_eq(y[i]) == y[i].deep_eq(
        x[i],
    ) by {
        lemma_deep_eq_symmetric(x[i], y[i]);
    }
}

/// Structural equality is transitive.
pub proof fn lemma_deep_eq_transitive(a: Instruction, b: Instruction, c: Instruction)
    requires
        a.deep_eq(b),
        b.deep_eq(c),
    ensures
        a.deep_eq(c),
    decreases a,
{
    match (a, b, c) {
        (
            Instruction::DefineClass { id: id_a, iseq: iseq_a, flags: flags_a },
            Instruction::DefineClass { id: id_b, iseq: iseq_b, flags: flags_b },
            Instruction::DefineClass { id: id_c, iseq: iseq_c, flags: flags_c },
        ) => {
            lemma_seq_deep_eq_transitive(iseq_a@, iseq_b@, iseq_c@);
        },
        (
            Instruction::DefineMethod { id: id_a, iseq: iseq_a },
            Instruction::DefineMethod { id: id_b, iseq: iseq_b },
            Instruction::DefineMethod { id: id_c, iseq: iseq_c },
        ) => {
            lemma_seq_deep_eq_transitive(iseq_a@, iseq_b@, iseq_c@);
        },
        (
            Instruction::DefineSMethod { id: id_a, iseq: iseq_a },
            Instruction::DefineSMethod { id: id_b, iseq: iseq_b },
            Instruction::DefineSMethod { id: id_c, iseq: iseq_c },
        ) => {
            lemma_seq_deep_eq_transitive(iseq_a@, iseq_b@, iseq_c@);
        },
        (
            Instruction::Send { call_data: call_data_a, block_iseq: block_iseq_a },
            Instruction::Send { call_data: call_data_b, block_iseq: block_iseq_b },
            Instruction::Send { call_data: call_data_c, block_iseq: block_iseq_c },
        ) => {
            lemma_seq_deep_eq_transitive(block_iseq_a@, block_iseq_b@, block_iseq_c@);
        },
        (
            Instruction::InvokeSuper { call_data: call_data_a, block_iseq: block_iseq_a },
            Instruction::InvokeSuper { call_data: call_data_b, block_iseq: block_iseq_b },
            Instruction::InvokeSuper { call_data: call_data_c, block_iseq: block_iseq_c },
        ) => {
            lemma_seq_deep_eq_transitive(block_iseq_a@, block_iseq_b@, block_iseq_c@);
        },
        (
            Instruction::Once { iseq: iseq_a, ise: ise_a },
            Instruction::Once { iseq: iseq_b, ise: ise_b },
            Instruction::Once { iseq: iseq_c, ise: ise_c },
        ) => {
            lemma_seq_deep_eq_transitive(iseq_a@, iseq_b@, iseq_c@);
        },
        _ => {},
    }
}

/// Structural equality of sequences is transitive.
pub proof fn lemma_seq_deep_eq_transitive(
    x: Seq<Instruction>,
    y: Seq<Instruction>,
    z: Seq<Instruction>,
)
    requires
        seq_deep_eq(x, y),
        seq_deep_eq(y, z),
    ensures
        seq_deep_eq(x, z),
    decreases x,
{
    assert forall|i: int| 0 <= i < x.len() implies (#[trigger] x[i]).deep_eq(z[i]) by {
        lemma_deep_eq_transitive(x[i], y[i], z[i]);
    }
}

/// Structurally equal instructions validate identically: whatever length of
/// containing sequence is assumed, the offset-locality verdict on one
/// carries over to the other. A consumer comparing a tree against a golden
/// copy may therefore reuse the copy's well-formedness verdict.
pub proof fn lemma_deep_eq_preserves_offsets_local(a: Instruction, b: Instruction, len: int)
    requires
        a.deep_eq(b),
    ensures
        a.spec_offsets_local(len) == b.spec_offsets_local(len),
    decreases a,
{
    match (a, b) {
        (
            Instruction::DefineClass { id: id_a, iseq: iseq_a, flags: flags_a },
            Instruction::DefineClass { id: id_b, iseq: iseq_b, flags: flags_b },
        ) => {
            lemma_seq_deep_eq_preserves_offsets_local(iseq_a@, iseq_b@);
        },
        (
            Instruction::DefineMethod { id: id_a, iseq: iseq_a },
            Instruction::DefineMethod { id: id_b, iseq: iseq_b },
        ) => {
            lemma_seq_deep_eq_preserves_offsets_local(iseq_a@, iseq_b@);
        },
        (
            Instruction::DefineSMethod { id: id_a, iseq: iseq_a },
            Instruction::DefineSMethod { id: id_b, iseq: iseq_b },
        ) => {
            lemma_seq_deep_eq_preserves_offsets_local(iseq_a@, iseq_b@);
        },
        (
            Instruction::Send { call_data: call_data_a, block_iseq: block_iseq_a },
            Instruction::Send { call_data: call_data_b, block_iseq: block_iseq_b },
        ) => {
            lemma_seq_deep_eq_preserves_offsets_local(block_iseq_a@, block_iseq_b@);
        },
        (
            Instruction::InvokeSuper { call_data: call_data_a, block_iseq: block_iseq_a },
            Instruction::InvokeSuper { call_data: call_data_b, block_iseq: block_iseq_b },
        ) => {
            lemma_seq_deep_eq_preserves_offsets_local(block_iseq_a@, block_iseq_b@);
        },
        (
            Instruction::Once { iseq: iseq_a, ise: ise_a },
            Instruction::Once { iseq: iseq_b, ise: ise_b },
        ) => {
            lemma_seq_deep_eq_preserves_offsets_local(iseq_a@, iseq_b@);
        },
        _ => {},
    }
}

/// Structurally equal sequences validate identically.
pub proof fn lemma_seq_deep_eq_preserves_offsets_local(x: Seq<Instruction>, y: Seq<Instruction>)
    requires
        seq_deep_eq(x, y),
    ensures
        seq_offsets_local(x) == seq_offsets_local(y),
    decreases x,
{
    if seq_offsets_local(x) {
        assert forall|i: int|
            0 <= i < y.len() implies (#[trigger] y[i]).spec_offsets_local(y.len() as int) by {
            lemma_deep_eq_preserves_offsets_local(x[i], y[i], x.len() as int);
        }
    }
    if seq_offsets_local(y) {
        assert forall|i: int|
            0 <= i < x.len() implies (#[trigger] x[i]).spec_offsets_local(x.len() as int) by {
            lemma_deep_eq_preserves_offsets_local(x[i], y[i], x.len() as int);
        }
    }
}

impl PartialEq for Instruction {
    /// `==` on instructions is structural equality of the whole trees.
    fn eq(&self, other: &Instruction) -> (r: bool) {
        self.structural_eq(other)
    }
}

impl vstd::std_specs::cmp::PartialEqSpecImpl for Instruction {
    open spec fn obeys_eq_spec() -> bool {
        true
    }

    open spec fn eq_spec(&self, other: &Instruction) -> bool {
        self.deep_eq(*other)
    }
}

} // verus!
