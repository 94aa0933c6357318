use vstd::prelude::*;

verus! {

/// A tagged runtime value moved between the operand stack and the
/// instruction executor. The kernel never looks inside one. A real
/// number is carried as its raw bit pattern: only the executor gives
/// those bits a reading.
#[derive(Copy, Clone, Debug, PartialEq, Eq, Structural)]
pub enum Value {
    Integer(i64),
    Real(u64),
    Address(u64),
}

/// One decoded instruction slot: an opcode with one immediate operand.
/// Its meaning is the executor's business, not the kernel's.
#[derive(Copy, Clone, Debug, Default, PartialEq, Eq, Structural)]
pub struct Instruction {
    pub opcode: u64,
    pub operand: u64,
}

/// The register triple. `sp` and `bp` are operand-stack heights: `sp`
/// marks the floor of the current block, `bp` the base of the current
/// function call's locals. `pc` indexes into the active frame's
/// instruction sequence.
#[derive(Copy, Clone, Debug, Default, PartialEq, Eq, Structural)]
pub struct Registers {
    pub sp: u64,
    pub bp: u64,
    pub pc: u64,
}

/// The declared type of one operand-stack slot.
#[derive(Copy, Clone, Debug, Default, PartialEq, Eq, Structural)]
pub enum ValueType {
    #[default]
    Integer,
    Real,
    Address,
}

/// The kind of a control block; it decides whether entry and exit touch
/// `bp` and whether exit unwinds through intervening frames.
#[derive(Copy, Clone, Debug, Default, PartialEq, Eq, Structural)]
pub enum ControlBlockType {
    #[default]
    StructureBlock,
    ConditionalBlock,
    LoopBlock,
    FunctionCall,
}

/// Declared arity of a control block: how many operand-stack slots it
/// consumes on entry (`args_ty`) and produces on exit (`rets_ty`).
#[derive(Clone, Debug, Default, PartialEq, Eq)]
pub struct ControlBlockSignature {
    pub ty: ControlBlockType,
    pub args_ty: Vec<ValueType>,
    pub rets_ty: Vec<ValueType>,
}

/// One activation record: a block signature, the block's instruction
/// sequence and the register snapshot taken at block entry.
#[derive(Clone, Debug, Default)]
pub struct ControlFrame {
    pub signature: ControlBlockSignature,
    pub instructions: Vec<Instruction>,
    pub registers: Registers,
}

impl ControlFrame {
    pub open spec fn spec_is_conditional_block(&self) -> bool {
        self.signature.ty is ConditionalBlock
    }

    pub open spec fn spec_is_loop_block(&self) -> bool {
        self.signature.ty is LoopBlock
    }

    pub open spec fn spec_is_function_call(&self) -> bool {
        self.signature.ty is FunctionCall
    }

    pub fn is_conditional_block(&self) -> (r: bool)
        ensures
            r == self.spec_is_conditional_block(),
    {
        self.signature.ty == ControlBlockType::ConditionalBlock
    }

    pub fn is_loop_block(&self) -> (r: bool)
        ensures
            r == self.spec_is_loop_block(),
    {
        self.signature.ty == ControlBlockType::LoopBlock
    }

    pub fn is_function_call(&self) -> (r: bool)
        ensures
            r == self.spec_is_function_call(),
    {
        self.signature.ty == ControlBlockType::FunctionCall
    }
}

} // verus!
