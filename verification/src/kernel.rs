use vstd::prelude::*;

use crate::errors::WgseEngineError;
use crate::instructions::WgseCommand;
use crate::memory::Memory;
use crate::stacks::{lemma_non_call_suffix, non_call_suffix, ControlStack, OperandStack};
use crate::types::{ControlBlockSignature, ControlFrame, Instruction, Registers, Value};

verus! {

/// The execution core: one operand stack, one control stack, the live
/// register triple and the tagged data memory, mutated only through the
/// methods below.
#[derive(Debug)]
pub struct Kernel {
    pub operand_stack: OperandStack,
    pub control_stack: ControlStack,
    pub registers: Registers,
    pub rdata: Memory,
}

/// The operand stack after a block's local values are discarded: the
/// values below the block's floor `sp`, then the top `count` values,
/// which survive the exit. Meaningful when `count <= ops.len()` and
/// `sp <= ops.len() - count`.
pub open spec fn cleared_operands(ops: Seq<Value>, sp: int, count: int) -> Seq<Value> {
    ops.subrange(0, sp) + ops.subrange(ops.len() - count, ops.len() as int)
}

/// Law: clearing a block leaves exactly the frame's floor plus its
/// declared return count on the operand stack, however many values the
/// block pushed and dropped above its floor.
pub proof fn lemma_cleared_height(ops: Seq<Value>, sp: int, count: int)
    requires
        0 <= count <= ops.len(),
        0 <= sp <= ops.len() - count,
    ensures
        cleared_operands(ops, sp, count).len() == sp + count,
{
}

/// What clearing a block out of frame `cf` does to the operand stack,
/// the control stack and the registers, and which result it returns.
pub open spec fn block_clear_post(
    cf: ControlFrame,
    ops: Seq<Value>,
    ctrl: Seq<ControlFrame>,
    regs: Registers,
    post_ops: Seq<Value>,
    post_ctrl: Seq<ControlFrame>,
    post_regs: Registers,
    r: Result<(), WgseEngineError>,
) -> bool {
    let l = ops.len() as int;
    let count = cf.signature.rets_ty@.len() as int;
    let sp = cf.registers.sp as int;
    let ncs = non_call_suffix(ctrl) as int;
    if l < count {
        // too few return values: nothing was touched
        r == Err::<(), WgseEngineError>(
            WgseEngineError::StackReverseIndexExceeded { expect: count as u64, size: l as u64 },
        ) && post_ops == ops && post_ctrl == ctrl && post_regs == regs
    } else if sp > l - count {
        // the frame's floor lies above the remaining values; the popped
        // return values are already lost
        r == Err::<(), WgseEngineError>(
            WgseEngineError::StackReverseIndexExceeded {
                expect: cf.registers.sp,
                size: (l - count) as u64,
            },
        ) && post_ops == ops.subrange(0, l - count) && post_ctrl == ctrl && post_regs == regs
    } else if !cf.spec_is_function_call() || ctrl.len() == 0 {
        r == Ok::<(), WgseEngineError>(()) && post_ops == cleared_operands(ops, sp, count)
            && post_ctrl == ctrl && post_regs == regs
    } else if ncs < ctrl.len() {
        // unwind to the nearest caller frame and restore its floor as bp
        r == Ok::<(), WgseEngineError>(()) && post_ops == cleared_operands(ops, sp, count)
            && post_ctrl == ctrl.subrange(0, ctrl.len() - ncs) && post_regs == (Registers {
            bp: ctrl[ctrl.len() - 1 - ncs].registers.sp,
            ..regs
        })
    } else {
        // no caller frame anywhere: the control stack is emptied
        (r matches Err(e) && (e matches WgseEngineError::MismatchedTarget(m) && m@
            == "FunctionCallFrame"@)) && post_ops == cleared_operands(ops, sp, count) && post_ctrl
            == Seq::<ControlFrame>::empty() && post_regs == regs
    }
}

/// A top frame the interpretation loop exits without consulting the
/// executor: its `pc` is exhausted, it is not a function call, and its
/// recorded floor and return arity fit the operand stack.
pub open spec fn exits_without_dispatch(cf: ControlFrame, ops: Seq<Value>) -> bool {
    &&& cf.registers.pc == cf.instructions@.len()
    &&& !cf.spec_is_function_call()
    &&& cf.signature.rets_ty@.len() <= ops.len()
    &&& cf.registers.sp <= ops.len() - cf.signature.rets_ty@.len()
}

/// Law: a block exit with enough return values above the frame's
/// recorded floor succeeds; the values at and below the floor survive
/// unchanged, exactly the declared return values sit above them (so the
/// final height is floor plus return arity, however much the block
/// pushed and dropped in between), and for a frame that is not a
/// function call the control stack and the registers are untouched. For
/// a function call the law asks that a caller call frame exist below it,
/// or nothing at all: per the unwinding rules, a call frame above
/// call-free frames cannot exit successfully. The arguments are those of
/// `block_clear_post` as `try_exit_control_block` establishes it, where
/// `ctrl` is the control stack below the popped frame.
pub proof fn lemma_block_exit_outcome(
    cf: ControlFrame,
    ops: Seq<Value>,
    ctrl: Seq<ControlFrame>,
    regs: Registers,
    post_ops: Seq<Value>,
    post_ctrl: Seq<ControlFrame>,
    post_regs: Registers,
    r: Result<(), WgseEngineError>,
)
    requires
        block_clear_post(cf, ops, ctrl, regs, post_ops, post_ctrl, post_regs, r),
        cf.signature.rets_ty@.len() <= ops.len(),
        cf.registers.sp <= ops.len() - cf.signature.rets_ty@.len(),
        cf.spec_is_function_call() ==> ctrl.len() == 0 || non_call_suffix(ctrl) < ctrl.len(),
    ensures
        r == Ok::<(), WgseEngineError>(()),
        post_ops.len() == cf.registers.sp + cf.signature.rets_ty@.len(),
        post_ops.subrange(0, cf.registers.sp as int) == ops.subrange(0, cf.registers.sp as int),
        post_ops.subrange(cf.registers.sp as int, post_ops.len() as int) == ops.subrange(
            ops.len() - cf.signature.rets_ty@.len(),
            ops.len() as int,
        ),
        !cf.spec_is_function_call() ==> post_ctrl == ctrl && post_regs == regs,
{
    let sp = cf.registers.sp as int;
    let count = cf.signature.rets_ty@.len() as int;
    assert(post_ops == cleared_operands(ops, sp, count));
    assert(post_ops.subrange(0, sp) =~= ops.subrange(0, sp));
    assert(post_ops.subrange(sp, post_ops.len() as int) =~= ops.subrange(
        ops.len() - count,
        ops.len() as int,
    ));
}

impl Default for Kernel {
    /// A kernel with empty stacks, zeroed registers and an empty checked
    /// memory.
    fn default() -> (r: Self)
        ensures
            r.operand_stack@ == Seq::<Value>::empty(),
            r.control_stack@ == Seq::<ControlFrame>::empty(),
            r.registers == (Registers { sp: 0, bp: 0, pc: 0 }),
            r.rdata@ == Seq::<u8>::empty(),
            r.rdata.is_checked(),
    {
        Kernel::new()
    }
}

impl Kernel {
    pub fn new() -> (r: Self)
        ensures
            r.operand_stack@ == Seq::<Value>::empty(),
            r.control_stack@ == Seq::<ControlFrame>::empty(),
            r.registers == (Registers { sp: 0, bp: 0, pc: 0 }),
            r.rdata@ == Seq::<u8>::empty(),
            r.rdata.is_checked(),
    {
        Kernel {
            operand_stack: OperandStack::new(),
            control_stack: ControlStack::new(),
            registers: Registers { sp: 0, bp: 0, pc: 0 },
            rdata: Memory::new(),
        }
    }

    /// Opens a control block: the live `sp` drops to the floor below the
    /// block's declared arguments, a frame snapshotting the registers is
    /// pushed, and for a function call both the live and the snapshotted
    /// `bp` move to that same floor.
    pub fn try_enter_control_block(
        &mut self,
        signature: ControlBlockSignature,
        instructions: Vec<Instruction>,
    ) -> (r: Result<(), WgseEngineError>)
        requires
            signature.args_ty@.len() <= old(self).operand_stack@.len(),
        ensures
            r == Ok::<(), WgseEngineError>(()),
            final(self).operand_stack@ == old(self).operand_stack@,
            final(self).rdata == old(self).rdata,
            final(self).registers.sp == old(self).operand_stack@.len()
                - signature.args_ty@.len(),
            final(self).registers.pc == old(self).registers.pc,
            signature.ty is FunctionCall ==> final(self).registers.bp == final(self).registers.sp,
            !(signature.ty is FunctionCall) ==> final(self).registers.bp == old(self).registers.bp,
            final(self).control_stack@ == old(self).control_stack@.push(
                (ControlFrame { signature, instructions, registers: final(self).registers }),
            ),
    {
        let sp = (self.operand_stack.len() - signature.args_ty.len()) as u64;
        self.registers.sp = sp;
        if signature.ty == crate::types::ControlBlockType::FunctionCall {
            self.registers.bp = sp;
        }
        let frame = ControlFrame { signature, instructions, registers: self.registers };
        self.control_stack.push(frame);
        Ok(())
    }

    /// Pops the top control frame and clears the block it described.
    pub fn try_exit_control_block(&mut self) -> (r: Result<(), WgseEngineError>)
        ensures
            final(self).rdata == old(self).rdata,
            old(self).control_stack@.len() == 0 ==> r == Err::<(), WgseEngineError>(
                WgseEngineError::StackEmpty,
            ) && final(self).operand_stack@ == old(self).operand_stack@ && final(self).control_stack@ == old(self).control_stack@ && final(self).registers == old(self).registers,
            old(self).control_stack@.len() > 0 ==> block_clear_post(
                old(self).control_stack@.last(),
                old(self).operand_stack@,
                old(self).control_stack@.drop_last(),
                old(self).registers,
                final(self).operand_stack@,
                final(self).control_stack@,
                final(self).registers,
                r,
            ),
    {
        let frame = match self.control_stack.try_pop() {
            Ok(frame) => frame,
            Err(e) => {
                return Err(e);
            },
        };
        self.try_clear_control_block(&frame)
    }

    /// Discards the block's local operand-stack usage: pops the frame's
    /// declared return values, drops everything down to the frame's
    /// recorded floor, and pushes the return values back. For a function
    /// call with frames left below, additionally unwinds the control
    /// stack to the nearest call frame and restores the live `bp` from
    /// that frame's recorded `sp`.
    pub fn try_clear_control_block(&mut self, cf: &ControlFrame) -> (r: Result<
        (),
        WgseEngineError,
    >)
        ensures
            final(self).rdata == old(self).rdata,
            block_clear_post(
                *cf,
                old(self).operand_stack@,
                old(self).control_stack@,
                old(self).registers,
                final(self).operand_stack@,
                final(self).control_stack@,
                final(self).registers,
                r,
            ),
    {
        let count = cf.signature.rets_ty.len();
        let mut results = match self.operand_stack.try_pop_n(count) {
            Ok(values) => values,
            Err(e) => {
                return Err(e);
            },
        };
        let remaining = self.operand_stack.len();
        if cf.registers.sp > remaining as u64 {
            return Err(
                WgseEngineError::StackReverseIndexExceeded {
                    expect: cf.registers.sp,
                    size: remaining as u64,
                },
            );
        }
        let floor = cf.registers.sp as usize;
        match self.operand_stack.try_drop_n(remaining - floor) {
            Ok(_) => (),
            Err(e) => {
                return Err(e);
            },
        }
        self.operand_stack.append(&mut results);
        proof {
            assert(self.operand_stack@ =~= cleared_operands(
                old(self).operand_stack@,
                cf.registers.sp as int,
                cf.signature.rets_ty@.len() as int,
            ));
        }
        if cf.is_function_call() && self.control_stack.len() > 0 {
            proof {
                lemma_non_call_suffix(old(self).control_stack@);
            }
            let sp = match self.control_stack.try_pop_callframe() {
                Ok(frame) => frame.registers.sp,
                Err(e) => {
                    proof {
                        lemma_non_call_suffix(old(self).control_stack@);
                        assert(self.control_stack@ =~= Seq::<ControlFrame>::empty());
                    }
                    return Err(e);
                },
            };
            self.registers.bp = sp;
        }
        Ok(())
    }

    /// The loop back-edge: pops the frame's declared argument values,
    /// drops everything down to the frame's recorded floor, and pushes
    /// the arguments back, leaving the control stack and the registers
    /// untouched. The caller resets the frame's `pc` to restart the body.
    pub fn try_reset_control_block(&mut self, cf: &ControlFrame) -> (r: Result<
        (),
        WgseEngineError,
    >)
        ensures
            final(self).rdata == old(self).rdata,
            final(self).control_stack@ == old(self).control_stack@,
            final(self).registers == old(self).registers,
            ({
                let ops = old(self).operand_stack@;
                let l = ops.len() as int;
                let count = cf.signature.args_ty@.len() as int;
                let sp = cf.registers.sp as int;
                if l < count {
                    r == Err::<(), WgseEngineError>(
                        WgseEngineError::StackReverseIndexExceeded {
                            expect: count as u64,
                            size: l as u64,
                        },
                    ) && final(self).operand_stack@ == ops
                } else if sp > l - count {
                    r == Err::<(), WgseEngineError>(
                        WgseEngineError::StackReverseIndexExceeded {
                            expect: cf.registers.sp,
                            size: (l - count) as u64,
                        },
                    ) && final(self).operand_stack@ == ops.subrange(0, l - count)
                } else {
                    r == Ok::<(), WgseEngineError>(()) && final(self).operand_stack@
                        == cleared_operands(ops, sp, count)
                }
            }),
    {
        let count = cf.signature.args_ty.len();
        let mut args = match self.operand_stack.try_pop_n(count) {
            Ok(values) => values,
            Err(e) => {
                return Err(e);
            },
        };
        let remaining = self.operand_stack.len();
        if cf.registers.sp > remaining as u64 {
            return Err(
                WgseEngineError::StackReverseIndexExceeded {
                    expect: cf.registers.sp,
                    size: remaining as u64,
                },
            );
        }
        let floor = cf.registers.sp as usize;
        match self.operand_stack.try_drop_n(remaining - floor) {
            Ok(_) => (),
            Err(e) => {
                return Err(e);
            },
        }
        self.operand_stack.append(&mut args);
        proof {
            assert(self.operand_stack@ =~= cleared_operands(
                old(self).operand_stack@,
                cf.registers.sp as int,
                cf.signature.args_ty@.len() as int,
            ));
        }
        Ok(())
    }

    /// Hands one decoded instruction to the external command executor,
    /// which receives exclusive access to the whole kernel. A
    /// pass-through contract point: nothing is promised of the outcome.
    pub fn try_execute<C: WgseCommand>(&mut self, executor: &C, instruction: Instruction) -> (r:
        Result<(), WgseEngineError>)
    {
        executor.execute(self, &instruction)
    }

    /// The interpretation loop. Records the control-stack depth at entry
    /// and runs the top frame: an exhausted frame is exited, otherwise
    /// the next instruction is fetched, the frame's `pc` advanced and the
    /// instruction dispatched. The loop returns successfully exactly when
    /// the depth has dropped below its value at entry, that is, when the
    /// frame that was on top at entry (or an ancestor popped through it)
    /// is gone. Every iteration consumes one unit of `fuel`; an exhausted
    /// budget stops the loop with `StepLimitExceeded`.
    pub fn try_loop<C: WgseCommand>(&mut self, executor: &C, fuel: u64) -> (r: Result<
        (),
        WgseEngineError,
    >)
        ensures
            r == Ok::<(), WgseEngineError>(()) ==> final(self).control_stack@.len() < old(self).control_stack@.len(),
            fuel == 0 ==> r == Err::<(), WgseEngineError>(WgseEngineError::StepLimitExceeded)
                && *final(self) == *old(self),
            old(self).control_stack@.len() == 0 && fuel > 0 ==> r == Err::<(), WgseEngineError>(
                WgseEngineError::StackEmpty,
            ) && *final(self) == *old(self),
            old(self).control_stack@.len() > 0 && fuel > 0 && old(self).control_stack@.last().registers.pc > old(self).control_stack@.last().instructions@.len() ==> r == Err::<
                (),
                WgseEngineError,
            >(
                WgseEngineError::StackIndexExceeded {
                    expect: old(self).control_stack@.last().registers.pc,
                    size: old(self).control_stack@.last().instructions@.len() as u64,
                },
            ) && *final(self) == *old(self),
            old(self).control_stack@.len() > 0 && fuel > 0 && exits_without_dispatch(
                old(self).control_stack@.last(),
                old(self).operand_stack@,
            ) ==> r == Ok::<(), WgseEngineError>(()) && final(self).operand_stack@
                == cleared_operands(
                old(self).operand_stack@,
                old(self).control_stack@.last().registers.sp as int,
                old(self).control_stack@.last().signature.rets_ty@.len() as int,
            ) && final(self).control_stack@ == old(self).control_stack@.drop_last()
                && final(self).registers == old(self).registers
                && final(self).rdata == old(self).rdata,
    {
        let depth = self.control_stack.len();
        let mut remaining = fuel;
        while self.control_stack.len() >= depth
            invariant
                depth == old(self).control_stack@.len(),
                fuel == 0 ==> remaining == 0 && *self == *old(self),
                old(self).control_stack@.len() == 0 && fuel > 0 ==> remaining == fuel && *self
                    == *old(self),
                old(self).control_stack@.len() > 0 && fuel > 0 && old(self).control_stack@.last().registers.pc > old(self).control_stack@.last().instructions@.len() ==> remaining == fuel
                    && *self == *old(self),
                old(self).control_stack@.len() > 0 && fuel > 0 && exits_without_dispatch(
                    old(self).control_stack@.last(),
                    old(self).operand_stack@,
                ) ==> (remaining == fuel && *self == *old(self)) || (self.operand_stack@
                    == cleared_operands(
                    old(self).operand_stack@,
                    old(self).control_stack@.last().registers.sp as int,
                    old(self).control_stack@.last().signature.rets_ty@.len() as int,
                ) && self.control_stack@ == old(self).control_stack@.drop_last() && self.registers
                    == old(self).registers && self.rdata == old(self).rdata),
            decreases remaining,
        {
            if remaining == 0 {
                return Err(WgseEngineError::StepLimitExceeded);
            }
            remaining = remaining - 1;
            let pc: u64;
            let count: usize;
            let mut fetched: Option<(Instruction, Registers)> = None;
            match self.control_stack.try_top() {
                Ok(frame) => {
                    pc = frame.registers.pc;
                    count = frame.instructions.len();
                    if pc < count as u64 {
                        let instruction = frame.instructions[pc as usize];
                        let mut registers = frame.registers;
                        registers.pc = pc + 1;
                        fetched = Some((instruction, registers));
                    }
                },
                Err(e) => {
                    return Err(e);
                },
            }
            if pc == count as u64 {
                match self.try_exit_control_block() {
                    Ok(_) => (),
                    Err(e) => {
                        return Err(e);
                    },
                }
            } else if pc < count as u64 {
                let (instruction, registers) = match fetched {
                    Some(pair) => pair,
                    None => {
                        return Err(WgseEngineError::StackEmpty);
                    },
                };
                match self.control_stack.try_update_top_registers(registers) {
                    Ok(_) => (),
                    Err(e) => {
                        return Err(e);
                    },
                }
                match self.try_execute(executor, instruction) {
                    Ok(_) => (),
                    Err(e) => {
                        return Err(e);
                    },
                }
            } else {
                // the executor pushed the frame's pc past its instruction
                // count: such a frame cannot be run further
                return Err(
                    WgseEngineError::StackIndexExceeded { expect: pc, size: count as u64 },
                );
            }
        }
        Ok(())
    }
}

} // verus!
