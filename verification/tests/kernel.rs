use wgse_engine::errors::WgseEngineError;
use wgse_engine::instructions::{WgseCommand, WgseCommands};
use wgse_engine::kernel::Kernel;
use wgse_engine::types::{
    ControlBlockSignature, ControlBlockType, ControlFrame, Instruction, Registers, Value,
    ValueType,
};

fn signature(ty: ControlBlockType, args: usize, rets: usize) -> ControlBlockSignature {
    ControlBlockSignature {
        ty,
        args_ty: vec![ValueType::Integer; args],
        rets_ty: vec![ValueType::Integer; rets],
    }
}

/// A tiny instruction set for the loop scenarios: opcode 1 enters an
/// empty structure sub-block, opcode 2 corrupts the top frame's pc,
/// opcode 3 fails with an executor-owned error, any other opcode does
/// nothing.
struct TestCommands;

impl WgseCommand for TestCommands {
    fn execute(
        &self,
        kernel: &mut Kernel,
        instruction: &Instruction,
    ) -> Result<(), WgseEngineError> {
        match instruction.opcode {
            1 => kernel.try_enter_control_block(
                signature(ControlBlockType::StructureBlock, 0, 0),
                vec![],
            ),
            2 => kernel.control_stack.try_update_top_registers(Registers {
                sp: 0,
                bp: 0,
                pc: 99,
            }),
            3 => Err(WgseEngineError::ExecutorFailure("bad operand".to_string())),
            _ => Ok(()),
        }
    }
}

/// An executor that must never be consulted.
struct NoDispatch;

impl WgseCommand for NoDispatch {
    fn execute(
        &self,
        _kernel: &mut Kernel,
        _instruction: &Instruction,
    ) -> Result<(), WgseEngineError> {
        panic!("the loop dispatched an instruction it did not need to");
    }
}

#[test]
fn a_default_kernel_is_empty_with_zeroed_registers() {
    let kernel = Kernel::default();
    assert_eq!(kernel.operand_stack.len(), 0);
    assert_eq!(kernel.control_stack.len(), 0);
    assert_eq!(
        kernel.registers,
        Registers { sp: 0, bp: 0, pc: 0 }
    );
}

#[test]
fn entering_a_structure_block_sets_the_floor_below_the_arguments() {
    let mut kernel = Kernel::new();
    for i in 0..5 {
        kernel.operand_stack.push(Value::Integer(i));
    }
    kernel
        .try_enter_control_block(
            signature(ControlBlockType::StructureBlock, 1, 1),
            vec![],
        )
        .unwrap();
    assert_eq!(kernel.registers.sp, 4);
    assert_eq!(kernel.control_stack.try_top().unwrap().registers.sp, 4);

    // the block works: two scratch values, then its single return value
    kernel.operand_stack.push(Value::Integer(90));
    kernel.operand_stack.push(Value::Integer(91));
    kernel.operand_stack.push(Value::Integer(42));
    kernel.try_exit_control_block().unwrap();

    // back to the entry height: 4 floor values plus 1 return value
    assert_eq!(kernel.operand_stack.len(), 5);
    assert_eq!(
        *kernel.operand_stack.values(),
        vec![
            Value::Integer(0),
            Value::Integer(1),
            Value::Integer(2),
            Value::Integer(3),
            Value::Integer(42),
        ]
    );
    assert_eq!(kernel.control_stack.len(), 0);
}

#[test]
fn entering_a_function_call_moves_bp_and_exit_restores_the_callers() {
    let mut kernel = Kernel::new();
    kernel.operand_stack.push(Value::Integer(1));
    kernel.operand_stack.push(Value::Integer(2));

    // outer call consumes one argument: floor and bp drop to 1
    kernel
        .try_enter_control_block(signature(ControlBlockType::FunctionCall, 1, 0), vec![])
        .unwrap();
    assert_eq!(kernel.registers.sp, 1);
    assert_eq!(kernel.registers.bp, 1);
    assert_eq!(kernel.control_stack.try_top().unwrap().registers.bp, 1);

    kernel.operand_stack.push(Value::Integer(3));
    kernel.operand_stack.push(Value::Integer(4));
    kernel.operand_stack.push(Value::Integer(5));

    // inner call on height 5 with one argument: floor and bp drop to 4
    kernel
        .try_enter_control_block(signature(ControlBlockType::FunctionCall, 1, 0), vec![])
        .unwrap();
    assert_eq!(kernel.registers.sp, 4);
    assert_eq!(kernel.registers.bp, 4);

    // leaving the inner call restores bp from the outer call's floor
    kernel.try_exit_control_block().unwrap();
    assert_eq!(kernel.registers.bp, 1);
    assert_eq!(kernel.control_stack.len(), 1);
    assert_eq!(kernel.operand_stack.len(), 4);
}

#[test]
fn reset_re_exposes_the_loop_arguments_at_the_block_floor() {
    let mut kernel = Kernel::new();
    kernel.operand_stack.push(Value::Integer(10));
    kernel.operand_stack.push(Value::Integer(20));
    kernel.operand_stack.push(Value::Integer(30));
    kernel
        .try_enter_control_block(signature(ControlBlockType::LoopBlock, 2, 0), vec![])
        .unwrap();
    assert_eq!(kernel.registers.sp, 1);

    // the body piles values up, then leaves the next iteration's two
    // arguments on top
    kernel.operand_stack.push(Value::Integer(77));
    kernel.operand_stack.push(Value::Integer(40));
    kernel.operand_stack.push(Value::Integer(50));

    let frame: ControlFrame = kernel.control_stack.try_top().unwrap().clone();
    kernel.try_reset_control_block(&frame).unwrap();

    assert_eq!(
        *kernel.operand_stack.values(),
        vec![Value::Integer(10), Value::Integer(40), Value::Integer(50)]
    );
    assert_eq!(kernel.control_stack.len(), 1);
    assert_eq!(kernel.registers.sp, 1);
}

#[test]
fn reset_with_too_few_arguments_fails_with_exact_lengths() {
    let mut kernel = Kernel::new();
    kernel.operand_stack.push(Value::Integer(1));
    let frame = ControlFrame {
        signature: signature(ControlBlockType::LoopBlock, 2, 0),
        instructions: vec![],
        registers: Registers { sp: 0, bp: 0, pc: 0 },
    };
    let err = kernel.try_reset_control_block(&frame).unwrap_err();
    assert_eq!(
        err,
        WgseEngineError::StackReverseIndexExceeded { expect: 2, size: 1 }
    );
    assert_eq!(kernel.operand_stack.len(), 1);
}

#[test]
fn exit_on_an_empty_control_stack_fails() {
    let mut kernel = Kernel::new();
    assert_eq!(
        kernel.try_exit_control_block().unwrap_err(),
        WgseEngineError::StackEmpty
    );
}

#[test]
fn clear_that_fails_midway_keeps_the_partial_mutation() {
    let mut kernel = Kernel::new();
    kernel.operand_stack.push(Value::Integer(1));
    kernel.operand_stack.push(Value::Integer(2));
    // a frame whose recorded floor lies above the remaining stack
    let frame = ControlFrame {
        signature: signature(ControlBlockType::StructureBlock, 0, 1),
        instructions: vec![],
        registers: Registers { sp: 5, bp: 0, pc: 0 },
    };
    let err = kernel.try_clear_control_block(&frame).unwrap_err();
    assert_eq!(
        err,
        WgseEngineError::StackReverseIndexExceeded { expect: 5, size: 1 }
    );
    // the popped return value is already gone
    assert_eq!(*kernel.operand_stack.values(), vec![Value::Integer(1)]);
}

#[test]
fn exit_of_a_call_without_caller_frame_reports_the_missing_target() {
    let mut kernel = Kernel::new();
    kernel
        .try_enter_control_block(signature(ControlBlockType::LoopBlock, 0, 0), vec![])
        .unwrap();
    kernel
        .try_enter_control_block(signature(ControlBlockType::FunctionCall, 0, 0), vec![])
        .unwrap();
    let err = kernel.try_exit_control_block().unwrap_err();
    assert_eq!(
        err,
        WgseEngineError::MismatchedTarget("FunctionCallFrame".to_string())
    );
    assert_eq!(kernel.control_stack.len(), 0);
}

#[test]
fn the_loop_returns_only_after_the_entry_block_and_its_sub_blocks_exit() {
    // the outer block enters two nested sub-blocks; each needs one
    // iteration to enter and one to exit, and the outer block needs two
    // instruction steps plus its own exit: five iterations in all
    let program = vec![
        Instruction { opcode: 1, operand: 0 },
        Instruction { opcode: 1, operand: 0 },
    ];

    // one unit of fuel short: the loop is still inside the outer block
    let mut kernel = Kernel::new();
    kernel
        .try_enter_control_block(
            signature(ControlBlockType::StructureBlock, 0, 0),
            program.clone(),
        )
        .unwrap();
    let err = kernel.try_loop(&TestCommands, 4).unwrap_err();
    assert_eq!(err, WgseEngineError::StepLimitExceeded);
    assert_eq!(kernel.control_stack.len(), 1);

    // with enough fuel the loop ends exactly when that block is gone
    let mut kernel = Kernel::new();
    kernel
        .try_enter_control_block(
            signature(ControlBlockType::StructureBlock, 0, 0),
            program,
        )
        .unwrap();
    kernel.try_loop(&TestCommands, 5).unwrap();
    assert_eq!(kernel.control_stack.len(), 0);
}

#[test]
fn the_loop_stops_when_the_executor_corrupts_the_program_counter() {
    let mut kernel = Kernel::new();
    kernel
        .try_enter_control_block(
            signature(ControlBlockType::StructureBlock, 0, 0),
            vec![
                Instruction { opcode: 2, operand: 0 },
                Instruction { opcode: 0, operand: 0 },
            ],
        )
        .unwrap();
    let err = kernel.try_loop(&TestCommands, 10).unwrap_err();
    assert_eq!(err, WgseEngineError::StackIndexExceeded { expect: 99, size: 2 });
}

#[test]
fn the_loop_on_an_empty_control_stack_fails_and_changes_nothing() {
    let mut kernel = Kernel::new();
    kernel.operand_stack.push(Value::Real(1.5f64.to_bits()));
    let err = kernel.try_loop(&WgseCommands::Nop, 10).unwrap_err();
    assert_eq!(err, WgseEngineError::StackEmpty);
    assert_eq!(
        *kernel.operand_stack.values(),
        vec![Value::Real(1.5f64.to_bits())]
    );
    assert_eq!(kernel.control_stack.len(), 0);
}

#[test]
fn the_loop_with_no_budget_fails_and_changes_nothing() {
    let mut kernel = Kernel::new();
    kernel.operand_stack.push(Value::Integer(8));
    kernel
        .try_enter_control_block(signature(ControlBlockType::StructureBlock, 0, 0), vec![])
        .unwrap();
    let err = kernel.try_loop(&WgseCommands::Nop, 0).unwrap_err();
    assert_eq!(err, WgseEngineError::StepLimitExceeded);
    assert_eq!(kernel.control_stack.len(), 1);
    assert_eq!(*kernel.operand_stack.values(), vec![Value::Integer(8)]);
}

#[test]
fn an_exhausted_structure_block_exits_without_consulting_the_executor() {
    let mut kernel = Kernel::new();
    kernel.operand_stack.push(Value::Integer(4));
    kernel
        .try_enter_control_block(signature(ControlBlockType::StructureBlock, 0, 1), vec![])
        .unwrap();
    // the block's single return value; the frame carries no
    // instructions, so its pc is already exhausted
    kernel.operand_stack.push(Value::Integer(9));
    kernel.try_loop(&NoDispatch, 1).unwrap();
    assert_eq!(kernel.control_stack.len(), 0);
    assert_eq!(
        *kernel.operand_stack.values(),
        vec![Value::Integer(4), Value::Integer(9)]
    );
}

#[test]
fn a_frame_entered_with_a_corrupt_pc_fails_before_any_dispatch() {
    let mut kernel = Kernel::new();
    kernel
        .try_enter_control_block(signature(ControlBlockType::StructureBlock, 0, 0), vec![])
        .unwrap();
    kernel
        .control_stack
        .try_update_top_registers(Registers { sp: 0, bp: 0, pc: 7 })
        .unwrap();
    let err = kernel.try_loop(&NoDispatch, 5).unwrap_err();
    assert_eq!(err, WgseEngineError::StackIndexExceeded { expect: 7, size: 0 });
    assert_eq!(kernel.control_stack.len(), 1);
}

#[test]
fn an_executor_failure_is_handed_on_and_told_apart() {
    let mut kernel = Kernel::new();
    kernel
        .try_enter_control_block(
            signature(ControlBlockType::StructureBlock, 0, 0),
            vec![Instruction { opcode: 3, operand: 0 }],
        )
        .unwrap();
    let err = kernel.try_loop(&TestCommands, 10).unwrap_err();
    assert_eq!(
        err,
        WgseEngineError::ExecutorFailure("bad operand".to_string())
    );
}

#[test]
fn the_built_in_idle_command_leaves_the_kernel_unchanged() {
    let mut kernel = Kernel::new();
    kernel.operand_stack.push(Value::Integer(9));
    kernel
        .try_execute(&WgseCommands::Nop, Instruction { opcode: 0, operand: 0 })
        .unwrap();
    assert_eq!(*kernel.operand_stack.values(), vec![Value::Integer(9)]);
}
