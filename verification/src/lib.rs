//! Execution core of a stack-based bytecode interpreter: the operand and
//! control stacks, the register triple that ties block entry and exit
//! together, the control-block lifecycle, and a byte memory with typed,
//! tag-checked reads.

pub mod errors;
pub mod instructions;
pub mod kernel;
pub mod memory;
pub mod stacks;
pub mod types;
