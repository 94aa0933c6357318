use vstd::prelude::*;

use crate::errors::WgseEngineError;
use crate::kernel::Kernel;
use crate::types::Instruction;

verus! {

/// The capability every command executor offers: interpret one decoded
/// instruction with exclusive access to the whole kernel, so that control
/// instructions can themselves enter, exit or reset blocks. The concrete
/// instruction semantics belong to the implementor, not to the kernel,
/// and no behaviour is promised here. An executor reports failures of
/// its own with `WgseEngineError::ExecutorFailure`, which the kernel
/// never raises itself, so that callers can tell the two apart.
pub trait WgseCommand {
    fn execute(&self, kernel: &mut Kernel, instruction: &Instruction) -> Result<
        (),
        WgseEngineError,
    >;
}

/// The command set built into this crate. A concrete instruction set is
/// supplied by the embedding program; the only built-in command ignores
/// its instruction and leaves the kernel untouched.
#[derive(Copy, Clone, Debug, PartialEq, Eq, Structural)]
pub enum WgseCommands {
    Nop,
}

impl WgseCommand for WgseCommands {
    fn execute(&self, _kernel: &mut Kernel, _instruction: &Instruction) -> Result<
        (),
        WgseEngineError,
    > {
        Ok(())
    }
}

} // verus!
