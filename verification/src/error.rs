//! The conditions on which the boot sequence gives up.

use vstd::prelude::*;

verus! {

/// Why the loader cannot go on. None of these can be recovered from: the
/// caller reports the condition and halts the processor.
#[derive(Clone, Copy, Debug, PartialEq, Eq, Structural)]
pub enum BootError {
    /// The bootstrap handed over no boot information block.
    MissingBootInfo,
    /// The boot information block says nothing about modules.
    MissingModulesInfo,
    /// The module list is empty.
    NoModules,
    /// The application image is said to start at address zero.
    ZeroStartAddress,
    /// An address that the loader has to compute does not fit in an address.
    AddressOverflow,
    /// The memory window handed over is too short for what must be written.
    WindowTooSmall,
}

impl BootError {
    /// The text of the diagnostic for this condition.
    pub open spec fn spec_message(self) -> Seq<char> {
        match self {
            BootError::MissingBootInfo => "Could not find Multiboot information"@,
            BootError::MissingModulesInfo => "Could not find module information in the Multiboot information"@,
            BootError::NoModules => "Could not find a single module in the Multiboot information"@,
            BootError::ZeroStartAddress => "The first module starts at address zero"@,
            BootError::AddressOverflow => "An address does not fit in a machine word"@,
            BootError::WindowTooSmall => "The memory window is too small"@,
        }
    }

    /// The text to report before the processor is halted.
    pub fn message(self) -> (text: &'static str)
        ensures
            text@ == self.spec_message(),
    {
        match self {
            BootError::MissingBootInfo => "Could not find Multiboot information",
            BootError::MissingModulesInfo => "Could not find module information in the Multiboot information",
            BootError::NoModules => "Could not find a single module in the Multiboot information",
            BootError::ZeroStartAddress => "The first module starts at address zero",
            BootError::AddressOverflow => "An address does not fit in a machine word",
            BootError::WindowTooSmall => "The memory window is too small",
        }
    }
}

} // verus!
