//! Why an assembly of the driver was refused.
use vstd::prelude::*;

verus! {

/// Every failure is fatal to system bring-up: the caller halts with the
/// diagnostic instead of running with a partially built driver. None of
/// them leaves any trace in the kernel, the storage or the hardware.
#[derive(Clone, Copy, Debug, PartialEq, Eq, Structural)]
pub enum AssemblyError {
    /// This component has already produced its driver.
    AlreadyAssembled,
    /// The peripheral already has an interrupt client.
    ClientAlreadyBound,
    /// The peripheral lacks a physical channel that the board wires up.
    InsufficientChannels,
    /// Static storage cannot hold the driver, its table and its buffers.
    OutOfStaticMemory,
    /// The kernel has no grant number left to hand out.
    GrantsExhausted,
}

} // verus!
