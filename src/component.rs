//! The component that assembles the ADC driver and binds it to the
//! peripheral.
use vstd::prelude::*;
use crate::channel::{board_wiring, build_channel_table, lemma_board_wiring, NUM_CHANNELS};
use crate::driver::{
    Adc, AdcView, ADC_BUFFER_BYTES, ASSEMBLY_BYTES, CHANNEL_TABLE_BYTES, DRIVER_BYTES,
};
use crate::error::AssemblyError;
use crate::hardware::AdcHardware;
use crate::kernel::{acquire_allocation_capability, Kernel};
use crate::storage::{Region, StaticArena};

verus! {

/// `r` is the block of `len` bytes from `start`.
pub open spec fn region_at(r: Region, start: int, len: int) -> bool {
    r.start == start && r.len == len
}

/// `a` is the driver that one assembly builds when the free static storage
/// begins at `start` and the kernel's next grant number is `grant`: the
/// board's channel table, that grant, and the channel table, the three
/// sample buffers and the driver object laid out one after the other.
pub open spec fn assembled(a: AdcView, start: int, grant: nat) -> bool {
    &&& a.channels == board_wiring()
    &&& a.grant == grant
    &&& a.buffers.len() == 3
    &&& region_at(a.table, start, CHANNEL_TABLE_BYTES as int)
    &&& region_at(a.buffers[0], start + CHANNEL_TABLE_BYTES, ADC_BUFFER_BYTES as int)
    &&& region_at(
        a.buffers[1],
        start + CHANNEL_TABLE_BYTES + ADC_BUFFER_BYTES,
        ADC_BUFFER_BYTES as int,
    )
    &&& region_at(
        a.buffers[2],
        start + CHANNEL_TABLE_BYTES + 2 * ADC_BUFFER_BYTES,
        ADC_BUFFER_BYTES as int,
    )
    &&& region_at(
        a.location,
        start + CHANNEL_TABLE_BYTES + 3 * ADC_BUFFER_BYTES,
        DRIVER_BYTES as int,
    )
}

/// Why an assembly is refused, checked in this order, or `None` when it
/// succeeds: the component has already assembled, the peripheral already
/// has a client, the peripheral lacks a wired input, the static storage
/// has fewer than `ASSEMBLY_BYTES` bytes left, or the kernel has no grant
/// number left.
pub open spec fn assembly_error(
    finalized: bool,
    client: Option<usize>,
    available: nat,
    remaining: int,
    grants: nat,
) -> Option<AssemblyError> {
    if finalized {
        Some(AssemblyError::AlreadyAssembled)
    } else if client is Some {
        Some(AssemblyError::ClientAlreadyBound)
    } else if available <= NUM_CHANNELS {
        Some(AssemblyError::InsufficientChannels)
    } else if remaining < ASSEMBLY_BYTES {
        Some(AssemblyError::OutOfStaticMemory)
    } else if grants >= usize::MAX {
        Some(AssemblyError::GrantsExhausted)
    } else {
        None
    }
}

/// One-shot builder of the ADC driver for a board's kernel.
pub struct AdcComponent {
    board_kernel: Kernel,
    finalized: bool,
}

impl AdcComponent {
    /// The number of grants the component's kernel has created.
    pub closed spec fn spec_grants(&self) -> nat {
        self.board_kernel@
    }

    /// Whether the component has produced its driver.
    pub closed spec fn spec_finalized(&self) -> bool {
        self.finalized
    }

    pub fn new(board_kernel: Kernel) -> (r: AdcComponent)
        ensures
            r.spec_grants() == board_kernel@,
            !r.spec_finalized(),
    {
        AdcComponent { board_kernel, finalized: false }
    }

    pub fn kernel(&self) -> (r: &Kernel)
        ensures
            r@ == self.spec_grants(),
    {
        &self.board_kernel
    }

    pub fn is_finalized(&self) -> (r: bool)
        ensures
            r == self.spec_finalized(),
    {
        self.finalized
    }

    /// Assembles the driver: acquires the allocation capability, builds the
    /// channel table, reserves the table and the three sample buffers in
    /// `static_storage`, creates the grant, places the driver object in
    /// static storage and, last of all, binds `adc0` to it. On success the
    /// peripheral's client is the returned driver, and the component will
    /// refuse to assemble again. On failure nothing has changed: no part of
    /// a driver is reserved, created or bound.
    pub fn finalize(&mut self, static_storage: &mut StaticArena, adc0: &mut AdcHardware) -> (r:
        Result<Adc, AssemblyError>)
        requires
            old(static_storage).wf(),
        ensures
            final(static_storage).wf(),
            final(static_storage).spec_capacity() == old(static_storage).spec_capacity(),
            final(adc0).spec_num_channels() == old(adc0).spec_num_channels(),
            r.is_ok() <==> assembly_error(
                old(self).spec_finalized(),
                old(adc0).spec_client(),
                old(adc0).spec_num_channels(),
                old(static_storage).spec_remaining(),
                old(self).spec_grants(),
            ) is None,
            match r {
                Ok(adc) => {
                    &&& assembled(adc@, old(static_storage).spec_next() as int, old(self).spec_grants())
                    &&& final(static_storage).spec_next() == old(static_storage).spec_next()
                        + ASSEMBLY_BYTES
                    &&& final(self).spec_grants() == old(self).spec_grants() + 1
                    &&& final(self).spec_finalized()
                    &&& old(adc0).spec_client() is None
                    &&& final(adc0).spec_client() == Some(adc@.location.start)
                },
                Err(e) => {
                    &&& Some(e) == assembly_error(
                        old(self).spec_finalized(),
                        old(adc0).spec_client(),
                        old(adc0).spec_num_channels(),
                        old(static_storage).spec_remaining(),
                        old(self).spec_grants(),
                    )
                    &&& final(static_storage)@ == old(static_storage)@
                    &&& final(self).spec_grants() == old(self).spec_grants()
                    &&& final(self).spec_finalized() == old(self).spec_finalized()
                    &&& final(adc0).spec_client() == old(adc0).spec_client()
                },
            },
    {
        if self.finalized {
            return Err(AssemblyError::AlreadyAssembled);
        }
        if adc0.client().is_some() {
            return Err(AssemblyError::ClientAlreadyBound);
        }
        let grant_cap = acquire_allocation_capability();
        let channels = match build_channel_table(adc0.num_channels()) {
            Ok(table) => table,
            Err(e) => return Err(e),
        };
        if static_storage.remaining() < ASSEMBLY_BYTES {
            return Err(AssemblyError::OutOfStaticMemory);
        }
        if self.board_kernel.grant_count() == usize::MAX {
            return Err(AssemblyError::GrantsExhausted);
        }
        let table = static_storage.reserve(CHANNEL_TABLE_BYTES).unwrap();
        let buffer1 = static_storage.reserve(ADC_BUFFER_BYTES).unwrap();
        let buffer2 = static_storage.reserve(ADC_BUFFER_BYTES).unwrap();
        let buffer3 = static_storage.reserve(ADC_BUFFER_BYTES).unwrap();
        let location = static_storage.reserve(DRIVER_BYTES).unwrap();
        let grant = self.board_kernel.create_grant(&grant_cap).unwrap();
        let adc = Adc::new(location, table, channels, grant, buffer1, buffer2, buffer3);
        self.finalized = true;
        match adc0.set_client(&adc) {
            Ok(()) => Ok(adc),
            Err(e) => Err(e),
        }
    }
}

/// Every assembled driver has a channel table of exactly `NUM_CHANNELS`
/// entries, logical channel `i` on physical input AD(i + 1), no input
/// twice.
pub proof fn lemma_assembled_channel_table(a: AdcView, start: int, grant: nat)
    requires
        assembled(a, start, grant),
    ensures
        a.channels.len() == NUM_CHANNELS,
        forall|i: int| 0 <= i < NUM_CHANNELS ==> (#[trigger] a.channels[i]).chan_num == i + 1,
        forall|i: int, j: int|
            0 <= i < NUM_CHANNELS && 0 <= j < NUM_CHANNELS && i != j ==> a.channels[i]
                != a.channels[j],
{
    lemma_board_wiring();
}

/// The regions of an assembled driver are pairwise disjoint, each buffer
/// has the fixed buffer size, and all of them lie in the `ASSEMBLY_BYTES`
/// bytes from `start`.
pub proof fn lemma_assembled_regions_disjoint(a: AdcView, start: int, grant: nat)
    requires
        assembled(a, start, grant),
    ensures
        forall|i: int| 0 <= i < 3 ==> (#[trigger] a.buffers[i]).len == ADC_BUFFER_BYTES,
        forall|i: int| 0 <= i < 5 ==> (#[trigger] a.regions()[i]).within(start, start + ASSEMBLY_BYTES),
        forall|i: int, j: int|
            0 <= i < 5 && 0 <= j < 5 && i != j ==> (#[trigger] a.regions()[i]).disjoint(
                #[trigger] a.regions()[j],
            ),
{
    assert(a.regions()[0] == a.table);
    assert(a.regions()[1] == a.buffers[0]);
    assert(a.regions()[2] == a.buffers[1]);
    assert(a.regions()[3] == a.buffers[2]);
    assert(a.regions()[4] == a.location);
}

/// Two drivers assembled one after the other from the same static storage
/// share no byte, and have distinct identities and grants.
pub proof fn lemma_assemblies_do_not_alias(
    a: AdcView,
    start_a: int,
    grant_a: nat,
    b: AdcView,
    start_b: int,
    grant_b: nat,
)
    requires
        assembled(a, start_a, grant_a),
        assembled(b, start_b, grant_b),
        start_a + ASSEMBLY_BYTES <= start_b,
        grant_a < grant_b,
    ensures
        a.location.start != b.location.start,
        a.grant != b.grant,
        forall|i: int, j: int|
            0 <= i < 5 && 0 <= j < 5 ==> (#[trigger] a.regions()[i]).disjoint(
                #[trigger] b.regions()[j],
            ),
{
    lemma_assembled_regions_disjoint(a, start_a, grant_a);
    lemma_assembled_regions_disjoint(b, start_b, grant_b);
    assert forall|i: int, j: int| 0 <= i < 5 && 0 <= j < 5 implies (#[trigger] a.regions()[i]).disjoint(
        #[trigger] b.regions()[j],
    ) by {
        assert(a.regions()[i].within(start_a, start_a + ASSEMBLY_BYTES));
        assert(b.regions()[j].within(start_b, start_b + ASSEMBLY_BYTES));
    }
}

/// After a successful assembly the peripheral has a client, and from then
/// on every assembly against it is refused, by the same component or any
/// other: no second driver is ever bound to the same peripheral.
pub proof fn lemma_reassembly_refused(
    finalized: bool,
    client: Option<usize>,
    available: nat,
    remaining: int,
    grants: nat,
)
    requires
        client is Some,
    ensures
        assembly_error(finalized, client, available, remaining, grants) is Some,
        assembly_error(true, client, available, remaining, grants) == Some(
            AssemblyError::AlreadyAssembled,
        ),
        !finalized ==> assembly_error(finalized, client, available, remaining, grants) == Some(
            AssemblyError::ClientAlreadyBound,
        ),
{
}

} // verus!
