//! The ADC driver object and the static storage it occupies.
use vstd::prelude::*;
use crate::channel::{AdcChannel, NUM_CHANNELS};
use crate::kernel::Grant;
use crate::storage::Region;

verus! {

/// Samples held by each of the three sample buffers.
pub const ADC_BUFFER_LEN: usize = 128;

/// Bytes of one sample.
pub const SAMPLE_BYTES: usize = 2;

/// Bytes of one sample buffer.
pub const ADC_BUFFER_BYTES: usize = ADC_BUFFER_LEN * SAMPLE_BYTES;

/// Bytes of one channel reference on the 32-bit target.
pub const CHANNEL_REF_BYTES: usize = 4;

/// Bytes of the channel table.
pub const CHANNEL_TABLE_BYTES: usize = NUM_CHANNELS * CHANNEL_REF_BYTES;

/// Bytes reserved for the driver object itself.
pub const DRIVER_BYTES: usize = 64;

/// Static storage that one assembly takes: the channel table, the three
/// sample buffers and the driver object, laid out in that order.
pub const ASSEMBLY_BYTES: usize = CHANNEL_TABLE_BYTES + 3 * ADC_BUFFER_BYTES + DRIVER_BYTES;

/// What a driver is made of, as seen by contracts.
pub ghost struct AdcView {
    /// Where the driver object lives; its start is the driver's identity.
    pub location: Region,
    /// Where the channel table lives.
    pub table: Region,
    /// The channel table, logical channel `i` at index `i`.
    pub channels: Seq<AdcChannel>,
    /// The number of the driver's grant.
    pub grant: nat,
    /// The three sample buffers.
    pub buffers: Seq<Region>,
}

impl AdcView {
    /// Every region of static storage that the driver owns.
    pub open spec fn regions(self) -> Seq<Region> {
        seq![self.table, self.buffers[0], self.buffers[1], self.buffers[2], self.location]
    }
}

/// The userspace ADC driver: its channel table, its grant and its three
/// sample buffers, all in permanent static storage.
pub struct Adc {
    location: Region,
    table: Region,
    channels: Vec<AdcChannel>,
    grant: Grant,
    buffer1: Region,
    buffer2: Region,
    buffer3: Region,
}

impl View for Adc {
    type V = AdcView;

    closed spec fn view(&self) -> AdcView {
        AdcView {
            location: self.location,
            table: self.table,
            channels: self.channels@,
            grant: self.grant@,
            buffers: seq![self.buffer1, self.buffer2, self.buffer3],
        }
    }
}

impl Adc {
    /// Puts the parts together; the driver object itself is at `location`.
    pub(crate) fn new(
        location: Region,
        table: Region,
        channels: Vec<AdcChannel>,
        grant: Grant,
        buffer1: Region,
        buffer2: Region,
        buffer3: Region,
    ) -> (r: Adc)
        ensures
            r@.location == location,
            r@.table == table,
            r@.channels == channels@,
            r@.grant == grant@,
            r@.buffers == seq![buffer1, buffer2, buffer3],
    {
        Adc { location, table, channels, grant, buffer1, buffer2, buffer3 }
    }

    /// The driver's identity: the address of the driver object.
    pub fn address(&self) -> (r: usize)
        ensures
            r == self@.location.start,
    {
        self.location.start
    }

    pub fn location(&self) -> (r: Region)
        ensures
            r == self@.location,
    {
        self.location
    }

    pub fn channel_table(&self) -> (r: Region)
        ensures
            r == self@.table,
    {
        self.table
    }

    pub fn channels(&self) -> (r: &Vec<AdcChannel>)
        ensures
            r@ == self@.channels,
    {
        &self.channels
    }

    pub fn grant_num(&self) -> (r: usize)
        ensures
            r == self@.grant,
    {
        self.grant.grant_num()
    }

    /// Sample buffer `i`, counted from zero.
    pub fn buffer(&self, i: usize) -> (r: Region)
        requires
            i < 3,
        ensures
            r == self@.buffers[i as int],
    {
        if i == 0 {
            self.buffer1
        } else if i == 1 {
            self.buffer2
        } else {
            self.buffer3
        }
    }
}

} // verus!
