//! The board's fixed wiring of logical ADC channels to physical inputs.
use vstd::prelude::*;
use crate::error::AssemblyError;

verus! {

/// One physical ADC input of the peripheral, by its hardware number
/// (`chan_num == k` for input ADk).
#[derive(Clone, Copy, Debug, PartialEq, Eq, Structural)]
pub struct AdcChannel {
    pub chan_num: u8,
}

/// Logical channels offered to processes: AD0 to AD5.
pub const NUM_CHANNELS: usize = 6;

/// The board routes logical channel `i` to physical input AD(i + 1).
pub open spec fn wired_channel(i: int) -> AdcChannel {
    AdcChannel { chan_num: (i + 1) as u8 }
}

/// The channel table, logical channel `i` at index `i`.
pub open spec fn board_wiring() -> Seq<AdcChannel> {
    Seq::new(NUM_CHANNELS as nat, |i: int| wired_channel(i))
}

/// The table has one entry per logical channel, in logical order, and no
/// physical input appears twice.
pub proof fn lemma_board_wiring()
    ensures
        board_wiring().len() == NUM_CHANNELS,
        forall|i: int| 0 <= i < NUM_CHANNELS ==> (#[trigger] board_wiring()[i]).chan_num == i + 1,
        forall|i: int, j: int|
            0 <= i < NUM_CHANNELS && 0 <= j < NUM_CHANNELS && i != j ==> board_wiring()[i]
                != board_wiring()[j],
{
}

/// Builds the channel table for a peripheral that exposes the physical
/// inputs AD0 to AD(available - 1). Every wired input must exist: a
/// peripheral with too few inputs is a configuration error, never a
/// shorter table.
pub fn build_channel_table(available: u8) -> (r: Result<Vec<AdcChannel>, AssemblyError>)
    ensures
        r.is_ok() <==> NUM_CHANNELS < available,
        match r {
            Ok(table) => table@ == board_wiring(),
            Err(e) => e == AssemblyError::InsufficientChannels,
        },
{
    if available as usize <= NUM_CHANNELS {
        return Err(AssemblyError::InsufficientChannels);
    }
    let mut table: Vec<AdcChannel> = Vec::new();
    let mut i: usize = 0;
    while i < NUM_CHANNELS
        invariant
            i <= NUM_CHANNELS,
            table@ == board_wiring().take(i as int),
        decreases NUM_CHANNELS - i,
    {
        table.push(AdcChannel { chan_num: (i + 1) as u8 });
        i = i + 1;
        assert(table@ =~= board_wiring().take(i as int));
    }
    assert(table@ =~= board_wiring());
    Ok(table)
}

} // verus!
