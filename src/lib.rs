//! Assembly of the ADC syscall driver for a board with a SAM4L-style
//! analog-to-digital converter.
//!
//! The driver is built exactly once at boot: an allocation capability is
//! acquired, the fixed channel table is built, a grant and three sample
//! buffers are reserved in permanent static storage, the driver object is
//! placed there too, and finally the hardware peripheral is bound to it as
//! its sole interrupt client.
mod channel;
mod component;
mod driver;
mod error;
mod hardware;
mod kernel;
mod storage;

pub use channel::{
    board_wiring, build_channel_table, lemma_board_wiring, wired_channel, AdcChannel, NUM_CHANNELS,
};
pub use component::{
    assembled, assembly_error, lemma_assembled_channel_table, lemma_assembled_regions_disjoint,
    lemma_assemblies_do_not_alias, lemma_reassembly_refused, region_at, AdcComponent,
};
pub use driver::{
    Adc, AdcView, ADC_BUFFER_BYTES, ADC_BUFFER_LEN, ASSEMBLY_BYTES, CHANNEL_REF_BYTES,
    CHANNEL_TABLE_BYTES, DRIVER_BYTES, SAMPLE_BYTES,
};
pub use error::AssemblyError;
pub use hardware::{AdcHardware, SAM4L_ADC_INPUTS};
pub use kernel::{Grant, Kernel, MemoryAllocationCapability};
pub use storage::{Region, StaticArena};
