//! The ADC peripheral, as far as assembly sees it.
use vstd::prelude::*;
use crate::driver::Adc;
use crate::error::AssemblyError;

verus! {

/// Physical inputs of the SAM4L's ADC: AD0 to AD14.
pub const SAM4L_ADC_INPUTS: u8 = 15;

/// The peripheral's register block. It exposes a number of physical
/// inputs and holds a non-owning reference to its interrupt client, by the
/// client's address. Binding is one-shot: once a client is set, the
/// peripheral refuses every other.
pub struct AdcHardware {
    num_channels: u8,
    client: Option<usize>,
}

impl AdcHardware {
    pub closed spec fn spec_num_channels(&self) -> nat {
        self.num_channels as nat
    }

    pub closed spec fn spec_client(&self) -> Option<usize> {
        self.client
    }

    /// An unbound peripheral with inputs AD0 to AD(num_channels - 1).
    pub fn new(num_channels: u8) -> (r: AdcHardware)
        ensures
            r.spec_num_channels() == num_channels,
            r.spec_client() is None,
    {
        AdcHardware { num_channels, client: None }
    }

    pub fn num_channels(&self) -> (r: u8)
        ensures
            r == self.spec_num_channels(),
    {
        self.num_channels
    }

    /// The address of the bound client, if any.
    pub fn client(&self) -> (r: Option<usize>)
        ensures
            r == self.spec_client(),
    {
        self.client
    }

    /// Makes `client` the receiver of the peripheral's interrupts. Refused,
    /// changing nothing, when a client is already bound.
    pub fn set_client(&mut self, client: &Adc) -> (r: Result<(), AssemblyError>)
        ensures
            final(self).spec_num_channels() == old(self).spec_num_channels(),
            r.is_ok() <==> old(self).spec_client() is None,
            match r {
                Ok(()) => final(self).spec_client() == Some(client@.location.start),
                Err(e) => e == AssemblyError::ClientAlreadyBound && final(self).spec_client()
                    == old(self).spec_client(),
            },
    {
        if self.client.is_some() {
            return Err(AssemblyError::ClientAlreadyBound);
        }
        self.client = Some(client.address());
        Ok(())
    }
}

} // verus!
