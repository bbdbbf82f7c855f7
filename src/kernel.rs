//! The kernel's side of assembly: the allocation capability and grants.
use vstd::prelude::*;

verus! {

/// Proof that its holder may allocate kernel memory for processes. It has
/// no content; possession is the guarantee. Its field is private and the
/// only way to obtain one is [`acquire_allocation_capability`], which is
/// not visible outside this crate: code outside the assembly path cannot
/// build one, and so cannot create a grant.
pub struct MemoryAllocationCapability {
    sealed: (),
}

/// Produces the allocation capability. Reserved to the assembly path.
pub(crate) fn acquire_allocation_capability() -> (r: MemoryAllocationCapability) {
    MemoryAllocationCapability { sealed: () }
}

/// Handle of a per-process memory region kept for one driver, named by a
/// grant number that no other grant of the same kernel carries.
pub struct Grant {
    grant_num: usize,
}

impl View for Grant {
    type V = nat;

    closed spec fn view(&self) -> nat {
        self.grant_num as nat
    }
}

impl Grant {
    pub fn grant_num(&self) -> (r: usize)
        ensures
            r == self@,
    {
        self.grant_num
    }
}

/// The kernel's grant bookkeeping: grant numbers are handed out in order
/// from zero, each at most once.
pub struct Kernel {
    grant_counter: usize,
}

impl View for Kernel {
    /// The number of grants created so far, which is also the next number.
    type V = nat;

    closed spec fn view(&self) -> nat {
        self.grant_counter as nat
    }
}

impl Kernel {
    pub fn new() -> (r: Kernel)
        ensures
            r@ == 0,
    {
        Kernel { grant_counter: 0 }
    }

    pub fn grant_count(&self) -> (r: usize)
        ensures
            r == self@,
    {
        self.grant_counter
    }

    /// Creates the next grant. Only a holder of the allocation capability
    /// can ask. Fails, changing nothing, once every number is used.
    pub fn create_grant(&mut self, _cap: &MemoryAllocationCapability) -> (r: Option<Grant>)
        ensures
            r.is_some() <==> old(self)@ < usize::MAX,
            match r {
                Some(g) => g@ == old(self)@ && final(self)@ == old(self)@ + 1,
                None => final(self)@ == old(self)@,
            },
    {
        if self.grant_counter < usize::MAX {
            let g = Grant { grant_num: self.grant_counter };
            self.grant_counter = self.grant_counter + 1;
            Some(g)
        } else {
            None
        }
    }
}

} // verus!
