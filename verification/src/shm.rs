//! The shared memory window of a device.
use vstd::prelude::*;

verus! {

/// One region of the window.
#[derive(Clone, Copy, Debug, PartialEq, Eq, Structural)]
pub struct VirtioSharedMemory {
    /// Where the region starts, from the start of the window.
    pub offset: u64,
    /// The length of the region.
    pub len: u64,
}

/// The window and its regions.
#[derive(Debug, PartialEq, Eq)]
pub struct VirtioSharedMemoryList {
    /// The guest address of the window.
    pub addr: u64,
    /// The length of the window.
    pub len: u64,
    /// The regions of the window.
    pub region_list: Vec<VirtioSharedMemory>,
}

/// The window as contracts see it.
#[verifier::ext_equal]
pub struct ShmView {
    /// The guest address of the window.
    pub addr: u64,
    /// The length of the window.
    pub len: u64,
    /// The regions of the window.
    pub regions: Seq<VirtioSharedMemory>,
}

impl View for VirtioSharedMemoryList {
    type V = ShmView;

    open spec fn view(&self) -> ShmView {
        ShmView { addr: self.addr, len: self.len, regions: self.region_list@ }
    }
}

impl Clone for VirtioSharedMemoryList {
    fn clone(&self) -> (copy: Self)
        ensures
            copy@ == self@,
    {
        let region_list: Vec<VirtioSharedMemory> = self.region_list.clone();
        assert(region_list@ =~= self.region_list@);
        VirtioSharedMemoryList { addr: self.addr, len: self.len, region_list }
    }
}

/// A window together with the host address at which it is mapped, as contracts
/// see it.
pub open spec fn cache_view(cache: Option<(VirtioSharedMemoryList, u64)>) -> Option<
    (ShmView, u64),
> {
    match cache {
        Some((list, host_addr)) => Some((list@, host_addr)),
        None => None,
    }
}

/// Contracts see a window with the address, the length and the regions that it
/// has, and with its host address.
pub proof fn law_view_of_window_is_faithful(list: VirtioSharedMemoryList, host_addr: u64)
    ensures
        list@.addr == list.addr,
        list@.len == list.len,
        list@.regions == list.region_list@,
        cache_view(Some((list, host_addr))) == Some((list@, host_addr)),
        cache_view(None) == None::<(ShmView, u64)>,
{
}

} // verus!
