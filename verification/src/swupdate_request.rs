use vstd::prelude::*;
use crate::run_type::RunType;
use crate::source_type::SourceType;

verus! {

/// Capacity of the free-form `info` metadata buffer in the engine's layout.
pub const INFO_LEN: usize = 512;

/// Capacity of the `software_set` metadata buffer in the engine's layout.
pub const SOFTWARE_SET_LEN: usize = 256;

/// Capacity of the `running_mode` metadata buffer in the engine's layout.
pub const RUNNING_MODE_LEN: usize = 256;

/// Every byte of `s` is zero.
pub open spec fn is_zeroed(s: Seq<u8>) -> bool {
    forall|i: int| 0 <= i < s.len() ==> s[i] == 0
}

/// The request handed to the engine when a session starts.
///
/// The engine dictates the layout: fixed-capacity, NUL-padded byte buffers
/// and positionally numbered tags. This type models that request as plain
/// values; the unverified layer that makes the native call lays the same
/// fields out byte for byte.
pub struct SwupdateRequest {
    pub apiversion: u32,
    pub source: SourceType,
    pub dry_run: RunType,
    pub len: usize,
    pub info: Vec<u8>,
    pub software_set: Vec<u8>,
    pub running_mode: Vec<u8>,
    pub disable_store_swu: bool,
}

impl SwupdateRequest {
    /// The buffers have exactly the capacities the engine's layout fixes.
    pub open spec fn wf(self) -> bool {
        &&& self.info@.len() == INFO_LEN
        &&& self.software_set@.len() == SOFTWARE_SET_LEN
        &&& self.running_mode@.len() == RUNNING_MODE_LEN
    }

    /// A freshly built request for one local-file session: protocol fields at
    /// their defaults, the dry-run tag matching the caller's flag, and every
    /// metadata buffer zero-initialized.
    pub open spec fn is_fresh(self, dry_run: bool) -> bool {
        &&& self.wf()
        &&& self.apiversion == 0
        &&& self.source == SourceType::Local
        &&& self.dry_run == (if dry_run { RunType::Dryrun } else { RunType::Normal })
        &&& self.len == 0
        &&& is_zeroed(self.info@)
        &&& is_zeroed(self.software_set@)
        &&& is_zeroed(self.running_mode@)
        &&& !self.disable_store_swu
    }

    /// Build the request for one local-file session.
    pub fn new(dry_run: bool) -> (r: SwupdateRequest)
        ensures
            r.is_fresh(dry_run),
    {
        SwupdateRequest {
            apiversion: 0,
            source: SourceType::Local,
            dry_run: RunType::from_flag(dry_run),
            len: 0,
            info: zero_buffer(INFO_LEN),
            software_set: zero_buffer(SOFTWARE_SET_LEN),
            running_mode: zero_buffer(RUNNING_MODE_LEN),
            disable_store_swu: false,
        }
    }
}

/// A buffer of `n` zero bytes.
pub fn zero_buffer(n: usize) -> (v: Vec<u8>)
    ensures
        v@.len() == n,
        is_zeroed(v@),
{
    let mut v: Vec<u8> = Vec::new();
    let mut i: usize = 0;
    while i < n
        invariant
            i <= n,
            v@.len() == i,
            is_zeroed(v@),
        decreases n - i,
    {
        v.push(0);
        i = i + 1;
    }
    v
}

} // verus!
