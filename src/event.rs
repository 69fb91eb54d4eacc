use crate::time::TimeInfo;
use vstd::prelude::*;

verus! {

/// One remembered event, as it is serialised before sealing.
pub struct MemoriaEvent {
    pub event: String,
    pub description: String,
    pub time: TimeInfo,
    pub store_time: TimeInfo,
    pub last_time: TimeInfo,
}

} // verus!
