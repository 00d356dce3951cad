//! What the actor counts.

use vstd::prelude::*;

verus! {

/// What the actor counts. Counters wrap around at their largest value.
#[derive(Debug, Clone, Copy, PartialEq, Eq, Structural)]
pub struct Metrics {
    /// Requests that the actor took up.
    pub actor_tick_main: u64,
    /// Entries inserted locally.
    pub new_entries_local: u64,
    /// Their content, in bytes.
    pub new_entries_local_size: u64,
    /// Entries received from peers.
    pub new_entries_remote: u64,
    /// Their content, in bytes.
    pub new_entries_remote_size: u64,
    /// Sync sessions whose snapshot is held now.
    pub sync_sessions_open: i64,
    /// Sync sessions whose snapshot was dropped because no handle to it was left.
    pub sync_sessions_reclaimed: u64,
}

/// `counter`, further by `by`, wrapping around.
pub open spec fn advanced(counter: u64, by: u64) -> u64 {
    if counter + by > u64::MAX {
        (counter + by - 0x1_0000_0000_0000_0000) as u64
    } else {
        (counter + by) as u64
    }
}

/// Before anything is counted.
pub open spec fn nothing_counted() -> Metrics {
    Metrics {
        actor_tick_main: 0,
        new_entries_local: 0,
        new_entries_local_size: 0,
        new_entries_remote: 0,
        new_entries_remote_size: 0,
        sync_sessions_open: 0,
        sync_sessions_reclaimed: 0,
    }
}

impl Metrics {
    /// Nothing counted yet.
    pub fn new() -> (m: Metrics)
        ensures
            m == nothing_counted(),
    {
        Metrics {
            actor_tick_main: 0,
            new_entries_local: 0,
            new_entries_local_size: 0,
            new_entries_remote: 0,
            new_entries_remote_size: 0,
            sync_sessions_open: 0,
            sync_sessions_reclaimed: 0,
        }
    }
}

/// Moves a counter on.
pub fn advance(counter: u64, by: u64) -> (r: u64)
    ensures
        r == advanced(counter, by),
{
    counter.wrapping_add(by)
}

/// Counters wrap around: so many steps further is the sum, modulo the number of values. Steps add
/// up, whatever they are taken in.
pub proof fn law_counters_add_up(counter: u64, by: u64, more: u64)
    ensures
        advanced(counter, by) == (counter + by) % 0x1_0000_0000_0000_0000,
        advanced(advanced(counter, by), more) == (counter + by + more) % 0x1_0000_0000_0000_0000,
        advanced(counter, 0) == counter,
{
}

/// At the start every count is zero.
pub proof fn law_counting_starts_at_zero()
    ensures
        ({
            let m = nothing_counted();
            &&& m.actor_tick_main == 0
            &&& m.new_entries_local == 0 && m.new_entries_local_size == 0
            &&& m.new_entries_remote == 0 && m.new_entries_remote_size == 0
            &&& m.sync_sessions_open == 0 && m.sync_sessions_reclaimed == 0
        }),
{
}

} // verus!
