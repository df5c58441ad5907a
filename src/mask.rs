//! Readiness conditions of a file descriptor, as the host's bit masks.
use vstd::prelude::*;

verus! {

/// The descriptor can be read without blocking.
pub const READABLE: u32 = 2;

/// The descriptor can be written without blocking.
pub const WRITABLE: u32 = 4;

/// An error condition was seen on the descriptor.
pub const EXCEPTION: u32 = 8;

/// The host's dispatch flag for file events.
pub const FILE_EVENTS: u32 = 8;

/// Whether a dispatch with these flags serves file events; when it does not, a
/// file event record stays queued for a later dispatch.
pub fn serves_file_events(flags: u32) -> (r: bool)
    ensures
        r == (flags & FILE_EVENTS != 0),
{
    flags & FILE_EVENTS != 0
}

/// `a` names no condition that `b` does not name.
pub open spec fn within(a: u32, b: u32) -> bool {
    a & b == a
}

/// `a` and `b` have some condition in common.
pub open spec fn overlaps(a: u32, b: u32) -> bool {
    a & b != 0
}

/// What one readiness test on a descriptor answered.
#[derive(Clone, Copy, Debug, PartialEq, Eq, Structural)]
pub enum Probe {
    /// Not ready yet.
    Pending,
    /// The condition holds.
    Ready,
    /// The test failed with an error.
    Failed,
}

/// What a watcher saw on one poll of its descriptor.
#[derive(Clone, Copy, Debug, PartialEq, Eq, Structural)]
pub enum Observation {
    /// The descriptor is no pollable I/O object: every condition counts as ready.
    Unpollable,
    /// Each condition that was tested, with its answer (`None`: not tested).
    Polled { readable: Option<Probe>, writable: Option<Probe> },
}

/// The bits that one test contributes: its own condition when ready, the
/// exceptional condition when it failed.
pub open spec fn probe_bits(p: Option<Probe>, condition: u32) -> u32 {
    match p {
        Some(Probe::Ready) => condition,
        Some(Probe::Failed) => EXCEPTION,
        _ => 0,
    }
}

/// The conditions an observation reports, before they are limited to the interest.
pub open spec fn observed_bits(o: Observation) -> u32 {
    match o {
        Observation::Unpollable => READABLE | WRITABLE,
        Observation::Polled { readable, writable } => probe_bits(readable, READABLE) | probe_bits(
            writable,
            WRITABLE,
        ),
    }
}

/// Whether an interest mask asks for a condition, so that it is worth testing.
pub fn wants(mask: u32, condition: u32) -> (r: bool)
    ensures
        r == overlaps(mask, condition),
{
    mask & condition != 0
}

fn probe_contribution(p: Option<Probe>, condition: u32) -> (r: u32)
    ensures
        r == probe_bits(p, condition),
{
    match p {
        Some(Probe::Ready) => condition,
        Some(Probe::Failed) => EXCEPTION,
        _ => 0,
    }
}

/// The conditions an observation reports.
pub fn observed(o: Observation) -> (r: u32)
    ensures
        r == observed_bits(o),
{
    match o {
        Observation::Unpollable => READABLE | WRITABLE,
        Observation::Polled { readable, writable } => probe_contribution(readable, READABLE)
            | probe_contribution(writable, WRITABLE),
    }
}

/// The ready mask after an observation: what was ready before, and what was
/// newly seen among the conditions of interest.
pub open spec fn accumulate(ready: u32, mask: u32, o: Observation) -> u32 {
    ready | (observed_bits(o) & mask)
}

/// Accumulating an observation into a ready mask within the interest keeps it there.
pub proof fn lemma_accumulate_within(ready: u32, mask: u32, o: Observation)
    requires
        within(ready, mask),
    ensures
        within(accumulate(ready, mask, o), mask),
{
    let b = observed_bits(o);
    assert((ready | (b & mask)) & mask == (ready | (b & mask))) by (bit_vector)
        requires
            ready & mask == ready,
    ;
}

} // verus!
