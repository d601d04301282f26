use vstd::prelude::*;
use vstd::string::*;

verus! {

/// What one progress event carries.
#[derive(Clone, Copy, Debug, PartialEq, Eq, Structural)]
pub struct ProgressPayload {
    pub total: u64,
    pub current: u64,
}

/// Every progress event name starts with this.
pub const PROGRESS_EVENT_PREFIX: &'static str = "__progress__";

pub open spec fn event_id_of(correlation_id: Seq<char>) -> Seq<char> {
    PROGRESS_EVENT_PREFIX@ + correlation_id
}

/// The name under which the progress of the transfer `correlation_id` is
/// emitted.
pub fn event_id(correlation_id: &str) -> (r: String)
    ensures
        r@ == event_id_of(correlation_id@),
{
    let mut r = String::from_str(PROGRESS_EVENT_PREFIX);
    r.append(correlation_id);
    r
}

/// Transfers with distinct correlation ids emit under distinct names, so
/// neither sees the other's progress.
pub proof fn event_ids_are_disjoint(a: Seq<char>, b: Seq<char>)
    requires
        a != b,
    ensures
        event_id_of(a) != event_id_of(b),
{
    let p = PROGRESS_EVENT_PREFIX@;
    if event_id_of(a) == event_id_of(b) {
        assert(a =~= event_id_of(a).subrange(p.len() as int, event_id_of(a).len() as int));
        assert(b =~= event_id_of(b).subrange(p.len() as int, event_id_of(b).len() as int));
    }
}

/// `current` advanced by `len` bytes, never past `total`.
pub open spec fn advanced(current: u64, len: u64, total: u64) -> u64 {
    if current + len >= total {
        total
    } else {
        (current + len) as u64
    }
}

/// Bytes moved so far out of a known total.
#[derive(Clone, Copy, Debug, PartialEq, Eq, Structural)]
pub struct ProgressCounter {
    pub total: u64,
    pub current: u64,
}

impl ProgressCounter {
    pub open spec fn wf(&self) -> bool {
        self.current <= self.total
    }

    pub open spec fn payload_spec(&self) -> ProgressPayload {
        ProgressPayload { total: self.total, current: self.current }
    }

    /// A counter at zero out of `total`.
    pub fn new(total: u64) -> (r: ProgressCounter)
        ensures
            r.wf(),
            r.total == total,
            r.current == 0,
    {
        ProgressCounter { total, current: 0 }
    }

    pub fn payload(&self) -> (r: ProgressPayload)
        ensures
            r == self.payload_spec(),
    {
        ProgressPayload { total: self.total, current: self.current }
    }

    /// Counts a chunk of `len` bytes and returns the payload to emit.
    pub fn advance(&mut self, len: u64) -> (r: ProgressPayload)
        requires
            old(self).wf(),
        ensures
            final(self).wf(),
            final(self).total == old(self).total,
            final(self).current == advanced(old(self).current, len, old(self).total),
            r == final(self).payload_spec(),
    {
        if len >= self.total - self.current {
            self.current = self.total;
        } else {
            self.current = self.current + len;
        }
        self.payload()
    }
}

} // verus!
