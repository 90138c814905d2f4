//! The port allocator: a fixed inclusive range of ports, and the rule that
//! picks the first port whose loopback bind probe succeeded.
//!
//! The probe itself (binding a local-only listening socket just to test
//! availability) is operating-system work done by the host application;
//! this module decides which port the outcome of each probe selects. The
//! probe is inherently racy — the port may be taken between the test bind
//! and the actual use — which is accepted for a single-user desktop host
//! that starts the consumer moments later.

use vstd::prelude::*;

verus! {

/// The first port of the default range.
pub const DEFAULT_PORT_RANGE_START: u16 = 3001;

/// The last port of the default range.
pub const DEFAULT_PORT_RANGE_END: u16 = 3010;

/// A fixed inclusive range of candidate ports, scanned in ascending order.
#[derive(Debug, Clone, Copy, PartialEq, Eq, Structural)]
pub struct PortRange {
    pub start: u16,
    pub end: u16,
}

impl PortRange {
    /// A range is well formed when it is non-empty.
    pub open spec fn wf(self) -> bool {
        self.start <= self.end
    }

    /// Whether `port` lies within this closed range.
    pub open spec fn contains(self, port: u16) -> bool {
        self.start <= port <= self.end
    }

    /// How many ports the range holds.
    pub open spec fn len(self) -> int {
        self.end - self.start + 1
    }

    /// The default range.
    pub fn default_range() -> (r: PortRange)
        ensures
            r.start == DEFAULT_PORT_RANGE_START,
            r.end == DEFAULT_PORT_RANGE_END,
            r.wf(),
    {
        PortRange { start: DEFAULT_PORT_RANGE_START, end: DEFAULT_PORT_RANGE_END }
    }

    /// The first available port of the range, given the outcome of the
    /// loopback bind probe for every port: `bindable[i]` reports the probe
    /// for port `start + i`. Returns the lowest port whose probe
    /// succeeded, or `None` when the whole range is occupied.
    pub fn find_available_port(&self, bindable: &Vec<bool>) -> (r: Option<u16>)
        requires
            self.wf(),
            bindable@.len() == self.len(),
        ensures
            r matches Some(p) ==> {
                &&& self.contains(p)
                &&& bindable@[p - self.start]
                &&& forall|q: int| self.start <= q < p ==> !bindable@[#[trigger] (q - self.start)]
            },
            r is None <==> (forall|i: int| 0 <= i < bindable@.len() ==> !bindable@[i]),
    {
        let mut i: usize = 0;
        while i < bindable.len()
            invariant
                self.wf(),
                bindable@.len() == self.len(),
                0 <= i <= bindable@.len(),
                forall|q: int| 0 <= q < i ==> !bindable@[q],
            decreases bindable@.len() - i,
        {
            if bindable[i] {
                return Some(self.start + i as u16);
            }
            i = i + 1;
        }
        None
    }
}

} // verus!
