//! Queue health: threshold checks on the depth of the work queues.

use vstd::prelude::*;
use crate::text::{decimal, decimal_text, views};

verus! {

/// A queue above this many pending items is reported.
pub const PENDING_LIMIT: u64 = 500;

/// An error queue above this many items is reported.
pub const ERROR_LIMIT: u64 = 500;

/// Queue depths observed at one instant.
#[derive(Clone, Copy, Debug, PartialEq, Eq, Structural)]
pub struct QueueHealth {
    pub pending: u64,
    pub errors: u64,
}

pub open spec fn pending_warning(n: nat) -> Seq<char> {
    "WARNING: Queue length is "@ + decimal(n)
}

pub open spec fn error_warning(n: nat) -> Seq<char> {
    "WARNING: Error queue length is "@ + decimal(n)
}

/// The warnings for these depths: the pending one first, then the error one,
/// each only when its depth is above its limit.
pub open spec fn warnings_of(pending: nat, errors: nat) -> Seq<Seq<char>> {
    (if pending > PENDING_LIMIT {
        seq![pending_warning(pending)]
    } else {
        Seq::empty()
    }) + (if errors > ERROR_LIMIT {
        seq![error_warning(errors)]
    } else {
        Seq::empty()
    })
}

impl QueueHealth {
    /// The warning lines that these queue depths call for.
    pub fn warnings(&self) -> (r: Vec<String>)
        ensures
            views(r@) == warnings_of(self.pending as nat, self.errors as nat),
    {
        let mut r: Vec<String> = Vec::new();
        if self.pending > PENDING_LIMIT {
            let mut m = String::from_str("WARNING: Queue length is ");
            let n = decimal_text(self.pending);
            m.append(n.as_str());
            r.push(m);
        }
        let ghost first = r@;
        if self.errors > ERROR_LIMIT {
            let mut m = String::from_str("WARNING: Error queue length is ");
            let n = decimal_text(self.errors);
            m.append(n.as_str());
            r.push(m);
            proof {
                assert(r@ == first.push(m));
            }
        }
        proof {
            assert(views(r@) =~= warnings_of(self.pending as nat, self.errors as nat));
        }
        r
    }
}

} // verus!
