//! Data exchanged with the remote capture device: its reported progress and
//! the capture plan submitted to it.
//!
//! The transport itself (the HTTP requests against the device) is outside
//! work; this module holds the values those operations carry and the
//! plan-derived completion target the synchronization engine compares
//! progress against.

use vstd::prelude::*;

verus! {

/// The remote capture device's current position: which round it is in and how
/// many images of that round are ready. Compared structurally against the
/// plan-derived target to decide completion.
#[derive(PartialEq, Eq, Structural, Clone, Copy, Debug)]
pub struct ServerStatus {
    pub runde: i32,
    pub aufnahme: i32,
}

impl ServerStatus {
    pub fn new(runde: i32, aufnahme: i32) -> (r: ServerStatus)
        ensures
            r == (ServerStatus { runde, aufnahme }),
    {
        ServerStatus { runde, aufnahme }
    }
}

/// A capture plan: one entry per round, each the number of images to acquire
/// in that round. A plan is valid when it is non-empty and every entry is
/// positive.
#[derive(Clone, Debug)]
pub struct Auftrag {
    pub auftrag: Vec<i32>,
}

impl Auftrag {
    /// A plan is valid when it names at least one round, every round asks for
    /// at least one image, and the number of rounds can be reported back by
    /// the device as a round index.
    pub open spec fn is_valid(&self) -> bool {
        &&& self.auftrag@.len() >= 1
        &&& self.auftrag@.len() <= i32::MAX as int
        &&& forall|i: int| 0 <= i < self.auftrag@.len() ==> self.auftrag@[i] > 0
    }

    pub fn from_vec(rounds: Vec<i32>) -> (r: Auftrag)
        ensures
            r.auftrag@ == rounds@,
    {
        Auftrag { auftrag: rounds }
    }

    pub fn check_valid(&self) -> (b: bool)
        ensures
            b == self.is_valid(),
    {
        if self.auftrag.len() < 1 {
            return false;
        }
        if self.auftrag.len() > i32::MAX as usize {
            return false;
        }
        let mut i: usize = 0;
        while i < self.auftrag.len()
            invariant
                0 <= i <= self.auftrag@.len(),
                forall|j: int| 0 <= j < i ==> self.auftrag@[j] > 0,
            decreases self.auftrag@.len() - i,
        {
            if self.auftrag[i] <= 0 {
                return false;
            }
            i = i + 1;
        }
        true
    }

    /// The progress value that signals "capture complete": the device reports
    /// rounds by zero-based index, so the plan's last round is complete when
    /// the device stands at round `len - 1` with the last round's full image
    /// count ready.
    pub fn into_target_status(self) -> (r: ServerStatus)
        requires
            self.auftrag@.len() >= 1,
            self.auftrag@.len() <= i32::MAX as int,
        ensures
            r.runde as int == self.auftrag@.len() - 1,
            r.aufnahme == self.auftrag@.last(),
    {
        let n = self.auftrag.len();
        ServerStatus { runde: (n - 1) as i32, aufnahme: self.auftrag[n - 1] }
    }
}

} // verus!
