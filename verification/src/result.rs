//! The outcome of a run: its steps in the order executed, each with the calls
//! it issued.

use crate::http::Call;
use crate::position::SourceInfo;
use vstd::prelude::*;

verus! {

/// One executed step. `calls` are in the order issued. `compressed` says that
/// the body of the last call's response is still encoded.
#[derive(Clone, Debug, PartialEq, Eq)]
pub struct EntryResult {
    pub entry_index: usize,
    pub source_info: SourceInfo,
    pub calls: Vec<Call>,
    pub time_in_ms: u128,
    pub compressed: bool,
}

/// A whole run. `entries` are in the order executed and may be empty.
#[derive(Clone, Debug, PartialEq, Eq)]
pub struct HurlResult {
    pub entries: Vec<EntryResult>,
    pub time_in_ms: u128,
    pub success: bool,
    pub timestamp: i64,
}

impl HurlResult {
    /// The last call of the last step, with that step; `None` where there is
    /// no step or the last step issued no call.
    pub open spec fn spec_last_call(self) -> Option<(EntryResult, Call)> {
        if self.entries@.len() == 0 {
            None
        } else if self.entries@.last().calls@.len() == 0 {
            None
        } else {
            Some((self.entries@.last(), self.entries@.last().calls@.last()))
        }
    }

    /// Finds the most recent response of the run: the last call of the last
    /// step.
    pub fn last_call(&self) -> (r: Option<(&EntryResult, &Call)>)
        ensures
            match self.spec_last_call() {
                None => r.is_none(),
                Some((entry, call)) => r.is_some() && *r.unwrap().0 == entry && *r.unwrap().1
                    == call,
            },
    {
        let n: usize = self.entries.len();
        if n == 0 {
            return None;
        }
        let entry = &self.entries[n - 1];
        let m: usize = entry.calls.len();
        if m == 0 {
            return None;
        }
        Some((entry, &entry.calls[m - 1]))
    }
}

} // verus!
