//! The decisions of the lock-screen watcher: whether a locked session is worth a face
//! scan, how many captures a scan makes, and when it unlocks the session.
//!
//! The binary listens to logind, opens the cameras, captures frames and talks to the
//! broker; after each capture or broker reply it hands the outcome to
//! [`WatchScan::step`], which says what to do next. A scan is cancelled by the binary
//! when the session is unlocked by other means.
use vstd::prelude::*;

use crate::broker_client::summary_allows;
use crate::ipc::EnrolledTemplateSummary;
use crate::storage::{self, AuthScope};
use crate::test_cmd::any_allows;

verus! {

/// A locked session is scanned only when some template of the user may unlock a session.
pub fn should_scan(templates: &[EnrolledTemplateSummary]) -> (r: bool)
    ensures
        r == any_allows(templates@, AuthScope::Session),
{
    let mut i: usize = 0;
    while i < templates.len()
        invariant
            i <= templates@.len(),
            forall|j: int|
                0 <= j < i ==> !storage::spec_allows(
                    storage::spec_core_template_scope(#[trigger] templates@[j].scope),
                    AuthScope::Session,
                ),
        decreases templates@.len() - i,
    {
        if summary_allows(&templates[i], AuthScope::Session) {
            return true;
        }
        i += 1;
    }
    false
}

/// What happened to the last capture of a scan.
#[derive(Debug, Clone, Copy, PartialEq, Eq, Structural)]
pub enum ScanEvent {
    /// A camera did not deliver a frame in time; the attempt is skipped.
    Timeout,
    /// A camera or the broker failed; the scan stops.
    Failed,
    /// The broker answered the match request.
    Answer { matched: bool },
}

/// What the watcher does next.
#[derive(Debug, Clone, Copy, PartialEq, Eq, Structural)]
pub enum ScanAction {
    /// Capture (an RGB+IR pair when cross-checking) and match, for attempt `attempt`.
    Capture { attempt: u32 },
    /// The face was recognised: unlock the session.
    Unlock,
    /// Stop after a failure.
    Abort,
    /// Stop: every attempt was used.
    Exhausted,
}

/// The state of one scan.
#[derive(Debug, Clone, Copy, PartialEq, Eq, Structural)]
pub struct WatchScan {
    /// Matches needed to unlock (at least one).
    pub required: u32,
    pub max_attempts: u32,
    /// The current attempt, from 1.
    pub attempt: u32,
    /// Attempts that matched so far.
    pub matches: u32,
}

impl WatchScan {
    /// A scan in progress.
    pub open spec fn wf(self) -> bool {
        &&& 1 <= self.required
        &&& 1 <= self.attempt <= self.max_attempts
        &&& self.matches < self.attempt
        &&& self.matches < self.required
    }
}

/// A scan needing `max(required_matches, 1)` matches within `max_attempts` attempts.
pub open spec fn spec_start(required_matches: u32, max_attempts: u32) -> (WatchScan, ScanAction) {
    let s = WatchScan {
        required: if required_matches >= 1 {
            required_matches
        } else {
            1
        },
        max_attempts,
        attempt: 1,
        matches: 0,
    };
    (s, if max_attempts == 0 {
        ScanAction::Exhausted
    } else {
        ScanAction::Capture { attempt: 1 }
    })
}

/// The next attempt, or the end of the scan after the last one.
pub open spec fn spec_next_attempt(s: WatchScan) -> (WatchScan, ScanAction) {
    if s.attempt >= s.max_attempts {
        (s, ScanAction::Exhausted)
    } else {
        let n = (s.attempt + 1) as u32;
        (WatchScan { attempt: n, ..s }, ScanAction::Capture { attempt: n })
    }
}

/// One step of a scan.
pub open spec fn spec_scan_step(s: WatchScan, e: ScanEvent) -> (WatchScan, ScanAction) {
    match e {
        ScanEvent::Timeout => spec_next_attempt(s),
        ScanEvent::Failed => (s, ScanAction::Abort),
        ScanEvent::Answer { matched } => if matched {
            let m = WatchScan { matches: (s.matches + 1) as u32, ..s };
            if m.matches >= s.required {
                (m, ScanAction::Unlock)
            } else {
                spec_next_attempt(m)
            }
        } else {
            spec_next_attempt(s)
        },
    }
}

impl WatchScan {
    /// A scan needing `required_matches` matches (at least one) within `max_attempts`
    /// attempts, and its first action.
    pub fn start(required_matches: u32, max_attempts: u32) -> (r: (WatchScan, ScanAction))
        ensures
            r == spec_start(required_matches, max_attempts),
            r.1 is Capture ==> r.0.wf(),
    {
        let required = if required_matches >= 1 {
            required_matches
        } else {
            1
        };
        let s = WatchScan { required, max_attempts, attempt: 1, matches: 0 };
        if max_attempts == 0 {
            (s, ScanAction::Exhausted)
        } else {
            (s, ScanAction::Capture { attempt: 1 })
        }
    }

    fn next_attempt(&mut self) -> (a: ScanAction)
        ensures
            (*final(self), a) == spec_next_attempt(*old(self)),
    {
        if self.attempt >= self.max_attempts {
            ScanAction::Exhausted
        } else {
            self.attempt = self.attempt + 1;
            ScanAction::Capture { attempt: self.attempt }
        }
    }

    /// Takes the outcome of the last capture and decides the next action.
    pub fn step(&mut self, event: ScanEvent) -> (a: ScanAction)
        requires
            old(self).wf(),
        ensures
            (*final(self), a) == spec_scan_step(*old(self), event),
    {
        match event {
            ScanEvent::Timeout => self.next_attempt(),
            ScanEvent::Failed => ScanAction::Abort,
            ScanEvent::Answer { matched } => {
                if matched {
                    self.matches = self.matches + 1;
                    if self.matches >= self.required {
                        ScanAction::Unlock
                    } else {
                        self.next_attempt()
                    }
                } else {
                    self.next_attempt()
                }
            },
        }
    }
}

/// A scan unlocks only on a matching answer that brings the matches up to the required
/// number, which is at least one; it captures only within its attempt budget, each
/// capture for a later attempt than the last, and stays well formed while it goes on.
pub proof fn law_scan_unlocks_only_on_required_matches(s: WatchScan, e: ScanEvent)
    requires
        s.wf(),
    ensures
        ({
            let (n, a) = spec_scan_step(s, e);
            &&& a == ScanAction::Unlock ==> e == (ScanEvent::Answer { matched: true })
                && n.matches == s.matches + 1 && n.matches >= n.required && n.required >= 1
            &&& a matches ScanAction::Capture { attempt } ==> n.wf() && attempt == n.attempt
                && n.attempt == s.attempt + 1 && attempt <= s.max_attempts
        }),
{
}

} // verus!
