//! The security monitor: a bounded, ordered log of security events (the
//! oldest evicted first past 1000 entries) and a threat-level counter in
//! [0, 100] that severities push up by fixed weights, saturating at 100.

use vstd::prelude::*;

use crate::clock::now_seconds;
use crate::text::str_eq;

verus! {

/// The log keeps at most this many events; older ones are evicted.
pub const MAX_EVENTS: usize = 1000;

/// The threat level saturates here.
pub const THREAT_MAX: u32 = 100;

/// One logged security event.
pub struct SecurityEvent {
    pub event_type: String,
    pub timestamp: u64,
    pub details: String,
    pub severity: String,
    pub source: String,
}

/// The monitor: the bounded event log and the threat-level counter.
pub struct SecurityMonitor {
    pub events: Vec<SecurityEvent>,
    pub threat_level: u32,
}

/// The weight a severity adds to the threat level; unknown severities add
/// nothing.
pub open spec fn severity_score(severity: Seq<char>) -> u32 {
    if severity == "critical"@ {
        20
    } else if severity == "high"@ {
        10
    } else if severity == "medium"@ {
        5
    } else if severity == "low"@ {
        1
    } else {
        0
    }
}

/// The threat level after one event: the weight added, saturating at 100.
pub open spec fn bumped_threat(level: u32, severity: Seq<char>) -> u32 {
    if level + severity_score(severity) >= THREAT_MAX {
        THREAT_MAX
    } else {
        (level + severity_score(severity)) as u32
    }
}

impl Clone for SecurityEvent {
    fn clone(&self) -> (res: Self)
        ensures
            res == *self,
    {
        SecurityEvent {
            event_type: self.event_type.clone(),
            timestamp: self.timestamp,
            details: self.details.clone(),
            severity: self.severity.clone(),
            source: self.source.clone(),
        }
    }
}

impl SecurityMonitor {
    /// The monitor invariant: the log within its bound, the threat level
    /// within its scale.
    pub open spec fn wf(self) -> bool {
        self.events@.len() <= MAX_EVENTS && self.threat_level <= THREAT_MAX
    }

    /// A fresh monitor: empty log, zero threat.
    pub fn new() -> (r: SecurityMonitor)
        ensures
            r.wf(),
            r.events@.len() == 0,
            r.threat_level == 0,
    {
        SecurityMonitor { events: Vec::new(), threat_level: 0 }
    }

    /// Logs a timestamped event: appends it, evicts the oldest entries
    /// down to the bound, and raises the threat level by the severity's
    /// weight, saturating at 100.
    pub fn log_event(&mut self, event_type: String, details: String, severity: String, source: String)
        requires
            old(self).wf(),
        ensures
            final(self).wf(),
            final(self).events@.len() > 0,
            ({
                let ev = final(self).events@.last();
                ev.event_type@ == event_type@ && ev.details@ == details@ && ev.severity@
                    == severity@ && ev.source@ == source@
            }),
            ({
                let appended = old(self).events@.push(final(self).events@.last());
                final(self).events@ == (if appended.len() <= MAX_EVENTS {
                    appended
                } else {
                    appended.skip(appended.len() - MAX_EVENTS)
                })
            }),
            final(self).threat_level == bumped_threat(old(self).threat_level, severity@),
    {
        let timestamp = now_seconds();
        let score: u32 = if str_eq(severity.as_str(), "critical") {
            20
        } else if str_eq(severity.as_str(), "high") {
            10
        } else if str_eq(severity.as_str(), "medium") {
            5
        } else if str_eq(severity.as_str(), "low") {
            1
        } else {
            0
        };
        let event = SecurityEvent { event_type, timestamp, details, severity, source };
        self.events.push(event);
        let ghost appended = self.events@;
        while self.events.len() > MAX_EVENTS
            invariant
                appended.len() >= 1,
                self.events@.len() <= appended.len(),
                appended.len() <= MAX_EVENTS ==> self.events@.len() == appended.len(),
                self.events@.len() >= MAX_EVENTS || self.events@.len() == appended.len(),
                self.events@ =~= appended.skip(appended.len() - self.events@.len()),
                self.threat_level == old(self).threat_level,
            decreases self.events@.len(),
        {
            let ghost prev = self.events@;
            let _evicted = self.events.remove(0);
            proof {
                assert(self.events@ =~= prev.skip(1));
                assert(self.events@ =~= appended.skip(appended.len() - self.events@.len()));
            }
        }
        if self.threat_level >= THREAT_MAX - score {
            self.threat_level = THREAT_MAX;
        } else {
            self.threat_level = self.threat_level + score;
        }
        proof {
            if appended.len() <= MAX_EVENTS {
                assert(self.events@ =~= appended);
            }
            assert(self.events@.last() == appended.last());
        }
    }

    /// The current threat level.
    pub fn get_threat_level(&self) -> (r: u32)
        ensures
            r == self.threat_level,
    {
        self.threat_level
    }

    /// Resets the threat level to zero; the log is untouched.
    pub fn reset_threat_level(&mut self)
        requires
            old(self).wf(),
        ensures
            final(self).wf(),
            final(self).events@ == old(self).events@,
            final(self).threat_level == 0,
    {
        self.threat_level = 0;
    }
}

} // verus!
