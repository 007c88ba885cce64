//! Capture of log events emitted by scripts while a test runs.
//!
//! Scripts call host logging functions; the host appends every such call here,
//! and the log matchers query the recorded events. The container is reset
//! after each test so that matchers only ever see the current test's logs.

use vstd::prelude::*;

use crate::pattern::{regex_compiles, regex_is_match, regex_matches, regex_ok};

verus! {

/// Severity of a captured log event.
#[allow(non_camel_case_types)]
#[derive(Debug, Clone, Copy, PartialEq, Eq, Structural)]
pub enum LOG_LEVEL {
    TRACE,
    DEBUG,
    INFO,
    WARN,
    ERROR,
}

impl LOG_LEVEL {
    /// The lower-case name of the level, as printed in log listings.
    pub open spec fn spec_name(self) -> Seq<char> {
        match self {
            LOG_LEVEL::TRACE => "trace"@,
            LOG_LEVEL::DEBUG => "debug"@,
            LOG_LEVEL::INFO => "info"@,
            LOG_LEVEL::WARN => "warn"@,
            LOG_LEVEL::ERROR => "error"@,
        }
    }

    /// The lower-case name of the level.
    pub fn to_string(&self) -> (r: String)
        ensures
            r@ == self.spec_name(),
    {
        match self {
            LOG_LEVEL::TRACE => String::from_str("trace"),
            LOG_LEVEL::DEBUG => String::from_str("debug"),
            LOG_LEVEL::INFO => String::from_str("info"),
            LOG_LEVEL::WARN => String::from_str("warn"),
            LOG_LEVEL::ERROR => String::from_str("error"),
        }
    }
}

/// One log event recorded during the current test.
#[derive(Debug)]
pub struct CapturedLog {
    pub message: String,
    pub level: LOG_LEVEL,
}

/// Mathematical image of a captured log event.
pub ghost struct LogV {
    pub message: Seq<char>,
    pub level: LOG_LEVEL,
}

impl View for CapturedLog {
    type V = LogV;

    open spec fn view(&self) -> LogV {
        LogV { message: self.message@, level: self.level }
    }
}

/// The events logged so far in the current test, oldest first.
#[derive(Debug)]
pub struct LoggingContainer {
    logs: Vec<CapturedLog>,
}

impl View for LoggingContainer {
    type V = Seq<LogV>;

    closed spec fn view(&self) -> Seq<LogV> {
        self.logs@.map_values(|l: CapturedLog| l@)
    }
}

impl LoggingContainer {
    /// An empty container: no events recorded yet.
    pub fn new() -> (r: Self)
        ensures
            r@ == Seq::<LogV>::empty(),
    {
        let r = Self { logs: Vec::new() };
        proof {
            assert(r@ =~= Seq::<LogV>::empty());
        }
        r
    }

    /// Records one log event at the given level.
    pub fn add_log(&mut self, message: String, level: LOG_LEVEL)
        ensures
            final(self)@ == old(self)@.push(LogV { message: message@, level }),
    {
        let ghost prior = self@;
        self.logs.push(CapturedLog { message, level });
        proof {
            assert(self@ =~= prior.push(self.logs@[self.logs@.len() - 1]@));
        }
    }

    /// Whether any event was recorded at the given level.
    pub fn has_log(&mut self, level: LOG_LEVEL) -> (r: bool)
        ensures
            final(self)@ == old(self)@,
            r == exists|i: int| 0 <= i < old(self)@.len() && old(self)@[i].level == level,
    {
        let mut idx: usize = 0;
        while idx < self.logs.len()
            invariant
                idx <= self.logs.len(),
                self@ == old(self)@,
                forall|i: int| 0 <= i < idx ==> self@[i].level != level,
            decreases self.logs.len() - idx,
        {
            if self.logs[idx].level == level {
                proof {
                    assert(self@[idx as int] == self.logs@[idx as int]@);
                    assert(0 <= idx < self@.len() && self@[idx as int].level == level);
                }
                return true;
            }
            idx += 1;
        }
        false
    }

    /// Whether any event at the given level has a message matched by the pattern.
    pub fn has_matching_log(&mut self, level: LOG_LEVEL, pattern: &str) -> (r: bool)
        requires
            regex_ok(pattern@),
        ensures
            final(self)@ == old(self)@,
            r == exists|i: int|
                0 <= i < old(self)@.len() && old(self)@[i].level == level && regex_matches(
                    pattern@,
                    old(self)@[i].message,
                ),
    {
        let mut idx: usize = 0;
        while idx < self.logs.len()
            invariant
                idx <= self.logs.len(),
                self@ == old(self)@,
                regex_ok(pattern@),
                forall|i: int|
                    0 <= i < idx ==> !(self@[i].level == level && regex_matches(
                        pattern@,
                        self@[i].message,
                    )),
            decreases self.logs.len() - idx,
        {
            let hit = self.logs[idx].level == level && regex_is_match(
                pattern,
                self.logs[idx].message.as_str(),
            );
            proof {
                assert(self@[idx as int] == self.logs@[idx as int]@);
            }
            if hit {
                proof {
                    assert(0 <= idx < self@.len() && self@[idx as int].level == level
                        && regex_matches(pattern@, self@[idx as int].message));
                }
                return true;
            }
            idx += 1;
        }
        false
    }

    /// Like `has_matching_log`, but usable with a pattern that may not compile:
    /// `None` exactly when the pattern is not a valid regular expression.
    pub fn try_has_matching_log(&mut self, level: LOG_LEVEL, pattern: &str) -> (r: Option<bool>)
        ensures
            final(self)@ == old(self)@,
            r is Some <==> regex_ok(pattern@),
            r matches Some(b) ==> b == exists|i: int|
                0 <= i < old(self)@.len() && old(self)@[i].level == level && regex_matches(
                    pattern@,
                    old(self)@[i].message,
                ),
    {
        if regex_compiles(pattern) {
            Some(self.has_matching_log(level, pattern))
        } else {
            None
        }
    }

    /// Forgets every recorded event; called between tests.
    pub fn reset(&mut self)
        ensures
            final(self)@ == Seq::<LogV>::empty(),
    {
        self.logs = Vec::new();
        proof {
            assert(self@ =~= Seq::<LogV>::empty());
        }
    }

    /// A copy of the recorded events, oldest first.
    pub fn get_logs(&self) -> (r: Vec<CapturedLog>)
        ensures
            r@.map_values(|l: CapturedLog| l@) == self@,
    {
        let mut out: Vec<CapturedLog> = Vec::new();
        let mut idx: usize = 0;
        while idx < self.logs.len()
            invariant
                idx <= self.logs.len(),
                out@.len() == idx,
                forall|j: int| 0 <= j < idx ==> out@[j]@ == self@[j],
            decreases self.logs.len() - idx,
        {
            let entry = CapturedLog {
                message: String::from_str(self.logs[idx].message.as_str()),
                level: self.logs[idx].level,
            };
            proof {
                assert(entry@ == self@[idx as int]);
            }
            out.push(entry);
            idx += 1;
        }
        proof {
            assert(out@.map_values(|l: CapturedLog| l@) =~= self@);
        }
        out
    }
}

} // verus!
