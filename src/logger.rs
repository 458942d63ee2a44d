//! The per-test event counter handed to every running test.
use vstd::prelude::*;
use vstd::string::*;
use crate::clock::local_time_text;
use crate::text::{decimal, paint, painted, push_decimal, Tint};

verus! {

/// The four kinds of event a test can log.
#[derive(Clone, Copy, PartialEq, Eq, Structural, Debug)]
pub enum LogType {
    PASS,
    FAIL,
    INFO,
    WARN,
}

/// The label written for a kind of event.
pub open spec fn log_label(t: LogType) -> Seq<char> {
    match t {
        LogType::PASS => "PASS"@,
        LogType::FAIL => "FAIL"@,
        LogType::INFO => "INFO"@,
        LogType::WARN => "WARN"@,
    }
}

/// The colour of a kind of event's label.
pub open spec fn log_tint(t: LogType) -> Tint {
    match t {
        LogType::PASS => Tint::Green,
        LogType::FAIL => Tint::Red,
        LogType::INFO => Tint::Cyan,
        LogType::WARN => Tint::Yellow,
    }
}

/// The line written for one event: when it happened, its label, and the
/// message.
pub open spec fn log_line(t: LogType, stamp: Seq<char>, message: Seq<char>) -> Seq<char> {
    painted(Tint::Purple, stamp) + " "@ + painted(log_tint(t), log_label(t)) + ": "@ + message
}

/// The closing line of a logger: its four counts.
pub open spec fn summary_line(pass: nat, fail: nat, warn: nat, info: nat) -> Seq<char> {
    painted(Tint::Green, decimal(pass) + " Passed"@) + "  "@
        + painted(Tint::Red, decimal(fail) + " Failed"@) + "  "@
        + painted(Tint::Yellow, decimal(warn) + " Warn"@) + "  "@
        + painted(Tint::Cyan, decimal(info) + " Info"@)
}

/// The text of each string of a sequence.
pub open spec fn texts(v: Seq<String>) -> Seq<Seq<char>> {
    v.map_values(|s: String| s@)
}

/// What a logger holds: a count per kind of event, and the lines written so
/// far that have not been taken.
pub struct LoggerView {
    pub pass: int,
    pub fail: int,
    pub warn: int,
    pub info: int,
    pub lines: Seq<Seq<char>>,
}

/// The count of one kind of event.
pub open spec fn count_of(v: LoggerView, t: LogType) -> int {
    match t {
        LogType::PASS => v.pass,
        LogType::FAIL => v.fail,
        LogType::INFO => v.info,
        LogType::WARN => v.warn,
    }
}

/// The four counts of a logger, none of them negative.
struct Counts {
    pass: i32,
    fail: i32,
    warn: i32,
    info: i32,
}

impl Counts {
    #[verifier::type_invariant]
    spec fn not_negative(&self) -> bool {
        self.pass >= 0 && self.fail >= 0 && self.warn >= 0 && self.info >= 0
    }
}

/// Counts events of four kinds and keeps a line for each. A fresh logger is
/// made for every test run.
pub struct Logger {
    counts: Counts,
    lines: Vec<String>,
}

impl View for Logger {
    type V = LoggerView;

    closed spec fn view(&self) -> LoggerView {
        LoggerView {
            pass: self.counts.pass as int,
            fail: self.counts.fail as int,
            warn: self.counts.warn as int,
            info: self.counts.info as int,
            lines: texts(self.lines@),
        }
    }
}

impl Default for Logger {
    /// The same as `Logger::new`.
    fn default() -> (r: Logger)
        ensures
            r@.pass == 0,
            r@.fail == 0,
            r@.warn == 0,
            r@.info == 0,
            r@.lines == Seq::<Seq<char>>::empty(),
    {
        Logger::new()
    }
}

impl Logger {
    /// A logger with every count at zero and no lines.
    pub fn new() -> (r: Logger)
        ensures
            r@.pass == 0,
            r@.fail == 0,
            r@.warn == 0,
            r@.info == 0,
            r@.lines == Seq::<Seq<char>>::empty(),
    {
        let r = Logger { counts: Counts { pass: 0, fail: 0, warn: 0, info: 0 }, lines: Vec::new() };
        assert(r@.lines =~= Seq::<Seq<char>>::empty());
        r
    }

    /// The line for one event, given the time at which it happened.
    pub fn line_for(log_type: LogType, stamp: &str, message: &str) -> (r: String)
        ensures
            r@ == log_line(log_type, stamp@, message@),
    {
        let label = match log_type {
            LogType::PASS => "PASS",
            LogType::FAIL => "FAIL",
            LogType::INFO => "INFO",
            LogType::WARN => "WARN",
        };
        let tint = match log_type {
            LogType::PASS => Tint::Green,
            LogType::FAIL => Tint::Red,
            LogType::INFO => Tint::Cyan,
            LogType::WARN => Tint::Yellow,
        };
        let mut line = paint(Tint::Purple, stamp);
        line.append(" ");
        line.append(paint(tint, label).as_str());
        line.append(": ");
        line.append(message);
        line
    }

    /// Counts one event of the given kind and writes its line.
    pub fn log(&mut self, log_type: LogType, message: String)
        requires
            count_of(old(self)@, log_type) < i32::MAX,
        ensures
            forall|t: LogType|
                #[trigger] count_of(final(self)@, t) == count_of(old(self)@, t) + if t == log_type {
                    1int
                } else {
                    0int
                },
            exists|stamp: Seq<char>|
                final(self)@.lines == old(self)@.lines.push(
                    #[trigger] log_line(log_type, stamp, message@),
                ),
    {
        proof {
            use_type_invariant(&self.counts);
        }
        match log_type {
            LogType::PASS => self.counts.pass = self.counts.pass + 1,
            LogType::FAIL => self.counts.fail = self.counts.fail + 1,
            LogType::INFO => self.counts.info = self.counts.info + 1,
            LogType::WARN => self.counts.warn = self.counts.warn + 1,
        }
        let stamp = local_time_text("%Y-%m-%d %H:%M:%S");
        let line = Logger::line_for(log_type, stamp.as_str(), message.as_str());
        self.lines.push(line);
        assert(self@.lines =~= old(self)@.lines.push(log_line(log_type, stamp@, message@)));
    }

    /// Counts a passed check.
    pub fn pass(&mut self, message: String)
        requires
            old(self)@.pass < i32::MAX,
        ensures
            final(self)@.pass == old(self)@.pass + 1,
            final(self)@.fail == old(self)@.fail,
            final(self)@.warn == old(self)@.warn,
            final(self)@.info == old(self)@.info,
            exists|stamp: Seq<char>|
                final(self)@.lines == old(self)@.lines.push(
                    #[trigger] log_line(LogType::PASS, stamp, message@),
                ),
    {
        self.log(LogType::PASS, message);
        assert(count_of(final(self)@, LogType::FAIL) == count_of(old(self)@, LogType::FAIL));
        assert(count_of(final(self)@, LogType::WARN) == count_of(old(self)@, LogType::WARN));
        assert(count_of(final(self)@, LogType::INFO) == count_of(old(self)@, LogType::INFO));
        assert(count_of(final(self)@, LogType::PASS) == count_of(old(self)@, LogType::PASS) + 1);
    }

    /// Counts a failed check.
    pub fn fail(&mut self, message: String)
        requires
            old(self)@.fail < i32::MAX,
        ensures
            final(self)@.pass == old(self)@.pass,
            final(self)@.fail == old(self)@.fail + 1,
            final(self)@.warn == old(self)@.warn,
            final(self)@.info == old(self)@.info,
            exists|stamp: Seq<char>|
                final(self)@.lines == old(self)@.lines.push(
                    #[trigger] log_line(LogType::FAIL, stamp, message@),
                ),
    {
        self.log(LogType::FAIL, message);
        assert(count_of(final(self)@, LogType::FAIL) == count_of(old(self)@, LogType::FAIL) + 1);
        assert(count_of(final(self)@, LogType::WARN) == count_of(old(self)@, LogType::WARN));
        assert(count_of(final(self)@, LogType::INFO) == count_of(old(self)@, LogType::INFO));
        assert(count_of(final(self)@, LogType::PASS) == count_of(old(self)@, LogType::PASS));
    }

    /// Counts a piece of information.
    pub fn info(&mut self, message: String)
        requires
            old(self)@.info < i32::MAX,
        ensures
            final(self)@.pass == old(self)@.pass,
            final(self)@.fail == old(self)@.fail,
            final(self)@.warn == old(self)@.warn,
            final(self)@.info == old(self)@.info + 1,
            exists|stamp: Seq<char>|
                final(self)@.lines == old(self)@.lines.push(
                    #[trigger] log_line(LogType::INFO, stamp, message@),
                ),
    {
        self.log(LogType::INFO, message);
        assert(count_of(final(self)@, LogType::FAIL) == count_of(old(self)@, LogType::FAIL));
        assert(count_of(final(self)@, LogType::WARN) == count_of(old(self)@, LogType::WARN));
        assert(count_of(final(self)@, LogType::INFO) == count_of(old(self)@, LogType::INFO) + 1);
        assert(count_of(final(self)@, LogType::PASS) == count_of(old(self)@, LogType::PASS));
    }

    /// Counts a warning.
    pub fn warn(&mut self, message: String)
        requires
            old(self)@.warn < i32::MAX,
        ensures
            final(self)@.pass == old(self)@.pass,
            final(self)@.fail == old(self)@.fail,
            final(self)@.warn == old(self)@.warn + 1,
            final(self)@.info == old(self)@.info,
            exists|stamp: Seq<char>|
                final(self)@.lines == old(self)@.lines.push(
                    #[trigger] log_line(LogType::WARN, stamp, message@),
                ),
    {
        self.log(LogType::WARN, message);
        assert(count_of(final(self)@, LogType::FAIL) == count_of(old(self)@, LogType::FAIL));
        assert(count_of(final(self)@, LogType::WARN) == count_of(old(self)@, LogType::WARN) + 1);
        assert(count_of(final(self)@, LogType::INFO) == count_of(old(self)@, LogType::INFO));
        assert(count_of(final(self)@, LogType::PASS) == count_of(old(self)@, LogType::PASS));
    }

    /// The number of passed checks logged.
    pub fn get_num_pass(&self) -> (r: i32)
        ensures
            r == self@.pass,
            r >= 0,
    {
        proof {
            use_type_invariant(&self.counts);
        }
        self.counts.pass
    }

    /// The number of failed checks logged.
    pub fn get_num_fail(&self) -> (r: i32)
        ensures
            r == self@.fail,
            r >= 0,
    {
        proof {
            use_type_invariant(&self.counts);
        }
        self.counts.fail
    }

    /// The number of warnings logged.
    pub fn get_num_warn(&self) -> (r: i32)
        ensures
            r == self@.warn,
            r >= 0,
    {
        proof {
            use_type_invariant(&self.counts);
        }
        self.counts.warn
    }

    /// The number of pieces of information logged.
    pub fn get_num_info(&self) -> (r: i32)
        ensures
            r == self@.info,
            r >= 0,
    {
        proof {
            use_type_invariant(&self.counts);
        }
        self.counts.info
    }

    /// The closing line: the four counts.
    pub fn summary(&self) -> (r: String)
        ensures
            r@ == summary_line(
                self@.pass as nat,
                self@.fail as nat,
                self@.warn as nat,
                self@.info as nat,
            ),
    {
        proof {
            use_type_invariant(&self.counts);
        }
        let mut p = String::new();
        push_decimal(&mut p, self.counts.pass as u128);
        p.append(" Passed");
        let mut f = String::new();
        push_decimal(&mut f, self.counts.fail as u128);
        f.append(" Failed");
        let mut w = String::new();
        push_decimal(&mut w, self.counts.warn as u128);
        w.append(" Warn");
        let mut i = String::new();
        push_decimal(&mut i, self.counts.info as u128);
        i.append(" Info");
        let mut line = paint(Tint::Green, p.as_str());
        line.append("  ");
        line.append(paint(Tint::Red, f.as_str()).as_str());
        line.append("  ");
        line.append(paint(Tint::Yellow, w.as_str()).as_str());
        line.append("  ");
        line.append(paint(Tint::Cyan, i.as_str()).as_str());
        line
    }

    /// Hands out the lines written so far, leaving none behind; the counts
    /// stay.
    pub fn take_lines(&mut self) -> (r: Vec<String>)
        ensures
            texts(r@) == old(self)@.lines,
            final(self)@.lines == Seq::<Seq<char>>::empty(),
            final(self)@.pass == old(self)@.pass,
            final(self)@.fail == old(self)@.fail,
            final(self)@.warn == old(self)@.warn,
            final(self)@.info == old(self)@.info,
    {
        let mut r = Vec::new();
        r.append(&mut self.lines);
        assert(self@.lines =~= Seq::<Seq<char>>::empty());
        r
    }
}

} // verus!
