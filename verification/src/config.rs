//! The configuration that the monitor is started with, checked once.

use vstd::prelude::*;
use crate::logtail::{
    extract_metrics, line_yields, optional_text, recent, texts, LogReport, METRIC_CAP,
};
use crate::text::decimal;
use crate::pattern::{compile_pattern, group_count, pattern_group_count, MetricPattern};

verus! {

/// Why a configuration is refused.
#[derive(Clone, Copy, Debug, PartialEq, Eq)]
pub enum ConfigError {
    /// The tick interval is zero or is no number of seconds.
    InvalidInterval,
    /// The metric pattern does not compile.
    InvalidPattern,
    /// The metric pattern compiles but has no capture group.
    MissingCaptureGroup,
}

/// What the monitor watches and how often. The tick interval is positive and
/// the metric pattern, where there is one, has a capture group.
#[derive(Debug)]
pub struct Configuration {
    process_name: String,
    tick_interval_secs: u64,
    log_file_path: Option<String>,
    metric_pattern: Option<MetricPattern>,
}

/// The verdict on what compiling a pattern gave: the pattern must have
/// compiled and hold a capture group besides the implicit group of the whole
/// match.
pub open spec fn pattern_verdict(compiled: Result<MetricPattern, regex::Error>) -> Result<
    (),
    ConfigError,
> {
    match compiled {
        Err(_) => Err(ConfigError::InvalidPattern),
        Ok(matcher) => if pattern_group_count(matcher@) < 2 {
            Err(ConfigError::MissingCaptureGroup)
        } else {
            Ok(())
        },
    }
}

/// The verdict on the values that a configuration is made from. The interval
/// is judged before the pattern.
pub open spec fn verdict(
    interval_secs: u64,
    compiled: Option<Result<MetricPattern, regex::Error>>,
) -> Result<(), ConfigError> {
    if interval_secs == 0 {
        Err(ConfigError::InvalidInterval)
    } else {
        match compiled {
            Some(outcome) => pattern_verdict(outcome),
            None => Ok(()),
        }
    }
}

/// What is known of a refusal when the pattern's text is all that is at
/// hand: a zero interval is refused as such, nothing is refused without a
/// reason, and a pattern is refused for want of a capture group only where
/// it has none.
pub open spec fn refusal_fits(
    e: ConfigError,
    interval_secs: u64,
    pattern: Option<Seq<char>>,
) -> bool {
    if interval_secs == 0 {
        e == ConfigError::InvalidInterval
    } else {
        &&& e != ConfigError::InvalidInterval
        &&& pattern is Some
        &&& e == ConfigError::MissingCaptureGroup ==> pattern_group_count(pattern->0) < 2
    }
}

/// Whether `c` is one of the ten decimal digits.
pub open spec fn is_digit(c: char) -> bool {
    48 <= c as u32 <= 57
}

/// The number that a decimal digit stands for.
pub open spec fn digit_value(c: char) -> nat {
    (c as u32 - 48) as nat
}

/// The number that a sequence of decimal digits writes.
pub open spec fn digits_value(digits: Seq<char>) -> nat
    decreases digits.len(),
{
    if digits.len() == 0 {
        0
    } else {
        digits_value(digits.drop_last()) * 10 + digit_value(digits.last())
    }
}

/// Whether every character is a decimal digit.
pub open spec fn all_digits(digits: Seq<char>) -> bool {
    forall|i: int| 0 <= i < digits.len() ==> is_digit(#[trigger] digits[i])
}

/// The digits of an interval's text: the text without a leading plus sign.
pub open spec fn interval_digits(text: Seq<char>) -> Seq<char> {
    if text.len() > 0 && text[0] == '+' {
        text.skip(1)
    } else {
        text
    }
}

/// The number of seconds that an interval's text writes: one or more decimal
/// digits, after an optional plus sign, whose number fits in 64 bits.
pub open spec fn interval_value(text: Seq<char>) -> Option<u64> {
    let digits = interval_digits(text);
    if digits.len() > 0 && all_digits(digits) && digits_value(digits) <= u64::MAX {
        Some(digits_value(digits) as u64)
    } else {
        None
    }
}

/// The number that the first `k` digits write is at most the number that
/// all of them write.
pub proof fn digits_value_grows(digits: Seq<char>, k: int)
    requires
        0 <= k <= digits.len(),
    ensures
        digits_value(digits.take(k)) <= digits_value(digits),
    decreases digits.len() - k,
{
    if k < digits.len() {
        digits_value_grows(digits, k + 1);
        assert(digits.take(k + 1).drop_last() =~= digits.take(k));
    } else {
        assert(digits.take(k) =~= digits);
    }
}

/// The decimal numeral of a number is made of digits and writes that number.
pub proof fn decimal_writes_its_number(n: nat)
    ensures
        decimal(n).len() > 0,
        all_digits(decimal(n)),
        digits_value(decimal(n)) == n,
    decreases n,
{
    if n < 10 {
        assert(decimal(n).drop_last() =~= Seq::<char>::empty());
        assert(digits_value(decimal(n).drop_last()) == 0);
    } else {
        decimal_writes_its_number(n / 10);
        assert(decimal(n).drop_last() =~= decimal(n / 10));
    }
}

/// Reading back the numeral of a number of seconds gives that number.
pub proof fn interval_of_numeral(seconds: u64)
    ensures
        interval_value(decimal(seconds as nat)) == Some(seconds),
{
    decimal_writes_its_number(seconds as nat);
    assert(is_digit(decimal(seconds as nat)[0]));
}

/// Reads a number of seconds from its text.
///
/// The text is one or more decimal digits, which a plus sign may precede.
/// Anything else, and a number that does not fit in 64 bits, is refused.
pub fn parse_interval(text: &str) -> (r: Result<u64, ConfigError>)
    ensures
        r == match interval_value(text@) {
            Some(seconds) => Ok::<u64, ConfigError>(seconds),
            None => Err::<u64, ConfigError>(ConfigError::InvalidInterval),
        },
{
    let n: usize = text.unicode_len();
    let mut i: usize = 0;
    if n > 0 && text.get_char(0) == '+' {
        i = 1;
    }
    let start: usize = i;
    let ghost digits = interval_digits(text@);
    if i == n {
        return Err(ConfigError::InvalidInterval);
    }
    let mut seconds: u64 = 0;
    assert(digits.take(0) =~= Seq::<char>::empty());
    while i < n
        invariant
            start <= i <= n,
            n == text@.len(),
            digits == text@.skip(start as int),
            digits == interval_digits(text@),
            all_digits(digits.take(i - start)),
            seconds == digits_value(digits.take(i - start)),
        decreases n - i,
    {
        let c = text.get_char(i);
        let code: u32 = c as u32;
        assert(c == digits[i - start]);
        if code < 48 || code > 57 {
            return Err(ConfigError::InvalidInterval);
        }
        let digit: u64 = (code - 48) as u64;
        proof {
            let longer = digits.take(i - start + 1);
            assert(longer.drop_last() =~= digits.take(i - start));
            assert(longer.last() == c);
            assert(digits_value(longer) == seconds * 10 + digit);
            digits_value_grows(digits, i - start + 1);
        }
        if seconds > (u64::MAX - digit) / 10 {
            return Err(ConfigError::InvalidInterval);
        }
        seconds = seconds * 10 + digit;
        i = i + 1;
    }
    assert(digits.take(i - start) =~= digits);
    Ok(seconds)
}

/// Whether a pattern with `groups` capture groups, the implicit group of the
/// whole match included, can extract a metric.
pub fn require_capture_group(groups: usize) -> (r: Result<(), ConfigError>)
    ensures
        r == if groups < 2 {
            Err::<(), ConfigError>(ConfigError::MissingCaptureGroup)
        } else {
            Ok::<(), ConfigError>(())
        },
{
    if groups < 2 {
        Err(ConfigError::MissingCaptureGroup)
    } else {
        Ok(())
    }
}

/// Judges what compiling a metric pattern gave: a pattern that did not
/// compile is invalid, one without a capture group is refused as such, and
/// any other is handed on.
pub fn accept_pattern(compiled: Result<MetricPattern, regex::Error>) -> (r: Result<
    MetricPattern,
    ConfigError,
>)
    ensures
        match r {
            Ok(matcher) => {
                &&& compiled == Ok::<MetricPattern, regex::Error>(matcher)
                &&& pattern_verdict(compiled) is Ok
            },
            Err(e) => pattern_verdict(compiled) == Err::<(), ConfigError>(e),
        },
{
    match compiled {
        Err(_) => Err(ConfigError::InvalidPattern),
        Ok(matcher) => {
            match require_capture_group(group_count(&matcher)) {
                Err(e) => Err(e),
                Ok(_) => Ok(matcher),
            }
        },
    }
}

/// Compiles a metric pattern and checks that it has a capture group. The
/// engine decides whether the pattern compiles; a pattern that does is
/// accepted exactly where it has a capture group.
pub fn compile_metric_pattern(source: &str) -> (r: Result<MetricPattern, ConfigError>)
    ensures
        match r {
            Ok(matcher) => matcher@ == source@ && pattern_group_count(source@) >= 2,
            Err(e) => e != ConfigError::InvalidInterval && (e == ConfigError::MissingCaptureGroup
                ==> pattern_group_count(source@) < 2),
        },
{
    accept_pattern(compile_pattern(source))
}

impl Configuration {
    #[verifier::type_invariant]
    spec fn valid(self) -> bool {
        &&& self.tick_interval_secs > 0
        &&& self.metric_pattern matches Some(matcher) ==> pattern_group_count(matcher@) >= 2
    }

    /// The name of the watched process.
    pub closed spec fn name(self) -> Seq<char> {
        self.process_name@
    }

    /// The seconds between two ticks.
    pub closed spec fn interval(self) -> nat {
        self.tick_interval_secs as nat
    }

    /// The path of the log, where one was given.
    pub closed spec fn log_path(self) -> Option<Seq<char>> {
        optional_text(self.log_file_path)
    }

    /// The text of the metric pattern, where one was given.
    pub closed spec fn pattern(self) -> Option<Seq<char>> {
        match self.metric_pattern {
            Some(matcher) => Some(matcher@),
            None => None,
        }
    }

    /// Whether the log is read: only where both its path and a pattern were
    /// given.
    pub open spec fn reads_log(self) -> bool {
        self.log_path() is Some && self.pattern() is Some
    }

    /// Makes a configuration of three of its values and of what compiling
    /// the fourth, the metric pattern, gave.
    ///
    /// A zero interval is refused first, then a pattern that did not compile
    /// or has no capture group. A pattern without a path, or a path without
    /// a pattern, is accepted and leaves log extraction idle.
    pub fn assemble(
        process_name: String,
        tick_interval_secs: u64,
        log_file_path: Option<String>,
        compiled: Option<Result<MetricPattern, regex::Error>>,
    ) -> (r: Result<Configuration, ConfigError>)
        ensures
            match r {
                Ok(config) => {
                    &&& verdict(tick_interval_secs, compiled) is Ok
                    &&& config.name() == process_name@
                    &&& config.interval() == tick_interval_secs
                    &&& config.log_path() == optional_text(log_file_path)
                    &&& config.pattern() == match compiled {
                        Some(Ok(matcher)) => Some(matcher@),
                        _ => None,
                    }
                },
                Err(e) => verdict(tick_interval_secs, compiled) == Err::<(), ConfigError>(e),
            },
    {
        if tick_interval_secs == 0 {
            return Err(ConfigError::InvalidInterval);
        }
        let metric_pattern = match compiled {
            None => None,
            Some(outcome) => {
                match accept_pattern(outcome) {
                    Err(e) => {
                        return Err(e);
                    },
                    Ok(matcher) => Some(matcher),
                }
            },
        };
        Ok(Configuration { process_name, tick_interval_secs, log_file_path, metric_pattern })
    }

    /// Checks the four values and makes a configuration of them.
    ///
    /// A zero interval is refused, and without a pattern any other interval
    /// is accepted. Whether a pattern compiles the engine decides; one that
    /// does is accepted exactly where it has a capture group.
    pub fn new(
        process_name: String,
        tick_interval_secs: u64,
        log_file_path: Option<String>,
        metric_pattern: Option<String>,
    ) -> (r: Result<Configuration, ConfigError>)
        ensures
            tick_interval_secs > 0 && metric_pattern is None ==> r is Ok,
            match r {
                Ok(config) => {
                    &&& tick_interval_secs > 0
                    &&& config.name() == process_name@
                    &&& config.interval() == tick_interval_secs
                    &&& config.log_path() == optional_text(log_file_path)
                    &&& config.pattern() == optional_text(metric_pattern)
                    &&& metric_pattern matches Some(source) ==> pattern_group_count(source@) >= 2
                },
                Err(e) => refusal_fits(e, tick_interval_secs, optional_text(metric_pattern)),
            },
    {
        if tick_interval_secs == 0 {
            return Err(ConfigError::InvalidInterval);
        }
        let compiled = match &metric_pattern {
            None => None,
            Some(source) => Some(compile_pattern(source.as_str())),
        };
        Configuration::assemble(process_name, tick_interval_secs, log_file_path, compiled)
    }

    /// Makes a configuration of the four values as the command line gives
    /// them. An interval that is no number of seconds is refused like a zero
    /// interval, before the pattern is looked at.
    pub fn from_arguments(
        process_name: String,
        update_interval: &str,
        log_file_path: Option<String>,
        metric_pattern: Option<String>,
    ) -> (r: Result<Configuration, ConfigError>)
        ensures
            interval_value(update_interval@) matches Some(seconds) && seconds > 0 && metric_pattern
                is None ==> r is Ok,
            match (r, interval_value(update_interval@)) {
                (Err(e), None) => e == ConfigError::InvalidInterval,
                (Err(e), Some(seconds)) => refusal_fits(e, seconds, optional_text(metric_pattern)),
                (Ok(config), Some(seconds)) => {
                    &&& seconds > 0
                    &&& config.name() == process_name@
                    &&& config.interval() == seconds
                    &&& config.log_path() == optional_text(log_file_path)
                    &&& config.pattern() == optional_text(metric_pattern)
                    &&& metric_pattern matches Some(source) ==> pattern_group_count(source@) >= 2
                },
                (Ok(_), None) => false,
            },
    {
        match parse_interval(update_interval) {
            Err(e) => Err(e),
            Ok(seconds) => Configuration::new(process_name, seconds, log_file_path, metric_pattern),
        }
    }

    /// The name of the watched process.
    pub fn process_name(&self) -> (name: &str)
        ensures
            name@ == self.name(),
    {
        self.process_name.as_str()
    }

    /// The seconds between two ticks, which are never zero.
    pub fn tick_interval_secs(&self) -> (secs: u64)
        ensures
            secs == self.interval(),
            secs > 0,
    {
        proof {
            use_type_invariant(self);
        }
        self.tick_interval_secs
    }

    /// The path of the log to read each tick, or `None` where log extraction
    /// is idle because the path or the pattern was not given.
    pub fn log_target(&self) -> (path: Option<&str>)
        ensures
            match path {
                Some(p) => self.reads_log() && self.log_path() == Some(p@),
                None => !self.reads_log(),
            },
    {
        match (&self.log_file_path, &self.metric_pattern) {
            (Some(p), Some(_)) => Some(p.as_str()),
            _ => None,
        }
    }

    /// What a tick learns from the log, given the lines of the file, or
    /// `None` in their place where the file could not be opened.
    ///
    /// Where log extraction is idle nothing is extracted and nothing
    /// reported, whatever was handed in. Otherwise a file that could not be
    /// opened gives no metrics and is reported, and the lines of one that
    /// could give the ten most recent matches, the most recent first.
    pub fn log_report(&self, lines: Option<&Vec<String>>) -> (report: LogReport)
        ensures
            report.open_failed == (self.reads_log() && lines is None),
            texts(report.metrics@) == match (self.pattern(), lines) {
                (Some(source), Some(all)) if self.log_path() is Some => recent(
                    line_yields(source, texts(all@)),
                    METRIC_CAP as nat,
                ),
                _ => Seq::<Seq<char>>::empty(),
            },
    {
        match (&self.log_file_path, &self.metric_pattern) {
            (Some(_), Some(matcher)) => {
                match lines {
                    Some(all) => LogReport { metrics: extract_metrics(all, matcher), open_failed: false },
                    None => {
                        let metrics: Vec<String> = Vec::new();
                        assert(texts(metrics@) =~= Seq::<Seq<char>>::empty());
                        LogReport { metrics, open_failed: true }
                    },
                }
            },
            _ => {
                let metrics: Vec<String> = Vec::new();
                assert(texts(metrics@) =~= Seq::<Seq<char>>::empty());
                LogReport { metrics, open_failed: false }
            },
        }
    }
}

} // verus!
