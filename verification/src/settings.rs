//! The logger's configuration as it is kept in a string-keyed store: two
//! optional entries of text, one for the file path and one for the threshold.

use vstd::prelude::*;
use crate::severity::{is_severity, is_valid_level, INFO};

verus! {

/// The path used while no path has been stored.
pub open spec fn default_path() -> Seq<char> {
    "unnamed.log"@
}

pub open spec fn is_digit(c: char) -> bool {
    '0' <= c <= '9'
}

pub open spec fn digit_value(c: char) -> nat {
    (c as u32 - '0' as u32) as nat
}

/// The number that a run of decimal digits writes, most significant first.
pub open spec fn digits_value(digits: Seq<char>) -> nat
    decreases digits.len(),
{
    if digits.len() == 0 {
        0
    } else {
        10 * digits_value(digits.drop_last()) + digit_value(digits.last())
    }
}

/// The text without the one `+` that may lead a number.
pub open spec fn unsigned_part(text: Seq<char>) -> Seq<char> {
    if text.len() > 0 && text[0] == '+' {
        text.subrange(1, text.len() as int)
    } else {
        text
    }
}

/// What a stored threshold reads as: an optional `+`, then at least one decimal
/// digit and nothing else, the whole no larger than `u32::MAX`.
pub open spec fn parsed_level(text: Seq<char>) -> Option<u32> {
    let digits = unsigned_part(text);
    if digits.len() > 0 && (forall|j: int| 0 <= j < digits.len() ==> is_digit(#[trigger] digits[j]))
        && digits_value(digits) <= u32::MAX {
        Some(digits_value(digits) as u32)
    } else {
        None
    }
}

/// The text under which a severity is stored: its one decimal digit.
pub open spec fn level_text(level: u32) -> Seq<char>
    recommends
        is_severity(level),
{
    seq![(level + '0' as u32) as char]
}

/// The stored configuration. An entry that is `None` was never written.
pub struct Settings {
    pub log_path: Option<String>,
    pub log_level: Option<String>,
}

impl Settings {
    /// The path that log lines go to: the stored one, or `unnamed.log`.
    pub open spec fn path(&self) -> Seq<char> {
        match self.log_path {
            Some(p) => p@,
            None => default_path(),
        }
    }

    /// The threshold in force: the stored one where it reads as a number,
    /// `INFO` where nothing is stored or the entry does not.
    pub open spec fn threshold(&self) -> u32 {
        match self.log_level {
            Some(t) => match parsed_level(t@) {
                Some(v) => v,
                None => INFO,
            },
            None => INFO,
        }
    }

    /// The configuration before anything was stored.
    pub fn new() -> (cfg: Settings)
        ensures
            cfg.log_path is None,
            cfg.log_level is None,
            cfg.path() == default_path(),
            cfg.threshold() == INFO,
    {
        Settings { log_path: None, log_level: None }
    }
}

proof fn lemma_digits_value_step(digits: Seq<char>, c: char)
    ensures
        digits_value(digits.push(c)) == 10 * digits_value(digits) + digit_value(c),
{
    assert(digits.push(c).drop_last() =~= digits);
}

/// Reads a stored threshold.
pub fn parse_level(text: &str) -> (r: Option<u32>)
    ensures
        r == parsed_level(text@),
{
    let n: usize = text.unicode_len();
    let start: usize = if n > 0 && text.get_char(0) == '+' {
        1
    } else {
        0
    };
    let ghost digits = unsigned_part(text@);
    assert(digits =~= text@.subrange(start as int, n as int));
    if start == n {
        return None;
    }
    let mut value: u64 = 0;
    let mut too_large: bool = false;
    let mut i: usize = start;
    while i < n
        invariant
            n == text@.len(),
            start <= i <= n,
            digits == unsigned_part(text@),
            digits == text@.subrange(start as int, n as int),
            forall|j: int| 0 <= j < i - start ==> is_digit(#[trigger] digits[j]),
            !too_large ==> value == digits_value(digits.take(i - start)) && value <= u32::MAX,
            too_large ==> digits_value(digits.take(i - start)) > u32::MAX,
        decreases n - i,
    {
        let c: char = text.get_char(i);
        if !('0' <= c && c <= '9') {
            assert(digits[i - start] == c);
            assert(!is_digit(digits[i - start]));
            return None;
        }
        proof {
            lemma_digits_value_step(digits.take(i - start), c);
            assert(digits.take(i - start + 1) =~= digits.take(i - start).push(c));
        }
        if !too_large {
            value = value * 10 + (c as u32 - '0' as u32) as u64;
            if value > u32::MAX as u64 {
                too_large = true;
            }
        }
        i += 1;
    }
    assert(digits.take(n - start) =~= digits);
    if too_large {
        None
    } else {
        Some(value as u32)
    }
}

/// The threshold in force.
pub fn get_log_level(cfg: &Settings) -> (level: u32)
    ensures
        level == cfg.threshold(),
{
    match &cfg.log_level {
        Some(t) => match parse_level(t.as_str()) {
            Some(v) => v,
            None => INFO,
        },
        None => INFO,
    }
}

/// Stores `level` as the threshold if it is one of the six severities, and
/// otherwise changes nothing.
pub fn set_log_level(cfg: &mut Settings, level: u32)
    ensures
        final(cfg).log_path == old(cfg).log_path,
        is_severity(level) ==> (final(cfg).log_level matches Some(t) && t@ == level_text(level)),
        is_severity(level) ==> final(cfg).threshold() == level,
        !is_severity(level) ==> *final(cfg) == *old(cfg),
        !is_severity(level) ==> final(cfg).threshold() == old(cfg).threshold(),
{
    if is_valid_level(level) {
        let text = match level {
            0 => "0",
            1 => "1",
            2 => "2",
            3 => "3",
            4 => "4",
            _ => "5",
        };
        proof {
            reveal_strlit("0");
            reveal_strlit("1");
            reveal_strlit("2");
            reveal_strlit("3");
            reveal_strlit("4");
            reveal_strlit("5");
            assert(text@ =~= level_text(level));
            lemma_level_text_reads_back(level);
        }
        cfg.log_level = Some(String::from_str(text));
    }
}

/// The path that log lines go to.
pub fn get_log_path(cfg: &Settings) -> (path: String)
    ensures
        path@ == cfg.path(),
{
    match &cfg.log_path {
        Some(p) => p.clone(),
        None => String::from_str("unnamed.log"),
    }
}

/// Stores `path` as the path that log lines go to.
pub fn set_log_path(cfg: &mut Settings, path: &str)
    ensures
        final(cfg).log_level == old(cfg).log_level,
        final(cfg).log_path matches Some(p) && p@ == path@,
        final(cfg).path() == path@,
{
    cfg.log_path = Some(String::from_str(path));
}

/// A severity that was stored reads back as itself.
pub proof fn lemma_level_text_reads_back(level: u32)
    requires
        is_severity(level),
    ensures
        parsed_level(level_text(level)) == Some(level),
{
    let text = level_text(level);
    assert(text.len() == 1);
    assert(text[0] != '+');
    assert(unsigned_part(text) == text);
    assert(text.drop_last() =~= Seq::<char>::empty());
    assert(digits_value(text.drop_last()) == 0);
    assert(digits_value(text) == level) by {
        assert(text.last() == text[0]);
    }
}

} // verus!
