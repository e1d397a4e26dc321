//! The logging calls: each computes what is to be written and where, and
//! leaves the writing to its caller.

use vstd::prelude::*;
use crate::clock::{current_time_fmt, has_specifier, text_of, Moment};
use crate::severity::{
    emits, is_severity, level_name, level_to_string, DEBUG, ERROR, FATAL, INFO, TRACE, WARNING,
};
use crate::settings::{
    default_path, get_log_level, get_log_path, set_log_level, set_log_path, Settings,
};
use crate::sink::{
    appended, bodies, is_line, lemma_appended_lines, lemma_contains_concat, split_lines,
};

verus! {

/// One write to the sink: `line`, which ends in a line feed, goes to the
/// console and to the end of the file at `path`.
pub struct Emission {
    pub path: String,
    pub line: String,
}

/// The name under which a thread appears in a record.
pub open spec fn thread_label(thread: Option<&str>) -> Seq<char> {
    match thread {
        Some(name) => name@,
        None => "unnamed thread"@,
    }
}

/// A record: `[HH:MM:SS] [LEVEL] [thread] message`.
pub open spec fn record_text(
    clock: Seq<char>,
    level: u32,
    thread: Seq<char>,
    message: Seq<char>,
) -> Seq<char> {
    "["@ + clock + "] ["@ + level_name(level) + "] ["@ + thread + "] "@ + message
}

/// `e` is what a call at severity `level` emits under `cfg`: the record of the
/// message, stamped with the time of day of some instant, and a line feed, for
/// the configured file.
pub open spec fn is_record(
    e: Emission,
    cfg: Settings,
    level: u32,
    thread: Option<&str>,
    message: Seq<char>,
) -> bool {
    &&& e.path@ == cfg.path()
    &&& exists|now: Moment| #[trigger]
        now.is_reading() && e.line@ == record_text(
            now.clock(),
            level,
            thread_label(thread),
            message,
        ).push('\n')
}

/// The path that an expansion leaves: its text, or `unnamed.log` where the
/// pattern could not be expanded.
pub open spec fn resolved_path(expansion: Option<Seq<char>>) -> Seq<char> {
    match expansion {
        Some(path) => path,
        None => default_path(),
    }
}

/// Formats a record from the time of day, the severity, the name of the
/// calling thread if it has one, and the message.
pub fn format_record(clock: &str, level: u32, thread: Option<&str>, message: &str) -> (record:
    String)
    ensures
        record@ == record_text(clock@, level, thread_label(thread), message@),
{
    let name = level_to_string(level);
    let label = match thread {
        Some(s) => s,
        None => "unnamed thread",
    };
    let mut record = String::from_str("[");
    record.append(clock);
    record.append("] [");
    record.append(name.as_str());
    record.append("] [");
    record.append(label);
    record.append("] ");
    record.append(message);
    record
}

/// Logs `message` as it is, whatever the threshold: the line to write is the
/// message and a line feed, the file the configured one.
pub fn log(cfg: &Settings, message: &str) -> (e: Emission)
    ensures
        e.path@ == cfg.path(),
        e.line@ == message@.push('\n'),
        is_line(e.line@) <==> !message@.contains('\n'),
{
    let mut line = String::from_str(message);
    line.append("\n");
    proof {
        reveal_strlit("\n");
        assert(message@ + "\n"@ =~= message@.push('\n'));
        assert(message@.push('\n').drop_last() =~= message@);
    }
    Emission { path: get_log_path(cfg), line }
}

/// Logs `message` at `level`: nothing if `level` is less urgent than the
/// threshold, else the record stamped with the local time of the call.
pub fn log_with_level(cfg: &Settings, thread: Option<&str>, message: &str, level: u32) -> (r:
    Option<Emission>)
    ensures
        r is Some <==> emits(level, cfg.threshold()),
        r matches Some(e) ==> is_record(e, *cfg, level, thread, message@),
{
    if get_log_level(cfg) >= level {
        let clock = current_time_fmt("%T").unwrap();
        let record = format_record(clock.as_str(), level, thread, message);
        Some(log(cfg, record.as_str()))
    } else {
        None
    }
}

/// Logs a trace message.
pub fn trace(cfg: &Settings, thread: Option<&str>, message: &str) -> (r: Option<Emission>)
    ensures
        r is Some <==> emits(TRACE, cfg.threshold()),
        r matches Some(e) ==> is_record(e, *cfg, TRACE, thread, message@),
{
    log_with_level(cfg, thread, message, TRACE)
}

/// Logs a debug message.
pub fn debug(cfg: &Settings, thread: Option<&str>, message: &str) -> (r: Option<Emission>)
    ensures
        r is Some <==> emits(DEBUG, cfg.threshold()),
        r matches Some(e) ==> is_record(e, *cfg, DEBUG, thread, message@),
{
    log_with_level(cfg, thread, message, DEBUG)
}

/// Logs an info message.
pub fn info(cfg: &Settings, thread: Option<&str>, message: &str) -> (r: Option<Emission>)
    ensures
        r is Some <==> emits(INFO, cfg.threshold()),
        r matches Some(e) ==> is_record(e, *cfg, INFO, thread, message@),
{
    log_with_level(cfg, thread, message, INFO)
}

/// Logs a warning message.
pub fn warning(cfg: &Settings, thread: Option<&str>, message: &str) -> (r: Option<Emission>)
    ensures
        r is Some <==> emits(WARNING, cfg.threshold()),
        r matches Some(e) ==> is_record(e, *cfg, WARNING, thread, message@),
{
    log_with_level(cfg, thread, message, WARNING)
}

/// Logs an error message.
pub fn error(cfg: &Settings, thread: Option<&str>, message: &str) -> (r: Option<Emission>)
    ensures
        r is Some <==> emits(ERROR, cfg.threshold()),
        r matches Some(e) ==> is_record(e, *cfg, ERROR, thread, message@),
{
    log_with_level(cfg, thread, message, ERROR)
}

/// Logs a fatal message. No threshold holds it back.
pub fn fatal(cfg: &Settings, thread: Option<&str>, message: &str) -> (r: Option<Emission>)
    ensures
        r is Some,
        r matches Some(e) ==> is_record(e, *cfg, FATAL, thread, message@),
{
    log_with_level(cfg, thread, message, FATAL)
}

/// A record is one line: it holds a line feed only where the thread's name or
/// the message holds one.
pub proof fn lemma_record_is_line(
    e: Emission,
    cfg: Settings,
    level: u32,
    thread: Option<&str>,
    message: Seq<char>,
)
    requires
        is_record(e, cfg, level, thread, message),
        !thread_label(thread).contains('\n'),
        !message.contains('\n'),
    ensures
        is_line(e.line@),
{
    let now = choose|now: Moment| #[trigger]
        now.is_reading() && e.line@ == record_text(
            now.clock(),
            level,
            thread_label(thread),
            message,
        ).push('\n');
    let clock = now.clock();
    let name = level_name(level);
    let label = thread_label(thread);
    let record = record_text(clock, level, label, message);
    assert(e.line@.drop_last() =~= record);
    reveal_strlit("[");
    reveal_strlit("] [");
    reveal_strlit("] ");
    reveal_strlit("TRACE");
    reveal_strlit("DEBUG");
    reveal_strlit("INFO");
    reveal_strlit("WARNING");
    reveal_strlit("ERROR");
    reveal_strlit("FATAL");
    reveal_strlit("");
    assert(clock.len() == 8);
    assert(!clock.contains('\n'));
    assert(!name.contains('\n'));
    lemma_contains_concat("["@, clock, '\n');
    lemma_contains_concat("["@ + clock, "] ["@, '\n');
    lemma_contains_concat("["@ + clock + "] ["@, name, '\n');
    lemma_contains_concat("["@ + clock + "] ["@ + name, "] ["@, '\n');
    lemma_contains_concat("["@ + clock + "] ["@ + name + "] ["@, label, '\n');
    lemma_contains_concat("["@ + clock + "] ["@ + name + "] ["@ + label, "] "@, '\n');
    lemma_contains_concat("["@ + clock + "] ["@ + name + "] ["@ + label + "] "@, message, '\n');
}

/// The lines of a run of emissions, in the order of the calls.
pub open spec fn lines_of(emissions: Seq<Emission>) -> Seq<Seq<char>> {
    Seq::new(emissions.len(), |i: int| emissions[i].line@)
}

/// Leveled messages that pass the threshold, written one after the other to a
/// file that ends at a line boundary, add one line each to it, in the order of
/// the calls, and leave the lines it had. This holds of messages and thread
/// names without a line feed in them.
pub proof fn lemma_records_in_call_order(
    file: Seq<char>,
    cfg: Settings,
    emissions: Seq<Emission>,
    levels: Seq<u32>,
    threads: Seq<Option<&str>>,
    messages: Seq<Seq<char>>,
)
    requires
        split_lines(file).1.len() == 0,
        levels.len() == emissions.len(),
        threads.len() == emissions.len(),
        messages.len() == emissions.len(),
        forall|i: int|
            0 <= i < emissions.len() ==> is_record(
                #[trigger] emissions[i],
                cfg,
                levels[i],
                threads[i],
                messages[i],
            ) && !thread_label(threads[i]).contains('\n') && !messages[i].contains('\n'),
    ensures
        split_lines(appended(file, lines_of(emissions))).0 == split_lines(file).0 + bodies(
            lines_of(emissions),
        ),
        split_lines(appended(file, lines_of(emissions))).0.len() == split_lines(file).0.len()
            + emissions.len(),
        split_lines(appended(file, lines_of(emissions))).1.len() == 0,
{
    let lines = lines_of(emissions);
    assert forall|i: int| 0 <= i < lines.len() implies is_line(#[trigger] lines[i]) by {
        lemma_record_is_line(emissions[i], cfg, levels[i], threads[i], messages[i]);
    }
    lemma_appended_lines(file, lines);
}

/// Stores the outcome of expanding a path pattern, and the threshold.
///
/// The path becomes the expansion, or `unnamed.log` where there is none. The
/// threshold becomes `level` if that is one of the six severities, and stays as
/// it was otherwise.
pub fn init_with(cfg: &mut Settings, expansion: Option<String>, level: u32)
    ensures
        final(cfg).path() == resolved_path(text_of(expansion)),
        final(cfg).log_path is Some,
        is_severity(level) ==> final(cfg).threshold() == level,
        !is_severity(level) ==> final(cfg).log_level == old(cfg).log_level,
        !is_severity(level) ==> final(cfg).threshold() == old(cfg).threshold(),
{
    match expansion {
        Some(path) => set_log_path(cfg, path.as_str()),
        None => set_log_path(cfg, "unnamed.log"),
    }
    set_log_level(cfg, level);
}

/// Configures the logger: the file path is `path` expanded at the current
/// local time, the threshold is `level`.
///
/// A pattern that cannot be expanded leaves `unnamed.log` as the path. A
/// `level` that is none of the six severities leaves the threshold as it was.
pub fn init(cfg: &mut Settings, path: &str, level: u32)
    ensures
        exists|now: Moment| #[trigger]
            now.is_reading() && final(cfg).path() == resolved_path(now.expand(path@)),
        !has_specifier(path@) ==> final(cfg).path() == path@,
        final(cfg).log_path is Some,
        is_severity(level) ==> final(cfg).threshold() == level,
        !is_severity(level) ==> final(cfg).log_level == old(cfg).log_level,
        !is_severity(level) ==> final(cfg).threshold() == old(cfg).threshold(),
{
    let expansion = current_time_fmt(path);
    init_with(cfg, expansion, level);
}

} // verus!
