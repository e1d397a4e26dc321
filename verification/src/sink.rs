//! The sink as the logging calls see it: a text file that only grows by whole
//! lines, and the notice that the console gets when a write fails.

use vstd::prelude::*;

verus! {

/// How one write to the file ended. A failure carries its cause as text.
pub enum SinkOutcome {
    Appended,
    OpenFailed(String),
    WriteFailed(String),
}

/// The notice for the console after a write: none where the line was appended.
pub open spec fn notice_text(outcome: SinkOutcome) -> Option<Seq<char>> {
    match outcome {
        SinkOutcome::Appended => None,
        SinkOutcome::OpenFailed(cause) => Some("Logger: Failed to open file: "@ + cause@),
        SinkOutcome::WriteFailed(cause) => Some("Logger: Failed to write to file: "@ + cause@),
    }
}

/// The notice to print after a write to the file. A failed write is reported
/// on the console and nowhere else: the logging call itself has returned.
pub fn failure_notice(outcome: &SinkOutcome) -> (notice: Option<String>)
    ensures
        crate::clock::text_of(notice) == notice_text(*outcome),
{
    match outcome {
        SinkOutcome::Appended => None,
        SinkOutcome::OpenFailed(cause) => {
            let mut notice = String::from_str("Logger: Failed to open file: ");
            notice.append(cause.as_str());
            Some(notice)
        },
        SinkOutcome::WriteFailed(cause) => {
            let mut notice = String::from_str("Logger: Failed to write to file: ");
            notice.append(cause.as_str());
            Some(notice)
        },
    }
}

/// Text that makes exactly one line of a file: it ends in a line feed and
/// holds no other.
pub open spec fn is_line(text: Seq<char>) -> bool {
    text.len() > 0 && text.last() == '\n' && !text.drop_last().contains('\n')
}

/// A file's text taken apart at its line feeds: the lines that are complete,
/// without their line feeds, and what follows the last line feed.
pub open spec fn split_lines(text: Seq<char>) -> (Seq<Seq<char>>, Seq<char>)
    decreases text.len(),
{
    if text.len() == 0 {
        (Seq::empty(), Seq::empty())
    } else {
        let (done, rest) = split_lines(text.drop_last());
        if text.last() == '\n' {
            (done.push(rest), Seq::empty())
        } else {
            (done, rest.push(text.last()))
        }
    }
}

/// The text of a file after `lines` were appended to it, one after the other.
pub open spec fn appended(file: Seq<char>, lines: Seq<Seq<char>>) -> Seq<char>
    decreases lines.len(),
{
    if lines.len() == 0 {
        file
    } else {
        appended(file, lines.drop_last()) + lines.last()
    }
}

/// Each line without the line feed that ends it.
pub open spec fn bodies(lines: Seq<Seq<char>>) -> Seq<Seq<char>> {
    Seq::new(lines.len(), |i: int| lines[i].drop_last())
}

/// A character is in `a + b` exactly when it is in `a` or in `b`.
pub proof fn lemma_contains_concat(a: Seq<char>, b: Seq<char>, c: char)
    ensures
        (a + b).contains(c) <==> a.contains(c) || b.contains(c),
{
    if a.contains(c) {
        let i = choose|i: int| 0 <= i < a.len() && a[i] == c;
        assert((a + b)[i] == c);
    }
    if b.contains(c) {
        let i = choose|i: int| 0 <= i < b.len() && b[i] == c;
        assert((a + b)[a.len() + i] == c);
    }
    if (a + b).contains(c) {
        let i = choose|i: int| 0 <= i < (a + b).len() && (a + b)[i] == c;
        if i < a.len() {
            assert(a[i] == c);
        } else {
            assert(b[i - a.len()] == c);
        }
    }
}

proof fn lemma_split_run(text: Seq<char>, run: Seq<char>)
    requires
        !run.contains('\n'),
    ensures
        split_lines(text + run) == (split_lines(text).0, split_lines(text).1 + run),
    decreases run.len(),
{
    if run.len() == 0 {
        assert(text + run =~= text);
        assert(split_lines(text).1 + run =~= split_lines(text).1);
    } else {
        let shorter = run.drop_last();
        assert(run[run.len() - 1] == run.last());
        assert(run.last() != '\n');
        assert(!shorter.contains('\n')) by {
            if shorter.contains('\n') {
                let i = choose|i: int| 0 <= i < shorter.len() && shorter[i] == '\n';
                assert(run[i] == '\n');
            }
        }
        lemma_split_run(text, shorter);
        assert((text + run).drop_last() =~= text + shorter);
        assert((text + run).last() == run.last());
        assert((split_lines(text).1 + shorter).push(run.last()) =~= split_lines(text).1 + run);
    }
}

/// One line appended to a file that ends at a line boundary is the file's new
/// last line, and the file ends at a line boundary again.
pub proof fn lemma_append_line(file: Seq<char>, line: Seq<char>)
    requires
        split_lines(file).1.len() == 0,
        is_line(line),
    ensures
        split_lines(file + line) == (split_lines(file).0.push(line.drop_last()), Seq::<char>::empty()),
{
    let body = line.drop_last();
    lemma_split_run(file, body);
    assert((file + line).drop_last() =~= file + body);
    assert((file + line).last() == '\n');
    assert(split_lines(file).1 + body =~= body);
}

/// Lines appended to a file that ends at a line boundary come after the lines
/// it had, as many as were appended and in the order of the appends.
pub proof fn lemma_appended_lines(file: Seq<char>, lines: Seq<Seq<char>>)
    requires
        split_lines(file).1.len() == 0,
        forall|i: int| 0 <= i < lines.len() ==> is_line(#[trigger] lines[i]),
    ensures
        split_lines(appended(file, lines)).0 == split_lines(file).0 + bodies(lines),
        split_lines(appended(file, lines)).0.len() == split_lines(file).0.len() + lines.len(),
        split_lines(appended(file, lines)).1.len() == 0,
    decreases lines.len(),
{
    if lines.len() == 0 {
        assert(split_lines(file).0 + bodies(lines) =~= split_lines(file).0);
    } else {
        let earlier = lines.drop_last();
        assert forall|i: int| 0 <= i < earlier.len() implies is_line(#[trigger] earlier[i]) by {
            assert(earlier[i] == lines[i]);
        }
        lemma_appended_lines(file, earlier);
        assert(is_line(lines[lines.len() - 1]));
        lemma_append_line(appended(file, earlier), lines.last());
        assert(bodies(earlier).push(lines.last().drop_last()) =~= bodies(lines));
        assert((split_lines(file).0 + bodies(earlier)).push(lines.last().drop_last())
            =~= split_lines(file).0 + bodies(lines));
    }
}

} // verus!
