//! The task logger: turns a submitted entry into the line that is appended to
//! the log file, and models the file as the sequence of lines it holds.
use vstd::prelude::*;
use vstd::string::*;

verus! {

/// Why a task entry could not be logged.
#[derive(Clone, Copy, Debug, PartialEq, Eq, Structural)]
pub enum LogError {
    /// No log file path was configured.
    MissingPath,
}

/// One append to perform: write `line` at the end of the file at `path`,
/// creating the file if it does not exist.
#[derive(Debug)]
pub struct TaskWrite {
    pub path: String,
    pub line: String,
}

/// The text written to the log for one task entry: the entry followed by a
/// line terminator.
pub open spec fn entry_line(content: Seq<char>) -> Seq<char> {
    content + seq!['\n']
}

/// A log file holds whole lines only: it is empty or ends with a terminator.
pub open spec fn is_log_text(text: Seq<char>) -> bool {
    text.len() == 0 || text.last() == '\n'
}

/// An entry that occupies exactly one line.
pub open spec fn is_single_line(s: Seq<char>) -> bool {
    !s.contains('\n')
}

/// Reads text left to right: the lines already terminated, and the
/// characters seen since the last terminator.
pub open spec fn scan_lines(text: Seq<char>) -> (Seq<Seq<char>>, Seq<char>)
    decreases text.len(),
{
    if text.len() == 0 {
        (seq![], seq![])
    } else {
        let (done, open) = scan_lines(text.drop_last());
        if text.last() == '\n' {
            (done.push(open), seq![])
        } else {
            (done, open.push(text.last()))
        }
    }
}

/// The lines of a text file; a final line without terminator counts too.
pub open spec fn log_lines(text: Seq<char>) -> Seq<Seq<char>> {
    let (done, open) = scan_lines(text);
    if open.len() == 0 {
        done
    } else {
        done.push(open)
    }
}

/// The file contents after appending each of `entries`, in order, to `text`.
pub open spec fn log_after(text: Seq<char>, entries: Seq<Seq<char>>) -> Seq<char>
    decreases entries.len(),
{
    if entries.len() == 0 {
        text
    } else {
        log_after(text, entries.drop_last()) + entry_line(entries.last())
    }
}

/// Resolves the log file path and builds the line for `content`.
///
/// Without a configured path the request fails with `MissingPath` and nothing
/// is to be written; otherwise the write goes to that path and holds the entry
/// followed by a line terminator.
pub fn add_task(path: Option<String>, content: String) -> (r: Result<TaskWrite, LogError>)
    ensures
        path is None <==> r == Err::<TaskWrite, LogError>(LogError::MissingPath),
        path is Some <==> r is Ok,
        r matches Ok(w) ==> w.path@ == path->0@ && w.line@ == entry_line(content@),
{
    match path {
        None => Err(LogError::MissingPath),
        Some(p) => {
            let mut line = content;
            line.append("\n");
            proof {
                reveal_strlit("\n");
                assert(line@ =~= entry_line(content@));
            }
            Ok(TaskWrite { path: p, line })
        },
    }
}

proof fn lemma_scan_single_line(text: Seq<char>, s: Seq<char>)
    requires
        is_single_line(s),
    ensures
        scan_lines(text + s) == (scan_lines(text).0, scan_lines(text).1 + s),
    decreases s.len(),
{
    if s.len() == 0 {
        assert(text + s =~= text);
        assert(scan_lines(text).1 + s =~= scan_lines(text).1);
    } else {
        let t = text + s;
        assert(t.drop_last() =~= text + s.drop_last());
        assert(s.drop_last().len() < s.len());
        assert forall|c: char| s.drop_last().contains(c) implies s.contains(c) by {
            let i = choose|i: int| 0 <= i < s.drop_last().len() && s.drop_last()[i] == c;
            assert(s[i] == c);
        }
        lemma_scan_single_line(text, s.drop_last());
        assert(t.last() == s.last());
        assert(s.contains(s.last()));
        assert(scan_lines(text).1 + s.drop_last() + seq![s.last()] =~= scan_lines(text).1 + s);
    }
}

proof fn lemma_log_text_closed(text: Seq<char>)
    requires
        is_log_text(text),
    ensures
        scan_lines(text).1.len() == 0,
{
}

/// Appending one single-line entry to a well-formed log adds exactly one
/// line, equal to the entry, after the lines already there, and leaves a
/// well-formed log.
pub proof fn append_adds_one_line(text: Seq<char>, s: Seq<char>)
    requires
        is_log_text(text),
        is_single_line(s),
    ensures
        log_lines(text + entry_line(s)) == log_lines(text).push(s),
        log_lines(text + entry_line(s)).len() == log_lines(text).len() + 1,
        log_lines(text + entry_line(s)).last() == s,
        is_log_text(text + entry_line(s)),
{
    let t = text + entry_line(s);
    lemma_log_text_closed(text);
    lemma_scan_single_line(text, s);
    assert(t.drop_last() =~= text + s);
    assert(scan_lines(text).1 + s =~= s);
    assert(t.last() == '\n');
}

/// Appending entries one after another to a well-formed log, each on a single
/// line, yields the lines already there followed by the entries in the order
/// they were submitted; from an empty file, exactly the entries.
pub proof fn appends_keep_order(text: Seq<char>, entries: Seq<Seq<char>>)
    requires
        is_log_text(text),
        forall|i: int| 0 <= i < entries.len() ==> is_single_line(#[trigger] entries[i]),
    ensures
        log_lines(log_after(text, entries)) == log_lines(text) + entries,
        is_log_text(log_after(text, entries)),
        text.len() == 0 ==> log_lines(log_after(text, entries)) == entries,
    decreases entries.len(),
{
    if entries.len() == 0 {
        assert(log_lines(text) + entries =~= log_lines(text));
    } else {
        let init = entries.drop_last();
        assert forall|i: int| 0 <= i < init.len() implies is_single_line(#[trigger] init[i]) by {
            assert(init[i] == entries[i]);
        }
        appends_keep_order(text, init);
        assert(is_single_line(entries[entries.len() - 1]));
        append_adds_one_line(log_after(text, init), entries.last());
        assert(log_lines(text) + init.push(entries.last()) =~= (log_lines(text) + init).push(
            entries.last(),
        ));
        assert(init.push(entries.last()) =~= entries);
    }
    if text.len() == 0 {
        assert(log_lines(text) =~= seq![]);
        assert(log_lines(text) + entries =~= entries);
    }
}

} // verus!
