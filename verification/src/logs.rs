//! The log of a pod: what the caller of a log call gets for the reply of
//! the cluster, and the lines the log pane shows.

use vstd::prelude::*;
use crate::contexts::name_texts;
use crate::error::ClientError;

verus! {

/// `String::push`, which appends one character to the end of the string.
pub assume_specification[ String::push ](text: &mut String, c: char)
    ensures
        final(text)@ == old(text)@.push(c),
;

/// Where the first line of `text` ends: the position of its first line
/// feed, or its length where it has none.
pub open spec fn line_end(text: Seq<char>) -> nat
    decreases text.len(),
{
    if text.len() == 0 || text[0] == '\n' {
        0
    } else {
        1 + line_end(text.drop_first())
    }
}

/// A line without the carriage return it may end with.
pub open spec fn without_return(line: Seq<char>) -> Seq<char> {
    if line.len() > 0 && line.last() == '\r' {
        line.drop_last()
    } else {
        line
    }
}

/// The lines of a text. A line ends at a line feed, or at a carriage return
/// followed by one; neither belongs to the line. The last line need not be
/// ended, and an empty text has no lines.
pub open spec fn lines_of(text: Seq<char>) -> Seq<Seq<char>>
    decreases text.len(),
{
    if text.len() == 0 {
        Seq::empty()
    } else {
        let end = line_end(text) as int;
        if end >= text.len() {
            seq![text]
        } else {
            seq![without_return(text.take(end))] + lines_of(text.skip(end + 1))
        }
    }
}

/// The first line ends where the first line feed stands.
pub proof fn lemma_line_end(text: Seq<char>, n: int)
    requires
        0 <= n <= text.len(),
        forall|i: int| 0 <= i < n ==> text[i] != '\n',
        n < text.len() ==> text[n] == '\n',
    ensures
        line_end(text) == n,
    decreases n,
{
    if n > 0 {
        let rest = text.drop_first();
        assert(forall|i: int| 0 <= i < n - 1 ==> rest[i] == text[i + 1]);
        lemma_line_end(rest, n - 1);
    }
}

/// Splits a text into its lines.
pub fn split_lines(text: &str) -> (lines: Vec<String>)
    ensures
        name_texts(lines@) == lines_of(text@),
{
    let mut lines: Vec<String> = Vec::new();
    let mut current = String::new();
    let mut pending_return = false;
    let mut started = false;
    let ghost all = text@;
    let ghost mut start: int = 0;
    proof {
        assert(all.skip(0) =~= all);
    }
    for c in it: text.chars()
        invariant
            it.seq() == all,
            0 <= start <= it.index(),
            started == (start < it.index()),
            lines_of(all) == name_texts(lines@) + lines_of(all.skip(start)),
            forall|i: int| start <= i < it.index() ==> all[i] != '\n',
            pending_return ==> started,
            !pending_return && current@.len() > 0 ==> current@.last() != '\r',
            all.subrange(start, it.index() as int) == if pending_return {
                current@.push('\r')
            } else {
                current@
            },
    {
        let ghost at = it.index() as int;
        let ghost done = name_texts(lines@);
        if c == '\n' {
            proof {
                let tail = all.skip(start);
                assert(forall|i: int| 0 <= i < at - start ==> tail[i] == all[start + i]);
                lemma_line_end(tail, at - start);
                assert(tail.take(at - start) =~= all.subrange(start, at));
                assert(tail.skip(at - start + 1) =~= all.skip(at + 1));
                assert(without_return(all.subrange(start, at)) =~= current@);
            }
            lines.push(current);
            current = String::new();
            pending_return = false;
            started = false;
            proof {
                assert(name_texts(lines@) =~= done.push(without_return(all.subrange(start, at))));
                assert(lines_of(all) =~= name_texts(lines@) + lines_of(all.skip(at + 1)));
                start = at + 1;
                assert(all.subrange(start, at + 1) =~= current@);
            }
        } else {
            let ghost before = current@;
            if pending_return {
                current.push('\r');
            }
            if c == '\r' {
                pending_return = true;
            } else {
                current.push(c);
                pending_return = false;
            }
            started = true;
            proof {
                assert(all.subrange(start, at + 1) =~= all.subrange(start, at).push(c));
            }
        }
    }
    proof {
        let tail = all.skip(start);
        let n = all.len() as int;
        assert(forall|i: int| 0 <= i < n - start ==> tail[i] == all[start + i]);
        lemma_line_end(tail, n - start);
        assert(all.subrange(start, n) =~= tail);
    }
    if started {
        if pending_return {
            current.push('\r');
        }
        let ghost done = name_texts(lines@);
        lines.push(current);
        proof {
            assert(name_texts(lines@) =~= done.push(all.skip(start)));
            assert(lines_of(all) =~= name_texts(lines@));
        }
    } else {
        proof {
            assert(lines_of(all) =~= name_texts(lines@));
        }
    }
    lines
}

/// What the caller of a log call gets for the reply of the cluster: the
/// text as retrieved, or `RemoteCallFailed` with the reason of a failed
/// reply.
pub fn complete_logs(reply: Result<String, String>) -> (log: Result<String, ClientError>)
    ensures
        match reply {
            Ok(text) => log == Ok::<String, ClientError>(text),
            Err(reason) => log matches Err(ClientError::RemoteCallFailed(text)) && text == reason,
        },
{
    match reply {
        Ok(text) => Ok(text),
        Err(reason) => Err(ClientError::RemoteCallFailed(reason)),
    }
}

/// The lines the log pane shows for the outcome of fetching a log.
pub open spec fn shown_lines(outcome: Result<String, ClientError>) -> Seq<Seq<char>> {
    match outcome {
        Ok(text) => lines_of(text@),
        Err(error) => seq!["Error: "@ + error.message_text()],
    }
}

/// The lines the log pane shows for the outcome of fetching a log: the
/// lines of the log, or one line that says why there is none.
pub fn log_lines(outcome: &Result<String, ClientError>) -> (lines: Vec<String>)
    ensures
        name_texts(lines@) == shown_lines(*outcome),
{
    match outcome {
        Ok(text) => split_lines(text.as_str()),
        Err(error) => {
            let line = String::from_str("Error: ").concat(error.message().as_str());
            let lines = vec![line];
            assert(name_texts(lines@) =~= shown_lines(*outcome));
            lines
        },
    }
}

} // verus!
