//! The rules of the command line: where the two documents come from and what
//! is printed at the end. Reading and printing are the caller's.
use vstd::prelude::*;
use crate::json::document;
use crate::json::json_text;
use crate::json::parse_document;
use crate::json::text;
use crate::query;
use crate::OpaClientError;
use crate::OpenPolicyAgentClient;

verus! {

/// The text of a document that was left out: the empty object.
pub open spec fn empty_document() -> Seq<char> {
    "{}"@
}

/// The text of the data document: what the data file held, where one was
/// named, and the empty object where none was.
pub fn read_from_file_arg(s: Option<String>) -> (r: String)
    ensures
        r@ == match s {
            Some(text) => text@,
            None => empty_document(),
        },
{
    match s {
        Some(text) => text,
        None => "{}".to_owned(),
    }
}

/// A text with one more line: lines are separated by a line feed, and an
/// empty line adds nothing.
pub open spec fn with_line(text: Seq<char>, line: Seq<char>) -> Seq<char> {
    if line.len() == 0 {
        text
    } else if text.len() == 0 {
        line
    } else {
        text + seq!['\n'] + line
    }
}

/// Takes one line of standard input into the text gathered so far, and says
/// whether to go on reading: an empty line ends the input.
pub fn push_line(input: &mut String, line: &str) -> (more: bool)
    ensures
        more == (line@.len() > 0),
        final(input)@ == with_line(old(input)@, line@),
{
    if line.is_empty() {
        return false;
    }
    if !input.as_str().is_empty() {
        proof {
            reveal_strlit("\n");
        }
        input.append("\n");
        assert("\n"@ =~= seq!['\n']);
    }
    input.append(line);
    true
}

/// The index of the first empty line at or after `from`, or the number of
/// lines where there is none.
pub open spec fn blank_from(lines: Seq<Seq<char>>, from: int) -> int
    decreases lines.len() - from,
{
    if from < 0 || from >= lines.len() {
        lines.len() as int
    } else if lines[from].len() == 0 {
        from
    } else {
        blank_from(lines, from + 1)
    }
}

/// Lines joined by line feeds.
pub open spec fn joined(lines: Seq<Seq<char>>) -> Seq<char>
    decreases lines.len(),
{
    if lines.len() == 0 {
        Seq::empty()
    } else if lines.len() == 1 {
        lines[0]
    } else {
        joined(lines.drop_last()) + seq!['\n'] + lines.last()
    }
}

/// The input document that standard input holds: its lines up to the first
/// empty one, joined by line feeds.
pub open spec fn input_text(lines: Seq<Seq<char>>) -> Seq<char> {
    joined(lines.take(blank_from(lines, 0)))
}

/// The texts of some lines.
pub open spec fn texts(lines: Seq<String>) -> Seq<Seq<char>> {
    Seq::new(lines.len(), |i: int| lines[i]@)
}

/// Gathers the input document from the lines of standard input.
pub fn read_lines(lines: &Vec<String>) -> (r: String)
    ensures
        r@ == input_text(texts(lines@)),
{
    let ghost all = texts(lines@);
    let mut input = String::new();
    let mut i: usize = 0;
    assert(all.take(0) =~= Seq::<Seq<char>>::empty());
    while i < lines.len()
        invariant
            i <= lines.len(),
            all == texts(lines@),
            blank_from(all, 0) == blank_from(all, i as int),
            forall|j: int| 0 <= j < i ==> all[j].len() > 0,
            input@ == joined(all.take(i as int)),
            i > 0 ==> input@.len() > 0,
        decreases lines.len() - i,
    {
        let more = push_line(&mut input, lines[i].as_str());
        if !more {
            return input;
        }
        proof {
            let before = all.take(i as int);
            let after = all.take(i + 1);
            assert(after.drop_last() =~= before);
            assert(after.last() == all[i as int]);
            if i == 0 {
                assert(before.len() == 0);
            }
        }
        i = i + 1;
    }
    input
}

/// Queries a backend with the two documents given as text. A document that
/// is not JSON is a `JsonError`, the input before the data, and then nothing
/// is asked of the client or of the backend; with two documents that are
/// JSON the outcome is that of [`query`].
pub fn query_texts<C: OpenPolicyAgentClient, B: FnOnce(C::Request) -> C::Outcome>(
    client: &C,
    rule: &str,
    input: &str,
    data: &str,
    backend: B,
) -> (r: Result<Option<serde_json::Value>, OpaClientError>)
    requires
        forall|request: C::Request| call_requires(backend, (request,)),
    ensures
        match (document(input@), document(data@)) {
            (Err(e), _) => r == Err::<Option<serde_json::Value>, OpaClientError>(e),
            (Ok(_), Err(e)) => r == Err::<Option<serde_json::Value>, OpaClientError>(e),
            (Ok(input), Ok(data)) => match client.refusal(rule@) {
                Some(e) => r == Err::<Option<serde_json::Value>, OpaClientError>(e),
                None => exists|request: C::Request, outcome: C::Outcome|
                    client.asks_for(request, rule@, input, data) && call_ensures(
                        backend,
                        (request,),
                        outcome,
                    ) && r == C::decision_of(outcome),
            },
        },
{
    let input = parse_document(input)?;
    let data = parse_document(data)?;
    query(client, rule, input, data, backend)
}

/// What is printed for the outcome of a query: the decision as JSON text,
/// and the empty object for a failure.
pub open spec fn printed(outcome: Result<Option<serde_json::Value>, OpaClientError>) -> Seq<char>
    recommends
        outcome != Ok::<Option<serde_json::Value>, OpaClientError>(None),
{
    match outcome {
        Ok(Some(decision)) => json_text(decision),
        _ => empty_document(),
    }
}

/// Renders the outcome of a query for printing.
pub fn render(outcome: &Result<Option<serde_json::Value>, OpaClientError>) -> (r: String)
    requires
        *outcome != Ok::<Option<serde_json::Value>, OpaClientError>(None),
    ensures
        r@ == printed(*outcome),
{
    match outcome {
        Ok(Some(decision)) => text(decision),
        _ => "{}".to_owned(),
    }
}

} // verus!
