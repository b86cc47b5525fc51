//! Comment stripping for the relaxed JSON dialect of the template: from the
//! marker `" //"` outside a quoted literal to the end of the line, the text is
//! commentary and is dropped; everything else is kept as it stands.

use vstd::prelude::*;
use vstd::std_specs::iter::IteratorSpec;
use crate::error::ParseError;
use crate::json::{is_literal_body, is_string_literal};

verus! {

/// Where the scanner is between two characters.
#[derive(Debug, Copy, Clone, PartialEq, Eq, Structural)]
pub enum Scan {
    /// Outside any literal or comment.
    Plain,
    /// Inside a quoted literal.
    Quoted,
    /// Inside a quoted literal, right after a backslash.
    Escaped,
    /// Inside a comment.
    Comment,
}

/// Does `text` begin with the comment marker, a space and two slashes?
pub open spec fn at_marker(text: Seq<char>) -> bool {
    text.len() >= 3 && text[0] == ' ' && text[1] == '/' && text[2] == '/'
}

/// `kept` followed by what the rest of a scan keeps, if that scan succeeds.
pub open spec fn keep(kept: Seq<char>, rest: Option<Seq<char>>) -> Option<Seq<char>> {
    match rest {
        Some(tail) => Some(kept + tail),
        None => None,
    }
}

/// The state after `c` was read in state `scan`, where `c` does not begin a
/// marker.
pub open spec fn after(scan: Scan, c: char) -> Scan {
    match scan {
        Scan::Plain => if c == '"' {
            Scan::Quoted
        } else {
            Scan::Plain
        },
        Scan::Quoted => if c == '\\' {
            Scan::Escaped
        } else if c == '"' {
            Scan::Plain
        } else {
            Scan::Quoted
        },
        Scan::Escaped => Scan::Quoted,
        Scan::Comment => if c == '\n' {
            Scan::Plain
        } else {
            Scan::Comment
        },
    }
}

/// What is kept of `text` when the scanner enters it in state `scan`: `None`
/// where the text ends inside a quoted literal.
///
/// A marker counts only in state `Plain`. A comment runs up to and including
/// the next line feed, or to the end of the text.
pub open spec fn strip_from(text: Seq<char>, scan: Scan) -> Option<Seq<char>>
    decreases text.len(),
{
    if text.len() == 0 {
        if scan == Scan::Quoted || scan == Scan::Escaped {
            None
        } else {
            Some(Seq::empty())
        }
    } else if scan == Scan::Plain && at_marker(text) {
        strip_from(text.skip(3), Scan::Comment)
    } else if scan == Scan::Comment {
        strip_from(text.skip(1), after(scan, text[0]))
    } else {
        keep(seq![text[0]], strip_from(text.skip(1), after(scan, text[0])))
    }
}

/// What is kept of a whole document.
pub open spec fn stripped(text: Seq<char>) -> Option<Seq<char>> {
    strip_from(text, Scan::Plain)
}

/// No character of `run` opens a literal or can belong to a marker's slashes.
pub open spec fn is_plain_run(run: Seq<char>) -> bool {
    forall|i: int| 0 <= i < run.len() ==> run[i] != '"' && run[i] != '/'
}

/// `text` holds no line feed.
pub open spec fn is_one_line(text: Seq<char>) -> bool {
    forall|i: int| 0 <= i < text.len() ==> text[i] != '\n'
}

/// What follows cannot complete a marker that begins before it.
pub open spec fn starts_clear(rest: Seq<char>) -> bool {
    rest.len() == 0 || rest[0] != '/'
}

/// Keeping `a` and then `b` is keeping `a + b`.
pub proof fn lemma_keep_twice(a: Seq<char>, b: Seq<char>, rest: Option<Seq<char>>)
    ensures
        keep(a, keep(b, rest)) == keep(a + b, rest),
{
    if rest is Some {
        assert(a + (b + rest->0) == (a + b) + rest->0);
    }
}

/// Keeping nothing changes nothing.
pub proof fn lemma_keep_nothing(rest: Option<Seq<char>>)
    ensures
        keep(Seq::empty(), rest) == rest,
{
    if rest is Some {
        assert(Seq::<char>::empty() + rest->0 == rest->0);
    }
}

/// Outside literals and comments, a run without quotes and slashes is kept
/// as it stands.
pub proof fn lemma_strip_plain_run(run: Seq<char>, rest: Seq<char>)
    requires
        is_plain_run(run),
        starts_clear(rest),
    ensures
        strip_from(run + rest, Scan::Plain) == keep(run, strip_from(rest, Scan::Plain)),
    decreases run.len(),
{
    if run.len() == 0 {
        assert(run + rest == rest);
        lemma_keep_nothing(strip_from(rest, Scan::Plain));
        assert(run == Seq::<char>::empty());
    } else {
        let text = run + rest;
        let tail = run.skip(1);
        assert(text[0] == run[0]);
        if text.len() >= 2 {
            assert(text[1] != '/') by {
                if run.len() >= 2 {
                    assert(text[1] == run[1]);
                } else {
                    assert(text[1] == rest[0]);
                }
            }
        }
        assert(!at_marker(text));
        assert(text.skip(1) == tail + rest);
        assert(is_plain_run(tail)) by {
            assert forall|i: int| 0 <= i < tail.len() implies tail[i] != '"' && tail[i] != '/' by {
                assert(tail[i] == run[i + 1]);
            }
        }
        lemma_strip_plain_run(tail, rest);
        lemma_keep_twice(seq![run[0]], tail, strip_from(rest, Scan::Plain));
        assert(seq![run[0]] + tail == run);
    }
}

/// A comment ends with its line: nothing of it is kept, and the scanner is
/// outside again behind the line feed.
pub proof fn lemma_strip_comment(comment: Seq<char>, rest: Seq<char>)
    requires
        is_one_line(comment),
    ensures
        strip_from(comment + seq!['\n'] + rest, Scan::Comment) == strip_from(rest, Scan::Plain),
    decreases comment.len(),
{
    let text = comment + seq!['\n'] + rest;
    if comment.len() == 0 {
        assert(text[0] == '\n');
        assert(text.skip(1) == rest);
    } else {
        let tail = comment.skip(1);
        assert(text[0] == comment[0]);
        assert(text.skip(1) == tail + seq!['\n'] + rest);
        assert(is_one_line(tail)) by {
            assert forall|i: int| 0 <= i < tail.len() implies tail[i] != '\n' by {
                assert(tail[i] == comment[i + 1]);
            }
        }
        lemma_strip_comment(tail, rest);
    }
}

/// Inside a literal everything is kept up to the closing quote, a marker
/// too.
pub proof fn lemma_strip_literal_body(body: Seq<char>, rest: Seq<char>)
    requires
        is_literal_body(body),
    ensures
        strip_from(body + seq!['"'] + rest, Scan::Quoted) == keep(
            body + seq!['"'],
            strip_from(rest, Scan::Plain),
        ),
    decreases body.len(),
{
    let text = body + seq!['"'] + rest;
    let after_it = strip_from(rest, Scan::Plain);
    if body.len() == 0 {
        assert(text[0] == '"');
        assert(text.skip(1) == rest);
        assert(body + seq!['"'] == seq!['"']);
    } else if body[0] == '\\' {
        let tail = body.skip(2);
        let inner = text.skip(1);
        assert(text[0] == '\\');
        assert(inner.len() > 0);
        assert(inner[0] == body[1]);
        assert(inner.skip(1) == tail + seq!['"'] + rest);
        assert(strip_from(inner, Scan::Escaped) == keep(
            seq![body[1]],
            strip_from(inner.skip(1), Scan::Quoted),
        ));
        lemma_strip_literal_body(tail, rest);
        lemma_keep_twice(seq![body[1]], tail + seq!['"'], after_it);
        lemma_keep_twice(seq![body[0]], seq![body[1]] + (tail + seq!['"']), after_it);
        assert(seq![body[0]] + (seq![body[1]] + (tail + seq!['"'])) == body + seq!['"']);
    } else {
        let tail = body.skip(1);
        assert(text[0] == body[0]);
        assert(text.skip(1) == tail + seq!['"'] + rest);
        lemma_strip_literal_body(tail, rest);
        lemma_keep_twice(seq![body[0]], tail + seq!['"'], after_it);
        assert(seq![body[0]] + (tail + seq!['"']) == body + seq!['"']);
    }
}

/// A quoted literal is kept as it stands, whatever it holds.
pub proof fn lemma_strip_literal(literal: Seq<char>, rest: Seq<char>)
    requires
        is_string_literal(literal),
    ensures
        strip_from(literal + rest, Scan::Plain) == keep(literal, strip_from(rest, Scan::Plain)),
{
    let text = literal + rest;
    let body = literal.subrange(1, literal.len() - 1);
    assert(text[0] == '"');
    assert(!at_marker(text));
    assert(text.skip(1) == body + seq!['"'] + rest);
    lemma_strip_literal_body(body, rest);
    lemma_keep_twice(seq!['"'], body + seq!['"'], strip_from(rest, Scan::Plain));
    assert(seq!['"'] + (body + seq!['"']) == literal);
}

/// A text without quotes and backslashes can stand between quotes as it is.
pub proof fn lemma_plain_body(body: Seq<char>)
    requires
        forall|i: int| 0 <= i < body.len() ==> body[i] != '"' && body[i] != '\\',
    ensures
        is_literal_body(body),
    decreases body.len(),
{
    if body.len() > 0 {
        let tail = body.skip(1);
        assert forall|i: int| 0 <= i < tail.len() implies tail[i] != '"' && tail[i] != '\\' by {
            assert(tail[i] == body[i + 1]);
        }
        lemma_plain_body(tail);
    }
}

/// Calls `String::push`: `c` is appended to `buffer`.
#[verifier::external_body]
fn push_char(buffer: &mut String, c: char)
    ensures
        final(buffer)@ == old(buffer)@.push(c),
{
    buffer.push(c)
}

/// The characters of `text`, in order.
pub fn chars_of(text: &str) -> (chars: Vec<char>)
    ensures
        chars@ == text@,
{
    let mut chars: Vec<char> = Vec::new();
    let mut rest = text.chars();
    let ghost mut seen: int = 0;
    loop
        invariant
            0 <= seen <= text@.len(),
            rest.remaining() == text@.skip(seen),
            rest.obeys_prophetic_iter_laws(),
            chars@ == text@.take(seen),
        ensures
            chars@ == text@,
        decreases text@.len() - seen,
    {
        match rest.next() {
            None => {
                break ;
            },
            Some(c) => {
                chars.push(c);
                proof {
                    assert(text@.take(seen + 1) == text@.take(seen).push(text@[seen]));
                    assert(text@.skip(seen).drop_first() == text@.skip(seen + 1));
                    seen = seen + 1;
                }
            },
        }
    }
    chars
}

/// Drops the comments from `text`.
///
/// Fails with `GrammarFailure`, and only so, where the text ends inside a
/// quoted literal.
pub fn strip_comments(text: &str) -> (kept: Result<String, ParseError>)
    ensures
        match kept {
            Ok(document) => stripped(text@) == Some(document@),
            Err(e) => e == ParseError::GrammarFailure && stripped(text@) is None,
        },
{
    let chars = chars_of(text);
    let n = chars.len();
    let mut document = String::new();
    let mut scan = Scan::Plain;
    let mut i: usize = 0;
    proof {
        assert(chars@.skip(0) == chars@);
        let whole = stripped(chars@);
        if whole is Some {
            assert(document@ + whole->0 == whole->0);
        }
    }
    while i < n
        invariant
            i <= n,
            n == chars@.len(),
            stripped(chars@) == keep(document@, strip_from(chars@.skip(i as int), scan)),
        decreases n - i,
    {
        let c = chars[i];
        let ghost rest = chars@.skip(i as int);
        proof {
            assert(rest.len() == n - i);
            assert(rest[0] == c);
            assert(rest.skip(1) == chars@.skip(i + 1));
        }
        if scan == Scan::Plain && c == ' ' && n - i >= 3 && chars[i + 1] == '/' && chars[i + 2]
            == '/' {
            proof {
                assert(rest[1] == '/' && rest[2] == '/');
                assert(at_marker(rest));
                assert(rest.skip(3) == chars@.skip(i + 3));
            }
            scan = Scan::Comment;
            i = i + 3;
        } else {
            proof {
                assert(!(scan == Scan::Plain && at_marker(rest)));
            }
            let ghost before = document@;
            match scan {
                Scan::Plain => {
                    push_char(&mut document, c);
                    if c == '"' {
                        scan = Scan::Quoted;
                    }
                },
                Scan::Quoted => {
                    push_char(&mut document, c);
                    if c == '\\' {
                        scan = Scan::Escaped;
                    } else if c == '"' {
                        scan = Scan::Plain;
                    }
                },
                Scan::Escaped => {
                    push_char(&mut document, c);
                    scan = Scan::Quoted;
                },
                Scan::Comment => {
                    if c == '\n' {
                        scan = Scan::Plain;
                    }
                },
            }
            proof {
                let next = strip_from(chars@.skip(i + 1), scan);
                if next is Some {
                    assert(before + (seq![c] + next->0) == before.push(c) + next->0);
                }
            }
            i = i + 1;
        }
    }
    assert(chars@.skip(i as int).len() == 0);
    match scan {
        Scan::Quoted => Err(ParseError::GrammarFailure),
        Scan::Escaped => Err(ParseError::GrammarFailure),
        _ => {
            assert(document@ + Seq::<char>::empty() == document@);
            Ok(document)
        },
    }
}

/// Is `c` white space between the tokens of JSON?
pub open spec fn is_blank(c: char) -> bool {
    c == ' ' || c == '\t' || c == '\n' || c == '\r'
}

/// Does the text begin, after white space, with the brace that opens a JSON
/// object? A text that does not is none, whatever follows.
pub open spec fn opens_object(text: Seq<char>) -> bool
    decreases text.len(),
{
    if text.len() == 0 {
        false
    } else if is_blank(text[0]) {
        opens_object(text.skip(1))
    } else {
        text[0] == '{'
    }
}

/// Tells whether a text can be a JSON object at all, by its first character
/// that is no white space.
pub fn begins_object(text: &str) -> (begins: bool)
    ensures
        begins == opens_object(text@),
{
    let chars = chars_of(text);
    let n = chars.len();
    let mut i: usize = 0;
    assert(chars@.skip(0) == chars@);
    while i < n
        invariant
            i <= n,
            n == chars@.len(),
            chars@ == text@,
            opens_object(chars@) == opens_object(chars@.skip(i as int)),
        decreases n - i,
    {
        let c = chars[i];
        proof {
            assert(chars@.skip(i as int)[0] == c);
            assert(chars@.skip(i as int).skip(1) == chars@.skip(i + 1));
        }
        if c == ' ' || c == '\t' || c == '\n' || c == '\r' {
            i = i + 1;
        } else {
            return c == '{';
        }
    }
    false
}

} // verus!
