//! Reading a request: method, path, body, and the id segment of a path.

use vstd::prelude::*;
use crate::text::{
    find_first,
    first_in,
    first_token,
    in_class,
    is_space,
    lemma_first_in,
    token,
    CharClass,
};

verus! {

/// The parts of a request that the service looks at.
#[derive(Debug, Clone, PartialEq, Eq)]
pub struct Request {
    pub method: String,
    pub path: String,
    pub body: String,
}

/// Whether the head of a request ends at `i`: a carriage return and a line
/// feed, twice.
pub open spec fn is_break_at(s: Seq<char>, i: int) -> bool {
    &&& 0 <= i
    &&& i + 4 <= s.len()
    &&& s[i] == '\r'
    &&& s[i + 1] == '\n'
    &&& s[i + 2] == '\r'
    &&& s[i + 3] == '\n'
}

/// The first position at or after `from` where the head ends, or the length
/// of `s` where it never does.
pub open spec fn first_break(s: Seq<char>, from: int) -> int
    decreases s.len() - from,
{
    if from < 0 || from + 4 > s.len() {
        s.len() as int
    } else if is_break_at(s, from) {
        from
    } else {
        first_break(s, from + 1)
    }
}

/// The body of a request: all that follows the first blank line; empty where
/// there is no blank line.
pub open spec fn body_of(s: Seq<char>) -> Seq<char> {
    let at = first_break(s, 0);
    if at + 4 <= s.len() {
        s.subrange(at + 4, s.len() as int)
    } else {
        Seq::empty()
    }
}

/// The request line: the text before the first line feed.
pub open spec fn request_line(s: Seq<char>) -> Seq<char> {
    s.subrange(0, first_in(s, CharClass::LineFeed, 0))
}

/// The method: the first token of the request line.
pub open spec fn method_of(s: Seq<char>) -> Seq<char> {
    first_token(request_line(s))
}

/// What follows the method on the request line.
pub open spec fn after_method(s: Seq<char>) -> Seq<char> {
    let line = request_line(s);
    let start = first_in(line, CharClass::Visible, 0);
    let end = first_in(line, CharClass::Space, start);
    line.subrange(end, line.len() as int)
}

/// The path: the second token of the request line.
pub open spec fn path_of(s: Seq<char>) -> Seq<char> {
    first_token(after_method(s))
}

/// The text between the second `/` of `s` and the third, or the end where
/// there is no third; empty where `s` has fewer than two.
pub open spec fn third_segment(s: Seq<char>) -> Seq<char> {
    let a = first_in(s, CharClass::Slash, 0);
    let b = first_in(s, CharClass::Slash, a + 1);
    if a < s.len() && b < s.len() {
        s.subrange(b + 1, first_in(s, CharClass::Slash, b + 1))
    } else {
        Seq::empty()
    }
}

/// The id segment of a request: the first token of the text between its
/// second and third `/`.
pub open spec fn id_segment(s: Seq<char>) -> Seq<char> {
    first_token(third_segment(s))
}

/// The id segment holds neither a `/` nor white space.
pub proof fn lemma_id_segment_is_one_token(s: Seq<char>)
    ensures
        forall|i: int|
            0 <= i < id_segment(s).len() ==> #[trigger] id_segment(s)[i] != '/' && !is_space(
                id_segment(s)[i],
            ),
{
    let a = first_in(s, CharClass::Slash, 0);
    lemma_first_in(s, CharClass::Slash, 0);
    if a < s.len() {
        let b = first_in(s, CharClass::Slash, a + 1);
        lemma_first_in(s, CharClass::Slash, a + 1);
        if b < s.len() {
            let c = first_in(s, CharClass::Slash, b + 1);
            lemma_first_in(s, CharClass::Slash, b + 1);
            let seg = s.subrange(b + 1, c);
            let start = first_in(seg, CharClass::Visible, 0);
            lemma_first_in(seg, CharClass::Visible, 0);
            let end = first_in(seg, CharClass::Space, start);
            lemma_first_in(seg, CharClass::Space, start);
            assert forall|i: int| 0 <= i < id_segment(s).len() implies #[trigger] id_segment(s)[i]
                != '/' && !is_space(id_segment(s)[i]) by {
                assert(id_segment(s)[i] == seg[start + i]);
                assert(seg[start + i] == s[b + 1 + start + i]);
                assert(!in_class(CharClass::Space, seg[start + i]));
                assert(!in_class(CharClass::Slash, s[b + 1 + start + i]));
            }
        }
    }
}

/// Cuts the id segment out of a request: `42` out of
/// `GET /users/42 HTTP/1.1`. Empty where the request has fewer than two
/// `/`, or only white space after the second.
pub fn get_id<'a>(request: &'a str) -> (id: &'a str)
    ensures
        id@ == id_segment(request@),
{
    let len: usize = request.unicode_len();
    let a: usize = find_first(request, CharClass::Slash, 0);
    if a >= len {
        return request.substring_char(0, 0);
    }
    let b: usize = find_first(request, CharClass::Slash, a + 1);
    if b >= len {
        return request.substring_char(0, 0);
    }
    let c: usize = find_first(request, CharClass::Slash, b + 1);
    token(request.substring_char(b + 1, c))
}

/// Cuts the body out of a request.
pub fn get_body<'a>(request: &'a str) -> (body: &'a str)
    ensures
        body@ == body_of(request@),
{
    let len: usize = request.unicode_len();
    if len < 4 {
        return request.substring_char(0, 0);
    }
    let mut i: usize = 0;
    while i <= len - 4
        invariant
            4 <= len,
            i <= len,
            len == request@.len(),
            first_break(request@, i as int) == first_break(request@, 0),
        decreases len - i,
    {
        if request.get_char(i) == '\r' && request.get_char(i + 1) == '\n' && request.get_char(i + 2)
            == '\r' && request.get_char(i + 3) == '\n' {
            return request.substring_char(i + 4, len);
        }
        i = i + 1;
    }
    request.substring_char(0, 0)
}

/// Reads method, path and body out of the text of a request.
pub fn parse_request(request: &str) -> (r: Request)
    ensures
        r.method@ == method_of(request@),
        r.path@ == path_of(request@),
        r.body@ == body_of(request@),
{
    let eol: usize = find_first(request, CharClass::LineFeed, 0);
    let line = request.substring_char(0, eol);
    let start: usize = find_first(line, CharClass::Visible, 0);
    let end: usize = find_first(line, CharClass::Space, start);
    let method = line.substring_char(start, end);
    let rest = line.substring_char(end, line.unicode_len());
    let path = token(rest);
    Request {
        method: String::from_str(method),
        path: String::from_str(path),
        body: String::from_str(get_body(request)),
    }
}

} // verus!
