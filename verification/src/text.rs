//! Scanning text: classes of characters and the first position of one.

use vstd::prelude::*;

verus! {

/// The classes of characters a scan can stop at.
#[derive(Debug, Clone, Copy, PartialEq, Eq, Structural)]
pub enum CharClass {
    /// The path separator `/`.
    Slash,
    /// The line feed that ends a line.
    LineFeed,
    /// Unicode white space.
    Space,
    /// Anything but white space.
    Visible,
}

/// Whether `c` is Unicode white space (`White_Space`).
pub open spec fn is_space(c: char) -> bool {
    let n = c as u32;
    ||| 0x09 <= n <= 0x0D
    ||| n == 0x20
    ||| n == 0x85
    ||| n == 0xA0
    ||| n == 0x1680
    ||| 0x2000 <= n <= 0x200A
    ||| n == 0x2028
    ||| n == 0x2029
    ||| n == 0x202F
    ||| n == 0x205F
    ||| n == 0x3000
}

/// Whether `c` belongs to `class`.
pub open spec fn in_class(class: CharClass, c: char) -> bool {
    match class {
        CharClass::Slash => c == '/',
        CharClass::LineFeed => c == '\n',
        CharClass::Space => is_space(c),
        CharClass::Visible => !is_space(c),
    }
}

/// The first position at or after `from` whose character is in `class`, or
/// the length of `s` where there is none.
pub open spec fn first_in(s: Seq<char>, class: CharClass, from: int) -> int
    decreases s.len() - from,
{
    if from < 0 || from >= s.len() {
        s.len() as int
    } else if in_class(class, s[from]) {
        from
    } else {
        first_in(s, class, from + 1)
    }
}

/// `first_in` is the least position in range that holds a character of the
/// class: none lies before it, and it either holds one or is the end.
pub proof fn lemma_first_in(s: Seq<char>, class: CharClass, from: int)
    requires
        0 <= from <= s.len(),
    ensures
        from <= first_in(s, class, from) <= s.len(),
        first_in(s, class, from) < s.len() ==> in_class(class, s[first_in(s, class, from)]),
        forall|i: int| from <= i < first_in(s, class, from) ==> !in_class(class, #[trigger] s[i]),
    decreases s.len() - from,
{
    if from < s.len() && !in_class(class, s[from]) {
        lemma_first_in(s, class, from + 1);
    }
}

/// The first whitespace-delimited token of `s`: leading white space is
/// skipped, and the token runs to the next white space or the end. Empty
/// where `s` holds only white space.
pub open spec fn first_token(s: Seq<char>) -> Seq<char> {
    let start = first_in(s, CharClass::Visible, 0);
    let end = first_in(s, CharClass::Space, start);
    s.subrange(start, end)
}

/// Whether `p` is a prefix of `s`.
pub open spec fn starts_with(s: Seq<char>, p: Seq<char>) -> bool {
    p.len() <= s.len() && s.subrange(0, p.len() as int) == p
}

/// Tests whether `c` is Unicode white space.
pub fn is_space_char(c: char) -> (b: bool)
    ensures
        b == is_space(c),
{
    let n: u32 = c as u32;
    (0x09 <= n && n <= 0x0D) || n == 0x20 || n == 0x85 || n == 0xA0 || n == 0x1680 || (0x2000 <= n
        && n <= 0x200A) || n == 0x2028 || n == 0x2029 || n == 0x202F || n == 0x205F || n == 0x3000
}

/// Tests `c` for membership in `class`.
pub fn class_holds(class: CharClass, c: char) -> (b: bool)
    ensures
        b == in_class(class, c),
{
    match class {
        CharClass::Slash => c == '/',
        CharClass::LineFeed => c == '\n',
        CharClass::Space => is_space_char(c),
        CharClass::Visible => !is_space_char(c),
    }
}

/// Finds the first position at or after `from` whose character is in
/// `class`; the length of `s` in characters where there is none.
pub fn find_first(s: &str, class: CharClass, from: usize) -> (pos: usize)
    requires
        from <= s@.len(),
    ensures
        pos as int == first_in(s@, class, from as int),
        from <= pos <= s@.len(),
{
    let len: usize = s.unicode_len();
    let mut i: usize = from;
    proof {
        lemma_first_in(s@, class, from as int);
    }
    while i < len
        invariant
            from <= i <= len,
            len == s@.len(),
            first_in(s@, class, i as int) == first_in(s@, class, from as int),
        decreases len - i,
    {
        if class_holds(class, s.get_char(i)) {
            return i;
        }
        i = i + 1;
    }
    i
}

/// Cuts the first whitespace-delimited token out of `s`.
pub fn token<'a>(s: &'a str) -> (t: &'a str)
    ensures
        t@ == first_token(s@),
{
    let start: usize = find_first(s, CharClass::Visible, 0);
    let end: usize = find_first(s, CharClass::Space, start);
    s.substring_char(start, end)
}

/// Tests whether `s` begins with `prefix`.
pub fn has_prefix(s: &str, prefix: &str) -> (b: bool)
    ensures
        b == starts_with(s@, prefix@),
{
    let n: usize = prefix.unicode_len();
    let m: usize = s.unicode_len();
    if n > m {
        return false;
    }
    let mut i: usize = 0;
    while i < n
        invariant
            i <= n <= m,
            n == prefix@.len(),
            m == s@.len(),
            forall|j: int| 0 <= j < i ==> s@[j] == prefix@[j],
        decreases n - i,
    {
        if s.get_char(i) != prefix.get_char(i) {
            assert(s@.subrange(0, n as int)[i as int] != prefix@[i as int]);
            return false;
        }
        i = i + 1;
    }
    assert(s@.subrange(0, n as int) =~= prefix@);
    true
}

/// Tests whether two texts hold the same characters.
pub fn same_text(a: &str, b: &str) -> (r: bool)
    ensures
        r == (a@ == b@),
{
    let n: usize = a.unicode_len();
    let m: usize = b.unicode_len();
    if n != m {
        return false;
    }
    let r = has_prefix(a, b);
    proof {
        assert(a@.subrange(0, n as int) =~= a@);
    }
    r
}

} // verus!
