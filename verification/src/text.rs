//! Character-level text handling: whitespace, trimming, line splitting and
//! building `String`s from characters.
use vstd::prelude::*;

verus! {

/// The Unicode `White_Space` property (PropList.txt): U+0009..U+000D, U+0020,
/// U+0085, U+00A0, U+1680, U+2000..U+200A, U+2028, U+2029, U+202F, U+205F
/// and U+3000.
pub open spec fn is_white_space(c: char) -> bool {
    let u = c as u32;
    ||| 0x09 <= u && u <= 0x0D
    ||| u == 0x20
    ||| u == 0x85
    ||| u == 0xA0
    ||| u == 0x1680
    ||| 0x2000 <= u && u <= 0x200A
    ||| u == 0x2028
    ||| u == 0x2029
    ||| u == 0x202F
    ||| u == 0x205F
    ||| u == 0x3000
}

/// `char::is_whitespace`, which std documents as "this char has the
/// White_Space property"; the contract spells that property out.
#[verifier::external_body]
fn char_is_whitespace(c: char) -> (r: bool)
    ensures
        r == is_white_space(c),
{
    c.is_whitespace()
}

/// `String::push`: appends one character.
#[verifier::external_body]
pub(crate) fn push_char(s: &mut String, c: char)
    ensures
        final(s)@ == old(s)@.push(c),
{
    s.push(c)
}

/// `s` without its leading whitespace.
pub open spec fn trim_start(s: Seq<char>) -> Seq<char>
    decreases s.len(),
{
    if s.len() > 0 && is_white_space(s[0]) {
        trim_start(s.drop_first())
    } else {
        s
    }
}

/// `s` without its trailing whitespace.
pub open spec fn trim_end(s: Seq<char>) -> Seq<char>
    decreases s.len(),
{
    if s.len() > 0 && is_white_space(s.last()) {
        trim_end(s.drop_last())
    } else {
        s
    }
}

/// `s` without leading and trailing whitespace.
pub open spec fn trim(s: Seq<char>) -> Seq<char> {
    trim_end(trim_start(s))
}

/// The pieces of `s` between `'\n'` characters: one more piece than there are
/// newlines in `s`.
pub open spec fn newline_pieces(s: Seq<char>) -> Seq<Seq<char>>
    decreases s.len(),
{
    if s.len() == 0 {
        seq![Seq::<char>::empty()]
    } else {
        let p = newline_pieces(s.drop_last());
        if s.last() == '\n' {
            p.push(Seq::<char>::empty())
        } else {
            p.update(p.len() - 1, p.last().push(s.last()))
        }
    }
}

/// The lines of `s`: the text is cut at every `'\n'`, a final `'\n'` ends the
/// last line rather than starting an empty one, and empty text has no line.
/// (A `'\r'` before a `'\n'` stays part of its line here; it is whitespace, so
/// trimming removes it.)
pub open spec fn text_lines(s: Seq<char>) -> Seq<Seq<char>> {
    if s.len() == 0 {
        Seq::empty()
    } else if s.last() == '\n' {
        newline_pieces(s.drop_last())
    } else {
        newline_pieces(s)
    }
}

/// Each line of `s`, trimmed.
pub open spec fn trimmed_lines(s: Seq<char>) -> Seq<Seq<char>> {
    text_lines(s).map_values(|l: Seq<char>| trim(l))
}

/// The view of each string in `v`.
pub open spec fn string_views(v: Seq<String>) -> Seq<Seq<char>> {
    v.map_values(|s: String| s@)
}

/// There is always at least one piece.
pub proof fn lemma_newline_pieces_nonempty(s: Seq<char>)
    ensures
        newline_pieces(s).len() >= 1,
    decreases s.len(),
{
    if s.len() > 0 {
        lemma_newline_pieces_nonempty(s.drop_last());
    }
}

/// The characters of `s`, in order.
pub fn chars_of(s: &str) -> (r: Vec<char>)
    ensures
        r@ == s@,
{
    let n = s.unicode_len();
    let mut r: Vec<char> = Vec::new();
    let mut i: usize = 0;
    while i < n
        invariant
            n == s@.len(),
            i <= n,
            r@ == s@.take(i as int),
        decreases n - i,
    {
        let c = s.get_char(i);
        r.push(c);
        i += 1;
        assert(r@ =~= s@.take(i as int));
    }
    assert(r@ =~= s@);
    r
}

/// The string made of `cs[from..to]`.
pub fn string_of(cs: &Vec<char>, from: usize, to: usize) -> (r: String)
    requires
        from <= to <= cs.len(),
    ensures
        r@ == cs@.subrange(from as int, to as int),
{
    let mut r = String::new();
    let mut i = from;
    while i < to
        invariant
            from <= i <= to <= cs.len(),
            r@ == cs@.subrange(from as int, i as int),
        decreases to - i,
    {
        push_char(&mut r, cs[i]);
        i += 1;
        assert(r@ =~= cs@.subrange(from as int, i as int));
    }
    r
}

/// The bounds of `cs[from..to]` with its leading and trailing whitespace cut off.
pub fn trimmed_bounds(cs: &Vec<char>, from: usize, to: usize) -> (r: (usize, usize))
    requires
        from <= to <= cs.len(),
    ensures
        from <= r.0 <= r.1 <= to,
        cs@.subrange(r.0 as int, r.1 as int) == trim(cs@.subrange(from as int, to as int)),
{
    let mut lo = from;
    while lo < to && char_is_whitespace(cs[lo])
        invariant
            from <= lo <= to <= cs.len(),
            trim_start(cs@.subrange(from as int, to as int)) == trim_start(
                cs@.subrange(lo as int, to as int),
            ),
        decreases to - lo,
    {
        assert(cs@.subrange(lo as int, to as int).drop_first() =~= cs@.subrange(
            lo + 1,
            to as int,
        ));
        lo += 1;
    }
    assert(trim_start(cs@.subrange(lo as int, to as int)) == cs@.subrange(lo as int, to as int));
    let mut hi = to;
    while hi > lo && char_is_whitespace(cs[hi - 1])
        invariant
            from <= lo <= hi <= to <= cs.len(),
            trim_end(cs@.subrange(lo as int, to as int)) == trim_end(
                cs@.subrange(lo as int, hi as int),
            ),
        decreases hi,
    {
        assert(cs@.subrange(lo as int, hi as int).drop_last() =~= cs@.subrange(
            lo as int,
            hi - 1,
        ));
        hi -= 1;
    }
    assert(trim_end(cs@.subrange(lo as int, hi as int)) == cs@.subrange(lo as int, hi as int));
    (lo, hi)
}

/// `s` with leading and trailing whitespace removed.
pub fn trimmed(s: &str) -> (r: String)
    ensures
        r@ == trim(s@),
{
    let cs = chars_of(s);
    let (lo, hi) = trimmed_bounds(&cs, 0, cs.len());
    assert(cs@.subrange(0, cs@.len() as int) =~= cs@);
    string_of(&cs, lo, hi)
}

/// The lines of `s` (see `text_lines`), each trimmed.
pub fn lines_trimmed(s: &str) -> (r: Vec<String>)
    ensures
        string_views(r@) == trimmed_lines(s@),
{
    let cs = chars_of(s);
    let n = cs.len();
    let mut out: Vec<String> = Vec::new();
    let mut line_start: usize = 0;
    let mut i: usize = 0;
    proof {
        lemma_newline_pieces_nonempty(cs@.take(0));
        assert(cs@.take(0) =~= Seq::<char>::empty());
        assert(newline_pieces(cs@.take(0)) =~= seq![Seq::<char>::empty()]);
        assert(cs@.subrange(0, 0) =~= Seq::<char>::empty());
    }
    while i < n
        invariant
            n == cs@.len(),
            line_start <= i <= n,
            (line_start == i) == (i == 0 || cs@[i - 1] == '\n'),
            newline_pieces(cs@.take(i as int)).len() >= 1,
            newline_pieces(cs@.take(i as int)).last() == cs@.subrange(line_start as int, i as int),
            string_views(out@) == newline_pieces(cs@.take(i as int)).drop_last().map_values(
                |l: Seq<char>| trim(l),
            ),
        decreases n - i,
    {
        let ghost prev = newline_pieces(cs@.take(i as int));
        assert(cs@.take(i + 1).drop_last() =~= cs@.take(i as int));
        assert(cs@.take(i + 1).last() == cs@[i as int]);
        if cs[i] == '\n' {
            let (lo, hi) = trimmed_bounds(&cs, line_start, i);
            let line = string_of(&cs, lo, hi);
            let ghost old_out = out@;
            out.push(line);
            line_start = i + 1;
            proof {
                let next = newline_pieces(cs@.take(i + 1));
                assert(next == prev.push(Seq::<char>::empty()));
                assert(next.drop_last() =~= prev);
                assert(prev =~= prev.drop_last().push(prev.last()));
                assert(string_views(out@) =~= string_views(old_out).push(line@));
                assert(prev.map_values(|l: Seq<char>| trim(l)) =~= prev.drop_last().map_values(
                    |l: Seq<char>| trim(l),
                ).push(trim(prev.last())));
                assert(string_views(out@) =~= next.drop_last().map_values(
                    |l: Seq<char>| trim(l),
                ));
                assert(cs@.subrange(line_start as int, i + 1) =~= Seq::<char>::empty());
            }
        } else {
            proof {
                let next = newline_pieces(cs@.take(i + 1));
                assert(next == prev.update(prev.len() - 1, prev.last().push(cs@[i as int])));
                assert(next.drop_last() =~= prev.drop_last());
                assert(next.last() =~= cs@.subrange(line_start as int, i + 1));
            }
        }
        i += 1;
    }
    assert(cs@.take(n as int) =~= cs@);
    if line_start < n {
        let (lo, hi) = trimmed_bounds(&cs, line_start, n);
        let line = string_of(&cs, lo, hi);
        let ghost old_out = out@;
        out.push(line);
        proof {
            let p = newline_pieces(cs@);
            assert(cs@.last() != '\n');
            assert(p =~= p.drop_last().push(p.last()));
            assert(string_views(out@) =~= string_views(old_out).push(line@));
            assert(p.map_values(|l: Seq<char>| trim(l)) =~= p.drop_last().map_values(
                |l: Seq<char>| trim(l),
            ).push(trim(p.last())));
            assert(string_views(out@) =~= p.map_values(|l: Seq<char>| trim(l)));
        }
    } else {
        proof {
            let p = newline_pieces(cs@);
            if n > 0 {
                assert(cs@.last() == '\n');
                assert(p == newline_pieces(cs@.drop_last()).push(Seq::<char>::empty()));
                assert(p.drop_last() =~= newline_pieces(cs@.drop_last()));
            } else {
                assert(p.drop_last() =~= Seq::<Seq<char>>::empty());
            }
        }
    }
    out
}

} // verus!
