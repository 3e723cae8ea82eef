//! Verified text utilities over character sequences: searching, splitting,
//! trimming, joining, decimal rendering, and conversions between `String`
//! and `Vec<char>`.

use vstd::prelude::*;

verus! {

broadcast use vstd::string::axiom_spec_iter, vstd::string::next_postcondition;

/// The characters `str::trim` and `str::split_whitespace` treat as white
/// space (the Unicode `White_Space` set).
pub open spec fn spec_is_space(c: char) -> bool {
    ||| c == ' '
    ||| c == '\t'
    ||| c == '\n'
    ||| c == '\r'
    ||| c == '\u{000B}'
    ||| c == '\u{000C}'
    ||| c == '\u{0085}'
    ||| c == '\u{00A0}'
    ||| c == '\u{1680}'
    ||| c == '\u{2000}'
    ||| c == '\u{2001}'
    ||| c == '\u{2002}'
    ||| c == '\u{2003}'
    ||| c == '\u{2004}'
    ||| c == '\u{2005}'
    ||| c == '\u{2006}'
    ||| c == '\u{2007}'
    ||| c == '\u{2008}'
    ||| c == '\u{2009}'
    ||| c == '\u{200A}'
    ||| c == '\u{2028}'
    ||| c == '\u{2029}'
    ||| c == '\u{202F}'
    ||| c == '\u{205F}'
    ||| c == '\u{3000}'
}

/// Whether `c` is white space.
pub fn is_space(c: char) -> (r: bool)
    ensures
        r == spec_is_space(c),
{
    c == ' ' || c == '\t' || c == '\n' || c == '\r' || c == '\u{000B}' || c == '\u{000C}'
        || c == '\u{0085}' || c == '\u{00A0}' || c == '\u{1680}' || c == '\u{2000}'
        || c == '\u{2001}' || c == '\u{2002}' || c == '\u{2003}' || c == '\u{2004}'
        || c == '\u{2005}' || c == '\u{2006}' || c == '\u{2007}' || c == '\u{2008}'
        || c == '\u{2009}' || c == '\u{200A}' || c == '\u{2028}' || c == '\u{2029}'
        || c == '\u{202F}' || c == '\u{205F}' || c == '\u{3000}'
}

/// The least index `j >= i` with `s[j] == c`, if any.
pub open spec fn spec_find_from(s: Seq<char>, i: int, c: char) -> Option<int>
    decreases s.len() - i,
{
    if i < 0 || i >= s.len() {
        None
    } else if s[i] == c {
        Some(i)
    } else {
        spec_find_from(s, i + 1, c)
    }
}

/// A found index lies in `[i, s.len())` and is the first occurrence.
pub proof fn lemma_find_from_bounds(s: Seq<char>, i: int, c: char)
    requires
        0 <= i,
    ensures
        spec_find_from(s, i, c) matches Some(j) ==> i <= j < s.len() && s[j] == c && (forall|k:
            int|
            i <= k < j ==> s[k] != c),
        spec_find_from(s, i, c) is None ==> forall|k: int| i <= k < s.len() ==> s[k] != c,
    decreases s.len() - i,
{
    if i >= s.len() {
    } else if s[i] == c {
    } else {
        lemma_find_from_bounds(s, i + 1, c);
    }
}

/// Finds the first occurrence of `c` in `s` at or after `start`.
pub fn find_char_from(s: &Vec<char>, start: usize, c: char) -> (r: Option<usize>)
    ensures
        r matches Some(j) ==> spec_find_from(s@, start as int, c) == Some(j as int),
        r is None ==> spec_find_from(s@, start as int, c) is None,
{
    let mut i = start;
    if i > s.len() {
        return None;
    }
    while i < s.len()
        invariant
            start <= i <= s.len(),
            spec_find_from(s@, start as int, c) == spec_find_from(s@, i as int, c),
        decreases s.len() - i,
    {
        if s[i] == c {
            return Some(i);
        }
        i += 1;
    }
    None
}

/// The parts of `s` between occurrences of `sep`, in order. An empty
/// sequence yields one empty part, as `str::split` does.
pub open spec fn spec_split(s: Seq<char>, sep: char) -> Seq<Seq<char>>
    decreases s.len(),
{
    if s.len() == 0 {
        seq![Seq::<char>::empty()]
    } else {
        let prefix = spec_split(s.drop_last(), sep);
        if s.last() == sep {
            prefix.push(Seq::<char>::empty())
        } else {
            prefix.drop_last().push(prefix.last().push(s.last()))
        }
    }
}

/// Splitting always yields at least one part.
pub proof fn lemma_split_nonempty(s: Seq<char>, sep: char)
    ensures
        spec_split(s, sep).len() >= 1,
    decreases s.len(),
{
    if s.len() == 0 {
    } else {
        lemma_split_nonempty(s.drop_last(), sep);
    }
}

/// Splits `s` on `sep`, keeping empty parts.
pub fn split_char(s: &Vec<char>, sep: char) -> (r: Vec<Vec<char>>)
    ensures
        r.deep_view() == spec_split(s@, sep),
        r.len() >= 1,
{
    let mut parts: Vec<Vec<char>> = Vec::new();
    let mut cur: Vec<char> = Vec::new();
    let mut i: usize = 0;
    proof {
        assert(spec_split(s@.take(0), sep) =~~= parts.deep_view().push(cur@));
    }
    while i < s.len()
        invariant
            i <= s.len(),
            spec_split(s@.take(i as int), sep) == parts.deep_view().push(cur@),
        decreases s.len() - i,
    {
        proof {
            lemma_split_nonempty(s@.take(i as int), sep);
            assert(s@.take(i + 1).drop_last() =~= s@.take(i as int));
            assert(s@.take(i + 1).last() == s@[i as int]);
        }
        let c = s[i];
        if c == sep {
            parts.push(cur);
            cur = Vec::new();
            proof {
                assert(spec_split(s@.take(i + 1), sep) =~~= parts.deep_view().push(cur@));
            }
        } else {
            let ghost old_parts = parts.deep_view();
            let ghost old_cur = cur@;
            cur.push(c);
            proof {
                assert(old_parts.push(old_cur).drop_last() =~~= old_parts);
                assert(old_parts.push(old_cur).last() =~= old_cur);
                assert(spec_split(s@.take(i + 1), sep) =~~= parts.deep_view().push(cur@));
            }
        }
        i += 1;
    }
    proof {
        assert(s@.take(s@.len() as int) =~= s@);
    }
    parts.push(cur);
    proof {
        lemma_split_nonempty(s@, sep);
        assert(parts.deep_view() =~~= spec_split(s@, sep));
    }
    parts
}

/// The parts joined with `sep` between them.
pub open spec fn spec_join(parts: Seq<Seq<char>>, sep: char) -> Seq<char>
    decreases parts.len(),
{
    if parts.len() == 0 {
        Seq::empty()
    } else if parts.len() == 1 {
        parts[0]
    } else {
        spec_join(parts.drop_last(), sep) + seq![sep] + parts.last()
    }
}

/// Joins the parts with `sep` between them.
pub fn join_with(parts: &Vec<Vec<char>>, sep: char) -> (r: Vec<char>)
    ensures
        r@ == spec_join(parts.deep_view(), sep),
{
    let mut out: Vec<char> = Vec::new();
    let mut i: usize = 0;
    proof {
        assert(out@ =~= spec_join(parts.deep_view().take(0), sep));
    }
    while i < parts.len()
        invariant
            i <= parts.len(),
            out@ == spec_join(parts.deep_view().take(i as int), sep),
        decreases parts.len() - i,
    {
        if i > 0 {
            out.push(sep);
        }
        let mut j: usize = 0;
        let ghost base = out@;
        while j < parts[i].len()
            invariant
                j <= parts@[i as int].len(),
                i < parts.len(),
                out@ == base + parts@[i as int]@.take(j as int),
            decreases parts@[i as int].len() - j,
        {
            let c = parts[i][j];
            out.push(c);
            proof {
                assert(base + parts@[i as int]@.take(j + 1) =~= (base + parts@[i as int]@.take(
                    j as int,
                )).push(parts@[i as int]@[j as int]));
            }
            j += 1;
        }
        proof {
            assert(parts@[i as int]@.take(parts@[i as int]@.len() as int) =~= parts@[i as int]@);
            assert(parts.deep_view().take(i + 1).drop_last() =~= parts.deep_view().take(i as int));
            assert(parts.deep_view().take(i + 1).last() == parts.deep_view()[i as int]);
            if i > 0 {
                assert(out@ =~= spec_join(parts.deep_view().take(i + 1), sep));
            } else {
                assert(out@ =~= spec_join(parts.deep_view().take(i + 1), sep));
            }
        }
        i += 1;
    }
    proof {
        assert(parts.deep_view().take(parts.len() as int) =~= parts.deep_view());
    }
    out
}

/// `s` without its leading white space.
pub open spec fn spec_trim_start(s: Seq<char>) -> Seq<char>
    decreases s.len(),
{
    if s.len() > 0 && spec_is_space(s[0]) {
        spec_trim_start(s.drop_first())
    } else {
        s
    }
}

/// `s` without its trailing white space.
pub open spec fn spec_trim_end(s: Seq<char>) -> Seq<char>
    decreases s.len(),
{
    if s.len() > 0 && spec_is_space(s.last()) {
        spec_trim_end(s.drop_last())
    } else {
        s
    }
}

/// `s` without leading and trailing white space, as `str::trim` leaves it.
pub open spec fn spec_trim(s: Seq<char>) -> Seq<char> {
    spec_trim_end(spec_trim_start(s))
}

/// Trims white space from both ends of `s`.
pub fn trim_spaces(s: &Vec<char>) -> (r: Vec<char>)
    ensures
        r@ == spec_trim(s@),
{
    let mut a: usize = 0;
    proof {
        assert(s@.skip(0) =~= s@);
    }
    while a < s.len() && is_space(s[a])
        invariant
            a <= s.len(),
            spec_trim_start(s@) == spec_trim_start(s@.skip(a as int)),
        decreases s.len() - a,
    {
        proof {
            assert(s@.skip(a as int).drop_first() =~= s@.skip(a + 1));
            assert(s@.skip(a as int)[0] == s@[a as int]);
        }
        a += 1;
    }
    proof {
        if a < s.len() {
            assert(s@.skip(a as int)[0] == s@[a as int]);
        }
        assert(spec_trim_start(s@) == s@.skip(a as int));
    }
    let mut b: usize = s.len();
    proof {
        assert(s@.skip(a as int).take(s@.len() - a) =~= s@.skip(a as int));
    }
    while b > a && is_space(s[b - 1])
        invariant
            a <= b <= s.len(),
            spec_trim_start(s@) == s@.skip(a as int),
            spec_trim_end(s@.skip(a as int)) == spec_trim_end(s@.skip(a as int).take(b - a)),
        decreases b,
    {
        proof {
            let part = s@.skip(a as int).take(b - a);
            assert(part.last() == s@[b - 1]);
            assert(part.drop_last() =~= s@.skip(a as int).take(b - 1 - a));
        }
        b -= 1;
    }
    proof {
        let part = s@.skip(a as int).take(b - a);
        if b > a {
            assert(part.last() == s@[b - 1]);
        }
        assert(spec_trim(s@) == part);
    }
    let mut out: Vec<char> = Vec::new();
    let mut i = a;
    proof {
        assert(out@ =~= s@.subrange(a as int, a as int));
    }
    while i < b
        invariant
            a <= i <= b <= s.len(),
            out@ == s@.subrange(a as int, i as int),
        decreases b - i,
    {
        let c = s[i];
        out.push(c);
        proof {
            assert(s@.subrange(a as int, i + 1) =~= s@.subrange(a as int, i as int).push(
                s@[i as int],
            ));
        }
        i += 1;
    }
    proof {
        assert(s@.subrange(a as int, b as int) =~= s@.skip(a as int).take(b - a));
    }
    out
}

/// `s` without leading occurrences of `c`.
pub open spec fn spec_strip_char_start(s: Seq<char>, c: char) -> Seq<char>
    decreases s.len(),
{
    if s.len() > 0 && s[0] == c {
        spec_strip_char_start(s.drop_first(), c)
    } else {
        s
    }
}

/// `s` without trailing occurrences of `c`.
pub open spec fn spec_strip_char_end(s: Seq<char>, c: char) -> Seq<char>
    decreases s.len(),
{
    if s.len() > 0 && s.last() == c {
        spec_strip_char_end(s.drop_last(), c)
    } else {
        s
    }
}

/// `s` without leading and trailing occurrences of `c`, as
/// `str::trim_matches(c)` leaves it.
pub open spec fn spec_strip_char(s: Seq<char>, c: char) -> Seq<char> {
    spec_strip_char_end(spec_strip_char_start(s, c), c)
}

/// Strips occurrences of `c` from both ends of `s`.
pub fn strip_char(s: &Vec<char>, c: char) -> (r: Vec<char>)
    ensures
        r@ == spec_strip_char(s@, c),
{
    let mut a: usize = 0;
    proof {
        assert(s@.skip(0) =~= s@);
    }
    while a < s.len() && s[a] == c
        invariant
            a <= s.len(),
            spec_strip_char_start(s@, c) == spec_strip_char_start(s@.skip(a as int), c),
        decreases s.len() - a,
    {
        proof {
            assert(s@.skip(a as int).drop_first() =~= s@.skip(a + 1));
            assert(s@.skip(a as int)[0] == s@[a as int]);
        }
        a += 1;
    }
    proof {
        if a < s.len() {
            assert(s@.skip(a as int)[0] == s@[a as int]);
        }
        assert(spec_strip_char_start(s@, c) == s@.skip(a as int));
    }
    let mut b: usize = s.len();
    proof {
        assert(s@.skip(a as int).take(s@.len() - a) =~= s@.skip(a as int));
    }
    while b > a && s[b - 1] == c
        invariant
            a <= b <= s.len(),
            spec_strip_char_start(s@, c) == s@.skip(a as int),
            spec_strip_char_end(s@.skip(a as int), c) == spec_strip_char_end(
                s@.skip(a as int).take(b - a),
                c,
            ),
        decreases b,
    {
        proof {
            let part = s@.skip(a as int).take(b - a);
            assert(part.last() == s@[b - 1]);
            assert(part.drop_last() =~= s@.skip(a as int).take(b - 1 - a));
        }
        b -= 1;
    }
    proof {
        let part = s@.skip(a as int).take(b - a);
        if b > a {
            assert(part.last() == s@[b - 1]);
        }
        assert(spec_strip_char(s@, c) == part);
    }
    let mut out: Vec<char> = Vec::new();
    let mut i = a;
    proof {
        assert(out@ =~= s@.subrange(a as int, a as int));
    }
    while i < b
        invariant
            a <= i <= b <= s.len(),
            out@ == s@.subrange(a as int, i as int),
        decreases b - i,
    {
        let c2 = s[i];
        out.push(c2);
        proof {
            assert(s@.subrange(a as int, i + 1) =~= s@.subrange(a as int, i as int).push(
                s@[i as int],
            ));
        }
        i += 1;
    }
    proof {
        assert(s@.subrange(a as int, b as int) =~= s@.skip(a as int).take(b - a));
    }
    out
}

/// The maximal runs of non-white-space characters of `s`, in order, as
/// `str::split_whitespace` yields them.
pub open spec fn spec_tokens(s: Seq<char>) -> Seq<Seq<char>>
    decreases s.len(),
{
    if s.len() == 0 {
        Seq::empty()
    } else {
        let prefix = spec_tokens(s.drop_last());
        let c = s.last();
        if spec_is_space(c) {
            prefix
        } else if s.len() >= 2 && !spec_is_space(s[s.len() - 2]) {
            prefix.drop_last().push(prefix.last().push(c))
        } else {
            prefix.push(seq![c])
        }
    }
}

/// Splits `s` into its white-space-separated tokens, dropping all white
/// space and yielding no empty token.
pub fn whitespace_tokens(s: &Vec<char>) -> (r: Vec<Vec<char>>)
    ensures
        r.deep_view() == spec_tokens(s@),
{
    let mut parts: Vec<Vec<char>> = Vec::new();
    let mut cur: Vec<char> = Vec::new();
    let mut i: usize = 0;
    proof {
        assert(spec_tokens(s@.take(0)) =~~= parts.deep_view());
    }
    while i < s.len()
        invariant
            i <= s.len(),
            spec_tokens(s@.take(i as int)) == if cur@.len() == 0 {
                parts.deep_view()
            } else {
                parts.deep_view().push(cur@)
            },
            cur@.len() > 0 ==> i > 0 && !spec_is_space(s@[i - 1]),
            cur@.len() == 0 ==> i == 0 || spec_is_space(s@[i - 1]),
        decreases s.len() - i,
    {
        proof {
            assert(s@.take(i + 1).drop_last() =~= s@.take(i as int));
            assert(s@.take(i + 1).last() == s@[i as int]);
            if i >= 1 {
                assert(s@.take(i + 1)[i - 1] == s@[i - 1]);
            }
        }
        let c = s[i];
        if is_space(c) {
            if cur.len() > 0 {
                let ghost old_parts = parts.deep_view();
                let ghost old_cur = cur@;
                parts.push(cur);
                cur = Vec::new();
                proof {
                    assert(parts.deep_view() =~~= old_parts.push(old_cur));
                }
            }
        } else {
            let ghost old_parts = parts.deep_view();
            let ghost old_cur = cur@;
            if cur.len() == 0 {
                cur.push(c);
                proof {
                    assert(spec_tokens(s@.take(i + 1)) =~~= parts.deep_view().push(cur@));
                }
            } else {
                cur.push(c);
                proof {
                    assert(old_parts.push(old_cur).drop_last() =~= old_parts);
                    assert(old_parts.push(old_cur).last() =~= old_cur);
                    assert(spec_tokens(s@.take(i + 1)) =~~= parts.deep_view().push(cur@));
                }
            }
        }
        i += 1;
    }
    proof {
        assert(s@.take(s@.len() as int) =~= s@);
    }
    if cur.len() > 0 {
        parts.push(cur);
    }
    proof {
        assert(parts.deep_view() =~~= spec_tokens(s@));
    }
    parts
}

/// The decimal digit character for a value below ten.
pub open spec fn spec_digit_char(d: nat) -> char {
    if d == 0 {
        '0'
    } else if d == 1 {
        '1'
    } else if d == 2 {
        '2'
    } else if d == 3 {
        '3'
    } else if d == 4 {
        '4'
    } else if d == 5 {
        '5'
    } else if d == 6 {
        '6'
    } else if d == 7 {
        '7'
    } else if d == 8 {
        '8'
    } else {
        '9'
    }
}

/// The decimal digits of `n`, most significant first, without leading
/// zeros except for `n == 0` itself.
pub open spec fn spec_dec(n: nat) -> Seq<char>
    decreases n,
{
    if n < 10 {
        seq![spec_digit_char(n)]
    } else {
        spec_dec(n / 10).push(spec_digit_char(n % 10))
    }
}

/// Renders `n` in decimal.
pub fn u64_to_dec_chars(n: u64) -> (r: Vec<char>)
    ensures
        r@ == spec_dec(n as nat),
    decreases n,
{
    let d: u64 = n % 10;
    let c: char = if d == 0 {
        '0'
    } else if d == 1 {
        '1'
    } else if d == 2 {
        '2'
    } else if d == 3 {
        '3'
    } else if d == 4 {
        '4'
    } else if d == 5 {
        '5'
    } else if d == 6 {
        '6'
    } else if d == 7 {
        '7'
    } else if d == 8 {
        '8'
    } else {
        '9'
    };
    if n < 10 {
        let mut r: Vec<char> = Vec::new();
        r.push(c);
        proof {
            assert(r@ =~= spec_dec(n as nat));
        }
        r
    } else {
        let mut r = u64_to_dec_chars(n / 10);
        r.push(c);
        r
    }
}

/// Copies the characters of `s` with indices in `[a, b)`.
pub fn subrange_chars(s: &Vec<char>, a: usize, b: usize) -> (r: Vec<char>)
    requires
        a <= b <= s@.len(),
    ensures
        r@ == s@.subrange(a as int, b as int),
{
    let mut out: Vec<char> = Vec::new();
    let mut i = a;
    proof {
        assert(out@ =~= s@.subrange(a as int, a as int));
    }
    while i < b
        invariant
            a <= i <= b <= s.len(),
            out@ == s@.subrange(a as int, i as int),
        decreases b - i,
    {
        let c = s[i];
        out.push(c);
        proof {
            assert(s@.subrange(a as int, i + 1) =~= s@.subrange(a as int, i as int).push(
                s@[i as int],
            ));
        }
        i += 1;
    }
    out
}

/// Relies on `String::push`: appends one character at the end of the string.
#[verifier::external_body]
pub(crate) fn push_char(s: &mut String, c: char)
    ensures
        final(s)@ == old(s)@.push(c),
{
    s.push(c);
}

/// Builds a `String` holding exactly the characters of `v`.
pub fn chars_to_string(v: &Vec<char>) -> (r: String)
    ensures
        r@ == v@,
{
    let mut r = String::new();
    let mut i: usize = 0;
    proof {
        assert(r@ =~= v@.take(0));
    }
    while i < v.len()
        invariant
            i <= v.len(),
            r@ == v@.take(i as int),
        decreases v.len() - i,
    {
        let c = v[i];
        push_char(&mut r, c);
        proof {
            assert(v@.take(i + 1) =~= v@.take(i as int).push(v@[i as int]));
        }
        i += 1;
    }
    proof {
        assert(v@.take(v@.len() as int) =~= v@);
    }
    r
}

/// Collects the characters of `s` into a vector.
pub fn str_to_chars(s: &str) -> (r: Vec<char>)
    ensures
        r@ == s@,
{
    let mut it = s.chars();
    let mut r: Vec<char> = Vec::new();
    proof {
        assert(r@ + vstd::std_specs::iter::IteratorSpec::remaining(&it) =~= s@);
    }
    loop
        invariant
            vstd::std_specs::iter::IteratorSpec::obeys_prophetic_iter_laws(&it),
            vstd::std_specs::iter::IteratorSpec::decrease(&it) is Some,
            r@ + vstd::std_specs::iter::IteratorSpec::remaining(&it) == s@,
        decreases vstd::std_specs::iter::IteratorSpec::decrease(&it)->Some_0,
    {
        let ghost prev = vstd::std_specs::iter::IteratorSpec::remaining(&it);
        match it.next() {
            Some(c) => {
                r.push(c);
                proof {
                    assert(prev =~= seq![prev[0]] + prev.drop_first());
                    assert(r@ + vstd::std_specs::iter::IteratorSpec::remaining(&it) =~= s@);
                }
            },
            None => {
                proof {
                    assert(r@ =~= s@);
                }
                return r;
            },
        }
    }
}


/// Whether `c` is a decimal digit.
pub open spec fn spec_is_digit(c: char) -> bool {
    48 <= c as u32 <= 57
}

/// The value of a decimal digit character.
pub open spec fn spec_digit_val(c: char) -> nat {
    (c as u32 - 48) as nat
}

/// The value of a digit string read in base ten.
pub open spec fn spec_digits_val(t: Seq<char>) -> nat
    decreases t.len(),
{
    if t.len() == 0 {
        0
    } else {
        spec_digits_val(t.drop_last()) * 10 + spec_digit_val(t.last())
    }
}

/// Every character of `t` is a decimal digit.
pub open spec fn spec_all_digits(t: Seq<char>) -> bool {
    forall|i: int| 0 <= i < t.len() ==> #[trigger] spec_is_digit(t[i])
}

/// What `str::parse::<u8>()` with a fallback of zero yields: the value of
/// the digits (after one optional leading plus sign) when they are
/// non-empty, all numeric and fit in a `u8`, and zero otherwise.
pub open spec fn spec_parse_u8_or_zero(t: Seq<char>) -> u8 {
    let d = if t.len() > 0 && t[0] == '+' {
        t.drop_first()
    } else {
        t
    };
    if d.len() > 0 && spec_all_digits(d) && spec_digits_val(d) <= 255 {
        spec_digits_val(d) as u8
    } else {
        0
    }
}

/// Reads `t` as a `u8`, yielding zero for anything that does not parse.
#[verifier::loop_isolation(false)]
pub fn parse_u8_or_zero(t: &Vec<char>) -> (r: u8)
    ensures
        r == spec_parse_u8_or_zero(t@),
{
    let start: usize = if t.len() > 0 && t[0] == '+' {
        1
    } else {
        0
    };
    let ghost d = if t@.len() > 0 && t@[0] == '+' {
        t@.drop_first()
    } else {
        t@
    };
    proof {
        assert(d =~= t@.skip(start as int));
    }
    if start >= t.len() {
        return 0;
    }
    let mut acc: u32 = 0;
    let mut i = start;
    proof {
        assert(d.take(0) =~= Seq::<char>::empty());
    }
    while i < t.len()
        invariant
            start <= i <= t.len(),
            spec_digits_val(d.take(i - start)) <= 255 ==> acc == spec_digits_val(
                d.take(i - start),
            ),
            spec_digits_val(d.take(i - start)) > 255 ==> acc == 256,
            spec_all_digits(d.take(i - start)),
        decreases t.len() - i,
    {
        let c = t[i];
        let u = c as u32;
        proof {
            assert(d[i - start] == t@[i as int]);
            assert(d.take(i - start + 1).drop_last() =~= d.take(i - start));
            assert(d.take(i - start + 1).last() == d[i - start]);
        }
        if u < 48 || u > 57 {
            proof {
                assert(!spec_is_digit(d[i - start]));
                assert(!spec_all_digits(d));
            }
            return 0;
        }
        let ghost prev_val = spec_digits_val(d.take(i - start));
        if acc > 255 {
            acc = 256;
            proof {
                assert(spec_digits_val(d.take(i - start + 1)) == prev_val * 10 + spec_digit_val(
                    d[i - start],
                ));
                assert(prev_val * 10 >= 2560);
            }
        } else {
            acc = acc * 10 + (u - 48);
            if acc > 255 {
                acc = 256;
            }
        }
        proof {
            assert(forall|k: int|
                0 <= k < d.take(i - start + 1).len() ==> #[trigger] spec_is_digit(
                    d.take(i - start + 1)[k],
                ));
        }
        i += 1;
    }
    proof {
        assert(d.take(t@.len() - start) =~= d);
    }
    if acc <= 255 {
        acc as u8
    } else {
        0
    }
}

} // verus!
