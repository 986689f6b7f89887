//! Character-level text helpers shared by the listing parsers.
use vstd::prelude::*;

verus! {

/// `needle` occurs in `hay` starting at position `i`.
pub open spec fn occurs_at(hay: Seq<char>, needle: Seq<char>, i: int) -> bool {
    0 <= i && i + needle.len() <= hay.len() && hay.subrange(i, i + needle.len()) == needle
}

/// `needle` occurs somewhere in `hay`.
pub open spec fn has_substr(hay: Seq<char>, needle: Seq<char>) -> bool {
    exists|i: int| occurs_at(hay, needle, i)
}

fn matches_at(hay: &str, needle: &str, i: usize) -> (r: bool)
    requires
        i + needle@.len() <= hay@.len(),
    ensures
        r == occurs_at(hay@, needle@, i as int),
{
    let h = hay.unicode_len();
    let n = needle.unicode_len();
    let mut j: usize = 0;
    while j < n
        invariant
            n == needle@.len(),
            h == hay@.len(),
            i + n <= h,
            j <= n,
            forall|k: int| 0 <= k < j ==> hay@[i + k] == needle@[k],
        decreases n - j,
    {
        if hay.get_char(i + j) != needle.get_char(j) {
            assert(hay@.subrange(i as int, i + n)[j as int] != needle@[j as int]);
            return false;
        }
        j += 1;
    }
    assert(hay@.subrange(i as int, i + n) =~= needle@);
    true
}

/// Whether `needle` occurs in `hay` as a contiguous run of characters.
pub fn contains_str(hay: &str, needle: &str) -> (r: bool)
    ensures
        r == has_substr(hay@, needle@),
{
    let h = hay.unicode_len();
    let n = needle.unicode_len();
    if n > h {
        return false;
    }
    let mut i: usize = 0;
    loop
        invariant
            n <= h,
            h == hay@.len(),
            n == needle@.len(),
            i <= h - n,
            forall|k: int| 0 <= k < i ==> !occurs_at(hay@, needle@, k),
        decreases h - n - i,
    {
        if matches_at(hay, needle, i) {
            return true;
        }
        if i == h - n {
            return false;
        }
        i += 1;
    }
}

/// The text of a line ended by a newline: a carriage return just before the
/// newline belongs to the line ending, not to the line.
pub open spec fn strip_cr(line: Seq<char>) -> Seq<char> {
    if line.len() > 0 && line.last() == '\r' {
        line.drop_last()
    } else {
        line
    }
}

/// The lines of `s` from the line that starts at `start`, scanning from `i`.
pub open spec fn lines_from(s: Seq<char>, start: int, i: int) -> Seq<Seq<char>>
    decreases s.len() - i,
{
    if i >= s.len() {
        if start < s.len() {
            seq![s.subrange(start, s.len() as int)]
        } else {
            Seq::empty()
        }
    } else if s[i] == '\n' {
        seq![strip_cr(s.subrange(start, i))] + lines_from(s, i + 1, i + 1)
    } else {
        lines_from(s, start, i + 1)
    }
}

/// The lines of `s`: split at each newline, with a carriage return before the
/// newline dropped and no empty line after a final newline.
pub open spec fn lines_of(s: Seq<char>) -> Seq<Seq<char>> {
    lines_from(s, 0, 0)
}

/// Splits `s` into its lines.
pub fn split_lines(s: &str) -> (r: Vec<String>)
    ensures
        r@.map_values(|l: String| l@) == lines_of(s@),
{
    let n = s.unicode_len();
    let mut out: Vec<String> = Vec::new();
    let mut start: usize = 0;
    let mut i: usize = 0;
    while i < n
        invariant
            n == s@.len(),
            start <= i <= n,
            out@.map_values(|l: String| l@) + lines_from(s@, start as int, i as int) == lines_of(s@),
        decreases n - i,
    {
        if s.get_char(i) == '\n' {
            let end: usize = if i > start && s.get_char(i - 1) == '\r' {
                i - 1
            } else {
                i
            };
            let line = String::from_str(s.substring_char(start, end));
            assert(line@ == strip_cr(s@.subrange(start as int, i as int)));
            let ghost before = out@.map_values(|l: String| l@);
            out.push(line);
            assert(out@.map_values(|l: String| l@) =~= before.push(line@));
            assert(before + lines_from(s@, start as int, i as int) =~= before.push(line@)
                + lines_from(s@, i + 1, i + 1));
            start = i + 1;
        }
        i += 1;
    }
    if start < n {
        let line = String::from_str(s.substring_char(start, n));
        let ghost before = out@.map_values(|l: String| l@);
        out.push(line);
        assert(out@.map_values(|l: String| l@) =~= before.push(line@));
        assert(before + lines_from(s@, start as int, i as int) =~= before.push(line@));
    } else {
        assert(out@.map_values(|l: String| l@) =~= out@.map_values(|l: String| l@) + lines_from(
            s@,
            start as int,
            i as int,
        ));
    }
    out
}

/// The pieces of `s` between newlines from the piece that starts at `start`,
/// scanning from `i`. Nothing but the newlines is removed.
pub open spec fn pieces_from(s: Seq<char>, start: int, i: int) -> Seq<Seq<char>>
    decreases s.len() - i,
{
    if i >= s.len() {
        seq![s.subrange(start, s.len() as int)]
    } else if s[i] == '\n' {
        seq![s.subrange(start, i)] + pieces_from(s, i + 1, i + 1)
    } else {
        pieces_from(s, start, i + 1)
    }
}

/// The pieces of `s` between newlines: one more than there are newlines.
pub open spec fn pieces_of(s: Seq<char>) -> Seq<Seq<char>> {
    pieces_from(s, 0, 0)
}

/// The pieces put back together with a newline between each two.
pub open spec fn joined(pieces: Seq<Seq<char>>) -> Seq<char>
    decreases pieces.len(),
{
    if pieces.len() == 0 {
        Seq::empty()
    } else if pieces.len() == 1 {
        pieces[0]
    } else {
        joined(pieces.drop_last()) + seq!['\n'] + pieces.last()
    }
}

proof fn lemma_pieces_nonempty(s: Seq<char>, start: int, i: int)
    ensures
        pieces_from(s, start, i).len() >= 1,
    decreases s.len() - i,
{
    if i < s.len() {
        lemma_pieces_nonempty(s, if s[i] == '\n' { i + 1 } else { start }, i + 1);
    }
}

proof fn lemma_joined_cons(a: Seq<char>, rest: Seq<Seq<char>>)
    requires
        rest.len() >= 1,
    ensures
        joined(seq![a] + rest) == a + seq!['\n'] + joined(rest),
    decreases rest.len(),
{
    let all = seq![a] + rest;
    if rest.len() == 1 {
        assert(all.drop_last() =~= seq![a]);
        assert(all.last() == rest[0]);
        assert(joined(seq![a]) == a);
        assert(joined(rest) == rest[0]);
        assert(joined(all) == joined(all.drop_last()) + seq!['\n'] + all.last());
    } else {
        assert(all.drop_last() =~= seq![a] + rest.drop_last());
        assert(all.last() == rest.last());
        lemma_joined_cons(a, rest.drop_last());
        assert(joined(all) == joined(all.drop_last()) + seq!['\n'] + all.last());
        assert(joined(rest) == joined(rest.drop_last()) + seq!['\n'] + rest.last());
        assert(a + seq!['\n'] + joined(rest) =~= a + seq!['\n'] + joined(rest.drop_last()) + seq!['\n']
            + rest.last());
    }
}

proof fn lemma_join_pieces_from(s: Seq<char>, start: int, i: int)
    requires
        0 <= start <= i <= s.len(),
    ensures
        joined(pieces_from(s, start, i)) == s.subrange(start, s.len() as int),
    decreases s.len() - i,
{
    if i < s.len() {
        if s[i] == '\n' {
            lemma_join_pieces_from(s, i + 1, i + 1);
            lemma_pieces_nonempty(s, i + 1, i + 1);
            lemma_joined_cons(s.subrange(start, i), pieces_from(s, i + 1, i + 1));
            assert(s.subrange(start, i) + seq!['\n'] + s.subrange(i + 1, s.len() as int)
                =~= s.subrange(start, s.len() as int));
        } else {
            lemma_join_pieces_from(s, start, i + 1);
        }
    }
}

/// Splitting at newlines and joining with newlines gives back the text
/// exactly.
pub proof fn lemma_join_split(s: Seq<char>)
    ensures
        joined(pieces_of(s)) == s,
{
    lemma_join_pieces_from(s, 0, 0);
    assert(s.subrange(0, s.len() as int) =~= s);
}

/// Splits `s` at every newline, keeping everything else, a carriage return
/// included.
pub fn split_newlines(s: &str) -> (r: Vec<String>)
    ensures
        r@.map_values(|l: String| l@) == pieces_of(s@),
{
    let n = s.unicode_len();
    let mut out: Vec<String> = Vec::new();
    let mut start: usize = 0;
    let mut i: usize = 0;
    while i < n
        invariant
            n == s@.len(),
            start <= i <= n,
            out@.map_values(|l: String| l@) + pieces_from(s@, start as int, i as int) == pieces_of(s@),
        decreases n - i,
    {
        if s.get_char(i) == '\n' {
            let piece = String::from_str(s.substring_char(start, i));
            let ghost before = out@.map_values(|l: String| l@);
            out.push(piece);
            assert(out@.map_values(|l: String| l@) =~= before.push(piece@));
            assert(before + pieces_from(s@, start as int, i as int) =~= before.push(piece@)
                + pieces_from(s@, i + 1, i + 1));
            start = i + 1;
        }
        i += 1;
    }
    let piece = String::from_str(s.substring_char(start, n));
    let ghost before = out@.map_values(|l: String| l@);
    out.push(piece);
    assert(out@.map_values(|l: String| l@) =~= before.push(piece@));
    assert(before + pieces_from(s@, start as int, i as int) =~= before.push(piece@));
    out
}

/// Joins `pieces` with a newline between each two.
pub fn join_newlines(pieces: &Vec<String>) -> (r: String)
    ensures
        r@ == joined(pieces@.map_values(|l: String| l@)),
{
    let ghost v = pieces@.map_values(|l: String| l@);
    let mut out = String::new();
    let mut i: usize = 0;
    while i < pieces.len()
        invariant
            i <= pieces@.len(),
            v == pieces@.map_values(|l: String| l@),
            out@ == joined(v.take(i as int)),
        decreases pieces@.len() - i,
    {
        proof {
            reveal_strlit("\n");
            assert("\n"@ =~= seq!['\n']);
            assert(v.take(i + 1).drop_last() =~= v.take(i as int));
            assert(v.take(i + 1).last() == pieces@[i as int]@);
        }
        if i > 0 {
            out.append("\n");
        } else {
            assert(out@ =~= Seq::<char>::empty());
        }
        out.append(pieces[i].as_str());
        assert(out@ =~= joined(v.take(i + 1)));
        i += 1;
    }
    assert(v.take(i as int) =~= v);
    out
}

/// A character with the Unicode `White_Space` property: what `str::trim`
/// removes.
pub open spec fn is_space(c: char) -> bool {
    c == '\t' || c == '\n' || c == '\x0b' || c == '\x0c' || c == '\r' || c == ' '
        || c == '\u{85}' || c == '\u{a0}' || c == '\u{1680}' || ('\u{2000}' <= c && c <= '\u{200a}')
        || c == '\u{2028}' || c == '\u{2029}' || c == '\u{202f}' || c == '\u{205f}'
        || c == '\u{3000}'
}

/// `s` without its leading whitespace.
pub open spec fn trim_start(s: Seq<char>) -> Seq<char>
    decreases s.len(),
{
    if s.len() > 0 && is_space(s[0]) {
        trim_start(s.drop_first())
    } else {
        s
    }
}

/// `s` without its trailing whitespace.
pub open spec fn trim_end(s: Seq<char>) -> Seq<char>
    decreases s.len(),
{
    if s.len() > 0 && is_space(s.last()) {
        trim_end(s.drop_last())
    } else {
        s
    }
}

/// `s` without leading and trailing whitespace.
pub open spec fn trim(s: Seq<char>) -> Seq<char> {
    trim_end(trim_start(s))
}

fn is_space_exec(c: char) -> (r: bool)
    ensures
        r == is_space(c),
{
    c == '\t' || c == '\n' || c == '\x0b' || c == '\x0c' || c == '\r' || c == ' '
        || c == '\u{85}' || c == '\u{a0}' || c == '\u{1680}' || ('\u{2000}' <= c && c <= '\u{200a}')
        || c == '\u{2028}' || c == '\u{2029}' || c == '\u{202f}' || c == '\u{205f}'
        || c == '\u{3000}'
}

/// The bounds of `s` without leading and trailing whitespace.
fn trim_bounds(s: &str) -> (r: (usize, usize))
    ensures
        r.0 <= r.1 <= s@.len(),
        s@.subrange(r.0 as int, r.1 as int) == trim(s@),
{
    let n = s.unicode_len();
    let mut a: usize = 0;
    assert(s@.subrange(0, n as int) =~= s@);
    while a < n && is_space_exec(s.get_char(a))
        invariant
            n == s@.len(),
            a <= n,
            trim_start(s@) == trim_start(s@.subrange(a as int, n as int)),
        decreases n - a,
    {
        assert(s@.subrange(a as int, n as int).drop_first() =~= s@.subrange(a + 1, n as int));
        a += 1;
    }
    assert(trim_start(s@) == s@.subrange(a as int, n as int));
    let mut b: usize = n;
    while b > a && is_space_exec(s.get_char(b - 1))
        invariant
            n == s@.len(),
            a <= b <= n,
            trim(s@) == trim_end(s@.subrange(a as int, b as int)),
        decreases b,
    {
        assert(s@.subrange(a as int, b as int).drop_last() =~= s@.subrange(a as int, b - 1));
        b -= 1;
    }
    (a, b)
}

/// A decimal digit.
pub open spec fn is_digit(c: char) -> bool {
    '0' <= c && c <= '9'
}

/// The value of the decimal digits `s`.
pub open spec fn decimal_value(s: Seq<char>) -> nat
    decreases s.len(),
{
    if s.len() == 0 {
        0
    } else {
        decimal_value(s.drop_last()) * 10 + ((s.last() as nat) - ('0' as nat)) as nat
    }
}

/// `s` is an unsigned decimal integer: one or more digits.
pub open spec fn is_decimal(s: Seq<char>) -> bool {
    s.len() > 0 && forall|i: int| 0 <= i < s.len() ==> is_digit(#[trigger] s[i])
}

/// The digits of a numeral: the text after one optional leading `+`.
pub open spec fn unsigned_digits(t: Seq<char>) -> Seq<char> {
    if t.len() > 0 && t[0] == '+' {
        t.drop_first()
    } else {
        t
    }
}

/// The digits that `s` holds once surrounding whitespace and a sign are gone.
pub open spec fn numeral_digits(s: Seq<char>) -> Seq<char> {
    unsigned_digits(trim(s))
}

/// `s`, without surrounding whitespace, is an unsigned decimal integer with an
/// optional leading `+` that fits in 64 bits.
pub open spec fn parses_as_u64(s: Seq<char>) -> bool {
    is_decimal(numeral_digits(s)) && decimal_value(numeral_digits(s)) <= u64::MAX
}

proof fn lemma_decimal_prefix(s: Seq<char>, j: int)
    requires
        0 <= j <= s.len(),
        forall|i: int| 0 <= i < s.len() ==> is_digit(#[trigger] s[i]),
    ensures
        decimal_value(s.take(j)) <= decimal_value(s),
    decreases s.len(),
{
    if j < s.len() {
        assert(s.drop_last().take(j) =~= s.take(j));
        lemma_decimal_prefix(s.drop_last(), j);
    } else {
        assert(s.take(j) =~= s);
    }
}

/// Reads an unsigned 64-bit integer written in decimal, with an optional
/// leading `+` and whitespace around it allowed.
pub fn parse_u64(s: &str) -> (r: Option<u64>)
    ensures
        r is Some <==> parses_as_u64(s@),
        r is Some ==> r->Some_0 == decimal_value(numeral_digits(s@)),
{
    let (a, b) = trim_bounds(s);
    let a = if a < b && s.get_char(a) == '+' {
        assert(s@.subrange(a as int, b as int).drop_first() =~= s@.subrange(a + 1, b as int));
        a + 1
    } else {
        a
    };
    let ghost t = numeral_digits(s@);
    if a == b {
        assert(t.len() == 0);
        return None;
    }
    let mut k: usize = a;
    while k < b
        invariant
            a <= k <= b <= s@.len(),
            t == s@.subrange(a as int, b as int),
            t == numeral_digits(s@),
            forall|i: int| 0 <= i < k - a ==> is_digit(#[trigger] t[i]),
        decreases b - k,
    {
        if !is_digit_exec(s.get_char(k)) {
            let ghost j: int = k - a;
            assert(!is_digit(t[j]));
            assert(!is_decimal(t));
            return None;
        }
        k += 1;
    }
    let mut acc: u64 = 0;
    let mut k: usize = a;
    while k < b
        invariant
            a <= k <= b <= s@.len(),
            t == s@.subrange(a as int, b as int),
            t == numeral_digits(s@),
            is_decimal(t),
            acc == decimal_value(t.take(k - a)),
        decreases b - k,
    {
        let c = s.get_char(k);
        assert(c == t[k - a]);
        assert(is_digit(t[k - a]));
        let d = (c as u32 - '0' as u32) as u64;
        assert(t.take(k - a + 1).drop_last() =~= t.take(k - a));
        if acc > (u64::MAX - d) / 10 {
            assert(decimal_value(t.take(k - a + 1)) > u64::MAX) by (nonlinear_arith)
                requires
                    acc > (u64::MAX - d) / 10,
                    decimal_value(t.take(k - a + 1)) == acc * 10 + d,
                    d <= 9,
            ;
            proof {
                lemma_decimal_prefix(t, (k - a + 1) as int);
            }
            assert(decimal_value(t) > u64::MAX);
            assert(!parses_as_u64(s@));
            return None;
        }
        assert(acc * 10 + d <= u64::MAX) by (nonlinear_arith)
            requires
                acc <= (u64::MAX - d) / 10,
                d <= 9,
        ;
        acc = acc * 10 + d;
        k += 1;
    }
    assert(t.take(b - a) =~= t);
    Some(acc)
}

fn is_digit_exec(c: char) -> (r: bool)
    ensures
        r == is_digit(c),
{
    '0' <= c && c <= '9'
}

} // verus!
