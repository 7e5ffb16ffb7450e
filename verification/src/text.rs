//! Plain-text helpers: whitespace trimming, line counting, decimal
//! rendering and column padding.

use vstd::prelude::*;

verus! {

/// ASCII whitespace: the characters trimmed from token files and
/// response bodies.
pub open spec fn spec_is_space(c: char) -> bool {
    c == ' ' || c == '\t' || c == '\n' || c == '\r' || c == '\x0c'
}

/// The sequence with its trailing whitespace removed.
pub open spec fn spec_trim_end(s: Seq<char>) -> Seq<char>
    decreases s.len(),
{
    if s.len() > 0 && spec_is_space(s.last()) {
        spec_trim_end(s.drop_last())
    } else {
        s
    }
}

/// The sequence with its leading whitespace removed.
pub open spec fn spec_trim_start(s: Seq<char>) -> Seq<char>
    decreases s.len(),
{
    if s.len() > 0 && spec_is_space(s.first()) {
        spec_trim_start(s.drop_first())
    } else {
        s
    }
}

/// The sequence with whitespace removed from both ends.
pub open spec fn spec_trim(s: Seq<char>) -> Seq<char> {
    spec_trim_start(spec_trim_end(s))
}

fn is_space(c: char) -> (r: bool)
    ensures
        r == spec_is_space(c),
{
    c == ' ' || c == '\t' || c == '\n' || c == '\r' || c == '\x0c'
}

proof fn lemma_trim_end_prefix(s: Seq<char>, end: int)
    requires
        0 <= end <= s.len(),
        forall|i: int| end <= i < s.len() ==> spec_is_space(s[i]),
    ensures
        spec_trim_end(s) == spec_trim_end(s.subrange(0, end)),
    decreases s.len() - end,
{
    if end < s.len() {
        assert(spec_is_space(s.last()));
        assert(s.drop_last() == s.subrange(0, s.len() - 1));
        lemma_trim_end_prefix(s.subrange(0, s.len() - 1), end);
        assert(s.subrange(0, s.len() - 1).subrange(0, end) == s.subrange(0, end));
    } else {
        assert(s.subrange(0, end) == s);
    }
}

proof fn lemma_trim_start_suffix(s: Seq<char>, start: int)
    requires
        0 <= start <= s.len(),
        forall|i: int| 0 <= i < start ==> spec_is_space(s[i]),
    ensures
        spec_trim_start(s) == spec_trim_start(s.subrange(start, s.len() as int)),
    decreases start,
{
    if start > 0 {
        assert(spec_is_space(s.first()));
        let t = s.drop_first();
        assert(t == s.subrange(1, s.len() as int));
        lemma_trim_start_suffix(t, start - 1);
        assert(t.subrange(start - 1, t.len() as int) == s.subrange(start, s.len() as int));
    } else {
        assert(s.subrange(0, s.len() as int) == s);
    }
}

/// Copy of `s` with leading and trailing whitespace removed.
pub fn trim_str(s: &str) -> (r: String)
    ensures
        r@ == spec_trim(s@),
{
    let len = s.unicode_len();
    let mut end = len;
    while end > 0 && is_space(s.get_char(end - 1))
        invariant
            end <= len == s@.len(),
            forall|i: int| end <= i < s@.len() ==> spec_is_space(s@[i]),
        decreases end,
    {
        end = end - 1;
    }
    proof {
        lemma_trim_end_prefix(s@, end as int);
        if end > 0 {
            assert(s@.subrange(0, end as int).last() == s@[end - 1]);
        }
        assert(spec_trim_end(s@.subrange(0, end as int)) == s@.subrange(0, end as int));
    }
    let ghost t = s@.subrange(0, end as int);
    let mut start: usize = 0;
    while start < end && is_space(s.get_char(start))
        invariant
            0 <= start <= end <= s@.len(),
            t == s@.subrange(0, end as int),
            forall|i: int| 0 <= i < start ==> spec_is_space(t[i]),
        decreases end - start,
    {
        start = start + 1;
    }
    proof {
        lemma_trim_start_suffix(t, start as int);
        if start < end {
            assert(t.subrange(start as int, t.len() as int).first() == s@[start as int]);
        }
        assert(spec_trim_start(t.subrange(start as int, t.len() as int))
            == t.subrange(start as int, t.len() as int));
        assert(t.subrange(start as int, t.len() as int)
            == s@.subrange(start as int, end as int));
    }
    s.substring_char(start, end).to_owned()
}

/// How many characters of `s` are the newline character.
pub open spec fn spec_newline_count(s: Seq<char>) -> nat
    decreases s.len(),
{
    if s.len() == 0 {
        0
    } else {
        spec_newline_count(s.drop_last()) + (if s.last() == '\n' { 1nat } else { 0nat })
    }
}

/// How many lines `s` spans, counted as `str::lines` does: a trailing
/// newline closes the last line instead of opening an empty one.
pub open spec fn spec_line_count(s: Seq<char>) -> nat {
    if s.len() == 0 {
        0
    } else if s.last() == '\n' {
        spec_newline_count(s)
    } else {
        spec_newline_count(s) + 1
    }
}

proof fn lemma_newline_count_le(s: Seq<char>)
    ensures
        spec_newline_count(s) <= s.len(),
    decreases s.len(),
{
    if s.len() > 0 {
        lemma_newline_count_le(s.drop_last());
    }
}

/// Number of lines in `s`.
pub fn line_count(s: &str) -> (n: usize)
    ensures
        n == spec_line_count(s@),
{
    let len = s.unicode_len();
    let mut nl: usize = 0;
    let mut i: usize = 0;
    while i < len
        invariant
            i <= len == s@.len(),
            nl == spec_newline_count(s@.subrange(0, i as int)),
            nl <= i,
        decreases len - i,
    {
        proof {
            assert(s@.subrange(0, i + 1).drop_last() == s@.subrange(0, i as int));
            assert(s@.subrange(0, i + 1).last() == s@[i as int]);
        }
        if s.get_char(i) == '\n' {
            nl = nl + 1;
        }
        i = i + 1;
    }
    proof {
        assert(s@.subrange(0, len as int) == s@);
    }
    if len == 0 {
        0
    } else if s.get_char(len - 1) == '\n' {
        nl
    } else {
        proof {
            assert(s@.drop_last() == s@.subrange(0, s@.len() - 1));
            lemma_newline_count_le(s@.drop_last());
        }
        nl + 1
    }
}

/// The character for a single decimal digit.
pub open spec fn spec_digit(d: nat) -> char {
    (((d % 10) + 48) as u8) as char
}

/// The decimal rendering of a natural number, most significant digit
/// first.
pub open spec fn spec_dec(n: nat) -> Seq<char>
    decreases n,
{
    if n < 10 {
        seq![spec_digit(n)]
    } else {
        spec_dec(n / 10).push(spec_digit(n % 10))
    }
}

fn digit_str(d: u64) -> (r: &'static str)
    requires
        d < 10,
    ensures
        r@ =~= seq![spec_digit(d as nat)],
{
    proof {
        reveal_strlit("0");
        reveal_strlit("1");
        reveal_strlit("2");
        reveal_strlit("3");
        reveal_strlit("4");
        reveal_strlit("5");
        reveal_strlit("6");
        reveal_strlit("7");
        reveal_strlit("8");
        reveal_strlit("9");
    }
    if d == 0 {
        "0"
    } else if d == 1 {
        "1"
    } else if d == 2 {
        "2"
    } else if d == 3 {
        "3"
    } else if d == 4 {
        "4"
    } else if d == 5 {
        "5"
    } else if d == 6 {
        "6"
    } else if d == 7 {
        "7"
    } else if d == 8 {
        "8"
    } else {
        "9"
    }
}

/// The decimal rendering of `n`.
pub fn u64_to_dec(n: u64) -> (s: String)
    ensures
        s@ == spec_dec(n as nat),
    decreases n,
{
    if n < 10 {
        digit_str(n).to_owned()
    } else {
        let mut s = u64_to_dec(n / 10);
        s.append(digit_str(n % 10));
        proof {
            assert(s@ =~= spec_dec(n as nat));
        }
        s
    }
}

/// `n` copies of the character `c`.
pub open spec fn spec_fill(c: char, n: nat) -> Seq<char> {
    Seq::new(n, |i: int| c)
}

/// Appends `count` copies of the single character held by `one`.
fn append_fill(s: &mut String, one: &str, count: usize)
    requires
        one@.len() == 1,
    ensures
        final(s)@ == old(s)@ + spec_fill(one@[0], count as nat),
{
    let mut j: usize = 0;
    while j < count
        invariant
            j <= count,
            one@.len() == 1,
            s@ == old(s)@ + spec_fill(one@[0], j as nat),
        decreases count - j,
    {
        s.append(one);
        j = j + 1;
        proof {
            assert(old(s)@ + spec_fill(one@[0], j as nat)
                =~= old(s)@ + spec_fill(one@[0], (j - 1) as nat) + one@);
        }
    }
}

/// `s` left-aligned in a field `width` wide; wider content is kept whole.
pub open spec fn spec_pad_right(s: Seq<char>, width: nat) -> Seq<char> {
    if s.len() >= width {
        s
    } else {
        s + spec_fill(' ', (width - s.len()) as nat)
    }
}

/// `s` right-aligned in a field `width` wide; wider content is kept whole.
pub open spec fn spec_pad_left(s: Seq<char>, width: nat) -> Seq<char> {
    if s.len() >= width {
        s
    } else {
        spec_fill(' ', (width - s.len()) as nat) + s
    }
}

/// `s` centred in a field `width` wide, the odd space going to the right.
pub open spec fn spec_center(s: Seq<char>, width: nat) -> Seq<char> {
    if s.len() >= width {
        s
    } else {
        let pad = (width - s.len()) as nat;
        spec_fill(' ', pad / 2) + s + spec_fill(' ', (pad - pad / 2) as nat)
    }
}

/// Left-aligns `s` in a field `width` wide.
pub fn pad_right(s: &str, width: usize) -> (r: String)
    ensures
        r@ == spec_pad_right(s@, width as nat),
{
    let len = s.unicode_len();
    let mut r = s.to_owned();
    if len < width {
        proof {
            reveal_strlit(" ");
        }
        append_fill(&mut r, " ", width - len);
    }
    r
}

/// Right-aligns `s` in a field `width` wide.
pub fn pad_left(s: &str, width: usize) -> (r: String)
    ensures
        r@ == spec_pad_left(s@, width as nat),
{
    let len = s.unicode_len();
    let mut r = String::new();
    if len < width {
        proof {
            reveal_strlit(" ");
        }
        append_fill(&mut r, " ", width - len);
    }
    r.append(s);
    proof {
        assert(r@ =~= spec_pad_left(s@, width as nat));
    }
    r
}

/// Centres `s` in a field `width` wide.
pub fn center(s: &str, width: usize) -> (r: String)
    ensures
        r@ == spec_center(s@, width as nat),
{
    let len = s.unicode_len();
    if len >= width {
        s.to_owned()
    } else {
        let pad = width - len;
        let mut r = String::new();
        proof {
            reveal_strlit(" ");
        }
        append_fill(&mut r, " ", pad / 2);
        r.append(s);
        append_fill(&mut r, " ", pad - pad / 2);
        proof {
            assert(r@ =~= spec_center(s@, width as nat));
        }
        r
    }
}

} // verus!
