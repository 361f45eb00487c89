//! Text as a sequence of characters: white space and trimming, search for a
//! pattern with or without regard to letter case, and decimal numerals.
//!
//! Every contract here speaks of `Seq<char>`, the view of a `String`.

use vstd::prelude::*;

verus! {

/// The characters that Unicode lists as `White_Space`.
pub open spec fn is_white_space(c: char) -> bool {
    let u = c as u32;
    ||| 0x09 <= u <= 0x0D
    ||| u == 0x20
    ||| u == 0x85
    ||| u == 0xA0
    ||| u == 0x1680
    ||| 0x2000 <= u <= 0x200A
    ||| u == 0x2028
    ||| u == 0x2029
    ||| u == 0x202F
    ||| u == 0x205F
    ||| u == 0x3000
}

/// `s` without its leading white space.
pub open spec fn trim_start(s: Seq<char>) -> Seq<char>
    decreases s.len(),
{
    if s.len() > 0 && is_white_space(s[0]) {
        trim_start(s.skip(1))
    } else {
        s
    }
}

/// `s` without its trailing white space.
pub open spec fn trim_end(s: Seq<char>) -> Seq<char>
    decreases s.len(),
{
    if s.len() > 0 && is_white_space(s.last()) {
        trim_end(s.drop_last())
    } else {
        s
    }
}

/// `s` without leading and trailing white space.
pub open spec fn trimmed(s: Seq<char>) -> Seq<char> {
    trim_end(trim_start(s))
}

/// Every character of `s` is white space.
pub open spec fn all_white_space(s: Seq<char>) -> bool {
    forall|i: int| 0 <= i < s.len() ==> is_white_space(#[trigger] s[i])
}

/// An ASCII capital letter becomes its small letter; every other character stays.
pub open spec fn ascii_lower(c: char) -> char {
    let u = c as u32;
    if 0x41 <= u <= 0x5A {
        (u + 0x20) as char
    } else {
        c
    }
}

/// Whether the character `c` of a text counts as the character `p` of a
/// pattern. With `fold` set, ASCII letter case is ignored in the text.
pub open spec fn same_char(c: char, p: char, fold: bool) -> bool {
    if fold {
        ascii_lower(c) == p
    } else {
        c == p
    }
}

/// Whether `pat` stands in `text` at index `i`.
pub open spec fn matches_at(text: Seq<char>, pat: Seq<char>, i: int, fold: bool) -> bool {
    &&& 0 <= i
    &&& i + pat.len() <= text.len()
    &&& forall|j: int| 0 <= j < pat.len() ==> same_char(text[i + j], #[trigger] pat[j], fold)
}

/// Whether `pat` stands anywhere in `text`.
pub open spec fn occurs_in(text: Seq<char>, pat: Seq<char>, fold: bool) -> bool {
    exists|i: int| matches_at(text, pat, i, fold)
}

/// The least index at or after `start` at which `pat` stands in `text`.
pub open spec fn first_match(text: Seq<char>, pat: Seq<char>, start: int, fold: bool) -> Option<
    int,
>
    decreases text.len() - start,
{
    if start < 0 || start + pat.len() > text.len() {
        None
    } else if matches_at(text, pat, start, fold) {
        Some(start)
    } else {
        first_match(text, pat, start + 1, fold)
    }
}

/// What `first_match` returns is a match, and no match lies between `start`
/// and it; `None` means that no match lies at or after `start`.
pub proof fn lemma_first_match(text: Seq<char>, pat: Seq<char>, start: int, fold: bool)
    requires
        0 <= start,
    ensures
        match first_match(text, pat, start, fold) {
            Some(k) => {
                &&& start <= k
                &&& matches_at(text, pat, k, fold)
                &&& forall|p: int| start <= p < k ==> !matches_at(text, pat, p, fold)
            },
            None => forall|p: int| start <= p ==> !matches_at(text, pat, p, fold),
        },
    decreases text.len() - start,
{
    if start + pat.len() > text.len() {
    } else if matches_at(text, pat, start, fold) {
    } else {
        lemma_first_match(text, pat, start + 1, fold);
    }
}

/// A match at `k` with none between `start` and `k` is the first match.
pub proof fn lemma_first_match_is(text: Seq<char>, pat: Seq<char>, start: int, k: int, fold: bool)
    requires
        0 <= start <= k,
        matches_at(text, pat, k, fold),
        forall|p: int| start <= p < k ==> !matches_at(text, pat, p, fold),
    ensures
        first_match(text, pat, start, fold) == Some(k),
    decreases k - start,
{
    if start < k {
        lemma_first_match_is(text, pat, start + 1, k, fold);
    }
}

/// No match at or after `start` means that `first_match` finds none.
pub proof fn lemma_first_match_none(text: Seq<char>, pat: Seq<char>, start: int, fold: bool)
    requires
        0 <= start,
        forall|p: int| start <= p ==> !matches_at(text, pat, p, fold),
    ensures
        first_match(text, pat, start, fold) is None,
{
    lemma_first_match(text, pat, start, fold);
}

/// From index `from` on, `s` does not hold the character `c`.
pub open spec fn lacks(s: Seq<char>, c: char, from: int) -> bool
    decreases s.len() - from,
{
    if from < 0 || from >= s.len() {
        true
    } else {
        s[from] != c && lacks(s, c, from + 1)
    }
}

/// From index `j` on, the pattern `pat` agrees with the start of `text`.
pub open spec fn agrees_from(text: Seq<char>, pat: Seq<char>, j: int, fold: bool) -> bool
    decreases pat.len() - j,
{
    if j < 0 || j >= pat.len() {
        true
    } else {
        j < text.len() && same_char(text[j], pat[j], fold) && agrees_from(text, pat, j + 1, fold)
    }
}

/// `lacks` says of every index what it says of the first.
pub proof fn lemma_lacks(s: Seq<char>, c: char, from: int, k: int)
    requires
        lacks(s, c, from),
        0 <= from <= k < s.len(),
    ensures
        s[k] != c,
    decreases k - from,
{
    if from < k {
        lemma_lacks(s, c, from + 1, k);
    }
}

/// A pattern that agrees with the start of a text stands there.
pub proof fn lemma_agrees(text: Seq<char>, pat: Seq<char>, j: int, fold: bool)
    requires
        0 <= j,
        agrees_from(text, pat, j, fold),
    ensures
        j < pat.len() ==> pat.len() <= text.len(),
        forall|k: int| j <= k < pat.len() ==> same_char(text[k], #[trigger] pat[k], fold),
    decreases pat.len() - j,
{
    if j < pat.len() {
        lemma_agrees(text, pat, j + 1, fold);
    }
}

/// Where a piece of a text is known, the matches that lie inside the piece
/// are the matches in the piece.
pub proof fn lemma_match_in_piece(
    text: Seq<char>,
    piece: Seq<char>,
    at: int,
    pat: Seq<char>,
    o: int,
    fold: bool,
)
    requires
        0 <= at,
        at + piece.len() <= text.len(),
        text.subrange(at, at + piece.len()) == piece,
    ensures
        matches_at(piece, pat, o, fold) <==> (0 <= o && o + pat.len() <= piece.len() && matches_at(
            text,
            pat,
            at + o,
            fold,
        )),
{
    if 0 <= o && o + pat.len() <= piece.len() {
        if matches_at(piece, pat, o, fold) {
            assert forall|j: int| 0 <= j < pat.len() implies same_char(
                text[at + o + j],
                #[trigger] pat[j],
                fold,
            ) by {
                assert(piece[o + j] == text[at + o + j]);
            }
        }
        if matches_at(text, pat, at + o, fold) {
            assert forall|j: int| 0 <= j < pat.len() implies same_char(
                piece[o + j],
                #[trigger] pat[j],
                fold,
            ) by {
                assert(piece[o + j] == text[at + o + j]);
            }
        }
    }
}

/// A match of a pattern without the character `c`, letter case ignored,
/// covers no `c`, where `c` is no ASCII capital letter.
pub proof fn lemma_match_avoids(text: Seq<char>, pat: Seq<char>, p: int, c: char, k: int)
    requires
        matches_at(text, pat, p, true),
        lacks(pat, c, 0),
        ascii_lower(c) == c,
        p <= k < p + pat.len(),
    ensures
        text[k] != c,
{
    let j = k - p;
    lemma_lacks(pat, c, 0, j);
    assert(same_char(text[p + j], pat[j], true));
}

/// White space in front of a text does not change what is left of it
/// without its leading white space.
pub proof fn lemma_trim_start_padded(pad: Seq<char>, s: Seq<char>)
    requires
        all_white_space(pad),
    ensures
        trim_start(pad + s) == trim_start(s),
    decreases pad.len(),
{
    if pad.len() == 0 {
        assert(pad + s == s);
    } else {
        assert((pad + s)[0] == pad[0]);
        assert((pad + s).skip(1) == pad.skip(1) + s);
        assert forall|i: int| 0 <= i < pad.skip(1).len() implies is_white_space(
            #[trigger] pad.skip(1)[i],
        ) by {
            assert(pad.skip(1)[i] == pad[i + 1]);
        }
        lemma_trim_start_padded(pad.skip(1), s);
    }
}

/// White space behind a text does not change what is left of it without its
/// trailing white space.
pub proof fn lemma_trim_end_padded(s: Seq<char>, pad: Seq<char>)
    requires
        all_white_space(pad),
    ensures
        trim_end(s + pad) == trim_end(s),
    decreases pad.len(),
{
    if pad.len() == 0 {
        assert(s + pad == s);
    } else {
        assert((s + pad).last() == pad.last());
        assert((s + pad).drop_last() == s + pad.drop_last());
        assert forall|i: int| 0 <= i < pad.drop_last().len() implies is_white_space(
            #[trigger] pad.drop_last()[i],
        ) by {
            assert(pad.drop_last()[i] == pad[i]);
        }
        lemma_trim_end_padded(s, pad.drop_last());
    }
}

/// What is left of a text without its leading white space is a tail of it,
/// and does not start with white space.
pub proof fn lemma_trim_start(s: Seq<char>)
    ensures
        trim_start(s).len() <= s.len(),
        trim_start(s) == s.skip(s.len() - trim_start(s).len()),
        trim_start(s).len() > 0 ==> !is_white_space(trim_start(s)[0]),
    decreases s.len(),
{
    if s.len() > 0 && is_white_space(s[0]) {
        lemma_trim_start(s.skip(1));
        let t = trim_start(s.skip(1));
        assert(s.skip(1).skip(s.skip(1).len() - t.len()) == s.skip(s.len() - t.len()));
    } else {
        assert(s.skip(0) == s);
    }
}

/// What is left of a text without its trailing white space is a head of it,
/// and does not end with white space.
pub proof fn lemma_trim_end(s: Seq<char>)
    ensures
        trim_end(s).len() <= s.len(),
        trim_end(s) == s.take(trim_end(s).len() as int),
        trim_end(s).len() > 0 ==> !is_white_space(trim_end(s).last()),
    decreases s.len(),
{
    if s.len() > 0 && is_white_space(s.last()) {
        lemma_trim_end(s.drop_last());
        let t = trim_end(s.drop_last());
        assert(s.drop_last().take(t.len() as int) == s.take(t.len() as int));
    } else {
        assert(s.take(s.len() as int) == s);
    }
}

/// A trimmed text is a piece of the text, and neither starts nor ends with
/// white space.
pub proof fn lemma_trimmed(s: Seq<char>)
    ensures
        trimmed(s).len() <= s.len(),
        exists|a: int|
            0 <= a && a + trimmed(s).len() <= s.len() && #[trigger] s.subrange(
                a,
                a + trimmed(s).len(),
            ) == trimmed(s),
        trimmed(s).len() > 0 ==> !is_white_space(trimmed(s)[0]) && !is_white_space(
            trimmed(s).last(),
        ),
{
    lemma_trim_start(s);
    let m = trim_start(s);
    lemma_trim_end(m);
    let t = trimmed(s);
    let a = s.len() - m.len();
    assert(s.subrange(a, a + t.len()) == t) by {
        assert(m.take(t.len() as int) == s.skip(a).take(t.len() as int));
        assert(s.skip(a).take(t.len() as int) == s.subrange(a, a + t.len()));
    }
    if t.len() > 0 {
        assert(t[0] == m[0]);
    }
}

/// Trimming a trimmed text with white space around it gives the trimmed
/// text back.
pub proof fn lemma_trimmed_padded(before: Seq<char>, s: Seq<char>, after: Seq<char>)
    requires
        all_white_space(before),
        all_white_space(after),
    ensures
        trimmed(before + trimmed(s) + after) == trimmed(s),
{
    let t = trimmed(s);
    lemma_trimmed(s);
    assert(before + t + after == before + (t + after));
    lemma_trim_start_padded(before, t + after);
    if t.len() == 0 {
        assert(t + after == after);
        assert(after + Seq::<char>::empty() == after);
        lemma_trim_start_padded(after, Seq::<char>::empty());
        assert(trim_start(after) == Seq::<char>::empty());
    } else {
        assert((t + after)[0] == t[0]);
        assert(trim_start(t + after) == t + after);
        lemma_trim_end_padded(t, after);
        assert(trim_end(t) == t);
    }
}

/// A pattern that stands in the trimmed text stands in the text.
pub proof fn lemma_occurs_in_trimmed(s: Seq<char>, pat: Seq<char>, fold: bool)
    requires
        occurs_in(trimmed(s), pat, fold),
    ensures
        occurs_in(s, pat, fold),
{
    lemma_trimmed(s);
    let t = trimmed(s);
    let a = choose|a: int|
        0 <= a && a + t.len() <= s.len() && #[trigger] s.subrange(a, a + t.len()) == t;
    let o = choose|o: int| matches_at(t, pat, o, fold);
    lemma_match_in_piece(s, t, a, pat, o, fold);
    assert(matches_at(s, pat, a + o, fold));
}

/// The decimal digit for `d`, which is below ten.
pub open spec fn digit(d: nat) -> char {
    (0x30 + d) as char
}

/// The decimal numeral of `n`, without leading zeros.
pub open spec fn decimal(n: nat) -> Seq<char>
    decreases n,
{
    if n < 10 {
        seq![digit(n)]
    } else {
        decimal(n / 10).push(digit(n % 10))
    }
}

/// Tells whether `c` is white space.
pub fn white_space(c: char) -> (b: bool)
    ensures
        b == is_white_space(c),
{
    let u: u32 = c as u32;
    (0x09 <= u && u <= 0x0D) || u == 0x20 || u == 0x85 || u == 0xA0 || u == 0x1680 || (0x2000
        <= u && u <= 0x200A) || u == 0x2028 || u == 0x2029 || u == 0x202F || u == 0x205F || u
        == 0x3000
}

/// Tells whether the text character `c` counts as the pattern character `p`.
pub fn char_matches(c: char, p: char, fold: bool) -> (b: bool)
    ensures
        b == same_char(c, p, fold),
{
    if fold {
        let u: u32 = c as u32;
        if 0x41 <= u && u <= 0x5A {
            u + 0x20 == p as u32
        } else {
            c == p
        }
    } else {
        c == p
    }
}

/// The characters of `s`, in order.
pub fn to_chars(s: &str) -> (v: Vec<char>)
    ensures
        v@ == s@,
{
    let mut v: Vec<char> = Vec::new();
    for c in it: s.chars()
        invariant
            v@ == it.seq().take(it.index()),
            it.seq() == s@,
    {
        v.push(c);
    }
    v
}

/// Tells whether `pat` stands in `text` at index `i`.
pub fn matches(text: &Vec<char>, pat: &Vec<char>, i: usize, fold: bool) -> (b: bool)
    ensures
        b == matches_at(text@, pat@, i as int, fold),
{
    if pat.len() > text.len() || i > text.len() - pat.len() {
        return false;
    }
    let mut j: usize = 0;
    while j < pat.len()
        invariant
            j <= pat.len(),
            i + pat.len() <= text.len(),
            forall|k: int| 0 <= k < j ==> same_char(text@[i + k], #[trigger] pat@[k], fold),
        decreases pat.len() - j,
    {
        if !char_matches(text[i + j], pat[j], fold) {
            return false;
        }
        j = j + 1;
    }
    true
}

/// The least index at or after `start` at which `pat` stands in `text`.
pub fn find(text: &Vec<char>, pat: &Vec<char>, start: usize, fold: bool) -> (r: Option<usize>)
    ensures
        match r {
            Some(k) => {
                &&& first_match(text@, pat@, start as int, fold) == Some(k as int)
                &&& start <= k
                &&& k + pat@.len() <= text@.len()
            },
            None => first_match(text@, pat@, start as int, fold) is None,
        },
{
    if pat.len() > text.len() {
        return None;
    }
    let last: usize = text.len() - pat.len();
    let mut p: usize = start;
    while p <= last
        invariant
            start <= p,
            last == text.len() - pat.len(),
            first_match(text@, pat@, start as int, fold) == first_match(
                text@,
                pat@,
                p as int,
                fold,
            ),
        decreases last + 1 - p,
    {
        if matches(text, pat, p, fold) {
            return Some(p);
        }
        p = p + 1;
    }
    None
}

/// The characters of `s` from index `from` up to index `to`, as a string.
pub fn slice(s: &str, from: usize, to: usize) -> (r: String)
    requires
        from <= to <= s@.len(),
    ensures
        r@ == s@.subrange(from as int, to as int),
{
    s.substring_char(from, to).to_owned()
}

/// `s` without leading and trailing white space.
pub fn trim(s: &str) -> (r: String)
    ensures
        r@ == trimmed(s@),
{
    let chars = to_chars(s);
    let n: usize = chars.len();
    let mut a: usize = 0;
    assert(chars@.skip(0) == chars@);
    while a < n && white_space(chars[a])
        invariant
            a <= n,
            n == chars@.len(),
            trim_start(chars@) == trim_start(chars@.skip(a as int)),
        decreases n - a,
    {
        assert(chars@.skip(a as int).skip(1) == chars@.skip(a + 1));
        a = a + 1;
    }
    let mut b: usize = n;
    while b > a && white_space(chars[b - 1])
        invariant
            a <= b <= n,
            n == chars@.len(),
            trim_end(chars@.skip(a as int)) == trim_end(chars@.subrange(a as int, b as int)),
        decreases b,
    {
        assert(chars@.subrange(a as int, b as int).drop_last() == chars@.subrange(
            a as int,
            b - 1,
        ));
        b = b - 1;
    }
    assert(chars@.skip(n as int) == Seq::<char>::empty());
    assert(chars@.skip(a as int) == chars@.subrange(a as int, n as int));
    slice(s, a, b)
}

/// The decimal numeral of `n`.
pub fn decimal_string(n: usize) -> (r: String)
    ensures
        r@ == decimal(n as nat),
    decreases n,
{
    let d: usize = n % 10;
    let unit: &str = if d == 0 {
        "0"
    } else if d == 1 {
        "1"
    } else if d == 2 {
        "2"
    } else if d == 3 {
        "3"
    } else if d == 4 {
        "4"
    } else if d == 5 {
        "5"
    } else if d == 6 {
        "6"
    } else if d == 7 {
        "7"
    } else if d == 8 {
        "8"
    } else {
        "9"
    };
    proof {
        reveal_strlit("0");
        reveal_strlit("1");
        reveal_strlit("2");
        reveal_strlit("3");
        reveal_strlit("4");
        reveal_strlit("5");
        reveal_strlit("6");
        reveal_strlit("7");
        reveal_strlit("8");
        reveal_strlit("9");
        assert(unit@ == seq![digit(d as nat)]);
    }
    if n < 10 {
        unit.to_owned()
    } else {
        let mut s = decimal_string(n / 10);
        s.append(unit);
        assert(s@ == decimal((n / 10) as nat).push(digit(d as nat)));
        s
    }
}

} // verus!
