//! Verified string utilities: character access, ASCII case folding,
//! case-insensitive search, whitespace tokenizing and decimal digits.
//! Everything here is this crate's own code, specified and proved; nothing
//! calls out.

use vstd::prelude::*;

verus! {

/// ASCII lower-casing of one character: `A`-`Z` maps to `a`-`z`, everything
/// else is unchanged.
pub open spec fn lower_char(c: char) -> char {
    if 'A' <= c && c <= 'Z' {
        ((c as u32) + 32) as char
    } else {
        c
    }
}

/// The needle occurs at position `i` of the haystack, compared without
/// regard to ASCII case.
pub open spec fn match_at_ci(hay: Seq<char>, needle: Seq<char>, i: int) -> bool {
    &&& 0 <= i
    &&& i + needle.len() <= hay.len()
    &&& forall|j: int|
        0 <= j < needle.len() ==> lower_char(#[trigger] hay[i + j]) == lower_char(needle[j])
}

/// The needle occurs somewhere in the haystack, ASCII-case-insensitively.
pub open spec fn contains_ci_spec(hay: Seq<char>, needle: Seq<char>) -> bool {
    exists|i: int| match_at_ci(hay, needle, i)
}

/// The first position at or after `i` where the needle occurs,
/// ASCII-case-insensitively.
pub open spec fn find_ci_from(hay: Seq<char>, needle: Seq<char>, i: int) -> Option<int>
    decreases hay.len() - i + 1,
{
    if i < 0 || i + needle.len() > hay.len() {
        None
    } else if match_at_ci(hay, needle, i) {
        Some(i)
    } else {
        find_ci_from(hay, needle, i + 1)
    }
}

/// The first position where the needle occurs, ASCII-case-insensitively.
pub open spec fn find_ci_spec(hay: Seq<char>, needle: Seq<char>) -> Option<int> {
    find_ci_from(hay, needle, 0)
}

/// Two sequences are equal up to ASCII case.
pub open spec fn seq_eq_ci(a: Seq<char>, b: Seq<char>) -> bool {
    &&& a.len() == b.len()
    &&& forall|j: int| 0 <= j < a.len() ==> lower_char(#[trigger] a[j]) == lower_char(b[j])
}

/// ASCII whitespace, as used for tokenizing.
pub open spec fn is_space(c: char) -> bool {
    c == ' ' || c == '\t' || c == '\n' || c == '\r'
}

/// A decimal digit.
pub open spec fn is_digit(c: char) -> bool {
    '0' <= c && c <= '9'
}

/// The numeric value of a decimal digit.
pub open spec fn digit_val(c: char) -> nat {
    ((c as u32) - ('0' as u32)) as nat
}

/// The numeric value of a sequence of decimal digits.
pub open spec fn digits_val(s: Seq<char>) -> nat
    decreases s.len(),
{
    if s.len() == 0 {
        0
    } else {
        digits_val(s.drop_last()) * 10 + digit_val(s.last())
    }
}

/// The start of the maximal run of digits ending just before position `p`.
pub open spec fn run_start(s: Seq<char>, p: int) -> int
    decreases p,
{
    if 0 < p <= s.len() && is_digit(s[p - 1]) {
        run_start(s, p - 1)
    } else {
        p
    }
}

/// The length of the leading whitespace-free word of `s`.
pub open spec fn word_len(s: Seq<char>) -> int
    decreases s.len(),
{
    if s.len() == 0 || is_space(s[0]) {
        0
    } else {
        1 + word_len(s.skip(1))
    }
}

/// The leading word takes between one character (when the sequence starts
/// with none of the whitespace characters) and the whole sequence.
pub proof fn lemma_word_len_bounds(s: Seq<char>)
    ensures
        0 <= word_len(s) <= s.len(),
        s.len() > 0 && !is_space(s[0]) ==> 1 <= word_len(s),
    decreases s.len(),
{
    if s.len() > 0 && !is_space(s[0]) {
        lemma_word_len_bounds(s.skip(1));
    }
}

/// The whitespace-separated words of `s`, in order.
pub open spec fn split_ws(s: Seq<char>) -> Seq<Seq<char>>
    decreases s.len(),
        when true
        via split_ws_decreases
{
    if s.len() == 0 {
        Seq::empty()
    } else if is_space(s[0]) {
        split_ws(s.skip(1))
    } else {
        seq![s.take(word_len(s))] + split_ws(s.skip(word_len(s)))
    }
}

#[via_fn]
proof fn split_ws_decreases(s: Seq<char>) {
    if s.len() > 0 && !is_space(s[0]) {
        lemma_word_len_bounds(s);
    }
}

/// The views of a vector of character vectors.
pub open spec fn views_of(tokens: Seq<Vec<char>>) -> Seq<Seq<char>> {
    tokens.map_values(|t: Vec<char>| t@)
}

/// The decimal rendering of a natural number, most significant digit first.
pub open spec fn dec_str(n: nat) -> Seq<char>
    decreases n,
{
    if n < 10 {
        seq![dec_digit(n)]
    } else {
        dec_str(n / 10).push(dec_digit(n % 10))
    }
}

/// The character of one decimal digit.
pub open spec fn dec_digit(n: nat) -> char {
    (('0' as u32) + n as u32) as char
}

/// The characters of a string, as a vector.
pub fn chars_of(s: &str) -> (v: Vec<char>)
    ensures
        v@ == s@,
{
    let len = s.unicode_len();
    let mut v: Vec<char> = Vec::new();
    let mut i: usize = 0;
    proof {
        assert(v@ =~= s@.take(0));
    }
    while i < len
        invariant
            i <= len == s@.len(),
            v@ == s@.take(i as int),
        decreases len - i,
    {
        v.push(s.get_char(i));
        proof {
            assert(v@ =~= s@.take(i + 1));
        }
        i = i + 1;
    }
    proof {
        assert(s@.take(len as int) =~= s@);
    }
    v
}

/// Whether two strings hold the same characters.
pub fn str_eq(a: &str, b: &str) -> (eq: bool)
    ensures
        eq == (a@ == b@),
{
    let a_len = a.unicode_len();
    let b_len = b.unicode_len();
    if a_len != b_len {
        proof {
            assert(a@.len() != b@.len());
        }
        return false;
    }
    let mut j: usize = 0;
    while j < a_len
        invariant
            j <= a_len,
            a_len == a@.len() == b@.len(),
            forall|k: int| 0 <= k < j ==> a@[k] == b@[k],
        decreases a_len - j,
    {
        if a.get_char(j) != b.get_char(j) {
            return false;
        }
        j = j + 1;
    }
    proof {
        assert(a@ =~= b@);
    }
    true
}

/// Whether two characters are equal up to ASCII case.
pub fn char_eq_ci(a: char, b: char) -> (eq: bool)
    ensures
        eq == (lower_char(a) == lower_char(b)),
{
    let la: u32 = if 'A' <= a && a <= 'Z' {
        (a as u32) + 32
    } else {
        a as u32
    };
    let lb: u32 = if 'A' <= b && b <= 'Z' {
        (b as u32) + 32
    } else {
        b as u32
    };
    proof {
        assert(la == lower_char(a) as u32);
        assert(lb == lower_char(b) as u32);
    }
    la == lb
}

/// Whether two character vectors are equal up to ASCII case.
pub fn eq_ci(a: &Vec<char>, b: &Vec<char>) -> (eq: bool)
    ensures
        eq == seq_eq_ci(a@, b@),
{
    let a_len = a.len();
    if a_len != b.len() {
        return false;
    }
    let mut j: usize = 0;
    while j < a_len
        invariant
            j <= a_len,
            a_len == a@.len() == b@.len(),
            forall|k: int| 0 <= k < j ==> lower_char(#[trigger] a@[k]) == lower_char(b@[k]),
        decreases a_len - j,
    {
        if !char_eq_ci(a[j], b[j]) {
            return false;
        }
        j = j + 1;
    }
    true
}

/// Whether the needle occurs at position `i` of the haystack, up to ASCII
/// case.
fn matches_at_ci(hay: &Vec<char>, needle: &Vec<char>, i: usize) -> (found: bool)
    requires
        i + needle@.len() <= hay@.len(),
    ensures
        found == match_at_ci(hay@, needle@, i as int),
{
    let n = needle.len();
    let hay_len = hay.len();
    let mut j: usize = 0;
    while j < n
        invariant
            j <= n == needle@.len(),
            i + n <= hay_len,
            hay_len == hay@.len(),
            n == needle@.len(),
            forall|k: int|
                0 <= k < j ==> lower_char(#[trigger] hay@[i + k]) == lower_char(needle@[k]),
        decreases n - j,
    {
        if !char_eq_ci(hay[i + j], needle[j]) {
            return false;
        }
        j = j + 1;
    }
    true
}

/// Whether the needle occurs anywhere in the haystack, up to ASCII case.
pub fn contains_ci(hay: &Vec<char>, needle: &Vec<char>) -> (found: bool)
    ensures
        found == contains_ci_spec(hay@, needle@),
{
    match find_ci(hay, needle) {
        Some(p) => {
            proof {
                lemma_find_ci_found(hay@, needle@, 0, p as int);
            }
            true
        },
        None => {
            proof {
                lemma_find_ci_none(hay@, needle@, 0);
            }
            false
        },
    }
}

/// The first position where the needle occurs in the haystack, up to ASCII
/// case.
pub fn find_ci(hay: &Vec<char>, needle: &Vec<char>) -> (position: Option<usize>)
    ensures
        match position {
            Some(p) => find_ci_spec(hay@, needle@) == Some(p as int),
            None => find_ci_spec(hay@, needle@) is None,
        },
{
    if needle.len() > hay.len() {
        return None;
    }
    let last = hay.len() - needle.len();
    let mut i: usize = 0;
    while i <= last
        invariant
            i <= last,
            last == hay@.len() - needle@.len(),
            find_ci_from(hay@, needle@, 0) == find_ci_from(hay@, needle@, i as int),
        decreases last - i,
    {
        if matches_at_ci(hay, needle, i) {
            return Some(i);
        }
        proof {
            assert(find_ci_from(hay@, needle@, i as int) == find_ci_from(
                hay@,
                needle@,
                i + 1,
            ));
        }
        if i == last {
            proof {
                assert(find_ci_from(hay@, needle@, last + 1) is None);
            }
            return None;
        }
        i = i + 1;
    }
    None
}

/// Past every candidate position the recursive search finds nothing, so a
/// `None` outcome means the needle occurs nowhere at or after `i`.
proof fn lemma_find_ci_none(hay: Seq<char>, needle: Seq<char>, i: int)
    requires
        find_ci_from(hay, needle, i) is None,
        0 <= i,
    ensures
        forall|p: int| i <= p ==> !match_at_ci(hay, needle, p),
    decreases hay.len() - i + 1,
{
    if i + needle.len() <= hay.len() {
        lemma_find_ci_none(hay, needle, i + 1);
    }
}

/// A found position is a match, and the first one at or after `i`.
pub proof fn lemma_find_ci_found(hay: Seq<char>, needle: Seq<char>, i: int, p: int)
    requires
        0 <= i,
        find_ci_from(hay, needle, i) == Some(p),
    ensures
        match_at_ci(hay, needle, p),
        i <= p,
        forall|q: int| i <= q < p ==> !match_at_ci(hay, needle, q),
    decreases hay.len() - i + 1,
{
    if i + needle.len() <= hay.len() && !match_at_ci(hay, needle, i) {
        lemma_find_ci_found(hay, needle, i + 1, p);
    }
}

/// The whitespace-separated words of the character vector, in order.
pub fn tokenize(v: &Vec<char>) -> (tokens: Vec<Vec<char>>)
    ensures
        views_of(tokens@) == split_ws(v@),
{
    let len = v.len();
    let mut tokens: Vec<Vec<char>> = Vec::new();
    let mut pos: usize = 0;
    proof {
        assert(views_of(tokens@) =~= Seq::<Seq<char>>::empty());
        assert(v@.skip(0) =~= v@);
    }
    while pos < len
        invariant
            pos <= len == v@.len(),
            split_ws(v@) == views_of(tokens@) + split_ws(v@.skip(pos as int)),
        decreases len - pos,
    {
        let c = v[pos];
        if c == ' ' || c == '\t' || c == '\n' || c == '\r' {
            proof {
                assert(v@.skip(pos as int).skip(1) =~= v@.skip(pos + 1));
                assert(split_ws(v@.skip(pos as int)) == split_ws(v@.skip(pos + 1)));
            }
            pos = pos + 1;
        } else {
            let start = pos;
            let mut word: Vec<char> = Vec::new();
            word.push(c);
            pos = pos + 1;
            proof {
                assert(word@ =~= v@.subrange(start as int, pos as int));
            }
            while pos < len && !(v[pos] == ' ' || v[pos] == '\t' || v[pos] == '\n' || v[pos]
                == '\r')
                invariant
                    start < pos <= len == v@.len(),
                    word@ == v@.subrange(start as int, pos as int),
                    forall|k: int| start <= k < pos ==> !is_space(#[trigger] v@[k]),
                decreases len - pos,
            {
                word.push(v[pos]);
                proof {
                    assert(word@ =~= v@.subrange(start as int, pos + 1));
                }
                pos = pos + 1;
            }
            let ghost rest: Seq<char> = v@.skip(start as int);
            let ghost m: int = pos - start;
            proof {
                assert forall|k: int| 0 <= k < m implies !is_space(#[trigger] rest[k]) by {
                    assert(rest[k] == v@[start + k]);
                }
                if m < rest.len() {
                    assert(rest[m] == v@[pos as int]);
                    assert(is_space(v@[pos as int]));
                }
                lemma_word_len_run(rest, m);
                assert(rest.take(m) =~= v@.subrange(start as int, pos as int));
                assert(rest.skip(m) =~= v@.skip(pos as int));
                assert(split_ws(rest) == seq![word@] + split_ws(v@.skip(pos as int)));
                assert(views_of(tokens@.push(word)) =~= views_of(tokens@).push(word@));
                assert(views_of(tokens@).push(word@) + split_ws(v@.skip(pos as int)) =~= views_of(
                    tokens@,
                ) + (seq![word@] + split_ws(v@.skip(pos as int))));
            }
            tokens.push(word);
        }
    }
    proof {
        assert(v@.skip(len as int) =~= Seq::<char>::empty());
        assert(views_of(tokens@) + split_ws(Seq::<char>::empty()) =~= views_of(tokens@));
    }
    tokens
}

/// Appending one digit multiplies the value by ten and adds the digit.
pub proof fn lemma_digits_val_extend(s: Seq<char>, from: int, i: int)
    requires
        0 <= from <= i < s.len(),
    ensures
        digits_val(s.subrange(from, i + 1)) == digits_val(s.subrange(from, i)) * 10 + digit_val(
            s[i],
        ),
{
    assert(s.subrange(from, i + 1).drop_last() =~= s.subrange(from, i));
    assert(s.subrange(from, i + 1).last() == s[i]);
}

/// The value of a digit run is at least the value of any of its prefixes.
pub proof fn lemma_digits_val_prefix_le(s: Seq<char>, from: int, i: int, to: int)
    requires
        0 <= from <= i <= to <= s.len(),
    ensures
        digits_val(s.subrange(from, i)) <= digits_val(s.subrange(from, to)),
    decreases to - i,
{
    if i < to {
        lemma_digits_val_extend(s, from, i);
        lemma_digits_val_prefix_le(s, from, i + 1, to);
    }
}

/// Parses a run of decimal digits as a byte: the digits' value, or nothing
/// when it exceeds a byte.
pub fn parse_u8_digits(v: &Vec<char>, from: usize, to: usize) -> (parsed: Option<u8>)
    requires
        from < to <= v@.len(),
        forall|j: int| from <= j < to ==> is_digit(#[trigger] v@[j]),
    ensures
        match parsed {
            Some(n) => {
                &&& digits_val(v@.subrange(from as int, to as int)) <= 255
                &&& n == digits_val(v@.subrange(from as int, to as int))
            },
            None => digits_val(v@.subrange(from as int, to as int)) > 255,
        },
{
    let mut acc: u32 = 0;
    let mut i: usize = from;
    proof {
        assert(v@.subrange(from as int, from as int) =~= Seq::<char>::empty());
    }
    while i < to
        invariant
            from <= i <= to <= v@.len(),
            forall|j: int| from <= j < to ==> is_digit(#[trigger] v@[j]),
            acc == digits_val(v@.subrange(from as int, i as int)),
            acc <= 255,
        decreases to - i,
    {
        let c = v[i];
        proof {
            assert(is_digit(v@[i as int]));
            lemma_digits_val_extend(v@, from as int, i as int);
        }
        let d: u32 = (c as u32) - 48;
        acc = acc * 10 + d;
        if acc > 255 {
            proof {
                lemma_digits_val_prefix_le(v@, from as int, i + 1, to as int);
            }
            return None;
        }
        i = i + 1;
    }
    Some(acc as u8)
}

/// The digits of a number written with an optional leading `+`.
pub open spec fn sign_stripped(s: Seq<char>) -> Seq<char> {
    if s.len() > 0 && s[0] == '+' {
        s.skip(1)
    } else {
        s
    }
}

/// Every character of the sequence is a decimal digit.
pub open spec fn all_digits(s: Seq<char>) -> bool {
    forall|j: int| 0 <= j < s.len() ==> is_digit(#[trigger] s[j])
}

/// A string parsed as a decimal `u32`, allowing one leading `+`: the
/// digits' value when every remaining character is a digit, there is at
/// least one, and the value fits.
pub open spec fn parse_u32_spec(s: Seq<char>) -> Option<u32> {
    if sign_stripped(s).len() > 0 && all_digits(sign_stripped(s)) && digits_val(sign_stripped(s))
        <= u32::MAX {
        Some(digits_val(sign_stripped(s)) as u32)
    } else {
        None
    }
}

/// Parses a decimal `u32` with an optional leading `+`, refusing any other
/// character, an empty digit run, and values that overflow.
pub fn parse_u32(v: &Vec<char>) -> (parsed: Option<u32>)
    ensures
        parsed == parse_u32_spec(v@),
{
    let from: usize = if v.len() > 0 && v[0] == '+' {
        1
    } else {
        0
    };
    let to = v.len();
    let ghost digits: Seq<char> = if v@.len() > 0 && v@[0] == '+' {
        v@.skip(1)
    } else {
        v@
    };
    proof {
        assert(digits =~= v@.subrange(from as int, to as int));
    }
    if from == to {
        return None;
    }
    let mut acc: u64 = 0;
    let mut i: usize = from;
    proof {
        assert(v@.subrange(from as int, from as int) =~= Seq::<char>::empty());
    }
    while i < to
        invariant
            from <= i <= to == v@.len(),
            from == if v@.len() > 0 && v@[0] == '+' { 1int } else { 0int },
            digits == v@.subrange(from as int, to as int),
            forall|j: int| from <= j < i ==> is_digit(#[trigger] v@[j]),
            acc == digits_val(v@.subrange(from as int, i as int)),
            acc <= u32::MAX,
        decreases to - i,
    {
        proof {
            if v@.len() > 0 && v@[0] == '+' {
                assert(v@.skip(1) =~= v@.subrange(from as int, to as int));
            } else {
                assert(v@ =~= v@.subrange(from as int, to as int));
            }
            assert(sign_stripped(v@) == digits);
        }
        let c = v[i];
        if !(c >= '0' && c <= '9') {
            proof {
                assert(sign_stripped(v@) == digits);
                assert(digits[i - from] == v@[i as int]);
                assert(!is_digit(digits[i - from]));
                assert(!all_digits(digits));
            }
            return None;
        }
        proof {
            lemma_digits_val_extend(v@, from as int, i as int);
        }
        let d: u64 = (c as u64) - 48;
        acc = acc * 10 + d;
        if acc > 0xffffffff {
            proof {
                lemma_digits_val_prefix_le(v@, from as int, i + 1, to as int);
            }
            return None;
        }
        i = i + 1;
    }
    proof {
        if v@.len() > 0 && v@[0] == '+' {
            assert(v@.skip(1) =~= v@.subrange(from as int, to as int));
        } else {
            assert(v@ =~= v@.subrange(from as int, to as int));
        }
        assert(sign_stripped(v@) == digits);
        assert forall|j: int| 0 <= j < digits.len() implies is_digit(#[trigger] digits[j]) by {
            assert(digits[j] == v@[from + j]);
        }
        assert(all_digits(digits));
    }
    Some(acc as u32)
}

/// The first `to` characters of a vector.
pub fn prefix_chars(v: &Vec<char>, to: usize) -> (prefix: Vec<char>)
    requires
        to <= v@.len(),
    ensures
        prefix@ == v@.take(to as int),
{
    let mut prefix: Vec<char> = Vec::new();
    let mut i: usize = 0;
    proof {
        assert(prefix@ =~= v@.take(0));
    }
    while i < to
        invariant
            i <= to <= v@.len(),
            prefix@ == v@.take(i as int),
        decreases to - i,
    {
        prefix.push(v[i]);
        proof {
            assert(prefix@ =~= v@.take(i + 1));
        }
        i = i + 1;
    }
    prefix
}

/// The text of one decimal digit character.
pub fn digit_char_str(c: char) -> (text: &'static str)
    requires
        is_digit(c),
    ensures
        text@ == seq![c],
{
    proof {
        reveal_strlit("0");
        reveal_strlit("1");
        reveal_strlit("2");
        reveal_strlit("3");
        reveal_strlit("4");
        reveal_strlit("5");
        reveal_strlit("6");
        reveal_strlit("7");
        reveal_strlit("8");
        reveal_strlit("9");
    }
    if c == '0' {
        "0"
    } else if c == '1' {
        "1"
    } else if c == '2' {
        "2"
    } else if c == '3' {
        "3"
    } else if c == '4' {
        "4"
    } else if c == '5' {
        "5"
    } else if c == '6' {
        "6"
    } else if c == '7' {
        "7"
    } else if c == '8' {
        "8"
    } else {
        proof {
            assert(seq![c] =~= "9"@);
        }
        "9"
    }
}

/// The text of one digit value.
fn digit_value_str(d: u8) -> (text: &'static str)
    requires
        d < 10,
    ensures
        text@ == seq![dec_digit(d as nat)],
{
    proof {
        reveal_strlit("0");
        reveal_strlit("1");
        reveal_strlit("2");
        reveal_strlit("3");
        reveal_strlit("4");
        reveal_strlit("5");
        reveal_strlit("6");
        reveal_strlit("7");
        reveal_strlit("8");
        reveal_strlit("9");
    }
    if d == 0 {
        "0"
    } else if d == 1 {
        "1"
    } else if d == 2 {
        "2"
    } else if d == 3 {
        "3"
    } else if d == 4 {
        "4"
    } else if d == 5 {
        "5"
    } else if d == 6 {
        "6"
    } else if d == 7 {
        "7"
    } else if d == 8 {
        "8"
    } else {
        "9"
    }
}

/// Appends the decimal rendering of a byte to a string.
pub fn append_u8_dec(out: &mut String, n: u8)
    ensures
        final(out)@ == old(out)@ + dec_str(n as nat),
{
    if n >= 100 {
        out.append(digit_value_str(n / 100));
        out.append(digit_value_str((n / 10) % 10));
        out.append(digit_value_str(n % 10));
        proof {
            assert(dec_str((n / 10) as nat) == dec_str((n / 100) as nat).push(
                dec_digit(((n / 10) % 10) as nat),
            ));
            assert(dec_str(n as nat) == dec_str((n / 10) as nat).push(dec_digit((n % 10) as nat)));
            assert(old(out)@ + seq![dec_digit((n / 100) as nat)] + seq![
                dec_digit(((n / 10) % 10) as nat),
            ] + seq![dec_digit((n % 10) as nat)] =~= old(out)@ + dec_str(n as nat));
        }
    } else if n >= 10 {
        out.append(digit_value_str(n / 10));
        out.append(digit_value_str(n % 10));
        proof {
            assert(dec_str(n as nat) == dec_str((n / 10) as nat).push(dec_digit((n % 10) as nat)));
            assert(old(out)@ + seq![dec_digit((n / 10) as nat)] + seq![dec_digit((n % 10) as nat)]
                =~= old(out)@ + dec_str(n as nat));
        }
    } else {
        out.append(digit_value_str(n));
        proof {
            assert(old(out)@ + seq![dec_digit(n as nat)] =~= old(out)@ + dec_str(n as nat));
        }
    }
}

/// A run of `m` non-space characters at the front, followed by a space or
/// the end, is exactly the leading word.
proof fn lemma_word_len_run(s: Seq<char>, m: int)
    requires
        0 < m <= s.len(),
        forall|k: int| 0 <= k < m ==> !is_space(#[trigger] s[k]),
        m == s.len() || is_space(s[m]),
    ensures
        word_len(s) == m,
    decreases m,
{
    assert(!is_space(s[0]));
    if m > 1 {
        assert forall|k: int| 0 <= k < m - 1 implies !is_space(#[trigger] s.skip(1)[k]) by {
            assert(s.skip(1)[k] == s[k + 1]);
        }
        if m < s.len() {
            assert(s.skip(1)[m - 1] == s[m]);
        }
        lemma_word_len_run(s.skip(1), m - 1);
    } else {
        if s.len() > 1 {
            assert(s.skip(1)[0] == s[1]);
            assert(is_space(s.skip(1)[0]));
            assert(word_len(s.skip(1)) == 0);
        } else {
            assert(s.skip(1).len() == 0);
            assert(word_len(s.skip(1)) == 0);
        }
    }
}

} // verus!
