//! Event type validation. An event type names an analytics event as
//! `namespace.event`: ASCII letters on both sides of exactly one dot.
//! The checker reports a distinct reason for each way a string can fail,
//! in the order the string is scanned.

use vstd::prelude::*;

use crate::errors::ValidationError;

verus! {

/// An ASCII letter, `A`-`Z` or `a`-`z`.
pub open spec fn is_ascii_letter(c: char) -> bool {
    ('a' <= c && c <= 'z') || ('A' <= c && c <= 'Z')
}

/// The string consists of letters with a single dot at position `i`.
pub open spec fn letters_with_dot_at(s: Seq<char>, i: int) -> bool {
    &&& 0 <= i < s.len()
    &&& s[i] == '.'
    &&& forall|j: int| 0 <= j < s.len() && j != i ==> is_ascii_letter(#[trigger] s[j])
}

/// A valid event type: one dot, neither first nor last, ASCII letters
/// everywhere else. Exactly the strings matching `^[A-Za-z]+\.[A-Za-z]+$`.
pub open spec fn is_valid_event_type(s: Seq<char>) -> bool {
    exists|i: int| letters_with_dot_at(s, i) && 0 < i < s.len() - 1
}

/// Scanning left to right, the first offending character sits at `i` and is
/// not a dot: everything before it is a letter or the single first dot.
pub open spec fn bad_character_first(s: Seq<char>, i: int) -> bool {
    &&& 0 <= i < s.len()
    &&& !is_ascii_letter(s[i])
    &&& s[i] != '.'
    &&& forall|j: int| 0 <= j < i ==> is_ascii_letter(#[trigger] s[j]) || s[j] == '.'
    &&& forall|j1: int, j2: int|
        0 <= j1 < j2 < i ==> !(#[trigger] s[j1] == '.' && #[trigger] s[j2] == '.')
}

/// Scanning left to right, a second dot is reached (at `i2`) before any
/// other offending character.
pub open spec fn second_dot_first(s: Seq<char>, i1: int, i2: int) -> bool {
    &&& 0 <= i1 < i2 < s.len()
    &&& s[i1] == '.'
    &&& s[i2] == '.'
    &&& forall|j: int| 0 <= j < i2 && j != i1 ==> is_ascii_letter(#[trigger] s[j])
}

/// Checks that an event type string has the form `namespace.event`.
///
/// The rules, applied in order: the string must be at least three characters;
/// every character must be an ASCII letter or a dot, with at most one dot;
/// there must be a dot; and the dot may be neither the first nor the last
/// character. Each clause below pins down exactly which error each input
/// yields; in particular success happens precisely on the strings matching
/// `^[A-Za-z]+\.[A-Za-z]+$`.
pub fn validate_event_type(s: &str) -> (r: Result<(), ValidationError>)
    ensures
        r is Ok <==> is_valid_event_type(s@),
        r == Err::<(), ValidationError>(ValidationError::TooShort) <==> s@.len() < 3,
        r == Err::<(), ValidationError>(ValidationError::BadCharacter) <==> (s@.len() >= 3
            && exists|i: int| bad_character_first(s@, i)),
        r == Err::<(), ValidationError>(ValidationError::MultipleDots) <==> (s@.len() >= 3
            && exists|i1: int, i2: int| second_dot_first(s@, i1, i2)),
        r == Err::<(), ValidationError>(ValidationError::MissingDot) <==> (s@.len() >= 3
            && forall|j: int| 0 <= j < s@.len() ==> is_ascii_letter(#[trigger] s@[j])),
        r == Err::<(), ValidationError>(ValidationError::DotAtEdge) <==> (s@.len() >= 3
            && exists|i: int| letters_with_dot_at(s@, i) && (i == 0 || i == s@.len() - 1)),
{
    let len = s.unicode_len();
    if len < 3 {
        return Err(ValidationError::TooShort);
    }

    let mut dot_index: Option<usize> = None;
    let mut i: usize = 0;

    while i < len
        invariant
            len == s@.len(),
            3 <= len,
            i <= len,
            match dot_index {
                None => forall|j: int| 0 <= j < i ==> is_ascii_letter(#[trigger] s@[j]),
                Some(d) => {
                    &&& d < i
                    &&& s@[d as int] == '.'
                    &&& forall|j: int|
                        0 <= j < i && j != d ==> is_ascii_letter(#[trigger] s@[j])
                },
            },
        decreases len - i,
    {
        let c = s.get_char(i);
        if ('a' <= c && c <= 'z') || ('A' <= c && c <= 'Z') {
            // an ordinary letter
        } else if c == '.' {
            match dot_index {
                Some(d) => {
                    proof {
                        lemma_outcome_second_dot(s@, d as int, i as int);
                    }
                    return Err(ValidationError::MultipleDots);
                },
                None => {
                    dot_index = Some(i);
                },
            }
        } else {
            proof {
                lemma_outcome_bad_character(s@, dot_index, i as int);
            }
            return Err(ValidationError::BadCharacter);
        }
        i = i + 1;
    }

    match dot_index {
        None => {
            proof {
                lemma_outcome_all_letters(s@);
            }
            Err(ValidationError::MissingDot)
        },
        Some(d) => {
            proof {
                lemma_outcome_single_dot(s@, d as int);
            }
            if d == 0 || d == len - 1 {
                Err(ValidationError::DotAtEdge)
            } else {
                Ok(())
            }
        },
    }
}

/// The scan hit a character that is neither a letter nor a dot, with a clean
/// prefix behind it: the string has a first bad character and none of the
/// other outcomes.
proof fn lemma_outcome_bad_character(s: Seq<char>, dot_index: Option<usize>, i: int)
    requires
        0 <= i < s.len(),
        !is_ascii_letter(s[i]),
        s[i] != '.',
        match dot_index {
            None => forall|j: int| 0 <= j < i ==> is_ascii_letter(#[trigger] s[j]),
            Some(d) => {
                &&& d < i
                &&& s[d as int] == '.'
                &&& forall|j: int| 0 <= j < i && j != d ==> is_ascii_letter(#[trigger] s[j])
            },
        },
    ensures
        bad_character_first(s, i),
        !is_valid_event_type(s),
        !(exists|i1: int, i2: int| second_dot_first(s, i1, i2)),
        !(forall|j: int| 0 <= j < s.len() ==> is_ascii_letter(#[trigger] s[j])),
        !(exists|k: int| letters_with_dot_at(s, k) && (k == 0 || k == s.len() - 1)),
{
    assert(bad_character_first(s, i));
    assert forall|k: int| !letters_with_dot_at(s, k) by {
        if letters_with_dot_at(s, k) {
            if k == i {
                assert(s[i] == '.');
            } else {
                assert(is_ascii_letter(s[i]));
            }
        }
    }
    assert forall|i1: int, i2: int| !second_dot_first(s, i1, i2) by {
        if second_dot_first(s, i1, i2) {
            if i < i2 && i != i1 {
                assert(is_ascii_letter(s[i]));
            } else if i == i1 || i == i2 {
                assert(s[i] == '.');
            } else {
                // i2 <= i: both dots lie in the scanned prefix
                assert(s[i2] == '.' && !is_ascii_letter(s[i2]));
                assert(s[i1] == '.' && !is_ascii_letter(s[i1]));
                match dot_index {
                    None => {
                        assert(is_ascii_letter(s[i2]));
                    },
                    Some(d) => {
                        assert(i1 == d && i2 == d);
                    },
                }
            }
        }
    }
}

/// The scan hit a second dot with a clean prefix behind it: the string has a
/// second-dot-first witness and none of the other outcomes.
proof fn lemma_outcome_second_dot(s: Seq<char>, d: int, i: int)
    requires
        0 <= d < i < s.len(),
        s[d] == '.',
        s[i] == '.',
        forall|j: int| 0 <= j < i && j != d ==> is_ascii_letter(#[trigger] s[j]),
    ensures
        second_dot_first(s, d, i),
        !is_valid_event_type(s),
        !(exists|k: int| bad_character_first(s, k)),
        !(forall|j: int| 0 <= j < s.len() ==> is_ascii_letter(#[trigger] s[j])),
        !(exists|k: int| letters_with_dot_at(s, k) && (k == 0 || k == s.len() - 1)),
{
    assert(second_dot_first(s, d, i));
    assert(!is_ascii_letter(s[d]));
    assert forall|k: int| !letters_with_dot_at(s, k) by {
        if letters_with_dot_at(s, k) {
            if k != d {
                assert(is_ascii_letter(s[d]));
            } else {
                assert(is_ascii_letter(s[i]));
            }
        }
    }
    assert forall|k: int| !bad_character_first(s, k) by {
        if bad_character_first(s, k) {
            if k < i && k != d {
                assert(is_ascii_letter(s[k]));
            } else if k == d || k == i {
                assert(s[k] == '.');
            } else {
                // k > i: two dots precede k, contradicting its clean prefix
                assert(s[d] == '.' && s[i] == '.' && d < i < k);
            }
        }
    }
}

/// The scan ran through without finding a dot: every character is a letter
/// and none of the other outcomes holds.
proof fn lemma_outcome_all_letters(s: Seq<char>)
    requires
        forall|j: int| 0 <= j < s.len() ==> is_ascii_letter(#[trigger] s[j]),
    ensures
        !is_valid_event_type(s),
        !(exists|k: int| bad_character_first(s, k)),
        !(exists|i1: int, i2: int| second_dot_first(s, i1, i2)),
        !(exists|k: int| letters_with_dot_at(s, k) && (k == 0 || k == s.len() - 1)),
{
    assert forall|k: int| !letters_with_dot_at(s, k) by {
        if letters_with_dot_at(s, k) {
            assert(is_ascii_letter(s[k]));
        }
    }
    assert forall|i1: int, i2: int| !second_dot_first(s, i1, i2) by {
        if second_dot_first(s, i1, i2) {
            assert(is_ascii_letter(s[i1]));
        }
    }
    assert forall|k: int| !bad_character_first(s, k) by {
        if bad_character_first(s, k) {
            assert(is_ascii_letter(s[k]));
        }
    }
}

/// The scan ran through and found exactly one dot, at `d`: the string is
/// letters with one dot there, and the outcome is decided by whether `d`
/// is at an edge.
proof fn lemma_outcome_single_dot(s: Seq<char>, d: int)
    requires
        0 <= d < s.len(),
        s[d] == '.',
        forall|j: int| 0 <= j < s.len() && j != d ==> is_ascii_letter(#[trigger] s[j]),
    ensures
        letters_with_dot_at(s, d),
        0 < d < s.len() - 1 ==> is_valid_event_type(s),
        (d == 0 || d == s.len() - 1) ==> !is_valid_event_type(s),
        (d == 0 || d == s.len() - 1) ==> (exists|k: int|
            letters_with_dot_at(s, k) && (k == 0 || k == s.len() - 1)),
        0 < d < s.len() - 1 ==> !(exists|k: int|
            letters_with_dot_at(s, k) && (k == 0 || k == s.len() - 1)),
        !(exists|k: int| bad_character_first(s, k)),
        !(exists|i1: int, i2: int| second_dot_first(s, i1, i2)),
        !(forall|j: int| 0 <= j < s.len() ==> is_ascii_letter(#[trigger] s[j])),

{
    assert(letters_with_dot_at(s, d));
    assert(!is_ascii_letter(s[d]));
    assert forall|k: int| letters_with_dot_at(s, k) implies k == d by {
        if letters_with_dot_at(s, k) && k != d {
            assert(is_ascii_letter(s[d]));
        }
    }
    assert forall|k: int| !bad_character_first(s, k) by {
        if bad_character_first(s, k) {
            if k == d {
                assert(s[k] == '.');
            } else {
                assert(is_ascii_letter(s[k]));
            }
        }
    }
    assert forall|i1: int, i2: int| !second_dot_first(s, i1, i2) by {
        if second_dot_first(s, i1, i2) {
            if i1 != d {
                assert(is_ascii_letter(s[i1]));
            } else {
                assert(is_ascii_letter(s[i2]));
            }
        }
    }
    if 0 < d < s.len() - 1 {
        assert(is_valid_event_type(s));
    }
}

/// Accepts an event type that is statically known to be well-formed and
/// hands it back unchanged. The caller must have established validity, as a
/// build-time lint for literal event types would; malformed inputs are ruled
/// out instead of panicking.
pub fn validate_event_type_compile_time(s: &str) -> (r: &str)
    requires
        is_valid_event_type(s@),
    ensures
        r@ == s@,
{
    s
}

} // verus!
