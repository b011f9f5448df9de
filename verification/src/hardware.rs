//! Privacy-safe hardware descriptors: core counts and RAM sizes bucketed
//! into coarse ranges, and CPU model strings coarsened into general
//! categories. Intended for analytics and diagnostics, not fingerprinting.

use vstd::prelude::*;

use crate::strings::chars_of;
use crate::strings::contains_ci;
use crate::strings::contains_ci_spec;
use crate::strings::dec_str;
use crate::strings::digit_char_str;
use crate::strings::digit_val;
use crate::strings::eq_ci;
use crate::strings::find_ci;
use crate::strings::find_ci_spec;
use crate::strings::digits_val;
use crate::strings::is_digit;
use crate::strings::lemma_find_ci_found;
use crate::strings::parse_u8_digits;
use crate::strings::run_start;
use crate::strings::seq_eq_ci;
use crate::strings::split_ws;
use crate::strings::tokenize;
use crate::strings::views_of;
use crate::strings::append_u8_dec;

verus! {

/// The coarse bucket of a CPU core count.
pub open spec fn bucket_cores_spec(n: u32) -> Seq<char> {
    if n <= 2 {
        "1-2"@
    } else if n <= 4 {
        "3-4"@
    } else if n <= 8 {
        "6-8"@
    } else {
        ">8"@
    }
}

/// Buckets a CPU core count into a coarse range.
pub fn bucket_cores(n: u32) -> (label: &'static str)
    ensures
        label@ == bucket_cores_spec(n),
{
    if n <= 2 {
        "1-2"
    } else if n <= 4 {
        "3-4"
    } else if n <= 8 {
        "6-8"
    } else {
        ">8"
    }
}

/// The coarse bucket of a RAM size in GB.
pub open spec fn bucket_ram_gb_spec(gb: u32) -> Seq<char> {
    if gb <= 4 {
        "<=4"@
    } else if gb <= 8 {
        "6-8"@
    } else if gb <= 16 {
        "12-16"@
    } else {
        ">16"@
    }
}

/// Buckets a RAM size in GB into a coarse range.
pub fn bucket_ram_gb(gb: u32) -> (label: &'static str)
    ensures
        label@ == bucket_ram_gb_spec(gb),
{
    if gb <= 4 {
        "<=4"
    } else if gb <= 8 {
        "6-8"
    } else if gb <= 16 {
        "12-16"
    } else {
        ">16"
    }
}

/// The single digit right after the first `i7-`, when there is one: the
/// fallback source of an Intel generation number.
pub open spec fn i7_model_digit_spec(name: Seq<char>) -> Option<u8> {
    match find_ci_spec(name, "i7-"@) {
        Some(p) => {
            if p + 3 < name.len() && is_digit(name[p + 3]) {
                Some(digit_val(name[p + 3]) as u8)
            } else {
                None
            }
        },
        None => None,
    }
}

/// The Intel generation number read from a CPU model string: the digit run
/// right before the first `th gen`, when there is one and its value fits in
/// a byte; otherwise the single digit after `i7-`, when there is one.
pub open spec fn extract_generation_spec(name: Seq<char>) -> Option<u8> {
    match find_ci_spec(name, "th gen"@) {
        Some(p) => {
            if run_start(name, p) < p {
                if digits_val(name.subrange(run_start(name, p), p)) <= 255 {
                    Some(digits_val(name.subrange(run_start(name, p), p)) as u8)
                } else {
                    None
                }
            } else {
                i7_model_digit_spec(name)
            }
        },
        None => i7_model_digit_spec(name),
    }
}

/// The label of a generation-qualified Intel family: the prefix followed by
/// `<n>th Gen` when a generation number can be read, the bare prefix
/// otherwise.
pub open spec fn generation_label_spec(prefix: Seq<char>, name: Seq<char>) -> Seq<char> {
    match extract_generation_spec(name) {
        Some(g) => prefix + " "@ + dec_str(g as nat) + "th Gen"@,
        None => prefix,
    }
}

/// The first digit of the Ryzen model number: scanning the words, the first
/// word `ryzen` followed two words later by one starting with a digit gives
/// that digit.
pub open spec fn ryzen_scan(parts: Seq<Seq<char>>, i: int) -> Option<char>
    decreases parts.len() - i + 1,
{
    if i < 0 || i >= parts.len() {
        None
    } else if seq_eq_ci(parts[i], "ryzen"@) && i + 2 < parts.len() && parts[i + 2].len() > 0
        && is_digit(parts[i + 2][0]) {
        Some(parts[i + 2][0])
    } else {
        ryzen_scan(parts, i + 1)
    }
}

/// The Ryzen series read from a CPU model string: the first digit of the
/// model number, followed by `000` (`ryzen 7 5800x` gives `5000`).
pub open spec fn ryzen_gen_spec(name: Seq<char>) -> Option<Seq<char>> {
    match ryzen_scan(split_ws(name), 0) {
        Some(c) => Some(seq![c] + "000"@),
        None => None,
    }
}

/// The Intel family label of a CPU model string that mentions Intel.
pub open spec fn intel_family_spec(name: Seq<char>) -> Seq<char> {
    if contains_ci_spec(name, "celeron"@) {
        "Intel Celeron"@
    } else if contains_ci_spec(name, "pentium"@) {
        "Intel Pentium"@
    } else if contains_ci_spec(name, "xeon"@) {
        "Intel Xeon"@
    } else if contains_ci_spec(name, "atom"@) {
        "Intel Atom"@
    } else if contains_ci_spec(name, "core"@) {
        if contains_ci_spec(name, "i3"@) {
            generation_label_spec("Intel i3"@, name)
        } else if contains_ci_spec(name, "i5"@) {
            generation_label_spec("Intel i5"@, name)
        } else if contains_ci_spec(name, "i7"@) {
            generation_label_spec("Intel i7"@, name)
        } else if contains_ci_spec(name, "i9"@) {
            generation_label_spec("Intel i9"@, name)
        } else {
            "Intel Core (Other)"@
        }
    } else {
        "Intel (Other)"@
    }
}

/// The AMD family label of a CPU model string that mentions AMD.
pub open spec fn amd_family_spec(name: Seq<char>) -> Seq<char> {
    if contains_ci_spec(name, "ryzen"@) {
        if contains_ci_spec(name, "threadripper"@) {
            "AMD Ryzen Threadripper"@
        } else {
            match ryzen_gen_spec(name) {
                Some(g) => "AMD Ryzen "@ + g + " Series"@,
                None => "AMD Ryzen"@,
            }
        }
    } else if contains_ci_spec(name, "epyc"@) {
        "AMD EPYC"@
    } else if contains_ci_spec(name, "athlon"@) {
        "AMD Athlon"@
    } else {
        "AMD (Other)"@
    }
}

/// The privacy-safe category of a CPU model string: Apple Silicon first,
/// then Intel and AMD families (with a generation or series where one can
/// be read), then generic ARM; anything else has no category.
pub open spec fn cpu_family_spec(raw: Seq<char>) -> Option<Seq<char>> {
    if contains_ci_spec(raw, "apple m1"@) {
        Some("Apple M1"@)
    } else if contains_ci_spec(raw, "apple m2"@) {
        Some("Apple M2"@)
    } else if contains_ci_spec(raw, "apple m3"@) {
        Some("Apple M3"@)
    } else if contains_ci_spec(raw, "intel"@) {
        Some(intel_family_spec(raw))
    } else if contains_ci_spec(raw, "amd"@) {
        Some(amd_family_spec(raw))
    } else if contains_ci_spec(raw, "arm"@) || contains_ci_spec(raw, "cortex"@) {
        Some("ARM (Generic)"@)
    } else {
        None
    }
}

/// Whether a character is a decimal digit.
fn char_is_digit(c: char) -> (digit: bool)
    ensures
        digit == is_digit(c),
{
    c >= '0' && c <= '9'
}

/// Reads the single digit after the first `i7-`, the fallback source of an
/// Intel generation number.
fn i7_model_digit(chars: &Vec<char>) -> (generation: Option<u8>)
    ensures
        generation == i7_model_digit_spec(chars@),
{
    let needle = chars_of("i7-");
    match find_ci(chars, &needle) {
        Some(p) => {
            proof {
                reveal_strlit("i7-");
                lemma_find_ci_found(chars@, needle@, 0, p as int);
            }
            let n = chars.len();
            if p + 3 < n {
                let c = chars[p + 3];
                if c >= '0' && c <= '9' {
                    Some(((c as u32) - 48) as u8)
                } else {
                    None
                }
            } else {
                None
            }
        },
        None => None,
    }
}

/// Extracts an Intel generation number from a CPU model string, like the
/// `11` of `11th Gen Intel Core i7-11850H`: the digits right before
/// `th gen`, or failing that the digit after `i7-`.
pub fn extract_generation(name: &str) -> (generation: Option<u8>)
    ensures
        generation == extract_generation_spec(name@),
{
    let chars = chars_of(name);
    let needle = chars_of("th gen");
    match find_ci(&chars, &needle) {
        Some(p) => {
            proof {
                reveal_strlit("th gen");
                lemma_find_ci_found(chars@, needle@, 0, p as int);
            }
            let mut k: usize = p;
            while k > 0 && char_is_digit(chars[k - 1])
                invariant
                    k <= p <= chars@.len(),
                    run_start(chars@, p as int) == run_start(chars@, k as int),
                    forall|j: int| k <= j < p ==> is_digit(#[trigger] chars@[j]),
                decreases k,
            {
                k = k - 1;
            }
            proof {
                assert(run_start(chars@, k as int) == k as int);
            }
            if k < p {
                parse_u8_digits(&chars, k, p)
            } else {
                i7_model_digit(&chars)
            }
        },
        None => i7_model_digit(&chars),
    }
}

/// Extracts the Ryzen series from a CPU model string, like the `5000` of
/// `AMD Ryzen 7 5800X`.
pub fn extract_ryzen_gen(name: &str) -> (series: Option<String>)
    ensures
        match series {
            Some(s) => ryzen_gen_spec(name@) == Some(s@),
            None => ryzen_gen_spec(name@) is None,
        },
{
    let chars = chars_of(name);
    let tokens = tokenize(&chars);
    let ryzen = chars_of("ryzen");
    let ghost parts: Seq<Seq<char>> = views_of(tokens@);
    let len = tokens.len();
    let mut i: usize = 0;
    proof {
        assert(parts.len() == tokens@.len());
    }
    while i < len
        invariant
            i <= len,
            len == tokens@.len(),
            parts == views_of(tokens@),
            parts == split_ws(name@),
            parts.len() == len,
            ryzen@ == "ryzen"@,
            ryzen_scan(parts, 0) == ryzen_scan(parts, i as int),
        decreases len - i,
    {
        proof {
            assert(parts[i as int] == tokens@[i as int]@);
        }
        if eq_ci(&tokens[i], &ryzen) && len - i > 2 {
            let third = &tokens[i + 2];
            proof {
                assert(parts[i + 2] == tokens@[i + 2]@);
            }
            if third.len() > 0 {
                let c = third[0];
                if c >= '0' && c <= '9' {
                    let mut series = String::from_str(digit_char_str(c));
                    series.append("000");
                    proof {
                        assert(ryzen_scan(parts, i as int) == Some(c));
                        assert(series@ =~= seq![c] + "000"@);
                    }
                    return Some(series);
                }
            }
        }
        proof {
            assert(ryzen_scan(parts, i as int) == ryzen_scan(parts, i + 1));
        }
        i = i + 1;
    }
    proof {
        assert(ryzen_scan(parts, len as int) is None);
    }
    None
}

/// Builds the label of a generation-qualified Intel family: the prefix,
/// plus `<n>th Gen` when a generation number can be read from the model
/// string.
pub fn generation_label(prefix: &str, name: &str) -> (label: String)
    ensures
        label@ == generation_label_spec(prefix@, name@),
{
    match extract_generation(name) {
        Some(g) => {
            let mut label = String::from_str(prefix);
            label.append(" ");
            append_u8_dec(&mut label, g);
            label.append("th Gen");
            label
        },
        None => String::from_str(prefix),
    }
}

/// Coarsens a CPU model string into a privacy-safe, general category:
/// `11th Gen Intel(R) Core(TM) i7-11850H` becomes `Intel i7 11th Gen`,
/// `AMD Ryzen 7 5800X3D` becomes `AMD Ryzen 5000 Series`, `Apple M2 Pro`
/// becomes `Apple M2`. A model that fits no known family has no category.
pub fn coarsen_cpu_name(cpu_raw: &str) -> (family: Option<String>)
    ensures
        match family {
            Some(f) => cpu_family_spec(cpu_raw@) == Some(f@),
            None => cpu_family_spec(cpu_raw@) is None,
        },
{
    let chars = chars_of(cpu_raw);
    if contains_ci(&chars, &chars_of("apple m1")) {
        Some(String::from_str("Apple M1"))
    } else if contains_ci(&chars, &chars_of("apple m2")) {
        Some(String::from_str("Apple M2"))
    } else if contains_ci(&chars, &chars_of("apple m3")) {
        Some(String::from_str("Apple M3"))
    } else if contains_ci(&chars, &chars_of("intel")) {
        Some(intel_family(cpu_raw, &chars))
    } else if contains_ci(&chars, &chars_of("amd")) {
        Some(amd_family(cpu_raw, &chars))
    } else if contains_ci(&chars, &chars_of("arm")) || contains_ci(&chars, &chars_of("cortex")) {
        Some(String::from_str("ARM (Generic)"))
    } else {
        None
    }
}

/// The Intel branch of [`coarsen_cpu_name`].
fn intel_family(cpu_raw: &str, chars: &Vec<char>) -> (label: String)
    requires
        chars@ == cpu_raw@,
    ensures
        label@ == intel_family_spec(cpu_raw@),
{
    if contains_ci(chars, &chars_of("celeron")) {
        String::from_str("Intel Celeron")
    } else if contains_ci(chars, &chars_of("pentium")) {
        String::from_str("Intel Pentium")
    } else if contains_ci(chars, &chars_of("xeon")) {
        String::from_str("Intel Xeon")
    } else if contains_ci(chars, &chars_of("atom")) {
        String::from_str("Intel Atom")
    } else if contains_ci(chars, &chars_of("core")) {
        if contains_ci(chars, &chars_of("i3")) {
            generation_label("Intel i3", cpu_raw)
        } else if contains_ci(chars, &chars_of("i5")) {
            generation_label("Intel i5", cpu_raw)
        } else if contains_ci(chars, &chars_of("i7")) {
            generation_label("Intel i7", cpu_raw)
        } else if contains_ci(chars, &chars_of("i9")) {
            generation_label("Intel i9", cpu_raw)
        } else {
            String::from_str("Intel Core (Other)")
        }
    } else {
        String::from_str("Intel (Other)")
    }
}

/// The AMD branch of [`coarsen_cpu_name`].
fn amd_family(cpu_raw: &str, chars: &Vec<char>) -> (label: String)
    requires
        chars@ == cpu_raw@,
    ensures
        label@ == amd_family_spec(cpu_raw@),
{
    if contains_ci(chars, &chars_of("ryzen")) {
        if contains_ci(chars, &chars_of("threadripper")) {
            String::from_str("AMD Ryzen Threadripper")
        } else {
            match extract_ryzen_gen(cpu_raw) {
                Some(series) => {
                    let mut label = String::from_str("AMD Ryzen ");
                    label.append(series.as_str());
                    label.append(" Series");
                    label
                },
                None => String::from_str("AMD Ryzen"),
            }
        }
    } else if contains_ci(chars, &chars_of("epyc")) {
        String::from_str("AMD EPYC")
    } else if contains_ci(chars, &chars_of("athlon")) {
        String::from_str("AMD Athlon")
    } else {
        String::from_str("AMD (Other)")
    }
}

} // verus!
