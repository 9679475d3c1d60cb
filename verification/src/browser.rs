//! The screenshot browser's settings, and the decision logic of locating a
//! usable browser: parsing the major version out of the version banner.
//! Launching the browser and running its binary happen outside the library.

use crate::text::to_chars;
use vstd::prelude::*;

verus! {

/// A decimal digit.
pub open spec fn is_digit(c: char) -> bool {
    48 <= c as u32 <= 57
}

/// The value of one decimal digit.
pub open spec fn digit_val(c: char) -> int {
    c as u32 - 48
}

/// The position just past the maximal digit run starting at `i`.
pub open spec fn digit_run_end(s: Seq<char>, i: int) -> int
    decreases s.len() - i when 0 <= i <= s.len()
{
    if i >= s.len() {
        i
    } else if !is_digit(s[i]) {
        i
    } else {
        digit_run_end(s, i + 1)
    }
}

/// The value of the digit run `s[i..r]`, most significant digit first.
pub open spec fn digits_value(s: Seq<char>, i: int, r: int) -> int
    decreases r - i,
{
    if i >= r {
        0
    } else {
        digits_value(s, i, r - 1) * 10 + digit_val(s[r - 1])
    }
}

/// A dotted version number starts at `i`: a nonempty digit run whose
/// maximal extent is followed by a dot and another digit.
pub open spec fn version_match_at(s: Seq<char>, i: int) -> bool {
    let e = digit_run_end(s, i);
    &&& 0 <= i < s.len()
    &&& is_digit(s[i])
    &&& e + 1 < s.len()
    &&& s[e] == '.'
    &&& is_digit(s[e + 1])
}

/// The major version read from the first dotted version number at or after
/// position `i`: the value of its leading digit run.
pub open spec fn major_version_from(s: Seq<char>, i: int) -> Option<int>
    decreases s.len() - i when 0 <= i <= s.len()
{
    if i >= s.len() {
        Option::None
    } else if version_match_at(s, i) {
        Option::Some(digits_value(s, i, digit_run_end(s, i)))
    } else {
        major_version_from(s, i + 1)
    }
}

/// The major version in a version banner: the leading digit run of the
/// leftmost dotted version number.
pub open spec fn major_version(s: Seq<char>) -> Option<int> {
    major_version_from(s, 0)
}

/// A banner names a supported browser: its major version parses into the
/// machine's range and is at least 60.
pub open spec fn version_supported_spec(s: Seq<char>) -> bool {
    match major_version(s) {
        Option::Some(m) => m <= u32::MAX && m >= 60,
        Option::None => false,
    }
}

/// The digit run end lies between `i` and the end of the text.
proof fn lemma_run_end_bounds(s: Seq<char>, i: int)
    requires
        0 <= i <= s.len(),
    ensures
        i <= digit_run_end(s, i) <= s.len(),
    decreases s.len() - i,
{
    if i < s.len() && is_digit(s[i]) {
        lemma_run_end_bounds(s, i + 1);
    }
}

/// Every character of the digit run is a digit.
proof fn lemma_run_all_digits(s: Seq<char>, i: int)
    requires
        0 <= i <= s.len(),
    ensures
        forall|k: int| i <= k < digit_run_end(s, i) ==> is_digit(s[k]),
    decreases s.len() - i,
{
    if i < s.len() && is_digit(s[i]) {
        lemma_run_all_digits(s, i + 1);
        lemma_run_end_bounds(s, i + 1);
    }
}

/// The value of a digit run is never negative.
proof fn lemma_digits_value_nonneg(s: Seq<char>, i: int, k: int)
    requires
        i <= k,
        forall|m: int| i <= m < k ==> 0 <= #[trigger] digit_val(s[m]) <= 9,
    ensures
        digits_value(s, i, k) >= 0,
    decreases k - i,
{
    if i < k {
        lemma_digits_value_nonneg(s, i, k - 1);
        assert(digits_value(s, i, k) == digits_value(s, i, k - 1) * 10 + digit_val(s[k - 1]));
    }
}

/// A run of digits only grows in value as it extends.
proof fn lemma_digits_value_grows(s: Seq<char>, i: int, k: int, r: int)
    requires
        i <= k <= r,
        forall|m: int| i <= m < r ==> 0 <= #[trigger] digit_val(s[m]) <= 9,
    ensures
        0 <= digits_value(s, i, k) <= digits_value(s, i, r),
    decreases r - k,
{
    lemma_digits_value_nonneg(s, i, k);
    if k < r {
        lemma_digits_value_grows(s, i, k, r - 1);
        lemma_digits_value_nonneg(s, i, r - 1);
        assert(digits_value(s, i, r) == digits_value(s, i, r - 1) * 10 + digit_val(s[r - 1]));
    }
}

/// Is a character a decimal digit.
fn is_ascii_digit(c: char) -> (r: bool)
    ensures
        r == is_digit(c),
{
    let u: u32 = c as u32;
    48 <= u && u <= 57
}

/// The major version named in a version banner, when one parses: the
/// leading digit run of the leftmost dotted version number, if its value
/// fits the machine's range.
pub fn major_version_of(banner: &str) -> (r: Option<u32>)
    ensures
        r == (match major_version(banner@) {
            Option::Some(m) => if m <= u32::MAX {
                Option::Some(m as u32)
            } else {
                Option::<u32>::None
            },
            Option::None => Option::<u32>::None,
        }),
        major_version(banner@) matches Some(m) ==> m >= 0,
{
    let v: Vec<char> = to_chars(banner);
    let len: usize = v.len();
    let mut i: usize = 0;
    while i < len
        invariant
            i <= len,
            len == v@.len(),
            v@ == banner@,
            major_version(banner@) == major_version_from(banner@, i as int),
        decreases len - i,
    {
        if is_ascii_digit(v[i]) {
            // Scan to the end of the digit run.
            let mut e: usize = i;
            while e < len && is_ascii_digit(v[e])
                invariant
                    i <= e <= len,
                    len == v@.len(),
                    v@ == banner@,
                    digit_run_end(banner@, i as int) == digit_run_end(banner@, e as int),
                decreases len - e,
            {
                assert(digit_run_end(banner@, e as int) == digit_run_end(banner@, e + 1));
                e = e + 1;
            }
            assert(digit_run_end(banner@, i as int) == e as int);
            if e < len && v[e] == '.' && e + 1 < len && is_ascii_digit(v[e + 1]) {
                assert(version_match_at(banner@, i as int));
                proof {
                    lemma_run_all_digits(banner@, i as int);
                }
                assert(major_version_from(banner@, i as int) == Option::Some(
                    digits_value(banner@, i as int, e as int),
                ));
                // Accumulate the leading run's value, bailing out once it
                // can no longer fit.
                let mut acc: u64 = 0;
                let mut k: usize = i;
                while k < e
                    invariant
                        i <= k <= e,
                        e <= len,
                        len == v@.len(),
                        v@ == banner@,
                        forall|m: int| i <= m < e ==> is_digit(banner@[m]),
                        major_version(banner@) == Option::Some(
                            digits_value(banner@, i as int, e as int),
                        ),
                        acc <= u32::MAX,
                        acc == digits_value(banner@, i as int, k as int),
                    decreases e - k,
                {
                    assert(is_digit(banner@[k as int]));
                    let d: u32 = (v[k] as u32) - 48;
                    acc = acc * 10 + (d as u64);
                    assert(acc == digits_value(banner@, i as int, k + 1));
                    k = k + 1;
                    if acc > u32::MAX as u64 {
                        proof {
                            assert(forall|m: int|
                                i <= m < e ==> 0 <= #[trigger] digit_val(banner@[m]) <= 9);
                            lemma_digits_value_grows(banner@, i as int, k as int, e as int);
                        }
                        return None;
                    }
                }
                return Some(acc as u32);
            } else {
                assert(!version_match_at(banner@, i as int));
            }
        } else {
            assert(!version_match_at(banner@, i as int));
        }
        i = i + 1;
    }
    None
}

/// Whether a version banner names a supported browser (major version 60 or
/// later).
pub fn version_supported(banner: &str) -> (r: bool)
    ensures
        r == version_supported_spec(banner@),
{
    match major_version_of(banner) {
        Option::Some(m) => m >= 60,
        Option::None => false,
    }
}

/// The screenshot browser's settings.  The binary's location is filled in
/// once an installed, supported browser was found.
#[derive(Debug, Clone)]
pub struct Chrome {
    pub resolution: String,
    pub timeout: u64,
    pub user_agent: String,
    /// The located browser binary, once one was found.
    pub path: Option<String>,
}

impl Chrome {
    /// Fresh settings: no browser located yet.
    pub fn new(resolution: String, timeout: u64, user_agent: String) -> (r: Chrome)
        ensures
            r.resolution == resolution,
            r.timeout == timeout,
            r.user_agent == user_agent,
            r.path is None,
    {
        Chrome { resolution, timeout, user_agent, path: None }
    }

    /// Record the location of a found browser binary.
    pub fn set_path(&mut self, path: String)
        ensures
            *final(self) == (Chrome { path: Option::Some(path), ..*old(self) }),
    {
        self.path = Some(path);
    }

    /// Whether a browser was located.
    pub fn is_ready(&self) -> (r: bool)
        ensures
            r == (self.path is Some),
    {
        self.path.is_some()
    }
}

} // verus!
