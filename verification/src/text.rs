//! Verified text utilities: substring search, placeholder substitution,
//! joining, and decimal rendering of confidence scores.

use vstd::prelude::*;

verus! {

/// What `str::to_lowercase` returns: a pure function of the characters alone.
pub uninterp spec fn lower_of(s: Seq<char>) -> Seq<char>;

/// Relies on str::to_lowercase: the lowercased text depends on the
/// characters of `s` alone.
#[verifier::external_body]
pub(crate) fn lowercase(s: &str) -> (r: String)
    ensures
        r@ == lower_of(s@),
{
    s.to_lowercase()
}

/// `needle` occurs contiguously somewhere in `haystack`.
pub open spec fn has_substring(haystack: Seq<char>, needle: Seq<char>) -> bool {
    exists|i: int|
        0 <= i <= haystack.len() - needle.len() && #[trigger] haystack.subrange(
            i,
            i + needle.len(),
        ) == needle
}

/// The characters of `s`, one by one.
pub fn to_chars(s: &str) -> (v: Vec<char>)
    ensures
        v@ == s@,
{
    let len: usize = s.unicode_len();
    let mut v: Vec<char> = Vec::new();
    let mut i: usize = 0;
    while i < len
        invariant
            i <= len,
            len == s@.len(),
            v@ == s@.subrange(0, i as int),
        decreases len - i,
    {
        v.push(s.get_char(i));
        assert(v@ =~= s@.subrange(0, i + 1 as int));
        i = i + 1;
    }
    assert(v@ =~= s@);
    v
}

/// Whether `needle` occurs in `haystack`, both given as character vectors.
pub fn chars_contain(haystack: &Vec<char>, needle: &Vec<char>) -> (r: bool)
    ensures
        r == has_substring(haystack@, needle@),
{
    let h_len: usize = haystack.len();
    let n_len: usize = needle.len();
    if n_len > h_len {
        assert(!has_substring(haystack@, needle@));
        return false;
    }
    if n_len == 0 {
        assert(haystack@.subrange(0, 0 + needle@.len() as int) =~= needle@);
        return true;
    }
    let mut i: usize = 0;
    while i <= h_len - n_len
        invariant
            1 <= n_len <= h_len,
            h_len == haystack@.len(),
            n_len == needle@.len(),
            i <= h_len - n_len + 1,
            forall|k: int|
                0 <= k < i ==> #[trigger] haystack@.subrange(k, k + needle@.len()) != needle@,
        decreases h_len - i,
    {
        let mut j: usize = 0;
        let mut matched: bool = true;
        while j < n_len
            invariant
                1 <= n_len <= h_len,
                h_len == haystack@.len(),
                n_len == needle@.len(),
                i <= h_len - n_len,
                j <= n_len,
                matched ==> forall|m: int| 0 <= m < j ==> haystack@[i + m] == needle@[m],
                !matched ==> haystack@.subrange(i as int, i + needle@.len()) != needle@,
            decreases n_len - j,
        {
            if haystack[i + j] != needle[j] {
                proof {
                    let sub = haystack@.subrange(i as int, i + needle@.len());
                    assert(sub[j as int] == haystack@[i + j]);
                    assert(sub[j as int] != needle@[j as int]);
                }
                matched = false;
                j = n_len;
            } else {
                j = j + 1;
            }
        }
        if matched {
            assert(haystack@.subrange(i as int, i + needle@.len()) =~= needle@);
            return true;
        }
        i = i + 1;
    }
    assert forall|k: int| 0 <= k <= haystack@.len() - needle@.len() implies #[trigger] haystack@.subrange(
        k,
        k + needle@.len(),
    ) != needle@ by {
        assert(k < i);
    }
    false
}

/// Whether `needle` occurs in `haystack`.
pub fn str_contains(haystack: &str, needle: &str) -> (r: bool)
    ensures
        r == has_substring(haystack@, needle@),
{
    let h: Vec<char> = to_chars(haystack);
    let n: Vec<char> = to_chars(needle);
    chars_contain(&h, &n)
}

/// Whether two strings hold the same characters.
pub fn str_eq(a: &str, b: &str) -> (r: bool)
    ensures
        r == (a@ == b@),
{
    let av: Vec<char> = to_chars(a);
    let bv: Vec<char> = to_chars(b);
    let a_len: usize = av.len();
    if a_len != bv.len() {
        return false;
    }
    let mut i: usize = 0;
    while i < a_len
        invariant
            a_len == av@.len() == bv@.len(),
            av@ == a@,
            bv@ == b@,
            i <= a_len,
            forall|k: int| 0 <= k < i ==> av@[k] == bv@[k],
        decreases a_len - i,
    {
        if av[i] != bv[i] {
            return false;
        }
        i = i + 1;
    }
    assert(a@ =~= b@);
    true
}

/// The template with every `{}` placeholder replaced by `username`,
/// scanning left to right without overlap.
pub open spec fn substituted(template: Seq<char>, username: Seq<char>) -> Seq<char>
    decreases template.len(),
{
    if template.len() >= 2 && template[0] == '{' && template[1] == '}' {
        username + substituted(template.subrange(2, template.len() as int), username)
    } else if template.len() >= 1 {
        seq![template[0]] + substituted(template.subrange(1, template.len() as int), username)
    } else {
        Seq::<char>::empty()
    }
}

/// Substitute `username` for each `{}` placeholder of `template`.
pub fn substitute(template: &str, username: &str) -> (r: String)
    ensures
        r@ == substituted(template@, username@),
{
    let tc: Vec<char> = to_chars(template);
    let len: usize = tc.len();
    let mut r: String = String::new();
    let mut i: usize = 0;
    proof {
        assert(template@.subrange(0, len as int) =~= template@);
        assert(r@ + substituted(template@, username@) =~= substituted(template@, username@));
    }
    while i < len
        invariant
            len == tc@.len(),
            tc@ == template@,
            i <= len,
            substituted(template@, username@) == r@ + substituted(
                template@.subrange(i as int, len as int),
                username@,
            ),
        decreases len - i,
    {
        let ghost rest = template@.subrange(i as int, len as int);
        if tc[i] == '{' && i + 1 < len && tc[i + 1] == '}' {
            r.append(username);
            proof {
                assert(rest[0] == '{' && rest[1] == '}');
                assert(rest.subrange(2, rest.len() as int) =~= template@.subrange(
                    i + 2,
                    len as int,
                ));
            }
            i = i + 2;
        } else {
            let c: &str = template.substring_char(i, i + 1);
            r.append(c);
            proof {
                assert(c@ =~= seq![template@[i as int]]);
                if rest.len() >= 2 && rest[0] == '{' && rest[1] == '}' {
                    assert(tc@[i as int] == '{' && tc@[i + 1] == '}');
                }
                assert(rest.subrange(1, rest.len() as int) =~= template@.subrange(
                    i + 1,
                    len as int,
                ));
            }
            i = i + 1;
        }
    }
    proof {
        assert(template@.subrange(len as int, len as int) =~= Seq::<char>::empty());
        assert(r@ + Seq::<char>::empty() =~= r@);
    }
    r
}

/// The parts joined by the separator: empty for no parts, the single part
/// alone, otherwise each part with the separator between neighbours.
pub open spec fn joined(parts: Seq<Seq<char>>, sep: Seq<char>) -> Seq<char>
    decreases parts.len(),
{
    if parts.len() == 0 {
        Seq::<char>::empty()
    } else if parts.len() == 1 {
        parts[0]
    } else {
        parts[0] + sep + joined(parts.drop_first(), sep)
    }
}

/// Join the parts with `|` between neighbours, the form under which a site
/// definition carries several error markers in one field.
pub fn join_with_pipe(parts: &Vec<String>) -> (r: String)
    ensures
        r@ == joined(parts.deep_view(), "|"@),
{
    let len: usize = parts.len();
    if len == 0 {
        let r = String::new();
        return r;
    }
    let mut r: String = String::new();
    r.append(parts[0].as_str());
    let mut i: usize = 1;
    while i < len
        invariant
            1 <= i <= len,
            len == parts@.len(),
            parts.deep_view().len() == len,
            forall|k: int| 0 <= k < len ==> parts.deep_view()[k] == parts@[k]@,
            joined(parts.deep_view(), "|"@) == if i < len {
                r@ + "|"@ + joined(parts.deep_view().subrange(i as int, len as int), "|"@)
            } else {
                r@
            },
        decreases len - i,
    {
        let ghost rest = parts.deep_view().subrange(i as int, len as int);
        r.append("|");
        r.append(parts[i].as_str());
        proof {
            assert(rest[0] == parts@[i as int]@);
            if rest.len() >= 2 {
                assert(rest.drop_first() =~= parts.deep_view().subrange(i + 1, len as int));
            }
        }
        i = i + 1;
    }
    r
}

/// The first index at or after `i` holding `c`, or the length when `c`
/// does not occur there.
pub open spec fn first_index_of(s: Seq<char>, c: char, i: int) -> int
    decreases s.len() - i when 0 <= i <= s.len()
{
    if i >= s.len() {
        i
    } else if s[i] == c {
        i
    } else {
        first_index_of(s, c, i + 1)
    }
}

/// The last index before `end` holding `c`, if any.
pub open spec fn last_index_before(s: Seq<char>, c: char, end: int) -> Option<int>
    decreases end when 0 <= end <= s.len()
{
    if end <= 0 {
        Option::None
    } else if s[end - 1] == c {
        Option::Some(end - 1)
    } else {
        last_index_before(s, c, end - 1)
    }
}

/// The file extension a download is stored under: what follows the last
/// dot of the URL's path part (before any query); a dotless path counts
/// whole as its own extension.
pub open spec fn extension_of(url: Seq<char>) -> Seq<char> {
    let cut = first_index_of(url, '?', 0);
    match last_index_before(url, '.', cut) {
        Option::Some(d) => url.subrange(d + 1, cut),
        Option::None => url.subrange(0, cut),
    }
}

/// Read the file extension out of a download URL.
pub fn file_extension_of(url: &str) -> (r: String)
    ensures
        r@ == extension_of(url@),
{
    let v: Vec<char> = to_chars(url);
    let len: usize = v.len();
    let mut cut: usize = 0;
    while cut < len && v[cut] != '?'
        invariant
            cut <= len,
            len == v@.len(),
            v@ == url@,
            first_index_of(url@, '?', 0) == first_index_of(url@, '?', cut as int),
        decreases len - cut,
    {
        assert(first_index_of(url@, '?', cut as int) == first_index_of(url@, '?', cut + 1));
        cut = cut + 1;
    }
    assert(first_index_of(url@, '?', 0) == cut as int);
    let mut dot: Option<usize> = None;
    let mut k: usize = 0;
    while k < cut
        invariant
            k <= cut <= len,
            len == v@.len(),
            v@ == url@,
            (match dot {
                Option::Some(d) => last_index_before(url@, '.', k as int) == Option::Some(
                    d as int,
                ) && d < k,
                Option::None => last_index_before(url@, '.', k as int) is None,
            }),
        decreases cut - k,
    {
        if v[k] == '.' {
            dot = Some(k);
        }
        assert(last_index_before(url@, '.', k + 1) == (if url@[k as int] == '.' {
            Option::Some(k as int)
        } else {
            last_index_before(url@, '.', k as int)
        }));
        k = k + 1;
    }
    let start: usize = match dot {
        Option::Some(d) => d + 1,
        Option::None => 0,
    };
    let part: &str = url.substring_char(start, cut);
    String::from_str(part)
}

/// The character for one decimal digit.
pub open spec fn digit_char(d: u32) -> char {
    if d == 0 {
        '0'
    } else if d == 1 {
        '1'
    } else if d == 2 {
        '2'
    } else if d == 3 {
        '3'
    } else if d == 4 {
        '4'
    } else if d == 5 {
        '5'
    } else if d == 6 {
        '6'
    } else if d == 7 {
        '7'
    } else if d == 8 {
        '8'
    } else {
        '9'
    }
}

/// A confidence in hundredths rendered with two decimals: `1.00` for the
/// maximum, otherwise `0.` followed by the two digits.
pub open spec fn hundredths_rendered(c: u32) -> Seq<char> {
    if c >= 100 {
        seq!['1', '.', '0', '0']
    } else {
        seq!['0', '.', digit_char(c / 10), digit_char(c % 10)]
    }
}

/// Append the character of one decimal digit.
fn append_digit(r: &mut String, d: u32)
    requires
        d < 10,
    ensures
        final(r)@ == old(r)@ + seq![digit_char(d)],
{
    let s: &str = match d {
        0 => "0",
        1 => "1",
        2 => "2",
        3 => "3",
        4 => "4",
        5 => "5",
        6 => "6",
        7 => "7",
        8 => "8",
        _ => "9",
    };
    proof {
        reveal_strlit("0");
        reveal_strlit("1");
        reveal_strlit("2");
        reveal_strlit("3");
        reveal_strlit("4");
        reveal_strlit("5");
        reveal_strlit("6");
        reveal_strlit("7");
        reveal_strlit("8");
        reveal_strlit("9");
        assert(s@ =~= seq![digit_char(d)]);
    }
    r.append(s);
}

/// Render a confidence in hundredths with two decimals.
pub fn render_hundredths(c: u32) -> (r: String)
    ensures
        r@ == hundredths_rendered(c),
{
    let mut r: String = String::new();
    if c >= 100 {
        r.append("1.00");
        proof {
            reveal_strlit("1.00");
            assert("1.00"@ =~= seq!['1', '.', '0', '0']);
            assert(r@ =~= hundredths_rendered(c));
        }
    } else {
        r.append("0.");
        append_digit(&mut r, c / 10);
        append_digit(&mut r, c % 10);
        proof {
            reveal_strlit("0.");
            assert("0."@ =~= seq!['0', '.']);
            assert(r@ =~= hundredths_rendered(c));
        }
    }
    r
}

} // verus!
