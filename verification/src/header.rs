//! The file name that a download response suggests.
//!
//! The server may name the file in a header of the form
//! `attachment; filename="report.pdf"`. The header is cut at each `;`, and the
//! first part that, once trimmed, begins with `filename=` gives the name.

use crate::text::chars_of;
use vstd::prelude::*;
use vstd::slice::slice_subrange;
use vstd::string::*;

verus! {

/// A set of characters that is trimmed from the ends of a text.
#[derive(Debug, Clone, Copy, PartialEq, Eq, Structural)]
pub enum CharClass {
    /// The characters with the Unicode property `White_Space`.
    Whitespace,
    /// The double quote.
    Quote,
}

/// Whether `c` has the Unicode property `White_Space`.
pub open spec fn is_whitespace(c: char) -> bool {
    let u: u32 = c as u32;
    ||| 0x09 <= u <= 0x0D
    ||| u == 0x20
    ||| u == 0x85
    ||| u == 0xA0
    ||| u == 0x1680
    ||| 0x2000 <= u <= 0x200A
    ||| u == 0x2028
    ||| u == 0x2029
    ||| u == 0x202F
    ||| u == 0x205F
    ||| u == 0x3000
}

impl CharClass {
    /// Whether `c` belongs to the class.
    pub open spec fn holds(self, c: char) -> bool {
        match self {
            CharClass::Whitespace => is_whitespace(c),
            CharClass::Quote => c == '"',
        }
    }

    /// Tells whether `c` belongs to the class.
    pub fn contains(self, c: char) -> (r: bool)
        ensures
            r == self.holds(c),
    {
        match self {
            CharClass::Whitespace => {
                let u: u32 = c as u32;
                (0x09 <= u && u <= 0x0D) || u == 0x20 || u == 0x85 || u == 0xA0 || u == 0x1680 || (
                0x2000 <= u && u <= 0x200A) || u == 0x2028 || u == 0x2029 || u == 0x202F || u
                    == 0x205F || u == 0x3000
            },
            CharClass::Quote => c == '"',
        }
    }
}

/// Where the run of `class` characters that starts at `lo` ends, looking no
/// further than `hi`.
pub open spec fn after_leading(s: Seq<char>, class: CharClass, lo: int, hi: int) -> int
    decreases hi - lo,
{
    if lo < hi && class.holds(s[lo]) {
        after_leading(s, class, lo + 1, hi)
    } else {
        lo
    }
}

/// Where the run of `class` characters that ends at `hi` starts, looking no
/// further back than `lo`.
pub open spec fn before_trailing(s: Seq<char>, class: CharClass, lo: int, hi: int) -> int
    decreases hi - lo,
{
    if lo < hi && class.holds(s[hi - 1]) {
        before_trailing(s, class, lo, hi - 1)
    } else {
        hi
    }
}

/// `s` without the `class` characters at its two ends.
pub open spec fn trimmed(s: Seq<char>, class: CharClass) -> Seq<char> {
    let lo = after_leading(s, class, 0, s.len() as int);
    s.subrange(lo, before_trailing(s, class, lo, s.len() as int))
}

/// Whether `s` begins with `prefix`.
pub open spec fn has_prefix(s: Seq<char>, prefix: Seq<char>) -> bool {
    prefix.len() <= s.len() && s.take(prefix.len() as int) == prefix
}

/// `s` without `prefix` at its start, as often as it stands there.
pub open spec fn without_prefixes(s: Seq<char>, prefix: Seq<char>) -> Seq<char>
    decreases s.len(),
{
    if prefix.len() > 0 && has_prefix(s, prefix) {
        without_prefixes(s.skip(prefix.len() as int), prefix)
    } else {
        s
    }
}

/// The key that introduces the file name.
pub open spec fn filename_key() -> Seq<char> {
    "filename="@
}

/// The file name that one part of the header gives, if it gives one: the part
/// is trimmed of whitespace and must begin with the key; the name is what
/// follows the key, without surrounding quotes.
pub open spec fn part_filename(part: Seq<char>) -> Option<Seq<char>> {
    let entry = trimmed(part, CharClass::Whitespace);
    if has_prefix(entry, filename_key()) {
        Some(trimmed(without_prefixes(entry, filename_key()), CharClass::Quote))
    } else {
        None
    }
}

/// The index of the first `;` in `s`, or the length of `s` where there is none.
pub open spec fn first_separator(s: Seq<char>) -> int
    decreases s.len(),
{
    if s.len() == 0 || s[0] == ';' {
        0
    } else {
        1 + first_separator(s.skip(1))
    }
}

/// The file name that a header value gives: that of its first part that gives
/// one.
pub open spec fn header_filename(s: Seq<char>) -> Option<Seq<char>>
    decreases s.len(),
{
    let end = first_separator(s);
    match part_filename(s.take(end)) {
        Some(name) => Some(name),
        None => if 0 <= end < s.len() {
            header_filename(s.skip(end + 1))
        } else {
            None
        },
    }
}

/// The name used where the server suggests none.
pub open spec fn fallback_name(file_identifier: Seq<char>) -> Seq<char> {
    file_identifier + ".unknown"@
}

/// The file name under which a download is stored when the caller names none.
pub open spec fn suggested_name(header: Option<Seq<char>>, file_identifier: Seq<char>) -> Seq<
    char,
> {
    match header {
        Some(value) => match header_filename(value) {
            Some(name) => name,
            None => fallback_name(file_identifier),
        },
        None => fallback_name(file_identifier),
    }
}

/// The bounds of `trimmed(s, class)` within `s`.
fn trim_bounds(s: &[char], class: CharClass) -> (r: (usize, usize))
    ensures
        r.0 <= r.1 <= s@.len(),
        trimmed(s@, class) == s@.subrange(r.0 as int, r.1 as int),
{
    let len: usize = s.len();
    let mut lo: usize = 0;
    while lo < len && class.contains(s[lo])
        invariant
            len == s@.len(),
            lo <= len,
            after_leading(s@, class, 0, len as int) == after_leading(s@, class, lo as int, len as int),
        decreases len - lo,
    {
        lo += 1;
    }
    let mut hi: usize = len;
    while hi > lo && class.contains(s[hi - 1])
        invariant
            len == s@.len(),
            lo <= hi <= len,
            before_trailing(s@, class, lo as int, len as int) == before_trailing(
                s@,
                class,
                lo as int,
                hi as int,
            ),
        decreases hi - lo,
    {
        hi -= 1;
    }
    (lo, hi)
}

/// Tells whether `s` begins with `prefix`.
fn starts_with(s: &[char], prefix: &[char]) -> (r: bool)
    ensures
        r == has_prefix(s@, prefix@),
{
    if prefix.len() > s.len() {
        return false;
    }
    let mut i: usize = 0;
    while i < prefix.len()
        invariant
            i <= prefix@.len() <= s@.len(),
            forall|j: int| 0 <= j < i ==> s@[j] == prefix@[j],
        decreases prefix@.len() - i,
    {
        if s[i] != prefix[i] {
            return false;
        }
        i += 1;
    }
    assert(s@.take(prefix@.len() as int) =~= prefix@);
    true
}

/// How many characters of `s` the leading repetitions of `prefix` take up.
fn prefixes_len(s: &[char], prefix: &[char]) -> (r: usize)
    requires
        prefix@.len() > 0,
    ensures
        r <= s@.len(),
        without_prefixes(s@, prefix@) == s@.skip(r as int),
{
    let mut k: usize = 0;
    assert(s@.skip(0) == s@);
    loop
        invariant
            prefix@.len() > 0,
            k <= s@.len(),
            without_prefixes(s@, prefix@) == without_prefixes(s@.skip(k as int), prefix@),
        ensures
            k <= s@.len(),
            without_prefixes(s@, prefix@) == s@.skip(k as int),
        decreases s@.len() - k,
    {
        let rest = slice_subrange(s, k, s.len());
        if !starts_with(rest, prefix) {
            break ;
        }
        assert(rest@.skip(prefix@.len() as int) == s@.skip(k + prefix@.len()));
        k += prefix.len();
    }
    k
}

/// The bounds, within `part`, of the file name that the part gives.
fn part_filename_bounds(part: &[char], key: &[char]) -> (r: Option<(usize, usize)>)
    requires
        key@ == filename_key(),
        key@.len() > 0,
    ensures
        match r {
            Some((lo, hi)) => lo <= hi <= part@.len() && part_filename(part@) == Some(
                part@.subrange(lo as int, hi as int),
            ),
            None => part_filename(part@) is None,
        },
{
    let (a, b) = trim_bounds(part, CharClass::Whitespace);
    let entry = slice_subrange(part, a, b);
    if !starts_with(entry, key) {
        return None;
    }
    let k = prefixes_len(entry, key);
    let value = slice_subrange(entry, k, entry.len());
    let (c, d) = trim_bounds(value, CharClass::Quote);
    Some((a + k + c, a + k + d))
}

/// The length of `s` up to its first `;`.
fn separator_index(s: &[char]) -> (r: usize)
    ensures
        r == first_separator(s@),
        r <= s@.len(),
{
    let mut i: usize = 0;
    assert(s@.skip(0) == s@);
    while i < s.len() && s[i] != ';'
        invariant
            i <= s@.len(),
            first_separator(s@) == i + first_separator(s@.skip(i as int)),
        decreases s@.len() - i,
    {
        assert(s@.skip(i as int).skip(1) == s@.skip(i + 1));
        i += 1;
    }
    i
}

/// The bounds, within `value`, of the file name that the header gives.
pub fn filename_bounds(value: &[char]) -> (r: Option<(usize, usize)>)
    ensures
        match r {
            Some((lo, hi)) => lo <= hi <= value@.len() && header_filename(value@) == Some(
                value@.subrange(lo as int, hi as int),
            ),
            None => header_filename(value@) is None,
        },
{
    proof {
        reveal_strlit("filename=");
    }
    let key = chars_of("filename=");
    let len: usize = value.len();
    let mut start: usize = 0;
    assert(value@.skip(0) == value@);
    loop
        invariant
            key@ == filename_key(),
            key@.len() > 0,
            len == value@.len(),
            start <= len,
            header_filename(value@) == header_filename(value@.skip(start as int)),
        decreases len - start,
    {
        let rest = slice_subrange(value, start, len);
        let end = separator_index(rest);
        let part = slice_subrange(rest, 0, end);
        match part_filename_bounds(part, key.as_slice()) {
            Some((lo, hi)) => {
                return Some((start + lo, start + hi));
            },
            None => {
                if end >= len - start {
                    return None;
                }
                assert(rest@.skip(end + 1) == value@.skip(start + end + 1));
                start = start + end + 1;
            },
        }
    }
}

/// The file name under which a download is stored when the caller names none:
/// the one that the `content-disposition` header suggests, or else the file
/// identifier followed by `.unknown`.
pub fn suggested_filename(header: Option<&str>, file_identifier: &str) -> (r: String)
    ensures
        r@ == suggested_name(
            match header {
                Some(value) => Some(value@),
                None => None,
            },
            file_identifier@,
        ),
{
    if let Some(value) = header {
        let chars = chars_of(value);
        if let Some((lo, hi)) = filename_bounds(chars.as_slice()) {
            return String::from_str(value.substring_char(lo, hi));
        }
    }
    let mut name = String::from_str(file_identifier);
    name.append(".unknown");
    name
}

} // verus!
