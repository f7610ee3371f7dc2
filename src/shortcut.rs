//! Metadata read out of a shell link (`.lnk`) file. The platform fills
//! fixed-size UTF-16 buffers; their NUL padding is trimmed here.
use vstd::prelude::*;

verus! {

/// What a shortcut points at and how it is displayed.
#[derive(Debug, Clone, PartialEq, Eq)]
pub struct ShortcutInfo {
    /// The link's target path (an executable, a document, a folder).
    pub target: String,
    /// The launch arguments.
    pub arguments: String,
    /// The working directory.
    pub working_dir: String,
    /// The resource container holding the link's custom icon; empty when none.
    pub icon_path: String,
    /// The index of the icon inside `icon_path`.
    pub icon_index: i32,
}

/// Why a shell link could not be resolved.
#[derive(Debug, Clone, PartialEq, Eq)]
pub enum ResolveError {
    /// The link file does not exist; the cause as the platform gave it.
    NotFound(String),
    /// The file could not be loaded as a shell link.
    Malformed(String),
    /// The platform's link parser could not be instantiated.
    Unavailable(String),
}

/// UTF-16 decoded: a unit outside the surrogate range is one character, a
/// high surrogate followed by a low one is one supplementary character, and
/// any other surrogate becomes U+FFFD.
pub open spec fn utf16_lossy_of(u: Seq<u16>) -> Seq<char>
    decreases u.len(),
{
    if u.len() == 0 {
        Seq::empty()
    } else if u[0] < 0xD800 || u[0] > 0xDFFF {
        seq![u[0] as u32 as char] + utf16_lossy_of(u.drop_first())
    } else if u[0] <= 0xDBFF && u.len() > 1 && 0xDC00 <= u[1] <= 0xDFFF {
        seq![
            (0x10000 + (u[0] - 0xD800) * 0x400 + (u[1] - 0xDC00)) as u32 as char,
        ] + utf16_lossy_of(u.subrange(2, u.len() as int))
    } else {
        seq!['\u{FFFD}'] + utf16_lossy_of(u.drop_first())
    }
}

/// `s` without its leading NUL characters.
pub open spec fn trim_nul_start(s: Seq<char>) -> Seq<char>
    decreases s.len(),
{
    if s.len() > 0 && s[0] == '\0' {
        trim_nul_start(s.drop_first())
    } else {
        s
    }
}

/// `s` without its trailing NUL characters.
pub open spec fn trim_nul_end(s: Seq<char>) -> Seq<char>
    decreases s.len(),
{
    if s.len() > 0 && s.last() == '\0' {
        trim_nul_end(s.drop_last())
    } else {
        s
    }
}

/// `s` without NUL characters at either end.
pub open spec fn trim_nul_of(s: Seq<char>) -> Seq<char> {
    trim_nul_end(trim_nul_start(s))
}

/// The text that a NUL-padded UTF-16 buffer holds.
pub open spec fn buffer_text_of(units: Seq<u16>) -> Seq<char> {
    trim_nul_of(utf16_lossy_of(units))
}

/// Relies on `String::from_utf16_lossy`: it decodes UTF-16, replacing each
/// unpaired surrogate with U+FFFD.
#[verifier::external_body]
fn decode_utf16_lossy(units: &[u16]) -> (r: String)
    ensures
        r@ == utf16_lossy_of(units@),
{
    String::from_utf16_lossy(units)
}

proof fn lemma_trim_start_step(s: Seq<char>, lo: int)
    requires
        0 <= lo < s.len(),
        s[lo] == '\0',
    ensures
        trim_nul_start(s.subrange(lo, s.len() as int)) == trim_nul_start(
            s.subrange(lo + 1, s.len() as int),
        ),
{
    assert(s.subrange(lo, s.len() as int).drop_first() =~= s.subrange(lo + 1, s.len() as int));
}

proof fn lemma_trim_end_step(s: Seq<char>, hi: int)
    requires
        0 < hi <= s.len(),
        s[hi - 1] == '\0',
    ensures
        trim_nul_end(s.subrange(0, hi)) == trim_nul_end(s.subrange(0, hi - 1)),
{
    assert(s.subrange(0, hi).drop_last() =~= s.subrange(0, hi - 1));
}

/// Removes NUL characters from both ends of `s`.
pub fn trim_nul(s: &str) -> (r: String)
    ensures
        r@ == trim_nul_of(s@),
{
    let n = s.unicode_len();
    let mut lo: usize = 0;
    assert(s@.subrange(0, n as int) =~= s@);
    while lo < n && s.get_char(lo) == '\0'
        invariant
            n == s@.len(),
            lo <= n,
            trim_nul_start(s@) == trim_nul_start(s@.subrange(lo as int, n as int)),
        decreases n - lo,
    {
        proof {
            lemma_trim_start_step(s@, lo as int);
        }
        lo = lo + 1;
    }
    let ghost rest = s@.subrange(lo as int, n as int);
    assert(trim_nul_start(s@) == rest);
    let mut hi: usize = n;
    assert(rest =~= s@.subrange(lo as int, hi as int));
    while hi > lo && s.get_char(hi - 1) == '\0'
        invariant
            n == s@.len(),
            lo <= hi <= n,
            rest == s@.subrange(lo as int, n as int),
            trim_nul_end(rest) == trim_nul_end(s@.subrange(lo as int, hi as int)),
        decreases hi - lo,
    {
        proof {
            let t = s@.subrange(lo as int, n as int);
            lemma_trim_end_step(t, (hi - lo) as int);
            assert(t.subrange(0, (hi - lo) as int) =~= s@.subrange(lo as int, hi as int));
            assert(t.subrange(0, (hi - lo - 1) as int) =~= s@.subrange(lo as int, hi - 1));
        }
        hi = hi - 1;
    }
    assert(trim_nul_end(rest) =~= s@.subrange(lo as int, hi as int));
    String::from_str(s.substring_char(lo, hi))
}

/// Decodes a NUL-padded UTF-16 buffer into the text it holds.
pub fn buffer_text(units: &[u16]) -> (r: String)
    ensures
        r@ == buffer_text_of(units@),
{
    let decoded = decode_utf16_lossy(units);
    trim_nul(decoded.as_str())
}

impl ShortcutInfo {
    /// Builds the metadata from the buffers that the platform filled.
    pub fn from_buffers(
        target: &[u16],
        arguments: &[u16],
        working_dir: &[u16],
        icon_path: &[u16],
        icon_index: i32,
    ) -> (r: ShortcutInfo)
        ensures
            r.target@ == buffer_text_of(target@),
            r.arguments@ == buffer_text_of(arguments@),
            r.working_dir@ == buffer_text_of(working_dir@),
            r.icon_path@ == buffer_text_of(icon_path@),
            r.icon_index == icon_index,
    {
        ShortcutInfo {
            target: buffer_text(target),
            arguments: buffer_text(arguments),
            working_dir: buffer_text(working_dir),
            icon_path: buffer_text(icon_path),
            icon_index,
        }
    }
}

} // verus!
