//! Maps a client-supplied relative path onto the configured base directory.
//!
//! A request path is first percent-decoded (best effort), then checked: no
//! `/`-separated segment of either the raw or the decoded path may begin with
//! `.` (which also rules out `..` escapes), and neither may be absolute. A
//! path that passes is joined onto the base directory, so the
//! result always lies lexically under it.
use vstd::prelude::*;
use vstd::string::StringExecFns;
use crate::text::chars_of;

verus! {

/// The three ways a request can fail.
#[derive(Clone, Copy, Debug, PartialEq, Eq, Structural)]
pub enum ServeError {
    /// The path escapes the base directory or touches a hidden segment.
    Forbidden,
    /// The path does not exist or the file cannot be opened.
    NotFound,
    /// Format detection, decoding or encoding failed.
    InternalError,
}

impl ServeError {
    /// The HTTP status code reported for this error.
    pub fn status_code(&self) -> (r: u16)
        ensures
            r == match *self {
                ServeError::Forbidden => 403u16,
                ServeError::NotFound => 404u16,
                ServeError::InternalError => 500u16,
            },
    {
        match self {
            ServeError::Forbidden => 403,
            ServeError::NotFound => 404,
            ServeError::InternalError => 500,
        }
    }
}

/// Position `i` of `s` is the first character of a `/`-separated segment.
pub open spec fn segment_starts_at(s: Seq<char>, i: int) -> bool {
    0 <= i < s.len() && (i == 0 || s[i - 1] == '/')
}

/// Some `/`-separated segment of `s` begins with `.` (this covers `.`, `..`
/// and dotfiles).
pub open spec fn has_hidden_segment(s: Seq<char>) -> bool {
    exists|i: int| #[trigger] segment_starts_at(s, i) && s[i] == '.'
}

/// Some `/`-separated segment of `s` is exactly `..`.
pub open spec fn has_parent_segment(s: Seq<char>) -> bool {
    exists|i: int|
        #[trigger] segment_starts_at(s, i) && i + 1 < s.len() && s[i] == '.' && s[i + 1] == '.'
            && (i + 2 == s.len() || s[i + 2] == '/')
}

/// A path that replaces the base directory when joined onto it.
pub open spec fn is_absolute(s: Seq<char>) -> bool {
    s.len() > 0 && s[0] == '/'
}

/// The relative path `rel` joined onto `base`, inserting a separator only
/// where `base` does not already end in one.
pub open spec fn joined(base: Seq<char>, rel: Seq<char>) -> Seq<char> {
    if rel.len() == 0 {
        base
    } else if base.len() == 0 || base.last() == '/' {
        base + rel
    } else {
        base + seq!['/'] + rel
    }
}

/// The path the service works on: the decoded path where decoding succeeded,
/// the raw one otherwise.
pub open spec fn decoded_or_raw(raw: Seq<char>, decoded: Option<Seq<char>>) -> Seq<char> {
    match decoded {
        Some(d) => d,
        None => raw,
    }
}

/// What resolving `raw` (decoded as `decoded`) against `base` yields.
pub open spec fn resolution(
    base: Seq<char>,
    raw: Seq<char>,
    decoded: Option<Seq<char>>,
) -> Result<Seq<char>, ServeError> {
    let d = decoded_or_raw(raw, decoded);
    if has_hidden_segment(raw) || has_hidden_segment(d) || is_absolute(raw) || is_absolute(d) {
        Err(ServeError::Forbidden)
    } else {
        Ok(joined(base, d))
    }
}

/// `p` is `base` itself, or a relative path without hidden segments joined
/// onto it.
pub open spec fn lies_under(base: Seq<char>, p: Seq<char>) -> bool {
    exists|rest: Seq<char>|
        !is_absolute(rest) && !has_hidden_segment(rest) && p == #[trigger] joined(base, rest)
}

pub open spec fn opt_view(o: Option<String>) -> Option<Seq<char>> {
    match o {
        Some(s) => Some(s@),
        None => None,
    }
}

pub open spec fn result_view(r: Result<String, ServeError>) -> Result<Seq<char>, ServeError> {
    match r {
        Ok(s) => Ok(s@),
        Err(e) => Err(e),
    }
}

/// What percent-decoding `s` into UTF-8 text yields; `None` where the decoded
/// bytes are not valid UTF-8.
pub uninterp spec fn percent_decoded(s: Seq<char>) -> Option<Seq<char>>;

/// Relies on `urlencoding::decode`: percent-decodes `s`, failing when the
/// result is not UTF-8; a string without `%` comes back unchanged.
#[verifier::external_body]
fn url_decode(s: &str) -> (r: Option<String>)
    ensures
        opt_view(r) == percent_decoded(s@),
        !s@.contains('%') ==> opt_view(r) == Some(s@),
{
    urlencoding::decode(s).ok().map(|c| c.into_owned())
}

/// Whether some `/`-separated segment of `s` begins with `.`.
pub fn hidden_segment(s: &Vec<char>) -> (r: bool)
    ensures
        r == has_hidden_segment(s@),
{
    let mut i: usize = 0;
    while i < s.len()
        invariant
            i <= s.len(),
            forall|j: int| 0 <= j < i ==> !(#[trigger] segment_starts_at(s@, j) && s@[j] == '.'),
        decreases s.len() - i,
    {
        if s[i] == '.' && (i == 0 || s[i - 1] == '/') {
            assert(segment_starts_at(s@, i as int));
            return true;
        }
        i = i + 1;
    }
    false
}

/// Resolves the client path `raw` against `base`, given what decoding `raw`
/// produced (`None` where decoding failed).
pub fn resolve_decoded(base: &str, raw: &str, decoded: Option<String>) -> (r: Result<
    String,
    ServeError,
>)
    ensures
        result_view(r) == resolution(base@, raw@, opt_view(decoded)),
{
    let d = match decoded {
        Some(d) => d,
        None => String::from_str(raw),
    };
    let raw_chars = chars_of(raw);
    let d_chars = chars_of(d.as_str());
    if hidden_segment(&raw_chars) || hidden_segment(&d_chars) || (raw_chars.len() > 0
        && raw_chars[0] == '/') || (d_chars.len() > 0 && d_chars[0] == '/') {
        return Err(ServeError::Forbidden);
    }
    let mut p = String::from_str(base);
    if d_chars.len() == 0 {
        return Ok(p);
    }
    let base_chars = chars_of(base);
    if base_chars.len() > 0 && base_chars[base_chars.len() - 1] != '/' {
        p.append("/");
        proof {
            reveal_strlit("/");
            assert("/"@ =~= seq!['/']);
        }
    }
    assert(d_chars@ == d@);
    p.append(d.as_str());
    Ok(p)
}

/// Resolves the client path `raw` against `base`: percent-decodes it (keeping
/// it as it is where that fails, or where it holds no `%`), rejects hidden
/// segments and absolute paths with `Forbidden`, and joins what is left onto
/// `base`.
pub fn resolve_path(base: &str, raw: &str) -> (r: Result<String, ServeError>)
    ensures
        result_view(r) == resolution(base@, raw@, percent_decoded(raw@)),
        !raw@.contains('%') ==> result_view(r) == resolution(base@, raw@, Some(raw@)),
        has_hidden_segment(raw@) || is_absolute(raw@) ==> r == Err::<String, ServeError>(
            ServeError::Forbidden,
        ),
{
    let decoded = url_decode(raw);
    resolve_decoded(base, raw, decoded)
}

/// A client path that, once decoded, holds a `..` segment or is absolute
/// (and so would leave the base directory) is refused with `Forbidden`.
pub proof fn lemma_escape_forbidden(base: Seq<char>, raw: Seq<char>, decoded: Option<Seq<char>>)
    requires
        has_parent_segment(decoded_or_raw(raw, decoded)) || is_absolute(raw) || is_absolute(
            decoded_or_raw(raw, decoded),
        ),
    ensures
        resolution(base, raw, decoded) == Err::<Seq<char>, ServeError>(ServeError::Forbidden),
{
    let d = decoded_or_raw(raw, decoded);
    if has_parent_segment(d) {
        let i = choose|i: int|
            #[trigger] segment_starts_at(d, i) && i + 1 < d.len() && d[i] == '.' && d[i + 1]
                == '.' && (i + 2 == d.len() || d[i + 2] == '/');
        assert(segment_starts_at(d, i) && d[i] == '.');
    }
}

/// Every path that resolves lies under the base directory: it is the base
/// directory itself or a relative path without hidden segments joined onto
/// it, and its text begins with the base directory's text.
pub proof fn lemma_resolved_under_base(base: Seq<char>, raw: Seq<char>, decoded: Option<Seq<char>>)
    ensures
        resolution(base, raw, decoded) is Ok ==> ({
            let p = resolution(base, raw, decoded)->Ok_0;
            &&& lies_under(base, p)
            &&& base.len() <= p.len()
            &&& p.subrange(0, base.len() as int) == base
        }),
{
    if resolution(base, raw, decoded) is Ok {
        let d = decoded_or_raw(raw, decoded);
        let p = joined(base, d);
        assert(!is_absolute(d) && !has_hidden_segment(d) && p == joined(base, d));
        if d.len() > 0 {
            assert(p.subrange(0, base.len() as int) =~= base);
        }
    }
}

/// The empty client path resolves to the base directory itself.
pub proof fn lemma_empty_path_is_base(base: Seq<char>)
    ensures
        resolution(base, Seq::empty(), Some(Seq::empty())) == Ok::<Seq<char>, ServeError>(base),
{
    assert(!has_hidden_segment(Seq::<char>::empty()));
}

/// A client path with a `/`-separated segment that begins with `.` is refused
/// with `Forbidden`, whatever it decodes to.
pub proof fn lemma_hidden_segment_forbidden(
    base: Seq<char>,
    raw: Seq<char>,
    decoded: Option<Seq<char>>,
)
    requires
        has_hidden_segment(raw),
    ensures
        resolution(base, raw, decoded) == Err::<Seq<char>, ServeError>(ServeError::Forbidden),
{
}

/// A client path whose first character is `.` is refused with `Forbidden`.
pub proof fn lemma_leading_dot_forbidden(base: Seq<char>, raw: Seq<char>, decoded: Option<Seq<char>>)
    requires
        raw.len() > 0,
        raw[0] == '.',
    ensures
        resolution(base, raw, decoded) == Err::<Seq<char>, ServeError>(ServeError::Forbidden),
{
    assert(segment_starts_at(raw, 0));
}

} // verus!
