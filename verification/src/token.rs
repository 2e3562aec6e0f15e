//! Credential resolution.
//!
//! A bearer credential is taken from the first of four sources that yields a
//! non-empty value after trimming whitespace: the structured configuration
//! variable, an environment-style override of it, a plainer environment
//! variable, and a well-known mounted file.  The surrounding process reads
//! the raw sources and caches the winner for the life of the process; the
//! selection itself is verified here.

use vstd::prelude::*;
use vstd::string::*;

verus! {

/// Where a resolved credential came from, for diagnostics.
#[derive(Clone, Copy, PartialEq, Eq, Structural)]
pub enum TokenVia {
    ConfigVariable,
    EnvOverride,
    EnvPlain,
    MountedFile,
}

/// A resolved credential and its source.
pub struct TokenInfo {
    pub value: String,
    pub via: TokenVia,
}

impl TokenInfo {
    /// A field-for-field copy.
    pub fn duplicate(&self) -> (r: TokenInfo)
        ensures
            r.value@ == self.value@,
            r.via == self.via,
    {
        TokenInfo { value: self.value.clone(), via: self.via }
    }
}

/// The raw text each credential source offered, in priority order;
/// `None` where the source did not answer at all.
pub struct TokenSources {
    pub config_var: Option<String>,
    pub env_override: Option<String>,
    pub env_plain: Option<String>,
    pub file: Option<String>,
}

/// The characters that trimming removes: Unicode whitespace.
pub open spec fn is_space(c: char) -> bool {
    ||| c == '\u{0009}'
    ||| c == '\u{000A}'
    ||| c == '\u{000B}'
    ||| c == '\u{000C}'
    ||| c == '\u{000D}'
    ||| c == ' '
    ||| c == '\u{0085}'
    ||| c == '\u{00A0}'
    ||| c == '\u{1680}'
    ||| ('\u{2000}' <= c && c <= '\u{200A}')
    ||| c == '\u{2028}'
    ||| c == '\u{2029}'
    ||| c == '\u{202F}'
    ||| c == '\u{205F}'
    ||| c == '\u{3000}'
}

/// First index at or after `i` holding a non-space character, or the length.
pub open spec fn first_non_space(s: Seq<char>, i: int) -> int
    decreases s.len() - i when 0 <= i <= s.len()
{
    if i >= s.len() {
        s.len() as int
    } else if is_space(s[i]) {
        first_non_space(s, i + 1)
    } else {
        i
    }
}

/// End (exclusive) of the last non-space character before `j`, or zero.
pub open spec fn last_non_space_end(s: Seq<char>, j: int) -> int
    decreases j when 0 <= j <= s.len()
{
    if j <= 0 {
        0
    } else if is_space(s[j - 1]) {
        last_non_space_end(s, j - 1)
    } else {
        j
    }
}

/// The string with leading and trailing whitespace removed.
pub open spec fn trimmed(s: Seq<char>) -> Seq<char> {
    let start = first_non_space(s, 0);
    let end = last_non_space_end(s, s.len() as int);
    if start >= end {
        Seq::empty()
    } else {
        s.subrange(start, end)
    }
}

/// What a raw source contributes: its trimmed text, or nothing where it is
/// absent or blank.
pub open spec fn cleaned(src: Option<String>) -> Option<Seq<char>> {
    match src {
        Some(s) => if trimmed(s@).len() > 0 {
            Some(trimmed(s@))
        } else {
            None
        },
        None => None,
    }
}

/// Which credential the sources resolve to: the first source whose trimmed
/// value is non-empty wins; `None` where every source is absent or blank.
pub open spec fn resolved_token(sources: TokenSources) -> Option<(Seq<char>, TokenVia)> {
    if cleaned(sources.config_var) is Some {
        Some((cleaned(sources.config_var)->Some_0, TokenVia::ConfigVariable))
    } else if cleaned(sources.env_override) is Some {
        Some((cleaned(sources.env_override)->Some_0, TokenVia::EnvOverride))
    } else if cleaned(sources.env_plain) is Some {
        Some((cleaned(sources.env_plain)->Some_0, TokenVia::EnvPlain))
    } else if cleaned(sources.file) is Some {
        Some((cleaned(sources.file)->Some_0, TokenVia::MountedFile))
    } else {
        None
    }
}

/// Is this character a space?  The executable twin of [`is_space`].
fn is_space_char(c: char) -> (r: bool)
    ensures
        r == is_space(c),
{
    c == '\u{0009}' || c == '\u{000A}' || c == '\u{000B}' || c == '\u{000C}'
        || c == '\u{000D}' || c == ' ' || c == '\u{0085}' || c == '\u{00A0}'
        || c == '\u{1680}' || ('\u{2000}' <= c && c <= '\u{200A}') || c == '\u{2028}'
        || c == '\u{2029}' || c == '\u{202F}' || c == '\u{205F}' || c == '\u{3000}'
}

/// Trims whitespace and rejects the blank result: `Some` exactly when
/// something is left.
pub fn clean(value: &str) -> (r: Option<String>)
    ensures
        match r {
            Some(t) => trimmed(value@).len() > 0 && t@ == trimmed(value@),
            None => trimmed(value@).len() == 0,
        },
{
    let len = value.unicode_len();
    let mut start: usize = 0;
    while start < len && is_space_char(value.get_char(start))
        invariant
            0 <= start <= len,
            len == value@.len(),
            first_non_space(value@, 0) == first_non_space(value@, start as int),
        decreases len - start,
    {
        start = start + 1;
    }
    assert(first_non_space(value@, 0) == start as int);
    let mut end: usize = len;
    while end > start && is_space_char(value.get_char(end - 1))
        invariant
            start <= end <= len,
            len == value@.len(),
            start as int == first_non_space(value@, 0),
            last_non_space_end(value@, len as int) == last_non_space_end(value@, end as int),
        decreases end,
    {
        end = end - 1;
    }
    proof {
        if end > start {
            assert(!is_space(value@[end - 1]));
            assert(last_non_space_end(value@, end as int) == end as int);
        } else {
            assert(end == start);
            lemma_last_non_space_le_first(value@, end as int);
        }
    }
    if end > start {
        let t = value.substring_char(start, end);
        Some(t.to_owned())
    } else {
        None
    }
}

/// Below the first non-space character, every index is space, so the
/// last-non-space scan walks down to zero.
proof fn lemma_last_non_space_le_first(s: Seq<char>, j: int)
    requires
        0 <= j <= s.len(),
        j <= first_non_space(s, 0),
    ensures
        last_non_space_end(s, j) == 0,
    decreases j,
{
    if j > 0 {
        lemma_first_non_space_bounds(s, 0);
        lemma_first_non_space_prefix_spaces(s, 0, j - 1);
        lemma_last_non_space_le_first(s, j - 1);
    }
}

/// The first-non-space index lies between its starting point and the length.
proof fn lemma_first_non_space_bounds(s: Seq<char>, i: int)
    requires
        0 <= i <= s.len(),
    ensures
        i <= first_non_space(s, i) <= s.len(),
    decreases s.len() - i,
{
    if i < s.len() && is_space(s[i]) {
        lemma_first_non_space_bounds(s, i + 1);
    }
}

/// Every index below the first non-space character holds a space.
proof fn lemma_first_non_space_prefix_spaces(s: Seq<char>, i: int, k: int)
    requires
        0 <= i <= k < first_non_space(s, i) <= s.len(),
    ensures
        is_space(s[k]),
    decreases k - i,
{
    if i < k {
        lemma_first_non_space_prefix_spaces(s, i + 1, k);
    }
}

/// Resolves the credential: a cached value always wins; otherwise the first
/// source whose trimmed text is non-empty provides it.
pub fn service_account_token(cached: &Option<TokenInfo>, sources: &TokenSources) -> (r: Option<
    TokenInfo,
>)
    ensures
        match cached {
            Some(c) => r matches Some(t) && t.value@ == c.value@ && t.via == c.via,
            None => match resolved_token(*sources) {
                Some((value, via)) => r matches Some(t) && t.value@ == value && t.via == via,
                None => r is None,
            },
        },
{
    if let Some(c) = cached {
        return Some(c.duplicate());
    }
    if let Some(raw) = &sources.config_var {
        if let Some(value) = clean(raw.as_str()) {
            return Some(TokenInfo { value, via: TokenVia::ConfigVariable });
        }
    }
    if let Some(raw) = &sources.env_override {
        if let Some(value) = clean(raw.as_str()) {
            return Some(TokenInfo { value, via: TokenVia::EnvOverride });
        }
    }
    if let Some(raw) = &sources.env_plain {
        if let Some(value) = clean(raw.as_str()) {
            return Some(TokenInfo { value, via: TokenVia::EnvPlain });
        }
    }
    if let Some(raw) = &sources.file {
        if let Some(value) = clean(raw.as_str()) {
            return Some(TokenInfo { value, via: TokenVia::MountedFile });
        }
    }
    None
}

/// Failure of every credential source: dependent calls are not attempted.
#[derive(Clone, Copy, PartialEq, Eq, Structural, Debug)]
pub enum AuthError {
    Unavailable,
}

/// The `Authorization` header value for a resolved credential, or
/// [`AuthError::Unavailable`] where none resolved.
pub fn bearer(token: Option<&TokenInfo>) -> (r: Result<String, AuthError>)
    ensures
        match r {
            Ok(h) => token matches Some(t) && h@ == "Bearer "@ + t.value@,
            Err(e) => token is None && e == AuthError::Unavailable,
        },
{
    match token {
        Some(t) => {
            let mut h: String = "Bearer ".to_owned();
            h.append(t.value.as_str());
            Ok(h)
        },
        None => Err(AuthError::Unavailable),
    }
}

} // verus!
