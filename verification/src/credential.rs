//! Loading the authentication credential.
//!
//! The credential is the secret token that authenticates the process to the
//! messaging platform. It is read (elsewhere) from a single file; this module
//! turns the outcome of that read into either the trimmed credential or the
//! one fatal error kind. Both failure causes — file absent and file present
//! but unreadable — collapse into the same error, carrying one fixed
//! human-readable message.

use vstd::prelude::*;
use vstd::string::StrSliceExecFns;

verus! {

/// A code point with the Unicode `White_Space` property: exactly the set of
/// characters stripped from either end of the credential.
pub open spec fn is_whitespace_char(c: char) -> bool {
    let u = c as u32;
    (0x09 <= u && u <= 0x0D) || u == 0x20 || u == 0x85 || u == 0xA0 || u == 0x1680 || (0x2000
        <= u && u <= 0x200A) || u == 0x2028 || u == 0x2029 || u == 0x202F || u == 0x205F || u
        == 0x3000
}

fn char_is_whitespace(c: char) -> (r: bool)
    ensures
        r == is_whitespace_char(c),
{
    let u: u32 = c as u32;
    (0x09 <= u && u <= 0x0D) || u == 0x20 || u == 0x85 || u == 0xA0 || u == 0x1680 || (0x2000
        <= u && u <= 0x200A) || u == 0x2028 || u == 0x2029 || u == 0x202F || u == 0x205F || u
        == 0x3000
}

/// A character sequence with its leading and trailing whitespace removed.
pub open spec fn trim_spec(s: Seq<char>) -> Seq<char>
    decreases s.len(),
{
    if s.len() == 0 {
        s
    } else if is_whitespace_char(s[0]) {
        trim_spec(s.drop_first())
    } else if is_whitespace_char(s[s.len() - 1]) {
        trim_spec(s.drop_last())
    } else {
        s
    }
}

/// Trimming a sequence is taking the subrange between its first and last
/// non-whitespace characters.
proof fn lemma_trim_is_subrange(s: Seq<char>, start: int, end: int)
    requires
        0 <= start <= end <= s.len(),
        forall|i: int| 0 <= i < start ==> is_whitespace_char(s[i]),
        forall|i: int| end <= i < s.len() ==> is_whitespace_char(s[i]),
        start < end ==> !is_whitespace_char(s[start]) && !is_whitespace_char(s[end - 1]),
    ensures
        trim_spec(s) == s.subrange(start, end),
    decreases s.len(),
{
    if s.len() == 0 {
        assert(s.subrange(start, end) =~= s);
    } else if is_whitespace_char(s[0]) {
        let d = s.drop_first();
        if start == end {
            assert forall|i: int| 0 <= i < d.len() implies is_whitespace_char(d[i]) by {
                assert(d[i] == s[i + 1]);
            }
            lemma_trim_is_subrange(d, 0, 0);
            assert(d.subrange(0, 0) =~= s.subrange(start, end));
        } else {
            assert(start >= 1);
            assert forall|i: int| 0 <= i < start - 1 implies is_whitespace_char(d[i]) by {
                assert(d[i] == s[i + 1]);
            }
            assert forall|i: int| end - 1 <= i < d.len() implies is_whitespace_char(d[i]) by {
                assert(d[i] == s[i + 1]);
            }
            assert(d[start - 1] == s[start]);
            assert(d[end - 2] == s[end - 1]);
            lemma_trim_is_subrange(d, start - 1, end - 1);
            assert(d.subrange(start - 1, end - 1) =~= s.subrange(start, end));
        }
    } else if is_whitespace_char(s[s.len() - 1]) {
        assert(start == 0);
        assert(start < end);
        let d = s.drop_last();
        assert forall|i: int| end <= i < d.len() implies is_whitespace_char(d[i]) by {
            assert(d[i] == s[i]);
        }
        assert(d[end - 1] == s[end - 1]);
        lemma_trim_is_subrange(d, start, end);
        assert(d.subrange(start, end) =~= s.subrange(start, end));
    } else {
        assert(start == 0);
        assert(end == s.len());
        assert(s.subrange(0, s.len() as int) =~= s);
    }
}

/// Returns `s` with leading and trailing whitespace removed.
pub fn trim(s: &str) -> (r: String)
    ensures
        r@ == trim_spec(s@),
{
    let n: usize = s.unicode_len();
    let mut start: usize = 0;
    while start < n && char_is_whitespace(s.get_char(start))
        invariant
            start <= n,
            n == s@.len(),
            forall|i: int| 0 <= i < start ==> is_whitespace_char(s@[i]),
        decreases n - start,
    {
        start = start + 1;
    }
    let mut end: usize = n;
    while end > start && char_is_whitespace(s.get_char(end - 1))
        invariant
            start <= end <= n,
            n == s@.len(),
            forall|i: int| end <= i < n ==> is_whitespace_char(s@[i]),
        decreases end,
    {
        end = end - 1;
    }
    let t = s.substring_char(start, end);
    proof {
        lemma_trim_is_subrange(s@, start as int, end as int);
    }
    t.to_owned()
}

/// The one failure kind of credential loading: the credential file is absent
/// or cannot be read. Carries a human-readable message.
pub struct CredentialUnavailable {
    pub message: String,
}

/// The fixed diagnostic message carried by every credential-loading failure.
pub open spec fn credential_error_message() -> Seq<char> {
    "Failed to read token from docker."@
}

/// Turns the outcome of reading the credential file into the credential.
///
/// `contents` is what the read produced: the file's text when it was present
/// and readable, and `None` otherwise (whether the file was missing or the
/// read failed). On success the credential is the file's text trimmed of
/// surrounding whitespace; on failure the single error kind is returned.
pub fn get_token(contents: Option<String>) -> (r: Result<String, CredentialUnavailable>)
    ensures
        contents is Some ==> r is Ok && r->Ok_0@ == trim_spec(contents->0@),
        contents is None ==> r is Err && r->Err_0.message@ == credential_error_message(),
{
    match contents {
        Some(text) => Ok(trim(text.as_str())),
        None => Err(
            CredentialUnavailable { message: "Failed to read token from docker.".to_owned() },
        ),
    }
}

} // verus!
