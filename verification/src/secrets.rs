//! Helpers so secrets never appear in logs or error messages.

use vstd::prelude::*;
use vstd::string::*;

use crate::text::{
    contains, contains_str, ends_with, ends_with_str, is_ascii_alphanumeric, is_whitespace,
    lemma_trim_idempotent, matches_at, to_ascii_uppercase, trim, trim_str, upper,
};

verus! {

/// The shape of a Stellar secret key: an `S` followed by ASCII letters and
/// digits, 32 characters or more. (All characters being ASCII, the character
/// count is also the byte length that the check is made on.)
pub open spec fn secret_shaped(v: Seq<char>) -> bool {
    &&& v.len() >= 32
    &&& v[0] == 'S'
    &&& forall|i: int| 0 <= i < v.len() ==> is_ascii_alphanumeric(#[trigger] v[i])
}

/// What a value is displayed as: its trimmed text, with a secret-shaped key
/// cut to its first four characters and marked, and anything that names a
/// secret or private value replaced entirely.
pub open spec fn redacted(value: Seq<char>) -> Seq<char> {
    let v = trim(value);
    if secret_shaped(v) {
        v.take(4) + "… (redacted)"@
    } else if contains(v, "SECRET"@) || contains(v, "PRIVATE"@) {
        "(redacted)"@
    } else {
        v
    }
}

/// An environment variable name whose value must never be printed.
pub open spec fn secret_env_name(name: Seq<char>) -> bool {
    let n = upper(name);
    contains(n, "SECRET"@) || contains(n, "PRIVATE"@) || ends_with(n, "_KEY"@)
}

fn all_ascii_alphanumeric(v: &str) -> (b: bool)
    ensures
        b == forall|i: int| 0 <= i < v@.len() ==> is_ascii_alphanumeric(#[trigger] v@[i]),
{
    let n = v.unicode_len();
    let mut i: usize = 0;
    while i < n
        invariant
            i <= n,
            n == v@.len(),
            forall|k: int| 0 <= k < i ==> is_ascii_alphanumeric(#[trigger] v@[k]),
        decreases n - i,
    {
        let c = v.get_char(i);
        if !(('A' <= c && c <= 'Z') || ('a' <= c && c <= 'z') || ('0' <= c && c <= '9')) {
            assert(!is_ascii_alphanumeric(v@[i as int]));
            return false;
        }
        i = i + 1;
    }
    true
}

/// Mask Stellar secret keys and other high-entropy tokens for display.
pub fn redact(value: &str) -> (r: String)
    ensures
        r@ == redacted(value@),
{
    let v = trim_str(value);
    let n = v.unicode_len();
    if n >= 32 && v.get_char(0) == 'S' && all_ascii_alphanumeric(v) {
        let mut r = String::from_str(v.substring_char(0, 4));
        r.append("… (redacted)");
        proof {
            assert(v@.subrange(0, 4) =~= v@.take(4));
        }
        return r;
    }
    if contains_str(v, "SECRET") || contains_str(v, "PRIVATE") {
        return String::from_str("(redacted)");
    }
    String::from_str(v)
}

/// True when an environment variable name should never be printed with its value.
pub fn is_secret_env(name: &str) -> (b: bool)
    ensures
        b == secret_env_name(name@),
{
    let n = to_ascii_uppercase(name);
    contains_str(n.as_str(), "SECRET") || contains_str(n.as_str(), "PRIVATE") || ends_with_str(
        n.as_str(),
        "_KEY",
    )
}

/// A string that neither starts nor ends with whitespace is its own trim.
proof fn lemma_trim_fixed(s: Seq<char>)
    requires
        s.len() > 0,
        !is_whitespace(s[0]),
        !is_whitespace(s.last()),
    ensures
        trim(s) == s,
{
    assert(crate::text::trim_start(s) == s);
    assert(crate::text::trim_end(s) == s);
}

/// Redacting a secret-shaped key leaves neither the key nor the value it
/// came in anywhere in the output, and marks the output as redacted.
pub proof fn lemma_redaction_hides_secret(value: Seq<char>)
    requires
        secret_shaped(trim(value)),
    ensures
        !contains(redacted(value), trim(value)),
        !contains(redacted(value), value),
        contains(redacted(value), "redacted"@),
{
    reveal_strlit("… (redacted)");
    reveal_strlit("redacted");
    lemma_trim_idempotent(value);
    let out = redacted(value);
    assert(out.len() == 16);
    assert forall|i: int| !matches_at(out, trim(value), i) by {}
    assert forall|i: int| !matches_at(out, value, i) by {}
    assert(out.subrange(7, 15) =~= "redacted"@);
    assert(matches_at(out, "redacted"@, 7));
}

/// Redacting what redaction already produced changes nothing.
pub proof fn lemma_redaction_idempotent(value: Seq<char>)
    ensures
        redacted(redacted(value)) == redacted(value),
{
    reveal_strlit("… (redacted)");
    reveal_strlit("(redacted)");
    reveal_strlit("SECRET");
    reveal_strlit("PRIVATE");
    let v = trim(value);
    lemma_trim_idempotent(value);
    let s = redacted(value);
    if secret_shaped(v) {
        assert(s.len() == 16);
        assert(s[0] == 'S');
        assert(s.last() == ')');
        lemma_trim_fixed(s);
        assert forall|i: int| !matches_at(s, "SECRET"@, i) by {
            if matches_at(s, "SECRET"@, i) {
                if i <= 4 {
                    assert(s[4] == s.subrange(i, i + 6)[4 - i]);
                } else {
                    assert(s[i] == s.subrange(i, i + 6)[0]);
                }
            }
        }
        assert forall|i: int| !matches_at(s, "PRIVATE"@, i) by {
            if matches_at(s, "PRIVATE"@, i) {
                if i <= 4 {
                    assert(s[4] == s.subrange(i, i + 7)[4 - i]);
                } else {
                    assert(s[i] == s.subrange(i, i + 7)[0]);
                }
            }
        }
    } else if contains(v, "SECRET"@) || contains(v, "PRIVATE"@) {
        assert(s.len() == 10);
        lemma_trim_fixed(s);
        assert forall|i: int| !matches_at(s, "SECRET"@, i) by {
            if matches_at(s, "SECRET"@, i) {
                assert(s[i] == s.subrange(i, i + 6)[0]);
            }
        }
        assert forall|i: int| !matches_at(s, "PRIVATE"@, i) by {
            if matches_at(s, "PRIVATE"@, i) {
                assert(s[i] == s.subrange(i, i + 7)[0]);
            }
        }
    } else {
        assert(trim(s) == s);
    }
}

} // verus!
