//! Device identifier rules and the rate-limit settings record.
use vstd::prelude::*;
use vstd::string::*;
use crate::text::{byte_len, chars_of, str_byte_len};

verus! {

/// Rate-limit settings: requests allowed per window.
pub struct RateLimitConfig {
    pub window_ms: u64,
    pub max_requests: u32,
}

/// Whether std's `char::is_alphanumeric` holds of `c` (Unicode Alphabetic or Numeric).
pub uninterp spec fn char_alphanumeric(c: char) -> bool;

/// Calls std's `char::is_alphanumeric`; the result is named
/// `char_alphanumeric`. Among ASCII characters exactly the letters and the
/// digits are alphanumeric; beyond ASCII the Unicode tables decide, and
/// nothing more is claimed of them.
#[verifier::external_body]
pub(crate) fn is_alphanumeric(c: char) -> (r: bool)
    ensures
        r == char_alphanumeric(c),
        c <= '\u{7f}' ==> (r <==> ascii_alphanumeric(c)),
{
    c.is_alphanumeric()
}

/// An ASCII letter or digit.
pub open spec fn ascii_alphanumeric(c: char) -> bool {
    'a' <= c && c <= 'z' || 'A' <= c && c <= 'Z' || '0' <= c && c <= '9'
}

/// A character allowed in a device identifier: an alphanumeric character
/// (among ASCII characters the letters and digits), a hyphen or an underscore.
pub open spec fn device_id_char(c: char) -> bool {
    (if c <= '\u{7f}' { ascii_alphanumeric(c) } else { char_alphanumeric(c) }) || c == '-' || c == '_'
}

/// A device identifier is non-empty, at most 100 bytes long in UTF-8, and made
/// of alphanumeric characters, hyphens and underscores.
pub open spec fn valid_device_id_chars(s: Seq<char>) -> bool {
    &&& s.len() > 0
    &&& byte_len(s) <= 100
    &&& forall|i: int| 0 <= i < s.len() ==> #[trigger] device_id_char(s[i])
}

/// Every ASCII letter, upper- or lower-case, every digit, the hyphen and
/// the underscore may stand in a device identifier, and no other ASCII
/// character may.
pub proof fn lemma_device_id_ascii(c: char)
    requires
        c <= '\u{7f}',
    ensures
        device_id_char(c) <==> ('a' <= c && c <= 'z' || 'A' <= c && c <= 'Z' || '0' <= c && c <= '9' || c == '-' || c == '_'),
{
}

/// An ASCII identifier made of letters, digits, hyphens and underscores
/// (and, as any string, no longer than memory allows) is valid exactly when
/// it has from 1 to 100 characters.
pub proof fn lemma_device_id_ascii_length(s: Seq<char>)
    requires
        s.len() <= usize::MAX,
        forall|i: int| 0 <= i < s.len() ==> {
            let c = #[trigger] s[i];
            'a' <= c && c <= 'z' || 'A' <= c && c <= 'Z' || '0' <= c && c <= '9' || c == '-' || c == '_'
        },
    ensures
        valid_device_id_chars(s) <==> (1 <= s.len() && s.len() <= 100),
{
    assert(vstd::utf8::is_ascii_chars(s)) by {
        assert forall|i: int| 0 <= i < s.len() implies '\0' <= #[trigger] s[i] <= '\u{7f}' by {
            let c = s[i];
            assert('a' <= c && c <= 'z' || 'A' <= c && c <= 'Z' || '0' <= c && c <= '9' || c == '-' || c == '_');
        }
    }
    vstd::utf8::is_ascii_chars_encode_utf8(s);
    assert forall|i: int| 0 <= i < s.len() implies #[trigger] device_id_char(s[i]) by {
        let c = s[i];
        assert('a' <= c && c <= 'z' || 'A' <= c && c <= 'Z' || '0' <= c && c <= '9' || c == '-' || c == '_');
        lemma_device_id_ascii(c);
    }
    assert(byte_len(s) == s.len());
}

/// `valid_device_id_chars` of the string's characters.
pub open spec fn valid_device_id(s: &str) -> bool {
    valid_device_id_chars(s@)
}

/// Checks a device identifier against `valid_device_id`.
pub fn validate_device_id(device_id: &str) -> (r: bool)
    ensures
        r == valid_device_id(device_id),
{
    if device_id.is_empty() || str_byte_len(device_id) > 100 {
        return false;
    }
    let cs = chars_of(device_id);
    let mut i: usize = 0;
    while i < cs.len()
        invariant
            cs@ == device_id@,
            i <= cs.len(),
            forall|k: int| 0 <= k < i ==> #[trigger] device_id_char(cs@[k]),
        decreases cs.len() - i,
    {
        let c = cs[i];
        if !(is_alphanumeric(c) || c == '-' || c == '_') {
            assert(!device_id_char(device_id@[i as int]));
            return false;
        }
        i = i + 1;
    }
    assert forall|k: int| 0 <= k < device_id@.len() implies #[trigger] device_id_char(device_id@[k]) by {
        assert(device_id_char(cs@[k]));
    }
    true
}

} // verus!
