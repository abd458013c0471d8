use vstd::prelude::*;

verus! {

/// A character every UTF-8 byte of which is legal in an HTTP header value:
/// horizontal tab, or anything but the other ASCII control characters
/// (codes below 32, and 127). Every character above 127 qualifies, since
/// its encoding uses bytes of 128 and above only.
pub open spec fn header_char_ok(c: char) -> bool {
    c as int == 9 || (32 <= c as int && c as int != 127)
}

/// A string that can stand verbatim as an HTTP header value.
pub open spec fn header_safe(s: Seq<char>) -> bool {
    forall|i: int| 0 <= i < s.len() ==> header_char_ok(s[i])
}

/// Decides whether `s` can stand as an HTTP header value.
pub fn check_header_safe(s: &str) -> (r: bool)
    ensures
        r == header_safe(s@),
{
    let len = s.unicode_len();
    let mut i: usize = 0;
    while i < len
        invariant
            i <= len,
            len == s@.len(),
            forall|j: int| 0 <= j < i ==> header_char_ok(s@[j]),
        decreases len - i,
    {
        let c = s.get_char(i);
        let code = c as u32;
        if !(code == 9 || (32 <= code && code != 127)) {
            proof {
                assert(!header_char_ok(s@[i as int]));
                assert(!header_safe(s@));
            }
            return false;
        }
        i += 1;
    }
    true
}

/// The value of the authentication cookie header for a given credential.
pub open spec fn cookie_value(credential: Seq<char>) -> Seq<char> {
    "session="@ + credential
}

/// The cookie header value is header-safe exactly when the credential is:
/// the fixed prefix adds printable ASCII characters only.
pub proof fn lemma_cookie_header_safe(credential: Seq<char>)
    ensures
        header_safe(cookie_value(credential)) == header_safe(credential),
{
    reveal_strlit("session=");
    let pre = "session="@;
    assert(pre.len() == 8);
    assert(header_char_ok(pre[0]));
    assert(header_char_ok(pre[1]));
    assert(header_char_ok(pre[2]));
    assert(header_char_ok(pre[3]));
    assert(header_char_ok(pre[4]));
    assert(header_char_ok(pre[5]));
    assert(header_char_ok(pre[6]));
    assert(header_char_ok(pre[7]));
    let whole = cookie_value(credential);
    if header_safe(credential) {
        assert forall|i: int| 0 <= i < whole.len() implies header_char_ok(whole[i]) by {
            if i < 8 {
                assert(whole[i] == pre[i]);
            } else {
                assert(whole[i] == credential[i - 8]);
            }
        }
    }
    if header_safe(whole) {
        assert forall|j: int| 0 <= j < credential.len() implies header_char_ok(credential[j]) by {
            assert(credential[j] == whole[j + 8]);
        }
    }
}

/// Builds the cookie header value that carries the session credential.
pub fn make_cookie(credential: &str) -> (c: String)
    ensures
        c@ == cookie_value(credential@),
{
    let mut s = String::from_str("session=");
    s.append(credential);
    proof {
        assert(s@ =~= cookie_value(credential@));
    }
    s
}

} // verus!
