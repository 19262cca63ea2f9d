use vstd::prelude::*;

verus! {

/// Usernames of the sandbox organisation carry this marker.
pub const SANDBOX_MARKER: &'static str = ".fullsb";

/// Login endpoint of the sandbox organisation.
pub const SANDBOX_ENDPOINT: &'static str = "https://myoutdeskllc--fullsb.my.salesforce.com";

/// Login endpoint of the production organisation.
pub const PRODUCTION_ENDPOINT: &'static str = "https://myoutdeskllc.my.salesforce.com";

/// `needle` occurs in `hay` starting at position `i`.
pub open spec fn occurs_at(hay: Seq<char>, needle: Seq<char>, i: int) -> bool {
    0 <= i && i + needle.len() <= hay.len() && hay.subrange(i, i + needle.len()) == needle
}

/// `needle` occurs somewhere in `hay`.
pub open spec fn has_substring(hay: Seq<char>, needle: Seq<char>) -> bool {
    exists|i: int| occurs_at(hay, needle, i)
}

/// The endpoint that a login for `username` goes to.
pub open spec fn endpoint_for(username: Seq<char>) -> Seq<char> {
    if has_substring(username, SANDBOX_MARKER@) {
        SANDBOX_ENDPOINT@
    } else {
        PRODUCTION_ENDPOINT@
    }
}

/// Whether `needle` occurs in `hay` at character position `i`.
pub fn contains_at(hay: &str, hay_len: usize, needle: &str, needle_len: usize, i: usize) -> (r: bool)
    requires
        hay_len == hay@.len(),
        needle_len == needle@.len(),
        i <= hay_len,
    ensures
        r == occurs_at(hay@, needle@, i as int),
{
    if needle_len > hay_len - i {
        return false;
    }
    let mut j: usize = 0;
    while j < needle_len
        invariant
            j <= needle_len,
            i + needle_len <= hay_len,
            hay_len == hay@.len(),
            needle_len == needle@.len(),
            forall|k: int| 0 <= k < j ==> hay@[i + k] == needle@[k],
        decreases needle_len - j,
    {
        if hay.get_char(i + j) != needle.get_char(j) {
            assert(hay@.subrange(i as int, i + needle_len)[j as int] != needle@[j as int]);
            return false;
        }
        j = j + 1;
    }
    assert(hay@.subrange(i as int, i + needle_len) =~= needle@);
    true
}

/// Whether the username belongs to the sandbox organisation.
pub fn is_sandbox_user(username: &str) -> (r: bool)
    ensures
        r == has_substring(username@, SANDBOX_MARKER@),
{
    let marker = SANDBOX_MARKER;
    let hay_len = username.unicode_len();
    let needle_len = marker.unicode_len();
    proof {
        reveal_strlit(".fullsb");
        assert(marker@.len() == 7);
    }
    if needle_len > hay_len {
        return false;
    }
    let last = hay_len - needle_len;
    let mut i: usize = 0;
    while i <= last
        invariant
            last + needle_len == hay_len,
            needle_len > 0,
            hay_len == username@.len(),
            needle_len == marker@.len(),
            marker@ == SANDBOX_MARKER@,
            forall|k: int| 0 <= k < i ==> !occurs_at(username@, marker@, k),
        decreases last + 1 - i,
    {
        if contains_at(username, hay_len, marker, needle_len, i) {
            return true;
        }
        i = i + 1;
    }
    false
}

/// The login endpoint for `username`: the sandbox endpoint when the username
/// carries the sandbox marker, the production endpoint otherwise.
pub fn login_endpoint(username: &str) -> (r: &'static str)
    ensures
        r@ == endpoint_for(username@),
{
    if is_sandbox_user(username) {
        SANDBOX_ENDPOINT
    } else {
        PRODUCTION_ENDPOINT
    }
}

} // verus!
