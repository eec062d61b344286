use vstd::prelude::*;
use vstd::string::StrSliceExecFns;
use vstd::string::StringExecFns;

verus! {

/// The scheme put in front of an address that names none.
pub open spec fn default_scheme() -> Seq<char> {
    "http://"@
}

/// An address counts as already carrying a scheme when it starts with
/// `http://` or `https://`.
pub open spec fn has_scheme(url: Seq<char>) -> bool {
    "http://"@.is_prefix_of(url) || "https://"@.is_prefix_of(url)
}

/// The address that a probe of `url` is sent to: `url` itself when it has a
/// scheme, else `url` behind `http://`. Nothing else is changed.
pub open spec fn normalized(url: Seq<char>) -> Seq<char> {
    if has_scheme(url) {
        url
    } else {
        default_scheme() + url
    }
}

/// Whether `s` starts with `prefix`, compared character by character.
pub fn starts_with(s: &str, prefix: &str) -> (r: bool)
    ensures
        r == prefix@.is_prefix_of(s@),
{
    let n = prefix.unicode_len();
    let m = s.unicode_len();
    if n > m {
        return false;
    }
    let mut i: usize = 0;
    while i < n
        invariant
            n == prefix@.len(),
            m == s@.len(),
            n <= m,
            i <= n,
            forall|j: int| 0 <= j < i ==> prefix@[j] == s@[j],
        decreases n - i,
    {
        if prefix.get_char(i) != s.get_char(i) {
            return false;
        }
        i = i + 1;
    }
    true
}

/// The address to probe for `url`: `http://` is put in front unless the
/// address already starts with `http://` or `https://`.
pub fn normalize_url(url: &str) -> (r: String)
    ensures
        r@ == normalized(url@),
{
    if starts_with(url, "http://") || starts_with(url, "https://") {
        String::from_str(url)
    } else {
        let mut out = String::from_str("http://");
        out.append(url);
        out
    }
}

} // verus!
