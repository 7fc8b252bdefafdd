//! Base-address handling for the backend clients.
//!
//! Addresses are modelled as plain strings. Validating that a caller-given
//! URL can serve as a hierarchical base happens at the edge, before a
//! client is built; here the clients only append the fixed API path
//! segments and join request keys, which is ordinary string construction.
use crate::text::push_char;
use vstd::prelude::*;

verus! {

/// A string ending in `/`: the address with a trailing slash ensured.
pub open spec fn spec_with_slash(addr: Seq<char>) -> Seq<char> {
    if addr.len() > 0 && addr.last() == '/' {
        addr
    } else {
        addr + "/"@
    }
}

/// The API base of the secrets backend: the address followed by `v1/`.
pub open spec fn spec_api_base(addr: Seq<char>) -> Seq<char> {
    spec_with_slash(addr) + "v1/"@
}

/// The API base of the configuration backend: the address followed by
/// `v1/kv/`.
pub open spec fn spec_kv_base(addr: Seq<char>) -> Seq<char> {
    spec_with_slash(addr) + "v1/kv/"@
}

/// The key without its leading slashes, as joined onto a base address.
pub open spec fn spec_strip_slashes(k: Seq<char>) -> Seq<char>
    decreases k.len(),
{
    if k.len() > 0 && k[0] == '/' {
        spec_strip_slashes(k.skip(1))
    } else {
        k
    }
}

/// The URL a request for `key` is sent to, given a client base address.
pub open spec fn spec_request_url(base: Seq<char>, key: Seq<char>) -> Seq<char> {
    base + spec_strip_slashes(key)
}

/// Appends a trailing slash if the address lacks one.
pub fn with_slash(addr: &str) -> (r: String)
    ensures
        r@ == spec_with_slash(addr@),
{
    let n = addr.unicode_len();
    let mut out = addr.to_owned();
    if n == 0 || addr.get_char(n - 1) != '/' {
        push_char(&mut out, '/');
        proof {
            reveal_strlit("/");
            assert(out@ =~= addr@ + "/"@);
        }
    }
    out
}

pub fn api_base(addr: &str) -> (r: String)
    ensures
        r@ == spec_api_base(addr@),
{
    let mut out = with_slash(addr);
    out.append("v1/");
    out
}

pub fn kv_base(addr: &str) -> (r: String)
    ensures
        r@ == spec_kv_base(addr@),
{
    let mut out = with_slash(addr);
    out.append("v1/kv/");
    out
}

/// Removes the leading slashes of a key.
pub fn strip_slashes(key: &str) -> (r: String)
    ensures
        r@ == spec_strip_slashes(key@),
{
    let n = key.unicode_len();
    let mut i: usize = 0;
    proof {
        assert(key@.skip(0) =~= key@);
    }
    loop
        invariant_except_break
            i <= n,
            n == key@.len(),
            spec_strip_slashes(key@) == spec_strip_slashes(key@.skip(i as int)),
        ensures
            i <= n,
            spec_strip_slashes(key@) == key@.skip(i as int),
        decreases n - i,
    {
        if i >= n {
            assert(key@.skip(i as int) =~= Seq::<char>::empty());
            break;
        }
        if key.get_char(i) != '/' {
            assert(key@.skip(i as int)[0] == key@[i as int]);
            break;
        }
        proof {
            assert(key@.skip(i as int)[0] == key@[i as int]);
            assert(key@.skip(i as int).skip(1) =~= key@.skip(i + 1));
        }
        i += 1;
    }
    let r = crate::text::copy_str(key, i, n);
    proof {
        assert(r@ =~= key@.skip(i as int));
    }
    r
}

/// Joins a request key onto a base address.
pub fn request_url(base: &str, key: &str) -> (r: String)
    ensures
        r@ == spec_request_url(base@, key@),
{
    let mut out = base.to_owned();
    let tail = strip_slashes(key);
    out.append(tail.as_str());
    out
}

} // verus!
