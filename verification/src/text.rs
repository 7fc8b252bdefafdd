//! Verified helpers for the string manipulation the resolution engine
//! performs: key construction, service-name and dependency-name
//! normalisation, token trimming, and decimal rendering of versions.
use vstd::prelude::*;

verus! {

/// Relies on String::push: appends the given character to the end of the string.
#[verifier::external_body]
pub fn push_char(s: &mut String, c: char)
    ensures
        final(s)@ == old(s)@.push(c),
{
    s.push(c);
}

/// Character-by-character string equality; equivalent to `==` on the views.
pub fn str_eq(a: &str, b: &str) -> (r: bool)
    ensures
        r == (a@ == b@),
{
    let n = a.unicode_len();
    if n != b.unicode_len() {
        assert(a@ != b@) by {
            assert(a@.len() != b@.len());
        }
        return false;
    }
    let mut i: usize = 0;
    while i < n
        invariant
            n == a@.len(),
            n == b@.len(),
            i <= n,
            forall|j: int| 0 <= j < i ==> a@[j] == b@[j],
        decreases n - i,
    {
        if a.get_char(i) != b.get_char(i) {
            return false;
        }
        i += 1;
    }
    assert(a@ =~= b@);
    true
}

/// The uppercase form of an ASCII letter; any other character is unchanged.
pub open spec fn spec_upper_char(c: char) -> char {
    if 'a' <= c && c <= 'z' {
        ((c as u32) - 32) as char
    } else {
        c
    }
}

/// The lowercase form of an ASCII letter; any other character is unchanged.
pub open spec fn spec_lower_char(c: char) -> char {
    if 'A' <= c && c <= 'Z' {
        ((c as u32) + 32) as char
    } else {
        c
    }
}

pub fn upper_char(c: char) -> (r: char)
    ensures
        r == spec_upper_char(c),
{
    if 'a' <= c && c <= 'z' {
        let u = c as u32;
        assert(97 <= u <= 122);
        ((u - 32) as u8) as char
    } else {
        c
    }
}

pub fn lower_char(c: char) -> (r: char)
    ensures
        r == spec_lower_char(c),
{
    if 'A' <= c && c <= 'Z' {
        let u = c as u32;
        assert(65 <= u <= 90);
        ((u + 32) as u8) as char
    } else {
        c
    }
}

/// How one character of a dependency name appears in the derived
/// environment-variable name: hyphens become underscores, letters are
/// uppercased.
pub open spec fn spec_dep_char(c: char) -> char {
    if c == '-' {
        '_'
    } else {
        spec_upper_char(c)
    }
}

/// The normalised form of a dependency name, used as the prefix of the
/// `_BASE_URL` / `_FRONTEND_URL` environment keys.
pub open spec fn spec_normalize_dep(s: Seq<char>) -> Seq<char> {
    Seq::new(s.len(), |i: int| spec_dep_char(s[i]))
}

pub fn normalize_dep(s: &str) -> (r: String)
    ensures
        r@ == spec_normalize_dep(s@),
{
    let n = s.unicode_len();
    let mut out = String::new();
    let mut i: usize = 0;
    while i < n
        invariant
            n == s@.len(),
            i <= n,
            out@ =~= spec_normalize_dep(s@).take(i as int),
        decreases n - i,
    {
        let c = s.get_char(i);
        let mapped = if c == '-' {
            '_'
        } else {
            upper_char(c)
        };
        push_char(&mut out, mapped);
        i += 1;
        assert(out@ =~= spec_normalize_dep(s@).take(i as int));
    }
    assert(out@ =~= spec_normalize_dep(s@));
    out
}

/// How one character of a raw service name appears in its canonical form:
/// underscores become hyphens, letters are lowercased.
pub open spec fn spec_service_char(c: char) -> char {
    if c == '_' {
        '-'
    } else {
        spec_lower_char(c)
    }
}

/// The canonical service name: underscores replaced by hyphens, then
/// lowercased.
pub open spec fn spec_canonical_service(s: Seq<char>) -> Seq<char> {
    Seq::new(s.len(), |i: int| spec_service_char(s[i]))
}

/// Canonicalises a raw service name for use as a namespace.
pub fn canonical_service_name(s: &str) -> (r: String)
    ensures
        r@ == spec_canonical_service(s@),
{
    let n = s.unicode_len();
    let mut out = String::new();
    let mut i: usize = 0;
    while i < n
        invariant
            n == s@.len(),
            i <= n,
            out@ =~= spec_canonical_service(s@).take(i as int),
        decreases n - i,
    {
        let c = s.get_char(i);
        let mapped = if c == '_' {
            '-'
        } else {
            lower_char(c)
        };
        push_char(&mut out, mapped);
        i += 1;
        assert(out@ =~= spec_canonical_service(s@).take(i as int));
    }
    assert(out@ =~= spec_canonical_service(s@));
    out
}

/// ASCII whitespace, as trimmed from the end of a stored token.
pub open spec fn spec_is_ws(c: char) -> bool {
    c == ' ' || c == '\n' || c == '\r' || c == '\t'
}

/// The string without its trailing ASCII whitespace.
pub open spec fn spec_trim_end(s: Seq<char>) -> Seq<char>
    decreases s.len(),
{
    if s.len() == 0 {
        s
    } else if spec_is_ws(s.last()) {
        spec_trim_end(s.drop_last())
    } else {
        s
    }
}

/// Removes trailing whitespace and newlines, as done to the contents of a
/// token file before the token is used.
pub fn trim_end_ws(s: &str) -> (r: String)
    ensures
        r@ == spec_trim_end(s@),
{
    let mut end = s.unicode_len();
    proof {
        assert(s@.take(end as int) =~= s@);
    }
    loop
        invariant
            end <= s@.len(),
            spec_trim_end(s@) == spec_trim_end(s@.take(end as int)),
        ensures
            end <= s@.len(),
            spec_trim_end(s@) == s@.take(end as int),
        decreases end,
    {
        if end == 0 {
            assert(s@.take(0) =~= Seq::<char>::empty());
            break;
        }
        let c = s.get_char(end - 1);
        if c == ' ' || c == '\n' || c == '\r' || c == '\t' {
            proof {
                assert(s@.take(end as int).last() == c);
                assert(s@.take(end as int).drop_last() =~= s@.take(end - 1));
            }
            end = end - 1;
        } else {
            proof {
                assert(s@.take(end as int).last() == c);
                assert(spec_trim_end(s@.take(end as int)) == s@.take(end as int));
            }
            break;
        }
    }
    let mut out = String::new();
    let mut i: usize = 0;
    while i < end
        invariant
            end <= s@.len(),
            i <= end,
            out@ =~= s@.take(i as int),
        decreases end - i,
    {
        let c = s.get_char(i);
        push_char(&mut out, c);
        i += 1;
        assert(out@ =~= s@.take(i as int));
    }
    out
}

/// The decimal digit character for a value below ten.
pub open spec fn spec_digit(n: nat) -> char {
    if n == 0 { '0' }
    else if n == 1 { '1' }
    else if n == 2 { '2' }
    else if n == 3 { '3' }
    else if n == 4 { '4' }
    else if n == 5 { '5' }
    else if n == 6 { '6' }
    else if n == 7 { '7' }
    else if n == 8 { '8' }
    else { '9' }
}

/// The decimal rendering of a natural number, most significant digit first.
pub open spec fn spec_dec(n: nat) -> Seq<char>
    decreases n,
{
    if n < 10 {
        seq![spec_digit(n)]
    } else {
        spec_dec(n / 10) + seq![spec_digit(n % 10)]
    }
}

fn digit_char(n: u64) -> (r: char)
    requires
        n < 10,
    ensures
        r == spec_digit(n as nat),
{
    if n == 0 { '0' }
    else if n == 1 { '1' }
    else if n == 2 { '2' }
    else if n == 3 { '3' }
    else if n == 4 { '4' }
    else if n == 5 { '5' }
    else if n == 6 { '6' }
    else if n == 7 { '7' }
    else { if n == 8 { '8' } else { '9' } }
}

/// Renders a version number in decimal, as it appears in snapshot keys.
pub fn u64_to_string(n: u64) -> (s: String)
    ensures
        s@ == spec_dec(n as nat),
{
    let mut digits: Vec<char> = Vec::new();
    let mut cur = n;
    proof {
        assert(spec_dec(n as nat) =~= spec_dec(n as nat) + digits@.reverse());
    }
    loop
        invariant
            cur > 0 ==> spec_dec(n as nat) =~= spec_dec(cur as nat) + digits@.reverse(),
            cur == 0 ==> spec_dec(n as nat) =~= if digits@.len() > 0 {
                digits@.reverse()
            } else {
                seq!['0']
            },
        ensures
            spec_dec(n as nat) =~= if digits@.len() > 0 {
                digits@.reverse()
            } else {
                seq!['0']
            },
        decreases cur,
    {
        if cur == 0 {
            break;
        }
        let d = cur % 10;
        let next = cur / 10;
        let c = digit_char(d);
        proof {
            let ds = digits@;
            assert(ds.push(c).reverse() =~= seq![c] + ds.reverse());
            if next > 0 {
                assert(spec_dec(cur as nat) == spec_dec(next as nat) + seq![c]);
                assert(spec_dec(next as nat) + seq![c] + ds.reverse() =~= spec_dec(
                    next as nat,
                ) + (seq![c] + ds.reverse()));
            } else {
                assert(cur < 10);
                assert(spec_dec(cur as nat) =~= seq![c]);
            }
        }
        digits.push(c);
        cur = next;
    }
    let mut out = String::new();
    if digits.len() == 0 {
        push_char(&mut out, '0');
        assert(out@ =~= spec_dec(n as nat));
        return out;
    }
    let mut i: usize = digits.len();
    while i > 0
        invariant
            i <= digits@.len(),
            out@ =~= digits@.reverse().take(digits@.len() - i),
        decreases i,
    {
        let c = digits[i - 1];
        proof {
            assert(digits@.reverse()[digits@.len() - i] == digits@[i - 1]);
            assert(out@.push(c) =~= digits@.reverse().take(digits@.len() - (i - 1)));
        }
        push_char(&mut out, c);
        i = i - 1;
    }
    assert(out@ =~= digits@.reverse());
    out
}

/// Splits a `KEY=VALUE` argument at the first `=`; everything after it is
/// the value, and an argument without `=` maps to the empty value.
pub open spec fn spec_split_eq(s: Seq<char>) -> (Seq<char>, Seq<char>) {
    if exists|i: int| 0 <= i < s.len() && s[i] == '='
    {
        let i = choose|i: int| 0 <= i < s.len() && s[i] == '=' && forall|j: int|
            0 <= j < i ==> s[j] != '=';
        (s.take(i), s.skip(i + 1))
    } else {
        (s, Seq::empty())
    }
}

/// Parses one manual `KEY=VALUE` override.
pub fn parse_add(s: &str) -> (r: (String, String))
    ensures
        (r.0@, r.1@) == spec_split_eq(s@),
{
    let n = s.unicode_len();
    let mut i: usize = 0;
    let mut found = n;
    loop
        invariant_except_break
            n == s@.len(),
            i <= n,
            found == n,
            forall|j: int| 0 <= j < i ==> s@[j] != '=',
        ensures
            n == s@.len(),
            found <= n,
            found < n ==> s@[found as int] == '=' && (forall|j: int|
                0 <= j < found ==> s@[j] != '='),
            found == n ==> forall|j: int| 0 <= j < n ==> s@[j] != '=',
        decreases n - i,
    {
        if i >= n {
            break;
        }
        if s.get_char(i) == '=' {
            found = i;
            break;
        }
        i += 1;
    }
    if found == n {
        // no separator present
        let key = copy_str(s, 0, n);
        proof {
            assert(forall|j: int| 0 <= j < s@.len() ==> s@[j] != '=');
            assert(key@ =~= s@);
        }
        return (key, String::new());
    }
    let key = copy_str(s, 0, found);
    let val = copy_str(s, found + 1, n);
    proof {
        let fi = found as int;
        assert(s@[fi] == '=');
        assert(forall|j: int| 0 <= j < fi ==> s@[j] != '=');
        let wi = choose|w: int| 0 <= w < s@.len() && s@[w] == '=' && forall|j: int|
            0 <= j < w ==> s@[j] != '=';
        assert(s@[wi] == '=');
        assert(wi <= fi) by {
            if wi > fi {
                assert(s@[fi] != '=');
            }
        }
        assert(fi <= wi) by {
            if fi > wi {
                assert(s@[wi] != '=');
            }
        }
    }
    (key, val)
}

/// Copies the character range `[from, to)` of a string.
pub fn copy_str(s: &str, from: usize, to: usize) -> (r: String)
    requires
        from <= to <= s@.len(),
    ensures
        r@ == s@.subrange(from as int, to as int),
{
    let mut out = String::new();
    let mut i = from;
    while i < to
        invariant
            from <= i <= to <= s@.len(),
            out@ =~= s@.subrange(from as int, i as int),
        decreases to - i,
    {
        let c = s.get_char(i);
        push_char(&mut out, c);
        i += 1;
        assert(out@ =~= s@.subrange(from as int, i as int));
    }
    out
}

} // verus!
