//! The output formats the resolved environment can be rendered in, and
//! the parsing of a format name. Rendering itself is serialization at the
//! output edge and lives with the driver; which format a name or a file
//! extension selects is decided here.
use crate::text::{push_char, spec_is_ws, spec_lower_char, spec_trim_end, str_eq, trim_end_ws};
use vstd::prelude::*;

verus! {

/// An output format for the resolved environment.
#[derive(Clone, Copy, PartialEq, Eq, Structural, Debug)]
pub enum Format {
    Env,
    Defaults,
    Hocon,
    Json,
    Properties,
    Yaml,
}

/// The error of parsing an unknown format name; holds the rejected name.
pub struct ParseFormatError(pub String);

/// The string without its leading ASCII whitespace.
pub open spec fn spec_trim_start(s: Seq<char>) -> Seq<char>
    decreases s.len(),
{
    if s.len() > 0 && spec_is_ws(s[0]) {
        spec_trim_start(s.skip(1))
    } else {
        s
    }
}

/// The string lowercased character by character (ASCII letters only).
pub open spec fn spec_lower_seq(s: Seq<char>) -> Seq<char> {
    Seq::new(s.len(), |i: int| spec_lower_char(s[i]))
}

/// The canonical form of a format name: whitespace trimmed from both
/// ends, then lowercased.
pub open spec fn spec_canon_name(s: Seq<char>) -> Seq<char> {
    spec_lower_seq(spec_trim_start(spec_trim_end(s)))
}

/// The format a canonical name selects, if any. Both spellings of the
/// HOCON name are accepted.
pub open spec fn spec_parse_format(s: Seq<char>) -> Option<Format> {
    let t = spec_canon_name(s);
    if t == "env"@ {
        Some(Format::Env)
    } else if t == "defaults"@ {
        Some(Format::Defaults)
    } else if t == "hocon"@ || t == "hcon"@ {
        Some(Format::Hocon)
    } else if t == "json"@ {
        Some(Format::Json)
    } else if t == "properties"@ {
        Some(Format::Properties)
    } else if t == "yaml"@ {
        Some(Format::Yaml)
    } else {
        None
    }
}

/// Removes leading ASCII whitespace.
fn trim_start_ws(s: &str) -> (r: String)
    ensures
        r@ == spec_trim_start(s@),
{
    let n = s.unicode_len();
    let mut i: usize = 0;
    proof {
        assert(s@.skip(0) =~= s@);
    }
    loop
        invariant_except_break
            i <= n,
            n == s@.len(),
            spec_trim_start(s@) == spec_trim_start(s@.skip(i as int)),
        ensures
            i <= n,
            spec_trim_start(s@) == s@.skip(i as int),
        decreases n - i,
    {
        if i >= n {
            assert(s@.skip(i as int) =~= Seq::<char>::empty());
            break;
        }
        let c = s.get_char(i);
        proof {
            assert(s@.skip(i as int)[0] == s@[i as int]);
        }
        if c == ' ' || c == '\n' || c == '\r' || c == '\t' {
            proof {
                assert(s@.skip(i as int).skip(1) =~= s@.skip(i + 1));
            }
            i += 1;
        } else {
            break;
        }
    }
    let r = crate::text::copy_str(s, i, n);
    proof {
        assert(r@ =~= s@.skip(i as int));
    }
    r
}

/// The canonical form of a format name.
fn canon_name(s: &str) -> (r: String)
    ensures
        r@ == spec_canon_name(s@),
{
    let t1 = trim_end_ws(s);
    let t2 = trim_start_ws(t1.as_str());
    let t = t2.as_str();
    let n = t.unicode_len();
    let mut out = String::new();
    let mut i: usize = 0;
    while i < n
        invariant
            n == t@.len(),
            i <= n,
            out@ =~= spec_lower_seq(t@).take(i as int),
        decreases n - i,
    {
        let c = crate::text::lower_char(t.get_char(i));
        push_char(&mut out, c);
        i += 1;
        assert(out@ =~= spec_lower_seq(t@).take(i as int));
    }
    proof {
        assert(out@ =~= spec_lower_seq(t@));
    }
    out
}

impl Format {
    /// Parses a format name; `None` exactly on unknown names.
    pub fn parse(s: &str) -> (r: Option<Format>)
        ensures
            r == spec_parse_format(s@),
    {
        let t = canon_name(s);
        let t = t.as_str();
        if str_eq(t, "env") {
            Some(Format::Env)
        } else if str_eq(t, "defaults") {
            Some(Format::Defaults)
        } else if str_eq(t, "hocon") || str_eq(t, "hcon") {
            Some(Format::Hocon)
        } else if str_eq(t, "json") {
            Some(Format::Json)
        } else if str_eq(t, "properties") {
            Some(Format::Properties)
        } else if str_eq(t, "yaml") {
            Some(Format::Yaml)
        } else {
            None
        }
    }

    /// The format a file extension selects; anything unknown renders as
    /// plain `KEY=value` lines.
    pub fn for_extension(ext: &str) -> (r: Format)
        ensures
            r == (if ext@ == "defaults"@ || ext@ == "sh"@ {
                Format::Defaults
            } else if ext@ == "hocon"@ {
                Format::Hocon
            } else if ext@ == "js"@ || ext@ == "json"@ {
                Format::Json
            } else if ext@ == "properties"@ {
                Format::Properties
            } else if ext@ == "yml"@ || ext@ == "yaml"@ {
                Format::Yaml
            } else {
                Format::Env
            }),
    {
        if str_eq(ext, "defaults") || str_eq(ext, "sh") {
            Format::Defaults
        } else if str_eq(ext, "hocon") {
            Format::Hocon
        } else if str_eq(ext, "js") || str_eq(ext, "json") {
            Format::Json
        } else if str_eq(ext, "properties") {
            Format::Properties
        } else if str_eq(ext, "yml") || str_eq(ext, "yaml") {
            Format::Yaml
        } else {
            Format::Env
        }
    }
}

/// How one character of a key is written in the properties format.
pub open spec fn spec_esc_key_char(c: char) -> Seq<char> {
    if c == '\\' {
        seq!['\\', '\\']
    } else if c == '\n' {
        seq!['\\', 'n']
    } else if c == '\r' {
        seq!['\\', 'r']
    } else if c == '\t' {
        seq!['\\', 't']
    } else if c == ' ' {
        seq!['\\', ' ']
    } else {
        seq![c]
    }
}

/// How one character of a value is written in the properties format:
/// like a key character, except that spaces stand as they are.
pub open spec fn spec_esc_value_char(c: char) -> Seq<char> {
    if c == ' ' {
        seq![' ']
    } else {
        spec_esc_key_char(c)
    }
}

/// A key as written in the properties format.
pub open spec fn spec_escape_key(s: Seq<char>) -> Seq<char>
    decreases s.len(),
{
    if s.len() == 0 {
        Seq::empty()
    } else {
        spec_esc_key_char(s[0]) + spec_escape_key(s.skip(1))
    }
}

/// A value as written in the properties format.
pub open spec fn spec_escape_value(s: Seq<char>) -> Seq<char>
    decreases s.len(),
{
    if s.len() == 0 {
        Seq::empty()
    } else {
        spec_esc_value_char(s[0]) + spec_escape_value(s.skip(1))
    }
}

fn push_esc_char(out: &mut String, c: char, escape_space: bool)
    ensures
        final(out)@ == old(out)@ + (if escape_space {
            spec_esc_key_char(c)
        } else {
            spec_esc_value_char(c)
        }),
{
    let ghost pre = out@;
    if c == '\\' {
        push_char(out, '\\');
        push_char(out, '\\');
    } else if c == '\n' {
        push_char(out, '\\');
        push_char(out, 'n');
    } else if c == '\r' {
        push_char(out, '\\');
        push_char(out, 'r');
    } else if c == '\t' {
        push_char(out, '\\');
        push_char(out, 't');
    } else if c == ' ' && escape_space {
        push_char(out, '\\');
        push_char(out, ' ');
    } else {
        push_char(out, c);
    }
    proof {
        if escape_space {
            assert(out@ =~= pre + spec_esc_key_char(c));
        } else {
            assert(out@ =~= pre + spec_esc_value_char(c));
        }
    }
}

/// Escapes a variable name for the properties format.
pub fn escape_properties_key(value: &str) -> (r: String)
    ensures
        r@ == spec_escape_key(value@),
{
    let n = value.unicode_len();
    let mut out = String::new();
    let mut i: usize = 0;
    proof {
        assert(value@.skip(0) =~= value@);
        assert(out@ + spec_escape_key(value@) =~= spec_escape_key(value@));
    }
    while i < n
        invariant
            n == value@.len(),
            i <= n,
            out@ + spec_escape_key(value@.skip(i as int)) == spec_escape_key(value@),
        decreases n - i,
    {
        let ghost pre = out@;
        let c = value.get_char(i);
        push_esc_char(&mut out, c, true);
        proof {
            assert(value@.skip(i as int)[0] == c);
            assert(value@.skip(i as int).skip(1) =~= value@.skip(i + 1));
            assert(spec_escape_key(value@.skip(i as int)) == spec_esc_key_char(c)
                + spec_escape_key(value@.skip(i + 1)));
            assert(out@ + spec_escape_key(value@.skip(i + 1)) =~= pre + spec_escape_key(
                value@.skip(i as int),
            ));
        }
        i += 1;
    }
    proof {
        assert(value@.skip(n as int) =~= Seq::<char>::empty());
        assert(out@ =~= out@ + spec_escape_key(value@.skip(n as int)));
    }
    out
}

/// Escapes a variable value for the properties format.
pub fn escape_properties_value(value: &str) -> (r: String)
    ensures
        r@ == spec_escape_value(value@),
{
    let n = value.unicode_len();
    let mut out = String::new();
    let mut i: usize = 0;
    proof {
        assert(value@.skip(0) =~= value@);
        assert(out@ + spec_escape_value(value@) =~= spec_escape_value(value@));
    }
    while i < n
        invariant
            n == value@.len(),
            i <= n,
            out@ + spec_escape_value(value@.skip(i as int)) == spec_escape_value(value@),
        decreases n - i,
    {
        let ghost pre = out@;
        let c = value.get_char(i);
        push_esc_char(&mut out, c, false);
        proof {
            assert(value@.skip(i as int)[0] == c);
            assert(value@.skip(i as int).skip(1) =~= value@.skip(i + 1));
            assert(spec_escape_value(value@.skip(i as int)) == spec_esc_value_char(c)
                + spec_escape_value(value@.skip(i + 1)));
            assert(out@ + spec_escape_value(value@.skip(i + 1)) =~= pre + spec_escape_value(
                value@.skip(i as int),
            ));
        }
        i += 1;
    }
    proof {
        assert(value@.skip(n as int) =~= Seq::<char>::empty());
        assert(out@ =~= out@ + spec_escape_value(value@.skip(n as int)));
    }
    out
}

impl core::str::FromStr for Format {
    type Err = ParseFormatError;

    fn from_str(s: &str) -> Result<Format, ParseFormatError> {
        match Format::parse(s) {
            Some(f) => Ok(f),
            None => Err(ParseFormatError(s.to_owned())),
        }
    }
}

} // verus!
