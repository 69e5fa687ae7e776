use vstd::prelude::*;

use crate::error::ConvError;

verus! {

/// The three serialization formats the converter understands.
#[derive(Clone, Copy, Debug, PartialEq, Eq, Structural)]
pub enum Format {
    JSON,
    YAML,
    TOML,
}

/// ASCII lowercasing of one character; anything outside 'A'..='Z' is kept.
pub open spec fn lower_char(c: char) -> char {
    if 65 <= c as u32 && c as u32 <= 90 {
        ((c as u32 + 32) as u8) as char
    } else {
        c
    }
}

/// ASCII lowercasing of a character sequence.
pub open spec fn lower_seq(s: Seq<char>) -> Seq<char> {
    s.map(|i: int, c: char| lower_char(c))
}

/// Which format a token denotes, case-insensitively: the canonical names
/// "json", "yaml" and "toml", plus the alias "yml" for YAML.
pub open spec fn token_format(s: Seq<char>) -> Option<Format> {
    if lower_seq(s) == "json"@ {
        Some(Format::JSON)
    } else if lower_seq(s) == "yaml"@ || lower_seq(s) == "yml"@ {
        Some(Format::YAML)
    } else if lower_seq(s) == "toml"@ {
        Some(Format::TOML)
    } else {
        None
    }
}

/// The canonical lowercase name of a format.
pub open spec fn canonical_seq(f: Format) -> Seq<char> {
    match f {
        Format::JSON => "json"@,
        Format::YAML => "yaml"@,
        Format::TOML => "toml"@,
    }
}

fn lower_char_exec(c: char) -> (r: char)
    ensures
        r == lower_char(c),
{
    let u = c as u32;
    if 65 <= u && u <= 90 {
        ((u + 32) as u8) as char
    } else {
        c
    }
}

/// Whether the ASCII lowercasing of `s` is exactly `t`.
fn lower_eq(s: &str, t: &str) -> (r: bool)
    ensures
        r == (lower_seq(s@) == t@),
{
    let n = s.unicode_len();
    if n != t.unicode_len() {
        proof {
            assert(lower_seq(s@).len() == s@.len());
        }
        return false;
    }
    let mut i: usize = 0;
    while i < n
        invariant
            i <= n,
            n == s@.len(),
            n == t@.len(),
            forall|j: int| 0 <= j < i ==> lower_char(s@[j]) == t@[j],
        decreases n - i,
    {
        let cs = lower_char_exec(s.get_char(i));
        let ct = t.get_char(i);
        if cs != ct {
            proof {
                assert(lower_seq(s@)[i as int] == lower_char(s@[i as int]));
            }
            return false;
        }
        i = i + 1;
    }
    proof {
        assert(lower_seq(s@) =~= t@);
    }
    true
}

impl Format {
    /// Parses a format token, case-insensitively over the canonical names and
    /// the declared aliases; any other token is an `UnrecognizedFormat` error.
    pub fn parse_token(token: &str) -> (r: Result<Format, ConvError>)
        ensures
            r matches Ok(f) ==> token_format(token@) == Some(f),
            r is Err <==> token_format(token@) is None,
            r matches Err(e) ==> (e matches ConvError::UnrecognizedFormat(t) && t@ == token@),
    {
        if lower_eq(token, "json") {
            Ok(Format::JSON)
        } else if lower_eq(token, "yaml") {
            Ok(Format::YAML)
        } else if lower_eq(token, "yml") {
            Ok(Format::YAML)
        } else if lower_eq(token, "toml") {
            Ok(Format::TOML)
        } else {
            Err(ConvError::UnrecognizedFormat(String::from_str(token)))
        }
    }

    /// The canonical lowercase name of this format.
    pub fn canonical_name(&self) -> (r: &'static str)
        ensures
            r@ == canonical_seq(*self),
    {
        match self {
            Format::JSON => "json",
            Format::YAML => "yaml",
            Format::TOML => "toml",
        }
    }
}

/// A canonical name always parses back to its own format: `canonical_seq` is
/// a right inverse of `token_format`.
pub proof fn lemma_canonical_name_parses(f: Format)
    ensures
        token_format(canonical_seq(f)) == Some(f),
{
    reveal_strlit("json");
    reveal_strlit("yaml");
    reveal_strlit("yml");
    reveal_strlit("toml");
    assert(lower_seq("json"@) =~= "json"@);
    assert(lower_seq("yaml"@) =~= "yaml"@);
    assert(lower_seq("toml"@) =~= "toml"@);
    assert("yaml"@ != "json"@) by {
        assert("yaml"@[0] == 'y' && "json"@[0] == 'j');
    }
    assert("toml"@ != "json"@) by {
        assert("toml"@[0] == 't' && "json"@[0] == 'j');
    }
    assert("toml"@ != "yaml"@) by {
        assert("toml"@[0] == 't' && "yaml"@[0] == 'y');
    }
    assert("toml"@ != "yml"@) by {
        assert("toml"@.len() == 4 && "yml"@.len() == 3);
    }
}

} // verus!
