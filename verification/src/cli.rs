use vstd::prelude::*;

use crate::error::{ConvError, Side};
use crate::format::{token_format, Format};

verus! {

/// The index of the last occurrence of `c` in `s`, if any.
pub open spec fn rlast_idx(s: Seq<char>, c: char) -> Option<int>
    decreases s.len(),
{
    if s.len() == 0 {
        None
    } else if s[s.len() - 1] == c {
        Some(s.len() - 1)
    } else {
        rlast_idx(s.drop_last(), c)
    }
}

pub proof fn lemma_rlast_idx(s: Seq<char>, c: char)
    ensures
        match rlast_idx(s, c) {
            Some(i) => 0 <= i < s.len() && s[i] == c && (forall|j: int|
                i < j < s.len() ==> s[j] != c),
            None => forall|j: int| 0 <= j < s.len() ==> s[j] != c,
        },
    decreases s.len(),
{
    if s.len() == 0 {
    } else if s[s.len() - 1] == c {
    } else {
        lemma_rlast_idx(s.drop_last(), c);
        match rlast_idx(s.drop_last(), c) {
            Some(i) => {
                assert(s.drop_last()[i] == s[i]);
                assert forall|j: int| i < j < s.len() implies s[j] != c by {
                    if j < s.len() - 1 {
                        assert(s.drop_last()[j] == s[j]);
                    }
                }
            },
            None => {
                assert forall|j: int| 0 <= j < s.len() implies s[j] != c by {
                    if j < s.len() - 1 {
                        assert(s.drop_last()[j] == s[j]);
                    }
                }
            },
        }
    }
}

/// Where the filename begins: just after the last '/', or at the start.
pub open spec fn name_start(s: Seq<char>) -> int {
    match rlast_idx(s, '/') {
        Some(k) => k + 1,
        None => 0,
    }
}

/// The path's filename extension: the text after the last '.', provided that
/// dot lies inside the filename and is not its first character.
pub open spec fn ext_of(s: Seq<char>) -> Option<Seq<char>> {
    match rlast_idx(s, '.') {
        Some(d) => if d > name_start(s) {
            Some(s.subrange(d + 1, s.len() as int))
        } else {
            None
        },
        None => None,
    }
}

/// The format inferred from a path: its extension read as a format token.
pub open spec fn path_format(s: Seq<char>) -> Option<Format> {
    match ext_of(s) {
        Some(e) => token_format(e),
        None => None,
    }
}

/// The effective format for one side of the conversion: an explicit format
/// wins unconditionally; otherwise the path's extension decides; otherwise
/// resolution fails.
pub open spec fn resolve_spec(path: Option<Seq<char>>, format: Option<Format>) -> Option<Format> {
    match format {
        Some(f) => Some(f),
        None => match path {
            Some(p) => path_format(p),
            None => None,
        },
    }
}

fn find_last(s: &str, c: char) -> (r: Option<usize>)
    ensures
        match r {
            Some(i) => rlast_idx(s@, c) == Some(i as int),
            None => rlast_idx(s@, c) is None,
        },
{
    let n = s.unicode_len();
    let mut i: usize = n;
    while i > 0
        invariant
            i <= n,
            n == s@.len(),
            forall|j: int| i <= j < n ==> s@[j] != c,
        decreases i,
    {
        i = i - 1;
        if s.get_char(i) == c {
            proof {
                lemma_rlast_idx(s@, c);
            }
            return Some(i);
        }
    }
    proof {
        lemma_rlast_idx(s@, c);
    }
    None
}

/// The format inferred from a path's extension, if any.
fn format_from_path(path: &str) -> (r: Option<Format>)
    ensures
        r == path_format(path@),
{
    let n = path.unicode_len();
    let dot = match find_last(path, '.') {
        Some(d) => d,
        None => {
            return None;
        },
    };
    proof {
        lemma_rlast_idx(path@, '.');
    }
    let start: usize = match find_last(path, '/') {
        Some(k) => {
            proof {
                lemma_rlast_idx(path@, '/');
            }
            k + 1
        },
        None => 0,
    };
    if dot > start {
        let e = path.substring_char(dot + 1, n);
        match Format::parse_token(e) {
            Ok(f) => Some(f),
            Err(_) => None,
        }
    } else {
        None
    }
}

/// The effective format for one side: the explicit format wins; otherwise the
/// path's extension is consulted; with neither, resolution fails.
pub fn get_format(path: Option<&String>, format: Option<&Format>) -> (r: Option<Format>)
    ensures
        r == resolve_spec(
            match path {
                Some(p) => Some(p@),
                None => None,
            },
            match format {
                Some(f) => Some(*f),
                None => None,
            },
        ),
{
    match format {
        Some(f) => Some(*f),
        None => match path {
            Some(p) => format_from_path(p.as_str()),
            None => None,
        },
    }
}

/// The resolved intent of one run: optional input and output paths, optional
/// explicit input and output formats.
pub struct Args {
    pub in_path: Option<String>,
    pub out_path: Option<String>,
    pub in_format: Option<Format>,
    pub out_format: Option<Format>,
}

pub open spec fn path_view(p: Option<String>) -> Option<Seq<char>> {
    match p {
        Some(s) => Some(s@),
        None => None,
    }
}

/// What validation decides, in order: each side must name a path or a format;
/// a supplied input path must be a regular file; then each side's format is
/// resolved, input first.
pub open spec fn validate_spec(a: Args, in_path_is_file: bool) -> Result<
    (Format, Format),
    ConvError,
> {
    if a.in_path is None && a.in_format is None {
        Err(ConvError::MissingFormatSource(Side::Input))
    } else if a.out_path is None && a.out_format is None {
        Err(ConvError::MissingFormatSource(Side::Output))
    } else if a.in_path is Some && !in_path_is_file {
        Err(ConvError::InputPathInvalid)
    } else {
        match resolve_spec(path_view(a.in_path), a.in_format) {
            Some(fi) => match resolve_spec(path_view(a.out_path), a.out_format) {
                Some(fo) => Ok((fi, fo)),
                None => Err(ConvError::UnresolvableFormat(Side::Output)),
            },
            None => Err(ConvError::UnresolvableFormat(Side::Input)),
        }
    }
}

impl Args {
    /// Checks the run's preconditions and resolves both formats.
    /// `in_path_is_file` reports whether the input path, if one was given,
    /// names an existing regular file; the caller establishes it.
    pub fn validate(&self, in_path_is_file: bool) -> (r: Result<(Format, Format), ConvError>)
        ensures
            r == validate_spec(*self, in_path_is_file),
    {
        if self.in_path.is_none() && self.in_format.is_none() {
            return Err(ConvError::MissingFormatSource(Side::Input));
        }
        if self.out_path.is_none() && self.out_format.is_none() {
            return Err(ConvError::MissingFormatSource(Side::Output));
        }
        if self.in_path.is_some() && !in_path_is_file {
            return Err(ConvError::InputPathInvalid);
        }
        let fi = match get_format(self.in_path.as_ref(), self.in_format.as_ref()) {
            Some(f) => f,
            None => {
                return Err(ConvError::UnresolvableFormat(Side::Input));
            },
        };
        let fo = match get_format(self.out_path.as_ref(), self.out_format.as_ref()) {
            Some(f) => f,
            None => {
                return Err(ConvError::UnresolvableFormat(Side::Output));
            },
        };
        Ok((fi, fo))
    }
}

/// An explicit format override wins: resolution never consults the path when
/// an explicit format is present.
pub proof fn lemma_explicit_format_wins(path: Option<Seq<char>>, f: Format)
    ensures
        resolve_spec(path, Some(f)) == Some(f),
{
}

/// Alias recognition: a path whose extension is "yml", with no explicit
/// format, resolves to YAML.
pub proof fn lemma_yml_resolves_to_yaml(path: Seq<char>)
    requires
        ext_of(path) == Some("yml"@),
    ensures
        resolve_spec(Some(path), None) == Some(Format::YAML),
{
    reveal_strlit("json");
    reveal_strlit("yaml");
    reveal_strlit("yml");
    assert(crate::format::lower_seq("yml"@) =~= "yml"@);
    assert("yml"@ != "json"@) by {
        assert("yml"@.len() == 3 && "json"@.len() == 4);
    }
    assert("yml"@ != "yaml"@) by {
        assert("yml"@.len() == 3 && "yaml"@.len() == 4);
    }
}

/// A path without a usable extension, with no explicit format, leaves the
/// side's format unresolved, and validation reports it for the input side.
pub proof fn lemma_no_extension_unresolvable(a: Args, in_path_is_file: bool)
    requires
        a.in_format is None,
        a.in_path matches Some(p) && ext_of(p@) is None,
        !(a.out_path is None && a.out_format is None),
        in_path_is_file,
    ensures
        validate_spec(a, in_path_is_file) == Err::<(Format, Format), ConvError>(
            ConvError::UnresolvableFormat(Side::Input),
        ),
{
}

/// A side with neither a path nor an explicit format fails validation's
/// precondition check: here the input side.
pub proof fn lemma_missing_source_input(a: Args, in_path_is_file: bool)
    requires
        a.in_path is None,
        a.in_format is None,
    ensures
        validate_spec(a, in_path_is_file) == Err::<(Format, Format), ConvError>(
            ConvError::MissingFormatSource(Side::Input),
        ),
{
}

/// A side with neither a path nor an explicit format fails validation's
/// precondition check: here the output side.
pub proof fn lemma_missing_source_output(a: Args, in_path_is_file: bool)
    requires
        !(a.in_path is None && a.in_format is None),
        a.out_path is None,
        a.out_format is None,
    ensures
        validate_spec(a, in_path_is_file) == Err::<(Format, Format), ConvError>(
            ConvError::MissingFormatSource(Side::Output),
        ),
{
}

} // verus!
