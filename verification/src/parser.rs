//! Loading, decoding, and validating configuration text.
//!
//! Supports automatic format detection (TOML or JSON) based on the file
//! extension of the path the text came from, or an explicit format hint.

use crate::config::Config;
use crate::error::ConfigError;
use vstd::prelude::*;
use vstd::string::*;

verus! {

/// Supported configuration file formats.
///
/// Used to guide or infer the decoding strategy.
#[derive(Debug, Clone, Copy, PartialEq, Eq, Structural)]
pub enum ConfigFormat {
    /// TOML (`.toml`)
    Toml,
    /// JSON (`.json`)
    Json,
}

/// The Unicode scalar value of a character after ASCII case folding: the
/// letters `A` through `Z` (scalar values 65 through 90) fold to their
/// lower-case counterparts, every other character is unchanged.
pub open spec fn fold_scalar(c: char) -> int {
    if 65 <= c as u32 <= 90 {
        c as u32 + 32
    } else {
        c as u32 as int
    }
}

/// Character equality up to ASCII case.
pub open spec fn char_eq_nocase(a: char, b: char) -> bool {
    fold_scalar(a) == fold_scalar(b)
}

/// String equality up to ASCII case.
pub open spec fn eq_nocase(a: Seq<char>, b: Seq<char>) -> bool {
    a.len() == b.len() && (forall|i: int| 0 <= i < a.len() ==> char_eq_nocase(a[i], b[i]))
}

/// Compares two strings for equality up to ASCII case.
fn str_eq_nocase(a: &str, b: &str) -> (r: bool)
    ensures
        r == eq_nocase(a@, b@),
{
    let alen = a.unicode_len();
    let blen = b.unicode_len();
    if alen != blen {
        return false;
    }
    let mut i: usize = 0;
    while i < alen
        invariant
            0 <= i <= alen,
            alen == a@.len(),
            blen == b@.len(),
            alen == blen,
            forall|k: int| 0 <= k < i ==> char_eq_nocase(a@[k], b@[k]),
        decreases alen - i,
    {
        let ua: u32 = a.get_char(i) as u32;
        let ub: u32 = b.get_char(i) as u32;
        let la: u32 = if 65 <= ua && ua <= 90 {
            ua + 32
        } else {
            ua
        };
        let lb: u32 = if 65 <= ub && ub <= 90 {
            ub + 32
        } else {
            ub
        };
        if la != lb {
            assert(!char_eq_nocase(a@[i as int], b@[i as int]));
            return false;
        }
        i += 1;
    }
    true
}

/// The format an extension maps to: `toml` and `json`, case-insensitively;
/// anything else is unrecognized.
pub open spec fn spec_from_extension(ext: Seq<char>) -> Option<ConfigFormat> {
    if eq_nocase(ext, "toml"@) {
        Some(ConfigFormat::Toml)
    } else if eq_nocase(ext, "json"@) {
        Some(ConfigFormat::Json)
    } else {
        None
    }
}

/// Extension inference is case-insensitive: two extensions that are equal up
/// to ASCII case map to the same format (one of `Toml`, `Json`, or none).
pub proof fn lemma_from_extension_case_insensitive(e1: Seq<char>, e2: Seq<char>)
    requires
        eq_nocase(e1, e2),
    ensures
        spec_from_extension(e1) == spec_from_extension(e2),
{
    assert(eq_nocase(e1, "toml"@) == eq_nocase(e2, "toml"@));
    assert(eq_nocase(e1, "json"@) == eq_nocase(e2, "json"@));
}

impl ConfigFormat {
    /// Attempts to infer the format from a file extension.
    ///
    /// Recognises `toml` and `json`, case-insensitively.
    pub fn from_extension(ext: &str) -> (r: Option<Self>)
        ensures
            r == spec_from_extension(ext@),
    {
        if str_eq_nocase(ext, "toml") {
            Some(ConfigFormat::Toml)
        } else if str_eq_nocase(ext, "json") {
            Some(ConfigFormat::Json)
        } else {
            None
        }
    }
}

/// The index of the last occurrence of `c` in `s`, if any.
pub open spec fn last_occurrence(s: Seq<char>, c: char) -> Option<int>
    decreases s.len(),
{
    if s.len() == 0 {
        None
    } else if s[s.len() - 1] == c {
        Some(s.len() - 1)
    } else {
        last_occurrence(s.drop_last(), c)
    }
}

proof fn lemma_last_occurrence_props(s: Seq<char>, c: char)
    ensures
        match last_occurrence(s, c) {
            Some(i) => 0 <= i < s.len() && s[i] == c && (forall|k: int|
                i < k < s.len() ==> s[k] != c),
            None => forall|k: int| 0 <= k < s.len() ==> s[k] != c,
        },
    decreases s.len(),
{
    if s.len() == 0 {
    } else if s[s.len() - 1] == c {
    } else {
        lemma_last_occurrence_props(s.drop_last(), c);
        assert forall|k: int| 0 <= k < s.len() - 1 implies s.drop_last()[k] == s[k] by {}
    }
}

/// The file-name portion of a path: everything after the last `/`, or the
/// whole path when it has none.
pub open spec fn spec_file_name(path: Seq<char>) -> Seq<char> {
    match last_occurrence(path, '/') {
        Some(i) => path.subrange(i + 1, path.len() as int),
        None => path,
    }
}

/// The extension of a path: the portion of the file name after its last `.`.
/// There is none when the file name has no `.`, and none when its only `.`
/// is its first character (a dot-file such as `.toml` has no extension).
pub open spec fn spec_extension(path: Seq<char>) -> Option<Seq<char>> {
    let name = spec_file_name(path);
    match last_occurrence(name, '.') {
        Some(i) => if i == 0 {
            None
        } else {
            Some(name.subrange(i + 1, name.len() as int))
        },
        None => None,
    }
}

/// Extracts the extension of a path, if it has one.
pub fn extension_of(path: &str) -> (r: Option<&str>)
    ensures
        match r {
            Some(e) => spec_extension(path@) == Some(e@),
            None => spec_extension(path@) is None,
        },
{
    let len = path.unicode_len();
    let mut j: usize = len;
    while j > 0
        invariant
            0 <= j <= len,
            len == path@.len(),
            forall|k: int| j <= k < len ==> path@[k] != '/' && path@[k] != '.',
        decreases j,
    {
        let c = path.get_char(j - 1);
        if c == '/' {
            proof {
                lemma_last_occurrence_props(path@, '/');
                match last_occurrence(path@, '/') {
                    Some(p) => {
                        assert(p >= j - 1);
                        assert(p == j - 1);
                    },
                    None => {
                        assert(path@[j - 1] == '/');
                    },
                }
                assert(last_occurrence(path@, '/') == Some(j - 1 as int));
                let name = spec_file_name(path@);
                assert(name =~= path@.subrange(j as int, len as int));
                lemma_last_occurrence_props(name, '.');
                match last_occurrence(name, '.') {
                    Some(i) => {
                        assert(name[i] == path@[i + j]);
                        assert(false);
                    },
                    None => {},
                }
            }
            return None;
        }
        if c == '.' {
            if j - 1 == 0 {
                proof {
                    lemma_last_occurrence_props(path@, '/');
                    match last_occurrence(path@, '/') {
                        Some(p) => {
                            assert(path@[p] == '/');
                            assert(false);
                        },
                        None => {},
                    }
                    let name = spec_file_name(path@);
                    assert(name =~= path@);
                    lemma_last_occurrence_props(name, '.');
                    match last_occurrence(name, '.') {
                        Some(i) => {
                            if i != 0 {
                                assert(name[i] == path@[i]);
                                assert(false);
                            }
                        },
                        None => {
                            assert(name[0] == '.');
                            assert(false);
                        },
                    }
                    assert(last_occurrence(name, '.') == Some(0int));
                }
                return None;
            }
            let prev = path.get_char(j - 2);
            if prev == '/' {
                proof {
                    lemma_last_occurrence_props(path@, '/');
                    match last_occurrence(path@, '/') {
                        Some(p) => {
                            assert(p >= j - 2);
                            assert(p == j - 2);
                        },
                        None => {
                            assert(path@[j - 2] == '/');
                            assert(false);
                        },
                    }
                    assert(last_occurrence(path@, '/') == Some(j - 2 as int));
                    let name = spec_file_name(path@);
                    assert(name =~= path@.subrange(j - 1 as int, len as int));
                    lemma_last_occurrence_props(name, '.');
                    match last_occurrence(name, '.') {
                        Some(i) => {
                            if i != 0 {
                                assert(name[i] == path@[i + (j - 1)]);
                                assert(false);
                            }
                        },
                        None => {
                            assert(name[0] == '.');
                            assert(false);
                        },
                    }
                    assert(last_occurrence(name, '.') == Some(0int));
                }
                return None;
            }
            let ext = path.substring_char(j, len);
            proof {
                lemma_last_occurrence_props(path@, '/');
                let name = spec_file_name(path@);
                let ns: int = match last_occurrence(path@, '/') {
                    Some(p) => p + 1,
                    None => 0,
                };
                match last_occurrence(path@, '/') {
                    Some(p) => {
                        assert(path@[p] == '/');
                        if p >= j - 1 {
                            assert(false);
                        }
                        assert(p != j - 2);
                    },
                    None => {},
                }
                assert(ns <= j - 2);
                assert(name =~= path@.subrange(ns, len as int));
                lemma_last_occurrence_props(name, '.');
                assert(name[j - 1 - ns] == path@[j - 1]);
                match last_occurrence(name, '.') {
                    Some(q) => {
                        if q > j - 1 - ns {
                            assert(name[q] == path@[q + ns]);
                            assert(false);
                        }
                        if q < j - 1 - ns {
                            assert(name[j - 1 - ns] != '.');
                            assert(false);
                        }
                    },
                    None => {
                        assert(name[j - 1 - ns] != '.');
                        assert(false);
                    },
                }
                assert(last_occurrence(name, '.') == Some(j - 1 - ns));
                assert(name.subrange(j - ns, name.len() as int) =~= path@.subrange(
                    j as int,
                    len as int,
                ));
                assert(spec_extension(path@) == Some(ext@));
            }
            return Some(ext);
        }
        j -= 1;
    }
    proof {
        lemma_last_occurrence_props(path@, '/');
        lemma_last_occurrence_props(path@, '.');
        assert(spec_file_name(path@) == path@);
    }
    None
}

/// The format the loader uses: the explicit hint when one is supplied,
/// otherwise whatever the path's extension maps to.
pub open spec fn spec_effective_format(path: Seq<char>, hint: Option<ConfigFormat>) -> Option<
    ConfigFormat,
> {
    match hint {
        Some(f) => Some(f),
        None => match spec_extension(path) {
            Some(e) => spec_from_extension(e),
            None => None,
        },
    }
}

/// An explicit format hint always overrides extension inference, whatever
/// the path looks like.
pub proof fn lemma_hint_overrides_extension(path: Seq<char>, f: ConfigFormat)
    ensures
        spec_effective_format(path, Some(f)) == Some(f),
{
}

/// The outcome owed by the loader once text is dispatched to a decoder:
/// decode failure yields a chained, context-free error of the decoder's kind
/// and message; an invalid decoded instance yields the validation error,
/// relayed as the validator's own contract permits it and not re-wrapped;
/// and a valid instance comes back unchanged.
pub open spec fn spec_load_result<T: Config>(
    decoded: Option<T>,
    parse_kind: Seq<char>,
    parse_message: Seq<char>,
    r: Result<T, ConfigError>,
) -> bool {
    match decoded {
        Some(c) => if c.valid() {
            r == Ok::<T, ConfigError>(c)
        } else {
            r matches Err(e) && e.wf() && e.has_kind("ValidationError"@) && call_ensures(
                T::validate,
                (&c,),
                Err::<(), ConfigError>(e),
            )
        },
        None => r matches Err(e) && e.wf() && e.has_kind(parse_kind) && e.spec_message()
            == parse_message && e.spec_context() is None && e.spec_source() is Some,
    }
}

/// Decodes and validates configuration text read from a file.
///
/// The caller reads the file at `path` and passes the outcome as
/// `read_result`: the text on success, or a well-formed error describing the
/// underlying I/O failure. A read failure is wrapped with kind `"IOError"`
/// and the path as context, and no format dispatch is attempted. Otherwise
/// the effective format (explicit hint first, path extension second) picks
/// the decoder; an undeterminable format yields kind `"FormatError"` without
/// attempting any parse. A decoded instance is validated and returned.
pub fn parse_config_file<T: Config>(
    path: &str,
    read_result: Result<String, ConfigError>,
    format_hint: Option<ConfigFormat>,
) -> (r: Result<T, ConfigError>)
    requires
        read_result matches Err(e) ==> e.wf(),
    ensures
        read_result matches Err(e) ==> (r matches Err(out) && out.wf() && out.has_kind("IOError"@)
            && out.spec_context() == Some(path@) && out.spec_message()
            == "Failed to read config file"@ && out.spec_source() == Some(e)),
        read_result matches Ok(text) ==> match spec_effective_format(path@, format_hint) {
            Some(ConfigFormat::Toml) => spec_load_result(
                T::spec_from_toml(text@),
                "TOML parse error"@,
                "Failed to parse TOML"@,
                r,
            ),
            Some(ConfigFormat::Json) => spec_load_result(
                T::spec_from_json(text@),
                "JSON parse error"@,
                "Failed to parse JSON"@,
                r,
            ),
            None => r matches Err(e) && e.wf() && e.has_kind("FormatError"@) && e.spec_context()
                == Some(path@) && e.spec_message() == "Unknown configuration format"@
                && e.spec_source() is None,
        },
{
    let contents = match read_result {
        Ok(text) => text,
        Err(cause) => {
            proof {
                reveal_strlit("Failed to read config file");
            }
            return Err(
                ConfigError::new("Failed to read config file").with_kind("IOError").with_context(
                    path,
                ).with_source(cause),
            );
        },
    };
    let format = match format_hint {
        Some(f) => Some(f),
        None => match extension_of(path) {
            Some(ext) => ConfigFormat::from_extension(ext),
            None => None,
        },
    };
    match format {
        Some(ConfigFormat::Toml) => match T::from_toml_str(contents.as_str()) {
            Ok(c) => c.validate_and_build(),
            Err(e) => Err(e),
        },
        Some(ConfigFormat::Json) => match T::from_json_str(contents.as_str()) {
            Ok(c) => c.validate_and_build(),
            Err(e) => Err(e),
        },
        None => {
            proof {
                reveal_strlit("Unknown configuration format");
            }
            Err(
                ConfigError::new("Unknown configuration format").with_kind(
                    "FormatError",
                ).with_context(path),
            )
        },
    }
}

} // verus!
