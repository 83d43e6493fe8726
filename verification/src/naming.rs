//! The filename strategies: turning a record and its position into a
//! sanitized base name for the files written for it.

use vstd::prelude::*;
use vstd::string::StringExecFns;
use crate::chars::check_control_char;
use crate::chars::chars_of_str;
use crate::chars::digit_chars;
use crate::chars::is_control_char;
use crate::chars::spec_digits;
use crate::chars::spec_trim;
use crate::chars::string_of_chars;
use crate::chars::trim_chars;
use crate::errors::PipelineError;
use crate::records::RecordModel;
use crate::records::SearchResult;
use crate::urls::spec_url_host_or_unknown;
use crate::urls::url_host_or_unknown;

verus! {

/// How the files written for the records of a batch are named.
#[derive(Debug, Clone, Copy, PartialEq, Eq, Structural)]
pub enum NamingStrategy {
    /// The sanitized page title.
    Title,
    /// The sanitized host parsed from the record's URL.
    Domain,
    /// A sequential number alone.
    Sequential,
    /// Both the title and the host.
    TitleDomain,
}

/// What one character of a name becomes: the filesystem-reserved characters
/// and every control character turn into an underscore, all else passes
/// through.
pub open spec fn sanitize_char(c: char) -> char {
    if c == '/' || c == '\\' || c == ':' || c == '*' || c == '?' || c == '"' || c == '<' || c == '>'
        || c == '|' || is_control_char(c) {
        '_'
    } else {
        c
    }
}

/// The sanitized form of a name: each character replaced as `sanitize_char`
/// says, then the result trimmed of leading and trailing white space.
pub open spec fn spec_sanitize(s: Seq<char>) -> Seq<char> {
    spec_trim(s.map_values(|c: char| sanitize_char(c)))
}

fn sanitize_char_of(c: char) -> (r: char)
    ensures
        r == sanitize_char(c),
{
    if c == '/' || c == '\\' || c == ':' || c == '*' || c == '?' || c == '"' || c == '<' || c == '>'
        || c == '|' || check_control_char(c) {
        '_'
    } else {
        c
    }
}

/// Sanitizes a filename: replaces the characters a filesystem reserves and
/// every control character with underscores, and trims surrounding white
/// space.
pub fn sanitize_filename(filename: &str) -> (r: String)
    ensures
        r@ == spec_sanitize(filename@),
{
    let v = chars_of_str(filename);
    let mut mapped: Vec<char> = Vec::new();
    let mut i: usize = 0;
    while i < v.len()
        invariant
            i <= v@.len(),
            v@ == filename@,
            mapped@ =~= v@.take(i as int).map_values(|c: char| sanitize_char(c)),
        decreases v@.len() - i,
    {
        mapped.push(sanitize_char_of(v[i]));
        proof {
            assert(mapped@ =~= v@.take(i as int + 1).map_values(|c: char| sanitize_char(c)));
        }
        i = i + 1;
    }
    proof {
        assert(v@.take(v@.len() as int) =~= v@);
    }
    let t = trim_chars(&mapped);
    string_of_chars(&t)
}

/// The numbered fallback name: the prefix followed by the one-based position.
pub open spec fn numbered_name(prefix: Seq<char>, index: int) -> Seq<char> {
    prefix + spec_digits((index + 1) as nat)
}

/// The base name (no extension) each strategy produces for a record at a
/// zero-based position; nothing when the strategy needs the URL's host and
/// the URL does not parse.
pub open spec fn spec_base_name(r: RecordModel, index: int, strategy: NamingStrategy) -> Option<
    Seq<char>,
> {
    match strategy {
        NamingStrategy::Title => Some(
            if r.title.len() == 0 {
                numbered_name("search_result_"@, index)
            } else {
                spec_sanitize(r.title)
            },
        ),
        NamingStrategy::Domain => match spec_url_host_or_unknown(r.url) {
            Some(h) => Some(spec_sanitize(h)),
            None => None,
        },
        NamingStrategy::Sequential => Some(numbered_name("search_result_"@, index)),
        NamingStrategy::TitleDomain => match spec_url_host_or_unknown(r.url) {
            Some(h) => Some(
                (if r.title.len() == 0 {
                    numbered_name("result_"@, index)
                } else {
                    spec_sanitize(r.title)
                }) + "_"@ + spec_sanitize(h),
            ),
            None => None,
        },
    }
}

fn numbered_string(prefix: &str, index: usize) -> (s: String)
    requires
        index < usize::MAX,
    ensures
        s@ == numbered_name(prefix@, index as int),
{
    let mut s = String::new();
    s.append(prefix);
    let digits = digit_chars(index + 1);
    let ds = string_of_chars(&digits);
    s.append(ds.as_str());
    proof {
        assert(s@ =~= numbered_name(prefix@, index as int));
    }
    s
}

/// The base name for `result` at zero-based position `index` under the given
/// strategy. The `Domain` and `TitleDomain` strategies fail, for this one
/// record, when its URL does not parse.
pub fn base_filename(result: &SearchResult, index: usize, strategy: NamingStrategy) -> (r: Result<
    String,
    PipelineError,
>)
    requires
        index < usize::MAX,
    ensures
        r is Ok <==> spec_base_name(result@, index as int, strategy) is Some,
        r is Ok ==> (r->Ok_0)@ == spec_base_name(result@, index as int, strategy)->Some_0,
        r is Err ==> r->Err_0 is Validation,
{
    match strategy {
        NamingStrategy::Title => {
            if result.title.as_str().is_empty() {
                Ok(numbered_string("search_result_", index))
            } else {
                Ok(sanitize_filename(result.title.as_str()))
            }
        },
        NamingStrategy::Domain => {
            match url_host_or_unknown(result.url.as_str()) {
                Ok(host) => Ok(sanitize_filename(host.as_str())),
                Err(e) => Err(e),
            }
        },
        NamingStrategy::Sequential => Ok(numbered_string("search_result_", index)),
        NamingStrategy::TitleDomain => {
            match url_host_or_unknown(result.url.as_str()) {
                Ok(host) => {
                    let mut name = if result.title.as_str().is_empty() {
                        numbered_string("result_", index)
                    } else {
                        sanitize_filename(result.title.as_str())
                    };
                    name.append("_");
                    let sh = sanitize_filename(host.as_str());
                    name.append(sh.as_str());
                    Ok(name)
                },
                Err(e) => Err(e),
            }
        },
    }
}

/// The full filename: the strategy's base name with the extension appended
/// after a dot.
pub fn generate_filename(
    result: &SearchResult,
    index: usize,
    strategy: NamingStrategy,
    extension: &str,
) -> (r: Result<String, PipelineError>)
    requires
        index < usize::MAX,
    ensures
        r is Ok <==> spec_base_name(result@, index as int, strategy) is Some,
        r is Ok ==> (r->Ok_0)@ == spec_base_name(result@, index as int, strategy)->Some_0 + "."@
            + extension@,
        r is Err ==> r->Err_0 is Validation,
{
    match base_filename(result, index, strategy) {
        Ok(mut name) => {
            name.append(".");
            name.append(extension);
            Ok(name)
        },
        Err(e) => Err(e),
    }
}

/// Re-running a filename strategy with the same record, position and
/// strategy always yields the same base name: the name is a function of
/// those three inputs alone, with no hidden counter and no randomness.
pub proof fn lemma_naming_idempotent(
    r: RecordModel,
    index: int,
    strategy: NamingStrategy,
    n1: Option<Seq<char>>,
    n2: Option<Seq<char>>,
)
    requires
        n1 == spec_base_name(r, index, strategy),
        n2 == spec_base_name(r, index, strategy),
    ensures
        n1 == n2,
{
}

} // verus!
