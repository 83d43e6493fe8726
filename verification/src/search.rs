//! The search side of the pipeline: which provider entry point a search
//! type uses, which options are meaningful for it, and how a provider
//! response is checked.
//!
//! The search call itself is network work and stays with the caller; the
//! caller hands the response text back to the library.

use vstd::prelude::*;
use vstd::string::StringExecFns;
use crate::chars::chars_have_prefix;
use crate::chars::chars_of_str;
use crate::chars::has_prefix;
use crate::errors::PipelineError;

verus! {

/// The kinds of search the provider offers.
#[derive(Debug, Clone, Copy, PartialEq, Eq, Structural)]
pub enum SearchType {
    /// General web search.
    Web,
    /// News search for current events.
    News,
    /// Local search for businesses and places.
    Local,
}

/// Optional settings for a search; which of them a search type honours is
/// `plan_search`'s decision.
#[derive(Debug, Clone)]
pub struct SearchConfig {
    /// How many results to return.
    pub count: Option<usize>,
    /// Pagination offset.
    pub offset: Option<usize>,
    /// Country code, for news searches.
    pub country: Option<String>,
    /// Language code, for news searches.
    pub language: Option<String>,
    /// Freshness filter (h, d, w, m or y), for news searches.
    pub freshness: Option<String>,
}

impl Default for SearchConfig {
    fn default() -> (c: Self)
        ensures
            c.count is None,
            c.offset is None,
            c.country is None,
            c.language is None,
            c.freshness is None,
    {
        SearchConfig { count: None, offset: None, country: None, language: None, freshness: None }
    }
}

/// A character lowered as ASCII case folding does; all others pass through.
pub open spec fn ascii_lower_char(c: char) -> char {
    if 'A' <= c && c <= 'Z' {
        (((c as u32) + 32) as u8) as char
    } else {
        c
    }
}

/// The sequence with every ASCII capital lowered.
pub open spec fn ascii_lower(s: Seq<char>) -> Seq<char> {
    s.map_values(|c: char| ascii_lower_char(c))
}

fn lower_char(c: char) -> (r: char)
    ensures
        r == ascii_lower_char(c),
{
    if 'A' <= c && c <= 'Z' {
        (((c as u32) + 32) as u8) as char
    } else {
        c
    }
}

/// Whether `s`, lowered, equals the (already lower-case) target word.
fn matches_lowered(s: &str, target: &str) -> (b: bool)
    ensures
        b == (ascii_lower(s@) == target@),
{
    let n: usize = s.unicode_len();
    if n != target.unicode_len() {
        proof {
            assert(ascii_lower(s@).len() == s@.len());
        }
        return false;
    }
    let mut i: usize = 0;
    while i < n
        invariant
            i <= n,
            n == s@.len(),
            n == target@.len(),
            forall|j: int| 0 <= j < i ==> ascii_lower_char(s@[j]) == target@[j],
        decreases n - i,
    {
        if lower_char(s.get_char(i)) != target.get_char(i) {
            proof {
                assert(ascii_lower(s@)[i as int] != target@[i as int]);
            }
            return false;
        }
        i = i + 1;
    }
    proof {
        assert(ascii_lower(s@) =~= target@);
    }
    true
}

/// The search type a piece of text names, compared without regard to ASCII
/// case; nothing for any other text.
pub open spec fn spec_search_type_of(s: Seq<char>) -> Option<SearchType> {
    if ascii_lower(s) == "web"@ {
        Some(SearchType::Web)
    } else if ascii_lower(s) == "news"@ {
        Some(SearchType::News)
    } else if ascii_lower(s) == "local"@ {
        Some(SearchType::Local)
    } else {
        None
    }
}

/// The provider-facing name of each search type.
pub open spec fn spec_search_type_name(t: SearchType) -> Seq<char> {
    match t {
        SearchType::Web => "web"@,
        SearchType::News => "news"@,
        SearchType::Local => "local"@,
    }
}

impl SearchType {
    /// Reads a search type from text, without regard to ASCII case; any
    /// other text is a validation error.
    pub fn parse_text(s: &str) -> (r: Result<SearchType, PipelineError>)
        ensures
            r is Ok <==> spec_search_type_of(s@) is Some,
            r is Ok ==> r->Ok_0 == spec_search_type_of(s@)->Some_0,
            r is Err ==> r->Err_0 is Validation,
    {
        if matches_lowered(s, "web") {
            Ok(SearchType::Web)
        } else if matches_lowered(s, "news") {
            Ok(SearchType::News)
        } else if matches_lowered(s, "local") {
            Ok(SearchType::Local)
        } else {
            Err(PipelineError::Validation(String::from_str("invalid search type")))
        }
    }

    /// The name of this search type.
    pub fn to_string(&self) -> (s: String)
        ensures
            s@ == spec_search_type_name(*self),
    {
        match self {
            SearchType::Web => String::from_str("web"),
            SearchType::News => String::from_str("news"),
            SearchType::Local => String::from_str("local"),
        }
    }
}

impl core::str::FromStr for SearchType {
    type Err = PipelineError;

    fn from_str(s: &str) -> Result<SearchType, PipelineError> {
        SearchType::parse_text(s)
    }
}

/// A provider response that reports failure in-band: it starts with the
/// literal `Error:`.
pub open spec fn response_is_error(s: Seq<char>) -> bool {
    has_prefix(s, "Error:"@)
}

/// Checks a provider response: an in-band error report becomes a provider
/// error, anything else passes through unchanged.
pub fn check_search_response(response: String) -> (r: Result<String, PipelineError>)
    ensures
        r is Ok <==> !response_is_error(response@),
        r is Ok ==> (r->Ok_0)@ == response@,
        r is Err ==> r->Err_0 is Provider && r->Err_0->Provider_0@ == "Search failed: "@
            + response@,
{
    let chars = chars_of_str(response.as_str());
    if chars_have_prefix(&chars, "Error:") {
        let mut message = String::new();
        message.append("Search failed: ");
        message.append(response.as_str());
        proof {
            assert(message@ =~= "Search failed: "@ + response@);
        }
        Err(PipelineError::Provider(message))
    } else {
        Ok(response)
    }
}

/// A fully resolved search call: the entry point and exactly the options
/// that entry point honours.
#[derive(Debug, Clone)]
pub struct SearchPlan {
    /// Which provider entry point to call.
    pub search_type: SearchType,
    /// The query text.
    pub query: String,
    /// How many results to ask for.
    pub count: Option<usize>,
    /// Pagination offset; web and news searches only.
    pub offset: Option<usize>,
    /// Country code; news searches only.
    pub country: Option<String>,
    /// Language code; news searches only.
    pub language: Option<String>,
    /// Freshness filter; news searches only.
    pub freshness: Option<String>,
}

/// Resolves a search request into the exact call to make: a web search
/// passes count and offset, a news search passes every option, and a local
/// search passes the count alone. Options an entry point does not honour are
/// dropped rather than forwarded.
pub fn plan_search(search_type: SearchType, query: &str, config: Option<SearchConfig>) -> (p:
    SearchPlan)
    ensures
        p.search_type == search_type,
        p.query@ == query@,
        ({
            let cfg = if config is Some {
                config->Some_0
            } else {
                SearchConfig {
                    count: None,
                    offset: None,
                    country: None,
                    language: None,
                    freshness: None,
                }
            };
            match search_type {
                SearchType::Web => p.count == cfg.count && p.offset == cfg.offset && p.country
                    is None && p.language is None && p.freshness is None,
                SearchType::News => p.count == cfg.count && p.offset == cfg.offset && p.country
                    == cfg.country && p.language == cfg.language && p.freshness == cfg.freshness,
                SearchType::Local => p.count == cfg.count && p.offset is None && p.country is None
                    && p.language is None && p.freshness is None,
            }
        }),
{
    let cfg = match config {
        Some(c) => c,
        None => SearchConfig::default(),
    };
    match search_type {
        SearchType::Web => SearchPlan {
            search_type,
            query: query.to_owned(),
            count: cfg.count,
            offset: cfg.offset,
            country: None,
            language: None,
            freshness: None,
        },
        SearchType::News => SearchPlan {
            search_type,
            query: query.to_owned(),
            count: cfg.count,
            offset: cfg.offset,
            country: cfg.country,
            language: cfg.language,
            freshness: cfg.freshness,
        },
        SearchType::Local => SearchPlan {
            search_type,
            query: query.to_owned(),
            count: cfg.count,
            offset: None,
            country: None,
            language: None,
            freshness: None,
        },
    }
}

} // verus!
