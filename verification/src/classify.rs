//! The URL classifier: is a URL a wrapped redirect, and if so, where does it
//! lead?

use vstd::prelude::*;
use vstd::string::StringExecFns;
use crate::config::Config;
use crate::text::{ends_with, str_ends_with};

verus! {

/// Host suffix of the Outlook family, whose destination is in `url`.
pub const OUTLOOK_FAMILY: &'static str = "safelinks.protection.outlook.com";

/// Host suffix of the Azure mail family, whose destination is in
/// `destination`.
pub const AZURE_FAMILY: &'static str = "safelink.emails.azure.net";

/// Query parameter that holds the destination in the Outlook family.
pub const OUTLOOK_KEY: &'static str = "url";

/// Query parameter that holds the destination in the Azure mail family.
pub const AZURE_KEY: &'static str = "destination";

/// What the classifier reads of an absolute URL.
#[derive(Debug)]
pub struct ParsedUrl {
    /// The host, where it is a domain name and not an address.
    pub domain: Option<String>,
    /// The decoded pairs of the query string, in their order.
    pub query: Vec<(String, String)>,
}

/// The mathematical content of a `ParsedUrl`.
pub struct UrlParts {
    pub domain: Option<Seq<char>>,
    pub query: Seq<(Seq<char>, Seq<char>)>,
}

impl View for ParsedUrl {
    type V = UrlParts;

    open spec fn view(&self) -> UrlParts {
        UrlParts { domain: self.domain.deep_view(), query: self.query.deep_view() }
    }
}

/// The parts of `input` read as an absolute URL, or `None` where it is not
/// one. This is what `url::Url::parse` decides; the crate does not restate
/// the URL grammar.
pub uninterp spec fn parsed_url(input: Seq<char>) -> Option<UrlParts>;

/// Calls `url::Url::parse`, then `Url::domain` and `Url::query_pairs` on the
/// parsed value. Believed: the result is a function of the input text alone,
/// named `parsed_url`.
#[verifier::external_body]
fn parse_parts(input: &str) -> (r: Option<ParsedUrl>)
    ensures
        match r {
            Some(p) => parsed_url(input@) == Some(p@),
            None => parsed_url(input@) is None,
        },
{
    match url::Url::parse(input) {
        Ok(u) => Some(
            ParsedUrl {
                domain: u.domain().map(|d| d.to_string()),
                query: u.query_pairs().map(|(k, v)| (k.into_owned(), v.into_owned())).collect(),
            },
        ),
        Err(_) => None,
    }
}

/// The value of the first pair of `query` whose key is `key`.
pub open spec fn first_value(query: Seq<(Seq<char>, Seq<char>)>, key: Seq<char>) -> Option<
    Seq<char>,
>
    decreases query.len(),
{
    if query.len() == 0 {
        None
    } else if query[0].0 == key {
        Some(query[0].1)
    } else {
        first_value(query.skip(1), key)
    }
}

/// The query parameter that holds the destination for `host`: decided by
/// the first family whose suffix the host ends with.
pub open spec fn extraction_key(host: Seq<char>) -> Option<Seq<char>> {
    if ends_with(host, OUTLOOK_FAMILY@) {
        Some(OUTLOOK_KEY@)
    } else if ends_with(host, AZURE_FAMILY@) {
        Some(AZURE_KEY@)
    } else {
        None
    }
}

/// The destination wrapped in a URL of a known family.
pub open spec fn extracted(url: UrlParts) -> Option<Seq<char>> {
    match url.domain {
        Some(host) => match extraction_key(host) {
            Some(key) => first_value(url.query, key),
            None => None,
        },
        None => None,
    }
}

/// `host` ends with one of `domains`.
pub open spec fn is_redirector(host: Seq<char>, domains: Seq<Seq<char>>) -> bool {
    exists|i: int| 0 <= i < domains.len() && ends_with(host, #[trigger] domains[i])
}

/// The destination of a parsed URL under the configured `domains`: present
/// exactly when the host is a domain name that ends with a configured
/// suffix and the family's query parameter is there.
pub open spec fn unwrapped_parts(url: UrlParts, domains: Seq<Seq<char>>) -> Option<Seq<char>> {
    match url.domain {
        Some(host) => if is_redirector(host, domains) {
            extracted(url)
        } else {
            None
        },
        None => None,
    }
}

/// The destination of the URL written as `input`, if it is a wrapped
/// redirect under `domains`.
pub open spec fn unwrapped(input: Seq<char>, domains: Seq<Seq<char>>) -> Option<Seq<char>> {
    match parsed_url(input) {
        Some(url) => unwrapped_parts(url, domains),
        None => None,
    }
}

impl ParsedUrl {
    /// Parses an absolute URL.
    pub fn parse(input: &str) -> (r: Option<ParsedUrl>)
        ensures
            match r {
                Some(p) => parsed_url(input@) == Some(p@),
                None => parsed_url(input@) is None,
            },
    {
        parse_parts(input)
    }
}

/// Whether `url` is a syntactically valid absolute URL.
pub fn is_valid_url(url: &str) -> (valid: bool)
    ensures
        valid == parsed_url(url@).is_some(),
{
    parse_parts(url).is_some()
}

/// Looks up the first value stored under `key`.
fn lookup(query: &Vec<(String, String)>, key: &str) -> (r: Option<String>)
    ensures
        r.deep_view() == first_value(query.deep_view(), key@),
{
    let wanted = String::from_str(key);
    let mut i: usize = 0;
    assert(query.deep_view().skip(0) =~= query.deep_view());
    while i < query.len()
        invariant
            i <= query.len(),
            wanted@ == key@,
            first_value(query.deep_view(), key@) == first_value(
                query.deep_view().skip(i as int),
                key@,
            ),
        decreases query.len() - i,
    {
        let ghost rest = query.deep_view().skip(i as int);
        assert(rest[0] == query.deep_view()[i as int]);
        assert(rest.skip(1) =~= query.deep_view().skip(i + 1));
        if query[i].0 == wanted {
            return Some(query[i].1.clone());
        }
        i += 1;
    }
    None
}

/// Extracts the destination from a URL of a known redirector family: the
/// value of `url` under the Outlook suffix, of `destination` under the Azure
/// mail suffix. A URL without a domain host, of another family, or without
/// the parameter gives `None`.
pub fn extract_original_url(url: &ParsedUrl) -> (r: Option<String>)
    ensures
        r.deep_view() == extracted(url@),
{
    match &url.domain {
        Some(host) => {
            if str_ends_with(host.as_str(), OUTLOOK_FAMILY) {
                lookup(&url.query, OUTLOOK_KEY)
            } else if str_ends_with(host.as_str(), AZURE_FAMILY) {
                lookup(&url.query, AZURE_KEY)
            } else {
                None
            }
        },
        None => None,
    }
}

/// Whether `host` ends with one of the configured suffixes.
pub fn host_is_redirector(host: &str, config: &Config) -> (b: bool)
    ensures
        b == is_redirector(host@, config.domains()),
{
    let mut i: usize = 0;
    while i < config.domains_to_unwrap.len()
        invariant
            i <= config.domains_to_unwrap.len(),
            forall|j: int| 0 <= j < i ==> !ends_with(host@, #[trigger] config.domains()[j]),
        decreases config.domains_to_unwrap.len() - i,
    {
        assert(config.domains()[i as int] == config.domains_to_unwrap[i as int]@);
        if str_ends_with(host, config.domains_to_unwrap[i].as_str()) {
            return true;
        }
        i += 1;
    }
    false
}

/// The classifier on a parsed URL: the destination, if the host is a domain
/// name under a configured redirector suffix and the family's parameter is
/// present. The value is returned as decoded, with no further unwrapping.
pub fn unwrap_parsed(url: &ParsedUrl, config: &Config) -> (r: Option<String>)
    ensures
        r.deep_view() == unwrapped_parts(url@, config.domains()),
{
    match &url.domain {
        Some(host) => {
            if host_is_redirector(host.as_str(), config) {
                extract_original_url(url)
            } else {
                None
            }
        },
        None => None,
    }
}

/// The classifier on text: parses `input` and unwraps it. Text that is not
/// an absolute URL gives `None`.
pub fn unwrap_url(input: &str, config: &Config) -> (r: Option<String>)
    ensures
        r.deep_view() == unwrapped(input@, config.domains()),
{
    match parse_parts(input) {
        Some(url) => unwrap_parsed(&url, config),
        None => None,
    }
}

} // verus!
