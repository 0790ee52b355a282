//! The content rewriter: finds markdown links and bare URLs in a text and
//! replaces each wrapped redirect by its destination.
//!
//! Finding the links is the work of a regular-expression engine; what is
//! done with them is decided here. A `Scan` is the meeting point: the text
//! cut into the matches of one pattern and the gaps between them.

use vstd::prelude::*;
use vstd::string::StringExecFns;
use crate::classify::{is_redirector, parsed_url, unwrap_url, unwrapped};
use crate::config::Config;

verus! {

/// A markdown link `[label](url)` whose URL starts with `http`. Label and
/// URL are the shortest runs that complete the link; neither spans a line
/// break.
pub const MARKDOWN_LINK: &'static str = r"(?x)\[(?P<linktext>.*?)\]\((?P<url>http.*?)\)";

/// A bare URL: `http://` or `https://`, then everything up to the next
/// white space or closing parenthesis.
pub const BARE_URL: &'static str = r"(?x)(?P<url>https?://[^\s)]+)";

/// The two lexical shapes that are rewritten.
#[derive(Debug, Clone, Copy, PartialEq, Eq, Structural)]
pub enum Shape {
    /// `[label](url)`: group 1 is the label, group 2 the URL.
    MarkdownLink,
    /// A URL on its own: group 1 is the URL.
    BareUrl,
}

impl Shape {
    /// The regular expression of this shape.
    pub open spec fn pattern(self) -> Seq<char> {
        match self {
            Shape::MarkdownLink => MARKDOWN_LINK@,
            Shape::BareUrl => BARE_URL@,
        }
    }

    /// The capture group that holds the URL.
    pub open spec fn url_group(self) -> int {
        match self {
            Shape::MarkdownLink => 2,
            Shape::BareUrl => 1,
        }
    }

    /// The capture group that holds the label, where the shape has one.
    pub open spec fn label_group(self) -> Option<int> {
        match self {
            Shape::MarkdownLink => Some(1),
            Shape::BareUrl => None,
        }
    }

    /// The regular expression of this shape.
    pub fn regex(self) -> (p: &'static str)
        ensures
            p@ == self.pattern(),
    {
        match self {
            Shape::MarkdownLink => MARKDOWN_LINK,
            Shape::BareUrl => BARE_URL,
        }
    }
}

/// One match of a pattern.
#[derive(Debug)]
pub struct Hit {
    /// The matched text.
    pub whole: String,
    /// The text of each capture group, by its number; group 0 is the whole
    /// match. A group that took no part in the match is `None`.
    pub groups: Vec<Option<String>>,
}

/// The mathematical content of a `Hit`.
pub struct HitView {
    pub whole: Seq<char>,
    pub groups: Seq<Option<Seq<char>>>,
}

impl HitView {
    /// The text of group `k`, if the match has it.
    pub open spec fn group(self, k: int) -> Option<Seq<char>> {
        if 0 <= k < self.groups.len() {
            self.groups[k]
        } else {
            None
        }
    }
}

impl View for Hit {
    type V = HitView;

    open spec fn view(&self) -> HitView {
        HitView { whole: self.whole@, groups: self.groups.deep_view() }
    }
}

impl DeepView for Hit {
    type V = HitView;

    open spec fn deep_view(&self) -> HitView {
        self@
    }
}

/// A text cut along the matches of a pattern: `gaps[i]` is what stands
/// before `hits[i]`, and the last gap is what follows the last hit.
#[derive(Debug)]
pub struct Scan {
    pub gaps: Vec<String>,
    pub hits: Vec<Hit>,
}

/// The mathematical content of a `Scan`.
pub struct ScanView {
    pub gaps: Seq<Seq<char>>,
    pub hits: Seq<HitView>,
}

impl View for Scan {
    type V = ScanView;

    open spec fn view(&self) -> ScanView {
        ScanView { gaps: self.gaps.deep_view(), hits: self.hits.deep_view() }
    }
}

/// Gap `i` of `gaps`; empty where there is no such gap.
pub open spec fn gap(gaps: Seq<Seq<char>>, i: int) -> Seq<char> {
    if 0 <= i < gaps.len() {
        gaps[i]
    } else {
        Seq::empty()
    }
}

/// The first `n` gaps, each followed by the fill of the same number.
pub open spec fn woven(gaps: Seq<Seq<char>>, fills: Seq<Seq<char>>, n: nat) -> Seq<char>
    decreases n,
{
    if n == 0 {
        Seq::empty()
    } else {
        woven(gaps, fills, (n - 1) as nat) + gap(gaps, n - 1) + fills[n - 1]
    }
}

/// Gaps and fills in turn: every fill after the gap of its number, and
/// after the last fill the gap that follows it.
pub open spec fn interleaved(gaps: Seq<Seq<char>>, fills: Seq<Seq<char>>) -> Seq<char> {
    woven(gaps, fills, fills.len()) + gap(gaps, fills.len() as int)
}

impl ScanView {
    /// The matched texts, in order.
    pub open spec fn wholes(self) -> Seq<Seq<char>> {
        Seq::new(self.hits.len(), |i: int| self.hits[i].whole)
    }

    /// The text that was scanned: gaps and matches as they stood.
    pub open spec fn source(self) -> Seq<char> {
        interleaved(self.gaps, self.wholes())
    }

    /// The scan is a cut of `text`.
    pub open spec fn covers(self, text: Seq<char>) -> bool {
        self.source() == text
    }
}

/// The matches of the regular expression `pattern` in `text`, leftmost
/// first and not overlapping, with the gaps between them; `None` where
/// `pattern` is not a regular expression. This is what the `regex` crate
/// finds; the crate does not restate how patterns match.
pub uninterp spec fn scan_of(pattern: Seq<char>, text: Seq<char>) -> Option<ScanView>;

/// Compiles `pattern` with `regex::Regex::new` and cuts `text` with
/// `Regex::split` (the gaps) and `Regex::captures_iter` (the hits).
/// Believed: the result is a function of pattern and text alone, named
/// `scan_of`, and the gaps and whole matches, taken in turn, spell `text`.
#[verifier::external_body]
fn scan(pattern: &str, text: &str) -> (r: Option<Scan>)
    ensures
        match r {
            Some(s) => scan_of(pattern@, text@) == Some(s@) && s@.covers(text@),
            None => scan_of(pattern@, text@) is None,
        },
{
    match regex::Regex::new(pattern) {
        Ok(re) => Some(
            Scan {
                gaps: re.split(text).map(|gap| gap.to_string()).collect(),
                hits: re.captures_iter(text).map(
                    |c| Hit {
                        whole: c[0].to_string(),
                        groups: c.iter().map(|g| g.map(|m| m.as_str().to_string())).collect(),
                    },
                ).collect(),
            },
        ),
        Err(_) => None,
    }
}

/// What takes the place of the label and destination of a markdown link.
pub open spec fn markdown(label: Seq<char>, target: Seq<char>) -> Seq<char> {
    "["@ + label + "]("@ + target + ")"@
}

/// What takes the place of one hit whose URL leads to `target`: the target
/// itself, inside its markdown brackets where the shape has a label. A hit
/// without a target, or without the label that its shape asks for, keeps
/// its own text.
pub open spec fn filled(hit: HitView, shape: Shape, target: Option<Seq<char>>) -> Seq<char> {
    match target {
        Some(target) => match shape.label_group() {
            Some(k) => match hit.group(k) {
                Some(label) => markdown(label, target),
                None => hit.whole,
            },
            None => target,
        },
        None => hit.whole,
    }
}

/// Where the URL of a hit leads, if it is a wrapped redirect.
pub open spec fn target(hit: HitView, shape: Shape, domains: Seq<Seq<char>>) -> Option<Seq<char>> {
    match hit.group(shape.url_group()) {
        Some(url) => unwrapped(url, domains),
        None => None,
    }
}

/// What takes the place of one hit under `domains`.
pub open spec fn replacement(hit: HitView, shape: Shape, domains: Seq<Seq<char>>) -> Seq<char> {
    filled(hit, shape, target(hit, shape, domains))
}

/// The replacements of all hits of a scan, in order.
pub open spec fn replacements(scan: ScanView, shape: Shape, domains: Seq<Seq<char>>) -> Seq<
    Seq<char>,
> {
    Seq::new(scan.hits.len(), |i: int| replacement(scan.hits[i], shape, domains))
}

/// The scanned text with every hit replaced.
pub open spec fn rewritten_scan(scan: ScanView, shape: Shape, domains: Seq<Seq<char>>) -> Seq<
    char,
> {
    interleaved(scan.gaps, replacements(scan, shape, domains))
}

/// One pass over `text`: the hits of `shape` replaced. A text that cannot
/// be scanned, or that its scan does not spell, is left as it is.
pub open spec fn pass(text: Seq<char>, shape: Shape, domains: Seq<Seq<char>>) -> Seq<char> {
    match scan_of(shape.pattern(), text) {
        Some(scan) => if scan.covers(text) {
            rewritten_scan(scan, shape, domains)
        } else {
            text
        },
        None => text,
    }
}

/// The rewritten text: the markdown-link pass, then the bare-URL pass over
/// its result.
pub open spec fn rewritten(text: Seq<char>, domains: Seq<Seq<char>>) -> Seq<char> {
    pass(pass(text, Shape::MarkdownLink, domains), Shape::BareUrl, domains)
}

/// Group `k` of a hit.
fn group(hit: &Hit, k: usize) -> (g: Option<&String>)
    ensures
        g.deep_view() == hit@.group(k as int),
{
    if k < hit.groups.len() {
        hit.groups[k].as_ref()
    } else {
        None
    }
}

/// The text that replaces `hit` when its URL leads to `target`.
pub fn fill(hit: &Hit, shape: Shape, target: Option<String>) -> (out: String)
    ensures
        out@ == filled(hit@, shape, target.deep_view()),
{
    match target {
        Some(target) => match shape {
            Shape::MarkdownLink => match group(hit, 1) {
                Some(label) => {
                    let mut out = String::from_str("[");
                    out.append(label.as_str());
                    out.append("](");
                    out.append(target.as_str());
                    out.append(")");
                    out
                },
                None => hit.whole.clone(),
            },
            Shape::BareUrl => target,
        },
        None => hit.whole.clone(),
    }
}

/// The text that replaces `hit`.
pub fn replace_hit(hit: &Hit, shape: Shape, config: &Config) -> (out: String)
    ensures
        out@ == replacement(hit@, shape, config.domains()),
{
    let url_group: usize = match shape {
        Shape::MarkdownLink => 2,
        Shape::BareUrl => 1,
    };
    let target = match group(hit, url_group) {
        Some(url) => unwrap_url(url.as_str(), config),
        None => None,
    };
    fill(hit, shape, target)
}

/// Puts gaps and fills together in turn.
pub fn interleave(gaps: &Vec<String>, fills: &Vec<String>) -> (out: String)
    ensures
        out@ == interleaved(gaps.deep_view(), fills.deep_view()),
{
    let mut out = String::new();
    let mut i: usize = 0;
    while i < fills.len()
        invariant
            i <= fills.len(),
            out@ == woven(gaps.deep_view(), fills.deep_view(), i as nat),
        decreases fills.len() - i,
    {
        if i < gaps.len() {
            out.append(gaps[i].as_str());
        }
        out.append(fills[i].as_str());
        i += 1;
    }
    if i < gaps.len() {
        out.append(gaps[i].as_str());
    }
    out
}

/// Puts a scanned text together again, every hit replaced.
pub fn rewrite_scan(scan: &Scan, shape: Shape, config: &Config) -> (out: String)
    ensures
        out@ == rewritten_scan(scan@, shape, config.domains()),
{
    let mut fills: Vec<String> = Vec::new();
    let mut i: usize = 0;
    while i < scan.hits.len()
        invariant
            i <= scan.hits.len(),
            fills.len() == i,
            forall|j: int|
                0 <= j < i ==> (#[trigger] fills[j])@ == replacement(
                    scan@.hits[j],
                    shape,
                    config.domains(),
                ),
        decreases scan.hits.len() - i,
    {
        fills.push(replace_hit(&scan.hits[i], shape, config));
        i += 1;
    }
    assert(fills.deep_view() =~= replacements(scan@, shape, config.domains()));
    interleave(&scan.gaps, &fills)
}

/// One pass over `text`.
fn rewrite_pass(text: &str, shape: Shape, config: &Config) -> (out: String)
    ensures
        out@ == pass(text@, shape, config.domains()),
{
    match scan(shape.regex(), text) {
        Some(s) => rewrite_scan(&s, shape, config),
        None => String::from_str(text),
    }
}

/// Rewrites `content`: every wrapped redirect in a markdown link or on its
/// own is replaced by its destination, and everything else stays as it is.
pub fn replace(content: &str, config: &Config) -> (out: String)
    ensures
        out@ == rewritten(content@, config.domains()),
        settled(content@, config.domains()) ==> out@ == content@,
{
    proof {
        if settled(content@, config.domains()) {
            lemma_settled_text_unchanged(content@, config.domains());
        }
    }
    let linked = rewrite_pass(content, Shape::MarkdownLink, config);
    rewrite_pass(linked.as_str(), Shape::BareUrl, config)
}

/// The pass of `shape` over `text` finds `url`.
pub open spec fn finds(text: Seq<char>, shape: Shape, url: Seq<char>) -> bool {
    match scan_of(shape.pattern(), text) {
        Some(scan) => exists|i: int|
            0 <= i < scan.hits.len() && (#[trigger] scan.hits[i]).group(shape.url_group()) == Some(
                url,
            ),
        None => false,
    }
}

/// No URL that either pass finds in `text` unwraps under `domains`.
pub open spec fn settled(text: Seq<char>, domains: Seq<Seq<char>>) -> bool {
    forall|shape: Shape, url: Seq<char>| #[trigger]
        finds(text, shape, url) ==> unwrapped(url, domains) is None
}

/// A pass over a text in which it finds no URL that unwraps gives the text
/// back.
pub proof fn lemma_pass_keeps_settled_text(text: Seq<char>, shape: Shape, domains: Seq<Seq<char>>)
    requires
        forall|url: Seq<char>| #[trigger]
            finds(text, shape, url) ==> unwrapped(url, domains) is None,
    ensures
        pass(text, shape, domains) == text,
{
    if let Some(scan) = scan_of(shape.pattern(), text) {
        if scan.covers(text) {
            assert forall|i: int| 0 <= i < scan.hits.len() implies replacement(
                scan.hits[i],
                shape,
                domains,
            ) == scan.hits[i].whole by {
                if let Some(url) = scan.hits[i].group(shape.url_group()) {
                    assert(finds(text, shape, url));
                }
            }
            assert(replacements(scan, shape, domains) =~= scan.wholes());
        }
    }
}

/// Rewriting a text in which no found URL unwraps changes nothing.
pub proof fn lemma_settled_text_unchanged(text: Seq<char>, domains: Seq<Seq<char>>)
    requires
        settled(text, domains),
    ensures
        rewritten(text, domains) == text,
{
    assert forall|url: Seq<char>| #[trigger]
        finds(text, Shape::MarkdownLink, url) implies unwrapped(url, domains) is None by {}
    lemma_pass_keeps_settled_text(text, Shape::MarkdownLink, domains);
    assert forall|url: Seq<char>| #[trigger]
        finds(text, Shape::BareUrl, url) implies unwrapped(url, domains) is None by {}
    lemma_pass_keeps_settled_text(text, Shape::BareUrl, domains);
}

/// Rewriting is idempotent wherever its result holds no URL that still
/// unwraps: a second run over such a result changes nothing. Destinations
/// are unwrapped one level only, so a redirect wrapped in a redirect leaves
/// a result that a second run would change again.
pub proof fn lemma_rewrite_idempotent(text: Seq<char>, domains: Seq<Seq<char>>)
    requires
        settled(rewritten(text, domains), domains),
    ensures
        rewritten(rewritten(text, domains), domains) == rewritten(text, domains),
{
    lemma_settled_text_unchanged(rewritten(text, domains), domains);
}

/// A valid URL whose host ends with no configured suffix is not unwrapped,
/// and every hit that carries it is replaced by its own text.
pub proof fn lemma_foreign_url_passes(url: Seq<char>, domains: Seq<Seq<char>>)
    requires
        parsed_url(url) matches Some(parts) && (parts.domain matches Some(host) ==> !is_redirector(
            host,
            domains,
        )),
    ensures
        unwrapped(url, domains) is None,
        forall|hit: HitView, shape: Shape|
            hit.group(shape.url_group()) == Some(url) ==> #[trigger] replacement(
                hit,
                shape,
                domains,
            ) == hit.whole,
{
}

/// A text in which every found URL is valid and has a host that ends with
/// no configured suffix is left as it is.
pub proof fn lemma_foreign_urls_leave_text(text: Seq<char>, domains: Seq<Seq<char>>)
    requires
        forall|shape: Shape, url: Seq<char>| #[trigger]
            finds(text, shape, url) ==> (parsed_url(url) matches Some(parts) && (
            parts.domain matches Some(host) ==> !is_redirector(host, domains))),
    ensures
        rewritten(text, domains) == text,
{
    assert forall|shape: Shape, url: Seq<char>| #[trigger]
        finds(text, shape, url) implies unwrapped(url, domains) is None by {
        lemma_foreign_url_passes(url, domains);
    }
    lemma_settled_text_unchanged(text, domains);
}

/// Text that is no URL is not unwrapped, and every hit that carries it is
/// replaced by its own text.
pub proof fn lemma_malformed_url_passes(url: Seq<char>, domains: Seq<Seq<char>>)
    requires
        parsed_url(url) is None,
    ensures
        unwrapped(url, domains) is None,
        forall|hit: HitView, shape: Shape|
            hit.group(shape.url_group()) == Some(url) ==> #[trigger] replacement(
                hit,
                shape,
                domains,
            ) == hit.whole,
{
}

/// A text in which nothing that looks like a URL parses as one is left as
/// it is.
pub proof fn lemma_malformed_urls_leave_text(text: Seq<char>, domains: Seq<Seq<char>>)
    requires
        forall|shape: Shape, url: Seq<char>| #[trigger]
            finds(text, shape, url) ==> parsed_url(url) is None,
    ensures
        rewritten(text, domains) == text,
{
    lemma_settled_text_unchanged(text, domains);
}

} // verus!
