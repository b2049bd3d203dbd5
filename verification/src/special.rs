//! The registry of known special and known not-special domains, and the
//! inspection of a probed document for the special marker.

use vstd::prelude::*;
use crate::url_parts::UrlParts;

verus! {

/// A domain occurs in the list.
pub open spec fn domain_listed(list: Seq<Seq<char>>, domain: Seq<char>) -> bool {
    exists|i: int| 0 <= i < list.len() && list[i] == domain
}

/// Linear scan of a domain list.
fn list_contains(list: &Vec<String>, domain: &String) -> (r: bool)
    ensures
        r == domain_listed(list.deep_view(), domain@),
{
    let mut i: usize = 0;
    while i < list.len()
        invariant
            0 <= i <= list.len(),
            forall|j: int| 0 <= j < i ==> list.deep_view()[j] != domain@,
        decreases list.len() - i,
    {
        if list[i] == *domain {
            assert(list.deep_view()[i as int] == domain@);
            return true;
        }
        assert(list.deep_view()[i as int] != domain@);
        i = i + 1;
    }
    false
}

/// The lists of the known special domains and the known not-special domains.
///
/// Loaded once at process start and read-only afterwards; when the domain
/// resource is missing or malformed the caller falls back to
/// [`Domains::default`], the empty registry.
pub struct Domains {
    special_domains: Vec<String>,
    not_special_domains: Vec<String>,
}

impl Domains {
    /// The known special domains, as a sequence of character sequences.
    pub closed spec fn special_view(self) -> Seq<Seq<char>> {
        self.special_domains.deep_view()
    }

    /// The known not-special domains, as a sequence of character sequences.
    pub closed spec fn not_special_view(self) -> Seq<Seq<char>> {
        self.not_special_domains.deep_view()
    }

    /// The URL's domain is a known special domain. A URL without an
    /// extractable domain is never special.
    pub open spec fn spec_is_special(self, url: UrlParts) -> bool {
        match url.domain_view() {
            Some(d) => domain_listed(self.special_view(), d),
            None => false,
        }
    }

    /// The URL's domain is a known not-special domain. A URL without an
    /// extractable domain is never known not-special either.
    pub open spec fn spec_is_not_special(self, url: UrlParts) -> bool {
        match url.domain_view() {
            Some(d) => domain_listed(self.not_special_view(), d),
            None => false,
        }
    }

    /// Build a registry from the two domain lists.
    pub fn new(special_domains: Vec<String>, not_special_domains: Vec<String>) -> (r: Domains)
        ensures
            r.special_view() == special_domains.deep_view(),
            r.not_special_view() == not_special_domains.deep_view(),
    {
        Domains { special_domains, not_special_domains }
    }

    /// Check if the given url is a known special domain.
    pub fn is_special(&self, url: &UrlParts) -> (r: bool)
        ensures
            r == self.spec_is_special(*url),
    {
        match url.domain() {
            Some(d) => list_contains(&self.special_domains, d),
            None => false,
        }
    }

    /// Check if the given url is a known not-special domain.
    pub fn is_not_special(&self, url: &UrlParts) -> (r: bool)
        ensures
            r == self.spec_is_not_special(*url),
    {
        match url.domain() {
            Some(d) => list_contains(&self.not_special_domains, d),
            None => false,
        }
    }
}

impl Default for Domains {
    /// The empty registry: the fallback when the domain resource is missing
    /// or malformed.
    fn default() -> (r: Domains)
        ensures
            r.special_view() == Seq::<Seq<char>>::empty(),
            r.not_special_view() == Seq::<Seq<char>>::empty(),
    {
        let r = Domains { special_domains: Vec::new(), not_special_domains: Vec::new() };
        proof {
            assert(r.special_view() =~= Seq::<Seq<char>>::empty());
            assert(r.not_special_view() =~= Seq::<Seq<char>>::empty());
        }
        r
    }
}

/// What the result of searching a probed document for the marker is called
/// when the marker is absent.
#[derive(Debug, Clone, Copy, PartialEq, Eq, Structural)]
pub enum SpecialSearchError {
    /// The document does not carry the special marker.
    NotSpecial,
}

impl SpecialSearchError {
    /// The message rendered for this error.
    pub fn message(&self) -> (r: &'static str)
        ensures
            r@ == "The provided text is not a valide base"@,
    {
        "The provided text is not a valide base"
    }
}

/// Whether some element of the HTML document parsed from `document` matches
/// the CSS selector group parsed from `selector`; nothing when `selector` is
/// not valid CSS. Both parsing and matching depend on the two strings alone.
pub uninterp spec fn selector_match(document: Seq<char>, selector: Seq<char>) -> Option<bool>;

/// Relies on scraper's `Selector::parse`, `Html::parse_document` and
/// `Html::select`: selector parsing, document parsing and element matching
/// are deterministic in the two strings, and whether any element matches
/// does not depend on traversal order.
#[verifier::external_body]
fn document_matches_selector(document: &str, selector: &str) -> (r: Option<bool>)
    ensures
        r == selector_match(document@, selector@),
{
    match scraper::Selector::parse(selector) {
        Ok(sel) => {
            let doc = scraper::Html::parse_document(document);
            Some(doc.select(&sel).next().is_some())
        }
        Err(_) => None,
    }
}

/// The marker that detects the special platform: a `head`-level `meta` tag
/// whose `og:site_name` property has content `Medium`.
pub open spec fn spec_marker_selector() -> Seq<char> {
    "head > meta[property=\"og:site_name\"][content=\"Medium\"]"@
}

fn marker_selector() -> (r: &'static str)
    ensures
        r@ == spec_marker_selector(),
{
    "head > meta[property=\"og:site_name\"][content=\"Medium\"]"
}

/// The document carries the special marker.
pub open spec fn spec_document_is_special(document: Seq<char>) -> bool {
    selector_match(document, spec_marker_selector()) == Some(true)
}

/// Search a fetched document for the special marker: the inspection half of
/// the remote probe. The caller performs the fetch and hands the body here.
pub fn check_document(document: &str) -> (r: Result<(), SpecialSearchError>)
    ensures
        r is Ok <==> spec_document_is_special(document@),
        r is Err ==> r->Err_0 == SpecialSearchError::NotSpecial,
{
    match document_matches_selector(document, marker_selector()) {
        Some(true) => Ok(()),
        _ => Err(SpecialSearchError::NotSpecial),
    }
}

/// The boolean the classifier sees: marker found, and nothing else, counts
/// as special; an absent marker and an unusable document both do not.
pub fn document_is_special(document: &str) -> (r: bool)
    ensures
        r == spec_document_is_special(document@),
{
    match check_document(document) {
        Ok(()) => true,
        Err(_) => false,
    }
}

} // verus!
