//! A URL classification and rewriting engine for paywall bypassing.
//!
//! Given an already-parsed absolute URL, the engine decides which of two
//! external rewriting services should front it and produces the rewritten
//! URL string. Known domains are resolved through a [`special::Domains`]
//! registry; unknown domains may, when permitted, be resolved through a
//! one-shot remote probe whose document is inspected by
//! [`special::check_document`].

use vstd::prelude::*;

pub mod special;
pub mod url_parts;

use crate::special::Domains;
use crate::url_parts::UrlParts;

verus! {

/// The error a single classification request can end with.
#[derive(Debug, Clone, Copy, PartialEq, Eq, Structural)]
pub enum ProcessError {
    /// The supplied text could not be parsed as an absolute URL at all.
    NotAnUrl,
    /// The URL parses but has no hierarchical base, so domain extraction
    /// and query stripping are impossible.
    NotABase,
}

impl ProcessError {
    /// The message shown to the requester for this error.
    pub fn message(&self) -> (r: &'static str)
        ensures
            *self == ProcessError::NotAnUrl ==> r@ == "The provided text is not a valid URL"@,
            *self == ProcessError::NotABase ==> r@ == "The provided text is not a valide base"@,
    {
        match self {
            ProcessError::NotAnUrl => "The provided text is not a valid URL",
            ProcessError::NotABase => "The provided text is not a valide base",
        }
    }
}

/// The external rewriting service a URL is routed to.
#[derive(Debug, Clone, Copy, PartialEq, Eq, Structural)]
pub enum Target {
    /// The Medium-focused rewrite service.
    Special,
    /// The fallback rewrite service, applicable to any domain.
    Generic,
}

/// What consulting the registry decided: either the target is settled, or
/// only a remote probe can still tell the two targets apart.
#[derive(Debug, Clone, Copy, PartialEq, Eq, Structural)]
pub enum Decision {
    /// The registry (or the remote-check flag) settled the target.
    Resolved(Target),
    /// The registry knows nothing of the domain and remote checking is
    /// permitted: only the probe's answer decides.
    NeedsProbe,
}

/// The root URL of the rewrite service a target names.
pub open spec fn spec_base_url(target: Target) -> Seq<char> {
    match target {
        Target::Special => "https://freedium.cfd/"@,
        Target::Generic => "https://removepaywall.com/"@,
    }
}

/// The root URL of the rewrite service a target names.
pub fn base_url(target: Target) -> (r: &'static str)
    ensures
        r@ == spec_base_url(target),
{
    match target {
        Target::Special => "https://freedium.cfd/",
        Target::Generic => "https://removepaywall.com/",
    }
}

/// The ordered rules of one classification request, first match winning:
/// no hierarchical base fails; a known special domain routes to the special
/// target; with remote checking off everything else routes to the generic
/// target; a known not-special domain routes to the generic target; for the
/// rest only a probe can decide.
pub open spec fn spec_classify(domains: Domains, url: UrlParts, remote_check: bool) -> Result<
    Decision,
    ProcessError,
> {
    if !url.is_hierarchical() {
        Err(ProcessError::NotABase)
    } else if domains.spec_is_special(url) {
        Ok(Decision::Resolved(Target::Special))
    } else if !remote_check {
        Ok(Decision::Resolved(Target::Generic))
    } else if domains.spec_is_not_special(url) {
        Ok(Decision::Resolved(Target::Generic))
    } else {
        Ok(Decision::NeedsProbe)
    }
}

/// Consult the registry (and the remote-check flag) for one URL; yields
/// [`Decision::NeedsProbe`] exactly when only a remote probe can still
/// settle the target.
pub fn classify(domains: &Domains, url: &UrlParts, remote_check: bool) -> (r: Result<
    Decision,
    ProcessError,
>)
    ensures
        r == spec_classify(*domains, *url, remote_check),
{
    if !url.has_base() {
        Err(ProcessError::NotABase)
    } else if domains.is_special(url) {
        Ok(Decision::Resolved(Target::Special))
    } else if !remote_check {
        Ok(Decision::Resolved(Target::Generic))
    } else if domains.is_not_special(url) {
        Ok(Decision::Resolved(Target::Generic))
    } else {
        Ok(Decision::NeedsProbe)
    }
}

/// The target a completed probe settles on: the probe's answer alone
/// decides, marker found meaning special.
pub fn decide_from_probe(found_marker: bool) -> (r: Target)
    ensures
        r == (if found_marker {
            Target::Special
        } else {
            Target::Generic
        }),
{
    if found_marker {
        Target::Special
    } else {
        Target::Generic
    }
}

/// The rewritten URL for a settled target: the service's root URL followed
/// by the URL's serialization, with the query string stripped for the
/// special target only.
pub open spec fn spec_rewritten(target: Target, url: UrlParts) -> Seq<char> {
    spec_base_url(target) + (if target == Target::Special {
        url.stripped()
    } else {
        url.serialization()
    })
}

/// Compose the rewritten URL string for a settled target.
pub fn compose_result(target: Target, url: &UrlParts) -> (r: String)
    ensures
        r@ == spec_rewritten(target, *url),
{
    let mut out = String::new();
    out.append(base_url(target));
    match target {
        Target::Special => url.write_serialization(true, &mut out),
        Target::Generic => url.write_serialization(false, &mut out),
    }
    out
}

/// The outcome of one whole classification request, the probe's answer
/// given: the error when the URL has no hierarchical base, and otherwise
/// the rewritten URL for the target the ordered rules settle on, the
/// probe's answer deciding only the last rule.
pub open spec fn spec_process(
    domains: Domains,
    url: UrlParts,
    remote_check: bool,
    found_marker: bool,
) -> Result<Seq<char>, ProcessError> {
    match spec_classify(domains, url, remote_check) {
        Err(e) => Err(e),
        Ok(Decision::Resolved(t)) => Ok(spec_rewritten(t, url)),
        Ok(Decision::NeedsProbe) => Ok(
            spec_rewritten(
                if found_marker {
                    Target::Special
                } else {
                    Target::Generic
                },
                url,
            ),
        ),
    }
}

/// Check if the url is special or not, and produce the rewritten URL.
///
/// The registry is consulted first; `found_marker` is the remote probe's
/// answer and is consulted only when the registry and the `remote_check`
/// flag leave the target open. A caller that did not probe — because
/// [`classify`] resolved, or because the fetch failed — passes `false`,
/// which matches folding every probe failure into "not special".
pub fn process_url(domains: &Domains, url: &UrlParts, remote_check: bool, found_marker: bool) -> (r:
    Result<String, ProcessError>)
    ensures
        r is Ok <==> spec_process(*domains, *url, remote_check, found_marker) is Ok,
        r matches Ok(s) ==> spec_process(*domains, *url, remote_check, found_marker) == Ok::<
            Seq<char>,
            ProcessError,
        >(s@),
        r matches Err(e) ==> spec_process(*domains, *url, remote_check, found_marker) == Err::<
            Seq<char>,
            ProcessError,
        >(e),
{
    match classify(domains, url, remote_check) {
        Err(e) => Err(e),
        Ok(Decision::Resolved(t)) => Ok(compose_result(t, url)),
        Ok(Decision::NeedsProbe) => Ok(compose_result(decide_from_probe(found_marker), url)),
    }
}

/// A syntactically well-formed rewritten URL: it begins with an absolute
/// `https` base and holds URL characters only.
pub open spec fn syntactically_valid_url(s: Seq<char>) -> bool {
    &&& s.len() > 8
    &&& s.subrange(0, 8) == "https://"@
    &&& crate::url_parts::component_ok(s, true, true)
}

/// Both service roots are themselves well-formed absolute `https` URLs.
proof fn lemma_base_url_form(target: Target)
    ensures
        spec_base_url(target).len() > 8,
        spec_base_url(target).subrange(0, 8) == "https://"@,
        crate::url_parts::component_ok(spec_base_url(target), true, true),
{
    reveal_strlit("https://freedium.cfd/");
    reveal_strlit("https://removepaywall.com/");
    reveal_strlit("https://");
    let b = spec_base_url(target);
    assert forall|i: int| 0 <= i < b.len() implies crate::url_parts::char_ok(
        #[trigger] b[i],
        true,
        true,
    ) by {}
    assert(b.subrange(0, 8) =~= "https://"@);
}

/// Round trip: whenever the input URL was well-formed, the rewritten
/// string — the target's base URL followed by the stripped or original
/// serialization — is itself a syntactically well-formed URL.
pub proof fn lemma_rewrite_well_formed(target: Target, url: UrlParts)
    requires
        url.wf(),
    ensures
        syntactically_valid_url(spec_rewritten(target, url)),
{
    lemma_base_url_form(target);
    url.lemma_serialization_chars();
    let b = spec_base_url(target);
    let rest = if target == Target::Special {
        url.stripped()
    } else {
        url.serialization()
    };
    let s = spec_rewritten(target, url);
    assert(s == b + rest);
    assert(s.subrange(0, 8) =~= b.subrange(0, 8));
    assert forall|i: int| 0 <= i < s.len() implies crate::url_parts::char_ok(
        #[trigger] s[i],
        true,
        true,
    ) by {
        if i < b.len() {
            assert(s[i] == b[i]);
        } else {
            assert(s[i] == rest[i - b.len()]);
        }
    }
}

/// A URL whose domain the registry marks special is always routed to the
/// special target — whatever the remote-check flag and the probe's answer
/// say — and its query string is stripped from the output.
pub proof fn lemma_special_domain_wins(
    domains: Domains,
    url: UrlParts,
    remote_check: bool,
    found_marker: bool,
)
    requires
        url.is_hierarchical(),
        domains.spec_is_special(url),
    ensures
        spec_classify(domains, url, remote_check) == Ok::<Decision, ProcessError>(
            Decision::Resolved(Target::Special),
        ),
        spec_process(domains, url, remote_check, found_marker) == Ok::<Seq<char>, ProcessError>(
            spec_base_url(Target::Special) + url.stripped(),
        ),
{
}

/// A URL whose domain the registry marks not special — and does not also
/// mark special, for then the special rule wins first — is, under remote
/// checking, routed to the generic target with the probe never consulted:
/// classification resolves before a probe is needed, and the outcome does
/// not depend on any probe answer.
pub proof fn lemma_not_special_domain_resolves(domains: Domains, url: UrlParts)
    requires
        url.is_hierarchical(),
        domains.spec_is_not_special(url),
        !domains.spec_is_special(url),
    ensures
        spec_classify(domains, url, true) == Ok::<Decision, ProcessError>(
            Decision::Resolved(Target::Generic),
        ),
        forall|found_marker: bool|
            spec_process(domains, url, true, found_marker) == Ok::<Seq<char>, ProcessError>(
                spec_base_url(Target::Generic) + url.serialization(),
            ),
{
}

/// With remote checking disabled the probe is never asked for: classification
/// always resolves, its outcome does not depend on any probe answer, and it
/// routes to the special target exactly when the registry already marks the
/// domain special.
pub proof fn lemma_no_remote_no_probe(domains: Domains, url: UrlParts)
    requires
        url.is_hierarchical(),
    ensures
        spec_classify(domains, url, false) != Ok::<Decision, ProcessError>(Decision::NeedsProbe),
        spec_classify(domains, url, false) == Ok::<Decision, ProcessError>(
            Decision::Resolved(Target::Special),
        ) <==> domains.spec_is_special(url),
        forall|found_marker: bool|
            #[trigger] spec_process(domains, url, false, found_marker) == spec_process(
                domains,
                url,
                false,
                false,
            ),
{
}

} // verus!
