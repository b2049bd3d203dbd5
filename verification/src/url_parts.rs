//! A plain-value model of an already-parsed absolute URL.
//!
//! The classifier only ever reads a handful of things from a URL: whether it
//! has a hierarchical base, its registrable domain, and its serialization
//! with or without the query string. [`UrlParts`] holds exactly those as
//! plain values, with a well-formedness invariant on the characters each
//! component may contain, so the rewriting logic can be stated and checked
//! over character sequences.

use vstd::prelude::*;
use vstd::string::StrSliceExecFns;
use vstd::string::StringExecFns;

verus! {

/// True of the characters that may appear in the serialization of a parsed
/// URL: the visible (graphic) ASCII range. A URL serializer percent-encodes
/// everything outside it.
pub open spec fn is_url_char(c: char) -> bool {
    '!' <= c && c <= '~'
}

/// Every character of `c` is a URL character; `'?'` is only allowed when
/// `allow_question` holds, `'#'` only when `allow_hash` holds.
pub open spec fn char_ok(c: char, allow_question: bool, allow_hash: bool) -> bool {
    &&& is_url_char(c)
    &&& (allow_question || c != '?')
    &&& (allow_hash || c != '#')
}

/// Every character of `s` satisfies [`char_ok`] with the given allowances.
pub open spec fn component_ok(s: Seq<char>, allow_question: bool, allow_hash: bool) -> bool {
    forall|i: int| 0 <= i < s.len() ==> char_ok(#[trigger] s[i], allow_question, allow_hash)
}

/// Scan a component for characters a URL serializer would never emit there.
fn scan_component(s: &str, allow_question: bool, allow_hash: bool) -> (r: bool)
    ensures
        r == component_ok(s@, allow_question, allow_hash),
{
    let n = s.unicode_len();
    let mut i: usize = 0;
    while i < n
        invariant
            n == s@.len(),
            0 <= i <= n,
            forall|j: int| 0 <= j < i ==> char_ok(#[trigger] s@[j], allow_question, allow_hash),
        decreases n - i,
    {
        let c = s.get_char(i);
        let ok = '!' <= c && c <= '~' && (allow_question || c != '?') && (allow_hash || c != '#');
        if !ok {
            assert(!char_ok(s@[i as int], allow_question, allow_hash));
            return false;
        }
        i = i + 1;
    }
    true
}

/// The components of an absolute URL that classification reads, as plain
/// values: everything before the query, the query, the fragment, the
/// registrable domain, and whether the URL has a hierarchical base.
pub struct UrlParts {
    base: String,
    query: Option<String>,
    fragment: Option<String>,
    domain: Option<String>,
    hierarchical: bool,
}

/// Well-formedness of the components of a URL: the part before the query
/// holds neither `'?'` nor `'#'`, the query holds no `'#'`, and every
/// component is made of URL characters.
pub open spec fn parts_ok(
    base: Seq<char>,
    query: Option<Seq<char>>,
    fragment: Option<Seq<char>>,
    domain: Option<Seq<char>>,
) -> bool {
    &&& base.len() > 0
    &&& component_ok(base, false, false)
    &&& match query {
        Some(q) => component_ok(q, true, false),
        None => true,
    }
    &&& match fragment {
        Some(f) => component_ok(f, true, true),
        None => true,
    }
    &&& match domain {
        Some(d) => component_ok(d, false, false),
        None => true,
    }
}

impl UrlParts {
    /// The serialization up to (and excluding) the query and fragment.
    pub closed spec fn base_view(self) -> Seq<char> {
        self.base@
    }

    /// The query component, without its leading `'?'`.
    pub closed spec fn query_view(self) -> Option<Seq<char>> {
        match self.query {
            Some(q) => Some(q@),
            None => None,
        }
    }

    /// The fragment component, without its leading `'#'`.
    pub closed spec fn fragment_view(self) -> Option<Seq<char>> {
        match self.fragment {
            Some(f) => Some(f@),
            None => None,
        }
    }

    /// The registrable domain, when the URL has one.
    pub closed spec fn domain_view(self) -> Option<Seq<char>> {
        match self.domain {
            Some(d) => Some(d@),
            None => None,
        }
    }

    /// Whether the URL has a hierarchical base. A URL without one cannot be
    /// decomposed, and is invalid input to the classifier.
    pub closed spec fn is_hierarchical(self) -> bool {
        self.hierarchical
    }

    /// What the query contributes to the serialization.
    pub open spec fn query_suffix(self) -> Seq<char> {
        match self.query_view() {
            Some(q) => seq!['?'] + q,
            None => Seq::<char>::empty(),
        }
    }

    /// What the fragment contributes to the serialization.
    pub open spec fn fragment_suffix(self) -> Seq<char> {
        match self.fragment_view() {
            Some(f) => seq!['#'] + f,
            None => Seq::<char>::empty(),
        }
    }

    /// The full serialization of the URL.
    pub open spec fn serialization(self) -> Seq<char> {
        self.base_view() + self.query_suffix() + self.fragment_suffix()
    }

    /// The serialization of the URL with its query string stripped.
    pub open spec fn stripped(self) -> Seq<char> {
        self.base_view() + self.fragment_suffix()
    }

    /// The invariant every constructed value satisfies.
    pub open spec fn wf(self) -> bool {
        parts_ok(self.base_view(), self.query_view(), self.fragment_view(), self.domain_view())
    }

    /// Assemble a URL from its components, validating each of them; yields
    /// nothing exactly when some component holds a character a URL
    /// serializer would never emit there.
    pub fn new(
        base: String,
        query: Option<String>,
        fragment: Option<String>,
        domain: Option<String>,
        hierarchical: bool,
    ) -> (r: Option<UrlParts>)
        ensures
            r is Some <==> parts_ok(base.deep_view(), query.deep_view(), fragment.deep_view(), domain.deep_view()),
            match r {
                Some(u) => {
                    &&& u.wf()
                    &&& u.base_view() == base.deep_view()
                    &&& u.query_view() == query.deep_view()
                    &&& u.fragment_view() == fragment.deep_view()
                    &&& u.domain_view() == domain.deep_view()
                    &&& u.is_hierarchical() == hierarchical
                },
                None => true,
            },
    {
        let base_ok = !base.as_str().is_empty() && scan_component(base.as_str(), false, false);
        let query_ok = match &query {
            Some(q) => scan_component(q.as_str(), true, false),
            None => true,
        };
        let fragment_ok = match &fragment {
            Some(f) => scan_component(f.as_str(), true, true),
            None => true,
        };
        let domain_ok = match &domain {
            Some(d) => scan_component(d.as_str(), false, false),
            None => true,
        };
        if base_ok && query_ok && fragment_ok && domain_ok {
            Some(UrlParts { base, query, fragment, domain, hierarchical })
        } else {
            None
        }
    }

    /// The registrable domain of the URL, when it has one.
    pub fn domain(&self) -> (r: Option<&String>)
        ensures
            match r {
                Some(d) => self.domain_view() == Some(d@),
                None => self.domain_view() is None,
            },
    {
        match &self.domain {
            Some(d) => Some(d),
            None => None,
        }
    }

    /// Append the URL's serialization to `out`, leaving the query string
    /// out when `strip_query` is set.
    pub fn write_serialization(&self, strip_query: bool, out: &mut String)
        ensures
            final(out)@ == old(out)@ + (if strip_query {
                self.stripped()
            } else {
                self.serialization()
            }),
    {
        out.append(self.base.as_str());
        if !strip_query {
            if let Some(q) = &self.query {
                out.append("?");
                out.append(q.as_str());
                proof {
                    reveal_strlit("?");
                    assert("?"@ =~= seq!['?']);
                }
            }
        }
        if let Some(f) = &self.fragment {
            out.append("#");
            out.append(f.as_str());
            proof {
                reveal_strlit("#");
                assert("#"@ =~= seq!['#']);
            }
        }
        proof {
            if strip_query {
                assert(out@ =~= old(out)@ + self.stripped());
            } else {
                assert(out@ =~= old(out)@ + self.serialization());
            }
        }
    }

    /// Every character of the serialization of a well-formed URL, stripped
    /// or not, is a URL character.
    pub proof fn lemma_serialization_chars(self)
        requires
            self.wf(),
        ensures
            component_ok(self.serialization(), true, true),
            component_ok(self.stripped(), true, true),
    {
        let b = self.base_view();
        let q = self.query_suffix();
        let f = self.fragment_suffix();
        assert forall|j: int| 0 <= j < q.len() implies is_url_char(#[trigger] q[j]) by {
            if let Some(qv) = self.query_view() {
                if j == 0 {
                    assert(q[0] == '?');
                } else {
                    assert(q[j] == qv[j - 1]);
                    assert(char_ok(qv[j - 1], true, false));
                }
            }
        }
        assert forall|j: int| 0 <= j < f.len() implies is_url_char(#[trigger] f[j]) by {
            if let Some(fv) = self.fragment_view() {
                if j == 0 {
                    assert(f[0] == '#');
                } else {
                    assert(f[j] == fv[j - 1]);
                    assert(char_ok(fv[j - 1], true, true));
                }
            }
        }
        assert forall|i: int| 0 <= i < self.serialization().len() implies char_ok(
            #[trigger] self.serialization()[i],
            true,
            true,
        ) by {
            let s = self.serialization();
            if i < b.len() {
                assert(s[i] == b[i]);
                assert(char_ok(b[i], false, false));
            } else if i < b.len() + q.len() {
                assert(s[i] == q[i - b.len()]);
            } else {
                assert(s[i] == f[i - b.len() - q.len()]);
            }
        }
        assert forall|i: int| 0 <= i < self.stripped().len() implies char_ok(
            #[trigger] self.stripped()[i],
            true,
            true,
        ) by {
            let s = self.stripped();
            if i < b.len() {
                assert(s[i] == b[i]);
                assert(char_ok(b[i], false, false));
            } else {
                assert(s[i] == f[i - b.len()]);
            }
        }
    }

    /// Whether the URL has a hierarchical base.
    pub fn has_base(&self) -> (r: bool)
        ensures
            r == self.is_hierarchical(),
    {
        self.hierarchical
    }
}

} // verus!
