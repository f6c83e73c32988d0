//! Parsed URLs, and the choice between the URL that the engine reports for a
//! source and the one that instrumentation supplies in its place.

use crate::text::{text_of, text_of_str};
use url::Url;
use vstd::prelude::*;

verus! {

/// What the URL parser makes of `input`: the serialization of the URL that it
/// reads, or `None` where it fails. With a `base`, itself the serialization of
/// a URL, a relative `input` is resolved against it; without one only an
/// absolute `input` parses.
pub uninterp spec fn url_parse(base: Option<Seq<char>>, input: Seq<char>) -> Option<Seq<char>>;

/// Whether `text` is the serialization of a URL: the parser gave it for some
/// input.
pub open spec fn is_url_text(text: Seq<char>) -> bool {
    exists|base: Option<Seq<char>>, input: Seq<char>| #[trigger] url_parse(base, input) == Some(text)
}

/// Runs `url::Url::options().base_url(base).parse(input)` and hands back the
/// serialization of the URL, or `None` where the parser returns an error. The
/// base arrives as its serialization and is parsed again with
/// `url::Url::parse` to be handed over; a base that does not parse is none.
///
/// Not proved: that the answer is [`url_parse`] of the two texts, that is, that
/// the parser's answer depends on nothing but them.
#[verifier::external_body]
fn parse_against(base: Option<&str>, input: &str) -> (r: Option<String>)
    ensures
        text_of(r) == url_parse(text_of_str(base), input@),
{
    let base_url = match base {
        Some(text) => Url::parse(text).ok(),
        None => None,
    };
    match Url::options().base_url(base_url.as_ref()).parse(input) {
        Ok(url) => Some(String::from(url)),
        Err(_) => None,
    }
}

/// A URL that the parser accepted, held as its serialization.
#[derive(Debug, PartialEq, Eq)]
pub struct ParsedUrl {
    serialization: String,
}

impl View for ParsedUrl {
    type V = Seq<char>;

    closed spec fn view(&self) -> Seq<char> {
        self.serialization@
    }
}

/// The serialization of an optional URL.
pub open spec fn url_text(url: Option<ParsedUrl>) -> Option<Seq<char>> {
    match url {
        Some(url) => Some(url@),
        None => None,
    }
}

/// The serialization of an optional borrowed URL.
pub open spec fn url_text_ref(url: Option<&ParsedUrl>) -> Option<Seq<char>> {
    match url {
        Some(url) => Some(url@),
        None => None,
    }
}

impl Clone for ParsedUrl {
    fn clone(&self) -> (r: Self)
        ensures
            r@ == self@,
    {
        proof {
            use_type_invariant(self);
        }
        ParsedUrl { serialization: self.serialization.clone() }
    }
}

impl ParsedUrl {
    #[verifier::type_invariant]
    spec fn parsed(self) -> bool {
        is_url_text(self.serialization@)
    }

    /// Parses an absolute URL.
    pub fn parse(input: &str) -> (r: Option<ParsedUrl>)
        ensures
            url_text(r) == url_parse(None, input@),
    {
        ParsedUrl::parse_with_base(None, input)
    }

    /// Parses a URL, resolving a relative `input` against `base` where there
    /// is one.
    pub fn parse_with_base(base: Option<&ParsedUrl>, input: &str) -> (r: Option<ParsedUrl>)
        ensures
            url_text(r) == url_parse(url_text_ref(base), input@),
    {
        let base_text: Option<&str> = match base {
            Some(url) => Some(url.as_str()),
            None => None,
        };
        match parse_against(base_text, input) {
            Some(serialization) => {
                assert(url_parse(text_of_str(base_text), input@) == Some(serialization@));
                Some(ParsedUrl { serialization })
            },
            None => None,
        }
    }

    /// The URL that a debugger global is created under.
    pub fn debugger_global() -> (r: Option<ParsedUrl>)
        ensures
            url_text(r) == url_parse(None, "about:internal/debugger"@),
    {
        ParsedUrl::parse_with_base(None, "about:internal/debugger")
    }

    /// The serialization of this URL.
    pub fn as_str(&self) -> (s: &str)
        ensures
            s@ == self@,
            is_url_text(s@),
    {
        proof {
            use_type_invariant(self);
        }
        self.serialization.as_str()
    }
}

/// The override of a source's URL: the parser's reading of `url_override`
/// against `url_original`, where there is an override and it parses.
pub open spec fn resolved_override(
    url_original: Option<Seq<char>>,
    url_override: Option<Seq<char>>,
) -> Option<Seq<char>> {
    match url_override {
        Some(raw) => url_parse(url_original, raw),
        None => None,
    }
}

/// The URL that stands for a source: the override where there is one, else
/// the original, else none.
pub open spec fn selected_url(
    url_override: Option<Seq<char>>,
    url_original: Option<Seq<char>>,
) -> Option<Seq<char>> {
    if url_override is Some {
        url_override
    } else {
        url_original
    }
}

/// The URL of a source with the original `url_original`, already parsed, and
/// the raw override `url_override`.
pub open spec fn reconciled_url(
    url_original: Option<Seq<char>>,
    url_override: Option<Seq<char>>,
) -> Option<Seq<char>> {
    selected_url(resolved_override(url_original, url_override), url_original)
}

/// Parses the override, with the original as its base. A failure leaves no
/// override.
pub fn resolve_override(url_original: Option<&ParsedUrl>, url_override: Option<&str>) -> (r:
    Option<ParsedUrl>)
    ensures
        url_text(r) == resolved_override(url_text_ref(url_original), text_of_str(url_override)),
{
    match url_override {
        Some(raw) => ParsedUrl::parse_with_base(url_original, raw),
        None => None,
    }
}

/// The override where there is one, else the original.
pub fn select_url(url_override: Option<ParsedUrl>, url_original: Option<ParsedUrl>) -> (r: Option<
    ParsedUrl,
>)
    ensures
        r == if url_override is Some {
            url_override
        } else {
            url_original
        },
        url_text(r) == selected_url(url_text(url_override), url_text(url_original)),
{
    match url_override {
        Some(url) => Some(url),
        None => url_original,
    }
}

/// Settles the URL of a source from the original, already parsed, and the raw
/// override.
pub fn reconcile_url(url_original: Option<ParsedUrl>, url_override: Option<&str>) -> (r: Option<
    ParsedUrl,
>)
    ensures
        url_text(r) == reconciled_url(url_text(url_original), text_of_str(url_override)),
{
    let resolved = resolve_override(url_original.as_ref(), url_override);
    select_url(resolved, url_original)
}

/// An override that resolves is the URL of the source, whatever the original.
pub proof fn lemma_override_wins(url_original: Option<Seq<char>>, url_override: Seq<char>)
    requires
        url_parse(url_original, url_override) is Some,
    ensures
        reconciled_url(url_original, Some(url_override)) == url_parse(url_original, url_override),
{
}

/// Without an override that resolves, the URL of the source is the original.
pub proof fn lemma_original_is_fallback(
    url_original: Option<Seq<char>>,
    url_override: Option<Seq<char>>,
)
    requires
        resolved_override(url_original, url_override) is None,
    ensures
        reconciled_url(url_original, url_override) == url_original,
{
}

} // verus!
