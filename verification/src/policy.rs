//! The policy on introduction types: which sources are shown at all, and
//! which of them are inline.
//!
//! An introduction type is the tag by which the engine says how a piece of
//! source entered evaluation. The vocabulary is the engine's and is open: a
//! tag that is not known here is shown, and is not inline.

use crate::text::{same_text, text_of_str};
use vstd::prelude::*;
use vstd::string::StringExecFns;

verus! {

/// Why a source is not shown.
#[derive(Clone, Copy, Debug, PartialEq, Eq, Structural)]
pub enum Suppression {
    /// The engine reported no introduction type.
    MissingIntroductionType,
    /// The source is ephemeral and nothing gave it a URL of its own.
    EphemeralWithoutUrl,
    /// Neither the original URL nor the override parsed.
    NoValidUrl,
}

impl Suppression {
    /// The reason in words, for the log. `introduction_type` is the tag of
    /// the source; only the reason that turns on the tag names it.
    pub open spec fn reason_text(self, introduction_type: Seq<char>) -> Seq<char> {
        match self {
            Suppression::MissingIntroductionType => {
                "Not creating debuggee for script with no `introductionType`"@
            },
            Suppression::EphemeralWithoutUrl => {
                "Not creating debuggee: `introductionType` is `"@ + introduction_type
                    + "` but no valid url"@
            },
            Suppression::NoValidUrl => "Not creating debuggee: no valid url"@,
        }
    }

    /// The reason in words, for the log.
    pub fn reason(&self, introduction_type: &str) -> (s: String)
        ensures
            s@ == self.reason_text(introduction_type@),
    {
        match self {
            Suppression::MissingIntroductionType => {
                "Not creating debuggee for script with no `introductionType`".to_owned()
            },
            Suppression::EphemeralWithoutUrl => {
                let mut s = "Not creating debuggee: `introductionType` is `".to_owned();
                s.append(introduction_type);
                s.append("` but no valid url");
                s
            },
            Suppression::NoValidUrl => "Not creating debuggee: no valid url".to_owned(),
        }
    }
}

/// What the policy says of a source.
#[derive(Clone, Copy, Debug, PartialEq, Eq, Structural)]
pub enum Eligibility {
    /// The source is shown.
    Eligible { inline: bool },
    /// The source is not shown.
    Ineligible(Suppression),
}

/// The introduction types of code that exists only while it runs.
pub open spec fn ephemeral_types() -> Seq<Seq<char>> {
    seq![
        "injectedScript"@,
        "eval"@,
        "debugger eval"@,
        "Function"@,
        "javascriptURL"@,
        "eventHandler"@,
        "domTimer"@,
    ]
}

/// Whether `tag` is one of the ephemeral introduction types.
pub open spec fn is_ephemeral_type(tag: Seq<char>) -> bool {
    ephemeral_types().contains(tag)
}

/// The introduction type of a script that is embedded in a document.
pub open spec fn inline_type() -> Seq<char> {
    "inlineScript"@
}

/// Whether a source is inline: it is tagged as embedded in a document and no
/// override gave it a URL of its own.
pub open spec fn is_inline_source(tag: Seq<char>, override_resolved: bool) -> bool {
    tag == inline_type() && !override_resolved
}

/// The policy: a source without a tag is not shown, nor an ephemeral one
/// without an override that resolved; every other source is shown.
pub open spec fn eligibility(tag: Option<Seq<char>>, override_resolved: bool) -> Eligibility {
    match tag {
        None => Eligibility::Ineligible(Suppression::MissingIntroductionType),
        Some(tag) => if is_ephemeral_type(tag) && !override_resolved {
            Eligibility::Ineligible(Suppression::EphemeralWithoutUrl)
        } else {
            Eligibility::Eligible { inline: is_inline_source(tag, override_resolved) }
        },
    }
}

/// Whether `tag` is one of the ephemeral introduction types.
pub fn is_ephemeral(tag: &str) -> (r: bool)
    ensures
        r == is_ephemeral_type(tag@),
{
    let r = same_text(tag, "injectedScript") || same_text(tag, "eval") || same_text(
        tag,
        "debugger eval",
    ) || same_text(tag, "Function") || same_text(tag, "javascriptURL") || same_text(
        tag,
        "eventHandler",
    ) || same_text(tag, "domTimer");
    proof {
        let known = ephemeral_types();
        if r {
            assert(known[0] == "injectedScript"@);
            assert(known[1] == "eval"@);
            assert(known[2] == "debugger eval"@);
            assert(known[3] == "Function"@);
            assert(known[4] == "javascriptURL"@);
            assert(known[5] == "eventHandler"@);
            assert(known[6] == "domTimer"@);
        }
    }
    r
}

/// Whether a source is inline.
pub fn is_inline(tag: &str, override_resolved: bool) -> (r: bool)
    ensures
        r == is_inline_source(tag@, override_resolved),
{
    same_text(tag, "inlineScript") && !override_resolved
}

/// Applies the policy to the tag of a source.
pub fn classify(tag: Option<&str>, override_resolved: bool) -> (r: Eligibility)
    ensures
        r == eligibility(text_of_str(tag), override_resolved),
{
    match tag {
        None => Eligibility::Ineligible(Suppression::MissingIntroductionType),
        Some(tag) => {
            if is_ephemeral(tag) && !override_resolved {
                Eligibility::Ineligible(Suppression::EphemeralWithoutUrl)
            } else {
                Eligibility::Eligible { inline: is_inline(tag, override_resolved) }
            }
        },
    }
}

/// The tag of an embedded script is not an ephemeral one.
pub proof fn lemma_inline_type_is_not_ephemeral()
    ensures
        !is_ephemeral_type(inline_type()),
{
    reveal_strlit("inlineScript");
    reveal_strlit("injectedScript");
    reveal_strlit("eval");
    reveal_strlit("debugger eval");
    reveal_strlit("Function");
    reveal_strlit("javascriptURL");
    reveal_strlit("eventHandler");
    reveal_strlit("domTimer");
    let known = ephemeral_types();
    let inline = inline_type();
    assert(inline.len() == 12 && inline[0] == 'i');
    assert(known[0].len() == 14);
    assert(known[1].len() == 4);
    assert(known[2].len() == 13);
    assert(known[3].len() == 8);
    assert(known[4].len() == 13);
    assert(known[5][0] == 'e');
    assert(known[6].len() == 8);
    assert forall|i: int| 0 <= i < known.len() implies known[i] != inline by {
        assert(0 <= i < 7);
    }
}

/// An ephemeral source is shown exactly when an override gave it a URL, and
/// then it is not inline.
pub proof fn lemma_ephemeral_needs_override(tag: Seq<char>, override_resolved: bool)
    requires
        is_ephemeral_type(tag),
    ensures
        eligibility(Some(tag), override_resolved) == if override_resolved {
            Eligibility::Eligible { inline: false }
        } else {
            Eligibility::Ineligible(Suppression::EphemeralWithoutUrl)
        },
{
    lemma_inline_type_is_not_ephemeral();
}

/// A tag that is not known here is shown, and is not inline.
pub proof fn lemma_unknown_type_is_shown(tag: Seq<char>, override_resolved: bool)
    requires
        !is_ephemeral_type(tag),
        tag != inline_type(),
    ensures
        eligibility(Some(tag), override_resolved) == (Eligibility::Eligible { inline: false }),
{
}

/// The policy never gives the want of a URL as its reason: that is for the
/// one who looks for the URL.
pub proof fn lemma_policy_reasons(tag: Option<Seq<char>>, override_resolved: bool)
    ensures
        eligibility(tag, override_resolved) != Eligibility::Ineligible(Suppression::NoValidUrl),
        eligibility(tag, override_resolved) == Eligibility::Ineligible(
            Suppression::MissingIntroductionType,
        ) <==> tag is None,
{
}

} // verus!
