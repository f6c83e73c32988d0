//! The record of a source, as the debugging session receives it.

use crate::id::WorkerId;
use crate::source_url::ParsedUrl;
use crate::text::text_of;
use vstd::prelude::*;

verus! {

/// What a debugging session learns of one source.
#[derive(Debug, PartialEq, Eq)]
pub struct SourceInfo {
    /// The URL of the source.
    pub url: ParsedUrl,
    /// The tag by which the engine said how the source entered evaluation.
    pub introduction_type: String,
    /// Whether the source is embedded in a document.
    pub inline: bool,
    /// The worker that runs the source, where it is not a page.
    pub worker_id: Option<WorkerId>,
    /// The text of the source. An inline source has none here: its text is
    /// that of the document around it.
    pub content: Option<String>,
    /// The content type of the source, which nothing reports yet.
    pub content_type: Option<String>,
    /// The engine's own number for the compiled script.
    pub spidermonkey_id: u32,
}

/// A source record as plain values.
pub struct SourceInfoView {
    pub url: Seq<char>,
    pub introduction_type: Seq<char>,
    pub inline: bool,
    pub worker_id: Option<WorkerId>,
    pub content: Option<Seq<char>>,
    pub content_type: Option<Seq<char>>,
    pub spidermonkey_id: u32,
}

impl View for SourceInfo {
    type V = SourceInfoView;

    open spec fn view(&self) -> SourceInfoView {
        SourceInfoView {
            url: self.url@,
            introduction_type: self.introduction_type@,
            inline: self.inline,
            worker_id: self.worker_id,
            content: text_of(self.content),
            content_type: text_of(self.content_type),
            spidermonkey_id: self.spidermonkey_id,
        }
    }
}

impl SourceInfoView {
    /// A record carries the text of its source exactly when the source is not
    /// inline, and no content type.
    pub open spec fn wf(self) -> bool {
        &&& self.inline <==> self.content is None
        &&& self.content_type is None
    }
}

/// The record of a source with the given URL, tag and text.
pub open spec fn source_record(
    url: Seq<char>,
    introduction_type: Seq<char>,
    inline: bool,
    worker_id: Option<WorkerId>,
    text: Seq<char>,
    spidermonkey_id: u32,
) -> SourceInfoView {
    SourceInfoView {
        url,
        introduction_type,
        inline,
        worker_id,
        content: if inline {
            None
        } else {
            Some(text)
        },
        content_type: None,
        spidermonkey_id,
    }
}

impl SourceInfo {
    /// Assembles the record of a source. The text goes into the record only
    /// where the source is not inline.
    pub fn new(
        url: ParsedUrl,
        introduction_type: &str,
        inline: bool,
        worker_id: Option<WorkerId>,
        text: &str,
        spidermonkey_id: u32,
    ) -> (info: SourceInfo)
        ensures
            info@ == source_record(
                url@,
                introduction_type@,
                inline,
                worker_id,
                text@,
                spidermonkey_id,
            ),
            info@.wf(),
    {
        let content = if inline {
            None
        } else {
            Some(text.to_owned())
        };
        SourceInfo {
            url,
            introduction_type: introduction_type.to_owned(),
            inline,
            worker_id,
            content,
            content_type: None,
            spidermonkey_id,
        }
    }
}

} // verus!
