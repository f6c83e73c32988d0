//! From the engine's notification of a new source to what the debugging
//! session is sent.

use crate::id::{parsed_worker_id, MalformedWorkerId, PipelineId, PipelineIdView, WorkerId};
use crate::policy::{
    classify, eligibility, inline_type, is_ephemeral_type, is_inline_source,
    lemma_inline_type_is_not_ephemeral, Eligibility, Suppression,
};
use crate::source::{source_record, SourceInfo, SourceInfoView};
use crate::source_url::{
    is_url_text, reconciled_url, resolve_override, resolved_override, select_url, selected_url,
    url_parse, url_text, ParsedUrl,
};
use crate::text::{text_of, text_of_str};
use vstd::prelude::*;

verus! {

/// The two numbers by which a notification names its pipeline.
#[derive(Clone, Copy, Debug, PartialEq, Eq, Structural)]
pub struct RawPipelineId {
    pub namespace_id: u32,
    pub index: u32,
}

/// What the engine reports of a piece of source that it compiled.
#[derive(Debug, PartialEq, Eq)]
pub struct NotifyNewSource {
    /// The pipeline that owns the source.
    pub pipeline_id: RawPipelineId,
    /// The engine's own number for the compiled script.
    pub spidermonkey_id: u32,
    /// The URL of the source, as the engine has it.
    pub url: String,
    /// The text of the source.
    pub text: String,
    /// How the source entered evaluation.
    pub introduction_type: Option<String>,
    /// A URL that instrumentation supplies in place of the engine's.
    pub url_override: Option<String>,
    /// The worker that runs the source, where it is not a page.
    pub worker_id: Option<String>,
}

/// A notification as plain values.
pub struct NotifyNewSourceView {
    pub pipeline_id: RawPipelineId,
    pub spidermonkey_id: u32,
    pub url: Seq<char>,
    pub text: Seq<char>,
    pub introduction_type: Option<Seq<char>>,
    pub url_override: Option<Seq<char>>,
    pub worker_id: Option<Seq<char>>,
}

impl View for NotifyNewSource {
    type V = NotifyNewSourceView;

    open spec fn view(&self) -> NotifyNewSourceView {
        NotifyNewSourceView {
            pipeline_id: self.pipeline_id,
            spidermonkey_id: self.spidermonkey_id,
            url: self.url@,
            text: self.text@,
            introduction_type: text_of(self.introduction_type),
            url_override: text_of(self.url_override),
            worker_id: text_of(self.worker_id),
        }
    }
}

/// A notification or a sink that breaks what the resolver relies on. None of
/// these is met on well-formed input; each ends the handling of the
/// notification that met it.
#[derive(Clone, Copy, Debug, PartialEq, Eq, Structural)]
pub enum ContractViolation {
    /// The notification names a pipeline by the index zero.
    ZeroPipelineIndex,
    /// The notification names a worker by a text that is no identifier.
    MalformedWorkerId,
    /// The sink did not take the message.
    SinkDisconnected,
}

/// A message to the debugging session.
#[derive(Debug, PartialEq, Eq)]
pub enum ScriptToDevtoolsControlMsg {
    /// A source exists: the pipeline that owns it, and its record.
    CreateSourceActor(PipelineId, SourceInfo),
}

/// What becomes of a notification.
#[derive(Debug, PartialEq, Eq)]
pub enum Dispatch {
    /// No debugging session is attached: nothing is done.
    NoSink,
    /// The source is not shown.
    Suppressed(Suppression),
    /// The message is to be sent to the sink.
    Send(ScriptToDevtoolsControlMsg),
}

/// The outcome of a notification as plain values.
pub enum DispatchView {
    NoSink,
    Suppressed(Suppression),
    Send(PipelineIdView, SourceInfoView),
}

impl View for Dispatch {
    type V = DispatchView;

    open spec fn view(&self) -> DispatchView {
        match self {
            Dispatch::NoSink => DispatchView::NoSink,
            Dispatch::Suppressed(reason) => DispatchView::Suppressed(*reason),
            Dispatch::Send(ScriptToDevtoolsControlMsg::CreateSourceActor(pipeline_id, info)) => DispatchView::Send(
                pipeline_id@,
                info@,
            ),
        }
    }
}

/// The result of handling a notification as plain values.
pub open spec fn outcome_view(r: Result<Dispatch, ContractViolation>) -> Result<
    DispatchView,
    ContractViolation,
> {
    match r {
        Ok(dispatch) => Ok(dispatch@),
        Err(violation) => Err(violation),
    }
}

/// What becomes of the notification `args`, given what the parsers made of
/// its texts: `url_original` of its URL, `url_override` of its override read
/// against that, `worker_id` of its worker identifier where it has one.
///
/// Without a sink nothing is done. With one, the pipeline index must not be
/// zero. Then the policy on introduction types decides whether the source is
/// shown; a source that is shown needs a URL, and a worker identifier that is
/// well formed where there is one.
pub open spec fn resolution(
    args: NotifyNewSourceView,
    sink_configured: bool,
    url_original: Option<Seq<char>>,
    url_override: Option<Seq<char>>,
    worker_id: Option<Result<WorkerId, MalformedWorkerId>>,
) -> Result<DispatchView, ContractViolation> {
    if !sink_configured {
        Ok(DispatchView::NoSink)
    } else if args.pipeline_id.index == 0 {
        Err(ContractViolation::ZeroPipelineIndex)
    } else {
        match eligibility(args.introduction_type, url_override is Some) {
            Eligibility::Ineligible(reason) => Ok(DispatchView::Suppressed(reason)),
            Eligibility::Eligible { inline } => match selected_url(url_override, url_original) {
                None => Ok(DispatchView::Suppressed(Suppression::NoValidUrl)),
                Some(url) => match worker_id {
                    Some(Err(_)) => Err(ContractViolation::MalformedWorkerId),
                    _ => Ok(
                        DispatchView::Send(
                            PipelineIdView {
                                namespace_id: args.pipeline_id.namespace_id,
                                index: args.pipeline_id.index,
                            },
                            source_record(
                                url,
                                args.introduction_type->0,
                                inline,
                                match worker_id {
                                    Some(Ok(id)) => Some(id),
                                    _ => None,
                                },
                                args.text,
                                args.spidermonkey_id,
                            ),
                        ),
                    ),
                },
            },
        }
    }
}

/// What becomes of the notification `args`.
pub open spec fn notification_outcome(args: NotifyNewSourceView, sink_configured: bool) -> Result<
    DispatchView,
    ContractViolation,
> {
    let url_original = url_parse(None, args.url);
    resolution(
        args,
        sink_configured,
        url_original,
        resolved_override(url_original, args.url_override),
        match args.worker_id {
            Some(text) => Some(parsed_worker_id(text)),
            None => None,
        },
    )
}

/// Borrows the text of an optional string.
fn as_text(s: &Option<String>) -> (r: Option<&str>)
    ensures
        text_of_str(r) == text_of(*s),
{
    match s {
        Some(s) => Some(s.as_str()),
        None => None,
    }
}

/// Decides what becomes of a notification whose texts have been parsed.
pub fn resolve_source(
    args: &NotifyNewSource,
    sink_configured: bool,
    url_original: Option<ParsedUrl>,
    url_override: Option<ParsedUrl>,
    worker_id: Option<Result<WorkerId, MalformedWorkerId>>,
) -> (r: Result<Dispatch, ContractViolation>)
    ensures
        outcome_view(r) == resolution(
            args@,
            sink_configured,
            url_text(url_original),
            url_text(url_override),
            worker_id,
        ),
{
    if !sink_configured {
        return Ok(Dispatch::NoSink);
    }
    let pipeline_id = match PipelineId::from_raw(
        args.pipeline_id.namespace_id,
        args.pipeline_id.index,
    ) {
        Ok(pipeline_id) => pipeline_id,
        Err(_) => {
            return Err(ContractViolation::ZeroPipelineIndex);
        },
    };
    let introduction_type = match as_text(&args.introduction_type) {
        Some(tag) => tag,
        None => {
            return Ok(Dispatch::Suppressed(Suppression::MissingIntroductionType));
        },
    };
    let inline = match classify(Some(introduction_type), url_override.is_some()) {
        Eligibility::Ineligible(reason) => {
            return Ok(Dispatch::Suppressed(reason));
        },
        Eligibility::Eligible { inline } => inline,
    };
    let url = match select_url(url_override, url_original) {
        Some(url) => url,
        None => {
            return Ok(Dispatch::Suppressed(Suppression::NoValidUrl));
        },
    };
    let worker_id = match worker_id {
        Some(Ok(id)) => Some(id),
        Some(Err(_)) => {
            return Err(ContractViolation::MalformedWorkerId);
        },
        None => None,
    };
    let info = SourceInfo::new(
        url,
        introduction_type,
        inline,
        worker_id,
        args.text.as_str(),
        args.spidermonkey_id,
    );
    Ok(Dispatch::Send(ScriptToDevtoolsControlMsg::CreateSourceActor(pipeline_id, info)))
}

/// Handles the engine's notification of a new source: parses its URL, its
/// override and its worker identifier, and decides what the debugging session
/// is sent. Without a sink nothing is parsed.
pub fn notify_new_source(args: &NotifyNewSource, sink_configured: bool) -> (r: Result<
    Dispatch,
    ContractViolation,
>)
    ensures
        outcome_view(r) == notification_outcome(args@, sink_configured),
        !sink_configured ==> r == Ok::<Dispatch, ContractViolation>(Dispatch::NoSink),
{
    if !sink_configured {
        return Ok(Dispatch::NoSink);
    }
    let url_original = ParsedUrl::parse(args.url.as_str());
    let url_override = resolve_override(url_original.as_ref(), as_text(&args.url_override));
    let worker_id = match as_text(&args.worker_id) {
        Some(text) => Some(WorkerId::parse(text)),
        None => None,
    };
    resolve_source(args, sink_configured, url_original, url_override, worker_id)
}

/// What a send to the sink comes to: a sink that did not take the message is
/// a violation, not something to try again.
pub fn confirm_delivery(delivered: bool) -> (r: Result<(), ContractViolation>)
    ensures
        r == if delivered {
            Ok::<(), ContractViolation>(())
        } else {
            Err::<(), ContractViolation>(ContractViolation::SinkDisconnected)
        },
{
    if delivered {
        Ok(())
    } else {
        Err(ContractViolation::SinkDisconnected)
    }
}

/// Whether a message goes to the sink.
pub open spec fn is_sent(outcome: Result<DispatchView, ContractViolation>) -> bool {
    outcome matches Ok(DispatchView::Send(_, _))
}

/// Without a sink a notification comes to nothing, whatever it holds: no
/// message, and no violation either.
pub proof fn lemma_no_sink_is_no_op(args: NotifyNewSourceView)
    ensures
        notification_outcome(args, false) == Ok::<DispatchView, ContractViolation>(
            DispatchView::NoSink,
        ),
{
}

/// Where the override of a notification resolves, the record that is sent
/// carries the override, read against the original URL, and not the original.
pub proof fn lemma_override_wins_in_record(args: NotifyNewSourceView, sink_configured: bool)
    requires
        resolved_override(url_parse(None, args.url), args.url_override) is Some,
    ensures
        notification_outcome(args, sink_configured) matches Ok(DispatchView::Send(_, info))
            ==> args.url_override is Some && Some(info.url) == url_parse(
            url_parse(None, args.url),
            args.url_override->0,
        ),
{
}

/// Where the original URL and the override both parse, and nothing else
/// stands in the way, a message is sent, and its record carries the override
/// read against the original.
pub proof fn lemma_override_is_sent(args: NotifyNewSourceView)
    requires
        args.pipeline_id.index != 0,
        args.introduction_type is Some,
        args.url_override is Some,
        url_parse(None, args.url) is Some,
        url_parse(url_parse(None, args.url), args.url_override->0) is Some,
        args.worker_id matches Some(text) ==> parsed_worker_id(text) is Ok,
    ensures
        notification_outcome(args, true) matches Ok(DispatchView::Send(pipeline_id, info)) && {
            &&& pipeline_id == (PipelineIdView {
                namespace_id: args.pipeline_id.namespace_id,
                index: args.pipeline_id.index,
            })
            &&& Some(info.url) == url_parse(url_parse(None, args.url), args.url_override->0)
            &&& !info.inline
            &&& info.content == Some(args.text)
        },
{
}

/// An ephemeral source without an override that resolves is never sent,
/// whether or not its original URL parses.
pub proof fn lemma_ephemeral_without_override_is_not_sent(
    args: NotifyNewSourceView,
    sink_configured: bool,
)
    requires
        args.introduction_type matches Some(tag) && is_ephemeral_type(tag),
        resolved_override(url_parse(None, args.url), args.url_override) is None,
    ensures
        !is_sent(notification_outcome(args, sink_configured)),
        sink_configured && args.pipeline_id.index != 0 ==> notification_outcome(
            args,
            sink_configured,
        ) == Ok::<DispatchView, ContractViolation>(
            DispatchView::Suppressed(Suppression::EphemeralWithoutUrl),
        ),
{
}

/// A source tagged as an inline script is sent as inline and without its text
/// where no override resolves, and as not inline and with its text where one
/// does.
pub proof fn lemma_inline_detection(args: NotifyNewSourceView, sink_configured: bool)
    requires
        args.introduction_type == Some(inline_type()),
    ensures
        notification_outcome(args, sink_configured) matches Ok(DispatchView::Send(_, info)) ==> {
            let overridden = resolved_override(url_parse(None, args.url), args.url_override)
                is Some;
            &&& info.inline == !overridden
            &&& info.content == if overridden {
                Some(args.text)
            } else {
                None
            }
        },
{
}

/// A source tagged as an inline script whose original URL parses is sent,
/// override or not, where nothing else stands in the way.
pub proof fn lemma_inline_script_is_sent(args: NotifyNewSourceView)
    requires
        args.pipeline_id.index != 0,
        args.introduction_type == Some(inline_type()),
        url_parse(None, args.url) is Some,
        args.worker_id matches Some(text) ==> parsed_worker_id(text) is Ok,
    ensures
        is_sent(notification_outcome(args, true)),
{
    lemma_inline_type_is_not_ephemeral();
}

/// A source without an introduction type is never sent.
pub proof fn lemma_missing_type_is_not_sent(args: NotifyNewSourceView, sink_configured: bool)
    requires
        args.introduction_type is None,
    ensures
        !is_sent(notification_outcome(args, sink_configured)),
        sink_configured && args.pipeline_id.index != 0 ==> notification_outcome(
            args,
            sink_configured,
        ) == Ok::<DispatchView, ContractViolation>(
            DispatchView::Suppressed(Suppression::MissingIntroductionType),
        ),
{
}

/// A pipeline index of zero is never accepted: with a sink it is a violation,
/// and every message that is sent names a pipeline whose index is not zero.
pub proof fn lemma_zero_index_is_rejected(args: NotifyNewSourceView, sink_configured: bool)
    ensures
        sink_configured && args.pipeline_id.index == 0 ==> notification_outcome(
            args,
            sink_configured,
        ) == Err::<DispatchView, ContractViolation>(ContractViolation::ZeroPipelineIndex),
        notification_outcome(args, sink_configured) matches Ok(DispatchView::Send(pipeline_id, _))
            ==> pipeline_id.index != 0,
{
}

/// Every record that is sent is well formed and says of its source what the
/// notification said: the URL is what the parser made of the override or,
/// failing that, of the original; the source is inline exactly when it is
/// tagged as an inline script and no override resolved; the text is there
/// exactly when the source is not inline; the worker is the one that the
/// notification names.
pub proof fn lemma_sent_record(args: NotifyNewSourceView, sink_configured: bool)
    ensures
        notification_outcome(args, sink_configured) matches Ok(DispatchView::Send(_, info)) ==> {
            let url_original = url_parse(None, args.url);
            let url_override = resolved_override(url_original, args.url_override);
            &&& info.wf()
            &&& is_url_text(info.url)
            &&& Some(info.url) == reconciled_url(
                url_original,
                args.url_override,
            )
            &&& Some(info.introduction_type) == args.introduction_type
            &&& info.inline == is_inline_source(
                info.introduction_type,
                url_override is Some,
            )
            &&& info.content == if info.inline {
                None
            } else {
                Some(args.text)
            }
            &&& info.content_type is None
            &&& match args.worker_id {
                Some(text) => parsed_worker_id(text) == Ok::<WorkerId, MalformedWorkerId>(
                    info.worker_id->0,
                ) && info.worker_id is Some,
                None => info.worker_id is None,
            }
            &&& info.spidermonkey_id == args.spidermonkey_id
        },
{
}

} // verus!
