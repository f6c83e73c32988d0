use debuggee_sources::id::{Index, PipelineId, PipelineNamespaceId, WorkerId};
use debuggee_sources::policy::Suppression;
use debuggee_sources::resolver::{
    confirm_delivery, notify_new_source, resolve_source, ContractViolation, ScriptToDevtoolsControlMsg,
    Dispatch, NotifyNewSource, RawPipelineId,
};
use debuggee_sources::source::SourceInfo;
use debuggee_sources::source_url::ParsedUrl;

const TEXT: &str = "function f() { return 1; }";

fn notification(
    introduction_type: Option<&str>,
    url: &str,
    url_override: Option<&str>,
) -> NotifyNewSource {
    NotifyNewSource {
        pipeline_id: RawPipelineId { namespace_id: 7, index: 3 },
        spidermonkey_id: 42,
        url: url.to_owned(),
        text: TEXT.to_owned(),
        introduction_type: introduction_type.map(str::to_owned),
        url_override: url_override.map(str::to_owned),
        worker_id: None,
    }
}

fn sent(outcome: Result<Dispatch, ContractViolation>) -> (PipelineId, SourceInfo) {
    match outcome {
        Ok(Dispatch::Send(ScriptToDevtoolsControlMsg::CreateSourceActor(pipeline_id, info))) => {
            (pipeline_id, info)
        },
        other => panic!("no message: {:?}", other),
    }
}

#[test]
fn eval_without_override_is_suppressed() {
    let args = notification(Some("eval"), "about:blank", None);
    assert_eq!(
        notify_new_source(&args, true),
        Ok(Dispatch::Suppressed(Suppression::EphemeralWithoutUrl))
    );
}

#[test]
fn eval_with_override_is_sent_under_the_override() {
    let args = notification(Some("eval"), "about:blank", Some("https://example.com/evaled.js"));
    let (pipeline_id, info) = sent(notify_new_source(&args, true));
    assert_eq!(pipeline_id.namespace_id, PipelineNamespaceId(7));
    assert_eq!(pipeline_id.index, Index::new(3).unwrap());
    assert_eq!(info.url.as_str(), "https://example.com/evaled.js");
    assert_eq!(info.introduction_type, "eval");
    assert!(!info.inline);
    assert_eq!(info.content, Some(TEXT.to_owned()));
    assert_eq!(info.content_type, None);
    assert_eq!(info.worker_id, None);
    assert_eq!(info.spidermonkey_id, 42);
}

#[test]
fn inline_script_is_sent_without_its_text() {
    let args = notification(Some("inlineScript"), "https://example.com/page.html", None);
    let (_, info) = sent(notify_new_source(&args, true));
    assert_eq!(info.url.as_str(), "https://example.com/page.html");
    assert_eq!(info.introduction_type, "inlineScript");
    assert!(info.inline);
    assert_eq!(info.content, None);
    assert_eq!(info.content_type, None);
}

#[test]
fn missing_type_is_suppressed() {
    let args = notification(None, "https://example.com/x.js", None);
    assert_eq!(
        notify_new_source(&args, true),
        Ok(Dispatch::Suppressed(Suppression::MissingIntroductionType))
    );
}

#[test]
fn unknown_type_is_sent_with_its_text() {
    let args = notification(Some("normalScript"), "https://example.com/x.js", None);
    let (_, info) = sent(notify_new_source(&args, true));
    assert_eq!(info.url.as_str(), "https://example.com/x.js");
    assert_eq!(info.introduction_type, "normalScript");
    assert!(!info.inline);
    assert_eq!(info.content, Some(TEXT.to_owned()));
}

#[test]
fn no_sink_is_a_no_op() {
    let cases = [
        notification(Some("normalScript"), "https://example.com/x.js", None),
        notification(Some("eval"), "about:blank", Some("https://example.com/evaled.js")),
        notification(None, "not a url", Some("nor this")),
    ];
    for args in cases.iter() {
        assert_eq!(notify_new_source(args, false), Ok(Dispatch::NoSink));
    }
}

#[test]
fn no_sink_hides_a_zero_index_and_a_malformed_worker() {
    let mut args = notification(Some("normalScript"), "https://example.com/x.js", None);
    args.pipeline_id.index = 0;
    args.worker_id = Some("no identifier".to_owned());
    assert_eq!(notify_new_source(&args, false), Ok(Dispatch::NoSink));
}

#[test]
fn override_wins_over_a_valid_original() {
    let args = notification(
        Some("normalScript"),
        "https://example.com/dir/page.html",
        Some("https://cdn.example.org/lib.js"),
    );
    let (_, info) = sent(notify_new_source(&args, true));
    assert_eq!(info.url.as_str(), "https://cdn.example.org/lib.js");
}

#[test]
fn relative_override_is_read_against_the_original() {
    let args = notification(
        Some("normalScript"),
        "https://example.com/dir/page.html",
        Some("lib/a.js?v=2"),
    );
    let (_, info) = sent(notify_new_source(&args, true));
    assert_eq!(info.url.as_str(), "https://example.com/dir/lib/a.js?v=2");
}

#[test]
fn relative_override_without_a_base_leaves_no_url() {
    let args = notification(Some("normalScript"), "not a url", Some("lib/a.js"));
    assert_eq!(
        notify_new_source(&args, true),
        Ok(Dispatch::Suppressed(Suppression::NoValidUrl))
    );
}

#[test]
fn absolute_override_stands_in_for_an_invalid_original() {
    let args = notification(Some("normalScript"), "not a url", Some("https://example.com/a.js"));
    let (_, info) = sent(notify_new_source(&args, true));
    assert_eq!(info.url.as_str(), "https://example.com/a.js");
}

#[test]
fn invalid_override_falls_back_to_the_original() {
    let args = notification(Some("normalScript"), "https://example.com/x.js", Some("https://[bad"));
    let (_, info) = sent(notify_new_source(&args, true));
    assert_eq!(info.url.as_str(), "https://example.com/x.js");
    assert!(!info.inline);
}

#[test]
fn relative_override_on_an_opaque_original_does_not_resolve() {
    let args = notification(Some("eval"), "about:blank", Some("evaled.js"));
    assert_eq!(
        notify_new_source(&args, true),
        Ok(Dispatch::Suppressed(Suppression::EphemeralWithoutUrl))
    );
}

#[test]
fn every_ephemeral_type_is_suppressed_without_an_override() {
    let ephemeral = [
        "injectedScript",
        "eval",
        "debugger eval",
        "Function",
        "javascriptURL",
        "eventHandler",
        "domTimer",
    ];
    for tag in ephemeral.iter() {
        for url in ["https://example.com/x.js", "about:blank", "not a url"].iter() {
            let args = notification(Some(tag), url, None);
            assert_eq!(
                notify_new_source(&args, true),
                Ok(Dispatch::Suppressed(Suppression::EphemeralWithoutUrl))
            );
            let args = notification(Some(tag), url, Some("https://[bad"));
            assert_eq!(
                notify_new_source(&args, true),
                Ok(Dispatch::Suppressed(Suppression::EphemeralWithoutUrl))
            );
        }
    }
}

#[test]
fn every_ephemeral_type_is_sent_with_an_override() {
    let ephemeral = [
        "injectedScript",
        "eval",
        "debugger eval",
        "Function",
        "javascriptURL",
        "eventHandler",
        "domTimer",
    ];
    for tag in ephemeral.iter() {
        let args = notification(Some(tag), "about:blank", Some("https://example.com/named.js"));
        let (_, info) = sent(notify_new_source(&args, true));
        assert_eq!(info.url.as_str(), "https://example.com/named.js");
        assert_eq!(info.introduction_type, *tag);
        assert!(!info.inline);
        assert_eq!(info.content, Some(TEXT.to_owned()));
    }
}

#[test]
fn inline_script_with_an_override_is_not_inline() {
    let args = notification(
        Some("inlineScript"),
        "https://example.com/page.html",
        Some("https://example.com/page.html#script-1"),
    );
    let (_, info) = sent(notify_new_source(&args, true));
    assert_eq!(info.url.as_str(), "https://example.com/page.html#script-1");
    assert!(!info.inline);
    assert_eq!(info.content, Some(TEXT.to_owned()));
}

#[test]
fn inline_script_with_an_invalid_override_stays_inline() {
    let args =
        notification(Some("inlineScript"), "https://example.com/page.html", Some("https://[bad"));
    let (_, info) = sent(notify_new_source(&args, true));
    assert_eq!(info.url.as_str(), "https://example.com/page.html");
    assert!(info.inline);
    assert_eq!(info.content, None);
}

#[test]
fn inline_script_without_any_url_is_suppressed() {
    let args = notification(Some("inlineScript"), "not a url", None);
    assert_eq!(
        notify_new_source(&args, true),
        Ok(Dispatch::Suppressed(Suppression::NoValidUrl))
    );
}

#[test]
fn tags_are_compared_exactly() {
    for tag in ["Eval", "eval ", "inlinescript", "", "function"].iter() {
        let args = notification(Some(tag), "https://example.com/x.js", None);
        let (_, info) = sent(notify_new_source(&args, true));
        assert!(!info.inline);
        assert_eq!(info.introduction_type, *tag);
    }
}

#[test]
fn zero_index_is_a_violation() {
    let mut args = notification(Some("normalScript"), "https://example.com/x.js", None);
    args.pipeline_id.index = 0;
    assert_eq!(notify_new_source(&args, true), Err(ContractViolation::ZeroPipelineIndex));
}

#[test]
fn zero_index_comes_before_every_suppression() {
    let mut args = notification(None, "not a url", None);
    args.pipeline_id.index = 0;
    assert_eq!(notify_new_source(&args, true), Err(ContractViolation::ZeroPipelineIndex));
}

#[test]
fn worker_id_is_carried_into_the_record() {
    let mut args = notification(Some("normalScript"), "https://example.com/worker.js", None);
    args.worker_id = Some("a1a2a3a4-b1b2-c1c2-d1d2-d3d4d5d6d7d8".to_owned());
    let (_, info) = sent(notify_new_source(&args, true));
    assert_eq!(info.worker_id, Some(WorkerId(0xa1a2a3a4b1b2c1c2d1d2d3d4d5d6d7d8)));
}

#[test]
fn malformed_worker_id_is_a_violation() {
    let mut args = notification(Some("normalScript"), "https://example.com/worker.js", None);
    args.worker_id = Some("worker-1".to_owned());
    assert_eq!(notify_new_source(&args, true), Err(ContractViolation::MalformedWorkerId));
}

#[test]
fn suppression_comes_before_the_worker_id() {
    let mut args = notification(Some("eval"), "about:blank", None);
    args.worker_id = Some("worker-1".to_owned());
    assert_eq!(
        notify_new_source(&args, true),
        Ok(Dispatch::Suppressed(Suppression::EphemeralWithoutUrl))
    );
    let mut args = notification(Some("normalScript"), "not a url", None);
    args.worker_id = Some("worker-1".to_owned());
    assert_eq!(
        notify_new_source(&args, true),
        Ok(Dispatch::Suppressed(Suppression::NoValidUrl))
    );
}

#[test]
fn url_is_passed_through_as_the_parser_reads_it() {
    let args = notification(Some("normalScript"), "https://example.com/x.js line 3 > eval", None);
    let (_, info) = sent(notify_new_source(&args, true));
    assert_eq!(info.url.as_str(), "https://example.com/x.js%20line%203%20%3E%20eval");
}

#[test]
fn resolve_source_goes_by_what_it_is_given() {
    let args = notification(Some("inlineScript"), "ignored", Some("ignored too"));
    let original = ParsedUrl::parse("https://example.com/page.html");
    assert!(original.is_some());
    let (_, info) = sent(resolve_source(&args, true, original.clone(), None, None));
    assert!(info.inline);
    assert_eq!(info.url.as_str(), "https://example.com/page.html");
    let replaced = ParsedUrl::parse("https://example.com/other.js");
    let (_, info) = sent(resolve_source(&args, true, original.clone(), replaced, None));
    assert!(!info.inline);
    assert_eq!(info.url.as_str(), "https://example.com/other.js");
    assert_eq!(
        resolve_source(&args, true, None, None, None),
        Ok(Dispatch::Suppressed(Suppression::NoValidUrl))
    );
    assert_eq!(resolve_source(&args, false, original, None, None), Ok(Dispatch::NoSink));
}

#[test]
fn resolve_source_reports_a_worker_that_did_not_parse() {
    let args = notification(Some("normalScript"), "ignored", None);
    let original = ParsedUrl::parse("https://example.com/page.html");
    let malformed = WorkerId::parse("worker-1");
    assert!(malformed.is_err());
    assert_eq!(
        resolve_source(&args, true, original.clone(), None, Some(malformed)),
        Err(ContractViolation::MalformedWorkerId)
    );
    let (_, info) = sent(resolve_source(&args, true, original, None, Some(Ok(WorkerId(9)))));
    assert_eq!(info.worker_id, Some(WorkerId(9)));
}

#[test]
fn a_sink_that_is_gone_is_a_violation() {
    assert_eq!(confirm_delivery(true), Ok(()));
    assert_eq!(confirm_delivery(false), Err(ContractViolation::SinkDisconnected));
}
