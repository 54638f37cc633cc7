use nu_discord_bot::executor::ExecuteParamsFile;
use nu_discord_bot::handler::InteractionHandler;
use nu_discord_bot::interaction::{CommandData, CommandKind, CommandOption, OptionValue, Resolved, ResolvedAttachment};
use nu_discord_bot::nu_command::{ErrorInfo, ExecutionOutcome, NuAction, NuCommandState, NuEvent, NuReply};
use nu_discord_bot::response::BotConfig;

fn handler() -> InteractionHandler {
    InteractionHandler::new(BotConfig { application_id: 1, support_user_id: 42, red: 0xff0000, yellow: 0xffff00 })
}

fn data_with_file() -> CommandData {
    CommandData {
        name: "nu".into(),
        kind: CommandKind::ChatInput,
        options: vec![
            CommandOption { name: "source".into(), value: OptionValue::String("open $in".into()) },
            CommandOption { name: "file".into(), value: OptionValue::Attachment(3) },
        ],
        resolved: Some(Resolved { attachments: vec![ResolvedAttachment { id: 3, url: "https://f".into() }], messages: vec![] }),
    }
}

#[test]
fn unready_runtime_is_reported_and_ends_the_command() {
    let (state, action) = handler().handle_nu_command(NuCommandState::Received, NuEvent::Begin { wasm_ready: false, data: data_with_file() });
    assert!(matches!(state, NuCommandState::Done));
    match action {
        NuAction::Report(r) => {
            assert_eq!(r.title, "\u{26a0}\u{fe0f} Nu Executor Not Ready Yet");
            assert_eq!(r.description, "The WASM runtime did not fully boot up yet.\nWait a bit and try again later.");
            assert!(r.field.is_none());
        }
        other => panic!("unexpected {other:?}"),
    }
}

#[test]
fn full_run_of_the_nu_command() {
    let h = handler();
    let (state, action) = h.handle_nu_command(NuCommandState::Received, NuEvent::Begin { wasm_ready: true, data: data_with_file() });
    match (&state, action) {
        (NuCommandState::Downloading { fname, source }, NuAction::Download { url }) => {
            assert_eq!(fname, "something");
            assert_eq!(source, "open $in");
            assert_eq!(url.as_deref(), Some("https://f"));
        }
        (s, a) => panic!("unexpected {s:?} {a:?}"),
    }
    let (state, action) = h.handle_nu_command(state, NuEvent::Downloaded(Ok(Some(ExecuteParamsFile::Text("a,b".into())))));
    assert!(matches!(state, NuCommandState::Executing));
    match action {
        NuAction::Execute { fname, source, file: Some(ExecuteParamsFile::Text(t)) } => {
            assert_eq!((fname.as_str(), source.as_str(), t.as_str()), ("something", "open $in", "a,b"));
        }
        other => panic!("unexpected {other:?}"),
    }
    let (state, action) = h.handle_nu_command(state, NuEvent::Finished(ExecutionOutcome::Finished { elapsed_secs: 1, elapsed_nanos: 500_000_000 }));
    assert!(matches!(state, NuCommandState::Done));
    match action {
        NuAction::Reply(NuReply::Image { filename, content }) => {
            assert_eq!(filename, "result.png");
            assert_eq!(content, "-# took 1s 500ms");
        }
        other => panic!("unexpected {other:?}"),
    }
}

#[test]
fn invalid_options_and_failed_downloads_are_reported() {
    let h = handler();
    let mut data = data_with_file();
    data.options.remove(0);
    let (state, action) = h.handle_nu_command(NuCommandState::Received, NuEvent::Begin { wasm_ready: true, data });
    assert!(matches!(state, NuCommandState::Done));
    match action {
        NuAction::Report(r) => {
            assert_eq!(r.title, "\u{26a0}\u{fe0f} Invalid Interaction Options");
            assert_eq!(r.field, Some(("dyn core::error::Error".to_string(), "missing source option".to_string())));
        }
        other => panic!("unexpected {other:?}"),
    }
    let downloading = NuCommandState::Downloading { fname: "f".into(), source: "s".into() };
    let failed = ErrorInfo { error_type: "dyn core::error::Error".into(), error_text: "connection refused".into() };
    let (state, action) = h.handle_nu_command(downloading, NuEvent::Downloaded(Err(failed)));
    assert!(matches!(state, NuCommandState::Done));
    match action {
        NuAction::Report(r) => {
            assert_eq!(r.description, "Discord sent invalid interaction options.\nReport this to <@42>.");
            assert_eq!(r.field.unwrap().1, "connection refused");
        }
        other => panic!("unexpected {other:?}"),
    }
}

#[test]
fn out_of_order_events_are_ignored() {
    let h = handler();
    let (state, action) = h.handle_nu_command(NuCommandState::Executing, NuEvent::Downloaded(Ok(None)));
    assert!(matches!(state, NuCommandState::Executing));
    assert!(matches!(action, NuAction::Ignore));
    let (state, action) = h.handle_nu_command(NuCommandState::Done, NuEvent::Finished(ExecutionOutcome::Finished { elapsed_secs: 0, elapsed_nanos: 0 }));
    assert!(matches!(state, NuCommandState::Done));
    assert!(matches!(action, NuAction::Ignore));
}

#[test]
fn pipeline_that_cannot_be_handed_over_is_reported() {
    let h = handler();
    let error = ErrorInfo { error_type: "SendError".into(), error_text: "channel closed".into() };
    let (state, action) = h.handle_nu_command(NuCommandState::Executing, NuEvent::NotSent(error));
    assert!(matches!(state, NuCommandState::Done));
    match action {
        NuAction::Report(r) => {
            assert_eq!(r.title, "\u{26a0}\u{fe0f} Error Sending Pipeline");
            assert_eq!(r.description, "The pipeline could not be handed to the executor.\nReport this to <@42>.");
            assert_eq!(r.color, 0xff0000);
            assert_eq!(r.field, Some(("SendError".to_string(), "channel closed".to_string())));
        }
        other => panic!("unexpected {other:?}"),
    }
    let error = ErrorInfo { error_type: "SendError".into(), error_text: "late".into() };
    let (state, action) = h.handle_nu_command(NuCommandState::Done, NuEvent::NotSent(error));
    assert!(matches!(state, NuCommandState::Done));
    assert!(matches!(action, NuAction::Ignore));
}
