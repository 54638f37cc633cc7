use nu_discord_bot::executor::{
    execute_result, pipeline_input, pipeline_source, ExecuteFailure, ExecuteParamsFile, GuestFile, GuestOutcome,
    PipelineInput,
};
use nu_discord_bot::handler::{CommandError, DefinedOptionKind, DeleteAction, InteractionHandler};
use nu_discord_bot::http::{DiscordHandler, HttpHandler, SendFailure};
use nu_discord_bot::interaction::{
    command_for_name, handler_has_route, handler_route, http_route, Command, CommandData, CommandKind, CommandOption,
    DispatchError, Interaction, InteractionData, InteractionKind, OptionKind, OptionValue, Resolved,
    ResolvedAttachment, ResolvedMessage, Route,
};
use nu_discord_bot::nu_command::{classify_file, ExecutionOutcome, NuReply, OptionsError};
use nu_discord_bot::response::{fmt_anyhow_error, BotConfig, Report, ResponseKind, ResponseUpdate};
use nu_discord_bot::signature::HttpStatus;

fn config() -> BotConfig {
    BotConfig { application_id: 1234, support_user_id: 42, red: 0xff0000, yellow: 0xffff00 }
}

fn handler() -> InteractionHandler {
    InteractionHandler::new(config())
}

fn opt(name: &str, value: OptionValue) -> CommandOption {
    CommandOption { name: name.to_string(), value }
}

fn nu_data(options: Vec<CommandOption>, resolved: Option<Resolved>) -> CommandData {
    CommandData { name: "nu".to_string(), kind: CommandKind::ChatInput, options, resolved }
}

fn interaction(kind: InteractionKind, data: Option<InteractionData>) -> Interaction {
    Interaction { kind, data, token: "tok".to_string(), author_id: Some(7) }
}

#[test]
fn routes_by_interaction_kind() {
    assert_eq!(http_route(InteractionKind::Ping), Route::Pong);
    assert_eq!(http_route(InteractionKind::ApplicationCommand), Route::ApplicationCommand);
    assert_eq!(http_route(InteractionKind::ApplicationCommandAutocomplete), Route::Unimplemented);
    assert_eq!(http_route(InteractionKind::ModalSubmit), Route::Unimplemented);
    assert_eq!(http_route(InteractionKind::Other), Route::Reject(HttpStatus::UnprocessableEntity));
    assert_eq!(handler_route(InteractionKind::ApplicationCommandAutocomplete), Route::Reject(HttpStatus::UnprocessableEntity));
    assert_eq!(handler_route(InteractionKind::Other), Route::Reject(HttpStatus::UnprocessableEntity));
    assert!(!handler_has_route(InteractionKind::MessageComponent));
    assert!(!handler_has_route(InteractionKind::ModalSubmit));
    assert!(handler_has_route(InteractionKind::ApplicationCommandAutocomplete));
    assert_eq!(DiscordHandler.handle_interaction(InteractionKind::Ping), Route::Pong);
    let h = HttpHandler::new(ed25519_dalek::SigningKey::from_bytes(&[1; 32]).verifying_key().to_bytes(), config()).unwrap();
    assert_eq!(h.discord(InteractionKind::MessageComponent), Route::Unimplemented);
}

#[test]
fn pong_and_ansi_block() {
    let p = HttpHandler::ping();
    assert_eq!(p.kind, ResponseKind::Pong);
    assert!(p.data.is_none());
    assert_eq!(DiscordHandler.handle_ping().kind, ResponseKind::Pong);
    let r = DiscordHandler.handle_application_command("out");
    assert_eq!(r.kind, ResponseKind::ChannelMessageWithSource);
    let d = r.data.unwrap();
    assert_eq!(d.content.as_deref(), Some("```ansi\nout\n```"));
    assert!(d.embeds.is_none());
}

#[test]
fn application_command_answer() {
    let h = HttpHandler::new(ed25519_dalek::SigningKey::from_bytes(&[1; 32]).verifying_key().to_bytes(), config()).unwrap();
    let ok = h.application_command(None);
    assert_eq!(ok.kind, ResponseKind::DeferredChannelMessageWithSource);
    assert!(ok.data.is_none());
    let failed = h.application_command(Some(SendFailure { error_type: "SendError".into(), error_text: "channel closed".into() }));
    assert_eq!(failed.kind, ResponseKind::ChannelMessageWithSource);
    let data = failed.data.unwrap();
    assert!(data.content.is_none());
    let embeds = data.embeds.unwrap();
    assert_eq!(embeds.len(), 1);
    assert_eq!(embeds[0].title, "\u{26a0}\u{fe0f} Interaction Handler Died");
    assert_eq!(embeds[0].description, "Could not send interaction to Interaction Handler.\nReport this to <@42>.");
    assert_eq!(embeds[0].color, 0xff0000);
    assert_eq!(embeds[0].fields[0].name, "SendError");
    assert_eq!(embeds[0].fields[0].value, "channel closed");
}

#[test]
fn ephemeral_replies() {
    let chat = nu_data(vec![], None);
    assert!(!InteractionHandler::reply_ephemeral(&interaction(InteractionKind::ApplicationCommand, Some(InteractionData::ApplicationCommand(chat)))));
    let msg = CommandData { name: "x".into(), kind: CommandKind::Message, options: vec![], resolved: None };
    assert!(InteractionHandler::reply_ephemeral(&interaction(InteractionKind::ApplicationCommand, Some(InteractionData::ApplicationCommand(msg)))));
    assert!(InteractionHandler::reply_ephemeral(&interaction(InteractionKind::ModalSubmit, Some(InteractionData::ModalSubmit))));
    assert!(InteractionHandler::reply_ephemeral(&interaction(InteractionKind::Ping, None)));
}

#[test]
fn dispatch_by_command_name() {
    let d = |name: &str| Some(InteractionData::ApplicationCommand(CommandData { name: name.into(), kind: CommandKind::ChatInput, options: vec![], resolved: None }));
    assert_eq!(InteractionHandler::handle_interaction(&interaction(InteractionKind::ApplicationCommand, d("nu"))), Ok(Command::Nu));
    assert_eq!(InteractionHandler::handle_interaction(&interaction(InteractionKind::ApplicationCommand, d("Delete Nushell Response"))), Ok(Command::DeleteResponse));
    assert_eq!(command_for_name("other"), None);
    assert_eq!(command_for_name("nu"), Some(Command::Nu));
    assert_eq!(command_for_name("Delete Nushell Response"), Some(Command::DeleteResponse));
    assert_eq!(InteractionHandler::handle_interaction(&interaction(InteractionKind::Ping, d("other"))), Err(DispatchError::NotApplicationCommand));
    assert_eq!(InteractionHandler::handle_interaction(&interaction(InteractionKind::Ping, d("nu"))), Err(DispatchError::NotApplicationCommand));
    assert_eq!(InteractionHandler::handle_interaction(&interaction(InteractionKind::ApplicationCommand, None)), Err(DispatchError::UnexpectedData));
    assert_eq!(InteractionHandler::handle_interaction(&interaction(InteractionKind::MessageComponent, Some(InteractionData::MessageComponent))), Err(DispatchError::UnexpectedData));
}

#[test]
fn command_definitions() {
    let defs = InteractionHandler::register_commands().expect("both commands pass Discord's rules");
    assert_eq!(defs.len(), 2);
    assert_eq!(defs[0].name, "nu");
    assert_eq!(defs[0].kind, CommandKind::ChatInput);
    assert_eq!(defs[0].options[0].name, "source");
    assert!(defs[0].options[0].required);
    assert_eq!(defs[0].options[0].kind, DefinedOptionKind::String);
    assert_eq!(defs[0].options[1].name, "file");
    assert!(!defs[0].options[1].required);
    assert_eq!(defs[1].name, "Delete Nushell Response");
    assert_eq!(defs[1].kind, CommandKind::Message);
    assert!(defs[1].options.is_empty());
}

#[test]
fn extract_source_and_file() {
    let h = handler();
    let data = nu_data(
        vec![opt("source", OptionValue::String("ls".into())), opt("file", OptionValue::Attachment(9))],
        Some(Resolved { attachments: vec![ResolvedAttachment { id: 9, url: "https://cdn/x".into() }], messages: vec![] }),
    );
    let req = h.extract_execute_params(&data).unwrap();
    assert_eq!(req.source, "ls");
    assert_eq!(req.fname, "something");
    assert_eq!(req.file_url.as_deref(), Some("https://cdn/x"));
    let only_source = nu_data(vec![opt("source", OptionValue::String("ps".into()))], None);
    assert_eq!(h.extract_execute_params(&only_source).unwrap().file_url, None);
}

#[test]
fn extract_errors() {
    let h = handler();
    let err = |d: CommandData| h.extract_execute_params(&d).unwrap_err();
    assert_eq!(err(CommandData { name: "x".into(), kind: CommandKind::ChatInput, options: vec![], resolved: None }), OptionsError::WrongName("x".to_string()));
    assert_eq!(err(CommandData { name: "nu".into(), kind: CommandKind::User, options: vec![], resolved: None }), OptionsError::WrongKind(CommandKind::User));
    assert_eq!(err(nu_data(vec![], None)), OptionsError::MissingSource);
    assert_eq!(err(nu_data(vec![opt("source", OptionValue::Other(OptionKind::Integer))], None)), OptionsError::SourceNotString(OptionKind::Integer));
    let src = || opt("source", OptionValue::String("ls".into()));
    assert_eq!(err(nu_data(vec![src(), opt("file", OptionValue::String("f".into()))], None)), OptionsError::FileNotAttachment(OptionKind::String));
    assert_eq!(err(nu_data(vec![src(), opt("file", OptionValue::Attachment(3))], None)), OptionsError::MissingResolved);
    let resolved = Resolved { attachments: vec![ResolvedAttachment { id: 4, url: "u".into() }], messages: vec![] };
    assert_eq!(err(nu_data(vec![src(), opt("file", OptionValue::Attachment(3))], Some(resolved))), OptionsError::AttachmentNotFound);
}

#[test]
fn options_error_messages() {
    assert_eq!(OptionsError::MissingSource.message(), "missing source option");
    assert_eq!(OptionsError::SourceNotString(OptionKind::Integer).message(), "expected source to be a string, got Integer");
    assert_eq!(OptionsError::FileNotAttachment(OptionKind::SubCommandGroup).message(), "expected file to be an attachment, got SubCommandGroup");
    assert_eq!(OptionsError::WrongName("x".to_string()).message(), "Condition failed: `data.name == \"nu\"` (\"x\" vs \"nu\")");
    assert_eq!(OptionsError::WrongName("a b".to_string()).message(), "Condition failed: `data.name == \"nu\"`");
    assert_eq!(OptionsError::WrongName("x".repeat(39)).message(), "Condition failed: `data.name == \"nu\"`");
    assert_eq!(
        OptionsError::WrongName("x".repeat(38)).message(),
        format!("Condition failed: `data.name == \"nu\"` (\"{}\" vs \"nu\")", "x".repeat(38))
    );
    assert_eq!(
        OptionsError::WrongKind(CommandKind::Message).message(),
        "Condition failed: `data.kind == CommandType::ChatInput` (Message vs ChatInput)"
    );
    assert_eq!(
        OptionsError::WrongKind(CommandKind::Unknown(7)).message(),
        "Condition failed: `data.kind == CommandType::ChatInput` (Unknown(7) vs ChatInput)"
    );
    assert_eq!(OptionsError::AttachmentNotFound.message(), "could not find file attachment in resolved data");
}

#[test]
fn file_classification() {
    match classify_file("héllo".as_bytes().to_vec()) {
        ExecuteParamsFile::Text(t) => assert_eq!(t, "héllo"),
        _ => panic!("expected text"),
    }
    match classify_file(vec![0xff, 0x00]) {
        ExecuteParamsFile::Bytes(b) => assert_eq!(b, vec![0xff, 0x00]),
        _ => panic!("expected bytes"),
    }
}

#[test]
fn readiness_and_option_reports() {
    let h = handler();
    assert!(h.readiness_report(true).is_none());
    let r = h.readiness_report(false).unwrap();
    assert_eq!(r.title, "\u{26a0}\u{fe0f} Nu Executor Not Ready Yet");
    assert_eq!(r.color, 0xffff00);
    let r = h.invalid_options_report("anyhow::Error".into(), "missing source option".into());
    assert_eq!(r.description, "Discord sent invalid interaction options.\nReport this to <@42>.");
    assert_eq!(r.color, 0xff0000);
    assert_eq!(r.field, Some(("anyhow::Error".to_string(), "missing source option".to_string())));
}

#[test]
fn execution_replies() {
    let h = handler();
    match h.execution_reply(ExecutionOutcome::Finished { elapsed_secs: 9420, elapsed_nanos: 0 }) {
        NuReply::Image { filename, content } => {
            assert_eq!(filename, "result.png");
            assert_eq!(content, "-# took 2h 37m");
        }
        _ => panic!("expected image"),
    }
    match h.execution_reply(ExecutionOutcome::Finished { elapsed_secs: 0, elapsed_nanos: 32_000_000 }) {
        NuReply::Image { content, .. } => assert_eq!(content, "-# took 32ms"),
        _ => panic!("expected image"),
    }
    match h.execution_reply(ExecutionOutcome::Failed { error_type: "E".into(), error_text: "bad".into() }) {
        NuReply::Report(r) => {
            assert_eq!(r.title, "\u{26a0}\u{fe0f} Error During Nu Execution");
            assert_eq!(r.description, "An error while executing pipeline occurred.");
            assert_eq!(r.color, 0xffff00);
        }
        _ => panic!("expected report"),
    }
    match h.execution_reply(ExecutionOutcome::NotReceived { error_type: "RecvError".into(), error_text: "closed".into() }) {
        NuReply::Report(r) => {
            assert_eq!(r.description, "An error occurred while receiving the pipeline result.\nReport this to <@42>.");
            assert_eq!(r.color, 0xff0000);
        }
        _ => panic!("expected report"),
    }
}

#[test]
fn reports_become_embeds_or_fallback_text() {
    let h = handler();
    let report = Report {
        title: "t".into(),
        description: "d".into(),
        color: 0x00ff00,
        field: Some(("Err".into(), "boom\n\nStack backtrace:\n 0: x".into())),
    };
    match h.report(&report) {
        ResponseUpdate::Embeds(es) => {
            assert_eq!(es.len(), 1);
            assert_eq!(es[0].title, "t");
            assert_eq!(es[0].fields[0].name, "Err");
            assert_eq!(es[0].fields[0].value, "boom\n\n");
            assert!(!es[0].fields[0].inline);
        }
        _ => panic!("expected embed"),
    }
    let too_long = Report { title: "x".repeat(257), description: "d".into(), color: 0, field: None };
    match h.report(&too_long) {
        ResponseUpdate::Content(c) => assert_eq!(c, "**Something went wrong.**\n-# Report that error to <@42> if it occurs again."),
        _ => panic!("expected fallback"),
    }
    let bad_colour = Report { title: "t".into(), description: "d".into(), color: 0x1000000, field: None };
    assert!(matches!(h.report(&bad_colour), ResponseUpdate::Content(_)));
    let too_many_bytes = Report { title: "t".into(), description: "é".repeat(3001), color: 0, field: None };
    assert!(matches!(h.report(&too_many_bytes), ResponseUpdate::Content(_)));
    let fits = Report { title: "t".into(), description: "é".repeat(2900), color: 0, field: None };
    assert!(matches!(h.report(&fits), ResponseUpdate::Embeds(_)));
    assert_eq!(fmt_anyhow_error("a\nStack backtrace: b"), "a\n");
}

fn message(author: u64, interaction_user: Option<u64>) -> ResolvedMessage {
    ResolvedMessage { id: 99, channel_id: 5, author_id: author, interaction_user_id: interaction_user }
}

fn delete_data(messages: Vec<ResolvedMessage>) -> CommandData {
    CommandData {
        name: "Delete Nushell Response".into(),
        kind: CommandKind::Message,
        options: vec![],
        resolved: Some(Resolved { attachments: vec![], messages }),
    }
}

#[test]
fn delete_response_decisions() {
    let h = handler();
    match h.handle_delete_response_command(Some(7), &delete_data(vec![message(1234, Some(7))])) {
        Ok(DeleteAction::Delete { channel_id, message_id, content }) => {
            assert_eq!((channel_id, message_id), (5, 99));
            assert_eq!(content, "The Nushell response was deleted.");
        }
        other => panic!("unexpected {other:?}"),
    }
    match h.handle_delete_response_command(Some(8), &delete_data(vec![message(1234, Some(7))])) {
        Ok(DeleteAction::Keep(r)) => {
            assert_eq!(r.title, ":warning: Not Your Nushell Response");
            assert_eq!(r.description, "This Nushell response answers another user.\nOnly they can delete it.");
            assert_eq!(r.color, 0xffff00);
            assert!(r.field.is_none());
        }
        other => panic!("unexpected {other:?}"),
    }
    match h.handle_delete_response_command(Some(7), &delete_data(vec![message(55, Some(7))])) {
        Ok(DeleteAction::Report(r)) => {
            assert_eq!(r.title, ":warning: Message not by this bot");
            assert_eq!(r.description, "This message wasn't sent by <@1234>.\nYou cannot delete this.");
            assert_eq!(r.color, 0xffff00);
        }
        other => panic!("unexpected {other:?}"),
    }
    match h.handle_delete_response_command(Some(7), &delete_data(vec![message(1234, None)])) {
        Ok(DeleteAction::Report(r)) => assert_eq!(r.title, ":warning: Not a Nushell Response"),
        other => panic!("unexpected {other:?}"),
    }
    assert_eq!(h.handle_delete_response_command(None, &delete_data(vec![message(1234, Some(7))])).unwrap_err(), CommandError::MissingAuthor);
    assert_eq!(h.handle_delete_response_command(Some(7), &delete_data(vec![])).unwrap_err(), CommandError::MissingMessage);
    let mut no_resolved = delete_data(vec![]);
    no_resolved.resolved = None;
    assert_eq!(h.handle_delete_response_command(Some(7), &no_resolved).unwrap_err(), CommandError::MissingResolved);
    let mut wrong_kind = delete_data(vec![]);
    wrong_kind.kind = CommandKind::ChatInput;
    assert_eq!(h.handle_delete_response_command(Some(7), &wrong_kind).unwrap_err(), CommandError::WrongKind);
    let mut wrong_name = delete_data(vec![]);
    wrong_name.name = "nu".into();
    assert_eq!(h.handle_delete_response_command(Some(7), &wrong_name).unwrap_err(), CommandError::WrongCommand);
}

#[test]
fn executor_results_and_pipeline() {
    assert_eq!(execute_result::<String>(GuestOutcome::Value("v".into())).unwrap(), "v");
    assert_eq!(execute_result::<String>(GuestOutcome::Error("e".into())).unwrap(), "e");
    let f = execute_result::<String>(GuestOutcome::MergeDelta).unwrap_err();
    assert_eq!(f.message().as_deref(), Some("error while merging delta"));
    assert_eq!(execute_result::<String>(GuestOutcome::IntoValue).unwrap_err().message().as_deref(), Some("error while turning res into value"));
    assert_eq!(execute_result::<String>(GuestOutcome::IntoString).unwrap_err().message().as_deref(), Some("error while turning res into string"));
    match execute_result(GuestOutcome::Trap("trap".to_string())).unwrap_err() {
        ExecuteFailure::Trap(e) => assert_eq!(e, "trap"),
        _ => panic!("expected trap"),
    }
    assert_eq!(pipeline_source("ls", 80), "ls | table --expand --width 80 | into string");
    assert!(matches!(pipeline_input(None), PipelineInput::Nothing));
    match pipeline_input(Some(GuestFile::from(ExecuteParamsFile::Text("t".into())))) {
        PipelineInput::String(s) => assert_eq!(s, "t"),
        _ => panic!("expected string"),
    }
    match pipeline_input(Some(GuestFile::from(ExecuteParamsFile::Bytes(vec![1, 2])))) {
        PipelineInput::Binary(b) => assert_eq!(b, vec![1, 2]),
        _ => panic!("expected binary"),
    }
}

#[test]
fn synchronous_handler_requests_the_fixed_pipeline() {
    let req = DiscordHandler.application_command_request();
    assert_eq!(req.fname, "fname");
    assert_eq!(req.source, "some source");
    assert_eq!(req.file_url, None);
}

#[test]
fn durations_as_people_read_them() {
    let h = handler();
    let took = |secs: u64, nanos: u32| match h.execution_reply(ExecutionOutcome::Finished { elapsed_secs: secs, elapsed_nanos: nanos }) {
        NuReply::Image { content, .. } => content,
        _ => panic!("expected image"),
    };
    assert_eq!(took(0, 0), "-# took 0s");
    assert_eq!(took(31_557_600 + 2 * 2_630_016 + 86_400 + 1, 1_002_003), "-# took 1year 2months 1day 1s 1ms 2us 3ns");
    assert_eq!(took(2 * 31_557_600 + 3 * 86_400, 0), "-# took 2years 3days");
    assert_eq!(took(61, 999_999_999), "-# took 1m 1s 999ms 999us 999ns");
}
