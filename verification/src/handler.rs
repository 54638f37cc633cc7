//! The command handler: reports, command definitions and the
//! "Delete Nushell Response" command.

use vstd::prelude::*;
use crate::interaction::{Command, CommandData, CommandKind, DispatchError, Interaction, InteractionData, InteractionKind, ResolvedMessage, command_for_name, command_named, delete_command_name, nu_command_name, str_eq};
use twilight_model::application::command::CommandType;
use twilight_util::builder::command::{AttachmentBuilder, CommandBuilder, StringBuilder};
use crate::response::{BotConfig, Report, ResponseUpdate, Embed, mention_text, push_mention, report_update, report_embed_matches, embed_within_limits, fallback_report_text};

verus! {

/// The handler of application commands.
#[derive(Clone, Copy, Debug)]
pub struct InteractionHandler {
    pub config: BotConfig,
}

/// The type of a command option in a definition.
#[derive(Clone, Copy, Debug, PartialEq, Eq, Structural)]
pub enum DefinedOptionKind {
    String,
    Attachment,
}

/// An option in a command definition.
#[derive(Debug)]
pub struct OptionDefinition {
    pub name: String,
    pub description: String,
    pub kind: DefinedOptionKind,
    pub required: bool,
}

/// A command definition.
#[derive(Debug)]
pub struct CommandDefinition {
    pub name: String,
    pub description: String,
    pub kind: CommandKind,
    pub options: Vec<OptionDefinition>,
}

/// The views of the options of a definition: name, description, type and
/// whether it is required.
pub open spec fn option_definitions_view(opts: Seq<OptionDefinition>) -> Seq<(Seq<char>, Seq<char>, DefinedOptionKind, bool)> {
    opts.map_values(|o: OptionDefinition| (o.name@, o.description@, o.kind, o.required))
}

/// Whether Discord's rules on commands, as `twilight_util`'s builder checks them
/// through `twilight_validate::command::command`,
/// accept the command with this name, description, kind and
/// options.
pub uninterp spec fn command_accepted(
    name: Seq<char>,
    description: Seq<char>,
    kind: CommandKind,
    options: Seq<(Seq<char>, Seq<char>, DefinedOptionKind, bool)>,
) -> bool;

/// Whether `def` is accepted.
pub open spec fn definition_accepted(def: CommandDefinition) -> bool {
    command_accepted(def.name@, def.description@, def.kind, option_definitions_view(def.options@))
}

/// Calls `twilight_util`'s `CommandBuilder::validate` on the command built
/// from `def`; the contract names its verdict, which depends on the
/// definition alone.
#[verifier::external_body]
fn validate_command(def: &CommandDefinition) -> (ok: bool)
    ensures
        ok == command_accepted(def.name@, def.description@, def.kind, option_definitions_view(def.options@)),
{
    let kind = match def.kind {
        CommandKind::ChatInput => CommandType::ChatInput,
        CommandKind::User => CommandType::User,
        CommandKind::Message => CommandType::Message,
        CommandKind::Unknown(n) => CommandType::Unknown(n),
    };
    let mut b = CommandBuilder::new(def.name.clone(), def.description.clone(), kind);
    for o in def.options.iter() {
        b = match o.kind {
            DefinedOptionKind::String => b.option(StringBuilder::new(o.name.clone(), o.description.clone()).required(o.required)),
            DefinedOptionKind::Attachment => b.option(AttachmentBuilder::new(o.name.clone(), o.description.clone()).required(o.required)),
        };
    }
    b.validate().is_ok()
}

/// A command definition that Discord's rules refuse.
#[derive(Clone, Copy, Debug, PartialEq, Eq, Structural)]
pub struct InvalidCommand(pub Command);

/// The definition of `nu`.
pub open spec fn nu_definition(d: CommandDefinition) -> bool {
    &&& d.name@ == nu_command_name()
    &&& d.description@ == "Execute a nushell pipeline"@
    &&& d.kind == CommandKind::ChatInput
    &&& option_definitions_view(d.options@) == seq![
        ("source"@, "pipeline source code"@, DefinedOptionKind::String, true),
        ("file"@, "input file"@, DefinedOptionKind::Attachment, false),
    ]
}

/// The definition of the delete command.
pub open spec fn delete_definition(d: CommandDefinition) -> bool {
    &&& d.name@ == delete_command_name()
    &&& d.description@ == ""@
    &&& d.kind == CommandKind::Message
    &&& d.options@.len() == 0
}

/// What the delete command does; each action ends in one update of the
/// command's deferred response.
#[derive(Debug)]
pub enum DeleteAction {
    /// Tell the invoker why nothing is deleted: the message is no response
    /// of the bot.
    Report(Report),
    /// Delete this message, then answer with `content`.
    Delete { channel_id: u64, message_id: u64, content: String },
    /// Keep the message, which answers another user, and tell the invoker
    /// so with this report.
    Keep(Report),
}

/// The answer once a response is deleted.
pub open spec fn deleted_text() -> Seq<char> {
    "The Nushell response was deleted."@
}

/// The description of the report on a response that answers another user.
pub open spec fn not_own_text() -> Seq<char> {
    "This Nushell response answers another user.\nOnly they can delete it."@
}

/// Why a command could not be handled.
#[derive(Clone, Copy, Debug, PartialEq, Eq, Structural)]
pub enum CommandError {
    /// The command data names another command.
    WrongCommand,
    /// The command data has another kind.
    WrongKind,
    /// A message command came without resolved data.
    MissingResolved,
    /// A message command came without a resolved message.
    MissingMessage,
    /// The interaction has no author.
    MissingAuthor,
}

/// The description of the report on a message the bot did not send.
pub open spec fn not_by_bot_text(application_id: u64) -> Seq<char> {
    "This message wasn't sent by "@ + mention_text(application_id) + ".\nYou cannot delete this."@
}

/// `r` is the report with this title, description and colour, and no field.
pub open spec fn plain_report(r: Report, title: Seq<char>, description: Seq<char>, color: u32) -> bool {
    r.title@ == title && r.description@ == description && r.color == color && r.field is None
}

/// What the delete command does with `msg`, the first message it was
/// invoked on, when `author` invoked it.
pub open spec fn delete_decision(config: BotConfig, author: Option<u64>, msg: ResolvedMessage, res: Result<DeleteAction, CommandError>) -> bool {
    if msg.author_id != config.application_id {
        res matches Ok(DeleteAction::Report(r)) && plain_report(
            r,
            ":warning: Message not by this bot"@,
            not_by_bot_text(config.application_id),
            config.yellow,
        )
    } else if msg.interaction_user_id is None {
        res matches Ok(DeleteAction::Report(r)) && plain_report(
            r,
            ":warning: Not a Nushell Response"@,
            "This message doesn't seem to be a Nushell response.\nYou cannot delete this."@,
            config.yellow,
        )
    } else if author is None {
        res == Err::<DeleteAction, CommandError>(CommandError::MissingAuthor)
    } else if msg.interaction_user_id == author {
        res matches Ok(DeleteAction::Delete { channel_id, message_id, content }) && channel_id == msg.channel_id
            && message_id == msg.id && content@ == deleted_text()
    } else {
        res matches Ok(DeleteAction::Keep(r)) && plain_report(
            r,
            ":warning: Not Your Nushell Response"@,
            not_own_text(),
            config.yellow,
        )
    }
}

/// The delete command deletes only a message that the bot itself sent in
/// answer to an interaction of the very user who invokes it.
pub proof fn lemma_deletes_only_own_answers(
    config: BotConfig,
    author: Option<u64>,
    msg: ResolvedMessage,
    res: Result<DeleteAction, CommandError>,
)
    requires
        delete_decision(config, author, msg, res),
        res matches Ok(DeleteAction::Delete { .. }),
    ensures
        msg.author_id == config.application_id,
        author is Some,
        msg.interaction_user_id == author,
        res matches Ok(DeleteAction::Delete { channel_id, message_id, .. }) && channel_id == msg.channel_id
            && message_id == msg.id,
{
}

/// A report without a field.
fn plain(title: &str, description: String, color: u32) -> (res: Report)
    ensures
        plain_report(res, title@, description@, color),
{
    Report { title: title.to_owned(), description, color, field: None }
}

impl InteractionHandler {
    /// A handler that reports with `config`.
    pub fn new(config: BotConfig) -> (res: InteractionHandler)
        ensures
            res.config == config,
    {
        InteractionHandler { config }
    }

    /// Whether a reply to `interaction` is shown only to its author: every
    /// reply is, except one to a chat-input application command.
    pub fn reply_ephemeral(interaction: &Interaction) -> (res: bool)
        ensures
            res == !(interaction.data matches Some(InteractionData::ApplicationCommand(d))
                && d.kind == CommandKind::ChatInput),
    {
        if let Some(InteractionData::ApplicationCommand(data)) = &interaction.data {
            return !matches!(data.kind, CommandKind::ChatInput);
        }
        true
    }

    /// Which command handles `interaction`. An application command must
    /// carry the name of a registered command (see `command_for_name`).
    pub fn handle_interaction(interaction: &Interaction) -> (res: Result<Command, DispatchError>)
        requires
            match interaction.data {
                Some(InteractionData::ApplicationCommand(d)) => interaction.kind == InteractionKind::ApplicationCommand
                    ==> command_named(d.name@) is Some,
                _ => true,
            },
        ensures
            match interaction.data {
                Some(InteractionData::ApplicationCommand(d)) => if interaction.kind != InteractionKind::ApplicationCommand {
                    res == Err::<Command, DispatchError>(DispatchError::NotApplicationCommand)
                } else {
                    res == Ok::<Command, DispatchError>(command_named(d.name@)->0)
                },
                _ => res == Err::<Command, DispatchError>(DispatchError::UnexpectedData),
            },
    {
        match &interaction.data {
            Some(InteractionData::ApplicationCommand(data)) => {
                if !matches!(interaction.kind, InteractionKind::ApplicationCommand) {
                    return Err(DispatchError::NotApplicationCommand);
                }
                match command_for_name(data.name.as_str()) {
                    Some(command) => Ok(command),
                    None => Err(DispatchError::UnexpectedData),
                }
            },
            _ => Err(DispatchError::UnexpectedData),
        }
    }

    /// Turns a report into the update of a deferred response (see
    /// `report_update`).
    pub fn report(&self, report: &Report) -> (res: ResponseUpdate)
        ensures
            exists|e: Embed| #[trigger] report_embed_matches(*report, e) && match res {
                ResponseUpdate::Embeds(es) => embed_within_limits(e) && es@.len() == 1 && report_embed_matches(*report, es@[0]),
                ResponseUpdate::Content(c) => !embed_within_limits(e) && c@ == fallback_report_text(self.config.support_user_id),
            },
    {
        report_update(&self.config, report)
    }

    /// The commands the bot registers: `nu`, a chat-input command with a
    /// required string option `source` and an optional attachment option
    /// `file`, and `Delete Nushell Response`, a message command; each must
    /// pass Discord's rules, `nu` first.
    pub fn register_commands() -> (res: Result<Vec<CommandDefinition>, InvalidCommand>)
        ensures
            match res {
                Ok(defs) => defs@.len() == 2 && nu_definition(defs@[0]) && delete_definition(defs@[1])
                    && definition_accepted(defs@[0]) && definition_accepted(defs@[1]),
                Err(InvalidCommand(c)) => c == Command::Nu || c == Command::DeleteResponse,
            },
            res == Err::<Vec<CommandDefinition>, InvalidCommand>(InvalidCommand(Command::Nu)) <==> exists|d: CommandDefinition|
                #[trigger] nu_definition(d) && !definition_accepted(d),
            res is Ok <==> (exists|d: CommandDefinition| #[trigger] nu_definition(d) && definition_accepted(d))
                && (exists|d: CommandDefinition| #[trigger] delete_definition(d) && definition_accepted(d)),
    {
        let mut nu_options: Vec<OptionDefinition> = Vec::new();
        nu_options.push(OptionDefinition {
            name: "source".to_owned(),
            description: "pipeline source code".to_owned(),
            kind: DefinedOptionKind::String,
            required: true,
        });
        nu_options.push(OptionDefinition {
            name: "file".to_owned(),
            description: "input file".to_owned(),
            kind: DefinedOptionKind::Attachment,
            required: false,
        });
        let nu = CommandDefinition {
            name: "nu".to_owned(),
            description: "Execute a nushell pipeline".to_owned(),
            kind: CommandKind::ChatInput,
            options: nu_options,
        };
        assert(option_definitions_view(nu.options@) =~= seq![
            ("source"@, "pipeline source code"@, DefinedOptionKind::String, true),
            ("file"@, "input file"@, DefinedOptionKind::Attachment, false),
        ]);
        assert(nu_definition(nu));
        if !validate_command(&nu) {
            proof {
                assert forall|d: CommandDefinition| #[trigger] nu_definition(d) implies !definition_accepted(d) by {
                    assert(option_definitions_view(d.options@) == option_definitions_view(nu.options@));
                }
            }
            return Err(InvalidCommand(Command::Nu));
        }
        let delete = CommandDefinition {
            name: "Delete Nushell Response".to_owned(),
            description: "".to_owned(),
            kind: CommandKind::Message,
            options: Vec::new(),
        };
        assert(option_definitions_view(delete.options@) =~= Seq::empty());
        assert(delete_definition(delete));
        if !validate_command(&delete) {
            proof {
                assert forall|d: CommandDefinition| #[trigger] delete_definition(d) implies !definition_accepted(d) by {
                    assert(option_definitions_view(d.options@) =~= option_definitions_view(delete.options@));
                }
            }
            return Err(InvalidCommand(Command::DeleteResponse));
        }
        let mut res: Vec<CommandDefinition> = Vec::new();
        res.push(nu);
        res.push(delete);
        Ok(res)
    }

    /// The delete command: it must be the message command of that name with
    /// a resolved message; it refuses (with a report) a message the bot did
    /// not send or one that answers no interaction, deletes the message
    /// when the invoker is the user whose interaction it answers (and then
    /// says so), and otherwise keeps it with a report. Every action it
    /// returns ends in one update of the deferred response.
    pub fn handle_delete_response_command(&self, author: Option<u64>, data: &CommandData) -> (res: Result<DeleteAction, CommandError>)
        ensures
            if data.name@ != delete_command_name() {
                res == Err::<DeleteAction, CommandError>(CommandError::WrongCommand)
            } else if data.kind != CommandKind::Message {
                res == Err::<DeleteAction, CommandError>(CommandError::WrongKind)
            } else if data.resolved is None {
                res == Err::<DeleteAction, CommandError>(CommandError::MissingResolved)
            } else if data.resolved->0.messages@.len() == 0 {
                res == Err::<DeleteAction, CommandError>(CommandError::MissingMessage)
            } else {
                delete_decision(self.config, author, data.resolved->0.messages@[0], res)
            },
    {
        if !str_eq(data.name.as_str(), "Delete Nushell Response") {
            return Err(CommandError::WrongCommand);
        }
        if !matches!(data.kind, CommandKind::Message) {
            return Err(CommandError::WrongKind);
        }
        let resolved = match &data.resolved {
            None => return Err(CommandError::MissingResolved),
            Some(r) => r,
        };
        if resolved.messages.len() == 0 {
            return Err(CommandError::MissingMessage);
        }
        let message = &resolved.messages[0];
        if message.author_id != self.config.application_id {
            let mut d = String::new();
            d.append("This message wasn't sent by ");
            push_mention(&mut d, self.config.application_id);
            d.append(".\nYou cannot delete this.");
            assert(d@ =~= not_by_bot_text(self.config.application_id));
            return Ok(DeleteAction::Report(plain(":warning: Message not by this bot", d, self.config.yellow)));
        }
        let target = match message.interaction_user_id {
            None => {
                return Ok(
                    DeleteAction::Report(
                        plain(
                            ":warning: Not a Nushell Response",
                            "This message doesn't seem to be a Nushell response.\nYou cannot delete this.".to_owned(),
                            self.config.yellow,
                        ),
                    ),
                );
            },
            Some(t) => t,
        };
        let author = match author {
            None => return Err(CommandError::MissingAuthor),
            Some(a) => a,
        };
        if target == author {
            Ok(
                DeleteAction::Delete {
                    channel_id: message.channel_id,
                    message_id: message.id,
                    content: "The Nushell response was deleted.".to_owned(),
                },
            )
        } else {
            Ok(
                DeleteAction::Keep(
                    plain(
                        ":warning: Not Your Nushell Response",
                        "This Nushell response answers another user.\nOnly they can delete it.".to_owned(),
                        self.config.yellow,
                    ),
                ),
            )
        }
    }
}

} // verus!
