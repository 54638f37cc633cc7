//! Interactions as Discord sends them, and the decisions taken on them:
//! which route a request takes, which command handles it, how a command is
//! defined, and what the "Delete Nushell Response" command does.

use vstd::prelude::*;
use crate::signature::HttpStatus;

verus! {

/// The kinds of interaction.
#[derive(Clone, Copy, Debug, PartialEq, Eq, Structural)]
pub enum InteractionKind {
    Ping,
    ApplicationCommand,
    MessageComponent,
    ApplicationCommandAutocomplete,
    ModalSubmit,
    /// A kind this bot does not know.
    Other,
}

/// The kinds of application command.
#[derive(Clone, Copy, Debug, PartialEq, Eq, Structural)]
pub enum CommandKind {
    ChatInput,
    User,
    Message,
    /// A kind this bot does not know, with its number.
    Unknown(u8),
}

/// The types of command option.
#[derive(Clone, Copy, Debug, PartialEq, Eq, Structural)]
pub enum OptionKind {
    SubCommand,
    SubCommandGroup,
    String,
    Integer,
    Boolean,
    User,
    Channel,
    Role,
    Mentionable,
    Number,
    Attachment,
}

/// The name of an option type.
pub open spec fn option_kind_name(k: OptionKind) -> Seq<char> {
    match k {
        OptionKind::SubCommand => "SubCommand"@,
        OptionKind::SubCommandGroup => "SubCommandGroup"@,
        OptionKind::String => "String"@,
        OptionKind::Integer => "Integer"@,
        OptionKind::Boolean => "Boolean"@,
        OptionKind::User => "User"@,
        OptionKind::Channel => "Channel"@,
        OptionKind::Role => "Role"@,
        OptionKind::Mentionable => "Mentionable"@,
        OptionKind::Number => "Number"@,
        OptionKind::Attachment => "Attachment"@,
    }
}

impl OptionKind {
    /// The name of this option type.
    pub fn kind(&self) -> (res: &'static str)
        ensures
            res@ == option_kind_name(*self),
    {
        match self {
            OptionKind::SubCommand => "SubCommand",
            OptionKind::SubCommandGroup => "SubCommandGroup",
            OptionKind::String => "String",
            OptionKind::Integer => "Integer",
            OptionKind::Boolean => "Boolean",
            OptionKind::User => "User",
            OptionKind::Channel => "Channel",
            OptionKind::Role => "Role",
            OptionKind::Mentionable => "Mentionable",
            OptionKind::Number => "Number",
            OptionKind::Attachment => "Attachment",
        }
    }
}

/// The value of a command option, as far as the bot reads it.
#[derive(Debug)]
pub enum OptionValue {
    /// A string option.
    String(String),
    /// An attachment option, by attachment id.
    Attachment(u64),
    /// Any other option, by its type.
    Other(OptionKind),
}

/// An option of an invoked command.
#[derive(Debug)]
pub struct CommandOption {
    pub name: String,
    pub value: OptionValue,
}

/// A message that a message command was invoked on.
#[derive(Debug)]
pub struct ResolvedMessage {
    pub id: u64,
    pub channel_id: u64,
    pub author_id: u64,
    /// The user of the interaction that the message answers, if any.
    pub interaction_user_id: Option<u64>,
}

/// An attachment of an invoked command: its id and download URL.
#[derive(Debug)]
pub struct ResolvedAttachment {
    pub id: u64,
    pub url: String,
}

/// The entities that a command's options refer to.
#[derive(Debug)]
pub struct Resolved {
    pub attachments: Vec<ResolvedAttachment>,
    pub messages: Vec<ResolvedMessage>,
}

/// The data of an invoked application command.
#[derive(Debug)]
pub struct CommandData {
    pub name: String,
    pub kind: CommandKind,
    pub options: Vec<CommandOption>,
    pub resolved: Option<Resolved>,
}

/// The data an interaction carries.
#[derive(Debug)]
pub enum InteractionData {
    ApplicationCommand(CommandData),
    MessageComponent,
    ModalSubmit,
}

/// An interaction.
#[derive(Debug)]
pub struct Interaction {
    pub kind: InteractionKind,
    pub data: Option<InteractionData>,
    pub token: String,
    /// The user who invoked the interaction, if known.
    pub author_id: Option<u64>,
}

/// Where an interaction request goes.
#[derive(Clone, Copy, Debug, PartialEq, Eq, Structural)]
pub enum Route {
    /// Answer with a pong.
    Pong,
    /// Hand the interaction to the command handler.
    ApplicationCommand,
    /// A kind of interaction the bot does not handle yet.
    Unimplemented,
    /// Turn the request away with this status.
    Reject(HttpStatus),
}

/// The route of an interaction request at the HTTP endpoint: pings are
/// answered, application commands forwarded, components, modals and
/// autocompletion are not implemented, and anything else is unprocessable.
pub open spec fn http_route_of(kind: InteractionKind) -> Route {
    match kind {
        InteractionKind::Ping => Route::Pong,
        InteractionKind::ApplicationCommand => Route::ApplicationCommand,
        InteractionKind::MessageComponent | InteractionKind::ModalSubmit
        | InteractionKind::ApplicationCommandAutocomplete => Route::Unimplemented,
        InteractionKind::Other => Route::Reject(HttpStatus::UnprocessableEntity),
    }
}

/// The route of an interaction at the synchronous handler: pings are
/// answered, application commands executed, and autocompletion or anything
/// else is unprocessable. Components and modals have no handler there.
pub open spec fn handler_route_of(kind: InteractionKind) -> Route {
    match kind {
        InteractionKind::Ping => Route::Pong,
        InteractionKind::ApplicationCommand => Route::ApplicationCommand,
        _ => Route::Reject(HttpStatus::UnprocessableEntity),
    }
}

/// Whether the synchronous handler has a route for interactions of `kind`:
/// all but components and modals.
pub open spec fn handler_routes(kind: InteractionKind) -> bool {
    !(kind is MessageComponent || kind is ModalSubmit)
}

/// The synchronous handler answers pings and only pings with a pong, runs
/// application commands and only those, and turns every other kind it
/// routes away as unprocessable; on pings and application commands it
/// agrees with the HTTP endpoint.
pub proof fn lemma_handler_routes(kind: InteractionKind)
    requires
        handler_routes(kind),
    ensures
        handler_route_of(kind) == Route::Pong <==> kind == InteractionKind::Ping,
        handler_route_of(kind) == Route::ApplicationCommand <==> kind == InteractionKind::ApplicationCommand,
        kind != InteractionKind::Ping && kind != InteractionKind::ApplicationCommand ==> handler_route_of(kind)
            == Route::Reject(HttpStatus::UnprocessableEntity),
        kind == InteractionKind::Ping || kind == InteractionKind::ApplicationCommand ==> handler_route_of(kind)
            == http_route_of(kind),
{
}

/// The HTTP endpoint answers pings and only pings with a pong, and hands
/// application commands and only those to the command handler.
pub proof fn lemma_http_routes(kind: InteractionKind)
    ensures
        http_route_of(kind) == Route::Pong <==> kind == InteractionKind::Ping,
        http_route_of(kind) == Route::ApplicationCommand <==> kind == InteractionKind::ApplicationCommand,
{
}

/// The route of an interaction request at the HTTP endpoint.
pub fn http_route(kind: InteractionKind) -> (res: Route)
    ensures
        res == http_route_of(kind),
{
    match kind {
        InteractionKind::Ping => Route::Pong,
        InteractionKind::ApplicationCommand => Route::ApplicationCommand,
        InteractionKind::MessageComponent | InteractionKind::ModalSubmit
        | InteractionKind::ApplicationCommandAutocomplete => Route::Unimplemented,
        InteractionKind::Other => Route::Reject(HttpStatus::UnprocessableEntity),
    }
}

/// The route of an interaction at the synchronous handler, for a kind that
/// it handles.
pub fn handler_route(kind: InteractionKind) -> (res: Route)
    requires
        handler_routes(kind),
    ensures
        res == handler_route_of(kind),
{
    match kind {
        InteractionKind::Ping => Route::Pong,
        InteractionKind::ApplicationCommand => Route::ApplicationCommand,
        _ => Route::Reject(HttpStatus::UnprocessableEntity),
    }
}

/// Whether the synchronous handler has a route for interactions of `kind`.
pub fn handler_has_route(kind: InteractionKind) -> (res: bool)
    ensures
        res == handler_routes(kind),
{
    !matches!(kind, InteractionKind::MessageComponent | InteractionKind::ModalSubmit)
}

/// The commands the bot offers.
#[derive(Clone, Copy, Debug, PartialEq, Eq, Structural)]
pub enum Command {
    /// `nu`: run a Nushell pipeline.
    Nu,
    /// `Delete Nushell Response`: delete one of the bot's replies.
    DeleteResponse,
}

/// The name under which `nu` is registered.
pub open spec fn nu_command_name() -> Seq<char> {
    "nu"@
}

/// The name under which the delete command is registered.
pub open spec fn delete_command_name() -> Seq<char> {
    "Delete Nushell Response"@
}

/// The command registered under `name`, if any.
pub open spec fn command_named(name: Seq<char>) -> Option<Command> {
    if name == nu_command_name() {
        Some(Command::Nu)
    } else if name == delete_command_name() {
        Some(Command::DeleteResponse)
    } else {
        None
    }
}

/// The command registered under `name`, if any.
pub fn command_for_name(name: &str) -> (res: Option<Command>)
    ensures
        res == command_named(name@),
{
    if str_eq(name, "nu") {
        proof {
            reveal_strlit("nu");
        }
        Some(Command::Nu)
    } else if str_eq(name, "Delete Nushell Response") {
        proof {
            reveal_strlit("Delete Nushell Response");
        }
        Some(Command::DeleteResponse)
    } else {
        proof {
            reveal_strlit("nu");
            reveal_strlit("Delete Nushell Response");
        }
        None
    }
}

/// Why an interaction could not be dispatched to a command.
#[derive(Clone, Copy, Debug, PartialEq, Eq, Structural)]
pub enum DispatchError {
    /// The interaction carries no application-command data.
    UnexpectedData,
    /// Application-command data arrived on an interaction of another kind.
    NotApplicationCommand,
}

/// Whether two strings are equal.
pub fn str_eq(a: &str, b: &str) -> (res: bool)
    ensures
        res == (a@ == b@),
{
    let ac = crate::text::chars_of(a);
    let bc = crate::text::chars_of(b);
    if ac.len() != bc.len() {
        return false;
    }
    let mut i: usize = 0;
    while i < ac.len()
        invariant
            ac@ == a@,
            bc@ == b@,
            ac@.len() == bc@.len(),
            i <= ac@.len(),
            forall|j: int| 0 <= j < i ==> ac@[j] == bc@[j],
        decreases ac.len() - i,
    {
        if ac[i] != bc[i] {
            assert(ac@[i as int] != bc@[i as int]);
            return false;
        }
        i += 1;
    }
    assert(ac@ =~= bc@);
    true
}

} // verus!
