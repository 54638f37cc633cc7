//! The HTTP endpoint's decisions: which signed requests pass, how each
//! interaction is answered at once, and what is answered when the command
//! handler cannot be reached.

use vstd::prelude::*;
use crate::interaction::{InteractionKind, Route, http_route, handler_route, http_route_of, handler_route_of, handler_routes};
use crate::response::{
    BotConfig, Embed, EmbedField, InteractionResponse, ResponseData, ResponseKind, mention_text,
    push_mention, pong, ansi_block_response, ansi_block_text,
};
use crate::nu_command::ExecuteRequest;
use crate::signature::{HttpStatus, InvalidKey, SignatureKey, check_signed_request, signed_request_verdict, opt_bytes, ed25519_public_key_valid, ed25519_signature_accepted};

verus! {

/// The HTTP endpoint: the application's public key and the identifiers and
/// colours its messages use.
pub struct HttpHandler {
    pub verification_key: SignatureKey,
    pub config: BotConfig,
}

/// An interaction that could not be handed to the command handler: the
/// error's type name and its text.
#[derive(Debug)]
pub struct SendFailure {
    pub error_type: String,
    pub error_text: String,
}

/// The description of the embed shown when the command handler is gone.
pub open spec fn handler_died_text(support_user_id: u64) -> Seq<char> {
    "Could not send interaction to Interaction Handler.\nReport this to "@ + mention_text(support_user_id) + "."@
}

impl HttpHandler {
    /// An endpoint for the application with this public key; fails exactly
    /// when the key is no valid Ed25519 public key.
    pub fn new(public_key: [u8; 32], config: BotConfig) -> (res: Result<HttpHandler, InvalidKey>)
        ensures
            res is Ok <==> ed25519_public_key_valid(public_key@),
            res matches Ok(h) ==> h.verification_key.key_bytes() == public_key@ && h.config == config,
    {
        match SignatureKey::from_bytes(public_key) {
            Ok(verification_key) => Ok(HttpHandler { verification_key, config }),
            Err(e) => Err(e),
        }
    }

    /// Checks the signature of a request (headers decoded by `const_hex`).
    /// A request passes only when its signature verifies on the timestamp
    /// followed by the body.
    pub fn validate_security_headers(&self, signature: Option<&[u8]>, timestamp: Option<&[u8]>, body: Option<&[u8]>) -> (res: Result<(), HttpStatus>)
        ensures
            res == signed_request_verdict(
                self.verification_key.key_bytes(),
                opt_bytes(signature),
                opt_bytes(timestamp),
                opt_bytes(body),
                true,
            ),
            res is Ok ==> exists|sig: Seq<u8>, ts: Seq<u8>, b: Seq<u8>|
                opt_bytes(timestamp) == Some(ts) && opt_bytes(body) == Some(b) && sig.len() == 64
                    && ed25519_signature_accepted(self.verification_key.key_bytes(), ts + b, sig),
    {
        check_signed_request(&self.verification_key, signature, timestamp, body, true)
    }

    /// How an interaction request is answered (see `http_route`).
    pub fn discord(&self, kind: InteractionKind) -> (res: Route)
        ensures
            res == http_route_of(kind),
    {
        http_route(kind)
    }

    /// The answer to a ping.
    pub fn ping() -> (res: InteractionResponse)
        ensures
            res.kind == ResponseKind::Pong,
            res.data is None,
    {
        pong()
    }

    /// The immediate answer to an application command: a deferred message
    /// once the interaction has been handed on, or an embed that reports
    /// the failure to hand it on.
    pub fn application_command(&self, send_failure: Option<SendFailure>) -> (res: InteractionResponse)
        ensures
            send_failure is None ==> res.kind == ResponseKind::DeferredChannelMessageWithSource && res.data is None,
            send_failure matches Some(f) ==> {
                &&& res.kind == ResponseKind::ChannelMessageWithSource
                &&& res.data is Some
                &&& res.data->0.content is None
                &&& res.data->0.embeds matches Some(es) && es@.len() == 1 && {
                    let e = es@[0];
                    &&& e.title@ == "\u{26a0}\u{fe0f} Interaction Handler Died"@
                    &&& e.description@ == handler_died_text(self.config.support_user_id)
                    &&& e.color == self.config.red
                    &&& e.fields@.len() == 1
                    &&& e.fields@[0].name@ == f.error_type@
                    &&& e.fields@[0].value@ == f.error_text@
                    &&& !e.fields@[0].inline
                }
            },
    {
        match send_failure {
            None => InteractionResponse { kind: ResponseKind::DeferredChannelMessageWithSource, data: None },
            Some(f) => {
                let mut d = "Could not send interaction to Interaction Handler.\nReport this to ".to_owned();
                push_mention(&mut d, self.config.support_user_id);
                d.append(".");
                assert(d@ =~= handler_died_text(self.config.support_user_id));
                let mut fields: Vec<EmbedField> = Vec::new();
                fields.push(EmbedField { name: f.error_type, value: f.error_text, inline: false });
                let mut embeds: Vec<Embed> = Vec::new();
                embeds.push(Embed {
                    title: "\u{26a0}\u{fe0f} Interaction Handler Died".to_owned(),
                    description: d,
                    color: self.config.red,
                    fields,
                });
                InteractionResponse {
                    kind: ResponseKind::ChannelMessageWithSource,
                    data: Some(ResponseData { content: None, embeds: Some(embeds) }),
                }
            },
        }
    }
}

/// Checks the signature of a request with the key set at start-up
/// (`None` while it is unset, a server error), decoding the signature
/// header with `hex`.
pub fn validate_security_headers(key: Option<&SignatureKey>, signature: Option<&[u8]>, timestamp: Option<&[u8]>, body: Option<&[u8]>) -> (res: Result<(), HttpStatus>)
    ensures
        key is None ==> res == Err::<(), HttpStatus>(HttpStatus::InternalServerError),
        key matches Some(k) ==> res == signed_request_verdict(
            k.key_bytes(),
            opt_bytes(signature),
            opt_bytes(timestamp),
            opt_bytes(body),
            false,
        ),
{
    match key {
        None => Err(HttpStatus::InternalServerError),
        Some(k) => check_signed_request(k, signature, timestamp, body, false),
    }
}

/// The synchronous interaction handler.
#[derive(Clone, Copy, Debug)]
pub struct DiscordHandler;

impl DiscordHandler {
    /// How an interaction is answered (see `handler_route`); there is no
    /// handler for components and modals.
    pub fn handle_interaction(&self, kind: InteractionKind) -> (res: Route)
        requires
            handler_routes(kind),
        ensures
            res == handler_route_of(kind),
    {
        handler_route(kind)
    }

    /// The answer to a ping.
    pub fn handle_ping(&self) -> (res: InteractionResponse)
        ensures
            res.kind == ResponseKind::Pong,
            res.data is None,
    {
        pong()
    }

    /// The pipeline that an application command is answered with: it is
    /// handed to the executor under the file name `fname`, with the source
    /// `some source` and no input file.
    pub fn application_command_request(&self) -> (res: ExecuteRequest)
        ensures
            res.fname@ == "fname"@,
            res.source@ == "some source"@,
            res.file_url is None,
    {
        ExecuteRequest { fname: "fname".to_owned(), source: "some source".to_owned(), file_url: None }
    }

    /// The answer to an application command once its pipeline has run:
    /// the output in an ANSI code block.
    pub fn handle_application_command(&self, output: &str) -> (res: InteractionResponse)
        ensures
            res.kind == ResponseKind::ChannelMessageWithSource,
            res.data is Some,
            res.data->0.embeds is None,
            res.data->0.content matches Some(c) && c@ == ansi_block_text(output@),
    {
        ansi_block_response(output)
    }
}

} // verus!
