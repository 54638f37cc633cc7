//! The responses the bot gives Discord: interaction responses, embeds, and
//! the reports with which a deferred interaction is updated.

use vstd::prelude::*;
use crate::text::{decimal_digits, push_decimal, strip_backtrace, before_first, backtrace_marker};
use twilight_model::channel::message::embed::EmbedField as TwilightEmbedField;
use twilight_util::builder::embed::EmbedBuilder;

verus! {

/// Identifiers and colours the bot's messages use.
#[derive(Clone, Copy, Debug, PartialEq, Eq, Structural)]
pub struct BotConfig {
    /// The bot's application id.
    pub application_id: u64,
    /// The user that failures are reported to.
    pub support_user_id: u64,
    /// Colour of embeds that report a fault of the bot.
    pub red: u32,
    /// Colour of embeds that report a fault of the request.
    pub yellow: u32,
}

/// `<@id>`: the text that mentions the user (or application) `id`.
pub open spec fn mention_text(id: u64) -> Seq<char> {
    "<@"@ + decimal_digits(id as nat) + ">"@
}

/// Appends a mention of `id` to `s`.
pub fn push_mention(s: &mut String, id: u64)
    ensures
        final(s)@ == old(s)@ + mention_text(id),
{
    s.append("<@");
    push_decimal(s, id);
    s.append(">");
    assert(final(s)@ =~= old(s)@ + mention_text(id));
}

/// One field of an embed.
#[derive(Debug)]
pub struct EmbedField {
    pub name: String,
    pub value: String,
    pub inline: bool,
}

/// A rich embed with a title, a description, a colour and fields.
#[derive(Debug)]
pub struct Embed {
    pub title: String,
    pub description: String,
    pub color: u32,
    pub fields: Vec<EmbedField>,
}

/// The kinds of interaction response the bot sends.
#[derive(Clone, Copy, Debug, PartialEq, Eq, Structural)]
pub enum ResponseKind {
    Pong,
    ChannelMessageWithSource,
    DeferredChannelMessageWithSource,
}

/// The data of an interaction response.
#[derive(Debug)]
pub struct ResponseData {
    pub content: Option<String>,
    pub embeds: Option<Vec<Embed>>,
}

/// An interaction response.
#[derive(Debug)]
pub struct InteractionResponse {
    pub kind: ResponseKind,
    pub data: Option<ResponseData>,
}

/// The number of bytes `s` takes in UTF-8.
pub open spec fn utf8_len(s: Seq<char>) -> nat {
    vstd::utf8::encode_utf8(s).len()
}

/// The UTF-8 byte count of the names and values of `fields`.
pub open spec fn fields_utf8_len(fields: Seq<EmbedField>) -> nat
    decreases fields.len(),
{
    if fields.len() == 0 {
        0
    } else {
        fields_utf8_len(fields.drop_last()) + utf8_len(fields.last().name@) + utf8_len(fields.last().value@)
    }
}

/// Discord's limits on an embed (as `twilight_validate::embed::embed`
/// checks them for an embed without author or footer): at most 6000 bytes
/// of text in all, an RGB colour, a description of at most 4096 characters,
/// at most 25 fields with names of at most 256 and values of at most 1024
/// characters, and a title of at most 256 characters.
pub open spec fn embed_within_limits(e: Embed) -> bool {
    &&& utf8_len(e.description@) + fields_utf8_len(e.fields@) + utf8_len(e.title@) <= 6000
    &&& e.color <= 0xff_ffff
    &&& e.description@.len() <= 4096
    &&& e.fields@.len() <= 25
    &&& forall|i: int| 0 <= i < e.fields@.len() ==> (#[trigger] e.fields@[i]).name@.len() <= 256
        && e.fields@[i].value@.len() <= 1024
    &&& e.title@.len() <= 256
}

/// Calls `twilight_util`'s `EmbedBuilder::validate` on the embed built from
/// `e`'s title, description, colour and fields; the contract states the
/// limits that `twilight_validate::embed::embed`, which it calls, checks.
#[verifier::external_body]
pub(crate) fn embed_is_valid(e: &Embed) -> (ok: bool)
    ensures
        ok == embed_within_limits(*e),
{
    let mut b = EmbedBuilder::new().title(e.title.clone()).description(e.description.clone()).color(
        e.color,
    );
    for f in e.fields.iter() {
        b = b.field(TwilightEmbedField { inline: f.inline, name: f.name.clone(), value: f.value.clone() });
    }
    b.validate().is_ok()
}

/// What a report asks to show: a title, a description, a colour and an
/// optional field whose value is a formatted error.
#[derive(Debug)]
pub struct Report {
    pub title: String,
    pub description: String,
    pub color: u32,
    /// The field's name and the error's formatted text.
    pub field: Option<(String, String)>,
}

/// How a deferred response is updated.
#[derive(Debug)]
pub enum ResponseUpdate {
    /// Replace the response with these embeds.
    Embeds(Vec<Embed>),
    /// Replace the response with this text.
    Content(String),
}

/// The embed that shows `r`: the field value loses its backtrace.
pub open spec fn report_embed_matches(r: Report, e: Embed) -> bool {
    &&& e.title@ == r.title@
    &&& e.description@ == r.description@
    &&& e.color == r.color
    &&& match r.field {
        None => e.fields@.len() == 0,
        Some((name, err)) => e.fields@.len() == 1 && e.fields@[0].name@ == name@
            && e.fields@[0].value@ == before_first(err@, backtrace_marker())
            && !e.fields@[0].inline,
    }
}

/// The text sent in place of a report that Discord would refuse.
pub open spec fn fallback_report_text(support_user_id: u64) -> Seq<char> {
    "**Something went wrong.**\n-# Report that error to "@ + mention_text(support_user_id)
        + " if it occurs again."@
}

/// Formats an error report: the part of the error's formatted text before
/// its backtrace.
pub fn fmt_anyhow_error(formatted: &str) -> (res: String)
    ensures
        res@ == before_first(formatted@, backtrace_marker()),
{
    strip_backtrace(formatted)
}

/// Turns a report into the update of a deferred response: one embed when
/// Discord's embed limits allow it, otherwise a fixed text that points to
/// the support user.
pub fn report_update(config: &BotConfig, report: &Report) -> (res: ResponseUpdate)
    ensures
        exists|e: Embed| #[trigger] report_embed_matches(*report, e) && match res {
            ResponseUpdate::Embeds(es) => embed_within_limits(e) && es@.len() == 1 && report_embed_matches(*report, es@[0]),
            ResponseUpdate::Content(c) => !embed_within_limits(e) && c@ == fallback_report_text(config.support_user_id),
        },
{
    let mut fields: Vec<EmbedField> = Vec::new();
    match &report.field {
        Some((name, err)) => {
            fields.push(EmbedField { name: name.clone(), value: fmt_anyhow_error(err.as_str()), inline: false });
        },
        None => {},
    }
    let embed = Embed {
        title: report.title.clone(),
        description: report.description.clone(),
        color: report.color,
        fields,
    };
    assert(report_embed_matches(*report, embed));
    if embed_is_valid(&embed) {
        let mut es: Vec<Embed> = Vec::new();
        es.push(embed);
        ResponseUpdate::Embeds(es)
    } else {
        let mut c = String::new();
        c.append("**Something went wrong.**\n-# Report that error to ");
        push_mention(&mut c, config.support_user_id);
        c.append(" if it occurs again.");
        assert(c@ =~= fallback_report_text(config.support_user_id));
        ResponseUpdate::Content(c)
    }
}

/// The response to a ping.
pub fn pong() -> (res: InteractionResponse)
    ensures
        res.kind == ResponseKind::Pong,
        res.data is None,
{
    InteractionResponse { kind: ResponseKind::Pong, data: None }
}

/// The text of a message that shows `output` as an ANSI code block.
pub open spec fn ansi_block_text(output: Seq<char>) -> Seq<char> {
    "```ansi\n"@ + output + "\n```"@
}

/// A message response that shows pipeline output in an ANSI code block.
pub fn ansi_block_response(output: &str) -> (res: InteractionResponse)
    ensures
        res.kind == ResponseKind::ChannelMessageWithSource,
        res.data is Some,
        res.data->0.embeds is None,
        res.data->0.content matches Some(c) && c@ == ansi_block_text(output@),
{
    let mut c = String::new();
    c.append("```ansi\n");
    c.append(output);
    c.append("\n```");
    assert(c@ =~= ansi_block_text(output@));
    InteractionResponse {
        kind: ResponseKind::ChannelMessageWithSource,
        data: Some(ResponseData { content: Some(c), embeds: None }),
    }
}

} // verus!
