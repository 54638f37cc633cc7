//! The `nu` command: reading its options, classifying a downloaded input
//! file, and answering with the pipeline's result or a report.

use vstd::prelude::*;
use crate::handler::{InteractionHandler, plain_report};
use crate::interaction::{CommandData, CommandKind, CommandOption, OptionValue, OptionKind, ResolvedAttachment, option_kind_name, nu_command_name, str_eq};
use crate::response::{Report, mention_text, push_mention, utf8_len};
use crate::text::{chars_of, decimal_digits, push_decimal};
use crate::executor::ExecuteParamsFile;

verus! {

/// The index of the first option named `name`, or `opts.len()`.
pub open spec fn first_option_from(opts: Seq<CommandOption>, name: Seq<char>, i: int) -> int
    decreases opts.len() - i,
{
    if i < 0 || i >= opts.len() {
        opts.len() as int
    } else if opts[i].name@ == name {
        i
    } else {
        first_option_from(opts, name, i + 1)
    }
}

/// The first option named `name`, if any.
pub open spec fn find_option(opts: Seq<CommandOption>, name: Seq<char>) -> Option<CommandOption> {
    let i = first_option_from(opts, name, 0);
    if i < opts.len() {
        Some(opts[i])
    } else {
        None
    }
}

/// The index of the first attachment with id `id`, or `atts.len()`.
pub open spec fn first_attachment_from(atts: Seq<ResolvedAttachment>, id: u64, i: int) -> int
    decreases atts.len() - i,
{
    if i < 0 || i >= atts.len() {
        atts.len() as int
    } else if atts[i].id == id {
        i
    } else {
        first_attachment_from(atts, id, i + 1)
    }
}

proof fn lemma_first_option_from(opts: Seq<CommandOption>, name: Seq<char>, i: int)
    requires
        0 <= i <= opts.len(),
    ensures
        i <= first_option_from(opts, name, i) <= opts.len(),
    decreases opts.len() - i,
{
    if i < opts.len() && opts[i].name@ != name {
        lemma_first_option_from(opts, name, i + 1);
    }
}

proof fn lemma_first_attachment_from(atts: Seq<ResolvedAttachment>, id: u64, i: int)
    requires
        0 <= i <= atts.len(),
    ensures
        i <= first_attachment_from(atts, id, i) <= atts.len(),
    decreases atts.len() - i,
{
    if i < atts.len() && atts[i].id != id {
        lemma_first_attachment_from(atts, id, i + 1);
    }
}

/// The position of the first option named `name`.
fn find_option_index(opts: &Vec<CommandOption>, name: &str) -> (res: usize)
    ensures
        res == first_option_from(opts@, name@, 0),
{
    let mut i: usize = 0;
    while i < opts.len()
        invariant
            i <= opts@.len(),
            first_option_from(opts@, name@, 0) == first_option_from(opts@, name@, i as int),
        decreases opts.len() - i,
    {
        if str_eq(opts[i].name.as_str(), name) {
            return i;
        }
        i += 1;
    }
    i
}

/// The position of the first attachment with id `id`.
fn find_attachment_index(atts: &Vec<ResolvedAttachment>, id: u64) -> (res: usize)
    ensures
        res == first_attachment_from(atts@, id, 0),
{
    let mut i: usize = 0;
    while i < atts.len()
        invariant
            i <= atts@.len(),
            first_attachment_from(atts@, id, 0) == first_attachment_from(atts@, id, i as int),
        decreases atts.len() - i,
    {
        if atts[i].id == id {
            return i;
        }
        i += 1;
    }
    i
}

/// Why the options of a `nu` command could not be read.
#[derive(Clone, Debug, PartialEq, Eq)]
pub enum OptionsError {
    /// The command is not `nu`; it has this name.
    WrongName(String),
    /// The command is not a chat-input command; it has this kind.
    WrongKind(CommandKind),
    /// There is no `source` option.
    MissingSource,
    /// The `source` option is not a string; it has this type.
    SourceNotString(OptionKind),
    /// The `file` option is not an attachment; it has this type.
    FileNotAttachment(OptionKind),
    /// A file is attached but the command has no resolved data.
    MissingResolved,
    /// The attached file is not among the resolved attachments.
    AttachmentNotFound,
}

/// The text that std's `Debug` gives a string: quoted, with escapes.
pub uninterp spec fn str_debug(s: Seq<char>) -> Seq<char>;

/// Formats `s` with std's `Debug` for `str`; the contract names the text,
/// which depends on the string alone.
#[verifier::external_body]
fn debug_text(s: &str) -> (res: String)
    ensures
        res@ == str_debug(s@),
{
    format!("{:?}", s)
}

/// The `Debug` text of a command kind.
pub open spec fn command_kind_debug(k: CommandKind) -> Seq<char> {
    match k {
        CommandKind::ChatInput => "ChatInput"@,
        CommandKind::User => "User"@,
        CommandKind::Message => "Message"@,
        CommandKind::Unknown(n) => "Unknown("@ + decimal_digits(n as nat) + ")"@,
    }
}

/// Whether a failed comparison can show an operand's `Debug` text: at most
/// 40 bytes, without spaces or line breaks.
pub open spec fn shows_operand(d: Seq<char>) -> bool {
    &&& utf8_len(d) <= 40
    &&& forall|i: int| 0 <= i < d.len() ==> #[trigger] d[i] != ' ' && d[i] != '\n'
}

/// The message of a failed comparison `lhs == rhs`: the condition, and the
/// two operands' `Debug` texts when both can be shown.
pub open spec fn condition_failed_text(condition: Seq<char>, lhs: Seq<char>, rhs: Seq<char>) -> Seq<char> {
    let base = "Condition failed: `"@ + condition + "`"@;
    if shows_operand(lhs) && shows_operand(rhs) {
        base + " ("@ + lhs + " vs "@ + rhs + ")"@
    } else {
        base
    }
}

/// The message of an options error.
pub open spec fn options_error_text(e: OptionsError) -> Seq<char> {
    match e {
        OptionsError::WrongName(name) => condition_failed_text("data.name == \"nu\""@, str_debug(name@), "\"nu\""@),
        OptionsError::WrongKind(k) => condition_failed_text(
            "data.kind == CommandType::ChatInput"@,
            command_kind_debug(k),
            "ChatInput"@,
        ),
        OptionsError::MissingSource => "missing source option"@,
        OptionsError::SourceNotString(k) => "expected source to be a string, got "@ + option_kind_name(k),
        OptionsError::FileNotAttachment(k) => "expected file to be an attachment, got "@ + option_kind_name(k),
        OptionsError::MissingResolved => "expected interaction to have resolve data, because it contains file attachment"@,
        OptionsError::AttachmentNotFound => "could not find file attachment in resolved data"@,
    }
}

impl OptionsError {
    /// The message of this error.
    pub fn message(&self) -> (res: String)
        ensures
            res@ == options_error_text(*self),
    {
        match self {
            OptionsError::WrongName(name) => {
                let d = debug_text(name.as_str());
                condition_failed("data.name == \"nu\"", d.as_str(), "\"nu\"")
            },
            OptionsError::WrongKind(k) => {
                let d = command_kind_debug_text(*k);
                condition_failed("data.kind == CommandType::ChatInput", d.as_str(), "ChatInput")
            },
            OptionsError::MissingSource => "missing source option".to_owned(),
            OptionsError::SourceNotString(k) => {
                let mut s = "expected source to be a string, got ".to_owned();
                s.append(k.kind());
                s
            },
            OptionsError::FileNotAttachment(k) => {
                let mut s = "expected file to be an attachment, got ".to_owned();
                s.append(k.kind());
                s
            },
            OptionsError::MissingResolved => "expected interaction to have resolve data, because it contains file attachment".to_owned(),
            OptionsError::AttachmentNotFound => "could not find file attachment in resolved data".to_owned(),
        }
    }
}

/// The `Debug` text of a command kind.
fn command_kind_debug_text(k: CommandKind) -> (res: String)
    ensures
        res@ == command_kind_debug(k),
{
    match k {
        CommandKind::ChatInput => "ChatInput".to_owned(),
        CommandKind::User => "User".to_owned(),
        CommandKind::Message => "Message".to_owned(),
        CommandKind::Unknown(n) => {
            let mut s = "Unknown(".to_owned();
            push_decimal(&mut s, n as u64);
            s.append(")");
            s
        },
    }
}

/// The number of bytes `c` takes in UTF-8.
fn char_utf8_len(c: char) -> (res: usize)
    ensures
        res == vstd::utf8::encode_scalar(c as u32).len(),
        res <= 4,
{
    proof {
        vstd::utf8::char_is_scalar(c);
    }
    let v = c as u32;
    if v <= 0x7f {
        1
    } else if v <= 0x7ff {
        2
    } else if v <= 0xffff {
        3
    } else {
        4
    }
}

/// Appending a character adds its UTF-8 length.
proof fn lemma_utf8_len_push(s: Seq<char>, c: char)
    ensures
        utf8_len(s.push(c)) == utf8_len(s) + vstd::utf8::encode_scalar(c as u32).len(),
    decreases s.len(),
{
    if s.len() == 0 {
        assert(s.push(c).drop_first() =~= Seq::<char>::empty());
        assert(vstd::utf8::encode_utf8(Seq::<char>::empty()) =~= Seq::<u8>::empty());
        assert(vstd::utf8::encode_utf8(s) =~= Seq::<u8>::empty());
    } else {
        lemma_utf8_len_push(s.drop_first(), c);
        assert(s.push(c).drop_first() =~= s.drop_first().push(c));
        assert(s.push(c)[0] == s[0]);
    }
}

/// A prefix takes no more UTF-8 bytes than the whole.
proof fn lemma_utf8_len_prefix(s: Seq<char>, k: int)
    requires
        0 <= k <= s.len(),
    ensures
        utf8_len(s.take(k)) <= utf8_len(s),
    decreases s.len() - k,
{
    if k < s.len() {
        lemma_utf8_len_prefix(s, k + 1);
        lemma_utf8_len_push(s.take(k), s[k]);
        assert(s.take(k + 1) =~= s.take(k).push(s[k]));
    } else {
        assert(s.take(k) =~= s);
    }
}

/// Whether `d` can be shown as an operand of a failed comparison.
fn operand_shown(d: &str) -> (res: bool)
    ensures
        res == shows_operand(d@),
{
    let cs = chars_of(d);
    let mut bytes: usize = 0;
    let mut i: usize = 0;
    while i < cs.len()
        invariant
            cs@ == d@,
            i <= cs@.len(),
            bytes == utf8_len(d@.take(i as int)),
            bytes <= 40,
            forall|j: int| 0 <= j < i ==> #[trigger] d@[j] != ' ' && d@[j] != '\n',
        decreases cs.len() - i,
    {
        let c = cs[i];
        if c == ' ' || c == '\n' {
            return false;
        }
        proof {
            lemma_utf8_len_push(d@.take(i as int), c);
            assert(d@.take(i as int + 1) =~= d@.take(i as int).push(c));
            lemma_utf8_len_prefix(d@, i as int + 1);
        }
        let n = char_utf8_len(c);
        if bytes + n > 40 {
            return false;
        }
        bytes = bytes + n;
        i += 1;
    }
    assert(d@.take(cs@.len() as int) =~= d@);
    true
}

/// The message of a failed comparison (see `condition_failed_text`).
fn condition_failed(condition: &str, lhs: &str, rhs: &str) -> (res: String)
    ensures
        res@ == condition_failed_text(condition@, lhs@, rhs@),
{
    let mut s = "Condition failed: `".to_owned();
    s.append(condition);
    s.append("`");
    if operand_shown(lhs) && operand_shown(rhs) {
        s.append(" (");
        s.append(lhs);
        s.append(" vs ");
        s.append(rhs);
        s.append(")");
    }
    s
}

/// What a `nu` command asks to run: the file name the pipeline is parsed
/// under, its source, and the URL of an input file to download.
#[derive(Debug)]
pub struct ExecuteRequest {
    pub fname: String,
    pub source: String,
    pub file_url: Option<String>,
}

/// The type of an option value.
pub open spec fn value_kind(v: OptionValue) -> OptionKind {
    match v {
        OptionValue::String(_) => OptionKind::String,
        OptionValue::Attachment(_) => OptionKind::Attachment,
        OptionValue::Other(k) => k,
    }
}

/// The type of an option value.
fn option_value_kind(v: &OptionValue) -> (res: OptionKind)
    ensures
        res == value_kind(*v),
{
    match v {
        OptionValue::String(_) => OptionKind::String,
        OptionValue::Attachment(_) => OptionKind::Attachment,
        OptionValue::Other(k) => *k,
    }
}

/// What reading the `file` option gives: `Ok(None)` without such an option,
/// the URL of the attachment it names, or the error.
pub open spec fn file_option_result(data: CommandData, res: Result<Option<Seq<char>>, OptionsError>) -> bool {
    match find_option(data.options@, "file"@) {
        None => res == Ok::<Option<Seq<char>>, OptionsError>(None),
        Some(o) => match o.value {
            OptionValue::Attachment(id) => match data.resolved {
                None => res == Err::<Option<Seq<char>>, OptionsError>(OptionsError::MissingResolved),
                Some(r) => {
                    let k = first_attachment_from(r.attachments@, id, 0);
                    if k < r.attachments@.len() {
                        res == Ok::<Option<Seq<char>>, OptionsError>(Some(r.attachments@[k].url@))
                    } else {
                        res == Err::<Option<Seq<char>>, OptionsError>(OptionsError::AttachmentNotFound)
                    }
                },
            },
            _ => res == Err::<Option<Seq<char>>, OptionsError>(OptionsError::FileNotAttachment(value_kind(o.value))),
        },
    }
}

/// The error that reading the options of `data` gives, if any.
pub open spec fn options_error(data: CommandData) -> Option<OptionsError> {
    if data.name@ != nu_command_name() {
        Some(OptionsError::WrongName(data.name))
    } else if data.kind != CommandKind::ChatInput {
        Some(OptionsError::WrongKind(data.kind))
    } else {
        match find_option(data.options@, "source"@) {
            None => Some(OptionsError::MissingSource),
            Some(o) => match o.value {
                OptionValue::String(_) => match find_option(data.options@, "file"@) {
                    None => None,
                    Some(f) => match f.value {
                        OptionValue::Attachment(id) => match data.resolved {
                            None => Some(OptionsError::MissingResolved),
                            Some(r) => if first_attachment_from(r.attachments@, id, 0) < r.attachments@.len() {
                                None
                            } else {
                                Some(OptionsError::AttachmentNotFound)
                            },
                        },
                        _ => Some(OptionsError::FileNotAttachment(value_kind(f.value))),
                    },
                },
                _ => Some(OptionsError::SourceNotString(value_kind(o.value))),
            },
        }
    }
}

/// The text of the first `source` option of `data`, when it is a string.
pub open spec fn source_text(data: CommandData) -> Seq<char> {
    match find_option(data.options@, "source"@) {
        Some(o) => match o.value {
            OptionValue::String(s) => s@,
            _ => Seq::empty(),
        },
        None => Seq::empty(),
    }
}

/// `reply` answers the execution outcome `o`.
pub open spec fn reply_for(config: crate::response::BotConfig, o: ExecutionOutcome, reply: NuReply) -> bool {
    match o {
        ExecutionOutcome::Finished { elapsed_secs, elapsed_nanos } => reply matches NuReply::Image {
            filename,
            content,
        } && filename@ == "result.png"@ && content@ == took_text(elapsed_secs, elapsed_nanos),
        ExecutionOutcome::Failed { error_type, error_text } => reply matches NuReply::Report(r) && field_report(
            r,
            "\u{26a0}\u{fe0f} Error During Nu Execution"@,
            "An error while executing pipeline occurred."@,
            config.yellow,
            error_type@,
            error_text@,
        ),
        ExecutionOutcome::NotReceived { error_type, error_text } => reply matches NuReply::Report(r)
            && field_report(
            r,
            "\u{26a0}\u{fe0f} Error Receiving Results"@,
            not_received_text(config.support_user_id),
            config.red,
            error_type@,
            error_text@,
        ),
    }
}

/// The description of the report on a pipeline the executor never got.
pub open spec fn not_sent_text(support_user_id: u64) -> Seq<char> {
    "The pipeline could not be handed to the executor.\nReport this to "@ + mention_text(support_user_id) + "."@
}

/// The title of the report on a runtime that is still booting.
pub open spec fn not_ready_title() -> Seq<char> {
    "\u{26a0}\u{fe0f} Nu Executor Not Ready Yet"@
}

/// The description of the report on a runtime that is still booting.
pub open spec fn not_ready_description() -> Seq<char> {
    "The WASM runtime did not fully boot up yet.\nWait a bit and try again later."@
}

/// The description of the report on invalid options.
pub open spec fn invalid_options_text(support_user_id: u64) -> Seq<char> {
    "Discord sent invalid interaction options.\nReport this to "@ + mention_text(support_user_id) + "."@
}

/// The description of the report on a lost result.
pub open spec fn not_received_text(support_user_id: u64) -> Seq<char> {
    "An error occurred while receiving the pipeline result.\nReport this to "@ + mention_text(support_user_id)
        + "."@
}

/// `r` is the report with this title, description, colour and field.
pub open spec fn field_report(r: Report, title: Seq<char>, description: Seq<char>, color: u32, name: Seq<char>, err: Seq<char>) -> bool {
    &&& r.title@ == title
    &&& r.description@ == description
    &&& r.color == color
    &&& r.field matches Some(f) && f.0@ == name && f.1@ == err
}

/// How the execution of a pipeline ended, as far as the reply depends on it.
#[derive(Debug)]
pub enum ExecutionOutcome {
    /// The pipeline ran for this long (the output is rendered as an image).
    Finished { elapsed_secs: u64, elapsed_nanos: u32 },
    /// The execution failed with this error (type name and formatted text).
    Failed { error_type: String, error_text: String },
    /// The result could not be received (type name and formatted text).
    NotReceived { error_type: String, error_text: String },
}

/// The reply to a `nu` command.
#[derive(Debug)]
pub enum NuReply {
    /// Attach the rendered output under `filename` and show `content`.
    Image { filename: String, content: String },
    /// Show this report.
    Report(Report),
}

/// `text` followed by the part of a formatted duration for `value` units
/// of `unit`: nothing when `value` is 0, else a space after earlier parts,
/// the value, the unit, and an `s` after a plural unit when `value` is more
/// than one.
pub open spec fn duration_part(text: Seq<char>, value: nat, unit: Seq<char>, plural: bool) -> Seq<char> {
    if value == 0 {
        text
    } else {
        let sep = if text.len() > 0 { " "@ } else { Seq::<char>::empty() };
        let s = if plural && value > 1 { "s"@ } else { Seq::<char>::empty() };
        text + sep + decimal_digits(value) + unit + s
    }
}

/// The text that `humantime::format_duration` gives for a duration of
/// `secs` seconds and `nanos` nanoseconds (below a second): `0s` for zero,
/// else its years (of 365.25 days), months (of 30.44 days), days, hours,
/// minutes, seconds, milliseconds, microseconds and nanoseconds, the zero
/// ones left out.
pub open spec fn humantime_text(secs: u64, nanos: u32) -> Seq<char> {
    if secs == 0 && nanos == 0 {
        "0s"@
    } else {
        let ydays = secs % 31_557_600;
        let mdays = ydays % 2_630_016;
        let day_secs = mdays % 86400;
        let t = duration_part(Seq::empty(), (secs / 31_557_600) as nat, "year"@, true);
        let t = duration_part(t, (ydays / 2_630_016) as nat, "month"@, true);
        let t = duration_part(t, (mdays / 86400) as nat, "day"@, true);
        let t = duration_part(t, (day_secs / 3600) as nat, "h"@, false);
        let t = duration_part(t, (day_secs % 3600 / 60) as nat, "m"@, false);
        let t = duration_part(t, (day_secs % 60) as nat, "s"@, false);
        let t = duration_part(t, (nanos / 1_000_000) as nat, "ms"@, false);
        let t = duration_part(t, (nanos / 1000 % 1000) as nat, "us"@, false);
        duration_part(t, (nanos % 1000) as nat, "ns"@, false)
    }
}

/// Calls `humantime::format_duration` on the duration of `secs` seconds and
/// `nanos` nanoseconds and formats it; the contract states the text that
/// the crate's `Display` writes (without its `mu` feature, which nothing
/// here turns on).
#[verifier::external_body]
fn format_duration(secs: u64, nanos: u32) -> (res: String)
    requires
        nanos < 1_000_000_000,
    ensures
        res@ == humantime_text(secs, nanos),
{
    humantime::format_duration(std::time::Duration::new(secs, nanos)).to_string()
}

/// The content shown with a rendered result.
pub open spec fn took_text(secs: u64, nanos: u32) -> Seq<char> {
    "-# took "@ + humantime_text(secs, nanos)
}

/// The content shown with a rendered result that ran for `duration`
/// (as formatted for people).
pub fn took_content(duration: &str) -> (res: String)
    ensures
        res@ == "-# took "@ + duration@,
{
    let mut c = "-# took ".to_owned();
    c.append(duration);
    c
}

impl InteractionHandler {
    /// The report given when the WASM runtime is not ready; `None` once it is.
    pub fn readiness_report(&self, wasm_ready: bool) -> (res: Option<Report>)
        ensures
            wasm_ready <==> res is None,
            res matches Some(r) ==> plain_report(r, not_ready_title(), not_ready_description(), self.config.yellow),
    {
        if wasm_ready {
            None
        } else {
            Some(Report {
                title: "\u{26a0}\u{fe0f} Nu Executor Not Ready Yet".to_owned(),
                description: "The WASM runtime did not fully boot up yet.\nWait a bit and try again later.".to_owned(),
                color: self.config.yellow,
                field: None,
            })
        }
    }

    /// Reads the options of a `nu` command: it must be the chat-input
    /// command `nu` with a string option `source`; an optional `file` option
    /// must be an attachment found among the resolved attachments, whose
    /// URL is returned.
    pub fn extract_execute_params(&self, data: &CommandData) -> (res: Result<ExecuteRequest, OptionsError>)
        ensures
            data.name@ != nu_command_name() ==> (res matches Err(OptionsError::WrongName(n)) && n@ == data.name@),
            data.name@ == nu_command_name() && data.kind != CommandKind::ChatInput
                ==> res == Err::<ExecuteRequest, OptionsError>(OptionsError::WrongKind(data.kind)),
            data.name@ == nu_command_name() && data.kind == CommandKind::ChatInput ==> match find_option(data.options@, "source"@) {
                None => res == Err::<ExecuteRequest, OptionsError>(OptionsError::MissingSource),
                Some(o) => match o.value {
                    OptionValue::String(src) => {
                        &&& file_option_result(*data, match res {
                            Ok(req) => Ok(match req.file_url {
                                Some(u) => Some(u@),
                                None => None,
                            }),
                            Err(e) => Err(e),
                        })
                        &&& res matches Ok(req) ==> req.source@ == src@ && req.fname@ == "something"@
                    },
                    _ => res == Err::<ExecuteRequest, OptionsError>(OptionsError::SourceNotString(value_kind(o.value))),
                },
            },
    {
        if !str_eq(data.name.as_str(), "nu") {
            return Err(OptionsError::WrongName(data.name.clone()));
        }
        if !matches!(data.kind, CommandKind::ChatInput) {
            return Err(OptionsError::WrongKind(data.kind));
        }
        proof {
            lemma_first_option_from(data.options@, "source"@, 0);
            lemma_first_option_from(data.options@, "file"@, 0);
        }
        let si = find_option_index(&data.options, "source");
        if si >= data.options.len() {
            return Err(OptionsError::MissingSource);
        }
        let source = match &data.options[si].value {
            OptionValue::String(s) => s.clone(),
            v => return Err(OptionsError::SourceNotString(option_value_kind(v))),
        };
        let fi = find_option_index(&data.options, "file");
        let file_url = if fi >= data.options.len() {
            None
        } else {
            let id = match &data.options[fi].value {
                OptionValue::Attachment(id) => *id,
                v => return Err(OptionsError::FileNotAttachment(option_value_kind(v))),
            };
            let resolved = match &data.resolved {
                None => return Err(OptionsError::MissingResolved),
                Some(r) => r,
            };
            proof {
                lemma_first_attachment_from(resolved.attachments@, id, 0);
            }
            let k = find_attachment_index(&resolved.attachments, id);
            if k >= resolved.attachments.len() {
                return Err(OptionsError::AttachmentNotFound);
            }
            Some(resolved.attachments[k].url.clone())
        };
        Ok(ExecuteRequest { fname: "something".to_owned(), source, file_url })
    }

    /// The report on options that could not be read, naming the error's type
    /// and showing its text.
    pub fn invalid_options_report(&self, error_type: String, error_text: String) -> (res: Report)
        ensures
            field_report(
                res,
                "\u{26a0}\u{fe0f} Invalid Interaction Options"@,
                invalid_options_text(self.config.support_user_id),
                self.config.red,
                error_type@,
                error_text@,
            ),
    {
        let mut d = "Discord sent invalid interaction options.\nReport this to ".to_owned();
        push_mention(&mut d, self.config.support_user_id);
        d.append(".");
        assert(d@ =~= invalid_options_text(self.config.support_user_id));
        Report {
            title: "\u{26a0}\u{fe0f} Invalid Interaction Options".to_owned(),
            description: d,
            color: self.config.red,
            field: Some((error_type, error_text)),
        }
    }

    /// The report on a pipeline that could not be handed to the executor,
    /// naming the error's type and showing its text.
    pub fn not_sent_report(&self, error_type: String, error_text: String) -> (res: Report)
        ensures
            field_report(
                res,
                "\u{26a0}\u{fe0f} Error Sending Pipeline"@,
                not_sent_text(self.config.support_user_id),
                self.config.red,
                error_type@,
                error_text@,
            ),
    {
        let mut d = "The pipeline could not be handed to the executor.\nReport this to ".to_owned();
        push_mention(&mut d, self.config.support_user_id);
        d.append(".");
        assert(d@ =~= not_sent_text(self.config.support_user_id));
        Report {
            title: "\u{26a0}\u{fe0f} Error Sending Pipeline".to_owned(),
            description: d,
            color: self.config.red,
            field: Some((error_type, error_text)),
        }
    }

    /// One step of the `nu` command: from the state and the event to the
    /// next state and the action. An unready runtime or unreadable options
    /// are reported at once; otherwise the file is downloaded, the pipeline
    /// handed to the executor, and its outcome answered; a pipeline the
    /// executor never got is reported too. The interaction is answered (by a
    /// report or a reply) exactly when the next state is `Done`.
    pub fn handle_nu_command(&self, state: NuCommandState, event: NuEvent) -> (res: (NuCommandState, NuAction))
        requires
            event matches NuEvent::Finished(ExecutionOutcome::Finished { elapsed_nanos, .. }) ==> elapsed_nanos
                < 1_000_000_000,
        ensures
            (res.0 is Done) <==> (res.1 is Report || res.1 is Reply || (res.1 is Ignore && state is Done)),
            res.1 is Ignore <==> !(
                (state is Received && event is Begin)
                || (state is Downloading && event is Downloaded)
                || (state is Executing && (event is Finished || event is NotSent))
            ),
            res.1 is Ignore ==> res.0 == state,
            match (state, event) {
                (NuCommandState::Received, NuEvent::Begin { wasm_ready, data }) => if !wasm_ready {
                    res.1 matches NuAction::Report(r) && plain_report(
                        r,
                        not_ready_title(),
                        not_ready_description(),
                        self.config.yellow,
                    )
                } else {
                    if options_error(data) is Some {
                        res.1 matches NuAction::Report(r) && field_report(
                            r,
                            "\u{26a0}\u{fe0f} Invalid Interaction Options"@,
                            invalid_options_text(self.config.support_user_id),
                            self.config.red,
                            "dyn core::error::Error"@,
                            options_error_text(options_error(data)->0),
                        )
                    } else {
                        &&& res.1 matches NuAction::Download { url } && file_option_result(
                            data,
                            Ok(
                                match url {
                                    Some(u) => Some(u@),
                                    None => None,
                                },
                            ),
                        )
                        &&& res.0 matches NuCommandState::Downloading { fname, source } && fname@ == "something"@
                            && source@ == source_text(data)
                    }
                },
                (NuCommandState::Downloading { fname, source }, NuEvent::Downloaded(r)) => match r {
                    Ok(file) => res.1 matches NuAction::Execute { fname: f, source: s, file: x } && f == fname
                        && s == source && x == file && res.0 is Executing,
                    Err(e) => res.1 matches NuAction::Report(rep) && field_report(
                        rep,
                        "\u{26a0}\u{fe0f} Invalid Interaction Options"@,
                        invalid_options_text(self.config.support_user_id),
                        self.config.red,
                        e.error_type@,
                        e.error_text@,
                    ),
                },
                (NuCommandState::Executing, NuEvent::Finished(o)) => res.1 matches NuAction::Reply(reply)
                    && reply_for(self.config, o, reply),
                (NuCommandState::Executing, NuEvent::NotSent(e)) => res.1 matches NuAction::Report(r) && field_report(
                    r,
                    "\u{26a0}\u{fe0f} Error Sending Pipeline"@,
                    not_sent_text(self.config.support_user_id),
                    self.config.red,
                    e.error_type@,
                    e.error_text@,
                ),
                _ => true,
            },
    {
        match (state, event) {
            (NuCommandState::Received, NuEvent::Begin { wasm_ready, data }) => {
                if let Some(report) = self.readiness_report(wasm_ready) {
                    return (NuCommandState::Done, NuAction::Report(report));
                }
                match self.extract_execute_params(&data) {
                    Ok(req) => (
                        NuCommandState::Downloading { fname: req.fname, source: req.source },
                        NuAction::Download { url: req.file_url },
                    ),
                    Err(e) => (
                        NuCommandState::Done,
                        NuAction::Report(
                            self.invalid_options_report(
                                "dyn core::error::Error".to_owned(),
                                e.message(),
                            ),
                        ),
                    ),
                }
            },
            (NuCommandState::Downloading { fname, source }, NuEvent::Downloaded(r)) => match r {
                Ok(file) => (NuCommandState::Executing, NuAction::Execute { fname, source, file }),
                Err(e) => (
                    NuCommandState::Done,
                    NuAction::Report(self.invalid_options_report(e.error_type, e.error_text)),
                ),
            },
            (NuCommandState::Executing, NuEvent::Finished(o)) => (
                NuCommandState::Done,
                NuAction::Reply(self.execution_reply(o)),
            ),
            (NuCommandState::Executing, NuEvent::NotSent(e)) => (
                NuCommandState::Done,
                NuAction::Report(self.not_sent_report(e.error_type, e.error_text)),
            ),
            (state, _) => (state, NuAction::Ignore),
        }
    }

    /// The reply once the pipeline has run: the rendered output with its
    /// running time, or a report on the failure.
    pub fn execution_reply(&self, outcome: ExecutionOutcome) -> (res: NuReply)
        requires
            outcome matches ExecutionOutcome::Finished { elapsed_nanos, .. } ==> elapsed_nanos < 1_000_000_000,
        ensures
            reply_for(self.config, outcome, res),
    {
        match outcome {
            ExecutionOutcome::Finished { elapsed_secs, elapsed_nanos } => {
                let d = format_duration(elapsed_secs, elapsed_nanos);
                NuReply::Image { filename: "result.png".to_owned(), content: took_content(d.as_str()) }
            },
            ExecutionOutcome::Failed { error_type, error_text } => NuReply::Report(
                Report {
                    title: "\u{26a0}\u{fe0f} Error During Nu Execution".to_owned(),
                    description: "An error while executing pipeline occurred.".to_owned(),
                    color: self.config.yellow,
                    field: Some((error_type, error_text)),
                },
            ),
            ExecutionOutcome::NotReceived { error_type, error_text } => {
                let mut d = "An error occurred while receiving the pipeline result.\nReport this to ".to_owned();
                push_mention(&mut d, self.config.support_user_id);
                d.append(".");
                assert(d@ =~= not_received_text(self.config.support_user_id));
                NuReply::Report(
                    Report {
                        title: "\u{26a0}\u{fe0f} Error Receiving Results".to_owned(),
                        description: d,
                        color: self.config.red,
                        field: Some((error_type, error_text)),
                    },
                )
            },
        }
    }
}

/// An error as the reply shows it: its type name and formatted text.
#[derive(Debug)]
pub struct ErrorInfo {
    pub error_type: String,
    pub error_text: String,
}

/// Where the handling of a `nu` command stands.
#[derive(Debug)]
pub enum NuCommandState {
    /// The command has just arrived.
    Received,
    /// The input file (if any) is being downloaded for this pipeline.
    Downloading { fname: String, source: String },
    /// The pipeline is running.
    Executing,
    /// The interaction has been answered.
    Done,
}

/// What happened since the last step.
#[derive(Debug)]
pub enum NuEvent {
    /// The command arrived with these options, while the runtime was (or
    /// was not) ready.
    Begin { wasm_ready: bool, data: CommandData },
    /// The download finished: the file (`None` when none was asked for),
    /// or the error.
    Downloaded(Result<Option<ExecuteParamsFile>, ErrorInfo>),
    /// The pipeline's execution ended.
    Finished(ExecutionOutcome),
    /// The pipeline could not be handed to the executor: this error.
    NotSent(ErrorInfo),
}

/// What to do next.
#[derive(Debug)]
pub enum NuAction {
    /// Update the response with this report; the command is answered.
    Report(Report),
    /// Download the file at this URL (nothing when `None`) and report back.
    Download { url: Option<String> },
    /// Run this pipeline and report back how it ended.
    Execute { fname: String, source: String, file: Option<ExecuteParamsFile> },
    /// Answer with this reply; the command is answered.
    Reply(NuReply),
    /// The event does not fit the state: nothing to do.
    Ignore,
}

/// Calls `String::from_utf8`; the contract states what its documentation
/// says: the bytes become text exactly when they are valid UTF-8, and the
/// error gives the bytes back.
#[verifier::external_body]
fn string_from_utf8(bytes: Vec<u8>) -> (res: Result<String, Vec<u8>>)
    ensures
        match res {
            Ok(s) => vstd::utf8::valid_utf8(bytes@) && s@ == vstd::utf8::decode_utf8(bytes@),
            Err(b) => !vstd::utf8::valid_utf8(bytes@) && b@ == bytes@,
        },
{
    match String::from_utf8(bytes) {
        Ok(s) => Ok(s),
        Err(e) => Err(e.into_bytes()),
    }
}

/// A downloaded input file: text when it is valid UTF-8, bytes otherwise.
pub fn classify_file(bytes: Vec<u8>) -> (res: ExecuteParamsFile)
    ensures
        match res {
            ExecuteParamsFile::Text(t) => vstd::utf8::valid_utf8(bytes@) && t@ == vstd::utf8::decode_utf8(bytes@),
            ExecuteParamsFile::Bytes(b) => !vstd::utf8::valid_utf8(bytes@) && b@ == bytes@,
        },
{
    match string_from_utf8(bytes) {
        Ok(text) => ExecuteParamsFile::Text(text),
        Err(b) => ExecuteParamsFile::Bytes(b),
    }
}

} // verus!
