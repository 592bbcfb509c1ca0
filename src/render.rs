use vstd::prelude::*;
use vstd::utf8::{decode_utf8, valid_utf8};

use crate::text::{first_line, spec_first_line};

verus! {

/// Name of the rendering engine's executable.
pub const ENGINE: &'static str = "typst";

/// The engine's sub-command that turns a source file into an image.
pub const ENGINE_MODE: &'static str = "compile";

/// Name of the source file inside a workspace.
pub const SOURCE_FILE: &'static str = "math.typ";

/// Name of the image the engine writes inside a workspace.
pub const OUTPUT_FILE: &'static str = "math.png";

/// Name under which a rendered image is attached to the reply.
pub const ATTACHMENT_NAME: &'static str = "rendered.png";

/// Page, margin, background and text directives put before the expression.
pub const DOCUMENT_HEAD: &'static str =
    "\n#set page(margin: 0.5cm, width: auto, height: auto, fill: none)\n#set text(fill: white, size: 0.7cm)\n$ ";

/// What closes the math block after the expression.
pub const DOCUMENT_TAIL: &'static str = " $\n        ";

/// Heading of the reply to an expression that the engine rejected.
pub const SYNTAX_ERROR_HEADING: &'static str = "**Invalid Typst Math Syntax**\n";

/// The only text a user sees of a failure on the bot's side.
pub const GENERIC_ERROR: &'static str = "An Error occured. Please contact the bot developer.";

/// The source document for `expression`: the expression, unescaped, inside a
/// fixed template. The engine's parser is the only check of what the user wrote.
pub open spec fn spec_document(expression: Seq<char>) -> Seq<char> {
    DOCUMENT_HEAD@ + expression + DOCUMENT_TAIL@
}

/// What a user is told of an engine failure: the first line of its error
/// stream, or nothing when that stream is not UTF-8.
pub open spec fn spec_diagnostic(stderr: Seq<u8>) -> Seq<char> {
    if valid_utf8(stderr) {
        spec_first_line(decode_utf8(stderr))
    } else {
        Seq::empty()
    }
}

/// How one render ended.
#[derive(Clone, Debug, PartialEq, Eq)]
pub enum RenderOutcome {
    /// The image, byte for byte as the engine wrote it.
    Artifact(Vec<u8>),
    /// The engine rejected the expression; the message is meant for the user.
    InputError(String),
    /// The bot's side failed; the detail is for the operator only.
    InfrastructureError(String),
}

pub enum OutcomeView {
    Artifact(Seq<u8>),
    InputError(Seq<char>),
    InfrastructureError(Seq<char>),
}

impl View for RenderOutcome {
    type V = OutcomeView;

    open spec fn view(&self) -> OutcomeView {
        match self {
            RenderOutcome::Artifact(b) => OutcomeView::Artifact(b@),
            RenderOutcome::InputError(m) => OutcomeView::InputError(m@),
            RenderOutcome::InfrastructureError(d) => OutcomeView::InfrastructureError(d@),
        }
    }
}

/// What is sent back to the channel a command came from.
#[derive(Clone, Debug, PartialEq, Eq)]
pub enum Reply {
    Attachment { name: String, bytes: Vec<u8> },
    Text(String),
}

pub enum ReplyView {
    Attachment { name: Seq<char>, bytes: Seq<u8> },
    Text(Seq<char>),
}

impl View for Reply {
    type V = ReplyView;

    open spec fn view(&self) -> ReplyView {
        match self {
            Reply::Attachment { name, bytes } => ReplyView::Attachment { name: name@, bytes: bytes@ },
            Reply::Text(t) => ReplyView::Text(t@),
        }
    }
}

/// The reply for an outcome: the image as an attachment, the engine's line
/// under a heading, or the generic message, whatever the failure's detail.
pub open spec fn spec_reply(outcome: OutcomeView) -> ReplyView {
    match outcome {
        OutcomeView::Artifact(b) => ReplyView::Attachment { name: ATTACHMENT_NAME@, bytes: b },
        OutcomeView::InputError(m) => ReplyView::Text(SYNTAX_ERROR_HEADING@ + m),
        OutcomeView::InfrastructureError(_) => ReplyView::Text(GENERIC_ERROR@),
    }
}

/// Relies on String::from_utf8: it succeeds exactly on valid UTF-8 and then
/// holds the decoded characters.
#[verifier::external_body]
fn utf8_text(bytes: Vec<u8>) -> (r: Option<String>)
    ensures
        r is Some <==> valid_utf8(bytes@),
        r matches Some(s) ==> s@ == decode_utf8(bytes@),
{
    String::from_utf8(bytes).ok()
}

/// The source document that the engine compiles for `expression`.
pub fn source_document(expression: &str) -> (r: String)
    ensures
        r@ == spec_document(expression@),
{
    let mut r = String::from_str(DOCUMENT_HEAD);
    r.append(expression);
    r.append(DOCUMENT_TAIL);
    r
}

/// The user-facing message for an engine run that exited with failure.
pub fn engine_diagnostic(stderr: Vec<u8>) -> (r: String)
    ensures
        r@ == spec_diagnostic(stderr@),
{
    match utf8_text(stderr) {
        Some(t) => first_line(t.as_str()),
        None => String::new(),
    }
}

/// The reply that tells the user how a render ended.
pub fn reply_for(outcome: RenderOutcome) -> (r: Reply)
    ensures
        r@ == spec_reply(outcome@),
{
    match outcome {
        RenderOutcome::Artifact(bytes) => Reply::Attachment { name: String::from_str(ATTACHMENT_NAME), bytes },
        RenderOutcome::InputError(m) => {
            let mut t = String::from_str(SYNTAX_ERROR_HEADING);
            t.append(m.as_str());
            Reply::Text(t)
        },
        RenderOutcome::InfrastructureError(_) => Reply::Text(String::from_str(GENERIC_ERROR)),
    }
}

} // verus!
