//! What the node shows: the prompt that names a peer, and the line that
//! renders a received message.

use crate::identity::{peer_name, PeerIdentity};
use core::str::Utf8Error;
use vstd::prelude::*;
use vstd::string::StringExecFns;
use vstd::utf8::{decode_utf8, encode_utf8, valid_utf8};

verus! {

/// `core::str::Utf8Error`: why a byte string is not text.  It is never opened.
#[verifier::external_type_specification]
#[verifier::external_body]
pub struct ExUtf8Error(Utf8Error);

/// `core::str::from_utf8` succeeds exactly on the byte strings that are valid
/// UTF-8, and the text it then returns is made of the bytes it was given.
pub assume_specification<'a>[ core::str::from_utf8 ](bytes: &'a [u8]) -> (text: Result<
    &'a str,
    Utf8Error,
>)
    ensures
        text is Ok <==> valid_utf8(bytes@),
        text matches Ok(t) ==> encode_utf8(t@) == bytes@,
;

/// Formats `termion::style::Bold`.
///
/// Trusted: it writes the escape sequence that switches bold text on.
#[verifier::external_body]
fn style_bold() -> (code: String)
    ensures
        code@ == "\x1b[1m"@,
{
    format!("{}", termion::style::Bold)
}

/// Formats `termion::style::Reset`.
///
/// Trusted: it writes the escape sequence that resets every text style.
#[verifier::external_body]
fn style_reset() -> (code: String)
    ensures
        code@ == "\x1b[m"@,
{
    format!("{}", termion::style::Reset)
}

/// Formats `termion::color::Fg` of `termion::color::Cyan`.
///
/// Trusted: it writes the escape sequence that selects colour 6 of the
/// 256-colour palette as the foreground.
#[verifier::external_body]
fn foreground_cyan() -> (code: String)
    ensures
        code@ == "\x1b[38;5;6m"@,
{
    format!("{}", termion::color::Fg(termion::color::Cyan))
}

/// Formats `termion::color::Fg` of `termion::color::Magenta`.
///
/// Trusted: it writes the escape sequence that selects colour 5 of the
/// 256-colour palette as the foreground.
#[verifier::external_body]
fn foreground_magenta() -> (code: String)
    ensures
        code@ == "\x1b[38;5;5m"@,
{
    format!("{}", termion::color::Fg(termion::color::Magenta))
}

/// Formats `termion::color::Fg` of `termion::color::Reset`.
///
/// Trusted: it writes the escape sequence that restores the default
/// foreground colour.
#[verifier::external_body]
fn foreground_reset() -> (code: String)
    ensures
        code@ == "\x1b[39m"@,
{
    format!("{}", termion::color::Fg(termion::color::Reset))
}

/// The colours in which a prompt is drawn.
#[derive(Clone, Copy, Debug, PartialEq, Eq, Structural)]
pub enum PromptColor {
    /// The colour of the node's own prompt.
    Cyan,
    /// The colour of a prompt that names another peer.
    Magenta,
}

/// What is shown in place of a payload that is not valid text.
pub const UNDECODABLE: &'static str = "<message is not valid text>";

/// The escape sequence that selects `color` as the foreground.
pub open spec fn foreground_code(color: PromptColor) -> Seq<char> {
    match color {
        PromptColor::Cyan => "\x1b[38;5;6m"@,
        PromptColor::Magenta => "\x1b[38;5;5m"@,
    }
}

/// The prompt that names the peer whose base-58 text is `peer`: bold, in
/// `color`, the text between square brackets and followed by a colon; then
/// colour and style are reset, and one space follows.
pub open spec fn prompt_text(peer: Seq<char>, color: PromptColor) -> Seq<char> {
    "\x1b[1m"@ + foreground_code(color) + "["@ + peer + "]:"@ + "\x1b[39m"@ + "\x1b[m"@ + " "@
}

/// The text of a payload: what it decodes to where it is valid UTF-8, and a
/// fixed marker where it is not.
pub open spec fn payload_text(payload: Seq<u8>) -> Seq<char> {
    if valid_utf8(payload) {
        decode_utf8(payload)
    } else {
        UNDECODABLE@
    }
}

/// The line that shows a message from the peer whose base-58 text is `peer`:
/// a carriage return, the peer's prompt in magenta, and the payload's text.
pub open spec fn message_line(peer: Seq<char>, payload: Seq<u8>) -> Seq<char> {
    "\r"@ + prompt_text(peer, PromptColor::Magenta) + payload_text(payload)
}

/// The escape sequence that selects `color` as the foreground.
fn foreground(color: PromptColor) -> (code: String)
    ensures
        code@ == foreground_code(color),
{
    match color {
        PromptColor::Cyan => foreground_cyan(),
        PromptColor::Magenta => foreground_magenta(),
    }
}

/// Formats the prompt that names a peer, given the peer's base-58 text.
pub fn format_prompt_text(peer: &str, color: PromptColor) -> (prompt: String)
    ensures
        prompt@ == prompt_text(peer@, color),
{
    let mut prompt = style_bold();
    prompt.append(foreground(color).as_str());
    prompt.append("[");
    prompt.append(peer);
    prompt.append("]:");
    prompt.append(foreground_reset().as_str());
    prompt.append(style_reset().as_str());
    prompt.append(" ");
    prompt
}

/// Formats the prompt that names `peer`.
pub fn format_prompt(peer: &PeerIdentity, color: PromptColor) -> (prompt: String)
    ensures
        prompt@ == prompt_text(peer_name(peer@), color),
{
    let text = peer.to_base58();
    format_prompt_text(text.as_str(), color)
}

/// Reads a payload as text.  A payload that is not valid UTF-8 gives the
/// marker [`UNDECODABLE`]; it never makes the node fail.
pub fn decode_payload(payload: &[u8]) -> (text: String)
    ensures
        text@ == payload_text(payload@),
{
    match core::str::from_utf8(payload) {
        Ok(text) => {
            proof {
                vstd::utf8::encode_utf8_decode_utf8(text@);
            }
            String::from_str(text)
        },
        Err(_) => String::from_str(UNDECODABLE),
    }
}

/// Renders a message, given the base-58 text of the peer it came from.
pub fn render_message_text(source: &str, payload: &[u8]) -> (line: String)
    ensures
        line@ == message_line(source@, payload@),
{
    let mut line = String::from_str("\r");
    line.append(format_prompt_text(source, PromptColor::Magenta).as_str());
    line.append(decode_payload(payload).as_str());
    line
}

/// Renders a message that came from `source`.
pub fn render_message(source: &PeerIdentity, payload: &[u8]) -> (line: String)
    ensures
        line@ == message_line(peer_name(source@), payload@),
{
    let text = source.to_base58();
    render_message_text(text.as_str(), payload)
}

} // verus!
