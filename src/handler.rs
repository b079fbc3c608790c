//! Decisions around a conversion: which copied text is converted, which
//! conversion handles it, and how the result is delivered.

use vstd::prelude::*;
use crate::config::{Config, OnCopyMode};

verus! {

/// Longest copied text, in characters, that is converted.
pub const MAX_CONVERTIBLE_CHARS: usize = 140;

/// A copied text that matches this is taken for a URL.
pub const URL_PATTERN: &'static str = "(http://|https://){1}[\\w\\.\\-/:\\#\\?=\\&;%\\~\\+]+";

/// OSC address of the chatbox input.
pub const CHATBOX_ADDRESS: &'static str = "/chatbox/input";

/// Retries after a failed clipboard write.
pub const MAX_CLIPBOARD_RETRIES: u32 = 5;

#[verifier::external_type_specification]
#[verifier::external_body]
pub struct ExRegex(regex::Regex);

#[verifier::external_type_specification]
#[verifier::external_body]
pub struct ExRegexError(regex::Error);

/// Relies on `regex::Regex::new`: compiles a pattern, or reports why not.
pub assume_specification[ regex::Regex::new ](re: &str) -> Result<regex::Regex, regex::Error>;

/// Relies on `regex::Regex::is_match`: whether the pattern matches somewhere
/// in the haystack.
pub assume_specification[ regex::Regex::is_match ](re: &regex::Regex, haystack: &str) -> bool;

/// The OSC encoding of a message at `addr` carrying the string `text` and
/// the booleans `send_immediately` and `notify`.
pub uninterp spec fn osc_message_bytes(
    addr: Seq<char>,
    text: Seq<char>,
    send_immediately: bool,
    notify: bool,
) -> Seq<u8>;

/// Relies on `rosc::encoder::encode`: the OSC bytes of a message; its source
/// never returns an error.
#[verifier::external_body]
fn encode_osc_message(addr: &str, text: &str, send_immediately: bool, notify: bool) -> (r: Option<
    Vec<u8>,
>)
    ensures
        r is Some,
        r->0@ == osc_message_bytes(addr@, text@, send_immediately, notify),
{
    let message = rosc::OscMessage {
        addr: addr.to_string(),
        args: vec![
            rosc::OscType::String(text.to_string()),
            rosc::OscType::Bool(send_immediately),
            rosc::OscType::Bool(notify),
        ],
    };
    rosc::encoder::encode(&rosc::OscPacket::Message(message)).ok()
}

/// Whether copied text is converted: it is not empty, not longer than
/// `MAX_CONVERTIBLE_CHARS`, and not a URL when URLs are skipped.
pub open spec fn convertible_text(contents: Seq<char>, skip_url: bool, has_url: bool) -> bool {
    0 < contents.len() <= MAX_CONVERTIBLE_CHARS && !(skip_url && has_url)
}

/// Decides on copied text, given whether it holds a URL.
pub fn should_convert(contents: &str, skip_url: bool, has_url: bool) -> (r: bool)
    ensures
        r == convertible_text(contents@, skip_url, has_url),
{
    let n = contents.unicode_len();
    n > 0 && n <= MAX_CONVERTIBLE_CHARS && !(skip_url && has_url)
}

/// Whether `contents` holds a URL (`URL_PATTERN`). A pattern that does not
/// compile detects nothing.
pub fn contains_url(contents: &str) -> bool {
    match regex::Regex::new(URL_PATTERN) {
        Ok(re) => re.is_match(contents),
        Err(_) => false,
    }
}

/// Decides on copied text under `config`; the URL test runs only when URLs
/// are skipped and the length allows a conversion.
pub fn conversion_wanted(contents: &str, config: &Config) -> (r: bool)
    ensures
        exists|has_url: bool| r == convertible_text(contents@, config.skip_url, has_url),
        !config.skip_url ==> r == convertible_text(contents@, false, false),
{
    let n = contents.unicode_len();
    if n > MAX_CONVERTIBLE_CHARS || n == 0 {
        assert(!convertible_text(contents@, config.skip_url, false));
        return false;
    }
    let has_url = config.skip_url && contains_url(contents);
    should_convert(contents, config.skip_url, has_url)
}

/// Which conversion a clipboard change goes to.
#[derive(Clone, Copy, Debug, PartialEq, Eq, Structural)]
pub enum ClipboardRoute {
    /// Not converted: the clipboard was filled outside the target application.
    Skip,
    /// The conversion session with candidate cycling.
    Azookey,
    /// The platform's reconversion service.
    Tsf,
    /// The prefix-driven rule conversion.
    Legacy,
}

/// Routes a clipboard change under `config`; `owned_elsewhere` tells that
/// another application owns the clipboard.
pub fn clipboard_route(config: &Config, owned_elsewhere: bool) -> (r: ClipboardRoute)
    ensures
        r == if config.skip_on_out_of_vrc && owned_elsewhere {
            ClipboardRoute::Skip
        } else if config.use_azookey_conversion {
            ClipboardRoute::Azookey
        } else if config.use_tsf_reconvert {
            ClipboardRoute::Tsf
        } else {
            ClipboardRoute::Legacy
        },
{
    if config.skip_on_out_of_vrc && owned_elsewhere {
        ClipboardRoute::Skip
    } else if config.use_azookey_conversion {
        ClipboardRoute::Azookey
    } else if config.use_tsf_reconvert {
        ClipboardRoute::Tsf
    } else {
        ClipboardRoute::Legacy
    }
}

/// How a conversion result is delivered.
pub enum Delivery {
    /// Written back to the clipboard.
    Clipboard,
    /// Sent as this OSC packet to the chatbox.
    Chatbox(Vec<u8>),
}

/// The delivery of `converted` under `mode`: the clipboard, or a chatbox
/// packet that is sent at once only in `SendDirectly` mode.
pub fn delivery_for(mode: OnCopyMode, converted: &str) -> (r: Delivery)
    ensures
        match mode {
            OnCopyMode::ReturnToClipboard => r is Clipboard,
            OnCopyMode::ReturnToChatbox => (r matches Delivery::Chatbox(b) && b@
                == osc_message_bytes(CHATBOX_ADDRESS@, converted@, false, true)),
            OnCopyMode::SendDirectly => (r matches Delivery::Chatbox(b) && b@ == osc_message_bytes(
                CHATBOX_ADDRESS@,
                converted@,
                true,
                true,
            )),
        },
{
    match mode {
        OnCopyMode::ReturnToClipboard => Delivery::Clipboard,
        OnCopyMode::ReturnToChatbox => Delivery::Chatbox(chatbox_packet(converted, false)),
        OnCopyMode::SendDirectly => Delivery::Chatbox(chatbox_packet(converted, true)),
    }
}

/// The chatbox packet for `text`.
fn chatbox_packet(text: &str, send_immediately: bool) -> (r: Vec<u8>)
    ensures
        r@ == osc_message_bytes(CHATBOX_ADDRESS@, text@, send_immediately, true),
{
    match encode_osc_message(CHATBOX_ADDRESS, text, send_immediately, true) {
        Some(bytes) => bytes,
        None => Vec::new(),
    }
}

/// Whether a failed clipboard write is tried again after `retries_done`
/// retries.
pub fn should_retry_clipboard(retries_done: u32) -> (r: bool)
    ensures
        r == (retries_done < MAX_CLIPBOARD_RETRIES),
{
    retries_done < MAX_CLIPBOARD_RETRIES
}

} // verus!
