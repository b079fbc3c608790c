//! Settings and the user dictionary, as plain data.

use vstd::prelude::*;

verus! {

/// Where a conversion result goes.
#[derive(Clone, Copy, Debug, PartialEq, Eq, Structural)]
pub enum OnCopyMode {
    /// Back onto the clipboard.
    ReturnToClipboard,
    /// Into the chatbox, left for the user to send.
    ReturnToChatbox,
    /// Into the chatbox, sent at once.
    SendDirectly,
}

impl Default for OnCopyMode {
    fn default() -> (r: Self)
        ensures
            r == OnCopyMode::ReturnToChatbox,
    {
        OnCopyMode::ReturnToChatbox
    }
}

/// The application's settings.
#[derive(Clone, Debug)]
pub struct Config {
    pub prefix: String,
    pub split: String,
    pub command: String,
    pub ignore_prefix: bool,
    pub on_copy_mode: OnCopyMode,
    pub skip_url: bool,
    pub use_tsf_reconvert: bool,
    pub skip_on_out_of_vrc: bool,
    pub tsf_announce: bool,
    pub use_azookey_conversion: bool,
    pub azookey_announce: bool,
}

impl Default for Config {
    fn default() -> (r: Self)
        ensures
            r.prefix@ == seq![';'],
            r.split@ == seq!['/'],
            r.command@ == seq![';'],
            r.ignore_prefix,
            r.on_copy_mode == OnCopyMode::ReturnToChatbox,
            r.skip_url,
            r.use_tsf_reconvert,
            r.skip_on_out_of_vrc,
            !r.tsf_announce,
            !r.use_azookey_conversion,
            !r.azookey_announce,
    {
        proof {
            reveal_strlit(";");
            reveal_strlit("/");
        }
        Config {
            prefix: String::from_str(";"),
            split: String::from_str("/"),
            command: String::from_str(";"),
            ignore_prefix: true,
            on_copy_mode: OnCopyMode::ReturnToChatbox,
            skip_url: true,
            use_tsf_reconvert: true,
            skip_on_out_of_vrc: true,
            tsf_announce: false,
            use_azookey_conversion: false,
            azookey_announce: false,
        }
    }
}

impl Config {
    /// Applies the one-time switches of a freshly loaded configuration: a
    /// configuration that has not announced reconversion turns it on, and
    /// one that has not announced the conversion engine switches to it
    /// (turning reconversion off). Both are then marked as announced.
    pub fn apply_announcements(&mut self)
        ensures
            final(self).tsf_announce,
            final(self).azookey_announce,
            final(self).use_azookey_conversion == (old(self).use_azookey_conversion
                || !old(self).azookey_announce),
            final(self).use_tsf_reconvert == if !old(self).azookey_announce {
                false
            } else if !old(self).tsf_announce {
                true
            } else {
                old(self).use_tsf_reconvert
            },
            final(self).prefix == old(self).prefix,
            final(self).split == old(self).split,
            final(self).command == old(self).command,
            final(self).ignore_prefix == old(self).ignore_prefix,
            final(self).on_copy_mode == old(self).on_copy_mode,
            final(self).skip_url == old(self).skip_url,
            final(self).skip_on_out_of_vrc == old(self).skip_on_out_of_vrc,
    {
        if !self.tsf_announce {
            self.use_tsf_reconvert = true;
            self.tsf_announce = true;
        }
        if !self.azookey_announce {
            self.use_tsf_reconvert = false;
            self.use_azookey_conversion = true;
            self.azookey_announce = true;
        }
    }
}

/// How a dictionary entry rewrites its input.
#[derive(Clone, Copy, Debug, PartialEq, Eq, Structural)]
pub enum ConversionMethod {
    Replace,
    NoConversion,
    Converter(char),
}

impl Default for ConversionMethod {
    fn default() -> (r: Self)
        ensures
            r == ConversionMethod::NoConversion,
    {
        ConversionMethod::NoConversion
    }
}

/// One entry of the user dictionary.
#[derive(Clone, Debug)]
pub struct DictionaryEntry {
    pub input: String,
    pub method: ConversionMethod,
    pub output: Option<String>,
    pub use_regex: bool,
    pub priority: i32,
}

impl Default for DictionaryEntry {
    fn default() -> (r: Self)
        ensures
            r.input@.len() == 0,
            r.method == ConversionMethod::NoConversion,
            r.output is None,
            !r.use_regex,
            r.priority == 0,
    {
        DictionaryEntry {
            input: String::new(),
            method: ConversionMethod::NoConversion,
            output: None,
            use_regex: false,
            priority: 0,
        }
    }
}

/// The user dictionary.
#[derive(Clone, Debug)]
pub struct Dictionary {
    pub entries: Vec<DictionaryEntry>,
}

impl Default for Dictionary {
    fn default() -> (r: Self)
        ensures
            r.entries@.len() == 0,
    {
        Dictionary { entries: Vec::new() }
    }
}

} // verus!
