//! The worker's configuration file: from its bytes to its text, and the
//! requests to read and to write it.

use crate::manager::ThetaApp;
use crate::model::text_of;
use crate::state::{ConfigSource, ConfigWriteView};
use crate::text::line_of;
use vstd::prelude::*;
use vstd::string::*;
use vstd::utf8::{decode_utf8, valid_utf8};

verus! {

/// The text that encoding_rs's `WINDOWS_1252.decode` makes of `bytes`: the
/// first item of what it returns.
pub uninterp spec fn windows_1252_text(bytes: Seq<u8>) -> Seq<char>;

/// The decoder sizes its buffer from the input's length; up to this length
/// none of its size calculations leaves the range in which memory can be
/// asked for.
pub open spec fn fits_decoder(len: nat) -> bool {
    6 * len + 64 <= isize::MAX
}

/// The text of a configuration file with these bytes: read as UTF-8 where
/// they are well-formed UTF-8, and as the decoder for windows-1252 reads
/// them where they are not.
pub open spec fn config_text(bytes: Seq<u8>) -> Seq<char> {
    if valid_utf8(bytes) {
        decode_utf8(bytes)
    } else {
        windows_1252_text(bytes)
    }
}

/// Whether a file of `len` bytes is short enough for the decoder.
pub fn fits_decoder_len(len: usize) -> (fits: bool)
    ensures
        fits == fits_decoder(len as nat),
{
    len <= (isize::MAX as usize - 64) / 6
}

/// `String::from_utf8` of std, on a copy of `bytes`: the text that they
/// encode where they are well-formed UTF-8, nothing where they are not.
#[verifier::external_body]
fn utf8_text(bytes: &Vec<u8>) -> (text: Option<String>)
    ensures
        text is Some <==> valid_utf8(bytes@),
        text matches Some(text) ==> text@ == decode_utf8(bytes@),
{
    String::from_utf8(bytes.clone()).ok()
}

/// `Encoding::decode` of encoding_rs, on `WINDOWS_1252`. The text depends on
/// the bytes alone and is only named here, as `windows_1252_text`: the
/// decoder maps each byte by the table of windows-1252, unless the input
/// begins with a byte order mark, which it follows instead. It panics when
/// the size of its buffer cannot be computed; `fits_decoder` keeps such
/// inputs out.
#[verifier::external_body]
fn windows_1252(bytes: &Vec<u8>) -> (text: String)
    requires
        fits_decoder(bytes@.len()),
    ensures
        text@ == windows_1252_text(bytes@),
{
    let (text, _, _) = encoding_rs::WINDOWS_1252.decode(bytes);
    text.into_owned()
}

/// A text to be written to a file.
#[derive(Clone, Debug, PartialEq, Eq)]
pub struct ConfigWrite {
    pub path: String,
    pub contents: String,
}

impl View for ConfigWrite {
    type V = ConfigWriteView;

    open spec fn view(&self) -> ConfigWriteView {
        ConfigWriteView { path: self.path@, contents: self.contents@ }
    }
}

/// What the host is to write, if anything.
pub open spec fn write_of(write: Option<ConfigWrite>) -> Option<ConfigWriteView> {
    match write {
        Some(write) => Some(write@),
        None => None,
    }
}

/// Why a write did not succeed, if it did not.
pub open spec fn failure_of(outcome: Result<(), String>) -> Option<Seq<char>> {
    match outcome {
        Ok(_) => None,
        Err(reason) => Some(reason@),
    }
}

/// What a read brought: the file's text, or the reason why there is none.
pub open spec fn loaded_of(outcome: Result<String, String>) -> Result<Seq<char>, Seq<char>> {
    match outcome {
        Ok(text) => Ok(text@),
        Err(reason) => Err(reason@),
    }
}

impl ThetaApp {
    /// The text of the worker's configuration file, from its bytes as the
    /// host has read them.
    pub fn read_thetadata_config_file(bytes: Vec<u8>) -> (text: String)
        requires
            valid_utf8(bytes@) || fits_decoder(bytes@.len()),
        ensures
            text@ == config_text(bytes@),
    {
        match utf8_text(&bytes) {
            Some(text) => text,
            None => windows_1252(&bytes),
        }
    }

    /// The text of the worker's configuration file, from its bytes, whatever
    /// they are: nothing where they are neither well-formed UTF-8 nor few
    /// enough for the decoder.
    pub fn decode_config_file(bytes: Vec<u8>) -> (text: Option<String>)
        ensures
            text is Some <==> valid_utf8(bytes@) || fits_decoder(bytes@.len()),
            text matches Some(text) ==> text@ == config_text(bytes@),
    {
        if fits_decoder_len(bytes.len()) {
            Some(Self::read_thetadata_config_file(bytes))
        } else {
            utf8_text(&bytes)
        }
    }

    /// Asks for the configuration text to be saved. Where a file is chosen,
    /// the answer is what the host is to write to it; where none is, that
    /// is logged and there is nothing to write.
    pub fn save_current_config_file(&mut self) -> (write: Option<ConfigWrite>)
        ensures
            final(self)@ == old(self)@.save_current_config_file().0,
            write_of(write) == old(self)@.save_current_config_file().1,
    {
        if self.thetadata_config_path.as_str().is_empty() {
            self.log_text.append("No config file path set.\n");
            None
        } else {
            Some(
                ConfigWrite {
                    path: self.thetadata_config_path.clone(),
                    contents: self.thetadata_config_text.clone(),
                },
            )
        }
    }

    /// Takes note of how the write of the configuration text ended.
    pub fn config_file_written(&mut self, outcome: Result<(), String>)
        ensures
            final(self)@ == old(self)@.config_file_written(failure_of(outcome)),
    {
        match outcome {
            Ok(_) => {
                self.log_text.append("Config file saved.\n");
            },
            Err(reason) => {
                let line = line_of("Failed to write config file: ", reason.as_str());
                self.log_text.append(line.as_str());
            },
        }
    }

    /// The configuration file to read when the session begins, if one is
    /// chosen.
    pub fn config_file_at_startup(&self) -> (path: Option<String>)
        ensures
            text_of(path) == self@.config_file_at_startup(),
    {
        if self.thetadata_config_path.as_str().is_empty() {
            None
        } else {
            Some(self.thetadata_config_path.clone())
        }
    }

    /// Makes `path`, which the user has picked, the configuration file.
    pub fn config_file_picked(&mut self, path: String)
        ensures
            final(self)@ == old(self)@.config_file_picked(path@),
    {
        self.thetadata_config_path = path;
    }

    /// Makes the file that the worker announced the configuration file and
    /// names it for reading. Where none was announced, that is logged.
    pub fn config_file_from_terminal(&mut self) -> (path: Option<String>)
        ensures
            final(self)@ == old(self)@.config_file_from_terminal().0,
            text_of(path) == old(self)@.config_file_from_terminal().1,
    {
        match &self.last_detected_config_path {
            Some(detected) => {
                let path = detected.clone();
                self.thetadata_config_path = path.clone();
                Some(path)
            },
            None => {
                self.log_text.append("No config path detected yet. Launch the terminal first.\n");
                None
            },
        }
    }

    /// Names the chosen configuration file for reading it again. Where none
    /// is chosen, that is logged.
    pub fn config_file_to_refresh(&mut self) -> (path: Option<String>)
        ensures
            final(self)@ == old(self)@.config_file_to_refresh().0,
            text_of(path) == old(self)@.config_file_to_refresh().1,
    {
        if self.thetadata_config_path.as_str().is_empty() {
            self.log_text.append("No config path set to refresh.\n");
            None
        } else {
            Some(self.thetadata_config_path.clone())
        }
    }

    /// Takes over the text of the configuration file as it was read for
    /// `source`, or takes note that the file could not be read.
    pub fn config_file_loaded(&mut self, source: ConfigSource, outcome: Result<String, String>)
        ensures
            final(self)@ == old(self)@.config_file_loaded(source, loaded_of(outcome)),
    {
        match outcome {
            Ok(text) => {
                self.thetadata_config_text = text;
                match source {
                    ConfigSource::Startup => {},
                    ConfigSource::Browse => {
                        self.log_text.append("Config file loaded from browse.\n");
                    },
                    ConfigSource::Terminal => {
                        self.log_text.append("Config file loaded from terminal detection.\n");
                    },
                    ConfigSource::Refresh => {
                        self.log_text.append("Config file refreshed from disk.\n");
                    },
                }
            },
            Err(reason) => match source {
                ConfigSource::Startup => {
                    self.thetadata_config_text = String::new();
                },
                ConfigSource::Browse => {
                    self.log_text.append("Failed to load config from browse.\n");
                },
                ConfigSource::Terminal => {
                    let line = line_of("Failed to load config file: ", reason.as_str());
                    self.log_text.append(line.as_str());
                },
                ConfigSource::Refresh => {
                    let line = line_of("Failed to refresh config: ", reason.as_str());
                    self.log_text.append(line.as_str());
                },
            },
        }
    }

}

} // verus!
