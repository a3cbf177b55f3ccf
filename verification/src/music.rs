//! The local music library: the files found while scanning, and which files
//! count as music.

use vstd::prelude::*;
use crate::text::{lowercased, to_lowercase};

verus! {

/// An audio file found in the music directory.
#[derive(Debug)]
pub struct MusicFile {
    /// The file name, shown in the list and matched by the search.
    pub name: String,
    /// The full path of the file, as the bytes the system gave for it.
    pub path: Vec<u8>,
}

/// The extensions (in lower case) of the files that the scan keeps.
pub open spec fn is_audio_extension_text(ext: Seq<char>) -> bool {
    ||| ext == "mp3"@
    ||| ext == "flac"@
    ||| ext == "ogg"@
    ||| ext == "wav"@
    ||| ext == "m4a"@
}

/// Whether a file with this extension is music: its lower-case form is one
/// of `mp3`, `flac`, `ogg`, `wav` and `m4a`.
pub fn is_audio_extension(ext: &str) -> (r: bool)
    ensures
        r == is_audio_extension_text(lowercased(ext@)),
{
    let lower = to_lowercase(ext);
    lower == String::from_str("mp3") || lower == String::from_str("flac") || lower
        == String::from_str("ogg") || lower == String::from_str("wav") || lower == String::from_str(
        "m4a",
    )
}

} // verus!
