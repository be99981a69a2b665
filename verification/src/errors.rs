//! Error taxonomy of the dispatcher.
//!
//! Every failure is surfaced to the caller as a human-readable diagnostic
//! string; the enum below is the internal classification behind those
//! strings, and [`spec_message`] pins down the exact text each variant
//! renders to.

use vstd::prelude::*;
use vstd::string::StringExecFns;

use crate::text::lemma_concat_splits;

verus! {

/// Why a requested sound could not be played.
#[derive(Debug)]
pub enum SoundError {
    /// The host runtime could not report its resource directory; carries the
    /// host's own description of the failure.
    ResourceDirUnavailable { reason: String },
    /// The resolved path does not exist on disk; carries the attempted
    /// absolute path.
    SoundFileMissing { path: String },
    /// No playback program is configured for the target operating system.
    UnsupportedPlatform,
    /// The selected playback program could not be launched; carries the
    /// program name and the operating system's description of the failure.
    SpawnFailed { program: String, reason: String },
}

/// The diagnostic string that a given error surfaces to the front-end.
pub open spec fn spec_message(e: SoundError) -> Seq<char> {
    match e {
        SoundError::ResourceDirUnavailable { reason } => "Error getting resource dir: "@ + reason@,
        SoundError::SoundFileMissing { path } => "Sound file not found: "@ + path@,
        SoundError::UnsupportedPlatform => "Sound playback not configured for this OS."@,
        SoundError::SpawnFailed { program, reason } => "Error executing sound command ("@
            + program@ + "): "@ + reason@,
    }
}

impl SoundError {
    /// Renders the error as the diagnostic string handed to the caller.
    pub fn message(&self) -> (m: String)
        ensures
            m@ == spec_message(*self),
    {
        match self {
            SoundError::ResourceDirUnavailable { reason } => {
                let mut m: String = "Error getting resource dir: ".to_owned();
                m.append(reason.as_str());
                m
            },
            SoundError::SoundFileMissing { path } => {
                let mut m: String = "Sound file not found: ".to_owned();
                m.append(path.as_str());
                m
            },
            SoundError::UnsupportedPlatform => "Sound playback not configured for this OS.".to_owned(),
            SoundError::SpawnFailed { program, reason } => {
                let mut m: String = "Error executing sound command (".to_owned();
                m.append(program.as_str());
                m.append("): ");
                m.append(reason.as_str());
                m
            },
        }
    }
}

/// A missing-file diagnostic names the attempted absolute path: the message
/// is exactly the fixed prefix `Sound file not found: ` followed by the
/// attempted path, so the path can be read back out of it.
pub proof fn lemma_missing_file_message_names_path(e: SoundError)
    requires
        e is SoundFileMissing,
    ensures
        spec_message(e).len() == "Sound file not found: "@.len() + e->path@.len(),
        spec_message(e).subrange(0, "Sound file not found: "@.len() as int) == "Sound file not found: "@,
        spec_message(e).subrange(
            "Sound file not found: "@.len() as int,
            spec_message(e).len() as int,
        ) == e->path@,
{
    lemma_concat_splits("Sound file not found: "@, e->path@);
}

/// A spawn-failure diagnostic names the program it tried to launch: the
/// message opens with the fixed prefix `Error executing sound command (`,
/// immediately followed by the program name.
pub proof fn lemma_spawn_failed_message_names_program(e: SoundError)
    requires
        e is SpawnFailed,
    ensures
        spec_message(e).subrange(0, "Error executing sound command ("@.len() as int)
            == "Error executing sound command ("@,
        spec_message(e).subrange(
            "Error executing sound command ("@.len() as int,
            "Error executing sound command ("@.len() + e->SpawnFailed_program@.len() as int,
        ) == e->SpawnFailed_program@,
{
    let head = "Error executing sound command ("@ + e->SpawnFailed_program@;
    let tail = "): "@ + e->SpawnFailed_reason@;
    assert(spec_message(e) =~= head + tail);
    lemma_concat_splits(head, tail);
    lemma_concat_splits("Error executing sound command ("@, e->SpawnFailed_program@);
    assert(spec_message(e).subrange(0, "Error executing sound command ("@.len() as int)
        =~= head.subrange(0, "Error executing sound command ("@.len() as int));
    assert(spec_message(e).subrange(
        "Error executing sound command ("@.len() as int,
        "Error executing sound command ("@.len() + e->SpawnFailed_program@.len() as int,
    ) =~= head.subrange(
        "Error executing sound command ("@.len() as int,
        head.len() as int,
    ));
}

} // verus!
