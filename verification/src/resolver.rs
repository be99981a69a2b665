//! Resolution of a bundled sound file beneath the resource directory.
//!
//! The host runtime is asked for its resource directory and the resulting
//! candidate path is probed for existence; both answers arrive here as plain
//! values. The file check happens before anything is spawned, so a missing
//! file surfaces as a structured error close to its cause rather than as a
//! player's diagnostic.

use vstd::prelude::*;
use vstd::string::StringExecFns;

use crate::errors::SoundError;
use crate::platform::TargetOs;
use crate::platform::path_separator;
use crate::platform::spec_path_separator;
use crate::text::push_char;

verus! {

/// The filename played when the front-end does not name one.
pub fn default_sound_filename() -> (r: &'static str)
    ensures
        r@ == "sound.wav"@,
{
    "sound.wav"
}

/// The absolute path probed for a requested filename: the resource
/// directory, then `assets`, then the filename, joined with the target
/// system's separator.
pub open spec fn spec_asset_path(dir: Seq<char>, filename: Seq<char>, os: TargetOs) -> Seq<char> {
    dir + seq![spec_path_separator(os)] + "assets"@ + seq![spec_path_separator(os)] + filename
}

/// Builds the path to probe from the host's answer about its resource
/// directory; a host that could not answer becomes `ResourceDirUnavailable`
/// carrying the host's own reason.
pub fn candidate_path(dir_query: Result<String, String>, filename: &str, os: TargetOs) -> (r:
    Result<String, SoundError>)
    ensures
        dir_query matches Ok(dir) ==> (r matches Ok(p) && p@ == spec_asset_path(
            dir@,
            filename@,
            os,
        )),
        dir_query matches Err(why) ==> (r matches Err(e)
            && e matches SoundError::ResourceDirUnavailable { reason } && reason@ == why@),
{
    match dir_query {
        Ok(dir) => {
            let ghost dir_view = dir@;
            let sep = path_separator(os);
            let mut p = dir;
            push_char(&mut p, sep);
            p.append("assets");
            push_char(&mut p, sep);
            p.append(filename);
            proof {
                assert(p@ =~= spec_asset_path(dir_view, filename@, os));
            }
            Ok(p)
        },
        Err(why) => Err(SoundError::ResourceDirUnavailable { reason: why }),
    }
}

/// An absolute path whose existence was verified at resolution time.
/// Values arise only as the successful outcome of [`resolution_outcome`].
pub struct ResolvedSound {
    path: String,
}

impl View for ResolvedSound {
    type V = Seq<char>;

    closed spec fn view(&self) -> Seq<char> {
        self.path@
    }
}

impl ResolvedSound {
    /// The resolved absolute path.
    pub fn path(&self) -> (r: &str)
        ensures
            r@ == self@,
    {
        self.path.as_str()
    }
}

/// Turns the existence probe's answer into the resolution outcome: the
/// probed path itself when the file is there, `SoundFileMissing` carrying
/// that same path when it is not. Success is returned exactly when the
/// probe found the file.
pub fn resolution_outcome(path: String, exists: bool) -> (r: Result<ResolvedSound, SoundError>)
    ensures
        r is Ok <==> exists,
        exists ==> (r matches Ok(s) && s@ == path@),
        !exists ==> (r matches Err(e) && e matches SoundError::SoundFileMissing { path: missing }
            && missing@ == path@),
{
    if exists {
        Ok(ResolvedSound { path })
    } else {
        Err(SoundError::SoundFileMissing { path })
    }
}

} // verus!
