//! Choice of the per-OS playback program and the strings handed back.
//!
//! Given a resolved path, the dispatcher picks the external program and its
//! argument list for the build target, and phrases the acknowledgement or
//! the spawn diagnostic once the application reports how the spawn went.
//! The spawn itself is fire-and-forget and happens outside this crate.

use vstd::prelude::*;
use vstd::string::StringExecFns;

use crate::errors::SoundError;
use crate::platform::TargetOs;
use crate::quoting::spec_windows_script;
use crate::quoting::windows_player_script;
use crate::resolver::ResolvedSound;
use crate::text::lemma_concat_splits;

verus! {

/// A program name and ordered argument list, ready to be spawned detached.
#[derive(Debug)]
pub struct PlayerInvocation {
    /// The external program to launch.
    pub program: String,
    /// Its ordered argument list.
    pub args: Vec<String>,
}

/// Chooses the playback program and arguments for the target system:
/// `afplay` on macOS and `aplay` on Linux take the path as their only
/// argument; `powershell` on Windows runs the quoted `Media.SoundPlayer`
/// script; every other system fails with `UnsupportedPlatform`.
pub fn plan_invocation(os: TargetOs, sound: &ResolvedSound) -> (r: Result<
    PlayerInvocation,
    SoundError,
>)
    ensures
        r is Ok <==> os != TargetOs::Other,
        os == TargetOs::MacOs ==> (r matches Ok(p) && p.program@ == "afplay"@ && p.args@.len() == 1
            && p.args@[0]@ == sound@),
        os == TargetOs::Linux ==> (r matches Ok(p) && p.program@ == "aplay"@ && p.args@.len() == 1
            && p.args@[0]@ == sound@),
        os == TargetOs::Windows ==> (r matches Ok(p) && p.program@ == "powershell"@
            && p.args@.len() == 2 && p.args@[0]@ == "-c"@ && p.args@[1]@ == spec_windows_script(
            sound@,
        )),
        os == TargetOs::Other ==> (r matches Err(e) && e is UnsupportedPlatform),
{
    match os {
        TargetOs::MacOs => {
            let mut args: Vec<String> = Vec::new();
            args.push(sound.path().to_owned());
            Ok(PlayerInvocation { program: "afplay".to_owned(), args })
        },
        TargetOs::Linux => {
            let mut args: Vec<String> = Vec::new();
            args.push(sound.path().to_owned());
            Ok(PlayerInvocation { program: "aplay".to_owned(), args })
        },
        TargetOs::Windows => {
            let mut args: Vec<String> = Vec::new();
            args.push("-c".to_owned());
            args.push(windows_player_script(sound.path()));
            Ok(PlayerInvocation { program: "powershell".to_owned(), args })
        },
        TargetOs::Other => Err(SoundError::UnsupportedPlatform),
    }
}

/// The acknowledgement for a successfully started sound.
pub open spec fn spec_ack_message(filename: Seq<char>) -> Seq<char> {
    "Playing sound: "@ + filename
}

/// Returns `Playing sound: ` followed by the unaltered requested filename.
pub fn ack_message(filename: &str) -> (r: String)
    ensures
        r@ == spec_ack_message(filename@),
{
    let mut m: String = "Playing sound: ".to_owned();
    m.append(filename);
    m
}

/// The acknowledgement carries the requested filename unaltered: it is
/// exactly the fixed prefix `Playing sound: ` followed by the filename, so
/// the filename can be read back out of it.
pub proof fn lemma_ack_message_keeps_filename(filename: Seq<char>)
    ensures
        spec_ack_message(filename).len() == "Playing sound: "@.len() + filename.len(),
        spec_ack_message(filename).subrange(0, "Playing sound: "@.len() as int)
            == "Playing sound: "@,
        spec_ack_message(filename).subrange(
            "Playing sound: "@.len() as int,
            spec_ack_message(filename).len() as int,
        ) == filename,
{
    lemma_concat_splits("Playing sound: "@, filename);
}

/// Turns the spawn attempt's answer into the dispatcher's outcome: the
/// acknowledgement naming the requested file when the program started,
/// `SpawnFailed` naming the program and the system's reason when it did
/// not. Success is returned exactly when the spawn succeeded.
pub fn spawn_outcome(filename: &str, program: &str, spawn_error: Option<String>) -> (r: Result<
    String,
    SoundError,
>)
    ensures
        r is Ok <==> spawn_error is None,
        spawn_error is None ==> (r matches Ok(m) && m@ == spec_ack_message(filename@)),
        spawn_error matches Some(why) ==> (r matches Err(e)
            && e matches SoundError::SpawnFailed { program: prog, reason } && prog@ == program@
            && reason@ == why@),
{
    match spawn_error {
        None => Ok(ack_message(filename)),
        Some(why) => Err(SoundError::SpawnFailed { program: program.to_owned(), reason: why }),
    }
}

} // verus!
