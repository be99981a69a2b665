use sound_dispatch::dispatch::plan_invocation;
use sound_dispatch::dispatch::spawn_outcome;
use sound_dispatch::errors::SoundError;
use sound_dispatch::platform::TargetOs;
use sound_dispatch::quoting::double_backslashes;
use sound_dispatch::quoting::windows_player_script;
use sound_dispatch::resolver::ResolvedSound;
use sound_dispatch::resolver::resolution_outcome;

fn resolved(path: &str) -> ResolvedSound {
    resolution_outcome(path.to_string(), true)
        .ok()
        .expect("an existing file must resolve")
}

#[test]
fn macos_selects_afplay_with_bare_path() {
    let sound = resolved("/app/assets/sound.wav");
    let inv = plan_invocation(TargetOs::MacOs, &sound).unwrap();
    assert_eq!(inv.program, "afplay");
    assert_eq!(inv.args, vec!["/app/assets/sound.wav".to_string()]);
}

#[test]
fn linux_selects_aplay_with_bare_path() {
    let sound = resolved("/app/assets/sound.wav");
    let inv = plan_invocation(TargetOs::Linux, &sound).unwrap();
    assert_eq!(inv.program, "aplay");
    assert_eq!(inv.args, vec!["/app/assets/sound.wav".to_string()]);
}

#[test]
fn windows_selects_powershell_with_script() {
    let sound = resolved("C:\\a\\b.wav");
    let inv = plan_invocation(TargetOs::Windows, &sound).unwrap();
    assert_eq!(inv.program, "powershell");
    assert_eq!(inv.args.len(), 2);
    assert_eq!(inv.args[0], "-c");
    assert_eq!(
        inv.args[1],
        "(New-Object Media.SoundPlayer 'C:\\\\a\\\\b.wav').PlaySync()"
    );
}

#[test]
fn unsupported_platform_error_text() {
    let sound = resolved("/app/assets/sound.wav");
    let err = plan_invocation(TargetOs::Other, &sound).err().unwrap();
    assert!(matches!(err, SoundError::UnsupportedPlatform));
    assert_eq!(err.message(), "Sound playback not configured for this OS.");
}

#[test]
fn backslashes_are_each_doubled_once() {
    assert_eq!(double_backslashes("C:\\a\\b.wav"), "C:\\\\a\\\\b.wav");
}

#[test]
fn backslash_free_path_is_unchanged() {
    assert_eq!(double_backslashes("/app/assets/sound.wav"), "/app/assets/sound.wav");
    assert_eq!(double_backslashes(""), "");
}

#[test]
fn lone_backslash_becomes_two() {
    assert_eq!(double_backslashes("\\"), "\\\\");
}

#[test]
fn script_quotes_path_with_spaces() {
    let script = windows_player_script("C:\\Program Files\\app\\assets\\sound.wav");
    assert!(script.contains("'C:\\\\Program Files\\\\app\\\\assets\\\\sound.wav'"));
    assert_eq!(
        script,
        "(New-Object Media.SoundPlayer 'C:\\\\Program Files\\\\app\\\\assets\\\\sound.wav').PlaySync()"
    );
}

#[test]
fn successful_spawn_acknowledges_filename() {
    let outcome = spawn_outcome("sound.wav", "aplay", None);
    assert_eq!(outcome.ok().unwrap(), "Playing sound: sound.wav");
}

#[test]
fn failed_spawn_names_program_and_reason() {
    let outcome = spawn_outcome(
        "sound.wav",
        "aplay",
        Some("No such file or directory (os error 2)".to_string()),
    );
    let err = outcome.err().unwrap();
    let message = err.message();
    assert!(message.starts_with("Error executing sound command ("));
    assert_eq!(
        message,
        "Error executing sound command (aplay): No such file or directory (os error 2)"
    );
}

#[test]
fn two_spawns_in_a_row_both_acknowledge() {
    let first = spawn_outcome("sound.wav", "aplay", None);
    let second = spawn_outcome("sound.wav", "aplay", None);
    assert_eq!(first.ok().unwrap(), "Playing sound: sound.wav");
    assert_eq!(second.ok().unwrap(), "Playing sound: sound.wav");
}
