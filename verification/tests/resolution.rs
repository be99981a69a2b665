use sound_dispatch::dispatch::plan_invocation;
use sound_dispatch::dispatch::spawn_outcome;
use sound_dispatch::errors::SoundError;
use sound_dispatch::platform::TargetOs;
use sound_dispatch::resolver::candidate_path;
use sound_dispatch::resolver::default_sound_filename;
use sound_dispatch::resolver::resolution_outcome;

#[test]
fn default_filename_is_sound_wav() {
    assert_eq!(default_sound_filename(), "sound.wav");
}

#[test]
fn candidate_path_joins_under_assets() {
    let path = candidate_path(Ok("/app/resources".to_string()), "sound.wav", TargetOs::Linux);
    assert_eq!(path.ok().unwrap(), "/app/resources/assets/sound.wav");
}

#[test]
fn candidate_path_uses_windows_separator() {
    let path = candidate_path(Ok("C:\\app".to_string()), "sound.wav", TargetOs::Windows);
    assert_eq!(path.ok().unwrap(), "C:\\app\\assets\\sound.wav");
}

#[test]
fn unavailable_resource_dir_carries_host_reason() {
    let outcome = candidate_path(
        Err("unknown base directory".to_string()),
        "sound.wav",
        TargetOs::Linux,
    );
    let err = outcome.err().unwrap();
    assert!(matches!(err, SoundError::ResourceDirUnavailable { .. }));
    assert_eq!(
        err.message(),
        "Error getting resource dir: unknown base directory"
    );
}

#[test]
fn existing_file_resolves_to_same_path() {
    let resolved = resolution_outcome("/app/resources/assets/sound.wav".to_string(), true);
    assert_eq!(resolved.ok().unwrap().path(), "/app/resources/assets/sound.wav");
}

#[test]
fn missing_file_error_names_attempted_path() {
    let resolved = resolution_outcome("/app/resources/assets/sound.wav".to_string(), false);
    let err = resolved.err().unwrap();
    assert!(matches!(err, SoundError::SoundFileMissing { .. }));
    let message = err.message();
    assert!(message.starts_with("Sound file not found: "));
    assert!(message.contains("/app/resources/assets/sound.wav"));
    assert_eq!(message, "Sound file not found: /app/resources/assets/sound.wav");
}

#[test]
fn default_request_plays_end_to_end() {
    let filename = default_sound_filename();
    let path = candidate_path(Ok("/app/resources".to_string()), filename, TargetOs::Linux)
        .ok()
        .unwrap();
    let sound = resolution_outcome(path, true).ok().unwrap();
    let invocation = plan_invocation(TargetOs::Linux, &sound).ok().unwrap();
    assert_eq!(invocation.program, "aplay");
    assert_eq!(invocation.args, vec!["/app/resources/assets/sound.wav".to_string()]);
    let ack = spawn_outcome(filename, &invocation.program, None);
    assert_eq!(ack.ok().unwrap(), "Playing sound: sound.wav");
}
