//! Shell detection tests: integration-script selection, shell-type
//! resolution including the custom-path form, and audio value helpers.

use voice_relay::audio::{AudioData, WaveformData};
use voice_relay::shell::{
    SHELL_INTEGRATION_BASH, SHELL_INTEGRATION_CMD, SHELL_INTEGRATION_PWSH,
    default_shell_program, get_shell_by_type, get_shell_integration_script,
    gitbash_candidate_paths, is_git_bash_path,
};

#[test]
fn integration_script_per_family() {
    assert_eq!(get_shell_integration_script("bash"), Some(SHELL_INTEGRATION_BASH));
    assert_eq!(get_shell_integration_script("gitbash"), Some(SHELL_INTEGRATION_BASH));
    assert_eq!(get_shell_integration_script("pwsh"), Some(SHELL_INTEGRATION_PWSH));
    assert_eq!(get_shell_integration_script("powershell"), Some(SHELL_INTEGRATION_PWSH));
    assert_eq!(get_shell_integration_script("cmd"), Some(SHELL_INTEGRATION_CMD));
    assert!(get_shell_integration_script("zsh").is_some());
    assert!(get_shell_integration_script("fish").is_some());
    assert_eq!(get_shell_integration_script("elvish"), None);
    assert_eq!(get_shell_integration_script(""), None);
}

#[test]
fn test_get_default_shell() {
    let unix_default = default_shell_program(false, Some("/usr/bin/zsh".to_string()));
    assert_eq!(unix_default, "/usr/bin/zsh");
    assert_eq!(default_shell_program(false, None), "/bin/bash");
    assert_eq!(default_shell_program(true, None), "cmd.exe");
}

#[test]
fn shell_by_type_resolution() {
    let cmd = get_shell_by_type(Some("cmd"), true, None, None, "cmd.exe".to_string());
    assert_eq!(cmd.program, "cmd.exe");
    assert!(cmd.args.is_empty());

    let ps = get_shell_by_type(
        Some("powershell"),
        true,
        Some("pwsh.exe".to_string()),
        None,
        "cmd.exe".to_string(),
    );
    assert_eq!(ps.program, "pwsh.exe");

    let ps_fallback = get_shell_by_type(Some("powershell"), true, None, None, "cmd.exe".to_string());
    assert_eq!(ps_fallback.program, "powershell.exe");

    let ps_unix = get_shell_by_type(Some("powershell"), false, None, None, "/bin/bash".to_string());
    assert_eq!(ps_unix.program, "/bin/bash");

    let gitbash = get_shell_by_type(
        Some("gitbash"),
        true,
        None,
        Some("C:\\Program Files\\Git\\bin\\bash.exe".to_string()),
        "cmd.exe".to_string(),
    );
    assert_eq!(gitbash.program, "C:\\Program Files\\Git\\bin\\bash.exe");
    assert_eq!(gitbash.args, vec!["--login".to_string()]);

    let gitbash_unix = get_shell_by_type(Some("gitbash"), false, None, None, "/bin/sh".to_string());
    assert_eq!(gitbash_unix.program, "bash");

    let custom = get_shell_by_type(Some("custom:/opt/my/shell"), false, None, None, "/bin/sh".to_string());
    assert_eq!(custom.program, "/opt/my/shell");
    // A bare "custom:" with no path falls back to the default.
    let bare = get_shell_by_type(Some("custom:"), false, None, None, "/bin/sh".to_string());
    assert_eq!(bare.program, "/bin/sh");

    let unknown = get_shell_by_type(Some("ksh"), false, None, None, "/bin/sh".to_string());
    assert_eq!(unknown.program, "/bin/sh");
    let none = get_shell_by_type(None, false, None, None, "/bin/sh".to_string());
    assert_eq!(none.program, "/bin/sh");
}

#[test]
fn gitbash_probing_helpers() {
    let paths = gitbash_candidate_paths("C:\\Users\\dev");
    assert_eq!(paths.len(), 3);
    assert_eq!(paths[0], "C:\\Program Files\\Git\\bin\\bash.exe");
    assert_eq!(paths[1], "C:\\Program Files (x86)\\Git\\bin\\bash.exe");
    assert_eq!(paths[2], "C:\\Users\\dev\\AppData\\Local\\Programs\\Git\\bin\\bash.exe");

    assert!(is_git_bash_path("C:\\Program Files\\Git\\bin\\bash.exe"));
    assert!(!is_git_bash_path("C:\\Windows\\System32\\bash.exe"));
}

#[test]
fn audio_data_durations() {
    let a = AudioData::new(vec![0i16; 16000], 16000, 1);
    assert_eq!(a.duration_ms, 1000);
    assert_eq!(a.sample_count(), 16000);
    assert!(!a.is_empty());

    let stereo = AudioData::new(vec![0i16; 16000], 16000, 2);
    assert_eq!(stereo.duration_ms, 500);

    let degenerate = AudioData::new(vec![0i16; 100], 0, 1);
    assert_eq!(degenerate.duration_ms, 0);

    let empty = AudioData::new(Vec::new(), 16000, 1);
    assert!(empty.is_empty());
    assert_eq!(empty.duration_ms, 0);
}

#[test]
fn waveform_empty_is_nine_silent_bars() {
    let w = WaveformData::empty();
    assert_eq!(w.levels, vec![0u32; 9]);
    assert_eq!(w.timestamp, 0);
    let w = WaveformData::new(vec![10, 20], 77);
    assert_eq!(w.levels, vec![10, 20]);
    assert_eq!(w.timestamp, 77);
}
