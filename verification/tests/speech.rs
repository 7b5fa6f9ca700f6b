use core_daemon::speech::{
    build_system_stop_event, build_system_stop_event_at, command_exists_for_os,
    detect_effective_provider, detect_system_provider_for_os, escape_ps, mock_speech_duration_ms,
    mock_speech_stopped_event, mock_speech_stopped_event_at, run_linux_system_command_with,
    run_macos_system_command_with, run_system_command_for_os, run_windows_system_command_with,
    windows_speech_script, CommandLine, ExecOutcome,
};
use core_daemon::types::{EventEnvelope, FieldValue, VoiceSettings};

fn settings(provider: &str) -> VoiceSettings {
    VoiceSettings {
        provider: provider.to_string(),
        auto_speak: false,
        default_voice: "system-default".to_string(),
    }
}

/// A machine on which `sh`, `spd-say`, `say` and `powershell` are installed.
fn stub_runner(c: CommandLine) -> ExecOutcome {
    let installed = ["spd-say", "sh", "say", "powershell"];
    let found = if c.program == "where" {
        installed.iter().any(|p| c.args[0] == *p)
    } else {
        installed
            .iter()
            .any(|p| c.args[1] == format!("command -v {} >/dev/null 2>&1", p))
    };
    if found {
        ExecOutcome::Success
    } else {
        ExecOutcome::Failure
    }
}

fn field<'a>(e: &'a EventEnvelope, key: &str) -> Option<&'a FieldValue> {
    e.data.iter().find(|f| f.key == key).map(|f| &f.value)
}

fn text(e: &EventEnvelope, key: &str) -> String {
    match field(e, key) {
        Some(FieldValue::Text(s)) => s.clone(),
        other => panic!("field {} is not text: {:?}", key, other),
    }
}

#[test]
fn detect_mock_provider_when_configured_mock() {
    let (effective, available, detail) =
        detect_effective_provider(&settings("mock"), "linux", |_: &str, _: &str| true);
    assert_eq!(effective, "mock");
    assert!(available);
    assert!(detail.contains("mock"));
}

#[test]
fn detect_provider_linux_paths() {
    let yes = detect_system_provider_for_os("linux", |_: &str, _: &str| true);
    assert_eq!(yes.0, "system");
    let no = detect_system_provider_for_os("linux", |_: &str, _: &str| false);
    assert_eq!(no.0, "mock");
}

#[test]
fn detect_provider_macos_paths() {
    let yes = detect_system_provider_for_os("macos", |_: &str, _: &str| true);
    assert_eq!(yes.0, "system");
    let no = detect_system_provider_for_os("macos", |_: &str, _: &str| false);
    assert_eq!(no.0, "mock");
}

#[test]
fn detect_provider_windows_paths() {
    let yes = detect_system_provider_for_os("windows", |_: &str, _: &str| true);
    assert_eq!(yes.0, "system");
    let no = detect_system_provider_for_os("windows", |_: &str, _: &str| false);
    assert_eq!(no.0, "mock");
}

#[test]
fn detect_provider_unknown_os_path() {
    let unknown = detect_system_provider_for_os("haiku", |_: &str, _: &str| true);
    assert_eq!(unknown.0, "mock");
    assert!(!unknown.1);
}

#[test]
fn detection_asks_for_the_program_of_the_os() {
    let linux = detect_system_provider_for_os("linux", |os: &str, p: &str| os == "linux" && p == "spd-say");
    assert_eq!(linux, ("system".to_string(), true, "linux provider: spd-say".to_string()));
    let mac = detect_system_provider_for_os("macos", |_: &str, p: &str| p == "say");
    assert_eq!(mac, ("system".to_string(), true, "macOS provider: say".to_string()));
    let win = detect_system_provider_for_os("windows", |_: &str, p: &str| p == "powershell");
    assert_eq!(
        win,
        ("system".to_string(), true, "windows provider: powershell SpeechSynthesizer".to_string())
    );
    let no = detect_system_provider_for_os("macos", |_: &str, _: &str| false);
    assert_eq!(
        no,
        (
            "mock".to_string(),
            false,
            "system requested, but macOS `say` not available; using mock".to_string()
        )
    );
}

#[test]
fn linux_runner_maps_all_outcomes() {
    assert!(run_linux_system_command_with("x", |_t: &str| ExecOutcome::Success).is_ok());
    assert_eq!(
        run_linux_system_command_with("x", |_t: &str| ExecOutcome::Failure).unwrap_err(),
        "linux_spd_say_failed"
    );
    assert_eq!(
        run_linux_system_command_with("x", |_t: &str| ExecOutcome::LaunchError).unwrap_err(),
        "linux_spd_say_missing"
    );
}

#[test]
fn macos_runner_maps_all_outcomes() {
    assert!(run_macos_system_command_with("x", "v", |_t: &str, _v: &str| ExecOutcome::Success).is_ok());
    assert_eq!(
        run_macos_system_command_with("x", "v", |_t: &str, _v: &str| ExecOutcome::Failure).unwrap_err(),
        "macos_say_failed"
    );
    assert_eq!(
        run_macos_system_command_with("x", "v", |_t: &str, _v: &str| ExecOutcome::LaunchError)
            .unwrap_err(),
        "macos_say_missing"
    );
}

#[test]
fn windows_runner_maps_all_outcomes_and_escapes() {
    assert_eq!(escape_ps("a'b"), "a''b");
    assert!(run_windows_system_command_with("x", "v", |_s: String| ExecOutcome::Success).is_ok());
    assert_eq!(
        run_windows_system_command_with("x", "v", |_s: String| ExecOutcome::Failure).unwrap_err(),
        "windows_sapi_failed"
    );
    assert_eq!(
        run_windows_system_command_with("x", "v", |_s: String| ExecOutcome::LaunchError).unwrap_err(),
        "windows_powershell_missing"
    );
}

#[test]
fn windows_script_escapes_voice_and_text() {
    assert_eq!(
        windows_speech_script("Zira's", "it's 'ok'"),
        "Add-Type -AssemblyName System.Speech; $s = New-Object System.Speech.Synthesis.SpeechSynthesizer; try {$s.SelectVoice('Zira''s')} catch {}; $s.Speak('it''s ''ok''')"
    );
    let mut seen = String::new();
    let r = run_windows_system_command_with("o'k", "v", |s: String| {
        seen = s;
        ExecOutcome::Success
    });
    assert!(r.is_ok());
    assert!(seen.ends_with("$s.Speak('o''k')"));
}

#[test]
fn escape_ps_edge_cases() {
    assert_eq!(escape_ps(""), "");
    assert_eq!(escape_ps("'"), "''");
    assert_eq!(escape_ps("''"), "''''");
    assert_eq!(escape_ps("héllo"), "héllo");
    let input = "it's a 'test' of ''quotes";
    let out = escape_ps(input);
    assert_eq!(out.chars().count(), input.chars().count() + input.matches('\'').count());
    assert_eq!(out.replace("''", "'"), input);
    for run in out.split(|c: char| c != '\'') {
        assert_eq!(run.len() % 2, 0);
    }
}

#[test]
fn os_dispatch_for_system_command_covers_all_paths() {
    assert_eq!(
        run_system_command_for_os("unknown", "x", "v", |_c: CommandLine| ExecOutcome::Success)
            .unwrap_err(),
        "system_provider_unsupported_os"
    );

    let linux = run_system_command_for_os("linux", "x", "v", |_c: CommandLine| ExecOutcome::Success);
    assert!(linux.is_ok() || linux.is_err());

    let mac = run_system_command_for_os("macos", "x", "v", |_c: CommandLine| ExecOutcome::Success);
    assert!(mac.is_ok() || mac.is_err());

    let win = run_system_command_for_os("windows", "x", "v", |_c: CommandLine| ExecOutcome::Success);
    assert!(win.is_ok() || win.is_err());
}

#[test]
fn system_command_lines_per_os() {
    let mut seen: Option<CommandLine> = None;
    let r = run_system_command_for_os("linux", "hi", "v", |c: CommandLine| {
        seen = Some(c);
        ExecOutcome::Failure
    });
    assert_eq!(r.unwrap_err(), "linux_spd_say_failed");
    let c = seen.take().unwrap();
    assert_eq!(c.program, "spd-say");
    assert_eq!(c.args, vec!["hi".to_string()]);

    let r = run_system_command_for_os("macos", "hi", "Alex", |c: CommandLine| {
        seen = Some(c);
        ExecOutcome::LaunchError
    });
    assert_eq!(r.unwrap_err(), "macos_say_missing");
    let c = seen.take().unwrap();
    assert_eq!(c.program, "say");
    assert_eq!(c.args, vec!["-v".to_string(), "Alex".to_string(), "hi".to_string()]);

    let r = run_system_command_for_os("windows", "hi", "v", |c: CommandLine| {
        seen = Some(c);
        ExecOutcome::Success
    });
    assert!(r.is_ok());
    let c = seen.take().unwrap();
    assert_eq!(c.program, "powershell");
    assert_eq!(c.args[..4], ["-NoProfile", "-ExecutionPolicy", "Bypass", "-Command"]);
    assert_eq!(c.args[4], windows_speech_script("v", "hi"));
}

#[test]
fn command_exists_dispatch_covers_windows_and_shell_paths() {
    let win = command_exists_for_os("windows", "definitely-not-a-real-command-xyz", stub_runner);
    assert!(!win);

    let shell = command_exists_for_os("linux", "sh", stub_runner);
    assert!(shell);
}

#[test]
fn command_probe_lines() {
    let mut seen: Option<CommandLine> = None;
    let found = command_exists_for_os("windows", "powershell", |c: CommandLine| {
        seen = Some(c);
        ExecOutcome::Success
    });
    assert!(found);
    let c = seen.take().unwrap();
    assert_eq!(c.program, "where");
    assert_eq!(c.args, vec!["powershell".to_string()]);

    let found = command_exists_for_os("macos", "say", |c: CommandLine| {
        seen = Some(c);
        ExecOutcome::LaunchError
    });
    assert!(!found);
    let c = seen.take().unwrap();
    assert_eq!(c.program, "sh");
    assert_eq!(
        c.args,
        vec!["-lc".to_string(), "command -v say >/dev/null 2>&1".to_string()]
    );
}

#[test]
fn detect_effective_provider_system_path_executes() {
    let (effective, _available, detail) = detect_effective_provider(
        &settings("system"),
        "linux",
        |os: &str, cmd: &str| command_exists_for_os(os, cmd, stub_runner),
    );
    assert!(effective == "system" || effective == "mock");
    assert!(!detail.is_empty());
}

#[test]
fn mock_speech_emits_shape_and_duration_bounds() {
    let ms = mock_speech_duration_ms("a");
    assert_eq!(ms, 1200);
    let short = mock_speech_stopped_event("req-short".to_string(), "system-default".to_string(), ms);
    assert_eq!(short.event, "speech_stopped");
    assert!(matches!(field(&short, "duration_ms"), Some(FieldValue::Number(1200))));

    let ms = mock_speech_duration_ms(&"x".repeat(1000));
    assert_eq!(ms, 9000);
    let long = mock_speech_stopped_event("req-long".to_string(), "system-default".to_string(), ms);
    assert!(matches!(field(&long, "duration_ms"), Some(FieldValue::Number(9000))));
    assert_eq!(text(&long, "provider"), "mock");
}

#[test]
fn mock_duration_scales_between_bounds() {
    assert_eq!(mock_speech_duration_ms(""), 1200);
    assert_eq!(mock_speech_duration_ms(&"y".repeat(34)), 1200);
    assert_eq!(mock_speech_duration_ms(&"y".repeat(35)), 1225);
    assert_eq!(mock_speech_duration_ms(&"é".repeat(100)), 3500);
    assert_eq!(mock_speech_duration_ms(&"y".repeat(257)), 8995);
    assert_eq!(mock_speech_duration_ms(&"y".repeat(258)), 9000);
    let e = mock_speech_stopped_event_at("r".to_string(), "v".to_string(), 1500, "T".to_string());
    assert_eq!(e.at, "T");
    assert_eq!(e.source, "core-daemon");
    let keys: Vec<&str> = e.data.iter().map(|f| f.key.as_str()).collect();
    assert_eq!(keys, vec!["request_id", "reason", "provider", "voice", "duration_ms"]);
    assert_eq!(text(&e, "reason"), "mock_complete");
    assert_eq!(text(&e, "voice"), "v");
}

#[test]
fn system_speech_and_event_builder_cover_result_branches() {
    let result = run_system_command_for_os("linux", "hello system", "system-default", |_c: CommandLine| {
        ExecOutcome::Success
    });
    let evt = build_system_stop_event("req-2".to_string(), "system-default".to_string(), result);
    assert_eq!(evt.event, "speech_stopped");
    assert_eq!(text(&evt, "provider"), "system");

    let ok_evt = build_system_stop_event("id1".to_string(), "v".to_string(), Ok(()));
    assert!(matches!(field(&ok_evt, "ok"), Some(FieldValue::Flag(true))));
    assert_eq!(text(&ok_evt, "reason"), "system_complete");

    let err_evt = build_system_stop_event(
        "id2".to_string(),
        "v".to_string(),
        Err("custom_error".to_string()),
    );
    assert!(matches!(field(&err_evt, "ok"), Some(FieldValue::Flag(false))));
    assert_eq!(text(&err_evt, "reason"), "custom_error");
}

#[test]
fn system_stop_event_at_keeps_time_and_ids() {
    let e = build_system_stop_event_at(
        "rid".to_string(),
        "voice".to_string(),
        Err("linux_spd_say_missing".to_string()),
        "2026-01-01T00:00:00+00:00".to_string(),
    );
    assert_eq!(e.at, "2026-01-01T00:00:00+00:00");
    assert_eq!(text(&e, "request_id"), "rid");
    assert_eq!(text(&e, "voice"), "voice");
    assert_eq!(text(&e, "reason"), "linux_spd_say_missing");
}
