use vstd::prelude::*;

use crate::events::{
    daemon_event, flag_field, is_rfc3339_utc_text, now_rfc3339, number_field, text_field,
};
use crate::text::{lemma_contains_occurrence, seq_contains, str_eq};
use crate::types::{payload_view, EventEnvelope, EventField, FieldValueView, VoiceSettings};

verus! {

/// The answer of a provider detection, as
/// (effective provider, whether it is available, detail).
pub open spec fn detection_view(r: (String, bool, String)) -> (Seq<char>, bool, Seq<char>) {
    (r.0@, r.1, r.2@)
}

/// The program whose presence decides whether the system speech provider can
/// run on `os`, or `None` where the system provider is unsupported.
pub open spec fn speech_program_for(os: Seq<char>) -> Option<Seq<char>> {
    if os == "linux"@ {
        Some("spd-say"@)
    } else if os == "macos"@ {
        Some("say"@)
    } else if os == "windows"@ {
        Some("powershell"@)
    } else {
        None
    }
}

/// What the system provider detection answers on `os` once it knows whether
/// that OS's speech program was `found`.
pub open spec fn system_detection(os: Seq<char>, found: bool) -> (Seq<char>, bool, Seq<char>) {
    if os == "linux"@ {
        if found {
            ("system"@, true, "linux provider: spd-say"@)
        } else {
            ("mock"@, false, "system requested, but spd-say not found; using mock"@)
        }
    } else if os == "macos"@ {
        if found {
            ("system"@, true, "macOS provider: say"@)
        } else {
            ("mock"@, false, "system requested, but macOS `say` not available; using mock"@)
        }
    } else if os == "windows"@ {
        if found {
            ("system"@, true, "windows provider: powershell SpeechSynthesizer"@)
        } else {
            ("mock"@, false, "system requested, but powershell not found; using mock"@)
        }
    } else {
        ("mock"@, false, "system provider unsupported on this OS; using mock"@)
    }
}

/// The answer when the mock provider is configured.
pub open spec fn mock_detection() -> (Seq<char>, bool, Seq<char>) {
    ("mock"@, true, "mock provider active"@)
}

/// Builds the answer of the system provider detection from what the probe found.
pub fn system_detection_result(os: &str, found: bool) -> (r: (String, bool, String))
    ensures
        detection_view(r) == system_detection(os@, found),
{
    if str_eq(os, "linux") {
        if found {
            ("system".to_string(), true, "linux provider: spd-say".to_string())
        } else {
            (
                "mock".to_string(),
                false,
                "system requested, but spd-say not found; using mock".to_string(),
            )
        }
    } else if str_eq(os, "macos") {
        if found {
            ("system".to_string(), true, "macOS provider: say".to_string())
        } else {
            (
                "mock".to_string(),
                false,
                "system requested, but macOS `say` not available; using mock".to_string(),
            )
        }
    } else if str_eq(os, "windows") {
        if found {
            (
                "system".to_string(),
                true,
                "windows provider: powershell SpeechSynthesizer".to_string(),
            )
        } else {
            (
                "mock".to_string(),
                false,
                "system requested, but powershell not found; using mock".to_string(),
            )
        }
    } else {
        (
            "mock".to_string(),
            false,
            "system provider unsupported on this OS; using mock".to_string(),
        )
    }
}

/// Detects whether the system speech provider can run on `os`, asking
/// `has_cmd(os, program)` once for that OS's speech program; an unsupported
/// OS is answered without asking.
pub fn detect_system_provider_for_os<F: Fn(&str, &str) -> bool>(os: &str, has_cmd: F) -> (r: (
    String,
    bool,
    String,
))
    requires
        forall|program: &str| #[trigger] has_cmd.requires((os, program)),
    ensures
        speech_program_for(os@) is None ==> detection_view(r) == system_detection(os@, false),
        speech_program_for(os@) is Some ==> exists|program: &str, found: bool|
            program@ == speech_program_for(os@)->0 && #[trigger] has_cmd.ensures(
                (os, program),
                found,
            ) && detection_view(r) == system_detection(os@, found),
{
    if str_eq(os, "linux") {
        let program = "spd-say";
        let found = has_cmd(os, program);
        system_detection_result(os, found)
    } else if str_eq(os, "macos") {
        let program = "say";
        let found = has_cmd(os, program);
        system_detection_result(os, found)
    } else if str_eq(os, "windows") {
        let program = "powershell";
        let found = has_cmd(os, program);
        system_detection_result(os, found)
    } else {
        system_detection_result(os, false)
    }
}

/// Detects the speech provider that will actually serve requests under
/// `settings`: the system provider only where it is configured, and then as
/// `detect_system_provider_for_os` finds it on `os`; the mock provider otherwise.
pub fn detect_effective_provider<F: Fn(&str, &str) -> bool>(
    settings: &VoiceSettings,
    os: &str,
    has_cmd: F,
) -> (r: (String, bool, String))
    requires
        forall|program: &str| #[trigger] has_cmd.requires((os, program)),
    ensures
        settings.provider@ != "system"@ ==> detection_view(r) == mock_detection(),
        settings.provider@ == "system"@ && speech_program_for(os@) is None ==> detection_view(r)
            == system_detection(os@, false),
        settings.provider@ == "system"@ && speech_program_for(os@) is Some ==> exists|
            program: &str,
            found: bool,
        |
            program@ == speech_program_for(os@)->0 && #[trigger] has_cmd.ensures(
                (os, program),
                found,
            ) && detection_view(r) == system_detection(os@, found),
{
    if str_eq(settings.provider.as_str(), "system") {
        detect_system_provider_for_os(os, has_cmd)
    } else {
        ("mock".to_string(), true, "mock provider active".to_string())
    }
}

/// How an attempt to run an outside program ended: it ran and exited with
/// success, it ran and exited otherwise, or it could not be started.
#[derive(Debug, Clone, Copy)]
pub enum ExecOutcome {
    Success,
    Failure,
    LaunchError,
}

/// A program to run, with its arguments.
#[derive(Debug, Clone)]
pub struct CommandLine {
    pub program: String,
    pub args: Vec<String>,
}

impl View for CommandLine {
    type V = (Seq<char>, Seq<Seq<char>>);

    open spec fn view(&self) -> (Seq<char>, Seq<Seq<char>>) {
        (self.program@, self.args@.map_values(|a: String| a@))
    }
}

/// A command's outcome as reported to the caller, by views.
pub open spec fn unit_result_view(r: Result<(), String>) -> Result<(), Seq<char>> {
    match r {
        Ok(()) => Ok(()),
        Err(e) => Err(e@),
    }
}

/// The report of an attempt to speak with `spd-say` on Linux.
pub open spec fn linux_result(o: ExecOutcome) -> Result<(), Seq<char>> {
    match o {
        ExecOutcome::Success => Ok(()),
        ExecOutcome::Failure => Err("linux_spd_say_failed"@),
        ExecOutcome::LaunchError => Err("linux_spd_say_missing"@),
    }
}

/// The report of an attempt to speak with `say` on macOS.
pub open spec fn macos_result(o: ExecOutcome) -> Result<(), Seq<char>> {
    match o {
        ExecOutcome::Success => Ok(()),
        ExecOutcome::Failure => Err("macos_say_failed"@),
        ExecOutcome::LaunchError => Err("macos_say_missing"@),
    }
}

/// The report of an attempt to speak with PowerShell on Windows.
pub open spec fn windows_result(o: ExecOutcome) -> Result<(), Seq<char>> {
    match o {
        ExecOutcome::Success => Ok(()),
        ExecOutcome::Failure => Err("windows_sapi_failed"@),
        ExecOutcome::LaunchError => Err("windows_powershell_missing"@),
    }
}

/// Reports the outcome of `spd-say`.
pub fn linux_outcome_result(o: ExecOutcome) -> (r: Result<(), String>)
    ensures
        unit_result_view(r) == linux_result(o),
{
    match o {
        ExecOutcome::Success => Ok(()),
        ExecOutcome::Failure => Err("linux_spd_say_failed".to_string()),
        ExecOutcome::LaunchError => Err("linux_spd_say_missing".to_string()),
    }
}

/// Reports the outcome of `say`.
pub fn macos_outcome_result(o: ExecOutcome) -> (r: Result<(), String>)
    ensures
        unit_result_view(r) == macos_result(o),
{
    match o {
        ExecOutcome::Success => Ok(()),
        ExecOutcome::Failure => Err("macos_say_failed".to_string()),
        ExecOutcome::LaunchError => Err("macos_say_missing".to_string()),
    }
}

/// Reports the outcome of PowerShell speech.
pub fn windows_outcome_result(o: ExecOutcome) -> (r: Result<(), String>)
    ensures
        unit_result_view(r) == windows_result(o),
{
    match o {
        ExecOutcome::Success => Ok(()),
        ExecOutcome::Failure => Err("windows_sapi_failed".to_string()),
        ExecOutcome::LaunchError => Err("windows_powershell_missing".to_string()),
    }
}

/// How one character of a text is written inside a PowerShell single-quoted
/// string: a quote is doubled, any other character stands for itself.
pub open spec fn ps_escape_char(c: char) -> Seq<char> {
    if c == '\'' {
        seq!['\'', '\'']
    } else {
        seq![c]
    }
}

/// A text written as the body of a PowerShell single-quoted string.
pub open spec fn ps_escaped(s: Seq<char>) -> Seq<char>
    decreases s.len(),
{
    if s.len() == 0 {
        Seq::empty()
    } else {
        ps_escape_char(s[0]) + ps_escaped(s.skip(1))
    }
}

/// The text that PowerShell reads from the body of a single-quoted string:
/// two quotes in a row stand for one quote.
pub open spec fn ps_unescaped(t: Seq<char>) -> Seq<char>
    decreases t.len(),
{
    if t.len() == 0 {
        Seq::empty()
    } else if t.len() >= 2 && t[0] == '\'' && t[1] == '\'' {
        seq!['\''] + ps_unescaped(t.skip(2))
    } else {
        seq![t[0]] + ps_unescaped(t.skip(1))
    }
}

/// Doubles every single quote of `input`, so that it can stand inside a
/// PowerShell single-quoted string.
pub fn escape_ps(input: &str) -> (r: String)
    ensures
        r@ == ps_escaped(input@),
{
    let mut out = String::new();
    let ghost s = input@;
    assert(s.skip(0) =~= s);
    for c in it: input.chars()
        invariant
            s == input@,
            it.seq() == s,
            ps_escaped(s) == out@ + ps_escaped(s.skip(it.index())),
    {
        let ghost i = it.index();
        let ghost before = out@;
        assert(s.skip(i)[0] == c);
        assert(s.skip(i).skip(1) =~= s.skip(i + 1));
        if c == '\'' {
            out.push('\'');
            out.push('\'');
        } else {
            out.push(c);
        }
        assert(out@ =~= before + ps_escape_char(c));
        assert(before + ps_escaped(s.skip(i)) =~= out@ + ps_escaped(s.skip(i + 1)));
    }
    assert(s.skip(s.len() as int) =~= Seq::<char>::empty());
    out
}

/// Reading back an escaped text gives the text: PowerShell reads from the
/// single-quoted string exactly the characters that were escaped into it.
pub proof fn lemma_ps_escape_round_trip(s: Seq<char>)
    ensures
        ps_unescaped(ps_escaped(s)) == s,
    decreases s.len(),
{
    if s.len() > 0 {
        let rest = ps_escaped(s.skip(1));
        lemma_ps_escape_round_trip(s.skip(1));
        let t = ps_escaped(s);
        if s[0] == '\'' {
            assert(t.skip(2) =~= rest);
        } else {
            assert(t.skip(1) =~= rest);
        }
        assert(seq![s[0]] + s.skip(1) =~= s);
    }
}

/// The number of single quotes in `s`.
pub open spec fn quote_count(s: Seq<char>) -> nat
    decreases s.len(),
{
    if s.len() == 0 {
        0
    } else {
        (if s[0] == '\'' {
            1nat
        } else {
            0nat
        }) + quote_count(s.skip(1))
    }
}

/// Escaping adds one character for each single quote, and leaves a text
/// without single quotes unchanged.
pub proof fn lemma_ps_escape_length_and_identity(s: Seq<char>)
    ensures
        ps_escaped(s).len() == s.len() + quote_count(s),
        quote_count(s) == 0 ==> ps_escaped(s) == s,
    decreases s.len(),
{
    if s.len() > 0 {
        lemma_ps_escape_length_and_identity(s.skip(1));
        if quote_count(s) == 0 {
            assert(seq![s[0]] + s.skip(1) =~= s);
        }
    }
}

/// The single quotes of `t` come in adjacent pairs, read from the front.
pub open spec fn quotes_paired(t: Seq<char>) -> bool
    decreases t.len(),
{
    if t.len() == 0 {
        true
    } else if t[0] == '\'' {
        t.len() >= 2 && t[1] == '\'' && quotes_paired(t.skip(2))
    } else {
        quotes_paired(t.skip(1))
    }
}

/// `t[i..j]` is a run of single quotes that cannot be made longer.
pub open spec fn maximal_quote_run(t: Seq<char>, i: int, j: int) -> bool {
    &&& 0 <= i <= j <= t.len()
    &&& forall|k: int| i <= k < j ==> #[trigger] t[k] == '\''
    &&& (i == 0 || t[i - 1] != '\'')
    &&& (j == t.len() || t[j] != '\'')
}

proof fn lemma_escaped_quotes_paired(s: Seq<char>)
    ensures
        quotes_paired(ps_escaped(s)),
    decreases s.len(),
{
    if s.len() > 0 {
        lemma_escaped_quotes_paired(s.skip(1));
        let t = ps_escaped(s);
        if s[0] == '\'' {
            assert(t.skip(2) =~= ps_escaped(s.skip(1)));
        } else {
            assert(t.skip(1) =~= ps_escaped(s.skip(1)));
        }
    }
}

proof fn lemma_paired_runs_even(t: Seq<char>, i: int, j: int)
    requires
        quotes_paired(t),
        maximal_quote_run(t, i, j),
    ensures
        (j - i) % 2 == 0,
    decreases t.len(),
{
    if t.len() == 0 || i == j {
    } else if t[0] == '\'' {
        let u = t.skip(2);
        if i == 0 {
            assert(t[1] == '\'');
            assert(j >= 2);
            assert(maximal_quote_run(u, 0, j - 2)) by {
                assert forall|k: int| 0 <= k < j - 2 implies #[trigger] u[k] == '\'' by {
                    assert(t[k + 2] == '\'');
                }
            }
            lemma_paired_runs_even(u, 0, j - 2);
        } else {
            assert(i >= 3) by {
                assert(t[1] == '\'');
            }
            assert(maximal_quote_run(u, i - 2, j - 2)) by {
                assert forall|k: int| i - 2 <= k < j - 2 implies #[trigger] u[k] == '\'' by {
                    assert(t[k + 2] == '\'');
                }
                assert(u[i - 3] == t[i - 1]);
            }
            lemma_paired_runs_even(u, i - 2, j - 2);
        }
    } else {
        let u = t.skip(1);
        assert(i >= 1) by {
            assert(t[i] == '\'');
        }
        assert(maximal_quote_run(u, i - 1, j - 1)) by {
            assert forall|k: int| i - 1 <= k < j - 1 implies #[trigger] u[k] == '\'' by {
                assert(t[k + 1] == '\'');
            }
            if i - 1 > 0 {
                assert(u[i - 2] == t[i - 1]);
            }
        }
        lemma_paired_runs_even(u, i - 1, j - 1);
    }
}

/// Every run of single quotes in an escaped text has even length, so no
/// quote of it can end the PowerShell single-quoted string it stands in.
pub proof fn lemma_ps_escaped_quote_runs_even(s: Seq<char>, i: int, j: int)
    requires
        maximal_quote_run(ps_escaped(s), i, j),
    ensures
        (j - i) % 2 == 0,
{
    lemma_escaped_quotes_paired(s);
    lemma_paired_runs_even(ps_escaped(s), i, j);
}

/// The PowerShell script that speaks `text` with `voice`, both escaped.
pub open spec fn windows_script(voice: Seq<char>, text: Seq<char>) -> Seq<char> {
    "Add-Type -AssemblyName System.Speech; $s = New-Object System.Speech.Synthesis.SpeechSynthesizer; try {$s.SelectVoice('"@
        + ps_escaped(voice) + "')} catch {}; $s.Speak('"@ + ps_escaped(text) + "')"@
}

/// Builds the PowerShell script that speaks `text` with `voice`.
pub fn windows_speech_script(voice: &str, text: &str) -> (script: String)
    ensures
        script@ == windows_script(voice@, text@),
{
    let mut script = String::from_str(
        "Add-Type -AssemblyName System.Speech; $s = New-Object System.Speech.Synthesis.SpeechSynthesizer; try {$s.SelectVoice('",
    );
    let v = escape_ps(voice);
    script.append(v.as_str());
    script.append("')} catch {}; $s.Speak('");
    let t = escape_ps(text);
    script.append(t.as_str());
    script.append("')");
    script
}

/// Speaks `text` with `spd-say`, run by `exec`, and reports how it went.
pub fn run_linux_system_command_with<F: FnOnce(&str) -> ExecOutcome>(text: &str, exec: F) -> (r:
    Result<(), String>)
    requires
        exec.requires((text,)),
    ensures
        exists|o: ExecOutcome| #[trigger] exec.ensures((text,), o) && unit_result_view(r) == linux_result(o),
{
    let o = exec(text);
    linux_outcome_result(o)
}

/// Speaks `text` with `say` and `voice`, run by `exec`, and reports how it went.
pub fn run_macos_system_command_with<F: FnOnce(&str, &str) -> ExecOutcome>(
    text: &str,
    voice: &str,
    exec: F,
) -> (r: Result<(), String>)
    requires
        exec.requires((text, voice)),
    ensures
        exists|o: ExecOutcome| #[trigger] exec.ensures((text, voice), o) && unit_result_view(r) == macos_result(o),
{
    let o = exec(text, voice);
    macos_outcome_result(o)
}

/// Speaks `text` with `voice` through a PowerShell script handed to `exec`,
/// and reports how it went.
pub fn run_windows_system_command_with<F: FnOnce(String) -> ExecOutcome>(
    text: &str,
    voice: &str,
    exec: F,
) -> (r: Result<(), String>)
    requires
        forall|script: String| #[trigger] exec.requires((script,)),
    ensures
        exists|script: String, o: ExecOutcome|
            script@ == windows_script(voice@, text@) && #[trigger] exec.ensures((script,), o)
                && unit_result_view(r) == windows_result(o),
{
    let script = windows_speech_script(voice, text);
    let o = exec(script);
    windows_outcome_result(o)
}

/// The command line that speaks `text` on `os` with `voice`, or `None` where
/// the system provider is unsupported.
pub open spec fn speech_command_for(os: Seq<char>, text: Seq<char>, voice: Seq<char>) -> Option<
    (Seq<char>, Seq<Seq<char>>),
> {
    if os == "linux"@ {
        Some(("spd-say"@, seq![text]))
    } else if os == "macos"@ {
        Some(("say"@, seq!["-v"@, voice, text]))
    } else if os == "windows"@ {
        Some(
            (
                "powershell"@,
                seq![
                    "-NoProfile"@,
                    "-ExecutionPolicy"@,
                    "Bypass"@,
                    "-Command"@,
                    windows_script(voice, text),
                ],
            ),
        )
    } else {
        None
    }
}

/// How the outcome of the speech command on `os` is reported.
pub open spec fn speech_result_for(os: Seq<char>, o: ExecOutcome) -> Result<(), Seq<char>> {
    if os == "linux"@ {
        linux_result(o)
    } else if os == "macos"@ {
        macos_result(o)
    } else {
        windows_result(o)
    }
}

/// A command line from a program and its arguments.
fn command_line(program: &str, args: Vec<String>) -> (c: CommandLine)
    ensures
        c.program@ == program@,
        c.args@ == args@,
{
    CommandLine { program: program.to_string(), args }
}

/// Speaks `text` with `voice` through the system speech program of `os`, run
/// by `exec`, and reports how it went; an unsupported OS is reported without
/// running anything.
pub fn run_system_command_for_os<F: FnOnce(CommandLine) -> ExecOutcome>(
    os: &str,
    text: &str,
    voice: &str,
    exec: F,
) -> (r: Result<(), String>)
    requires
        forall|c: CommandLine| #[trigger] exec.requires((c,)),
    ensures
        speech_command_for(os@, text@, voice@) is None ==> unit_result_view(r) == Err::<(), Seq<char>>(
            "system_provider_unsupported_os"@,
        ),
        speech_command_for(os@, text@, voice@) is Some ==> exists|c: CommandLine, o: ExecOutcome|
            c@ == speech_command_for(os@, text@, voice@)->0 && #[trigger] exec.ensures((c,), o)
                && unit_result_view(r) == speech_result_for(os@, o),
{
    if str_eq(os, "linux") {
        let mut args: Vec<String> = Vec::new();
        args.push(text.to_string());
        let c = command_line("spd-say", args);
        assert(c@.1 =~= seq![text@]);
        let o = exec(c);
        linux_outcome_result(o)
    } else if str_eq(os, "macos") {
        let mut args: Vec<String> = Vec::new();
        args.push("-v".to_string());
        args.push(voice.to_string());
        args.push(text.to_string());
        let c = command_line("say", args);
        assert(c@.1 =~= seq!["-v"@, voice@, text@]);
        let o = exec(c);
        macos_outcome_result(o)
    } else if str_eq(os, "windows") {
        let mut args: Vec<String> = Vec::new();
        args.push("-NoProfile".to_string());
        args.push("-ExecutionPolicy".to_string());
        args.push("Bypass".to_string());
        args.push("-Command".to_string());
        args.push(windows_speech_script(voice, text));
        let c = command_line("powershell", args);
        assert(c@.1 =~= seq![
            "-NoProfile"@,
            "-ExecutionPolicy"@,
            "Bypass"@,
            "-Command"@,
            windows_script(voice@, text@),
        ]);
        let o = exec(c);
        windows_outcome_result(o)
    } else {
        Err("system_provider_unsupported_os".to_string())
    }
}

/// The command line that asks whether `cmd` can be found on `os`: `where` on
/// Windows, a POSIX shell's `command -v` elsewhere.
pub open spec fn probe_command_for(os: Seq<char>, cmd: Seq<char>) -> (Seq<char>, Seq<Seq<char>>) {
    if os == "windows"@ {
        ("where"@, seq![cmd])
    } else {
        ("sh"@, seq!["-lc"@, "command -v "@ + cmd + " >/dev/null 2>&1"@])
    }
}

/// Asks, through `run`, whether the program `cmd` can be found on `os`; it
/// can exactly when the probe ran and exited with success.
pub fn command_exists_for_os<F: FnOnce(CommandLine) -> ExecOutcome>(
    os: &str,
    cmd: &str,
    run: F,
) -> (found: bool)
    requires
        forall|c: CommandLine| #[trigger] run.requires((c,)),
    ensures
        exists|c: CommandLine, o: ExecOutcome|
            c@ == probe_command_for(os@, cmd@) && #[trigger] run.ensures((c,), o) && found == (
            o is Success),
{
    let c = if str_eq(os, "windows") {
        let mut args: Vec<String> = Vec::new();
        args.push(cmd.to_string());
        let c = command_line("where", args);
        assert(c@.1 =~= seq![cmd@]);
        c
    } else {
        let mut script = String::from_str("command -v ");
        script.append(cmd);
        script.append(" >/dev/null 2>&1");
        let mut args: Vec<String> = Vec::new();
        args.push("-lc".to_string());
        args.push(script);
        let c = command_line("sh", args);
        assert(c@.1 =~= seq!["-lc"@, "command -v "@ + cmd@ + " >/dev/null 2>&1"@]);
        c
    };
    let o = run(c);
    match o {
        ExecOutcome::Success => true,
        _ => false,
    }
}

/// How long, in milliseconds, the mock provider takes to speak a text of
/// `char_count` characters: 35 ms a character, at least 1200 and at most 9000.
pub open spec fn mock_duration_ms(char_count: int) -> int {
    let raw = char_count * 35;
    if raw < 1200 {
        1200
    } else if raw > 9000 {
        9000
    } else {
        raw
    }
}

/// How long the mock provider takes to speak `text`.
pub fn mock_speech_duration_ms(text: &str) -> (ms: u64)
    ensures
        ms == mock_duration_ms(text@.len() as int),
{
    let chars = text.unicode_len();
    if chars > 300 {
        9000
    } else {
        let raw: u64 = (chars as u64) * 35;
        if raw < 1200 {
            1200
        } else if raw > 9000 {
            9000
        } else {
            raw
        }
    }
}

/// The mock provider takes between 1.2 and 9 seconds, and never less time for
/// a longer text.
pub proof fn lemma_mock_duration_bounded_and_monotone(a: int, b: int)
    requires
        0 <= a <= b,
    ensures
        1200 <= mock_duration_ms(a) <= 9000,
        mock_duration_ms(a) <= mock_duration_ms(b),
{
}

/// The payload of the event that ends a mock speech.
pub open spec fn mock_stop_payload(request_id: Seq<char>, voice: Seq<char>, duration_ms: u64) -> Seq<
    (Seq<char>, FieldValueView),
> {
    seq![
        ("request_id"@, FieldValueView::Text(request_id)),
        ("reason"@, FieldValueView::Text("mock_complete"@)),
        ("provider"@, FieldValueView::Text("mock"@)),
        ("voice"@, FieldValueView::Text(voice)),
        ("duration_ms"@, FieldValueView::Number(duration_ms)),
    ]
}

/// The event that ends a mock speech, stamped with `at`.
pub fn mock_speech_stopped_event_at(
    request_id: String,
    voice: String,
    duration_ms: u64,
    at: String,
) -> (e: EventEnvelope)
    ensures
        e.event@ == "speech_stopped"@,
        e.at@ == at@,
        e.source@ == "core-daemon"@,
        payload_view(e.data@) == mock_stop_payload(request_id@, voice@, duration_ms),
{
    let ghost rid = request_id@;
    let ghost v = voice@;
    let mut data: Vec<EventField> = Vec::new();
    data.push(text_field("request_id", request_id));
    data.push(text_field("reason", "mock_complete".to_string()));
    data.push(text_field("provider", "mock".to_string()));
    data.push(text_field("voice", voice));
    data.push(number_field("duration_ms", duration_ms));
    let e = daemon_event("speech_stopped", at, data);
    assert(payload_view(e.data@) =~= mock_stop_payload(rid, v, duration_ms));
    e
}

/// The event that ends a mock speech, stamped with the current time.
pub fn mock_speech_stopped_event(request_id: String, voice: String, duration_ms: u64) -> (e:
    EventEnvelope)
    ensures
        is_rfc3339_utc_text(e.at@),
        e.event@ == "speech_stopped"@,
        e.source@ == "core-daemon"@,
        payload_view(e.data@) == mock_stop_payload(request_id@, voice@, duration_ms),
{
    mock_speech_stopped_event_at(request_id, voice, duration_ms, now_rfc3339())
}

/// The payload of the event that ends a system speech that ended with `result`.
pub open spec fn system_stop_payload(
    request_id: Seq<char>,
    voice: Seq<char>,
    result: Result<(), Seq<char>>,
) -> Seq<(Seq<char>, FieldValueView)> {
    let (reason, ok) = match result {
        Ok(()) => ("system_complete"@, true),
        Err(e) => (e, false),
    };
    seq![
        ("request_id"@, FieldValueView::Text(request_id)),
        ("reason"@, FieldValueView::Text(reason)),
        ("ok"@, FieldValueView::Flag(ok)),
        ("provider"@, FieldValueView::Text("system"@)),
        ("voice"@, FieldValueView::Text(voice)),
    ]
}

/// The event that ends a system speech that ended with `result`, stamped with `at`.
pub fn build_system_stop_event_at(
    request_id: String,
    voice: String,
    result: Result<(), String>,
    at: String,
) -> (e: EventEnvelope)
    ensures
        e.event@ == "speech_stopped"@,
        e.at@ == at@,
        e.source@ == "core-daemon"@,
        payload_view(e.data@) == system_stop_payload(request_id@, voice@, unit_result_view(result)),
{
    let ghost rid = request_id@;
    let ghost v = voice@;
    let ghost res = unit_result_view(result);
    let (reason, ok): (String, bool) = match result {
        Ok(()) => ("system_complete".to_string(), true),
        Err(err) => (err, false),
    };
    let mut data: Vec<EventField> = Vec::new();
    data.push(text_field("request_id", request_id));
    data.push(text_field("reason", reason));
    data.push(flag_field("ok", ok));
    data.push(text_field("provider", "system".to_string()));
    data.push(text_field("voice", voice));
    let e = daemon_event("speech_stopped", at, data);
    assert(payload_view(e.data@) =~= system_stop_payload(rid, v, res));
    e
}

/// The event that ends a system speech that ended with `result`, stamped with
/// the current time.
pub fn build_system_stop_event(request_id: String, voice: String, result: Result<(), String>) -> (e:
    EventEnvelope)
    ensures
        is_rfc3339_utc_text(e.at@),
        e.event@ == "speech_stopped"@,
        e.source@ == "core-daemon"@,
        payload_view(e.data@) == system_stop_payload(request_id@, voice@, unit_result_view(result)),
{
    build_system_stop_event_at(request_id, voice, result, now_rfc3339())
}

/// Provider detection names either the system or the mock provider, always
/// with a detail; the provider is available exactly when the system provider
/// was found, and an unsupported OS never gets the system provider.
pub proof fn lemma_system_detection_shape(os: Seq<char>, found: bool)
    ensures
        system_detection(os, found).0 == "system"@ || system_detection(os, found).0 == "mock"@,
        system_detection(os, found).1 <==> system_detection(os, found).0 == "system"@,
        system_detection(os, found).1 <==> (speech_program_for(os) is Some && found),
        system_detection(os, found).2.len() > 0,
{
    reveal_strlit("system");
    reveal_strlit("mock");
    reveal_strlit("linux provider: spd-say");
    reveal_strlit("system requested, but spd-say not found; using mock");
    reveal_strlit("macOS provider: say");
    reveal_strlit("system requested, but macOS `say` not available; using mock");
    reveal_strlit("windows provider: powershell SpeechSynthesizer");
    reveal_strlit("system requested, but powershell not found; using mock");
    reveal_strlit("system provider unsupported on this OS; using mock");
    assert("system"@[0] != "mock"@[0]);
}

/// The mock provider, when configured, is always available.
pub proof fn lemma_mock_detection_available()
    ensures
        mock_detection().0 == "mock"@,
        mock_detection().1,
        mock_detection().2.len() > 0,
{
    reveal_strlit("mock provider active");
}

/// A speech command is reported as done exactly when its program ran and
/// exited with success; every other outcome is reported as an error.
pub proof fn lemma_speech_ok_exactly_on_success(os: Seq<char>, o: ExecOutcome)
    ensures
        speech_result_for(os, o) is Ok <==> o is Success,
        linux_result(o) is Ok <==> o is Success,
        macos_result(o) is Ok <==> o is Success,
        windows_result(o) is Ok <==> o is Success,
{
}

/// On Windows a program is looked up with `where`; on every other OS the
/// probe runs the POSIX shell, asking `command -v` for the program; either
/// way the program's name is handed over whole.
pub proof fn lemma_probe_by_os(os: Seq<char>, cmd: Seq<char>)
    ensures
        os == "windows"@ ==> probe_command_for(os, cmd) == ("where"@, seq![cmd]),
        os != "windows"@ ==> probe_command_for(os, cmd).0 == "sh"@,
        os != "windows"@ ==> probe_command_for(os, cmd).1 == seq![
            "-lc"@,
            "command -v "@ + cmd + " >/dev/null 2>&1"@,
        ],
        seq_contains(probe_command_for(os, cmd).1.last(), cmd),
{
    if os == "windows"@ {
        lemma_contains_occurrence(Seq::empty(), cmd, Seq::empty());
        assert(Seq::<char>::empty() + cmd + Seq::<char>::empty() =~= cmd);
    } else {
        lemma_contains_occurrence("command -v "@, cmd, " >/dev/null 2>&1"@);
    }
}

/// The event that ends a system speech names the request and the voice it
/// was asked for, whatever the outcome; it is `ok` exactly when the speech
/// succeeded, and its reason is "system_complete" then, the error otherwise.
pub proof fn lemma_system_stop_payload_fields(
    request_id: Seq<char>,
    voice: Seq<char>,
    result: Result<(), Seq<char>>,
)
    ensures
        system_stop_payload(request_id, voice, result).len() == 5,
        system_stop_payload(request_id, voice, result)[0] == ("request_id"@, FieldValueView::Text(
            request_id,
        )),
        system_stop_payload(request_id, voice, result)[4] == ("voice"@, FieldValueView::Text(voice)),
        system_stop_payload(request_id, voice, result)[2] == ("ok"@, FieldValueView::Flag(
            result is Ok,
        )),
        system_stop_payload(request_id, voice, result)[3] == ("provider"@, FieldValueView::Text(
            "system"@,
        )),
        result is Ok ==> system_stop_payload(request_id, voice, result)[1] == ("reason"@,
            FieldValueView::Text("system_complete"@)),
        result matches Err(e) ==> system_stop_payload(request_id, voice, result)[1] == ("reason"@,
            FieldValueView::Text(e)),
{
}

/// The event that ends a mock speech names the request, the voice and how
/// long the speech took, with the reason "mock_complete" from the mock provider.
pub proof fn lemma_mock_stop_payload_fields(request_id: Seq<char>, voice: Seq<char>, duration_ms: u64)
    ensures
        mock_stop_payload(request_id, voice, duration_ms).len() == 5,
        mock_stop_payload(request_id, voice, duration_ms)[0] == ("request_id"@, FieldValueView::Text(
            request_id,
        )),
        mock_stop_payload(request_id, voice, duration_ms)[1] == ("reason"@, FieldValueView::Text(
            "mock_complete"@,
        )),
        mock_stop_payload(request_id, voice, duration_ms)[2] == ("provider"@, FieldValueView::Text(
            "mock"@,
        )),
        mock_stop_payload(request_id, voice, duration_ms)[3] == ("voice"@, FieldValueView::Text(voice)),
        mock_stop_payload(request_id, voice, duration_ms)[4] == ("duration_ms"@,
            FieldValueView::Number(duration_ms)),
{
}

/// Between the bounds, the mock speech takes exactly 35 ms a character.
pub proof fn lemma_mock_duration_linear_between_bounds(n: int)
    requires
        1200 <= n * 35 <= 9000,
    ensures
        mock_duration_ms(n) == n * 35,
{
}

/// The speech command hands the text over unchanged: as the only argument of
/// `spd-say` on Linux; after `-v` and the voice as the arguments of `say` on
/// macOS; and, on Windows, inside a PowerShell script that reads it back as
/// it was escaped. Other OSes have no command.
pub proof fn lemma_speech_command_carries_text(os: Seq<char>, text: Seq<char>, voice: Seq<char>)
    ensures
        os == "linux"@ ==> speech_command_for(os, text, voice) == Some(("spd-say"@, seq![text])),
        os == "macos"@ ==> speech_command_for(os, text, voice) == Some(
            ("say"@, seq!["-v"@, voice, text]),
        ),
        os == "windows"@ ==> (speech_command_for(os, text, voice) matches Some(c) && c.0
            == "powershell"@ && c.1.len() == 5 && c.1.last() == windows_script(voice, text)),
        ps_unescaped(ps_escaped(text)) == text,
        os != "linux"@ && os != "macos"@ && os != "windows"@ ==> speech_command_for(
            os,
            text,
            voice,
        ) is None,
{
    lemma_ps_escape_round_trip(text);
    reveal_strlit("linux");
    reveal_strlit("macos");
    reveal_strlit("windows");
    assert("macos"@[0] != "linux"@[0]);
    assert("windows"@[0] != "linux"@[0] && "windows"@[0] != "macos"@[0]);
}

/// Each speech program's outcome is reported the same way: success as done,
/// an exit with failure as the program's "failed" error, and a launch error
/// as its "missing" error.
pub proof fn lemma_speech_outcome_reports(o: ExecOutcome)
    ensures
        linux_result(o) == (match o {
            ExecOutcome::Success => Ok(()),
            ExecOutcome::Failure => Err("linux_spd_say_failed"@),
            ExecOutcome::LaunchError => Err("linux_spd_say_missing"@),
        }),
        macos_result(o) == (match o {
            ExecOutcome::Success => Ok(()),
            ExecOutcome::Failure => Err("macos_say_failed"@),
            ExecOutcome::LaunchError => Err("macos_say_missing"@),
        }),
        windows_result(o) == (match o {
            ExecOutcome::Success => Ok(()),
            ExecOutcome::Failure => Err("windows_sapi_failed"@),
            ExecOutcome::LaunchError => Err("windows_powershell_missing"@),
        }),
{
}

/// Each supported OS has its own speech program (`spd-say` on Linux, `say`
/// on macOS, PowerShell on Windows) and the detection's detail names that
/// program whether it was found or not.
pub proof fn lemma_detection_names_program(os: Seq<char>, found: bool)
    ensures
        os == "linux"@ ==> speech_program_for(os) == Some("spd-say"@),
        os == "macos"@ ==> speech_program_for(os) == Some("say"@),
        os == "windows"@ ==> speech_program_for(os) == Some("powershell"@),
        os != "linux"@ && os != "macos"@ && os != "windows"@ ==> speech_program_for(os) is None,
        speech_program_for(os) matches Some(p) ==> seq_contains(system_detection(os, found).2, p),
{
    reveal_strlit("linux");
    reveal_strlit("macos");
    reveal_strlit("windows");
    assert("macos"@[0] != "linux"@[0]);
    assert("windows"@[0] != "linux"@[0] && "windows"@[0] != "macos"@[0]);
    reveal_strlit("spd-say");
    reveal_strlit("say");
    reveal_strlit("powershell");
    reveal_strlit("linux provider: spd-say");
    reveal_strlit("system requested, but spd-say not found; using mock");
    reveal_strlit("macOS provider: say");
    reveal_strlit("system requested, but macOS `say` not available; using mock");
    reveal_strlit("windows provider: powershell SpeechSynthesizer");
    reveal_strlit("system requested, but powershell not found; using mock");
    let d = system_detection(os, found).2;
    if os == "linux"@ {
        let i: int = if found { 16 } else { 22 };
        assert(d.subrange(i, i + "spd-say"@.len()) =~= "spd-say"@);
    } else if os == "macos"@ {
        let i: int = if found { 16 } else { 29 };
        assert(d.subrange(i, i + "say"@.len()) =~= "say"@);
    } else if os == "windows"@ {
        let i: int = if found { 18 } else { 22 };
        assert(d.subrange(i, i + "powershell"@.len()) =~= "powershell"@);
    }
}

/// The Windows script selects the escaped voice and speaks the escaped text,
/// each inside its own single-quoted string.
pub proof fn lemma_windows_script_quotes_voice_and_text(voice: Seq<char>, text: Seq<char>)
    ensures
        seq_contains(windows_script(voice, text), "$s.SelectVoice('"@ + ps_escaped(voice) + "')"@),
        seq_contains(windows_script(voice, text), "$s.Speak('"@ + ps_escaped(text) + "')"@),
{
    let head = "Add-Type -AssemblyName System.Speech; $s = New-Object System.Speech.Synthesis.SpeechSynthesizer; try {$s.SelectVoice('"@;
    let mid = "')} catch {}; $s.Speak('"@;
    let pre = "Add-Type -AssemblyName System.Speech; $s = New-Object System.Speech.Synthesis.SpeechSynthesizer; try {"@;
    reveal_strlit("Add-Type -AssemblyName System.Speech; $s = New-Object System.Speech.Synthesis.SpeechSynthesizer; try {$s.SelectVoice('");
    reveal_strlit("Add-Type -AssemblyName System.Speech; $s = New-Object System.Speech.Synthesis.SpeechSynthesizer; try {");
    reveal_strlit("$s.SelectVoice('");
    reveal_strlit("')} catch {}; $s.Speak('");
    reveal_strlit("')");
    reveal_strlit("} catch {}; ");
    reveal_strlit("$s.Speak('");
    let ev = ps_escaped(voice);
    let et = ps_escaped(text);
    assert(head =~= pre + "$s.SelectVoice('"@);
    assert(mid =~= "')"@ + ("} catch {}; "@ + "$s.Speak('"@));
    let w = windows_script(voice, text);
    assert(w =~= pre + ("$s.SelectVoice('"@ + ev + "')"@) + ("} catch {}; "@ + "$s.Speak('"@ + et
        + "')"@));
    lemma_contains_occurrence(
        pre,
        "$s.SelectVoice('"@ + ev + "')"@,
        "} catch {}; "@ + "$s.Speak('"@ + et + "')"@,
    );
    assert(w =~= (pre + "$s.SelectVoice('"@ + ev + "')"@ + "} catch {}; "@) + ("$s.Speak('"@ + et
        + "')"@) + Seq::<char>::empty());
    lemma_contains_occurrence(
        pre + "$s.SelectVoice('"@ + ev + "')"@ + "} catch {}; "@,
        "$s.Speak('"@ + et + "')"@,
        Seq::<char>::empty(),
    );
}

} // verus!
