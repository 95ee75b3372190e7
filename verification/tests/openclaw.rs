use big8k::openclaw::{
    ensure_dir_command, fail_with, format_openclaw_error, generic_result_from_openclaw,
    map_transport_error, pattern_result_from_action, push_outcome, run_python_command,
    runtime_script_error, shell_outcome, shell_quote, OpenClawError, OpenClawResult,
};
use big8k::results::AdbActionResult;

fn s(x: &str) -> String {
    x.to_string()
}

#[test]
fn ok_and_fail_results() {
    let r: OpenClawResult<u32> = OpenClawResult::ok(7, s("done"));
    assert!(r.success && r.error.is_none() && r.warnings.is_empty() && r.next_suggestion.is_none());
    assert_eq!(r.data, Some(7));
    assert_eq!(r.summary, "done");

    let r: OpenClawResult<u32> = OpenClawResult::fail("adb_shell", "X", s("boom"), s("failed"));
    assert!(!r.success && r.data.is_none());
    let e = r.error.unwrap();
    assert_eq!((e.stage, e.code, e.message.as_str()), ("adb_shell", "X", "boom"));
}

#[test]
fn errors_are_formatted_with_stage_and_code() {
    assert_eq!(format_openclaw_error("adb_push", "ADB_PUSH_FAILED", "no space"), "[adb_push:ADB_PUSH_FAILED] no space");
    let r: OpenClawResult<()> = OpenClawResult::fail("s", "C", s("m"), s("sum"));
    let g = generic_result_from_openclaw(r);
    assert!(!g.success);
    assert_eq!(g.output, "sum");
    assert_eq!(g.error.as_deref(), Some("[s:C] m"));
    let p = pattern_result_from_action(OpenClawResult::ok((), s("shown")));
    assert!(p.success && p.error.is_none());
    assert_eq!(p.message, "shown");
}

#[test]
fn device_resolution_errors_change_stage() {
    let e = map_transport_error("adb_shell", "ADB_SHELL_ERROR", s("未检测到 ADB 设备"));
    assert_eq!(e.stage, "device_resolution");
    let e = map_transport_error("adb_shell", "ADB_SHELL_ERROR", s("x 获取 ADB 设备失败 y"));
    assert_eq!(e.stage, "device_resolution");
    let e = map_transport_error("adb_push", "ADB_PUSH_ERROR", s("timeout"));
    assert_eq!(e.stage, "adb_push");
    assert_eq!(e.code, "ADB_PUSH_ERROR");
    assert_eq!(e.message, "timeout");
}

#[test]
fn single_quotes_are_escaped() {
    assert_eq!(shell_quote("it's"), "'it'\\''s'");
    assert_eq!(shell_quote(""), "''");
    assert_eq!(shell_quote("a b"), "'a b'");
}

#[test]
fn shell_and_push_outcomes() {
    let ok = AdbActionResult { success: true, output: s("out"), error: None };
    assert_eq!(shell_outcome(Ok(ok)).ok().unwrap(), "out");
    let blank = AdbActionResult { success: false, output: s("  \n"), error: None };
    let e = shell_outcome(Ok(blank)).unwrap_err();
    assert_eq!((e.stage, e.code), ("adb_shell", "ADB_SHELL_FAILED"));
    assert_eq!(e.message, "ADB shell 执行失败");
    let texty = AdbActionResult { success: false, output: s("denied"), error: None };
    assert_eq!(push_outcome(Ok(texty)).unwrap_err().message, "denied");
    let e = push_outcome(Err(s("获取 ADB 设备失败"))).unwrap_err();
    assert_eq!((e.stage, e.code), ("device_resolution", "ADB_PUSH_ERROR"));
}

#[test]
fn remote_commands() {
    assert_eq!(ensure_dir_command("/vismm/fbshow"), "mkdir -p /vismm/fbshow");
    assert_eq!(run_python_command("/tmp/p.py", &vec![]), "python3 '/tmp/p.py'");
    assert_eq!(
        run_python_command("/tmp/p.py", &vec![s("red"), s("it's")]),
        "python3 '/tmp/p.py' 'red' 'it'\\''s'"
    );
}

#[test]
fn runtime_errors_keep_code_and_message() {
    let e = runtime_script_error(OpenClawError { stage: "adb_shell", code: "C", message: s("m") });
    assert_eq!((e.stage, e.code, e.message.as_str()), ("runtime_script", "C", "m"));
    let r: OpenClawResult<()> = fail_with(e, "summary");
    assert!(!r.success);
    assert_eq!(r.summary, "summary");
    assert_eq!(r.error.unwrap().stage, "runtime_script");
}

/// Reads a word made of single-quoted text and `\'` escapes, as the shell does.
fn read_word(t: &str) -> Option<String> {
    let cs: Vec<char> = t.chars().collect();
    let (mut out, mut i, mut quoted) = (String::new(), 0, false);
    while i < cs.len() {
        if quoted {
            if cs[i] == '\'' { quoted = false } else { out.push(cs[i]) }
            i += 1;
        } else if cs[i] == '\'' {
            quoted = true;
            i += 1;
        } else if cs[i] == '\\' && i + 1 < cs.len() && cs[i + 1] == '\'' {
            out.push('\'');
            i += 2;
        } else {
            return None;
        }
    }
    if quoted { None } else { Some(out) }
}

#[test]
fn quoted_arguments_read_back_as_the_text() {
    for text in ["", "plain", "it's", "''", "a b; rm -rf $HOME", "\\'", "中文 'x'"] {
        assert_eq!(read_word(&shell_quote(text)).as_deref(), Some(text));
    }
}
