use big8k::adb::CommandOutput;
use big8k::deploy::{DeployAction, DeployStep};
use big8k::remote_files::{
    delete_remote_file, delete_remote_file_command, list_remote_files, list_remote_files_args,
    list_remote_files_failed, run_remote_script, run_remote_script_command,
    set_script_autorun_next, set_script_autorun_start, stop_remote_script,
    DeleteRemoteFileRequest, ListRemoteFilesRequest, RunRemoteScriptRequest,
    SetScriptAutorunRequest,
};
use big8k::results::AdbActionResult;

fn s(x: &str) -> String {
    x.to_string()
}

fn out(success: bool, stdout: &str, stderr: &str) -> CommandOutput {
    CommandOutput { success, stdout: stdout.as_bytes().to_vec(), stderr: stderr.as_bytes().to_vec() }
}

#[test]
fn remote_listing_trims_and_drops_blank_lines() {
    let req = ListRemoteFilesRequest { path: s("/vismm/fbshow") };
    assert_eq!(list_remote_files_args("dev", &req), vec![s("-s"), s("dev"), s("shell"), s("ls"), s("-1"), s("/vismm/fbshow")]);
    let r = list_remote_files(Ok(out(true, " a.py \n\n  \nb.bmp\r\n", "")));
    assert!(r.success && r.error.is_none());
    assert_eq!(r.files, vec![s("a.py"), s("b.bmp")]);
    let r = list_remote_files(Ok(out(false, "", "")));
    assert_eq!(r.error.as_deref(), Some("列出目录失败"));
    let r = list_remote_files(Ok(out(false, "", "ls: /x: No such file")));
    assert_eq!(r.error.as_deref(), Some("ls: /x: No such file"));
    let r = list_remote_files_failed(s("未检测到 ADB 设备"));
    assert!(!r.success && r.files.is_empty());
}

#[test]
fn scripts_are_started_and_stopped() {
    let req = RunRemoteScriptRequest { script_path: s("/vismm/a b.py"), script_args: Some(s("  --x 1 ")) };
    assert_eq!(run_remote_script_command(&req), "python3 '/vismm/a b.py' --x 1");
    let bare = RunRemoteScriptRequest { script_path: s("/vismm/a.py"), script_args: Some(s("  ")) };
    assert_eq!(run_remote_script_command(&bare), "python3 '/vismm/a.py'");
    let r = run_remote_script(&req, Ok(()));
    assert_eq!(r.output, "脚本已后台启动: /vismm/a b.py");
    assert_eq!(run_remote_script(&req, Err(s("spawn"))).error.as_deref(), Some("spawn"));
    let r = stop_remote_script(Ok(out(true, "", "")));
    assert_eq!(r.output, "已停止脚本执行");
    assert_eq!(stop_remote_script(Ok(out(false, "", ""))).error.as_deref(), Some("停止失败"));
}

#[test]
fn remote_files_are_deleted() {
    let req = DeleteRemoteFileRequest { file_path: s(" /tmp/it's.bmp ") };
    assert_eq!(delete_remote_file_command(&req).ok().unwrap(), "rm -f '/tmp/it'\\''s.bmp'");
    let blank = DeleteRemoteFileRequest { file_path: s(" ") };
    assert_eq!(delete_remote_file_command(&blank).err().unwrap().error.as_deref(), Some("文件路径不能为空"));
    let r = delete_remote_file(&req, Ok(AdbActionResult { success: true, output: s("\n"), error: None }));
    assert_eq!(r.output, "已删除文件: /tmp/it's.bmp");
    let r = delete_remote_file(&req, Ok(AdbActionResult { success: false, output: s("o"), error: None }));
    assert_eq!((r.output.as_str(), r.error.as_deref()), ("o", Some("删除文件失败")));
}

#[test]
fn boot_script_is_copied_twice() {
    let req = SetScriptAutorunRequest { script_path: s(" /vismm/show.py ") };
    let (st, cmd) = match set_script_autorun_start(&req) {
        DeployStep::Run(st, DeployAction::Shell(c)) => (st, c),
        _ => panic!("not started"),
    };
    assert_eq!(cmd, "cp '/vismm/show.py' /vismm/fbshow/autorun.py && chmod 444 /vismm/fbshow/autorun.py");
    let (st, cmd) = match set_script_autorun_next(st, Ok(AdbActionResult { success: true, output: s(" copied \n"), error: None })) {
        DeployStep::Run(st, DeployAction::Shell(c)) => (st, c),
        _ => panic!("stopped after the first copy"),
    };
    assert_eq!(cmd, "cp '/vismm/show.py' /vismm/autorun.py && chmod 444 /vismm/autorun.py");
    let r = match set_script_autorun_next(st, Ok(AdbActionResult { success: true, output: s(""), error: None })) {
        DeployStep::Finish(r) => r,
        _ => panic!("did not finish"),
    };
    assert!(r.success);
    assert_eq!(r.output, "已设置 /vismm/fbshow/autorun.py <- /vismm/show.py\ncopied\n已设置 /vismm/autorun.py <- /vismm/show.py");

    let st = match set_script_autorun_start(&req) {
        DeployStep::Run(st, _) => st,
        _ => panic!("not started"),
    };
    let r = match set_script_autorun_next(st, Ok(AdbActionResult { success: false, output: s(""), error: None })) {
        DeployStep::Finish(r) => r,
        _ => panic!("went on after a failure"),
    };
    assert_eq!(
        r.error.as_deref(),
        Some("执行命令失败: cp '/vismm/show.py' /vismm/fbshow/autorun.py && chmod 444 /vismm/fbshow/autorun.py")
    );
    match set_script_autorun_start(&SetScriptAutorunRequest { script_path: s("") }) {
        DeployStep::Finish(r) => assert_eq!(r.error.as_deref(), Some("脚本路径不能为空")),
        _ => panic!("started without a script"),
    }
}
