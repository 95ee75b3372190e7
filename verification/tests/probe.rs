use big8k::adb::CommandOutput;
use big8k::probe::{
    probe_begin, probe_next, ProbeAction, ProbeEvent, ProbeStage, ProbeStep,
    normalize_script_newlines, parse_probe_output, probe_chmod_outcome, probe_dir_outcome,
    probe_failure, probe_local_script_name, probe_push_outcome, probe_remote_script,
    probe_run_outcome, probe_write_failure,
};
use big8k::results::AdbActionResult;

fn s(x: &str) -> String {
    x.to_string()
}

fn out(success: bool, stdout: &str, stderr: &str) -> CommandOutput {
    CommandOutput { success, stdout: stdout.as_bytes().to_vec(), stderr: stderr.as_bytes().to_vec() }
}

const PROBE: &str = "MODEL=rk3588\nPANEL_NAME= V8K \nVSIZE=3036,1952\nBPP=32\nMIPI_MODE=video\nLANES=4\nFB0=1\nVISMPWR=0\nPYTHON3=1\nCPU=12%\nMEM=40%\nTEMP=45.2\nNOISE=x\n";

#[test]
fn probe_output_fills_every_field() {
    let r = parse_probe_output(PROBE);
    assert!(r.success && r.error.is_none());
    assert_eq!(r.model.as_deref(), Some("rk3588"));
    assert_eq!(r.panel_name.as_deref(), Some("V8K"));
    assert_eq!(r.virtual_size.as_deref(), Some("3036,1952"));
    assert_eq!(r.bits_per_pixel.as_deref(), Some("32"));
    assert_eq!(r.mipi_mode.as_deref(), Some("video"));
    assert_eq!(r.mipi_lanes, Some(4));
    assert!(r.fb0_available && !r.vismpwr_available && r.python3_available);
    assert_eq!(r.cpu_usage.as_deref(), Some("12%"));
    assert_eq!(r.memory_usage.as_deref(), Some("40%"));
    assert_eq!(r.temperature_c.as_deref(), Some("45.2°C"));
}

#[test]
fn probe_lines_keep_earlier_values_when_blank() {
    let r = parse_probe_output("MODEL=a\nMODEL=  \nLANES=0\nLANES=+2\nLANES=x\n");
    assert_eq!(r.model.as_deref(), Some("a"));
    assert_eq!(r.mipi_lanes, Some(2));
    let r = parse_probe_output(" MODEL=indented\nFB0=1\nFB0=0 \nPYTHON3=1\n");
    assert!(r.model.is_none());
    assert!(!r.fb0_available);
    assert!(r.python3_available);
}

#[test]
fn empty_probe_output_is_a_failure() {
    let r = parse_probe_output("\n  \n");
    assert!(!r.success);
    assert_eq!(r.error.as_deref(), Some("设备探测脚本执行完成，但未返回有效信息：stdout 为空"));
    let r = parse_probe_output("  sh: not found\n");
    assert_eq!(r.error.as_deref(), Some("设备探测脚本执行完成，但未返回有效信息。原始输出: sh: not found"));
    let r = parse_probe_output("LANES=0\n");
    assert!(!r.success);
}

#[test]
fn probe_script_names_and_newlines() {
    assert_eq!(probe_remote_script(), "/dev/shm/probe_device_20260422_1918.sh");
    assert_eq!(probe_local_script_name(), "probe_device_20260422_1918.sh");
    assert_eq!(normalize_script_newlines("a\r\nb\rc\n"), "a\nb\nc\n");
    assert_eq!(normalize_script_newlines("\r\r\n"), "\n\n");
}

#[test]
fn probe_steps_report_their_failures() {
    assert!(probe_dir_outcome(Ok(out(true, "", ""))).is_none());
    assert_eq!(probe_dir_outcome(Ok(out(false, "", ""))).unwrap().error.as_deref(), Some("探测脚本临时目录不可用: /dev/shm"));
    assert_eq!(probe_write_failure("disk full").error.as_deref(), Some("写入本地探测脚本失败: disk full"));
    let push = AdbActionResult { success: false, output: s(""), error: None };
    assert_eq!(probe_push_outcome(Ok(push)).unwrap().error.as_deref(), Some("推送探测脚本失败"));
    assert_eq!(probe_chmod_outcome(Ok(out(false, "", " \n"))).unwrap().error.as_deref(), Some("设置探测脚本权限失败"));
    assert_eq!(probe_chmod_outcome(Ok(out(false, "", "denied\n"))).unwrap().error.as_deref(), Some("设置探测脚本权限失败: denied"));
    assert_eq!(probe_run_outcome(Ok(out(true, "MODEL=x\n", ""))).ok().unwrap(), "MODEL=x\n");
    assert_eq!(probe_run_outcome(Ok(out(false, " so ", ""))).err().unwrap().error.as_deref(), Some("ADB 设备探测失败: so"));
    assert_eq!(probe_run_outcome(Ok(out(false, "so", "se"))).err().unwrap().error.as_deref(), Some("ADB 设备探测失败: se"));
    assert_eq!(probe_run_outcome(Ok(out(false, "", ""))).err().unwrap().error.as_deref(), Some("ADB 设备探测失败"));
    let f = probe_failure(s("e"));
    assert!(!f.success && f.model.is_none() && f.mipi_lanes.is_none() && !f.fb0_available);
}

fn next_action(step: ProbeStep) -> (ProbeStage, ProbeAction) {
    match step {
        ProbeStep::Next(stage, action) => (stage, action),
        ProbeStep::Done(r) => panic!("probe ended early: {:?}", r.error),
    }
}

#[test]
fn probe_runs_its_steps_in_order() {
    let (st, a) = next_action(probe_begin());
    assert!(matches!(a, ProbeAction::CheckDir));
    let (st, a) = next_action(probe_next(st, ProbeEvent::Command(Ok(out(true, "", "")))));
    assert!(matches!(&a, ProbeAction::WriteScript { name } if name == "probe_device_20260422_1918.sh"));
    let (st, a) = next_action(probe_next(st, ProbeEvent::Written(Ok(()))));
    assert!(matches!(&a, ProbeAction::Push { remote } if remote == "/dev/shm/probe_device_20260422_1918.sh"));
    let pushed = AdbActionResult { success: true, output: s("1 file pushed"), error: None };
    let (st, a) = next_action(probe_next(st, ProbeEvent::Pushed(Ok(pushed))));
    assert!(matches!(&a, ProbeAction::Chmod { .. }));
    let (st, a) = next_action(probe_next(st, ProbeEvent::Command(Ok(out(true, "", "")))));
    assert!(matches!(&a, ProbeAction::Run { remote } if remote == "/dev/shm/probe_device_20260422_1918.sh"));
    match probe_next(st, ProbeEvent::Command(Ok(out(true, "MODEL=rk3588\nLANES=2\n", "")))) {
        ProbeStep::Done(r) => {
            assert!(r.success);
            assert_eq!(r.model.as_deref(), Some("rk3588"));
            assert_eq!(r.mipi_lanes, Some(2));
        }
        ProbeStep::Next(..) => panic!("probe did not end"),
    }
}

#[test]
fn probe_stops_at_the_first_failure() {
    let (st, _) = next_action(probe_begin());
    let (st, _) = next_action(probe_next(st, ProbeEvent::Command(Ok(out(true, "", "")))));
    match probe_next(st, ProbeEvent::Written(Err(s("disk full")))) {
        ProbeStep::Done(r) => assert_eq!(r.error.as_deref(), Some("写入本地探测脚本失败: disk full")),
        ProbeStep::Next(..) => panic!("went on after a failed write"),
    }
    let (st, _) = next_action(probe_begin());
    match probe_next(st, ProbeEvent::Command(Err(s("未检测到 ADB 设备")))) {
        ProbeStep::Done(r) => assert_eq!(r.error.as_deref(), Some("未检测到 ADB 设备")),
        ProbeStep::Next(..) => panic!("went on after a failed check"),
    }
}
