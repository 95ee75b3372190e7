use big8k::mipi::{
    mipi_command_result, mipi_read_power_mode, mipi_read_power_mode_command, mipi_send_command,
    mipi_send_commands, mipi_sleep_in, mipi_sleep_out, mipi_software_reset,
};
use big8k::results::AdbActionResult;

fn s(x: &str) -> String {
    x.to_string()
}

#[test]
fn one_command_is_trimmed_and_prefixed() {
    let p = mipi_send_command("  05 00 01 28 \n").ok().unwrap();
    assert_eq!(p.command, "vismpwr 05 00 01 28");
    assert_eq!(p.success_message, "已发送 MIPI 指令: 05 00 01 28");
    let e = mipi_send_command(" \t").err().unwrap();
    assert!(!e.success);
    assert_eq!(e.error.as_deref(), Some("MIPI 指令不能为空"));
}

#[test]
fn command_lists_skip_blank_lines() {
    let p = mipi_send_commands(vec![s(" 05 00 01 11"), s(""), s("  "), s("05 00 01 29 ")]).ok().unwrap();
    assert_eq!(p.command, "vismpwr 05 00 01 11 && vismpwr 05 00 01 29");
    assert_eq!(p.success_message, "已发送全部 MIPI 指令，共 2 条");
    let e = mipi_send_commands(vec![s(" "), s("")]).err().unwrap();
    assert_eq!(e.error.as_deref(), Some("MIPI 指令列表不能为空"));
    assert!(mipi_send_commands(vec![]).is_err());
}

#[test]
fn fixed_sequences() {
    assert_eq!(mipi_software_reset().command, "vismpwr 05 00 01 01");
    assert_eq!(mipi_sleep_in().command, "vismpwr 05 00 01 28 && sleep 0.1 && vismpwr 05 00 01 10");
    assert_eq!(mipi_sleep_out().success_message, "已执行开屏序列: 11 -> 29");
    assert_eq!(mipi_read_power_mode_command(), "vismpwr -r 01 0A");
}

#[test]
fn command_results() {
    let ok = AdbActionResult { success: true, output: s("ignored"), error: None };
    let r = mipi_command_result(Ok(ok), "done");
    assert!(r.success);
    assert_eq!(r.output, "done");
    let bad = AdbActionResult { success: false, output: s("o"), error: None };
    let r = mipi_command_result(Ok(bad), "done");
    assert_eq!(r.error.as_deref(), Some("MIPI 指令执行失败"));
    assert_eq!(r.output, "o");
}

#[test]
fn power_mode_reading() {
    let r = mipi_read_power_mode(Ok(AdbActionResult { success: true, output: s(" 0x9c\n"), error: None }));
    assert_eq!(r.output, "读取状态 (0A) 成功: 0x9c");
    let r = mipi_read_power_mode(Ok(AdbActionResult { success: true, output: s("\n"), error: None }));
    assert_eq!(r.output, "已读取状态 (0A)，但设备未返回可见输出");
    let r = mipi_read_power_mode(Ok(AdbActionResult { success: false, output: s(""), error: None }));
    assert_eq!(r.error.as_deref(), Some("读取状态 (0A) 失败"));
    let r = mipi_read_power_mode(Err(s("x")));
    assert_eq!(r.error.as_deref(), Some("x"));
}
