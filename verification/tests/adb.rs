use big8k::adb::{
    adb_command_result, adb_disconnect_done, adb_select_device, adb_shell_result,
    build_netplan_yaml, parse_adb_devices, primary_interface, python_command, query_adb_devices,
    remote_script_outcome, remote_script_push_failure, resolve_device_id, static_ip_applied,
    static_ip_push_failure, CommandOutput,
};
use big8k::results::{AdbActionResult, AdbDevicesResult, ConnectionState, StaticIpRequest};

fn s(x: &str) -> String {
    x.to_string()
}

const LISTING: &str = "List of devices attached\n\
0123456789ABCDEF       device usb:1-1 product:big8k model:VIS_8K device:rk3588 transport_id:3\n\
\n\
192.168.1.20:5555 offline\n\
lonely\n";

fn listed() -> AdbDevicesResult {
    AdbDevicesResult { success: true, devices: parse_adb_devices(LISTING), error: None }
}

fn ok_action(output: &str) -> AdbActionResult {
    AdbActionResult { success: true, output: s(output), error: None }
}

#[test]
fn adb_listing_is_parsed_into_devices() {
    let ds = parse_adb_devices(LISTING);
    assert_eq!(ds.len(), 2);
    assert_eq!(ds[0].id, "0123456789ABCDEF");
    assert_eq!(ds[0].status, "device");
    assert_eq!(ds[0].product.as_deref(), Some("big8k"));
    assert_eq!(ds[0].model.as_deref(), Some("VIS_8K"));
    assert_eq!(ds[0].transport_id.as_deref(), Some("3"));
    assert_eq!(ds[1].id, "192.168.1.20:5555");
    assert_eq!(ds[1].status, "offline");
    assert!(ds[1].product.is_none() && ds[1].model.is_none() && ds[1].transport_id.is_none());
}

#[test]
fn adb_listing_keeps_the_last_repeated_tag() {
    let ds = parse_adb_devices("  abc device model:A model:B  \r\n");
    assert_eq!(ds.len(), 1);
    assert_eq!(ds[0].model.as_deref(), Some("B"));
    assert!(parse_adb_devices("").is_empty());
}

#[test]
fn device_query_reads_the_process_output() {
    let out = CommandOutput {
        success: true,
        stdout: LISTING.as_bytes().to_vec(),
        stderr: Vec::new(),
    };
    let r = query_adb_devices(Ok(out));
    assert!(r.success && r.error.is_none());
    assert_eq!(r.devices.len(), 2);

    let failed = CommandOutput { success: false, stdout: Vec::new(), stderr: vec![b'f', 0xFF] };
    let r = query_adb_devices(Ok(failed));
    assert!(!r.success && r.devices.is_empty());
    assert_eq!(r.error.as_deref(), Some("f\u{FFFD}"));

    let r = query_adb_devices(Err(s("adb not found")));
    assert!(!r.success);
    assert_eq!(r.error.as_deref(), Some("adb not found"));
}

#[test]
fn selected_device_is_used_while_listed() {
    assert_eq!(resolve_device_id(Some(s("192.168.1.20:5555")), listed()).unwrap(), "192.168.1.20:5555");
    assert_eq!(resolve_device_id(Some(s("gone")), listed()).unwrap(), "0123456789ABCDEF");
    assert_eq!(resolve_device_id(None, listed()).unwrap(), "0123456789ABCDEF");
    let empty = AdbDevicesResult { success: true, devices: Vec::new(), error: None };
    assert_eq!(resolve_device_id(None, empty).unwrap_err(), "未检测到 ADB 设备");
    let failed = AdbDevicesResult { success: false, devices: Vec::new(), error: None };
    assert_eq!(resolve_device_id(None, failed).unwrap_err(), "获取 ADB 设备失败");
}

#[test]
fn selecting_and_disconnecting_update_the_state() {
    let mut state = ConnectionState::default();
    let r = adb_select_device(s("missing"), listed(), &mut state);
    assert!(!r.success);
    assert_eq!(r.error.as_deref(), Some("设备不存在: missing"));
    assert!(state.selected_device_id.is_none());

    let r = adb_select_device(s("0123456789ABCDEF"), listed(), &mut state);
    assert!(r.success);
    assert_eq!(r.output, "已选择设备: 0123456789ABCDEF");
    assert_eq!(state.selected_device_id.as_deref(), Some("0123456789ABCDEF"));

    let failed = AdbActionResult { success: false, output: s(""), error: None };
    adb_disconnect_done(&failed, &mut state);
    assert_eq!(state.selected_device_id.as_deref(), Some("0123456789ABCDEF"));
    adb_disconnect_done(&ok_action("disconnected"), &mut state);
    assert!(state.selected_device_id.is_none());
}

#[test]
fn command_results_report_stderr_only_when_present() {
    let r = adb_command_result(Ok(CommandOutput {
        success: true,
        stdout: b"pushed".to_vec(),
        stderr: Vec::new(),
    }));
    assert!(r.success && r.error.is_none());
    assert_eq!(r.output, "pushed");

    let r = adb_command_result(Ok(CommandOutput {
        success: false,
        stdout: Vec::new(),
        stderr: b"no such file".to_vec(),
    }));
    assert!(!r.success);
    assert_eq!(r.error.as_deref(), Some("no such file"));

    let r = adb_shell_result(CommandOutput { success: false, stdout: b"x".to_vec(), stderr: Vec::new() });
    assert!(!r.success);
    assert_eq!(r.output, "x");
    assert_eq!(r.error.as_deref(), Some("ADB shell 执行失败"));
}

#[test]
fn primary_interface_skips_loopback_and_docker() {
    let ifconfig = "docker0: flags=4099<UP>  mtu 1500\n        inet 172.17.0.1\n\nlo: flags=73<UP>\neth0: flags=4163<UP>\n";
    // The indented address line names no interface but is trimmed first, as the board tool does.
    assert_eq!(primary_interface(ok_action(ifconfig)).unwrap(), "inet");
    let ifconfig = "lo: flags=73<UP>\n\neth1 Link encap:Ethernet\n";
    assert_eq!(primary_interface(ok_action(ifconfig)).unwrap(), "eth1");
    assert_eq!(primary_interface(ok_action("lo: x\n")).unwrap_err(), "未识别到可用网络接口");
    let failed = AdbActionResult { success: false, output: s(""), error: None };
    assert_eq!(primary_interface(failed).unwrap_err(), "读取网络接口失败");
}

#[test]
fn netplan_file_has_the_static_address() {
    let yaml = build_netplan_yaml("eth0", "192.168.1.50", "192.168.1.1");
    assert_eq!(
        yaml,
        "# Let NetworkManager manage all devices on this system\nnetwork:\n  ethernets:\n    eth0:\n      addresses: [192.168.1.50/24]\n      dhcp4: false\n      optional: true\n      gateway4: 192.168.1.1\n      nameservers:\n        addresses: [192.168.1.1,114.114.114.114,8.8.8.8,8.8.4.4]\n  version: 2\n  renderer: NetworkManager\n"
    );
}

#[test]
fn static_ip_results() {
    assert!(static_ip_push_failure(ok_action("")).is_none());
    let f = static_ip_push_failure(AdbActionResult { success: false, output: s("o"), error: None }).unwrap();
    assert_eq!(f.error.as_deref(), Some("推送 netplan 配置失败"));
    assert_eq!(f.output, "o");
    let req = StaticIpRequest { ip: s("10.0.0.5"), gateway: s("10.0.0.1") };
    let r = static_ip_applied("eth0", &req, ok_action(""));
    assert_eq!(r.output, "已将网卡 eth0 设置为静态 IP 10.0.0.5，网关 10.0.0.1");
    let r = static_ip_applied("eth0", &req, AdbActionResult { success: false, output: s(""), error: None });
    assert_eq!(r.error.as_deref(), Some("netplan apply 执行失败"));
}

#[test]
fn remote_scripts_are_run_with_python() {
    assert_eq!(python_command("/tmp/a.py", &vec![]), "python3 /tmp/a.py");
    assert_eq!(python_command("/tmp/a.py", &vec![s("1"), s("two")]), "python3 /tmp/a.py 1 two");
    assert!(remote_script_push_failure(Ok(ok_action(""))).is_none());
    let f = remote_script_push_failure(Ok(AdbActionResult { success: false, output: s(""), error: None })).unwrap();
    assert_eq!(f.error.as_deref(), Some("推送脚本失败"));
    let r = remote_script_outcome("demo.py", Ok(ok_action("")));
    assert!(r.success);
    assert_eq!(r.message, "脚本执行成功: demo.py");
    let r = remote_script_outcome("demo.py", Err(s("boom")));
    assert_eq!(r.error.as_deref(), Some("boom"));
}

#[test]
fn selected_device_is_used_until_disconnect() {
    let mut state = ConnectionState::default();
    let r = adb_select_device(s("192.168.1.20:5555"), listed(), &mut state);
    assert!(r.success);
    assert_eq!(resolve_device_id(state.selected_device_id.clone(), listed()).unwrap(), "192.168.1.20:5555");
    adb_disconnect_done(&ok_action(""), &mut state);
    assert_eq!(resolve_device_id(state.selected_device_id.clone(), listed()).unwrap(), "0123456789ABCDEF");
}
