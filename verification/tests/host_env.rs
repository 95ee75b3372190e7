use big8k::host_env::{
    collect_network_cards, filtered_adapter_by_lowered, lan_adapter_by_lowered,
    priority_by_lowered, skipped_adapter_by_lowered, virtual_adapter_by_lowered,
    wireless_adapter_by_lowered, get_local_network_info, is_preferred_lan_adapter_name,
    is_virtual_adapter_name, is_wireless_adapter_name, network_priority, should_filter_adapter,
    should_include_ipv4, should_skip_adapter_name, sort_network_cards, HostAddr, HostInterface,
    NetworkCard,
};
use std::cmp::Ordering;

fn s(x: &str) -> String {
    x.to_string()
}

fn iface(name: &str, addrs: Vec<HostAddr>) -> HostInterface {
    HostInterface { name: s(name), addrs }
}

fn card(name: &str, ip: &str) -> NetworkCard {
    NetworkCard { name: s(name), ipv4: s(ip) }
}

#[test]
fn adapter_names_are_classified_ignoring_case() {
    assert!(is_wireless_adapter_name("WLAN"));
    assert!(is_wireless_adapter_name("Intel Wi-Fi 6"));
    assert!(is_wireless_adapter_name("无线网络连接"));
    assert!(is_preferred_lan_adapter_name("Ethernet 2"));
    assert!(is_preferred_lan_adapter_name("以太网"));
    assert!(!is_preferred_lan_adapter_name("usb0"));
    assert!(is_virtual_adapter_name("VMware Network Adapter VMnet8"));
    assert!(is_virtual_adapter_name("vEthernet (WSL)"));
    assert!(should_skip_adapter_name("Loopback Pseudo-Interface 1"));
    assert!(should_skip_adapter_name("本地连接* 10"));
    assert!(!should_skip_adapter_name("eth0"));
    assert_eq!(network_priority("WLAN"), 0);
    assert_eq!(network_priority("eth0"), 1);
    assert_eq!(network_priority("usb0"), 2);
}

#[test]
fn addresses_are_filtered() {
    assert!(!should_include_ipv4([127, 0, 0, 1]));
    assert!(!should_include_ipv4([0, 0, 0, 0]));
    assert!(should_include_ipv4([192, 168, 1, 2]));
    assert!(should_filter_adapter("Bluetooth Network Connection", [169, 254, 3, 4]));
    assert!(should_filter_adapter("Bluetooth Network Connection", [192, 168, 3, 4]));
    assert!(should_filter_adapter("蓝牙网络连接", [10, 0, 0, 9]));
    assert!(!should_filter_adapter("Wi-Fi Direct", [10, 0, 0, 9]));
    assert!(should_filter_adapter("Microsoft Wi-Fi Direct Virtual Adapter", [169, 254, 1, 1]));
    assert!(should_filter_adapter("Docker", [192, 168, 3, 4]));
    assert!(!should_filter_adapter("eth0", [169, 254, 3, 4]));
}

#[test]
fn cards_are_ordered_by_group_name_and_address() {
    assert_eq!(sort_network_cards(&card("WLAN", "1.1.1.1"), &card("eth0", "1.1.1.1")), Ordering::Less);
    assert_eq!(sort_network_cards(&card("eth0", "10.0.0.2"), &card("eth0", "10.0.0.10")), Ordering::Greater);
    assert_eq!(sort_network_cards(&card("usb0", "1.1.1.1"), &card("usb0", "1.1.1.1")), Ordering::Equal);
}

#[test]
fn host_cards_are_listed_once_in_order() {
    let ifaces = vec![
        iface(" usb0 ", vec![HostAddr::V4([192, 168, 7, 1])]),
        iface("lo", vec![HostAddr::V4([127, 0, 0, 1])]),
        iface("eth0", vec![HostAddr::V4([10, 0, 0, 2]), HostAddr::V6, HostAddr::V4([10, 0, 0, 2])]),
        iface("VMware Network Adapter VMnet1", vec![HostAddr::V4([192, 168, 80, 1])]),
        iface("Loopback Pseudo-Interface 1", vec![HostAddr::V4([10, 1, 1, 1])]),
        iface("WLAN", vec![HostAddr::V4([192, 168, 1, 5])]),
        iface("Bluetooth Network Connection", vec![HostAddr::V4([192, 168, 44, 2])]),
        iface("   ", vec![HostAddr::V4([1, 2, 3, 4])]),
    ];
    let cards = collect_network_cards(&ifaces);
    let got: Vec<(String, String)> = cards.into_iter().map(|c| (c.name, c.ipv4)).collect();
    assert_eq!(
        got,
        vec![(s("WLAN"), s("192.168.1.5")), (s("eth0"), s("10.0.0.2")), (s("usb0"), s("192.168.7.1"))]
    );
    let info = get_local_network_info(Ok(ifaces));
    assert!(info.success && info.error.is_none());
    assert_eq!(info.cards.len(), 3);
}

#[test]
fn network_read_failure_is_reported() {
    let info = get_local_network_info(Err(s("permission denied")));
    assert!(!info.success && info.cards.is_empty());
    assert_eq!(info.error.as_deref(), Some("读取本机网络信息失败: permission denied"));
}

#[test]
fn classification_of_lower_case_names() {
    // The classifiers read the lower-case name they are given, and the name itself only for CJK words.
    assert!(lan_adapter_by_lowered("X", "ethernet 3"));
    assert!(!lan_adapter_by_lowered("eth0", "usb0"));
    assert!(lan_adapter_by_lowered("本地以太网", "本地以太网"));
    assert!(wireless_adapter_by_lowered("WLAN", "wlan"));
    assert!(!wireless_adapter_by_lowered("WLAN", "WLAN"));
    assert!(wireless_adapter_by_lowered("无线", "x"));
    assert!(virtual_adapter_by_lowered("vmware network adapter"));
    assert!(!virtual_adapter_by_lowered("VMware Network Adapter"));
    assert!(skipped_adapter_by_lowered("teredo tunneling"));
    assert!(!skipped_adapter_by_lowered("my teredo"));
    assert!(filtered_adapter_by_lowered("B", "bluetooth pan", [192, 168, 0, 1]));
    assert!(filtered_adapter_by_lowered("x", "local area connection* 2", [169, 254, 0, 1]));
    assert!(!filtered_adapter_by_lowered("x", "local area connection* 2", [192, 168, 0, 1]));
    assert_eq!(priority_by_lowered("Wi-Fi", "wi-fi"), 0);
    assert_eq!(priority_by_lowered("Eth", "eth"), 1);
    assert_eq!(priority_by_lowered("Eth", "Eth"), 2);
}
