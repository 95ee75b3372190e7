use big8k::actions::generate_timing_bin_bytes;
use big8k::sample_bin::{generate_cphy_bin, generate_default_bin, generate_dsc_off_bin, hex_dump_lines};
use big8k::timing::{
    align, build_init_seq, build_timing_bin, normalize_fixed_bytes, parse_hex_byte,
    parse_hex_csv_line, write_entry, InitCodeError, TimingBinRequest,
};
use big8k::timing_decode::{
    config_from_request, format_hex_line, is_json_config, lcd_config_result,
    parse_cli_lcd_bin_bytes, parse_init_codes_cli, parse_legacy_lcd_bin_bytes,
    parse_new_format_bin_file_cli, read_u32_le, read_u64_le, to_request,
};

fn s(x: &str) -> String {
    x.to_string()
}

fn sample_request() -> TimingBinRequest {
    TimingBinRequest {
        pclk: 150560,
        hact: 3036,
        hfp: 200,
        hbp: 36,
        hsync: 2,
        vact: 1952,
        vfp: 62,
        vbp: 36,
        vsync: 2,
        hs_polarity: true,
        vs_polarity: false,
        de_polarity: true,
        clk_polarity: false,
        interface_type: s("MIPI"),
        mipi_mode: s("video"),
        video_type: s("burst_mode"),
        lanes: 4,
        format: s("RGB666"),
        phy_mode: s("cphy"),
        dsc_enable: true,
        dsc_version: s("Vesa1.2"),
        slice_width: 1518,
        slice_height: 8,
        scrambling_enable: false,
        data_swap: true,
        panel_name: Some(s("Panel-A")),
        version: Some(s("v1.20")),
        init_codes: vec![s("05 00 01 28"), s("  "), s("39,00,03,F0,5A,5A")],
    }
}

fn le32(v: u32) -> Vec<u8> {
    v.to_le_bytes().to_vec()
}

#[test]
fn timing_bin_has_the_documented_layout() {
    let bytes = match build_timing_bin(&sample_request()) {
        Ok(b) => b,
        Err(_) => panic!("valid request refused"),
    };
    assert_eq!(bytes.len(), 184 + 10);
    assert_eq!(&bytes[0..4], &[0x5A, 0x5A, 0xA5, 0xA5]);
    assert_eq!(&bytes[4..20], b"Visonox890123456");
    assert_eq!(&bytes[20..36], b"Panel-Axxxxxxxxx");
    assert_eq!(&bytes[36..44], b"120xxxxx");
    let mut table = Vec::new();
    for (o, l) in [(96u32, 48u32), (144, 10), (154, 8), (0, 0), (162, 16), (178, 16)] {
        table.extend(le32(o));
        table.extend(le32(l));
    }
    table.extend(le32(194));
    assert_eq!(&bytes[44..96], table.as_slice());
    assert_eq!(&bytes[96..104], &150_560_000u64.to_le_bytes());
    assert_eq!(&bytes[104..108], &le32(3036)[..]);
    assert_eq!(&bytes[136..140], &le32(0x66)[..]);
    assert_eq!(&bytes[140..144], &[0, 0, 0, 0]);
    assert_eq!(&bytes[144..154], &[0x05, 0x00, 0x01, 0x28, 0x39, 0x00, 0x03, 0xF0, 0x5A, 0x5A]);
    assert_eq!(&bytes[154..162], &[0x05, 0x78, 0x01, 0x28, 0x05, 0x00, 0x01, 0x10]);
    assert_eq!(&bytes[162..170], &[1, 0, 1, 1, 2, 0, 0, 0]);
    assert_eq!(&bytes[170..174], &le32(1518)[..]);
    assert_eq!(&bytes[174..178], &le32(8)[..]);
    assert_eq!(
        &bytes[178..194],
        &[0x03, 0x0A, 1, 0, 1, 4, 1, 0x56, 0x69, 0x73, 0, 0, 0, 0, 0, 0]
    );
}

#[test]
fn generated_timing_bin_reads_back() {
    let bytes = generate_timing_bin_bytes(&sample_request()).ok().unwrap();
    let parsed = parse_new_format_bin_file_cli("vis-timing.bin", &bytes);
    assert!(parsed.success);
    assert_eq!(parsed.path.as_deref(), Some("vis-timing.bin"));
    assert!(parsed.error.is_none());
    let t = parsed.timing.as_ref().unwrap();
    assert_eq!(t.pclk, 150560);
    assert_eq!((t.hact, t.hfp, t.hbp, t.hsync), (3036, 200, 36, 2));
    assert_eq!((t.vact, t.vfp, t.vbp, t.vsync), (1952, 62, 36, 2));
    assert_eq!((t.hs_polarity, t.vs_polarity, t.de_polarity, t.clk_polarity), (true, false, true, false));
    assert_eq!(t.interface_type, "MIPI");
    assert_eq!(t.mipi_mode, "Video");
    assert_eq!(t.video_type, "BURST_MODE");
    assert_eq!(t.format, "RGB666");
    assert_eq!(t.phy_mode, "CPHY");
    assert_eq!(t.dsc_version, "Vesa1.2");
    assert_eq!(t.lanes, 4);
    assert!(t.dsc_enable && !t.scrambling_enable && t.data_swap && !t.dual_channel);
    assert_eq!((t.slice_width, t.slice_height), (1518, 8));
    assert_eq!(t.panel_name.as_deref(), Some("Panel-Axxxxxxxxx"));
    assert_eq!(t.version.as_deref(), Some("120xxxxx"));
    assert_eq!(parsed.init_codes, vec![s("05 00 01 28"), s("39 00 03 F0 5A 5A")]);
}

#[test]
fn regenerating_a_parsed_file_gives_the_same_bytes() {
    let mut request = sample_request();
    request.panel_name = Some(s("OLED0123456789AB"));
    request.version = Some(s("12345678"));
    request.mipi_mode = s("Video");
    request.video_type = s("BURST_MODE");
    request.phy_mode = s("CPHY");
    let first = generate_timing_bin_bytes(&request).ok().unwrap();
    let parsed = parse_new_format_bin_file_cli("a.bin", &first);
    let again = to_request(parsed).ok().unwrap();
    let second = generate_timing_bin_bytes(&again).ok().unwrap();
    assert_eq!(first, second);
}

#[test]
fn clock_in_khz_round_trips_through_the_file() {
    let mut request = sample_request();
    request.pclk = 999_999;
    let bytes = generate_timing_bin_bytes(&request).ok().unwrap();
    assert_eq!(read_u64_le(&bytes, 96), 999_999_000);
    let parsed = parse_new_format_bin_file_cli("a.bin", &bytes);
    assert_eq!(parsed.timing.unwrap().pclk, 999_999);
    request.pclk = 1_000_000;
    let bytes = generate_timing_bin_bytes(&request).ok().unwrap();
    assert_eq!(read_u64_le(&bytes, 96), 1_000_000);
}

#[test]
fn hex_csv_lines_parse_like_from_str_radix() {
    assert_eq!(parse_hex_csv_line("05 00 01 28").ok().unwrap(), vec![5, 0, 1, 0x28]);
    assert_eq!(parse_hex_csv_line(" +1f,\t2 ,, ff ").ok().unwrap(), vec![0x1F, 2, 0xFF]);
    assert_eq!(parse_hex_csv_line("").ok().unwrap(), Vec::<u8>::new());
    assert_eq!(parse_hex_csv_line("05 0x12 01").err().unwrap(), "初始化代码字节解析失败: 0x12");
    assert_eq!(parse_hex_csv_line("100").err().unwrap(), "初始化代码字节解析失败: 100");
    assert_eq!(parse_hex_csv_line("GG").err().unwrap(), "初始化代码字节解析失败: GG");
    assert_eq!(parse_hex_byte(&['+']), None);
    assert_eq!(parse_hex_byte(&['0', '0', '7', 'f']), Some(0x7F));
}

#[test]
fn init_codes_need_three_bytes_per_line() {
    match build_init_seq(&vec![s("05 00 01 28"), s("05 00")]) {
        Err(InitCodeError::TooShort(m)) => assert_eq!(m, "初始化代码长度不足(至少3字节): 05 00"),
        _ => panic!("short line accepted"),
    }
    match build_init_seq(&vec![s("05 zz 01")]) {
        Err(InitCodeError::ParseFailed(m)) => assert_eq!(m, "初始化代码字节解析失败: zz"),
        _ => panic!("bad byte accepted"),
    }
    match build_init_seq(&vec![s(""), s(" 05 00 01 ")]) {
        Ok(v) => assert_eq!(v, vec![5, 0, 1]),
        Err(_) => panic!("valid lines refused"),
    }
    assert_eq!(
        generate_timing_bin_bytes(&TimingBinRequest { init_codes: vec![s("01")], ..sample_request() })
            .err()
            .unwrap(),
        "初始化代码长度不足(至少3字节): 01"
    );
}

#[test]
fn fixed_fields_are_cut_or_padded() {
    assert_eq!(normalize_fixed_bytes(Some("ABC"), 4, b'x', false), b"ABCx".to_vec());
    assert_eq!(normalize_fixed_bytes(Some("V1.2.3"), 8, b'x', true), b"123xxxxx".to_vec());
    assert_eq!(normalize_fixed_bytes(None, 3, b'x', false), b"xxx".to_vec());
    assert_eq!(normalize_fixed_bytes(Some("ABCDEFG"), 4, b'x', false), b"ABCD".to_vec());
    assert_eq!(normalize_fixed_bytes(Some("é"), 3, b'x', false), vec![0xC3, 0xA9, b'x']);
}

#[test]
fn alignment_and_section_entries() {
    assert_eq!(align(96, 16), 96);
    assert_eq!(align(97, 16), 112);
    assert_eq!(align(0, 16), 0);
    let mut buf = Vec::new();
    write_entry(&mut buf, 0x0102_0304, 16);
    assert_eq!(buf, vec![4, 3, 2, 1, 16, 0, 0, 0]);
    assert_eq!(read_u32_le(&buf, 0), 0x0102_0304);
    assert_eq!(read_u64_le(&buf, 0), 0x0000_0010_0102_0304);
}

#[test]
fn short_new_format_header_is_reported() {
    let r = parse_new_format_bin_file_cli("x.bin", &[0x5A, 0x5A, 0xA5, 0xA5]);
    assert!(!r.success);
    assert!(r.timing.is_none());
    assert_eq!(r.error.as_deref(), Some("新格式文件 header 长度不足，至少需要 96 字节，实际 4 字节"));
}

#[test]
fn init_codes_region_is_split_by_length_byte() {
    let bytes = [0xAA, 0x05, 0x00, 0x01, 0x28, 0x39, 0x00, 0x02, 0x51, 0xFF];
    assert_eq!(
        parse_init_codes_cli(&bytes, 1, 100).ok().unwrap(),
        vec![s("05 00 01 28"), s("39 00 02 51 FF")]
    );
    assert_eq!(
        parse_init_codes_cli(&bytes, 1, 7).err().unwrap(),
        "初始化代码区损坏：第 5 字节开始的命令超出区域"
    );
    assert_eq!(parse_init_codes_cli(&bytes, 1, 6).ok().unwrap(), vec![s("05 00 01 28")]);
    assert_eq!(format_hex_line(&bytes, 1, 4), "05 00 01");
}

fn legacy_file() -> Vec<u8> {
    let mut b = vec![0u8; 200];
    b[1..5].copy_from_slice(&150_560_000u32.to_be_bytes());
    b[5..7].copy_from_slice(&1080u16.to_be_bytes());
    b[7..9].copy_from_slice(&2400u16.to_be_bytes());
    b[9..11].copy_from_slice(&20u16.to_be_bytes());
    b[11..13].copy_from_slice(&8u16.to_be_bytes());
    b[13..15].copy_from_slice(&30u16.to_be_bytes());
    b[15..17].copy_from_slice(&10u16.to_be_bytes());
    b[17..19].copy_from_slice(&4u16.to_be_bytes());
    b[19..21].copy_from_slice(&2u16.to_be_bytes());
    b[21] = 1;
    b[24] = 1;
    b[27] = 4;
    b[30] = 2;
    b[31] = 1;
    b[32] = 0;
    b[33] = 3;
    b[34] = 1;
    b[35] = 1;
    b[38] = 1;
    b[39..41].copy_from_slice(&540u16.to_be_bytes());
    b[41..43].copy_from_slice(&8u16.to_be_bytes());
    b[43] = 1;
    b[44] = 2;
    b.extend([0x05, 0x00, 0x01, 0x11, 0x05, 0x78, 0x01, 0x29]);
    b
}

#[test]
fn legacy_file_is_read_as_the_ui_reads_it() {
    let r = parse_legacy_lcd_bin_bytes("old.bin", &legacy_file()).ok().unwrap();
    assert!(r.success);
    let t = r.timing.as_ref().unwrap();
    assert_eq!(t.pclk, 150560);
    assert_eq!((t.hact, t.vact, t.hbp, t.vbp, t.hfp, t.vfp, t.hsync, t.vsync), (1080, 2400, 20, 8, 30, 10, 4, 2));
    assert_eq!((t.hs_polarity, t.vs_polarity, t.de_polarity, t.clk_polarity), (true, false, false, true));
    assert_eq!(t.interface_type, "DP");
    assert_eq!(t.mipi_mode, "Command");
    assert_eq!(t.video_type, "BURST_MODE");
    assert_eq!(t.format, "RGB565");
    assert_eq!(t.phy_mode, "CPHY");
    assert_eq!(t.dsc_version, "Vesa1.2");
    assert!(t.dsc_enable && t.dual_channel);
    assert_eq!((t.slice_width, t.slice_height), (540, 8));
    assert_eq!(r.init_codes, vec![s("05 00 01 11"), s("05 78 01 29")]);
}

#[test]
fn legacy_file_is_read_as_the_command_line_tool_reads_it() {
    let r = parse_cli_lcd_bin_bytes("old.bin", &legacy_file()).ok().unwrap();
    let t = r.timing.as_ref().unwrap();
    assert_eq!(t.video_type, "NON_BURST_SYNC_EVENTS");
    assert_eq!(t.dsc_version, "Vesa1.2");
    let mut other = legacy_file();
    other[43] = 1;
    other[44] = 1;
    let ui = parse_legacy_lcd_bin_bytes("old.bin", &other).ok().unwrap();
    assert_eq!(ui.timing.unwrap().dsc_version, "Ver1.1");
}

#[test]
fn legacy_file_errors() {
    assert_eq!(
        parse_legacy_lcd_bin_bytes("a.bin", &[0u8; 10]).err().unwrap(),
        "点屏配置文件长度不足，至少需要 200 字节，实际 10 字节"
    );
    let mut broken = legacy_file();
    broken.extend([0x39, 0x00, 0x05, 0x01]);
    assert_eq!(
        parse_legacy_lcd_bin_bytes("a.bin", &broken).err().unwrap(),
        "初始化代码区损坏：第 208 字节开始的命令超出文件长度"
    );
    let failed = lcd_config_result("a.bin", Err(s("boom")));
    assert!(!failed.success);
    assert_eq!(failed.path.as_deref(), Some("a.bin"));
    assert_eq!(failed.error.as_deref(), Some("boom"));
    assert!(failed.timing.is_none() && failed.init_codes.is_empty());
}

#[test]
fn command_line_reader_recognises_the_new_layout() {
    let bytes = generate_timing_bin_bytes(&sample_request()).ok().unwrap();
    let r = parse_cli_lcd_bin_bytes("new.bin", &bytes).ok().unwrap();
    assert_eq!(r.timing.unwrap().hact, 3036);
}

#[test]
fn json_config_clock_is_read_in_khz() {
    let c = config_from_request("cfg.json", TimingBinRequest { pclk: 125_240_000, ..sample_request() });
    assert_eq!(c.timing.as_ref().unwrap().pclk, 125_240);
    let c = config_from_request("cfg.json", TimingBinRequest { pclk: 999_999, ..sample_request() });
    assert_eq!(c.timing.as_ref().unwrap().pclk, 999_999);
}

#[test]
fn conversions_between_requests_and_configs() {
    let c = config_from_request("cfg.json", sample_request());
    assert!(c.success);
    assert_eq!(c.path.as_deref(), Some("cfg.json"));
    let t = c.timing.as_ref().unwrap();
    assert!(!t.dual_channel);
    assert_eq!(t.pclk, 150560);
    assert_eq!(t.panel_name.as_deref(), Some("Panel-A"));
    assert_eq!(c.init_codes.len(), 3);
    let back = to_request(c).ok().unwrap();
    assert_eq!(back.mipi_mode, "video");
    assert_eq!(back.init_codes[2], "39,00,03,F0,5A,5A");
    let empty = lcd_config_result("x", Err(s("no timing")));
    assert_eq!(to_request(empty).err().unwrap(), "no timing");
    assert!(is_json_config(Some(s("JSON"))));
    assert!(!is_json_config(Some(s("bin"))));
    assert!(!is_json_config(None));
}

#[test]
fn reference_file_and_its_dump() {
    let d = generate_default_bin();
    assert_eq!(d.len(), 217);
    assert_eq!(&d[20..36], b"DSI-Panel0123456");
    assert_eq!(&d[36..44], b"1.234567");
    assert_eq!(read_u32_le(&d, 92), 217);
    assert_eq!(read_u64_le(&d, 96), 150_560_000);
    assert_eq!((d[185], d[187], d[205], d[206], d[207]), (0, 1, 0, 4, 0));
    assert_eq!(&d[201..203], &[0x05, 0x0A]);
    assert_eq!(&d[208..211], b"Vis");
    let off = generate_dsc_off_bin();
    assert_eq!(off[187], 0);
    let mut expected = d.clone();
    expected[187] = 0;
    assert_eq!(off, expected);
    let cphy = generate_cphy_bin();
    let mut expected = d.clone();
    expected[185] = 1;
    expected[207] = 1;
    assert_eq!(cphy, expected);
    let lines = hex_dump_lines(&d, 20);
    assert_eq!(lines.len(), 2);
    assert_eq!(lines[0], "0000: 5A 5A A5 A5 56 69 73 6F 6E 6F 78 38 39 30 31 32 ");
    assert_eq!(lines[1], "0010: 33 34 35 36                                     ");
    assert_eq!(hex_dump_lines(&d[..3], 128), vec![s("0000: 5A 5A A5                                        ")]);
}

#[test]
fn canonical_settings_read_back_as_entered() {
    let cases = [
        ("MIPI", "BURST_MODE", "RGB888", "DPHY", "Vesa1.1"),
        ("EDP", "NON_BURST_SYNC_PULSES", "RGB666_PACKED", "CPHY", "Vesa1.2"),
        ("DP", "NON_BURST_SYNC_EVENTS", "RGB565", "DPHY", "Vesa1.2"),
    ];
    for (interface, video, format, phy, dsc) in cases {
        let mut request = sample_request();
        request.pclk = 1000;
        request.interface_type = s(interface);
        request.mipi_mode = s("Video");
        request.video_type = s(video);
        request.format = s(format);
        request.phy_mode = s(phy);
        request.dsc_version = s(dsc);
        let bytes = generate_timing_bin_bytes(&request).ok().unwrap();
        let parsed = parse_new_format_bin_file_cli("p.bin", &bytes);
        assert!(parsed.success);
        let t = parsed.timing.as_ref().unwrap();
        assert_eq!(t.pclk, 1000);
        assert_eq!(t.interface_type, interface);
        assert_eq!(t.mipi_mode, "Video");
        assert_eq!(t.video_type, video);
        assert_eq!(t.format, format);
        assert_eq!(t.phy_mode, phy);
        assert_eq!(t.dsc_version, dsc);
        assert_eq!(parsed.init_codes, vec![s("05 00 01 28"), s("39 00 03 F0 5A 5A")]);
    }
}
