use big8k::actions::{
    download_oled_config_next, download_oled_config_result, download_oled_config_start,
    export_cancelled, export_oled_config_json_result, export_oled_config_request,
    export_serialize_failed, export_write_outcome, generate_timing_bin_action,
    timing_bin_write_outcome, BoardAction, DownloadStage, DownloadState, DownloadStep,
};
use big8k::openclaw::{OpenClawError, OpenClawResult};
use big8k::timing::TimingBinRequest;

fn s(x: &str) -> String {
    x.to_string()
}

fn request(pclk: u64, init_codes: Vec<String>) -> TimingBinRequest {
    TimingBinRequest {
        pclk,
        hact: 1080,
        hfp: 20,
        hbp: 30,
        hsync: 8,
        vact: 2400,
        vfp: 10,
        vbp: 4,
        vsync: 2,
        hs_polarity: false,
        vs_polarity: false,
        de_polarity: false,
        clk_polarity: false,
        interface_type: s("MIPI"),
        mipi_mode: s("Video"),
        video_type: s("NON_BURST_SYNC_PULSES"),
        lanes: 4,
        format: s("RGB888"),
        phy_mode: s("DPHY"),
        dsc_enable: false,
        dsc_version: s("Vesa1.1"),
        slice_width: 0,
        slice_height: 0,
        scrambling_enable: false,
        data_swap: false,
        panel_name: None,
        version: None,
        init_codes,
    }
}

#[test]
fn timing_bin_action_reports_each_failure() {
    let e = generate_timing_bin_action(&request(1000, vec![]), Err(s("no dir"))).err().unwrap();
    assert!(!e.success);
    assert_eq!(e.summary, "timing bin output path resolve failed");
    let err = e.error.unwrap();
    assert_eq!((err.stage, err.code, err.message.as_str()), ("resource_prepare", "PROGRAM_DIR_RESOLVE_FAILED", "no dir"));

    let e = generate_timing_bin_action(&request(1000, vec![s("05 00")]), Ok(s("/p/vis-timing.bin"))).err().unwrap();
    let err = e.error.unwrap();
    assert_eq!((err.stage, err.code), ("input_validation", "INIT_CODE_TOO_SHORT"));
    let e = generate_timing_bin_action(&request(1000, vec![s("05 zz 01")]), Ok(s("/p"))).err().unwrap();
    assert_eq!(e.error.unwrap().code, "INIT_CODE_PARSE_FAILED");

    let (path, bytes) = generate_timing_bin_action(&request(1000, vec![]), Ok(s("/p/vis-timing.bin"))).ok().unwrap();
    assert_eq!(path, "/p/vis-timing.bin");
    assert_eq!(&bytes[0..4], &[0x5A, 0x5A, 0xA5, 0xA5]);
}

#[test]
fn timing_bin_write_results() {
    let r = timing_bin_write_outcome(s("/p/a.bin"), Ok(()));
    assert!(r.success);
    assert_eq!(r.data.as_deref(), Some("/p/a.bin"));
    assert_eq!(r.summary, "timing bin generated: /p/a.bin");
    let r = timing_bin_write_outcome(s("/p/a.bin"), Err(s("read-only")));
    assert_eq!(r.error.unwrap().message, "写入 timing bin 失败: read-only");
}

#[test]
fn exported_clock_is_in_hertz() {
    assert_eq!(export_oled_config_request(&request(150_560, vec![])).pclk, 150_560_000);
    assert_eq!(export_oled_config_request(&request(1_000_000, vec![])).pclk, 1_000_000);
    let r = export_oled_config_request(&request(999_999, vec![s("05 00 01 29")]));
    assert_eq!(r.pclk, 999_999_000);
    assert_eq!(r.init_codes, vec![s("05 00 01 29")]);
    assert_eq!(r.hact, 1080);
}

#[test]
fn export_results() {
    let c = export_cancelled();
    assert_eq!(c.error.as_ref().unwrap().code, "EXPORT_CANCELLED");
    let g = export_oled_config_json_result(c);
    assert_eq!(g.error.as_deref(), Some("[user_interaction:EXPORT_CANCELLED] 已取消导出 OLED 配置 JSON"));
    assert_eq!(g.output, "OLED config JSON export cancelled");
    let f = export_serialize_failed("bad");
    assert_eq!(f.error.unwrap().message, "序列化 OLED 配置 JSON 失败: bad");
    let w = export_write_outcome(s("/d/x.json"), Ok(()));
    let g = export_oled_config_json_result(w);
    assert!(g.success);
    assert_eq!(g.output, "已导出 OLED 配置 JSON: /d/x.json；vis-timing.bin 默认保存在程序目录");
}

#[test]
fn download_pushes_repacks_and_reboots() {
    let generated = OpenClawResult::ok(s("/p/vis-timing.bin"), s("timing bin generated"));
    let (st, act) = match download_oled_config_start(generated) {
        DownloadStep::Run(st, act) => (st, act),
        DownloadStep::Finish(_) => panic!("download did not start"),
    };
    assert!(matches!(&act, BoardAction::Push { local, remote } if local == "/p/vis-timing.bin" && remote == "/vismm/vis-timing.bin"));
    let (st, act) = match download_oled_config_next(st, Ok(s(""))) {
        DownloadStep::Run(st, act) => (st, act),
        DownloadStep::Finish(_) => panic!("stopped after push"),
    };
    assert!(matches!(st.stage, DownloadStage::Repack));
    assert!(matches!(&act, BoardAction::Shell(c) if c == "/vismm/tools/repack_initrd.sh && sync"));
    let (st, act) = match download_oled_config_next(st, Ok(s(""))) {
        DownloadStep::Run(st, act) => (st, act),
        DownloadStep::Finish(_) => panic!("stopped after repack"),
    };
    assert!(matches!(&act, BoardAction::Shell(c) if c == "reboot"));
    let done = match download_oled_config_next(st, Ok(s(""))) {
        DownloadStep::Finish(r) => r,
        DownloadStep::Run(..) => panic!("did not finish"),
    };
    assert!(done.success);
    assert_eq!(done.summary, "OLED config downloaded and reboot triggered: /p/vis-timing.bin");
    let g = download_oled_config_result(done);
    assert_eq!(g.output, "初始化配置下载完成并重启设备：/p/vis-timing.bin");
}

#[test]
fn download_failures_end_the_download() {
    let failed: OpenClawResult<String> = OpenClawResult::fail("input_validation", "INIT_CODE_TOO_SHORT", s("short"), s("x"));
    match download_oled_config_start(failed) {
        DownloadStep::Finish(r) => {
            assert_eq!(r.summary, "OLED config download failed");
            assert_eq!(r.error.unwrap().code, "INIT_CODE_TOO_SHORT");
        }
        DownloadStep::Run(..) => panic!("started after a failure"),
    }
    let empty = OpenClawResult { success: true, data: None, warnings: vec![], summary: s(""), next_suggestion: None, error: None };
    match download_oled_config_start(empty) {
        DownloadStep::Finish(r) => assert_eq!(r.error.unwrap().code, "TIMING_BIN_EMPTY"),
        DownloadStep::Run(..) => panic!("started without a file"),
    }
    let st = DownloadState { stage: DownloadStage::Repack, local_path: s("/p") };
    let e = OpenClawError { stage: "adb_shell", code: "ADB_SHELL_FAILED", message: s("no space") };
    match download_oled_config_next(st, Err(e)) {
        DownloadStep::Finish(r) => {
            assert!(!r.success);
            assert_eq!(r.summary, "OLED config repack failed");
            assert_eq!(r.error.unwrap().message, "no space");
        }
        DownloadStep::Run(..) => panic!("went on after a failure"),
    }
}
