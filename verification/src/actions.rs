//! The decisions of the board actions: what each action sends to the board,
//! how it reacts to what comes back, and what it finally reports. Running
//! the commands is left to the caller, which hands each outcome back.
use vstd::prelude::*;

use crate::openclaw::{
    error_line, fail_with, generic_result_from_openclaw, is_fail_result, is_ok_result,
    OpenClawError, OpenClawResult,
};
use crate::results::GenericResult;
use crate::text::{chars_of, concat, owned, push_str, string_of, string_views};
use crate::timing::{strs, timing_bin_of, InitCodeError, InitCodeErrorSpec, TimingBinRequest};

verus! {

// ---------------------------------------------------------------------------
// Timing bin generation
// ---------------------------------------------------------------------------

/// The code of an init-code error.
pub open spec fn init_error_code(e: InitCodeErrorSpec) -> Seq<char> {
    match e {
        InitCodeErrorSpec::ParseFailed(_) => "INIT_CODE_PARSE_FAILED"@,
        InitCodeErrorSpec::TooShort(_) => "INIT_CODE_TOO_SHORT"@,
    }
}

/// The message of an init-code error.
pub open spec fn init_error_text(e: InitCodeErrorSpec) -> Seq<char> {
    match e {
        InitCodeErrorSpec::ParseFailed(m) => m,
        InitCodeErrorSpec::TooShort(m) => m,
    }
}

/// The bytes of `vis-timing.bin` for a request, or the message of the
/// init-code line that prevents it.
pub fn generate_timing_bin_bytes(request: &TimingBinRequest) -> (r: Result<Vec<u8>, String>)
    ensures
        match timing_bin_of(request@) {
            Ok(bs) => r is Ok && r->Ok_0@ == bs,
            Err(e) => r is Err && r->Err_0@ == init_error_text(e),
        },
{
    match crate::timing::build_timing_bin(request) {
        Ok(bs) => Ok(bs),
        Err(e) => Err(e.message()),
    }
}

/// Prepares `vis-timing.bin`: the path to write and the bytes, or the
/// failure when the program directory is unknown or an init-code line is
/// invalid.
pub fn generate_timing_bin_action(request: &TimingBinRequest, output_path: Result<String, String>) -> (r:
    Result<(String, Vec<u8>), OpenClawResult<String>>)
    ensures
        match output_path {
            Err(m) => r is Err && is_fail_result(
                r->Err_0,
                "resource_prepare"@,
                "PROGRAM_DIR_RESOLVE_FAILED"@,
                m@,
                "timing bin output path resolve failed"@,
            ),
            Ok(p) => match timing_bin_of(request@) {
                Ok(bs) => r is Ok && r->Ok_0.0@ == p@ && r->Ok_0.1@ == bs,
                Err(e) => r is Err && is_fail_result(
                    r->Err_0,
                    "input_validation"@,
                    init_error_code(e),
                    init_error_text(e),
                    "timing bin generation failed"@,
                ),
            },
        },
{
    let path = match output_path {
        Ok(p) => p,
        Err(m) => {
            return Err(
                OpenClawResult::fail(
                    "resource_prepare",
                    "PROGRAM_DIR_RESOLVE_FAILED",
                    m,
                    owned("timing bin output path resolve failed"),
                ),
            );
        },
    };
    match crate::timing::build_timing_bin(request) {
        Ok(bytes) => Ok((path, bytes)),
        Err(e) => {
            let code: &'static str = match &e {
                InitCodeError::ParseFailed(_) => "INIT_CODE_PARSE_FAILED",
                InitCodeError::TooShort(_) => "INIT_CODE_TOO_SHORT",
            };
            Err(
                OpenClawResult::fail(
                    "input_validation",
                    code,
                    e.message(),
                    owned("timing bin generation failed"),
                ),
            )
        },
    }
}

/// The result once `vis-timing.bin` was written to `path`, or not.
pub fn timing_bin_write_outcome(path: String, written: Result<(), String>) -> (r: OpenClawResult<
    String,
>)
    ensures
        match written {
            Ok(_) => is_ok_result(r, path, "timing bin generated: "@ + path@),
            Err(e) => is_fail_result(
                r,
                "resource_prepare"@,
                "TIMING_BIN_WRITE_FAILED"@,
                "写入 timing bin 失败: "@ + e@,
                "timing bin generation failed"@,
            ),
        },
{
    match written {
        Ok(_) => {
            let summary = concat("timing bin generated: ", path.as_str());
            OpenClawResult::ok(path, summary)
        },
        Err(e) => OpenClawResult::fail(
            "resource_prepare",
            "TIMING_BIN_WRITE_FAILED",
            concat("写入 timing bin 失败: ", e.as_str()),
            owned("timing bin generation failed"),
        ),
    }
}

// ---------------------------------------------------------------------------
// OLED configuration export
// ---------------------------------------------------------------------------

fn copy_strings(v: &Vec<String>) -> (r: Vec<String>)
    ensures
        strs(r@) == strs(v@),
{
    let mut out: Vec<String> = Vec::new();
    let mut i: usize = 0;
    while i < v.len()
        invariant
            0 <= i <= v.len(),
            strs(out@) == strs(v@).take(i as int),
        decreases v.len() - i,
    {
        let s = v[i].clone();
        proof {
            assert(strs(out@.push(s)) =~= strs(out@).push(s@));
            assert(strs(v@).take(i + 1) =~= strs(v@).take(i as int).push(v@[i as int]@));
        }
        out.push(s);
        i = i + 1;
    }
    assert(strs(v@).take(v.len() as int) =~= strs(v@));
    out
}

fn copy_opt(o: &Option<String>) -> (r: Option<String>)
    ensures
        crate::timing::opt_str(r) == crate::timing::opt_str(*o),
{
    match o {
        Some(s) => Some(s.clone()),
        None => None,
    }
}

/// The request as it is exported: the same settings, with a clock below
/// 1 000 000 (kHz) written in Hz.
pub fn export_oled_config_request(request: &TimingBinRequest) -> (r: TimingBinRequest)
    ensures
        r@ == (crate::timing::TimingSpec {
            pclk: crate::timing::pclk_hz(request.pclk),
            ..request@
        }),
{
    let pclk = if request.pclk < 1_000_000 {
        request.pclk * 1000
    } else {
        request.pclk
    };
    TimingBinRequest {
        pclk,
        hact: request.hact,
        hfp: request.hfp,
        hbp: request.hbp,
        hsync: request.hsync,
        vact: request.vact,
        vfp: request.vfp,
        vbp: request.vbp,
        vsync: request.vsync,
        hs_polarity: request.hs_polarity,
        vs_polarity: request.vs_polarity,
        de_polarity: request.de_polarity,
        clk_polarity: request.clk_polarity,
        interface_type: request.interface_type.clone(),
        mipi_mode: request.mipi_mode.clone(),
        video_type: request.video_type.clone(),
        lanes: request.lanes,
        format: request.format.clone(),
        phy_mode: request.phy_mode.clone(),
        dsc_enable: request.dsc_enable,
        dsc_version: request.dsc_version.clone(),
        slice_width: request.slice_width,
        slice_height: request.slice_height,
        scrambling_enable: request.scrambling_enable,
        data_swap: request.data_swap,
        panel_name: copy_opt(&request.panel_name),
        version: copy_opt(&request.version),
        init_codes: copy_strings(&request.init_codes),
    }
}

/// The result when the user cancelled the export dialog.
pub fn export_cancelled() -> (r: OpenClawResult<String>)
    ensures
        is_fail_result(
            r,
            "user_interaction"@,
            "EXPORT_CANCELLED"@,
            "已取消导出 OLED 配置 JSON"@,
            "OLED config JSON export cancelled"@,
        ),
{
    OpenClawResult::fail(
        "user_interaction",
        "EXPORT_CANCELLED",
        owned("已取消导出 OLED 配置 JSON"),
        owned("OLED config JSON export cancelled"),
    )
}

/// The result when the request could not be serialised.
pub fn export_serialize_failed(error: &str) -> (r: OpenClawResult<String>)
    ensures
        is_fail_result(
            r,
            "result_serialize"@,
            "OLED_CONFIG_JSON_SERIALIZE_FAILED"@,
            "序列化 OLED 配置 JSON 失败: "@ + error@,
            "OLED config JSON export failed"@,
        ),
{
    OpenClawResult::fail(
        "result_serialize",
        "OLED_CONFIG_JSON_SERIALIZE_FAILED",
        concat("序列化 OLED 配置 JSON 失败: ", error),
        owned("OLED config JSON export failed"),
    )
}

/// The result once the JSON was written to `path`, or not.
pub fn export_write_outcome(path: String, written: Result<(), String>) -> (r: OpenClawResult<String>)
    ensures
        match written {
            Ok(_) => is_ok_result(r, path, "OLED config JSON exported: "@ + path@),
            Err(e) => is_fail_result(
                r,
                "resource_prepare"@,
                "OLED_CONFIG_JSON_WRITE_FAILED"@,
                "写入 OLED 配置 JSON 失败: "@ + e@,
                "OLED config JSON export failed"@,
            ),
        },
{
    match written {
        Ok(_) => {
            let summary = concat("OLED config JSON exported: ", path.as_str());
            OpenClawResult::ok(path, summary)
        },
        Err(e) => OpenClawResult::fail(
            "resource_prepare",
            "OLED_CONFIG_JSON_WRITE_FAILED",
            concat("写入 OLED 配置 JSON 失败: ", e.as_str()),
            owned("OLED config JSON export failed"),
        ),
    }
}

/// The legacy result of an action whose data is a path: the generic result,
/// with `prefix`, the path and `suffix` as output when it succeeded with one.
fn legacy_with_path(result: OpenClawResult<String>, prefix: &str, suffix: &str) -> (r: GenericResult)
    ensures
        r.success == result.success,
        match error_line(result.error) {
            Some(t) => r.error is Some && r.error->0@ == t,
            None => r.error is None,
        },
        r.output@ == (if result.success && result.data is Some {
            prefix@ + result.data->0@ + suffix@
        } else {
            result.summary@
        }),
{
    let path = if result.success {
        match &result.data {
            Some(p) => Some(p.clone()),
            None => None,
        }
    } else {
        None
    };
    let mut legacy = generic_result_from_openclaw(result);
    match path {
        Some(p) => {
            let mut v = chars_of(prefix);
            push_str(&mut v, p.as_str());
            push_str(&mut v, suffix);
            legacy.output = string_of(v.as_slice());
        },
        None => {},
    }
    legacy
}

/// The UI result of an export.
pub fn export_oled_config_json_result(result: OpenClawResult<String>) -> (r: GenericResult)
    ensures
        r.success == result.success,
        match error_line(result.error) {
            Some(t) => r.error is Some && r.error->0@ == t,
            None => r.error is None,
        },
        r.output@ == (if result.success && result.data is Some {
            "已导出 OLED 配置 JSON: "@ + result.data->0@ + "；vis-timing.bin 默认保存在程序目录"@
        } else {
            result.summary@
        }),
{
    legacy_with_path(result, "已导出 OLED 配置 JSON: ", "；vis-timing.bin 默认保存在程序目录")
}

/// The UI result of a download.
pub fn download_oled_config_result(result: OpenClawResult<String>) -> (r: GenericResult)
    ensures
        r.success == result.success,
        match error_line(result.error) {
            Some(t) => r.error is Some && r.error->0@ == t,
            None => r.error is None,
        },
        r.output@ == (if result.success && result.data is Some {
            "初始化配置下载完成并重启设备："@ + result.data->0@
        } else {
            result.summary@
        }),
{
    let ghost data = result.data;
    let r = legacy_with_path(result, "初始化配置下载完成并重启设备：", "");
    proof {
        reveal_strlit("");
        if data is Some {
            assert("初始化配置下载完成并重启设备："@ + data->0@ + ""@ =~= "初始化配置下载完成并重启设备："@
                + data->0@);
        }
    }
    r
}

// ---------------------------------------------------------------------------
// Download to the board
// ---------------------------------------------------------------------------

/// What the caller runs on the board next.
pub enum BoardAction {
    /// Push a local file to a path on the board.
    Push { local: String, remote: String },
    /// Run a shell command on the board.
    Shell(String),
}

/// The step of a download that is running.
pub enum DownloadStage {
    Push,
    Repack,
    Reboot,
}

/// A download in progress: its step and the generated file.
pub struct DownloadState {
    pub stage: DownloadStage,
    pub local_path: String,
}

/// Either the next board action, with the state to resume from, or the end.
pub enum DownloadStep {
    Run(DownloadState, BoardAction),
    Finish(OpenClawResult<String>),
}

/// Starts a download from the generation result: a generated file is pushed
/// to `/vismm/vis-timing.bin`; a generation failure ends the download.
pub fn download_oled_config_start(generated: OpenClawResult<String>) -> (r: DownloadStep)
    ensures
        generated.success && generated.data is Some ==> (r matches DownloadStep::Run(st, act)
            && st.stage == DownloadStage::Push && st.local_path@ == generated.data->0@ && (act matches BoardAction::Push {
            local,
            remote,
        } && local@ == generated.data->0@ && remote@ == "/vismm/vis-timing.bin"@)),
        !(generated.success && generated.data is Some) && generated.error is Some ==> (
        r matches DownloadStep::Finish(res) && is_fail_result(
            res,
            generated.error->0.stage@,
            generated.error->0.code@,
            generated.error->0.message@,
            "OLED config download failed"@,
        )),
        !(generated.success && generated.data is Some) && generated.error is None ==> (
        r matches DownloadStep::Finish(res) && is_fail_result(
            res,
            "config_generate"@,
            "TIMING_BIN_EMPTY"@,
            "timing bin 生成结果为空"@,
            "OLED config download failed"@,
        )),
{
    match (generated.success, generated.data, generated.error) {
        (true, Some(path), _) => {
            let local = path.clone();
            DownloadStep::Run(
                DownloadState { stage: DownloadStage::Push, local_path: path },
                BoardAction::Push { local, remote: owned("/vismm/vis-timing.bin") },
            )
        },
        (_, _, Some(error)) => DownloadStep::Finish(fail_with(error, "OLED config download failed")),
        _ => DownloadStep::Finish(
            OpenClawResult::fail(
                "config_generate",
                "TIMING_BIN_EMPTY",
                owned("timing bin 生成结果为空"),
                owned("OLED config download failed"),
            ),
        ),
    }
}

/// Continues a download with the outcome of its last board action: the
/// push is followed by repacking the initrd, the repack by a reboot, the
/// reboot by success; any failure ends the download with that error.
pub fn download_oled_config_next(state: DownloadState, outcome: Result<String, OpenClawError>) -> (r:
    DownloadStep)
    ensures
        match outcome {
            Err(e) => r matches DownloadStep::Finish(res) && is_fail_result(
                res,
                e.stage@,
                e.code@,
                e.message@,
                match state.stage {
                    DownloadStage::Push => "OLED config download failed"@,
                    DownloadStage::Repack => "OLED config repack failed"@,
                    DownloadStage::Reboot => "device reboot failed"@,
                },
            ),
            Ok(_) => match state.stage {
                DownloadStage::Push => r matches DownloadStep::Run(st, act) && st.stage
                    == DownloadStage::Repack && st.local_path == state.local_path && (act matches BoardAction::Shell(
                    c,
                ) && c@ == "/vismm/tools/repack_initrd.sh && sync"@),
                DownloadStage::Repack => r matches DownloadStep::Run(st, act) && st.stage
                    == DownloadStage::Reboot && st.local_path == state.local_path && (act matches BoardAction::Shell(
                    c,
                ) && c@ == "reboot"@),
                DownloadStage::Reboot => r matches DownloadStep::Finish(res) && is_ok_result(
                    res,
                    state.local_path,
                    "OLED config downloaded and reboot triggered: "@ + state.local_path@,
                ),
            },
        },
{
    match outcome {
        Err(e) => {
            let summary = match state.stage {
                DownloadStage::Push => "OLED config download failed",
                DownloadStage::Repack => "OLED config repack failed",
                DownloadStage::Reboot => "device reboot failed",
            };
            DownloadStep::Finish(fail_with(e, summary))
        },
        Ok(_) => match state.stage {
            DownloadStage::Push => DownloadStep::Run(
                DownloadState { stage: DownloadStage::Repack, local_path: state.local_path },
                BoardAction::Shell(owned("/vismm/tools/repack_initrd.sh && sync")),
            ),
            DownloadStage::Repack => DownloadStep::Run(
                DownloadState { stage: DownloadStage::Reboot, local_path: state.local_path },
                BoardAction::Shell(owned("reboot")),
            ),
            DownloadStage::Reboot => {
                let summary = concat(
                    "OLED config downloaded and reboot triggered: ",
                    state.local_path.as_str(),
                );
                DownloadStep::Finish(OpenClawResult::ok(state.local_path, summary))
            },
        },
    }
}

} // verus!
