//! The decisions of the display actions: images, runtime patterns and video
//! playback on the board.
use vstd::prelude::*;

use crate::openclaw::{
    fail_with, is_fail_result, is_ok_result, shell_quote, shell_quoted, OpenClawError,
    OpenClawResult,
};
use crate::results::{
    ImageDisplayRequest, PlayVideoRequest, RuntimePatternRequest, VideoControlRequest,
    VideoPlaybackStatus,
};
use crate::text::{
    all_ws, ascii_lower_seq, ascii_lowercase, chars_eq_str, chars_of, concat, contains_seq,
    contains_str, ends_with_seq, ends_with_str, eq_ignore_ascii_case, eq_ignore_case, lines,
    owned, push_str, string_of, to_lowercase, trim, trim_str, unicode_lowercase,
};

verus! {

// ---------------------------------------------------------------------------
// Remote images
// ---------------------------------------------------------------------------

/// How an image already on the board is shown.
pub enum RemoteImagePlan {
    /// A BMP, shown by `fbShowBmp` with this shell command.
    Bmp(String),
    /// Another format, shown by the image display script.
    Python,
}

/// A path whose lower-case form ends with `.bmp`.
pub open spec fn is_bmp_path(path: Seq<char>) -> bool {
    ends_with_seq(ascii_lower_seq(path), ".bmp"@)
}

/// How to show `path`: refused when blank; BMP files through `fbShowBmp`,
/// other images through the display script.
pub fn display_remote_image_plan(path: &str) -> (r: Result<RemoteImagePlan, OpenClawResult<()>>)
    ensures
        all_ws(path@) ==> r is Err && is_fail_result(
            r->Err_0,
            "input_validation"@,
            "REMOTE_IMAGE_PATH_EMPTY"@,
            "远程图片路径不能为空"@,
            "remote image path is empty"@,
        ),
        !all_ws(path@) && is_bmp_path(path@) ==> (r matches Ok(RemoteImagePlan::Bmp(c)) && c@
            == "./vismm/fbshow/fbShowBmp "@ + shell_quoted(path@)),
        !all_ws(path@) && !is_bmp_path(path@) ==> (r matches Ok(RemoteImagePlan::Python)),
{
    let cs = chars_of(path);
    if crate::text::is_blank(cs.as_slice()) {
        return Err(
            OpenClawResult::fail(
                "input_validation",
                "REMOTE_IMAGE_PATH_EMPTY",
                owned("远程图片路径不能为空"),
                owned("remote image path is empty"),
            ),
        );
    }
    let lower = ascii_lowercase(cs.as_slice());
    if ends_with_str(lower.as_slice(), ".bmp") {
        let q = shell_quote(path);
        return Ok(RemoteImagePlan::Bmp(concat("./vismm/fbshow/fbShowBmp ", q.as_str())));
    }
    Ok(RemoteImagePlan::Python)
}

/// The result of showing `path` once its command ran.
pub fn display_remote_image_outcome(path: &str, bmp: bool, outcome: Result<String, OpenClawError>) -> (r:
    OpenClawResult<()>)
    ensures
        match outcome {
            Ok(_) => is_ok_result(
                r,
                (),
                (if bmp {
                    "remote BMP displayed: "@
                } else {
                    "remote image displayed: "@
                }) + path@,
            ),
            Err(e) => is_fail_result(
                r,
                e.stage@,
                e.code@,
                e.message@,
                if bmp {
                    "remote BMP display failed"@
                } else {
                    "remote image display failed"@
                },
            ),
        },
{
    match outcome {
        Ok(_) => {
            let summary = if bmp {
                concat("remote BMP displayed: ", path)
            } else {
                concat("remote image displayed: ", path)
            };
            OpenClawResult::ok((), summary)
        },
        Err(e) => {
            if bmp {
                fail_with(e, "remote BMP display failed")
            } else {
                fail_with(e, "remote image display failed")
            }
        },
    }
}

// ---------------------------------------------------------------------------
// Local images
// ---------------------------------------------------------------------------

/// Where a local image goes on the board.
pub struct LocalImagePlan {
    pub safe_name: String,
    pub is_bmp: bool,
    pub remote_dir: String,
    pub remote_image: String,
}

/// A character kept in a remote file name: ASCII letters and digits, `.`,
/// `_` and `-`; any other becomes `_`.
pub open spec fn safe_char(c: char) -> char {
    if ('a' <= c <= 'z') || ('A' <= c <= 'Z') || ('0' <= c <= '9') || c == '.' || c == '_' || c
        == '-' {
        c
    } else {
        '_'
    }
}

/// A file name made safe for the board's shell.
pub open spec fn safe_name(s: Seq<char>) -> Seq<char> {
    s.map_values(|c: char| safe_char(c))
}

/// A safe name holds only ASCII letters and digits, `.`, `_` and `-`, and
/// making it safe again changes nothing.
pub proof fn lemma_safe_name(s: Seq<char>)
    ensures
        forall|i: int|
            0 <= i < safe_name(s).len() ==> {
                let c = #[trigger] safe_name(s)[i];
                ('a' <= c <= 'z') || ('A' <= c <= 'Z') || ('0' <= c <= '9') || c == '.' || c == '_'
                    || c == '-'
            },
        safe_name(safe_name(s)) == safe_name(s),
{
    assert(safe_name(safe_name(s)) =~= safe_name(s));
}

fn sanitize_name(s: &str) -> (r: String)
    ensures
        r@ == safe_name(s@),
{
    let cs = chars_of(s);
    let mut out: Vec<char> = Vec::new();
    let mut i: usize = 0;
    while i < cs.len()
        invariant
            0 <= i <= cs.len(),
            cs@ == s@,
            out@ == safe_name(s@.take(i as int)),
        decreases cs.len() - i,
    {
        let c = cs[i];
        let k = if ('a' <= c && c <= 'z') || ('A' <= c && c <= 'Z') || ('0' <= c && c <= '9') || c
            == '.' || c == '_' || c == '-' {
            c
        } else {
            '_'
        };
        out.push(k);
        i = i + 1;
        assert(out@ =~= safe_name(s@.take(i as int)));
    }
    assert(s@.take(cs.len() as int) == s@);
    string_of(out.as_slice())
}

/// The name under which a local image is stored on the board: the requested
/// name, else the file name of the path, else `input_image.bmp`.
pub open spec fn remote_name_of(request: ImageDisplayRequest, file_name: Option<String>) -> Seq<char> {
    match request.remote_name {
        Some(n) => n@,
        None => match file_name {
            Some(f) => f@,
            None => "input_image.bmp"@,
        },
    }
}

/// Plans the upload of a local image: refused when the path is blank or the
/// file does not exist; BMP files (by extension, in any case) go to
/// `/vismm/fbshow/bmp_online`, others to `/data/local/tmp/big8k_images`.
/// `file_name` and `extension` are those of the path.
pub fn display_local_image_plan(
    request: &ImageDisplayRequest,
    exists: bool,
    file_name: Option<String>,
    extension: Option<String>,
) -> (r: Result<LocalImagePlan, OpenClawResult<()>>)
    ensures
        all_ws(request.image_path@) ==> r is Err && is_fail_result(
            r->Err_0,
            "input_validation"@,
            "IMAGE_PATH_EMPTY"@,
            "图片路径不能为空"@,
            "local image path is empty"@,
        ),
        !all_ws(request.image_path@) && !exists ==> r is Err && is_fail_result(
            r->Err_0,
            "input_validation"@,
            "IMAGE_NOT_FOUND"@,
            "图片不存在: "@ + request.image_path@,
            "local image file not found"@,
        ),
        !all_ws(request.image_path@) && exists ==> r is Ok && ({
            let p = r->Ok_0;
            let bmp = extension is Some && eq_ignore_case(extension->0@, "bmp"@);
            let dir = if bmp {
                "/vismm/fbshow/bmp_online"@
            } else {
                "/data/local/tmp/big8k_images"@
            };
            &&& p.safe_name@ == safe_name(remote_name_of(*request, file_name))
            &&& p.is_bmp == bmp
            &&& p.remote_dir@ == dir
            &&& p.remote_image@ == dir + "/"@ + p.safe_name@
        }),
{
    let cs = chars_of(request.image_path.as_str());
    if crate::text::is_blank(cs.as_slice()) {
        return Err(
            OpenClawResult::fail(
                "input_validation",
                "IMAGE_PATH_EMPTY",
                owned("图片路径不能为空"),
                owned("local image path is empty"),
            ),
        );
    }
    if !exists {
        return Err(
            OpenClawResult::fail(
                "input_validation",
                "IMAGE_NOT_FOUND",
                concat("图片不存在: ", request.image_path.as_str()),
                owned("local image file not found"),
            ),
        );
    }
    let name = match &request.remote_name {
        Some(n) => n.clone(),
        None => match file_name {
            Some(f) => f,
            None => owned("input_image.bmp"),
        },
    };
    let safe = sanitize_name(name.as_str());
    let is_bmp = match &extension {
        Some(e) => eq_ignore_ascii_case(chars_of(e.as_str()).as_slice(), "bmp"),
        None => false,
    };
    let dir = if is_bmp {
        owned("/vismm/fbshow/bmp_online")
    } else {
        owned("/data/local/tmp/big8k_images")
    };
    let mut v = chars_of(dir.as_str());
    push_str(&mut v, "/");
    push_str(&mut v, safe.as_str());
    let remote_image = string_of(v.as_slice());
    Ok(LocalImagePlan { safe_name: safe, is_bmp, remote_dir: dir, remote_image })
}

/// The summary of a successful upload and display.
pub open spec fn local_image_summary(plan: LocalImagePlan) -> Seq<char> {
    (if plan.is_bmp {
        "local BMP uploaded and displayed: "@
    } else {
        "local image uploaded and displayed: "@
    }) + plan.safe_name@
}

/// The failure that stops the upload of a local image: preparing the remote
/// directory or pushing the image; none when both worked.
pub fn local_image_upload_failure(
    dir: Result<String, OpenClawError>,
    push: Result<String, OpenClawError>,
) -> (r: Option<OpenClawResult<()>>)
    ensures
        match dir {
            Err(e) => r is Some && is_fail_result(
                r->0,
                e.stage@,
                e.code@,
                e.message@,
                "remote image directory prepare failed"@,
            ),
            Ok(_) => match push {
                Err(e) => r is Some && is_fail_result(
                    r->0,
                    e.stage@,
                    e.code@,
                    e.message@,
                    "local image upload failed"@,
                ),
                Ok(_) => r is None,
            },
        },
{
    match dir {
        Err(e) => Some(fail_with(e, "remote image directory prepare failed")),
        Ok(_) => match push {
            Err(e) => Some(fail_with(e, "local image upload failed")),
            Ok(_) => None,
        },
    }
}

/// The result of the display of an uploaded image: on success the summary
/// names the upload.
pub fn display_local_image_finish(plan: &LocalImagePlan, result: OpenClawResult<()>) -> (r:
    OpenClawResult<()>)
    ensures
        r.success == result.success,
        r.data == result.data,
        r.warnings == result.warnings,
        r.next_suggestion == result.next_suggestion,
        r.error == result.error,
        r.summary@ == (if result.success {
            local_image_summary(*plan)
        } else {
            result.summary@
        }),
{
    let mut result = result;
    if result.success {
        result.summary = if plan.is_bmp {
            concat("local BMP uploaded and displayed: ", plan.safe_name.as_str())
        } else {
            concat("local image uploaded and displayed: ", plan.safe_name.as_str())
        };
    }
    result
}

// ---------------------------------------------------------------------------
// Runtime patterns
// ---------------------------------------------------------------------------

/// The result of synchronising the runtime pattern script, from the outcome
/// of preparing its directory and, when that worked, of pushing it.
pub fn sync_runtime_patterns_outcome(
    dir: Result<String, OpenClawError>,
    push: Result<String, OpenClawError>,
) -> (r: OpenClawResult<()>)
    ensures
        match dir {
            Err(e) => is_fail_result(
                r,
                e.stage@,
                e.code@,
                e.message@,
                "runtime pattern directory prepare failed"@,
            ),
            Ok(_) => match push {
                Err(e) => is_fail_result(
                    r,
                    e.stage@,
                    e.code@,
                    e.message@,
                    "runtime pattern sync failed"@,
                ),
                Ok(_) => is_ok_result(r, (), "runtime patterns synchronized"@),
            },
        },
{
    match dir {
        Err(e) => fail_with(e, "runtime pattern directory prepare failed"),
        Ok(_) => match push {
            Err(e) => fail_with(e, "runtime pattern sync failed"),
            Ok(_) => OpenClawResult::ok((), owned("runtime patterns synchronized")),
        },
    }
}

/// The command that draws a runtime pattern; a blank pattern is refused.
pub fn display_runtime_pattern_command(request: &RuntimePatternRequest) -> (r: Result<
    String,
    OpenClawResult<()>,
>)
    ensures
        all_ws(request.pattern@) ==> r is Err && is_fail_result(
            r->Err_0,
            "input_validation"@,
            "PATTERN_EMPTY"@,
            "pattern 不能为空"@,
            "runtime pattern is empty"@,
        ),
        !all_ws(request.pattern@) ==> r is Ok && r->Ok_0@
            == "python3 /vismm/fbshow/big8k_runtime/render_patterns.py "@ + shell_quoted(
            request.pattern@,
        ),
{
    if crate::text::is_blank(chars_of(request.pattern.as_str()).as_slice()) {
        return Err(
            OpenClawResult::fail(
                "input_validation",
                "PATTERN_EMPTY",
                owned("pattern 不能为空"),
                owned("runtime pattern is empty"),
            ),
        );
    }
    let q = shell_quote(request.pattern.as_str());
    Ok(concat("python3 /vismm/fbshow/big8k_runtime/render_patterns.py ", q.as_str()))
}

/// Output that reports an error: its lower-case form mentions an error, a
/// missing file, something not found, something impossible or a traceback.
pub open spec fn reports_error(output: Seq<char>) -> bool {
    lowered_reports_error(unicode_lowercase(output))
}

/// Lower-case output `l` that mentions an error, a missing file, something
/// not found, something impossible or a traceback.
pub open spec fn lowered_reports_error(l: Seq<char>) -> bool {
    contains_seq(l, "error"@) || contains_seq(l, "no such file"@) || contains_seq(l, "not found"@)
        || contains_seq(l, "cannot"@) || contains_seq(l, "traceback"@)
}

/// Whether output, given in lower case, reports an error.
pub fn output_reports_error(lowered: &str) -> (r: bool)
    ensures
        r == lowered_reports_error(lowered@),
{
    let l = chars_of(lowered);
    let s = l.as_slice();
    contains_str(s, "error") || contains_str(s, "no such file") || contains_str(s, "not found")
        || contains_str(s, "cannot") || contains_str(s, "traceback")
}

/// The result of drawing a runtime pattern: output that reports an error
/// makes it fail with that output.
pub fn display_runtime_pattern_outcome(
    request: &RuntimePatternRequest,
    outcome: Result<String, OpenClawError>,
) -> (r: OpenClawResult<()>)
    ensures
        match outcome {
            Ok(output) => if reports_error(output@) {
                is_fail_result(
                    r,
                    "runtime_script"@,
                    "RUNTIME_PATTERN_FAILED"@,
                    output@,
                    "runtime pattern display failed"@,
                )
            } else {
                is_ok_result(r, (), "runtime pattern displayed: "@ + request.pattern@)
            },
            Err(e) => is_fail_result(
                r,
                e.stage@,
                e.code@,
                e.message@,
                "runtime pattern display failed"@,
            ),
        },
{
    match outcome {
        Ok(output) => {
            let lowered = to_lowercase(output.as_str());
            if output_reports_error(lowered.as_str()) {
                OpenClawResult::fail(
                    "runtime_script",
                    "RUNTIME_PATTERN_FAILED",
                    output,
                    owned("runtime pattern display failed"),
                )
            } else {
                OpenClawResult::ok((), concat("runtime pattern displayed: ", request.pattern.as_str()))
            }
        },
        Err(e) => fail_with(e, "runtime pattern display failed"),
    }
}

// ---------------------------------------------------------------------------
// Video playback
// ---------------------------------------------------------------------------

/// The path on the board of the video to play: the file name of the
/// trimmed path (`file_name`, as the caller read it from that path), trimmed,
/// in the board's movie directory; refused when the path or the name is
/// blank or missing.
pub fn play_video_target(request: &PlayVideoRequest, file_name: Option<String>) -> (r: Result<
    String,
    OpenClawResult<String>,
>)
    ensures
        all_ws(request.video_path@) ==> r is Err && is_fail_result(
            r->Err_0,
            "input_validation"@,
            "VIDEO_PATH_EMPTY"@,
            "视频路径不能为空"@,
            "video path is empty"@,
        ),
        !all_ws(request.video_path@) && (file_name is None || all_ws(file_name->0@)) ==> r is Err
            && is_fail_result(
            r->Err_0,
            "input_validation"@,
            "VIDEO_FILE_NAME_INVALID"@,
            "视频文件名无效"@,
            "video file name is invalid"@,
        ),
        !all_ws(request.video_path@) && file_name is Some && !all_ws(file_name->0@) ==> r is Ok
            && r->Ok_0@ == "/vismm/fbshow/movie_online/"@ + trim(file_name->0@),
{
    if crate::text::is_blank(chars_of(request.video_path.as_str()).as_slice()) {
        return Err(
            OpenClawResult::fail(
                "input_validation",
                "VIDEO_PATH_EMPTY",
                owned("视频路径不能为空"),
                owned("video path is empty"),
            ),
        );
    }
    let invalid = match &file_name {
        Some(f) => crate::text::is_blank(chars_of(f.as_str()).as_slice()),
        None => true,
    };
    if invalid {
        return Err(
            OpenClawResult::fail(
                "input_validation",
                "VIDEO_FILE_NAME_INVALID",
                owned("视频文件名无效"),
                owned("video file name is invalid"),
            ),
        );
    }
    let name = match file_name {
        Some(f) => trim_str(f.as_str()),
        None => String::new(),
    };
    Ok(concat("/vismm/fbshow/movie_online/", name.as_str()))
}

/// The decimal representation of a signed integer.
pub open spec fn signed_dec(n: int) -> Seq<char> {
    if n < 0 {
        "-"@ + crate::text::dec((-n) as nat)
    } else {
        crate::text::dec(n as nat)
    }
}

pub(crate) fn signed_string(n: i32) -> (r: String)
    ensures
        r@ == signed_dec(n as int),
{
    let m = n as i64;
    let mut v: Vec<char> = Vec::new();
    if m < 0 {
        v.push('-');
        crate::text::push_dec(&mut v, (-m) as u64);
        assert(v@ =~= "-"@ + crate::text::dec((-n) as nat)) by {
            reveal_strlit("-");
        }
    } else {
        crate::text::push_dec(&mut v, m as u64);
    }
    string_of(v.as_slice())
}

/// The `adb` arguments that start the board's video player without waiting:
/// the device, the player script, the video, the zoom mode and whether to
/// show the frame rate.
pub fn video_play_args(device_id: &str, remote_video: &str, zoom_mode: i32, show_framerate: i32) -> (r:
    Vec<String>)
    ensures
        crate::text::string_views(r@) == seq![
            "-s"@,
            device_id@,
            "shell"@,
            "/usr/bin/python3"@,
            "/vismm/fbshow/videoPlay.py"@,
            remote_video@,
            signed_dec(zoom_mode as int),
            signed_dec(show_framerate as int),
        ],
{
    let mut v: Vec<String> = Vec::new();
    v.push(owned("-s"));
    v.push(owned(device_id));
    v.push(owned("shell"));
    v.push(owned("/usr/bin/python3"));
    v.push(owned("/vismm/fbshow/videoPlay.py"));
    v.push(owned(remote_video));
    v.push(signed_string(zoom_mode));
    v.push(signed_string(show_framerate));
    assert(crate::text::string_views(v@) =~= seq![
        "-s"@,
        device_id@,
        "shell"@,
        "/usr/bin/python3"@,
        "/vismm/fbshow/videoPlay.py"@,
        remote_video@,
        signed_dec(zoom_mode as int),
        signed_dec(show_framerate as int),
    ]);
    v
}

/// The result of starting playback of `remote_video`.
pub fn play_video_outcome(remote_video: String, outcome: Result<(), OpenClawError>) -> (r:
    OpenClawResult<String>)
    ensures
        match outcome {
            Ok(_) => is_ok_result(r, remote_video, "video playback started: "@ + remote_video@),
            Err(e) => is_fail_result(
                r,
                e.stage@,
                e.code@,
                e.message@,
                "video playback start failed"@,
            ),
        },
{
    match outcome {
        Ok(_) => {
            let summary = concat("video playback started: ", remote_video.as_str());
            OpenClawResult::ok(remote_video, summary)
        },
        Err(e) => fail_with(e, "video playback start failed"),
    }
}

/// The shell command that tells whether the player runs.
pub fn video_status_command() -> (r: String)
    ensures
        r@ == "if [ -f /dev/shm/is_running ]; then echo running; else echo stopped; fi"@,
{
    owned("if [ -f /dev/shm/is_running ]; then echo running; else echo stopped; fi")
}

/// Some line of the output is `running` once trimmed.
pub open spec fn says_running(output: Seq<char>) -> bool {
    exists|i: int| 0 <= i < lines(output).len() && trim(#[trigger] lines(output)[i]) == "running"@
}

/// The playback status from the output of the status command.
pub fn video_status_outcome(outcome: Result<String, OpenClawError>) -> (r: OpenClawResult<
    VideoPlaybackStatus,
>)
    ensures
        match outcome {
            Ok(output) => r.success && r.data is Some && r.data->0.success && r.data->0.is_running
                == says_running(output@) && r.data->0.output@ == output@ && r.data->0.error is None
                && r.error is None && r.summary@ == (if says_running(output@) {
                "video playback is running"@
            } else {
                "video playback is stopped"@
            }),
            Err(e) => is_fail_result(
                r,
                e.stage@,
                e.code@,
                e.message@,
                "video playback status query failed"@,
            ),
        },
{
    match outcome {
        Ok(output) => {
            let cs = chars_of(output.as_str());
            let ls = crate::text::split_lines(cs.as_slice());
            let ghost lv = lines(output@);
            assert(crate::text::char_vecs(ls@).len() == ls@.len());
            let mut running = false;
            let mut i: usize = 0;
            while i < ls.len()
                invariant
                    0 <= i <= ls.len(),
                    crate::text::char_vecs(ls@) == lv,
                    lv.len() == ls@.len(),
                    running == exists|j: int| 0 <= j < i && trim(#[trigger] lv[j]) == "running"@,
                decreases ls.len() - i,
            {
                assert(lv[i as int] == ls@[i as int]@);
                let t = crate::text::trim_chars(ls[i].as_slice());
                if chars_eq_str(t.as_slice(), "running") {
                    running = true;
                }
                i = i + 1;
            }
            let summary = if running {
                owned("video playback is running")
            } else {
                owned("video playback is stopped")
            };
            OpenClawResult::ok(
                VideoPlaybackStatus { success: true, is_running: running, output, error: None },
                summary,
            )
        },
        Err(e) => fail_with(e, "video playback status query failed"),
    }
}

/// The UI status from the status action: its data, or a stopped status
/// carrying the summary and the error.
pub fn get_video_playback_status(result: OpenClawResult<VideoPlaybackStatus>) -> (r:
    VideoPlaybackStatus)
    ensures
        result.success && result.data is Some ==> r == result.data->0,
        !(result.success && result.data is Some) ==> !r.success && !r.is_running && r.output@
            == result.summary@ && r.error is Some && r.error->0@ == match result.error {
            Some(e) => crate::openclaw::error_text(e.stage@, e.code@, e.message@),
            None => "[result_parse:VIDEO_STATUS_EMPTY] 获取视频播放状态失败"@,
        },
{
    match (result.success, result.data, result.error) {
        (true, Some(status), _) => status,
        (_, _, Some(error)) => VideoPlaybackStatus {
            success: false,
            is_running: false,
            output: result.summary,
            error: Some(
                crate::openclaw::format_openclaw_error(
                    error.stage,
                    error.code,
                    error.message.as_str(),
                ),
            ),
        },
        _ => VideoPlaybackStatus {
            success: false,
            is_running: false,
            output: result.summary,
            error: Some(owned("[result_parse:VIDEO_STATUS_EMPTY] 获取视频播放状态失败")),
        },
    }
}

/// The command for a video control action: `pause` and `resume` toggle the
/// pause signal, `stop` raises the stop signal; anything else is refused.
pub fn video_control_command(request: &VideoControlRequest) -> (r: Result<
    String,
    OpenClawResult<()>,
>)
    ensures
        (request.action@ == "pause"@ || request.action@ == "resume"@) ==> r is Ok && r->Ok_0@
            == "echo > /dev/shm/pause_signal"@,
        request.action@ == "stop"@ ==> r is Ok && r->Ok_0@ == "echo > /dev/shm/stop_signal"@,
        !(request.action@ == "pause"@ || request.action@ == "resume"@ || request.action@
            == "stop"@) ==> r is Err && is_fail_result(
            r->Err_0,
            "input_validation"@,
            "VIDEO_CONTROL_UNSUPPORTED"@,
            "不支持的视频控制动作: "@ + request.action@,
            "video control action is unsupported"@,
        ),
{
    let a = chars_of(request.action.as_str());
    proof {
        reveal_strlit("pause");
        reveal_strlit("resume");
        reveal_strlit("stop");
        assert("stop"@.len() != "pause"@.len());
        assert("stop"@.len() != "resume"@.len());
    }
    if chars_eq_str(a.as_slice(), "pause") || chars_eq_str(a.as_slice(), "resume") {
        Ok(owned("echo > /dev/shm/pause_signal"))
    } else if chars_eq_str(a.as_slice(), "stop") {
        Ok(owned("echo > /dev/shm/stop_signal"))
    } else {
        Err(
            OpenClawResult::fail(
                "input_validation",
                "VIDEO_CONTROL_UNSUPPORTED",
                concat("不支持的视频控制动作: ", request.action.as_str()),
                owned("video control action is unsupported"),
            ),
        )
    }
}

/// The result of a video control action once its command ran.
pub fn video_control_outcome(request: &VideoControlRequest, outcome: Result<String, OpenClawError>) -> (r:
    OpenClawResult<()>)
    ensures
        match outcome {
            Ok(_) => is_ok_result(r, (), "video control sent: "@ + request.action@),
            Err(e) => is_fail_result(r, e.stage@, e.code@, e.message@, "video control failed"@),
        },
{
    match outcome {
        Ok(_) => OpenClawResult::ok((), concat("video control sent: ", request.action.as_str())),
        Err(e) => fail_with(e, "video control failed"),
    }
}

} // verus!
