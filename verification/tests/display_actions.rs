use big8k::display_actions::{
    display_local_image_finish, display_local_image_plan, display_remote_image_outcome,
    display_remote_image_plan, display_runtime_pattern_command, display_runtime_pattern_outcome,
    get_video_playback_status, local_image_upload_failure, output_reports_error, play_video_outcome, play_video_target, sync_runtime_patterns_outcome,
    video_control_command, video_control_outcome, video_play_args, video_status_command,
    video_status_outcome, RemoteImagePlan,
};
use big8k::openclaw::{OpenClawError, OpenClawResult};
use big8k::results::{ImageDisplayRequest, PlayVideoRequest, RuntimePatternRequest, VideoControlRequest};

fn s(x: &str) -> String {
    x.to_string()
}

fn err(code: &'static str) -> OpenClawError {
    OpenClawError { stage: "adb_shell", code, message: s("boom") }
}

#[test]
fn remote_bmp_images_use_fbshowbmp() {
    match display_remote_image_plan("/vismm/a b.BMP") {
        Ok(RemoteImagePlan::Bmp(c)) => assert_eq!(c, "./vismm/fbshow/fbShowBmp '/vismm/a b.BMP'"),
        _ => panic!("not planned as BMP"),
    }
    assert!(matches!(display_remote_image_plan("/tmp/x.png"), Ok(RemoteImagePlan::Python)));
    let e = display_remote_image_plan("  ").err().unwrap();
    assert_eq!(e.error.unwrap().code, "REMOTE_IMAGE_PATH_EMPTY");
    let r = display_remote_image_outcome("/a.bmp", true, Ok(s("")));
    assert_eq!(r.summary, "remote BMP displayed: /a.bmp");
    let r = display_remote_image_outcome("/a.png", false, Err(err("X")));
    assert_eq!(r.summary, "remote image display failed");
}

#[test]
fn local_images_get_safe_names() {
    let req = ImageDisplayRequest { image_path: s("C:\\pics\\my pic.Bmp"), remote_name: None };
    let plan = display_local_image_plan(&req, true, Some(s("my pic(1).Bmp")), Some(s("Bmp"))).ok().unwrap();
    assert_eq!(plan.safe_name, "my_pic_1_.Bmp");
    assert!(plan.is_bmp);
    assert_eq!(plan.remote_dir, "/vismm/fbshow/bmp_online");
    assert_eq!(plan.remote_image, "/vismm/fbshow/bmp_online/my_pic_1_.Bmp");

    let req = ImageDisplayRequest { image_path: s("/x/y.png"), remote_name: Some(s("测试.png")) };
    let plan = display_local_image_plan(&req, true, Some(s("y.png")), Some(s("png"))).ok().unwrap();
    assert_eq!(plan.safe_name, "__.png");
    assert_eq!(plan.remote_image, "/data/local/tmp/big8k_images/__.png");

    let req = ImageDisplayRequest { image_path: s("/x/y.png"), remote_name: None };
    let plan = display_local_image_plan(&req, true, None, None).ok().unwrap();
    assert_eq!(plan.safe_name, "input_image.bmp");
    assert!(!plan.is_bmp);

    let e = display_local_image_plan(&req, false, None, None).err().unwrap();
    assert_eq!(e.error.unwrap().message, "图片不存在: /x/y.png");
    let blank = ImageDisplayRequest { image_path: s(" "), remote_name: None };
    assert_eq!(display_local_image_plan(&blank, true, None, None).err().unwrap().error.unwrap().code, "IMAGE_PATH_EMPTY");

    let done = display_local_image_finish(&plan, OpenClawResult::ok((), s("shown")));
    assert_eq!(done.summary, "local image uploaded and displayed: input_image.bmp");
    let failed = display_local_image_finish(&plan, OpenClawResult::fail("a", "B", s("c"), s("kept")));
    assert_eq!(failed.summary, "kept");
}

#[test]
fn runtime_patterns() {
    let r = sync_runtime_patterns_outcome(Ok(s("")), Ok(s("")));
    assert!(r.success);
    assert_eq!(r.summary, "runtime patterns synchronized");
    let r = sync_runtime_patterns_outcome(Err(err("D")), Ok(s("")));
    assert_eq!(r.summary, "runtime pattern directory prepare failed");
    let r = sync_runtime_patterns_outcome(Ok(s("")), Err(err("P")));
    assert_eq!(r.summary, "runtime pattern sync failed");

    let req = RuntimePatternRequest { pattern: s("grid") };
    assert_eq!(
        display_runtime_pattern_command(&req).ok().unwrap(),
        "python3 /vismm/fbshow/big8k_runtime/render_patterns.py 'grid'"
    );
    let blank = RuntimePatternRequest { pattern: s("\t") };
    assert_eq!(display_runtime_pattern_command(&blank).err().unwrap().error.unwrap().code, "PATTERN_EMPTY");
    let r = display_runtime_pattern_outcome(&req, Ok(s("OK\n")));
    assert_eq!(r.summary, "runtime pattern displayed: grid");
    // Upper-case words are found too: the output is lower-cased first.
    let r = display_runtime_pattern_outcome(&req, Ok(s("Traceback: ERROR")));
    assert!(!r.success);
    let e = r.error.unwrap();
    assert_eq!((e.stage, e.code, e.message.as_str()), ("runtime_script", "RUNTIME_PATTERN_FAILED", "Traceback: ERROR"));
    let r = display_runtime_pattern_outcome(&req, Ok(s("File NOT FOUND")));
    assert!(!r.success);
}

#[test]
fn video_playback() {
    let req = PlayVideoRequest { video_path: s("D:/v/clip.mp4"), zoom_mode: 1, show_framerate: -1 };
    assert_eq!(play_video_target(&req, Some(s(" clip.mp4 "))).ok().unwrap(), "/vismm/fbshow/movie_online/clip.mp4");
    assert_eq!(play_video_target(&req, None).err().unwrap().error.unwrap().code, "VIDEO_FILE_NAME_INVALID");
    let blank = PlayVideoRequest { video_path: s(""), zoom_mode: 0, show_framerate: 0 };
    assert_eq!(play_video_target(&blank, Some(s("a"))).err().unwrap().error.unwrap().code, "VIDEO_PATH_EMPTY");
    assert_eq!(
        video_play_args("dev1", "/vismm/fbshow/movie_online/clip.mp4", 1, -1),
        vec![s("-s"), s("dev1"), s("shell"), s("/usr/bin/python3"), s("/vismm/fbshow/videoPlay.py"), s("/vismm/fbshow/movie_online/clip.mp4"), s("1"), s("-1")]
    );
    let r = play_video_outcome(s("/v.mp4"), Ok(()));
    assert_eq!(r.summary, "video playback started: /v.mp4");
    assert_eq!(r.data.as_deref(), Some("/v.mp4"));
}

#[test]
fn video_status_and_control() {
    assert_eq!(video_status_command(), "if [ -f /dev/shm/is_running ]; then echo running; else echo stopped; fi");
    let r = video_status_outcome(Ok(s("noise\n running \n")));
    assert!(r.success);
    assert_eq!(r.summary, "video playback is running");
    let st = get_video_playback_status(r);
    assert!(st.success && st.is_running);
    let r = video_status_outcome(Ok(s("stopped\n")));
    assert!(!r.data.as_ref().unwrap().is_running);
    let st = get_video_playback_status(video_status_outcome(Err(err("Q"))));
    assert!(!st.success);
    assert_eq!(st.error.as_deref(), Some("[adb_shell:Q] boom"));
    let empty = OpenClawResult { success: true, data: None, warnings: vec![], summary: s("sum"), next_suggestion: None, error: None };
    let st = get_video_playback_status(empty);
    assert_eq!(st.error.as_deref(), Some("[result_parse:VIDEO_STATUS_EMPTY] 获取视频播放状态失败"));
    assert_eq!(st.output, "sum");

    let pause = VideoControlRequest { action: s("pause") };
    assert_eq!(video_control_command(&pause).ok().unwrap(), "echo > /dev/shm/pause_signal");
    let resume = VideoControlRequest { action: s("resume") };
    assert_eq!(video_control_command(&resume).ok().unwrap(), "echo > /dev/shm/pause_signal");
    let stop = VideoControlRequest { action: s("stop") };
    assert_eq!(video_control_command(&stop).ok().unwrap(), "echo > /dev/shm/stop_signal");
    let bad = VideoControlRequest { action: s("rewind") };
    assert_eq!(video_control_command(&bad).err().unwrap().error.unwrap().message, "不支持的视频控制动作: rewind");
    assert_eq!(video_control_outcome(&stop, Ok(s(""))).summary, "video control sent: stop");
}

#[test]
fn local_image_upload_steps() {
    assert!(local_image_upload_failure(Ok(s("")), Ok(s(""))).is_none());
    let r = local_image_upload_failure(Err(err("D")), Ok(s(""))).unwrap();
    assert_eq!(r.summary, "remote image directory prepare failed");
    assert_eq!(r.error.unwrap().code, "D");
    let r = local_image_upload_failure(Ok(s("")), Err(err("P"))).unwrap();
    assert_eq!(r.summary, "local image upload failed");
}

#[test]
fn lower_case_output_reports_errors() {
    assert!(output_reports_error("traceback (most recent call last)"));
    assert!(output_reports_error("cat: x: no such file or directory"));
    assert!(output_reports_error("cannot open /dev/fb0"));
    assert!(!output_reports_error("ERROR"));
    assert!(!output_reports_error("ok"));
}
