use big8k::framebuffer::{
    checkerboard_script, color_bar_script, demo_screen_args, detect_framebuffer_size,
    display_text_args, framebuffer_python_script, gradient_message, gradient_script,
    logic_pattern_command, parse_framebuffer_size, pattern_failure, shell_pattern_result,
    solid_color_script,
};
use big8k::probe::{parse_probe_output, probe_failure};
use big8k::results::{AdbActionResult, LogicPatternRequest, TextDisplayRequest};

fn s(x: &str) -> String {
    x.to_string()
}

#[test]
fn framebuffer_sizes_accept_several_separators() {
    assert_eq!(parse_framebuffer_size("3036,1952"), Ok((3036, 1952)));
    assert_eq!(parse_framebuffer_size(" 1080 × 2400 "), Ok((1080, 2400)));
    assert_eq!(parse_framebuffer_size("720X1280x5"), Ok((720, 1280)));
    assert_eq!(parse_framebuffer_size("1080"), Err(s("无效分辨率格式")));
    assert_eq!(parse_framebuffer_size("ax2"), Err(s("无法解析宽度: ax2")));
    assert_eq!(parse_framebuffer_size("2x"), Err(s("无法解析高度: 2x")));
}

#[test]
fn framebuffer_size_comes_from_the_probe() {
    let probe = parse_probe_output("VSIZE=3036,1952\n");
    assert_eq!(detect_framebuffer_size(probe), Ok((3036, 1952)));
    let probe = parse_probe_output("FB0=1\n");
    assert_eq!(detect_framebuffer_size(probe), Err(s("未读取到 fb0 virtual_size")));
    assert_eq!(detect_framebuffer_size(probe_failure(s("no device"))), Err(s("no device")));
}

#[test]
fn pattern_scripts_carry_the_size() {
    let sc = solid_color_script(1080, 2400, "red");
    assert!(sc.starts_with("import struct\nW, H = 1080, 2400\nCOLORS = {\n"));
    assert!(sc.contains("color_name = 'red'\nrgba = COLORS.get(color_name, COLORS['black'])"));
    assert!(sc.ends_with("print('OK:' + color_name)\n"));
    let g = gradient_script(8, 4, "blue");
    assert!(g.starts_with("WIDTH = 8\nHEIGHT = 4\nCHANNEL = 'blue'\n"));
    assert!(g.ends_with("print('OK')"));
    assert!(color_bar_script(800, 600).starts_with("WIDTH = 800\nHEIGHT = 600\nCOLORS = [\n"));
    assert!(checkerboard_script(0, 1).starts_with("WIDTH = 0\nHEIGHT = 1\nBLOCK = 80\n"));
}

#[test]
fn python_bodies_are_wrapped_in_a_here_document() {
    assert_eq!(
        framebuffer_python_script("print(1)"),
        "cat > /data/local/tmp/_fbs.py <<'PY'\nprint(1)\nPY\npython3 /data/local/tmp/_fbs.py; status=$?; rm -f /data/local/tmp/_fbs.py; exit $status"
    );
}

#[test]
fn pattern_results() {
    let ok = AdbActionResult { success: true, output: s("OK"), error: None };
    let r = shell_pattern_result(Ok(ok), "shown");
    assert!(r.success);
    assert_eq!(r.message, "shown");
    let bad = AdbActionResult { success: false, output: s("trace"), error: Some(s("e")) };
    let r = shell_pattern_result(Ok(bad), "shown");
    assert_eq!((r.message.as_str(), r.error.as_deref()), ("trace", Some("e")));
    assert_eq!(pattern_failure(s("x")).error.as_deref(), Some("x"));
    assert_eq!(gradient_message("red"), "已显示渐变图案: red");
}

#[test]
fn logic_patterns_are_numbered_up_to_39() {
    let (cmd, msg) = logic_pattern_command(&LogicPatternRequest { pattern: 39 }).ok().unwrap();
    assert_eq!(cmd, "python3 /vismm/fbshow/logicPictureShow.py 39");
    assert_eq!(msg, "已显示逻辑图案 39");
    let e = logic_pattern_command(&LogicPatternRequest { pattern: 40 }).err().unwrap();
    assert_eq!(e.error.as_deref(), Some("逻辑图案编号必须在 0-39 之间"));
}

#[test]
fn text_display_arguments_are_quoted() {
    let args = display_text_args(TextDisplayRequest { text: s(" Hi it's me "), subtitle: None, style: None }).ok().unwrap();
    assert_eq!(args, vec![s("'Hi it'\\''s me'"), s("''"), s("'clean'")]);
    let args = display_text_args(TextDisplayRequest { text: s("a"), subtitle: Some(s("b")), style: Some(s("bold")) }).ok().unwrap();
    assert_eq!(args, vec![s("'a'"), s("'b'"), s("'bold'")]);
    let e = display_text_args(TextDisplayRequest { text: s("  "), subtitle: None, style: None }).err().unwrap();
    assert_eq!(e.error.as_deref(), Some("文字内容不能为空"));
    assert_eq!(demo_screen_args(1080, 2400), vec![s("1080"), s("2400")]);
}

#[test]
fn printed_sizes_read_back() {
    for (w, h) in [(0u32, 0u32), (3036, 1952), (u32::MAX, 7)] {
        for sep in [",", "x", "X", "×"] {
            assert_eq!(parse_framebuffer_size(&format!("{}{}{}", w, sep, h)), Ok((w, h)));
        }
    }
}
