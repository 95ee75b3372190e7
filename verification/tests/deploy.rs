use big8k::deploy::{
    autorun_bundle_next, autorun_bundle_resources, autorun_bundle_result,
    deploy_install_app_next, deploy_install_app_start, deploy_install_tools_next,
    deploy_install_tools_start, deploy_named_autorun_bundle, py_files, resolve_deploy_resource_dir,
    resolve_existing_path, ResourceRoot,
    set_default_target_next, set_default_target_start, whl_files, AutorunBundle, BundleStep,
    DeployAction, DeployEvent, DeployStep, LocalFile, PathCandidate, ToolPaths,
};
use big8k::results::{AdbActionResult, GenericResult};

fn s(x: &str) -> String {
    x.to_string()
}

fn ok(output: &str) -> DeployEvent {
    DeployEvent::Board(Ok(AdbActionResult { success: true, output: s(output), error: None }))
}

fn failed(error: Option<&str>) -> DeployEvent {
    DeployEvent::Board(Ok(AdbActionResult { success: false, output: s(""), error: error.map(s) }))
}

fn file(f: &LocalFile) -> String {
    match &f.dir {
        Some(d) => format!("{}/{}", d, f.name),
        None => f.name.clone(),
    }
}

fn describe(a: &DeployAction) -> String {
    match a {
        DeployAction::Shell(c) => format!("shell {}", c),
        DeployAction::Push { local, remote } => format!("push {} -> {}", file(local), remote),
        DeployAction::CheckLocal(f) => format!("check {}", file(f)),
        DeployAction::ListDir(d) => format!("list {}", d),
        DeployAction::ResolveDir { relative, .. } => format!("resolve {}", relative),
    }
}

/// Answers every action with success; shell commands print what `shell_out` gives.
fn answer(a: &DeployAction, shell_out: &dyn Fn(&str) -> String, listing: &[&str]) -> DeployEvent {
    match a {
        DeployAction::Shell(c) => ok(&shell_out(c)),
        DeployAction::Push { .. } => ok(""),
        DeployAction::CheckLocal(_) => DeployEvent::Exists(true),
        DeployAction::ListDir(_) => DeployEvent::Listing(Ok(listing.iter().map(|n| s(n)).collect())),
        DeployAction::ResolveDir { relative, .. } => DeployEvent::Resolved(Ok(format!("/res/{}", relative))),
    }
}

/// Like `answer`, for machines that want the checked path back.
fn answer_checked(a: &DeployAction, shell_out: &dyn Fn(&str) -> String, listing: &[&str]) -> DeployEvent {
    match a {
        DeployAction::CheckLocal(f) => DeployEvent::Checked { path: file(f), exists: true },
        _ => answer(a, shell_out, listing),
    }
}

fn drive<S>(
    mut step: DeployStep<S>,
    next: impl Fn(S, DeployEvent) -> DeployStep<S>,
    respond: &mut dyn FnMut(&DeployAction) -> DeployEvent,
    trace: &mut Vec<String>,
) -> GenericResult {
    for _ in 0..200 {
        match step {
            DeployStep::Finish(r) => return r,
            DeployStep::Run(st, action) => {
                trace.push(describe(&action));
                let ev = respond(&action);
                step = next(st, ev);
            }
        }
    }
    panic!("deployment did not finish");
}

fn tool_paths() -> ToolPaths {
    ToolPaths {
        dist_packages: s("/res/dist"),
        python_libs: s("/res/py"),
        deb_file: s("/res/dist/cpio_2.13+dfsg-2ubuntu0.4_arm64.deb"),
        repack_script: s("/res/dist/repack_initrd.sh"),
        overlay_file: s("/res/dist/rk3588-i2c4-m2-overlay.dtbo"),
    }
}

fn tools_output(c: &str) -> String {
    if c.contains("PIL") {
        s("9.5.0\n")
    } else if c.starts_with("dpkg -i") {
        s("Unpacking cpio\nSetting up cpio (2.13)\n")
    } else if c.starts_with("dpkg -l") {
        s("ii  cpio 2.13\n")
    } else if c.contains("boot.cmd") {
        s("/boot/uEnv/uEnv.txt\n")
    } else if c.contains("i2c-4") {
        s("yes\n")
    } else {
        s("")
    }
}

#[test]
fn tools_deployment_runs_every_step() {
    let mut trace = Vec::new();
    let mut respond = |a: &DeployAction| answer(a, &tools_output, &["b.whl", "notes.txt", "a.WHL"]);
    let r = drive(deploy_install_tools_start(Ok(tool_paths())), deploy_install_tools_next, &mut respond, &mut trace);
    assert!(r.success, "{:?}", r.error);
    assert_eq!(
        r.output,
        [
            "已确保关键目录存在",
            "已上传 dist-packages 到 /usr/lib/python3/dist-packages",
            "已设置 /usr/lib/python3/dist-packages 权限",
            "创建远程目录并设置权限: /vismm/Python_lib",
            "找到 2 个 whl 文件",
            "上传 whl: a.WHL",
            "安装 whl: a.WHL",
            "上传 whl: b.whl",
            "安装 whl: b.whl",
            "Pillow 安装成功",
            "已上传 cpio 安装包",
            "已执行 cpio 安装",
            "cpio 安装成功",
            "验证 cpio: ii  cpio 2.13",
            "已上传 repack_initrd.sh 到 /vismm/tools",
            "已设置 /vismm/tools/repack_initrd.sh 可执行权限",
            "已验证 boot.cmd 当前从 /boot/uEnv/uEnv.txt 读取 overlay 配置",
            "检测到 /dev/i2c-4 已存在，跳过 i2c4-m2 保守修复",
        ]
        .join("\n")
    );
    assert_eq!(
        trace[0],
        "shell mkdir -p /vismm /vismm/fbshow /vismm/fbshow/default /vismm/fbshow/bmp_online /vismm/tools /vismm/Python_lib /tmp/cpio"
    );
    assert_eq!(trace[1], "push /res/dist/. -> /usr/lib/python3/dist-packages");
    assert!(trace.contains(&s("shell cd /vismm/Python_lib && pip install --no-index --find-links=. 'a.WHL'")));
    assert!(trace.contains(&s("push /res/py/a.WHL -> /vismm/Python_lib/")));
}

#[test]
fn tools_deployment_repairs_the_i2c4_overlay() {
    let out = |c: &str| {
        if c.contains("i2c-4") || c.contains("rk3588-i2c4-m2-overlay.dtbo ]") || c.contains("grep -q '^dtoverlay") {
            s("no\n")
        } else if c.contains("boot.cmd") {
            s("unknown\n")
        } else {
            tools_output(c)
        }
    };
    let mut trace = Vec::new();
    let mut respond = |a: &DeployAction| answer(a, &out, &["a.whl"]);
    let r = drive(deploy_install_tools_start(Ok(tool_paths())), deploy_install_tools_next, &mut respond, &mut trace);
    assert!(r.success, "{:?}", r.error);
    let lines: Vec<&str> = r.output.lines().collect();
    let tail = &lines[lines.len() - 5..];
    assert_eq!(
        tail,
        &[
            "未能明确验证实际生效 uEnv 文件，仍按 /boot/uEnv/uEnv.txt 处理（检测结果: unknown）",
            "未检测到 /dev/i2c-4，开始检查 i2c4-m2 overlay",
            "已补齐 /boot/dtb/overlay/rk3588-i2c4-m2-overlay.dtbo",
            "已在 /boot/uEnv/uEnv.txt 中补充 i2c4-m2 overlay 配置",
            "i2c4-m2 保守修复完成；如需生效，请手动重启设备",
        ]
    );
    assert!(trace.contains(&s("push /res/dist/rk3588-i2c4-m2-overlay.dtbo -> /boot/dtb/overlay/rk3588-i2c4-m2-overlay.dtbo")));
}

#[test]
fn tools_deployment_stops_at_the_first_failure() {
    match deploy_install_tools_start(Err(s("资源目录不存在"))) {
        DeployStep::Finish(r) => {
            assert!(!r.success);
            assert_eq!(r.output, "");
            assert_eq!(r.error.as_deref(), Some("资源目录不存在"));
        }
        DeployStep::Run(..) => panic!("started without resources"),
    }
    let mut trace = Vec::new();
    let mut n = 0;
    let mut respond = |a: &DeployAction| {
        n += 1;
        if n == 2 {
            failed(None)
        } else {
            answer(a, &tools_output, &["a.whl"])
        }
    };
    let r = drive(deploy_install_tools_start(Ok(tool_paths())), deploy_install_tools_next, &mut respond, &mut trace);
    assert!(!r.success);
    assert_eq!(r.output, "已确保关键目录存在");
    assert_eq!(r.error.as_deref(), Some("上传 dist-packages 失败"));

    let mut trace = Vec::new();
    let mut respond = |a: &DeployAction| answer(a, &tools_output, &["readme.md"]);
    let r = drive(deploy_install_tools_start(Ok(tool_paths())), deploy_install_tools_next, &mut respond, &mut trace);
    assert_eq!(r.error.as_deref(), Some("错误：未找到任何 .whl 文件，目录: /res/py"));
    assert!(r.output.ends_with("已设置 /usr/lib/python3/dist-packages 权限"));

    let mut trace = Vec::new();
    let mut respond = |a: &DeployAction| match a {
        DeployAction::CheckLocal(_) => DeployEvent::Exists(false),
        _ => answer(a, &tools_output, &["a.whl"]),
    };
    let r = drive(deploy_install_tools_start(Ok(tool_paths())), deploy_install_tools_next, &mut respond, &mut trace);
    assert_eq!(r.error.as_deref(), Some("缺少 cpio 安装包: /res/dist/cpio_2.13+dfsg-2ubuntu0.4_arm64.deb"));
    assert!(r.output.ends_with("Pillow 安装成功"));
}

fn drive_bundle(mut step: BundleStep, respond: &mut dyn FnMut(&DeployAction) -> DeployEvent, trace: &mut Vec<String>) -> (Vec<String>, Result<(), String>) {
    for _ in 0..100 {
        match step {
            BundleStep::Done(logs, outcome) => return (logs, outcome),
            BundleStep::Run(st, action) => {
                trace.push(describe(&action));
                let ev = respond(&action);
                step = autorun_bundle_next(st, ev);
            }
        }
    }
    panic!("bundle did not finish");
}

#[test]
fn autorun_bundle_installs_the_service() {
    let (dir, _legacy, message) = autorun_bundle_resources(&AutorunBundle::DefaultMovie);
    assert_eq!(dir, "resources/deploy/fb-RunApp/default_movie");
    let start = match deploy_named_autorun_bundle(Ok(format!("/res/{}", dir))) {
        Ok(step) => step,
        Err(_) => panic!("bundle refused"),
    };
    let mut trace = Vec::new();
    let mut respond = |a: &DeployAction| match a {
        DeployAction::CheckLocal(f) if f.name == "big8k-autorun.service" => DeployEvent::Checked { path: file(f), exists: false },
        _ => answer_checked(a, &|c: &str| if c == "systemctl daemon-reload" { s(" reloaded \n") } else { s("") }, &[]),
    };
    let (logs, outcome) = drive_bundle(start, &mut respond, &mut trace);
    assert!(outcome.is_ok());
    let r = autorun_bundle_result(logs, outcome, &message);
    assert!(r.success);
    assert_eq!(
        r.output,
        [
            "开始部署 autorun bundle: /res/resources/deploy/fb-RunApp/default_movie",
            "检查 autorun.py: /res/resources/deploy/fb-RunApp/default_movie/autorun.py",
            "service 目录: /res/resources/deploy/fb-RunApp/default",
            "使用 service 文件: /res/resources/deploy/fb-RunApp/default/chenfeng-service.service",
            "已删除旧 autorun.py",
            "已推送 autorun.py -> /vismm/fbshow/autorun.py",
            "已设置 /vismm/fbshow/autorun.py 权限",
            "已推送 autorun.py -> /vismm/autorun.py",
            "已设置 /vismm/autorun.py 权限",
            "已推送 chenfeng-service.service -> /etc/systemd/system/chenfeng-service.service",
            "已执行 systemctl daemon-reload",
            "daemon-reload 输出: reloaded",
            "已执行 systemctl enable chenfeng-service.service",
            "已执行 systemctl restart chenfeng-service.service",
            "autorun 部署完成 (chenfeng-service.service)",
            "开机自动播放视频脚本推送完成并运行",
        ]
        .join("\n")
    );
    assert!(trace.contains(&s("shell systemctl enable chenfeng-service.service")));
}

#[test]
fn autorun_bundle_failures() {
    match deploy_named_autorun_bundle(Err(s("资源目录不存在，已尝试：x"))) {
        Err(r) => {
            assert!(!r.success);
            assert_eq!(r.error.as_deref(), Some("资源目录不存在，已尝试：x"));
        }
        Ok(_) => panic!("started without a directory"),
    }
    let start = deploy_named_autorun_bundle(Ok(s("/b"))).ok().unwrap();
    let mut trace = Vec::new();
    let mut respond = |a: &DeployAction| match a {
        DeployAction::CheckLocal(f) => DeployEvent::Checked { path: file(f), exists: false },
        _ => panic!("went on after a missing script"),
    };
    let (logs, outcome) = drive_bundle(start, &mut respond, &mut trace);
    assert_eq!(outcome, Err(s("缺少 autorun.py: /b/autorun.py")));
    let r = autorun_bundle_result(logs, outcome, "x");
    assert_eq!(r.output, "开始部署 autorun bundle: /b\n检查 autorun.py: /b/autorun.py");

    let start = deploy_named_autorun_bundle(Ok(s("/b"))).ok().unwrap();
    let mut respond = |a: &DeployAction| match a {
        DeployAction::CheckLocal(f) => DeployEvent::Checked { path: file(f), exists: a_is_autorun(a) },
        _ => answer(a, &|_: &str| s(""), &[]),
    };
    let (_, outcome) = drive_bundle(start, &mut respond, &mut trace);
    assert_eq!(outcome, Err(s("缺少 autorun service 文件")));
}

fn a_is_autorun(a: &DeployAction) -> bool {
    matches!(a, DeployAction::CheckLocal(f) if f.name == "autorun.py")
}

#[test]
fn app_deployment_pushes_tools_and_the_default_bundle() {
    let mut trace = Vec::new();
    let mut respond = |a: &DeployAction| match a {
        DeployAction::Shell(c) if c == "/vismm/disableService.sh" => failed(None),
        DeployAction::Push { remote, .. } if remote == "/usr/bin/xdotool" => failed(Some("busy")),
        _ => answer_checked(a, &|_: &str| s(""), &["b.py", "readme.txt", "a.py", "c.PY"]),
    };
    let start = deploy_install_app_start(Ok(s("/res/fb_operate")));
    let r = drive(
        start,
        deploy_install_app_next,
        &mut |a: &DeployAction| match a {
            DeployAction::CheckLocal(f) if f.name == "fbShowMovie" => DeployEvent::Checked { path: file(f), exists: false },
            _ => respond(a),
        },
        &mut trace,
    );
    assert!(r.success, "{:?}", r.error);
    let lines: Vec<&str> = r.output.lines().collect();
    assert_eq!(lines[0], "创建目录: /vismm/fbshow/movie_online, /vismm/fbshow/bmp_online");
    assert_eq!(lines[1], "推送 vismpwr -> /usr/local/bin/vismpwr");
    assert!(lines.contains(&"跳过不存在的文件: fbShowMovie"));
    assert!(lines.contains(&"推送 xdotool 失败: busy"));
    assert!(lines.contains(&"推送 b.py -> /vismm/fbshow/"));
    assert!(!lines.iter().any(|l| l.contains("c.PY")));
    assert!(lines.contains(&"权限设置: chmod +x /usr/local/bin/vismpwr"));
    assert!(lines.contains(&"执行 disableService.sh 失败"));
    assert!(lines.contains(&"执行: systemctl start disable-cursor-blink.service"));
    assert!(lines.contains(&"autorun 部署完成 (big8k-autorun.service)"));
    assert_eq!(*lines.last().unwrap(), "Install App 完成");
    let b = trace.iter().position(|t| t == "push /res/fb_operate/b.py -> /vismm/fbshow/b.py").unwrap();
    let a = trace.iter().position(|t| t == "push /res/fb_operate/a.py -> /vismm/fbshow/a.py").unwrap();
    assert!(b < a);
}

#[test]
fn app_deployment_stops_when_mkdir_fails() {
    match deploy_install_app_start(Err(s("no fb_operate"))) {
        DeployStep::Finish(r) => assert_eq!(r.error.as_deref(), Some("no fb_operate")),
        DeployStep::Run(..) => panic!("started"),
    }
    let mut trace = Vec::new();
    let r = drive(
        deploy_install_app_start(Ok(s("/f"))),
        deploy_install_app_next,
        &mut |_: &DeployAction| failed(None),
        &mut trace,
    );
    assert_eq!(r.error.as_deref(), Some("创建目录失败: "));
    let r = drive(
        deploy_install_app_start(Ok(s("/f"))),
        deploy_install_app_next,
        &mut |_: &DeployAction| DeployEvent::Board(Err(s("device offline"))),
        &mut trace,
    );
    assert_eq!(r.error.as_deref(), Some("创建目录异常: device offline"));
}

#[test]
fn boot_target_change_reboots() {
    let mut trace = Vec::new();
    let r = drive(
        set_default_target_start("multi-user.target"),
        |st, ev| set_default_target_next(st, match ev {
            DeployEvent::Board(b) => b,
            _ => panic!("unexpected event"),
        }),
        &mut |a: &DeployAction| answer(a, &|c: &str| if c == "reboot" { s("") } else { s("Created symlink.\n") }, &[]),
        &mut trace,
    );
    assert!(r.success);
    assert_eq!(r.output, "已切换为 multi-user.target\nCreated symlink.\n已执行 reboot");
    assert_eq!(trace, vec![s("shell systemctl set-default multi-user.target"), s("shell reboot")]);
    let r = drive(
        set_default_target_start("graphical.target"),
        |st, ev| set_default_target_next(st, match ev {
            DeployEvent::Board(b) => b,
            _ => panic!("unexpected event"),
        }),
        &mut |_: &DeployAction| failed(None),
        &mut trace,
    );
    assert_eq!(r.error.as_deref(), Some("执行命令失败: systemctl set-default graphical.target"));
}

#[test]
fn file_selection_and_path_resolution() {
    assert_eq!(whl_files(&vec![s("z.whl"), s(".whl"), s("A.Whl"), s("x.whl.txt")]), vec![s("A.Whl"), s("z.whl")]);
    assert_eq!(py_files(&vec![s("b.py"), s("a.PY"), s("c.py"), s("py")]), vec![s("b.py"), s("c.py")]);
    let c = vec![
        PathCandidate { path: s("/a/x"), shown: s("\"/a/x\""), exists: false },
        PathCandidate { path: s("/b/x"), shown: s("\"/b/x\""), exists: true },
    ];
    assert_eq!(resolve_existing_path(&c), Ok(s("/b/x")));
    let none = vec![
        PathCandidate { path: s("/a/x"), shown: s("\"/a/x\""), exists: false },
        PathCandidate { path: s("/a/y"), shown: s("\"/a/y\""), exists: false },
    ];
    assert_eq!(resolve_existing_path(&none), Err(s("资源目录不存在，已尝试：\"/a/x\"，\"/a/y\"")));
}

#[test]
fn resource_dirs_prefer_each_roots_path_before_its_legacy_path() {
    let c = |p: &str, e: bool| PathCandidate { path: s(p), shown: format!("{:?}", p), exists: e };
    let roots = vec![
        ResourceRoot { relative: c("/a/resources/deploy/x", false), legacy: Some(c("/a/x", true)) },
        ResourceRoot { relative: c("/b/resources/deploy/x", true), legacy: None },
    ];
    assert_eq!(resolve_deploy_resource_dir(roots), Ok(s("/a/x")));
    let roots = vec![
        ResourceRoot { relative: c("/a/r", false), legacy: Some(c("/a/l", false)) },
        ResourceRoot { relative: c("/b/r", false), legacy: None },
    ];
    assert_eq!(
        resolve_deploy_resource_dir(roots),
        Err(s("资源目录不存在，已尝试：\"/a/r\"，\"/a/l\"，\"/b/r\""))
    );
}

#[test]
fn a_failed_deployment_reports_the_log_so_far() {
    let mut trace = Vec::new();
    let mut respond = |a: &DeployAction| answer(a, &tools_output, &["a.whl", "b.whl"]);
    let full = drive(deploy_install_tools_start(Ok(tool_paths())), deploy_install_tools_next, &mut respond, &mut trace);
    for failing in ["chmod +x /vismm/tools/repack_initrd.sh", "dpkg -l | grep cpio", "chmod 777 /vismm/Python_lib"] {
        let mut respond = |a: &DeployAction| match a {
            DeployAction::Shell(c) if c == failing => failed(Some("boom")),
            _ => answer(a, &tools_output, &["a.whl", "b.whl"]),
        };
        let r = drive(deploy_install_tools_start(Ok(tool_paths())), deploy_install_tools_next, &mut respond, &mut trace);
        assert!(!r.success);
        assert_eq!(r.error.as_deref(), Some("boom"));
        assert!(full.output.starts_with(&r.output));
    }
}
