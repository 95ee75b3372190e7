//! Deployment to the board: the tools, the display application and the
//! autorun service. Each deployment is a state machine: it says which board
//! command, push or local check to run next, and reacts to its outcome; the
//! log of what was done so far becomes the output.
use vstd::prelude::*;

use crate::adb::error_or;
use crate::results::{AdbActionResult, GenericResult};
use crate::text::{
    chars_of, concat, contains_seq, contains_str, join, join_strings, owned, push_str,
    string_of, string_views, trim, trim_str,
};

verus! {

/// A local file: `name` inside `dir`, or the path `name` itself.
pub struct LocalFile {
    pub dir: Option<String>,
    pub name: String,
}

/// What the caller does next for a deployment.
pub enum DeployAction {
    /// Run a shell command on the board.
    Shell(String),
    /// Push a local file to a path on the board.
    Push { local: LocalFile, remote: String },
    /// Tell whether a local file exists.
    CheckLocal(LocalFile),
    /// List the file names of a local directory.
    ListDir(String),
    /// Find a deployment resource directory by its relative path, or else
    /// by its legacy relative path.
    ResolveDir { relative: String, legacy: Option<String> },
}

/// What the caller hands back for the last action.
pub enum DeployEvent {
    /// The result of a shell command or a push.
    Board(Result<AdbActionResult, String>),
    /// Whether the checked file exists.
    Exists(bool),
    /// The file names of the listed directory, or why it could not be read.
    Listing(Result<Vec<String>, String>),
    /// The path of the checked local file, and whether it exists.
    Checked { path: String, exists: bool },
    /// The resolved directory, or why none was found.
    Resolved(Result<String, String>),
}

/// Either the next action, with the state to resume from, or the result.
pub enum DeployStep<S> {
    Run(S, DeployAction),
    Finish(GenericResult),
}

/// The outcome of a board step: its output, or its error (the transport
/// error, else the step's error text, else `default`).
pub open spec fn checked(ev: Result<AdbActionResult, String>, default: Seq<char>) -> Result<
    Seq<char>,
    Seq<char>,
> {
    match ev {
        Err(e) => Err(e@),
        Ok(a) => if a.success {
            Ok(a.output@)
        } else {
            Err(error_or(a.error, default))
        },
    }
}

pub(crate) fn check(ev: Result<AdbActionResult, String>, default: String) -> (r: Result<String, String>)
    ensures
        match checked(ev, default@) {
            Ok(o) => r is Ok && r->Ok_0@ == o,
            Err(m) => r is Err && r->Err_0@ == m,
        },
{
    match ev {
        Err(e) => Err(e),
        Ok(a) => {
            if a.success {
                Ok(a.output)
            } else {
                match a.error {
                    Some(e) => Err(e),
                    None => Err(default),
                }
            }
        },
    }
}

/// A finished deployment: its log, one entry per line, and its error.
pub open spec fn is_finish(r: GenericResult, logs: Seq<Seq<char>>, error: Option<Seq<char>>) -> bool {
    &&& r.success == error is None
    &&& r.output@ == join(logs, "\n"@)
    &&& match error {
        Some(e) => r.error is Some && r.error->0@ == e,
        None => r.error is None,
    }
}

pub(crate) fn finish(logs: &Vec<String>, error: Option<String>) -> (r: GenericResult)
    ensures
        is_finish(r, string_views(logs@), crate::timing::opt_str(error)),
{
    let output = join_strings(logs, "\n");
    match error {
        Some(e) => GenericResult { success: false, output, error: Some(e) },
        None => GenericResult { success: true, output, error: None },
    }
}

pub(crate) fn log(logs: &mut Vec<String>, line: &str)
    ensures
        string_views(final(logs)@) == string_views(old(logs)@).push(line@),
{
    let ghost before = string_views(logs@);
    logs.push(owned(line));
    assert(string_views(logs@) =~= before.push(line@));
}

pub(crate) fn log_string(logs: &mut Vec<String>, line: String)
    ensures
        string_views(final(logs)@) == string_views(old(logs)@).push(line@),
{
    let ghost before = string_views(logs@);
    let ghost l = line@;
    logs.push(line);
    assert(string_views(logs@) =~= before.push(l));
}

fn shell(command: &str) -> (r: DeployAction)
    ensures
        r matches DeployAction::Shell(c) && c@ == command@,
{
    DeployAction::Shell(owned(command))
}

fn push_path(local: &String, remote: &str) -> (r: DeployAction)
    ensures
        r matches DeployAction::Push { local: l, remote: m } && l.dir is None && l.name@ == local@
            && m@ == remote@,
{
    DeployAction::Push { local: LocalFile { dir: None, name: local.clone() }, remote: owned(remote) }
}

fn check_path(local: &String) -> (r: DeployAction)
    ensures
        r matches DeployAction::CheckLocal(l) && l.dir is None && l.name@ == local@,
{
    DeployAction::CheckLocal(LocalFile { dir: None, name: local.clone() })
}

// ---------------------------------------------------------------------------
// Wheel files
// ---------------------------------------------------------------------------

/// The index of the last `.` of a name, if any.
pub open spec fn last_dot(name: Seq<char>) -> Option<int>
    decreases name.len(),
{
    if name.len() == 0 {
        None
    } else if name.last() == '.' {
        Some(name.len() - 1)
    } else {
        last_dot(name.drop_last())
    }
}

/// A file name whose extension (after its last dot, when that dot is not
/// its first character) is `whl` in any ASCII case.
pub open spec fn is_whl_name(name: Seq<char>) -> bool {
    match last_dot(name) {
        Some(d) => d > 0 && crate::text::ascii_lower_seq(name.skip(d + 1)) == "whl"@,
        None => false,
    }
}

/// The wheel files among the names, in the given order.
pub open spec fn whl_filter(names: Seq<Seq<char>>) -> Seq<Seq<char>>
    decreases names.len(),
{
    if names.len() == 0 {
        seq![]
    } else if is_whl_name(names.last()) {
        whl_filter(names.drop_last()).push(names.last())
    } else {
        whl_filter(names.drop_last())
    }
}

/// Names in non-decreasing order.
pub open spec fn names_sorted(s: Seq<Seq<char>>) -> bool {
    forall|i: int, j: int|
        0 <= i < j < s.len() ==> crate::host_env::seq_order(#[trigger] s[i], #[trigger] s[j]) <= 0
}

proof fn lemma_last_dot(name: Seq<char>, i: int)
    requires
        0 <= i <= name.len(),
        forall|j: int| i <= j < name.len() ==> #[trigger] name[j] != '.',
    ensures
        last_dot(name) == last_dot(name.take(i)),
    decreases name.len() - i,
{
    if i < name.len() {
        let p = name.drop_last();
        assert forall|j: int| i <= j < p.len() implies #[trigger] p[j] != '.' by {
            assert(p[j] == name[j]);
        }
        lemma_last_dot(p, i);
        assert(p.take(i) == name.take(i));
    } else {
        assert(name.take(i) == name);
    }
}

fn whl_name(name: &str) -> (r: bool)
    ensures
        r == is_whl_name(name@),
{
    let cs = chars_of(name);
    let mut i = cs.len();
    while i > 0 && cs[i - 1] != '.'
        invariant
            0 <= i <= cs.len(),
            cs@ == name@,
            forall|j: int| i <= j < cs.len() ==> #[trigger] cs@[j] != '.',
        decreases i,
    {
        i = i - 1;
    }
    proof {
        lemma_last_dot(name@, i as int);
        if i > 0 {
            assert(name@.take(i as int).last() == '.');
        } else {
            assert(name@.take(0).len() == 0);
        }
    }
    if i <= 1 {
        return false;
    }
    let ext = crate::text::slice_range(cs.as_slice(), i, cs.len());
    assert(ext@ == name@.skip(i as int));
    let lower = crate::text::ascii_lowercase(ext.as_slice());
    crate::text::chars_eq_str(lower.as_slice(), "whl")
}

fn insert_name(out: &mut Vec<String>, x: String)
    requires
        names_sorted(string_views(old(out)@)),
    ensures
        names_sorted(string_views(final(out)@)),
        string_views(final(out)@).to_multiset() == string_views(old(out)@).to_multiset().insert(x@),
{
    let ghost ov = string_views(out@);
    let xc = chars_of(x.as_str());
    let mut k: usize = 0;
    while k < out.len() && crate::host_env::chars_order(
        chars_of(out[k].as_str()).as_slice(),
        xc.as_slice(),
    ) <= 0
        invariant
            0 <= k <= out.len(),
            ov == string_views(out@),
            ov.len() == out@.len(),
            xc@ == x@,
            forall|t: int| 0 <= t < k ==> crate::host_env::seq_order(#[trigger] ov[t], x@) <= 0,
        decreases out.len() - k,
    {
        k = k + 1;
    }
    proof {
        assert forall|t: int| k <= t < ov.len() implies crate::host_env::seq_order(
            x@,
            #[trigger] ov[t],
        ) < 0 by {
            crate::host_env::lemma_seq_order_antisym(ov[k as int], x@);
            crate::host_env::lemma_seq_order_antisym(x@, ov[t]);
            if t > k {
                if crate::host_env::seq_order(ov[t], x@) <= 0 {
                    crate::host_env::lemma_seq_order_trans(ov[k as int], ov[t], x@);
                }
            }
        }
        assert(ov.insert(k as int, x@).to_multiset() == ov.to_multiset().insert(x@)) by {
            broadcast use vstd::seq_lib::group_seq_properties;
            broadcast use vstd::multiset::group_multiset_axioms;
            let a = ov.take(k as int);
            let b = ov.skip(k as int);
            assert(ov == a + b);
            assert(ov.insert(k as int, x@) =~= a.push(x@) + b);
            vstd::seq_lib::lemma_multiset_commutative(a.push(x@), b);
            vstd::seq_lib::lemma_multiset_commutative(a, b);
        }
    }
    let ghost xv = x@;
    out.insert(k, x);
    proof {
        let nv = string_views(out@);
        ov.insert_ensures(k as int, xv);
        assert(nv =~= ov.insert(k as int, xv));
        assert forall|a: int, b: int| 0 <= a < b < nv.len() implies crate::host_env::seq_order(
            #[trigger] nv[a],
            #[trigger] nv[b],
        ) <= 0 by {
            if a < k && b == k {
            } else if a < k && b > k {
                assert(nv[b] == ov[b - 1]);
            } else if a == k && b > k {
                assert(nv[b] == ov[b - 1]);
            } else if a > k {
                assert(nv[a] == ov[a - 1]);
                assert(nv[b] == ov[b - 1]);
            }
        }
    }
}

/// The wheel files among a directory's file names, in name order.
pub fn whl_files(names: &Vec<String>) -> (r: Vec<String>)
    ensures
        names_sorted(string_views(r@)),
        string_views(r@).to_multiset() == whl_filter(string_views(names@)).to_multiset(),
{
    let ghost nv = string_views(names@);
    let mut out: Vec<String> = Vec::new();
    let mut i: usize = 0;
    proof {
        broadcast use vstd::seq_lib::group_seq_properties;
        assert(whl_filter(nv.take(0)) =~= Seq::<Seq<char>>::empty());
        assert(string_views(out@) =~= Seq::<Seq<char>>::empty());
    }
    while i < names.len()
        invariant
            0 <= i <= names.len(),
            nv == string_views(names@),
            nv.len() == names@.len(),
            names_sorted(string_views(out@)),
            string_views(out@).to_multiset() == whl_filter(nv.take(i as int)).to_multiset(),
        decreases names.len() - i,
    {
        assert(nv.take(i + 1).drop_last() == nv.take(i as int));
        assert(nv.take(i + 1).last() == names@[i as int]@);
        if whl_name(names[i].as_str()) {
            insert_name(&mut out, names[i].clone());
            proof {
                broadcast use vstd::seq_lib::group_seq_properties;
            }
        }
        i = i + 1;
    }
    assert(nv.take(names.len() as int) == nv);
    out
}

// ---------------------------------------------------------------------------
// Commands of the tools deployment
// ---------------------------------------------------------------------------

/// The directories the tools deployment creates first.
pub open spec fn mkdir_all_cmd() -> Seq<char> {
    "mkdir -p /vismm /vismm/fbshow /vismm/fbshow/default /vismm/fbshow/bmp_online /vismm/tools /vismm/Python_lib /tmp/cpio"@
}

/// The check that Pillow imports after the wheels are installed.
pub open spec fn pil_check_cmd() -> Seq<char> {
    "python3 -c \\\"from PIL import Image; print(Image.__version__)\\\""@
}

/// Which uEnv file the boot script reads.
pub open spec fn uenv_detect_cmd() -> Seq<char> {
    "if [ -f /boot/boot.cmd ] && grep -q '/uEnv/uEnv.txt' /boot/boot.cmd; then echo /boot/uEnv/uEnv.txt; else echo unknown; fi"@
}

/// Whether `/dev/i2c-4` exists.
pub open spec fn i2c4_check_cmd() -> Seq<char> {
    "if ls /dev | grep -qx 'i2c-4'; then echo yes; else echo no; fi"@
}

/// Whether the board has the i2c4-m2 overlay.
pub open spec fn overlay_check_cmd() -> Seq<char> {
    "if [ -f /boot/dtb/overlay/rk3588-i2c4-m2-overlay.dtbo ]; then echo yes; else echo no; fi"@
}

/// Whether uEnv enables the i2c4-m2 overlay.
pub open spec fn uenv_overlay_check_cmd() -> Seq<char> {
    "if grep -q '^dtoverlay[[:space:]]*=[[:space:]]*/dtb/overlay/rk3588-i2c4-m2-overlay.dtbo$' /boot/uEnv/uEnv.txt; then echo yes; else echo no; fi"@
}

/// The script that adds the i2c4-m2 overlay line to uEnv, before the
/// `#overlay_end` marker when there is one, keeping the file's line endings.
pub open spec fn uenv_patch_cmd() -> Seq<char> {
    "python3 - <<'PY'\nfrom pathlib import Path\npath = Path('/boot/uEnv/uEnv.txt')\nraw = path.read_bytes()\nnewline = b'\\r\\n' if b'\\r\\n' in raw else b'\\n'\ntext = raw.decode('utf-8')\nline = \"dtoverlay  =/dtb/overlay/rk3588-i2c4-m2-overlay.dtbo\"\nneedle = '/dtb/overlay/rk3588-i2c4-m2-overlay.dtbo'\nif needle not in text:\n    marker = '#overlay_end'\n    if marker in text:\n        text = text.replace(marker, line + ('\\r\\n' if newline == b'\\r\\n' else '\\n') + marker, 1)\n    else:\n        if not text.endswith(('\\n', '\\r\\n')):\n            text += '\\r\\n' if newline == b'\\r\\n' else '\\n'\n        text += line + ('\\r\\n' if newline == b'\\r\\n' else '\\n')\n    path.write_bytes(text.encode('utf-8'))\nPY"@
}

/// The install command of a wheel file.
pub open spec fn pip_install_cmd(name: Seq<char>) -> Seq<char> {
    "cd /vismm/Python_lib && pip install --no-index --find-links=. "@
        + crate::openclaw::shell_quoted(name)
}

/// The last log line of the i2c4-m2 repair.
pub open spec fn overlay_done_line() -> Seq<char> {
    "i2c4-m2 保守修复完成；如需生效，请手动重启设备"@
}

// ---------------------------------------------------------------------------
// The tools deployment
// ---------------------------------------------------------------------------

/// The local resources of the tools deployment, as paths.
pub struct ToolPaths {
    pub dist_packages: String,
    pub python_libs: String,
    pub deb_file: String,
    pub repack_script: String,
    pub overlay_file: String,
}

/// The step of the tools deployment that waits for its outcome.
pub enum ToolsStage {
    MkdirAll,
    PushDist,
    ChmodDist,
    WhlMkdir,
    WhlChmod,
    WhlList,
    WhlPush(usize),
    WhlInstall(usize),
    PillowCheck,
    DebCheck,
    PushDeb,
    DpkgInstall,
    DpkgVerify,
    RepackCheck,
    PushRepack,
    ChmodRepack,
    UenvDetect,
    I2c4Check,
    OverlayCheck,
    LocalOverlayCheck,
    PushOverlay,
    UenvOverlayCheck,
    UenvPatch,
}

/// A tools deployment in progress: its step, its resources, its log, the
/// log of the wheel installation (kept only if it completes) and the wheel
/// files.
pub struct ToolsDeploy {
    pub stage: ToolsStage,
    pub paths: ToolPaths,
    pub logs: Vec<String>,
    pub whl_logs: Vec<String>,
    pub whl: Vec<String>,
}

/// The event that the step waits for.
pub open spec fn tools_event_fits(st: ToolsDeploy, ev: DeployEvent) -> bool {
    &&& match st.stage {
        ToolsStage::WhlList => ev is Listing,
        ToolsStage::DebCheck | ToolsStage::RepackCheck | ToolsStage::LocalOverlayCheck => ev is Exists,
        _ => ev is Board,
    }
    &&& match st.stage {
        ToolsStage::WhlPush(k) => k < st.whl@.len(),
        ToolsStage::WhlInstall(k) => k < st.whl@.len(),
        _ => true,
    }
}

/// The log of a deployment state.
pub open spec fn tools_log(s: ToolsDeploy) -> Seq<Seq<char>> {
    string_views(s.logs@)
}

/// The wheel log of a deployment state.
pub open spec fn tools_whl_log(s: ToolsDeploy) -> Seq<Seq<char>> {
    string_views(s.whl_logs@)
}

/// The deployment stopped with `logs` as output and the error `m`.
pub open spec fn stopped<S>(r: DeployStep<S>, logs: Seq<Seq<char>>, m: Seq<char>) -> bool {
    r matches DeployStep::Finish(g) && is_finish(g, logs, Some(m))
}

/// The deployment succeeded with `logs` as output.
pub open spec fn succeeded<S>(r: DeployStep<S>, logs: Seq<Seq<char>>) -> bool {
    r matches DeployStep::Finish(g) && is_finish(g, logs, None)
}

/// The deployment goes on to `stage` with the given logs.
pub open spec fn tools_moved(
    r: DeployStep<ToolsDeploy>,
    st: ToolsDeploy,
    stage: ToolsStage,
    logs: Seq<Seq<char>>,
    whl_logs: Seq<Seq<char>>,
) -> bool {
    r matches DeployStep::Run(s, _) && s.stage == stage && s.paths == st.paths && tools_log(s)
        == logs && tools_whl_log(s) == whl_logs && (stage !is WhlPush ==> s.whl == st.whl)
}

/// The next action is the shell command `c`.
pub open spec fn runs_shell<S>(r: DeployStep<S>, c: Seq<char>) -> bool {
    r matches DeployStep::Run(_, DeployAction::Shell(x)) && x@ == c
}

/// The next action pushes `name` (inside `dir`, if given) to `remote`.
pub open spec fn runs_push<S>(r: DeployStep<S>, dir: Option<Seq<char>>, name: Seq<char>, remote: Seq<char>) -> bool {
    r matches DeployStep::Run(_, DeployAction::Push { local, remote: m }) && crate::timing::opt_str(
        local.dir,
    ) == dir && local.name@ == name && m@ == remote
}

/// The next action checks that the local file `path` exists.
pub open spec fn runs_check<S>(r: DeployStep<S>, path: Seq<char>) -> bool {
    r matches DeployStep::Run(_, DeployAction::CheckLocal(l)) && l.dir is None && l.name@ == path
}

/// `line` when the output is not blank once trimmed.
pub open spec fn trimmed_line(o: Seq<char>) -> Seq<Seq<char>> {
    if trim(o).len() == 0 {
        seq![]
    } else {
        seq![trim(o)]
    }
}

/// How the tools deployment reacts to the outcome of its step.
pub open spec fn tools_transition(st: ToolsDeploy, ev: DeployEvent, r: DeployStep<ToolsDeploy>) -> bool {
    let l = tools_log(st);
    let w = tools_whl_log(st);
    let p = st.paths;
    let b = ev->Board_0;
    match st.stage {
        ToolsStage::MkdirAll => match checked(b, "创建目录失败: "@ + mkdir_all_cmd()) {
            Err(m) => stopped(r, l, m),
            Ok(_) => tools_moved(r, st, ToolsStage::PushDist, l.push("已确保关键目录存在"@), w)
                && runs_push(r, Some(p.dist_packages@), "."@, "/usr/lib/python3/dist-packages"@),
        },
        ToolsStage::PushDist => match checked(b, "上传 dist-packages 失败"@) {
            Err(m) => stopped(r, l, m),
            Ok(_) => tools_moved(
                r,
                st,
                ToolsStage::ChmodDist,
                l.push("已上传 dist-packages 到 /usr/lib/python3/dist-packages"@),
                w,
            ) && runs_shell(r, "chmod 777 /usr/lib/python3/dist-packages"@),
        },
        ToolsStage::ChmodDist => match checked(
            b,
            "执行命令失败: chmod 777 /usr/lib/python3/dist-packages"@,
        ) {
            Err(m) => stopped(r, l, m),
            Ok(_) => tools_moved(
                r,
                st,
                ToolsStage::WhlMkdir,
                l.push("已设置 /usr/lib/python3/dist-packages 权限"@),
                w,
            ) && runs_shell(r, "mkdir -p /vismm/Python_lib"@),
        },
        ToolsStage::WhlMkdir => match checked(b, "创建目录失败: mkdir -p /vismm/Python_lib"@) {
            Err(m) => stopped(r, l, m),
            Ok(_) => tools_moved(r, st, ToolsStage::WhlChmod, l, w) && runs_shell(
                r,
                "chmod 777 /vismm/Python_lib"@,
            ),
        },
        ToolsStage::WhlChmod => match checked(b, "执行命令失败: chmod 777 /vismm/Python_lib"@) {
            Err(m) => stopped(r, l, m),
            Ok(_) => tools_moved(
                r,
                st,
                ToolsStage::WhlList,
                l,
                w.push("创建远程目录并设置权限: /vismm/Python_lib"@),
            ) && (r matches DeployStep::Run(_, DeployAction::ListDir(d)) && d@ == p.python_libs@),
        },
        ToolsStage::WhlList => match ev->Listing_0 {
            Err(e) => stopped(r, l, "读取 whl 目录失败: "@ + e@),
            Ok(names) => {
                let ws = whl_filter(string_views(names@));
                if ws.len() == 0 {
                    stopped(r, l, "错误：未找到任何 .whl 文件，目录: "@ + p.python_libs@)
                } else {
                    tools_moved(
                        r,
                        st,
                        ToolsStage::WhlPush(0),
                        l,
                        w.push("找到 "@ + crate::text::dec(ws.len()) + " 个 whl 文件"@),
                    ) && (r matches DeployStep::Run(s, _) && names_sorted(string_views(s.whl@))
                        && string_views(s.whl@).to_multiset() == ws.to_multiset() && runs_push(
                        r,
                        Some(p.python_libs@),
                        s.whl@[0]@,
                        "/vismm/Python_lib/"@,
                    ))
                }
            },
        },
        ToolsStage::WhlPush(k) => {
            let name = st.whl@[k as int]@;
            match checked(b, "上传 whl 失败: "@ + name) {
                Err(m) => stopped(r, l, m),
                Ok(_) => tools_moved(r, st, ToolsStage::WhlInstall(k), l, w.push("上传 whl: "@ + name))
                    && runs_shell(r, pip_install_cmd(name)),
            }
        },
        ToolsStage::WhlInstall(k) => {
            let name = st.whl@[k as int]@;
            match checked(b, "执行命令失败: "@ + pip_install_cmd(name)) {
                Err(m) => stopped(r, l, m),
                Ok(o) => {
                    let w2 = w.push("安装 whl: "@ + name) + trimmed_line(o);
                    if k + 1 < st.whl@.len() {
                        tools_moved(r, st, ToolsStage::WhlPush((k + 1) as usize), l, w2)
                            && (r matches DeployStep::Run(s, _) && s.whl == st.whl) && runs_push(
                            r,
                            Some(p.python_libs@),
                            st.whl@[k + 1]@,
                            "/vismm/Python_lib/"@,
                        )
                    } else {
                        tools_moved(r, st, ToolsStage::PillowCheck, l, w2) && runs_shell(
                            r,
                            pil_check_cmd(),
                        )
                    }
                },
            }
        },
        ToolsStage::PillowCheck => match checked(b, "执行命令失败: "@ + pil_check_cmd()) {
            Err(m) => stopped(r, l, m),
            Ok(o) => {
                let line = if contains_seq(o, "9.5.0"@) {
                    "Pillow 安装成功"@
                } else {
                    "Pillow 安装验证输出: "@ + trim(o)
                };
                tools_moved(r, st, ToolsStage::DebCheck, l + w.push(line), seq![]) && runs_check(
                    r,
                    p.deb_file@,
                )
            },
        },
        ToolsStage::DebCheck => if !ev->Exists_0 {
            stopped(r, l, "缺少 cpio 安装包: "@ + p.deb_file@)
        } else {
            tools_moved(r, st, ToolsStage::PushDeb, l, w) && runs_push(
                r,
                None,
                p.deb_file@,
                "/tmp/cpio/cpio_2.13+dfsg-2ubuntu0.4_arm64.deb"@,
            )
        },
        ToolsStage::PushDeb => match checked(b, "上传 cpio 安装包失败"@) {
            Err(m) => stopped(r, l, m),
            Ok(_) => tools_moved(r, st, ToolsStage::DpkgInstall, l.push("已上传 cpio 安装包"@), w)
                && runs_shell(r, "dpkg -i /tmp/cpio/cpio_2.13+dfsg-2ubuntu0.4_arm64.deb"@),
        },
        ToolsStage::DpkgInstall => match checked(
            b,
            "执行命令失败: dpkg -i /tmp/cpio/cpio_2.13+dfsg-2ubuntu0.4_arm64.deb"@,
        ) {
            Err(m) => stopped(r, l, m),
            Ok(o) => {
                let extra = if contains_seq(o, "Setting up cpio"@) {
                    seq!["cpio 安装成功"@]
                } else {
                    trimmed_line(o)
                };
                tools_moved(r, st, ToolsStage::DpkgVerify, l.push("已执行 cpio 安装"@) + extra, w)
                    && runs_shell(r, "dpkg -l | grep cpio"@)
            },
        },
        ToolsStage::DpkgVerify => match checked(b, "执行命令失败: dpkg -l | grep cpio"@) {
            Err(m) => stopped(r, l, m),
            Ok(o) => tools_moved(r, st, ToolsStage::RepackCheck, l.push("验证 cpio: "@ + trim(o)), w)
                && runs_check(r, p.repack_script@),
        },
        ToolsStage::RepackCheck => if !ev->Exists_0 {
            stopped(r, l, "缺少 repack_initrd.sh: "@ + p.repack_script@)
        } else {
            tools_moved(r, st, ToolsStage::PushRepack, l, w) && runs_push(
                r,
                None,
                p.repack_script@,
                "/vismm/tools/repack_initrd.sh"@,
            )
        },
        ToolsStage::PushRepack => match checked(b, "上传 repack_initrd.sh 失败"@) {
            Err(m) => stopped(r, l, m),
            Ok(_) => tools_moved(
                r,
                st,
                ToolsStage::ChmodRepack,
                l.push("已上传 repack_initrd.sh 到 /vismm/tools"@),
                w,
            ) && runs_shell(r, "chmod +x /vismm/tools/repack_initrd.sh"@),
        },
        ToolsStage::ChmodRepack => match checked(
            b,
            "执行命令失败: chmod +x /vismm/tools/repack_initrd.sh"@,
        ) {
            Err(m) => stopped(r, l, m),
            Ok(_) => tools_moved(
                r,
                st,
                ToolsStage::UenvDetect,
                l.push("已设置 /vismm/tools/repack_initrd.sh 可执行权限"@),
                w,
            ) && runs_shell(r, uenv_detect_cmd()),
        },
        ToolsStage::UenvDetect => match checked(b, "执行命令失败: "@ + uenv_detect_cmd()) {
            Err(m) => stopped(r, l, m),
            Ok(o) => {
                let line = if trim(o) == "/boot/uEnv/uEnv.txt"@ {
                    "已验证 boot.cmd 当前从 /boot/uEnv/uEnv.txt 读取 overlay 配置"@
                } else {
                    "未能明确验证实际生效 uEnv 文件，仍按 /boot/uEnv/uEnv.txt 处理（检测结果: "@ + trim(o)
                        + "）"@
                };
                tools_moved(r, st, ToolsStage::I2c4Check, l.push(line), w) && runs_shell(
                    r,
                    i2c4_check_cmd(),
                )
            },
        },
        ToolsStage::I2c4Check => match checked(b, "执行命令失败: "@ + i2c4_check_cmd()) {
            Err(m) => stopped(r, l, m),
            Ok(o) => if trim(o) == "yes"@ {
                succeeded(r, l.push("检测到 /dev/i2c-4 已存在，跳过 i2c4-m2 保守修复"@))
            } else {
                tools_moved(
                    r,
                    st,
                    ToolsStage::OverlayCheck,
                    l.push("未检测到 /dev/i2c-4，开始检查 i2c4-m2 overlay"@),
                    w,
                ) && runs_shell(r, overlay_check_cmd())
            },
        },
        ToolsStage::OverlayCheck => match checked(b, "执行命令失败: "@ + overlay_check_cmd()) {
            Err(m) => stopped(r, l, m),
            Ok(o) => if trim(o) != "yes"@ {
                tools_moved(r, st, ToolsStage::LocalOverlayCheck, l, w) && runs_check(
                    r,
                    p.overlay_file@,
                )
            } else {
                tools_moved(
                    r,
                    st,
                    ToolsStage::UenvOverlayCheck,
                    l.push("目标板已存在 /boot/dtb/overlay/rk3588-i2c4-m2-overlay.dtbo"@),
                    w,
                ) && runs_shell(r, uenv_overlay_check_cmd())
            },
        },
        ToolsStage::LocalOverlayCheck => if !ev->Exists_0 {
            stopped(r, l, "缺少 i2c4-m2 overlay 资源文件: "@ + p.overlay_file@)
        } else {
            tools_moved(r, st, ToolsStage::PushOverlay, l, w) && runs_push(
                r,
                None,
                p.overlay_file@,
                "/boot/dtb/overlay/rk3588-i2c4-m2-overlay.dtbo"@,
            )
        },
        ToolsStage::PushOverlay => match checked(b, "上传 rk3588-i2c4-m2-overlay.dtbo 失败"@) {
            Err(m) => stopped(r, l, m),
            Ok(_) => tools_moved(
                r,
                st,
                ToolsStage::UenvOverlayCheck,
                l.push("已补齐 /boot/dtb/overlay/rk3588-i2c4-m2-overlay.dtbo"@),
                w,
            ) && runs_shell(r, uenv_overlay_check_cmd()),
        },
        ToolsStage::UenvOverlayCheck => match checked(b, "执行命令失败: "@ + uenv_overlay_check_cmd()) {
            Err(m) => stopped(r, l, m),
            Ok(o) => if trim(o) == "yes"@ {
                succeeded(
                    r,
                    l.push("/boot/uEnv/uEnv.txt 已启用 i2c4-m2 overlay"@).push(overlay_done_line()),
                )
            } else {
                tools_moved(r, st, ToolsStage::UenvPatch, l, w) && runs_shell(r, uenv_patch_cmd())
            },
        },
        ToolsStage::UenvPatch => match checked(b, "执行命令失败: "@ + uenv_patch_cmd()) {
            Err(m) => stopped(r, l, m),
            Ok(_) => succeeded(
                r,
                l.push("已在 /boot/uEnv/uEnv.txt 中补充 i2c4-m2 overlay 配置"@).push(
                    overlay_done_line(),
                ),
            ),
        },
    }
}

fn tools_stop(logs: &Vec<String>, m: String) -> (r: DeployStep<ToolsDeploy>)
    ensures
        stopped(r, string_views(logs@), m@),
{
    DeployStep::Finish(finish(logs, Some(m)))
}

fn tools_done(logs: &Vec<String>) -> (r: DeployStep<ToolsDeploy>)
    ensures
        succeeded(r, string_views(logs@)),
{
    DeployStep::Finish(finish(logs, None))
}

fn tools_go(
    stage: ToolsStage,
    paths: ToolPaths,
    logs: Vec<String>,
    whl_logs: Vec<String>,
    whl: Vec<String>,
    action: DeployAction,
) -> (r: DeployStep<ToolsDeploy>)
    ensures
        r matches DeployStep::Run(s, a) && s.stage == stage && s.paths == paths && s.logs == logs
            && s.whl_logs == whl_logs && s.whl == whl && a == action,
{
    DeployStep::Run(ToolsDeploy { stage, paths, logs, whl_logs, whl }, action)
}

fn cmd_mkdir_all() -> (r: String)
    ensures
        r@ == mkdir_all_cmd(),
{
    owned(
        "mkdir -p /vismm /vismm/fbshow /vismm/fbshow/default /vismm/fbshow/bmp_online /vismm/tools /vismm/Python_lib /tmp/cpio",
    )
}

fn cmd_pil_check() -> (r: String)
    ensures
        r@ == pil_check_cmd(),
{
    owned("python3 -c \\\"from PIL import Image; print(Image.__version__)\\\"")
}

fn cmd_uenv_detect() -> (r: String)
    ensures
        r@ == uenv_detect_cmd(),
{
    owned(
        "if [ -f /boot/boot.cmd ] && grep -q '/uEnv/uEnv.txt' /boot/boot.cmd; then echo /boot/uEnv/uEnv.txt; else echo unknown; fi",
    )
}

fn cmd_i2c4_check() -> (r: String)
    ensures
        r@ == i2c4_check_cmd(),
{
    owned("if ls /dev | grep -qx 'i2c-4'; then echo yes; else echo no; fi")
}

fn cmd_overlay_check() -> (r: String)
    ensures
        r@ == overlay_check_cmd(),
{
    owned("if [ -f /boot/dtb/overlay/rk3588-i2c4-m2-overlay.dtbo ]; then echo yes; else echo no; fi")
}

fn cmd_uenv_overlay_check() -> (r: String)
    ensures
        r@ == uenv_overlay_check_cmd(),
{
    owned(
        "if grep -q '^dtoverlay[[:space:]]*=[[:space:]]*/dtb/overlay/rk3588-i2c4-m2-overlay.dtbo$' /boot/uEnv/uEnv.txt; then echo yes; else echo no; fi",
    )
}

fn cmd_uenv_patch() -> (r: String)
    ensures
        r@ == uenv_patch_cmd(),
{
    owned("python3 - <<'PY'\nfrom pathlib import Path\npath = Path('/boot/uEnv/uEnv.txt')\nraw = path.read_bytes()\nnewline = b'\\r\\n' if b'\\r\\n' in raw else b'\\n'\ntext = raw.decode('utf-8')\nline = \"dtoverlay  =/dtb/overlay/rk3588-i2c4-m2-overlay.dtbo\"\nneedle = '/dtb/overlay/rk3588-i2c4-m2-overlay.dtbo'\nif needle not in text:\n    marker = '#overlay_end'\n    if marker in text:\n        text = text.replace(marker, line + ('\\r\\n' if newline == b'\\r\\n' else '\\n') + marker, 1)\n    else:\n        if not text.endswith(('\\n', '\\r\\n')):\n            text += '\\r\\n' if newline == b'\\r\\n' else '\\n'\n        text += line + ('\\r\\n' if newline == b'\\r\\n' else '\\n')\n    path.write_bytes(text.encode('utf-8'))\nPY")
}

fn cmd_pip_install(name: &str) -> (r: String)
    ensures
        r@ == pip_install_cmd(name@),
{
    let q = crate::openclaw::shell_quote(name);
    concat("cd /vismm/Python_lib && pip install --no-index --find-links=. ", q.as_str())
}

/// Starts the tools deployment once its local resources are found: the
/// board directories are created first.
pub fn deploy_install_tools_start(paths: Result<ToolPaths, String>) -> (r: DeployStep<ToolsDeploy>)
    ensures
        match paths {
            Err(e) => stopped(r, seq![], e@),
            Ok(p) => r matches DeployStep::Run(s, _) && s.stage == ToolsStage::MkdirAll && s.paths
                == p && tools_log(s).len() == 0 && tools_whl_log(s).len() == 0 && s.whl@.len() == 0
                && runs_shell(r, mkdir_all_cmd()),
        },
{
    match paths {
        Err(e) => {
            let logs: Vec<String> = Vec::new();
            let r = tools_stop(&logs, e);
            assert(string_views(logs@) =~= Seq::<Seq<char>>::empty());
            r
        },
        Ok(p) => {
            let logs: Vec<String> = Vec::new();
            let whl_logs: Vec<String> = Vec::new();
            assert(string_views(logs@) =~= Seq::<Seq<char>>::empty());
            assert(string_views(whl_logs@) =~= Seq::<Seq<char>>::empty());
            tools_go(ToolsStage::MkdirAll, p, logs, whl_logs, Vec::new(), DeployAction::Shell(cmd_mkdir_all()))
        },
    }
}

fn tools_setup_next(state: ToolsDeploy, event: DeployEvent) -> (r: DeployStep<ToolsDeploy>)
    requires
        tools_event_fits(state, event),
        state.stage is MkdirAll || state.stage is PushDist || state.stage is ChmodDist
            || state.stage is WhlMkdir || state.stage is WhlChmod,
    ensures
        tools_transition(state, event, r),
{
    let ghost st = state;
    let ToolsDeploy { stage, paths, mut logs, whl_logs, whl } = state;
    let b = match event {
        DeployEvent::Board(b) => b,
        _ => Err(String::new()),
    };
    match stage {
        ToolsStage::MkdirAll => {
            let cmd = cmd_mkdir_all();
            match check(b, concat("创建目录失败: ", cmd.as_str())) {
                Err(m) => tools_stop(&logs, m),
                Ok(_) => {
                    log(&mut logs, "已确保关键目录存在");
                    let local = LocalFile { dir: Some(paths.dist_packages.clone()), name: owned(".") };
                    let action = DeployAction::Push {
                        local,
                        remote: owned("/usr/lib/python3/dist-packages"),
                    };
                    tools_go(ToolsStage::PushDist, paths, logs, whl_logs, whl, action)
                },
            }
        },
        ToolsStage::PushDist => match check(b, owned("上传 dist-packages 失败")) {
            Err(m) => tools_stop(&logs, m),
            Ok(_) => {
                log(&mut logs, "已上传 dist-packages 到 /usr/lib/python3/dist-packages");
                let action = shell("chmod 777 /usr/lib/python3/dist-packages");
                tools_go(ToolsStage::ChmodDist, paths, logs, whl_logs, whl, action)
            },
        },
        ToolsStage::ChmodDist => match check(
            b,
            owned("执行命令失败: chmod 777 /usr/lib/python3/dist-packages"),
        ) {
            Err(m) => tools_stop(&logs, m),
            Ok(_) => {
                log(&mut logs, "已设置 /usr/lib/python3/dist-packages 权限");
                let action = shell("mkdir -p /vismm/Python_lib");
                tools_go(ToolsStage::WhlMkdir, paths, logs, whl_logs, whl, action)
            },
        },
        ToolsStage::WhlMkdir => match check(b, owned("创建目录失败: mkdir -p /vismm/Python_lib")) {
            Err(m) => tools_stop(&logs, m),
            Ok(_) => {
                let action = shell("chmod 777 /vismm/Python_lib");
                tools_go(ToolsStage::WhlChmod, paths, logs, whl_logs, whl, action)
            },
        },
        _ => {
            let mut whl_logs = whl_logs;
            match check(b, owned("执行命令失败: chmod 777 /vismm/Python_lib")) {
                Err(m) => tools_stop(&logs, m),
                Ok(_) => {
                    log(&mut whl_logs, "创建远程目录并设置权限: /vismm/Python_lib");
                    let action = DeployAction::ListDir(paths.python_libs.clone());
                    tools_go(ToolsStage::WhlList, paths, logs, whl_logs, whl, action)
                },
            }
        },
    }
}

fn append_logs(logs: &mut Vec<String>, more: Vec<String>)
    ensures
        string_views(final(logs)@) == string_views(old(logs)@) + string_views(more@),
{
    let ghost before = string_views(logs@);
    let mut i: usize = 0;
    while i < more.len()
        invariant
            0 <= i <= more.len(),
            string_views(logs@) == before + string_views(more@).take(i as int),
        decreases more.len() - i,
    {
        log_string(logs, more[i].clone());
        i = i + 1;
        assert(string_views(logs@) =~= before + string_views(more@).take(i as int));
    }
    assert(string_views(more@).take(more.len() as int) =~= string_views(more@));
}

pub(crate) fn log_trimmed(logs: &mut Vec<String>, o: &str)
    ensures
        string_views(final(logs)@) == string_views(old(logs)@) + trimmed_line(o@),
{
    let t = trim_str(o);
    proof {
        crate::text::lemma_trim_empty(o@);
    }
    if chars_of(t.as_str()).len() > 0 {
        log_string(logs, t);
    } else {
        assert(string_views(logs@) + trimmed_line(o@) =~= string_views(logs@));
    }
}

fn tools_whl_next(state: ToolsDeploy, event: DeployEvent) -> (r: DeployStep<ToolsDeploy>)
    requires
        tools_event_fits(state, event),
        state.stage is WhlList || state.stage is WhlPush || state.stage is WhlInstall
            || state.stage is PillowCheck,
    ensures
        tools_transition(state, event, r),
{
    let ghost st = state;
    let ToolsDeploy { stage, paths, mut logs, mut whl_logs, whl } = state;
    match stage {
        ToolsStage::WhlList => {
            let listing = match event {
                DeployEvent::Listing(l) => l,
                _ => Err(String::new()),
            };
            match listing {
                Err(e) => tools_stop(&logs, concat("读取 whl 目录失败: ", e.as_str())),
                Ok(names) => {
                    let ws = whl_files(&names);
                    proof {
                        vstd::seq_lib::lemma_multiset_commutative(
                            whl_filter(string_views(names@)),
                            seq![],
                        );
                        broadcast use vstd::seq_lib::group_seq_properties;
                        broadcast use vstd::multiset::group_multiset_axioms;
                        assert(string_views(ws@).len() == ws@.len());
                    }
                    if ws.len() == 0 {
                        proof {
                            broadcast use vstd::seq_lib::group_seq_properties;
                            vstd::seq_lib::to_multiset_len(whl_filter(string_views(names@)));
                        vstd::seq_lib::to_multiset_len(string_views(ws@));
                        assert(string_views(ws@).to_multiset().len() == 0);
                        }
                        return tools_stop(
                            &logs,
                            concat("错误：未找到任何 .whl 文件，目录: ", paths.python_libs.as_str()),
                        );
                    }
                    proof {
                        vstd::seq_lib::to_multiset_len(whl_filter(string_views(names@)));
                        vstd::seq_lib::to_multiset_len(string_views(ws@));
                        assert(string_views(ws@).len() == ws@.len());
                        assert(whl_filter(string_views(names@)).len() == ws@.len());
                    }
                    let mut line = chars_of("找到 ");
                    crate::text::push_dec(&mut line, ws.len() as u64);
                    push_str(&mut line, " 个 whl 文件");
                    log_string(&mut whl_logs, string_of(line.as_slice()));
                    let local = LocalFile { dir: Some(paths.python_libs.clone()), name: ws[0].clone() };
                    let action = DeployAction::Push { local, remote: owned("/vismm/Python_lib/") };
                    tools_go(ToolsStage::WhlPush(0), paths, logs, whl_logs, ws, action)
                },
            }
        },
        ToolsStage::WhlPush(k) => {
            let b = match event {
                DeployEvent::Board(b) => b,
                _ => Err(String::new()),
            };
            let name = whl[k].clone();
            match check(b, concat("上传 whl 失败: ", name.as_str())) {
                Err(m) => tools_stop(&logs, m),
                Ok(_) => {
                    log_string(&mut whl_logs, concat("上传 whl: ", name.as_str()));
                    let action = DeployAction::Shell(cmd_pip_install(name.as_str()));
                    tools_go(ToolsStage::WhlInstall(k), paths, logs, whl_logs, whl, action)
                },
            }
        },
        ToolsStage::WhlInstall(k) => {
            let b = match event {
                DeployEvent::Board(b) => b,
                _ => Err(String::new()),
            };
            assert(k < whl@.len());
            let name = whl[k].clone();
            let cmd = cmd_pip_install(name.as_str());
            match check(b, concat("执行命令失败: ", cmd.as_str())) {
                Err(m) => tools_stop(&logs, m),
                Ok(o) => {
                    log_string(&mut whl_logs, concat("安装 whl: ", name.as_str()));
                    log_trimmed(&mut whl_logs, o.as_str());
                    if k < whl.len() - 1 {
                        let local = LocalFile {
                            dir: Some(paths.python_libs.clone()),
                            name: whl[k + 1].clone(),
                        };
                        let action = DeployAction::Push { local, remote: owned("/vismm/Python_lib/") };
                        tools_go(ToolsStage::WhlPush(k + 1), paths, logs, whl_logs, whl, action)
                    } else {
                        let action = DeployAction::Shell(cmd_pil_check());
                        tools_go(ToolsStage::PillowCheck, paths, logs, whl_logs, whl, action)
                    }
                },
            }
        },
        _ => {
            let b = match event {
                DeployEvent::Board(b) => b,
                _ => Err(String::new()),
            };
            let cmd = cmd_pil_check();
            match check(b, concat("执行命令失败: ", cmd.as_str())) {
                Err(m) => tools_stop(&logs, m),
                Ok(o) => {
                    let oc = chars_of(o.as_str());
                    if contains_str(oc.as_slice(), "9.5.0") {
                        log(&mut whl_logs, "Pillow 安装成功");
                    } else {
                        let t = trim_str(o.as_str());
                        log_string(&mut whl_logs, concat("Pillow 安装验证输出: ", t.as_str()));
                    }
                    append_logs(&mut logs, whl_logs);
                    let empty: Vec<String> = Vec::new();
                    assert(string_views(empty@) =~= Seq::<Seq<char>>::empty());
                    let action = check_path(&paths.deb_file);
                    tools_go(ToolsStage::DebCheck, paths, logs, empty, whl, action)
                },
            }
        },
    }
}

fn board_of(event: DeployEvent) -> (r: Result<AdbActionResult, String>)
    requires
        event is Board,
    ensures
        r == event->Board_0,
{
    match event {
        DeployEvent::Board(b) => b,
        _ => Err(String::new()),
    }
}

fn exists_of(event: &DeployEvent) -> (r: bool)
    requires
        event is Exists,
    ensures
        r == event->Exists_0,
{
    match event {
        DeployEvent::Exists(x) => *x,
        _ => false,
    }
}

fn tools_cpio_next(state: ToolsDeploy, event: DeployEvent) -> (r: DeployStep<ToolsDeploy>)
    requires
        tools_event_fits(state, event),
        state.stage is DebCheck || state.stage is PushDeb || state.stage is DpkgInstall
            || state.stage is DpkgVerify || state.stage is RepackCheck || state.stage is PushRepack
            || state.stage is ChmodRepack,
    ensures
        tools_transition(state, event, r),
{
    let ToolsDeploy { stage, paths, mut logs, whl_logs, whl } = state;
    match stage {
        ToolsStage::DebCheck => {
            if !exists_of(&event) {
                tools_stop(&logs, concat("缺少 cpio 安装包: ", paths.deb_file.as_str()))
            } else {
                let action = push_path(&paths.deb_file, "/tmp/cpio/cpio_2.13+dfsg-2ubuntu0.4_arm64.deb");
                tools_go(ToolsStage::PushDeb, paths, logs, whl_logs, whl, action)
            }
        },
        ToolsStage::PushDeb => match check(board_of(event), owned("上传 cpio 安装包失败")) {
            Err(m) => tools_stop(&logs, m),
            Ok(_) => {
                log(&mut logs, "已上传 cpio 安装包");
                let action = shell("dpkg -i /tmp/cpio/cpio_2.13+dfsg-2ubuntu0.4_arm64.deb");
                tools_go(ToolsStage::DpkgInstall, paths, logs, whl_logs, whl, action)
            },
        },
        ToolsStage::DpkgInstall => match check(
            board_of(event),
            owned("执行命令失败: dpkg -i /tmp/cpio/cpio_2.13+dfsg-2ubuntu0.4_arm64.deb"),
        ) {
            Err(m) => tools_stop(&logs, m),
            Ok(o) => {
                log(&mut logs, "已执行 cpio 安装");
                let ghost mid = string_views(logs@);
                let oc = chars_of(o.as_str());
                if contains_str(oc.as_slice(), "Setting up cpio") {
                    log(&mut logs, "cpio 安装成功");
                    assert(string_views(logs@) =~= mid + seq!["cpio 安装成功"@]);
                } else {
                    log_trimmed(&mut logs, o.as_str());
                }
                let action = shell("dpkg -l | grep cpio");
                tools_go(ToolsStage::DpkgVerify, paths, logs, whl_logs, whl, action)
            },
        },
        ToolsStage::DpkgVerify => match check(
            board_of(event),
            owned("执行命令失败: dpkg -l | grep cpio"),
        ) {
            Err(m) => tools_stop(&logs, m),
            Ok(o) => {
                let t = trim_str(o.as_str());
                log_string(&mut logs, concat("验证 cpio: ", t.as_str()));
                let action = check_path(&paths.repack_script);
                tools_go(ToolsStage::RepackCheck, paths, logs, whl_logs, whl, action)
            },
        },
        ToolsStage::RepackCheck => {
            if !exists_of(&event) {
                tools_stop(&logs, concat("缺少 repack_initrd.sh: ", paths.repack_script.as_str()))
            } else {
                let action = push_path(&paths.repack_script, "/vismm/tools/repack_initrd.sh");
                tools_go(ToolsStage::PushRepack, paths, logs, whl_logs, whl, action)
            }
        },
        ToolsStage::PushRepack => match check(board_of(event), owned("上传 repack_initrd.sh 失败")) {
            Err(m) => tools_stop(&logs, m),
            Ok(_) => {
                log(&mut logs, "已上传 repack_initrd.sh 到 /vismm/tools");
                let action = shell("chmod +x /vismm/tools/repack_initrd.sh");
                tools_go(ToolsStage::ChmodRepack, paths, logs, whl_logs, whl, action)
            },
        },
        _ => match check(
            board_of(event),
            owned("执行命令失败: chmod +x /vismm/tools/repack_initrd.sh"),
        ) {
            Err(m) => tools_stop(&logs, m),
            Ok(_) => {
                log(&mut logs, "已设置 /vismm/tools/repack_initrd.sh 可执行权限");
                let action = DeployAction::Shell(cmd_uenv_detect());
                tools_go(ToolsStage::UenvDetect, paths, logs, whl_logs, whl, action)
            },
        },
    }
}

fn tools_overlay_next(state: ToolsDeploy, event: DeployEvent) -> (r: DeployStep<ToolsDeploy>)
    requires
        tools_event_fits(state, event),
        state.stage is UenvDetect || state.stage is I2c4Check || state.stage is OverlayCheck
            || state.stage is LocalOverlayCheck || state.stage is PushOverlay
            || state.stage is UenvOverlayCheck || state.stage is UenvPatch,
    ensures
        tools_transition(state, event, r),
{
    let ToolsDeploy { stage, paths, mut logs, whl_logs, whl } = state;
    match stage {
        ToolsStage::UenvDetect => {
            let cmd = cmd_uenv_detect();
            match check(board_of(event), concat("执行命令失败: ", cmd.as_str())) {
                Err(m) => tools_stop(&logs, m),
                Ok(o) => {
                    let t = trim_str(o.as_str());
                    let tc = chars_of(t.as_str());
                    if crate::text::chars_eq_str(tc.as_slice(), "/boot/uEnv/uEnv.txt") {
                        log(&mut logs, "已验证 boot.cmd 当前从 /boot/uEnv/uEnv.txt 读取 overlay 配置");
                    } else {
                        let mut v = chars_of("未能明确验证实际生效 uEnv 文件，仍按 /boot/uEnv/uEnv.txt 处理（检测结果: ");
                        push_str(&mut v, t.as_str());
                        push_str(&mut v, "）");
                        log_string(&mut logs, string_of(v.as_slice()));
                    }
                    let action = DeployAction::Shell(cmd_i2c4_check());
                    tools_go(ToolsStage::I2c4Check, paths, logs, whl_logs, whl, action)
                },
            }
        },
        ToolsStage::I2c4Check => {
            let cmd = cmd_i2c4_check();
            match check(board_of(event), concat("执行命令失败: ", cmd.as_str())) {
                Err(m) => tools_stop(&logs, m),
                Ok(o) => {
                    let t = trim_str(o.as_str());
                    if crate::text::chars_eq_str(chars_of(t.as_str()).as_slice(), "yes") {
                        log(&mut logs, "检测到 /dev/i2c-4 已存在，跳过 i2c4-m2 保守修复");
                        tools_done(&logs)
                    } else {
                        log(&mut logs, "未检测到 /dev/i2c-4，开始检查 i2c4-m2 overlay");
                        let action = DeployAction::Shell(cmd_overlay_check());
                        tools_go(ToolsStage::OverlayCheck, paths, logs, whl_logs, whl, action)
                    }
                },
            }
        },
        ToolsStage::OverlayCheck => {
            let cmd = cmd_overlay_check();
            match check(board_of(event), concat("执行命令失败: ", cmd.as_str())) {
                Err(m) => tools_stop(&logs, m),
                Ok(o) => {
                    let t = trim_str(o.as_str());
                    if !crate::text::chars_eq_str(chars_of(t.as_str()).as_slice(), "yes") {
                        let action = check_path(&paths.overlay_file);
                        tools_go(ToolsStage::LocalOverlayCheck, paths, logs, whl_logs, whl, action)
                    } else {
                        log(&mut logs, "目标板已存在 /boot/dtb/overlay/rk3588-i2c4-m2-overlay.dtbo");
                        let action = DeployAction::Shell(cmd_uenv_overlay_check());
                        tools_go(ToolsStage::UenvOverlayCheck, paths, logs, whl_logs, whl, action)
                    }
                },
            }
        },
        ToolsStage::LocalOverlayCheck => {
            if !exists_of(&event) {
                tools_stop(
                    &logs,
                    concat("缺少 i2c4-m2 overlay 资源文件: ", paths.overlay_file.as_str()),
                )
            } else {
                let action = push_path(
                    &paths.overlay_file,
                    "/boot/dtb/overlay/rk3588-i2c4-m2-overlay.dtbo",
                );
                tools_go(ToolsStage::PushOverlay, paths, logs, whl_logs, whl, action)
            }
        },
        ToolsStage::PushOverlay => match check(
            board_of(event),
            owned("上传 rk3588-i2c4-m2-overlay.dtbo 失败"),
        ) {
            Err(m) => tools_stop(&logs, m),
            Ok(_) => {
                log(&mut logs, "已补齐 /boot/dtb/overlay/rk3588-i2c4-m2-overlay.dtbo");
                let action = DeployAction::Shell(cmd_uenv_overlay_check());
                tools_go(ToolsStage::UenvOverlayCheck, paths, logs, whl_logs, whl, action)
            },
        },
        ToolsStage::UenvOverlayCheck => {
            let cmd = cmd_uenv_overlay_check();
            match check(board_of(event), concat("执行命令失败: ", cmd.as_str())) {
                Err(m) => tools_stop(&logs, m),
                Ok(o) => {
                    let t = trim_str(o.as_str());
                    if crate::text::chars_eq_str(chars_of(t.as_str()).as_slice(), "yes") {
                        log(&mut logs, "/boot/uEnv/uEnv.txt 已启用 i2c4-m2 overlay");
                        log(&mut logs, "i2c4-m2 保守修复完成；如需生效，请手动重启设备");
                        tools_done(&logs)
                    } else {
                        let action = DeployAction::Shell(cmd_uenv_patch());
                        tools_go(ToolsStage::UenvPatch, paths, logs, whl_logs, whl, action)
                    }
                },
            }
        },
        _ => {
            let cmd = cmd_uenv_patch();
            match check(board_of(event), concat("执行命令失败: ", cmd.as_str())) {
                Err(m) => tools_stop(&logs, m),
                Ok(_) => {
                    log(&mut logs, "已在 /boot/uEnv/uEnv.txt 中补充 i2c4-m2 overlay 配置");
                    log(&mut logs, "i2c4-m2 保守修复完成；如需生效，请手动重启设备");
                    tools_done(&logs)
                },
            }
        },
    }
}

/// The lines of `l` start every extension of `l`.
proof fn lemma_prefix_extended(l: Seq<Seq<char>>)
    ensures
        forall|t: Seq<Seq<char>>| #[trigger] l.is_prefix_of(l + t),
        forall|x: Seq<char>| #[trigger] l.is_prefix_of(l.push(x)),
        l.is_prefix_of(l),
{
    assert forall|t: Seq<Seq<char>>| #[trigger] l.is_prefix_of(l + t) by {
        assert((l + t).subrange(0, l.len() as int) =~= l);
    }
    assert forall|x: Seq<char>| #[trigger] l.is_prefix_of(l.push(x)) by {
        assert(l.push(x).subrange(0, l.len() as int) =~= l);
    }
    assert(l.subrange(0, l.len() as int) =~= l);
}

/// A tools deployment only adds to its log: each step keeps the lines
/// logged so far, and when it ends, failed or not, its output starts with
/// them.
pub proof fn lemma_tools_log_kept(st: ToolsDeploy, ev: DeployEvent, r: DeployStep<ToolsDeploy>)
    requires
        tools_event_fits(st, ev),
        tools_transition(st, ev, r),
    ensures
        r matches DeployStep::Run(s, _) ==> tools_log(st).is_prefix_of(tools_log(s)),
        r matches DeployStep::Finish(g) ==> exists|ls: Seq<Seq<char>>|
            tools_log(st).is_prefix_of(ls) && #[trigger] join(ls, "\n"@) == g.output@,
{
    let l = tools_log(st);
    lemma_prefix_extended(l);
}

/// The i2c4-m2 repair never ends well before uEnv has been checked: a tools
/// deployment succeeds only at the i2c-4 check (when `/dev/i2c-4` exists
/// and no repair is needed), at the uEnv overlay check or after the uEnv
/// patch. Once the repair has started (overlay file check, local overlay
/// check, overlay push), each step leads on to the next of these or to the
/// uEnv overlay check, whatever the board answered; that check runs `grep`
/// for the overlay line of `/boot/uEnv/uEnv.txt`, and the patch is reached
/// only from it, when it did not find the line. The i2c-4 check ends the
/// deployment well only when the board reports `/dev/i2c-4`, and otherwise
/// goes on to check the overlay file; the uEnv check ends it well only when
/// the board found the overlay line.
pub proof fn lemma_tools_repair_checks_uenv(st: ToolsDeploy, ev: DeployEvent, r: DeployStep<ToolsDeploy>)
    requires
        tools_event_fits(st, ev),
        tools_transition(st, ev, r),
    ensures
        r matches DeployStep::Finish(g) ==> (g.success ==> st.stage is I2c4Check
            || st.stage is UenvOverlayCheck || st.stage is UenvPatch),
        (st.stage is OverlayCheck || st.stage is LocalOverlayCheck || st.stage is PushOverlay) ==> (
        r matches DeployStep::Run(s, _) ==> (s.stage is LocalOverlayCheck || s.stage is PushOverlay
            || s.stage is UenvOverlayCheck)),
        r matches DeployStep::Run(s, a) ==> (s.stage is UenvOverlayCheck ==> (a matches DeployAction::Shell(
            c,
        ) && c@
            == "if grep -q '^dtoverlay[[:space:]]*=[[:space:]]*/dtb/overlay/rk3588-i2c4-m2-overlay.dtbo$' /boot/uEnv/uEnv.txt; then echo yes; else echo no; fi"@)),
        r matches DeployStep::Run(s, _) ==> (s.stage is UenvPatch ==> st.stage is UenvOverlayCheck),
        r matches DeployStep::Finish(g) ==> (g.success && (st.stage is I2c4Check
            || st.stage is UenvOverlayCheck) ==> board_said(ev, "yes"@)),
        st.stage is I2c4Check && !board_said(ev, "yes"@) ==> (r matches DeployStep::Run(s, a) ==> (
        s.stage is OverlayCheck && (a matches DeployAction::Shell(c) && c@
            == "if [ -f /boot/dtb/overlay/rk3588-i2c4-m2-overlay.dtbo ]; then echo yes; else echo no; fi"@))),
        st.stage is UenvOverlayCheck ==> (r matches DeployStep::Run(s, a) ==> (s.stage is UenvPatch && (
        a matches DeployAction::Shell(c) && c@ == uenv_patch_cmd()))),
{
}

/// A board step that failed (the transport failed, or the command reported
/// failure).
pub open spec fn board_failed(ev: DeployEvent) -> bool {
    ev matches DeployEvent::Board(res) && (res is Err || !res->Ok_0.success)
}

/// The tools deployment runs its steps in a fixed order: directories,
/// `dist-packages` and its permissions, the wheel directory, the wheel list,
/// each wheel pushed then installed, the Pillow check, the `cpio` package
/// (checked, pushed, installed, verified), `repack_initrd.sh` (checked,
/// pushed, made executable), the uEnv detection, the i2c-4 check and the
/// overlay repair; no step is skipped or repeated, and a failed board step
/// ends the deployment with an error.
pub proof fn lemma_tools_step_order(st: ToolsDeploy, ev: DeployEvent, r: DeployStep<ToolsDeploy>)
    requires
        tools_event_fits(st, ev),
        tools_transition(st, ev, r),
    ensures
        board_failed(ev) ==> (r matches DeployStep::Finish(g) && !g.success),
        r matches DeployStep::Run(s, _) ==> match st.stage {
            ToolsStage::MkdirAll => s.stage is PushDist,
            ToolsStage::PushDist => s.stage is ChmodDist,
            ToolsStage::ChmodDist => s.stage is WhlMkdir,
            ToolsStage::WhlMkdir => s.stage is WhlChmod,
            ToolsStage::WhlChmod => s.stage is WhlList,
            ToolsStage::WhlList => s.stage == ToolsStage::WhlPush(0),
            ToolsStage::WhlPush(k) => s.stage == ToolsStage::WhlInstall(k),
            ToolsStage::WhlInstall(k) => (k + 1 < st.whl@.len() && s.stage == ToolsStage::WhlPush(
                (k + 1) as usize,
            )) || (k + 1 == st.whl@.len() && s.stage is PillowCheck),
            ToolsStage::PillowCheck => s.stage is DebCheck,
            ToolsStage::DebCheck => s.stage is PushDeb,
            ToolsStage::PushDeb => s.stage is DpkgInstall,
            ToolsStage::DpkgInstall => s.stage is DpkgVerify,
            ToolsStage::DpkgVerify => s.stage is RepackCheck,
            ToolsStage::RepackCheck => s.stage is PushRepack,
            ToolsStage::PushRepack => s.stage is ChmodRepack,
            ToolsStage::ChmodRepack => s.stage is UenvDetect,
            ToolsStage::UenvDetect => s.stage is I2c4Check,
            ToolsStage::I2c4Check => s.stage is OverlayCheck,
            ToolsStage::OverlayCheck => s.stage is LocalOverlayCheck || s.stage is UenvOverlayCheck,
            ToolsStage::LocalOverlayCheck => s.stage is PushOverlay,
            ToolsStage::PushOverlay => s.stage is UenvOverlayCheck,
            ToolsStage::UenvOverlayCheck => s.stage is UenvPatch,
            ToolsStage::UenvPatch => false,
        },
{
}

/// The board step succeeded and printed `s`, spaces around it aside.
pub open spec fn board_said(ev: DeployEvent, s: Seq<char>) -> bool {
    ev matches DeployEvent::Board(Ok(a)) && a.success && trim(a.output@) == s
}

/// Continues the tools deployment with the outcome of its last action:
/// board directories, `dist-packages`, the Python wheels, the `cpio`
/// package, `repack_initrd.sh`, then the i2c4-m2 overlay repair; the first
/// failure ends it with the log so far.
pub fn deploy_install_tools_next(state: ToolsDeploy, event: DeployEvent) -> (r: DeployStep<
    ToolsDeploy,
>)
    requires
        tools_event_fits(state, event),
    ensures
        tools_transition(state, event, r),
{
    match state.stage {
        ToolsStage::MkdirAll | ToolsStage::PushDist | ToolsStage::ChmodDist | ToolsStage::WhlMkdir
        | ToolsStage::WhlChmod => tools_setup_next(state, event),
        ToolsStage::WhlList | ToolsStage::WhlPush(_) | ToolsStage::WhlInstall(_)
        | ToolsStage::PillowCheck => tools_whl_next(state, event),
        ToolsStage::DebCheck | ToolsStage::PushDeb | ToolsStage::DpkgInstall
        | ToolsStage::DpkgVerify | ToolsStage::RepackCheck | ToolsStage::PushRepack
        | ToolsStage::ChmodRepack => tools_cpio_next(state, event),
        _ => tools_overlay_next(state, event),
    }
}

// ---------------------------------------------------------------------------
// The autorun bundle
// ---------------------------------------------------------------------------

/// The step of an autorun deployment that waits for its outcome.
pub enum BundleStage {
    CheckAutorun,
    ResolveServiceDir,
    CheckService1,
    CheckService2,
    RemoveOld,
    PushFbshow,
    ChmodFbshow,
    PushRoot,
    ChmodRoot,
    PushService,
    Reload,
    Enable,
    Restart,
}

/// An autorun deployment in progress: its step, its log, and what it found
/// so far (the script, the service directory, the service file and name).
pub struct BundleDeploy {
    pub stage: BundleStage,
    pub logs: Vec<String>,
    pub autorun: String,
    pub service_dir: String,
    pub service: String,
    pub service_name: String,
}

/// Either the next action, or the end with the log and the error, if any.
pub enum BundleStep {
    Run(BundleDeploy, DeployAction),
    Done(Vec<String>, Result<(), String>),
}

/// The event that the step waits for.
pub open spec fn bundle_event_fits(st: BundleDeploy, ev: DeployEvent) -> bool {
    match st.stage {
        BundleStage::CheckAutorun | BundleStage::CheckService1 | BundleStage::CheckService2 => ev is Checked,
        BundleStage::ResolveServiceDir => ev is Resolved,
        _ => ev is Board,
    }
}

/// The log of an autorun deployment state.
pub open spec fn bundle_log(s: BundleDeploy) -> Seq<Seq<char>> {
    string_views(s.logs@)
}

/// The deployment ended with `logs` and `err`.
pub open spec fn bundle_done(r: BundleStep, logs: Seq<Seq<char>>, err: Option<Seq<char>>) -> bool {
    r matches BundleStep::Done(l, res) && string_views(l@) == logs && match err {
        Some(m) => res is Err && res->Err_0@ == m,
        None => res is Ok,
    }
}

/// The deployment goes on to `stage` with these logs and findings.
pub open spec fn bundle_moved(
    r: BundleStep,
    stage: BundleStage,
    logs: Seq<Seq<char>>,
    autorun: Seq<char>,
    service_dir: Seq<char>,
    service: Seq<char>,
    name: Seq<char>,
) -> bool {
    r matches BundleStep::Run(s, _) && s.stage == stage && bundle_log(s) == logs && s.autorun@
        == autorun && s.service_dir@ == service_dir && s.service@ == service && s.service_name@
        == name
}

/// `prefix` and the trimmed output, as a log line, when the output is not blank.
pub open spec fn output_line(prefix: Seq<char>, o: Seq<char>) -> Seq<Seq<char>> {
    if trim(o).len() == 0 {
        seq![]
    } else {
        seq![prefix + trim(o)]
    }
}

/// How the autorun deployment reacts to the outcome of its step.
pub open spec fn bundle_transition(st: BundleDeploy, ev: DeployEvent, r: BundleStep) -> bool {
    let l = bundle_log(st);
    let a = st.autorun@;
    let d = st.service_dir@;
    let sv = st.service@;
    let n = st.service_name@;
    let b = ev->Board_0;
    match st.stage {
        BundleStage::CheckAutorun => {
            let path = ev->Checked_path@;
            let l2 = l.push("检查 autorun.py: "@ + path);
            if !ev->Checked_exists {
                bundle_done(r, l2, Some("缺少 autorun.py: "@ + path))
            } else {
                bundle_moved(r, BundleStage::ResolveServiceDir, l2, path, d, sv, n) && (r matches BundleStep::Run(
                    _,
                    DeployAction::ResolveDir { relative, legacy },
                ) && relative@ == "resources/deploy/fb-RunApp/default"@ && legacy is Some
                    && legacy->0@ == "fb_RunApp/default"@)
            }
        },
        BundleStage::ResolveServiceDir => match ev->Resolved_0 {
            Err(e) => bundle_done(r, l, Some(e@)),
            Ok(dir) => bundle_moved(
                r,
                BundleStage::CheckService1,
                l.push("service 目录: "@ + dir@),
                a,
                dir@,
                sv,
                n,
            ) && (r matches BundleStep::Run(_, DeployAction::CheckLocal(f)) && f.dir is Some
                && f.dir->0@ == dir@ && f.name@ == "big8k-autorun.service"@),
        },
        BundleStage::CheckService1 => {
            let path = ev->Checked_path@;
            if ev->Checked_exists {
                bundle_moved(
                    r,
                    BundleStage::RemoveOld,
                    l.push("使用 service 文件: "@ + path),
                    a,
                    d,
                    path,
                    "big8k-autorun.service"@,
                ) && runs_shell_b(r, "rm -f /vismm/autorun.py"@)
            } else {
                bundle_moved(r, BundleStage::CheckService2, l, a, d, sv, n) && (r matches BundleStep::Run(
                    _,
                    DeployAction::CheckLocal(f),
                ) && f.dir is Some && f.dir->0@ == d && f.name@ == "chenfeng-service.service"@)
            }
        },
        BundleStage::CheckService2 => {
            let path = ev->Checked_path@;
            if ev->Checked_exists {
                bundle_moved(
                    r,
                    BundleStage::RemoveOld,
                    l.push("使用 service 文件: "@ + path),
                    a,
                    d,
                    path,
                    "chenfeng-service.service"@,
                ) && runs_shell_b(r, "rm -f /vismm/autorun.py"@)
            } else {
                bundle_done(r, l, Some("缺少 autorun service 文件"@))
            }
        },
        BundleStage::RemoveOld => bundle_moved(
            r,
            BundleStage::PushFbshow,
            l.push("已删除旧 autorun.py"@),
            a,
            d,
            sv,
            n,
        ) && runs_push_b(r, a, "/vismm/fbshow/autorun.py"@),
        BundleStage::PushFbshow => match checked(b, "推送 /vismm/fbshow/autorun.py 失败"@) {
            Err(m) => bundle_done(r, l, Some(m)),
            Ok(_) => bundle_moved(
                r,
                BundleStage::ChmodFbshow,
                l.push("已推送 autorun.py -> /vismm/fbshow/autorun.py"@),
                a,
                d,
                sv,
                n,
            ) && runs_shell_b(r, "chmod 444 /vismm/fbshow/autorun.py"@),
        },
        BundleStage::ChmodFbshow => match checked(b, "执行命令失败: chmod 444 /vismm/fbshow/autorun.py"@) {
            Err(m) => bundle_done(r, l, Some(m)),
            Ok(_) => bundle_moved(
                r,
                BundleStage::PushRoot,
                l.push("已设置 /vismm/fbshow/autorun.py 权限"@),
                a,
                d,
                sv,
                n,
            ) && runs_push_b(r, a, "/vismm/autorun.py"@),
        },
        BundleStage::PushRoot => match checked(b, "推送 /vismm/autorun.py 失败"@) {
            Err(m) => bundle_done(r, l, Some(m)),
            Ok(_) => bundle_moved(
                r,
                BundleStage::ChmodRoot,
                l.push("已推送 autorun.py -> /vismm/autorun.py"@),
                a,
                d,
                sv,
                n,
            ) && runs_shell_b(r, "chmod 444 /vismm/autorun.py"@),
        },
        BundleStage::ChmodRoot => match checked(b, "执行命令失败: chmod 444 /vismm/autorun.py"@) {
            Err(m) => bundle_done(r, l, Some(m)),
            Ok(_) => bundle_moved(
                r,
                BundleStage::PushService,
                l.push("已设置 /vismm/autorun.py 权限"@),
                a,
                d,
                sv,
                n,
            ) && runs_push_b(r, sv, "/etc/systemd/system/"@ + n),
        },
        BundleStage::PushService => match checked(b, "推送 service 失败: "@ + n) {
            Err(m) => bundle_done(r, l, Some(m)),
            Ok(_) => bundle_moved(
                r,
                BundleStage::Reload,
                l.push("已推送 "@ + n + " -> /etc/systemd/system/"@ + n),
                a,
                d,
                sv,
                n,
            ) && runs_shell_b(r, "systemctl daemon-reload"@),
        },
        BundleStage::Reload => match checked(b, "执行命令失败: systemctl daemon-reload"@) {
            Err(m) => bundle_done(r, l, Some(m)),
            Ok(o) => bundle_moved(
                r,
                BundleStage::Enable,
                l.push("已执行 systemctl daemon-reload"@) + output_line("daemon-reload 输出: "@, o),
                a,
                d,
                sv,
                n,
            ) && runs_shell_b(r, "systemctl enable "@ + n),
        },
        BundleStage::Enable => match checked(b, "执行命令失败: systemctl enable "@ + n) {
            Err(m) => bundle_done(r, l, Some(m)),
            Ok(o) => bundle_moved(
                r,
                BundleStage::Restart,
                l.push("已执行 systemctl enable "@ + n) + output_line("enable 输出: "@, o),
                a,
                d,
                sv,
                n,
            ) && runs_shell_b(r, "systemctl restart "@ + n),
        },
        BundleStage::Restart => match checked(b, "执行命令失败: systemctl restart "@ + n) {
            Err(m) => bundle_done(r, l, Some(m)),
            Ok(o) => bundle_done(
                r,
                (l.push("已执行 systemctl restart "@ + n) + output_line("restart 输出: "@, o)).push(
                    "autorun 部署完成 ("@ + n + ")"@,
                ),
                None,
            ),
        },
    }
}

/// The next action of the autorun deployment is the shell command `c`.
pub open spec fn runs_shell_b(r: BundleStep, c: Seq<char>) -> bool {
    r matches BundleStep::Run(_, DeployAction::Shell(x)) && x@ == c
}

/// The next action of the autorun deployment pushes the file `path`.
pub open spec fn runs_push_b(r: BundleStep, path: Seq<char>, remote: Seq<char>) -> bool {
    r matches BundleStep::Run(_, DeployAction::Push { local, remote: m }) && local.dir is None
        && local.name@ == path && m@ == remote
}

fn bundle_go(
    stage: BundleStage,
    logs: Vec<String>,
    autorun: String,
    service_dir: String,
    service: String,
    service_name: String,
    action: DeployAction,
) -> (r: BundleStep)
    ensures
        r matches BundleStep::Run(s, x) && s.stage == stage && s.logs == logs && s.autorun == autorun
            && s.service_dir == service_dir && s.service == service && s.service_name
            == service_name && x == action,
{
    BundleStep::Run(BundleDeploy { stage, logs, autorun, service_dir, service, service_name }, action)
}

fn bundle_fail(logs: Vec<String>, m: String) -> (r: BundleStep)
    ensures
        bundle_done(r, string_views(logs@), Some(m@)),
{
    BundleStep::Done(logs, Err(m))
}

fn log_output(logs: &mut Vec<String>, prefix: &str, o: &str)
    ensures
        string_views(final(logs)@) == string_views(old(logs)@) + output_line(prefix@, o@),
{
    let t = trim_str(o);
    proof {
        crate::text::lemma_trim_empty(o@);
    }
    if chars_of(t.as_str()).len() > 0 {
        log_string(logs, concat(prefix, t.as_str()));
    } else {
        assert(string_views(logs@) + output_line(prefix@, o@) =~= string_views(logs@));
    }
}

/// Starts deploying the autorun bundle in `bundle_dir`, after `logs`: its
/// `autorun.py` is checked first.
pub fn autorun_bundle_start(bundle_dir: &str, logs: Vec<String>) -> (r: BundleStep)
    ensures
        r matches BundleStep::Run(s, DeployAction::CheckLocal(f)) && s.stage
            == BundleStage::CheckAutorun && bundle_log(s) == string_views(logs@).push(
            "开始部署 autorun bundle: "@ + bundle_dir@,
        ) && f.dir is Some && f.dir->0@ == bundle_dir@ && f.name@ == "autorun.py"@,
{
    let mut logs = logs;
    log_string(&mut logs, concat("开始部署 autorun bundle: ", bundle_dir));
    let f = LocalFile { dir: Some(owned(bundle_dir)), name: owned("autorun.py") };
    bundle_go(
        BundleStage::CheckAutorun,
        logs,
        String::new(),
        String::new(),
        String::new(),
        String::new(),
        DeployAction::CheckLocal(f),
    )
}

fn checked_of(event: DeployEvent) -> (r: (String, bool))
    requires
        event is Checked,
    ensures
        r.0 == event->Checked_path,
        r.1 == event->Checked_exists,
{
    match event {
        DeployEvent::Checked { path, exists } => (path, exists),
        _ => (String::new(), false),
    }
}

fn bundle_find_next(state: BundleDeploy, event: DeployEvent) -> (r: BundleStep)
    requires
        bundle_event_fits(state, event),
        state.stage is CheckAutorun || state.stage is ResolveServiceDir
            || state.stage is CheckService1 || state.stage is CheckService2
            || state.stage is RemoveOld,
    ensures
        bundle_transition(state, event, r),
{
    let BundleDeploy { stage, mut logs, autorun, service_dir, service, service_name } = state;
    match stage {
        BundleStage::CheckAutorun => {
            let (path, exists) = checked_of(event);
            log_string(&mut logs, concat("检查 autorun.py: ", path.as_str()));
            if !exists {
                let m = concat("缺少 autorun.py: ", path.as_str());
                return bundle_fail(logs, m);
            }
            let action = DeployAction::ResolveDir {
                relative: owned("resources/deploy/fb-RunApp/default"),
                legacy: Some(owned("fb_RunApp/default")),
            };
            bundle_go(BundleStage::ResolveServiceDir, logs, path, service_dir, service, service_name, action)
        },
        BundleStage::ResolveServiceDir => {
            let resolved = match event {
                DeployEvent::Resolved(x) => x,
                _ => Err(String::new()),
            };
            match resolved {
                Err(e) => bundle_fail(logs, e),
                Ok(dir) => {
                    log_string(&mut logs, concat("service 目录: ", dir.as_str()));
                    let f = LocalFile { dir: Some(dir.clone()), name: owned("big8k-autorun.service") };
                    bundle_go(
                        BundleStage::CheckService1,
                        logs,
                        autorun,
                        dir,
                        service,
                        service_name,
                        DeployAction::CheckLocal(f),
                    )
                },
            }
        },
        BundleStage::CheckService1 => {
            let (path, exists) = checked_of(event);
            if exists {
                log_string(&mut logs, concat("使用 service 文件: ", path.as_str()));
                bundle_go(
                    BundleStage::RemoveOld,
                    logs,
                    autorun,
                    service_dir,
                    path,
                    owned("big8k-autorun.service"),
                    shell("rm -f /vismm/autorun.py"),
                )
            } else {
                let f = LocalFile {
                    dir: Some(service_dir.clone()),
                    name: owned("chenfeng-service.service"),
                };
                bundle_go(
                    BundleStage::CheckService2,
                    logs,
                    autorun,
                    service_dir,
                    service,
                    service_name,
                    DeployAction::CheckLocal(f),
                )
            }
        },
        BundleStage::CheckService2 => {
            let (path, exists) = checked_of(event);
            if exists {
                log_string(&mut logs, concat("使用 service 文件: ", path.as_str()));
                bundle_go(
                    BundleStage::RemoveOld,
                    logs,
                    autorun,
                    service_dir,
                    path,
                    owned("chenfeng-service.service"),
                    shell("rm -f /vismm/autorun.py"),
                )
            } else {
                bundle_fail(logs, owned("缺少 autorun service 文件"))
            }
        },
        _ => {
            log(&mut logs, "已删除旧 autorun.py");
            let action = push_path(&autorun, "/vismm/fbshow/autorun.py");
            bundle_go(BundleStage::PushFbshow, logs, autorun, service_dir, service, service_name, action)
        },
    }
}

fn bundle_service_next(state: BundleDeploy, event: DeployEvent) -> (r: BundleStep)
    requires
        bundle_event_fits(state, event),
        state.stage is PushFbshow || state.stage is ChmodFbshow || state.stage is PushRoot
            || state.stage is ChmodRoot || state.stage is PushService || state.stage is Reload
            || state.stage is Enable || state.stage is Restart,
    ensures
        bundle_transition(state, event, r),
{
    let BundleDeploy { stage, mut logs, autorun, service_dir, service, service_name } = state;
    let b = board_of(event);
    match stage {
        BundleStage::PushFbshow => match check(b, owned("推送 /vismm/fbshow/autorun.py 失败")) {
            Err(m) => bundle_fail(logs, m),
            Ok(_) => {
                log(&mut logs, "已推送 autorun.py -> /vismm/fbshow/autorun.py");
                bundle_go(
                    BundleStage::ChmodFbshow,
                    logs,
                    autorun,
                    service_dir,
                    service,
                    service_name,
                    shell("chmod 444 /vismm/fbshow/autorun.py"),
                )
            },
        },
        BundleStage::ChmodFbshow => match check(
            b,
            owned("执行命令失败: chmod 444 /vismm/fbshow/autorun.py"),
        ) {
            Err(m) => bundle_fail(logs, m),
            Ok(_) => {
                log(&mut logs, "已设置 /vismm/fbshow/autorun.py 权限");
                let action = push_path(&autorun, "/vismm/autorun.py");
                bundle_go(BundleStage::PushRoot, logs, autorun, service_dir, service, service_name, action)
            },
        },
        BundleStage::PushRoot => match check(b, owned("推送 /vismm/autorun.py 失败")) {
            Err(m) => bundle_fail(logs, m),
            Ok(_) => {
                log(&mut logs, "已推送 autorun.py -> /vismm/autorun.py");
                bundle_go(
                    BundleStage::ChmodRoot,
                    logs,
                    autorun,
                    service_dir,
                    service,
                    service_name,
                    shell("chmod 444 /vismm/autorun.py"),
                )
            },
        },
        BundleStage::ChmodRoot => match check(b, owned("执行命令失败: chmod 444 /vismm/autorun.py")) {
            Err(m) => bundle_fail(logs, m),
            Ok(_) => {
                log(&mut logs, "已设置 /vismm/autorun.py 权限");
                let remote = concat("/etc/systemd/system/", service_name.as_str());
                let action = DeployAction::Push {
                    local: LocalFile { dir: None, name: service.clone() },
                    remote,
                };
                bundle_go(BundleStage::PushService, logs, autorun, service_dir, service, service_name, action)
            },
        },
        BundleStage::PushService => match check(b, concat("推送 service 失败: ", service_name.as_str())) {
            Err(m) => bundle_fail(logs, m),
            Ok(_) => {
                let mut v = chars_of("已推送 ");
                push_str(&mut v, service_name.as_str());
                push_str(&mut v, " -> /etc/systemd/system/");
                push_str(&mut v, service_name.as_str());
                log_string(&mut logs, string_of(v.as_slice()));
                bundle_go(
                    BundleStage::Reload,
                    logs,
                    autorun,
                    service_dir,
                    service,
                    service_name,
                    shell("systemctl daemon-reload"),
                )
            },
        },
        BundleStage::Reload => match check(b, owned("执行命令失败: systemctl daemon-reload")) {
            Err(m) => bundle_fail(logs, m),
            Ok(o) => {
                log(&mut logs, "已执行 systemctl daemon-reload");
                log_output(&mut logs, "daemon-reload 输出: ", o.as_str());
                let c = concat("systemctl enable ", service_name.as_str());
                bundle_go(
                    BundleStage::Enable,
                    logs,
                    autorun,
                    service_dir,
                    service,
                    service_name,
                    DeployAction::Shell(c),
                )
            },
        },
        BundleStage::Enable => {
            match check(b, concat("执行命令失败: systemctl enable ", service_name.as_str())) {
                Err(m) => bundle_fail(logs, m),
                Ok(o) => {
                    log_string(&mut logs, concat("已执行 systemctl enable ", service_name.as_str()));
                    log_output(&mut logs, "enable 输出: ", o.as_str());
                    let c2 = concat("systemctl restart ", service_name.as_str());
                    bundle_go(
                        BundleStage::Restart,
                        logs,
                        autorun,
                        service_dir,
                        service,
                        service_name,
                        DeployAction::Shell(c2),
                    )
                },
            }
        },
        _ => {
            match check(b, concat("执行命令失败: systemctl restart ", service_name.as_str())) {
                Err(m) => bundle_fail(logs, m),
                Ok(o) => {
                    log_string(&mut logs, concat("已执行 systemctl restart ", service_name.as_str()));
                    log_output(&mut logs, "restart 输出: ", o.as_str());
                    let mut v = chars_of("autorun 部署完成 (");
                    push_str(&mut v, service_name.as_str());
                    push_str(&mut v, ")");
                    log_string(&mut logs, string_of(v.as_slice()));
                    BundleStep::Done(logs, Ok(()))
                },
            }
        },
    }
}

/// The autorun deployment runs its steps in a fixed order: `autorun.py`
/// checked, the service directory found, the service file looked for (the
/// new name, then the old one), the old script removed, `autorun.py` pushed
/// to `/vismm/fbshow` and made read-only, pushed to `/vismm` and made
/// read-only, the service pushed, then `daemon-reload`, `enable` and
/// `restart`. No step is skipped or repeated, a failed board step ends it
/// with an error, and it ends well only after the restart.
pub proof fn lemma_bundle_step_order(st: BundleDeploy, ev: DeployEvent, r: BundleStep)
    requires
        bundle_event_fits(st, ev),
        bundle_transition(st, ev, r),
    ensures
        board_failed(ev) && !(st.stage is RemoveOld) ==> (r matches BundleStep::Done(_, res) && res is Err),
        r matches BundleStep::Done(_, res) ==> (res is Ok ==> st.stage is Restart),
        r matches BundleStep::Run(s, _) ==> match st.stage {
            BundleStage::CheckAutorun => s.stage is ResolveServiceDir,
            BundleStage::ResolveServiceDir => s.stage is CheckService1,
            BundleStage::CheckService1 => s.stage is RemoveOld || s.stage is CheckService2,
            BundleStage::CheckService2 => s.stage is RemoveOld,
            BundleStage::RemoveOld => s.stage is PushFbshow,
            BundleStage::PushFbshow => s.stage is ChmodFbshow,
            BundleStage::ChmodFbshow => s.stage is PushRoot,
            BundleStage::PushRoot => s.stage is ChmodRoot,
            BundleStage::ChmodRoot => s.stage is PushService,
            BundleStage::PushService => s.stage is Reload,
            BundleStage::Reload => s.stage is Enable,
            BundleStage::Enable => s.stage is Restart,
            BundleStage::Restart => false,
        },
{
}

/// An autorun deployment only adds to its log: each step keeps the lines
/// logged so far, and its end hands them on, in order, at the start of its
/// log.
pub proof fn lemma_bundle_log_kept(st: BundleDeploy, ev: DeployEvent, r: BundleStep)
    requires
        bundle_event_fits(st, ev),
        bundle_transition(st, ev, r),
    ensures
        r matches BundleStep::Run(s, _) ==> bundle_log(st).is_prefix_of(bundle_log(s)),
        r matches BundleStep::Done(logs, _) ==> bundle_log(st).is_prefix_of(string_views(logs@)),
{
    lemma_prefix_extended(bundle_log(st));
}

/// Continues an autorun deployment with the outcome of its last action:
/// `autorun.py` is found, then the service file, the old script removed, the
/// script pushed to `/vismm/fbshow` and `/vismm` (read-only), the service
/// installed, enabled and restarted; the first failure ends it.
pub fn autorun_bundle_next(state: BundleDeploy, event: DeployEvent) -> (r: BundleStep)
    requires
        bundle_event_fits(state, event),
    ensures
        bundle_transition(state, event, r),
{
    match state.stage {
        BundleStage::CheckAutorun | BundleStage::ResolveServiceDir | BundleStage::CheckService1
        | BundleStage::CheckService2 | BundleStage::RemoveOld => bundle_find_next(state, event),
        _ => bundle_service_next(state, event),
    }
}

/// The result of a deployment that ends with the autorun bundle: its log,
/// with `success_message` appended on success.
pub fn autorun_bundle_result(logs: Vec<String>, outcome: Result<(), String>, success_message: &str) -> (r:
    GenericResult)
    ensures
        match outcome {
            Ok(_) => is_finish(r, string_views(logs@).push(success_message@), None),
            Err(e) => is_finish(r, string_views(logs@), Some(e@)),
        },
{
    let mut logs = logs;
    match outcome {
        Ok(_) => {
            log(&mut logs, success_message);
            finish(&logs, None)
        },
        Err(e) => finish(&logs, Some(e)),
    }
}

/// The autorun bundles that can be deployed on their own.
pub enum AutorunBundle {
    /// A white screen at boot.
    DefaultPattern,
    /// A video played at boot.
    DefaultMovie,
    /// Images shown in a loop.
    LoopImages,
}

/// The resource directory of a bundle, its legacy name, and the message of
/// its deployment.
pub open spec fn bundle_resources(b: AutorunBundle) -> (Seq<char>, Seq<char>, Seq<char>) {
    match b {
        AutorunBundle::DefaultPattern => (
            "resources/deploy/fb-RunApp/default"@,
            "fb_RunApp/default"@,
            "开机刷白脚本推送完成并运行"@,
        ),
        AutorunBundle::DefaultMovie => (
            "resources/deploy/fb-RunApp/default_movie"@,
            "fb_RunApp/default_movie"@,
            "开机自动播放视频脚本推送完成并运行"@,
        ),
        AutorunBundle::LoopImages => (
            "resources/deploy/fb-RunApp/default_bmp"@,
            "fb_RunApp/default_bmp"@,
            "循环播放图片脚本推送完成并运行！"@,
        ),
    }
}

/// The resource directory of a bundle, its legacy name, and its message.
pub fn autorun_bundle_resources(b: &AutorunBundle) -> (r: (String, String, String))
    ensures
        (r.0@, r.1@, r.2@) == bundle_resources(*b),
{
    match b {
        AutorunBundle::DefaultPattern => (
            owned("resources/deploy/fb-RunApp/default"),
            owned("fb_RunApp/default"),
            owned("开机刷白脚本推送完成并运行"),
        ),
        AutorunBundle::DefaultMovie => (
            owned("resources/deploy/fb-RunApp/default_movie"),
            owned("fb_RunApp/default_movie"),
            owned("开机自动播放视频脚本推送完成并运行"),
        ),
        AutorunBundle::LoopImages => (
            owned("resources/deploy/fb-RunApp/default_bmp"),
            owned("fb_RunApp/default_bmp"),
            owned("循环播放图片脚本推送完成并运行！"),
        ),
    }
}

/// Starts deploying a bundle once its directory is resolved.
pub fn deploy_named_autorun_bundle(bundle_dir: Result<String, String>) -> (r: Result<
    BundleStep,
    GenericResult,
>)
    ensures
        match bundle_dir {
            Err(e) => r is Err && is_finish(r->Err_0, seq![], Some(e@)),
            Ok(d) => r matches Ok(BundleStep::Run(s, DeployAction::CheckLocal(f))) && s.stage
                == BundleStage::CheckAutorun && bundle_log(s) == seq!["开始部署 autorun bundle: "@ + d@]
                && f.dir is Some && f.dir->0@ == d@ && f.name@ == "autorun.py"@,
        },
{
    let logs: Vec<String> = Vec::new();
    assert(string_views(logs@) =~= Seq::<Seq<char>>::empty());
    match bundle_dir {
        Err(e) => Err(finish(&logs, Some(e))),
        Ok(d) => {
            let r = autorun_bundle_start(d.as_str(), logs);
            assert(Seq::<Seq<char>>::empty().push("开始部署 autorun bundle: "@ + d@) =~= seq![
                "开始部署 autorun bundle: "@ + d@,
            ]);
            Ok(r)
        },
    }
}

// ---------------------------------------------------------------------------
// Boot target
// ---------------------------------------------------------------------------

/// The step of a boot target change that waits for its outcome.
pub enum TargetStage {
    SetDefault,
    Reboot,
}

/// A boot target change in progress.
pub struct TargetChange {
    pub stage: TargetStage,
    pub target: String,
    pub logs: Vec<String>,
}

/// Starts making `target` the default boot target.
pub fn set_default_target_start(target: &str) -> (r: DeployStep<TargetChange>)
    ensures
        r matches DeployStep::Run(s, DeployAction::Shell(c)) && s.stage == TargetStage::SetDefault
            && s.target@ == target@ && s.logs@.len() == 0 && c@ == "systemctl set-default "@
            + target@,
{
    DeployStep::Run(
        TargetChange { stage: TargetStage::SetDefault, target: owned(target), logs: Vec::new() },
        DeployAction::Shell(concat("systemctl set-default ", target)),
    )
}

/// Continues a boot target change: the default target is set, then the
/// board reboots; each step logs its trimmed output.
pub fn set_default_target_next(state: TargetChange, event: Result<AdbActionResult, String>) -> (r:
    DeployStep<TargetChange>)
    ensures
        match state.stage {
            TargetStage::SetDefault => match checked(
                event,
                "执行命令失败: systemctl set-default "@ + state.target@,
            ) {
                Err(m) => stopped(r, string_views(state.logs@), m),
                Ok(o) => r matches DeployStep::Run(s, DeployAction::Shell(c)) && s.stage
                    == TargetStage::Reboot && s.target == state.target && string_views(s.logs@)
                    == string_views(state.logs@).push("已切换为 "@ + state.target@) + trimmed_line(o)
                    && c@ == "reboot"@,
            },
            TargetStage::Reboot => match checked(event, "执行命令失败: reboot"@) {
                Err(m) => stopped(r, string_views(state.logs@), m),
                Ok(o) => succeeded(
                    r,
                    string_views(state.logs@).push("已执行 reboot"@) + trimmed_line(o),
                ),
            },
        },
{
    let TargetChange { stage, target, mut logs } = state;
    match stage {
        TargetStage::SetDefault => match check(
            event,
            concat("执行命令失败: systemctl set-default ", target.as_str()),
        ) {
            Err(m) => DeployStep::Finish(finish(&logs, Some(m))),
            Ok(o) => {
                log_string(&mut logs, concat("已切换为 ", target.as_str()));
                log_trimmed(&mut logs, o.as_str());
                DeployStep::Run(
                    TargetChange { stage: TargetStage::Reboot, target, logs },
                    shell("reboot"),
                )
            },
        },
        TargetStage::Reboot => match check(event, owned("执行命令失败: reboot")) {
            Err(m) => DeployStep::Finish(finish(&logs, Some(m))),
            Ok(o) => {
                log(&mut logs, "已执行 reboot");
                log_trimmed(&mut logs, o.as_str());
                DeployStep::Finish(finish(&logs, None))
            },
        },
    }
}

// ---------------------------------------------------------------------------
// The display application
// ---------------------------------------------------------------------------

/// File `i` of the application and where it goes on the board.
pub open spec fn app_file(i: int) -> (Seq<char>, Seq<char>) {
    if i == 0 {
        ("vismpwr"@, "/usr/local/bin/vismpwr"@)
    } else if i == 1 {
        ("disableService.sh"@, "/vismm/disableService.sh"@)
    } else if i == 2 {
        ("repack_initrd.sh"@, "/usr/local/bin/repack_initrd.sh"@)
    } else if i == 3 {
        ("fbShowBmp"@, "/vismm/fbshow/fbShowBmp"@)
    } else if i == 4 {
        ("fbShowPattern"@, "/vismm/fbshow/fbShowPattern"@)
    } else if i == 5 {
        ("fbShowMovie"@, "/vismm/fbshow/fbShowMovie"@)
    } else {
        ("xdotool"@, "/usr/bin/xdotool"@)
    }
}

/// Permission command `i` of the application.
pub open spec fn app_chmod(i: int) -> Seq<char> {
    if i == 0 {
        "chmod +x /usr/local/bin/vismpwr"@
    } else if i == 1 {
        "chmod +x /vismm/disableService.sh"@
    } else if i == 2 {
        "chmod +x /usr/local/bin/repack_initrd.sh"@
    } else if i == 3 {
        "chmod 777 /vismm/fbshow/fbShowBmp"@
    } else if i == 4 {
        "chmod 777 /vismm/fbshow/fbShowPattern"@
    } else if i == 5 {
        "chmod 777 /vismm/fbshow/fbShowMovie"@
    } else if i == 6 {
        "chmod 777 /usr/bin/xdotool"@
    } else {
        "chmod +x /vismm/disableService.sh"@
    }
}

/// Cursor-blink service command `i`.
pub open spec fn app_cursor(i: int) -> Seq<char> {
    if i == 0 {
        "systemctl enable disable-cursor-blink.service"@
    } else {
        "systemctl start disable-cursor-blink.service"@
    }
}

fn app_file_of(i: usize) -> (r: (String, String))
    requires
        i < 7,
    ensures
        (r.0@, r.1@) == app_file(i as int),
{
    if i == 0 {
        (owned("vismpwr"), owned("/usr/local/bin/vismpwr"))
    } else if i == 1 {
        (owned("disableService.sh"), owned("/vismm/disableService.sh"))
    } else if i == 2 {
        (owned("repack_initrd.sh"), owned("/usr/local/bin/repack_initrd.sh"))
    } else if i == 3 {
        (owned("fbShowBmp"), owned("/vismm/fbshow/fbShowBmp"))
    } else if i == 4 {
        (owned("fbShowPattern"), owned("/vismm/fbshow/fbShowPattern"))
    } else if i == 5 {
        (owned("fbShowMovie"), owned("/vismm/fbshow/fbShowMovie"))
    } else {
        (owned("xdotool"), owned("/usr/bin/xdotool"))
    }
}

fn app_chmod_of(i: usize) -> (r: String)
    requires
        i < 8,
    ensures
        r@ == app_chmod(i as int),
{
    if i == 0 {
        owned("chmod +x /usr/local/bin/vismpwr")
    } else if i == 1 {
        owned("chmod +x /vismm/disableService.sh")
    } else if i == 2 {
        owned("chmod +x /usr/local/bin/repack_initrd.sh")
    } else if i == 3 {
        owned("chmod 777 /vismm/fbshow/fbShowBmp")
    } else if i == 4 {
        owned("chmod 777 /vismm/fbshow/fbShowPattern")
    } else if i == 5 {
        owned("chmod 777 /vismm/fbshow/fbShowMovie")
    } else if i == 6 {
        owned("chmod 777 /usr/bin/xdotool")
    } else {
        owned("chmod +x /vismm/disableService.sh")
    }
}

fn app_cursor_of(i: usize) -> (r: String)
    ensures
        r@ == app_cursor(i as int),
{
    if i == 0 {
        owned("systemctl enable disable-cursor-blink.service")
    } else {
        owned("systemctl start disable-cursor-blink.service")
    }
}

/// A file name whose extension is exactly `py`.
pub open spec fn is_py_name(name: Seq<char>) -> bool {
    match last_dot(name) {
        Some(d) => d > 0 && name.skip(d + 1) == "py"@,
        None => false,
    }
}

/// The Python files among the names, in the given order.
pub open spec fn py_filter(names: Seq<Seq<char>>) -> Seq<Seq<char>>
    decreases names.len(),
{
    if names.len() == 0 {
        seq![]
    } else if is_py_name(names.last()) {
        py_filter(names.drop_last()).push(names.last())
    } else {
        py_filter(names.drop_last())
    }
}

fn py_name(name: &str) -> (r: bool)
    ensures
        r == is_py_name(name@),
{
    let cs = chars_of(name);
    let mut i = cs.len();
    while i > 0 && cs[i - 1] != '.'
        invariant
            0 <= i <= cs.len(),
            cs@ == name@,
            forall|j: int| i <= j < cs.len() ==> #[trigger] cs@[j] != '.',
        decreases i,
    {
        i = i - 1;
    }
    proof {
        lemma_last_dot(name@, i as int);
        if i > 0 {
            assert(name@.take(i as int).last() == '.');
        } else {
            assert(name@.take(0).len() == 0);
        }
    }
    if i <= 1 {
        return false;
    }
    let ext = crate::text::slice_range(cs.as_slice(), i, cs.len());
    assert(ext@ == name@.skip(i as int));
    crate::text::chars_eq_str(ext.as_slice(), "py")
}

/// The Python files of a directory listing, in its order.
pub fn py_files(names: &Vec<String>) -> (r: Vec<String>)
    ensures
        string_views(r@) == py_filter(string_views(names@)),
{
    let ghost nv = string_views(names@);
    let mut out: Vec<String> = Vec::new();
    let mut i: usize = 0;
    assert(string_views(out@) =~= py_filter(nv.take(0)));
    while i < names.len()
        invariant
            0 <= i <= names.len(),
            nv == string_views(names@),
            nv.len() == names@.len(),
            string_views(out@) == py_filter(nv.take(i as int)),
        decreases names.len() - i,
    {
        assert(nv.take(i + 1).drop_last() == nv.take(i as int));
        assert(nv.take(i + 1).last() == names@[i as int]@);
        if py_name(names[i].as_str()) {
            log_string(&mut out, names[i].clone());
        }
        i = i + 1;
    }
    assert(nv.take(names.len() as int) == nv);
    out
}

/// The step of the application deployment that waits for its outcome.
pub enum AppStage {
    Mkdir,
    CheckFile(usize),
    PushFile(usize),
    ListPy,
    PushPy(usize),
    Chmod(usize),
    DisableService,
    Cursor(usize),
    ResolveBundle,
    Bundle(BundleDeploy),
}

/// An application deployment in progress: its step, the `fb_operate`
/// directory, its log, and the Python files to push.
pub struct AppDeploy {
    pub stage: AppStage,
    pub fb_operate: String,
    pub logs: Vec<String>,
    pub py: Vec<String>,
}

/// The event that the step waits for, with the step's index in range.
pub open spec fn app_event_fits(st: AppDeploy, ev: DeployEvent) -> bool {
    match st.stage {
        AppStage::CheckFile(i) => ev is Checked && i < 7,
        AppStage::PushFile(i) => ev is Board && i < 7,
        AppStage::ListPy => ev is Listing,
        AppStage::PushPy(k) => ev is Board && k < st.py@.len(),
        AppStage::Chmod(i) => ev is Board && i < 8,
        AppStage::Cursor(i) => ev is Board && i < 2,
        AppStage::ResolveBundle => ev is Resolved,
        AppStage::Bundle(b) => bundle_event_fits(b, ev),
        _ => ev is Board,
    }
}

/// The application deployment goes on to `stage` with `logs`.
pub open spec fn app_moved(r: DeployStep<AppDeploy>, st: AppDeploy, stage: AppStage, logs: Seq<Seq<char>>) -> bool {
    r matches DeployStep::Run(s, _) && s.stage == stage && s.fb_operate == st.fb_operate
        && string_views(s.logs@) == logs
}

/// Where the application deployment goes after file `i` (from 0): the next
/// file is checked, or the directory is listed for Python files.
pub open spec fn app_after_file(r: DeployStep<AppDeploy>, st: AppDeploy, i: int, logs: Seq<Seq<char>>) -> bool {
    if i + 1 < 7 {
        app_moved(r, st, AppStage::CheckFile((i + 1) as usize), logs) && (r matches DeployStep::Run(
            _,
            DeployAction::CheckLocal(f),
        ) && f.dir is Some && f.dir->0@ == st.fb_operate@ && f.name@ == app_file(i + 1).0)
    } else {
        app_moved(r, st, AppStage::ListPy, logs) && (r matches DeployStep::Run(_, DeployAction::ListDir(d))
            && d@ == st.fb_operate@)
    }
}

/// Where the application deployment goes after Python file `k`: the next
/// one is pushed to `/vismm/fbshow`, or the permissions are set.
pub open spec fn app_after_py(r: DeployStep<AppDeploy>, st: AppDeploy, k: int, py: Seq<Seq<char>>, logs: Seq<Seq<char>>) -> bool {
    &&& r matches DeployStep::Run(s, _) && string_views(s.py@) == py
    &&& if k < py.len() {
        app_moved(r, st, AppStage::PushPy(k as usize), logs) && runs_push(
            r,
            Some(st.fb_operate@),
            py[k],
            "/vismm/fbshow/"@ + py[k],
        )
    } else {
        app_moved(r, st, AppStage::Chmod(0), logs) && runs_shell(r, app_chmod(0))
    }
}

/// The log line of a push of `name` to `remote` whose result is `ev`.
pub open spec fn push_log(name: Seq<char>, remote: Seq<char>, ev: Result<AdbActionResult, String>) -> Seq<char> {
    match ev {
        Ok(a) => if a.success {
            "推送 "@ + name + " -> "@ + remote
        } else {
            "推送 "@ + name + " 失败: "@ + error_or(a.error, Seq::<char>::empty())
        },
        Err(e) => "推送 "@ + name + " 异常: "@ + e@,
    }
}

/// A board step that succeeded.
pub open spec fn board_ok(ev: Result<AdbActionResult, String>) -> bool {
    ev matches Ok(a) && a.success
}

/// How the application deployment reacts to the outcome of its step.
pub open spec fn app_transition(st: AppDeploy, ev: DeployEvent, r: DeployStep<AppDeploy>) -> bool {
    let l = string_views(st.logs@);
    let b = ev->Board_0;
    let py = string_views(st.py@);
    &&& (st.stage !is ListPy ==> (r matches DeployStep::Run(s, _) ==> string_views(s.py@) == py))
    &&& match st.stage {
        AppStage::Mkdir => match b {
            Err(e) => stopped(r, l, "创建目录异常: "@ + e@),
            Ok(a) => if !a.success {
                stopped(r, l, "创建目录失败: "@ + error_or(a.error, Seq::<char>::empty()))
            } else {
                app_moved(
                    r,
                    st,
                    AppStage::CheckFile(0),
                    l.push("创建目录: /vismm/fbshow/movie_online, /vismm/fbshow/bmp_online"@),
                ) && (r matches DeployStep::Run(_, DeployAction::CheckLocal(f)) && f.dir is Some
                    && f.dir->0@ == st.fb_operate@ && f.name@ == app_file(0).0)
            },
        },
        AppStage::CheckFile(i) => if !ev->Checked_exists {
            app_after_file(r, st, i as int, l.push("跳过不存在的文件: "@ + app_file(i as int).0))
        } else {
            app_moved(r, st, AppStage::PushFile(i), l) && runs_push(
                r,
                None,
                ev->Checked_path@,
                app_file(i as int).1,
            )
        },
        AppStage::PushFile(i) => app_after_file(
            r,
            st,
            i as int,
            l.push(push_log(app_file(i as int).0, app_file(i as int).1, b)),
        ),
        AppStage::ListPy => {
            let found = match ev->Listing_0 {
                Ok(names) => py_filter(string_views(names@)),
                Err(_) => seq![],
            };
            app_after_py(r, st, 0, found, l)
        },
        AppStage::PushPy(k) => app_after_py(
            r,
            st,
            k + 1,
            py,
            l.push(push_log(py[k as int], "/vismm/fbshow/"@, b)),
        ),
        AppStage::Chmod(i) => {
            let l2 = l.push(
                if board_ok(b) {
                    "权限设置: "@
                } else {
                    "权限设置失败: "@
                } + app_chmod(i as int),
            );
            if i + 1 < 8 {
                app_moved(r, st, AppStage::Chmod((i + 1) as usize), l2) && runs_shell(
                    r,
                    app_chmod(i + 1),
                )
            } else {
                app_moved(r, st, AppStage::DisableService, l2) && runs_shell(
                    r,
                    "/vismm/disableService.sh"@,
                )
            }
        },
        AppStage::DisableService => app_moved(
            r,
            st,
            AppStage::Cursor(0),
            l.push(
                if board_ok(b) {
                    "执行 disableService.sh 完成"@
                } else {
                    "执行 disableService.sh 失败"@
                },
            ),
        ) && runs_shell(r, app_cursor(0)),
        AppStage::Cursor(i) => {
            let l2 = l.push(
                if board_ok(b) {
                    "执行: "@
                } else {
                    "执行失败: "@
                } + app_cursor(i as int),
            );
            if i == 0 {
                app_moved(r, st, AppStage::Cursor(1), l2) && runs_shell(r, app_cursor(1))
            } else {
                app_moved(r, st, AppStage::ResolveBundle, l2) && (r matches DeployStep::Run(
                    _,
                    DeployAction::ResolveDir { relative, legacy },
                ) && relative@ == "resources/deploy/fb-RunApp/default"@ && legacy is Some
                    && legacy->0@ == "fb_RunApp/default"@)
            }
        },
        AppStage::ResolveBundle => match ev->Resolved_0 {
            Err(e) => stopped(r, l, e@),
            Ok(d) => r matches DeployStep::Run(s, DeployAction::CheckLocal(f)) && s.fb_operate
                == st.fb_operate && (s.stage matches AppStage::Bundle(bd) && bd.stage
                == BundleStage::CheckAutorun && bundle_log(bd) == l.push(
                "开始部署 autorun bundle: "@ + d@,
            )) && f.dir is Some && f.dir->0@ == d@ && f.name@ == "autorun.py"@,
        },
        AppStage::Bundle(bd) => exists|next: BundleStep|
            #![trigger bundle_transition(bd, ev, next)]
            bundle_transition(bd, ev, next) && match next {
                BundleStep::Run(b2, a) => r matches DeployStep::Run(s, x) && x == a && s.fb_operate
                    == st.fb_operate && s.stage == AppStage::Bundle(b2),
                BundleStep::Done(logs, res) => match res {
                    Ok(_) => succeeded(r, string_views(logs@).push("Install App 完成"@)),
                    Err(e) => stopped(r, string_views(logs@), e@),
                },
            },
    }
}

fn app_go(stage: AppStage, fb_operate: String, logs: Vec<String>, py: Vec<String>, action: DeployAction) -> (r:
    DeployStep<AppDeploy>)
    ensures
        r matches DeployStep::Run(s, x) && s.stage == stage && s.fb_operate == fb_operate && s.logs
            == logs && s.py == py && x == action,
{
    DeployStep::Run(AppDeploy { stage, fb_operate, logs, py }, action)
}

/// Starts the application deployment once `fb_operate` is found: the
/// movie and BMP directories are created first.
pub fn deploy_install_app_start(fb_operate: Result<String, String>) -> (r: DeployStep<AppDeploy>)
    ensures
        match fb_operate {
            Err(e) => stopped(r, seq![], e@),
            Ok(d) => r matches DeployStep::Run(s, DeployAction::Shell(c)) && s.stage == AppStage::Mkdir
                && s.fb_operate@ == d@ && s.logs@.len() == 0 && s.py@.len() == 0 && c@
                == "mkdir -p /vismm/fbshow/movie_online && mkdir -p /vismm/fbshow/bmp_online"@,
        },
{
    let logs: Vec<String> = Vec::new();
    assert(string_views(logs@) =~= Seq::<Seq<char>>::empty());
    match fb_operate {
        Err(e) => DeployStep::Finish(finish(&logs, Some(e))),
        Ok(d) => app_go(
            AppStage::Mkdir,
            d,
            logs,
            Vec::new(),
            shell("mkdir -p /vismm/fbshow/movie_online && mkdir -p /vismm/fbshow/bmp_online"),
        ),
    }
}

fn app_next_file(i: usize, fb_operate: String, logs: Vec<String>, py: Vec<String>) -> (r: DeployStep<
    AppDeploy,
>)
    requires
        i < 7,
    ensures
        r matches DeployStep::Run(s, _) && s.fb_operate == fb_operate && s.logs == logs && s.py == py,
        i + 1 < 7 ==> (r matches DeployStep::Run(s, DeployAction::CheckLocal(f)) && s.stage
            == AppStage::CheckFile((i + 1) as usize) && f.dir is Some && f.dir->0@ == fb_operate@
            && f.name@ == app_file(i + 1).0),
        i + 1 >= 7 ==> (r matches DeployStep::Run(s, DeployAction::ListDir(d)) && s.stage
            == AppStage::ListPy && d@ == fb_operate@),
{
    if i + 1 < 7 {
        let (name, _) = app_file_of(i + 1);
        let f = LocalFile { dir: Some(fb_operate.clone()), name };
        app_go(AppStage::CheckFile(i + 1), fb_operate, logs, py, DeployAction::CheckLocal(f))
    } else {
        let d = fb_operate.clone();
        app_go(AppStage::ListPy, fb_operate, logs, py, DeployAction::ListDir(d))
    }
}

fn app_next_py(k: usize, fb_operate: String, logs: Vec<String>, py: Vec<String>) -> (r: DeployStep<
    AppDeploy,
>)
    requires
        k <= py@.len(),
    ensures
        r matches DeployStep::Run(s, _) && s.fb_operate == fb_operate && s.logs == logs && s.py == py,
        k < py@.len() ==> (r matches DeployStep::Run(s, DeployAction::Push { local, remote }) && s.stage
            == AppStage::PushPy(k) && local.dir is Some && local.dir->0@ == fb_operate@ && local.name@
            == py@[k as int]@ && remote@ == "/vismm/fbshow/"@ + py@[k as int]@),
        k >= py@.len() ==> (r matches DeployStep::Run(s, DeployAction::Shell(c)) && s.stage
            == AppStage::Chmod(0) && c@ == app_chmod(0)),
{
    if k < py.len() {
        let name = py[k].clone();
        let remote = concat("/vismm/fbshow/", name.as_str());
        let f = LocalFile { dir: Some(fb_operate.clone()), name };
        app_go(AppStage::PushPy(k), fb_operate, logs, py, DeployAction::Push { local: f, remote })
    } else {
        app_go(AppStage::Chmod(0), fb_operate, logs, py, DeployAction::Shell(app_chmod_of(0)))
    }
}

fn push_log_of(name: &str, remote: &str, ev: Result<AdbActionResult, String>) -> (r: String)
    ensures
        r@ == push_log(name@, remote@, ev),
{
    let mut v = chars_of("推送 ");
    push_str(&mut v, name);
    match ev {
        Ok(a) => {
            if a.success {
                push_str(&mut v, " -> ");
                push_str(&mut v, remote);
            } else {
                push_str(&mut v, " 失败: ");
                match a.error {
                    Some(e) => push_str(&mut v, e.as_str()),
                    None => {
                        assert(v@ =~= v@ + Seq::<char>::empty());
                    },
                }
            }
        },
        Err(e) => {
            push_str(&mut v, " 异常: ");
            push_str(&mut v, e.as_str());
        },
    }
    string_of(v.as_slice())
}

fn board_success(ev: &Result<AdbActionResult, String>) -> (r: bool)
    ensures
        r == board_ok(*ev),
{
    match ev {
        Ok(a) => a.success,
        Err(_) => false,
    }
}

fn app_files_next(state: AppDeploy, event: DeployEvent) -> (r: DeployStep<AppDeploy>)
    requires
        app_event_fits(state, event),
        state.stage is Mkdir || state.stage is CheckFile || state.stage is PushFile
            || state.stage is ListPy || state.stage is PushPy,
    ensures
        app_transition(state, event, r),
{
    let AppDeploy { stage, fb_operate, mut logs, py } = state;
    match stage {
        AppStage::Mkdir => match board_of(event) {
            Err(e) => DeployStep::Finish(finish(&logs, Some(concat("创建目录异常: ", e.as_str())))),
            Ok(a) => {
                if !a.success {
                    let mut v = chars_of("创建目录失败: ");
                    match a.error {
                        Some(e) => push_str(&mut v, e.as_str()),
                        None => {
                            assert(v@ =~= v@ + Seq::<char>::empty());
                        },
                    }
                    return DeployStep::Finish(finish(&logs, Some(string_of(v.as_slice()))));
                }
                log(&mut logs, "创建目录: /vismm/fbshow/movie_online, /vismm/fbshow/bmp_online");
                let (name, _) = app_file_of(0);
                let f = LocalFile { dir: Some(fb_operate.clone()), name };
                app_go(AppStage::CheckFile(0), fb_operate, logs, py, DeployAction::CheckLocal(f))
            },
        },
        AppStage::CheckFile(i) => {
            let (path, exists) = checked_of(event);
            let (name, remote) = app_file_of(i);
            if !exists {
                log_string(&mut logs, concat("跳过不存在的文件: ", name.as_str()));
                app_next_file(i, fb_operate, logs, py)
            } else {
                let action = DeployAction::Push { local: LocalFile { dir: None, name: path }, remote };
                app_go(AppStage::PushFile(i), fb_operate, logs, py, action)
            }
        },
        AppStage::PushFile(i) => {
            let (name, remote) = app_file_of(i);
            log_string(&mut logs, push_log_of(name.as_str(), remote.as_str(), board_of(event)));
            app_next_file(i, fb_operate, logs, py)
        },
        AppStage::ListPy => {
            let found = match event {
                DeployEvent::Listing(Ok(names)) => py_files(&names),
                _ => Vec::new(),
            };
            proof {
                if event->Listing_0 is Err {
                    assert(string_views(found@) =~= Seq::<Seq<char>>::empty());
                }
            }
            app_next_py(0, fb_operate, logs, found)
        },
        _ => {
            let k = match stage {
                AppStage::PushPy(k) => k,
                _ => 0,
            };
            let n = py.len();
            assert(k < n);
            let name = py[k].clone();
            log_string(&mut logs, push_log_of(name.as_str(), "/vismm/fbshow/", board_of(event)));
            app_next_py(k + 1, fb_operate, logs, py)
        },
    }
}

fn app_setup_next(state: AppDeploy, event: DeployEvent) -> (r: DeployStep<AppDeploy>)
    requires
        app_event_fits(state, event),
        state.stage is Chmod || state.stage is DisableService || state.stage is Cursor
            || state.stage is ResolveBundle,
    ensures
        app_transition(state, event, r),
{
    let AppDeploy { stage, fb_operate, mut logs, py } = state;
    match stage {
        AppStage::Chmod(i) => {
            let ok = board_success(&board_of(event));
            let c = app_chmod_of(i);
            if ok {
                log_string(&mut logs, concat("权限设置: ", c.as_str()));
            } else {
                log_string(&mut logs, concat("权限设置失败: ", c.as_str()));
            }
            if i + 1 < 8 {
                let next = app_chmod_of(i + 1);
                app_go(AppStage::Chmod(i + 1), fb_operate, logs, py, DeployAction::Shell(next))
            } else {
                app_go(AppStage::DisableService, fb_operate, logs, py, shell("/vismm/disableService.sh"))
            }
        },
        AppStage::DisableService => {
            if board_success(&board_of(event)) {
                log(&mut logs, "执行 disableService.sh 完成");
            } else {
                log(&mut logs, "执行 disableService.sh 失败");
            }
            app_go(AppStage::Cursor(0), fb_operate, logs, py, DeployAction::Shell(app_cursor_of(0)))
        },
        AppStage::Cursor(i) => {
            let ok = board_success(&board_of(event));
            let c = app_cursor_of(i);
            if ok {
                log_string(&mut logs, concat("执行: ", c.as_str()));
            } else {
                log_string(&mut logs, concat("执行失败: ", c.as_str()));
            }
            if i == 0 {
                app_go(AppStage::Cursor(1), fb_operate, logs, py, DeployAction::Shell(app_cursor_of(1)))
            } else {
                let action = DeployAction::ResolveDir {
                    relative: owned("resources/deploy/fb-RunApp/default"),
                    legacy: Some(owned("fb_RunApp/default")),
                };
                app_go(AppStage::ResolveBundle, fb_operate, logs, py, action)
            }
        },
        _ => {
            let resolved = match event {
                DeployEvent::Resolved(x) => x,
                _ => Err(String::new()),
            };
            match resolved {
                Err(e) => DeployStep::Finish(finish(&logs, Some(e))),
                Ok(d) => match autorun_bundle_start(d.as_str(), logs) {
                    BundleStep::Run(b, a) => DeployStep::Run(
                        AppDeploy { stage: AppStage::Bundle(b), fb_operate, logs: Vec::new(), py },
                        a,
                    ),
                    BundleStep::Done(l, _) => DeployStep::Finish(finish(&l, None)),
                },
            }
        },
    }
}

/// The log of an application deployment state (held by the autorun
/// deployment while that runs).
pub open spec fn app_log(s: AppDeploy) -> Seq<Seq<char>> {
    match s.stage {
        AppStage::Bundle(b) => bundle_log(b),
        _ => string_views(s.logs@),
    }
}

/// The application deployment runs its steps in a fixed order: the board
/// directories; each of the seven resource files checked and, when it
/// exists, pushed; the Python files of `fb_operate`, each pushed; the eight
/// permission commands; `disableService.sh`; the two cursor commands; the
/// autorun bundle. No step is skipped or repeated, a failed directory
/// creation ends it with an error, and it ends well only when the bundle
/// step does.
pub proof fn lemma_app_step_order(st: AppDeploy, ev: DeployEvent, r: DeployStep<AppDeploy>)
    requires
        app_event_fits(st, ev),
        app_transition(st, ev, r),
    ensures
        st.stage is Mkdir && board_failed(ev) ==> (r matches DeployStep::Finish(g) && !g.success),
        r matches DeployStep::Finish(g) ==> (g.success ==> st.stage is Bundle),
        r matches DeployStep::Run(s, _) ==> match st.stage {
            AppStage::Mkdir => s.stage == AppStage::CheckFile(0),
            AppStage::CheckFile(i) => s.stage == AppStage::PushFile(i) || (i + 1 < 7 && s.stage
                == AppStage::CheckFile((i + 1) as usize)) || (i + 1 == 7 && s.stage is ListPy),
            AppStage::PushFile(i) => (i + 1 < 7 && s.stage == AppStage::CheckFile((i + 1) as usize)) || (
            i + 1 == 7 && s.stage is ListPy),
            AppStage::ListPy => s.stage == AppStage::PushPy(0) || s.stage == AppStage::Chmod(0),
            AppStage::PushPy(k) => s.stage == AppStage::PushPy((k + 1) as usize) || s.stage
                == AppStage::Chmod(0),
            AppStage::Chmod(i) => (i + 1 < 8 && s.stage == AppStage::Chmod((i + 1) as usize)) || (i + 1
                == 8 && s.stage is DisableService),
            AppStage::DisableService => s.stage == AppStage::Cursor(0),
            AppStage::Cursor(i) => (i == 0 && s.stage == AppStage::Cursor(1)) || (i == 1
                && s.stage is ResolveBundle),
            AppStage::ResolveBundle => s.stage is Bundle,
            AppStage::Bundle(_) => s.stage is Bundle,
        },
{
}

/// An application deployment only adds to its log: each step keeps the
/// lines logged so far, and when it ends, failed or not, its output starts
/// with them.
pub proof fn lemma_app_log_kept(st: AppDeploy, ev: DeployEvent, r: DeployStep<AppDeploy>)
    requires
        app_event_fits(st, ev),
        app_transition(st, ev, r),
    ensures
        r matches DeployStep::Run(s, _) ==> app_log(st).is_prefix_of(app_log(s)),
        r matches DeployStep::Finish(g) ==> exists|ls: Seq<Seq<char>>|
            app_log(st).is_prefix_of(ls) && #[trigger] join(ls, "\n"@) == g.output@,
{
    lemma_prefix_extended(app_log(st));
}

/// Continues the application deployment with the outcome of its last
/// action: the tools of `fb_operate` are pushed (missing ones skipped), then
/// its Python files, permissions set, unneeded services and the cursor blink
/// disabled, and the default autorun bundle deployed. Pushes and commands
/// before the bundle only log their failures; the bundle's first failure
/// ends the deployment.
pub fn deploy_install_app_next(state: AppDeploy, event: DeployEvent) -> (r: DeployStep<AppDeploy>)
    requires
        app_event_fits(state, event),
    ensures
        app_transition(state, event, r),
{
    match state.stage {
        AppStage::Mkdir | AppStage::CheckFile(_) | AppStage::PushFile(_) | AppStage::ListPy
        | AppStage::PushPy(_) => app_files_next(state, event),
        AppStage::Chmod(_) | AppStage::DisableService | AppStage::Cursor(_)
        | AppStage::ResolveBundle => app_setup_next(state, event),
        AppStage::Bundle(b) => {
            let ghost bd = b;
            let next = autorun_bundle_next(b, event);
            let fb_operate = state.fb_operate;
            let py = state.py;
            match next {
                BundleStep::Run(b2, a) => DeployStep::Run(
                    AppDeploy { stage: AppStage::Bundle(b2), fb_operate, logs: Vec::new(), py },
                    a,
                ),
                BundleStep::Done(logs, res) => {
                    let mut logs = logs;
                    match res {
                        Ok(_) => {
                            log(&mut logs, "Install App 完成");
                            DeployStep::Finish(finish(&logs, None))
                        },
                        Err(e) => DeployStep::Finish(finish(&logs, Some(e))),
                    }
                },
            }
        },
    }
}

// ---------------------------------------------------------------------------
// Resource directories
// ---------------------------------------------------------------------------

/// A candidate location of a resource: its path, how it is shown in
/// messages, and whether it exists.
pub struct PathCandidate {
    pub path: String,
    pub shown: String,
    pub exists: bool,
}

/// The path of the first existing candidate, if any.
pub open spec fn first_existing(c: Seq<PathCandidate>) -> Option<Seq<char>>
    decreases c.len(),
{
    if c.len() == 0 {
        None
    } else {
        match first_existing(c.drop_last()) {
            Some(p) => Some(p),
            None => if c.last().exists {
                Some(c.last().path@)
            } else {
                None
            },
        }
    }
}

/// How the candidates are shown.
pub open spec fn shown_candidates(c: Seq<PathCandidate>) -> Seq<Seq<char>> {
    c.map_values(|x: PathCandidate| x.shown@)
}

proof fn lemma_first_existing_found(c: Seq<PathCandidate>, k: int)
    requires
        0 <= k <= c.len(),
        first_existing(c.take(k)) is Some,
    ensures
        first_existing(c) == first_existing(c.take(k)),
    decreases c.len() - k,
{
    if k < c.len() {
        assert(c.take(k + 1).drop_last() == c.take(k));
        lemma_first_existing_found(c, k + 1);
    } else {
        assert(c.take(k) == c);
    }
}

/// The first candidate that exists, or a message listing all of them.
pub fn resolve_existing_path(candidates: &Vec<PathCandidate>) -> (r: Result<String, String>)
    ensures
        match first_existing(candidates@) {
            Some(p) => r is Ok && r->Ok_0@ == p,
            None => r is Err && r->Err_0@ == "资源目录不存在，已尝试："@ + join(
                shown_candidates(candidates@),
                "，"@,
            ),
        },
{
    let ghost cv = candidates@;
    let mut shown: Vec<String> = Vec::new();
    let mut i: usize = 0;
    while i < candidates.len()
        invariant
            0 <= i <= candidates.len(),
            cv == candidates@,
            first_existing(cv.take(i as int)) is None,
            string_views(shown@) == shown_candidates(cv.take(i as int)),
        decreases candidates.len() - i,
    {
        assert(cv.take(i + 1).drop_last() == cv.take(i as int));
        assert(cv.take(i + 1).last() == cv[i as int]);
        if candidates[i].exists {
            proof {
                lemma_first_existing_found(cv, i + 1);
            }
            return Ok(candidates[i].path.clone());
        }
        let ghost before = string_views(shown@);
        shown.push(candidates[i].shown.clone());
        assert(string_views(shown@) =~= before.push(cv[i as int].shown@));
        assert(shown_candidates(cv.take(i + 1)) =~= shown_candidates(cv.take(i as int)).push(
            cv[i as int].shown@,
        ));
        i = i + 1;
    }
    assert(cv.take(candidates.len() as int) == cv);
    let listed = join_strings(&shown, "，");
    Err(concat("资源目录不存在，已尝试：", listed.as_str()))
}


/// A root directory's candidates for a deployment resource: the resource's
/// path under it, and its legacy path under it when the resource has one.
pub struct ResourceRoot {
    pub relative: PathCandidate,
    pub legacy: Option<PathCandidate>,
}

/// The candidates of the roots in order, each root's path before its legacy path.
pub open spec fn root_candidates(roots: Seq<ResourceRoot>) -> Seq<PathCandidate>
    decreases roots.len(),
{
    if roots.len() == 0 {
        seq![]
    } else {
        let first = roots[0];
        (match first.legacy {
            Some(l) => seq![first.relative, l],
            None => seq![first.relative],
        }) + root_candidates(roots.drop_first())
    }
}

/// The deployment resource directory: the first existing candidate of the
/// roots (a root's path before its legacy path), or a message listing all
/// of them.
pub fn resolve_deploy_resource_dir(roots: Vec<ResourceRoot>) -> (r: Result<String, String>)
    ensures
        match first_existing(root_candidates(roots@)) {
            Some(p) => r is Ok && r->Ok_0@ == p,
            None => r is Err && r->Err_0@ == "资源目录不存在，已尝试："@ + join(
                shown_candidates(root_candidates(roots@)),
                "，"@,
            ),
        },
{
    let ghost all = root_candidates(roots@);
    let mut rest = roots;
    let mut candidates: Vec<PathCandidate> = Vec::new();
    while rest.len() > 0
        invariant
            candidates@ + root_candidates(rest@) == all,
        decreases rest.len(),
    {
        let ghost before = rest@;
        let root = rest.remove(0);
        assert(rest@ == before.drop_first());
        let ghost own = if root.legacy is Some {
            seq![root.relative, root.legacy->0]
        } else {
            seq![root.relative]
        };
        assert(root_candidates(before) == own + root_candidates(rest@));
        let ghost c0 = candidates@;
        candidates.push(root.relative);
        match root.legacy {
            Some(l) => {
                candidates.push(l);
            },
            None => {},
        }
        assert(candidates@ == c0 + own);
        assert(c0 + own + root_candidates(rest@) =~= c0 + (own + root_candidates(rest@)));
    }
    assert(candidates@ + Seq::<PathCandidate>::empty() =~= candidates@);
    resolve_existing_path(&candidates)
}

} // verus!
