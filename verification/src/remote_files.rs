//! Scripts and files on the board: listing, running, stopping, deleting,
//! and making a script the one that runs at boot.
use vstd::prelude::*;

use crate::adb::{error_or, CommandOutput};
use crate::deploy::{checked, is_finish, stopped, succeeded, trimmed_line, DeployAction, DeployStep};
use crate::openclaw::{shell_quote, shell_quoted};
use crate::results::{AdbActionResult, GenericResult};
use crate::text::{
    all_ws, char_vecs, chars_of, concat, lines, owned, push_str, split_lines, string_of,
    string_views, trim, trim_chars, trim_str,
};
use crate::timing_decode::{from_utf8_lossy, utf8_lossy};

verus! {

/// A directory of the board to list.
pub struct ListRemoteFilesRequest {
    pub path: String,
}

/// The file names of a board directory.
pub struct ListRemoteFilesResult {
    pub success: bool,
    pub files: Vec<String>,
    pub error: Option<String>,
}

/// A script to start on the board, with optional arguments.
pub struct RunRemoteScriptRequest {
    pub script_path: String,
    pub script_args: Option<String>,
}

/// The script to run at boot.
pub struct SetScriptAutorunRequest {
    pub script_path: String,
}

/// A file of the board to delete.
pub struct DeleteRemoteFileRequest {
    pub file_path: String,
}

/// A directory of images to show in a loop.
pub struct SetupLoopImagesRequest {
    pub image_path: String,
}

fn refused(message: &str) -> (r: GenericResult)
    ensures
        !r.success,
        r.output@.len() == 0,
        r.error is Some && r.error->0@ == message@,
{
    GenericResult { success: false, output: String::new(), error: Some(owned(message)) }
}

/// The non-blank lines, trimmed, in order.
pub open spec fn listed_names(ls: Seq<Seq<char>>) -> Seq<Seq<char>>
    decreases ls.len(),
{
    if ls.len() == 0 {
        seq![]
    } else if trim(ls.last()).len() == 0 {
        listed_names(ls.drop_last())
    } else {
        listed_names(ls.drop_last()).push(trim(ls.last()))
    }
}

/// The `adb` arguments that list a board directory one name per line.
pub fn list_remote_files_args(device_id: &str, request: &ListRemoteFilesRequest) -> (r: Vec<String>)
    ensures
        string_views(r@) == seq!["-s"@, device_id@, "shell"@, "ls"@, "-1"@, request.path@],
{
    let mut v: Vec<String> = Vec::new();
    v.push(owned("-s"));
    v.push(owned(device_id));
    v.push(owned("shell"));
    v.push(owned("ls"));
    v.push(owned("-1"));
    v.push(request.path.clone());
    assert(string_views(v@) =~= seq!["-s"@, device_id@, "shell"@, "ls"@, "-1"@, request.path@]);
    v
}

/// The listing of a board directory from the outcome of `ls -1`: its
/// non-blank lines, trimmed.
pub fn list_remote_files(run: Result<CommandOutput, String>) -> (r: ListRemoteFilesResult)
    ensures
        match run {
            Err(e) => !r.success && r.files@.len() == 0 && r.error is Some && r.error->0@ == e@,
            Ok(o) => if o.success {
                r.success && string_views(r.files@) == listed_names(lines(utf8_lossy(o.stdout@)))
                    && r.error is None
            } else {
                !r.success && r.files@.len() == 0 && r.error is Some && r.error->0@ == (if utf8_lossy(
                    o.stderr@,
                ).len() == 0 {
                    "列出目录失败"@
                } else {
                    utf8_lossy(o.stderr@)
                })
            },
        },
{
    match run {
        Err(e) => ListRemoteFilesResult { success: false, files: Vec::new(), error: Some(e) },
        Ok(o) => {
            if o.success {
                let out = from_utf8_lossy(o.stdout.as_slice());
                let cs = chars_of(out.as_str());
                let ls = split_lines(cs.as_slice());
                let ghost lv = lines(out@);
                assert(char_vecs(ls@).len() == ls@.len());
                let mut files: Vec<String> = Vec::new();
                let mut i: usize = 0;
                while i < ls.len()
                    invariant
                        0 <= i <= ls.len(),
                        char_vecs(ls@) == lv,
                        lv.len() == ls@.len(),
                        string_views(files@) == listed_names(lv.take(i as int)),
                    decreases ls.len() - i,
                {
                    assert(lv.take(i + 1).drop_last() == lv.take(i as int));
                    assert(lv.take(i + 1).last() == ls@[i as int]@);
                    let t = trim_chars(ls[i].as_slice());
                    if t.len() > 0 {
                        let ghost before = string_views(files@);
                        files.push(string_of(t.as_slice()));
                        assert(string_views(files@) =~= before.push(t@));
                    }
                    i = i + 1;
                }
                assert(lv.take(ls.len() as int) == lv);
                ListRemoteFilesResult { success: true, files, error: None }
            } else {
                let err = from_utf8_lossy(o.stderr.as_slice());
                let e = if chars_of(err.as_str()).len() == 0 {
                    owned("列出目录失败")
                } else {
                    err
                };
                ListRemoteFilesResult { success: false, files: Vec::new(), error: Some(e) }
            }
        },
    }
}

/// The listing when no device could be resolved.
pub fn list_remote_files_failed(error: String) -> (r: ListRemoteFilesResult)
    ensures
        !r.success && r.files@.len() == 0 && r.error is Some && r.error->0@ == error@,
{
    ListRemoteFilesResult { success: false, files: Vec::new(), error: Some(error) }
}

/// The command that starts a script: `python3`, the quoted script path, and
/// the trimmed arguments when they are not blank.
pub open spec fn run_script_text(request: RunRemoteScriptRequest) -> Seq<char> {
    "python3 "@ + shell_quoted(request.script_path@) + match request.script_args {
        Some(a) => if trim(a@).len() == 0 {
            Seq::<char>::empty()
        } else {
            " "@ + trim(a@)
        },
        None => Seq::<char>::empty(),
    }
}

/// The shell command that starts a script in the background.
pub fn run_remote_script_command(request: &RunRemoteScriptRequest) -> (r: String)
    ensures
        r@ == run_script_text(*request),
{
    let q = shell_quote(request.script_path.as_str());
    let mut v = chars_of("python3 ");
    push_str(&mut v, q.as_str());
    match &request.script_args {
        Some(a) => {
            let t = trim_str(a.as_str());
            if chars_of(t.as_str()).len() > 0 {
                push_str(&mut v, " ");
                push_str(&mut v, t.as_str());
            }
        },
        None => {},
    }
    string_of(v.as_slice())
}

/// The result of starting a script in the background.
pub fn run_remote_script(request: &RunRemoteScriptRequest, started: Result<(), String>) -> (r:
    GenericResult)
    ensures
        match started {
            Ok(_) => r.success && r.output@ == "脚本已后台启动: "@ + request.script_path@ && r.error
                is None,
            Err(e) => !r.success && r.output@.len() == 0 && r.error is Some && r.error->0@ == e@,
        },
{
    match started {
        Ok(_) => GenericResult {
            success: true,
            output: concat("脚本已后台启动: ", request.script_path.as_str()),
            error: None,
        },
        Err(e) => GenericResult { success: false, output: String::new(), error: Some(e) },
    }
}

/// The result of `killall python3` on the board.
pub fn stop_remote_script(run: Result<CommandOutput, String>) -> (r: GenericResult)
    ensures
        match run {
            Err(e) => !r.success && r.output@.len() == 0 && r.error is Some && r.error->0@ == e@,
            Ok(o) => if o.success {
                r.success && r.output@ == "已停止脚本执行"@ && r.error is None
            } else {
                !r.success && r.output@.len() == 0 && r.error is Some && r.error->0@ == (if utf8_lossy(
                    o.stderr@,
                ).len() == 0 {
                    "停止失败"@
                } else {
                    utf8_lossy(o.stderr@)
                })
            },
        },
{
    match run {
        Err(e) => GenericResult { success: false, output: String::new(), error: Some(e) },
        Ok(o) => {
            if o.success {
                GenericResult { success: true, output: owned("已停止脚本执行"), error: None }
            } else {
                let err = from_utf8_lossy(o.stderr.as_slice());
                let e = if chars_of(err.as_str()).len() == 0 {
                    owned("停止失败")
                } else {
                    err
                };
                GenericResult { success: false, output: String::new(), error: Some(e) }
            }
        },
    }
}

/// The command that deletes a file, or the refusal of a blank path.
pub fn delete_remote_file_command(request: &DeleteRemoteFileRequest) -> (r: Result<
    String,
    GenericResult,
>)
    ensures
        all_ws(request.file_path@) ==> r is Err && !r->Err_0.success && r->Err_0.output@.len() == 0
            && r->Err_0.error is Some && r->Err_0.error->0@ == "文件路径不能为空"@,
        !all_ws(request.file_path@) ==> r is Ok && r->Ok_0@ == "rm -f "@ + shell_quoted(
            trim(request.file_path@),
        ),
{
    let t = trim_str(request.file_path.as_str());
    proof {
        crate::text::lemma_trim_empty(request.file_path@);
    }
    if chars_of(t.as_str()).len() == 0 {
        return Err(refused("文件路径不能为空"));
    }
    let q = shell_quote(t.as_str());
    Ok(concat("rm -f ", q.as_str()))
}

/// The result of deleting a file: its output, or a note naming the file
/// when it printed nothing.
pub fn delete_remote_file(request: &DeleteRemoteFileRequest, run: Result<AdbActionResult, String>) -> (r:
    GenericResult)
    ensures
        match run {
            Err(e) => !r.success && r.output@.len() == 0 && r.error is Some && r.error->0@ == e@,
            Ok(a) => if a.success {
                r.success && r.error is None && r.output@ == (if trim(a.output@).len() == 0 {
                    "已删除文件: "@ + trim(request.file_path@)
                } else {
                    a.output@
                })
            } else {
                !r.success && r.output@ == a.output@ && r.error is Some && r.error->0@ == error_or(
                    a.error,
                    "删除文件失败"@,
                )
            },
        },
{
    match run {
        Err(e) => GenericResult { success: false, output: String::new(), error: Some(e) },
        Ok(a) => {
            if a.success {
                let t = trim_str(a.output.as_str());
                let output = if chars_of(t.as_str()).len() == 0 {
                    let p = trim_str(request.file_path.as_str());
                    concat("已删除文件: ", p.as_str())
                } else {
                    a.output
                };
                GenericResult { success: true, output, error: None }
            } else {
                let e = match a.error {
                    Some(e) => e,
                    None => owned("删除文件失败"),
                };
                GenericResult { success: false, output: a.output, error: Some(e) }
            }
        },
    }
}

// ---------------------------------------------------------------------------
// Boot script
// ---------------------------------------------------------------------------

/// The command that copies a script to `target`, read-only.
pub open spec fn autorun_copy_text(script: Seq<char>, target: Seq<char>) -> Seq<char> {
    "cp "@ + shell_quoted(script) + " "@ + target + " && chmod 444 "@ + target
}

/// A boot script change in progress: the script, and whether the copy to
/// `/vismm/fbshow/autorun.py` is done (the copy to `/vismm/autorun.py`
/// follows).
pub struct AutorunChange {
    pub script: String,
    pub second: bool,
    pub logs: Vec<String>,
}

fn copy_command(script: &str, second: bool) -> (r: String)
    ensures
        r@ == autorun_copy_text(
            script@,
            if second {
                "/vismm/autorun.py"@
            } else {
                "/vismm/fbshow/autorun.py"@
            },
        ),
{
    let target = if second {
        "/vismm/autorun.py"
    } else {
        "/vismm/fbshow/autorun.py"
    };
    let q = shell_quote(script);
    let mut v = chars_of("cp ");
    push_str(&mut v, q.as_str());
    push_str(&mut v, " ");
    push_str(&mut v, target);
    push_str(&mut v, " && chmod 444 ");
    push_str(&mut v, target);
    string_of(v.as_slice())
}

/// Starts making a script the boot script: a blank path is refused; the
/// trimmed path is copied to `/vismm/fbshow/autorun.py` first.
pub fn set_script_autorun_start(request: &SetScriptAutorunRequest) -> (r: DeployStep<AutorunChange>)
    ensures
        all_ws(request.script_path@) ==> (r matches DeployStep::Finish(g) && !g.success
            && g.output@.len() == 0 && g.error is Some && g.error->0@ == "脚本路径不能为空"@),
        !all_ws(request.script_path@) ==> (r matches DeployStep::Run(s, DeployAction::Shell(c))
            && s.script@ == trim(request.script_path@) && !s.second && s.logs@.len() == 0 && c@
            == autorun_copy_text(trim(request.script_path@), "/vismm/fbshow/autorun.py"@)),
{
    let t = trim_str(request.script_path.as_str());
    proof {
        crate::text::lemma_trim_empty(request.script_path@);
    }
    if chars_of(t.as_str()).len() == 0 {
        return DeployStep::Finish(refused("脚本路径不能为空"));
    }
    let c = copy_command(t.as_str(), false);
    DeployStep::Run(AutorunChange { script: t, second: false, logs: Vec::new() }, DeployAction::Shell(c))
}

/// Continues a boot script change: each copy logs its target and its
/// trimmed output; the first failure ends it with the log so far.
pub fn set_script_autorun_next(state: AutorunChange, event: Result<AdbActionResult, String>) -> (r:
    DeployStep<AutorunChange>)
    ensures
        ({
            let target = if state.second {
                "/vismm/autorun.py"@
            } else {
                "/vismm/fbshow/autorun.py"@
            };
            match checked(event, "执行命令失败: "@ + autorun_copy_text(state.script@, target)) {
                Err(m) => stopped(r, string_views(state.logs@), m),
                Ok(o) => {
                    let l = string_views(state.logs@).push(
                        "已设置 "@ + target + " <- "@ + state.script@,
                    ) + trimmed_line(o);
                    if state.second {
                        succeeded(r, l)
                    } else {
                        r matches DeployStep::Run(s, DeployAction::Shell(c)) && s.script
                            == state.script && s.second && string_views(s.logs@) == l && c@
                            == autorun_copy_text(state.script@, "/vismm/autorun.py"@)
                    }
                },
            }
        }),
{
    let AutorunChange { script, second, mut logs } = state;
    let cmd = copy_command(script.as_str(), second);
    match crate::deploy::check(event, concat("执行命令失败: ", cmd.as_str())) {
        Err(m) => DeployStep::Finish(crate::deploy::finish(&logs, Some(m))),
        Ok(o) => {
            let mut v = chars_of("已设置 ");
            push_str(
                &mut v,
                if second {
                    "/vismm/autorun.py"
                } else {
                    "/vismm/fbshow/autorun.py"
                },
            );
            push_str(&mut v, " <- ");
            push_str(&mut v, script.as_str());
            crate::deploy::log_string(&mut logs, string_of(v.as_slice()));
            crate::deploy::log_trimmed(&mut logs, o.as_str());
            if second {
                DeployStep::Finish(crate::deploy::finish(&logs, None))
            } else {
                let c = copy_command(script.as_str(), true);
                DeployStep::Run(AutorunChange { script, second: true, logs }, DeployAction::Shell(c))
            }
        },
    }
}

} // verus!
