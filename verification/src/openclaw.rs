//! Structured results of the board actions: a failing action names the stage
//! and the code of its failure, and the legacy UI results are derived from them.
use vstd::prelude::*;

use crate::results::{GenericResult, PatternResult};
use crate::text::{chars_of, contains_seq, contains_str, push_chars, push_str, string_of};

verus! {

/// Where and why an action failed.
pub struct OpenClawError {
    pub stage: &'static str,
    pub code: &'static str,
    pub message: String,
}

/// The outcome of an action: its data on success, its error on failure, and
/// a one-line summary either way.
pub struct OpenClawResult<T> {
    pub success: bool,
    pub data: Option<T>,
    pub warnings: Vec<String>,
    pub summary: String,
    pub next_suggestion: Option<String>,
    pub error: Option<OpenClawError>,
}

/// `result` is the success with `data` and `summary`.
pub open spec fn is_ok_result<T>(result: OpenClawResult<T>, data: T, summary: Seq<char>) -> bool {
    &&& result.success
    &&& result.data == Some(data)
    &&& result.warnings@.len() == 0
    &&& result.summary@ == summary
    &&& result.next_suggestion is None
    &&& result.error is None
}

/// `result` is the failure at `stage` with `code`, `message` and `summary`.
pub open spec fn is_fail_result<T>(
    result: OpenClawResult<T>,
    stage: Seq<char>,
    code: Seq<char>,
    message: Seq<char>,
    summary: Seq<char>,
) -> bool {
    &&& !result.success
    &&& result.data is None
    &&& result.warnings@.len() == 0
    &&& result.summary@ == summary
    &&& result.next_suggestion is None
    &&& result.error is Some
    &&& result.error->0.stage@ == stage
    &&& result.error->0.code@ == code
    &&& result.error->0.message@ == message
}

impl<T> OpenClawResult<T> {
    /// A success carrying `data`.
    pub fn ok(data: T, summary: String) -> (r: Self)
        ensures
            is_ok_result(r, data, summary@),
    {
        OpenClawResult {
            success: true,
            data: Some(data),
            warnings: Vec::new(),
            summary,
            next_suggestion: None,
            error: None,
        }
    }

    /// A failure at `stage` with `code` and `message`.
    pub fn fail(stage: &'static str, code: &'static str, message: String, summary: String) -> (r:
        Self)
        ensures
            is_fail_result(r, stage@, code@, message@, summary@),
    {
        OpenClawResult {
            success: false,
            data: None,
            warnings: Vec::new(),
            summary,
            next_suggestion: None,
            error: Some(OpenClawError { stage, code, message }),
        }
    }
}

/// `[stage:code] message`.
pub open spec fn error_text(stage: Seq<char>, code: Seq<char>, message: Seq<char>) -> Seq<char> {
    "["@ + stage + ":"@ + code + "] "@ + message
}

/// The text of an optional error.
pub open spec fn error_line(e: Option<OpenClawError>) -> Option<Seq<char>> {
    match e {
        Some(err) => Some(error_text(err.stage@, err.code@, err.message@)),
        None => None,
    }
}

/// The one-line text of an error: `[stage:code] message`.
pub fn format_openclaw_error(stage: &str, code: &str, message: &str) -> (r: String)
    ensures
        r@ == error_text(stage@, code@, message@),
{
    let mut v = chars_of("[");
    push_str(&mut v, stage);
    push_str(&mut v, ":");
    push_str(&mut v, code);
    push_str(&mut v, "] ");
    push_str(&mut v, message);
    string_of(v.as_slice())
}

fn error_text_of(e: Option<OpenClawError>) -> (r: Option<String>)
    ensures
        match error_line(e) {
            Some(t) => r is Some && r->0@ == t,
            None => r is None,
        },
{
    match e {
        Some(err) => Some(format_openclaw_error(err.stage, err.code, err.message.as_str())),
        None => None,
    }
}

/// The legacy result of an action: its success, its summary as output and
/// its error as `[stage:code] message`.
pub fn generic_result_from_openclaw<T>(result: OpenClawResult<T>) -> (r: GenericResult)
    ensures
        r.success == result.success,
        r.output@ == result.summary@,
        match error_line(result.error) {
            Some(t) => r.error is Some && r.error->0@ == t,
            None => r.error is None,
        },
{
    let error = error_text_of(result.error);
    GenericResult { success: result.success, output: result.summary, error }
}

/// The pattern result of a display action: its success, its summary as
/// message and its error as `[stage:code] message`.
pub fn pattern_result_from_action(result: OpenClawResult<()>) -> (r: PatternResult)
    ensures
        r.success == result.success,
        r.message@ == result.summary@,
        match error_line(result.error) {
            Some(t) => r.error is Some && r.error->0@ == t,
            None => r.error is None,
        },
{
    let error = error_text_of(result.error);
    PatternResult { success: result.success, message: result.summary, error }
}

/// Whether a transport message says that no device could be resolved.
pub open spec fn is_device_resolution_message(m: Seq<char>) -> bool {
    contains_seq(m, "未检测到 ADB 设备"@) || contains_seq(m, "获取 ADB 设备失败"@)
}

/// The error of a failed transport call: a message saying that no device
/// was found, or that the device list could not be read, moves the error to
/// the `device_resolution` stage.
pub fn map_transport_error(stage: &'static str, code: &'static str, message: String) -> (r:
    OpenClawError)
    ensures
        r.stage@ == (if is_device_resolution_message(message@) {
            "device_resolution"@
        } else {
            stage@
        }),
        r.code@ == code@,
        r.message@ == message@,
{
    let m = chars_of(message.as_str());
    let mapped_stage: &'static str = if contains_str(m.as_slice(), "未检测到 ADB 设备")
        || contains_str(m.as_slice(), "获取 ADB 设备失败") {
        "device_resolution"
    } else {
        stage
    };
    OpenClawError { stage: mapped_stage, code, message }
}

// ---------------------------------------------------------------------------
// Shell quoting
// ---------------------------------------------------------------------------

/// The body of a single-quoted shell word: each `'` becomes `'\''`.
pub open spec fn quote_body(s: Seq<char>) -> Seq<char>
    decreases s.len(),
{
    if s.len() == 0 {
        seq![]
    } else {
        quote_body(s.drop_last()) + (if s.last() == '\'' {
            "'\\''"@
        } else {
            seq![s.last()]
        })
    }
}

/// `s` as one single-quoted POSIX shell word.
pub open spec fn shell_quoted(s: Seq<char>) -> Seq<char> {
    seq!['\''] + quote_body(s) + seq!['\'']
}

/// Quotes `s` as one POSIX shell word, so that the shell passes it unchanged.
/// `c` before the text read, if any.
pub open spec fn read_cons(c: char, rest: Option<Seq<char>>) -> Option<Seq<char>> {
    match rest {
        Some(t) => Some(seq![c] + t),
        None => None,
    }
}

/// How a POSIX shell reads `t` as one word made only of single-quoted text
/// and `\'` escapes (`quoted`: inside single quotes): the text it stands
/// for, or none when `t` is not such a word (an unterminated quote, or a
/// character outside quotes that the shell would interpret).
pub open spec fn sh_read(t: Seq<char>, quoted: bool) -> Option<Seq<char>>
    decreases t.len(),
{
    if t.len() == 0 {
        if quoted {
            None
        } else {
            Some(seq![])
        }
    } else if quoted {
        if t[0] == '\'' {
            sh_read(t.drop_first(), false)
        } else {
            read_cons(t[0], sh_read(t.drop_first(), true))
        }
    } else if t[0] == '\'' {
        sh_read(t.drop_first(), true)
    } else if t[0] == '\\' && t.len() >= 2 && t[1] == '\'' {
        read_cons('\'', sh_read(t.skip(2), false))
    } else {
        None
    }
}

proof fn lemma_sh_read_body(s: Seq<char>, u: Seq<char>)
    ensures
        sh_read(quote_body(s) + u, true) == match sh_read(u, true) {
            Some(t) => Some(s + t),
            None => None::<Seq<char>>,
        },
    decreases s.len(),
{
    if s.len() == 0 {
        assert(quote_body(s) + u =~= u);
        match sh_read(u, true) {
            Some(t) => assert(s + t =~= t),
            None => {},
        }
    } else {
        let p = s.drop_last();
        let c = s.last();
        let piece = if c == '\'' {
            "'\\''"@
        } else {
            seq![c]
        };
        assert(quote_body(s) + u =~= quote_body(p) + (piece + u));
        lemma_sh_read_body(p, piece + u);
        if c == '\'' {
            reveal_strlit("'\\''");
            assert(piece =~= seq!['\'', '\\', '\'', '\'']);
            let w = piece + u;
            let x = seq!['\\', '\'', '\''] + u;
            let y = seq!['\''] + u;
            assert(w[0] == '\'');
            assert(w.drop_first() =~= x);
            assert(sh_read(w, true) == sh_read(x, false));
            assert(x[0] == '\\' && x[1] == '\'' && x.len() >= 2);
            assert(x.skip(2) =~= y);
            assert(sh_read(x, false) == read_cons('\'', sh_read(y, false)));
            assert(y[0] == '\'');
            assert(y.drop_first() =~= u);
            assert(sh_read(y, false) == sh_read(u, true));
        } else {
            let w = piece + u;
            assert(w[0] == c);
            assert(w.drop_first() =~= u);
            assert(sh_read(w, true) == read_cons(c, sh_read(u, true)));
        }
        match sh_read(u, true) {
            Some(t) => {
                assert(p + (seq![c] + t) =~= s + t);
            },
            None => {},
        }
    }
}

/// A quoted argument is one shell word that reads back as exactly the
/// quoted text: every character stands inside single quotes, and each
/// single quote is written as `\'` between a closing and a reopening quote.
pub proof fn lemma_shell_quoted_reads_back(s: Seq<char>)
    ensures
        sh_read(shell_quoted(s), false) == Some(s),
{
    let q = shell_quoted(s);
    let e = seq!['\''];
    assert(q[0] == '\'');
    assert(q.drop_first() =~= quote_body(s) + e);
    assert(sh_read(q, false) == sh_read(quote_body(s) + e, true));
    lemma_sh_read_body(s, e);
    assert(e[0] == '\'');
    assert(e.drop_first() =~= Seq::<char>::empty());
    assert(sh_read(e, true) == sh_read(Seq::<char>::empty(), false));
    assert(s + Seq::<char>::empty() =~= s);
}

pub fn shell_quote(s: &str) -> (r: String)
    ensures
        r@ == shell_quoted(s@),
{
    let cs = chars_of(s);
    let mut v: Vec<char> = Vec::new();
    v.push('\'');
    let mut i: usize = 0;
    while i < cs.len()
        invariant
            0 <= i <= cs.len(),
            cs@ == s@,
            v@ == seq!['\''] + quote_body(s@.take(i as int)),
        decreases cs.len() - i,
    {
        assert(s@.take(i + 1).drop_last() == s@.take(i as int));
        if cs[i] == '\'' {
            push_str(&mut v, "'\\''");
        } else {
            v.push(cs[i]);
        }
        i = i + 1;
        assert(v@ == seq!['\''] + quote_body(s@.take(i as int)));
    }
    assert(s@.take(cs.len() as int) == s@);
    v.push('\'');
    string_of(v.as_slice())
}

// ---------------------------------------------------------------------------
// Board transport
// ---------------------------------------------------------------------------

/// The output of a shell command on the board, or its error: a failed
/// command reports its error text, else its output, else that the shell
/// failed; a transport error goes through [`map_transport_error`].
pub fn shell_outcome(result: Result<crate::results::AdbActionResult, String>) -> (r: Result<
    String,
    OpenClawError,
>)
    ensures
        match result {
            Ok(a) => if a.success {
                r is Ok && r->Ok_0@ == a.output@
            } else {
                r is Err && r->Err_0.stage@ == "adb_shell"@ && r->Err_0.code@ == "ADB_SHELL_FAILED"@
                    && r->Err_0.message@ == failure_text(a, "ADB shell 执行失败"@)
            },
            Err(e) => r is Err && r->Err_0.stage@ == (if is_device_resolution_message(e@) {
                "device_resolution"@
            } else {
                "adb_shell"@
            }) && r->Err_0.code@ == "ADB_SHELL_ERROR"@ && r->Err_0.message@ == e@,
        },
{
    match result {
        Ok(a) => {
            if a.success {
                Ok(a.output)
            } else {
                let message = failure_text_of(a, "ADB shell 执行失败");
                Err(OpenClawError { stage: "adb_shell", code: "ADB_SHELL_FAILED", message })
            }
        },
        Err(e) => Err(map_transport_error("adb_shell", "ADB_SHELL_ERROR", e)),
    }
}

/// The message of a failed command: its error, else its output unless
/// blank, else `default`.
pub open spec fn failure_text(a: crate::results::AdbActionResult, default: Seq<char>) -> Seq<char> {
    match a.error {
        Some(e) => e@,
        None => if crate::text::trim(a.output@).len() == 0 {
            default
        } else {
            a.output@
        },
    }
}

fn failure_text_of(a: crate::results::AdbActionResult, default: &str) -> (r: String)
    ensures
        r@ == failure_text(a, default@),
{
    match a.error {
        Some(e) => e,
        None => {
            let t = crate::text::trim_str(a.output.as_str());
            if chars_of(t.as_str()).len() == 0 {
                crate::text::owned(default)
            } else {
                a.output
            }
        },
    }
}

/// The output of a push to the board, or its error, as for the shell.
pub fn push_outcome(result: Result<crate::results::AdbActionResult, String>) -> (r: Result<
    String,
    OpenClawError,
>)
    ensures
        match result {
            Ok(a) => if a.success {
                r is Ok && r->Ok_0@ == a.output@
            } else {
                r is Err && r->Err_0.stage@ == "adb_push"@ && r->Err_0.code@ == "ADB_PUSH_FAILED"@
                    && r->Err_0.message@ == failure_text(a, "ADB push 执行失败"@)
            },
            Err(e) => r is Err && r->Err_0.stage@ == (if is_device_resolution_message(e@) {
                "device_resolution"@
            } else {
                "adb_push"@
            }) && r->Err_0.code@ == "ADB_PUSH_ERROR"@ && r->Err_0.message@ == e@,
        },
{
    match result {
        Ok(a) => {
            if a.success {
                Ok(a.output)
            } else {
                let message = failure_text_of(a, "ADB push 执行失败");
                Err(OpenClawError { stage: "adb_push", code: "ADB_PUSH_FAILED", message })
            }
        },
        Err(e) => Err(map_transport_error("adb_push", "ADB_PUSH_ERROR", e)),
    }
}

/// `mkdir -p <dir>`.
pub fn ensure_dir_command(remote_dir: &str) -> (r: String)
    ensures
        r@ == "mkdir -p "@ + remote_dir@,
{
    crate::text::concat("mkdir -p ", remote_dir)
}

/// The shell-quoted forms of the arguments.
pub open spec fn quoted_all(args: Seq<Seq<char>>) -> Seq<Seq<char>> {
    args.map_values(|a: Seq<char>| shell_quoted(a))
}

/// `python3` with the quoted script path, then the quoted arguments.
pub open spec fn quoted_python_text(script: Seq<char>, args: Seq<Seq<char>>) -> Seq<char> {
    "python3 "@ + shell_quoted(script) + (if args.len() == 0 {
        Seq::<char>::empty()
    } else {
        " "@ + crate::text::join(quoted_all(args), " "@)
    })
}

/// The command that runs a pushed script, every word quoted.
pub fn run_python_command(remote_script: &str, args: &Vec<String>) -> (r: String)
    ensures
        r@ == quoted_python_text(remote_script@, crate::text::string_views(args@)),
{
    let ghost sv = crate::text::string_views(args@);
    let mut quoted: Vec<String> = Vec::new();
    let mut i: usize = 0;
    while i < args.len()
        invariant
            0 <= i <= args.len(),
            sv == crate::text::string_views(args@),
            sv.len() == args@.len(),
            crate::text::string_views(quoted@) == quoted_all(sv.take(i as int)),
        decreases args.len() - i,
    {
        let q = shell_quote(args[i].as_str());
        proof {
            assert(crate::text::string_views(quoted@.push(q)) =~= crate::text::string_views(
                quoted@,
            ).push(q@));
            assert(quoted_all(sv.take(i + 1)) =~= quoted_all(sv.take(i as int)).push(
                shell_quoted(args@[i as int]@),
            ));
        }
        quoted.push(q);
        i = i + 1;
    }
    assert(sv.take(args.len() as int) == sv);
    let mut v = chars_of("python3 ");
    let qs = shell_quote(remote_script);
    push_str(&mut v, qs.as_str());
    if args.len() > 0 {
        push_str(&mut v, " ");
        let joined = crate::text::join_strings(&quoted, " ");
        push_str(&mut v, joined.as_str());
    }
    string_of(v.as_slice())
}

/// A failed script run is reported at the `runtime_script` stage.
pub fn runtime_script_error(error: OpenClawError) -> (r: OpenClawError)
    ensures
        r.stage@ == "runtime_script"@,
        r.code == error.code,
        r.message == error.message,
{
    OpenClawError { stage: "runtime_script", code: error.code, message: error.message }
}

/// A failure that carries an earlier error, with a summary of its own.
pub fn fail_with<T>(error: OpenClawError, summary: &str) -> (r: OpenClawResult<T>)
    ensures
        is_fail_result(r, error.stage@, error.code@, error.message@, summary@),
{
    OpenClawResult::fail(error.stage, error.code, error.message, crate::text::owned(summary))
}

} // verus!
