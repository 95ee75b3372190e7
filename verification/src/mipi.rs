//! MIPI DCS commands: every command goes to the panel through the board's
//! `vismpwr` tool, one `vismpwr <bytes>` per command line.
use vstd::prelude::*;

use crate::adb::error_or;
use crate::results::{AdbActionResult, GenericResult};
use crate::text::{
    all_ws, chars_of, dec, join, join_strings, owned, push_dec, push_str, string_of,
    string_views, trim, trim_str,
};

verus! {

/// A shell command for the board and the message shown once it succeeded.
pub struct MipiPlan {
    pub command: String,
    pub success_message: String,
}

fn plan(command: String, success_message: String) -> (r: MipiPlan)
    ensures
        r.command == command,
        r.success_message == success_message,
{
    MipiPlan { command, success_message }
}

fn refused(message: &str) -> (r: GenericResult)
    ensures
        !r.success,
        r.output@.len() == 0,
        r.error is Some && r.error->0@ == message@,
{
    GenericResult { success: false, output: String::new(), error: Some(owned(message)) }
}

/// The result of a MIPI shell command: the success message when it
/// succeeded, its output and error (by default: the command failed)
/// otherwise.
pub fn mipi_command_result(run: Result<AdbActionResult, String>, success_message: &str) -> (r:
    GenericResult)
    ensures
        match run {
            Ok(a) => if a.success {
                r.success && r.output@ == success_message@ && r.error == a.error
            } else {
                !r.success && r.output@ == a.output@ && r.error is Some && r.error->0@ == error_or(
                    a.error,
                    "MIPI 指令执行失败"@,
                )
            },
            Err(e) => !r.success && r.output@.len() == 0 && r.error is Some && r.error->0@ == e@,
        },
{
    match run {
        Ok(a) => {
            if a.success {
                GenericResult { success: true, output: owned(success_message), error: a.error }
            } else {
                let error = match a.error {
                    Some(e) => e,
                    None => owned("MIPI 指令执行失败"),
                };
                GenericResult { success: false, output: a.output, error: Some(error) }
            }
        },
        Err(e) => GenericResult { success: false, output: String::new(), error: Some(e) },
    }
}

/// One MIPI command: refused when blank, otherwise sent trimmed.
pub fn mipi_send_command(command: &str) -> (r: Result<MipiPlan, GenericResult>)
    ensures
        all_ws(command@) ==> r is Err && !r->Err_0.success && r->Err_0.output@.len() == 0
            && r->Err_0.error is Some && r->Err_0.error->0@ == "MIPI 指令不能为空"@,
        !all_ws(command@) ==> r is Ok && r->Ok_0.command@ == "vismpwr "@ + trim(command@)
            && r->Ok_0.success_message@ == "已发送 MIPI 指令: "@ + trim(command@),
{
    let trimmed = trim_str(command);
    proof {
        crate::text::lemma_trim_empty(command@);
    }
    if chars_of(trimmed.as_str()).len() == 0 {
        return Err(refused("MIPI 指令不能为空"));
    }
    let c = crate::text::concat("vismpwr ", trimmed.as_str());
    let m = crate::text::concat("已发送 MIPI 指令: ", trimmed.as_str());
    Ok(plan(c, m))
}

/// The non-blank lines, trimmed, in order.
pub open spec fn command_lines_of(v: Seq<Seq<char>>) -> Seq<Seq<char>>
    decreases v.len(),
{
    if v.len() == 0 {
        seq![]
    } else if all_ws(v.last()) {
        command_lines_of(v.drop_last())
    } else {
        command_lines_of(v.drop_last()).push(trim(v.last()))
    }
}

/// `vismpwr <line>` for each line.
pub open spec fn vismpwr_lines(v: Seq<Seq<char>>) -> Seq<Seq<char>> {
    v.map_values(|l: Seq<char>| "vismpwr "@ + l)
}

/// A batch of MIPI commands: the non-blank lines, trimmed, each sent by
/// `vismpwr`, chained with `&&` so that the batch stops at the first failure;
/// refused when no line is left.
pub fn mipi_send_commands(commands: Vec<String>) -> (r: Result<MipiPlan, GenericResult>)
    ensures
        command_lines_of(string_views(commands@)).len() == 0 ==> r is Err && !r->Err_0.success
            && r->Err_0.output@.len() == 0 && r->Err_0.error is Some && r->Err_0.error->0@
            == "MIPI 指令列表不能为空"@,
        command_lines_of(string_views(commands@)).len() > 0 ==> r is Ok && r->Ok_0.command@ == join(
            vismpwr_lines(command_lines_of(string_views(commands@))),
            " && "@,
        ) && r->Ok_0.success_message@ == "已发送全部 MIPI 指令，共 "@ + dec(
            command_lines_of(string_views(commands@)).len(),
        ) + " 条"@,
{
    let ghost sv = string_views(commands@);
    let mut normalized: Vec<String> = Vec::new();
    let mut sent: Vec<String> = Vec::new();
    let mut i: usize = 0;
    while i < commands.len()
        invariant
            0 <= i <= commands.len(),
            sv == string_views(commands@),
            sv.len() == commands@.len(),
            string_views(normalized@) == command_lines_of(sv.take(i as int)),
            string_views(sent@) == vismpwr_lines(string_views(normalized@)),
        decreases commands.len() - i,
    {
        assert(sv.take(i + 1).drop_last() == sv.take(i as int));
        assert(sv.take(i + 1).last() == commands@[i as int]@);
        let t = trim_str(commands[i].as_str());
        proof {
            crate::text::lemma_trim_empty(commands@[i as int]@);
        }
        if chars_of(t.as_str()).len() > 0 {
            let line = crate::text::concat("vismpwr ", t.as_str());
            proof {
                assert(string_views(normalized@.push(t)) =~= string_views(normalized@).push(t@));
                assert(string_views(sent@.push(line)) =~= string_views(sent@).push(line@));
                assert(vismpwr_lines(string_views(normalized@).push(t@)) =~= vismpwr_lines(
                    string_views(normalized@),
                ).push("vismpwr "@ + t@));
            }
            normalized.push(t);
            sent.push(line);
        }
        i = i + 1;
    }
    assert(sv.take(commands.len() as int) == sv);
    assert(string_views(normalized@).len() == normalized@.len());
    if normalized.len() == 0 {
        return Err(refused("MIPI 指令列表不能为空"));
    }
    let joined = join_strings(&sent, " && ");
    let mut m = chars_of("已发送全部 MIPI 指令，共 ");
    push_dec(&mut m, normalized.len() as u64);
    push_str(&mut m, " 条");
    Ok(plan(joined, string_of(m.as_slice())))
}

/// Software reset (DCS 01).
pub fn mipi_software_reset() -> (r: MipiPlan)
    ensures
        r.command@ == "vismpwr 05 00 01 01"@,
        r.success_message@ == "已执行 Software Reset (01)"@,
{
    plan(owned("vismpwr 05 00 01 01"), owned("已执行 Software Reset (01)"))
}

/// Display off then sleep in (DCS 28, then 10).
pub fn mipi_sleep_in() -> (r: MipiPlan)
    ensures
        r.command@ == "vismpwr 05 00 01 28 && sleep 0.1 && vismpwr 05 00 01 10"@,
        r.success_message@ == "已执行关屏序列: 28 -> 10"@,
{
    plan(
        owned("vismpwr 05 00 01 28 && sleep 0.1 && vismpwr 05 00 01 10"),
        owned("已执行关屏序列: 28 -> 10"),
    )
}

/// Sleep out then display on (DCS 11, then 29).
pub fn mipi_sleep_out() -> (r: MipiPlan)
    ensures
        r.command@ == "vismpwr 05 00 01 11 && sleep 0.12 && vismpwr 05 00 01 29"@,
        r.success_message@ == "已执行开屏序列: 11 -> 29"@,
{
    plan(
        owned("vismpwr 05 00 01 11 && sleep 0.12 && vismpwr 05 00 01 29"),
        owned("已执行开屏序列: 11 -> 29"),
    )
}

/// The command that reads the power mode (DCS 0A).
pub fn mipi_read_power_mode_command() -> (r: String)
    ensures
        r@ == "vismpwr -r 01 0A"@,
{
    owned("vismpwr -r 01 0A")
}

/// The result of reading the power mode: the trimmed output, or a note that
/// the board printed nothing.
pub fn mipi_read_power_mode(run: Result<AdbActionResult, String>) -> (r: GenericResult)
    ensures
        match run {
            Ok(a) => if a.success {
                r.success && r.error == a.error && r.output@ == (if trim(a.output@).len() == 0 {
                    "已读取状态 (0A)，但设备未返回可见输出"@
                } else {
                    "读取状态 (0A) 成功: "@ + trim(a.output@)
                })
            } else {
                !r.success && r.output@ == a.output@ && r.error is Some && r.error->0@ == error_or(
                    a.error,
                    "读取状态 (0A) 失败"@,
                )
            },
            Err(e) => !r.success && r.output@.len() == 0 && r.error is Some && r.error->0@ == e@,
        },
{
    match run {
        Ok(a) => {
            if a.success {
                let out = trim_str(a.output.as_str());
                let text = if chars_of(out.as_str()).len() == 0 {
                    owned("已读取状态 (0A)，但设备未返回可见输出")
                } else {
                    crate::text::concat("读取状态 (0A) 成功: ", out.as_str())
                };
                GenericResult { success: true, output: text, error: a.error }
            } else {
                let error = match a.error {
                    Some(e) => e,
                    None => owned("读取状态 (0A) 失败"),
                };
                GenericResult { success: false, output: a.output, error: Some(error) }
            }
        },
        Err(e) => GenericResult { success: false, output: String::new(), error: Some(e) },
    }
}

} // verus!
