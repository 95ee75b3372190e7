//! ADB bookkeeping: the device list, the choice of the device to talk to,
//! and the results of ADB commands.
use vstd::prelude::*;

use crate::results::{AdbActionResult, AdbDevice, AdbDevicesResult, ConnectionState};
use crate::text::{
    char_vecs, chars_eq, chars_of, fields, join, join_strings, lines, push_str, string_views, split_fields, split_lines,
    starts_with_seq, starts_with_str, string_of, strip_prefix, strip_prefix_seq, trim, trim_chars,
};
use crate::timing::opt_str;
use crate::timing_decode::{from_utf8_lossy, utf8_lossy};

verus! {

/// What a finished process left behind: whether it exited successfully, and
/// the bytes it wrote to standard output and standard error.
pub struct CommandOutput {
    pub success: bool,
    pub stdout: Vec<u8>,
    pub stderr: Vec<u8>,
}

/// Mathematical view of an [`AdbDevice`].
pub ghost struct DeviceSpec {
    pub id: Seq<char>,
    pub status: Seq<char>,
    pub product: Option<Seq<char>>,
    pub model: Option<Seq<char>>,
    pub transport_id: Option<Seq<char>>,
}

impl View for AdbDevice {
    type V = DeviceSpec;

    open spec fn view(&self) -> DeviceSpec {
        DeviceSpec {
            id: self.id@,
            status: self.status@,
            product: opt_str(self.product),
            model: opt_str(self.model),
            transport_id: opt_str(self.transport_id),
        }
    }
}

/// The views of a list of devices.
pub open spec fn device_views(v: Seq<AdbDevice>) -> Seq<DeviceSpec> {
    v.map_values(|d: AdbDevice| d@)
}

/// The value of the last of `parts` that starts with `prefix`, without it.
pub open spec fn last_tagged(parts: Seq<Seq<char>>, prefix: Seq<char>) -> Option<Seq<char>>
    decreases parts.len(),
{
    if parts.len() == 0 {
        None
    } else {
        match strip_prefix_seq(parts.last(), prefix) {
            Some(v) => Some(v),
            None => last_tagged(parts.drop_last(), prefix),
        }
    }
}

/// The device that one line of `adb devices -l` describes: none for a blank
/// line, the header line, or a line of fewer than two fields.
pub open spec fn device_of_line(line: Seq<char>) -> Option<DeviceSpec> {
    let t = trim(line);
    let fs = fields(t, false);
    if t.len() == 0 || starts_with_seq(t, "List of devices"@) || fs.len() < 2 {
        None
    } else {
        let rest = fs.skip(2);
        Some(
            DeviceSpec {
                id: fs[0],
                status: fs[1],
                product: last_tagged(rest, "product:"@),
                model: last_tagged(rest, "model:"@),
                transport_id: last_tagged(rest, "transport_id:"@),
            },
        )
    }
}

/// The devices described by a sequence of lines, in order.
pub open spec fn devices_of_lines(ls: Seq<Seq<char>>) -> Seq<DeviceSpec>
    decreases ls.len(),
{
    if ls.len() == 0 {
        seq![]
    } else {
        match device_of_line(ls.last()) {
            Some(d) => devices_of_lines(ls.drop_last()).push(d),
            None => devices_of_lines(ls.drop_last()),
        }
    }
}

proof fn lemma_prefix_first(h: Seq<char>, n: Seq<char>)
    requires
        starts_with_seq(h, n),
        n.len() > 0,
    ensures
        h[0] == n[0],
{
    assert(h.subrange(0, n.len() as int)[0] == h[0]);
}

fn tagged_value(part: &[char], prefix: &str, cur: Option<String>) -> (r: Option<String>)
    ensures
        opt_str(r) == match strip_prefix_seq(part@, prefix@) {
            Some(v) => Some(v),
            None => opt_str(cur),
        },
{
    match strip_prefix(part, prefix) {
        Some(v) => Some(string_of(v.as_slice())),
        None => cur,
    }
}

fn device_of(line: &[char]) -> (r: Option<AdbDevice>)
    ensures
        match device_of_line(line@) {
            Some(d) => r is Some && r->0@ == d,
            None => r is None,
        },
{
    let t = trim_chars(line);
    if t.len() == 0 || starts_with_str(t.as_slice(), "List of devices") {
        return None;
    }
    let parts = split_fields(t.as_slice(), false);
    let ghost fs = fields(t@, false);
    assert(char_vecs(parts@).len() == parts@.len());
    if parts.len() < 2 {
        return None;
    }
    let ghost rest = fs.skip(2);
    let mut product: Option<String> = None;
    let mut model: Option<String> = None;
    let mut transport_id: Option<String> = None;
    let mut i: usize = 2;
    while i < parts.len()
        invariant
            2 <= i <= parts.len(),
            char_vecs(parts@) == fs,
            fs.len() == parts@.len(),
            rest == fs.skip(2),
            opt_str(product) == last_tagged(rest.take(i - 2), "product:"@),
            opt_str(model) == last_tagged(rest.take(i - 2), "model:"@),
            opt_str(transport_id) == last_tagged(rest.take(i - 2), "transport_id:"@),
        decreases parts.len() - i,
    {
        let part = parts[i].as_slice();
        assert(rest.take(i - 1).drop_last() == rest.take(i - 2));
        assert(rest.take(i - 1).last() == part@);
        let is_product = strip_prefix(part, "product:");
        if is_product.is_some() {
            product = tagged_value(part, "product:", product);
        } else {
            let is_model = strip_prefix(part, "model:");
            if is_model.is_some() {
                model = tagged_value(part, "model:", model);
            } else {
                transport_id = tagged_value(part, "transport_id:", transport_id);
            }
        }
        proof {
            reveal_strlit("product:");
            reveal_strlit("model:");
            reveal_strlit("transport_id:");
            let p = part@;
            if strip_prefix_seq(p, "product:"@) is Some {
                lemma_prefix_first(p, "product:"@);
            }
            if strip_prefix_seq(p, "model:"@) is Some {
                lemma_prefix_first(p, "model:"@);
            }
            if strip_prefix_seq(p, "transport_id:"@) is Some {
                lemma_prefix_first(p, "transport_id:"@);
            }
        }
        i = i + 1;
    }
    assert(rest.take(parts.len() - 2) == rest);
    let id = string_of(parts[0].as_slice());
    let status = string_of(parts[1].as_slice());
    Some(AdbDevice { id, status, product, model, transport_id })
}

/// The devices listed in the output of `adb devices -l`: one per line that
/// is not blank, is not the `List of devices` header and has at least an id
/// and a status; the `product:`, `model:` and `transport_id:` tags that
/// follow fill the optional fields.
pub fn parse_adb_devices(stdout: &str) -> (r: Vec<AdbDevice>)
    ensures
        device_views(r@) == devices_of_lines(lines(stdout@)),
{
    let s = chars_of(stdout);
    let ls = split_lines(s.as_slice());
    let ghost lv = lines(stdout@);
    assert(char_vecs(ls@).len() == ls@.len());
    let mut out: Vec<AdbDevice> = Vec::new();
    let mut i: usize = 0;
    while i < ls.len()
        invariant
            0 <= i <= ls.len(),
            char_vecs(ls@) == lv,
            lv.len() == ls@.len(),
            device_views(out@) == devices_of_lines(lv.take(i as int)),
        decreases ls.len() - i,
    {
        assert(lv.take(i + 1).drop_last() == lv.take(i as int));
        assert(lv.take(i + 1).last() == ls@[i as int]@);
        match device_of(ls[i].as_slice()) {
            Some(d) => {
                assert(device_views(out@.push(d)) =~= device_views(out@).push(d@));
                out.push(d);
            },
            None => {},
        }
        i = i + 1;
    }
    assert(lv.take(ls.len() as int) == lv);
    out
}

/// An optional error text with a default.
pub open spec fn error_or(e: Option<String>, default: Seq<char>) -> Seq<char> {
    match e {
        Some(m) => m@,
        None => default,
    }
}

/// The text of a process stream, empty streams giving none.
pub open spec fn nonempty_text(b: Seq<u8>) -> Option<Seq<char>> {
    if utf8_lossy(b).len() == 0 {
        None
    } else {
        Some(utf8_lossy(b))
    }
}

/// The device list from the outcome of `adb devices -l`: the devices of its
/// standard output when it succeeded, its standard error when it failed, and
/// the message when it could not be run.
pub fn query_adb_devices(run: Result<CommandOutput, String>) -> (r: AdbDevicesResult)
    ensures
        match run {
            Err(e) => !r.success && r.devices@.len() == 0 && r.error is Some && r.error->0@ == e@,
            Ok(o) => if o.success {
                r.success && device_views(r.devices@) == devices_of_lines(lines(utf8_lossy(o.stdout@)))
                    && r.error is None
            } else {
                !r.success && r.devices@.len() == 0 && r.error is Some && r.error->0@ == utf8_lossy(
                    o.stderr@,
                )
            },
        },
{
    match run {
        Ok(output) => {
            if !output.success {
                return AdbDevicesResult {
                    success: false,
                    devices: Vec::new(),
                    error: Some(from_utf8_lossy(output.stderr.as_slice())),
                };
            }
            let stdout = from_utf8_lossy(output.stdout.as_slice());
            AdbDevicesResult {
                success: true,
                devices: parse_adb_devices(stdout.as_str()),
                error: None,
            }
        },
        Err(error) => AdbDevicesResult { success: false, devices: Vec::new(), error: Some(error) },
    }
}

/// Some device of the list has the id `id`.
pub open spec fn has_device(ds: Seq<AdbDevice>, id: Seq<char>) -> bool {
    exists|i: int| 0 <= i < ds.len() && (#[trigger] ds[i]).id@ == id
}

fn device_listed(ds: &Vec<AdbDevice>, id: &String) -> (r: bool)
    ensures
        r == has_device(ds@, id@),
{
    let target = chars_of(id.as_str());
    let mut i: usize = 0;
    while i < ds.len()
        invariant
            0 <= i <= ds.len(),
            target@ == id@,
            forall|j: int| 0 <= j < i ==> (#[trigger] ds@[j]).id@ != id@,
        decreases ds.len() - i,
    {
        let cand = chars_of(ds[i].id.as_str());
        if chars_eq(cand.as_slice(), target.as_slice()) {
            assert(ds@[i as int].id@ == id@);
            return true;
        }
        i = i + 1;
    }
    false
}

/// The device to talk to: the selected one while ADB still lists it,
/// otherwise the first listed device; an error when the list could not be
/// read or is empty.
pub open spec fn resolved_device(selected: Option<Seq<char>>, devices: AdbDevicesResult) -> Result<
    Seq<char>,
    Seq<char>,
> {
    if !devices.success {
        Err(error_or(devices.error, "获取 ADB 设备失败"@))
    } else if devices.devices@.len() == 0 {
        Err("未检测到 ADB 设备"@)
    } else {
        match selected {
            Some(s) => if has_device(devices.devices@, s) {
                Ok(s)
            } else {
                Ok(devices.devices@[0].id@)
            },
            None => Ok(devices.devices@[0].id@),
        }
    }
}

/// A device selected while ADB lists it is the one that commands talk to for
/// as long as ADB lists it; with none selected (as after a disconnect) they
/// talk to the first listed device.
pub proof fn lemma_selected_device_is_used(id: Seq<char>, devices: AdbDevicesResult)
    requires
        devices.success,
        has_device(devices.devices@, id),
    ensures
        resolved_device(Some(id), devices) == Ok::<Seq<char>, Seq<char>>(id),
        resolved_device(None, devices) == Ok::<Seq<char>, Seq<char>>(devices.devices@[0].id@),
{
}

/// The device that commands talk to, from the selection and the device list.
pub fn resolve_device_id(selected: Option<String>, devices: AdbDevicesResult) -> (r: Result<
    String,
    String,
>)
    ensures
        match resolved_device(opt_str(selected), devices) {
            Ok(id) => r is Ok && r->Ok_0@ == id,
            Err(m) => r is Err && r->Err_0@ == m,
        },
{
    if !devices.success {
        return match devices.error {
            Some(e) => Err(e),
            None => Err(crate::text::owned("获取 ADB 设备失败")),
        };
    }
    let list = devices.devices;
    if list.len() == 0 {
        return Err(crate::text::owned("未检测到 ADB 设备"));
    }
    match selected {
        Some(s) => {
            if device_listed(&list, &s) {
                return Ok(s);
            }
        },
        None => {},
    }
    Ok(list[0].id.clone())
}

/// Selects `device_id` when ADB lists it: the state then holds it and the
/// result says so; otherwise the state is unchanged and the result says why.
pub fn adb_select_device(
    device_id: String,
    devices: AdbDevicesResult,
    state: &mut ConnectionState,
) -> (r: AdbActionResult)
    ensures
        r.success == (devices.success && has_device(devices.devices@, device_id@)),
        r.success ==> opt_str(final(state).selected_device_id) == Some(device_id@) && r.output@ == "已选择设备: "@
            + device_id@ && r.error is None,
        !r.success ==> final(state).selected_device_id == old(state).selected_device_id
            && r.output@.len() == 0,
        !devices.success ==> r.error == devices.error,
        devices.success && !has_device(devices.devices@, device_id@) ==> r.error is Some
            && r.error->0@ == "设备不存在: "@ + device_id@,
{
    if !devices.success {
        return AdbActionResult { success: false, output: String::new(), error: devices.error };
    }
    if !device_listed(&devices.devices, &device_id) {
        return AdbActionResult {
            success: false,
            output: String::new(),
            error: Some(crate::text::concat("设备不存在: ", device_id.as_str())),
        };
    }
    let output = crate::text::concat("已选择设备: ", device_id.as_str());
    state.selected_device_id = Some(device_id);
    AdbActionResult { success: true, output, error: None }
}

/// The result of an ADB command that transfers or connects: its exit
/// status, its standard output, and its standard error unless empty.
pub fn adb_command_result(run: Result<CommandOutput, String>) -> (r: AdbActionResult)
    ensures
        match run {
            Ok(o) => r.success == o.success && r.output@ == utf8_lossy(o.stdout@) && opt_str(r.error)
                == nonempty_text(o.stderr@),
            Err(e) => !r.success && r.output@.len() == 0 && r.error is Some && r.error->0@ == e@,
        },
{
    match run {
        Ok(output) => {
            let stderr = from_utf8_lossy(output.stderr.as_slice());
            let sv = chars_of(stderr.as_str());
            AdbActionResult {
                success: output.success,
                output: from_utf8_lossy(output.stdout.as_slice()),
                error: if sv.len() == 0 {
                    None
                } else {
                    Some(stderr)
                },
            }
        },
        Err(error) => AdbActionResult { success: false, output: String::new(), error: Some(error) },
    }
}

/// The result of `adb shell`: a failure without standard error text says
/// that the shell command failed.
pub fn adb_shell_result(output: CommandOutput) -> (r: AdbActionResult)
    ensures
        r.success == output.success,
        r.output@ == utf8_lossy(output.stdout@),
        output.success ==> opt_str(r.error) == nonempty_text(output.stderr@),
        !output.success ==> r.error is Some && r.error->0@ == (if utf8_lossy(output.stderr@).len()
            == 0 {
            "ADB shell 执行失败"@
        } else {
            utf8_lossy(output.stderr@)
        }),
{
    let stdout = from_utf8_lossy(output.stdout.as_slice());
    let stderr = from_utf8_lossy(output.stderr.as_slice());
    let empty = chars_of(stderr.as_str()).len() == 0;
    if output.success {
        AdbActionResult {
            success: true,
            output: stdout,
            error: if empty {
                None
            } else {
                Some(stderr)
            },
        }
    } else {
        AdbActionResult {
            success: false,
            output: stdout,
            error: Some(
                if empty {
                    crate::text::owned("ADB shell 执行失败")
                } else {
                    stderr
                },
            ),
        }
    }
}

/// After a successful `adb disconnect` no device stays selected.
pub fn adb_disconnect_done(result: &AdbActionResult, state: &mut ConnectionState)
    ensures
        result.success ==> final(state).selected_device_id is None,
        !result.success ==> final(state).selected_device_id == old(state).selected_device_id,
{
    if result.success {
        state.selected_device_id = None;
    }
}

// ---------------------------------------------------------------------------
// Network configuration of the board
// ---------------------------------------------------------------------------

/// A separator after an interface name in `ifconfig` output.
pub open spec fn is_name_sep(c: char) -> bool {
    c == ' ' || c == ':'
}

/// The index of the first separator of `t`, or its length.
pub open spec fn first_sep(t: Seq<char>) -> nat
    decreases t.len(),
{
    if t.len() == 0 {
        0
    } else if is_name_sep(t[0]) {
        0
    } else {
        1 + first_sep(t.drop_first())
    }
}

/// The interface that one line of `ifconfig` output starts: the text before
/// the first space or colon of the trimmed line, itself trimmed; none for a
/// blank line, an empty name, `lo` or `docker0`.
pub open spec fn interface_of_line(line: Seq<char>) -> Option<Seq<char>> {
    let t = trim(line);
    let name = trim(t.take(first_sep(t) as int));
    if t.len() == 0 || t[0] == ' ' || t[0] == '\t' || name.len() == 0 || name == "lo"@ || name
        == "docker0"@ {
        None
    } else {
        Some(name)
    }
}

/// The interface of the first line that names one.
pub open spec fn first_interface(ls: Seq<Seq<char>>) -> Option<Seq<char>>
    decreases ls.len(),
{
    if ls.len() == 0 {
        None
    } else {
        match first_interface(ls.drop_last()) {
            Some(n) => Some(n),
            None => interface_of_line(ls.last()),
        }
    }
}

proof fn lemma_first_sep(t: Seq<char>, i: int)
    requires
        0 <= i <= t.len(),
        forall|j: int| 0 <= j < i ==> !is_name_sep(#[trigger] t[j]),
        i == t.len() || is_name_sep(t[i]),
    ensures
        first_sep(t) == i,
    decreases i,
{
    if i > 0 {
        let d = t.drop_first();
        assert forall|j: int| 0 <= j < i - 1 implies !is_name_sep(#[trigger] d[j]) by {
            assert(d[j] == t[j + 1]);
        }
        if i < t.len() {
            assert(d[i - 1] == t[i]);
        }
        lemma_first_sep(d, i - 1);
    }
}

proof fn lemma_first_interface_found(ls: Seq<Seq<char>>, k: int)
    requires
        0 <= k <= ls.len(),
        first_interface(ls.take(k)) is Some,
    ensures
        first_interface(ls) == first_interface(ls.take(k)),
    decreases ls.len() - k,
{
    if k < ls.len() {
        assert(ls.take(k + 1).drop_last() == ls.take(k));
        lemma_first_interface_found(ls, k + 1);
    } else {
        assert(ls.take(k) == ls);
    }
}

fn interface_of(line: &[char]) -> (r: Option<String>)
    ensures
        opt_str(r) == interface_of_line(line@),
{
    let t = trim_chars(line);
    if t.len() == 0 || t[0] == ' ' || t[0] == '\t' {
        return None;
    }
    let mut i: usize = 0;
    while i < t.len() && !(t[i] == ' ' || t[i] == ':')
        invariant
            0 <= i <= t.len(),
            forall|j: int| 0 <= j < i ==> !is_name_sep(#[trigger] t@[j]),
        decreases t.len() - i,
    {
        i = i + 1;
    }
    proof {
        lemma_first_sep(t@, i as int);
    }
    let head = crate::text::slice_range(t.as_slice(), 0, i);
    assert(head@ == t@.take(i as int));
    let name = trim_chars(head.as_slice());
    if name.len() == 0 || crate::text::chars_eq_str(name.as_slice(), "lo")
        || crate::text::chars_eq_str(name.as_slice(), "docker0") {
        return None;
    }
    Some(string_of(name.as_slice()))
}

/// The board's primary network interface, from the result of `ifconfig`:
/// the first interface its output names other than `lo` and `docker0`.
pub fn primary_interface(result: AdbActionResult) -> (r: Result<String, String>)
    ensures
        !result.success ==> r is Err && r->Err_0@ == error_or(result.error, "读取网络接口失败"@),
        result.success ==> match first_interface(lines(result.output@)) {
            Some(n) => r is Ok && r->Ok_0@ == n,
            None => r is Err && r->Err_0@ == "未识别到可用网络接口"@,
        },
{
    if !result.success {
        return match result.error {
            Some(e) => Err(e),
            None => Err(crate::text::owned("读取网络接口失败")),
        };
    }
    let s = chars_of(result.output.as_str());
    let ls = split_lines(s.as_slice());
    let ghost lv = lines(result.output@);
    assert(char_vecs(ls@).len() == ls@.len());
    let mut i: usize = 0;
    while i < ls.len()
        invariant
            0 <= i <= ls.len(),
            char_vecs(ls@) == lv,
            lv.len() == ls@.len(),
            first_interface(lv.take(i as int)) is None,
            result.success,
            lv == lines(result.output@),
        decreases ls.len() - i,
    {
        assert(lv.take(i + 1).drop_last() == lv.take(i as int));
        assert(lv.take(i + 1).last() == ls@[i as int]@);
        match interface_of(ls[i].as_slice()) {
            Some(name) => {
                proof {
                    lemma_first_interface_found(lv, i + 1);
                }
                return Ok(name);
            },
            None => {},
        }
        i = i + 1;
    }
    assert(lv.take(ls.len() as int) == lv);
    Err(crate::text::owned("未识别到可用网络接口"))
}

/// The netplan file that gives `interface` the static address `ip`/24 with
/// `gateway` as gateway and first name server.
pub open spec fn netplan_yaml(interface: Seq<char>, ip: Seq<char>, gateway: Seq<char>) -> Seq<char> {
    "# Let NetworkManager manage all devices on this system\nnetwork:\n  ethernets:\n    "@
        + interface + ":\n      addresses: ["@ + ip + "/24]\n      dhcp4: false\n      optional: true\n      gateway4: "@
        + gateway + "\n      nameservers:\n        addresses: ["@ + gateway
        + ",114.114.114.114,8.8.8.8,8.8.4.4]\n  version: 2\n  renderer: NetworkManager\n"@
}

/// The netplan configuration for a static address.
pub fn build_netplan_yaml(interface: &str, ip: &str, gateway: &str) -> (r: String)
    ensures
        r@ == netplan_yaml(interface@, ip@, gateway@),
{
    let mut v = chars_of(
        "# Let NetworkManager manage all devices on this system\nnetwork:\n  ethernets:\n    ",
    );
    push_str(&mut v, interface);
    push_str(&mut v, ":\n      addresses: [");
    push_str(&mut v, ip);
    push_str(&mut v, "/24]\n      dhcp4: false\n      optional: true\n      gateway4: ");
    push_str(&mut v, gateway);
    push_str(&mut v, "\n      nameservers:\n        addresses: [");
    push_str(&mut v, gateway);
    push_str(&mut v, ",114.114.114.114,8.8.8.8,8.8.4.4]\n  version: 2\n  renderer: NetworkManager\n");
    string_of(v.as_slice())
}

/// A failed push of the netplan file stops the change with its output and
/// its error (by default: the push failed); a successful one lets it go on.
pub fn static_ip_push_failure(push: AdbActionResult) -> (r: Option<AdbActionResult>)
    ensures
        push.success ==> r is None,
        !push.success ==> r is Some && !r->0.success && r->0.output@ == push.output@ && r->0.error
            is Some && r->0.error->0@ == error_or(push.error, "推送 netplan 配置失败"@),
{
    if push.success {
        None
    } else {
        let error = match push.error {
            Some(e) => e,
            None => crate::text::owned("推送 netplan 配置失败"),
        };
        Some(AdbActionResult { success: false, output: push.output, error: Some(error) })
    }
}

/// The result of `netplan apply` for the static address on `interface`.
pub fn static_ip_applied(
    interface: &str,
    request: &crate::results::StaticIpRequest,
    apply: AdbActionResult,
) -> (r: AdbActionResult)
    ensures
        r.success == apply.success,
        apply.success ==> r.output@ == "已将网卡 "@ + interface@ + " 设置为静态 IP "@ + request.ip@
            + "，网关 "@ + request.gateway@ && r.error is None,
        !apply.success ==> r.output@ == apply.output@ && r.error is Some && r.error->0@ == error_or(
            apply.error,
            "netplan apply 执行失败"@,
        ),
{
    if apply.success {
        let mut v = chars_of("已将网卡 ");
        push_str(&mut v, interface);
        push_str(&mut v, " 设置为静态 IP ");
        push_str(&mut v, request.ip.as_str());
        push_str(&mut v, "，网关 ");
        push_str(&mut v, request.gateway.as_str());
        AdbActionResult { success: true, output: string_of(v.as_slice()), error: None }
    } else {
        let error = match apply.error {
            Some(e) => e,
            None => crate::text::owned("netplan apply 执行失败"),
        };
        AdbActionResult { success: false, output: apply.output, error: Some(error) }
    }
}

// ---------------------------------------------------------------------------
// Python scripts on the board
// ---------------------------------------------------------------------------

/// `python3 <script>`, followed by the arguments separated by spaces.
pub open spec fn python_command_text(script: Seq<char>, args: Seq<Seq<char>>) -> Seq<char> {
    "python3 "@ + script + (if args.len() == 0 {
        Seq::<char>::empty()
    } else {
        " "@ + join(args, " "@)
    })
}

/// The shell command that runs a pushed script with its arguments.
pub fn python_command(script: &str, args: &Vec<String>) -> (r: String)
    ensures
        r@ == python_command_text(script@, string_views(args@)),
{
    let mut v = chars_of("python3 ");
    push_str(&mut v, script);
    if args.len() > 0 {
        push_str(&mut v, " ");
        let joined = join_strings(args, " ");
        push_str(&mut v, joined.as_str());
    }
    string_of(v.as_slice())
}

/// A failed push of a script stops the run: with the push output and error
/// (by default: pushing the script failed), or with the transport error.
pub fn remote_script_push_failure(push: Result<AdbActionResult, String>) -> (r: Option<
    crate::results::PatternResult,
>)
    ensures
        match push {
            Ok(p) => if p.success {
                r is None
            } else {
                r is Some && !r->0.success && r->0.message@ == p.output@ && r->0.error is Some
                    && r->0.error->0@ == error_or(p.error, "推送脚本失败"@)
            },
            Err(e) => r is Some && !r->0.success && r->0.message@.len() == 0 && r->0.error is Some
                && r->0.error->0@ == e@,
        },
{
    match push {
        Ok(p) => {
            if p.success {
                None
            } else {
                let error = match p.error {
                    Some(e) => e,
                    None => crate::text::owned("推送脚本失败"),
                };
                Some(
                    crate::results::PatternResult {
                        success: false,
                        message: p.output,
                        error: Some(error),
                    },
                )
            }
        },
        Err(e) => Some(
            crate::results::PatternResult { success: false, message: String::new(), error: Some(e) },
        ),
    }
}

/// The result of running a pushed script: success names the local script.
pub fn remote_script_outcome(local_script: &str, run: Result<AdbActionResult, String>) -> (r:
    crate::results::PatternResult)
    ensures
        match run {
            Ok(a) => if a.success {
                r.success && r.message@ == "脚本执行成功: "@ + local_script@ && r.error is None
            } else {
                !r.success && r.message@ == a.output@ && r.error == a.error
            },
            Err(e) => !r.success && r.message@.len() == 0 && r.error is Some && r.error->0@ == e@,
        },
{
    match run {
        Ok(a) => {
            if a.success {
                crate::results::PatternResult {
                    success: true,
                    message: crate::text::concat("脚本执行成功: ", local_script),
                    error: None,
                }
            } else {
                crate::results::PatternResult { success: false, message: a.output, error: a.error }
            }
        },
        Err(e) => crate::results::PatternResult {
            success: false,
            message: String::new(),
            error: Some(e),
        },
    }
}

} // verus!
