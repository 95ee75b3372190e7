//! Reading panel configurations back: the `vis-timing.bin` layout written by
//! [`crate::timing`] and the older 200-byte LCD configuration format.
use vstd::prelude::*;

use crate::text::{chars_of, dec, hex2, owned, push_dec, push_hex2, push_str, string_of};
use crate::timing::{opt_str, strs, TimingBinRequest};

verus! {

// ---------------------------------------------------------------------------
// Data types
// ---------------------------------------------------------------------------

/// The timing and interface settings read from a configuration file.
/// `pclk` is in kHz.
pub struct LegacyTimingConfig {
    pub hact: u32,
    pub vact: u32,
    pub pclk: u64,
    pub hfp: u32,
    pub hbp: u32,
    pub hsync: u32,
    pub vfp: u32,
    pub vbp: u32,
    pub vsync: u32,
    pub hs_polarity: bool,
    pub vs_polarity: bool,
    pub de_polarity: bool,
    pub clk_polarity: bool,
    pub interface_type: String,
    pub mipi_mode: String,
    pub video_type: String,
    pub lanes: u8,
    pub format: String,
    pub phy_mode: String,
    pub dsc_enable: bool,
    pub dsc_version: String,
    pub slice_width: u32,
    pub slice_height: u32,
    pub scrambling_enable: bool,
    pub data_swap: bool,
    pub dual_channel: bool,
    pub panel_name: Option<String>,
    pub version: Option<String>,
}

/// Mathematical view of a [`LegacyTimingConfig`].
pub ghost struct LegacyTimingSpec {
    pub hact: u32,
    pub vact: u32,
    pub pclk: u64,
    pub hfp: u32,
    pub hbp: u32,
    pub hsync: u32,
    pub vfp: u32,
    pub vbp: u32,
    pub vsync: u32,
    pub hs_polarity: bool,
    pub vs_polarity: bool,
    pub de_polarity: bool,
    pub clk_polarity: bool,
    pub interface_type: Seq<char>,
    pub mipi_mode: Seq<char>,
    pub video_type: Seq<char>,
    pub lanes: u8,
    pub format: Seq<char>,
    pub phy_mode: Seq<char>,
    pub dsc_enable: bool,
    pub dsc_version: Seq<char>,
    pub slice_width: u32,
    pub slice_height: u32,
    pub scrambling_enable: bool,
    pub data_swap: bool,
    pub dual_channel: bool,
    pub panel_name: Option<Seq<char>>,
    pub version: Option<Seq<char>>,
}

impl View for LegacyTimingConfig {
    type V = LegacyTimingSpec;

    open spec fn view(&self) -> LegacyTimingSpec {
        LegacyTimingSpec {
            hact: self.hact,
            vact: self.vact,
            pclk: self.pclk,
            hfp: self.hfp,
            hbp: self.hbp,
            hsync: self.hsync,
            vfp: self.vfp,
            vbp: self.vbp,
            vsync: self.vsync,
            hs_polarity: self.hs_polarity,
            vs_polarity: self.vs_polarity,
            de_polarity: self.de_polarity,
            clk_polarity: self.clk_polarity,
            interface_type: self.interface_type@,
            mipi_mode: self.mipi_mode@,
            video_type: self.video_type@,
            lanes: self.lanes,
            format: self.format@,
            phy_mode: self.phy_mode@,
            dsc_enable: self.dsc_enable,
            dsc_version: self.dsc_version@,
            slice_width: self.slice_width,
            slice_height: self.slice_height,
            scrambling_enable: self.scrambling_enable,
            data_swap: self.data_swap,
            dual_channel: self.dual_channel,
            panel_name: opt_str(self.panel_name),
            version: opt_str(self.version),
        }
    }
}

/// The outcome of reading a configuration file.
pub struct LegacyLcdConfigResult {
    pub success: bool,
    pub path: Option<String>,
    pub timing: Option<LegacyTimingConfig>,
    pub init_codes: Vec<String>,
    pub error: Option<String>,
}

/// Mathematical view of a [`LegacyLcdConfigResult`].
pub ghost struct LcdConfigSpec {
    pub success: bool,
    pub path: Option<Seq<char>>,
    pub timing: Option<LegacyTimingSpec>,
    pub init_codes: Seq<Seq<char>>,
    pub error: Option<Seq<char>>,
}

impl View for LegacyLcdConfigResult {
    type V = LcdConfigSpec;

    open spec fn view(&self) -> LcdConfigSpec {
        LcdConfigSpec {
            success: self.success,
            path: opt_str(self.path),
            timing: match self.timing {
                Some(t) => Some(t@),
                None => None,
            },
            init_codes: strs(self.init_codes@),
            error: opt_str(self.error),
        }
    }
}

/// A failed reading of the file at `path`.
pub open spec fn config_failure(path: Seq<char>, error: Seq<char>) -> LcdConfigSpec {
    LcdConfigSpec {
        success: false,
        path: Some(path),
        timing: None,
        init_codes: seq![],
        error: Some(error),
    }
}

/// A successful reading of the file at `path`.
pub open spec fn config_success(path: Seq<char>, t: LegacyTimingSpec, codes: Seq<Seq<char>>) -> LcdConfigSpec {
    LcdConfigSpec {
        success: true,
        path: Some(path),
        timing: Some(t),
        init_codes: codes,
        error: None,
    }
}

fn failure(path: &str, error: String) -> (r: LegacyLcdConfigResult)
    ensures
        r@ == config_failure(path@, error@),
{
    let r = LegacyLcdConfigResult {
        success: false,
        path: Some(owned(path)),
        timing: None,
        init_codes: Vec::new(),
        error: Some(error),
    };
    assert(strs(r.init_codes@) =~= seq![]);
    r
}

// ---------------------------------------------------------------------------
// Reading integers
// ---------------------------------------------------------------------------

pub open spec fn rd16(b: Seq<u8>, o: int) -> u16 {
    (b[o] as u16) | ((b[o + 1] as u16) << 8)
}

pub open spec fn rd32(b: Seq<u8>, o: int) -> u32 {
    (b[o] as u32) | ((b[o + 1] as u32) << 8) | ((b[o + 2] as u32) << 16) | ((b[o + 3] as u32)
        << 24)
}

pub open spec fn rd64(b: Seq<u8>, o: int) -> u64 {
    (rd32(b, o) as u64) | ((rd32(b, o + 4) as u64) << 32)
}

pub open spec fn be16(b: Seq<u8>, o: int) -> u32 {
    (((b[o] as u16) << 8) | (b[o + 1] as u16)) as u32
}

pub open spec fn be32(b: Seq<u8>, o: int) -> u32 {
    ((b[o] as u32) << 24) | ((b[o + 1] as u32) << 16) | ((b[o + 2] as u32) << 8) | (b[o
        + 3] as u32)
}

/// `u32::from_le_bytes` of the four bytes at `offset`.
pub fn read_u32_le(bytes: &[u8], offset: usize) -> (r: u32)
    requires
        offset + 4 <= bytes.len(),
    ensures
        r == rd32(bytes@, offset as int),
{
    (bytes[offset] as u32) | ((bytes[offset + 1] as u32) << 8) | ((bytes[offset + 2] as u32) << 16)
        | ((bytes[offset + 3] as u32) << 24)
}

/// `u64::from_le_bytes` of the eight bytes at `offset`.
pub fn read_u64_le(bytes: &[u8], offset: usize) -> (r: u64)
    requires
        offset + 8 <= bytes.len(),
    ensures
        r == rd64(bytes@, offset as int),
{
    let lo = read_u32_le(bytes, offset);
    let hi = read_u32_le(bytes, offset + 4);
    (lo as u64) | ((hi as u64) << 32)
}

fn read_u16_le(bytes: &[u8], offset: usize) -> (r: u16)
    requires
        offset + 2 <= bytes.len(),
    ensures
        r == rd16(bytes@, offset as int),
{
    (bytes[offset] as u16) | ((bytes[offset + 1] as u16) << 8)
}

fn read_u16_be(bytes: &[u8], offset: usize) -> (r: u32)
    requires
        offset + 2 <= bytes.len(),
    ensures
        r == be16(bytes@, offset as int),
{
    (((bytes[offset] as u16) << 8) | (bytes[offset + 1] as u16)) as u32
}

fn read_u32_be(bytes: &[u8], offset: usize) -> (r: u32)
    requires
        offset + 4 <= bytes.len(),
    ensures
        r == be32(bytes@, offset as int),
{
    ((bytes[offset] as u32) << 24) | ((bytes[offset + 1] as u32) << 16) | ((bytes[offset + 2] as u32)
        << 8) | (bytes[offset + 3] as u32)
}

// ---------------------------------------------------------------------------
// Text fields
// ---------------------------------------------------------------------------

/// What `String::from_utf8_lossy` returns for the given bytes.
pub uninterp spec fn utf8_lossy(b: Seq<u8>) -> Seq<char>;

/// `String::from_utf8_lossy`: the text of the bytes with each invalid UTF-8
/// sequence replaced by U+FFFD. Stated: for valid UTF-8 it is the decoded
/// text; the replacement of invalid sequences is only named.
#[verifier::external_body]
pub(crate) fn from_utf8_lossy(b: &[u8]) -> (r: String)
    ensures
        r@ == utf8_lossy(b@),
        vstd::utf8::valid_utf8(b@) ==> r@ == vstd::utf8::decode_utf8(b@),
{
    String::from_utf8_lossy(b).to_string()
}

/// `s` without trailing NUL characters (`trim_end_matches('\0')`).
pub open spec fn trim_nul(s: Seq<char>) -> Seq<char>
    decreases s.len(),
{
    if s.len() > 0 && s.last() == '\0' {
        trim_nul(s.drop_last())
    } else {
        s
    }
}

fn trim_trailing_nul(s: &[char]) -> (r: Vec<char>)
    ensures
        r@ == trim_nul(s@),
{
    let mut n = s.len();
    assert(s@.take(n as int) == s@);
    while n > 0 && s[n - 1] == '\0'
        invariant
            n <= s.len(),
            trim_nul(s@) == trim_nul(s@.take(n as int)),
        decreases n,
    {
        assert(s@.take(n as int).drop_last() == s@.take(n - 1));
        n = n - 1;
    }
    let r = crate::text::slice_range(s, 0, n);
    assert(s@.take(n as int) == s@.subrange(0, n as int));
    r
}

/// The text of the bytes `b[from..to]`, lossily decoded, without trailing NULs.
pub open spec fn text_field(b: Seq<u8>, from: int, to: int) -> Seq<char> {
    trim_nul(utf8_lossy(b.subrange(from, to)))
}

fn read_text_field(bytes: &[u8], from: usize, to: usize) -> (r: String)
    requires
        from <= to <= bytes.len(),
    ensures
        r@ == text_field(bytes@, from as int, to as int),
{
    let mut part: Vec<u8> = Vec::new();
    let mut i = from;
    while i < to
        invariant
            from <= i <= to <= bytes.len(),
            part@ == bytes@.subrange(from as int, i as int),
        decreases to - i,
    {
        part.push(bytes[i]);
        i = i + 1;
        assert(bytes@.subrange(from as int, i as int) == bytes@.subrange(from as int, i - 1).push(
            bytes@[i - 1],
        ));
    }
    let s = from_utf8_lossy(part.as_slice());
    let c = chars_of(s.as_str());
    let t = trim_trailing_nul(c.as_slice());
    string_of(t.as_slice())
}

/// Bytes as upper-case hexadecimal pairs separated by single spaces.
pub open spec fn hex_line(b: Seq<u8>) -> Seq<char>
    decreases b.len(),
{
    if b.len() == 0 {
        seq![]
    } else if b.len() == 1 {
        hex2(b[0])
    } else {
        hex_line(b.drop_last()) + seq![' '] + hex2(b.last())
    }
}

/// `b[from..to]` as upper-case hexadecimal pairs separated by spaces.
pub fn format_hex_line(b: &[u8], from: usize, to: usize) -> (r: String)
    requires
        from <= to <= b.len(),
    ensures
        r@ == hex_line(b@.subrange(from as int, to as int)),
{
    let mut v: Vec<char> = Vec::new();
    let mut i = from;
    while i < to
        invariant
            from <= i <= to <= b.len(),
            v@ == hex_line(b@.subrange(from as int, i as int)),
        decreases to - i,
    {
        let ghost sub = b@.subrange(from as int, i + 1);
        assert(sub.drop_last() == b@.subrange(from as int, i as int));
        assert(sub.last() == b@[i as int]);
        if i > from {
            v.push(' ');
        } else {
            assert(sub =~= seq![b@[i as int]]);
        }
        push_hex2(&mut v, b[i]);
        i = i + 1;
    }
    string_of(v.as_slice())
}

/// The `DT DELAY LEN DATA...` commands of `b[i..end]`, each `LEN + 3` bytes
/// long, up to the point where fewer than three bytes remain; a command that
/// runs past `end` gives its starting position.
pub open spec fn init_lines(b: Seq<u8>, i: int, end: int) -> Result<Seq<Seq<u8>>, int>
    decreases end - i,
{
    if !(i + 2 < end) {
        Ok(seq![])
    } else {
        let ll = b[i + 2] + 3;
        if i + ll > end {
            Err(i)
        } else {
            match init_lines(b, i + ll, end) {
                Ok(rest) => Ok(seq![b.subrange(i, i + ll)] + rest),
                Err(e) => Err(e),
            }
        }
    }
}

/// The hexadecimal text of each command.
pub open spec fn hex_lines(ls: Seq<Seq<u8>>) -> Seq<Seq<char>> {
    ls.map_values(|l: Seq<u8>| hex_line(l))
}

/// Splits `bytes[offset..end]` into commands, as hexadecimal lines.
fn split_init_codes(bytes: &[u8], offset: usize, end: usize) -> (r: Result<Vec<String>, usize>)
    requires
        offset <= end <= bytes.len(),
    ensures
        match init_lines(bytes@, offset as int, end as int) {
            Ok(ls) => r is Ok && strs(r->Ok_0@) == hex_lines(ls),
            Err(p) => r is Err && r->Err_0 == p,
        },
{
    let mut codes: Vec<String> = Vec::new();
    let ghost mut acc: Seq<Seq<u8>> = seq![];
    let mut i = offset;
    while end >= 2 && i < end - 2
        invariant
            offset <= i <= end <= bytes.len(),
            strs(codes@) == hex_lines(acc),
            codes@.len() == acc.len(),
            init_lines(bytes@, offset as int, end as int) == match init_lines(
                bytes@,
                i as int,
                end as int,
            ) {
                Ok(rest) => Ok(acc + rest),
                Err(e) => Err(e),
            },
        decreases end - i,
    {
        let line_len = bytes[i + 2] as usize + 3;
        if line_len > end - i {
            return Err(i);
        }
        let line = format_hex_line(bytes, i, i + line_len);
        proof {
            let piece = bytes@.subrange(i as int, i + line_len);
            assert(line@ == hex_line(piece));
            assert forall|k: int| 0 <= k < acc.len() + 1 implies #[trigger] strs(
                codes@.push(line),
            )[k] == hex_lines(acc.push(piece))[k] by {
                if k < acc.len() {
                    assert(strs(codes@)[k] == hex_lines(acc)[k]);
                }
            }
            assert(strs(codes@.push(line)) =~= hex_lines(acc.push(piece)));
            assert(acc.push(piece) + match init_lines(bytes@, i + line_len, end as int) {
                Ok(rest) => rest,
                Err(e) => seq![],
            } =~= acc + (seq![piece] + match init_lines(bytes@, i + line_len, end as int) {
                Ok(rest) => rest,
                Err(e) => seq![],
            }));
            acc = acc.push(piece);
        }
        codes.push(line);
        i = i + line_len;
    }
    assert(acc + seq![] =~= acc);
    Ok(codes)
}

// ---------------------------------------------------------------------------
// Names of encoded values
// ---------------------------------------------------------------------------

pub open spec fn interface_name(code: u8) -> Seq<char> {
    if code == 1 {
        "EDP"@
    } else if code == 2 {
        "DP"@
    } else {
        "MIPI"@
    }
}

pub open spec fn format_name(code: u8) -> Seq<char> {
    if code == 1 {
        "RGB666"@
    } else if code == 2 {
        "RGB666_PACKED"@
    } else if code == 3 {
        "RGB565"@
    } else {
        "RGB888"@
    }
}

pub open spec fn phy_name(code: u8) -> Seq<char> {
    if code == 1 {
        "CPHY"@
    } else {
        "DPHY"@
    }
}

/// A clock read in Hz, given back in kHz when it is at least 1 MHz.
pub open spec fn pclk_khz(hz: u64) -> u64 {
    if hz >= 1_000_000 {
        (hz / 1000) as u64
    } else {
        hz
    }
}

fn interface_name_of(code: u8) -> (r: String)
    ensures
        r@ == interface_name(code),
{
    if code == 1 {
        owned("EDP")
    } else if code == 2 {
        owned("DP")
    } else {
        owned("MIPI")
    }
}

fn format_name_of(code: u8) -> (r: String)
    ensures
        r@ == format_name(code),
{
    if code == 0 {
        owned("RGB888")
    } else if code == 1 {
        owned("RGB666")
    } else if code == 2 {
        owned("RGB666_PACKED")
    } else if code == 3 {
        owned("RGB565")
    } else {
        owned("RGB888")
    }
}

fn phy_name_of(code: u8) -> (r: String)
    ensures
        r@ == phy_name(code),
{
    if code == 1 {
        owned("CPHY")
    } else {
        owned("DPHY")
    }
}

// ---------------------------------------------------------------------------
// The vis-timing.bin layout
// ---------------------------------------------------------------------------

/// The video type of the mode bits (bits 1 and 2) of the other-info block.
pub open spec fn video_type_name(raw: u16) -> Seq<char> {
    let v = (raw >> 1) & 3;
    if v == 1 {
        "BURST_MODE"@
    } else if v == 2 {
        "NON_BURST_SYNC_PULSES"@
    } else {
        "NON_BURST_SYNC_EVENTS"@
    }
}

/// `Vesa<major>.<minor>`.
pub open spec fn vesa_version(major: u8, minor: u8) -> Seq<char> {
    "Vesa"@ + dec(major as nat) + "."@ + dec(minor as nat)
}

/// The settings of a file in the `vis-timing.bin` layout whose timing block
/// is at `t`, DSC block at `d` and other-info block at `o`.
pub open spec fn new_format_timing(b: Seq<u8>, t: int, d: int, o: int) -> LegacyTimingSpec {
    let flags = rd32(b, t + 40);
    let raw = rd16(b, o);
    LegacyTimingSpec {
        hact: rd32(b, t + 8),
        vact: rd32(b, t + 24),
        pclk: pclk_khz(rd64(b, t)),
        hfp: rd32(b, t + 12),
        hbp: rd32(b, t + 16),
        hsync: rd32(b, t + 20),
        vfp: rd32(b, t + 28),
        vbp: rd32(b, t + 32),
        vsync: rd32(b, t + 36),
        hs_polarity: flags & 2 != 0,
        vs_polarity: flags & 8 != 0,
        de_polarity: flags & 32 != 0,
        clk_polarity: flags & 128 != 0,
        interface_type: interface_name(b[o + 3]),
        mipi_mode: if raw & 1 != 0 {
            "Video"@
        } else {
            "Command"@
        },
        video_type: video_type_name(raw),
        lanes: b[o + 5],
        format: format_name(b[o + 4]),
        phy_mode: phy_name(b[d]),
        dsc_enable: b[d + 2] != 0,
        dsc_version: vesa_version(b[d + 3], b[d + 4]),
        slice_width: rd32(b, d + 8),
        slice_height: rd32(b, d + 12),
        scrambling_enable: b[d + 1] != 0,
        data_swap: b[o + 2] != 0,
        dual_channel: false,
        panel_name: Some(text_field(b, 20, 36)),
        version: Some(text_field(b, 36, 44)),
    }
}

/// The message for an init command that runs past its region.
pub open spec fn region_overrun_message(pos: int) -> Seq<char> {
    "初始化代码区损坏：第 "@ + dec(pos as nat) + " 字节开始的命令超出区域"@
}

/// What `parse_init_codes_cli` gives for `max_len` bytes from `offset`.
pub open spec fn cli_init_codes(b: Seq<u8>, offset: int, max_len: int) -> Result<
    Seq<Seq<char>>,
    Seq<char>,
> {
    let end = if offset + max_len < b.len() {
        offset + max_len
    } else {
        b.len() as int
    };
    match init_lines(b, offset, end) {
        Ok(ls) => Ok(hex_lines(ls)),
        Err(p) => Err(region_overrun_message(p)),
    }
}

/// The init codes of a `vis-timing.bin` file; an overrun gives a single
/// line that reports it.
pub open spec fn new_format_init_codes(b: Seq<u8>, offset: int, size: int) -> Seq<Seq<char>> {
    match cli_init_codes(b, offset, size) {
        Ok(ls) => ls,
        Err(m) => seq!["(init code parse error: "@ + m + ")"@],
    }
}

/// What reading a file in the `vis-timing.bin` layout gives.
pub open spec fn new_format_config(path: Seq<char>, b: Seq<u8>) -> LcdConfigSpec {
    if b.len() < 96 {
        config_failure(
            path,
            "新格式文件 header 长度不足，至少需要 96 字节，实际 "@ + dec(b.len()) + " 字节"@,
        )
    } else {
        let t = rd32(b, 44) as int;
        let is = rd32(b, 52) as int;
        let iz = rd32(b, 56) as int;
        let d = rd32(b, 76) as int;
        let o = rd32(b, 84) as int;
        if t + 44 > b.len() || is + iz > b.len() || d + 16 > b.len() || o + 16 > b.len() {
            config_failure(path, "新格式文件 section 偏移超出文件范围"@)
        } else {
            config_success(path, new_format_timing(b, t, d, o), new_format_init_codes(b, is, iz))
        }
    }
}

/// The init codes of `max_len` bytes from `offset`, as hexadecimal lines.
pub fn parse_init_codes_cli(bytes: &[u8], offset: usize, max_len: usize) -> (r: Result<
    Vec<String>,
    String,
>)
    requires
        offset + max_len <= usize::MAX,
    ensures
        match cli_init_codes(bytes@, offset as int, max_len as int) {
            Ok(ls) => r is Ok && strs(r->Ok_0@) == ls,
            Err(m) => r is Err && r->Err_0@ == m,
        },
{
    if offset > bytes.len() {
        let none: Vec<String> = Vec::new();
        assert(strs(none@) =~= hex_lines(seq![]));
        return Ok(none);
    }
    let end = if max_len < bytes.len() - offset {
        offset + max_len
    } else {
        bytes.len()
    };
    match split_init_codes(bytes, offset, end) {
        Ok(codes) => Ok(codes),
        Err(pos) => {
            let mut v = chars_of("初始化代码区损坏：第 ");
            push_dec(&mut v, pos as u64);
            push_str(&mut v, " 字节开始的命令超出区域");
            Err(string_of(v.as_slice()))
        },
    }
}

fn vesa_version_of(major: u8, minor: u8) -> (r: String)
    ensures
        r@ == vesa_version(major, minor),
{
    let mut v = chars_of("Vesa");
    push_dec(&mut v, major as u64);
    push_str(&mut v, ".");
    push_dec(&mut v, minor as u64);
    string_of(v.as_slice())
}

fn video_type_name_of(raw: u16) -> (r: String)
    ensures
        r@ == video_type_name(raw),
{
    let v = (raw >> 1) & 3;
    if v == 1 {
        owned("BURST_MODE")
    } else if v == 2 {
        owned("NON_BURST_SYNC_PULSES")
    } else {
        owned("NON_BURST_SYNC_EVENTS")
    }
}

fn new_format_timing_of(bytes: &[u8], t: usize, d: usize, o: usize) -> (r: LegacyTimingConfig)
    requires
        96 <= bytes.len(),
        t + 44 <= bytes.len(),
        d + 16 <= bytes.len(),
        o + 16 <= bytes.len(),
    ensures
        r@ == new_format_timing(bytes@, t as int, d as int, o as int),
{
    let hz = read_u64_le(bytes, t);
    let pclk = if hz >= 1_000_000 {
        hz / 1000
    } else {
        hz
    };
    let flags = read_u32_le(bytes, t + 40);
    let raw = read_u16_le(bytes, o);
    LegacyTimingConfig {
        hact: read_u32_le(bytes, t + 8),
        vact: read_u32_le(bytes, t + 24),
        pclk,
        hfp: read_u32_le(bytes, t + 12),
        hbp: read_u32_le(bytes, t + 16),
        hsync: read_u32_le(bytes, t + 20),
        vfp: read_u32_le(bytes, t + 28),
        vbp: read_u32_le(bytes, t + 32),
        vsync: read_u32_le(bytes, t + 36),
        hs_polarity: flags & 2 != 0,
        vs_polarity: flags & 8 != 0,
        de_polarity: flags & 32 != 0,
        clk_polarity: flags & 128 != 0,
        interface_type: interface_name_of(bytes[o + 3]),
        mipi_mode: if raw & 1 != 0 {
            owned("Video")
        } else {
            owned("Command")
        },
        video_type: video_type_name_of(raw),
        lanes: bytes[o + 5],
        format: format_name_of(bytes[o + 4]),
        phy_mode: phy_name_of(bytes[d]),
        dsc_enable: bytes[d + 2] != 0,
        dsc_version: vesa_version_of(bytes[d + 3], bytes[d + 4]),
        slice_width: read_u32_le(bytes, d + 8),
        slice_height: read_u32_le(bytes, d + 12),
        scrambling_enable: bytes[d + 1] != 0,
        data_swap: bytes[o + 2] != 0,
        dual_channel: false,
        panel_name: Some(read_text_field(bytes, 20, 36)),
        version: Some(read_text_field(bytes, 36, 44)),
    }
}

/// Reads a file in the `vis-timing.bin` layout, whose content is `bytes`.
pub fn parse_new_format_bin_file_cli(path: &str, bytes: &[u8]) -> (r: LegacyLcdConfigResult)
    ensures
        r@ == new_format_config(path@, bytes@),
{
    if bytes.len() < 96 {
        let mut v = chars_of("新格式文件 header 长度不足，至少需要 96 字节，实际 ");
        push_dec(&mut v, bytes.len() as u64);
        push_str(&mut v, " 字节");
        return failure(path, string_of(v.as_slice()));
    }
    let t = read_u32_le(bytes, 44) as u64;
    let is = read_u32_le(bytes, 52) as u64;
    let iz = read_u32_le(bytes, 56) as u64;
    let d = read_u32_le(bytes, 76) as u64;
    let o = read_u32_le(bytes, 84) as u64;
    let len = bytes.len() as u64;
    if t + 44 > len || is + iz > len || d + 16 > len || o + 16 > len {
        return failure(path, owned("新格式文件 section 偏移超出文件范围"));
    }
    let timing = new_format_timing_of(bytes, t as usize, d as usize, o as usize);
    let init_codes = match parse_init_codes_cli(bytes, is as usize, iz as usize) {
        Ok(codes) => codes,
        Err(err) => {
            let mut v = chars_of("(init code parse error: ");
            push_str(&mut v, err.as_str());
            push_str(&mut v, ")");
            let mut codes: Vec<String> = Vec::new();
            codes.push(string_of(v.as_slice()));
            assert(strs(codes@) =~= seq![v@]);
            codes
        },
    };
    LegacyLcdConfigResult {
        success: true,
        path: Some(owned(path)),
        timing: Some(timing),
        init_codes,
        error: None,
    }
}

} // verus!

verus! {

// ---------------------------------------------------------------------------
// The older 200-byte LCD configuration format
// ---------------------------------------------------------------------------

/// The video type of the legacy mode byte.
pub open spec fn legacy_video_type_name(code: u8) -> Seq<char> {
    if code == 0 {
        "BURST_MODE"@
    } else if code == 1 {
        "NON_BURST_SYNC_PULSES"@
    } else {
        "NON_BURST_SYNC_EVENTS"@
    }
}

/// The settings of a legacy file (big-endian fields). The command-line tool
/// (`cli`) reports command mode as `NON_BURST_SYNC_EVENTS` and writes the DSC
/// version as `Vesa<major>.<minor>`; the application reads the video-type byte
/// as it is and knows only `Vesa1.2` and `Ver1.1`.
pub open spec fn legacy_timing(b: Seq<u8>, cli: bool) -> LegacyTimingSpec {
    let command = b[31] == 1;
    LegacyTimingSpec {
        hact: be16(b, 5),
        vact: be16(b, 7),
        pclk: pclk_khz(be32(b, 1) as u64),
        hfp: be16(b, 13),
        hbp: be16(b, 9),
        hsync: be16(b, 17),
        vfp: be16(b, 15),
        vbp: be16(b, 11),
        vsync: be16(b, 19),
        hs_polarity: b[21] != 0,
        vs_polarity: b[22] != 0,
        de_polarity: b[23] != 0,
        clk_polarity: b[24] != 0,
        interface_type: interface_name(b[30]),
        mipi_mode: if command {
            "Command"@
        } else {
            "Video"@
        },
        video_type: if cli && command {
            "NON_BURST_SYNC_EVENTS"@
        } else {
            legacy_video_type_name(b[32])
        },
        lanes: b[27],
        format: format_name(b[33]),
        phy_mode: phy_name(b[34]),
        dsc_enable: b[35] != 0,
        dsc_version: if cli {
            vesa_version(b[43], b[44])
        } else if b[43] == 1 && b[44] == 2 {
            "Vesa1.2"@
        } else {
            "Ver1.1"@
        },
        slice_width: be16(b, 39),
        slice_height: be16(b, 41),
        scrambling_enable: b[36] != 0,
        data_swap: b[37] != 0,
        dual_channel: b[38] != 0,
        panel_name: None,
        version: None,
    }
}

/// What reading a legacy file gives: too short, a corrupt init region, or
/// the settings and init codes.
pub open spec fn legacy_config(path: Seq<char>, b: Seq<u8>, cli: bool) -> Result<
    LcdConfigSpec,
    Seq<char>,
> {
    if b.len() < 200 {
        Err("点屏配置文件长度不足，至少需要 200 字节，实际 "@ + dec(b.len()) + " 字节"@)
    } else {
        match init_lines(b, 200, b.len() as int) {
            Ok(ls) => Ok(config_success(path, legacy_timing(b, cli), hex_lines(ls))),
            Err(p) => Err(
                "初始化代码区损坏：第 "@ + dec(p as nat) + " 字节开始的命令超出文件长度"@,
            ),
        }
    }
}

/// The file starts with the magic number of the `vis-timing.bin` layout.
pub open spec fn has_new_format_magic(b: Seq<u8>) -> bool {
    b.len() >= 4 && b[0] == 0x5A && b[1] == 0x5A && b[2] == 0xA5 && b[3] == 0xA5
}

/// What the command-line tool reads from a `.bin` file.
pub open spec fn cli_config(path: Seq<char>, b: Seq<u8>) -> Result<LcdConfigSpec, Seq<char>> {
    if has_new_format_magic(b) {
        Ok(new_format_config(path, b))
    } else {
        legacy_config(path, b, true)
    }
}

fn legacy_timing_of(bytes: &[u8], cli: bool) -> (r: LegacyTimingConfig)
    requires
        bytes.len() >= 200,
    ensures
        r@ == legacy_timing(bytes@, cli),
{
    let raw_hz = read_u32_be(bytes, 1) as u64;
    let pclk = if raw_hz >= 1_000_000 {
        raw_hz / 1000
    } else {
        raw_hz
    };
    let command = bytes[31] == 1;
    let video_type = if cli && command {
        owned("NON_BURST_SYNC_EVENTS")
    } else if bytes[32] == 0 {
        owned("BURST_MODE")
    } else if bytes[32] == 1 {
        owned("NON_BURST_SYNC_PULSES")
    } else {
        owned("NON_BURST_SYNC_EVENTS")
    };
    let dsc_version = if cli {
        vesa_version_of(bytes[43], bytes[44])
    } else if bytes[43] == 1 && bytes[44] == 2 {
        owned("Vesa1.2")
    } else {
        owned("Ver1.1")
    };
    LegacyTimingConfig {
        hact: read_u16_be(bytes, 5),
        vact: read_u16_be(bytes, 7),
        pclk,
        hfp: read_u16_be(bytes, 13),
        hbp: read_u16_be(bytes, 9),
        hsync: read_u16_be(bytes, 17),
        vfp: read_u16_be(bytes, 15),
        vbp: read_u16_be(bytes, 11),
        vsync: read_u16_be(bytes, 19),
        hs_polarity: bytes[21] != 0,
        vs_polarity: bytes[22] != 0,
        de_polarity: bytes[23] != 0,
        clk_polarity: bytes[24] != 0,
        interface_type: interface_name_of(bytes[30]),
        mipi_mode: if command {
            owned("Command")
        } else {
            owned("Video")
        },
        video_type,
        lanes: bytes[27],
        format: format_name_of(bytes[33]),
        phy_mode: phy_name_of(bytes[34]),
        dsc_enable: bytes[35] != 0,
        dsc_version,
        slice_width: read_u16_be(bytes, 39),
        slice_height: read_u16_be(bytes, 41),
        scrambling_enable: bytes[36] != 0,
        data_swap: bytes[37] != 0,
        dual_channel: bytes[38] != 0,
        panel_name: None,
        version: None,
    }
}

fn parse_legacy_bytes(path: &str, bytes: &[u8], cli: bool) -> (r: Result<
    LegacyLcdConfigResult,
    String,
>)
    ensures
        match legacy_config(path@, bytes@, cli) {
            Ok(c) => r is Ok && r->Ok_0@ == c,
            Err(m) => r is Err && r->Err_0@ == m,
        },
{
    if bytes.len() < 200 {
        let mut v = chars_of("点屏配置文件长度不足，至少需要 200 字节，实际 ");
        push_dec(&mut v, bytes.len() as u64);
        push_str(&mut v, " 字节");
        return Err(string_of(v.as_slice()));
    }
    let init_codes = match split_init_codes(bytes, 200, bytes.len()) {
        Ok(codes) => codes,
        Err(pos) => {
            let mut v = chars_of("初始化代码区损坏：第 ");
            push_dec(&mut v, pos as u64);
            push_str(&mut v, " 字节开始的命令超出文件长度");
            return Err(string_of(v.as_slice()));
        },
    };
    let timing = legacy_timing_of(bytes, cli);
    Ok(
        LegacyLcdConfigResult {
            success: true,
            path: Some(owned(path)),
            timing: Some(timing),
            init_codes,
            error: None,
        },
    )
}

/// Reads a legacy 200-byte LCD configuration whose content is `bytes`, as
/// the application does.
pub fn parse_legacy_lcd_bin_bytes(path: &str, bytes: &[u8]) -> (r: Result<
    LegacyLcdConfigResult,
    String,
>)
    ensures
        match legacy_config(path@, bytes@, false) {
            Ok(c) => r is Ok && r->Ok_0@ == c,
            Err(m) => r is Err && r->Err_0@ == m,
        },
{
    parse_legacy_bytes(path, bytes, false)
}

/// Reads a `.bin` configuration whose content is `bytes`, as the
/// command-line tool does: the `vis-timing.bin` layout when the file starts
/// with its magic number, else the legacy layout.
pub fn parse_cli_lcd_bin_bytes(path: &str, bytes: &[u8]) -> (r: Result<
    LegacyLcdConfigResult,
    String,
>)
    ensures
        match cli_config(path@, bytes@) {
            Ok(c) => r is Ok && r->Ok_0@ == c,
            Err(m) => r is Err && r->Err_0@ == m,
        },
{
    if bytes.len() >= 4 && bytes[0] == 0x5A && bytes[1] == 0x5A && bytes[2] == 0xA5 && bytes[3]
        == 0xA5 {
        return Ok(parse_new_format_bin_file_cli(path, bytes));
    }
    parse_legacy_bytes(path, bytes, true)
}

/// The result shown for a configuration file: the parsed configuration, or
/// a failure for `path` that carries the message.
pub fn lcd_config_result(path: &str, parsed: Result<LegacyLcdConfigResult, String>) -> (r:
    LegacyLcdConfigResult)
    ensures
        match parsed {
            Ok(c) => r@ == c@,
            Err(m) => r@ == config_failure(path@, m@),
        },
{
    match parsed {
        Ok(result) => result,
        Err(err) => failure(path, err),
    }
}

/// The request that regenerates a parsed configuration; a result without
/// settings gives its error, or `解析结果缺少 timing` when it has none.
pub fn to_request(parsed: LegacyLcdConfigResult) -> (r: Result<TimingBinRequest, String>)
    ensures
        match parsed@.timing {
            Some(t) => r is Ok && r->Ok_0@ == crate::timing::TimingSpec {
                pclk: t.pclk,
                hact: t.hact,
                hfp: t.hfp,
                hbp: t.hbp,
                hsync: t.hsync,
                vact: t.vact,
                vfp: t.vfp,
                vbp: t.vbp,
                vsync: t.vsync,
                hs_polarity: t.hs_polarity,
                vs_polarity: t.vs_polarity,
                de_polarity: t.de_polarity,
                clk_polarity: t.clk_polarity,
                interface_type: t.interface_type,
                mipi_mode: t.mipi_mode,
                video_type: t.video_type,
                lanes: t.lanes,
                format: t.format,
                phy_mode: t.phy_mode,
                dsc_enable: t.dsc_enable,
                dsc_version: t.dsc_version,
                slice_width: t.slice_width,
                slice_height: t.slice_height,
                scrambling_enable: t.scrambling_enable,
                data_swap: t.data_swap,
                panel_name: t.panel_name,
                version: t.version,
                init_codes: parsed@.init_codes,
            },
            None => r is Err && r->Err_0@ == match parsed@.error {
                Some(e) => e,
                None => "解析结果缺少 timing"@,
            },
        },
{
    let timing = match parsed.timing {
        Some(t) => t,
        None => {
            return Err(
                match parsed.error {
                    Some(e) => e,
                    None => owned("解析结果缺少 timing"),
                },
            );
        },
    };
    Ok(
        TimingBinRequest {
            pclk: timing.pclk,
            hact: timing.hact,
            hfp: timing.hfp,
            hbp: timing.hbp,
            hsync: timing.hsync,
            vact: timing.vact,
            vfp: timing.vfp,
            vbp: timing.vbp,
            vsync: timing.vsync,
            hs_polarity: timing.hs_polarity,
            vs_polarity: timing.vs_polarity,
            de_polarity: timing.de_polarity,
            clk_polarity: timing.clk_polarity,
            interface_type: timing.interface_type,
            mipi_mode: timing.mipi_mode,
            video_type: timing.video_type,
            lanes: timing.lanes,
            format: timing.format,
            phy_mode: timing.phy_mode,
            dsc_enable: timing.dsc_enable,
            dsc_version: timing.dsc_version,
            slice_width: timing.slice_width,
            slice_height: timing.slice_height,
            scrambling_enable: timing.scrambling_enable,
            data_swap: timing.data_swap,
            panel_name: timing.panel_name,
            version: timing.version,
            init_codes: parsed.init_codes,
        },
    )
}

/// The settings of a request, as a configuration read from a JSON file:
/// the clock, which files hold in Hz, in kHz as the user edits it (from
/// 1 000 000 on it is divided by 1000), single channel, everything else as
/// in the request.
pub open spec fn timing_of_request(r: crate::timing::TimingSpec) -> LegacyTimingSpec {
    LegacyTimingSpec {
        hact: r.hact,
        vact: r.vact,
        pclk: pclk_khz(r.pclk),
        hfp: r.hfp,
        hbp: r.hbp,
        hsync: r.hsync,
        vfp: r.vfp,
        vbp: r.vbp,
        vsync: r.vsync,
        hs_polarity: r.hs_polarity,
        vs_polarity: r.vs_polarity,
        de_polarity: r.de_polarity,
        clk_polarity: r.clk_polarity,
        interface_type: r.interface_type,
        mipi_mode: r.mipi_mode,
        video_type: r.video_type,
        lanes: r.lanes,
        format: r.format,
        phy_mode: r.phy_mode,
        dsc_enable: r.dsc_enable,
        dsc_version: r.dsc_version,
        slice_width: r.slice_width,
        slice_height: r.slice_height,
        scrambling_enable: r.scrambling_enable,
        data_swap: r.data_swap,
        dual_channel: false,
        panel_name: r.panel_name,
        version: r.version,
    }
}

/// The configuration read from the OLED JSON file at `path`, which held
/// `request`; its clock is given in kHz, as for a `.bin` file.
pub fn config_from_request(path: &str, request: TimingBinRequest) -> (r: LegacyLcdConfigResult)
    ensures
        r@ == config_success(path@, timing_of_request(request@), request@.init_codes),
{
    let ghost rv = request@;
    let pclk: u64 = if request.pclk >= 1_000_000 {
        request.pclk / 1000
    } else {
        request.pclk
    };
    let timing = LegacyTimingConfig {
        hact: request.hact,
        vact: request.vact,
        pclk,
        hfp: request.hfp,
        hbp: request.hbp,
        hsync: request.hsync,
        vfp: request.vfp,
        vbp: request.vbp,
        vsync: request.vsync,
        hs_polarity: request.hs_polarity,
        vs_polarity: request.vs_polarity,
        de_polarity: request.de_polarity,
        clk_polarity: request.clk_polarity,
        interface_type: request.interface_type,
        mipi_mode: request.mipi_mode,
        video_type: request.video_type,
        lanes: request.lanes,
        format: request.format,
        phy_mode: request.phy_mode,
        dsc_enable: request.dsc_enable,
        dsc_version: request.dsc_version,
        slice_width: request.slice_width,
        slice_height: request.slice_height,
        scrambling_enable: request.scrambling_enable,
        data_swap: request.data_swap,
        dual_channel: false,
        panel_name: request.panel_name,
        version: request.version,
    };
    LegacyLcdConfigResult {
        success: true,
        path: Some(crate::text::owned(path)),
        timing: Some(timing),
        init_codes: request.init_codes,
        error: None,
    }
}

/// Whether a configuration file with this extension is read as JSON: the
/// extension is `json` in any ASCII case.
pub fn is_json_config(extension: Option<String>) -> (r: bool)
    ensures
        r == (extension is Some && crate::text::ascii_lower_seq(extension->0@) == "json"@),
{
    match extension {
        Some(e) => {
            let l = crate::text::ascii_lowercase(crate::text::chars_of(e.as_str()).as_slice());
            crate::text::chars_eq_str(l.as_slice(), "json")
        },
        None => false,
    }
}

} // verus!
