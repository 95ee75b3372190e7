//! The `vis-timing.bin` OLED timing configuration: the request that describes
//! a panel, and its encoding into the binary layout that the board loads.
//!
//! Layout (all integers little endian), for an init sequence of `n` bytes:
//!
//! | offset      | size | content                                        |
//! |-------------|------|------------------------------------------------|
//! | 0           | 96   | header: magic, vendor, panel name, version, section table, total size |
//! | 96          | 48   | timing block                                   |
//! | 144         | n    | init sequence                                  |
//! | 144 + n     | 8    | exit sequence                                  |
//! | 152 + n     | 16   | VESA DSC block                                 |
//! | 168 + n     | 16   | other-info block                               |
use vstd::prelude::*;

use crate::text::{
    all_ws, char_vecs, fields, split_fields, chars_eq_str, chars_of, contains_seq, contains_str, eq_ignore_ascii_case, eq_ignore_case,
    is_blank, is_whitespace, is_ws, push_chars, string_of,
};

verus! {

// ---------------------------------------------------------------------------
// Data types
// ---------------------------------------------------------------------------

/// The panel configuration edited in the UI. `pclk` is in kHz below 1 000 000
/// and taken as Hz from 1 000 000 on; `init_codes` are lines of hexadecimal
/// bytes `DT DELAY LEN DATA...`.
pub struct TimingBinRequest {
    pub pclk: u64,
    pub hact: u32,
    pub hfp: u32,
    pub hbp: u32,
    pub hsync: u32,
    pub vact: u32,
    pub vfp: u32,
    pub vbp: u32,
    pub vsync: u32,
    pub hs_polarity: bool,
    pub vs_polarity: bool,
    pub de_polarity: bool,
    pub clk_polarity: bool,
    pub interface_type: String,
    pub mipi_mode: String,
    pub video_type: String,
    pub lanes: u8,
    pub format: String,
    pub phy_mode: String,
    pub dsc_enable: bool,
    pub dsc_version: String,
    pub slice_width: u32,
    pub slice_height: u32,
    pub scrambling_enable: bool,
    pub data_swap: bool,
    pub panel_name: Option<String>,
    pub version: Option<String>,
    pub init_codes: Vec<String>,
}

/// Mathematical view of a [`TimingBinRequest`].
pub ghost struct TimingSpec {
    pub pclk: u64,
    pub hact: u32,
    pub hfp: u32,
    pub hbp: u32,
    pub hsync: u32,
    pub vact: u32,
    pub vfp: u32,
    pub vbp: u32,
    pub vsync: u32,
    pub hs_polarity: bool,
    pub vs_polarity: bool,
    pub de_polarity: bool,
    pub clk_polarity: bool,
    pub interface_type: Seq<char>,
    pub mipi_mode: Seq<char>,
    pub video_type: Seq<char>,
    pub lanes: u8,
    pub format: Seq<char>,
    pub phy_mode: Seq<char>,
    pub dsc_enable: bool,
    pub dsc_version: Seq<char>,
    pub slice_width: u32,
    pub slice_height: u32,
    pub scrambling_enable: bool,
    pub data_swap: bool,
    pub panel_name: Option<Seq<char>>,
    pub version: Option<Seq<char>>,
    pub init_codes: Seq<Seq<char>>,
}

/// The view of an optional string.
pub open spec fn opt_str(o: Option<String>) -> Option<Seq<char>> {
    match o {
        Some(s) => Some(s@),
        None => None,
    }
}

/// The views of a vector of strings.
pub open spec fn strs(v: Seq<String>) -> Seq<Seq<char>> {
    v.map_values(|s: String| s@)
}

impl View for TimingBinRequest {
    type V = TimingSpec;

    open spec fn view(&self) -> TimingSpec {
        TimingSpec {
            pclk: self.pclk,
            hact: self.hact,
            hfp: self.hfp,
            hbp: self.hbp,
            hsync: self.hsync,
            vact: self.vact,
            vfp: self.vfp,
            vbp: self.vbp,
            vsync: self.vsync,
            hs_polarity: self.hs_polarity,
            vs_polarity: self.vs_polarity,
            de_polarity: self.de_polarity,
            clk_polarity: self.clk_polarity,
            interface_type: self.interface_type@,
            mipi_mode: self.mipi_mode@,
            video_type: self.video_type@,
            lanes: self.lanes,
            format: self.format@,
            phy_mode: self.phy_mode@,
            dsc_enable: self.dsc_enable,
            dsc_version: self.dsc_version@,
            slice_width: self.slice_width,
            slice_height: self.slice_height,
            scrambling_enable: self.scrambling_enable,
            data_swap: self.data_swap,
            panel_name: opt_str(self.panel_name),
            version: opt_str(self.version),
            init_codes: strs(self.init_codes@),
        }
    }
}

/// Why the init codes of a request could not be turned into bytes; each
/// variant holds the full message shown to the user.
pub enum InitCodeError {
    /// A field is not a hexadecimal byte.
    ParseFailed(String),
    /// A line has fewer than three bytes.
    TooShort(String),
}

pub ghost enum InitCodeErrorSpec {
    ParseFailed(Seq<char>),
    TooShort(Seq<char>),
}

impl View for InitCodeError {
    type V = InitCodeErrorSpec;

    open spec fn view(&self) -> InitCodeErrorSpec {
        match self {
            InitCodeError::ParseFailed(m) => InitCodeErrorSpec::ParseFailed(m@),
            InitCodeError::TooShort(m) => InitCodeErrorSpec::TooShort(m@),
        }
    }
}

// ---------------------------------------------------------------------------
// Little-endian integers
// ---------------------------------------------------------------------------

pub open spec fn u32_le(v: u32) -> Seq<u8> {
    seq![
        (v & 0xff) as u8,
        ((v >> 8) & 0xff) as u8,
        ((v >> 16) & 0xff) as u8,
        ((v >> 24) & 0xff) as u8,
    ]
}

pub open spec fn u64_le(v: u64) -> Seq<u8> {
    u32_le((v & 0xffff_ffff) as u32) + u32_le((v >> 32) as u32)
}

pub fn push_u32_le(out: &mut Vec<u8>, v: u32)
    ensures
        final(out)@ == old(out)@ + u32_le(v),
{
    out.push((v & 0xff) as u8);
    out.push(((v >> 8) & 0xff) as u8);
    out.push(((v >> 16) & 0xff) as u8);
    out.push(((v >> 24) & 0xff) as u8);
}

pub fn push_u64_le(out: &mut Vec<u8>, v: u64)
    ensures
        final(out)@ == old(out)@ + u64_le(v),
{
    push_u32_le(out, (v & 0xffff_ffff) as u32);
    push_u32_le(out, (v >> 32) as u32);
}

pub fn push_bytes(out: &mut Vec<u8>, b: &[u8])
    ensures
        final(out)@ == old(out)@ + b@,
{
    let ghost start = out@;
    let mut i: usize = 0;
    while i < b.len()
        invariant
            0 <= i <= b.len(),
            out@ == start + b@.take(i as int),
        decreases b.len() - i,
    {
        out.push(b[i]);
        i = i + 1;
        assert(b@.take(i as int) == b@.take((i - 1) as int).push(b@[i - 1]));
    }
    assert(b@.take(b@.len() as int) == b@);
}

/// Appends a section-table entry: its offset, then its length.
pub fn write_entry(buffer: &mut Vec<u8>, offset: u32, length: u32)
    ensures
        final(buffer)@ == old(buffer)@ + u32_le(offset) + u32_le(length),
{
    push_u32_le(buffer, offset);
    push_u32_le(buffer, length);
}

/// Rounds `size` up with the mask of `alignment - 1`.
pub fn align(size: usize, alignment: usize) -> (r: usize)
    requires
        alignment >= 1,
        size + alignment - 1 <= usize::MAX,
    ensures
        r == (size + alignment - 1) as usize & !((alignment - 1) as usize),
        alignment == 16 ==> r == size + 15 - (size + 15) % 16,
{
    let r = (size + (alignment - 1)) & !(alignment - 1);
    proof {
        if alignment == 16 {
            let s = (size + 15) as usize;
            assert(s & !(15usize) == s - s % 16) by (bit_vector);
        }
    }
    r
}

// ---------------------------------------------------------------------------
// Init codes: hexadecimal text to bytes
// ---------------------------------------------------------------------------

/// The value of a hexadecimal digit.
pub open spec fn hex_digit_value(c: char) -> Option<nat> {
    if '0' <= c <= '9' {
        Some((c as nat - 48) as nat)
    } else if 'a' <= c <= 'f' {
        Some((c as nat - 87) as nat)
    } else if 'A' <= c <= 'F' {
        Some((c as nat - 55) as nat)
    } else {
        None
    }
}

/// The value of a sequence of hexadecimal digits, if they all are.
pub open spec fn hex_digits_value(d: Seq<char>) -> Option<nat>
    decreases d.len(),
{
    if d.len() == 0 {
        Some(0)
    } else {
        match (hex_digits_value(d.drop_last()), hex_digit_value(d.last())) {
            (Some(v), Some(x)) => Some(v * 16 + x),
            _ => None,
        }
    }
}

/// `u8::from_str_radix(t, 16)`: an optional `+`, then at least one
/// hexadecimal digit, with a value that fits in a byte.
pub open spec fn hex_byte(t: Seq<char>) -> Option<u8> {
    let d = if t.len() > 0 && t[0] == '+' {
        t.drop_first()
    } else {
        t
    };
    if d.len() == 0 {
        None
    } else {
        match hex_digits_value(d) {
            Some(v) => if v <= 255 {
                Some(v as u8)
            } else {
                None
            },
            None => None,
        }
    }
}

/// The message for a field that is not a hexadecimal byte.
pub open spec fn byte_parse_message(part: Seq<char>) -> Seq<char> {
    "初始化代码字节解析失败: "@ + part
}

/// The bytes of a sequence of fields, or the message for the first that fails.
pub open spec fn parse_fields(ts: Seq<Seq<char>>) -> Result<Seq<u8>, Seq<char>>
    decreases ts.len(),
{
    if ts.len() == 0 {
        Ok(seq![])
    } else {
        match parse_fields(ts.drop_last()) {
            Ok(bs) => match hex_byte(ts.last()) {
                Some(b) => Ok(bs.push(b)),
                None => Err(byte_parse_message(ts.last())),
            },
            Err(e) => Err(e),
        }
    }
}

/// What `parse_hex_csv_line` returns for a line.
pub open spec fn hex_line_bytes(line: Seq<char>) -> Result<Seq<u8>, Seq<char>> {
    parse_fields(fields(line, true))
}

/// The message for an init-code line of fewer than three bytes.
pub open spec fn too_short_message(line: Seq<char>) -> Seq<char> {
    "初始化代码长度不足(至少3字节): "@ + line
}

/// The init sequence of a list of init-code lines: blank lines are skipped,
/// the others are parsed and concatenated; the first failure is reported.
pub open spec fn init_seq(lines: Seq<Seq<char>>) -> Result<Seq<u8>, InitCodeErrorSpec>
    decreases lines.len(),
{
    if lines.len() == 0 {
        Ok(seq![])
    } else {
        match init_seq(lines.drop_last()) {
            Ok(acc) => {
                let l = lines.last();
                if all_ws(l) {
                    Ok(acc)
                } else {
                    match hex_line_bytes(l) {
                        Ok(bs) => if bs.len() < 3 {
                            Err(InitCodeErrorSpec::TooShort(too_short_message(l)))
                        } else {
                            Ok(acc + bs)
                        },
                        Err(m) => Err(InitCodeErrorSpec::ParseFailed(m)),
                    }
                }
            },
            Err(e) => Err(e),
        }
    }
}

/// Parses one hexadecimal digit.
fn hex_digit_of(c: char) -> (r: Option<u8>)
    ensures
        match hex_digit_value(c) {
            Some(v) => r == Some(v as u8) && v < 16,
            None => r is None,
        },
{
    if '0' <= c && c <= '9' {
        Some(((c as u32) - 48) as u8)
    } else if 'a' <= c && c <= 'f' {
        Some(((c as u32) - 87) as u8)
    } else if 'A' <= c && c <= 'F' {
        Some(((c as u32) - 55) as u8)
    } else {
        None
    }
}

proof fn lemma_hex_digits_grow(d: Seq<char>, i: int)
    requires
        0 <= i <= d.len(),
        hex_digits_value(d) is Some,
    ensures
        hex_digits_value(d.take(i)) is Some,
        hex_digits_value(d.take(i))->0 <= hex_digits_value(d)->0,
    decreases d.len() - i,
{
    if i < d.len() {
        assert(d.take(i + 1).drop_last() == d.take(i));
        lemma_hex_digits_grow(d, i + 1);
        if i + 1 == d.len() {
            assert(d.take(i + 1) == d);
        }
    } else {
        assert(d.take(i) == d);
    }
}

/// `u8::from_str_radix(t, 16)`.
pub fn parse_hex_byte(t: &[char]) -> (r: Option<u8>)
    ensures
        r == hex_byte(t@),
{
    let start: usize = if t.len() > 0 && t[0] == '+' {
        1
    } else {
        0
    };
    let ghost d = if t@.len() > 0 && t@[0] == '+' {
        t@.drop_first()
    } else {
        t@
    };
    assert(d == t@.skip(start as int));
    if start == t.len() {
        return None;
    }
    let mut v: u32 = 0;
    let mut i = start;
    while i < t.len()
        invariant
            start <= i <= t.len(),
            start < t.len(),
            d == t@.skip(start as int),
            d == (if t@.len() > 0 && t@[0] == '+' {
                t@.drop_first()
            } else {
                t@
            }),
            hex_digits_value(d.take(i - start)) == Some(v as nat),
            v <= 255,
        decreases t.len() - i,
    {
        assert(d.take(i - start + 1).drop_last() == d.take(i - start));
        assert(d.take(i - start + 1).last() == t@[i as int]);
        match hex_digit_of(t[i]) {
            Some(x) => {
                let nv = v * 16 + x as u32;
                assert(hex_digits_value(d.take(i - start + 1)) == Some(nv as nat));
                if nv > 255 {
                    proof {
                        if hex_digits_value(d) is Some {
                            lemma_hex_digits_grow(d, i - start + 1);
                        }
                    }
                    return None;
                }
                v = nv;
            },
            None => {
                assert(hex_digits_value(d.take(i - start + 1)) is None);
                proof {
                    if hex_digits_value(d) is Some {
                        lemma_hex_digits_grow(d, i - start + 1);
                    }
                }
                return None;
            },
        }
        i = i + 1;
    }
    assert(d.take(i - start) == d);
    Some(v as u8)
}

/// The message `初始化代码字节解析失败: <part>`.
fn byte_parse_error(part: &[char]) -> (r: String)
    ensures
        r@ == byte_parse_message(part@),
{
    let mut v = chars_of("初始化代码字节解析失败: ");
    push_chars(&mut v, part);
    string_of(v.as_slice())
}

/// `parse_hex_csv_line`: the bytes of a line of hexadecimal fields separated
/// by commas or white space, or the message for the first bad field.
pub fn parse_hex_csv_line(line: &str) -> (r: Result<Vec<u8>, String>)
    ensures
        match hex_line_bytes(line@) {
            Ok(bs) => r is Ok && r->Ok_0@ == bs,
            Err(m) => r is Err && r->Err_0@ == m,
        },
{
    let s = chars_of(line);
    let parts = split_fields(s.as_slice(), true);
    let ghost ts = fields(line@, true);
    assert(ts.len() == parts@.len());
    let mut out: Vec<u8> = Vec::new();
    let mut i: usize = 0;
    while i < parts.len()
        invariant
            0 <= i <= parts.len(),
            char_vecs(parts@) == ts,
            ts.len() == parts@.len(),
            ts == fields(line@, true),
            parse_fields(ts.take(i as int)) == Ok::<Seq<u8>, Seq<char>>(out@),
        decreases parts.len() - i,
    {
        assert(ts.take(i + 1).drop_last() == ts.take(i as int));
        assert(ts.take(i + 1).last() == parts@[i as int]@);
        match parse_hex_byte(parts[i].as_slice()) {
            Some(b) => {
                out.push(b);
            },
            None => {
                proof {
                    assert(parse_fields(ts.take(i + 1)) == Err::<Seq<u8>, Seq<char>>(
                        byte_parse_message(parts@[i as int]@),
                    ));
                    lemma_parse_fields_take_err(ts, i + 1);
                }
                return Err(byte_parse_error(parts[i].as_slice()));
            },
        }
        i = i + 1;
    }
    assert(ts.take(parts.len() as int) == ts);
    Ok(out)
}

proof fn lemma_parse_fields_take_err(ts: Seq<Seq<char>>, k: int)
    requires
        0 <= k <= ts.len(),
        parse_fields(ts.take(k)) is Err,
    ensures
        parse_fields(ts) == parse_fields(ts.take(k)),
    decreases ts.len() - k,
{
    if k < ts.len() {
        assert(ts.take(k + 1).drop_last() == ts.take(k));
        lemma_parse_fields_take_err(ts, k + 1);
    } else {
        assert(ts.take(k) == ts);
    }
}

} // verus!

verus! {

// ---------------------------------------------------------------------------
// Init sequence of a request
// ---------------------------------------------------------------------------

impl InitCodeError {
    /// The message shown to the user.
    pub fn message(&self) -> (r: String)
        ensures
            r@ == match self@ {
                InitCodeErrorSpec::ParseFailed(m) => m,
                InitCodeErrorSpec::TooShort(m) => m,
            },
    {
        match self {
            InitCodeError::ParseFailed(m) => m.clone(),
            InitCodeError::TooShort(m) => m.clone(),
        }
    }
}

/// The message `初始化代码长度不足(至少3字节): <line>`.
fn too_short_error(line: &[char]) -> (r: String)
    ensures
        r@ == too_short_message(line@),
{
    let mut v = chars_of("初始化代码长度不足(至少3字节): ");
    push_chars(&mut v, line);
    string_of(v.as_slice())
}

/// The concatenated init sequence of the init-code lines, skipping blank
/// lines; the first bad line gives the error.
pub fn build_init_seq(lines: &Vec<String>) -> (r: Result<Vec<u8>, InitCodeError>)
    ensures
        match init_seq(strs(lines@)) {
            Ok(bs) => r is Ok && r->Ok_0@ == bs,
            Err(e) => r is Err && r->Err_0@ == e,
        },
{
    let mut acc: Vec<u8> = Vec::new();
    let mut i: usize = 0;
    while i < lines.len()
        invariant
            0 <= i <= lines.len(),
            init_seq(strs(lines@).take(i as int)) == Ok::<Seq<u8>, InitCodeErrorSpec>(acc@),
        decreases lines.len() - i,
    {
        let line: &String = &lines[i];
        let ghost ls = strs(lines@);
        assert(ls.take(i + 1).drop_last() == ls.take(i as int));
        assert(ls.take(i + 1).last() == line@);
        let lv = chars_of(line.as_str());
        if !is_blank(lv.as_slice()) {
            match parse_hex_csv_line(line.as_str()) {
                Ok(bytes) => {
                    if bytes.len() < 3 {
                        proof {
                            lemma_init_seq_take_err(ls, i as int + 1);
                        }
                        return Err(InitCodeError::TooShort(too_short_error(lv.as_slice())));
                    }
                    push_bytes(&mut acc, bytes.as_slice());
                },
                Err(m) => {
                    proof {
                        lemma_init_seq_take_err(ls, i as int + 1);
                    }
                    return Err(InitCodeError::ParseFailed(m));
                },
            }
        }
        i = i + 1;
    }
    assert(strs(lines@).take(lines.len() as int) == strs(lines@));
    Ok(acc)
}

proof fn lemma_init_seq_take_err(ls: Seq<Seq<char>>, k: int)
    requires
        0 <= k <= ls.len(),
        init_seq(ls.take(k)) is Err,
    ensures
        init_seq(ls) == init_seq(ls.take(k)),
    decreases ls.len() - k,
{
    if k < ls.len() {
        assert(ls.take(k + 1).drop_last() == ls.take(k));
        lemma_init_seq_take_err(ls, k + 1);
    } else {
        assert(ls.take(k) == ls);
    }
}

// ---------------------------------------------------------------------------
// Fixed-width text fields
// ---------------------------------------------------------------------------

/// The ASCII digits of `b`, in order.
pub open spec fn ascii_digits(b: Seq<u8>) -> Seq<u8>
    decreases b.len(),
{
    if b.len() == 0 {
        seq![]
    } else if 0x30 <= b.last() <= 0x39 {
        ascii_digits(b.drop_last()).push(b.last())
    } else {
        ascii_digits(b.drop_last())
    }
}

/// `normalize_fixed_bytes`: the bytes of `raw` (only its ASCII digits when
/// `digits_only`), cut to `len` or padded with `pad` up to `len`.
pub open spec fn fixed_bytes(raw: Seq<u8>, len: nat, pad: u8, digits_only: bool) -> Seq<u8> {
    let f = if digits_only {
        ascii_digits(raw)
    } else {
        raw
    };
    if f.len() > len {
        f.take(len as int)
    } else {
        f + Seq::new((len - f.len()) as nat, |i: int| pad)
    }
}

/// The UTF-8 bytes of an optional text, empty when absent.
pub open spec fn opt_utf8(s: Option<Seq<char>>) -> Seq<u8> {
    match s {
        Some(t) => vstd::utf8::encode_utf8(t),
        None => seq![],
    }
}

/// The bytes of `raw` (only its ASCII digits when `digits_only`), truncated
/// to `len` bytes or padded with `pad` up to `len` bytes.
pub fn normalize_fixed_bytes(raw: Option<&str>, len: usize, pad: u8, digits_only: bool) -> (r: Vec<
    u8,
>)
    ensures
        r@ == fixed_bytes(
            opt_utf8(
                match raw {
                    Some(s) => Some(s@),
                    None => None,
                },
            ),
            len as nat,
            pad,
            digits_only,
        ),
{
    let src: &[u8] = match raw {
        Some(s) => s.as_bytes(),
        None => &[],
    };
    let ghost rawb = opt_utf8(
        match raw {
            Some(s) => Some(s@),
            None => None,
        },
    );
    assert(src@ == rawb);
    let ghost f = if digits_only {
        ascii_digits(rawb)
    } else {
        rawb
    };
    let mut bytes: Vec<u8> = Vec::new();
    let mut i: usize = 0;
    while i < src.len()
        invariant
            0 <= i <= src.len(),
            src@ == rawb,
            bytes@ == if digits_only {
                ascii_digits(rawb.take(i as int))
            } else {
                rawb.take(i as int)
            },
        decreases src.len() - i,
    {
        let b = src[i];
        assert(rawb.take(i + 1).drop_last() == rawb.take(i as int));
        assert(rawb.take(i + 1).last() == b);
        if !digits_only || (0x30 <= b && b <= 0x39) {
            bytes.push(b);
        }
        i = i + 1;
    }
    assert(rawb.take(src.len() as int) == rawb);
    assert(bytes@ == f);
    if bytes.len() > len {
        bytes.truncate(len);
    }
    if bytes.len() < len {
        let ghost before = bytes@;
        while bytes.len() < len
            invariant
                before.len() <= bytes.len() <= len,
                bytes@ == before + Seq::new((bytes.len() - before.len()) as nat, |k: int| pad),
            decreases len - bytes.len(),
        {
            bytes.push(pad);
            assert(bytes@ =~= before + Seq::new((bytes.len() - before.len()) as nat, |k: int| pad));
        }
    }
    assert(bytes@ =~= fixed_bytes(rawb, len as nat, pad, digits_only));
    bytes
}

// ---------------------------------------------------------------------------
// The encoding
// ---------------------------------------------------------------------------

/// `Visonox890123456`, the vendor field of the header.
pub open spec fn vendor_bytes() -> Seq<u8> {
    seq![
        0x56u8,
        0x69,
        0x73,
        0x6f,
        0x6e,
        0x6f,
        0x78,
        0x38,
        0x39,
        0x30,
        0x31,
        0x32,
        0x33,
        0x34,
        0x35,
        0x36,
    ]
}

/// The exit sequence: display off, then sleep in.
pub open spec fn exit_seq_bytes() -> Seq<u8> {
    seq![0x05u8, 0x78, 0x01, 0x28, 0x05, 0x00, 0x01, 0x10]
}

/// The magic number at the start of the file.
pub open spec fn magic() -> u32 {
    0xA5A5_5A5A
}

/// A `u32` holding the low 32 bits of `x`.
pub open spec fn trunc32(x: int) -> u32 {
    (x % 0x1_0000_0000) as u32
}

/// The section table and total size for an init sequence of `n` bytes.
pub open spec fn section_table(n: nat) -> Seq<u8> {
    u32_le(96) + u32_le(48) + u32_le(144) + u32_le(trunc32(n as int)) + u32_le(
        trunc32(144 + n as int),
    ) + u32_le(8) + u32_le(0) + u32_le(0) + u32_le(trunc32(152 + n as int)) + u32_le(16) + u32_le(
        trunc32(168 + n as int),
    ) + u32_le(16) + u32_le(trunc32(184 + n as int))
}

/// The 96-byte header.
pub open spec fn header_bytes(r: TimingSpec, n: nat) -> Seq<u8> {
    u32_le(magic()) + vendor_bytes() + fixed_bytes(opt_utf8(r.panel_name), 16, 0x78, false)
        + fixed_bytes(opt_utf8(r.version), 8, 0x78, true) + section_table(n)
}

/// The pixel clock in Hz: values below 1 000 000 are kHz.
pub open spec fn pclk_hz(pclk: u64) -> u64 {
    if pclk >= 1_000_000 {
        pclk
    } else {
        (pclk * 1000) as u64
    }
}

/// The display flags: for each of hsync, vsync, data enable and clock, the
/// high bit of its pair when the polarity is set, else the low bit.
pub open spec fn display_flags(r: TimingSpec) -> u32 {
    (if r.hs_polarity {
        2u32
    } else {
        1u32
    }) | (if r.vs_polarity {
        8u32
    } else {
        4u32
    }) | (if r.de_polarity {
        32u32
    } else {
        16u32
    }) | (if r.clk_polarity {
        128u32
    } else {
        64u32
    })
}

/// The 48-byte timing block.
pub open spec fn timing_block(r: TimingSpec) -> Seq<u8> {
    u64_le(pclk_hz(r.pclk)) + u32_le(r.hact) + u32_le(r.hfp) + u32_le(r.hbp) + u32_le(r.hsync)
        + u32_le(r.vact) + u32_le(r.vfp) + u32_le(r.vbp) + u32_le(r.vsync) + u32_le(
        display_flags(r),
    ) + seq![0u8, 0, 0, 0]
}

pub open spec fn bool_byte(b: bool) -> u8 {
    if b {
        1
    } else {
        0
    }
}

/// 1 for C-PHY (any case), else 0 for D-PHY.
pub open spec fn phy_code(r: TimingSpec) -> u8 {
    if eq_ignore_case(r.phy_mode, "CPHY"@) {
        1
    } else {
        0
    }
}

/// The DSC minor version: 2 when the version text contains `1.2`, else 1.
pub open spec fn dsc_minor(r: TimingSpec) -> u8 {
    if contains_seq(r.dsc_version, "1.2"@) {
        2
    } else {
        1
    }
}

/// The 16-byte VESA DSC block.
pub open spec fn dsc_block(r: TimingSpec) -> Seq<u8> {
    seq![
        phy_code(r),
        bool_byte(r.scrambling_enable),
        bool_byte(r.dsc_enable),
        1u8,
        dsc_minor(r),
        0,
        0,
        0,
    ] + u32_le(r.slice_width) + u32_le(r.slice_height)
}

/// The MIPI mode and video type bits of the other-info block: bit 0 for
/// video mode, bit 2 for non-burst sync pulses or bit 1 for burst mode,
/// and the fixed bits 9 and 11.
pub open spec fn mipi_bits(r: TimingSpec) -> u16 {
    let base: u16 = if eq_ignore_case(r.mipi_mode, "Video"@) {
        if eq_ignore_case(r.video_type, "NON_BURST_SYNC_PULSES"@) {
            5u16
        } else if eq_ignore_case(r.video_type, "BURST_MODE"@) {
            3u16
        } else {
            1u16
        }
    } else {
        0u16
    };
    base | 0x0800u16 | 0x0200u16
}

/// 1 for `EDP`, 2 for `DP`, else 0 (MIPI).
pub open spec fn interface_code(s: Seq<char>) -> u8 {
    if s == "EDP"@ {
        1
    } else if s == "DP"@ {
        2
    } else {
        0
    }
}

/// 0 for `RGB888`, 1 for `RGB666`, 2 for `RGB666_PACKED`, 3 for `RGB565`, else 0.
pub open spec fn format_code(s: Seq<char>) -> u8 {
    if s == "RGB666"@ {
        1
    } else if s == "RGB666_PACKED"@ {
        2
    } else if s == "RGB565"@ {
        3
    } else {
        0
    }
}

/// The 16-byte other-info block.
pub open spec fn other_block(r: TimingSpec) -> Seq<u8> {
    let mm = mipi_bits(r);
    seq![
        (mm & 0xff) as u8,
        ((mm >> 8) & 0xff) as u8,
        bool_byte(r.data_swap),
        interface_code(r.interface_type),
        format_code(r.format),
        r.lanes,
        phy_code(r),
        0x56u8,
        0x69,
        0x73,
        0,
        0,
        0,
        0,
        0,
        0,
    ]
}

/// The whole `vis-timing.bin` file for a request whose init codes give `init`.
pub open spec fn timing_bin_bytes(r: TimingSpec, init: Seq<u8>) -> Seq<u8> {
    header_bytes(r, init.len()) + timing_block(r) + init + exit_seq_bytes() + dsc_block(r)
        + other_block(r)
}

/// What generating the timing bin of a request gives: its bytes, or the
/// error of its init codes.
pub open spec fn timing_bin_of(r: TimingSpec) -> Result<Seq<u8>, InitCodeErrorSpec> {
    match init_seq(r.init_codes) {
        Ok(init) => Ok(timing_bin_bytes(r, init)),
        Err(e) => Err(e),
    }
}

fn push_array(out: &mut Vec<u8>, b: &[u8])
    ensures
        final(out)@ == old(out)@ + b@,
{
    push_bytes(out, b);
}

/// The low 32 bits of `a + b`.
fn add_trunc32(a: u64, b: usize) -> (r: u32)
    requires
        a < 0x1_0000_0000,
    ensures
        r == trunc32(a + b),
{
    let low = (b as u64) % 0x1_0000_0000;
    let s = (a + low) % 0x1_0000_0000;
    proof {
        assert((a + b) % 0x1_0000_0000 == (a + (b as int) % 0x1_0000_0000) % 0x1_0000_0000) by (
        nonlinear_arith);
    }
    s as u32
}

fn push_header(out: &mut Vec<u8>, request: &TimingBinRequest, n: usize)
    ensures
        final(out)@ == old(out)@ + header_bytes(request@, n as nat),
{
    let ghost start = out@;
    let ghost rv = request@;
    push_u32_le(out, 0xA5A5_5A5A);
    let vendor: [u8; 16] = [
        0x56,
        0x69,
        0x73,
        0x6f,
        0x6e,
        0x6f,
        0x78,
        0x38,
        0x39,
        0x30,
        0x31,
        0x32,
        0x33,
        0x34,
        0x35,
        0x36,
    ];
    push_array(out, &vendor);
    assert(vendor@ == vendor_bytes());
    let name_opt: Option<&str> = match &request.panel_name {
        Some(s) => Some(s.as_str()),
        None => None,
    };
    let panel_name = normalize_fixed_bytes(name_opt, 16, 0x78, false);
    push_bytes(out, panel_name.as_slice());
    let version_opt: Option<&str> = match &request.version {
        Some(s) => Some(s.as_str()),
        None => None,
    };
    let version = normalize_fixed_bytes(version_opt, 8, 0x78, true);
    push_bytes(out, version.as_slice());
    push_section_table(out, n);
    assert(out@ =~= start + header_bytes(rv, n as nat));
}

pub(crate) fn push_section_table(out: &mut Vec<u8>, n: usize)
    ensures
        final(out)@ == old(out)@ + section_table(n as nat),
{
    let ghost head = out@;
    let timing_offset = align(96, 16);
    assert(timing_offset == 96);
    write_entry(out, timing_offset as u32, 48);
    write_entry(out, 144, add_trunc32(0, n));
    write_entry(out, add_trunc32(144, n), 8);
    write_entry(out, 0, 0);
    write_entry(out, add_trunc32(152, n), 16);
    write_entry(out, add_trunc32(168, n), 16);
    push_u32_le(out, add_trunc32(184, n));
    assert(out@ =~= head + section_table(n as nat));
}

fn display_flags_of(request: &TimingBinRequest) -> (r: u32)
    ensures
        r == display_flags(request@),
{
    (if request.hs_polarity {
        2u32
    } else {
        1u32
    }) | (if request.vs_polarity {
        8u32
    } else {
        4u32
    }) | (if request.de_polarity {
        32u32
    } else {
        16u32
    }) | (if request.clk_polarity {
        128u32
    } else {
        64u32
    })
}

fn push_timing_block(out: &mut Vec<u8>, request: &TimingBinRequest)
    ensures
        final(out)@ == old(out)@ + timing_block(request@),
{
    let ghost start = out@;
    let ghost r = request@;
    let pclk: u64 = if request.pclk >= 1_000_000 {
        request.pclk
    } else {
        request.pclk * 1000
    };
    push_u64_le(out, pclk);
    push_u32_le(out, request.hact);
    push_u32_le(out, request.hfp);
    push_u32_le(out, request.hbp);
    push_u32_le(out, request.hsync);
    let ghost h = u64_le(pclk_hz(r.pclk)) + u32_le(r.hact) + u32_le(r.hfp) + u32_le(r.hbp)
        + u32_le(r.hsync);
    assert(out@ =~= start + h);
    push_u32_le(out, request.vact);
    push_u32_le(out, request.vfp);
    push_u32_le(out, request.vbp);
    push_u32_le(out, request.vsync);
    let ghost v = h + u32_le(r.vact) + u32_le(r.vfp) + u32_le(r.vbp) + u32_le(r.vsync);
    assert(out@ =~= start + v);
    let flags = display_flags_of(request);
    push_u32_le(out, flags);
    push_array(out, &[0u8, 0, 0, 0]);
    assert(out@ =~= start + (v + u32_le(display_flags(r)) + seq![0u8, 0, 0, 0]));
    assert(v + u32_le(display_flags(r)) + seq![0u8, 0, 0, 0] == timing_block(r));
}

fn phy_code_of(request: &TimingBinRequest) -> (r: u8)
    ensures
        r == phy_code(request@),
{
    let phy_chars = chars_of(request.phy_mode.as_str());
    if eq_ignore_ascii_case(phy_chars.as_slice(), "CPHY") {
        1
    } else {
        0
    }
}

fn push_dsc_block(out: &mut Vec<u8>, request: &TimingBinRequest)
    ensures
        final(out)@ == old(out)@ + dsc_block(request@),
{
    let ghost start = out@;
    let phy = phy_code_of(request);
    let dsc_chars = chars_of(request.dsc_version.as_str());
    let minor: u8 = if contains_str(dsc_chars.as_slice(), "1.2") {
        2
    } else {
        1
    };
    out.push(phy);
    out.push(if request.scrambling_enable {
        1
    } else {
        0
    });
    out.push(if request.dsc_enable {
        1
    } else {
        0
    });
    out.push(1);
    out.push(minor);
    push_array(out, &[0u8, 0, 0]);
    push_u32_le(out, request.slice_width);
    push_u32_le(out, request.slice_height);
    assert(out@ =~= start + dsc_block(request@));
}

fn mipi_bits_of(request: &TimingBinRequest) -> (r: u16)
    ensures
        r == mipi_bits(request@),
{
    let mode_chars = chars_of(request.mipi_mode.as_str());
    let video_chars = chars_of(request.video_type.as_str());
    let base: u16 = if eq_ignore_ascii_case(mode_chars.as_slice(), "Video") {
        if eq_ignore_ascii_case(video_chars.as_slice(), "NON_BURST_SYNC_PULSES") {
            5
        } else if eq_ignore_ascii_case(video_chars.as_slice(), "BURST_MODE") {
            3
        } else {
            1
        }
    } else {
        0
    };
    base | 0x0800u16 | 0x0200u16
}

fn interface_code_of(s: &str) -> (r: u8)
    ensures
        r == interface_code(s@),
{
    let c = chars_of(s);
    if chars_eq_str(c.as_slice(), "EDP") {
        1
    } else if chars_eq_str(c.as_slice(), "DP") {
        2
    } else {
        0
    }
}

fn format_code_of(s: &str) -> (r: u8)
    ensures
        r == format_code(s@),
{
    let c = chars_of(s);
    proof {
        reveal_strlit("RGB888");
        reveal_strlit("RGB666");
        reveal_strlit("RGB666_PACKED");
        reveal_strlit("RGB565");
        assert("RGB888"@[3] != "RGB666"@[3]);
        assert("RGB888"@.len() != "RGB666_PACKED"@.len());
        assert("RGB888"@[4] != "RGB565"@[4]);
        assert("RGB888"@ != "RGB666"@);
        assert("RGB888"@ != "RGB565"@);
    }
    if chars_eq_str(c.as_slice(), "RGB888") {
        0
    } else if chars_eq_str(c.as_slice(), "RGB666") {
        1
    } else if chars_eq_str(c.as_slice(), "RGB666_PACKED") {
        2
    } else if chars_eq_str(c.as_slice(), "RGB565") {
        3
    } else {
        0
    }
}

fn push_other_block(out: &mut Vec<u8>, request: &TimingBinRequest)
    ensures
        final(out)@ == old(out)@ + other_block(request@),
{
    let ghost start = out@;
    let mm = mipi_bits_of(request);
    out.push((mm & 0xff) as u8);
    out.push(((mm >> 8) & 0xff) as u8);
    out.push(if request.data_swap {
        1
    } else {
        0
    });
    out.push(interface_code_of(request.interface_type.as_str()));
    out.push(format_code_of(request.format.as_str()));
    out.push(request.lanes);
    out.push(phy_code_of(request));
    push_array(out, &[0x56u8, 0x69, 0x73]);
    push_array(out, &[0u8, 0, 0, 0, 0, 0]);
    assert(out@ =~= start + other_block(request@));
}

/// The encoding of a request into the `vis-timing.bin` layout; the init
/// codes are parsed first and their first error, if any, is returned.
pub fn build_timing_bin(request: &TimingBinRequest) -> (r: Result<Vec<u8>, InitCodeError>)
    ensures
        match timing_bin_of(request@) {
            Ok(bs) => r is Ok && r->Ok_0@ == bs,
            Err(e) => r is Err && r->Err_0@ == e,
        },
{
    let init = match build_init_seq(&request.init_codes) {
        Ok(v) => v,
        Err(e) => return Err(e),
    };
    let mut out: Vec<u8> = Vec::new();
    push_header(&mut out, request, init.len());
    push_timing_block(&mut out, request);
    push_bytes(&mut out, init.as_slice());
    push_array(&mut out, &[0x05u8, 0x78, 0x01, 0x28, 0x05, 0x00, 0x01, 0x10]);
    push_dsc_block(&mut out, request);
    push_other_block(&mut out, request);
    assert(out@ =~= timing_bin_bytes(request@, init@));
    Ok(out)
}

} // verus!
