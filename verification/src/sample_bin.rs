//! A reference `vis-timing.bin` with fixed settings, used to compare the
//! layout with other generators, and a hexadecimal dump of its start.
use vstd::prelude::*;

use crate::text::{chars_of, hex2, push_hex2, push_str, string_of};
use crate::timing::{
    exit_seq_bytes, magic, push_bytes, push_section_table, push_u32_le, push_u64_le, section_table,
    u32_le, u64_le, vendor_bytes,
};

verus! {

/// The ASCII bytes of `DSI-Panel0123456`.
pub open spec fn sample_panel_name() -> Seq<u8> {
    seq![
        0x44u8, 0x53, 0x49, 0x2d, 0x50, 0x61, 0x6e, 0x65, 0x6c, 0x30, 0x31, 0x32, 0x33, 0x34,
        0x35, 0x36,
    ]
}

/// The ASCII bytes of `1.234567`.
pub open spec fn sample_version() -> Seq<u8> {
    seq![0x31u8, 0x2e, 0x32, 0x33, 0x34, 0x35, 0x36, 0x37]
}

/// The init sequence of the reference file: display off, sleep in, two
/// unlock commands, tearing effect on, sleep out, display on.
pub open spec fn sample_init() -> Seq<u8> {
    seq![
        0x05u8, 0x00, 0x01, 0x28, 0x05, 0x00, 0x01, 0x10, 0x39, 0x00, 0x03, 0xF0, 0x5A, 0x5A,
        0x39, 0x00, 0x03, 0xF1, 0x5A, 0x5A, 0x29, 0x00, 0x02, 0x35, 0x00, 0x05, 0x00, 0x01, 0x11,
        0x05, 0x00, 0x01, 0x29,
    ]
}

/// The timing block of the reference file: a 150.56 MHz clock, written in
/// Hz as files hold it, 3036 x 1952 active, all polarities high.
pub open spec fn sample_timing() -> Seq<u8> {
    u64_le(150_560_000) + u32_le(3036) + u32_le(200) + u32_le(36) + u32_le(2) + u32_le(1952) + u32_le(
        62,
    ) + u32_le(36) + u32_le(2) + u32_le(0xAA) + seq![0u8, 0, 0, 0]
}

/// The DSC block of the reference file: D-PHY, DSC 1.1 on, slices 1518 x 8.
pub open spec fn sample_dsc() -> Seq<u8> {
    seq![0u8, 0, 1, 1, 1, 0, 0, 0] + u32_le(1518) + u32_le(8)
}

/// The other-info block of the reference file: video mode with sync pulses,
/// MIPI, RGB888 (format code 0), four lanes.
pub open spec fn sample_other() -> Seq<u8> {
    seq![0x05u8, 0x0A, 0, 0, 0, 4, 0, 0x56, 0x69, 0x73, 0, 0, 0, 0, 0, 0]
}

/// The whole reference file.
pub open spec fn sample_bin() -> Seq<u8> {
    u32_le(magic()) + vendor_bytes() + sample_panel_name() + sample_version() + section_table(33)
        + sample_timing() + sample_init() + exit_seq_bytes() + sample_dsc() + sample_other()
}

/// Builds the reference file.
pub fn generate_default_bin() -> (r: Vec<u8>)
    ensures
        r@ == sample_bin(),
{
    let mut out: Vec<u8> = Vec::new();
    push_u32_le(&mut out, 0xA5A5_5A5A);
    let vendor: [u8; 16] = [
        0x56, 0x69, 0x73, 0x6f, 0x6e, 0x6f, 0x78, 0x38, 0x39, 0x30, 0x31, 0x32, 0x33, 0x34, 0x35,
        0x36,
    ];
    push_bytes(&mut out, &vendor);
    assert(vendor@ == vendor_bytes());
    let name: [u8; 16] = [
        0x44, 0x53, 0x49, 0x2d, 0x50, 0x61, 0x6e, 0x65, 0x6c, 0x30, 0x31, 0x32, 0x33, 0x34, 0x35,
        0x36,
    ];
    push_bytes(&mut out, &name);
    assert(name@ == sample_panel_name());
    let version: [u8; 8] = [0x31, 0x2e, 0x32, 0x33, 0x34, 0x35, 0x36, 0x37];
    push_bytes(&mut out, &version);
    assert(version@ == sample_version());
    let init: [u8; 33] = [
        0x05, 0x00, 0x01, 0x28, 0x05, 0x00, 0x01, 0x10, 0x39, 0x00, 0x03, 0xF0, 0x5A, 0x5A, 0x39,
        0x00, 0x03, 0xF1, 0x5A, 0x5A, 0x29, 0x00, 0x02, 0x35, 0x00, 0x05, 0x00, 0x01, 0x11, 0x05,
        0x00, 0x01, 0x29,
    ];
    assert(init@ == sample_init());
    push_section_table(&mut out, 33);
    let ghost head = out@;
    push_u64_le(&mut out, 150_560_000);
    push_u32_le(&mut out, 3036);
    push_u32_le(&mut out, 200);
    push_u32_le(&mut out, 36);
    push_u32_le(&mut out, 2);
    push_u32_le(&mut out, 1952);
    push_u32_le(&mut out, 62);
    push_u32_le(&mut out, 36);
    push_u32_le(&mut out, 2);
    push_u32_le(&mut out, 0xAA);
    let reserved: [u8; 4] = [0, 0, 0, 0];
    push_bytes(&mut out, &reserved);
    assert(out@ =~= head + sample_timing());
    push_bytes(&mut out, &init);
    let exit_seq: [u8; 8] = [0x05, 0x78, 0x01, 0x28, 0x05, 0x00, 0x01, 0x10];
    push_bytes(&mut out, &exit_seq);
    assert(exit_seq@ == exit_seq_bytes());
    let ghost mid = out@;
    let dsc_head: [u8; 8] = [0, 0, 1, 1, 1, 0, 0, 0];
    push_bytes(&mut out, &dsc_head);
    push_u32_le(&mut out, 1518);
    push_u32_le(&mut out, 8);
    assert(out@ =~= mid + sample_dsc());
    let other: [u8; 16] = [0x05, 0x0A, 0, 0, 0, 4, 0, 0x56, 0x69, 0x73, 0, 0, 0, 0, 0, 0];
    push_bytes(&mut out, &other);
    assert(other@ == sample_other());
    assert(out@ =~= sample_bin());
    out
}

/// The reference file with DSC turned off: the DSC-enable byte (the third
/// byte of the DSC block, at 187) is 0.
pub open spec fn sample_dsc_off_bin() -> Seq<u8> {
    sample_bin().update(187, 0u8)
}

/// The reference file with the C-PHY: the PHY bytes of the DSC block (185)
/// and of the other-info block (207) are 1.
pub open spec fn sample_cphy_bin() -> Seq<u8> {
    sample_bin().update(185, 1u8).update(207, 1u8)
}

/// The reference file with DSC turned off.
pub fn generate_dsc_off_bin() -> (r: Vec<u8>)
    ensures
        r@ == sample_dsc_off_bin(),
        r@.len() == sample_bin().len(),
        r@[187] == 0,
        forall|i: int| 0 <= i < r@.len() && i != 187 ==> r@[i] == sample_bin()[i],
{
    let mut out = generate_default_bin();
    assert(out@.len() == 217) by {
        assert(sample_bin().len() == 217);
    }
    out.set(187, 0);
    out
}

/// The reference file with the C-PHY.
pub fn generate_cphy_bin() -> (r: Vec<u8>)
    ensures
        r@ == sample_cphy_bin(),
        r@.len() == sample_bin().len(),
        r@[185] == 1 && r@[207] == 1,
        forall|i: int| 0 <= i < r@.len() && i != 185 && i != 207 ==> r@[i] == sample_bin()[i],
{
    let mut out = generate_default_bin();
    assert(out@.len() == 217) by {
        assert(sample_bin().len() == 217);
    }
    out.set(185, 1);
    out.set(207, 1);
    out
}

// ---------------------------------------------------------------------------
// Hexadecimal dump
// ---------------------------------------------------------------------------

/// The upper-case hexadecimal digits of `n`, without leading zeros.
pub open spec fn hex_digits(n: nat) -> Seq<char>
    decreases n,
{
    if n < 16 {
        seq![crate::text::hex_char(n as int)]
    } else {
        hex_digits(n / 16).push(crate::text::hex_char((n % 16) as int))
    }
}

/// `{:04X}`: at least four upper-case hexadecimal digits.
pub open spec fn hex4(n: nat) -> Seq<char> {
    let d = hex_digits(n);
    if d.len() < 4 {
        Seq::new((4 - d.len()) as nat, |i: int| '0') + d
    } else {
        d
    }
}

/// The cells of a dump line from offset `i`: `XX ` for each of the 16
/// offsets below `limit`, three spaces for the others.
pub open spec fn dump_cells(data: Seq<u8>, limit: int, i: int, j: int) -> Seq<char>
    decreases j,
{
    if j <= 0 {
        seq![]
    } else {
        dump_cells(data, limit, i, j - 1) + (if i + j - 1 < limit {
            hex2(data[i + j - 1]) + " "@
        } else {
            "   "@
        })
    }
}

/// The dump line of offset `i`: the offset, a colon, and 16 cells.
pub open spec fn dump_line(data: Seq<u8>, limit: int, i: int) -> Seq<char> {
    hex4(i as nat) + ": "@ + dump_cells(data, limit, i, 16)
}

/// The dump of the first `max` bytes (at most all of them), 16 per line.
pub open spec fn hex_dump(data: Seq<u8>, max: nat) -> Seq<Seq<char>> {
    let limit = if max < data.len() {
        max as int
    } else {
        data.len() as int
    };
    Seq::new(((limit + 15) / 16) as nat, |k: int| dump_line(data, limit, 16 * k))
}

fn push_hex_digits(out: &mut Vec<char>, n: usize)
    ensures
        final(out)@ == old(out)@ + hex_digits(n as nat),
    decreases n,
{
    if n >= 16 {
        push_hex_digits(out, n / 16);
    }
    let d = (n % 16) as u8;
    let mut tmp: Vec<char> = Vec::new();
    push_hex2(&mut tmp, d);
    out.push(tmp[1]);
    proof {
        assert(hex2(d) == seq![crate::text::hex_char((d / 16) as int), crate::text::hex_char((d % 16) as int)]);
        assert(d % 16 == n % 16);
    }
}

fn push_hex4(out: &mut Vec<char>, n: usize)
    ensures
        final(out)@ == old(out)@ + hex4(n as nat),
{
    let mut d: Vec<char> = Vec::new();
    push_hex_digits(&mut d, n);
    let mut k = d.len();
    let ghost start = out@;
    while k < 4
        invariant
            d.len() <= k <= 4 || (k == d.len() && k >= 4),
            out@ == start + Seq::new((k - d.len()) as nat, |i: int| '0'),
        decreases 4 - k,
    {
        out.push('0');
        k = k + 1;
        assert(out@ =~= start + Seq::new((k - d.len()) as nat, |i: int| '0'));
    }
    push_str_chars(out, &d);
    assert(out@ =~= start + hex4(n as nat));
}

fn push_str_chars(out: &mut Vec<char>, s: &Vec<char>)
    ensures
        final(out)@ == old(out)@ + s@,
{
    crate::text::push_chars(out, s.as_slice());
}

/// The dump of the first `max` bytes of `data`, one line per 16 bytes, as
/// the comparison tool prints it.
pub fn hex_dump_lines(data: &[u8], max: usize) -> (r: Vec<String>)
    ensures
        crate::text::string_views(r@) == hex_dump(data@, max as nat),
{
    let limit = if max < data.len() {
        max
    } else {
        data.len()
    };
    let ghost want = hex_dump(data@, max as nat);
    let n_lines: usize = limit / 16 + if limit % 16 > 0 {
        1
    } else {
        0
    };
    assert(n_lines == (limit + 15) / 16) by (nonlinear_arith)
        requires
            n_lines == limit / 16 + if limit % 16 > 0 {
                1int
            } else {
                0int
            },
    ;
    let mut lines: Vec<String> = Vec::new();
    let mut k: usize = 0;
    while k < n_lines
        invariant
            limit <= data.len(),
            limit == (if max < data.len() {
                max
            } else {
                data.len()
            }),
            n_lines == (limit + 15) / 16,
            0 <= k <= n_lines,
            want == hex_dump(data@, max as nat),
            want.len() == n_lines,
            lines@.len() == k,
            forall|t: int| 0 <= t < lines@.len() ==> (#[trigger] lines@[t])@ == want[t],
        decreases n_lines - k,
    {
        assert(16 * k < limit) by (nonlinear_arith)
            requires
                k < n_lines,
                n_lines == (limit + 15) / 16,
        ;
        let i: usize = 16 * k;
        let mut v: Vec<char> = Vec::new();
        push_hex4(&mut v, i);
        push_str(&mut v, ": ");
        let ghost base = v@;
        let mut j: usize = 0;
        while j < 16
            invariant
                0 <= j <= 16,
                i < limit <= data.len(),
                v@ == base + dump_cells(data@, limit as int, i as int, j as int),
            decreases 16 - j,
        {
            if j < limit - i {
                push_hex2(&mut v, data[i + j]);
                push_str(&mut v, " ");
            } else {
                push_str(&mut v, "   ");
            }
            j = j + 1;
            assert(v@ =~= base + dump_cells(data@, limit as int, i as int, j as int));
        }
        assert(want[k as int] == dump_line(data@, limit as int, i as int));
        lines.push(string_of(v.as_slice()));
        k = k + 1;
    }
    assert(crate::text::string_views(lines@) =~= want);
    lines
}

} // verus!
