//! Laws that relate the encoding of [`crate::timing`] to the reading of
//! [`crate::timing_decode`].
use vstd::prelude::*;

use crate::text::{ascii_lower_seq, contains_seq, eq_ignore_case, occurs_at};
use crate::timing::{
    display_flags, dsc_block, dsc_minor, fixed_bytes, format_code, header_bytes, hex_line_bytes,
    init_seq, interface_code, mipi_bits, opt_utf8, other_block, pclk_hz, phy_code, section_table,
    timing_bin_bytes, timing_block, trunc32, u32_le, u64_le, vendor_bytes, exit_seq_bytes,
    ascii_digits, magic, TimingSpec, InitCodeErrorSpec,
};
use crate::timing_decode::{
    legacy_config,
    config_success, format_name, hex_lines, init_lines, interface_name, new_format_config,
    pclk_khz, phy_name, rd16, rd32, rd64, text_field, trim_nul, utf8_lossy, vesa_version,
    LcdConfigSpec, LegacyTimingSpec,
};
use crate::text::all_ws;

verus! {

// ---------------------------------------------------------------------------
// What reading back a generated file gives
// ---------------------------------------------------------------------------

/// The byte lines of the non-blank init codes, in order.
pub open spec fn command_lines(lines: Seq<Seq<char>>) -> Seq<Seq<u8>>
    decreases lines.len(),
{
    if lines.len() == 0 {
        seq![]
    } else {
        let prev = command_lines(lines.drop_last());
        let l = lines.last();
        if all_ws(l) {
            prev
        } else {
            match hex_line_bytes(l) {
                Ok(bs) => prev.push(bs),
                Err(_) => prev,
            }
        }
    }
}

/// Each line is one `DT DELAY LEN DATA...` command whose `LEN` counts its
/// data bytes.
pub open spec fn well_formed_commands(cs: Seq<Seq<u8>>) -> bool {
    forall|k: int| 0 <= k < cs.len() ==> #[trigger] cs[k].len() >= 3 && cs[k][2] + 3 == cs[k].len()
}

/// The concatenation of the byte lines.
pub open spec fn flatten(cs: Seq<Seq<u8>>) -> Seq<u8>
    decreases cs.len(),
{
    if cs.len() == 0 {
        seq![]
    } else {
        cs[0] + flatten(cs.drop_first())
    }
}

/// The video type that the encoding keeps.
pub open spec fn kept_video_type(r: TimingSpec) -> Seq<char> {
    if eq_ignore_case(r.mipi_mode, "Video"@) {
        if eq_ignore_case(r.video_type, "NON_BURST_SYNC_PULSES"@) {
            "NON_BURST_SYNC_PULSES"@
        } else if eq_ignore_case(r.video_type, "BURST_MODE"@) {
            "BURST_MODE"@
        } else {
            "NON_BURST_SYNC_EVENTS"@
        }
    } else {
        "NON_BURST_SYNC_EVENTS"@
    }
}

/// The settings that reading back the file generated for `r` gives: every
/// number and flag as in `r`, the clock converted to Hz and back, and each
/// text field as the name of the code it was encoded to.
pub open spec fn regenerated_timing(r: TimingSpec) -> LegacyTimingSpec {
    LegacyTimingSpec {
        hact: r.hact,
        vact: r.vact,
        pclk: pclk_khz(pclk_hz(r.pclk)),
        hfp: r.hfp,
        hbp: r.hbp,
        hsync: r.hsync,
        vfp: r.vfp,
        vbp: r.vbp,
        vsync: r.vsync,
        hs_polarity: r.hs_polarity,
        vs_polarity: r.vs_polarity,
        de_polarity: r.de_polarity,
        clk_polarity: r.clk_polarity,
        interface_type: interface_name(interface_code(r.interface_type)),
        mipi_mode: if eq_ignore_case(r.mipi_mode, "Video"@) {
            "Video"@
        } else {
            "Command"@
        },
        video_type: kept_video_type(r),
        lanes: r.lanes,
        format: format_name(format_code(r.format)),
        phy_mode: phy_name(phy_code(r)),
        dsc_enable: r.dsc_enable,
        dsc_version: vesa_version(1, dsc_minor(r)),
        slice_width: r.slice_width,
        slice_height: r.slice_height,
        scrambling_enable: r.scrambling_enable,
        data_swap: r.data_swap,
        dual_channel: false,
        panel_name: Some(trim_nul(utf8_lossy(fixed_bytes(opt_utf8(r.panel_name), 16, 0x78, false)))),
        version: Some(trim_nul(utf8_lossy(fixed_bytes(opt_utf8(r.version), 8, 0x78, true)))),
    }
}

// ---------------------------------------------------------------------------
// Byte-level facts
// ---------------------------------------------------------------------------

proof fn lemma_rd32_le(b: Seq<u8>, o: int, v: u32)
    requires
        0 <= o,
        o + 4 <= b.len(),
        b.subrange(o, o + 4) == u32_le(v),
    ensures
        rd32(b, o) == v,
{
    assert(b[o] == u32_le(v)[0]);
    assert(b[o + 1] == u32_le(v)[1]);
    assert(b[o + 2] == u32_le(v)[2]);
    assert(b[o + 3] == u32_le(v)[3]);
    let b0 = b[o];
    let b1 = b[o + 1];
    let b2 = b[o + 2];
    let b3 = b[o + 3];
    assert(b0 == (v & 0xff) as u8 && b1 == ((v >> 8) & 0xff) as u8 && b2 == ((v >> 16) & 0xff) as u8
        && b3 == ((v >> 24) & 0xff) as u8 ==> (b0 as u32) | ((b1 as u32) << 8) | ((b2 as u32) << 16)
        | ((b3 as u32) << 24) == v) by (bit_vector);
}

proof fn lemma_rd64_le(b: Seq<u8>, o: int, v: u64)
    requires
        0 <= o,
        o + 8 <= b.len(),
        b.subrange(o, o + 8) == u64_le(v),
    ensures
        rd64(b, o) == v,
{
    let lo = (v & 0xffff_ffff) as u32;
    let hi = (v >> 32) as u32;
    assert(u64_le(v) == u32_le(lo) + u32_le(hi));
    assert(b.subrange(o, o + 4) =~= u32_le(lo)) by {
        assert forall|j: int| 0 <= j < 4 implies b.subrange(o, o + 4)[j] == u32_le(lo)[j] by {
            assert(b[o + j] == b.subrange(o, o + 8)[j]);
        }
    }
    assert(b.subrange(o + 4, o + 8) =~= u32_le(hi)) by {
        assert forall|j: int| 0 <= j < 4 implies b.subrange(o + 4, o + 8)[j] == u32_le(hi)[j] by {
            assert(b[o + 4 + j] == b.subrange(o, o + 8)[4 + j]);
        }
    }
    lemma_rd32_le(b, o, lo);
    lemma_rd32_le(b, o + 4, hi);
    assert(lo == (v & 0xffff_ffff) as u32 && hi == (v >> 32) as u32 ==> (lo as u64) | ((hi as u64)
        << 32) == v) by (bit_vector);
}

proof fn lemma_flags(hs: bool, vs: bool, de: bool, clk: bool)
    ensures
        ({
            let f = (if hs {
                2u32
            } else {
                1u32
            }) | (if vs {
                8u32
            } else {
                4u32
            }) | (if de {
                32u32
            } else {
                16u32
            }) | (if clk {
                128u32
            } else {
                64u32
            });
            &&& (f & 2 != 0) == hs
            &&& (f & 8 != 0) == vs
            &&& (f & 32 != 0) == de
            &&& (f & 128 != 0) == clk
        }),
{
    let a: u32 = if hs {
        2
    } else {
        1
    };
    let b: u32 = if vs {
        8
    } else {
        4
    };
    let c: u32 = if de {
        32
    } else {
        16
    };
    let d: u32 = if clk {
        128
    } else {
        64
    };
    assert((a == 1 || a == 2) && (b == 4 || b == 8) && (c == 16 || c == 32) && (d == 64 || d == 128)
        ==> {
        &&& ((a | b | c | d) & 2 != 0) == (a == 2)
        &&& ((a | b | c | d) & 8 != 0) == (b == 8)
        &&& ((a | b | c | d) & 32 != 0) == (c == 32)
        &&& ((a | b | c | d) & 128 != 0) == (d == 128)
    }) by (bit_vector);
}

proof fn lemma_mipi_bits(base: u16)
    requires
        base == 0 || base == 1 || base == 3 || base == 5,
    ensures
        ({
            let mm = base | 0x0800u16 | 0x0200u16;
            let lo = (mm & 0xff) as u8;
            let hi = ((mm >> 8) & 0xff) as u8;
            let raw = (lo as u16) | ((hi as u16) << 8);
            &&& raw == mm
            &&& (raw & 1 != 0) == (base != 0)
            &&& (base == 5 ==> (raw >> 1) & 3 == 2)
            &&& (base == 3 ==> (raw >> 1) & 3 == 1)
            &&& (base == 1 || base == 0 ==> (raw >> 1) & 3 == 0)
        }),
{
    assert(base == 0 || base == 1 || base == 3 || base == 5 ==> {
        let mm = base | 0x0800u16 | 0x0200u16;
        let lo = (mm & 0xff) as u8;
        let hi = ((mm >> 8) & 0xff) as u8;
        let raw = (lo as u16) | ((hi as u16) << 8);
        &&& raw == mm
        &&& (raw & 1 != 0) == (base != 0)
        &&& (base == 5 ==> (raw >> 1) & 3 == 2)
        &&& (base == 3 ==> (raw >> 1) & 3 == 1)
        &&& (base == 1 || base == 0 ==> (raw >> 1) & 3 == 0)
    }) by (bit_vector);
}

proof fn lemma_fixed_len(raw: Seq<u8>, len: nat, pad: u8, d: bool)
    ensures
        fixed_bytes(raw, len, pad, d).len() == len,
{
}

/// `flatten` of a pushed line appends it.
proof fn lemma_flatten_push(cs: Seq<Seq<u8>>, x: Seq<u8>)
    ensures
        flatten(cs.push(x)) == flatten(cs) + x,
    decreases cs.len(),
{
    if cs.len() == 0 {
        let e: Seq<Seq<u8>> = seq![];
        assert(cs.push(x).drop_first() =~= e);
        assert(flatten(e) == Seq::<u8>::empty());
        assert(flatten(cs.push(x)) == x + flatten(e));
        assert(flatten(cs.push(x)) =~= x);
        assert(flatten(cs) + x =~= x);
    } else {
        assert(cs.push(x).drop_first() =~= cs.drop_first().push(x));
        lemma_flatten_push(cs.drop_first(), x);
        assert(flatten(cs.push(x)) =~= cs[0] + (flatten(cs.drop_first()) + x));
    }
}

/// A successful init sequence is the concatenation of the command lines,
/// each of at least three bytes.
proof fn lemma_init_seq_commands(lines: Seq<Seq<char>>)
    requires
        init_seq(lines) is Ok,
    ensures
        init_seq(lines) == Ok::<Seq<u8>, InitCodeErrorSpec>(flatten(command_lines(lines))),
        forall|k: int|
            0 <= k < command_lines(lines).len() ==> #[trigger] command_lines(lines)[k].len() >= 3,
    decreases lines.len(),
{
    if lines.len() > 0 {
        lemma_init_seq_commands(lines.drop_last());
        let l = lines.last();
        if !all_ws(l) {
            match hex_line_bytes(l) {
                Ok(bs) => {
                    lemma_flatten_push(command_lines(lines.drop_last()), bs);
                    let prev = command_lines(lines.drop_last());
                    assert forall|k: int| 0 <= k < prev.push(bs).len() implies #[trigger] prev.push(
                        bs,
                    )[k].len() >= 3 by {
                        if k < prev.len() {
                            assert(prev.push(bs)[k] == prev[k]);
                        }
                    }
                },
                Err(_) => {},
            }
        }
    }
}

/// Splitting well-formed commands laid out in `b` from `p` gives them back.
proof fn lemma_init_lines_commands(b: Seq<u8>, p: int, cs: Seq<Seq<u8>>)
    requires
        0 <= p,
        p + flatten(cs).len() <= b.len(),
        b.subrange(p, p + flatten(cs).len()) == flatten(cs),
        well_formed_commands(cs),
    ensures
        init_lines(b, p, p + flatten(cs).len()) == Ok::<Seq<Seq<u8>>, int>(cs),
    decreases cs.len(),
{
    let end = p + flatten(cs).len();
    if cs.len() == 0 {
        assert(cs =~= seq![]);
    } else {
        let c = cs[0];
        let rest = cs.drop_first();
        assert(c.len() >= 3 && c[2] + 3 == c.len()) by {
            assert(well_formed_commands(cs));
            assert(cs[0] == c);
        }
        assert(flatten(cs) == c + flatten(rest));
        assert(b[p + 2] == flatten(cs)[2]);
        assert(b.subrange(p, p + c.len()) =~= c) by {
            assert forall|j: int| 0 <= j < c.len() implies b.subrange(p, p + c.len())[j] == c[j] by {
                assert(b[p + j] == b.subrange(p, end)[j]);
                assert(flatten(cs)[j] == c[j]);
            }
        }
        assert(b.subrange(p + c.len(), p + c.len() + flatten(rest).len()) =~= flatten(rest)) by {
            assert forall|j: int| 0 <= j < flatten(rest).len() implies b.subrange(
                p + c.len(),
                p + c.len() + flatten(rest).len(),
            )[j] == flatten(rest)[j] by {
                assert(b[p + c.len() + j] == b.subrange(p, end)[c.len() + j]);
                assert(flatten(cs)[c.len() + j] == flatten(rest)[j]);
            }
        }
        assert forall|k: int| 0 <= k < rest.len() implies #[trigger] rest[k].len() >= 3 && rest[k][2]
            + 3 == rest[k].len() by {
            assert(rest[k] == cs[k + 1]);
        }
        lemma_init_lines_commands(b, p + c.len(), rest);
        assert(seq![c] + rest =~= cs);
    }
}

/// The positions of the sections of a generated file.
/// A generated file is its 96-byte header, the 48-byte timing block, the
/// init sequence, the 8-byte exit sequence, then the 16-byte DSC and
/// other-info blocks: 184 bytes more than the init sequence.
pub proof fn lemma_layout(r: TimingSpec, init: Seq<u8>)
    ensures
        ({
            let b = timing_bin_bytes(r, init);
            let n = init.len() as int;
            &&& b.len() == 184 + n
            &&& b.subrange(0, 96) == header_bytes(r, init.len())
            &&& b.subrange(96, 144) == timing_block(r)
            &&& b.subrange(144, 144 + n) == init
            &&& b.subrange(152 + n, 168 + n) == dsc_block(r)
            &&& b.subrange(168 + n, 184 + n) == other_block(r)
        }),
{
    let n = init.len() as int;
    let h = header_bytes(r, init.len());
    lemma_fixed_len(opt_utf8(r.panel_name), 16, 0x78, false);
    lemma_fixed_len(opt_utf8(r.version), 8, 0x78, true);
    assert(section_table(init.len()).len() == 52);
    assert(h.len() == 96);
    let t = timing_block(r);
    assert(t.len() == 48);
    let b = timing_bin_bytes(r, init);
    assert(b == h + t + init + exit_seq_bytes() + dsc_block(r) + other_block(r));
    assert(b.subrange(0, 96) =~= h);
    assert(b.subrange(96, 144) =~= t);
    assert(b.subrange(144, 144 + n) =~= init);
    assert(b.subrange(152 + n, 168 + n) =~= dsc_block(r));
    assert(b.subrange(168 + n, 184 + n) =~= other_block(r));
}

/// `trunc32` is the identity below 2^32.
proof fn lemma_trunc32(x: int)
    requires
        0 <= x < 0x1_0000_0000,
    ensures
        trunc32(x) == x,
{
}

/// The section table read back from a generated file.
proof fn lemma_header_reads(r: TimingSpec, init: Seq<u8>)
    requires
        init.len() + 184 < 0x1_0000_0000,
    ensures
        ({
            let b = timing_bin_bytes(r, init);
            let n = init.len() as int;
            &&& rd32(b, 44) == 96
            &&& rd32(b, 52) == 144
            &&& rd32(b, 56) == n
            &&& rd32(b, 76) == 152 + n
            &&& rd32(b, 84) == 168 + n
        }),
{
    lemma_layout(r, init);
    let b = timing_bin_bytes(r, init);
    let n = init.len() as int;
    let h = header_bytes(r, init.len());
    lemma_fixed_len(opt_utf8(r.panel_name), 16, 0x78, false);
    lemma_fixed_len(opt_utf8(r.version), 8, 0x78, true);
    let st = section_table(init.len());
    lemma_trunc32(n);
    lemma_trunc32(152 + n);
    lemma_trunc32(168 + n);
    assert(h.subrange(44, 96) =~= st);
    assert(b.subrange(44, 48) =~= u32_le(96)) by {
        assert(b.subrange(44, 48) =~= h.subrange(44, 48));
        assert(st.subrange(0, 4) =~= u32_le(96));
    }
    assert(b.subrange(52, 56) =~= u32_le(144)) by {
        assert(b.subrange(52, 56) =~= h.subrange(52, 56));
        assert(st.subrange(8, 12) =~= u32_le(144));
    }
    assert(b.subrange(56, 60) =~= u32_le(n as u32)) by {
        assert(b.subrange(56, 60) =~= h.subrange(56, 60));
        assert(st.subrange(12, 16) =~= u32_le(trunc32(n)));
    }
    assert(b.subrange(76, 80) =~= u32_le((152 + n) as u32)) by {
        assert(b.subrange(76, 80) =~= h.subrange(76, 80));
        assert(st.subrange(32, 36) =~= u32_le(trunc32(152 + n)));
    }
    assert(b.subrange(84, 88) =~= u32_le((168 + n) as u32)) by {
        assert(b.subrange(84, 88) =~= h.subrange(84, 88));
        assert(st.subrange(40, 44) =~= u32_le(trunc32(168 + n)));
    }
    lemma_rd32_le(b, 44, 96);
    lemma_rd32_le(b, 52, 144);
    lemma_rd32_le(b, 56, n as u32);
    lemma_rd32_le(b, 76, (152 + n) as u32);
    lemma_rd32_le(b, 84, (168 + n) as u32);
}

/// A four-byte field at `k` of a section at `base` reads back its value.
proof fn lemma_field32(b: Seq<u8>, base: int, sec: Seq<u8>, k: int, v: u32)
    requires
        0 <= base,
        0 <= k,
        k + 4 <= sec.len(),
        base + sec.len() <= b.len(),
        b.subrange(base, base + sec.len()) == sec,
        sec.subrange(k, k + 4) == u32_le(v),
    ensures
        rd32(b, base + k) == v,
{
    assert(b.subrange(base + k, base + k + 4) =~= u32_le(v)) by {
        assert forall|j: int| 0 <= j < 4 implies b.subrange(base + k, base + k + 4)[j] == u32_le(
            v,
        )[j] by {
            assert(b[base + k + j] == b.subrange(base, base + sec.len())[k + j]);
            assert(sec[k + j] == sec.subrange(k, k + 4)[j]);
        }
    }
    lemma_rd32_le(b, base + k, v);
}

/// The timing block read back from a file that holds it at offset 96.
proof fn lemma_timing_reads(r: TimingSpec, b: Seq<u8>)
    requires
        b.len() >= 144,
        b.subrange(96, 144) == timing_block(r),
    ensures
        ({
            let f = rd32(b, 136);
            &&& rd64(b, 96) == pclk_hz(r.pclk)
            &&& rd32(b, 104) == r.hact
            &&& rd32(b, 108) == r.hfp
            &&& rd32(b, 112) == r.hbp
            &&& rd32(b, 116) == r.hsync
            &&& rd32(b, 120) == r.vact
            &&& rd32(b, 124) == r.vfp
            &&& rd32(b, 128) == r.vbp
            &&& rd32(b, 132) == r.vsync
            &&& (f & 2 != 0) == r.hs_polarity
            &&& (f & 8 != 0) == r.vs_polarity
            &&& (f & 32 != 0) == r.de_polarity
            &&& (f & 128 != 0) == r.clk_polarity
        }),
{
    let t = timing_block(r);
    assert(t.subrange(0, 8) =~= u64_le(pclk_hz(r.pclk)));
    assert(b.subrange(96, 104) =~= u64_le(pclk_hz(r.pclk))) by {
        assert forall|j: int| 0 <= j < 8 implies b.subrange(96, 104)[j] == u64_le(
            pclk_hz(r.pclk),
        )[j] by {
            assert(b[96 + j] == b.subrange(96, 144)[j]);
            assert(t[j] == t.subrange(0, 8)[j]);
        }
    }
    lemma_rd64_le(b, 96, pclk_hz(r.pclk));
    assert(t.subrange(8, 12) =~= u32_le(r.hact));
    lemma_field32(b, 96, t, 8, r.hact);
    assert(t.subrange(12, 16) =~= u32_le(r.hfp));
    lemma_field32(b, 96, t, 12, r.hfp);
    assert(t.subrange(16, 20) =~= u32_le(r.hbp));
    lemma_field32(b, 96, t, 16, r.hbp);
    assert(t.subrange(20, 24) =~= u32_le(r.hsync));
    lemma_field32(b, 96, t, 20, r.hsync);
    assert(t.subrange(24, 28) =~= u32_le(r.vact));
    lemma_field32(b, 96, t, 24, r.vact);
    assert(t.subrange(28, 32) =~= u32_le(r.vfp));
    lemma_field32(b, 96, t, 28, r.vfp);
    assert(t.subrange(32, 36) =~= u32_le(r.vbp));
    lemma_field32(b, 96, t, 32, r.vbp);
    assert(t.subrange(36, 40) =~= u32_le(r.vsync));
    lemma_field32(b, 96, t, 36, r.vsync);
    assert(t.subrange(40, 44) =~= u32_le(display_flags(r)));
    lemma_field32(b, 96, t, 40, display_flags(r));
    lemma_flags(r.hs_polarity, r.vs_polarity, r.de_polarity, r.clk_polarity);
}

/// The DSC block read back from a file that holds it at offset `d`.
proof fn lemma_dsc_reads(r: TimingSpec, b: Seq<u8>, d: int)
    requires
        0 <= d,
        d + 16 <= b.len(),
        b.subrange(d, d + 16) == dsc_block(r),
    ensures
        b[d] == phy_code(r),
        b[d + 1] == (if r.scrambling_enable {
            1u8
        } else {
            0u8
        }),
        b[d + 2] == (if r.dsc_enable {
            1u8
        } else {
            0u8
        }),
        b[d + 3] == 1,
        b[d + 4] == dsc_minor(r),
        rd32(b, d + 8) == r.slice_width,
        rd32(b, d + 12) == r.slice_height,
{
    let ds = dsc_block(r);
    assert(b[d] == b.subrange(d, d + 16)[0]);
    assert(b[d + 1] == b.subrange(d, d + 16)[1]);
    assert(b[d + 2] == b.subrange(d, d + 16)[2]);
    assert(b[d + 3] == b.subrange(d, d + 16)[3]);
    assert(b[d + 4] == b.subrange(d, d + 16)[4]);
    assert(ds.subrange(8, 12) =~= u32_le(r.slice_width));
    lemma_field32(b, d, ds, 8, r.slice_width);
    assert(ds.subrange(12, 16) =~= u32_le(r.slice_height));
    lemma_field32(b, d, ds, 12, r.slice_height);
}

/// The other-info block read back from a file that holds it at offset `o`.
proof fn lemma_other_reads(r: TimingSpec, b: Seq<u8>, o: int)
    requires
        0 <= o,
        o + 16 <= b.len(),
        b.subrange(o, o + 16) == other_block(r),
    ensures
        rd16(b, o) == mipi_bits(r),
        (rd16(b, o) & 1 != 0) == eq_ignore_case(r.mipi_mode, "Video"@),
        crate::timing_decode::video_type_name(rd16(b, o)) == kept_video_type(r),
        b[o + 2] == (if r.data_swap {
            1u8
        } else {
            0u8
        }),
        b[o + 3] == interface_code(r.interface_type),
        b[o + 4] == format_code(r.format),
        b[o + 5] == r.lanes,
{
    let ot = other_block(r);
    assert(b[o] == b.subrange(o, o + 16)[0]);
    assert(b[o + 1] == b.subrange(o, o + 16)[1]);
    assert(b[o + 2] == b.subrange(o, o + 16)[2]);
    assert(b[o + 3] == b.subrange(o, o + 16)[3]);
    assert(b[o + 4] == b.subrange(o, o + 16)[4]);
    assert(b[o + 5] == b.subrange(o, o + 16)[5]);
    let base: u16 = if eq_ignore_case(r.mipi_mode, "Video"@) {
        if eq_ignore_case(r.video_type, "NON_BURST_SYNC_PULSES"@) {
            5u16
        } else if eq_ignore_case(r.video_type, "BURST_MODE"@) {
            3u16
        } else {
            1u16
        }
    } else {
        0u16
    };
    lemma_mipi_bits(base);
}

/// Reading a file whose sections hold what was generated for `r`.
#[verifier::rlimit(50)]
proof fn lemma_decode_sections(r: TimingSpec, b: Seq<u8>, n: int, cs: Seq<Seq<u8>>, path: Seq<char>)
    requires
        0 <= n,
        b.len() == 184 + n,
        rd32(b, 44) == 96,
        rd32(b, 52) == 144,
        rd32(b, 56) == n,
        rd32(b, 76) == 152 + n,
        rd32(b, 84) == 168 + n,
        b.subrange(96, 144) == timing_block(r),
        b.subrange(152 + n, 168 + n) == dsc_block(r),
        b.subrange(168 + n, 184 + n) == other_block(r),
        b.subrange(20, 36) == fixed_bytes(opt_utf8(r.panel_name), 16, 0x78, false),
        b.subrange(36, 44) == fixed_bytes(opt_utf8(r.version), 8, 0x78, true),
        init_lines(b, 144, 144 + n) == Ok::<Seq<Seq<u8>>, int>(cs),
    ensures
        new_format_config(path, b) == config_success(path, regenerated_timing(r), hex_lines(cs)),
{
    lemma_timing_reads(r, b);
    lemma_dsc_reads(r, b, 152 + n);
    lemma_other_reads(r, b, 168 + n);
    let got = crate::timing_decode::new_format_timing(b, 96, 152 + n, 168 + n);
    let want = regenerated_timing(r);
    assert(got.interface_type == want.interface_type);
    assert(got.format == want.format);
    assert(got.phy_mode == want.phy_mode);
    assert(got.dsc_version == want.dsc_version);
    assert(got.panel_name == want.panel_name);
    assert(got.version == want.version);
    assert(got == want);
}

/// Reading back the `vis-timing.bin` generated for a request gives the
/// request's settings, and its init codes as one upper-case hexadecimal line
/// per command, provided each init-code line is a single well-formed
/// command and the file stays within the 32-bit offsets of its layout.
pub proof fn lemma_timing_bin_round_trip(r: TimingSpec, path: Seq<char>)
    requires
        init_seq(r.init_codes) is Ok,
        well_formed_commands(command_lines(r.init_codes)),
        init_seq(r.init_codes)->Ok_0.len() + 184 < 0x1_0000_0000,
    ensures
        new_format_config(path, timing_bin_bytes(r, init_seq(r.init_codes)->Ok_0)) == config_success(
            path,
            regenerated_timing(r),
            hex_lines(command_lines(r.init_codes)),
        ),
{
    let init = init_seq(r.init_codes)->Ok_0;
    let b = timing_bin_bytes(r, init);
    let n = init.len() as int;
    let cs = command_lines(r.init_codes);
    lemma_layout(r, init);
    lemma_header_reads(r, init);
    lemma_name_fields(r, init);
    lemma_init_seq_commands(r.init_codes);
    assert(init == flatten(cs));
    lemma_init_lines_commands(b, 144, cs);
    lemma_decode_sections(r, b, n, cs, path);
}

/// The panel-name and version fields of a generated file.
proof fn lemma_name_fields(r: TimingSpec, init: Seq<u8>)
    ensures
        timing_bin_bytes(r, init).subrange(20, 36) == fixed_bytes(
            opt_utf8(r.panel_name),
            16,
            0x78,
            false,
        ),
        timing_bin_bytes(r, init).subrange(36, 44) == fixed_bytes(opt_utf8(r.version), 8, 0x78, true),
{
    lemma_layout(r, init);
    let b = timing_bin_bytes(r, init);
    lemma_fixed_len(opt_utf8(r.panel_name), 16, 0x78, false);
    lemma_fixed_len(opt_utf8(r.version), 8, 0x78, true);
    let h = header_bytes(r, init.len());
    assert(b.subrange(20, 36) =~= h.subrange(20, 36));
    assert(h.subrange(20, 36) =~= fixed_bytes(opt_utf8(r.panel_name), 16, 0x78, false));
    assert(b.subrange(36, 44) =~= h.subrange(36, 44));
    assert(h.subrange(36, 44) =~= fixed_bytes(opt_utf8(r.version), 8, 0x78, true));
}

/// A clock entered in kHz (from 1 MHz up to, but not including, 1 GHz) is
/// written in Hz and read back unchanged.
pub proof fn lemma_pclk_khz_round_trip(pclk: u64)
    requires
        1000 <= pclk < 1_000_000,
    ensures
        pclk_khz(pclk_hz(pclk)) == pclk,
{
}

/// The settings named the way the reader names them (interface `MIPI`,
/// `EDP` or `DP`; video mode with one of the three video types; one of the
/// four pixel formats; `DPHY` or `CPHY`; `Vesa1.1` or `Vesa1.2`), with a
/// clock from 1 MHz up to 1 GHz in kHz, are read back from the generated
/// file exactly as they were entered.
pub proof fn lemma_canonical_settings_read_back(r: TimingSpec)
    requires
        r.interface_type == "MIPI"@ || r.interface_type == "EDP"@ || r.interface_type == "DP"@,
        r.mipi_mode == "Video"@,
        r.video_type == "BURST_MODE"@ || r.video_type == "NON_BURST_SYNC_PULSES"@
            || r.video_type == "NON_BURST_SYNC_EVENTS"@,
        r.format == "RGB888"@ || r.format == "RGB666"@ || r.format == "RGB666_PACKED"@
            || r.format == "RGB565"@,
        r.phy_mode == "DPHY"@ || r.phy_mode == "CPHY"@,
        r.dsc_version == "Vesa1.1"@ || r.dsc_version == "Vesa1.2"@,
        1000 <= r.pclk < 1_000_000,
    ensures
        regenerated_timing(r).pclk == r.pclk,
        regenerated_timing(r).interface_type == r.interface_type,
        regenerated_timing(r).mipi_mode == r.mipi_mode,
        regenerated_timing(r).video_type == r.video_type,
        regenerated_timing(r).format == r.format,
        regenerated_timing(r).phy_mode == r.phy_mode,
        regenerated_timing(r).dsc_version == r.dsc_version,
{
    reveal_strlit("MIPI");
    reveal_strlit("EDP");
    reveal_strlit("DP");
    reveal_strlit("Video");
    reveal_strlit("BURST_MODE");
    reveal_strlit("NON_BURST_SYNC_PULSES");
    reveal_strlit("NON_BURST_SYNC_EVENTS");
    reveal_strlit("RGB888");
    reveal_strlit("RGB666");
    reveal_strlit("RGB666_PACKED");
    reveal_strlit("RGB565");
    reveal_strlit("DPHY");
    reveal_strlit("CPHY");
    reveal_strlit("Vesa1.1");
    reveal_strlit("Vesa1.2");
    reveal_strlit("Vesa");
    reveal_strlit(".");
    reveal_strlit("1.2");
    lemma_pclk_khz_round_trip(r.pclk);
    // The text fields.
    assert(eq_ignore_case(r.mipi_mode, "Video"@));
    let pulses = ascii_lower_seq("NON_BURST_SYNC_PULSES"@);
    let events = ascii_lower_seq("NON_BURST_SYNC_EVENTS"@);
    assert(pulses[15] != events[15]);
    assert(ascii_lower_seq("BURST_MODE"@).len() != pulses.len());
    assert(ascii_lower_seq("DPHY"@)[0] != ascii_lower_seq("CPHY"@)[0]);
    let one = "1.2"@;
    if r.dsc_version == "Vesa1.2"@ {
        assert(r.dsc_version.subrange(4, 7) =~= one);
        assert(occurs_at(r.dsc_version, one, 4));
        assert(dsc_minor(r) == 2);
    } else {
        assert forall|i: int| !occurs_at(r.dsc_version, one, i) by {
            if occurs_at(r.dsc_version, one, i) {
                assert(r.dsc_version.subrange(i, i + 3)[2] == r.dsc_version[i + 2]);
            }
        }
        assert(dsc_minor(r) == 1);
    }
    assert(crate::text::dec(1) =~= seq!['1']);
    assert(crate::text::dec(2) =~= seq!['2']);
    assert(vesa_version(1, dsc_minor(r)) =~= r.dsc_version);
}

/// Every setting of `r` that the file format carries, as it was entered.
pub open spec fn same_settings(t: LegacyTimingSpec, r: TimingSpec) -> bool {
    &&& t.pclk == r.pclk
    &&& t.hact == r.hact && t.hfp == r.hfp && t.hbp == r.hbp && t.hsync == r.hsync
    &&& t.vact == r.vact && t.vfp == r.vfp && t.vbp == r.vbp && t.vsync == r.vsync
    &&& t.hs_polarity == r.hs_polarity && t.vs_polarity == r.vs_polarity
    &&& t.de_polarity == r.de_polarity && t.clk_polarity == r.clk_polarity
    &&& t.interface_type == r.interface_type && t.mipi_mode == r.mipi_mode
    &&& t.video_type == r.video_type && t.lanes == r.lanes && t.format == r.format
    &&& t.phy_mode == r.phy_mode && t.dsc_enable == r.dsc_enable
    &&& t.dsc_version == r.dsc_version && t.slice_width == r.slice_width
    &&& t.slice_height == r.slice_height && t.scrambling_enable == r.scrambling_enable
    &&& t.data_swap == r.data_swap
}

/// A file generated from settings named the way the reader names them, with
/// a clock from 1 MHz up to 1 GHz in kHz and well-formed init codes, is read
/// back with every one of those settings as entered, and with the init codes
/// as upper-case hex lines.
pub proof fn lemma_canonical_timing_bin_round_trip(r: TimingSpec, path: Seq<char>)
    requires
        init_seq(r.init_codes) is Ok,
        well_formed_commands(command_lines(r.init_codes)),
        init_seq(r.init_codes)->Ok_0.len() + 184 < 0x1_0000_0000,
        r.interface_type == "MIPI"@ || r.interface_type == "EDP"@ || r.interface_type == "DP"@,
        r.mipi_mode == "Video"@,
        r.video_type == "BURST_MODE"@ || r.video_type == "NON_BURST_SYNC_PULSES"@
            || r.video_type == "NON_BURST_SYNC_EVENTS"@,
        r.format == "RGB888"@ || r.format == "RGB666"@ || r.format == "RGB666_PACKED"@
            || r.format == "RGB565"@,
        r.phy_mode == "DPHY"@ || r.phy_mode == "CPHY"@,
        r.dsc_version == "Vesa1.1"@ || r.dsc_version == "Vesa1.2"@,
        1000 <= r.pclk < 1_000_000,
    ensures
        new_format_config(path, timing_bin_bytes(r, init_seq(r.init_codes)->Ok_0)) == config_success(
            path,
            regenerated_timing(r),
            hex_lines(command_lines(r.init_codes)),
        ),
        same_settings(regenerated_timing(r), r),
{
    lemma_timing_bin_round_trip(r, path);
    lemma_canonical_settings_read_back(r);
}

// ---------------------------------------------------------------------------
// Init-code lines read back
// ---------------------------------------------------------------------------

proof fn lemma_hex_char_value(d: int)
    requires
        0 <= d < 16,
    ensures
        crate::timing::hex_digit_value(crate::text::hex_char(d)) == Some(d as nat),
        !crate::text::is_field_sep(crate::text::hex_char(d), true),
        crate::text::hex_char(d) != '+',
{
}

proof fn lemma_hex_byte_of_pair(x: u8)
    ensures
        crate::timing::hex_byte(crate::text::hex2(x)) == Some(x),
{
    let t = crate::text::hex2(x);
    lemma_hex_char_value((x / 16) as int);
    lemma_hex_char_value((x % 16) as int);
    let u = t.drop_last();
    assert(u =~= seq![t[0]]);
    assert(u.drop_last() =~= Seq::<char>::empty());
    assert(crate::timing::hex_digits_value(u.drop_last()) == Some(0nat));
    assert(u.last() == t[0]);
    assert(crate::timing::hex_digit_value(t[0]) == Some((x / 16) as nat));
    assert(crate::timing::hex_digits_value(u) == Some((x / 16) as nat));
    assert(t.last() == t[1]);
    assert(crate::timing::hex_digits_value(t) == Some(((x / 16) * 16 + x % 16) as nat));
}

proof fn lemma_fields_pair(a: char, b: char)
    requires
        !crate::text::is_field_sep(a, true),
        !crate::text::is_field_sep(b, true),
    ensures
        crate::text::fields(seq![a, b], true) == seq![seq![a, b]],
{
    let t = seq![a, b];
    let t1 = seq![a];
    let e = Seq::<char>::empty();
    assert(t.drop_last() =~= t1);
    assert(t1.drop_last() =~= e);
    assert(crate::text::fields(e, true) =~= Seq::<Seq<char>>::empty());
    assert(crate::text::fields(t1, true) =~= seq![t1]);
    assert(t1.push(b) =~= t);
    assert(seq![t1].update(0, t1.push(b)) =~= seq![t]);
}

proof fn lemma_fields_append_pair(s: Seq<char>, a: char, b: char)
    requires
        !crate::text::is_field_sep(a, true),
        !crate::text::is_field_sep(b, true),
    ensures
        crate::text::fields(s + seq![' ', a, b], true) == crate::text::fields(s, true).push(
            seq![a, b],
        ),
{
    let t = s + seq![' ', a, b];
    let t1 = s + seq![' ', a];
    let t2 = s + seq![' '];
    assert(t.drop_last() =~= t1);
    assert(t1.drop_last() =~= t2);
    assert(t2.drop_last() =~= s);
    assert(t.last() == b);
    assert(t1.last() == a);
    assert(t2.last() == ' ');
    assert(crate::text::is_field_sep(' ', true));
    let f = crate::text::fields(s, true);
    assert(crate::text::fields(t2, true) == f);
    assert(crate::text::fields(t1, true) == f.push(seq![a]));
    assert(seq![a].push(b) =~= seq![a, b]);
    assert(f.push(seq![a]).update(f.len() as int, seq![a].push(b)) =~= f.push(seq![a, b]));
}

/// The pairs of a line: each byte as two upper-case hexadecimal digits.
pub open spec fn hex_pairs(b: Seq<u8>) -> Seq<Seq<char>> {
    b.map_values(|x: u8| crate::text::hex2(x))
}

proof fn lemma_fields_hex_line(b: Seq<u8>)
    ensures
        crate::text::fields(crate::timing_decode::hex_line(b), true) == hex_pairs(b),
    decreases b.len(),
{
    if b.len() == 0 {
        assert(hex_pairs(b) =~= Seq::<Seq<char>>::empty());
    } else if b.len() == 1 {
        let x = b[0];
        let t = crate::text::hex2(x);
        lemma_hex_char_value((x / 16) as int);
        lemma_hex_char_value((x % 16) as int);
        lemma_fields_pair(t[0], t[1]);
        assert(seq![t[0], t[1]] =~= t);
        assert(crate::timing_decode::hex_line(b) == t);
        assert(hex_pairs(b) =~= seq![t]);
    } else {
        let p = b.drop_last();
        let x = b.last();
        let t = crate::text::hex2(x);
        lemma_fields_hex_line(p);
        lemma_hex_char_value((x / 16) as int);
        lemma_hex_char_value((x % 16) as int);
        let hl = crate::timing_decode::hex_line(p);
        assert(crate::timing_decode::hex_line(b) =~= hl + seq![' ', t[0], t[1]]);
        lemma_fields_append_pair(hl, t[0], t[1]);
        assert(seq![t[0], t[1]] =~= t);
        assert(hex_pairs(b) =~= hex_pairs(p).push(t));
    }
}

proof fn lemma_parse_pairs(b: Seq<u8>)
    ensures
        crate::timing::parse_fields(hex_pairs(b)) == Ok::<Seq<u8>, Seq<char>>(b),
    decreases b.len(),
{
    if b.len() == 0 {
        assert(hex_pairs(b) =~= Seq::<Seq<char>>::empty());
        assert(b =~= Seq::<u8>::empty());
    } else {
        lemma_parse_pairs(b.drop_last());
        lemma_hex_byte_of_pair(b.last());
        assert(hex_pairs(b).drop_last() =~= hex_pairs(b.drop_last()));
        assert(b.drop_last().push(b.last()) =~= b);
    }
}

/// An init-code line written as hexadecimal pairs reads back as the same
/// bytes: the init codes shown for a parsed file regenerate it unchanged.
pub proof fn lemma_hex_line_round_trip(b: Seq<u8>)
    ensures
        hex_line_bytes(crate::timing_decode::hex_line(b)) == Ok::<Seq<u8>, Seq<char>>(b),
{
    lemma_fields_hex_line(b);
    lemma_parse_pairs(b);
}

// ---------------------------------------------------------------------------
// The legacy layout
// ---------------------------------------------------------------------------

/// Two big-endian bytes as a number.
proof fn lemma_be16_value(x: u8, y: u8)
    ensures
        (((x as u16) << 8) | (y as u16)) as u32 == x * 256 + y,
{
    assert((((x as u16) << 8) | (y as u16)) as u32 == x as u32 * 256 + y as u32) by (bit_vector);
}

/// Four big-endian bytes as a number.
proof fn lemma_be32_value(a: u8, b: u8, c: u8, d: u8)
    ensures
        ((a as u32) << 24) | ((b as u32) << 16) | ((c as u32) << 8) | (d as u32) == a * 16777216
            + b * 65536 + c * 256 + d,
{
    assert(((a as u32) << 24) | ((b as u32) << 16) | ((c as u32) << 8) | (d as u32) == a as u32
        * 16777216 + b as u32 * 65536 + c as u32 * 256 + d as u32) by (bit_vector);
}

/// The settings that the application reads from a legacy file.
pub open spec fn legacy_read(path: Seq<char>, b: Seq<u8>) -> LegacyTimingSpec {
    legacy_config(path, b, false)->Ok_0.timing->0
}

/// The application reads a legacy file by its fixed layout: big-endian
/// 16-bit sizes at bytes 5 (active width), 7 (active height), 9/11 (back
/// porches), 13/15 (front porches), 17/19 (sync widths), 39/41 (slice size);
/// the clock as a big-endian 32-bit number of Hz at byte 1, given in kHz
/// from 1 MHz up; flags as nonzero bytes; and names by fixed tables: byte 30
/// 1 `EDP`, 2 `DP`, else `MIPI`; byte 31 1 `Command`, else `Video`; byte 32
/// 0 `BURST_MODE`, 1 `NON_BURST_SYNC_PULSES`, else `NON_BURST_SYNC_EVENTS`;
/// byte 33 1 `RGB666`, 2 `RGB666_PACKED`, 3 `RGB565`, else `RGB888`; byte 34
/// 1 `CPHY`, else `DPHY`; bytes 43-44 (1, 2) `Vesa1.2`, else `Ver1.1`.
pub proof fn lemma_legacy_layout(path: Seq<char>, b: Seq<u8>)
    requires
        legacy_config(path, b, false) is Ok,
    ensures
        legacy_config(path, b, false)->Ok_0.success,
        legacy_config(path, b, false)->Ok_0.timing is Some,
        legacy_read(path, b).hact == b[5] * 256 + b[6],
        legacy_read(path, b).vact == b[7] * 256 + b[8],
        legacy_read(path, b).hbp == b[9] * 256 + b[10],
        legacy_read(path, b).vbp == b[11] * 256 + b[12],
        legacy_read(path, b).hfp == b[13] * 256 + b[14],
        legacy_read(path, b).vfp == b[15] * 256 + b[16],
        legacy_read(path, b).hsync == b[17] * 256 + b[18],
        legacy_read(path, b).vsync == b[19] * 256 + b[20],
        legacy_read(path, b).slice_width == b[39] * 256 + b[40],
        legacy_read(path, b).slice_height == b[41] * 256 + b[42],
        ({
            let hz = b[1] * 16777216 + b[2] * 65536 + b[3] * 256 + b[4];
            legacy_read(path, b).pclk == if hz >= 1_000_000 {
                hz / 1000
            } else {
                hz
            }
        }),
        legacy_read(path, b).hs_polarity == (b[21] != 0),
        legacy_read(path, b).vs_polarity == (b[22] != 0),
        legacy_read(path, b).de_polarity == (b[23] != 0),
        legacy_read(path, b).clk_polarity == (b[24] != 0),
        legacy_read(path, b).lanes == b[27],
        legacy_read(path, b).dsc_enable == (b[35] != 0),
        legacy_read(path, b).scrambling_enable == (b[36] != 0),
        legacy_read(path, b).data_swap == (b[37] != 0),
        legacy_read(path, b).dual_channel == (b[38] != 0),
        legacy_read(path, b).interface_type == (if b[30] == 1 {
            "EDP"@
        } else if b[30] == 2 {
            "DP"@
        } else {
            "MIPI"@
        }),
        legacy_read(path, b).mipi_mode == (if b[31] == 1 {
            "Command"@
        } else {
            "Video"@
        }),
        legacy_read(path, b).video_type == (if b[32] == 0 {
            "BURST_MODE"@
        } else if b[32] == 1 {
            "NON_BURST_SYNC_PULSES"@
        } else {
            "NON_BURST_SYNC_EVENTS"@
        }),
        legacy_read(path, b).format == (if b[33] == 1 {
            "RGB666"@
        } else if b[33] == 2 {
            "RGB666_PACKED"@
        } else if b[33] == 3 {
            "RGB565"@
        } else {
            "RGB888"@
        }),
        legacy_read(path, b).phy_mode == (if b[34] == 1 {
            "CPHY"@
        } else {
            "DPHY"@
        }),
        legacy_read(path, b).dsc_version == (if b[43] == 1 && b[44] == 2 {
            "Vesa1.2"@
        } else {
            "Ver1.1"@
        }),
{
    lemma_be16_value(b[5], b[6]);
    lemma_be16_value(b[7], b[8]);
    lemma_be16_value(b[9], b[10]);
    lemma_be16_value(b[11], b[12]);
    lemma_be16_value(b[13], b[14]);
    lemma_be16_value(b[15], b[16]);
    lemma_be16_value(b[17], b[18]);
    lemma_be16_value(b[19], b[20]);
    lemma_be16_value(b[39], b[40]);
    lemma_be16_value(b[41], b[42]);
    lemma_be32_value(b[1], b[2], b[3], b[4]);
}

/// The command-line tool reads the names of a legacy file by the same
/// tables as the application, except that it reports a command-mode file
/// (byte 31 = 1) as `NON_BURST_SYNC_EVENTS` whatever its video-type byte.
pub proof fn lemma_cli_legacy_names(path: Seq<char>, b: Seq<u8>)
    requires
        legacy_config(path, b, true) is Ok,
    ensures
        legacy_config(path, b, true)->Ok_0.timing is Some,
        legacy_config(path, b, true)->Ok_0.timing->0.video_type == (if b[31] == 1 {
            "NON_BURST_SYNC_EVENTS"@
        } else if b[32] == 0 {
            "BURST_MODE"@
        } else if b[32] == 1 {
            "NON_BURST_SYNC_PULSES"@
        } else {
            "NON_BURST_SYNC_EVENTS"@
        }),
        legacy_config(path, b, true)->Ok_0.timing->0.mipi_mode == (if b[31] == 1 {
            "Command"@
        } else {
            "Video"@
        }),
        legacy_config(path, b, true)->Ok_0.timing->0.interface_type == (if b[30] == 1 {
            "EDP"@
        } else if b[30] == 2 {
            "DP"@
        } else {
            "MIPI"@
        }),
        legacy_config(path, b, true)->Ok_0.timing->0.format == (if b[33] == 1 {
            "RGB666"@
        } else if b[33] == 2 {
            "RGB666_PACKED"@
        } else if b[33] == 3 {
            "RGB565"@
        } else {
            "RGB888"@
        }),
        legacy_config(path, b, true)->Ok_0.timing->0.phy_mode == (if b[34] == 1 {
            "CPHY"@
        } else {
            "DPHY"@
        }),
{
}

} // verus!
