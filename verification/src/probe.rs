//! The board probe: a shell script run on the board prints `KEY=VALUE`
//! lines, which are read into a [`DeviceProbeResult`].
use vstd::prelude::*;

use crate::results::DeviceProbeResult;
use crate::text::{
    char_vecs, chars_eq_str, chars_of, lines, parse_u32, parse_u32_spec, push_str, split_lines,
    string_of, starts_with_seq, strip_prefix, strip_prefix_seq, trim, trim_chars,
};
use crate::timing::opt_str;

verus! {

/// What the probe lines read so far have set.
pub ghost struct ProbeSpec {
    pub model: Option<Seq<char>>,
    pub panel_name: Option<Seq<char>>,
    pub virtual_size: Option<Seq<char>>,
    pub bits_per_pixel: Option<Seq<char>>,
    pub mipi_mode: Option<Seq<char>>,
    pub mipi_lanes: Option<u32>,
    pub fb0_available: bool,
    pub vismpwr_available: bool,
    pub python3_available: bool,
    pub cpu_usage: Option<Seq<char>>,
    pub memory_usage: Option<Seq<char>>,
    pub temperature_c: Option<Seq<char>>,
}

/// Nothing read yet.
pub open spec fn probe_start() -> ProbeSpec {
    ProbeSpec {
        model: None,
        panel_name: None,
        virtual_size: None,
        bits_per_pixel: None,
        mipi_mode: None,
        mipi_lanes: None,
        fb0_available: false,
        vismpwr_available: false,
        python3_available: false,
        cpu_usage: None,
        memory_usage: None,
        temperature_c: None,
    }
}

/// The trimmed value when it is not empty, otherwise `old`.
pub open spec fn text_value(v: Seq<char>, old: Option<Seq<char>>) -> Option<Seq<char>> {
    if trim(v).len() == 0 {
        old
    } else {
        Some(trim(v))
    }
}

/// The effect of one probe line: the first of the known keys that the line
/// starts with sets its field; `LANES` only to a positive number, the flags
/// to whether the value is `1`, `TEMP` with a degree sign appended.
pub open spec fn probe_line(st: ProbeSpec, line: Seq<char>) -> ProbeSpec {
    if let Some(v) = strip_prefix_seq(line, "MIPI_MODE="@) {
        ProbeSpec { mipi_mode: text_value(v, st.mipi_mode), ..st }
    } else if let Some(v) = strip_prefix_seq(line, "PANEL_NAME="@) {
        ProbeSpec { panel_name: text_value(v, st.panel_name), ..st }
    } else if let Some(v) = strip_prefix_seq(line, "MODEL="@) {
        ProbeSpec { model: text_value(v, st.model), ..st }
    } else if let Some(v) = strip_prefix_seq(line, "VSIZE="@) {
        ProbeSpec { virtual_size: text_value(v, st.virtual_size), ..st }
    } else if let Some(v) = strip_prefix_seq(line, "BPP="@) {
        ProbeSpec { bits_per_pixel: text_value(v, st.bits_per_pixel), ..st }
    } else if let Some(v) = strip_prefix_seq(line, "LANES="@) {
        match parse_u32_spec(trim(v)) {
            Some(n) => if n > 0 {
                ProbeSpec { mipi_lanes: Some(n), ..st }
            } else {
                st
            },
            None => st,
        }
    } else if let Some(v) = strip_prefix_seq(line, "FB0="@) {
        ProbeSpec { fb0_available: trim(v) == "1"@, ..st }
    } else if let Some(v) = strip_prefix_seq(line, "VISMPWR="@) {
        ProbeSpec { vismpwr_available: trim(v) == "1"@, ..st }
    } else if let Some(v) = strip_prefix_seq(line, "PYTHON3="@) {
        ProbeSpec { python3_available: trim(v) == "1"@, ..st }
    } else if let Some(v) = strip_prefix_seq(line, "CPU="@) {
        ProbeSpec { cpu_usage: text_value(v, st.cpu_usage), ..st }
    } else if let Some(v) = strip_prefix_seq(line, "MEM="@) {
        ProbeSpec { memory_usage: text_value(v, st.memory_usage), ..st }
    } else if let Some(v) = strip_prefix_seq(line, "TEMP="@) {
        ProbeSpec {
            temperature_c: if trim(v).len() == 0 {
                st.temperature_c
            } else {
                Some(trim(v) + "°C"@)
            },
            ..st
        }
    } else {
        st
    }
}

/// The effect of a sequence of probe lines, in order.
pub open spec fn probe_lines(ls: Seq<Seq<char>>) -> ProbeSpec
    decreases ls.len(),
{
    if ls.len() == 0 {
        probe_start()
    } else {
        probe_line(probe_lines(ls.drop_last()), ls.last())
    }
}

/// No probe line set anything.
pub open spec fn probe_found_nothing(st: ProbeSpec) -> bool {
    st == probe_start()
}

/// A failed probe with the given error and nothing found.
pub open spec fn is_probe_failure(r: DeviceProbeResult, error: Seq<char>) -> bool {
    &&& !r.success
    &&& r.model is None
    &&& r.panel_name is None
    &&& r.virtual_size is None
    &&& r.bits_per_pixel is None
    &&& r.mipi_mode is None
    &&& r.mipi_lanes is None
    &&& !r.fb0_available
    &&& !r.vismpwr_available
    &&& !r.python3_available
    &&& r.cpu_usage is None
    &&& r.memory_usage is None
    &&& r.temperature_c is None
    &&& r.error is Some
    &&& r.error->0@ == error
}

/// A successful probe that found `st`.
pub open spec fn is_probe_success(r: DeviceProbeResult, st: ProbeSpec) -> bool {
    &&& r.success
    &&& opt_str(r.model) == st.model
    &&& opt_str(r.panel_name) == st.panel_name
    &&& opt_str(r.virtual_size) == st.virtual_size
    &&& opt_str(r.bits_per_pixel) == st.bits_per_pixel
    &&& opt_str(r.mipi_mode) == st.mipi_mode
    &&& r.mipi_lanes == st.mipi_lanes
    &&& r.fb0_available == st.fb0_available
    &&& r.vismpwr_available == st.vismpwr_available
    &&& r.python3_available == st.python3_available
    &&& opt_str(r.cpu_usage) == st.cpu_usage
    &&& opt_str(r.memory_usage) == st.memory_usage
    &&& opt_str(r.temperature_c) == st.temperature_c
    &&& r.error is None
}

/// A failed probe: nothing found, and the error.
pub fn probe_failure(error: String) -> (r: DeviceProbeResult)
    ensures
        is_probe_failure(r, error@),
{
    DeviceProbeResult {
        success: false,
        model: None,
        panel_name: None,
        virtual_size: None,
        bits_per_pixel: None,
        mipi_mode: None,
        mipi_lanes: None,
        fb0_available: false,
        vismpwr_available: false,
        python3_available: false,
        cpu_usage: None,
        memory_usage: None,
        temperature_c: None,
        error: Some(error),
    }
}

/// The rest of the last line of `ls` that starts with `key`, if any.
pub open spec fn last_key_value(ls: Seq<Seq<char>>, key: Seq<char>) -> Option<Seq<char>>
    decreases ls.len(),
{
    if ls.len() == 0 {
        None
    } else if starts_with_seq(ls.last(), key) {
        Some(ls.last().skip(key.len() as int))
    } else {
        last_key_value(ls.drop_last(), key)
    }
}

/// A yes/no key is set when its last line says `1` (spaces around it
/// aside), and unset when it says anything else or no line names it.
pub open spec fn key_flag(ls: Seq<Seq<char>>, key: Seq<char>) -> bool {
    match last_key_value(ls, key) {
        Some(v) => trim(v) == seq!['1'],
        None => false,
    }
}

/// A line that starts with both `a` and `b` is impossible when they differ
/// at a position that both have.
proof fn lemma_prefix_clash(line: Seq<char>, a: Seq<char>, b: Seq<char>, j: int)
    requires
        0 <= j < a.len(),
        j < b.len(),
        a[j] != b[j],
    ensures
        !(starts_with_seq(line, a) && starts_with_seq(line, b)),
{
    if starts_with_seq(line, a) && starts_with_seq(line, b) {
        assert(line.subrange(0, a.len() as int)[j] == line[j]);
        assert(line.subrange(0, b.len() as int)[j] == line[j]);
    }
}

/// Each yes/no key of the probe is read from its own lines only: the board
/// has a framebuffer, the `vismpwr` tool and Python 3 exactly when the last
/// `FB0=`, `VISMPWR=` and `PYTHON3=` line, respectively, says `1`.
pub proof fn lemma_probe_flags(ls: Seq<Seq<char>>)
    ensures
        probe_lines(ls).fb0_available == key_flag(ls, "FB0="@),
        probe_lines(ls).vismpwr_available == key_flag(ls, "VISMPWR="@),
        probe_lines(ls).python3_available == key_flag(ls, "PYTHON3="@),
    decreases ls.len(),
{
    reveal_strlit("1");
    reveal_strlit("MIPI_MODE=");
    reveal_strlit("PANEL_NAME=");
    reveal_strlit("MODEL=");
    reveal_strlit("VSIZE=");
    reveal_strlit("BPP=");
    reveal_strlit("LANES=");
    reveal_strlit("FB0=");
    reveal_strlit("VISMPWR=");
    reveal_strlit("PYTHON3=");
    assert("1"@ =~= seq!['1']);
    if ls.len() > 0 {
        lemma_probe_flags(ls.drop_last());
        let line = ls.last();
        let fb = "FB0="@;
        let vp = "VISMPWR="@;
        let py = "PYTHON3="@;
        lemma_prefix_clash(line, fb, vp, 0);
        lemma_prefix_clash(line, fb, py, 0);
        lemma_prefix_clash(line, vp, py, 0);
        lemma_prefix_clash(line, fb, "MIPI_MODE="@, 0);
        lemma_prefix_clash(line, fb, "PANEL_NAME="@, 0);
        lemma_prefix_clash(line, fb, "MODEL="@, 0);
        lemma_prefix_clash(line, fb, "VSIZE="@, 0);
        lemma_prefix_clash(line, fb, "BPP="@, 0);
        lemma_prefix_clash(line, fb, "LANES="@, 0);
        lemma_prefix_clash(line, vp, "MIPI_MODE="@, 0);
        lemma_prefix_clash(line, vp, "PANEL_NAME="@, 0);
        lemma_prefix_clash(line, vp, "MODEL="@, 0);
        lemma_prefix_clash(line, vp, "VSIZE="@, 1);
        lemma_prefix_clash(line, vp, "BPP="@, 0);
        lemma_prefix_clash(line, vp, "LANES="@, 0);
        lemma_prefix_clash(line, py, "MIPI_MODE="@, 0);
        lemma_prefix_clash(line, py, "PANEL_NAME="@, 1);
        lemma_prefix_clash(line, py, "MODEL="@, 0);
        lemma_prefix_clash(line, py, "VSIZE="@, 0);
        lemma_prefix_clash(line, py, "BPP="@, 0);
        lemma_prefix_clash(line, py, "LANES="@, 0);
    }
}

/// No probe line starts with two of the report keys.
proof fn lemma_keys_exclusive(line: Seq<char>)
    ensures
        !(starts_with_seq(line, "MIPI_MODE="@) && starts_with_seq(line, "PANEL_NAME="@)),
        !(starts_with_seq(line, "MIPI_MODE="@) && starts_with_seq(line, "MODEL="@)),
        !(starts_with_seq(line, "MIPI_MODE="@) && starts_with_seq(line, "VSIZE="@)),
        !(starts_with_seq(line, "MIPI_MODE="@) && starts_with_seq(line, "BPP="@)),
        !(starts_with_seq(line, "MIPI_MODE="@) && starts_with_seq(line, "LANES="@)),
        !(starts_with_seq(line, "MIPI_MODE="@) && starts_with_seq(line, "FB0="@)),
        !(starts_with_seq(line, "MIPI_MODE="@) && starts_with_seq(line, "VISMPWR="@)),
        !(starts_with_seq(line, "MIPI_MODE="@) && starts_with_seq(line, "PYTHON3="@)),
        !(starts_with_seq(line, "MIPI_MODE="@) && starts_with_seq(line, "CPU="@)),
        !(starts_with_seq(line, "MIPI_MODE="@) && starts_with_seq(line, "MEM="@)),
        !(starts_with_seq(line, "MIPI_MODE="@) && starts_with_seq(line, "TEMP="@)),
        !(starts_with_seq(line, "PANEL_NAME="@) && starts_with_seq(line, "MODEL="@)),
        !(starts_with_seq(line, "PANEL_NAME="@) && starts_with_seq(line, "VSIZE="@)),
        !(starts_with_seq(line, "PANEL_NAME="@) && starts_with_seq(line, "BPP="@)),
        !(starts_with_seq(line, "PANEL_NAME="@) && starts_with_seq(line, "LANES="@)),
        !(starts_with_seq(line, "PANEL_NAME="@) && starts_with_seq(line, "FB0="@)),
        !(starts_with_seq(line, "PANEL_NAME="@) && starts_with_seq(line, "VISMPWR="@)),
        !(starts_with_seq(line, "PANEL_NAME="@) && starts_with_seq(line, "PYTHON3="@)),
        !(starts_with_seq(line, "PANEL_NAME="@) && starts_with_seq(line, "CPU="@)),
        !(starts_with_seq(line, "PANEL_NAME="@) && starts_with_seq(line, "MEM="@)),
        !(starts_with_seq(line, "PANEL_NAME="@) && starts_with_seq(line, "TEMP="@)),
        !(starts_with_seq(line, "MODEL="@) && starts_with_seq(line, "VSIZE="@)),
        !(starts_with_seq(line, "MODEL="@) && starts_with_seq(line, "BPP="@)),
        !(starts_with_seq(line, "MODEL="@) && starts_with_seq(line, "LANES="@)),
        !(starts_with_seq(line, "MODEL="@) && starts_with_seq(line, "FB0="@)),
        !(starts_with_seq(line, "MODEL="@) && starts_with_seq(line, "VISMPWR="@)),
        !(starts_with_seq(line, "MODEL="@) && starts_with_seq(line, "PYTHON3="@)),
        !(starts_with_seq(line, "MODEL="@) && starts_with_seq(line, "CPU="@)),
        !(starts_with_seq(line, "MODEL="@) && starts_with_seq(line, "MEM="@)),
        !(starts_with_seq(line, "MODEL="@) && starts_with_seq(line, "TEMP="@)),
        !(starts_with_seq(line, "VSIZE="@) && starts_with_seq(line, "BPP="@)),
        !(starts_with_seq(line, "VSIZE="@) && starts_with_seq(line, "LANES="@)),
        !(starts_with_seq(line, "VSIZE="@) && starts_with_seq(line, "FB0="@)),
        !(starts_with_seq(line, "VSIZE="@) && starts_with_seq(line, "VISMPWR="@)),
        !(starts_with_seq(line, "VSIZE="@) && starts_with_seq(line, "PYTHON3="@)),
        !(starts_with_seq(line, "VSIZE="@) && starts_with_seq(line, "CPU="@)),
        !(starts_with_seq(line, "VSIZE="@) && starts_with_seq(line, "MEM="@)),
        !(starts_with_seq(line, "VSIZE="@) && starts_with_seq(line, "TEMP="@)),
        !(starts_with_seq(line, "BPP="@) && starts_with_seq(line, "LANES="@)),
        !(starts_with_seq(line, "BPP="@) && starts_with_seq(line, "FB0="@)),
        !(starts_with_seq(line, "BPP="@) && starts_with_seq(line, "VISMPWR="@)),
        !(starts_with_seq(line, "BPP="@) && starts_with_seq(line, "PYTHON3="@)),
        !(starts_with_seq(line, "BPP="@) && starts_with_seq(line, "CPU="@)),
        !(starts_with_seq(line, "BPP="@) && starts_with_seq(line, "MEM="@)),
        !(starts_with_seq(line, "BPP="@) && starts_with_seq(line, "TEMP="@)),
        !(starts_with_seq(line, "LANES="@) && starts_with_seq(line, "FB0="@)),
        !(starts_with_seq(line, "LANES="@) && starts_with_seq(line, "VISMPWR="@)),
        !(starts_with_seq(line, "LANES="@) && starts_with_seq(line, "PYTHON3="@)),
        !(starts_with_seq(line, "LANES="@) && starts_with_seq(line, "CPU="@)),
        !(starts_with_seq(line, "LANES="@) && starts_with_seq(line, "MEM="@)),
        !(starts_with_seq(line, "LANES="@) && starts_with_seq(line, "TEMP="@)),
        !(starts_with_seq(line, "FB0="@) && starts_with_seq(line, "VISMPWR="@)),
        !(starts_with_seq(line, "FB0="@) && starts_with_seq(line, "PYTHON3="@)),
        !(starts_with_seq(line, "FB0="@) && starts_with_seq(line, "CPU="@)),
        !(starts_with_seq(line, "FB0="@) && starts_with_seq(line, "MEM="@)),
        !(starts_with_seq(line, "FB0="@) && starts_with_seq(line, "TEMP="@)),
        !(starts_with_seq(line, "VISMPWR="@) && starts_with_seq(line, "PYTHON3="@)),
        !(starts_with_seq(line, "VISMPWR="@) && starts_with_seq(line, "CPU="@)),
        !(starts_with_seq(line, "VISMPWR="@) && starts_with_seq(line, "MEM="@)),
        !(starts_with_seq(line, "VISMPWR="@) && starts_with_seq(line, "TEMP="@)),
        !(starts_with_seq(line, "PYTHON3="@) && starts_with_seq(line, "CPU="@)),
        !(starts_with_seq(line, "PYTHON3="@) && starts_with_seq(line, "MEM="@)),
        !(starts_with_seq(line, "PYTHON3="@) && starts_with_seq(line, "TEMP="@)),
        !(starts_with_seq(line, "CPU="@) && starts_with_seq(line, "MEM="@)),
        !(starts_with_seq(line, "CPU="@) && starts_with_seq(line, "TEMP="@)),
        !(starts_with_seq(line, "MEM="@) && starts_with_seq(line, "TEMP="@)),
{
    reveal_strlit("MIPI_MODE=");
    reveal_strlit("PANEL_NAME=");
    reveal_strlit("MODEL=");
    reveal_strlit("VSIZE=");
    reveal_strlit("BPP=");
    reveal_strlit("LANES=");
    reveal_strlit("FB0=");
    reveal_strlit("VISMPWR=");
    reveal_strlit("PYTHON3=");
    reveal_strlit("CPU=");
    reveal_strlit("MEM=");
    reveal_strlit("TEMP=");
    lemma_prefix_clash(line, "MIPI_MODE="@, "PANEL_NAME="@, 0);
    lemma_prefix_clash(line, "MIPI_MODE="@, "MODEL="@, 1);
    lemma_prefix_clash(line, "MIPI_MODE="@, "VSIZE="@, 0);
    lemma_prefix_clash(line, "MIPI_MODE="@, "BPP="@, 0);
    lemma_prefix_clash(line, "MIPI_MODE="@, "LANES="@, 0);
    lemma_prefix_clash(line, "MIPI_MODE="@, "FB0="@, 0);
    lemma_prefix_clash(line, "MIPI_MODE="@, "VISMPWR="@, 0);
    lemma_prefix_clash(line, "MIPI_MODE="@, "PYTHON3="@, 0);
    lemma_prefix_clash(line, "MIPI_MODE="@, "CPU="@, 0);
    lemma_prefix_clash(line, "MIPI_MODE="@, "MEM="@, 1);
    lemma_prefix_clash(line, "MIPI_MODE="@, "TEMP="@, 0);
    lemma_prefix_clash(line, "PANEL_NAME="@, "MODEL="@, 0);
    lemma_prefix_clash(line, "PANEL_NAME="@, "VSIZE="@, 0);
    lemma_prefix_clash(line, "PANEL_NAME="@, "BPP="@, 0);
    lemma_prefix_clash(line, "PANEL_NAME="@, "LANES="@, 0);
    lemma_prefix_clash(line, "PANEL_NAME="@, "FB0="@, 0);
    lemma_prefix_clash(line, "PANEL_NAME="@, "VISMPWR="@, 0);
    lemma_prefix_clash(line, "PANEL_NAME="@, "PYTHON3="@, 1);
    lemma_prefix_clash(line, "PANEL_NAME="@, "CPU="@, 0);
    lemma_prefix_clash(line, "PANEL_NAME="@, "MEM="@, 0);
    lemma_prefix_clash(line, "PANEL_NAME="@, "TEMP="@, 0);
    lemma_prefix_clash(line, "MODEL="@, "VSIZE="@, 0);
    lemma_prefix_clash(line, "MODEL="@, "BPP="@, 0);
    lemma_prefix_clash(line, "MODEL="@, "LANES="@, 0);
    lemma_prefix_clash(line, "MODEL="@, "FB0="@, 0);
    lemma_prefix_clash(line, "MODEL="@, "VISMPWR="@, 0);
    lemma_prefix_clash(line, "MODEL="@, "PYTHON3="@, 0);
    lemma_prefix_clash(line, "MODEL="@, "CPU="@, 0);
    lemma_prefix_clash(line, "MODEL="@, "MEM="@, 1);
    lemma_prefix_clash(line, "MODEL="@, "TEMP="@, 0);
    lemma_prefix_clash(line, "VSIZE="@, "BPP="@, 0);
    lemma_prefix_clash(line, "VSIZE="@, "LANES="@, 0);
    lemma_prefix_clash(line, "VSIZE="@, "FB0="@, 0);
    lemma_prefix_clash(line, "VSIZE="@, "VISMPWR="@, 1);
    lemma_prefix_clash(line, "VSIZE="@, "PYTHON3="@, 0);
    lemma_prefix_clash(line, "VSIZE="@, "CPU="@, 0);
    lemma_prefix_clash(line, "VSIZE="@, "MEM="@, 0);
    lemma_prefix_clash(line, "VSIZE="@, "TEMP="@, 0);
    lemma_prefix_clash(line, "BPP="@, "LANES="@, 0);
    lemma_prefix_clash(line, "BPP="@, "FB0="@, 0);
    lemma_prefix_clash(line, "BPP="@, "VISMPWR="@, 0);
    lemma_prefix_clash(line, "BPP="@, "PYTHON3="@, 0);
    lemma_prefix_clash(line, "BPP="@, "CPU="@, 0);
    lemma_prefix_clash(line, "BPP="@, "MEM="@, 0);
    lemma_prefix_clash(line, "BPP="@, "TEMP="@, 0);
    lemma_prefix_clash(line, "LANES="@, "FB0="@, 0);
    lemma_prefix_clash(line, "LANES="@, "VISMPWR="@, 0);
    lemma_prefix_clash(line, "LANES="@, "PYTHON3="@, 0);
    lemma_prefix_clash(line, "LANES="@, "CPU="@, 0);
    lemma_prefix_clash(line, "LANES="@, "MEM="@, 0);
    lemma_prefix_clash(line, "LANES="@, "TEMP="@, 0);
    lemma_prefix_clash(line, "FB0="@, "VISMPWR="@, 0);
    lemma_prefix_clash(line, "FB0="@, "PYTHON3="@, 0);
    lemma_prefix_clash(line, "FB0="@, "CPU="@, 0);
    lemma_prefix_clash(line, "FB0="@, "MEM="@, 0);
    lemma_prefix_clash(line, "FB0="@, "TEMP="@, 0);
    lemma_prefix_clash(line, "VISMPWR="@, "PYTHON3="@, 0);
    lemma_prefix_clash(line, "VISMPWR="@, "CPU="@, 0);
    lemma_prefix_clash(line, "VISMPWR="@, "MEM="@, 0);
    lemma_prefix_clash(line, "VISMPWR="@, "TEMP="@, 0);
    lemma_prefix_clash(line, "PYTHON3="@, "CPU="@, 0);
    lemma_prefix_clash(line, "PYTHON3="@, "MEM="@, 0);
    lemma_prefix_clash(line, "PYTHON3="@, "TEMP="@, 0);
    lemma_prefix_clash(line, "CPU="@, "MEM="@, 0);
    lemma_prefix_clash(line, "CPU="@, "TEMP="@, 0);
    lemma_prefix_clash(line, "MEM="@, "TEMP="@, 0);
}

/// The trimmed rest of the last line of `ls` that starts with `key` and
/// has something after it, if any.
pub open spec fn last_text_value(ls: Seq<Seq<char>>, key: Seq<char>) -> Option<Seq<char>>
    decreases ls.len(),
{
    if ls.len() == 0 {
        None
    } else if starts_with_seq(ls.last(), key) && trim(ls.last().skip(key.len() as int)).len() > 0 {
        Some(trim(ls.last().skip(key.len() as int)))
    } else {
        last_text_value(ls.drop_last(), key)
    }
}

/// The lane count of the last `LANES=` line whose value is a positive
/// number, if any.
pub open spec fn last_lanes(ls: Seq<Seq<char>>) -> Option<u32>
    decreases ls.len(),
{
    if ls.len() == 0 {
        None
    } else if starts_with_seq(ls.last(), "LANES="@) && (match parse_u32_spec(trim(ls.last().skip(6))) {
        Some(n) => n > 0,
        None => false,
    }) {
        parse_u32_spec(trim(ls.last().skip(6)))
    } else {
        last_lanes(ls.drop_last())
    }
}

/// Each text key of the probe is read from its own lines only: the model,
/// panel name, framebuffer size, bits per pixel, MIPI mode, CPU and memory
/// use are the trimmed value of the last `MODEL=`, `PANEL_NAME=`, `VSIZE=`,
/// `BPP=`, `MIPI_MODE=`, `CPU=` and `MEM=` line with a value, the
/// temperature that of the last `TEMP=` line with `°C` appended, and the
/// lane count that of the last `LANES=` line with a positive number.
pub proof fn lemma_probe_texts(ls: Seq<Seq<char>>)
    ensures
        probe_lines(ls).model == last_text_value(ls, "MODEL="@),
        probe_lines(ls).panel_name == last_text_value(ls, "PANEL_NAME="@),
        probe_lines(ls).virtual_size == last_text_value(ls, "VSIZE="@),
        probe_lines(ls).bits_per_pixel == last_text_value(ls, "BPP="@),
        probe_lines(ls).mipi_mode == last_text_value(ls, "MIPI_MODE="@),
        probe_lines(ls).cpu_usage == last_text_value(ls, "CPU="@),
        probe_lines(ls).memory_usage == last_text_value(ls, "MEM="@),
        probe_lines(ls).temperature_c == (match last_text_value(ls, "TEMP="@) {
            Some(t) => Some(t + "°C"@),
            None => None,
        }),
        probe_lines(ls).mipi_lanes == last_lanes(ls),
    decreases ls.len(),
{
    reveal_strlit("MIPI_MODE=");
    reveal_strlit("PANEL_NAME=");
    reveal_strlit("MODEL=");
    reveal_strlit("VSIZE=");
    reveal_strlit("BPP=");
    reveal_strlit("LANES=");
    reveal_strlit("FB0=");
    reveal_strlit("VISMPWR=");
    reveal_strlit("PYTHON3=");
    reveal_strlit("CPU=");
    reveal_strlit("MEM=");
    reveal_strlit("TEMP=");
    if ls.len() > 0 {
        lemma_probe_texts(ls.drop_last());
        lemma_keys_exclusive(ls.last());
    }
}

/// The probe result of an output reports the framebuffer, the `vismpwr`
/// tool and Python 3 as available exactly when the last `FB0=`, `VISMPWR=`
/// and `PYTHON3=` line of the output, respectively, says `1`; and its texts
/// and lane count are those of the output's last lines with each key.
pub proof fn lemma_parsed_probe_flags(r: DeviceProbeResult, output: Seq<char>)
    requires
        is_parsed_probe(r, output),
    ensures
        r.fb0_available == key_flag(lines(output), "FB0="@),
        r.vismpwr_available == key_flag(lines(output), "VISMPWR="@),
        r.python3_available == key_flag(lines(output), "PYTHON3="@),
        opt_str(r.model) == last_text_value(lines(output), "MODEL="@),
        opt_str(r.panel_name) == last_text_value(lines(output), "PANEL_NAME="@),
        opt_str(r.virtual_size) == last_text_value(lines(output), "VSIZE="@),
        opt_str(r.bits_per_pixel) == last_text_value(lines(output), "BPP="@),
        opt_str(r.mipi_mode) == last_text_value(lines(output), "MIPI_MODE="@),
        opt_str(r.cpu_usage) == last_text_value(lines(output), "CPU="@),
        opt_str(r.memory_usage) == last_text_value(lines(output), "MEM="@),
        r.mipi_lanes == last_lanes(lines(output)),
        opt_str(r.temperature_c) == (match last_text_value(lines(output), "TEMP="@) {
            Some(t) => Some(t + "°C"@),
            None => None,
        }),
{
    lemma_probe_flags(lines(output));
    lemma_probe_texts(lines(output));
}

fn text_value_of(v: &[char], old: Option<String>) -> (r: Option<String>)
    ensures
        opt_str(r) == text_value(v@, opt_str(old)),
{
    let t = trim_chars(v);
    if t.len() == 0 {
        old
    } else {
        Some(string_of(t.as_slice()))
    }
}

fn flag_value(v: &[char]) -> (r: bool)
    ensures
        r == (trim(v@) == "1"@),
{
    let t = trim_chars(v);
    chars_eq_str(t.as_slice(), "1")
}

/// What a probe result holds, as probe lines set it.
pub open spec fn probe_view(r: DeviceProbeResult) -> ProbeSpec {
    ProbeSpec {
        model: opt_str(r.model),
        panel_name: opt_str(r.panel_name),
        virtual_size: opt_str(r.virtual_size),
        bits_per_pixel: opt_str(r.bits_per_pixel),
        mipi_mode: opt_str(r.mipi_mode),
        mipi_lanes: r.mipi_lanes,
        fb0_available: r.fb0_available,
        vismpwr_available: r.vismpwr_available,
        python3_available: r.python3_available,
        cpu_usage: opt_str(r.cpu_usage),
        memory_usage: opt_str(r.memory_usage),
        temperature_c: opt_str(r.temperature_c),
    }
}

fn apply_probe_line(acc: &mut DeviceProbeResult, line: &[char])
    ensures
        probe_view(*final(acc)) == probe_line(probe_view(*old(acc)), line@),
        final(acc).success == old(acc).success,
        final(acc).error == old(acc).error,
{
    if let Some(v) = strip_prefix(line, "MIPI_MODE=") {
        let old_v = acc.mipi_mode.take();
        acc.mipi_mode = text_value_of(v.as_slice(), old_v);
    } else if let Some(v) = strip_prefix(line, "PANEL_NAME=") {
        let old_v = acc.panel_name.take();
        acc.panel_name = text_value_of(v.as_slice(), old_v);
    } else if let Some(v) = strip_prefix(line, "MODEL=") {
        let old_v = acc.model.take();
        acc.model = text_value_of(v.as_slice(), old_v);
    } else if let Some(v) = strip_prefix(line, "VSIZE=") {
        let old_v = acc.virtual_size.take();
        acc.virtual_size = text_value_of(v.as_slice(), old_v);
    } else if let Some(v) = strip_prefix(line, "BPP=") {
        let old_v = acc.bits_per_pixel.take();
        acc.bits_per_pixel = text_value_of(v.as_slice(), old_v);
    } else if let Some(v) = strip_prefix(line, "LANES=") {
        let t = trim_chars(v.as_slice());
        match parse_u32(t.as_slice()) {
            Some(n) => {
                if n > 0 {
                    acc.mipi_lanes = Some(n);
                }
            },
            None => {},
        }
    } else if let Some(v) = strip_prefix(line, "FB0=") {
        acc.fb0_available = flag_value(v.as_slice());
    } else if let Some(v) = strip_prefix(line, "VISMPWR=") {
        acc.vismpwr_available = flag_value(v.as_slice());
    } else if let Some(v) = strip_prefix(line, "PYTHON3=") {
        acc.python3_available = flag_value(v.as_slice());
    } else if let Some(v) = strip_prefix(line, "CPU=") {
        let old_v = acc.cpu_usage.take();
        acc.cpu_usage = text_value_of(v.as_slice(), old_v);
    } else if let Some(v) = strip_prefix(line, "MEM=") {
        let old_v = acc.memory_usage.take();
        acc.memory_usage = text_value_of(v.as_slice(), old_v);
    } else if let Some(v) = strip_prefix(line, "TEMP=") {
        let t = trim_chars(v.as_slice());
        if t.len() > 0 {
            let mut w = t;
            push_str(&mut w, "°C");
            acc.temperature_c = Some(string_of(w.as_slice()));
        }
    }
}

/// `r` is the probe result for the script output `output`: the fields its
/// report lines set, or a failure when they set none.
pub open spec fn is_parsed_probe(r: DeviceProbeResult, output: Seq<char>) -> bool {
    let st = probe_lines(lines(output));
    if probe_found_nothing(st) {
        is_probe_failure(
            r,
            if trim(output).len() == 0 {
                "设备探测脚本执行完成，但未返回有效信息：stdout 为空"@
            } else {
                "设备探测脚本执行完成，但未返回有效信息。原始输出: "@ + trim(output)
            },
        )
    } else {
        is_probe_success(r, st)
    }
}

/// The result of a probe whose script printed `output`: what its lines set,
/// or, when they set nothing, a failure that quotes the trimmed output.
pub fn parse_probe_output(output: &str) -> (r: DeviceProbeResult)
    ensures
        is_parsed_probe(r, output@),
{
    let s = chars_of(output);
    let ls = split_lines(s.as_slice());
    let ghost lv = lines(output@);
    assert(char_vecs(ls@).len() == ls@.len());
    let mut acc = DeviceProbeResult {
        success: true,
        model: None,
        panel_name: None,
        virtual_size: None,
        bits_per_pixel: None,
        mipi_mode: None,
        mipi_lanes: None,
        fb0_available: false,
        vismpwr_available: false,
        python3_available: false,
        cpu_usage: None,
        memory_usage: None,
        temperature_c: None,
        error: None,
    };
    let mut i: usize = 0;
    while i < ls.len()
        invariant
            0 <= i <= ls.len(),
            char_vecs(ls@) == lv,
            lv.len() == ls@.len(),
            probe_view(acc) == probe_lines(lv.take(i as int)),
            acc.success,
            acc.error is None,
        decreases ls.len() - i,
    {
        assert(lv.take(i + 1).drop_last() == lv.take(i as int));
        assert(lv.take(i + 1).last() == ls@[i as int]@);
        apply_probe_line(&mut acc, ls[i].as_slice());
        i = i + 1;
    }
    assert(lv.take(ls.len() as int) == lv);
    if acc.model.is_none() && acc.panel_name.is_none() && acc.virtual_size.is_none()
        && acc.bits_per_pixel.is_none() && acc.mipi_mode.is_none() && acc.mipi_lanes.is_none()
        && !acc.fb0_available && !acc.vismpwr_available && !acc.python3_available
        && acc.cpu_usage.is_none() && acc.memory_usage.is_none() && acc.temperature_c.is_none() {
        let raw = crate::text::trim_str(output);
        let message = if chars_of(raw.as_str()).len() == 0 {
            crate::text::owned("设备探测脚本执行完成，但未返回有效信息：stdout 为空")
        } else {
            crate::text::concat("设备探测脚本执行完成，但未返回有效信息。原始输出: ", raw.as_str())
        };
        return probe_failure(message);
    }
    acc
}

// ---------------------------------------------------------------------------
// Running the probe script
// ---------------------------------------------------------------------------

/// Where the probe script is stored on the board.
pub fn probe_remote_script() -> (r: String)
    ensures
        r@ == "/dev/shm/probe_device_20260422_1918.sh"@,
{
    crate::text::owned("/dev/shm/probe_device_20260422_1918.sh")
}

/// The file name of the local copy of the probe script.
pub fn probe_local_script_name() -> (r: String)
    ensures
        r@ == "probe_device_20260422_1918.sh"@,
{
    crate::text::owned("probe_device_20260422_1918.sh")
}

/// Line endings unified: each CR LF pair, and each lone CR, becomes one LF.
pub open spec fn unify_newlines(s: Seq<char>) -> Seq<char>
    decreases s.len(),
{
    if s.len() == 0 {
        seq![]
    } else {
        let p = s.drop_last();
        if s.last() == '\r' {
            unify_newlines(p).push('\n')
        } else if s.last() == '\n' && p.len() > 0 && p.last() == '\r' {
            unify_newlines(p)
        } else {
            unify_newlines(p).push(s.last())
        }
    }
}

/// The script text with Unix line endings, as the board's shell needs it.
pub fn normalize_script_newlines(body: &str) -> (r: String)
    ensures
        r@ == unify_newlines(body@),
{
    let s = chars_of(body);
    let mut out: Vec<char> = Vec::new();
    let mut i: usize = 0;
    while i < s.len()
        invariant
            0 <= i <= s.len(),
            s@ == body@,
            out@ == unify_newlines(s@.take(i as int)),
        decreases s.len() - i,
    {
        let ghost p = s@.take(i as int);
        assert(s@.take(i + 1).drop_last() == p);
        assert(s@.take(i + 1).last() == s@[i as int]);
        if i > 0 {
            assert(p.last() == s@[i - 1]);
        }
        let c = s[i];
        if c == '\r' {
            out.push('\n');
        } else if c == '\n' && i > 0 && s[i - 1] == '\r' {
        } else {
            out.push(c);
        }
        i = i + 1;
    }
    assert(s@.take(s.len() as int) == s@);
    string_of(out.as_slice())
}

/// The check that the script directory exists: a failure stops the probe.
pub fn probe_dir_outcome(run: Result<crate::adb::CommandOutput, String>) -> (r: Option<
    DeviceProbeResult,
>)
    ensures
        match run {
            Ok(o) => if o.success {
                r is None
            } else {
                r is Some && is_probe_failure(r->0, "探测脚本临时目录不可用: /dev/shm"@)
            },
            Err(e) => r is Some && is_probe_failure(r->0, e@),
        },
{
    match run {
        Ok(o) => {
            if o.success {
                None
            } else {
                Some(probe_failure(crate::text::owned("探测脚本临时目录不可用: /dev/shm")))
            }
        },
        Err(e) => Some(probe_failure(e)),
    }
}

/// The failure when the local copy of the script cannot be written.
pub fn probe_write_failure(error: &str) -> (r: DeviceProbeResult)
    ensures
        is_probe_failure(r, "写入本地探测脚本失败: "@ + error@),
{
    probe_failure(crate::text::concat("写入本地探测脚本失败: ", error))
}

/// The push of the script: a failure stops the probe.
pub fn probe_push_outcome(push: Result<crate::results::AdbActionResult, String>) -> (r: Option<
    DeviceProbeResult,
>)
    ensures
        match push {
            Ok(a) => if a.success {
                r is None
            } else {
                r is Some && is_probe_failure(
                    r->0,
                    crate::adb::error_or(a.error, "推送探测脚本失败"@),
                )
            },
            Err(e) => r is Some && is_probe_failure(r->0, e@),
        },
{
    match push {
        Ok(a) => {
            if a.success {
                None
            } else {
                let e = match a.error {
                    Some(e) => e,
                    None => crate::text::owned("推送探测脚本失败"),
                };
                Some(probe_failure(e))
            }
        },
        Err(e) => Some(probe_failure(e)),
    }
}

/// `prefix`, followed by `: ` and the detail unless it is empty.
pub open spec fn with_detail(prefix: Seq<char>, detail: Seq<char>) -> Seq<char> {
    if detail.len() == 0 {
        prefix
    } else {
        prefix + ": "@ + detail
    }
}

fn with_detail_of(prefix: &str, detail: &str) -> (r: String)
    ensures
        r@ == with_detail(prefix@, detail@),
{
    if chars_of(detail).len() == 0 {
        crate::text::owned(prefix)
    } else {
        let mut v = chars_of(prefix);
        push_str(&mut v, ": ");
        push_str(&mut v, detail);
        string_of(v.as_slice())
    }
}

/// Making the script executable: a failure stops the probe, with the
/// trimmed standard error when there is one.
pub fn probe_chmod_outcome(run: Result<crate::adb::CommandOutput, String>) -> (r: Option<
    DeviceProbeResult,
>)
    ensures
        match run {
            Ok(o) => if o.success {
                r is None
            } else {
                r is Some && is_probe_failure(
                    r->0,
                    with_detail("设置探测脚本权限失败"@, trim(crate::timing_decode::utf8_lossy(o.stderr@))),
                )
            },
            Err(e) => r is Some && is_probe_failure(r->0, e@),
        },
{
    match run {
        Ok(o) => {
            if o.success {
                None
            } else {
                let err = crate::timing_decode::from_utf8_lossy(o.stderr.as_slice());
                let t = crate::text::trim_str(err.as_str());
                Some(probe_failure(with_detail_of("设置探测脚本权限失败", t.as_str())))
            }
        },
        Err(e) => Some(probe_failure(e)),
    }
}

/// Running the script: its standard output on success; otherwise a failure
/// with its trimmed standard error, else its trimmed standard output.
pub fn probe_run_outcome(run: Result<crate::adb::CommandOutput, String>) -> (r: Result<
    String,
    DeviceProbeResult,
>)
    ensures
        match run {
            Ok(o) => if o.success {
                r is Ok && r->Ok_0@ == crate::timing_decode::utf8_lossy(o.stdout@)
            } else {
                r is Err && is_probe_failure(
                    r->Err_0,
                    with_detail(
                        "ADB 设备探测失败"@,
                        if trim(crate::timing_decode::utf8_lossy(o.stderr@)).len() > 0 {
                            trim(crate::timing_decode::utf8_lossy(o.stderr@))
                        } else {
                            trim(crate::timing_decode::utf8_lossy(o.stdout@))
                        },
                    ),
                )
            },
            Err(e) => r is Err && is_probe_failure(r->Err_0, e@),
        },
{
    match run {
        Ok(o) => {
            if o.success {
                Ok(crate::timing_decode::from_utf8_lossy(o.stdout.as_slice()))
            } else {
                let err = crate::timing_decode::from_utf8_lossy(o.stderr.as_slice());
                let out = crate::timing_decode::from_utf8_lossy(o.stdout.as_slice());
                let te = crate::text::trim_str(err.as_str());
                let to = crate::text::trim_str(out.as_str());
                let detail = if chars_of(te.as_str()).len() > 0 {
                    te
                } else {
                    to
                };
                Err(probe_failure(with_detail_of("ADB 设备探测失败", detail.as_str())))
            }
        },
        Err(e) => Err(probe_failure(e)),
    }
}

/// A script with unified line endings holds no carriage return, and
/// unifying it again changes nothing.
pub proof fn lemma_unified_newlines(s: Seq<char>)
    ensures
        forall|i: int| 0 <= i < unify_newlines(s).len() ==> #[trigger] unify_newlines(s)[i] != '\r',
        unify_newlines(unify_newlines(s)) == unify_newlines(s),
    decreases s.len(),
{
    if s.len() > 0 {
        lemma_unified_newlines(s.drop_last());
        lemma_unify_no_cr(unify_newlines(s));
    }
}

proof fn lemma_unify_no_cr(t: Seq<char>)
    requires
        forall|i: int| 0 <= i < t.len() ==> #[trigger] t[i] != '\r',
    ensures
        unify_newlines(t) == t,
    decreases t.len(),
{
    if t.len() > 0 {
        let p = t.drop_last();
        assert forall|i: int| 0 <= i < p.len() implies #[trigger] p[i] != '\r' by {
            assert(p[i] == t[i]);
        }
        lemma_unify_no_cr(p);
        if p.len() > 0 {
            assert(p.last() == t[t.len() - 2]);
        }
        assert(p.push(t.last()) =~= t);
    } else {
        assert(unify_newlines(t) =~= t);
    }
}


// ---------------------------------------------------------------------------
// The probe, step by step
// ---------------------------------------------------------------------------

/// The step of a probe that waits for its outcome.
pub enum ProbeStage {
    CheckDir,
    Write,
    Push,
    Chmod,
    Run,
}

/// What the caller does next for a probe.
pub enum ProbeAction {
    /// Check that `/dev/shm` is a directory on the board (`test -d`).
    CheckDir,
    /// Write the probe script, with unified line endings, to the local
    /// temporary directory under `name`.
    WriteScript { name: String },
    /// Push the written script to `remote` on the board.
    Push { remote: String },
    /// Make `remote` executable (`chmod 755`).
    Chmod { remote: String },
    /// Run `remote` with `sh`.
    Run { remote: String },
}

/// What the caller hands back for the last action.
pub enum ProbeEvent {
    /// The outcome of a command run with `adb`.
    Command(Result<crate::adb::CommandOutput, String>),
    /// Whether the local script could be written.
    Written(Result<(), String>),
    /// The outcome of the push.
    Pushed(Result<crate::results::AdbActionResult, String>),
}

/// Either the next action, with the step to resume from, or the result.
pub enum ProbeStep {
    Next(ProbeStage, ProbeAction),
    Done(DeviceProbeResult),
}

/// The event that the step waits for.
pub open spec fn probe_event_fits(stage: ProbeStage, ev: ProbeEvent) -> bool {
    match stage {
        ProbeStage::Write => ev is Written,
        ProbeStage::Push => ev is Pushed,
        _ => ev is Command,
    }
}

/// The failure text of a script run that did not succeed: its trimmed
/// standard error, else its trimmed standard output.
pub open spec fn run_failure_text(o: crate::adb::CommandOutput) -> Seq<char> {
    with_detail(
        "ADB 设备探测失败"@,
        if trim(crate::timing_decode::utf8_lossy(o.stderr@)).len() > 0 {
            trim(crate::timing_decode::utf8_lossy(o.stderr@))
        } else {
            trim(crate::timing_decode::utf8_lossy(o.stdout@))
        },
    )
}

/// A probe starts by checking its temporary directory on the board.
pub fn probe_begin() -> (r: ProbeStep)
    ensures
        r matches ProbeStep::Next(ProbeStage::CheckDir, ProbeAction::CheckDir),
{
    ProbeStep::Next(ProbeStage::CheckDir, ProbeAction::CheckDir)
}

/// Continues a probe with the outcome of its last action: the directory is
/// checked, the script written, pushed, made executable and run, and its
/// output read; the first failure ends the probe with it.
pub fn probe_next(stage: ProbeStage, event: ProbeEvent) -> (r: ProbeStep)
    requires
        probe_event_fits(stage, event),
    ensures
        match stage {
            ProbeStage::CheckDir => match event->Command_0 {
                Err(e) => r matches ProbeStep::Done(p) && is_probe_failure(p, e@),
                Ok(o) => if o.success {
                    r matches ProbeStep::Next(ProbeStage::Write, ProbeAction::WriteScript { name })
                        && name@ == "probe_device_20260422_1918.sh"@
                } else {
                    r matches ProbeStep::Done(p) && is_probe_failure(p, "探测脚本临时目录不可用: /dev/shm"@)
                },
            },
            ProbeStage::Write => match event->Written_0 {
                Err(e) => r matches ProbeStep::Done(p) && is_probe_failure(p, "写入本地探测脚本失败: "@ + e@),
                Ok(_) => r matches ProbeStep::Next(ProbeStage::Push, ProbeAction::Push { remote })
                    && remote@ == "/dev/shm/probe_device_20260422_1918.sh"@,
            },
            ProbeStage::Push => match event->Pushed_0 {
                Err(e) => r matches ProbeStep::Done(p) && is_probe_failure(p, e@),
                Ok(a) => if a.success {
                    r matches ProbeStep::Next(ProbeStage::Chmod, ProbeAction::Chmod { remote })
                        && remote@ == "/dev/shm/probe_device_20260422_1918.sh"@
                } else {
                    r matches ProbeStep::Done(p) && is_probe_failure(
                        p,
                        crate::adb::error_or(a.error, "推送探测脚本失败"@),
                    )
                },
            },
            ProbeStage::Chmod => match event->Command_0 {
                Err(e) => r matches ProbeStep::Done(p) && is_probe_failure(p, e@),
                Ok(o) => if o.success {
                    r matches ProbeStep::Next(ProbeStage::Run, ProbeAction::Run { remote })
                        && remote@ == "/dev/shm/probe_device_20260422_1918.sh"@
                } else {
                    r matches ProbeStep::Done(p) && is_probe_failure(
                        p,
                        with_detail(
                            "设置探测脚本权限失败"@,
                            trim(crate::timing_decode::utf8_lossy(o.stderr@)),
                        ),
                    )
                },
            },
            ProbeStage::Run => match event->Command_0 {
                Err(e) => r matches ProbeStep::Done(p) && is_probe_failure(p, e@),
                Ok(o) => if o.success {
                    r matches ProbeStep::Done(p) && is_parsed_probe(
                        p,
                        crate::timing_decode::utf8_lossy(o.stdout@),
                    )
                } else {
                    r matches ProbeStep::Done(p) && is_probe_failure(p, run_failure_text(o))
                },
            },
        },
{
    match stage {
        ProbeStage::CheckDir => {
            let run = match event {
                ProbeEvent::Command(c) => c,
                _ => Err(String::new()),
            };
            match probe_dir_outcome(run) {
                Some(f) => ProbeStep::Done(f),
                None => ProbeStep::Next(
                    ProbeStage::Write,
                    ProbeAction::WriteScript { name: probe_local_script_name() },
                ),
            }
        },
        ProbeStage::Write => {
            let written = match event {
                ProbeEvent::Written(w) => w,
                _ => Ok(()),
            };
            match written {
                Err(e) => ProbeStep::Done(probe_write_failure(e.as_str())),
                Ok(_) => ProbeStep::Next(ProbeStage::Push, ProbeAction::Push { remote: probe_remote_script() }),
            }
        },
        ProbeStage::Push => {
            let pushed = match event {
                ProbeEvent::Pushed(p) => p,
                _ => Err(String::new()),
            };
            match probe_push_outcome(pushed) {
                Some(f) => ProbeStep::Done(f),
                None => ProbeStep::Next(ProbeStage::Chmod, ProbeAction::Chmod { remote: probe_remote_script() }),
            }
        },
        ProbeStage::Chmod => {
            let run = match event {
                ProbeEvent::Command(c) => c,
                _ => Err(String::new()),
            };
            match probe_chmod_outcome(run) {
                Some(f) => ProbeStep::Done(f),
                None => ProbeStep::Next(ProbeStage::Run, ProbeAction::Run { remote: probe_remote_script() }),
            }
        },
        ProbeStage::Run => {
            let run = match event {
                ProbeEvent::Command(c) => c,
                _ => Err(String::new()),
            };
            match probe_run_outcome(run) {
                Ok(output) => ProbeStep::Done(parse_probe_output(output.as_str())),
                Err(f) => ProbeStep::Done(f),
            }
        },
    }
}

} // verus!
