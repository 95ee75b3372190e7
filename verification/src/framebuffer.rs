//! Test patterns drawn on the board's framebuffer: the Python scripts that
//! draw them, the framebuffer size read from the probe, and the results.
use vstd::prelude::*;

use crate::adb::error_or;
use crate::results::{AdbActionResult, DeviceProbeResult, LogicPatternRequest, PatternResult, TextDisplayRequest};
use crate::text::{chars_of, contains_seq, dec, occurs_at, owned, parse_u32, parse_u32_spec, push_dec, push_str, string_of, trim, trim_chars};

verus! {

/// The Python script that draws a `width` x `height` framebuffer filled with the colour named `color` (black for an unknown name).
pub open spec fn solid_color_script_text(width: u32, height: u32, color: Seq<char>) -> Seq<char> {
    "import struct\nW, H = "@
        + dec(width as nat)
        + ", "@
        + dec(height as nat)
        + "\nCOLORS = {\n    'red': (0, 0, 255, 255),\n    'green': (0, 255, 0, 255),\n    'blue': (255, 0, 0, 255),\n    'white': (255, 255, 255, 255),\n    'black': (0, 0, 0, 255),\n    'gray32': (32, 32, 32, 255),\n    'gray64': (64, 64, 64, 255),\n    'gray128': (128, 128, 128, 255),\n    'gray192': (192, 192, 192, 255),\n    'yellow': (0, 255, 255, 255),\n    'cyan': (255, 0, 0, 255),\n    'purple': (255, 0, 255, 255),\n}\ncolor_name = '"@
        + color
        + "'\nrgba = COLORS.get(color_name, COLORS['black'])\npixel = struct.pack('<4B', *rgba)\nrow = pixel * W\nwith open('/dev/fb0', 'wb') as fb:\n    fb.write(row * H)\nprint('OK:' + color_name)\n"@
}

/// `n` found in `m` at `k` is found in `x + m + y`.
proof fn lemma_contains_middle(x: Seq<char>, m: Seq<char>, y: Seq<char>, n: Seq<char>, k: int)
    requires
        occurs_at(m, n, k),
    ensures
        contains_seq(x + m + y, n),
{
    let i = x.len() + k;
    assert((x + m + y).subrange(i, i + n.len()) =~= m.subrange(k, k + n.len()));
    assert(occurs_at(x + m + y, n, i));
}

/// The solid-colour script maps each colour name to the framebuffer pixel of
/// that colour in the byte order of `/dev/fb0` (blue, green, red, alpha):
/// red (0, 0, 255, 255), green (0, 255, 0, 255), blue (255, 0, 0, 255),
/// white, black, the four greys, yellow (0, 255, 255, 255) and purple
/// (255, 0, 255, 255); it packs the chosen entry, black for an unknown
/// name, as four bytes per pixel.
pub proof fn lemma_solid_color_pixels(width: u32, height: u32, color: Seq<char>)
    ensures
        contains_seq(solid_color_script_text(width, height, color), "\n    'red': (0, 0, 255, 255),\n"@),
        contains_seq(solid_color_script_text(width, height, color), "\n    'green': (0, 255, 0, 255),\n"@),
        contains_seq(solid_color_script_text(width, height, color), "\n    'blue': (255, 0, 0, 255),\n"@),
        contains_seq(solid_color_script_text(width, height, color), "\n    'white': (255, 255, 255, 255),\n"@),
        contains_seq(solid_color_script_text(width, height, color), "\n    'black': (0, 0, 0, 255),\n"@),
        contains_seq(solid_color_script_text(width, height, color), "\n    'gray32': (32, 32, 32, 255),\n"@),
        contains_seq(solid_color_script_text(width, height, color), "\n    'gray64': (64, 64, 64, 255),\n"@),
        contains_seq(solid_color_script_text(width, height, color), "\n    'gray128': (128, 128, 128, 255),\n"@),
        contains_seq(solid_color_script_text(width, height, color), "\n    'gray192': (192, 192, 192, 255),\n"@),
        contains_seq(solid_color_script_text(width, height, color), "\n    'yellow': (0, 255, 255, 255),\n"@),
        contains_seq(solid_color_script_text(width, height, color), "\n    'purple': (255, 0, 255, 255),\n"@),
        contains_seq(
            solid_color_script_text(width, height, color),
            "\nrgba = COLORS.get(color_name, COLORS['black'])\npixel = struct.pack('<4B', *rgba)\n"@,
        ),
{
    let a = "import struct\nW, H = "@ + dec(width as nat) + ", "@ + dec(height as nat);
    let tb = "\nCOLORS = {\n    'red': (0, 0, 255, 255),\n    'green': (0, 255, 0, 255),\n    'blue': (255, 0, 0, 255),\n    'white': (255, 255, 255, 255),\n    'black': (0, 0, 0, 255),\n    'gray32': (32, 32, 32, 255),\n    'gray64': (64, 64, 64, 255),\n    'gray128': (128, 128, 128, 255),\n    'gray192': (192, 192, 192, 255),\n    'yellow': (0, 255, 255, 255),\n    'cyan': (255, 0, 0, 255),\n    'purple': (255, 0, 255, 255),\n}\ncolor_name = '"@;
    let tl = "'\nrgba = COLORS.get(color_name, COLORS['black'])\npixel = struct.pack('<4B', *rgba)\nrow = pixel * W\nwith open('/dev/fb0', 'wb') as fb:\n    fb.write(row * H)\nprint('OK:' + color_name)\n"@;
    let z = color + tl;
    reveal_strlit("\nCOLORS = {\n    'red': (0, 0, 255, 255),\n    'green': (0, 255, 0, 255),\n    'blue': (255, 0, 0, 255),\n    'white': (255, 255, 255, 255),\n    'black': (0, 0, 0, 255),\n    'gray32': (32, 32, 32, 255),\n    'gray64': (64, 64, 64, 255),\n    'gray128': (128, 128, 128, 255),\n    'gray192': (192, 192, 192, 255),\n    'yellow': (0, 255, 255, 255),\n    'cyan': (255, 0, 0, 255),\n    'purple': (255, 0, 255, 255),\n}\ncolor_name = '");
    reveal_strlit("'\nrgba = COLORS.get(color_name, COLORS['black'])\npixel = struct.pack('<4B', *rgba)\nrow = pixel * W\nwith open('/dev/fb0', 'wb') as fb:\n    fb.write(row * H)\nprint('OK:' + color_name)\n");
    assert(solid_color_script_text(width, height, color) =~= a + tb + z);
    reveal_strlit("\n    'red': (0, 0, 255, 255),\n");
    assert(tb.subrange(11, 41) =~= "\n    'red': (0, 0, 255, 255),\n"@);
    lemma_contains_middle(a, tb, z, "\n    'red': (0, 0, 255, 255),\n"@, 11);
    reveal_strlit("\n    'green': (0, 255, 0, 255),\n");
    assert(tb.subrange(40, 72) =~= "\n    'green': (0, 255, 0, 255),\n"@);
    lemma_contains_middle(a, tb, z, "\n    'green': (0, 255, 0, 255),\n"@, 40);
    reveal_strlit("\n    'blue': (255, 0, 0, 255),\n");
    assert(tb.subrange(71, 102) =~= "\n    'blue': (255, 0, 0, 255),\n"@);
    lemma_contains_middle(a, tb, z, "\n    'blue': (255, 0, 0, 255),\n"@, 71);
    reveal_strlit("\n    'white': (255, 255, 255, 255),\n");
    assert(tb.subrange(101, 137) =~= "\n    'white': (255, 255, 255, 255),\n"@);
    lemma_contains_middle(a, tb, z, "\n    'white': (255, 255, 255, 255),\n"@, 101);
    reveal_strlit("\n    'black': (0, 0, 0, 255),\n");
    assert(tb.subrange(136, 166) =~= "\n    'black': (0, 0, 0, 255),\n"@);
    lemma_contains_middle(a, tb, z, "\n    'black': (0, 0, 0, 255),\n"@, 136);
    reveal_strlit("\n    'gray32': (32, 32, 32, 255),\n");
    assert(tb.subrange(165, 199) =~= "\n    'gray32': (32, 32, 32, 255),\n"@);
    lemma_contains_middle(a, tb, z, "\n    'gray32': (32, 32, 32, 255),\n"@, 165);
    reveal_strlit("\n    'gray64': (64, 64, 64, 255),\n");
    assert(tb.subrange(198, 232) =~= "\n    'gray64': (64, 64, 64, 255),\n"@);
    lemma_contains_middle(a, tb, z, "\n    'gray64': (64, 64, 64, 255),\n"@, 198);
    reveal_strlit("\n    'gray128': (128, 128, 128, 255),\n");
    assert(tb.subrange(231, 269) =~= "\n    'gray128': (128, 128, 128, 255),\n"@);
    lemma_contains_middle(a, tb, z, "\n    'gray128': (128, 128, 128, 255),\n"@, 231);
    reveal_strlit("\n    'gray192': (192, 192, 192, 255),\n");
    assert(tb.subrange(268, 306) =~= "\n    'gray192': (192, 192, 192, 255),\n"@);
    lemma_contains_middle(a, tb, z, "\n    'gray192': (192, 192, 192, 255),\n"@, 268);
    reveal_strlit("\n    'yellow': (0, 255, 255, 255),\n");
    assert(tb.subrange(305, 340) =~= "\n    'yellow': (0, 255, 255, 255),\n"@);
    lemma_contains_middle(a, tb, z, "\n    'yellow': (0, 255, 255, 255),\n"@, 305);
    reveal_strlit("\n    'purple': (255, 0, 255, 255),\n");
    assert(tb.subrange(369, 404) =~= "\n    'purple': (255, 0, 255, 255),\n"@);
    lemma_contains_middle(a, tb, z, "\n    'purple': (255, 0, 255, 255),\n"@, 369);
    reveal_strlit("\nrgba = COLORS.get(color_name, COLORS['black'])\npixel = struct.pack('<4B', *rgba)\n");
    assert(tl.subrange(1, 83) =~= "\nrgba = COLORS.get(color_name, COLORS['black'])\npixel = struct.pack('<4B', *rgba)\n"@);
    lemma_contains_middle(a + tb + color, tl, seq![], "\nrgba = COLORS.get(color_name, COLORS['black'])\npixel = struct.pack('<4B', *rgba)\n"@, 1);
    assert(a + tb + color + tl + seq![] =~= a + tb + z);
}

/// Builds the script of [`solid_color_script_text`].
pub fn solid_color_script(width: u32, height: u32, color: &str) -> (r: String)
    ensures
        r@ == solid_color_script_text(width, height, color@),
{
    let mut v = chars_of("import struct\nW, H = ");
    push_dec(&mut v, width as u64);
    push_str(&mut v, ", ");
    push_dec(&mut v, height as u64);
    push_str(&mut v, "\nCOLORS = {\n    'red': (0, 0, 255, 255),\n    'green': (0, 255, 0, 255),\n    'blue': (255, 0, 0, 255),\n    'white': (255, 255, 255, 255),\n    'black': (0, 0, 0, 255),\n    'gray32': (32, 32, 32, 255),\n    'gray64': (64, 64, 64, 255),\n    'gray128': (128, 128, 128, 255),\n    'gray192': (192, 192, 192, 255),\n    'yellow': (0, 255, 255, 255),\n    'cyan': (255, 0, 0, 255),\n    'purple': (255, 0, 255, 255),\n}\ncolor_name = '");
    push_str(&mut v, color);
    push_str(&mut v, "'\nrgba = COLORS.get(color_name, COLORS['black'])\npixel = struct.pack('<4B', *rgba)\nrow = pixel * W\nwith open('/dev/fb0', 'wb') as fb:\n    fb.write(row * H)\nprint('OK:' + color_name)\n");
    string_of(v.as_slice())
}

/// The Python script that draws a vertical gradient of the channel `gradient_type` (grey for an unknown name) on a `width` x `height` framebuffer.
pub open spec fn gradient_script_text(width: u32, height: u32, gradient_type: Seq<char>) -> Seq<char> {
    "WIDTH = "@
        + dec(width as nat)
        + "\nHEIGHT = "@
        + dec(height as nat)
        + "\nCHANNEL = '"@
        + gradient_type
        + "'\nwith open('/dev/fb0', 'wb') as fb:\n    for y in range(HEIGHT):\n        v = int(y * 255 / max(HEIGHT - 1, 1))\n        if CHANNEL == 'red':\n            pixel = bytes((0, 0, v, 255))\n        elif CHANNEL == 'green':\n            pixel = bytes((0, v, 0, 255))\n        elif CHANNEL == 'blue':\n            pixel = bytes((v, 0, 0, 255))\n        else:\n            pixel = bytes((v, v, v, 255))\n        fb.write(pixel * WIDTH)\nprint('OK')"@
}

/// Builds the script of [`gradient_script_text`].
pub fn gradient_script(width: u32, height: u32, gradient_type: &str) -> (r: String)
    ensures
        r@ == gradient_script_text(width, height, gradient_type@),
{
    let mut v = chars_of("WIDTH = ");
    push_dec(&mut v, width as u64);
    push_str(&mut v, "\nHEIGHT = ");
    push_dec(&mut v, height as u64);
    push_str(&mut v, "\nCHANNEL = '");
    push_str(&mut v, gradient_type);
    push_str(&mut v, "'\nwith open('/dev/fb0', 'wb') as fb:\n    for y in range(HEIGHT):\n        v = int(y * 255 / max(HEIGHT - 1, 1))\n        if CHANNEL == 'red':\n            pixel = bytes((0, 0, v, 255))\n        elif CHANNEL == 'green':\n            pixel = bytes((0, v, 0, 255))\n        elif CHANNEL == 'blue':\n            pixel = bytes((v, 0, 0, 255))\n        else:\n            pixel = bytes((v, v, v, 255))\n        fb.write(pixel * WIDTH)\nprint('OK')");
    string_of(v.as_slice())
}

/// The Python script that draws eight vertical colour bars on a `width` x `height` framebuffer.
pub open spec fn color_bar_script_text(width: u32, height: u32) -> Seq<char> {
    "WIDTH = "@
        + dec(width as nat)
        + "\nHEIGHT = "@
        + dec(height as nat)
        + "\nCOLORS = [\n    (255, 255, 255, 255),\n    (0, 255, 255, 255),\n    (255, 255, 0, 255),\n    (0, 255, 0, 255),\n    (255, 0, 255, 255),\n    (0, 0, 255, 255),\n    (255, 0, 0, 255),\n    (0, 0, 0, 255),\n]\nbar_width = max(WIDTH // len(COLORS), 1)\nwith open('/dev/fb0', 'wb') as fb:\n    row = bytearray()\n    for x in range(WIDTH):\n        idx = min(x // bar_width, len(COLORS) - 1)\n        row.extend(COLORS[idx])\n    row = bytes(row)\n    for _ in range(HEIGHT):\n        fb.write(row)\nprint('OK')"@
}

/// Builds the script of [`color_bar_script_text`].
pub fn color_bar_script(width: u32, height: u32) -> (r: String)
    ensures
        r@ == color_bar_script_text(width, height),
{
    let mut v = chars_of("WIDTH = ");
    push_dec(&mut v, width as u64);
    push_str(&mut v, "\nHEIGHT = ");
    push_dec(&mut v, height as u64);
    push_str(&mut v, "\nCOLORS = [\n    (255, 255, 255, 255),\n    (0, 255, 255, 255),\n    (255, 255, 0, 255),\n    (0, 255, 0, 255),\n    (255, 0, 255, 255),\n    (0, 0, 255, 255),\n    (255, 0, 0, 255),\n    (0, 0, 0, 255),\n]\nbar_width = max(WIDTH // len(COLORS), 1)\nwith open('/dev/fb0', 'wb') as fb:\n    row = bytearray()\n    for x in range(WIDTH):\n        idx = min(x // bar_width, len(COLORS) - 1)\n        row.extend(COLORS[idx])\n    row = bytes(row)\n    for _ in range(HEIGHT):\n        fb.write(row)\nprint('OK')");
    string_of(v.as_slice())
}

/// The gradient script ramps the named channel in the byte order of
/// `/dev/fb0` (blue, green, red, alpha): red as (0, 0, v, 255), green as
/// (0, v, 0, 255), blue as (v, 0, 0, 255), anything else as grey
/// (v, v, v, 255).
pub proof fn lemma_gradient_pixels(width: u32, height: u32, gradient_type: Seq<char>)
    ensures
        contains_seq(gradient_script_text(width, height, gradient_type), "'red':\n            pixel = bytes((0, 0, v, 255))\n"@),
        contains_seq(gradient_script_text(width, height, gradient_type), "'green':\n            pixel = bytes((0, v, 0, 255))\n"@),
        contains_seq(gradient_script_text(width, height, gradient_type), "'blue':\n            pixel = bytes((v, 0, 0, 255))\n"@),
        contains_seq(gradient_script_text(width, height, gradient_type), "else:\n            pixel = bytes((v, v, v, 255))\n"@),
{
    let a = "WIDTH = "@ + dec(width as nat) + "\nHEIGHT = "@ + dec(height as nat) + "\nCHANNEL = '"@ + gradient_type;
    let tl = "'\nwith open('/dev/fb0', 'wb') as fb:\n    for y in range(HEIGHT):\n        v = int(y * 255 / max(HEIGHT - 1, 1))\n        if CHANNEL == 'red':\n            pixel = bytes((0, 0, v, 255))\n        elif CHANNEL == 'green':\n            pixel = bytes((0, v, 0, 255))\n        elif CHANNEL == 'blue':\n            pixel = bytes((v, 0, 0, 255))\n        else:\n            pixel = bytes((v, v, v, 255))\n        fb.write(pixel * WIDTH)\nprint('OK')"@;
    reveal_strlit("'\nwith open('/dev/fb0', 'wb') as fb:\n    for y in range(HEIGHT):\n        v = int(y * 255 / max(HEIGHT - 1, 1))\n        if CHANNEL == 'red':\n            pixel = bytes((0, 0, v, 255))\n        elif CHANNEL == 'green':\n            pixel = bytes((0, v, 0, 255))\n        elif CHANNEL == 'blue':\n            pixel = bytes((v, 0, 0, 255))\n        else:\n            pixel = bytes((v, v, v, 255))\n        fb.write(pixel * WIDTH)\nprint('OK')");
    assert(gradient_script_text(width, height, gradient_type) =~= a + tl + seq![]);
    reveal_strlit("'red':\n            pixel = bytes((0, 0, v, 255))\n");
    assert(tl.subrange(133, 182) =~= "'red':\n            pixel = bytes((0, 0, v, 255))\n"@);
    lemma_contains_middle(a, tl, seq![], "'red':\n            pixel = bytes((0, 0, v, 255))\n"@, 133);
    reveal_strlit("'green':\n            pixel = bytes((0, v, 0, 255))\n");
    assert(tl.subrange(206, 257) =~= "'green':\n            pixel = bytes((0, v, 0, 255))\n"@);
    lemma_contains_middle(a, tl, seq![], "'green':\n            pixel = bytes((0, v, 0, 255))\n"@, 206);
    reveal_strlit("'blue':\n            pixel = bytes((v, 0, 0, 255))\n");
    assert(tl.subrange(281, 331) =~= "'blue':\n            pixel = bytes((v, 0, 0, 255))\n"@);
    lemma_contains_middle(a, tl, seq![], "'blue':\n            pixel = bytes((v, 0, 0, 255))\n"@, 281);
    reveal_strlit("else:\n            pixel = bytes((v, v, v, 255))\n");
    assert(tl.subrange(339, 387) =~= "else:\n            pixel = bytes((v, v, v, 255))\n"@);
    lemma_contains_middle(a, tl, seq![], "else:\n            pixel = bytes((v, v, v, 255))\n"@, 339);
}

/// The colour-bar script draws, left to right, white, yellow, cyan, green,
/// magenta, red, blue and black, each given in the byte order of `/dev/fb0`
/// (blue, green, red, alpha).
pub proof fn lemma_color_bar_pixels(width: u32, height: u32)
    ensures
        contains_seq(color_bar_script_text(width, height), "\nCOLORS = [\n    (255, 255, 255, 255),\n    (0, 255, 255, 255),\n    (255, 255, 0, 255),\n    (0, 255, 0, 255),\n    (255, 0, 255, 255),\n    (0, 0, 255, 255),\n    (255, 0, 0, 255),\n    (0, 0, 0, 255),\n]\n"@),
{
    let a = "WIDTH = "@ + dec(width as nat) + "\nHEIGHT = "@ + dec(height as nat);
    let tl = "\nCOLORS = [\n    (255, 255, 255, 255),\n    (0, 255, 255, 255),\n    (255, 255, 0, 255),\n    (0, 255, 0, 255),\n    (255, 0, 255, 255),\n    (0, 0, 255, 255),\n    (255, 0, 0, 255),\n    (0, 0, 0, 255),\n]\nbar_width = max(WIDTH // len(COLORS), 1)\nwith open('/dev/fb0', 'wb') as fb:\n    row = bytearray()\n    for x in range(WIDTH):\n        idx = min(x // bar_width, len(COLORS) - 1)\n        row.extend(COLORS[idx])\n    row = bytes(row)\n    for _ in range(HEIGHT):\n        fb.write(row)\nprint('OK')"@;
    reveal_strlit("\nCOLORS = [\n    (255, 255, 255, 255),\n    (0, 255, 255, 255),\n    (255, 255, 0, 255),\n    (0, 255, 0, 255),\n    (255, 0, 255, 255),\n    (0, 0, 255, 255),\n    (255, 0, 0, 255),\n    (0, 0, 0, 255),\n]\nbar_width = max(WIDTH // len(COLORS), 1)\nwith open('/dev/fb0', 'wb') as fb:\n    row = bytearray()\n    for x in range(WIDTH):\n        idx = min(x // bar_width, len(COLORS) - 1)\n        row.extend(COLORS[idx])\n    row = bytes(row)\n    for _ in range(HEIGHT):\n        fb.write(row)\nprint('OK')");
    reveal_strlit("\nCOLORS = [\n    (255, 255, 255, 255),\n    (0, 255, 255, 255),\n    (255, 255, 0, 255),\n    (0, 255, 0, 255),\n    (255, 0, 255, 255),\n    (0, 0, 255, 255),\n    (255, 0, 0, 255),\n    (0, 0, 0, 255),\n]\n");
    assert(color_bar_script_text(width, height) =~= a + tl + seq![]);
    assert(tl.subrange(0, 198) =~= "\nCOLORS = [\n    (255, 255, 255, 255),\n    (0, 255, 255, 255),\n    (255, 255, 0, 255),\n    (0, 255, 0, 255),\n    (255, 0, 255, 255),\n    (0, 0, 255, 255),\n    (255, 0, 0, 255),\n    (0, 0, 0, 255),\n]\n"@);
    lemma_contains_middle(a, tl, seq![], "\nCOLORS = [\n    (255, 255, 255, 255),\n    (0, 255, 255, 255),\n    (255, 255, 0, 255),\n    (0, 255, 0, 255),\n    (255, 0, 255, 255),\n    (0, 0, 255, 255),\n    (255, 0, 0, 255),\n    (0, 0, 0, 255),\n]\n"@, 0);
}

/// The Python script that draws a checkerboard of 80-pixel squares on a `width` x `height` framebuffer.
pub open spec fn checkerboard_script_text(width: u32, height: u32) -> Seq<char> {
    "WIDTH = "@
        + dec(width as nat)
        + "\nHEIGHT = "@
        + dec(height as nat)
        + "\nBLOCK = 80\nWHITE = (255, 255, 255, 255)\nBLACK = (0, 0, 0, 255)\nwith open('/dev/fb0', 'wb') as fb:\n    for y in range(HEIGHT):\n        row = bytearray()\n        for x in range(WIDTH):\n            if ((x // BLOCK) + (y // BLOCK)) % 2 == 0:\n                row.extend(WHITE)\n            else:\n                row.extend(BLACK)\n        fb.write(bytes(row))\nprint('OK')"@
}

/// Builds the script of [`checkerboard_script_text`].
pub fn checkerboard_script(width: u32, height: u32) -> (r: String)
    ensures
        r@ == checkerboard_script_text(width, height),
{
    let mut v = chars_of("WIDTH = ");
    push_dec(&mut v, width as u64);
    push_str(&mut v, "\nHEIGHT = ");
    push_dec(&mut v, height as u64);
    push_str(&mut v, "\nBLOCK = 80\nWHITE = (255, 255, 255, 255)\nBLACK = (0, 0, 0, 255)\nwith open('/dev/fb0', 'wb') as fb:\n    for y in range(HEIGHT):\n        row = bytearray()\n        for x in range(WIDTH):\n            if ((x // BLOCK) + (y // BLOCK)) % 2 == 0:\n                row.extend(WHITE)\n            else:\n                row.extend(BLACK)\n        fb.write(bytes(row))\nprint('OK')");
    string_of(v.as_slice())
}

/// `body` wrapped for `adb shell`: written to a temporary file through a
/// here-document, run with `python3`, removed, and its exit status kept.
pub open spec fn wrapped_python(body: Seq<char>) -> Seq<char> {
    "cat > /data/local/tmp/_fbs.py <<'PY'\n"@ + body
        + "\nPY\npython3 /data/local/tmp/_fbs.py; status=$?; rm -f /data/local/tmp/_fbs.py; exit $status"@
}

/// The shell command that runs a Python script body on the board.
pub fn framebuffer_python_script(body: &str) -> (r: String)
    ensures
        r@ == wrapped_python(body@),
{
    let mut v = chars_of("cat > /data/local/tmp/_fbs.py <<'PY'\n");
    push_str(&mut v, body);
    push_str(
        &mut v,
        "\nPY\npython3 /data/local/tmp/_fbs.py; status=$?; rm -f /data/local/tmp/_fbs.py; exit $status",
    );
    string_of(v.as_slice())
}

/// A failed pattern with an empty message.
pub fn pattern_failure(error: String) -> (r: PatternResult)
    ensures
        !r.success,
        r.message@.len() == 0,
        r.error is Some && r.error->0@ == error@,
{
    PatternResult { success: false, message: String::new(), error: Some(error) }
}

/// The result of a pattern drawn by a shell command.
pub fn shell_pattern_result(run: Result<AdbActionResult, String>, success_message: &str) -> (r:
    PatternResult)
    ensures
        match run {
            Ok(a) => if a.success {
                r.success && r.message@ == success_message@ && r.error is None
            } else {
                !r.success && r.message@ == a.output@ && r.error == a.error
            },
            Err(e) => !r.success && r.message@.len() == 0 && r.error is Some && r.error->0@ == e@,
        },
{
    match run {
        Ok(a) => {
            if a.success {
                PatternResult { success: true, message: owned(success_message), error: None }
            } else {
                PatternResult { success: false, message: a.output, error: a.error }
            }
        },
        Err(e) => pattern_failure(e),
    }
}

/// The message once a gradient is shown.
pub fn gradient_message(gradient_type: &str) -> (r: String)
    ensures
        r@ == "已显示渐变图案: "@ + gradient_type@,
{
    crate::text::concat("已显示渐变图案: ", gradient_type)
}

// ---------------------------------------------------------------------------
// Framebuffer size
// ---------------------------------------------------------------------------

/// `×`, `X` and `,` read as the `x` between width and height.
pub open spec fn size_char(c: char) -> char {
    if c == '×' || c == 'X' || c == ',' {
        'x'
    } else {
        c
    }
}

/// The index of the first `x`, or the length.
pub open spec fn index_of_x(n: Seq<char>) -> nat
    decreases n.len(),
{
    if n.len() == 0 {
        0
    } else if n[0] == 'x' {
        0
    } else {
        1 + index_of_x(n.drop_first())
    }
}

/// The size written as `WIDTHxHEIGHT` (with `×`, `X` or `,` also accepted),
/// or the message for what could not be read.
pub open spec fn size_of_text(vs: Seq<char>) -> Result<(u32, u32), Seq<char>> {
    let n = trim(vs).map_values(|c: char| size_char(c));
    let k = index_of_x(n);
    match parse_u32_spec(trim(n.take(k as int))) {
        None => Err("无法解析宽度: "@ + vs),
        Some(w) => if k >= n.len() {
            Err("无效分辨率格式"@)
        } else {
            let rest = n.skip(k + 1 as int);
            match parse_u32_spec(trim(rest.take(index_of_x(rest) as int))) {
                None => Err("无法解析高度: "@ + vs),
                Some(h) => Ok((w, h)),
            }
        },
    }
}

proof fn lemma_index_of_x(n: Seq<char>, i: int)
    requires
        0 <= i <= n.len(),
        forall|j: int| 0 <= j < i ==> #[trigger] n[j] != 'x',
        i == n.len() || n[i] == 'x',
    ensures
        index_of_x(n) == i,
    decreases i,
{
    if i > 0 {
        let d = n.drop_first();
        assert forall|j: int| 0 <= j < i - 1 implies #[trigger] d[j] != 'x' by {
            assert(d[j] == n[j + 1]);
        }
        if i < n.len() {
            assert(d[i - 1] == n[i]);
        }
        lemma_index_of_x(d, i - 1);
    }
}

proof fn lemma_dec_digits(n: nat)
    ensures
        dec(n).len() > 0,
        forall|i: int| 0 <= i < dec(n).len() ==> '0' <= #[trigger] dec(n)[i] <= '9',
        crate::text::dec_digits_value(dec(n)) == Some(n),
    decreases n,
{
    let d = dec(n);
    let c = crate::text::digit_char((n % 10) as int);
    assert(c as nat == 48 + n % 10);
    if n >= 10 {
        lemma_dec_digits(n / 10);
        assert(d.drop_last() =~= dec(n / 10));
        assert(d.last() == c);
        assert forall|i: int| 0 <= i < d.len() implies '0' <= #[trigger] d[i] <= '9' by {
            if i < d.len() - 1 {
                assert(d[i] == dec(n / 10)[i]);
            }
        }
        assert((n / 10) * 10 + n % 10 == n);
    } else {
        assert(d.drop_last() =~= Seq::<char>::empty());
        assert(d.last() == c);
        assert(crate::text::dec_digits_value(Seq::<char>::empty()) == Some(0nat));
    }
}

proof fn lemma_dec_parses(v: u32)
    ensures
        parse_u32_spec(trim(dec(v as nat))) == Some(v),
        forall|i: int| 0 <= i < dec(v as nat).len() ==> '0' <= #[trigger] dec(v as nat)[i] <= '9',
        dec(v as nat).len() > 0,
{
    let d = dec(v as nat);
    lemma_dec_digits(v as nat);
    assert('0' <= d[0] <= '9');
    assert('0' <= d[d.len() - 1] <= '9');
    lemma_digits_trimmed_ends(d);
}

/// A size written as decimal width and height with `,`, `x`, `X` or `×`
/// between them (as the probe reports the framebuffer's virtual size) reads
/// back as that size.
pub proof fn lemma_size_text_round_trip(w: u32, h: u32, sep: char)
    requires
        sep == ',' || sep == 'x' || sep == 'X' || sep == '×',
    ensures
        size_of_text(dec(w as nat) + seq![sep] + dec(h as nat)) == Ok::<(u32, u32), Seq<char>>((w, h)),
{
    lemma_dec_parses(w);
    lemma_dec_parses(h);
    let dw = dec(w as nat);
    let dh = dec(h as nat);
    let vs = dw + seq![sep] + dh;
    assert(vs[0] == dw[0]);
    assert(vs[vs.len() - 1] == dh[dh.len() - 1]);
    lemma_digits_trimmed_ends(vs);
    let n = trim(vs).map_values(|c: char| size_char(c));
    assert(n =~= dw + seq!['x'] + dh) by {
        assert forall|i: int| 0 <= i < n.len() implies n[i] == (dw + seq!['x'] + dh)[i] by {
            if i < dw.len() {
                assert(vs[i] == dw[i]);
            } else if i > dw.len() {
                assert(vs[i] == dh[i - dw.len() - 1]);
            }
        }
    }
    lemma_index_of_x(n, dw.len() as int);
    assert(n.take(dw.len() as int) =~= dw);
    let rest = n.skip(dw.len() + 1int);
    assert(rest =~= dh);
    lemma_index_of_x(rest, rest.len() as int);
    assert(rest.take(rest.len() as int) =~= dh);
}

proof fn lemma_digits_trimmed_ends(s: Seq<char>)
    requires
        s.len() > 0,
        '0' <= s[0] <= '9',
        '0' <= s[s.len() - 1] <= '9',
    ensures
        trim(s) == s,
{
    crate::text::lemma_lead_ws_unique(s, 0);
    assert(crate::text::trim_start(s) =~= s);
    crate::text::lemma_trail_ws_unique(s, 0);
    assert(crate::text::trim_end(s) =~= s);
}

fn find_x(n: &[char], from: usize) -> (r: usize)
    requires
        from <= n.len(),
    ensures
        from <= r <= n.len(),
        r - from == index_of_x(n@.skip(from as int)),
{
    let mut i = from;
    while i < n.len() && n[i] != 'x'
        invariant
            from <= i <= n.len(),
            forall|j: int| from <= j < i ==> #[trigger] n@[j] != 'x',
        decreases n.len() - i,
    {
        i = i + 1;
    }
    proof {
        let t = n@.skip(from as int);
        assert forall|j: int| 0 <= j < i - from implies #[trigger] t[j] != 'x' by {
            assert(t[j] == n@[j + from]);
        }
        if i < n.len() {
            assert(t[i - from] == n@[i as int]);
        }
        lemma_index_of_x(t, i - from);
    }
    i
}

/// Reads a framebuffer size written as `WIDTHxHEIGHT`.
pub fn parse_framebuffer_size(vs: &str) -> (r: Result<(u32, u32), String>)
    ensures
        match size_of_text(vs@) {
            Ok(s) => r is Ok && r->Ok_0 == s,
            Err(m) => r is Err && r->Err_0@ == m,
        },
{
    let t = trim_chars(chars_of(vs).as_slice());
    let mut n: Vec<char> = Vec::new();
    let mut i: usize = 0;
    while i < t.len()
        invariant
            0 <= i <= t.len(),
            n@ == t@.take(i as int).map_values(|c: char| size_char(c)),
        decreases t.len() - i,
    {
        let c = t[i];
        let m = if c == '×' || c == 'X' || c == ',' {
            'x'
        } else {
            c
        };
        n.push(m);
        i = i + 1;
        assert(n@ =~= t@.take(i as int).map_values(|c: char| size_char(c)));
    }
    assert(t@.take(t.len() as int) == t@);
    let ghost nv = n@;
    assert(nv.skip(0) == nv);
    let k = find_x(n.as_slice(), 0);
    let first = crate::text::slice_range(n.as_slice(), 0, k);
    assert(first@ == nv.take(k as int));
    let w = match parse_u32(trim_chars(first.as_slice()).as_slice()) {
        Some(w) => w,
        None => return Err(crate::text::concat("无法解析宽度: ", vs)),
    };
    if k >= n.len() {
        return Err(owned("无效分辨率格式"));
    }
    let k2 = find_x(n.as_slice(), k + 1);
    let second = crate::text::slice_range(n.as_slice(), k + 1, k2);
    assert(second@ == nv.skip(k + 1).take(k2 - (k + 1)));
    let h = match parse_u32(trim_chars(second.as_slice()).as_slice()) {
        Some(h) => h,
        None => return Err(crate::text::concat("无法解析高度: ", vs)),
    };
    Ok((w, h))
}

/// The framebuffer size from a probe of the board: its `VSIZE`.
pub fn detect_framebuffer_size(probe: DeviceProbeResult) -> (r: Result<(u32, u32), String>)
    ensures
        !probe.success ==> r is Err && r->Err_0@ == error_or(probe.error, "读取屏幕分辨率失败"@),
        probe.success && probe.virtual_size is None ==> r is Err && r->Err_0@
            == "未读取到 fb0 virtual_size"@,
        probe.success && probe.virtual_size is Some ==> match size_of_text(
            probe.virtual_size->0@,
        ) {
            Ok(s) => r is Ok && r->Ok_0 == s,
            Err(m) => r is Err && r->Err_0@ == m,
        },
{
    if !probe.success {
        return match probe.error {
            Some(e) => Err(e),
            None => Err(owned("读取屏幕分辨率失败")),
        };
    }
    match probe.virtual_size {
        Some(vs) => parse_framebuffer_size(vs.as_str()),
        None => Err(owned("未读取到 fb0 virtual_size")),
    }
}

// ---------------------------------------------------------------------------
// Logic patterns, text and the demo screen
// ---------------------------------------------------------------------------

/// The command that shows logic pattern `request.pattern` and its success
/// message; patterns above 39 do not exist.
pub fn logic_pattern_command(request: &LogicPatternRequest) -> (r: Result<
    (String, String),
    PatternResult,
>)
    ensures
        request.pattern > 39 ==> r is Err && !r->Err_0.success && r->Err_0.message@.len() == 0
            && r->Err_0.error is Some && r->Err_0.error->0@ == "逻辑图案编号必须在 0-39 之间"@,
        request.pattern <= 39 ==> r is Ok && r->Ok_0.0@ == "python3 /vismm/fbshow/logicPictureShow.py "@
            + dec(request.pattern as nat) && r->Ok_0.1@ == "已显示逻辑图案 "@ + dec(
            request.pattern as nat,
        ),
{
    if request.pattern > 39 {
        return Err(pattern_failure(owned("逻辑图案编号必须在 0-39 之间")));
    }
    let mut c = chars_of("python3 /vismm/fbshow/logicPictureShow.py ");
    push_dec(&mut c, request.pattern as u64);
    let mut m = chars_of("已显示逻辑图案 ");
    push_dec(&mut m, request.pattern as u64);
    Ok((string_of(c.as_slice()), string_of(m.as_slice())))
}

/// The arguments of the text script: the trimmed text, the subtitle (empty
/// by default) and the style (`clean` by default), each shell-quoted; blank
/// text is refused.
pub fn display_text_args(request: TextDisplayRequest) -> (r: Result<Vec<String>, PatternResult>)
    ensures
        trim(request.text@).len() == 0 ==> r is Err && !r->Err_0.success && r->Err_0.message@.len()
            == 0 && r->Err_0.error is Some && r->Err_0.error->0@ == "文字内容不能为空"@,
        trim(request.text@).len() > 0 ==> r is Ok && r->Ok_0@.len() == 3 && r->Ok_0@[0]@
            == crate::openclaw::shell_quoted(trim(request.text@)) && r->Ok_0@[1]@
            == crate::openclaw::shell_quoted(
            match request.subtitle {
                Some(s) => s@,
                None => Seq::<char>::empty(),
            },
        ) && r->Ok_0@[2]@ == crate::openclaw::shell_quoted(
            match request.style {
                Some(s) => s@,
                None => "clean"@,
            },
        ),
{
    let text = crate::text::trim_str(request.text.as_str());
    if chars_of(text.as_str()).len() == 0 {
        return Err(pattern_failure(owned("文字内容不能为空")));
    }
    let subtitle = match request.subtitle {
        Some(s) => s,
        None => String::new(),
    };
    let style = match request.style {
        Some(s) => s,
        None => owned("clean"),
    };
    let mut args: Vec<String> = Vec::new();
    args.push(crate::openclaw::shell_quote(text.as_str()));
    args.push(crate::openclaw::shell_quote(subtitle.as_str()));
    args.push(crate::openclaw::shell_quote(style.as_str()));
    Ok(args)
}

/// The arguments of the demo script: width and height in decimal.
pub fn demo_screen_args(width: u32, height: u32) -> (r: Vec<String>)
    ensures
        r@.len() == 2,
        r@[0]@ == dec(width as nat),
        r@[1]@ == dec(height as nat),
{
    let mut args: Vec<String> = Vec::new();
    args.push(crate::text::dec_string(width as u64));
    args.push(crate::text::dec_string(height as u64));
    args
}

} // verus!
