//! Files sent from the UI as base64, and the local image browser: names,
//! decoding, previews and the results shown to the user.
use base64::Engine;
use vstd::prelude::*;

use crate::adb::CommandOutput;
use crate::results::{
    GenericResult, ImageDisplayFromBase64Request, ImagePreviewResult, LocalImageInfo,
    LocalImagesResult, PatternResult,
};
use crate::text::{all_ws, chars_of, slice_range, concat, owned, push_str, string_of, to_lowercase, trim, trim_str, unicode_lowercase};
use crate::timing_decode::{from_utf8_lossy, utf8_lossy};

verus! {

// ---------------------------------------------------------------------------
// Base64
// ---------------------------------------------------------------------------

/// What the standard base64 engine's `decode` returns for the given input:
/// the decoded bytes, or the text of its decode error.
pub uninterp spec fn base64_standard_decode(input: Seq<u8>) -> Result<Seq<u8>, Seq<char>>;

/// The character of a 6-bit value in the standard base64 alphabet
/// (`A-Z`, `a-z`, `0-9`, `+`, `/`).
pub open spec fn base64_char(v: int) -> char {
    if v < 26 {
        (65 + v) as char
    } else if v < 52 {
        (71 + v) as char
    } else if v < 62 {
        (v - 4) as char
    } else if v == 62 {
        '+'
    } else {
        '/'
    }
}

/// Standard base64 with `=` padding (RFC 4648, section 4): each group of
/// three bytes becomes four characters of six bits each, high bits first; a
/// last group of one or two bytes is padded with `=` to four characters.
pub open spec fn base64_standard_encode(b: Seq<u8>) -> Seq<char>
    decreases b.len(),
{
    if b.len() == 0 {
        seq![]
    } else {
        let x = b[0] as int;
        let y = if b.len() > 1 { b[1] as int } else { 0 };
        let z = if b.len() > 2 { b[2] as int } else { 0 };
        let c0 = base64_char(x / 4);
        let c1 = base64_char((x % 4) * 16 + y / 16);
        let c2 = base64_char((y % 16) * 4 + z / 64);
        let c3 = base64_char(z % 64);
        if b.len() == 1 {
            seq![c0, c1, '=', '=']
        } else if b.len() == 2 {
            seq![c0, c1, c2, '=']
        } else {
            seq![c0, c1, c2, c3] + base64_standard_encode(b.subrange(3, b.len() as int))
        }
    }
}

/// `base64::engine::general_purpose::STANDARD.decode`: the decoded bytes, or
/// the error as its `Display` text. The contract names the result and
/// states nothing more of it.
#[verifier::external_body]
fn base64_decode(input: &[u8]) -> (r: Result<Vec<u8>, String>)
    ensures
        match base64_standard_decode(input@) {
            Ok(b) => r is Ok && r->Ok_0@ == b,
            Err(m) => r is Err && r->Err_0@ == m,
        },
{
    base64::engine::general_purpose::STANDARD.decode(input).map_err(|e| e.to_string())
}

/// `base64::engine::general_purpose::STANDARD.encode`: the standard
/// alphabet with `=` padding, as the engine's documentation gives it. It
/// panics when the encoded length overflows `usize`, which `requires` rules
/// out.
#[verifier::external_body]
fn base64_encode(bytes: &[u8]) -> (r: String)
    requires
        (bytes@.len() / 3) * 4 + (if bytes@.len() % 3 > 0 {
            4int
        } else {
            0int
        }) <= usize::MAX,
    ensures
        r@ == base64_standard_encode(bytes@),
{
    base64::engine::general_purpose::STANDARD.encode(bytes)
}

// ---------------------------------------------------------------------------
// Images sent as base64
// ---------------------------------------------------------------------------

/// The name of the temporary copy of an uploaded image: the trimmed file
/// name, or `input_image.bin` when it is blank.
pub fn upload_image_name(request: &ImageDisplayFromBase64Request) -> (r: String)
    ensures
        r@ == (if all_ws(request.filename@) {
            "input_image.bin"@
        } else {
            trim(request.filename@)
        }),
{
    let t = trim_str(request.filename.as_str());
    proof {
        crate::text::lemma_trim_empty(request.filename@);
    }
    if chars_of(t.as_str()).len() == 0 {
        owned("input_image.bin")
    } else {
        t
    }
}

/// The bytes of an uploaded image, or the result that reports that its
/// base64 text does not decode.
pub fn decode_image_base64(request: &ImageDisplayFromBase64Request) -> (r: Result<
    Vec<u8>,
    PatternResult,
>)
    ensures
        match base64_standard_decode(vstd::utf8::encode_utf8(request.base64_data@)) {
            Ok(b) => r is Ok && r->Ok_0@ == b,
            Err(m) => r is Err && !r->Err_0.success && r->Err_0.message@
                == "base64 image decode failed"@ && r->Err_0.error is Some && r->Err_0.error->0@
                == "[input_validation:BASE64_DECODE_FAILED] Base64 解码失败: "@ + m,
        },
{
    let bytes = request.base64_data.as_str().as_bytes();
    match base64_decode(bytes) {
        Ok(b) => Ok(b),
        Err(m) => Err(
            PatternResult {
                success: false,
                message: owned("base64 image decode failed"),
                error: Some(concat("[input_validation:BASE64_DECODE_FAILED] Base64 解码失败: ", m.as_str())),
            },
        ),
    }
}

/// The result when the temporary copy of an uploaded image could not be
/// written.
pub fn temp_image_write_failed(error: &str) -> (r: PatternResult)
    ensures
        !r.success,
        r.message@ == "temporary image write failed"@,
        r.error is Some && r.error->0@ == "[resource_prepare:TEMP_IMAGE_WRITE_FAILED] 写入临时图片失败: "@
            + error@,
{
    PatternResult {
        success: false,
        message: owned("temporary image write failed"),
        error: Some(concat("[resource_prepare:TEMP_IMAGE_WRITE_FAILED] 写入临时图片失败: ", error)),
    }
}

// ---------------------------------------------------------------------------
// Files uploaded to the board
// ---------------------------------------------------------------------------

/// A file sent as base64, to store at `remote_path` on the board.
pub struct UploadFileBase64Request {
    pub base64_data: String,
    pub remote_path: String,
}

/// The bytes of an uploaded file, or the result that reports that its
/// base64 text does not decode.
pub fn decode_upload(request: &UploadFileBase64Request) -> (r: Result<Vec<u8>, GenericResult>)
    ensures
        match base64_standard_decode(vstd::utf8::encode_utf8(request.base64_data@)) {
            Ok(b) => r is Ok && r->Ok_0@ == b,
            Err(m) => r is Err && !r->Err_0.success && r->Err_0.output@.len() == 0
                && r->Err_0.error is Some && r->Err_0.error->0@ == "Base64 解码失败: "@ + m,
        },
{
    match base64_decode(request.base64_data.as_str().as_bytes()) {
        Ok(b) => Ok(b),
        Err(m) => Err(
            GenericResult {
                success: false,
                output: String::new(),
                error: Some(concat("Base64 解码失败: ", m.as_str())),
            },
        ),
    }
}

/// `s` without its trailing slashes.
pub open spec fn trim_end_slashes(s: Seq<char>) -> Seq<char>
    decreases s.len(),
{
    if s.len() > 0 && s.last() == '/' {
        trim_end_slashes(s.drop_last())
    } else {
        s
    }
}

/// The position of the last slash in `s`, or -1 when it has none.
pub open spec fn last_slash(s: Seq<char>) -> int
    decreases s.len(),
{
    if s.len() == 0 {
        -1
    } else if s.last() == '/' {
        s.len() - 1
    } else {
        last_slash(s.drop_last())
    }
}

/// The directory that holds the board path `p`, created before an upload:
/// none for an empty path or the root alone; otherwise, with trailing
/// slashes dropped, the empty text when no slash is left, the root when the
/// only slashes lead the path, and else the text before the last slash
/// without its own trailing slashes.
pub open spec fn remote_parent(p: Seq<char>) -> Option<Seq<char>> {
    let t = trim_end_slashes(p);
    if t.len() == 0 {
        None
    } else {
        let i = last_slash(t);
        if i < 0 {
            Some(seq![])
        } else {
            let h = trim_end_slashes(t.subrange(0, i));
            if h.len() == 0 {
                Some("/"@)
            } else {
                Some(h)
            }
        }
    }
}

/// The length of `s[..n]` without its trailing slashes.
fn trimmed_end(s: &[char], n: usize) -> (r: usize)
    requires
        n <= s.len(),
    ensures
        r <= n,
        trim_end_slashes(s@.subrange(0, n as int)) == s@.subrange(0, r as int),
{
    let mut r = n;
    while r > 0 && s[r - 1] == '/'
        invariant
            r <= n <= s.len(),
            trim_end_slashes(s@.subrange(0, n as int)) == trim_end_slashes(s@.subrange(0, r as int)),
        decreases r,
    {
        assert(s@.subrange(0, r as int).drop_last() =~= s@.subrange(0, r - 1));
        r = r - 1;
    }
    r
}

/// The position of the last slash in `s[..n]`.
fn last_slash_in(s: &[char], n: usize) -> (r: Option<usize>)
    requires
        n <= s.len(),
    ensures
        match r {
            Some(i) => i < n && last_slash(s@.subrange(0, n as int)) == i,
            None => last_slash(s@.subrange(0, n as int)) == -1,
        },
{
    let mut i = n;
    while i > 0
        invariant
            i <= n <= s.len(),
            last_slash(s@.subrange(0, n as int)) == last_slash(s@.subrange(0, i as int)),
        decreases i,
    {
        if s[i - 1] == '/' {
            return Some(i - 1);
        }
        assert(s@.subrange(0, i as int).drop_last() =~= s@.subrange(0, i - 1));
        i = i - 1;
    }
    None
}

/// The directory to create on the board before pushing to `remote_path`.
pub fn upload_parent_dir(remote_path: &str) -> (r: Option<String>)
    ensures
        match remote_parent(remote_path@) {
            Some(d) => r is Some && r->0@ == d,
            None => r is None,
        },
{
    let s = chars_of(remote_path);
    let t = trimmed_end(s.as_slice(), s.len());
    assert(s@.subrange(0, s@.len() as int) =~= s@);
    if t == 0 {
        return None;
    }
    match last_slash_in(s.as_slice(), t) {
        None => Some(String::new()),
        Some(i) => {
            let h = trimmed_end(s.as_slice(), i);
            assert(s@.subrange(0, t as int).subrange(0, i as int) =~= s@.subrange(0, i as int));
            if h == 0 {
                Some(owned("/"))
            } else {
                Some(string_of(slice_range(s.as_slice(), 0, h).as_slice()))
            }
        },
    }
}

/// The result when the temporary copy of an upload could not be written.
pub fn upload_temp_write_failed(error: &str) -> (r: GenericResult)
    ensures
        !r.success,
        r.output@.len() == 0,
        r.error is Some && r.error->0@ == "写入临时文件失败: "@ + error@,
{
    GenericResult {
        success: false,
        output: String::new(),
        error: Some(concat("写入临时文件失败: ", error)),
    }
}

/// The result of pushing an upload: the push output, and on failure its
/// standard error (by default: the upload failed).
pub fn upload_push_result(run: Result<CommandOutput, String>) -> (r: GenericResult)
    ensures
        match run {
            Ok(o) => r.success == o.success && r.output@ == utf8_lossy(o.stdout@) && (o.success
                ==> r.error is None) && (!o.success ==> r.error is Some && r.error->0@ == (if utf8_lossy(
                o.stderr@,
            ).len() == 0 {
                "上传失败"@
            } else {
                utf8_lossy(o.stderr@)
            })),
            Err(e) => !r.success && r.output@.len() == 0 && r.error is Some && r.error->0@ == e@,
        },
{
    match run {
        Ok(o) => {
            let stdout = from_utf8_lossy(o.stdout.as_slice());
            if o.success {
                GenericResult { success: true, output: stdout, error: None }
            } else {
                let stderr = from_utf8_lossy(o.stderr.as_slice());
                let error = if chars_of(stderr.as_str()).len() == 0 {
                    owned("上传失败")
                } else {
                    stderr
                };
                GenericResult { success: false, output: stdout, error: Some(error) }
            }
        },
        Err(e) => GenericResult { success: false, output: String::new(), error: Some(e) },
    }
}

// ---------------------------------------------------------------------------
// Local image browser
// ---------------------------------------------------------------------------

/// Bytes whose standard base64 encoding fits in memory.
pub open spec fn encodable(len: nat) -> bool {
    (len / 3) * 4 + (if len % 3 > 0 {
        4int
    } else {
        0int
    }) <= usize::MAX
}

/// `data:image/png;base64,` followed by the encoding of the PNG bytes.
pub fn png_data_url(png: &[u8]) -> (r: String)
    requires
        encodable(png@.len()),
    ensures
        r@ == "data:image/png;base64,"@ + base64_standard_encode(png@),
{
    let encoded = base64_encode(png);
    concat("data:image/png;base64,", encoded.as_str())
}

/// How making a preview ended.
pub enum PreviewOutcome {
    /// The path is not a file.
    NotAFile,
    /// The image could not be read.
    OpenFailed(String),
    /// The thumbnail could not be encoded as PNG.
    EncodeFailed { width: u32, height: u32, error: String },
    /// The image's size and its thumbnail as PNG bytes.
    Encoded { width: u32, height: u32, png: Vec<u8> },
}

/// The preview shown for a local image, by how making it ended.
pub fn image_preview_result(outcome: PreviewOutcome) -> (r: ImagePreviewResult)
    requires
        outcome matches PreviewOutcome::Encoded { png, .. } ==> encodable(png@.len()),
    ensures
        match outcome {
            PreviewOutcome::NotAFile => !r.success && r.data_url is None && r.width is None
                && r.height is None && r.error is Some && r.error->0@ == "图片不存在"@,
            PreviewOutcome::OpenFailed(e) => !r.success && r.data_url is None && r.width is None
                && r.height is None && r.error is Some && r.error->0@ == "读取图片失败: "@ + e@,
            PreviewOutcome::EncodeFailed { width, height, error } => !r.success && r.data_url
                is None && r.width == Some(width) && r.height == Some(height) && r.error is Some
                && r.error->0@ == "生成预览失败: "@ + error@,
            PreviewOutcome::Encoded { width, height, png } => r.success && r.data_url is Some
                && r.data_url->0@ == "data:image/png;base64,"@ + base64_standard_encode(png@)
                && r.width == Some(width) && r.height == Some(height) && r.error is None,
        },
{
    match outcome {
        PreviewOutcome::NotAFile => ImagePreviewResult {
            success: false,
            data_url: None,
            width: None,
            height: None,
            error: Some(owned("图片不存在")),
        },
        PreviewOutcome::OpenFailed(e) => ImagePreviewResult {
            success: false,
            data_url: None,
            width: None,
            height: None,
            error: Some(concat("读取图片失败: ", e.as_str())),
        },
        PreviewOutcome::EncodeFailed { width, height, error } => ImagePreviewResult {
            success: false,
            data_url: None,
            width: Some(width),
            height: Some(height),
            error: Some(concat("生成预览失败: ", error.as_str())),
        },
        PreviewOutcome::Encoded { width, height, png } => ImagePreviewResult {
            success: true,
            data_url: Some(png_data_url(png.as_slice())),
            width: Some(width),
            height: Some(height),
            error: None,
        },
    }
}

/// What decoding `bytes` as the image file at `path` (its format taken from
/// the path's extension, as `image::open` takes it), scaling it to fit in
/// `max_width` x `max_height` with `thumbnail` and writing that as PNG gives:
/// the decode error's text, or the image's width and height with the PNG
/// bytes or the PNG encoder's error text.
pub uninterp spec fn png_preview_of(bytes: Seq<u8>, path: Seq<char>, max_width: u32, max_height: u32) -> Result<
    (u32, u32, Result<Seq<u8>, Seq<char>>),
    Seq<char>,
>;

/// Decodes `bytes` with the `image` crate as the file at `path` would be
/// decoded by `image::open` (an `ImageReader` whose format is
/// `ImageFormat::from_path`), takes `DynamicImage::thumbnail` and writes it
/// with `write_to` as PNG. The contract names the result; errors come back as
/// their `Display` text.
#[verifier::external_body]
fn png_preview(bytes: &[u8], path: &str, max_width: u32, max_height: u32) -> (r: Result<
    (u32, u32, Result<Vec<u8>, String>),
    String,
>)
    ensures
        match png_preview_of(bytes@, path@, max_width, max_height) {
            Ok((w, h, Ok(p))) => r matches Ok((rw, rh, Ok(rp))) && rw == w && rh == h && rp@ == p,
            Ok((w, h, Err(m))) => r matches Ok((rw, rh, Err(rm))) && rw == w && rh == h && rm@ == m,
            Err(m) => r matches Err(rm) && rm@ == m,
        },
{
    let mut reader = image::ImageReader::new(std::io::Cursor::new(bytes));
    match image::ImageFormat::from_path(path) {
        Ok(format) => reader.set_format(format),
        Err(e) => return Err(e.to_string()),
    }
    let image = reader.decode().map_err(|e| e.to_string())?;
    let mut png: Vec<u8> = Vec::new();
    let written = image.thumbnail(max_width, max_height).write_to(std::io::Cursor::new(&mut png), image::ImageFormat::Png);
    match written {
        Ok(()) => Ok((image.width(), image.height(), Ok(png))),
        Err(e) => Ok((image.width(), image.height(), Err(e.to_string()))),
    }
}

/// What the host gave for the image file to preview.
pub enum PreviewSource {
    /// The path is not a file.
    NotAFile,
    /// The file could not be read; the error's text.
    ReadFailed(String),
    /// The file's bytes.
    Read(Vec<u8>),
}

/// The fields of a preview: success, data URL, width, height and error.
pub open spec fn preview_view(r: ImagePreviewResult) -> (bool, Option<Seq<char>>, Option<u32>, Option<u32>, Option<Seq<char>>) {
    (r.success, opt_text(r.data_url), r.width, r.height, opt_text(r.error))
}

/// The view of an optional text.
pub open spec fn opt_text(o: Option<String>) -> Option<Seq<char>> {
    match o {
        Some(s) => Some(s@),
        None => None,
    }
}

/// The preview of the file at `path`, as its fields, with the thumbnail
/// fitted in 420 x 300; none when the PNG is too long for its base64 text
/// to fit in memory.
pub open spec fn expected_preview(path: Seq<char>, source: PreviewSource) -> Option<
    (bool, Option<Seq<char>>, Option<u32>, Option<u32>, Option<Seq<char>>),
> {
    match source {
        PreviewSource::NotAFile => Some((false, None, None, None, Some("图片不存在"@))),
        PreviewSource::ReadFailed(e) => Some((false, None, None, None, Some("读取图片失败: "@ + e@))),
        PreviewSource::Read(bytes) => match png_preview_of(bytes@, path, 420, 300) {
            Err(m) => Some((false, None, None, None, Some("读取图片失败: "@ + m))),
            Ok((w, h, Err(m))) => Some((false, None, Some(w), Some(h), Some("生成预览失败: "@ + m))),
            Ok((w, h, Ok(p))) => if encodable(p.len()) {
                Some((true, Some("data:image/png;base64,"@ + base64_standard_encode(p)), Some(w), Some(h), None))
            } else {
                None
            },
        },
    }
}

/// The preview of the local image at `image_path`: a PNG thumbnail that
/// fits in 420 x 300, as a data URL, with the image's size; or the error.
/// None when the PNG is too long for its base64 text to fit in memory,
/// where encoding it panics.
pub fn create_image_preview(image_path: &str, source: PreviewSource) -> (r: Option<ImagePreviewResult>)
    ensures
        match r {
            Some(p) => expected_preview(image_path@, source) == Some(preview_view(p)),
            None => expected_preview(image_path@, source) is None,
        },
{
    let outcome = match source {
        PreviewSource::NotAFile => PreviewOutcome::NotAFile,
        PreviewSource::ReadFailed(e) => PreviewOutcome::OpenFailed(e),
        PreviewSource::Read(bytes) => match png_preview(bytes.as_slice(), image_path, 420, 300) {
            Err(m) => PreviewOutcome::OpenFailed(m),
            Ok((width, height, Err(error))) => PreviewOutcome::EncodeFailed { width, height, error },
            Ok((width, height, Ok(png))) => {
                let groups = png.len() / 3;
                if groups > usize::MAX / 4 {
                    return None;
                }
                let tail: usize = if png.len() % 3 > 0 {
                    4
                } else {
                    0
                };
                if tail > usize::MAX - groups * 4 {
                    return None;
                }
                PreviewOutcome::Encoded { width, height, png }
            },
        },
    };
    Some(image_preview_result(outcome))
}

/// The image extensions the browser lists, in lower case.
pub open spec fn is_listed_ext(ext: Seq<char>) -> bool {
    ext == "bmp"@ || ext == "png"@ || ext == "jpg"@ || ext == "jpeg"@ || ext == "webp"@
}

/// The entry of a file in the image browser, given its extension in lower
/// case: files with a listed image extension, with that extension after a
/// dot.
pub fn image_info_by_lowered_ext(
    name: String,
    path: String,
    lowered_ext: &str,
    modified_ms: Option<u128>,
) -> (r: Option<LocalImageInfo>)
    ensures
        is_listed_ext(lowered_ext@) ==> r is Some && r->0.name == name && r->0.path == path
            && r->0.ext@ == "."@ + lowered_ext@ && r->0.modified_ms == modified_ms,
        !is_listed_ext(lowered_ext@) ==> r is None,
{
    let l = chars_of(lowered_ext);
    let s = l.as_slice();
    let listed = crate::text::chars_eq_str(s, "bmp") || crate::text::chars_eq_str(s, "png")
        || crate::text::chars_eq_str(s, "jpg") || crate::text::chars_eq_str(s, "jpeg")
        || crate::text::chars_eq_str(s, "webp");
    if !listed {
        return None;
    }
    Some(LocalImageInfo { name, path, ext: concat(".", lowered_ext), modified_ms })
}

/// The entry of a file in the image browser: files whose lower-case
/// extension is a listed image extension, with that extension after a dot.
pub fn local_image_info(name: String, path: String, extension: &str, modified_ms: Option<u128>) -> (r:
    Option<LocalImageInfo>)
    ensures
        is_listed_ext(unicode_lowercase(extension@)) ==> r is Some && r->0.name == name
            && r->0.path == path && r->0.ext@ == "."@ + unicode_lowercase(extension@)
            && r->0.modified_ms == modified_ms,
        !is_listed_ext(unicode_lowercase(extension@)) ==> r is None,
{
    let lower = to_lowercase(extension);
    image_info_by_lowered_ext(name, path, lower.as_str(), modified_ms)
}

/// How listing a directory ended.
pub enum ImageDirOutcome {
    /// The path is not an accessible directory.
    NotADirectory,
    /// The directory could not be read.
    ReadFailed(String),
    /// The entries of the listed images.
    Listed(Vec<LocalImageInfo>),
}

/// The image browser's result for a directory.
pub fn list_images_in_directory(outcome: ImageDirOutcome) -> (r: LocalImagesResult)
    ensures
        match outcome {
            ImageDirOutcome::NotADirectory => !r.success && r.images@.len() == 0 && r.error is Some
                && r.error->0@ == "目录不存在或不可访问"@,
            ImageDirOutcome::ReadFailed(e) => !r.success && r.images@.len() == 0 && r.error is Some
                && r.error->0@ == "读取目录失败: "@ + e@,
            ImageDirOutcome::Listed(v) => r.success && r.images == v && r.error is None,
        },
{
    match outcome {
        ImageDirOutcome::NotADirectory => LocalImagesResult {
            success: false,
            images: Vec::new(),
            error: Some(owned("目录不存在或不可访问")),
        },
        ImageDirOutcome::ReadFailed(e) => LocalImagesResult {
            success: false,
            images: Vec::new(),
            error: Some(concat("读取目录失败: ", e.as_str())),
        },
        ImageDirOutcome::Listed(v) => LocalImagesResult { success: true, images: v, error: None },
    }
}

} // verus!
