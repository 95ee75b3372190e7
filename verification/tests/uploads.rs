use base64::Engine;
use big8k::adb::CommandOutput;
use big8k::results::{ImageDisplayFromBase64Request, LocalImageInfo};
use big8k::uploads::{
    create_image_preview, image_preview_result, decode_image_base64, image_info_by_lowered_ext, decode_upload, list_images_in_directory,
    local_image_info, png_data_url, temp_image_write_failed, upload_image_name,
    upload_parent_dir, upload_push_result, upload_temp_write_failed, ImageDirOutcome, PreviewOutcome, PreviewSource,
    UploadFileBase64Request,
};

fn s(x: &str) -> String {
    x.to_string()
}

fn image_request(filename: &str, data: &str) -> ImageDisplayFromBase64Request {
    ImageDisplayFromBase64Request { filename: s(filename), base64_data: s(data), remote_name: None }
}

#[test]
fn base64_images_are_decoded() {
    assert_eq!(decode_image_base64(&image_request("a.png", "aGVsbG8=")).ok().unwrap(), b"hello".to_vec());
    let e = decode_image_base64(&image_request("a.png", "!!!!")).err().unwrap();
    assert!(!e.success);
    assert_eq!(e.message, "base64 image decode failed");
    assert_eq!(
        e.error.as_deref(),
        Some("[input_validation:BASE64_DECODE_FAILED] Base64 解码失败: Invalid symbol 33, offset 0.")
    );
    assert_eq!(upload_image_name(&image_request("  pic.bmp ", "")), "pic.bmp");
    assert_eq!(upload_image_name(&image_request(" ", "")), "input_image.bin");
    assert_eq!(
        temp_image_write_failed("denied").error.as_deref(),
        Some("[resource_prepare:TEMP_IMAGE_WRITE_FAILED] 写入临时图片失败: denied")
    );
}

#[test]
fn uploaded_files_are_decoded_and_pushed() {
    let req = UploadFileBase64Request { base64_data: s("AAEC"), remote_path: s("/tmp/x") };
    assert_eq!(decode_upload(&req).ok().unwrap(), vec![0u8, 1, 2]);
    let bad = UploadFileBase64Request { base64_data: s("AAE"), remote_path: s("/tmp/x") };
    assert_eq!(decode_upload(&bad).err().unwrap().error.as_deref(), Some("Base64 解码失败: Invalid padding"));
    assert_eq!(upload_temp_write_failed("full").error.as_deref(), Some("写入临时文件失败: full"));
    let r = upload_push_result(Ok(CommandOutput { success: true, stdout: b"1 file pushed".to_vec(), stderr: vec![] }));
    assert!(r.success && r.error.is_none());
    assert_eq!(r.output, "1 file pushed");
    let r = upload_push_result(Ok(CommandOutput { success: false, stdout: vec![], stderr: vec![] }));
    assert_eq!(r.error.as_deref(), Some("上传失败"));
    let r = upload_push_result(Err(s("no adb")));
    assert_eq!(r.error.as_deref(), Some("no adb"));
}

#[test]
fn previews_are_png_data_urls() {
    assert_eq!(png_data_url(b"hello"), "data:image/png;base64,aGVsbG8=");
    let r = image_preview_result(PreviewOutcome::Encoded { width: 640, height: 480, png: b"hi".to_vec() });
    assert!(r.success);
    assert_eq!(r.data_url.as_deref(), Some("data:image/png;base64,aGk="));
    assert_eq!((r.width, r.height), (Some(640), Some(480)));
    let r = image_preview_result(PreviewOutcome::NotAFile);
    assert_eq!(r.error.as_deref(), Some("图片不存在"));
    let r = image_preview_result(PreviewOutcome::OpenFailed(s("bad header")));
    assert_eq!(r.error.as_deref(), Some("读取图片失败: bad header"));
    let r = image_preview_result(PreviewOutcome::EncodeFailed { width: 1, height: 2, error: s("e") });
    assert_eq!((r.width, r.height, r.error.as_deref()), (Some(1), Some(2), Some("生成预览失败: e")));
}

#[test]
fn only_image_files_are_listed() {
    let info = local_image_info(s("a.JPG"), s("/d/a.JPG"), "JPG", Some(5)).unwrap();
    assert_eq!(info.ext, ".jpg");
    assert_eq!(info.modified_ms, Some(5));
    assert!(local_image_info(s("a.txt"), s("/d/a.txt"), "txt", None).is_none());
    assert!(local_image_info(s("a.webp"), s("/d/a.webp"), "webp", None).is_some());
    let listed = vec![LocalImageInfo { name: s("a"), path: s("/a"), ext: s(".png"), modified_ms: None }];
    let r = list_images_in_directory(ImageDirOutcome::Listed(listed));
    assert!(r.success && r.images.len() == 1);
    let r = list_images_in_directory(ImageDirOutcome::NotADirectory);
    assert_eq!(r.error.as_deref(), Some("目录不存在或不可访问"));
    let r = list_images_in_directory(ImageDirOutcome::ReadFailed(s("eacces")));
    assert_eq!(r.error.as_deref(), Some("读取目录失败: eacces"));
}

#[test]
fn image_entries_from_lower_case_extensions() {
    let info = image_info_by_lowered_ext(s("a.jpeg"), s("/d/a.jpeg"), "jpeg", None).unwrap();
    assert_eq!(info.ext, ".jpeg");
    assert!(image_info_by_lowered_ext(s("a.PNG"), s("/d/a.PNG"), "PNG", None).is_none());
    assert!(image_info_by_lowered_ext(s("a.gif"), s("/d/a.gif"), "gif", None).is_none());
}

#[test]
fn previews_use_the_standard_base64_alphabet() {
    assert_eq!(png_data_url(&[0x68, 0x69, 0x21, 0x3f, 0xff]), "data:image/png;base64,aGkhP/8=");
    assert_eq!(png_data_url(&[0xfb, 0xef]), "data:image/png;base64,++8=");
    assert_eq!(png_data_url(&[]), "data:image/png;base64,");
    assert_eq!(png_data_url(&[0, 0, 0]), "data:image/png;base64,AAAA");
}

#[test]
fn uploads_create_the_parent_directory_first() {
    let p = |x: &str| upload_parent_dir(x);
    assert_eq!(p("/data/local/tmp/a.bin").as_deref(), Some("/data/local/tmp"));
    assert_eq!(p("/vismm/fbshow/bmp_online//pic.bmp").as_deref(), Some("/vismm/fbshow/bmp_online"));
    assert_eq!(p("/data/dir/").as_deref(), Some("/data"));
    assert_eq!(p("/a.bin").as_deref(), Some("/"));
    assert_eq!(p("a.bin").as_deref(), Some(""));
    assert_eq!(p("rel/a.bin").as_deref(), Some("rel"));
    assert_eq!(p("/"), None);
    assert_eq!(p(""), None);
}

fn encoded(width: u32, height: u32, format: image::ImageFormat) -> Vec<u8> {
    let picture = image::DynamicImage::ImageRgb8(image::RgbImage::new(width, height));
    let mut bytes = Vec::new();
    picture.write_to(std::io::Cursor::new(&mut bytes), format).unwrap();
    bytes
}

fn thumbnail_size(data_url: &str) -> (u32, u32) {
    let b64 = data_url.strip_prefix("data:image/png;base64,").unwrap();
    let png = base64::engine::general_purpose::STANDARD.decode(b64).unwrap();
    let thumb = image::load_from_memory_with_format(&png, image::ImageFormat::Png).unwrap();
    (thumb.width(), thumb.height())
}

#[test]
fn local_images_are_previewed_as_png_thumbnails() {
    let png = encoded(840, 600, image::ImageFormat::Png);
    let r = create_image_preview("/pics/a.png", PreviewSource::Read(png)).unwrap();
    assert!(r.success && r.error.is_none());
    assert_eq!((r.width, r.height), (Some(840), Some(600)));
    assert_eq!(thumbnail_size(r.data_url.as_deref().unwrap()), (420, 300));
    let bmp = encoded(100, 50, image::ImageFormat::Bmp);
    let r = create_image_preview("/pics/b.BMP", PreviewSource::Read(bmp)).unwrap();
    assert!(r.success);
    assert_eq!((r.width, r.height), (Some(100), Some(50)));
    assert_eq!(thumbnail_size(r.data_url.as_deref().unwrap()), (420, 210));
}

#[test]
fn local_image_preview_failures() {
    let r = create_image_preview("/pics/none.png", PreviewSource::NotAFile).unwrap();
    assert!(!r.success && r.data_url.is_none() && r.width.is_none());
    assert_eq!(r.error.as_deref(), Some("图片不存在"));
    let r = create_image_preview("/pics/a.png", PreviewSource::ReadFailed(s("denied"))).unwrap();
    assert_eq!(r.error.as_deref(), Some("读取图片失败: denied"));
    let r = create_image_preview("/pics/a.png", PreviewSource::Read(b"not an image".to_vec())).unwrap();
    assert!(!r.success && r.width.is_none());
    assert!(r.error.as_deref().unwrap().starts_with("读取图片失败: "));
    let png = encoded(4, 4, image::ImageFormat::Png);
    let r = create_image_preview("/pics/notes.txt", PreviewSource::Read(png)).unwrap();
    assert!(!r.success);
    assert!(r.error.as_deref().unwrap().starts_with("读取图片失败: "));
}
