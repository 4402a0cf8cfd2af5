use image_depth_server::error::AppError;
use image_depth_server::postprocess::{encode_data_url, gray_to_data_url, GrayPixels};
use image_depth_server::preprocess::{decode_image, decoded_image, pad_to_canvas, prepare_image, PreprocessMeta, RgbPixels};

use base64::Engine;
use image::ImageEncoder;

fn png_of_rgb(w: u32, h: u32) -> (Vec<u8>, Vec<u8>) {
    let mut raw = Vec::new();
    for y in 0..h {
        for x in 0..w {
            raw.push((x * 40) as u8);
            raw.push((y * 60) as u8);
            raw.push(200);
        }
    }
    let mut png = Vec::new();
    image::codecs::png::PngEncoder::new(&mut png)
        .write_image(&raw, w, h, image::ExtendedColorType::Rgb8)
        .unwrap();
    (png, raw)
}

fn meta(ow: u32, oh: u32, tw: u32, th: u32, iw: u32, ih: u32) -> PreprocessMeta {
    PreprocessMeta {
        output_width: ow,
        output_height: oh,
        target_width: tw,
        target_height: th,
        infer_width: iw,
        infer_height: ih,
    }
}

#[test]
fn pad_places_image_top_left_on_black() {
    let img = RgbPixels { width: 1, height: 2, data: vec![1, 2, 3, 4, 5, 6] };
    let out = pad_to_canvas(&img, 2, 2);
    assert_eq!((out.width, out.height), (2, 2));
    assert_eq!(out.data, vec![1, 2, 3, 0, 0, 0, 4, 5, 6, 0, 0, 0]);
}

#[test]
fn data_url_of_gray_image() {
    let gray = GrayPixels { width: 2, height: 2, data: vec![0, 85, 170, 255] };
    let m = meta(2, 2, 4, 4, 2, 2);
    let url = gray_to_data_url(&gray, &m).unwrap();
    let mut png = Vec::new();
    image::codecs::png::PngEncoder::new(&mut png)
        .write_image(&[0, 85, 170, 255], 2, 2, image::ExtendedColorType::L8)
        .unwrap();
    let expected = format!("data:image/png;base64,{}", base64::engine::general_purpose::STANDARD.encode(&png));
    assert_eq!(url, expected);
    assert!(url.starts_with("data:image/png;base64,iVBORw0KGgo"));
}

#[test]
fn data_url_resizes_to_output_size() {
    let gray = GrayPixels { width: 2, height: 1, data: vec![10, 20] };
    let m = meta(4, 2, 4, 4, 2, 1);
    let url = gray_to_data_url(&gray, &m).unwrap();
    let src: image::ImageBuffer<image::Luma<u8>, Vec<u8>> = image::ImageBuffer::from_raw(2, 1, vec![10, 20]).unwrap();
    let resized = image::imageops::resize(&src, 4, 2, image::imageops::FilterType::CatmullRom).into_raw();
    let mut png = Vec::new();
    image::codecs::png::PngEncoder::new(&mut png)
        .write_image(&resized, 4, 2, image::ExtendedColorType::L8)
        .unwrap();
    let expected = format!("data:image/png;base64,{}", base64::engine::general_purpose::STANDARD.encode(&png));
    assert_eq!(url, expected);
}

#[test]
fn data_url_length_follows_base64_groups() {
    let gray = GrayPixels { width: 3, height: 1, data: vec![1, 2, 3] };
    let m = meta(3, 1, 3, 3, 3, 1);
    let url = gray_to_data_url(&gray, &m).unwrap();
    let mut png = Vec::new();
    image::codecs::png::PngEncoder::new(&mut png)
        .write_image(&[1, 2, 3], 3, 1, image::ExtendedColorType::L8)
        .unwrap();
    let prefix = "data:image/png;base64,";
    assert_eq!(url.len(), prefix.len() + (png.len() + 2) / 3 * 4);
}

#[test]
fn decode_refuses_zero_sizes_before_decoding() {
    let (png, _) = png_of_rgb(2, 2);
    for (tw, th, max) in [(0, 518, 1024), (518, 0, 1024), (518, 518, 0), (0, u32::MAX, u32::MAX)] {
        match decode_image(&png, tw, th, max) {
            Err(AppError::Internal(m)) => assert_eq!(m, "图片处理尺寸必须大于 0"),
            _ => panic!("expected an internal error"),
        }
    }
}

#[test]
fn decode_refuses_garbage() {
    for (th, max) in [(518, 1024), (u32::MAX, u32::MAX)] {
        match decode_image(b"not an image", 518, th, max) {
            Err(AppError::ImageDecodeFailed(m)) => assert!(m.starts_with("图片解码失败: ")),
            _ => panic!("expected a decode error"),
        }
    }
}

#[test]
fn decode_gives_rgb_pixels() {
    let (png, raw) = png_of_rgb(3, 2);
    let img = decode_image(&png, 518, 518, 1024).unwrap();
    assert_eq!((img.width, img.height), (3, 2));
    assert_eq!(img.data, raw);
}

#[test]
fn prepare_scales_and_pads() {
    // A 2x1 image into a 4x4 target: scaled to 4x2 and padded below.
    let (png, raw) = png_of_rgb(2, 1);
    let img = decode_image(&png, 4, 4, 1024).unwrap();
    let out = prepare_image(img, meta(2, 1, 4, 4, 4, 2));
    assert_eq!(out.meta, meta(2, 1, 4, 4, 4, 2));
    assert_eq!((out.padded.width, out.padded.height), (4, 4));
    assert_eq!(out.padded.data.len(), 4 * 4 * 3);
    let src: image::ImageBuffer<image::Rgb<u8>, Vec<u8>> = image::ImageBuffer::from_raw(2, 1, raw).unwrap();
    let resized = image::imageops::resize(&src, 4, 2, image::imageops::FilterType::Lanczos3).into_raw();
    assert_eq!(&out.padded.data[..24], &resized[..]);
    assert!(out.padded.data[24..].iter().all(|b| *b == 0));
}

#[test]
fn prepare_limits_output_before_scaling() {
    // A 4x2 image limited to 2x1, then fitted into a 2x2 target as 2x1.
    let (png, raw) = png_of_rgb(4, 2);
    let img = decode_image(&png, 2, 2, 2).unwrap();
    let out = prepare_image(img, meta(2, 1, 2, 2, 2, 1));
    let src: image::ImageBuffer<image::Rgb<u8>, Vec<u8>> = image::ImageBuffer::from_raw(4, 2, raw).unwrap();
    let small = image::imageops::resize(&src, 2, 1, image::imageops::FilterType::Lanczos3);
    let again = image::imageops::resize(&small, 2, 1, image::imageops::FilterType::Lanczos3).into_raw();
    assert_eq!(&out.padded.data[..6], &again[..]);
    assert!(out.padded.data[6..].iter().all(|b| *b == 0));
}

#[test]
fn prepare_without_resizing_keeps_pixels() {
    let (png, raw) = png_of_rgb(3, 2);
    let img = decode_image(&png, 3, 2, 1024).unwrap();
    let out = prepare_image(img, meta(3, 2, 3, 2, 3, 2));
    assert_eq!(out.padded.data, raw);
}

#[test]
fn decoded_answer_is_trimmed_to_its_pixels() {
    let img = decoded_image(Ok((2, 1, vec![1, 2, 3, 4, 5, 6, 7, 8]))).unwrap();
    assert_eq!((img.width, img.height), (2, 1));
    assert_eq!(img.data, vec![1, 2, 3, 4, 5, 6]);
}

#[test]
fn decoded_answer_without_pixels_is_refused() {
    match decoded_image(Ok((0, 5, vec![]))) {
        Err(AppError::ImageDecodeFailed(m)) => assert_eq!(m, "图片尺寸为空"),
        _ => panic!("expected an empty-image error"),
    }
}

#[test]
fn decoder_error_is_named_in_the_message() {
    let err = image::load_from_memory(b"xyz").unwrap_err();
    let text = err.to_string();
    match decoded_image(Err(err)) {
        Err(AppError::ImageDecodeFailed(m)) => assert_eq!(m, format!("图片解码失败: {text}")),
        _ => panic!("expected a decode error"),
    }
}

#[test]
fn data_url_of_given_pixels() {
    let url = encode_data_url(2, 1, &[7, 9]).unwrap();
    let mut png = Vec::new();
    image::codecs::png::PngEncoder::new(&mut png)
        .write_image(&[7, 9], 2, 1, image::ExtendedColorType::L8)
        .unwrap();
    assert_eq!(url, format!("data:image/png;base64,{}", base64::engine::general_purpose::STANDARD.encode(&png)));
}

#[test]
fn png_error_is_named_in_the_message() {
    match encode_data_url(0, 0, &[]) {
        Err(AppError::Internal(m)) => assert!(m.starts_with("PNG 编码失败: ")),
        _ => panic!("expected a PNG error"),
    }
}

#[test]
fn pad_to_zero_width_is_empty() {
    let img = RgbPixels { width: 1, height: 1, data: vec![1, 2, 3] };
    let out = pad_to_canvas(&img, 0, 5);
    assert!(out.data.is_empty());
}
