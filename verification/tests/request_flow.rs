use image_depth_server::cache::{make_key, DepthEntry};
use image_depth_server::config::Config;
use image_depth_server::download::COVER_SIZE;
use image_depth_server::error::{AppError, ErrorKind};
use image_depth_server::postprocess::GrayPixels;
use image_depth_server::preprocess::PreprocessMeta;
use image_depth_server::routes::{check_hash, DepthAction, DepthEvent, DepthPhase, DepthRequest};

use image::ImageEncoder;

fn config() -> Config {
    Config {
        port: 7860,
        model_path: "./model_quantized.onnx".to_string(),
        cache_dir: "./cache".to_string(),
        download_timeout_secs: 10,
        max_download_bytes: 5 * 1024 * 1024,
        max_image_size: 1024,
        target_size: 518,
        hash_digits: 20,
        infer_concurrency: 1,
    }
}

const HASH: &str = "20190917112902491378";
const FP: &str = "0123456789abcdef";

fn entry(url: &str) -> DepthEntry {
    DepthEntry {
        hash: HASH.to_string(),
        width: 400,
        height: 400,
        data_url: url.to_string(),
        created_at: 1793376000000,
    }
}

fn planned() -> PreprocessMeta {
    PreprocessMeta {
        output_width: 4,
        output_height: 2,
        target_width: 8,
        target_height: 8,
        infer_width: 8,
        infer_height: 4,
    }
}

fn small_png() -> Vec<u8> {
    let raw: Vec<u8> = (0..(4 * 2 * 3)).map(|i| (i * 10) as u8).collect();
    let mut png = Vec::new();
    image::codecs::png::PngEncoder::new(&mut png)
        .write_image(&raw, 4, 2, image::ExtendedColorType::Rgb8)
        .unwrap();
    png
}

#[test]
fn hash_must_have_the_configured_number_of_digits() {
    assert!(check_hash(HASH, 20).is_ok());
    let e = check_hash("2019091711290249137", 20).unwrap_err();
    assert_eq!(e.error_kind(), ErrorKind::InvalidHash);
    assert_eq!(e.message(), "hash 必须是 20 位数字");
    assert!(check_hash("2019091711290249137a", 20).is_err());
    assert!(check_hash("", 0).is_ok());
}

#[test]
fn hash_with_non_ascii_digits_is_refused() {
    // Full-width digits are not ASCII digits, and take three bytes each.
    assert!(check_hash("１２３４５６７８", 24).is_err());
    assert!(check_hash("１２３４５６７８", 8).is_err());
}

#[test]
fn invalid_hash_is_answered_without_outside_work() {
    let (req, action) = DepthRequest::new("123".to_string(), &config(), FP, 518, 518);
    assert_eq!(req.phase, DepthPhase::Done);
    match action {
        DepthAction::Reply(Err(AppError::InvalidHash(m))) => assert_eq!(m, "hash 必须是 20 位数字"),
        _ => panic!("expected an invalid hash reply"),
    }
}

#[test]
fn valid_hash_reads_the_cache_first() {
    let (req, action) = DepthRequest::new(HASH.to_string(), &config(), FP, 518, 518);
    assert_eq!(req.phase, DepthPhase::AwaitCache);
    match action {
        DepthAction::ReadCache(k) => {
            assert_eq!(COVER_SIZE, 400);
            assert_eq!(k, make_key(HASH, FP, COVER_SIZE, 1024));
            assert_eq!(k, "v2:0123456789abcdef:cover-400:max-1024:20190917112902491378");
        },
        _ => panic!("expected a cache read"),
    }
}

#[test]
fn cache_hit_is_answered_unchanged() {
    let (mut req, _) = DepthRequest::new(HASH.to_string(), &config(), FP, 518, 518);
    let action = req.step(DepthEvent::CacheRead(Ok(Some(entry("data:image/png;base64,AAAA")))));
    assert_eq!(req.phase, DepthPhase::Done);
    match action {
        DepthAction::Reply(Ok(e)) => {
            assert_eq!(e.data_url, "data:image/png;base64,AAAA");
            assert_eq!(e.created_at, 1793376000000);
        },
        _ => panic!("expected the cached entry"),
    }
}

#[test]
fn cache_failure_ends_the_request() {
    let (mut req, _) = DepthRequest::new(HASH.to_string(), &config(), FP, 518, 518);
    let action = req.step(DepthEvent::CacheRead(Err(AppError::Internal("sled 读取失败: x".to_string()))));
    match action {
        DepthAction::Reply(Err(AppError::Internal(m))) => assert_eq!(m, "sled 读取失败: x"),
        _ => panic!("expected the cache error"),
    }
}

#[test]
fn cache_miss_downloads_with_limit() {
    let (mut req, _) = DepthRequest::new(HASH.to_string(), &config(), FP, 518, 518);
    match req.step(DepthEvent::CacheRead(Ok(None))) {
        DepthAction::Download(h, max) => {
            assert_eq!(h, HASH);
            assert_eq!(max, 5 * 1024 * 1024);
        },
        _ => panic!("expected a download"),
    }
    assert_eq!(req.phase, DepthPhase::AwaitDownload);
    match req.step(DepthEvent::Downloaded(Err(AppError::DownloadFailed("下载失败: x".to_string())))) {
        DepthAction::Reply(Err(e)) => assert_eq!(e.status_code(), 502),
        _ => panic!("expected the download error"),
    }
}

#[test]
fn undecodable_download_is_refused() {
    let (mut req, _) = DepthRequest::new(HASH.to_string(), &config(), FP, 518, 518);
    req.step(DepthEvent::CacheRead(Ok(None)));
    match req.step(DepthEvent::Downloaded(Ok(b"<html>".to_vec()))) {
        DepthAction::Reply(Err(e)) => {
            assert_eq!(e.error_kind(), ErrorKind::ImageDecodeFailed);
            assert_eq!(e.status_code(), 422);
        },
        _ => panic!("expected a decode error"),
    }
    assert_eq!(req.phase, DepthPhase::Done);
}

#[test]
fn full_flow_stores_and_returns_the_same_entry() {
    let (mut req, _) = DepthRequest::new(HASH.to_string(), &config(), FP, 8, 8);
    req.step(DepthEvent::CacheRead(Ok(None)));
    match req.step(DepthEvent::Downloaded(Ok(small_png()))) {
        DepthAction::Plan { width, height, target_width, target_height, max_image_size } => {
            assert_eq!((width, height, target_width, target_height, max_image_size), (4, 2, 8, 8, 1024));
        },
        _ => panic!("expected planning"),
    }
    assert_eq!(req.phase, DepthPhase::AwaitPlan);
    let out = match req.step(DepthEvent::Planned(planned())) {
        DepthAction::Infer(out) => out,
        _ => panic!("expected inference"),
    };
    assert_eq!(req.phase, DepthPhase::AwaitDepth);
    assert_eq!((out.meta.output_width, out.meta.output_height), (4, 2));
    assert_eq!((out.meta.infer_width, out.meta.infer_height), (8, 4));
    assert_eq!((out.padded.width, out.padded.height), (8, 8));
    let gray = GrayPixels { width: 4, height: 2, data: vec![0, 30, 60, 90, 120, 150, 180, 255] };
    let (key, stored) = match req.step(DepthEvent::DepthRendered(Ok(gray), 1793376000000)) {
        DepthAction::Store(k, e) => (k, e),
        _ => panic!("expected a store"),
    };
    assert_eq!(req.phase, DepthPhase::AwaitStore);
    assert_eq!(key, make_key(HASH, FP, COVER_SIZE, 1024));
    assert_eq!(stored.hash, HASH);
    assert_eq!((stored.width, stored.height), (4, 2));
    assert!(stored.data_url.starts_with("data:image/png;base64,"));
    assert_eq!(stored.created_at, 1793376000000);
    match req.step(DepthEvent::Stored(Ok(()))) {
        DepthAction::Reply(Ok(e)) => {
            assert_eq!(e.hash, stored.hash);
            assert_eq!(e.data_url, stored.data_url);
            assert_eq!((e.width, e.height, e.created_at), (stored.width, stored.height, stored.created_at));
        },
        _ => panic!("expected the stored entry"),
    }
    assert_eq!(req.phase, DepthPhase::Done);
}

#[test]
fn render_failure_and_store_failure_end_the_request() {
    let (mut req, _) = DepthRequest::new(HASH.to_string(), &config(), FP, 8, 8);
    req.step(DepthEvent::CacheRead(Ok(None)));
    req.step(DepthEvent::Downloaded(Ok(small_png())));
    req.step(DepthEvent::Planned(planned()));
    match req.step(DepthEvent::DepthRendered(Err(AppError::InferenceFailed("深度输出不包含有效数值".to_string())), 0)) {
        DepthAction::Reply(Err(AppError::InferenceFailed(m))) => assert_eq!(m, "深度输出不包含有效数值"),
        _ => panic!("expected the inference error"),
    }

    let (mut req, _) = DepthRequest::new(HASH.to_string(), &config(), FP, 8, 8);
    req.step(DepthEvent::CacheRead(Ok(None)));
    req.step(DepthEvent::Downloaded(Ok(small_png())));
    req.step(DepthEvent::Planned(planned()));
    let gray = GrayPixels { width: 4, height: 2, data: vec![0; 8] };
    req.step(DepthEvent::DepthRendered(Ok(gray), 5));
    match req.step(DepthEvent::Stored(Err(AppError::Internal("sled 写入失败: x".to_string())))) {
        DepthAction::Reply(Err(AppError::Internal(m))) => assert_eq!(m, "sled 写入失败: x"),
        _ => panic!("expected the store error"),
    }
}

#[test]
fn huge_model_sizes_still_answer_hash_and_cache() {
    let (req, action) = DepthRequest::new("x".to_string(), &config(), FP, u32::MAX, u32::MAX);
    assert_eq!(req.phase, DepthPhase::Done);
    assert!(matches!(action, DepthAction::Reply(Err(AppError::InvalidHash(_)))));
    let (mut req, _) = DepthRequest::new(HASH.to_string(), &config(), FP, u32::MAX, u32::MAX);
    match req.step(DepthEvent::CacheRead(Ok(Some(entry("data:image/png;base64,AAAA"))))) {
        DepthAction::Reply(Ok(e)) => assert_eq!(e.data_url, "data:image/png;base64,AAAA"),
        _ => panic!("expected the cached entry"),
    }
}

#[test]
fn repeat_request_reuses_stored_entry() {
    let (mut first, _) = DepthRequest::new(HASH.to_string(), &config(), FP, 8, 8);
    first.step(DepthEvent::CacheRead(Ok(None)));
    first.step(DepthEvent::Downloaded(Ok(small_png())));
    first.step(DepthEvent::Planned(planned()));
    let gray = GrayPixels { width: 4, height: 2, data: vec![7; 8] };
    let (store_key, stored) = match first.step(DepthEvent::DepthRendered(Ok(gray), 42)) {
        DepthAction::Store(k, e) => (k, e),
        _ => panic!("expected a store"),
    };
    let (mut later, action) = DepthRequest::new(HASH.to_string(), &config(), FP, 8, 8);
    match action {
        DepthAction::ReadCache(k) => assert_eq!(k, store_key),
        _ => panic!("expected a cache read"),
    }
    let copy = DepthEntry {
        hash: stored.hash.clone(),
        width: stored.width,
        height: stored.height,
        data_url: stored.data_url.clone(),
        created_at: stored.created_at,
    };
    match later.step(DepthEvent::CacheRead(Ok(Some(copy)))) {
        DepthAction::Reply(Ok(e)) => {
            assert_eq!(e.data_url, stored.data_url);
            assert_eq!((e.width, e.height, e.created_at), (4, 2, 42));
        },
        _ => panic!("expected the stored entry"),
    }
    assert_eq!(later.phase, DepthPhase::Done);
}
