use image_depth_server::config::Config;
use image_depth_server::error::{AppError, ErrorKind};

fn defaults() -> Config {
    Config {
        port: 7860,
        model_path: "./model_quantized.onnx".to_string(),
        cache_dir: "./cache".to_string(),
        download_timeout_secs: 10,
        max_download_bytes: 5 * 1024 * 1024,
        max_image_size: 1024,
        target_size: 518,
        hash_digits: 20,
        infer_concurrency: 1,
    }
}

fn internal_message(res: Result<Config, AppError>) -> String {
    match res {
        Err(AppError::Internal(m)) => m,
        Err(other) => panic!("unexpected error {:?}", other),
        Ok(_) => panic!("expected an error"),
    }
}

#[test]
fn validate_accepts_documented_defaults() {
    let c = defaults().validate().expect("defaults are valid");
    assert_eq!(c.port, 7860);
    assert_eq!(c.hash_digits, 20);
    assert_eq!(c.model_path, "./model_quantized.onnx");
}

#[test]
fn validate_refuses_zero_timeout() {
    let mut c = defaults();
    c.download_timeout_secs = 0;
    assert_eq!(internal_message(c.validate()), "下载超时时间必须大于 0");
}

#[test]
fn validate_refuses_zero_download_limit() {
    let mut c = defaults();
    c.max_download_bytes = 0;
    assert_eq!(internal_message(c.validate()), "下载大小限制必须大于 0");
}

#[test]
fn validate_refuses_zero_max_image_size() {
    let mut c = defaults();
    c.max_image_size = 0;
    assert_eq!(internal_message(c.validate()), "最大图片尺寸必须大于 0");
}

#[test]
fn validate_refuses_zero_target_size() {
    let mut c = defaults();
    c.target_size = 0;
    assert_eq!(internal_message(c.validate()), "推理目标尺寸必须大于 0");
}

#[test]
fn validate_refuses_short_hashes() {
    let mut c = defaults();
    c.hash_digits = 7;
    assert_eq!(internal_message(c.validate()), "hash 位数必须至少为 8");
    let mut c = defaults();
    c.hash_digits = 8;
    assert!(c.validate().is_ok());
}

#[test]
fn validate_reports_first_problem_only() {
    let mut c = defaults();
    c.download_timeout_secs = 0;
    c.hash_digits = 0;
    assert_eq!(internal_message(c.validate()), "下载超时时间必须大于 0");
}

#[test]
fn status_codes_follow_error_kind() {
    let cases = vec![
        (AppError::InvalidHash("a".to_string()), 400u16, ErrorKind::InvalidHash),
        (AppError::DownloadFailed("b".to_string()), 502, ErrorKind::DownloadFailed),
        (AppError::DownloadTooLarge("c".to_string()), 413, ErrorKind::DownloadTooLarge),
        (AppError::ImageDecodeFailed("d".to_string()), 422, ErrorKind::ImageDecodeFailed),
        (AppError::ModelMetadata("e".to_string()), 500, ErrorKind::ModelMetadata),
        (AppError::InferenceFailed("f".to_string()), 500, ErrorKind::InferenceFailed),
        (AppError::Internal("g".to_string()), 500, ErrorKind::Internal),
    ];
    for (e, code, kind) in cases {
        assert_eq!(e.status_code(), code);
        assert_eq!(e.error_kind(), kind);
    }
}

#[test]
fn error_new_keeps_kind_and_message() {
    let e = AppError::new(ErrorKind::DownloadTooLarge, "too big".to_string());
    assert_eq!(e.error_kind(), ErrorKind::DownloadTooLarge);
    assert_eq!(e.message(), "too big");
    assert_eq!(e.status_code(), 413);
}
