use image_depth_server::download::{accept_chunk, check_response, cover_url};
use image_depth_server::error::{AppError, ErrorKind};
use image_depth_server::routes::check_hash;

#[test]
fn cover_url_uses_size_prefix_and_hash() {
    assert_eq!(
        cover_url(400, "20190917112902491378"),
        "https://imge.kugou.com/stdmusic/400/20190917/20190917112902491378.jpg"
    );
    assert_eq!(cover_url(150, "12345678"), "https://imge.kugou.com/stdmusic/150/12345678/12345678.jpg");
}

#[test]
fn response_with_error_status_fails() {
    match check_response(false, "404 Not Found", None, 10) {
        Err(AppError::DownloadFailed(m)) => assert_eq!(m, "CDN 返回 HTTP 404 Not Found"),
        other => panic!("unexpected {:?}", other),
    }
}

#[test]
fn response_announcing_too_much_fails() {
    match check_response(true, "200 OK", Some(11), 10) {
        Err(AppError::DownloadTooLarge(m)) => assert_eq!(m, "图片响应超过大小限制"),
        other => panic!("unexpected {:?}", other),
    }
    assert!(check_response(true, "200 OK", Some(10), 10).is_ok());
    assert!(check_response(true, "200 OK", None, 10).is_ok());
}

#[test]
fn chunks_accumulate_up_to_the_limit() {
    let mut out = Vec::new();
    assert!(accept_chunk(&mut out, &[1, 2, 3], 5).is_ok());
    assert!(accept_chunk(&mut out, &[4, 5], 5).is_ok());
    assert_eq!(out, vec![1, 2, 3, 4, 5]);
    let e = accept_chunk(&mut out, &[6], 5).unwrap_err();
    assert_eq!(e.error_kind(), ErrorKind::DownloadTooLarge);
    assert_eq!(e.message(), "图片响应超过大小限制");
    assert_eq!(out.len(), 6);
}

#[test]
fn empty_chunk_keeps_body() {
    let mut out = vec![9];
    assert!(accept_chunk(&mut out, &[], 1).is_ok());
    assert_eq!(out, vec![9]);
}

#[test]
fn accepted_hash_always_yields_a_cover_url() {
    for hash in ["12345678", "00000000000000000000", "98765432101234567890"] {
        assert!(check_hash(hash, hash.len()).is_ok());
        let url = cover_url(400, hash);
        assert_eq!(url, format!("https://imge.kugou.com/stdmusic/400/{}/{}.jpg", &hash[..8], hash));
    }
}
