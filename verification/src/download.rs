use vstd::prelude::*;
use vstd::string::StringSliceAdditionalSpecFns;
use vstd::utf8::{decode_utf8, encode_utf8_decode_utf8, is_char_boundary};
use crate::error::{AppError, ErrorKind};
use crate::text::{decimal, push_decimal};

verus! {

/// The size, in pixels, of the covers requested from the CDN.
pub const COVER_SIZE: u32 = 400;

/// The address of a cover image on the CDN:
/// `https://imge.kugou.com/stdmusic/{size}/{first 8 bytes of hash}/{hash}.jpg`.
pub open spec fn cover_url_spec(cover_size: nat, prefix: Seq<char>, hash: Seq<char>) -> Seq<char> {
    "https://imge.kugou.com/stdmusic/"@ + decimal(cover_size) + "/"@ + prefix + "/"@ + hash + ".jpg"@
}

/// Builds the CDN address of the cover with the given hash at the given size.
/// The directory is named by the first eight bytes of the hash.
pub fn cover_url(cover_size: u32, hash: &str) -> (url: String)
    requires
        is_char_boundary(hash.spec_bytes(), 8),
    ensures
        url@ == cover_url_spec(
            cover_size as nat,
            decode_utf8(hash.spec_bytes().subrange(0, 8)),
            hash@,
        ),
{
    let (prefix, _rest) = hash.split_at(8);
    proof {
        encode_utf8_decode_utf8(prefix@);
    }
    let mut url = String::new();
    url.append("https://imge.kugou.com/stdmusic/");
    push_decimal(&mut url, cover_size as u128);
    url.append("/");
    url.append(prefix);
    url.append("/");
    url.append(hash);
    url.append(".jpg");
    url
}

/// The CDN announced a body longer than the limit.
pub open spec fn announced_too_large(content_length: Option<u64>, max_bytes: usize) -> bool {
    content_length matches Some(len) && len > max_bytes
}

/// The announced length and the body read agree on the limit: a length passes
/// the check of the announced length exactly when a body of that length is
/// within `max_bytes`, the bound that `accept_chunk` keeps; no announced
/// length is refused when none is announced.
pub proof fn lemma_announced_limit_matches_body_limit(len: u64, max_bytes: usize)
    ensures
        !announced_too_large(Some(len), max_bytes) <==> len <= max_bytes,
        !announced_too_large(None, max_bytes),
{
}

/// The answer of the CDN is usable when its status is a success and the length
/// it announces, if any, is within the limit.
pub fn check_response(status_ok: bool, status_text: &str, content_length: Option<u64>, max_bytes: usize) -> (res:
    Result<(), AppError>)
    ensures
        !status_ok ==> (res matches Err(e) && e.kind() == ErrorKind::DownloadFailed && e.msg()
            == "CDN 返回 HTTP "@ + status_text@),
        status_ok && announced_too_large(content_length, max_bytes) ==> (res matches Err(e)
            && e.kind() == ErrorKind::DownloadTooLarge && e.msg() == "图片响应超过大小限制"@),
        status_ok && !announced_too_large(content_length, max_bytes) ==> res is Ok,
{
    if !status_ok {
        let mut m = "CDN 返回 HTTP ".to_owned();
        m.append(status_text);
        return Err(AppError::DownloadFailed(m));
    }
    match content_length {
        Some(len) => {
            if len as u128 > max_bytes as u128 {
                return Err(AppError::DownloadTooLarge("图片响应超过大小限制".to_owned()));
            }
        },
        None => {},
    }
    Ok(())
}

/// Appends a received chunk to the body read so far; fails once the body is
/// longer than `max_bytes`.
pub fn accept_chunk(out: &mut Vec<u8>, chunk: &[u8], max_bytes: usize) -> (res: Result<(), AppError>)
    requires
        old(out)@.len() + chunk@.len() <= usize::MAX,
    ensures
        final(out)@ == old(out)@ + chunk@,
        res is Ok <==> final(out)@.len() <= max_bytes,
        res matches Err(e) ==> (e.kind() == ErrorKind::DownloadTooLarge && e.msg()
            == "图片响应超过大小限制"@),
{
    let ghost before = out@;
    out.extend_from_slice(chunk);
    proof {
        assert forall|i: int| 0 <= i < out@.len() implies out@[i] == (before + chunk@)[i] by {
            if i >= before.len() {
                assert(cloned::<u8>(chunk@[i - before.len()], out@[i]));
            }
        }
        assert(out@ =~= before + chunk@);
    }
    if out.len() > max_bytes {
        return Err(AppError::DownloadTooLarge("图片响应超过大小限制".to_owned()));
    }
    Ok(())
}

} // verus!
