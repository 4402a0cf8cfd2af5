use vstd::prelude::*;
use crate::error::{AppError, ErrorKind};

verus! {

/// Service settings: port, model location, cache directory, download limits,
/// image size limits, accepted hash length and inference concurrency.
pub struct Config {
    pub port: u16,
    pub model_path: String,
    pub cache_dir: String,
    pub download_timeout_secs: u64,
    pub max_download_bytes: usize,
    pub max_image_size: u32,
    pub target_size: u32,
    pub hash_digits: usize,
    pub infer_concurrency: usize,
}

/// The shortest hash that the service accepts in its settings.
pub const MIN_HASH_DIGITS: usize = 8;

/// The message of the first setting that is out of range, checked in a fixed
/// order, or `None` when all settings are usable.
pub open spec fn config_problem(c: &Config) -> Option<Seq<char>> {
    if c.download_timeout_secs == 0 {
        Some("下载超时时间必须大于 0"@)
    } else if c.max_download_bytes == 0 {
        Some("下载大小限制必须大于 0"@)
    } else if c.max_image_size == 0 {
        Some("最大图片尺寸必须大于 0"@)
    } else if c.target_size == 0 {
        Some("推理目标尺寸必须大于 0"@)
    } else if c.hash_digits < MIN_HASH_DIGITS {
        Some("hash 位数必须至少为 8"@)
    } else {
        None
    }
}

/// The settings are all in range.
pub open spec fn config_ok(c: &Config) -> bool {
    &&& c.download_timeout_secs > 0
    &&& c.max_download_bytes > 0
    &&& c.max_image_size > 0
    &&& c.target_size > 0
    &&& c.hash_digits >= MIN_HASH_DIGITS
}

fn internal(msg: &str) -> (e: AppError)
    ensures
        e.kind() == ErrorKind::Internal,
        e.msg() == msg@,
{
    AppError::Internal(msg.to_owned())
}

impl Config {
    /// Accepts the settings unchanged when every limit is usable; otherwise
    /// reports the first one out of range as an internal error.
    pub fn validate(self) -> (res: Result<Self, AppError>)
        ensures
            match config_problem(&self) {
                None => res matches Ok(c) && c == self,
                Some(m) => res matches Err(e) && e.kind() == ErrorKind::Internal && e.msg() == m,
            },
            res is Ok <==> config_ok(&self),
    {
        if self.download_timeout_secs == 0 {
            return Err(internal("下载超时时间必须大于 0"));
        }
        if self.max_download_bytes == 0 {
            return Err(internal("下载大小限制必须大于 0"));
        }
        if self.max_image_size == 0 {
            return Err(internal("最大图片尺寸必须大于 0"));
        }
        if self.target_size == 0 {
            return Err(internal("推理目标尺寸必须大于 0"));
        }
        if self.hash_digits < MIN_HASH_DIGITS {
            return Err(internal("hash 位数必须至少为 8"));
        }
        Ok(self)
    }
}

} // verus!
