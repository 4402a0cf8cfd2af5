use vstd::prelude::*;
use vstd::string::StringSliceAdditionalSpecFns;
use vstd::utf8::{
    encode_utf8, encode_utf8_valid_utf8, is_ascii_chars, is_ascii_chars_encode_utf8,
    is_char_boundary, is_char_boundary_iff_not_is_continuation_byte,
    is_char_boundary_start_end_of_seq,
};
use crate::cache::{cache_key, make_key, DepthEntry};
use crate::config::{Config, MIN_HASH_DIGITS};
use crate::download::COVER_SIZE;
use crate::imaging::png_encoded_gray;
use crate::postprocess::{gray_candidate, gray_to_data_url, png_data_url, url_outcome, GrayPixels};
use crate::preprocess::{
    decode_ended_well, decode_image, decoded_by, meta_ok, padded_from, prepare_image, sizes_fit, starts_with, PreprocessMeta, PreprocessOutput, RgbPixels,
};
use crate::error::{AppError, ErrorKind};
use crate::text::{decimal, is_ascii_digit, push_decimal};

verus! {

/// Every character of `s` is an ASCII digit.
pub open spec fn all_ascii_digits(s: Seq<char>) -> bool {
    forall|i: int| 0 <= i < s.len() ==> is_ascii_digit(#[trigger] s[i])
}

/// A cover hash is accepted when it is `hash_digits` bytes long and made of ASCII digits only.
pub open spec fn hash_accepted(hash: Seq<char>, hash_digits: nat) -> bool {
    encode_utf8(hash).len() == hash_digits && all_ascii_digits(hash)
}

/// The message with which a malformed hash is refused.
pub open spec fn invalid_hash_message(hash_digits: nat) -> Seq<char> {
    "hash 必须是 "@ + decimal(hash_digits) + " 位数字"@
}

/// A hash is accepted exactly when it has `hash_digits` characters, all of
/// them ASCII digits (each of which is one byte).
pub proof fn lemma_hash_accepted_iff_digits(hash: Seq<char>, hash_digits: nat)
    ensures
        hash_accepted(hash, hash_digits) <==> (hash.len() == hash_digits && forall|i: int|
            0 <= i < hash.len() ==> '0' <= #[trigger] hash[i] <= '9'),
{
    if all_ascii_digits(hash) {
        assert(is_ascii_chars(hash)) by {
            assert forall|i: int| 0 <= i < hash.len() implies '\0' <= #[trigger] hash[i] <= '\u{7f}' by {
                assert(is_ascii_digit(hash[i]));
            }
        }
        is_ascii_chars_encode_utf8(hash);
    }
    if forall|i: int| 0 <= i < hash.len() ==> '0' <= #[trigger] hash[i] <= '9' {
        assert forall|i: int| 0 <= i < hash.len() implies is_ascii_digit(#[trigger] hash[i]) by {
            assert('0' <= hash[i] <= '9');
        }
    }
}

/// Accepts a cover hash of exactly `hash_digits` ASCII digits; any other hash
/// is refused as invalid.
pub fn check_hash(hash: &str, hash_digits: usize) -> (res: Result<(), AppError>)
    ensures
        res is Ok <==> hash_accepted(hash@, hash_digits as nat),
        res is Ok ==> hash.spec_bytes().len() == hash_digits,
        res matches Err(e) ==> (e.kind() == ErrorKind::InvalidHash && e.msg() == invalid_hash_message(
            hash_digits as nat,
        )),
{
    let mut ok = hash.as_bytes().len() == hash_digits;
    if ok {
        let mut all = true;
        for c in it: hash.chars()
            invariant
                it.seq() == hash@,
                all == (forall|j: int| 0 <= j < it.index() ==> is_ascii_digit(#[trigger] hash@[j])),
        {
            if !('0' <= c && c <= '9') {
                all = false;
            }
        }
        assert(all == all_ascii_digits(hash@));
        ok = all;
    }
    if ok {
        Ok(())
    } else {
        let mut m = "hash 必须是 ".to_owned();
        push_decimal(&mut m, hash_digits as u128);
        m.append(" 位数字");
        Err(AppError::InvalidHash(m))
    }
}

/// Every hash accepted for a length of at least `MIN_HASH_DIGITS` (as
/// `Config::validate` ensures of the settings) has a character boundary after
/// its first eight bytes, so the CDN directory of the cover can be taken from it.
pub proof fn lemma_accepted_hash_has_prefix(hash_digits: usize, hash: &str)
    requires
        hash_digits >= MIN_HASH_DIGITS,
        hash_accepted(hash@, hash_digits as nat),
    ensures
        is_char_boundary(hash.spec_bytes(), 8),
{
    let chars = hash@;
    let bytes = hash.spec_bytes();
    assert(is_ascii_chars(chars)) by {
        assert forall|i: int| 0 <= i < chars.len() implies '\0' <= #[trigger] chars[i] <= '\u{7f}' by {
            assert(is_ascii_digit(chars[i]));
        }
    }
    is_ascii_chars_encode_utf8(chars);
    encode_utf8_valid_utf8(chars);
    assert(bytes == encode_utf8(chars));
    if bytes.len() == 8 {
        is_char_boundary_start_end_of_seq(bytes);
    } else {
        assert(chars[8] as u8 == bytes[8]);
        assert(is_ascii_digit(chars[8]));
        is_char_boundary_iff_not_is_continuation_byte(bytes, 8);
    }
}

/// What the request flow asks its driver to do next.
pub enum DepthAction {
    /// Answer the client and finish.
    Reply(Result<DepthEntry, AppError>),
    /// Look the key up in the cache; answer with `DepthEvent::CacheRead`.
    ReadCache(String),
    /// Download the cover with this hash, up to this many bytes; answer with `DepthEvent::Downloaded`.
    Download(String, usize),
    /// Choose the output and inference sizes for a decoded image of this size,
    /// for the model input size and the output size limit; answer with
    /// `DepthEvent::Planned`.
    Plan { width: u32, height: u32, target_width: u32, target_height: u32, max_image_size: u32 },
    /// Run the model on the prepared input and render the covered part of its
    /// output as a grayscale image; answer with `DepthEvent::DepthRendered`.
    Infer(PreprocessOutput),
    /// Store the entry under the key; answer with `DepthEvent::Stored`.
    Store(String, DepthEntry),
}

/// What the driver reports after doing an action.
pub enum DepthEvent {
    CacheRead(Result<Option<DepthEntry>, AppError>),
    Downloaded(Result<Vec<u8>, AppError>),
    /// The sizes chosen for the decoded image.
    Planned(PreprocessMeta),
    /// The rendered depth image, or why there is none, and the time in
    /// milliseconds since the Unix epoch at which it was made.
    DepthRendered(Result<GrayPixels, AppError>, i64),
    Stored(Result<(), AppError>),
}

/// Where a depth request stands.
#[derive(Debug, Clone, Copy, PartialEq, Eq, Structural)]
pub enum DepthPhase {
    AwaitCache,
    AwaitDownload,
    AwaitPlan,
    AwaitDepth,
    AwaitStore,
    Done,
}

/// The state of one `GET /depth/{hash}` request: the hash, its cache key, the
/// limits it runs under, the decoded image waiting for its sizes, the sizes
/// chosen for it and the entry waiting to be stored.
pub struct DepthRequest {
    pub hash: String,
    pub key: String,
    pub max_download_bytes: usize,
    pub max_image_size: u32,
    pub input_width: u32,
    pub input_height: u32,
    pub image: Option<RgbPixels>,
    pub meta: PreprocessMeta,
    pub pending: Option<DepthEntry>,
    pub phase: DepthPhase,
}

/// What one step does: `post` and `action` are the request after the step and
/// its next action, for the request `pre` and the answer `event`.
pub open spec fn steps_to(pre: DepthRequest, event: DepthEvent, post: DepthRequest, action: DepthAction) -> bool {
    &&& post.wf()
    &&& pre.same_request(&post)
    &&& match event {
        DepthEvent::CacheRead(Err(e)) => post.phase == DepthPhase::Done
            && action == DepthAction::Reply(Err(e)),
        DepthEvent::CacheRead(Ok(Some(entry))) => post.phase == DepthPhase::Done
            && action == DepthAction::Reply(Ok(entry)),
        DepthEvent::CacheRead(Ok(None)) => {
            &&& post.phase == DepthPhase::AwaitDownload
            &&& action matches DepthAction::Download(h, max) && h == pre.hash && max
                == pre.max_download_bytes
        },
        DepthEvent::Downloaded(Err(e)) => post.phase == DepthPhase::Done && action
            == DepthAction::Reply(Err(e)),
        DepthEvent::Downloaded(Ok(bytes)) => {
            let zero_size = pre.input_width == 0 || pre.input_height == 0
                || pre.max_image_size == 0;
            match action {
                DepthAction::Plan { width, height, target_width, target_height, max_image_size } => {
                    &&& !zero_size
                    &&& post.phase == DepthPhase::AwaitPlan
                    &&& post.image matches Some(img) && decode_ended_well(Ok(img))
                        && decoded_by(bytes@, Ok(img))
                    &&& width == post.image->0.width
                    &&& height == post.image->0.height
                    &&& target_width == pre.input_width
                    &&& target_height == pre.input_height
                    &&& max_image_size == pre.max_image_size
                },
                DepthAction::Reply(Err(e)) => {
                    &&& post.phase == DepthPhase::Done
                    &&& zero_size ==> e.kind() == ErrorKind::Internal && e.msg()
                        == "图片处理尺寸必须大于 0"@
                    &&& !zero_size ==> decode_ended_well(Err(e)) && decoded_by(bytes@, Err(e))
                },
                _ => false,
            }
        },
        DepthEvent::Planned(meta) => {
            let img = pre.image->0;
            &&& post.phase == DepthPhase::AwaitDepth
            &&& post.meta == meta
            &&& action matches DepthAction::Infer(out) && out.meta == meta
                && out.padded.width == meta.target_width && out.padded.height
                == meta.target_height && padded_from(
                img.width,
                img.height,
                img.data@,
                meta,
                out.padded.data@,
            )
        },
        DepthEvent::DepthRendered(Err(e), _) => post.phase == DepthPhase::Done
            && action == DepthAction::Reply(Err(e)),
        DepthEvent::DepthRendered(Ok(gray), created_at) => {
            let meta = pre.meta;
            exists|pixels: Seq<u8>| #[trigger] gray_candidate(&gray, meta, pixels) &&
            match png_encoded_gray(meta.output_width, meta.output_height, pixels) {
                Some(png) => {
                    &&& post.phase == DepthPhase::AwaitStore
                    &&& action matches DepthAction::Store(k, entry) && k == pre.key
                        && post.pending == Some(entry) && entry.hash == pre.hash
                        && entry.width == meta.output_width && entry.height == meta.output_height
                        && entry.width <= pre.max_image_size && entry.height
                        <= pre.max_image_size
                        && entry.data_url@ == png_data_url(png) && entry.created_at == created_at
                },
                None => {
                    &&& post.phase == DepthPhase::Done
                    &&& action matches DepthAction::Reply(Err(e)) && e.kind() == ErrorKind::Internal
                        && starts_with(e.msg(), "PNG 编码失败: "@)
                },
            }
        },
        DepthEvent::Stored(Err(e)) => post.phase == DepthPhase::Done && action
            == DepthAction::Reply(Err(e)),
        DepthEvent::Stored(Ok(())) => {
            &&& post.phase == DepthPhase::Done
            &&& pre.pending matches Some(entry) && action == DepthAction::Reply(Ok(entry))
                && entry.width <= pre.max_image_size && entry.height
                <= pre.max_image_size
        },
    }
}

impl DepthRequest {
    pub open spec fn wf(&self) -> bool {
        &&& self.phase == DepthPhase::AwaitPlan ==> (self.image matches Some(img) && img.wf()
            && img.width > 0 && img.height > 0)
        &&& self.phase == DepthPhase::AwaitDepth ==> meta_ok(self.meta) && self.meta.output_width
            <= self.max_image_size && self.meta.output_height <= self.max_image_size
        &&& self.phase == DepthPhase::AwaitStore ==> (self.pending matches Some(entry)
            && entry.width <= self.max_image_size && entry.height <= self.max_image_size)
    }

    /// The sizes are usable for the decoded image waiting for them, keep the
    /// model input size, and never enlarge the image nor let a side of the
    /// returned map exceed the output size limit.
    pub open spec fn plan_fits(&self, meta: PreprocessMeta) -> bool {
        &&& self.image matches Some(img) && sizes_fit(&img, meta) && meta.output_width <= img.width
            && meta.output_height <= img.height
        &&& meta.target_width == self.input_width
        &&& meta.target_height == self.input_height
        &&& meta.output_width <= self.max_image_size
        &&& meta.output_height <= self.max_image_size
    }

    /// The event is the answer to the action the request is waiting for.
    pub open spec fn accepts(&self, event: &DepthEvent) -> bool {
        match self.phase {
            DepthPhase::AwaitCache => event is CacheRead,
            DepthPhase::AwaitDownload => event is Downloaded,
            DepthPhase::AwaitPlan => event matches DepthEvent::Planned(meta) && self.plan_fits(*meta),
            DepthPhase::AwaitDepth => event matches DepthEvent::DepthRendered(r, _) && (r matches Ok(
                g,
            ) ==> g.wf() && g.width as nat * self.meta.output_height as nat * 4 <= usize::MAX),
            DepthPhase::AwaitStore => event is Stored,
            DepthPhase::Done => false,
        }
    }

    /// The parts of the request that no step changes.
    pub open spec fn same_request(&self, other: &DepthRequest) -> bool {
        &&& other.hash == self.hash
        &&& other.key == self.key
        &&& other.max_download_bytes == self.max_download_bytes
        &&& other.max_image_size == self.max_image_size
        &&& other.input_width == self.input_width
        &&& other.input_height == self.input_height
    }

    /// Starts a request for the depth map of `hash`: a malformed hash is
    /// answered at once as invalid; otherwise the cache is consulted under the
    /// key for this hash, model fingerprint, cover size (`COVER_SIZE`) and
    /// output size limit.
    pub fn new(
        hash: String,
        config: &Config,
        model_fingerprint: &str,
        input_width: u32,
        input_height: u32,
    ) -> (r: (DepthRequest, DepthAction))
        ensures
            r.0.wf(),
            r.0.hash == hash,
            r.0.max_download_bytes == config.max_download_bytes,
            r.0.max_image_size == config.max_image_size,
            r.0.input_width == input_width,
            r.0.input_height == input_height,
            !hash_accepted(hash@, config.hash_digits as nat) ==> {
                &&& r.0.phase == DepthPhase::Done
                &&& r.1 matches DepthAction::Reply(Err(e)) && e.kind() == ErrorKind::InvalidHash
                    && e.msg() == invalid_hash_message(config.hash_digits as nat)
            },
            hash_accepted(hash@, config.hash_digits as nat) ==> {
                &&& r.0.phase == DepthPhase::AwaitCache
                &&& r.0.key@ == cache_key(
                    hash@,
                    model_fingerprint@,
                    COVER_SIZE as nat,
                    config.max_image_size as nat,
                )
                &&& r.1 matches DepthAction::ReadCache(k) && k == r.0.key
            },
    {
        let meta = PreprocessMeta {
            output_width: 0,
            output_height: 0,
            target_width: 0,
            target_height: 0,
            infer_width: 0,
            infer_height: 0,
        };
        match check_hash(hash.as_str(), config.hash_digits) {
            Err(e) => {
                let req = DepthRequest {
                    hash,
                    key: String::new(),
                    max_download_bytes: config.max_download_bytes,
                    max_image_size: config.max_image_size,
                    input_width,
                    input_height,
                    image: None,
                    meta,
                    pending: None,
                    phase: DepthPhase::Done,
                };
                (req, DepthAction::Reply(Err(e)))
            },
            Ok(()) => {
                let key = make_key(hash.as_str(), model_fingerprint, COVER_SIZE, config.max_image_size);
                let action = DepthAction::ReadCache(key.clone());
                let req = DepthRequest {
                    hash,
                    key,
                    max_download_bytes: config.max_download_bytes,
                    max_image_size: config.max_image_size,
                    input_width,
                    input_height,
                    image: None,
                    meta,
                    pending: None,
                    phase: DepthPhase::AwaitCache,
                };
                (req, action)
            },
        }
    }

    /// Advances the request by the answer to its last action. Failures of the
    /// outside work end the request with that very error; a cache hit is
    /// answered with the cached entry; a stored entry is answered as stored
    /// (`steps_to` says what each answer leads to).
    pub fn step(&mut self, event: DepthEvent) -> (action: DepthAction)
        requires
            old(self).wf(),
            old(self).accepts(&event),
        ensures
            steps_to(*old(self), event, *final(self), action),
    {
        match event {
            DepthEvent::CacheRead(Err(e)) => {
                self.phase = DepthPhase::Done;
                DepthAction::Reply(Err(e))
            },
            DepthEvent::CacheRead(Ok(Some(entry))) => {
                self.phase = DepthPhase::Done;
                DepthAction::Reply(Ok(entry))
            },
            DepthEvent::CacheRead(Ok(None)) => {
                self.phase = DepthPhase::AwaitDownload;
                DepthAction::Download(self.hash.clone(), self.max_download_bytes)
            },
            DepthEvent::Downloaded(Err(e)) => {
                self.phase = DepthPhase::Done;
                DepthAction::Reply(Err(e))
            },
            DepthEvent::Downloaded(Ok(bytes)) => {
                match decode_image(bytes.as_slice(), self.input_width, self.input_height, self.max_image_size) {
                    Ok(img) => {
                        let width = img.width;
                        let height = img.height;
                        self.image = Some(img);
                        self.phase = DepthPhase::AwaitPlan;
                        DepthAction::Plan {
                            width,
                            height,
                            target_width: self.input_width,
                            target_height: self.input_height,
                            max_image_size: self.max_image_size,
                        }
                    },
                    Err(e) => {
                        self.phase = DepthPhase::Done;
                        DepthAction::Reply(Err(e))
                    },
                }
            },
            DepthEvent::Planned(meta) => {
                let img = match self.image.take() {
                    Some(img) => img,
                    None => {
                        proof {
                            assert(false);
                        }
                        return DepthAction::Reply(Err(AppError::Internal(String::new())));
                    },
                };
                let out = prepare_image(img, meta);
                self.meta = meta;
                self.phase = DepthPhase::AwaitDepth;
                DepthAction::Infer(out)
            },
            DepthEvent::DepthRendered(Err(e), _) => {
                self.phase = DepthPhase::Done;
                DepthAction::Reply(Err(e))
            },
            DepthEvent::DepthRendered(Ok(gray), created_at) => {
                let rendered = gray_to_data_url(&gray, &self.meta);
                let ghost meta = self.meta;
                let ghost pixels = choose|pixels: Seq<u8>|
                    #[trigger] gray_candidate(&gray, meta, pixels) && url_outcome(
                        rendered,
                        png_encoded_gray(meta.output_width, meta.output_height, pixels),
                    );
                assert(gray_candidate(&gray, meta, pixels));
                match rendered {
                    Ok(data_url) => {
                        let entry = DepthEntry {
                            hash: self.hash.clone(),
                            width: self.meta.output_width,
                            height: self.meta.output_height,
                            data_url,
                            created_at,
                        };
                        self.pending = Some(entry.duplicate());
                        self.phase = DepthPhase::AwaitStore;
                        DepthAction::Store(self.key.clone(), entry)
                    },
                    Err(e) => {
                        self.phase = DepthPhase::Done;
                        DepthAction::Reply(Err(e))
                    },
                }
            },
            DepthEvent::Stored(Err(e)) => {
                self.phase = DepthPhase::Done;
                DepthAction::Reply(Err(e))
            },
            DepthEvent::Stored(Ok(())) => {
                self.phase = DepthPhase::Done;
                match self.pending.take() {
                    Some(entry) => DepthAction::Reply(Ok(entry)),
                    None => {
                        proof {
                            assert(false);
                        }
                        DepthAction::Reply(Err(AppError::Internal(String::new())))
                    },
                }
            },
        }
    }
}

/// The error of the outside work that an event carries, if any.
pub open spec fn outside_error(event: DepthEvent) -> Option<AppError> {
    match event {
        DepthEvent::CacheRead(Err(e)) => Some(e),
        DepthEvent::Downloaded(Err(e)) => Some(e),
        DepthEvent::DepthRendered(Err(e), _) => Some(e),
        DepthEvent::Stored(Err(e)) => Some(e),
        _ => None,
    }
}

/// A failure of the outside work (cache, download, inference, storing) ends the
/// request, which answers with that very error and accepts no further event, so
/// nothing is stored after it.
pub proof fn lemma_outside_failure_is_answered(
    pre: DepthRequest,
    event: DepthEvent,
    post: DepthRequest,
    action: DepthAction,
    e: AppError,
)
    requires
        steps_to(pre, event, post, action),
        outside_error(event) == Some(e),
    ensures
        post.phase == DepthPhase::Done,
        action == DepthAction::Reply(Err(e)),
        forall|next: DepthEvent| !post.accepts(&next),
{
}

/// A request whose cache lookup misses and whose outside work all succeeds
/// (the cover decodes, the depth image encodes, the entry is stored) answers
/// with exactly the entry it stored, under its own key: the entry names the
/// hash, has the planned output size, with no side above the output size limit,
/// holds the data URL of the depth image at that size, and the time at which
/// the depth image was made.
pub proof fn lemma_fresh_request_answers_stored_entry(
    r0: DepthRequest,
    r1: DepthRequest,
    r2: DepthRequest,
    r3: DepthRequest,
    r4: DepthRequest,
    r5: DepthRequest,
    bytes: Vec<u8>,
    meta: PreprocessMeta,
    gray: GrayPixels,
    created_at: i64,
    a1: DepthAction,
    a2: DepthAction,
    a3: DepthAction,
    a4: DepthAction,
    a5: DepthAction,
)
    requires
        steps_to(r0, DepthEvent::CacheRead(Ok(None)), r1, a1),
        steps_to(r1, DepthEvent::Downloaded(Ok(bytes)), r2, a2),
        a2 is Plan,
        steps_to(r2, DepthEvent::Planned(meta), r3, a3),
        steps_to(r3, DepthEvent::DepthRendered(Ok(gray), created_at), r4, a4),
        a4 is Store,
        steps_to(r4, DepthEvent::Stored(Ok(())), r5, a5),
    ensures
        r5.phase == DepthPhase::Done,
        a4 matches DepthAction::Store(k, entry) && {
            &&& k == r0.key
            &&& a5 == DepthAction::Reply(Ok(entry))
            &&& entry.hash == r0.hash
            &&& entry.width == meta.output_width
            &&& entry.height == meta.output_height
            &&& entry.width <= r0.max_image_size
            &&& entry.height <= r0.max_image_size
            &&& entry.created_at == created_at
            &&& exists|pixels: Seq<u8>|
                #[trigger] gray_candidate(&gray, meta, pixels) && (png_encoded_gray(
                    meta.output_width,
                    meta.output_height,
                    pixels,
                ) matches Some(png) && entry.data_url@ == png_data_url(png))
        },
{
}

/// Two requests for the same hash under the same model fingerprint, cover size
/// and output size limit (their keys are `cache_key` of these, as
/// `DepthRequest::new` gives them) look up the key under which the first stores
/// its entry; when the lookup gives that entry back, the later request answers
/// with it unchanged, without download or inference.
pub proof fn lemma_repeat_request_reuses_entry(
    first: DepthRequest,
    rendered: DepthEvent,
    first_post: DepthRequest,
    store_key: String,
    stored: DepthEntry,
    later: DepthRequest,
    later_post: DepthRequest,
    answer: DepthAction,
    hash: Seq<char>,
    model_fingerprint: Seq<char>,
    max_image_size: nat,
)
    requires
        first.key@ == cache_key(hash, model_fingerprint, COVER_SIZE as nat, max_image_size),
        later.key@ == cache_key(hash, model_fingerprint, COVER_SIZE as nat, max_image_size),
        steps_to(first, rendered, first_post, DepthAction::Store(store_key, stored)),
        steps_to(later, DepthEvent::CacheRead(Ok(Some(stored))), later_post, answer),
    ensures
        later.key@ == store_key@,
        later_post.phase == DepthPhase::Done,
        answer == DepthAction::Reply(Ok(stored)),
{
}

} // verus!
