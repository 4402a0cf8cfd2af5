use vstd::prelude::*;
use crate::error::{AppError, ErrorKind};
use crate::text::{
    decimal, hex16, hex_fixed, lacks, lemma_hex_fixed, push_decimal,
    push_signed_decimal, signed_decimal,
};

verus! {

/// What the service reads of a model input or output declaration: whether it is
/// a tensor, whether its elements are `f32`, its shape (`-1` for a dynamic
/// dimension) and the textual form of its element type (or of its value type,
/// when it is not a tensor).
pub struct TensorInfo {
    pub is_tensor: bool,
    pub is_f32: bool,
    pub shape: Vec<i64>,
    pub type_text: String,
}

pub const FNV_OFFSET_BASIS: u64 = 0xcbf29ce484222325;

pub const FNV_PRIME: u64 = 0x100000001b3;

/// The 64-bit FNV-1a hash of a byte string.
pub open spec fn fnv1a64_spec(bytes: Seq<u8>) -> u64
    decreases bytes.len(),
{
    if bytes.len() == 0 {
        FNV_OFFSET_BASIS
    } else {
        (fnv1a64_spec(bytes.drop_last()) ^ (bytes.last() as u64)).wrapping_mul(FNV_PRIME)
    }
}

/// 64-bit FNV-1a on the raw bytes: the empty string hashes to the offset basis
/// `0xcbf29ce484222325`, and appending a byte XORs the byte's own value into
/// the hash and multiplies by the prime `0x100000001b3` modulo 2^64.
pub proof fn lemma_fnv1a64_steps(s: Seq<u8>, b: u8)
    ensures
        fnv1a64_spec(Seq::<u8>::empty()) == 0xcbf29ce484222325u64,
        fnv1a64_spec(s.push(b)) as nat == ((fnv1a64_spec(s) ^ (b as u64)) as nat * 0x100000001b3nat)
            % 0x1_0000_0000_0000_0000nat,
{
    assert(s.push(b).drop_last() =~= s);
}

/// Hashes `bytes` with 64-bit FNV-1a.
pub fn fnv1a64(bytes: &[u8]) -> (h: u64)
    ensures
        h == fnv1a64_spec(bytes@),
{
    let mut hash: u64 = FNV_OFFSET_BASIS;
    let n = bytes.len();
    for i in 0..n
        invariant
            n == bytes@.len(),
            hash == fnv1a64_spec(bytes@.take(i as int)),
    {
        assert(bytes@.take(i + 1).drop_last() =~= bytes@.take(i as int));
        hash = hash ^ (bytes[i] as u64);
        hash = hash.wrapping_mul(FNV_PRIME);
    }
    assert(bytes@.take(n as int) =~= bytes@);
    hash
}

/// The text from which a model fingerprint is hashed: the model path, the file
/// length, its modification time in milliseconds and the input size, separated
/// by NUL characters, followed by the preprocessing version.
pub open spec fn fingerprint_source(
    model_path: Seq<char>,
    file_len: nat,
    modified_ms: nat,
    input_width: nat,
    input_height: nat,
) -> Seq<char> {
    model_path + "\0"@ + decimal(file_len) + "\0"@ + decimal(modified_ms) + "\0"@ + decimal(
        input_width,
    ) + "\0"@ + decimal(input_height) + "\0preprocess-v1"@
}

/// The fingerprint of a model: the FNV-1a hash of the UTF-8 bytes of its
/// fingerprint source, as sixteen lowercase hexadecimal digits.
pub open spec fn model_fingerprint(
    model_path: Seq<char>,
    file_len: nat,
    modified_ms: nat,
    input_width: nat,
    input_height: nat,
) -> Seq<char> {
    hex_fixed(
        fnv1a64_spec(
            vstd::utf8::encode_utf8(
                fingerprint_source(model_path, file_len, modified_ms, input_width, input_height),
            ),
        ) as nat,
        16,
    )
}

/// Builds the fingerprint that ties cached results to one model file and input size.
pub fn build_model_fingerprint(
    model_path: &str,
    file_len: u64,
    modified_ms: u128,
    input_width: u32,
    input_height: u32,
) -> (fp: String)
    ensures
        fp@ == model_fingerprint(
            model_path@,
            file_len as nat,
            modified_ms as nat,
            input_width as nat,
            input_height as nat,
        ),
        fp@.len() == 16,
        lacks(fp@, ':'),
{
    let mut raw = String::new();
    raw.append(model_path);
    raw.append("\0");
    push_decimal(&mut raw, file_len as u128);
    raw.append("\0");
    push_decimal(&mut raw, modified_ms);
    raw.append("\0");
    push_decimal(&mut raw, input_width as u128);
    raw.append("\0");
    push_decimal(&mut raw, input_height as u128);
    raw.append("\0preprocess-v1");
    assert(raw@ =~= fingerprint_source(
        model_path@,
        file_len as nat,
        modified_ms as nat,
        input_width as nat,
        input_height as nat,
    ));
    let bytes = raw.as_str().as_bytes();
    let h = fnv1a64(bytes);
    let fp = hex16(h);
    proof {
        lemma_hex_fixed(h as nat, 16);
        reveal_strlit(":");
        assert forall|i: int| 0 <= i < fp@.len() implies fp@[i] != ':' by {
            let c = fp@[i];
            assert(('0' <= c && c <= '9') || ('a' <= c && c <= 'f'));
        }
    }
    fp
}

/// The textual form of a list of dimensions, as Rust prints a list of integers:
/// `[1, 3, -1, -1]`.
pub open spec fn dims_text(dims: Seq<i64>) -> Seq<char> {
    "["@ + dims_joined(dims) + "]"@
}

pub open spec fn dims_joined(dims: Seq<i64>) -> Seq<char>
    decreases dims.len(),
{
    if dims.len() == 0 {
        seq![]
    } else if dims.len() == 1 {
        signed_decimal(dims[0] as int)
    } else {
        dims_joined(dims.drop_last()) + ", "@ + signed_decimal(dims.last() as int)
    }
}

/// Formats a list of dimensions as `[d0, d1, ...]`.
pub fn format_dims(dims: &[i64]) -> (s: String)
    ensures
        s@ == dims_text(dims@),
{
    let mut s = String::new();
    s.append("[");
    let n = dims.len();
    for i in 0..n
        invariant
            n == dims@.len(),
            s@ == "["@ + dims_joined(dims@.take(i as int)),
    {
        if i > 0 {
            s.append(", ");
        }
        push_signed_decimal(&mut s, dims[i]);
        proof {
            let t = dims@.take(i + 1);
            assert(t.drop_last() =~= dims@.take(i as int));
            assert(t.last() == dims@[i as int]);
            if i == 0 {
                assert(dims@.take(i as int) =~= Seq::<i64>::empty());
                assert(s@ =~= "["@ + dims_joined(t));
            } else {
                assert(s@ =~= "["@ + dims_joined(t));
            }
        }
    }
    assert(dims@.take(n as int) =~= dims@);
    s.append("]");
    s
}

/// How a model dimension is resolved: a positive dimension is used as it is
/// (when it fits in `u32`), a dynamic one falls back to `fallback` (when that is
/// positive); otherwise the message of the failure.
pub open spec fn dim_outcome(dim: i64, fallback: u32, label: Seq<char>) -> Result<u32, Seq<char>> {
    if dim > 0 {
        if dim <= u32::MAX {
            Ok(dim as u32)
        } else {
            Err(label + " 超出 u32 范围"@)
        }
    } else if fallback > 0 {
        Ok(fallback)
    } else {
        Err(label + " 是动态维度，但 fallback target_size 无效"@)
    }
}

/// The result matches the outcome, with model-metadata errors.
pub open spec fn matches_outcome<T>(res: Result<T, AppError>, outcome: Result<T, Seq<char>>, kind: ErrorKind) -> bool {
    match outcome {
        Ok(v) => res matches Ok(r) && r == v,
        Err(m) => res matches Err(e) && e.kind() == kind && e.msg() == m,
    }
}

fn labelled_error(kind: ErrorKind, label: &str, text: &str) -> (e: AppError)
    ensures
        e.kind() == kind,
        e.msg() == label@ + text@,
{
    let mut m = label.to_owned();
    m.append(text);
    AppError::new(kind, m)
}

/// A fixed dimension is used as it is when it fits in `u32`; a dynamic one
/// (zero or negative) takes the fallback when that is positive; any other
/// dimension is refused.
pub proof fn lemma_model_dim_resolution(dim: i64, fallback: u32, label: Seq<char>)
    ensures
        0 < dim <= u32::MAX ==> dim_outcome(dim, fallback, label) == Ok::<u32, Seq<char>>(dim as u32),
        dim <= 0 && fallback > 0 ==> dim_outcome(dim, fallback, label) == Ok::<u32, Seq<char>>(fallback),
        dim > u32::MAX || (dim <= 0 && fallback == 0) ==> dim_outcome(dim, fallback, label) is Err,
{
}

/// Resolves one spatial dimension of the model input.
pub fn resolve_model_dim(dim: i64, fallback: u32, label: &str) -> (res: Result<u32, AppError>)
    ensures
        matches_outcome(res, dim_outcome(dim, fallback, label@), ErrorKind::ModelMetadata),
{
    if dim > 0 {
        if dim <= u32::MAX as i64 {
            Ok(dim as u32)
        } else {
            Err(labelled_error(ErrorKind::ModelMetadata, label, " 超出 u32 范围"))
        }
    } else if fallback > 0 {
        Ok(fallback)
    } else {
        Err(labelled_error(ErrorKind::ModelMetadata, label, " 是动态维度，但 fallback target_size 无效"))
    }
}

/// How the input size `(width, height)` of an NCHW model is resolved, or the
/// message of the first problem with the input declaration.
pub open spec fn nchw_outcome(info: &TensorInfo, fallback: u32) -> Result<(u32, u32), Seq<char>> {
    let shape = info.shape@;
    if !info.is_tensor {
        Err("模型输入必须是 tensor，当前为 "@ + info.type_text@)
    } else if !info.is_f32 {
        Err("模型输入必须是 f32 tensor，当前为 "@ + info.type_text@)
    } else if shape.len() != 4 {
        Err("模型输入必须是 NCHW 4 维张量，当前 shape 为 "@ + dims_text(shape))
    } else if shape[1] > 0 && shape[1] != 3 {
        Err("模型输入通道数必须为 3，当前 shape 为 "@ + dims_text(shape))
    } else {
        match dim_outcome(shape[2], fallback, "输入高度"@) {
            Err(m) => Err(m),
            Ok(h) => match dim_outcome(shape[3], fallback, "输入宽度"@) {
                Err(m) => Err(m),
                Ok(w) => Ok((w, h)),
            },
        }
    }
}

fn prefixed_error(kind: ErrorKind, text: &str, detail: &str) -> (e: AppError)
    ensures
        e.kind() == kind,
        e.msg() == text@ + detail@,
{
    let mut m = text.to_owned();
    m.append(detail);
    AppError::new(kind, m)
}

/// A model input whose channel dimension is fixed to anything but three is
/// refused: only three channels, or a dynamic channel dimension, pass.
pub proof fn lemma_nchw_needs_three_channels(info: TensorInfo, fallback: u32)
    requires
        nchw_outcome(&info, fallback) is Ok,
    ensures
        info.is_tensor,
        info.is_f32,
        info.shape@.len() == 4,
        info.shape@[1] == 3 || info.shape@[1] <= 0,
{
}

/// The input size of an NCHW model is `(width, height)`: the width is the last
/// dimension and the height the one before it, each taken as it is when fixed
/// and as `fallback` when dynamic.
pub proof fn lemma_nchw_width_is_last_dimension(info: TensorInfo, fallback: u32)
    requires
        info.is_tensor,
        info.is_f32,
        info.shape@.len() == 4,
        info.shape@[1] == 3 || info.shape@[1] <= 0,
        info.shape@[2] <= u32::MAX,
        info.shape@[3] <= u32::MAX,
        info.shape@[2] > 0 || fallback > 0,
        info.shape@[3] > 0 || fallback > 0,
    ensures
        nchw_outcome(&info, fallback) matches Ok((w, h)) && {
            &&& info.shape@[3] > 0 ==> w == info.shape@[3]
            &&& info.shape@[3] <= 0 ==> w == fallback
            &&& info.shape@[2] > 0 ==> h == info.shape@[2]
            &&& info.shape@[2] <= 0 ==> h == fallback
        },
{
}

/// Reads the input size `(width, height)` of a model whose input is an NCHW
/// `f32` tensor with three channels; dynamic dimensions take `fallback`.
pub fn resolve_nchw_input_size(input: &TensorInfo, fallback: u32) -> (res: Result<(u32, u32), AppError>)
    ensures
        matches_outcome(res, nchw_outcome(input, fallback), ErrorKind::ModelMetadata),
        res matches Ok((w, h)) ==> {
            &&& input.shape@.len() == 4
            &&& input.shape@[1] == 3 || input.shape@[1] <= 0
            &&& input.shape@[3] > 0 ==> w == input.shape@[3]
            &&& input.shape@[3] <= 0 ==> w == fallback
            &&& input.shape@[2] > 0 ==> h == input.shape@[2]
            &&& input.shape@[2] <= 0 ==> h == fallback
        },
{
    if !input.is_tensor {
        return Err(
            prefixed_error(ErrorKind::ModelMetadata, "模型输入必须是 tensor，当前为 ", input.type_text.as_str()),
        );
    }
    if !input.is_f32 {
        return Err(
            prefixed_error(ErrorKind::ModelMetadata, "模型输入必须是 f32 tensor，当前为 ", input.type_text.as_str()),
        );
    }
    if input.shape.len() != 4 {
        let t = format_dims(input.shape.as_slice());
        return Err(prefixed_error(ErrorKind::ModelMetadata, "模型输入必须是 NCHW 4 维张量，当前 shape 为 ", t.as_str()));
    }
    if input.shape[1] > 0 && input.shape[1] != 3 {
        let t = format_dims(input.shape.as_slice());
        return Err(prefixed_error(ErrorKind::ModelMetadata, "模型输入通道数必须为 3，当前 shape 为 ", t.as_str()));
    }
    let height = match resolve_model_dim(input.shape[2], fallback, "输入高度") {
        Ok(h) => h,
        Err(e) => return Err(e),
    };
    let width = match resolve_model_dim(input.shape[3], fallback, "输入宽度") {
        Ok(w) => w,
        Err(e) => return Err(e),
    };
    Ok((width, height))
}

/// The message of the first problem with the output declaration of a depth
/// model, or `None` when it is an `f32` tensor of rank two to four.
pub open spec fn depth_output_problem(info: &TensorInfo) -> Option<Seq<char>> {
    if !info.is_tensor {
        Some("模型输出必须是 tensor，当前为 "@ + info.type_text@)
    } else if !info.is_f32 {
        Some("模型输出必须是 f32 tensor，当前为 "@ + info.type_text@)
    } else if !(2 <= info.shape@.len() <= 4) {
        Some("模型输出必须是 2 到 4 维深度张量，当前 shape 为 "@ + dims_text(info.shape@))
    } else {
        None
    }
}

/// A model output is usable exactly when it is an `f32` tensor of rank two,
/// three or four.
pub proof fn lemma_depth_output_accepted(info: TensorInfo)
    ensures
        depth_output_problem(&info) is None <==> (info.is_tensor && info.is_f32 && (info.shape@.len() == 2
            || info.shape@.len() == 3 || info.shape@.len() == 4)),
{
}

/// Checks that the model output is an `f32` tensor of rank two to four.
pub fn validate_depth_output(output: &TensorInfo) -> (res: Result<(), AppError>)
    ensures
        match depth_output_problem(output) {
            None => res is Ok,
            Some(m) => res matches Err(e) && e.kind() == ErrorKind::ModelMetadata && e.msg() == m,
        },
{
    if !output.is_tensor {
        return Err(
            prefixed_error(ErrorKind::ModelMetadata, "模型输出必须是 tensor，当前为 ", output.type_text.as_str()),
        );
    }
    if !output.is_f32 {
        return Err(
            prefixed_error(ErrorKind::ModelMetadata, "模型输出必须是 f32 tensor，当前为 ", output.type_text.as_str()),
        );
    }
    let n = output.shape.len();
    if !(2 <= n && n <= 4) {
        let t = format_dims(output.shape.as_slice());
        return Err(
            prefixed_error(ErrorKind::ModelMetadata, "模型输出必须是 2 到 4 维深度张量，当前 shape 为 ", t.as_str()),
        );
    }
    Ok(())
}

/// Every dimension is a valid `usize`.
pub open spec fn dims_fit_usize(shape: Seq<i64>) -> bool {
    forall|i: int| 0 <= i < shape.len() ==> 0 <= #[trigger] shape[i] <= usize::MAX
}

/// The `(height, width)` of a depth output of shape `[h, w]`, `[1, h, w]` or
/// `[1, 1, h, w]`, if it has one of these shapes.
pub open spec fn depth_plane(shape: Seq<i64>) -> Option<(int, int)> {
    if shape.len() == 2 {
        Some((shape[0] as int, shape[1] as int))
    } else if shape.len() == 3 && shape[0] == 1 {
        Some((shape[1] as int, shape[2] as int))
    } else if shape.len() == 4 && shape[0] == 1 && shape[1] == 1 {
        Some((shape[2] as int, shape[3] as int))
    } else {
        None
    }
}

/// How a depth output of the given shape and element count is read as a
/// `(height, width)` plane, or the message of the failure.
pub open spec fn squeeze_outcome(shape: Seq<i64>, data_len: nat) -> Result<(usize, usize), Seq<char>> {
    if !dims_fit_usize(shape) {
        Err("深度输出包含非法维度: "@ + dims_text(shape))
    } else {
        match depth_plane(shape) {
            None => Err("不支持的深度输出 shape: "@ + dims_text(shape)),
            Some((h, w)) => if h == 0 || w == 0 {
                Err("深度输出尺寸为空"@)
            } else if data_len != h * w {
                Err("深度输出元素数量不匹配，shape="@ + dims_text(shape) + ", len="@ + decimal(data_len))
            } else {
                Ok((h as usize, w as usize))
            },
        }
    }
}

/// A depth output of shape `[h, w]`, `[1, h, w]` or `[1, 1, h, w]` with
/// positive `h`, `w` and `h * w` elements is read as height `h` (the
/// second-to-last dimension) and width `w` (the last dimension).
pub proof fn lemma_squeeze_reads_last_two_dimensions(shape: Seq<i64>, data_len: nat)
    requires
        shape.len() == 2 || (shape.len() == 3 && shape[0] == 1) || (shape.len() == 4 && shape[0] == 1
            && shape[1] == 1),
        0 < shape[shape.len() - 2] <= usize::MAX,
        0 < shape[shape.len() - 1] <= usize::MAX,
        data_len == shape[shape.len() - 2] * shape[shape.len() - 1],
    ensures
        squeeze_outcome(shape, data_len) == Ok::<(usize, usize), Seq<char>>(
            (shape[shape.len() - 2] as usize, shape[shape.len() - 1] as usize),
        ),
{
    assert(dims_fit_usize(shape));
}

/// Only a plane is read: a depth output is accepted only when its shape is
/// `[h, w]`, `[1, h, w]` or `[1, 1, h, w]` with positive `h` and `w` and it holds
/// exactly `h * w` elements.
pub proof fn lemma_squeeze_accepts_only_planes(shape: Seq<i64>, data_len: nat)
    requires
        squeeze_outcome(shape, data_len) is Ok,
    ensures
        shape.len() == 2 || (shape.len() == 3 && shape[0] == 1) || (shape.len() == 4 && shape[0] == 1
            && shape[1] == 1),
        shape[shape.len() - 2] > 0,
        shape[shape.len() - 1] > 0,
        data_len == shape[shape.len() - 2] * shape[shape.len() - 1],
{
}

/// Reads the `(height, width)` of a depth output from its shape, checking that
/// it holds `data_len` elements.
pub fn squeeze_depth_to_2d(shape: &[i64], data_len: usize) -> (res: Result<(usize, usize), AppError>)
    ensures
        matches_outcome(res, squeeze_outcome(shape@, data_len as nat), ErrorKind::InferenceFailed),
        res matches Ok((h, w)) ==> h > 0 && w > 0 && h * w == data_len && h == shape@[shape@.len() - 2]
            && w == shape@[shape@.len() - 1],
{
    let n = shape.len();
    let mut all_fit = true;
    for i in 0..n
        invariant
            n == shape@.len(),
            all_fit == (forall|j: int| 0 <= j < i ==> 0 <= #[trigger] shape@[j] <= usize::MAX),
    {
        if shape[i] < 0 || shape[i] as u64 > usize::MAX as u64 {
            all_fit = false;
        }
    }
    if !all_fit {
        let t = format_dims(shape);
        return Err(prefixed_error(ErrorKind::InferenceFailed, "深度输出包含非法维度: ", t.as_str()));
    }
    let (h, w): (i64, i64) = if n == 2 {
        (shape[0], shape[1])
    } else if n == 3 && shape[0] == 1 {
        (shape[1], shape[2])
    } else if n == 4 && shape[0] == 1 && shape[1] == 1 {
        (shape[2], shape[3])
    } else {
        let t = format_dims(shape);
        return Err(prefixed_error(ErrorKind::InferenceFailed, "不支持的深度输出 shape: ", t.as_str()));
    };
    if h == 0 || w == 0 {
        return Err(AppError::InferenceFailed("深度输出尺寸为空".to_owned()));
    }
    let height = h as usize;
    let width = w as usize;
    assert((height as u128) * (width as u128) <= u128::MAX) by (nonlinear_arith)
        requires
            height <= u64::MAX,
            width <= u64::MAX,
    ;
    if (height as u128) * (width as u128) != data_len as u128 {
        let mut m = "深度输出元素数量不匹配，shape=".to_owned();
        let t = format_dims(shape);
        m.append(t.as_str());
        m.append(", len=");
        push_decimal(&mut m, data_len as u128);
        return Err(AppError::InferenceFailed(m));
    }
    Ok((height, width))
}

/// How the first input and first output declarations of a model are checked:
/// both must exist; then the input size is resolved and the output checked.
pub open spec fn model_io_outcome(input: Option<TensorInfo>, output: Option<TensorInfo>, fallback: u32) -> Result<
    (u32, u32),
    Seq<char>,
> {
    match (input, output) {
        (None, _) => Err("模型没有输入"@),
        (Some(_), None) => Err("模型没有输出"@),
        (Some(i), Some(o)) => match nchw_outcome(&i, fallback) {
            Err(m) => Err(m),
            Ok(size) => match depth_output_problem(&o) {
                Some(m) => Err(m),
                None => Ok(size),
            },
        },
    }
}

/// A model whose first input resolves to a size, and whose first output is a
/// usable depth tensor, passes the model check with that very input size.
pub proof fn lemma_model_io_keeps_input_size(input: TensorInfo, output: TensorInfo, fallback: u32, size: (u32, u32))
    requires
        nchw_outcome(&input, fallback) == Ok::<(u32, u32), Seq<char>>(size),
        depth_output_problem(&output) is None,
    ensures
        model_io_outcome(Some(input), Some(output), fallback) == Ok::<(u32, u32), Seq<char>>(size),
{
}

/// Checks the first input and first output of a model and returns the input
/// size `(width, height)`.
pub fn check_model_io(input: Option<&TensorInfo>, output: Option<&TensorInfo>, fallback: u32) -> (res:
    Result<(u32, u32), AppError>)
    ensures
        matches_outcome(
            res,
            model_io_outcome(
                match input {
                    Some(i) => Some(*i),
                    None => None,
                },
                match output {
                    Some(o) => Some(*o),
                    None => None,
                },
                fallback,
            ),
            ErrorKind::ModelMetadata,
        ),
{
    let input = match input {
        Some(i) => i,
        None => return Err(AppError::ModelMetadata("模型没有输入".to_owned())),
    };
    let output = match output {
        Some(o) => o,
        None => return Err(AppError::ModelMetadata("模型没有输出".to_owned())),
    };
    let size = match resolve_nchw_input_size(input, fallback) {
        Ok(size) => size,
        Err(e) => return Err(e),
    };
    match validate_depth_output(output) {
        Ok(()) => Ok(size),
        Err(e) => Err(e),
    }
}

} // verus!
