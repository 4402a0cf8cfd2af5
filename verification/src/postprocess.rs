use vstd::prelude::*;
use crate::error::{AppError, ErrorKind};
use crate::imaging::{catmull_rom_resized, encode_png_gray, png_encoded_gray, resize_gray_catmull_rom};
use crate::preprocess::{starts_with, PreprocessMeta};

verus! {

/// An 8-bit grayscale image: `data` holds one byte per pixel, row by row.
pub struct GrayPixels {
    pub width: u32,
    pub height: u32,
    pub data: Vec<u8>,
}

impl GrayPixels {
    pub open spec fn wf(&self) -> bool {
        self.data@.len() == self.width * self.height
    }
}

/// The base64 alphabet of RFC 4648: `A-Z`, `a-z`, `0-9`, `+`, `/`.
pub open spec fn b64_char(v: nat) -> char {
    if v < 26 {
        (65 + v) as char
    } else if v < 52 {
        (71 + v) as char
    } else if v < 62 {
        (v - 4) as char
    } else if v == 62 {
        '+'
    } else {
        '/'
    }
}

/// The base64 alphabet of RFC 4648, by position.
pub open spec fn b64_alphabet() -> Seq<char> {
    "ABCDEFGHIJKLMNOPQRSTUVWXYZabcdefghijklmnopqrstuvwxyz0123456789+/"@
}

/// The base64 digit of each six-bit value is the character at that position of
/// the RFC 4648 alphabet.
pub proof fn lemma_b64_alphabet(v: nat)
    requires
        v < 64,
    ensures
        b64_char(v) == b64_alphabet()[v as int],
{
    reveal_strlit("ABCDEFGHIJKLMNOPQRSTUVWXYZabcdefghijklmnopqrstuvwxyz0123456789+/");
}

/// Standard base64 (RFC 4648) with `=` padding.
pub open spec fn base64_standard(b: Seq<u8>) -> Seq<char>
    decreases b.len(),
{
    if b.len() == 0 {
        seq![]
    } else if b.len() == 1 {
        seq![b64_char((b[0] / 4) as nat), b64_char(((b[0] % 4) * 16) as nat), '=', '=']
    } else if b.len() == 2 {
        seq![
            b64_char((b[0] / 4) as nat),
            b64_char(((b[0] % 4) * 16 + b[1] / 16) as nat),
            b64_char(((b[1] % 16) * 4) as nat),
            '=',
        ]
    } else {
        seq![
            b64_char((b[0] / 4) as nat),
            b64_char(((b[0] % 4) * 16 + b[1] / 16) as nat),
            b64_char(((b[1] % 16) * 4 + b[2] / 64) as nat),
            b64_char((b[2] % 64) as nat),
        ] + base64_standard(b.skip(3))
    }
}

/// Calls `Engine::encode` of the `STANDARD` engine of the base64 crate. The
/// contract claims that it produces standard base64 with padding, as its
/// documentation and RFC 4648 define it.
#[verifier::external_body]
fn base64_encode(bytes: &[u8]) -> (s: String)
    requires
        bytes@.len() / 3 * 4 + 4 <= usize::MAX,
    ensures
        s@ == base64_standard(bytes@),
{
    base64::Engine::encode(&base64::engine::general_purpose::STANDARD, bytes)
}

/// Base64 writes four characters for every started group of three bytes.
pub proof fn lemma_base64_len(b: Seq<u8>)
    ensures
        base64_standard(b).len() == (b.len() + 2) / 3 * 4,
    decreases b.len(),
{
    if b.len() >= 3 {
        lemma_base64_len(b.skip(3));
    }
}

/// Three bytes, read as one 24-bit big-endian number, are written as its four
/// 6-bit digits, most significant first.
pub proof fn lemma_base64_three_bytes(b: Seq<u8>)
    requires
        b.len() == 3,
    ensures
        ({
            let n = b[0] as nat * 65536 + b[1] as nat * 256 + b[2] as nat;
            base64_standard(b) == seq![
                b64_alphabet()[((n / 262144) % 64) as int],
                b64_alphabet()[((n / 4096) % 64) as int],
                b64_alphabet()[((n / 64) % 64) as int],
                b64_alphabet()[(n % 64) as int],
            ]
        }),
{
    let (x, y, z) = (b[0], b[1], b[2]);
    let n = x as nat * 65536 + y as nat * 256 + z as nat;
    assert((n / 262144) % 64 == x / 4 && (n / 4096) % 64 == (x % 4) * 16 + y / 16 && (n / 64) % 64
        == (y % 16) * 4 + z / 64 && n % 64 == z % 64) by (nonlinear_arith)
        requires
            n == x as nat * 65536 + y as nat * 256 + z as nat,
            x < 256,
            y < 256,
            z < 256,
    ;
    lemma_b64_alphabet((x / 4) as nat);
    lemma_b64_alphabet(((x % 4) * 16 + y / 16) as nat);
    lemma_b64_alphabet(((y % 16) * 4 + z / 64) as nat);
    lemma_b64_alphabet((z % 64) as nat);
    assert(b.skip(3) =~= Seq::<u8>::empty());
    assert(base64_standard(b.skip(3)) =~= Seq::<char>::empty());
    assert(base64_standard(b) =~= seq![
        b64_alphabet()[((n / 262144) % 64) as int],
        b64_alphabet()[((n / 4096) % 64) as int],
        b64_alphabet()[((n / 64) % 64) as int],
        b64_alphabet()[(n % 64) as int],
    ]);
}

/// A last group of one or two bytes is padded with zero bits to a whole number
/// of 6-bit digits (two or three) and then with `=` to four characters.
pub proof fn lemma_base64_padding(b: Seq<u8>)
    requires
        b.len() == 1 || b.len() == 2,
    ensures
        b.len() == 1 ==> ({
            let n = b[0] as nat * 16;
            base64_standard(b) == seq![
                b64_alphabet()[((n / 64) % 64) as int],
                b64_alphabet()[(n % 64) as int],
                '=',
                '=',
            ]
        }),
        b.len() == 2 ==> ({
            let n = (b[0] as nat * 256 + b[1] as nat) * 4;
            base64_standard(b) == seq![
                b64_alphabet()[((n / 4096) % 64) as int],
                b64_alphabet()[((n / 64) % 64) as int],
                b64_alphabet()[(n % 64) as int],
                '=',
            ]
        }),
{
    let x = b[0];
    if b.len() == 1 {
        let n = x as nat * 16;
        assert((n / 64) % 64 == x / 4 && n % 64 == (x % 4) * 16) by (nonlinear_arith)
            requires
                n == x as nat * 16,
                x < 256,
        ;
        lemma_b64_alphabet((x / 4) as nat);
        lemma_b64_alphabet(((x % 4) * 16) as nat);
        assert(base64_standard(b) =~= seq![
            b64_alphabet()[((n / 64) % 64) as int],
            b64_alphabet()[(n % 64) as int],
            '=',
            '=',
        ]);
    } else {
        let y = b[1];
        let n = (x as nat * 256 + y as nat) * 4;
        assert((n / 4096) % 64 == x / 4 && (n / 64) % 64 == (x % 4) * 16 + y / 16 && n % 64 == (y % 16)
            * 4) by (nonlinear_arith)
            requires
                n == (x as nat * 256 + y as nat) * 4,
                x < 256,
                y < 256,
        ;
        lemma_b64_alphabet((x / 4) as nat);
        lemma_b64_alphabet(((x % 4) * 16 + y / 16) as nat);
        lemma_b64_alphabet(((y % 16) * 4) as nat);
        assert(base64_standard(b) =~= seq![
            b64_alphabet()[((n / 4096) % 64) as int],
            b64_alphabet()[((n / 64) % 64) as int],
            b64_alphabet()[(n % 64) as int],
            '=',
        ]);
    }
}

/// Base64 works group by group: bytes split after a multiple of three are
/// encoded as the encoding of each part, one after the other.
pub proof fn lemma_base64_concat(a: Seq<u8>, c: Seq<u8>)
    requires
        a.len() % 3 == 0,
    ensures
        base64_standard(a + c) == base64_standard(a) + base64_standard(c),
    decreases a.len(),
{
    if a.len() == 0 {
        assert(a + c =~= c);
        assert(base64_standard(a) =~= Seq::<char>::empty());
        assert(base64_standard(a) + base64_standard(c) =~= base64_standard(c));
    } else {
        lemma_base64_concat(a.skip(3), c);
        assert((a + c).skip(3) =~= a.skip(3) + c);
        assert((a + c)[0] == a[0] && (a + c)[1] == a[1] && (a + c)[2] == a[2]);
        let g = seq![
            b64_char((a[0] / 4) as nat),
            b64_char(((a[0] % 4) * 16 + a[1] / 16) as nat),
            b64_char(((a[1] % 16) * 4 + a[2] / 64) as nat),
            b64_char((a[2] % 64) as nat),
        ];
        assert(base64_standard(a + c) == g + base64_standard(a.skip(3) + c));
        assert(base64_standard(a) == g + base64_standard(a.skip(3)));
        assert(g + (base64_standard(a.skip(3)) + base64_standard(c)) =~= (g + base64_standard(a.skip(3)))
            + base64_standard(c));
    }
}

/// A PNG image as a data URL.
pub open spec fn png_data_url(png: Seq<u8>) -> Seq<char> {
    "data:image/png;base64,"@ + base64_standard(png)
}

/// The result agrees with what the PNG encoder made of an image: its data URL,
/// or an internal error naming the encoder's error after `PNG 编码失败: `.
pub open spec fn url_outcome(res: Result<String, AppError>, png: Option<Seq<u8>>) -> bool {
    match png {
        Some(png) => res matches Ok(url) && url@ == png_data_url(png),
        None => res matches Err(e) && e.kind() == ErrorKind::Internal && starts_with(
            e.msg(),
            "PNG 编码失败: "@,
        ),
    }
}

/// Encodes an 8-bit grayscale image as PNG and returns it as a
/// `data:image/png;base64,` URL.
pub fn encode_data_url(width: u32, height: u32, pixels: &[u8]) -> (res: Result<String, AppError>)
    requires
        pixels@.len() == width * height,
    ensures
        url_outcome(res, png_encoded_gray(width, height, pixels@)),
{
    match encode_png_gray(width, height, pixels) {
        Ok(png) => {
            let mut url = "data:image/png;base64,".to_owned();
            let encoded = base64_encode(png.as_slice());
            url.append(encoded.as_str());
            Ok(url)
        },
        Err(e) => {
            let mut m = "PNG 编码失败: ".to_owned();
            let text = e.to_string();
            m.append(text.as_str());
            proof {
                reveal_strlit("PNG 编码失败: ");
                assert(m@.take("PNG 编码失败: "@.len() as int) =~= "PNG 编码失败: "@);
            }
            Err(AppError::Internal(m))
        },
    }
}

/// `pixels` may be the depth image at the output size: it has that size; it is
/// the depth image itself when that already has the output size, and otherwise
/// what the Catmull-Rom resize of the depth image to the output size can give.
pub open spec fn gray_candidate(gray: &GrayPixels, meta: PreprocessMeta, pixels: Seq<u8>) -> bool {
    &&& pixels.len() == meta.output_width * meta.output_height
    &&& if gray.width == meta.output_width && gray.height == meta.output_height {
        pixels == gray.data@
    } else {
        catmull_rom_resized(
            gray.width,
            gray.height,
            gray.data@,
            meta.output_width,
            meta.output_height,
            pixels,
        )
    }
}

/// Brings the grayscale depth image to the output size (with the Catmull-Rom
/// filter when it differs) and returns it as a PNG data URL.
pub fn gray_to_data_url(gray: &GrayPixels, meta: &PreprocessMeta) -> (res: Result<String, AppError>)
    requires
        gray.wf(),
        meta.output_width as nat * meta.output_height as nat <= usize::MAX,
        gray.width as nat * meta.output_height as nat * 4 <= usize::MAX,
    ensures
        exists|pixels: Seq<u8>|
            #[trigger] gray_candidate(gray, *meta, pixels) && url_outcome(
                res,
                png_encoded_gray(meta.output_width, meta.output_height, pixels),
            ),
{
    let resized;
    let out: &[u8] = if gray.width == meta.output_width && gray.height == meta.output_height {
        gray.data.as_slice()
    } else {
        resized = resize_gray_catmull_rom(
            gray.width,
            gray.height,
            gray.data.as_slice(),
            meta.output_width,
            meta.output_height,
        );
        resized.as_slice()
    };
    let res = encode_data_url(meta.output_width, meta.output_height, out);
    assert(gray_candidate(gray, *meta, out@));
    res
}

} // verus!
