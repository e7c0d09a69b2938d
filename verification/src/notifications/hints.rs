//! Decoding the hints of a D-Bus `Notify` call: urgency, strings, flags, and the raw
//! `image-data` pixels, which are repacked row by row and re-encoded as base64 PNG.
use vstd::prelude::*;
use base64::Engine;
use image::ImageEncoder;
use crate::notifications::types::{NotificationImage, NotificationImageView, Urgency};
use crate::text::str_eq;

verus! {

/// A D-Bus variant value, as far as hints use them.
#[derive(Debug)]
pub enum HintValue {
    U8(u8),
    I32(i32),
    Bool(bool),
    Str(String),
    Structure(Vec<HintValue>),
    Array(Vec<HintValue>),
    /// Any other D-Bus type.
    Other,
}

/// The value of the first hint named `key`.
pub open spec fn hint(hints: Seq<(String, HintValue)>, key: Seq<char>) -> Option<HintValue>
    decreases hints.len(),
{
    if hints.len() == 0 {
        None
    } else {
        match hint(hints.drop_last(), key) {
            Some(v) => Some(v),
            None => if hints.last().0@ == key {
                Some(hints.last().1)
            } else {
                None
            },
        }
    }
}

proof fn lemma_hint_prefix(hints: Seq<(String, HintValue)>, key: Seq<char>, k: int)
    requires
        0 <= k <= hints.len(),
        hint(hints.take(k), key) is Some,
    ensures
        hint(hints, key) == hint(hints.take(k), key),
    decreases hints.len(),
{
    if k < hints.len() {
        assert(hints.drop_last().take(k) =~= hints.take(k));
        lemma_hint_prefix(hints.drop_last(), key, k);
    } else {
        assert(hints.take(k) =~= hints);
    }
}

/// The index of the first hint named `key`.
fn find_hint(hints: &Vec<(String, HintValue)>, key: &str) -> (r: Option<usize>)
    ensures
        match r {
            Some(i) => i < hints.len() && hint(hints@, key@) == Some(hints@[i as int].1),
            None => hint(hints@, key@) is None,
        },
{
    let mut i: usize = 0;
    while i < hints.len()
        invariant
            i <= hints.len(),
            hint(hints@.take(i as int), key@) is None,
        decreases hints.len() - i,
    {
        proof {
            assert(hints@.take(i + 1).drop_last() =~= hints@.take(i as int));
        }
        if str_eq(&hints[i].0, key) {
            proof {
                lemma_hint_prefix(hints@, key@, i + 1);
            }
            return Some(i);
        }
        i += 1;
    }
    proof {
        assert(hints@.take(hints.len() as int) =~= hints@);
    }
    None
}

/// The urgency hint: 0, 1 and 2 as a byte are low, normal and critical; anything else,
/// or no hint, is normal.
pub open spec fn urgency_of(hints: Seq<(String, HintValue)>) -> Urgency {
    match hint(hints, "urgency"@) {
        Some(HintValue::U8(0)) => Urgency::Low,
        Some(HintValue::U8(2)) => Urgency::Critical,
        _ => Urgency::Normal,
    }
}

/// The urgency of a notification, from its hints.
pub fn decode_urgency(hints: &Vec<(String, HintValue)>) -> (r: Urgency)
    ensures
        r == urgency_of(hints@),
{
    match find_hint(hints, "urgency") {
        Some(i) => match &hints[i].1 {
            HintValue::U8(0) => Urgency::Low,
            HintValue::U8(1) => Urgency::Normal,
            HintValue::U8(2) => Urgency::Critical,
            _ => Urgency::Normal,
        },
        None => Urgency::Normal,
    }
}

/// The string hint `key`, when there is one of string type.
pub open spec fn str_hint(hints: Seq<(String, HintValue)>, key: Seq<char>) -> Option<Seq<char>> {
    match hint(hints, key) {
        Some(HintValue::Str(s)) => Some(s@),
        _ => None,
    }
}

/// The string hint `key`.
pub fn decode_str_hint(hints: &Vec<(String, HintValue)>, key: &str) -> (r: Option<String>)
    ensures
        crate::launcher::types::opt_view(r) == str_hint(hints@, key@),
{
    match find_hint(hints, key) {
        Some(i) => match &hints[i].1 {
            HintValue::Str(s) => Some(s.clone()),
            _ => None,
        },
        None => None,
    }
}

/// The boolean hint `key`; false when absent or not boolean.
pub open spec fn bool_hint(hints: Seq<(String, HintValue)>, key: Seq<char>) -> bool {
    match hint(hints, key) {
        Some(HintValue::Bool(b)) => b,
        _ => false,
    }
}

/// The boolean hint `key`.
pub fn decode_bool_hint(hints: &Vec<(String, HintValue)>, key: &str) -> (r: bool)
    ensures
        r == bool_hint(hints@, key@),
{
    match find_hint(hints, key) {
        Some(i) => match &hints[i].1 {
            HintValue::Bool(b) => *b,
            _ => false,
        },
        None => false,
    }
}

// ── Images ────────────────────────────────────────────────────────────────────

/// The base64 alphabet (standard, RFC 4648).
pub open spec fn b64_char(v: nat) -> char {
    if v < 26 {
        (65 + v) as char
    } else if v < 52 {
        (71 + v) as char
    } else if v < 62 {
        (v - 4) as char
    } else if v == 62 {
        '+'
    } else {
        '/'
    }
}

/// Standard base64 with `=` padding: every three bytes become four characters of six bits
/// each; a final one or two bytes become two or three characters and padding.
pub open spec fn base64_standard(b: Seq<u8>) -> Seq<char>
    decreases b.len(),
{
    if b.len() == 0 {
        Seq::empty()
    } else if b.len() == 1 {
        let n: nat = b[0] as nat * 65536;
        seq![b64_char(n / 262144), b64_char((n / 4096) % 64), '=', '=']
    } else if b.len() == 2 {
        let n: nat = b[0] as nat * 65536 + b[1] as nat * 256;
        seq![b64_char(n / 262144), b64_char((n / 4096) % 64), b64_char((n / 64) % 64), '=']
    } else {
        let n: nat = b[0] as nat * 65536 + b[1] as nat * 256 + b[2] as nat;
        seq![
            b64_char(n / 262144),
            b64_char((n / 4096) % 64),
            b64_char((n / 64) % 64),
            b64_char(n % 64),
        ] + base64_standard(b.skip(3))
    }
}

/// `base64::engine::general_purpose::STANDARD.encode`: standard base64 with padding.
#[verifier::external_body]
fn base64_encode(bytes: &[u8]) -> (r: String)
    ensures
        r@ == base64_standard(bytes@),
{
    base64::engine::general_purpose::STANDARD.encode(bytes)
}

/// The PNG file that `image`'s `PngEncoder` (default compression and filter) writes for
/// `width` × `height` 8-bit pixels, RGBA when `rgba` and RGB otherwise, or `None` when it
/// reports an error.
pub uninterp spec fn png_encoded(pixels: Seq<u8>, width: u32, height: u32, rgba: bool) -> Option<
    Seq<u8>,
>;

/// `image::codecs::png::PngEncoder::write_image` into a fresh buffer, with color type
/// `Rgba8` or `Rgb8`. It asserts that the buffer holds exactly `width * height` pixels,
/// hence the `requires`.
#[verifier::external_body]
fn png_encode(pixels: &[u8], width: u32, height: u32, rgba: bool) -> (r: Option<Vec<u8>>)
    requires
        pixels.len() == width as int * height as int * (if rgba { 4int } else { 3int }),
    ensures
        match r {
            Some(v) => png_encoded(pixels@, width, height, rgba) == Some(v@),
            None => png_encoded(pixels@, width, height, rgba) is None,
        },
{
    let color = if rgba {
        image::ExtendedColorType::Rgba8
    } else {
        image::ExtendedColorType::Rgb8
    };
    let mut buf = Vec::new();
    let encoder = image::codecs::png::PngEncoder::new(&mut buf);
    match encoder.write_image(pixels, width, height, color) {
        Ok(()) => Some(buf),
        Err(_) => None,
    }
}

/// The rows `0..rows` of an image, each `row_bytes` long and starting every `stride` bytes
/// of `pixels`, packed together; `None` when a row runs past the end of `pixels`.
pub open spec fn repacked(pixels: Seq<u8>, rows: nat, stride: nat, row_bytes: nat) -> Option<
    Seq<u8>,
>
    decreases rows,
{
    if rows == 0 {
        Some(Seq::empty())
    } else {
        match repacked(pixels, (rows - 1) as nat, stride, row_bytes) {
            Some(p) => {
                let start = (rows - 1) * stride;
                if start + row_bytes > pixels.len() {
                    None
                } else {
                    Some(p + pixels.subrange(start as int, start + row_bytes))
                }
            },
            None => None,
        }
    }
}

proof fn lemma_repacked_len(pixels: Seq<u8>, rows: nat, stride: nat, row_bytes: nat)
    ensures
        repacked(pixels, rows, stride, row_bytes) matches Some(p) ==> p.len() == rows * row_bytes,
    decreases rows,
{
    if rows > 0 {
        lemma_repacked_len(pixels, (rows - 1) as nat, stride, row_bytes);
        match repacked(pixels, (rows - 1) as nat, stride, row_bytes) {
            Some(p) => {
                let start = (rows - 1) * stride;
                if start + row_bytes <= pixels.len() {
                    let q = p + pixels.subrange(start as int, start + row_bytes);
                    assert(q.len() == p.len() + row_bytes);
                    assert(repacked(pixels, rows, stride, row_bytes) == Some(q));
                    assert(p.len() == (rows - 1) * row_bytes);
                    assert((rows - 1) * row_bytes + row_bytes == rows * row_bytes)
                        by (nonlinear_arith);
                }
            },
            None => {},
        }
    } else {
        assert(rows * row_bytes == 0) by (nonlinear_arith)
            requires
                rows == 0,
        ;
        assert(repacked(pixels, rows, stride, row_bytes) == Some(Seq::<u8>::empty()));
    }
}

proof fn lemma_repacked_stays_none(pixels: Seq<u8>, k: nat, n: nat, stride: nat, row_bytes: nat)
    requires
        k <= n,
        repacked(pixels, k, stride, row_bytes) is None,
    ensures
        repacked(pixels, n, stride, row_bytes) is None,
    decreases n - k,
{
    if k < n {
        lemma_repacked_stays_none(pixels, k + 1, n, stride, row_bytes);
    }
}

/// The pixel rows of an image, without the padding of its stride.
fn repack_rows(pixels: &Vec<u8>, rows: u32, stride: u32, row_bytes: u64) -> (r: Option<Vec<u8>>)
    requires
        row_bytes <= 4 * 0xFFFF_FFFFu64,
    ensures
        match r {
            Some(v) => repacked(pixels@, rows as nat, stride as nat, row_bytes as nat) == Some(v@),
            None => repacked(pixels@, rows as nat, stride as nat, row_bytes as nat) is None,
        },
{
    let mut packed: Vec<u8> = Vec::new();
    let mut row: u32 = 0;
    while row < rows
        invariant
            row <= rows,
            row_bytes <= 4 * 0xFFFF_FFFFu64,
            repacked(pixels@, row as nat, stride as nat, row_bytes as nat) == Some(packed@),
        decreases rows - row,
    {
        proof {
            assert((row as u128) * (stride as u128) <= 0xFFFF_FFFFu128 * 0xFFFF_FFFFu128)
                by (nonlinear_arith)
                requires
                    row <= 0xFFFF_FFFFu32,
                    stride <= 0xFFFF_FFFFu32,
            ;
        }
        let start: u128 = (row as u128) * (stride as u128);
        let end: u128 = start + row_bytes as u128;
        if end > pixels.len() as u128 {
            proof {
                assert(repacked(pixels@, (row + 1) as nat, stride as nat, row_bytes as nat) is None);
                lemma_repacked_stays_none(
                    pixels@,
                    (row + 1) as nat,
                    rows as nat,
                    stride as nat,
                    row_bytes as nat,
                );
            }
            return None;
        }
        let s = start as usize;
        let e = end as usize;
        let ghost before = packed@;
        let mut k: usize = s;
        while k < e
            invariant
                s <= k <= e <= pixels.len(),
                packed@ == before + pixels@.subrange(s as int, k as int),
            decreases e - k,
        {
            packed.push(pixels[k]);
            proof {
                assert(packed@ =~= before + pixels@.subrange(s as int, k + 1));
            }
            k += 1;
        }
        proof {
            assert(packed@ =~= before + pixels@.subrange(s as int, e as int));
        }
        row += 1;
    }
    Some(packed)
}

/// The value of an `i32` variant.
pub open spec fn as_i32(v: HintValue) -> Option<i32> {
    match v {
        HintValue::I32(x) => Some(x),
        _ => None,
    }
}

/// The value of a boolean variant.
pub open spec fn as_bool(v: HintValue) -> Option<bool> {
    match v {
        HintValue::Bool(x) => Some(x),
        _ => None,
    }
}

/// The bytes among a list of values (others are skipped).
pub open spec fn bytes_of(s: Seq<HintValue>) -> Seq<u8>
    decreases s.len(),
{
    if s.len() == 0 {
        Seq::empty()
    } else {
        match s.last() {
            HintValue::U8(b) => bytes_of(s.drop_last()).push(b),
            _ => bytes_of(s.drop_last()),
        }
    }
}

/// The image hint: `image-data`, else the deprecated `image_data`, else `icon_data`.
pub open spec fn image_hint(hints: Seq<(String, HintValue)>) -> Option<HintValue> {
    match hint(hints, "image-data"@) {
        Some(v) => Some(v),
        None => match hint(hints, "image_data"@) {
            Some(v) => Some(v),
            None => hint(hints, "icon_data"@),
        },
    }
}

/// The `(iiibiiay)` fields of an image hint: width, height, rowstride, has-alpha,
/// bits per sample, channels and the pixel bytes.
pub open spec fn image_fields(v: HintValue) -> Option<(i32, i32, i32, bool, i32, i32, Seq<u8>)> {
    match v {
        HintValue::Structure(fs) => if fs@.len() >= 7 && as_i32(fs@[0]) is Some && as_i32(fs@[1]) is Some
            && as_i32(fs@[2]) is Some && as_bool(fs@[3]) is Some && as_i32(fs@[4]) is Some
            && as_i32(fs@[5]) is Some && fs@[6] is Array {
            Some(
                (
                    as_i32(fs@[0])->0,
                    as_i32(fs@[1])->0,
                    as_i32(fs@[2])->0,
                    as_bool(fs@[3])->0,
                    as_i32(fs@[4])->0,
                    as_i32(fs@[5])->0,
                    bytes_of(fs@[6]->Array_0@),
                ),
            )
        } else {
            None
        },
        _ => None,
    }
}

/// The image a notification's hints carry: its pixel rows (RGBA with 4 channels and alpha,
/// RGB with 3 and none; other layouts are dropped) re-encoded as PNG, in base64.
pub open spec fn image_of(hints: Seq<(String, HintValue)>) -> Option<NotificationImageView> {
    match image_hint(hints) {
        Some(v) => match image_fields(v) {
            Some((w, h, rs, alpha, bps, ch, px)) => {
                let rgba = ch == 4 && alpha;
                if !(rgba || (ch == 3 && !alpha)) {
                    None
                } else {
                    match repacked(px, (h as u32) as nat, (rs as u32) as nat, (w as u32) as nat * (ch as u32) as nat) {
                        Some(packed) => match png_encoded(packed, w as u32, h as u32, rgba) {
                            Some(png) => Some(
                                NotificationImageView {
                                    width: w,
                                    height: h,
                                    rowstride: rs,
                                    has_alpha: alpha,
                                    bits_per_sample: bps,
                                    channels: ch,
                                    data_b64: base64_standard(png),
                                },
                            ),
                            None => None,
                        },
                        None => None,
                    }
                }
            },
            None => None,
        },
        None => None,
    }
}

fn image_value(hints: &Vec<(String, HintValue)>) -> (r: Option<usize>)
    ensures
        match r {
            Some(i) => i < hints.len() && image_hint(hints@) == Some(hints@[i as int].1),
            None => image_hint(hints@) is None,
        },
{
    match find_hint(hints, "image-data") {
        Some(i) => Some(i),
        None => match find_hint(hints, "image_data") {
            Some(i) => Some(i),
            None => find_hint(hints, "icon_data"),
        },
    }
}

fn collect_bytes(items: &Vec<HintValue>) -> (r: Vec<u8>)
    ensures
        r@ == bytes_of(items@),
{
    let mut r: Vec<u8> = Vec::new();
    let mut i: usize = 0;
    while i < items.len()
        invariant
            i <= items.len(),
            r@ == bytes_of(items@.take(i as int)),
        decreases items.len() - i,
    {
        proof {
            assert(items@.take(i + 1).drop_last() =~= items@.take(i as int));
        }
        match &items[i] {
            HintValue::U8(b) => r.push(*b),
            _ => {},
        }
        i += 1;
    }
    proof {
        assert(items@.take(items.len() as int) =~= items@);
    }
    r
}

/// The image a notification's hints carry, as base64 PNG.
pub fn decode_image_data(hints: &Vec<(String, HintValue)>) -> (r: Option<NotificationImage>)
    ensures
        crate::notifications::types::opt_image_view(r) == image_of(hints@),
{
    let idx = match image_value(hints) {
        Some(i) => i,
        None => return None,
    };
    let fields = match &hints[idx].1 {
        HintValue::Structure(fs) => fs,
        _ => return None,
    };
    if fields.len() < 7 {
        return None;
    }
    let width = match &fields[0] {
        HintValue::I32(v) => *v,
        _ => return None,
    };
    let height = match &fields[1] {
        HintValue::I32(v) => *v,
        _ => return None,
    };
    let rowstride = match &fields[2] {
        HintValue::I32(v) => *v,
        _ => return None,
    };
    let has_alpha = match &fields[3] {
        HintValue::Bool(v) => *v,
        _ => return None,
    };
    let bits_per_sample = match &fields[4] {
        HintValue::I32(v) => *v,
        _ => return None,
    };
    let channels = match &fields[5] {
        HintValue::I32(v) => *v,
        _ => return None,
    };
    let pixel_bytes = match &fields[6] {
        HintValue::Array(arr) => collect_bytes(arr),
        _ => return None,
    };
    let rgba = channels == 4 && has_alpha;
    if !(rgba || (channels == 3 && !has_alpha)) {
        return None;
    }
    let w = #[verifier::truncate] (width as u32);
    let h = #[verifier::truncate] (height as u32);
    let ch = channels as u32;
    proof {
        assert((w as u64) * (ch as u64) <= 4 * 0xFFFF_FFFFu64) by (nonlinear_arith)
            requires
                w <= 0xFFFF_FFFFu32,
                ch <= 4,
        ;
    }
    let row_bytes: u64 = (w as u64) * (ch as u64);
    let packed = match repack_rows(&pixel_bytes, h, #[verifier::truncate] (rowstride as u32), row_bytes) {
        Some(p) => p,
        None => return None,
    };
    proof {
        lemma_repacked_len(pixel_bytes@, h as nat, rowstride as u32 as nat, row_bytes as nat);
        assert(packed@.len() == w as int * h as int * (if rgba { 4int } else { 3int }))
            by (nonlinear_arith)
            requires
                packed@.len() == h as nat * row_bytes as nat,
                row_bytes == w as nat * ch as nat,
                rgba ==> ch == 4,
                !rgba ==> ch == 3,
        ;
    }
    let png = match png_encode(packed.as_slice(), w, h, rgba) {
        Some(p) => p,
        None => return None,
    };
    Some(
        NotificationImage {
            width,
            height,
            rowstride,
            has_alpha,
            bits_per_sample,
            channels,
            data_b64: base64_encode(png.as_slice()),
        },
    )
}


/// Which image layouts are kept: with 4 channels and alpha the rows are encoded as an RGBA
/// PNG, with 3 channels and no alpha as an RGB PNG, each of the hint's width and height;
/// every other layout is dropped.
pub proof fn lemma_image_layouts(
    hints: Seq<(String, HintValue)>,
    v: HintValue,
    w: i32,
    h: i32,
    rs: i32,
    alpha: bool,
    bps: i32,
    ch: i32,
    px: Seq<u8>,
    packed: Seq<u8>,
    png: Seq<u8>,
)
    requires
        image_hint(hints) == Some(v),
        image_fields(v) == Some((w, h, rs, alpha, bps, ch, px)),
    ensures
        !((ch == 4 && alpha) || (ch == 3 && !alpha)) ==> image_of(hints) is None,
        ch == 4 && alpha && repacked(px, (h as u32) as nat, (rs as u32) as nat, (w as u32) as nat * 4)
            == Some(packed) && png_encoded(packed, w as u32, h as u32, true) == Some(png)
            ==> image_of(hints) == Some(
                NotificationImageView {
                    width: w,
                    height: h,
                    rowstride: rs,
                    has_alpha: true,
                    bits_per_sample: bps,
                    channels: 4,
                    data_b64: base64_standard(png),
                },
            ),
        ch == 3 && !alpha && repacked(px, (h as u32) as nat, (rs as u32) as nat, (w as u32) as nat * 3)
            == Some(packed) && png_encoded(packed, w as u32, h as u32, false) == Some(png)
            ==> image_of(hints) == Some(
                NotificationImageView {
                    width: w,
                    height: h,
                    rowstride: rs,
                    has_alpha: false,
                    bits_per_sample: bps,
                    channels: 3,
                    data_b64: base64_standard(png),
                },
            ),
{
    assert((4i32 as u32) as nat == 4);
    assert((3i32 as u32) as nat == 3);
}

} // verus!
