//! Frame persistence: file names for saved frames, and the encoding of a
//! frame buffer as a PNG image.
//!
//! Only the encoding itself calls outside the crate; everything around it
//! — validating a request, naming the file — is verified.

use vstd::prelude::*;
use vstd::string::StringExecFns;
use crate::event::{PersistenceError, SaveRequest};

verus! {

/// The decimal digit characters, least significant last.
pub open spec fn spec_digit_char(d: nat) -> char {
    if d == 0 {
        '0'
    } else if d == 1 {
        '1'
    } else if d == 2 {
        '2'
    } else if d == 3 {
        '3'
    } else if d == 4 {
        '4'
    } else if d == 5 {
        '5'
    } else if d == 6 {
        '6'
    } else if d == 7 {
        '7'
    } else if d == 8 {
        '8'
    } else {
        '9'
    }
}

/// The decimal digits of a number, most significant first, no leading
/// zeros (a single zero for zero itself).
pub open spec fn spec_decimal(n: nat) -> Seq<char>
    decreases n,
{
    if n < 10 {
        seq![spec_digit_char(n)]
    } else {
        spec_decimal(n / 10).push(spec_digit_char(n % 10))
    }
}

/// The decimal digits of a number, zero-padded to at least four places.
pub open spec fn spec_padded_decimal(n: nat) -> Seq<char> {
    if n < 10 {
        seq!['0', '0', '0'] + spec_decimal(n)
    } else if n < 100 {
        seq!['0', '0'] + spec_decimal(n)
    } else if n < 1000 {
        seq!['0'] + spec_decimal(n)
    } else {
        spec_decimal(n)
    }
}

/// The file name a saved frame is written under.
pub open spec fn spec_frame_filename(index: nat) -> Seq<char> {
    "frame_"@ + spec_padded_decimal(index) + ".png"@
}

/// A one-character string for a decimal digit.
fn digit_str(d: u32) -> (r: &'static str)
    requires
        d < 10,
    ensures
        r@ =~= seq![spec_digit_char(d as nat)],
{
    proof {
        reveal_strlit("0");
        reveal_strlit("1");
        reveal_strlit("2");
        reveal_strlit("3");
        reveal_strlit("4");
        reveal_strlit("5");
        reveal_strlit("6");
        reveal_strlit("7");
        reveal_strlit("8");
        reveal_strlit("9");
    }
    match d {
        0 => "0",
        1 => "1",
        2 => "2",
        3 => "3",
        4 => "4",
        5 => "5",
        6 => "6",
        7 => "7",
        8 => "8",
        _ => "9",
    }
}

/// Appends the decimal digits of `n` to `out`.
fn append_decimal(out: &mut String, n: u32)
    ensures
        final(out)@ == old(out)@ + spec_decimal(n as nat),
    decreases n,
{
    if n >= 10 {
        append_decimal(out, n / 10);
        out.append(digit_str(n % 10));
        proof {
            assert(old(out)@ + spec_decimal(n as nat) =~= (old(out)@ + spec_decimal(
                n as nat / 10,
            )).push(spec_digit_char(n as nat % 10)));
        }
    } else {
        out.append(digit_str(n));
        proof {
            assert(old(out)@ + spec_decimal(n as nat) =~= old(out)@.push(
                spec_digit_char(n as nat),
            ));
        }
    }
}

/// Builds the file name for the frame with the given index:
/// `frame_` followed by the index, zero-padded to at least four digits,
/// followed by `.png`.
pub fn frame_filename(index: u32) -> (r: String)
    ensures
        r@ == spec_frame_filename(index as nat),
{
    proof {
        reveal_strlit("frame_");
        reveal_strlit("0");
        reveal_strlit("00");
        reveal_strlit("000");
        reveal_strlit(".png");
    }
    let mut out = "frame_".to_owned();
    if index < 10 {
        out.append("000");
        proof {
            assert(out@ =~= "frame_"@ + seq!['0', '0', '0']);
        }
    } else if index < 100 {
        out.append("00");
        proof {
            assert(out@ =~= "frame_"@ + seq!['0', '0']);
        }
    } else if index < 1000 {
        out.append("0");
        proof {
            assert(out@ =~= "frame_"@ + seq!['0']);
        }
    }
    append_decimal(&mut out, index);
    out.append(".png");
    proof {
        assert(out@ =~= spec_frame_filename(index as nat));
    }
    out
}

/// Distinct digits render as distinct characters.
proof fn lemma_digit_char_injective(a: nat, b: nat)
    requires
        a < 10,
        b < 10,
        spec_digit_char(a) == spec_digit_char(b),
    ensures
        a == b,
{
}

/// How long a decimal rendering is, by the number's magnitude.
proof fn lemma_decimal_len(n: nat)
    ensures
        n < 10 ==> spec_decimal(n).len() == 1,
        10 <= n < 100 ==> spec_decimal(n).len() == 2,
        100 <= n < 1000 ==> spec_decimal(n).len() == 3,
        1000 <= n < 10000 ==> spec_decimal(n).len() == 4,
        10000 <= n ==> spec_decimal(n).len() >= 5,
    decreases n,
{
    if n >= 10 {
        lemma_decimal_len(n / 10);
    }
}

/// Two numbers with the same decimal rendering are equal.
proof fn lemma_decimal_injective(a: nat, b: nat)
    requires
        spec_decimal(a) == spec_decimal(b),
    ensures
        a == b,
    decreases a,
{
    lemma_decimal_len(a);
    lemma_decimal_len(b);
    if a < 10 {
        assert(b < 10);
        assert(spec_decimal(a)[0] == spec_digit_char(a));
        assert(spec_decimal(b)[0] == spec_digit_char(b));
        lemma_digit_char_injective(a, b);
    } else {
        assert(b >= 10);
        assert(spec_decimal(a).last() == spec_digit_char(a % 10));
        assert(spec_decimal(b).last() == spec_digit_char(b % 10));
        lemma_digit_char_injective(a % 10, b % 10);
        assert(spec_decimal(a).drop_last() =~= spec_decimal(a / 10));
        assert(spec_decimal(b).drop_last() =~= spec_decimal(b / 10));
        lemma_decimal_injective(a / 10, b / 10);
        vstd::arithmetic::div_mod::lemma_fundamental_div_mod(a as int, 10);
        vstd::arithmetic::div_mod::lemma_fundamental_div_mod(b as int, 10);
    }
}

/// Below ten thousand, the padded rendering is exactly the four base-ten
/// digit characters, most significant first.
proof fn lemma_padded_decimal_expand4(n: nat)
    requires
        n < 10000,
    ensures
        spec_padded_decimal(n) == seq![
            spec_digit_char(n / 10 / 10 / 10),
            spec_digit_char(n / 10 / 10 % 10),
            spec_digit_char(n / 10 % 10),
            spec_digit_char(n % 10),
        ],
{
    if n < 10 {
        assert(spec_padded_decimal(n) =~= seq![
            spec_digit_char(n / 10 / 10 / 10),
            spec_digit_char(n / 10 / 10 % 10),
            spec_digit_char(n / 10 % 10),
            spec_digit_char(n % 10),
        ]);
    } else if n < 100 {
        assert(spec_decimal(n / 10) == seq![spec_digit_char(n / 10)]);
        assert(spec_padded_decimal(n) =~= seq![
            spec_digit_char(n / 10 / 10 / 10),
            spec_digit_char(n / 10 / 10 % 10),
            spec_digit_char(n / 10 % 10),
            spec_digit_char(n % 10),
        ]);
    } else if n < 1000 {
        assert(spec_decimal(n / 10 / 10) == seq![spec_digit_char(n / 10 / 10)]);
        assert(spec_decimal(n / 10) == spec_decimal(n / 10 / 10).push(
            spec_digit_char(n / 10 % 10),
        ));
        assert(spec_padded_decimal(n) =~= seq![
            spec_digit_char(n / 10 / 10 / 10),
            spec_digit_char(n / 10 / 10 % 10),
            spec_digit_char(n / 10 % 10),
            spec_digit_char(n % 10),
        ]);
    } else {
        assert(spec_decimal(n / 10 / 10 / 10) == seq![spec_digit_char(n / 10 / 10 / 10)]);
        assert(spec_decimal(n / 10 / 10) == spec_decimal(n / 10 / 10 / 10).push(
            spec_digit_char(n / 10 / 10 % 10),
        ));
        assert(spec_decimal(n / 10) == spec_decimal(n / 10 / 10).push(
            spec_digit_char(n / 10 % 10),
        ));
        assert(spec_padded_decimal(n) =~= seq![
            spec_digit_char(n / 10 / 10 / 10),
            spec_digit_char(n / 10 / 10 % 10),
            spec_digit_char(n / 10 % 10),
            spec_digit_char(n % 10),
        ]);
    }
}

/// Zero-padding keeps renderings distinct: two numbers with the same
/// padded rendering are equal.
pub proof fn lemma_padded_decimal_injective(a: nat, b: nat)
    requires
        spec_padded_decimal(a) == spec_padded_decimal(b),
    ensures
        a == b,
{
    lemma_decimal_len(a);
    lemma_decimal_len(b);
    if a < 10000 {
        lemma_padded_decimal_expand4(a);
        assert(spec_padded_decimal(a).len() == 4);
        assert(b < 10000);
        lemma_padded_decimal_expand4(b);
        lemma_digit_char_injective(a / 10 / 10 / 10, b / 10 / 10 / 10);
        lemma_digit_char_injective(a / 10 / 10 % 10, b / 10 / 10 % 10);
        lemma_digit_char_injective(a / 10 % 10, b / 10 % 10);
        lemma_digit_char_injective(a % 10, b % 10);
        vstd::arithmetic::div_mod::lemma_fundamental_div_mod(a as int, 10);
        vstd::arithmetic::div_mod::lemma_fundamental_div_mod(b as int, 10);
        vstd::arithmetic::div_mod::lemma_fundamental_div_mod(a as int / 10, 10);
        vstd::arithmetic::div_mod::lemma_fundamental_div_mod(b as int / 10, 10);
        vstd::arithmetic::div_mod::lemma_fundamental_div_mod(a as int / 10 / 10, 10);
        vstd::arithmetic::div_mod::lemma_fundamental_div_mod(b as int / 10 / 10, 10);
    } else {
        assert(b >= 10000);
        lemma_decimal_injective(a, b);
    }
}

/// Distinct frame indices never collide on a file name: the save quota
/// yields one file per frame index.
pub proof fn lemma_frame_filename_unique(a: u32, b: u32)
    requires
        a != b,
    ensures
        spec_frame_filename(a as nat) != spec_frame_filename(b as nat),
{
    reveal_strlit("frame_");
    reveal_strlit(".png");
    if spec_frame_filename(a as nat) == spec_frame_filename(b as nat) {
        let pa = spec_padded_decimal(a as nat);
        let pb = spec_padded_decimal(b as nat);
        let fa = spec_frame_filename(a as nat);
        let fb = spec_frame_filename(b as nat);
        assert(fa.len() == 6 + pa.len() + 4);
        assert(fb.len() == 6 + pb.len() + 4);
        assert(pa.len() == pb.len());
        assert forall|i: int| 0 <= i < pa.len() implies pa[i] == pb[i] by {
            assert(fa[6 + i] == pa[i]);
            assert(fb[6 + i] == pb[i]);
        }
        assert(pa =~= pb);
        lemma_padded_decimal_injective(a as nat, b as nat);
        assert(false);
    }
}

/// The PNG encoding of an RGBA frame: a pure function of the bytes and
/// the dimensions.
pub uninterp spec fn png_rgba_encoding(pixels: Seq<u8>, width: u32, height: u32) -> Seq<u8>;

/// Relies on png::Encoder (colour type RGBA, bit depth eight, writing into
/// an in-memory buffer): for positive dimensions and a buffer of exactly
/// width * height * 4 bytes every step succeeds, and the bytes written are
/// a deterministic function of the arguments alone.
#[verifier::external_body]
fn png_encode_rgba(pixels: &Vec<u8>, width: u32, height: u32) -> (r: Vec<u8>)
    requires
        width > 0,
        height > 0,
        pixels@.len() == width as nat * height as nat * 4,
    ensures
        r@ == png_rgba_encoding(pixels@, width, height),
{
    let mut out = Vec::new();
    let mut encoder = png::Encoder::new(std::io::Cursor::new(&mut out), width, height);
    encoder.set_color(png::ColorType::Rgba);
    encoder.set_depth(png::BitDepth::Eight);
    let mut writer = encoder.write_header().expect("write png header to memory");
    writer.write_image_data(pixels).expect("write png image data to memory");
    writer.finish().expect("finish in-memory png");
    out
}

/// Encodes one save request as a PNG image.
///
/// Succeeds exactly on requests whose buffer length matches their stated
/// dimensions; anything else is an encoding failure, which the worker
/// reports and survives.
pub fn encode_save_request(request: &SaveRequest) -> (r: Result<Vec<u8>, PersistenceError>)
    ensures
        request.encodable() ==> r is Ok && r->Ok_0@ == png_rgba_encoding(
            request.pixels@,
            request.width,
            request.height,
        ),
        !request.encodable() ==> r == Err::<Vec<u8>, PersistenceError>(
            PersistenceError::EncodeFailed,
        ),
{
    proof {
        assert((request.width as nat) * (request.height as nat) * 4 < 0x1_0000_0000_0000_0000_0
            * 4) by (nonlinear_arith)
            requires
                request.width <= 0xffff_ffff,
                request.height <= 0xffff_ffff,
        ;
    }
    let expected: u128 = (request.width as u128) * (request.height as u128) * 4;
    if request.width > 0 && request.height > 0 && (request.pixels.len() as u128) == expected {
        Ok(png_encode_rgba(&request.pixels, request.width, request.height))
    } else {
        Err(PersistenceError::EncodeFailed)
    }
}

} // verus!
