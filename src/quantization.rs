//! Integer side of the quantization codec: saturation, two's-complement
//! bytes, 4-bit packing and sign extension.
//!
//! A float `x` enters the codec as its code `round(x / scale)` (rounded half
//! away from zero, saturated to `i32`); a decoded value `v` leaves it as
//! `v * scale`. Those two float steps are the caller's; everything between
//! them is here.

use vstd::prelude::*;
use crate::error::CoreError;
use crate::tensor::{DType, Tensor, shape_product};

verus! {

/// Quantization scheme.
#[derive(Debug, Clone, Copy, PartialEq, Eq, Structural)]
pub enum QuantScheme {
    /// 8-bit codes, zero point nominally zero.
    Int8Symmetric,
    /// 8-bit codes shifted by a zero point.
    Int8Asymmetric,
    /// 4-bit codes, two per byte, first element in the high nibble.
    Int4,
}

/// `x` saturated to `[lo, hi]`.
pub open spec fn clamp(x: int, lo: int, hi: int) -> int {
    if x < lo {
        lo
    } else if x > hi {
        hi
    } else {
        x
    }
}

/// Two's-complement byte of `q`, for `q` in `[-128, 127]`.
pub open spec fn byte_of(q: int) -> u8 {
    (if q < 0 {
        q + 256
    } else {
        q
    }) as u8
}

/// The byte `b` read as a signed 8-bit integer.
pub open spec fn signed_of(b: u8) -> int {
    if b >= 128 {
        b - 256
    } else {
        b as int
    }
}

/// Low four bits of `q`, for `q` in `[-8, 7]`: `q & 0xF`.
pub open spec fn nibble_of(q: int) -> int {
    if q < 0 {
        q + 16
    } else {
        q
    }
}

/// A 4-bit two's-complement value widened: bit 3 set means `n - 16`.
pub open spec fn sign_extend(n: int) -> int {
    if n >= 8 {
        n - 16
    } else {
        n
    }
}

/// Stored 8-bit code for the rounded value `r` under zero point `zp`.
pub open spec fn int8_code(r: int, zp: int) -> int {
    clamp(r + zp, -128, 127)
}

/// Stored 4-bit code for the rounded value `r`.
pub open spec fn int4_code(r: int) -> int {
    clamp(r, -8, 7)
}

/// Bytes of an I8 tensor holding `codes`: one byte per element.
pub open spec fn int8_encoded(codes: Seq<i32>, zp: int) -> Seq<u8> {
    Seq::new(codes.len(), |i: int| byte_of(int8_code(codes[i] as int, zp)))
}

/// Bytes of an I4 tensor holding `codes`: element `2k` in the high nibble of
/// byte `k`, element `2k + 1` (or zero past the end) in its low nibble.
pub open spec fn int4_encoded(codes: Seq<i32>) -> Seq<u8> {
    Seq::new(
        (codes.len() + 1) / 2,
        |k: int|
            (nibble_of(int4_code(codes[2 * k] as int)) * 16 + if 2 * k + 1 < codes.len() {
                nibble_of(int4_code(codes[2 * k + 1] as int))
            } else {
                0
            }) as u8,
    )
}

/// Values of the I8 bytes `data` with the zero point removed.
pub open spec fn int8_decoded(data: Seq<u8>, zp: int) -> Seq<int> {
    Seq::new(data.len(), |i: int| signed_of(data[i]) - zp)
}

/// Values of the I4 bytes `data`, high nibble first, cut to `n` elements.
pub open spec fn int4_decoded(data: Seq<u8>, n: nat) -> Seq<int> {
    Seq::new(
        if 2 * data.len() < n {
            2 * data.len()
        } else {
            n
        },
        |i: int|
            if i % 2 == 0 {
                sign_extend(data[i / 2] as int / 16)
            } else {
                sign_extend(data[i / 2] as int % 16)
            },
    )
}

/// The decoded values as mathematical integers.
pub open spec fn as_ints(v: Seq<i64>) -> Seq<int> {
    v.map_values(|x: i64| x as int)
}

/// Stored byte for the rounded value `r` under zero point `zero_point`.
fn int8_byte(r: i32, zero_point: i32) -> (b: u8)
    ensures
        b == byte_of(int8_code(r as int, zero_point as int)),
{
    let q: i64 = r as i64 + zero_point as i64;
    let c: i64 = if q < -128 {
        -128
    } else if q > 127 {
        127
    } else {
        q
    };
    if c < 0 {
        (c + 256) as u8
    } else {
        c as u8
    }
}

/// Low nibble of the 4-bit code for the rounded value `r`: `code & 0xF`.
fn int4_nibble(r: i32) -> (n: u8)
    ensures
        n == nibble_of(int4_code(r as int)),
        n < 16,
{
    let c: i8 = if r < -8 {
        -8
    } else if r > 7 {
        7
    } else {
        r as i8
    };
    let low = c & 0x0F;
    assert(-8 <= c <= 7 ==> (c & 0x0Fi8) == if c < 0 {
        (c + 16) as i8
    } else {
        c
    }) by (bit_vector);
    low as u8
}

/// One I4 byte from two nibbles: `hi << 4 | lo`.
fn pack_nibbles(hi: u8, lo: u8) -> (b: u8)
    requires
        hi < 16,
        lo < 16,
    ensures
        b == hi * 16 + lo,
{
    assert(hi < 16 && lo < 16 ==> (hi << 4u8) | lo == hi * 16 + lo) by (bit_vector);
    (hi << 4) | lo
}

/// Widens a 4-bit two's-complement nibble to a signed byte.
pub fn sign_extend_nibble(n: u8) -> (r: i8)
    requires
        n < 16,
    ensures
        r == sign_extend(n as int),
{
    let bit3 = n & 0x08;
    assert(n < 16 ==> ((n & 0x08u8) != 0 <==> n >= 8)) by (bit_vector);
    if bit3 != 0 {
        n as i8 - 16
    } else {
        n as i8
    }
}

/// Quantizes the F32 tensor `tensor`, whose elements enter as their rounded
/// codes `codes` (`codes[i]` is `round(x_i / scale)`).
///
/// The 8-bit schemes store `clamp(codes[i] + zero_point, -128, 127)` as one
/// signed byte each; `Int4` stores `clamp(codes[i], -8, 7)` two to a byte. The
/// result keeps the shape; a tensor of another type is refused.
pub fn quantize_codes(tensor: &Tensor, codes: &Vec<i32>, zero_point: i32, scheme: QuantScheme) -> (r:
    Result<Tensor, CoreError>)
    ensures
        tensor.dtype != DType::F32 <==> r matches Err(CoreError::QuantizationError(_)),
        tensor.dtype == DType::F32 && scheme != QuantScheme::Int4 ==> {
            &&& r is Ok <==> tensor.count() <= usize::MAX && codes@.len() == tensor.count()
            &&& r matches Ok(t) ==> t.shape@ == tensor.shape@ && t.dtype == DType::I8 && t.data@
                == int8_encoded(codes@, zero_point as int) && t.wf()
            &&& r is Err ==> r matches Err(CoreError::InvalidDimension(_))
        },
        tensor.dtype == DType::F32 && scheme == QuantScheme::Int4 ==> {
            &&& r is Ok <==> tensor.count() <= usize::MAX && codes@.len() == tensor.count()
            &&& r matches Ok(t) ==> t.shape@ == tensor.shape@ && t.dtype == DType::I4 && t.data@
                == int4_encoded(codes@) && t.wf()
            &&& r is Err ==> r matches Err(CoreError::InvalidDimension(_))
        },
{
    if tensor.dtype != DType::F32 {
        return Err(CoreError::QuantizationError(String::from_str("only F32 tensors can be quantized")));
    }
    match scheme {
        QuantScheme::Int8Symmetric | QuantScheme::Int8Asymmetric => {
            let mut bytes: Vec<u8> = Vec::new();
            let mut i: usize = 0;
            while i < codes.len()
                invariant
                    i <= codes@.len(),
                    bytes@ =~= int8_encoded(codes@, zero_point as int).subrange(0, i as int),
                decreases codes@.len() - i,
            {
                bytes.push(int8_byte(codes[i], zero_point));
                i = i + 1;
            }
            assert(bytes@ =~= int8_encoded(codes@, zero_point as int));
            Tensor::from_data(tensor.shape.clone(), DType::I8, bytes)
        },
        QuantScheme::Int4 => {
            let n = codes.len();
            match crate::tensor::checked_numel(&tensor.shape) {
                Some(count) => {
                    if count != n {
                        return Err(
                            CoreError::InvalidDimension(
                                String::from_str("code count does not match the element count"),
                            ),
                        );
                    }
                },
                None => {
                    return Err(
                        CoreError::InvalidDimension(
                            String::from_str("element count of the shape does not fit in memory"),
                        ),
                    );
                },
            }
            let mut packed: Vec<u8> = Vec::new();
            let mut k: usize = 0;
            while k < n / 2 + n % 2
                invariant
                    n == codes@.len(),
                    k <= n / 2 + n % 2,
                    packed@ =~= int4_encoded(codes@).subrange(0, k as int),
                decreases n / 2 + n % 2 - k,
            {
                let hi = int4_nibble(codes[2 * k]);
                let lo = if 2 * k + 1 < n {
                    int4_nibble(codes[2 * k + 1])
                } else {
                    0
                };
                packed.push(pack_nibbles(hi, lo));
                k = k + 1;
            }
            assert(packed@ =~= int4_encoded(codes@));
            Tensor::from_data(tensor.shape.clone(), DType::I4, packed)
        },
    }
}

/// Decodes a quantized tensor to integer values, to be multiplied by the
/// scale: for I8, each signed byte less `zero_point`; for I4, each nibble
/// sign-extended, high nibble first, cut to the element count (a padding
/// nibble is dropped). The value count must equal the element count; a
/// tensor of another type is refused.
pub fn dequantize_codes(tensor: &Tensor, zero_point: i32) -> (r: Result<Vec<i64>, CoreError>)
    ensures
        tensor.dtype != DType::I8 && tensor.dtype != DType::I4 <==> r matches Err(
            CoreError::QuantizationError(_),
        ),
        tensor.dtype == DType::I8 ==> {
            &&& r is Ok <==> tensor.count() <= usize::MAX && tensor.data@.len() == tensor.count()
            &&& r matches Ok(v) ==> as_ints(v@) == int8_decoded(tensor.data@, zero_point as int)
            &&& r is Err ==> r matches Err(CoreError::InvalidDimension(_))
        },
        tensor.dtype == DType::I4 ==> {
            &&& r is Ok <==> tensor.count() <= usize::MAX && 2 * tensor.data@.len()
                >= tensor.count()
            &&& r matches Ok(v) ==> as_ints(v@) == int4_decoded(tensor.data@, tensor.count())
                && v@.len() == tensor.count()
            &&& r is Err ==> r matches Err(CoreError::InvalidDimension(_))
        },
{
    let count = crate::tensor::checked_numel(&tensor.shape);
    match tensor.dtype {
        DType::I8 => {
            let data = &tensor.data;
            let mut out: Vec<i64> = Vec::new();
            let mut i: usize = 0;
            while i < data.len()
                invariant
                    i <= data@.len(),
                    as_ints(out@) =~= int8_decoded(data@, zero_point as int).subrange(0, i as int),
                decreases data@.len() - i,
            {
                let b = data[i];
                let q: i64 = if b >= 128 {
                    b as i64 - 256
                } else {
                    b as i64
                };
                let ghost prev = out@;
                out.push(q - zero_point as i64);
                assert(as_ints(out@) =~= as_ints(prev).push(signed_of(b) - zero_point));
                i = i + 1;
            }
            assert(as_ints(out@) =~= int8_decoded(data@, zero_point as int));
            match count {
                Some(n) => {
                    if out.len() == n {
                        Ok(out)
                    } else {
                        Err(
                            CoreError::InvalidDimension(
                                String::from_str("value count does not match the element count"),
                            ),
                        )
                    }
                },
                None => Err(
                    CoreError::InvalidDimension(
                        String::from_str("element count of the shape does not fit in memory"),
                    ),
                ),
            }
        },
        DType::I4 => {
            let n = match count {
                Some(n) => n,
                None => {
                    return Err(
                        CoreError::InvalidDimension(
                            String::from_str("element count of the shape does not fit in memory"),
                        ),
                    );
                },
            };
            let data = &tensor.data;
            let ghost want = int4_decoded(data@, n as nat);
            let mut out: Vec<i64> = Vec::new();
            let mut i: usize = 0;
            while i < data.len()
                invariant
                    i <= data@.len(),
                    n == shape_product(tensor.shape@),
                    want == int4_decoded(data@, n as nat),
                    out@.len() == if 2 * i < n {
                        2 * i
                    } else {
                        n as int
                    },
                    as_ints(out@) =~= want.subrange(0, out@.len() as int),
                decreases data@.len() - i,
            {
                let b = data[i];
                assert(b >> 4u8 == b / 16u8 && b & 0x0Fu8 == b % 16u8) by (bit_vector);
                let hi = sign_extend_nibble(b >> 4);
                let lo = sign_extend_nibble(b & 0x0F);
                if out.len() < n {
                    out.push(hi as i64);
                    proof {
                        assert(as_ints(out@) =~= as_ints(out@.drop_last()).push(out@.last() as int));
                    }
                }
                if out.len() < n {
                    out.push(lo as i64);
                    proof {
                        assert(as_ints(out@) =~= as_ints(out@.drop_last()).push(out@.last() as int));
                    }
                }
                i = i + 1;
            }
            assert(as_ints(out@) =~= want);
            if out.len() == n {
                Ok(out)
            } else {
                Err(
                    CoreError::InvalidDimension(
                        String::from_str("value count does not match the element count"),
                    ),
                )
            }
        },
        _ => Err(
            CoreError::QuantizationError(String::from_str("only I8 or I4 tensors can be dequantized")),
        ),
    }
}

/// Decoding the bytes that the 8-bit encoder stored gives, for each code,
/// the code shifted by the zero point, saturated to `[-128, 127]`, and shifted
/// back; so a code whose shifted value lies in that range comes back exactly,
/// and the value count equals the code count.
pub proof fn lemma_int8_round_trip(codes: Seq<i32>, zero_point: i32)
    ensures
        int8_decoded(int8_encoded(codes, zero_point as int), zero_point as int).len()
            == codes.len(),
        forall|i: int|
            0 <= i < codes.len() ==> #[trigger] int8_decoded(
                int8_encoded(codes, zero_point as int),
                zero_point as int,
            )[i] == int8_code(codes[i] as int, zero_point as int) - zero_point,
        forall|i: int|
            0 <= i < codes.len() && -128 <= codes[i] + zero_point <= 127 ==> #[trigger] int8_decoded(
                int8_encoded(codes, zero_point as int),
                zero_point as int,
            )[i] == codes[i],
{
    let zp = zero_point as int;
    assert forall|i: int| 0 <= i < codes.len() implies #[trigger] int8_decoded(
        int8_encoded(codes, zp),
        zp,
    )[i] == int8_code(codes[i] as int, zp) - zp by {
        let q = int8_code(codes[i] as int, zp);
        assert(int8_encoded(codes, zp)[i] == byte_of(q));
        assert(signed_of(byte_of(q)) == q);
    }
}

/// Decoding the bytes that the 4-bit encoder packed, cut to the code count,
/// gives exactly one value per code (no padding nibble for an odd count),
/// each the code saturated to `[-8, 7]`; a code in that range comes back
/// exactly.
pub proof fn lemma_int4_round_trip(codes: Seq<i32>)
    ensures
        int4_decoded(int4_encoded(codes), codes.len()).len() == codes.len(),
        forall|i: int|
            0 <= i < codes.len() ==> #[trigger] int4_decoded(int4_encoded(codes), codes.len())[i]
                == int4_code(codes[i] as int),
        forall|i: int|
            0 <= i < codes.len() && -8 <= codes[i] <= 7 ==> #[trigger] int4_decoded(
                int4_encoded(codes),
                codes.len(),
            )[i] == codes[i],
{
    let enc = int4_encoded(codes);
    assert forall|i: int| 0 <= i < codes.len() implies #[trigger] int4_decoded(
        enc,
        codes.len(),
    )[i] == int4_code(codes[i] as int) by {
        let k = i / 2;
        let n1 = nibble_of(int4_code(codes[2 * k] as int));
        let n2 = if 2 * k + 1 < codes.len() {
            nibble_of(int4_code(codes[2 * k + 1] as int))
        } else {
            0
        };
        assert(0 <= n1 < 16 && 0 <= n2 < 16);
        assert((n1 * 16 + n2) / 16 == n1 && (n1 * 16 + n2) % 16 == n2) by (nonlinear_arith)
            requires
                0 <= n1 < 16,
                0 <= n2 < 16,
        ;
        assert(enc[k] as int == n1 * 16 + n2);
    }
}

} // verus!
