//! Host-resident tensors: a shape, an element type and a raw byte buffer.

use vstd::prelude::*;
use crate::error::CoreError;

verus! {

/// Element type of a tensor.
#[derive(Debug, Clone, Copy, PartialEq, Eq, Structural)]
pub enum DType {
    /// 32-bit IEEE-754 float.
    F32,
    /// 16-bit IEEE-754 float.
    F16,
    /// Signed 8-bit integer (quantized).
    I8,
    /// Signed 4-bit integer (quantized), two per byte.
    I4,
}

/// Bytes taken by one storage unit of `dtype` (an I4 byte holds two elements).
pub open spec fn byte_width(dtype: DType) -> nat {
    match dtype {
        DType::F32 => 4,
        DType::F16 => 2,
        DType::I8 => 1,
        DType::I4 => 1,
    }
}

/// Number of bytes that `n` elements of `dtype` occupy.
pub open spec fn storage_len(n: nat, dtype: DType) -> nat {
    match dtype {
        DType::I4 => (n + 1) / 2,
        _ => n * byte_width(dtype),
    }
}

/// Product of the dimension sizes: the element count of a shape.
pub open spec fn shape_product(s: Seq<usize>) -> nat
    decreases s.len(),
{
    if s.len() == 0 {
        1
    } else {
        shape_product(s.drop_last()) * (s.last() as nat)
    }
}

impl DType {
    /// Size in bytes of one storage unit of this type.
    pub fn size_bytes(&self) -> (r: usize)
        ensures
            r == byte_width(*self),
    {
        match self {
            DType::F32 => 4,
            DType::F16 => 2,
            DType::I8 => 1,
            DType::I4 => 1,
        }
    }
}

/// Byte count for `n` elements of `dtype`, if it fits in `usize`.
pub fn checked_storage_len(n: usize, dtype: DType) -> (r: Option<usize>)
    ensures
        r matches Some(len) ==> len == storage_len(n as nat, dtype),
        r is None <==> storage_len(n as nat, dtype) > usize::MAX,
{
    match dtype {
        DType::I4 => Some(n / 2 + n % 2),
        _ => n.checked_mul(dtype.size_bytes()),
    }
}

proof fn lemma_product_prefix(s: Seq<usize>, i: int)
    requires
        0 <= i < s.len(),
    ensures
        shape_product(s.subrange(0, i + 1)) == shape_product(s.subrange(0, i)) * (s[i] as nat),
{
    assert(s.subrange(0, i + 1).drop_last() =~= s.subrange(0, i));
}

proof fn lemma_product_has_zero(s: Seq<usize>, k: int)
    requires
        0 <= k < s.len(),
        s[k] == 0,
    ensures
        shape_product(s) == 0,
    decreases s.len(),
{
    let p = shape_product(s.drop_last());
    if k < s.len() - 1 {
        lemma_product_has_zero(s.drop_last(), k);
        assert(0 * (s.last() as nat) == 0) by (nonlinear_arith);
    } else {
        assert(p * 0 == 0) by (nonlinear_arith);
    }
}

proof fn lemma_product_grows(s: Seq<usize>, i: int)
    requires
        0 <= i <= s.len(),
        forall|j: int| 0 <= j < s.len() ==> s[j] >= 1,
    ensures
        shape_product(s.subrange(0, i)) <= shape_product(s),
    decreases s.len() - i,
{
    if i < s.len() {
        lemma_product_prefix(s, i);
        lemma_product_grows(s, i + 1);
        let p = shape_product(s.subrange(0, i));
        assert(p <= p * (s[i] as nat)) by (nonlinear_arith)
            requires
                s[i] >= 1,
        ;
    } else {
        assert(s.subrange(0, i) =~= s);
    }
}

/// Element count of `shape`, or `None` where it does not fit in `usize`.
pub fn checked_numel(shape: &Vec<usize>) -> (r: Option<usize>)
    ensures
        r matches Some(n) ==> n == shape_product(shape@),
        r is None <==> shape_product(shape@) > usize::MAX,
{
    let mut k: usize = 0;
    while k < shape.len()
        invariant
            k <= shape.len(),
            forall|j: int| 0 <= j < k ==> shape@[j] >= 1,
        decreases shape.len() - k,
    {
        if shape[k] == 0 {
            proof {
                lemma_product_has_zero(shape@, k as int);
            }
            return Some(0);
        }
        k = k + 1;
    }
    let mut acc: usize = 1;
    let mut i: usize = 0;
    while i < shape.len()
        invariant
            i <= shape.len(),
            forall|j: int| 0 <= j < shape.len() ==> shape@[j] >= 1,
            acc == shape_product(shape@.subrange(0, i as int)),
        decreases shape.len() - i,
    {
        proof {
            lemma_product_prefix(shape@, i as int);
        }
        match acc.checked_mul(shape[i]) {
            Some(next) => {
                acc = next;
            },
            None => {
                proof {
                    lemma_product_grows(shape@, i + 1);
                }
                return None;
            },
        }
        i = i + 1;
    }
    assert(shape@.subrange(0, i as int) =~= shape@);
    Some(acc)
}

/// An n-dimensional array held on the host.
#[derive(Debug)]
pub struct Tensor {
    /// Dimension sizes.
    pub shape: Vec<usize>,
    /// Element type.
    pub dtype: DType,
    /// Raw bytes, in the layout that `dtype` fixes.
    pub data: Vec<u8>,
}

/// Element count reported for a shape: the product, saturated at `usize::MAX`.
pub open spec fn reported_count(s: Seq<usize>) -> usize {
    if shape_product(s) <= usize::MAX {
        shape_product(s) as usize
    } else {
        usize::MAX
    }
}

impl Clone for Tensor {
    fn clone(&self) -> (r: Self)
        ensures
            r.shape@ == self.shape@,
            r.dtype == self.dtype,
            r.data@ == self.data@,
    {
        Tensor { shape: self.shape.clone(), dtype: self.dtype, data: self.data.clone() }
    }
}

impl Tensor {
    /// Element count, as a mathematical integer.
    pub open spec fn count(&self) -> nat {
        shape_product(self.shape@)
    }

    /// The buffer holds exactly the bytes that the shape and type call for.
    pub open spec fn wf(&self) -> bool {
        &&& self.count() <= usize::MAX
        &&& self.data@.len() == storage_len(self.count(), self.dtype)
    }

    /// A zero-filled tensor of the given shape and type.
    pub fn new(shape: Vec<usize>, dtype: DType) -> (r: Self)
        requires
            shape_product(shape@) <= usize::MAX,
            storage_len(shape_product(shape@), dtype) <= usize::MAX,
        ensures
            r.shape@ == shape@,
            r.dtype == dtype,
            r.data@ == Seq::new(storage_len(shape_product(shape@), dtype), |i: int| 0u8),
            r.wf(),
    {
        let n = match checked_numel(&shape) {
            Some(n) => n,
            None => 0,
        };
        let size = match checked_storage_len(n, dtype) {
            Some(size) => size,
            None => 0,
        };
        let data = vec![0u8; size];
        assert(data@ =~= Seq::new(storage_len(shape_product(shape@), dtype), |i: int| 0u8));
        Tensor { shape, dtype, data }
    }

    /// A tensor over the given bytes, which must be exactly as many as the
    /// shape and type call for.
    pub fn from_data(shape: Vec<usize>, dtype: DType, data: Vec<u8>) -> (r: Result<Self, CoreError>)
        ensures
            shape_product(shape@) <= usize::MAX && data@.len() == storage_len(
                shape_product(shape@),
                dtype,
            ) <==> r is Ok,
            r matches Ok(t) ==> t.shape@ == shape@ && t.dtype == dtype && t.data@ == data@
                && t.wf(),
            r is Err ==> r matches Err(CoreError::InvalidDimension(_)),
    {
        let len = data.len();
        let count = checked_numel(&shape);
        if count.is_none() {
            return Err(
                CoreError::InvalidDimension(
                    String::from_str("element count of the shape does not fit in memory"),
                ),
            );
        }
        let n = count.unwrap();
        match checked_storage_len(n, dtype) {
            Some(size) => {
                if len == size {
                    Ok(Tensor { shape, dtype, data })
                } else {
                    Err(
                        CoreError::InvalidDimension(
                            String::from_str("data size does not match the size that the shape calls for"),
                        ),
                    )
                }
            },
            None => {
                Err(
                    CoreError::InvalidDimension(
                        String::from_str("byte count of the shape does not fit in memory"),
                    ),
                )
            },
        }
    }

    /// Number of elements: the product of the dimension sizes.
    pub fn numel(&self) -> (r: usize)
        requires
            self.count() <= usize::MAX,
        ensures
            r == self.count(),
    {
        match checked_numel(&self.shape) {
            Some(n) => n,
            None => 0,
        }
    }

    /// The same tensor under another shape with the same element count; the
    /// type is kept and the bytes are copied.
    pub fn reshape(&self, new_shape: Vec<usize>) -> (r: Result<Self, CoreError>)
        requires
            self.count() <= usize::MAX,
        ensures
            shape_product(new_shape@) == self.count() <==> r is Ok,
            r matches Ok(t) ==> t.shape@ == new_shape@ && t.dtype == self.dtype && t.data@
                == self.data@,
            r matches Err(e) ==> e matches CoreError::ShapeMismatch { expected, actual }
                && expected@ == seq![self.count() as usize] && actual@ == seq![
                reported_count(new_shape@),
            ],
    {
        let old_size = self.numel();
        let new_size = match checked_numel(&new_shape) {
            Some(n) => {
                if n == old_size {
                    return Ok(
                        Tensor { shape: new_shape, dtype: self.dtype, data: self.data.clone() },
                    );
                }
                n
            },
            None => usize::MAX,
        };
        Err(CoreError::ShapeMismatch { expected: vec![old_size], actual: vec![new_size] })
    }

    /// The bytes of an F32 tensor, to be read as native-endian IEEE-754
    /// values; any other type is refused.
    pub fn as_f32_bytes(&self) -> (r: Result<&Vec<u8>, CoreError>)
        ensures
            self.dtype == DType::F32 <==> r is Ok,
            r matches Ok(b) ==> b@ == self.data@,
            r matches Err(e) ==> e is Other,
    {
        if self.dtype != DType::F32 {
            return Err(CoreError::Other(String::from_str("tensor is not of type F32")));
        }
        Ok(&self.data)
    }

    /// Number of dimensions.
    pub fn ndim(&self) -> (r: usize)
        ensures
            r == self.shape@.len(),
    {
        self.shape.len()
    }
}

} // verus!
