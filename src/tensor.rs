//! Tensor descriptors: element types, dimensions and the byte buffer that
//! crosses the engine boundary.
use vstd::prelude::*;
use vstd::slice::slice_to_vec;

verus! {

/// The element type of a tensor.
#[derive(Debug, Clone, Copy, PartialEq, Eq, Structural)]
pub enum Dtype {
    F32,
    U8,
}

impl Dtype {
    /// The number of bytes one element occupies.
    pub open spec fn width(self) -> nat {
        match self {
            Dtype::U8 => 1,
            Dtype::F32 => 4,
        }
    }

    /// Returns the number of bytes occupied by the dtype.
    pub fn bytes(&self) -> (n: usize)
        ensures
            n == self.width(),
    {
        match self {
            Dtype::U8 => 1,
            Dtype::F32 => 4,
        }
    }
}

/// The height, width, channel count and element type of an image-shaped tensor.
#[derive(Debug, Clone, Copy, PartialEq, Eq, Structural)]
pub struct Dimension {
    pub height: u32,
    pub width: u32,
    pub channels: u32,
    pub dtype: Dtype,
}

impl Dimension {
    pub fn new(height: u32, width: u32, channels: u32, dtype: Dtype) -> (d: Self)
        ensures
            d == (Dimension { height, width, channels, dtype }),
    {
        Dimension { height, width, channels, dtype }
    }

    /// The number of bytes a tensor of these dimensions occupies.
    pub open spec fn spec_byte_len(self) -> nat {
        self.height as nat * self.width as nat * self.channels as nat * self.dtype.width()
    }

    /// The number of bytes a tensor of these dimensions occupies, or `None`
    /// when that number does not fit in a `u32`.
    pub fn byte_len(&self) -> (n: Option<u32>)
        ensures
            match n {
                Some(n) => n as nat == self.spec_byte_len(),
                None => self.spec_byte_len() > u32::MAX,
            },
    {
        let h = self.height as u64;
        let w = self.width as u64;
        assert(h * w <= u32::MAX as nat * u32::MAX as nat) by (nonlinear_arith)
            requires h <= u32::MAX, w <= u32::MAX;
        let hw = h * w;
        let c = self.channels as u128;
        assert(hw as nat * c <= u64::MAX as nat * u32::MAX as nat) by (nonlinear_arith)
            requires hw <= u64::MAX, c <= u32::MAX;
        let hwc = (hw as u128) * c;
        let b = self.dtype.bytes() as u128;
        assert(hwc as nat * b <= u64::MAX as nat * u32::MAX as nat * 4) by (nonlinear_arith)
            requires hwc <= u64::MAX as nat * u32::MAX as nat, b <= 4;
        let total = hwc * b;
        assert(total == self.spec_byte_len()) by (nonlinear_arith)
            requires
                hw == self.height as nat * self.width as nat,
                hwc == hw * self.channels as nat,
                total == hwc * self.dtype.width(),
        ;
        if total <= u32::MAX as u128 {
            Some(total as u32)
        } else {
            None
        }
    }
}

/// The product of a sequence of dimensions; 1 for no dimensions.
pub open spec fn shape_product(shape: Seq<u32>) -> nat
    decreases shape.len(),
{
    if shape.len() == 0 {
        1
    } else {
        shape_product(shape.drop_last()) * shape.last() as nat
    }
}

/// A shape with a zero dimension has no elements.
pub proof fn lemma_shape_product_zero(shape: Seq<u32>, k: int)
    requires
        0 <= k < shape.len(),
        shape[k] == 0,
    ensures
        shape_product(shape) == 0,
    decreases shape.len(),
{
    let p = shape_product(shape.drop_last());
    if k < shape.len() - 1 {
        lemma_shape_product_zero(shape.drop_last(), k);
        assert(p == 0);
        assert(p * shape.last() as nat == 0);
    } else {
        assert(shape.last() == 0);
        assert(p * shape.last() as nat == 0);
    }
}

/// Without zero dimensions, a prefix of a shape has no more elements than
/// the whole shape.
pub proof fn lemma_shape_product_prefix(shape: Seq<u32>, i: int)
    requires
        0 <= i <= shape.len(),
        forall|k: int| 0 <= k < shape.len() ==> shape[k] >= 1,
    ensures
        shape_product(shape.subrange(0, i)) <= shape_product(shape),
    decreases shape.len(),
{
    if i == shape.len() {
        assert(shape.subrange(0, i) =~= shape);
    } else {
        let rest = shape.drop_last();
        lemma_shape_product_prefix(rest, i);
        assert(rest.subrange(0, i) =~= shape.subrange(0, i));
        let p = shape_product(rest);
        let d = shape.last() as nat;
        assert(p <= p * d) by (nonlinear_arith)
            requires d >= 1;
    }
}

/// A tensor: its element type, its dimensions and its data.
#[derive(Debug, Clone, PartialEq, Eq)]
pub struct Tensor {
    data: Vec<u8>,
    dtype: Dtype,
    shape: Vec<u32>,
}

impl Tensor {
    pub closed spec fn spec_data(&self) -> Seq<u8> {
        self.data@
    }

    pub closed spec fn spec_dtype(&self) -> Dtype {
        self.dtype
    }

    pub closed spec fn spec_shape(&self) -> Seq<u32> {
        self.shape@
    }

    /// The number of data bytes that the shape and element type call for.
    pub open spec fn expected_len(&self) -> nat {
        shape_product(self.spec_shape()) * self.spec_dtype().width()
    }

    /// Whether the data holds exactly one element's bytes per position of the shape.
    pub open spec fn is_consistent(&self) -> bool {
        self.spec_data().len() == self.expected_len()
    }

    pub fn new(dtype: Dtype, shape: &[u32], data: &[u8]) -> (t: Self)
        ensures
            t.spec_dtype() == dtype,
            t.spec_shape() == shape@,
            t.spec_data() == data@,
    {
        Tensor { data: slice_to_vec(data), dtype, shape: slice_to_vec(shape) }
    }

    /// Whether the data length matches the shape and element type.
    pub fn has_consistent_len(&self) -> (ok: bool)
        ensures
            ok == self.is_consistent(),
    {
        let shape = self.shape.as_slice();
        let limit = self.data.len();
        let mut i: usize = 0;
        while i < shape.len()
            invariant
                i <= shape@.len(),
                shape@ == self.spec_shape(),
                limit == self.spec_data().len(),
                forall|k: int| 0 <= k < i ==> shape@[k] >= 1,
            decreases shape@.len() - i,
        {
            if shape[i] == 0 {
                proof {
                    lemma_shape_product_zero(shape@, i as int);
                    assert(self.expected_len() == 0);
                }
                return limit == 0;
            }
            i += 1;
        }
        let mut acc: usize = self.dtype.bytes();
        i = 0;
        while i < shape.len()
            invariant
                i <= shape@.len(),
                shape@ == self.spec_shape(),
                limit == self.spec_data().len(),
                forall|k: int| 0 <= k < shape@.len() ==> shape@[k] >= 1,
                acc == shape_product(shape@.subrange(0, i as int)) * self.dtype.width(),
                acc <= limit || i == 0,
            decreases shape@.len() - i,
        {
            let d = shape[i] as usize;
            proof {
                assert(shape@.subrange(0, i + 1).drop_last() =~= shape@.subrange(0, i as int));
                lemma_shape_product_prefix(shape@, i + 1);
                let p = shape_product(shape@.subrange(0, i + 1));
                let q = shape_product(shape@);
                let w = self.dtype.width();
                assert(p * w <= q * w) by (nonlinear_arith)
                    requires p <= q;
                assert(acc * d == p * w) by (nonlinear_arith)
                    requires
                        acc == shape_product(shape@.subrange(0, i as int)) * w,
                        p == shape_product(shape@.subrange(0, i as int)) * d,
                ;
            }
            match acc.checked_mul(d) {
                Some(next) => {
                    if next > limit {
                        return false;
                    }
                    acc = next;
                },
                None => {
                    return false;
                },
            }
            i += 1;
        }
        assert(shape@.subrange(0, shape@.len() as int) =~= shape@);
        acc == limit
    }

    pub fn dtype(&self) -> (d: Dtype)
        ensures
            d == self.spec_dtype(),
    {
        self.dtype
    }

    pub fn shape(&self) -> (s: &[u32])
        ensures
            s@ == self.spec_shape(),
    {
        self.shape.as_slice()
    }

    pub fn data(&self) -> (d: &[u8])
        ensures
            d@ == self.spec_data(),
    {
        self.data.as_slice()
    }
}

} // verus!
