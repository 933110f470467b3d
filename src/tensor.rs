//! A strided buffer of lines: the memory that a tensor view reads and writes.
use vstd::prelude::*;

verus! {

/// A line of elements, read and written as one unit.
pub type Line = Vec<i64>;

/// Largest linear element offset that a buffer may address.
pub const MAX_OFFSET: u64 = 0xffff_ffff;

/// Offset of the last index along one dimension (none for an empty one).
pub open spec fn dim_span(shape: u32, stride: u32) -> int {
    if shape == 0 {
        0
    } else {
        (shape - 1) * stride
    }
}

/// Offset of the last element over the first `n` dimensions.
pub open spec fn span_upto(shape: Seq<u32>, strides: Seq<u32>, n: nat) -> int
    decreases n,
{
    if n == 0 {
        0
    } else {
        span_upto(shape, strides, (n - 1) as nat) + dim_span(shape[n - 1], strides[n - 1])
    }
}

pub proof fn lemma_span_nonneg(shape: Seq<u32>, strides: Seq<u32>, n: nat)
    ensures
        span_upto(shape, strides, n) >= 0,
    decreases n,
{
    if n > 0 {
        lemma_span_nonneg(shape, strides, (n - 1) as nat);
        assert(dim_span(shape[n - 1], strides[n - 1]) >= 0) by (nonlinear_arith);
    }
}

/// A strided buffer: `lines[p]` holds the elements at linear offsets
/// `p * line_size .. (p + 1) * line_size`.
pub struct Tensor {
    pub shape: Vec<u32>,
    pub strides: Vec<u32>,
    pub line_size: u32,
    pub lines: Vec<Line>,
}

impl Tensor {
    /// Offset of the last element that the shape and strides address.
    pub open spec fn span(self) -> int {
        span_upto(self.shape@, self.strides@, self.shape@.len())
    }

    /// Every offset that the shape and strides address fits the device's
    /// 32-bit indexing and falls inside `lines`.
    pub open spec fn wf(self) -> bool {
        &&& self.shape@.len() == self.strides@.len()
        &&& self.line_size > 0
        &&& self.span() <= MAX_OFFSET
        &&& self.span() / (self.line_size as int) < self.lines@.len()
    }

    /// Builds a buffer, or `None` where the parts do not make a well-formed one.
    pub fn new(shape: Vec<u32>, strides: Vec<u32>, line_size: u32, lines: Vec<Line>) -> (r: Option<
        Tensor,
    >)
        ensures
            r matches Some(t) ==> t.shape == shape && t.strides == strides && t.line_size
                == line_size && t.lines == lines && t.wf(),
            r.is_none() ==> !(Tensor { shape, strides, line_size, lines }).wf(),
    {
        if shape.len() != strides.len() || line_size == 0 {
            return None;
        }
        let ghost t = Tensor { shape, strides, line_size, lines };
        let mut acc: u64 = 0;
        let mut i: usize = 0;
        while i < shape.len()
            invariant
                shape@.len() == strides@.len(),
                i <= shape@.len(),
                acc == span_upto(shape@, strides@, i as nat),
                acc <= MAX_OFFSET,
            decreases shape@.len() - i,
        {
            let s = shape[i];
            let d = strides[i];
            let part: u64 = if s == 0 {
                0
            } else {
                let a: u64 = (s - 1) as u64;
                let b: u64 = d as u64;
                assert(a * b <= 0xffff_ffffu64 * 0xffff_ffffu64) by (nonlinear_arith)
                    requires
                        a <= 0xffff_ffffu64,
                        b <= 0xffff_ffffu64,
                ;
                a * b
            };
            if part > MAX_OFFSET - acc {
                proof {
                    let n = shape@.len();
                    lemma_span_grows(shape@, strides@, (i + 1) as nat, n);
                }
                return None;
            }
            acc = acc + part;
            i = i + 1;
        }
        if (acc / line_size as u64) as usize >= lines.len() {
            return None;
        }
        Some(Tensor { shape, strides, line_size, lines })
    }

    pub fn rank(&self) -> (r: usize)
        ensures
            r == self.shape@.len(),
    {
        self.shape.len()
    }

    pub fn shape(&self, dim: usize) -> (r: u32)
        requires
            dim < self.shape@.len(),
        ensures
            r == self.shape@[dim as int],
    {
        self.shape[dim]
    }

    pub fn stride(&self, dim: usize) -> (r: u32)
        requires
            dim < self.strides@.len(),
        ensures
            r == self.strides@[dim as int],
    {
        self.strides[dim]
    }

    pub fn line_size(&self) -> (r: u32)
        ensures
            r == self.line_size,
    {
        self.line_size
    }
}

/// Adding dimensions never lowers the span.
pub proof fn lemma_span_grows(shape: Seq<u32>, strides: Seq<u32>, m: nat, n: nat)
    requires
        m <= n,
    ensures
        span_upto(shape, strides, m) <= span_upto(shape, strides, n),
    decreases n - m,
{
    if m < n {
        lemma_span_grows(shape, strides, m, (n - 1) as nat);
        assert(dim_span(shape[n - 1], strides[n - 1]) >= 0) by (nonlinear_arith);
    }
}

} // verus!
