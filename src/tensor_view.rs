//! A window into the last two dimensions of a batched buffer, with coalesced,
//! bounds-checked line access for tiled matmul kernels.
use vstd::prelude::*;

use crate::config::{Ident, MatmulConfig, MatrixLayout, OperandConfig, StageDim};
use crate::tensor::{dim_span, lemma_span_nonneg, span_upto, Line, Tensor};

verus! {

/// A view of a tensor that starts reading at an offset, with the strides and
/// shapes of its two trailing dimensions fetched once.
pub struct TensorView {
    pub tensor: Tensor,
    pub x_offset: u32,
    pub y_offset: u32,
    pub stride_x: u32,
    pub stride_y: u32,
    pub shape_x: u32,
    pub shape_y: u32,
    pub batch_offset: u32,
}

/// Adds on the device's 32-bit unsigned integers, which wrap.
pub open spec fn add_u32(a: u32, b: u32) -> u32 {
    ((a as int + b as int) % 0x1_0000_0000) as u32
}

/// The offset that undoes an advance by `k`.
pub open spec fn neg_u32(k: u32) -> u32 {
    ((0x1_0000_0000 - k as int) % 0x1_0000_0000) as u32
}

/// A line of `n` zeros.
pub open spec fn zero_line(n: nat) -> Seq<i64> {
    Seq::new(n, |i: int| 0i64)
}

impl TensorView {
    /// The cached strides and shapes are those of the two trailing dimensions,
    /// and every position inside the shape, from the batch offset, lies in the
    /// buffer.
    pub open spec fn wf(self) -> bool {
        let r = self.tensor.shape@.len();
        &&& self.tensor.wf()
        &&& r >= 3
        &&& self.stride_x == self.tensor.strides@[r - 2]
        &&& self.stride_y == self.tensor.strides@[r - 1]
        &&& self.shape_x == self.tensor.shape@[r - 2]
        &&& self.shape_y == self.tensor.shape@[r - 1]
        &&& self.batch_offset + dim_span(self.shape_x, self.stride_x) + dim_span(
            self.shape_y,
            self.stride_y,
        ) <= self.tensor.span()
    }

    /// The view after advancing by `k` along the reduction dimension of `ident`.
    pub open spec fn advanced(self, k: u32, ident: Ident) -> TensorView {
        match ident {
            Ident::Lhs => TensorView { y_offset: add_u32(self.y_offset, k), ..self },
            Ident::Rhs => TensorView { x_offset: add_u32(self.x_offset, k), ..self },
            Ident::Out => self,
        }
    }

    /// Element offset of position `(x, y)` of the view's batch.
    pub open spec fn raw_offset(self, x: int, y: int) -> int {
        x * self.stride_x + y * self.stride_y + self.batch_offset
    }

    pub open spec fn in_bounds(self, x: int, y: int) -> bool {
        x < self.shape_x && y < self.shape_y
    }

    /// Position inside its tile of the unit `unit_id` when loading.
    pub open spec fn unit_offset(op: OperandConfig, unit_id: u32) -> (int, int) {
        let tsx = op.stage_dim.tile_size_x as int;
        let tsy = op.stage_dim.tile_size_y as int;
        match op.layout {
            MatrixLayout::RowMajor => (unit_id as int / tsy, unit_id as int % tsy),
            MatrixLayout::ColMajor => (unit_id as int % tsx, unit_id as int / tsx),
        }
    }

    /// Position in the view that unit `unit_id` of tile `(tile_x, tile_y)` loads.
    pub open spec fn load_coords(self, tile_x: u32, tile_y: u32, unit_id: u32, op: OperandConfig) -> (
        int,
        int,
    ) {
        let (lx, ly) = Self::unit_offset(op, unit_id);
        (
            tile_x * op.stage_dim.tile_size_x + self.x_offset + lx,
            tile_y * op.stage_dim.tile_size_y + self.y_offset + ly,
        )
    }

    /// The line that unit `unit_id` of tile `(tile_x, tile_y)` loads: the one
    /// at its position where that position lies inside the shape, else zeros.
    pub open spec fn loaded(
        self,
        tile_x: u32,
        tile_y: u32,
        unit_id: u32,
        op: OperandConfig,
    ) -> Seq<i64> {
        let (x, y) = self.load_coords(tile_x, tile_y, unit_id, op);
        if self.in_bounds(x, y) {
            self.tensor.lines@[self.raw_offset(x, y) / (op.line_size as int)]@
        } else {
            zero_line(op.line_size as nat)
        }
    }

    /// Position in the view that unit `unit_id` of tile `(tile_x, tile_y)`
    /// stores, units running along rows.
    pub open spec fn store_coords(self, tile_x: u32, tile_y: u32, unit_id: u32, dim: StageDim) -> (
        int,
        int,
    ) {
        (
            tile_x * dim.tile_size_x + unit_id as int / dim.tile_size_y as int + self.x_offset,
            tile_y * dim.tile_size_y + unit_id as int % dim.tile_size_y as int + self.y_offset,
        )
    }

    /// Whether a store at `(x, y)` takes place under the configured bounds checks.
    pub open spec fn store_writes(self, x: int, y: int, config: MatmulConfig) -> bool {
        &&& config.check_m_bounds ==> x < self.shape_x
        &&& config.check_n_bounds ==> y < self.shape_y
    }

    /// Line index that a store at `(x, y)` writes.
    pub open spec fn store_index(self, x: int, y: int) -> int {
        self.raw_offset(x, y) / (self.tensor.line_size as int)
    }

    /// A view of batch `nth_batch` of `tensor`, starting at `(x_offset, y_offset)`.
    pub fn new(tensor: Tensor, x_offset: u32, y_offset: u32, nth_batch: u32) -> (r: TensorView)
        requires
            tensor.wf(),
            tensor.shape@.len() >= 3,
            nth_batch < tensor.shape@[tensor.shape@.len() - 3],
        ensures
            r.wf(),
            r.tensor == tensor,
            r.x_offset == x_offset,
            r.y_offset == y_offset,
            r.batch_offset == nth_batch * tensor.strides@[tensor.shape@.len() - 3],
    {
        let rank = tensor.rank();
        let stride_x = tensor.stride(rank - 2);
        let stride_y = tensor.stride(rank - 1);
        let shape_x = tensor.shape(rank - 2);
        let shape_y = tensor.shape(rank - 1);
        let stride_b = tensor.stride(rank - 3);
        let shape_b = tensor.shape(rank - 3);
        proof {
            let sh = tensor.shape@;
            let st = tensor.strides@;
            let n = rank as nat;
            lemma_span_nonneg(sh, st, (n - 3) as nat);
            assert(span_upto(sh, st, (n - 1) as nat) == span_upto(sh, st, (n - 2) as nat) + dim_span(
                shape_x,
                stride_x,
            ));
            assert(span_upto(sh, st, (n - 2) as nat) == span_upto(sh, st, (n - 3) as nat) + dim_span(
                shape_b,
                stride_b,
            ));
            assert(nth_batch * stride_b <= dim_span(shape_b, stride_b)) by (nonlinear_arith)
                requires
                    nth_batch < shape_b,
                    dim_span(shape_b, stride_b) == (shape_b - 1) * stride_b,
            ;
            assert(dim_span(shape_x, stride_x) >= 0 && dim_span(shape_y, stride_y) >= 0)
                by (nonlinear_arith);
        }
        TensorView {
            tensor,
            x_offset,
            y_offset,
            stride_x,
            stride_y,
            shape_x,
            shape_y,
            batch_offset: nth_batch * stride_b,
        }
    }

    /// Advances the view along the reduction dimension: the columns of `Lhs`,
    /// the rows of `Rhs`; `Out` does not move. Offsets wrap as device integers do.
    pub fn update_view(&mut self, k_offset: u32, ident: Ident)
        ensures
            *final(self) == old(self).advanced(k_offset, ident),
    {
        match ident {
            Ident::Lhs => {
                self.y_offset = self.y_offset.wrapping_add(k_offset);
            },
            Ident::Rhs => {
                self.x_offset = self.x_offset.wrapping_add(k_offset);
            },
            Ident::Out => {},
        }
    }

    /// All fields but the lines of the buffer agree.
    pub open spec fn same_geometry(self, other: TensorView) -> bool {
        &&& self.tensor.shape == other.tensor.shape
        &&& self.tensor.strides == other.tensor.strides
        &&& self.tensor.line_size == other.tensor.line_size
        &&& self.tensor.lines@.len() == other.tensor.lines@.len()
        &&& self.x_offset == other.x_offset
        &&& self.y_offset == other.y_offset
        &&& self.stride_x == other.stride_x
        &&& self.stride_y == other.stride_y
        &&& self.shape_x == other.shape_x
        &&& self.shape_y == other.shape_y
        &&& self.batch_offset == other.batch_offset
    }

    /// Index of the line that holds position `(x, y)`, which lies inside the shape.
    fn line_index(&self, x: u64, y: u64) -> (r: usize)
        requires
            self.wf(),
            self.in_bounds(x as int, y as int),
        ensures
            r == self.raw_offset(x as int, y as int) / (self.tensor.line_size as int),
            r < self.tensor.lines@.len(),
    {
        let sx = self.stride_x as u64;
        let sy = self.stride_y as u64;
        let shx = self.shape_x as u64;
        let shy = self.shape_y as u64;
        proof {
            assert(x * sx <= dim_span(self.shape_x, self.stride_x)) by (nonlinear_arith)
                requires
                    x < shx,
                    shx == self.shape_x,
                    sx == self.stride_x,
                    dim_span(self.shape_x, self.stride_x) == (shx - 1) * sx,
            ;
            assert(y * sy <= dim_span(self.shape_y, self.stride_y)) by (nonlinear_arith)
                requires
                    y < shy,
                    shy == self.shape_y,
                    sy == self.stride_y,
                    dim_span(self.shape_y, self.stride_y) == (shy - 1) * sy,
            ;
        }
        let raw: u64 = x * sx + y * sy + self.batch_offset as u64;
        let ls = self.tensor.line_size as u64;
        proof {
            assert(raw / ls <= self.tensor.span() / (ls as int)) by (nonlinear_arith)
                requires
                    raw <= self.tensor.span(),
                    ls > 0,
            ;
        }
        (raw / ls) as usize
    }

    /// Reads the line that unit `unit_id` loads from tile `(tile_x, tile_y)`.
    /// Row-major tiles give consecutive units consecutive columns, column-major
    /// tiles consecutive rows. A position outside the shape reads as zeros.
    pub fn load_coalesced(
        &self,
        tile_x: u32,
        tile_y: u32,
        unit_id: u32,
        ident: Ident,
        config: &MatmulConfig,
    ) -> (r: Line)
        requires
            self.wf(),
            config.wf(),
            config.operand(ident).line_size == self.tensor.line_size,
        ensures
            r@ == self.loaded(tile_x, tile_y, unit_id, config.operand(ident)),
    {
        let line_size = config.line_size(ident);
        let dim = config.stage_dim(ident);
        let tile_size_x = dim.tile_size_x;
        let tile_size_y = dim.tile_size_y;
        let (load_x, load_y) = match config.layout(ident) {
            MatrixLayout::RowMajor => (unit_id / tile_size_y, unit_id % tile_size_y),
            MatrixLayout::ColMajor => (unit_id % tile_size_x, unit_id / tile_size_x),
        };
        let view_x = tile_position(tile_x, tile_size_x, self.x_offset, load_x);
        let view_y = tile_position(tile_y, tile_size_y, self.y_offset, load_y);
        if view_x < self.shape_x as u64 && view_y < self.shape_y as u64 {
            let pos = self.line_index(view_x, view_y);
            let line = self.tensor.lines[pos].clone();
            assert(line@ =~= self.tensor.lines@[pos as int]@);
            line
        } else {
            zeros(line_size)
        }
    }

    /// Writes `value` at the line that unit `unit_id` stores for tile
    /// `(tile_x, tile_y)`, units running along rows of the output tile. The
    /// write is skipped where a configured bounds check fails.
    pub fn write_coalesced(
        &mut self,
        tile_x: u32,
        tile_y: u32,
        unit_id: u32,
        value: Line,
        config: &MatmulConfig,
    )
        requires
            old(self).wf(),
            config.wf(),
            ({
                let (x, y) = old(self).store_coords(tile_x, tile_y, unit_id, config.out.stage_dim);
                old(self).store_writes(x, y, *config) ==> old(self).store_index(x, y)
                    < old(self).tensor.lines@.len()
            }),
        ensures
            final(self).wf(),
            final(self).same_geometry(*old(self)),
            ({
                let (x, y) = old(self).store_coords(tile_x, tile_y, unit_id, config.out.stage_dim);
                final(self).tensor.lines@ == if old(self).store_writes(x, y, *config) {
                    old(self).tensor.lines@.update(old(self).store_index(x, y), value)
                } else {
                    old(self).tensor.lines@
                }
            }),
    {
        let dim = config.stage_dim(Ident::Out);
        let view_x = tile_position(tile_x, dim.tile_size_x, self.x_offset, unit_id / dim.tile_size_y);
        let view_y = tile_position(tile_y, dim.tile_size_y, self.y_offset, unit_id % dim.tile_size_y);
        if config.check_m_bounds() {
            if config.check_n_bounds() {
                if view_x < self.shape_x as u64 && view_y < self.shape_y as u64 {
                    self.store_line(view_x, view_y, value);
                }
            } else if view_x < self.shape_x as u64 {
                self.store_line(view_x, view_y, value);
            }
        } else if config.check_n_bounds() {
            if view_y < self.shape_y as u64 {
                self.store_line(view_x, view_y, value);
            }
        } else {
            self.store_line(view_x, view_y, value);
        }
    }

    /// Writes `value` at the line that holds position `(x, y)`.
    fn store_line(&mut self, x: u64, y: u64, value: Line)
        requires
            old(self).wf(),
            old(self).store_index(x as int, y as int) < old(self).tensor.lines@.len(),
        ensures
            final(self).wf(),
            final(self).same_geometry(*old(self)),
            final(self).tensor.lines@ == old(self).tensor.lines@.update(
                old(self).store_index(x as int, y as int),
                value,
            ),
    {
        let sx = self.stride_x as u128;
        let sy = self.stride_y as u128;
        let xx = x as u128;
        let yy = y as u128;
        proof {
            assert(xx * sx <= 0xffff_ffff_ffff_ffffu128 * 0xffff_ffffu128) by (nonlinear_arith)
                requires
                    xx <= 0xffff_ffff_ffff_ffffu128,
                    sx <= 0xffff_ffffu128,
            ;
            assert(yy * sy <= 0xffff_ffff_ffff_ffffu128 * 0xffff_ffffu128) by (nonlinear_arith)
                requires
                    yy <= 0xffff_ffff_ffff_ffffu128,
                    sy <= 0xffff_ffffu128,
            ;
        }
        let raw: u128 = xx * sx + yy * sy + self.batch_offset as u128;
        let q = raw / self.tensor.line_size as u128;
        assert(q == self.store_index(x as int, y as int));
        let n = self.tensor.lines.len();
        assert(q < n as u128);
        let pos = q as usize;
        self.tensor.lines[pos] = value;
    }
}

/// Position `tile * size + offset + unit` along one dimension; it always fits 64 bits.
fn tile_position(tile: u32, size: u32, offset: u32, unit: u32) -> (r: u64)
    ensures
        r == tile * size + offset + unit,
{
    let t = tile as u64;
    let z = size as u64;
    assert(t * z <= 0xffff_ffffu64 * 0xffff_ffffu64) by (nonlinear_arith)
        requires
            t <= 0xffff_ffffu64,
            z <= 0xffff_ffffu64,
    ;
    t * z + offset as u64 + unit as u64
}

/// A line of `n` zeros.
fn zeros(n: u32) -> (r: Line)
    ensures
        r@ == zero_line(n as nat),
{
    let mut line: Line = Vec::new();
    let mut i: u32 = 0;
    while i < n
        invariant
            i <= n,
            line@ == zero_line(i as nat),
        decreases n - i,
    {
        line.push(0);
        i = i + 1;
        assert(line@ =~= zero_line(i as nat));
    }
    line
}

/// Advancing an `Lhs` or `Rhs` view by `k` and then by `-k` restores it;
/// advancing an `Out` view changes nothing.
pub proof fn lemma_advance_round_trip(view: TensorView, k: u32)
    ensures
        view.advanced(k, Ident::Lhs).advanced(neg_u32(k), Ident::Lhs) == view,
        view.advanced(k, Ident::Rhs).advanced(neg_u32(k), Ident::Rhs) == view,
        view.advanced(k, Ident::Out) == view,
{
    assert(add_u32(add_u32(view.y_offset, k), neg_u32(k)) == view.y_offset);
    assert(add_u32(add_u32(view.x_offset, k), neg_u32(k)) == view.x_offset);
}

/// A load whose position falls outside the shape gives a line of zeros of the
/// configured width, whatever the buffer holds.
pub proof fn lemma_out_of_shape_loads_zeros(
    view: TensorView,
    other: TensorView,
    tile_x: u32,
    tile_y: u32,
    unit_id: u32,
    op: OperandConfig,
)
    requires
        other.same_geometry(view),
        ({
            let (x, y) = view.load_coords(tile_x, tile_y, unit_id, op);
            x >= view.shape_x || y >= view.shape_y
        }),
    ensures
        view.loaded(tile_x, tile_y, unit_id, op) == zero_line(op.line_size as nat),
        other.loaded(tile_x, tile_y, unit_id, op) == view.loaded(tile_x, tile_y, unit_id, op),
{
}

/// With both bounds checks on, a store never writes outside the shape; with
/// both off, every store writes.
pub proof fn lemma_store_bounds_policy(
    view: TensorView,
    tile_x: u32,
    tile_y: u32,
    unit_id: u32,
    config: MatmulConfig,
)
    ensures
        ({
            let (x, y) = view.store_coords(tile_x, tile_y, unit_id, config.out.stage_dim);
            &&& config.check_m_bounds && config.check_n_bounds ==> (view.store_writes(x, y, config)
                <==> view.in_bounds(x, y))
            &&& !config.check_m_bounds && !config.check_n_bounds ==> view.store_writes(
                x,
                y,
                config,
            )
        }),
{
}

/// `u + 1` stays in the row of `u` (of width `d`): one further along it.
proof fn lemma_next_in_row(u: int, d: int)
    requires
        d > 0,
        u >= 0,
        (u + 1) % d != 0,
    ensures
        (u + 1) / d == u / d,
        (u + 1) % d == u % d + 1,
{
    vstd::arithmetic::div_mod::lemma_fundamental_div_mod(u, d);
    let q = u / d;
    let r = u % d;
    vstd::arithmetic::div_mod::lemma_mod_bound(u, d);
    if r + 1 == d {
        assert(u + 1 == (q + 1) * d) by (nonlinear_arith)
            requires
                u == d * q + r,
                r + 1 == d,
        ;
        vstd::arithmetic::div_mod::lemma_fundamental_div_mod_converse(u + 1, d, q + 1, 0);
    } else {
        assert(u + 1 == q * d + (r + 1)) by (nonlinear_arith)
            requires
                u == d * q + r,
        ;
        vstd::arithmetic::div_mod::lemma_fundamental_div_mod_converse(u + 1, d, q, r + 1);
    }
}

/// Consecutive units of one tile that stay in one row (row-major) or one
/// column (column-major) load from element offsets one `stride_y`
/// (respectively one `stride_x`) apart: the accesses are contiguous along
/// the fastest dimension.
pub proof fn lemma_load_coalesced_contiguous(
    view: TensorView,
    tile_x: u32,
    tile_y: u32,
    unit_id: u32,
    next: u32,
    op: OperandConfig,
)
    requires
        op.wf(),
        next == unit_id + 1,
        op.layout == MatrixLayout::RowMajor ==> next % op.stage_dim.tile_size_y != 0,
        op.layout == MatrixLayout::ColMajor ==> next % op.stage_dim.tile_size_x != 0,
    ensures
        ({
            let (x0, y0) = view.load_coords(tile_x, tile_y, unit_id, op);
            let (x1, y1) = view.load_coords(tile_x, tile_y, next, op);
            &&& op.layout == MatrixLayout::RowMajor ==> view.raw_offset(x1, y1) == view.raw_offset(
                x0,
                y0,
            ) + view.stride_y
            &&& op.layout == MatrixLayout::ColMajor ==> view.raw_offset(x1, y1) == view.raw_offset(
                x0,
                y0,
            ) + view.stride_x
        }),
{
    let (x0, y0) = view.load_coords(tile_x, tile_y, unit_id, op);
    let (x1, y1) = view.load_coords(tile_x, tile_y, next, op);
    let sx = view.stride_x as int;
    let sy = view.stride_y as int;
    match op.layout {
        MatrixLayout::RowMajor => {
            lemma_next_in_row(unit_id as int, op.stage_dim.tile_size_y as int);
            assert(x1 == x0 && y1 == y0 + 1);
            assert(y1 * sy == y0 * sy + sy) by (nonlinear_arith)
                requires
                    y1 == y0 + 1,
            ;
        },
        MatrixLayout::ColMajor => {
            lemma_next_in_row(unit_id as int, op.stage_dim.tile_size_x as int);
            assert(y1 == y0 && x1 == x0 + 1);
            assert(x1 * sx == x0 * sx + sx) by (nonlinear_arith)
                requires
                    x1 == x0 + 1,
            ;
        },
    }
}

} // verus!
