//! Tiling configuration of a matmul kernel, as the tensor view consumes it.
use vstd::prelude::*;

verus! {

/// The operand of a matrix product that a view addresses.
#[derive(Clone, Copy, Debug, PartialEq, Eq, Structural)]
pub enum Ident {
    Lhs,
    Rhs,
    Out,
}

/// How consecutive units of a tile are laid out.
#[derive(Clone, Copy, Debug, PartialEq, Eq, Structural)]
pub enum MatrixLayout {
    RowMajor,
    ColMajor,
}

/// Size of one tile: `tile_size_x` rows of `tile_size_y` columns.
#[derive(Clone, Copy, Debug, PartialEq, Eq, Structural)]
pub struct StageDim {
    pub tile_size_x: u32,
    pub tile_size_y: u32,
}

/// Geometry of one operand.
#[derive(Clone, Copy, Debug, PartialEq, Eq, Structural)]
pub struct OperandConfig {
    pub line_size: u32,
    pub stage_dim: StageDim,
    pub layout: MatrixLayout,
}

/// Per-operand geometry and the bounds-check policy of the output.
#[derive(Clone, Copy, Debug, PartialEq, Eq, Structural)]
pub struct MatmulConfig {
    pub lhs: OperandConfig,
    pub rhs: OperandConfig,
    pub out: OperandConfig,
    pub check_m_bounds: bool,
    pub check_n_bounds: bool,
}

impl OperandConfig {
    /// Lines and tiles are never empty.
    pub open spec fn wf(self) -> bool {
        &&& self.line_size > 0
        &&& self.stage_dim.tile_size_x > 0
        &&& self.stage_dim.tile_size_y > 0
    }
}

impl MatmulConfig {
    pub open spec fn wf(self) -> bool {
        &&& self.lhs.wf()
        &&& self.rhs.wf()
        &&& self.out.wf()
    }

    pub open spec fn operand(self, ident: Ident) -> OperandConfig {
        match ident {
            Ident::Lhs => self.lhs,
            Ident::Rhs => self.rhs,
            Ident::Out => self.out,
        }
    }

    pub fn line_size(&self, ident: Ident) -> (r: u32)
        ensures
            r == self.operand(ident).line_size,
    {
        match ident {
            Ident::Lhs => self.lhs.line_size,
            Ident::Rhs => self.rhs.line_size,
            Ident::Out => self.out.line_size,
        }
    }

    pub fn stage_dim(&self, ident: Ident) -> (r: StageDim)
        ensures
            r == self.operand(ident).stage_dim,
    {
        match ident {
            Ident::Lhs => self.lhs.stage_dim,
            Ident::Rhs => self.rhs.stage_dim,
            Ident::Out => self.out.stage_dim,
        }
    }

    pub fn layout(&self, ident: Ident) -> (r: MatrixLayout)
        ensures
            r == self.operand(ident).layout,
    {
        match ident {
            Ident::Lhs => self.lhs.layout,
            Ident::Rhs => self.rhs.layout,
            Ident::Out => self.out.layout,
        }
    }

    pub fn check_m_bounds(&self) -> (r: bool)
        ensures
            r == self.check_m_bounds,
    {
        self.check_m_bounds
    }

    pub fn check_n_bounds(&self) -> (r: bool)
        ensures
            r == self.check_n_bounds,
    {
        self.check_n_bounds
    }
}

} // verus!
