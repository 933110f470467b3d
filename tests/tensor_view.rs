use cubecl_lowering::config::{Ident, MatmulConfig, MatrixLayout, OperandConfig, StageDim};
use cubecl_lowering::tensor::{Line, Tensor};
use cubecl_lowering::tensor_view::TensorView;

/// A row-major buffer whose line `p` holds `[p]` (line width 1).
fn numbered(shape: Vec<u32>) -> Tensor {
    let rank = shape.len();
    let mut strides = vec![1u32; rank];
    for d in (0..rank - 1).rev() {
        strides[d] = strides[d + 1] * shape[d + 1];
    }
    let total: u32 = shape.iter().product();
    let lines: Vec<Line> = (0..total as i64).map(|p| vec![p]).collect();
    Tensor::new(shape, strides, 1, lines).unwrap()
}

fn operand(layout: MatrixLayout) -> OperandConfig {
    OperandConfig {
        line_size: 1,
        stage_dim: StageDim { tile_size_x: 2, tile_size_y: 2 },
        layout,
    }
}

fn config(layout: MatrixLayout, check_m: bool, check_n: bool) -> MatmulConfig {
    MatmulConfig {
        lhs: operand(layout),
        rhs: operand(layout),
        out: operand(MatrixLayout::RowMajor),
        check_m_bounds: check_m,
        check_n_bounds: check_n,
    }
}

#[test]
fn tensor_new_accepts_well_formed_parts() {
    let t = numbered(vec![2, 4, 4]);
    assert_eq!(t.rank(), 3);
    assert_eq!(t.stride(0), 16);
    assert_eq!(t.stride(1), 4);
    assert_eq!(t.shape(2), 4);
    assert_eq!(t.line_size(), 1);
}

#[test]
fn tensor_new_rejects_rank_mismatch() {
    assert!(Tensor::new(vec![2, 2], vec![1], 1, vec![vec![0]; 4]).is_none());
}

#[test]
fn tensor_new_rejects_zero_line_size() {
    assert!(Tensor::new(vec![2], vec![1], 0, vec![vec![0]; 2]).is_none());
}

#[test]
fn tensor_new_rejects_short_buffer() {
    assert!(Tensor::new(vec![2, 2], vec![2, 1], 1, vec![vec![0]; 3]).is_none());
}

#[test]
fn tensor_new_rejects_offsets_past_u32() {
    assert!(Tensor::new(vec![3], vec![u32::MAX], 1, vec![vec![0]; 1]).is_none());
}

#[test]
fn tensor_new_counts_lines_not_elements() {
    let lines: Vec<Line> = (0..4).map(|p| vec![2 * p, 2 * p + 1]).collect();
    assert!(Tensor::new(vec![1, 2, 4], vec![8, 4, 1], 2, lines).is_some());
}

#[test]
fn view_new_reads_trailing_dimensions() {
    let view = TensorView::new(numbered(vec![2, 3, 4]), 1, 2, 1);
    assert_eq!(view.stride_x, 4);
    assert_eq!(view.stride_y, 1);
    assert_eq!(view.shape_x, 3);
    assert_eq!(view.shape_y, 4);
    assert_eq!(view.batch_offset, 12);
    assert_eq!((view.x_offset, view.y_offset), (1, 2));
}

#[test]
fn load_reads_batch_one_corner() {
    let view = TensorView::new(numbered(vec![2, 4, 4]), 0, 0, 1);
    let cfg = config(MatrixLayout::RowMajor, false, false);
    let line = view.load_coalesced(1, 1, 3, Ident::Lhs, &cfg);
    // row 3, column 3 of batch 1
    assert_eq!(line, vec![16 + 3 * 4 + 3]);
}

#[test]
fn load_out_of_shape_gives_zeros() {
    let view = TensorView::new(numbered(vec![1, 3, 3]), 0, 0, 0);
    let cfg = config(MatrixLayout::RowMajor, false, false);
    assert_eq!(view.load_coalesced(1, 0, 2, Ident::Lhs, &cfg), vec![0]);
    assert_eq!(view.load_coalesced(0, 1, 1, Ident::Lhs, &cfg), vec![0]);
    assert_eq!(view.load_coalesced(1, 1, 0, Ident::Lhs, &cfg), vec![8]);
}

#[test]
fn load_out_of_shape_zero_line_has_configured_width() {
    let lines: Vec<Line> = (0..4).map(|p| vec![2 * p + 1, 2 * p + 2]).collect();
    let tensor = Tensor::new(vec![1, 2, 4], vec![8, 4, 1], 2, lines).unwrap();
    let view = TensorView::new(tensor, 0, 0, 0);
    let mut cfg = config(MatrixLayout::RowMajor, false, false);
    cfg.lhs.line_size = 2;
    assert_eq!(view.load_coalesced(5, 0, 0, Ident::Lhs, &cfg), vec![0, 0]);
    // position (1, 2): element offset 6, line 3
    assert_eq!(view.load_coalesced(0, 1, 2, Ident::Lhs, &cfg), vec![7, 8]);
}

#[test]
fn load_row_major_units_run_along_rows() {
    let view = TensorView::new(numbered(vec![1, 4, 4]), 0, 0, 0);
    let cfg = config(MatrixLayout::RowMajor, false, false);
    let got: Vec<Line> = (0..4).map(|u| view.load_coalesced(0, 1, u, Ident::Lhs, &cfg)).collect();
    assert_eq!(got, vec![vec![2], vec![3], vec![6], vec![7]]);
}

#[test]
fn load_col_major_units_run_along_columns() {
    let view = TensorView::new(numbered(vec![1, 4, 4]), 0, 0, 0);
    let cfg = config(MatrixLayout::ColMajor, false, false);
    let got: Vec<Line> = (0..4).map(|u| view.load_coalesced(1, 0, u, Ident::Rhs, &cfg)).collect();
    assert_eq!(got, vec![vec![8], vec![12], vec![9], vec![13]]);
}

#[test]
fn load_follows_view_offsets() {
    let mut view = TensorView::new(numbered(vec![1, 4, 4]), 0, 0, 0);
    let cfg = config(MatrixLayout::RowMajor, true, true);
    view.update_view(2, Ident::Lhs);
    assert_eq!(view.load_coalesced(0, 0, 0, Ident::Lhs, &cfg), vec![2]);
    view.update_view(1, Ident::Rhs);
    assert_eq!(view.load_coalesced(0, 0, 0, Ident::Lhs, &cfg), vec![6]);
}

#[test]
fn advance_round_trip() {
    let mut view = TensorView::new(numbered(vec![1, 4, 4]), 5, 7, 0);
    view.update_view(3, Ident::Lhs);
    assert_eq!((view.x_offset, view.y_offset), (5, 10));
    view.update_view(3u32.wrapping_neg(), Ident::Lhs);
    assert_eq!((view.x_offset, view.y_offset), (5, 7));
    view.update_view(9, Ident::Rhs);
    assert_eq!((view.x_offset, view.y_offset), (14, 7));
    view.update_view(9u32.wrapping_neg(), Ident::Rhs);
    assert_eq!((view.x_offset, view.y_offset), (5, 7));
    view.update_view(11, Ident::Out);
    assert_eq!((view.x_offset, view.y_offset), (5, 7));
}

#[test]
fn advance_wraps_like_device_integers() {
    let mut view = TensorView::new(numbered(vec![1, 4, 4]), 0, u32::MAX, 0);
    view.update_view(2, Ident::Lhs);
    assert_eq!(view.y_offset, 1);
}

fn written(view: &TensorView) -> Vec<usize> {
    (0..view.tensor.lines.len()).filter(|&p| view.tensor.lines[p] == vec![-1]).collect()
}

#[test]
fn store_m_checked_suppresses_row_three_only() {
    let cfg = config(MatrixLayout::RowMajor, true, false);
    let mut view = TensorView::new(numbered(vec![2, 3, 4]), 0, 0, 0);
    // tile (1, 0), unit 2: row 3 is outside the three rows
    view.write_coalesced(1, 0, 2, vec![-1], &cfg);
    assert_eq!(written(&view), Vec::<usize>::new());
    // tile (1, 0), unit 0: row 2, column 0
    view.write_coalesced(1, 0, 0, vec![-1], &cfg);
    assert_eq!(written(&view), vec![8]);
    // tile (0, 2), unit 0: column 4 is outside, but columns are not checked
    view.write_coalesced(0, 2, 0, vec![-1], &cfg);
    assert_eq!(written(&view), vec![4, 8]);
}

#[test]
fn store_both_checked_writes_only_inside() {
    let cfg = config(MatrixLayout::RowMajor, true, true);
    let mut view = TensorView::new(numbered(vec![2, 3, 4]), 0, 0, 0);
    view.write_coalesced(1, 0, 2, vec![-1], &cfg);
    view.write_coalesced(0, 2, 0, vec![-1], &cfg);
    assert_eq!(written(&view), Vec::<usize>::new());
    view.write_coalesced(0, 1, 3, vec![-1], &cfg);
    assert_eq!(written(&view), vec![7]);
}

#[test]
fn store_n_checked_suppresses_columns_only() {
    let cfg = config(MatrixLayout::RowMajor, false, true);
    let mut view = TensorView::new(numbered(vec![2, 3, 4]), 0, 0, 0);
    view.write_coalesced(0, 2, 0, vec![-1], &cfg);
    assert_eq!(written(&view), Vec::<usize>::new());
    view.write_coalesced(1, 0, 2, vec![-1], &cfg);
    assert_eq!(written(&view), vec![12]);
}

#[test]
fn store_unchecked_always_writes() {
    let cfg = config(MatrixLayout::RowMajor, false, false);
    let mut view = TensorView::new(numbered(vec![2, 3, 4]), 0, 0, 1);
    view.write_coalesced(0, 0, 3, vec![-1], &cfg);
    assert_eq!(written(&view), vec![17]);
    let mut view = TensorView::new(numbered(vec![2, 3, 4]), 0, 0, 0);
    view.write_coalesced(1, 0, 2, vec![-1], &cfg);
    assert_eq!(written(&view), vec![12]);
}

#[test]
fn store_offsets_shift_the_position() {
    let cfg = config(MatrixLayout::RowMajor, true, true);
    let mut view = TensorView::new(numbered(vec![1, 4, 4]), 1, 2, 0);
    view.write_coalesced(0, 0, 1, vec![-1], &cfg);
    assert_eq!(written(&view), vec![7]);
}

#[test]
fn config_getters() {
    let mut cfg = config(MatrixLayout::ColMajor, true, false);
    cfg.out.line_size = 4;
    cfg.rhs.stage_dim = StageDim { tile_size_x: 8, tile_size_y: 16 };
    assert_eq!(cfg.line_size(Ident::Out), 4);
    assert_eq!(cfg.stage_dim(Ident::Rhs), StageDim { tile_size_x: 8, tile_size_y: 16 });
    assert_eq!(cfg.layout(Ident::Lhs), MatrixLayout::ColMajor);
    assert_eq!(cfg.layout(Ident::Out), MatrixLayout::RowMajor);
    assert!(cfg.check_m_bounds());
    assert!(!cfg.check_n_bounds());
}
