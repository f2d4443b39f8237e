use mirage::dsp::{bars_for_width, initial_bar_count, peak_hold_step, BarBank, PeakMotion, PEAK_HOLD_FRAMES};
use mirage::layout::{centered_rect, popup_extents, Area, Extent, MirageLayout};
use mirage::widgets::{
    bar_column, eighth_block, gradient_index, lissajous_square, lissajous_window, vu_bar_cells, BarCell, VuCell, VuZone,
};

#[test]
fn bar_counts() {
    assert_eq!(initial_bar_count(0), 64);
    assert_eq!(initial_bar_count(32), 32);
    assert_eq!(bars_for_width(0, 120), 120);
    assert_eq!(bars_for_width(48, 120), 48);
}

#[test]
fn bar_bank_resize_keeps_prefix_and_zero_fills() {
    let mut b = BarBank::new(0, 0.0f32);
    assert_eq!(b.bars_count, 64);
    b.cur_bars[0] = 0.5;
    b.peak_hold_timers[1] = 7;
    b.resize_bars(2);
    assert_eq!(b.cur_bars, vec![0.5, 0.0]);
    assert_eq!(b.peak_hold_timers, vec![0, 7]);
    b.resize_bars(4);
    assert_eq!(b.peaks.len(), 4);
    assert_eq!(b.cur_bars, vec![0.5, 0.0, 0.0, 0.0]);
    b.resize_bars(0);
    assert_eq!(b.bars_count, 4);
}

#[test]
fn peak_holds_fifteen_frames_then_falls() {
    let (mut t, m) = peak_hold_step(3, true);
    assert_eq!((t, m), (PEAK_HOLD_FRAMES, PeakMotion::Capture));
    for _ in 0..PEAK_HOLD_FRAMES {
        let (nt, m) = peak_hold_step(t, false);
        assert_eq!(m, PeakMotion::Hold);
        t = nt;
    }
    assert_eq!(peak_hold_step(t, false), (0, PeakMotion::Fall));
}

#[test]
fn gradient_indices() {
    assert_eq!(gradient_index(0, 10, 6), 0);
    assert_eq!(gradient_index(5, 10, 6), 3);
    assert_eq!(gradient_index(9, 10, 6), 5);
    assert_eq!(gradient_index(20, 10, 6), 5);
}

#[test]
fn bar_column_cells() {
    let c = bar_column(5, 2, 4, 4);
    assert_eq!(
        c,
        vec![BarCell::Block('█'), BarCell::Block('█'), BarCell::Block('▄'), BarCell::Blank, BarCell::Peak]
    );
    let low_peak = bar_column(3, 1, 0, 0);
    assert_eq!(low_peak, vec![BarCell::Block('█'), BarCell::Blank, BarCell::Blank]);
    let covered = bar_column(4, 3, 0, 2);
    assert_eq!(covered[2], BarCell::Block('█'));
    let clipped = bar_column(3, 0, 1, 9);
    assert_eq!(clipped, vec![BarCell::Block('▁'), BarCell::Blank, BarCell::Peak]);
    assert_eq!(eighth_block(8), '█');
    assert_eq!(eighth_block(1), '▁');
    assert_eq!(eighth_block(0), ' ');
}

#[test]
fn lissajous_geometry() {
    assert_eq!(lissajous_square(0, 0, 100, 20), (30, 0, 40, 20));
    assert_eq!(lissajous_square(5, 2, 10, 30), (5, 14, 10, 5));
    assert_eq!(lissajous_square(0, 0, 1, 1), (0, 0, 1, 1));
    assert_eq!(lissajous_window(600, 600), (200, 400));
    assert_eq!(lissajous_window(100, 300), (0, 100));
}

#[test]
fn popup_rect_is_centred_inside() {
    let area = Area { x: 0, y: 0, width: 100, height: 40 };
    let c = centered_rect(50, 50, area);
    assert_eq!(c, Area { x: 25, y: 10, width: 50, height: 20 });
}

#[test]
fn screen_layout() {
    let area = Area { x: 0, y: 0, width: 80, height: 24 };
    let l = MirageLayout::new(area, true);
    assert_eq!(l.top_rect, Area { x: 0, y: 0, width: 80, height: 3 });
    assert_eq!(l.bottom_rect, Area { x: 0, y: 23, width: 80, height: 1 });
    assert_eq!(l.main_rect, Area { x: 0, y: 3, width: 64, height: 20 });
    assert_eq!(l.side_rect, Area { x: 64, y: 3, width: 16, height: 20 });
    let n = MirageLayout::new(area, false);
    assert_eq!(n.main_rect, Area { x: 0, y: 3, width: 80, height: 20 });
    assert_eq!(n.side_rect, Area { x: 0, y: 0, width: 0, height: 0 });
}

#[test]
fn popup_extents_centre_the_part() {
    assert_eq!(popup_extents(45), vec![Extent::Percentage(27), Extent::Percentage(45), Extent::Percentage(27)]);
    assert_eq!(popup_extents(100), vec![Extent::Percentage(0), Extent::Percentage(100), Extent::Percentage(0)]);
    let area = Area { x: 0, y: 0, width: 100, height: 40 };
    assert_eq!(centered_rect(100, 100, area), area);
}

#[test]
fn screen_layout_hundred_by_twenty() {
    let a = Area { x: 0, y: 0, width: 100, height: 20 };
    let l1 = MirageLayout::new(a, true);
    let l2 = MirageLayout::new(a, false);
    assert_eq!(l1.top_rect, Area { x: 0, y: 0, width: 100, height: 3 });
    assert_eq!(l1.main_rect, Area { x: 0, y: 3, width: 80, height: 16 });
    assert_eq!(l1.side_rect, Area { x: 80, y: 3, width: 20, height: 16 });
    assert_eq!(l1.bottom_rect, Area { x: 0, y: 19, width: 100, height: 1 });
    assert!(l1.has_side_panel);
    assert_eq!(l2.main_rect, Area { x: 0, y: 3, width: 100, height: 16 });
    assert_eq!(l2.side_rect, Area { x: 0, y: 0, width: 0, height: 0 });
    assert!(!l2.has_side_panel);
}

#[test]
fn screen_layout_rounds_the_panel_split() {
    let a = Area { x: 2, y: 1, width: 33, height: 9 };
    let l = MirageLayout::new(a, true);
    assert_eq!(l.top_rect, Area { x: 2, y: 1, width: 33, height: 3 });
    assert_eq!(l.main_rect, Area { x: 2, y: 4, width: 26, height: 5 });
    assert_eq!(l.side_rect, Area { x: 28, y: 4, width: 7, height: 5 });
    assert_eq!(l.bottom_rect, Area { x: 2, y: 9, width: 33, height: 1 });
}

#[test]
fn popup_rect_rounds_its_edges() {
    let area = Area { x: 3, y: 2, width: 77, height: 21 };
    let c = centered_rect(60, 50, area);
    assert_eq!(c, Area { x: 18, y: 7, width: 47, height: 11 });
}

#[test]
fn lissajous_window_of_window() {
    let (start, count) = lissajous_window(1000, 700);
    assert_eq!((start, count), (300, 400));
    assert_eq!(lissajous_window(count, count), (0, 400));
    assert_eq!(lissajous_window(3, 5), (0, 3));
    assert_eq!(lissajous_window(3, 3), (0, 3));
}

#[test]
fn vu_bar_cells_fill_marker_and_bands() {
    let c = vu_bar_cells(10, 7, 9);
    assert_eq!(
        c,
        vec![VuCell::Fill(VuZone::Low), VuCell::Fill(VuZone::Low), VuCell::Fill(VuZone::Low), VuCell::Fill(VuZone::Low), VuCell::Fill(VuZone::Low), VuCell::Fill(VuZone::Low), VuCell::Fill(VuZone::Mid), VuCell::Empty, VuCell::Empty, VuCell::Marker]
    );
    assert_eq!(vu_bar_cells(4, 3, 1), vec![VuCell::Fill(VuZone::Low), VuCell::Fill(VuZone::Low), VuCell::Fill(VuZone::Low), VuCell::Empty]);
    let full = vu_bar_cells(20, 20, 5);
    assert_eq!(full[11], VuCell::Fill(VuZone::Low));
    assert_eq!(full[12], VuCell::Fill(VuZone::Mid));
    assert_eq!(full[16], VuCell::Fill(VuZone::Mid));
    assert_eq!(full[17], VuCell::Fill(VuZone::High));
    assert_eq!(full[19], VuCell::Fill(VuZone::High));
    assert_eq!(vu_bar_cells(3, 0, 0), vec![VuCell::Marker, VuCell::Empty, VuCell::Empty]);
    assert_eq!(vu_bar_cells(3, 0, 3), vec![VuCell::Empty, VuCell::Empty, VuCell::Empty]);
    assert!(vu_bar_cells(0, 0, 0).is_empty());
}

#[test]
fn popup_rect_stops_at_the_last_cell() {
    let area = Area { x: 65500, y: 65500, width: 100, height: 100 };
    let c = centered_rect(50, 50, area);
    assert_eq!(c, Area { x: 65509, y: 65509, width: 17, height: 17 });
}

#[test]
fn screen_layout_stops_at_the_last_cell() {
    let a = Area { x: 65500, y: 65520, width: 100, height: 20 };
    let l = MirageLayout::new(a, true);
    assert_eq!(l.top_rect, Area { x: 65500, y: 65520, width: 100, height: 3 });
    assert_eq!(l.main_rect, Area { x: 65500, y: 65523, width: 28, height: 11 });
    assert_eq!(l.side_rect, Area { x: 65528, y: 65523, width: 7, height: 11 });
    assert_eq!(l.bottom_rect, Area { x: 65500, y: 65534, width: 100, height: 1 });
}
