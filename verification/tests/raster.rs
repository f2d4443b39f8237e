use mirage::braille::{cell_char, PixelGrid};
use mirage::line::line_points;

#[test]
fn line_horizontal() {
    assert_eq!(line_points(0, 0, 3, 0), vec![(0, 0), (1, 0), (2, 0), (3, 0)]);
}

#[test]
fn line_shallow_and_steep() {
    assert_eq!(line_points(0, 0, 2, 1), vec![(0, 0), (1, 0), (2, 1)]);
    assert_eq!(line_points(0, 0, 1, 3), vec![(0, 0), (0, 1), (1, 2), (1, 3)]);
    assert_eq!(
        line_points(7, 1, 0, 4),
        vec![(7, 1), (6, 1), (5, 2), (4, 2), (3, 3), (2, 3), (1, 4), (0, 4)]
    );
    assert_eq!(
        line_points(2, 9, 4, 0),
        vec![(2, 9), (2, 8), (2, 7), (3, 6), (3, 5), (3, 4), (3, 3), (4, 2), (4, 1), (4, 0)]
    );
}

#[test]
fn line_backwards_diagonal_and_single_point() {
    assert_eq!(line_points(3, 3, 0, 0), vec![(3, 3), (2, 2), (1, 1), (0, 0)]);
    assert_eq!(line_points(5, 5, 5, 5), vec![(5, 5)]);
}

#[test]
fn line_has_one_point_per_major_step() {
    let pts = line_points(10, 40, 90, 3);
    assert_eq!(pts.len(), 81);
    for w in pts.windows(2) {
        assert_eq!(w[1].0, w[0].0 + 1);
        assert!(w[0].1 >= w[1].1 && w[0].1 - w[1].1 <= 1);
    }
}

#[test]
fn braille_cell_bits_and_char() {
    let mut g = PixelGrid::new(4, 8);
    g.plot(0, 0);
    g.plot(1, 3);
    assert_eq!(g.cell_bits(0, 0), 0x81);
    assert_eq!(cell_char(g.cell_bits(0, 0)), '\u{2881}');
    assert_eq!(g.cell_bits(1, 1), 0);
    assert_eq!(cell_char(0), ' ');
    assert_eq!(cell_char(0xff), '\u{28ff}');
}

#[test]
fn plot_outside_grid_is_ignored() {
    let mut g = PixelGrid::new(2, 4);
    g.plot(2, 0);
    g.plot(0, 4);
    g.plot_signed(-1, 0);
    g.plot_signed(0, -3);
    assert_eq!(g.cell_bits(0, 0), 0);
    g.plot_signed(1, 2);
    assert!(g.is_lit(1, 2));
    assert_eq!(g.cell_bits(0, 0), 0x20);
}

#[test]
fn polyline_draws_every_segment_and_clips() {
    let mut g = PixelGrid::new(6, 4);
    g.draw_polyline(&[(0, 0), (5, 0), (5, 3), (9, 3)]);
    for x in 0..6 {
        assert!(g.is_lit(x, 0));
        assert!(g.is_lit(5, x.min(3)));
    }
    assert!(!g.is_lit(0, 1));
    assert!(!g.is_lit(4, 3));
    let mut single = PixelGrid::new(3, 3);
    single.draw_polyline(&[(1, 1)]);
    assert!(!single.is_lit(1, 1));
}

#[test]
fn every_braille_pattern_round_trips() {
    let dots = [(0, 0, 0x01u32), (0, 1, 0x02), (0, 2, 0x04), (0, 3, 0x40), (1, 0, 0x08), (1, 1, 0x10), (1, 2, 0x20), (1, 3, 0x80)];
    for bits in 0u32..256 {
        let mut g = PixelGrid::new(2, 4);
        for (x, y, w) in dots {
            if bits & w != 0 {
                g.plot(x, y);
            }
        }
        assert_eq!(g.cell_bits(0, 0), bits);
        for (x, y, w) in dots {
            assert_eq!(g.is_lit(x, y), bits & w != 0);
        }
        let c = cell_char(bits);
        if bits == 0 {
            assert_eq!(c, ' ');
        } else {
            assert_eq!(c as u32, 0x2800 + bits);
        }
    }
}
