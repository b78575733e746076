use weather_border::{Border, BorderStyle, Edge, Separator};

const POSITIONS: [Border; 8] = [
    Border::TL,
    Border::T,
    Border::TR,
    Border::R,
    Border::BR,
    Border::B,
    Border::BL,
    Border::L,
];

const STYLES: [BorderStyle; 4] = [
    BorderStyle::rounded,
    BorderStyle::single,
    BorderStyle::solid,
    BorderStyle::double,
];

fn edges() -> Vec<fn() -> Edge> {
    vec![|| Edge::Top, || Edge::Bottom]
}

fn separators() -> Vec<fn() -> Separator> {
    vec![
        || Separator::Blank,
        || Separator::Single,
        || Separator::Solid,
        || Separator::Double,
        || Separator::Dashed,
    ]
}

#[test]
fn glyph_table_matches() {
    // rows: TL, T, TR, R, BR, B, BL, L; columns: rounded, single, solid, double
    let table: [[&str; 4]; 8] = [
        ["╭", "┌", "┏", "╔"],
        ["─", "─", "━", "═"],
        ["╮", "┐", "┓", "╗"],
        ["│", "│", "┃", "║"],
        ["╯", "┘", "┛", "╝"],
        ["─", "─", "━", "═"],
        ["╰", "└", "┗", "╚"],
        ["│", "│", "┃", "║"],
    ];
    for (p, row) in POSITIONS.iter().zip(table.iter()) {
        for (s, expected) in STYLES.iter().zip(row.iter()) {
            assert_eq!(p.fmt(s), *expected);
        }
    }
}

#[test]
fn every_glyph_is_one_box_drawing_char() {
    for p in POSITIONS.iter() {
        for s in STYLES.iter() {
            let g = p.fmt(s);
            assert!(!g.is_empty());
            let chars: Vec<char> = g.chars().collect();
            assert_eq!(chars.len(), 1);
            assert!(('\u{2500}'..='\u{257f}').contains(&chars[0]));
        }
    }
}

#[test]
fn top_bottom_and_right_left_alias() {
    for s in STYLES.iter() {
        assert_eq!(Border::T.fmt(s), Border::B.fmt(s));
        assert_eq!(Border::R.fmt(s), Border::L.fmt(s));
    }
}

#[test]
fn top_edge_double_width_five() {
    let r = Edge::Top.fmt(5, &BorderStyle::double);
    assert_eq!(r, "╔═════╗");
    assert_eq!(r.chars().count(), 7);
}

#[test]
fn bottom_edge_single_width_zero() {
    assert_eq!(Edge::Bottom.fmt(0, &BorderStyle::single), "└┘");
}

#[test]
fn top_edge_rounded() {
    assert_eq!(Edge::Top.fmt(3, &BorderStyle::rounded), "╭───╮");
}

#[test]
fn bottom_edge_solid() {
    assert_eq!(Edge::Bottom.fmt(2, &BorderStyle::solid), "┗━━┛");
}

#[test]
fn blank_separator_solid_width_three() {
    assert_eq!(Separator::Blank.fmt(3, &BorderStyle::solid), "┃   ┃");
}

#[test]
fn blank_separator_double() {
    assert_eq!(Separator::Blank.fmt(2, &BorderStyle::double), "║  ║");
}

#[test]
fn dashed_separator_rounded_width_four() {
    assert_eq!(Separator::Dashed.fmt(4, &BorderStyle::rounded), "├┈┈┈┈┤");
}

#[test]
fn fixed_separators_ignore_style() {
    for s in STYLES.iter() {
        assert_eq!(Separator::Single.fmt(2, s), "├──┤");
        assert_eq!(Separator::Solid.fmt(2, s), "┠──┨");
        assert_eq!(Separator::Double.fmt(2, s), "╟──╢");
        assert_eq!(Separator::Dashed.fmt(2, s), "├┈┈┤");
    }
}

#[test]
fn separators_width_zero() {
    assert_eq!(Separator::Blank.fmt(0, &BorderStyle::rounded), "││");
    assert_eq!(Separator::Single.fmt(0, &BorderStyle::rounded), "├┤");
}

#[test]
fn rendering_twice_gives_the_same_bytes() {
    for s in STYLES.iter() {
        for w in [0usize, 1, 7] {
            for e in edges() {
                assert_eq!(e().fmt(w, s).as_bytes(), e().fmt(w, s).as_bytes());
            }
            for sep in separators() {
                assert_eq!(sep().fmt(w, s).as_bytes(), sep().fmt(w, s).as_bytes());
            }
        }
    }
}

#[test]
fn line_length_is_width_plus_two() {
    for s in STYLES.iter() {
        for w in [0usize, 1, 2, 5, 40] {
            for e in edges() {
                assert_eq!(e().fmt(w, s).chars().count(), w + 2);
            }
            for sep in separators() {
                assert_eq!(sep().fmt(w, s).chars().count(), w + 2);
            }
        }
    }
}

#[test]
fn default_style_is_rounded() {
    assert_eq!(BorderStyle::default(), BorderStyle::rounded);
}
