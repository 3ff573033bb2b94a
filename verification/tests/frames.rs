use sl::animation::{Animation, Options, Train};
use sl::art::{
    c51_coal, c51_row, d51_coal, d51_row, man, sl_car, sl_coal, sl_row, smoke_eraser, smoke_shape,
    C51_DEL, C51_STR_7, C51_WH_14, C51_WH_41, C51_WH_62, COAL_01, COAL_08, COAL_10, COAL_DEL,
    D51_DEL, D51_STR_1, D51_STR_7, D51_WHL_11, D51_WHL_23, D51_WHL_42, D51_WHL_63, DEL_LN, LCAR_1,
    LCAR_6, LCOAL_1, LCOAL_6, LOGO_1, LOGO_4, LWHL_31, LWHL_32, LWHL_51, LWHL_62,
};
use sl::smoke::{advance, smoke_dx, smoke_dy, Puff, Smoke, SMOKE_CAPACITY};
use sl::text::{place_text, row_next, Cell, DrawOp, RowAction};
use sl::trains::{add_c51, add_d51, add_man, add_sl};

fn cell(y: i32, x: i32, c: char) -> Cell {
    Cell { y, x, ch: c as u32 }
}

fn d(y: i32, x: i32, text: &'static str) -> DrawOp {
    DrawOp { y, x, text }
}

// ----- placing a row of text -----

#[test]
fn place_text_on_screen() {
    let cells = place_text(3, 5, "abc").unwrap();
    assert_eq!(cells, vec![cell(3, 5, 'a'), cell(3, 6, 'b'), cell(3, 7, 'c')]);
}

#[test]
fn place_text_cut_on_the_left() {
    let cells = place_text(1, -2, "abc").unwrap();
    assert_eq!(cells, vec![cell(1, 0, 'c')]);
}

#[test]
fn place_text_all_cut_but_not_past_the_end() {
    let cells = place_text(1, -3, "abc").unwrap();
    assert!(cells.is_empty());
}

#[test]
fn place_text_wholly_left_of_the_screen() {
    assert_eq!(place_text(1, -4, "abc"), None);
    assert_eq!(place_text(1, i32::MIN, "abc"), None);
}

#[test]
fn place_text_empty_row() {
    assert_eq!(place_text(0, 0, ""), Some(vec![]));
    assert_eq!(place_text(0, -1, ""), None);
}

#[test]
fn place_text_counts_bytes_on_the_left_and_characters_after() {
    // "é" takes two bytes: cutting two bytes leaves "x".
    let cells = place_text(0, -2, "éx").unwrap();
    assert_eq!(cells, vec![cell(0, 0, 'x')]);
    let cells = place_text(0, 4, "éx").unwrap();
    assert_eq!(cells, vec![cell(0, 4, 'é'), cell(0, 5, 'x')]);
}

#[test]
fn place_text_keeps_columns_of_an_ascii_row() {
    let row = D51_STR_1;
    for x in [-20, -1, 0, 7] {
        let cells = place_text(9, x, row).unwrap();
        let skip = if x < 0 { (-x) as usize } else { 0 };
        assert_eq!(cells.len(), row.len() - skip);
        for (k, c) in cells.iter().enumerate() {
            assert_eq!(c.x, x + (skip + k) as i32);
            assert_eq!(c.ch, row.as_bytes()[skip + k] as u32);
            assert_eq!(c.y, 9);
        }
    }
}

#[test]
fn place_text_stops_at_the_last_column() {
    let cells = place_text(2, i32::MAX - 1, "abc").unwrap();
    assert_eq!(cells, vec![cell(2, i32::MAX - 1, 'a'), cell(2, i32::MAX, 'b')]);
}

#[test]
fn place_text_cut_is_the_suffix_at_column_zero() {
    let row = D51_STR_1;
    for x in [-1, -5, -30, -53, -54] {
        let cut = &row[(-x) as usize..];
        assert_eq!(place_text(4, x, row), place_text(4, 0, cut));
    }
}

#[test]
fn row_next_steps() {
    let cells = place_text(0, 0, "ab").unwrap();
    assert_eq!(row_next(&cells, 0, false), RowAction::Put(cell(0, 0, 'a')));
    assert_eq!(row_next(&cells, 1, false), RowAction::Put(cell(0, 1, 'b')));
    assert_eq!(row_next(&cells, 2, false), RowAction::Finish(true));
    assert_eq!(row_next(&cells, 1, true), RowAction::Finish(false));
    assert_eq!(row_next(&cells, 0, true), RowAction::Finish(false));
}

#[test]
fn row_next_stops_at_the_first_refusal() {
    // A terminal 3 columns wide: the fourth character is refused.
    let cells = place_text(0, 0, "abcdef").unwrap();
    let mut put = Vec::new();
    let (mut done, mut refused) = (0, false);
    let result = loop {
        match row_next(&cells, done, refused) {
            RowAction::Put(c) => {
                refused = c.x >= 3;
                if !refused {
                    put.push(c.ch);
                    done += 1;
                }
            }
            RowAction::Finish(ok) => break ok,
        }
    };
    assert!(!result);
    assert_eq!(put, vec!['a' as u32, 'b' as u32, 'c' as u32]);
}

// ----- the pictures -----

#[test]
fn picture_rows() {
    assert_eq!(d51_row(0, 0), D51_STR_1);
    assert_eq!(d51_row(0, 7), D51_WHL_11);
    assert_eq!(d51_row(5, 10), D51_DEL);
    assert_eq!(c51_row(3, 7), C51_WH_41);
    assert_eq!(sl_row(4, 4), LWHL_51);
    assert_eq!(man(1, 0), "Help!");
    assert_eq!(man(1, 1), "\\O/");
    assert_eq!(man(0, 0), "");
    assert_eq!(smoke_shape(0, 0), "(   )");
    assert_eq!(smoke_shape(1, 15), " ");
    assert_eq!(smoke_eraser(1), "      ");
}

#[test]
fn picture_tables() {
    assert_eq!(d51_row(2, 6), D51_STR_7);
    assert_eq!(d51_row(1, 9), D51_WHL_23);
    assert_eq!(d51_row(3, 8), D51_WHL_42);
    assert_eq!(d51_row(5, 9), D51_WHL_63);
    assert_eq!(d51_coal(9), COAL_10);
    assert_eq!(d51_coal(10), COAL_DEL);
    assert_eq!(c51_row(0, 6), C51_STR_7);
    assert_eq!(c51_row(0, 10), C51_WH_14);
    assert_eq!(c51_row(5, 8), C51_WH_62);
    assert_eq!(c51_row(4, 11), C51_DEL);
    assert_eq!(c51_coal(0), COAL_DEL);
    assert_eq!(c51_coal(10), COAL_10);
    assert_eq!(c51_coal(11), COAL_DEL);
    assert_eq!(sl_row(0, 3), LOGO_4);
    assert_eq!(sl_row(2, 4), LWHL_31);
    assert_eq!(sl_row(2, 5), LWHL_32);
    assert_eq!(sl_row(5, 5), LWHL_62);
    assert_eq!(sl_row(1, 6), DEL_LN);
    assert_eq!(sl_coal(5), LCOAL_6);
    assert_eq!(sl_car(5), LCAR_6);
    assert_eq!(sl_car(6), DEL_LN);
}

#[test]
fn picture_widths() {
    for p in 0..6 {
        for i in 0..11 {
            assert_eq!(d51_row(p, i).len(), 54);
        }
        for i in 0..12 {
            assert_eq!(c51_row(p, i).len(), 55);
        }
        for i in 0..7 {
            assert_eq!(sl_row(p, i).len(), 21);
        }
    }
    for i in 0..11 {
        assert_eq!(d51_coal(i).len(), 30);
        assert!(d51_coal(i).ends_with(' '));
    }
    for i in 0..12 {
        assert_eq!(c51_coal(i).len(), 30);
        assert!(c51_coal(i).ends_with(' '));
    }
    for i in 0..7 {
        assert_eq!(sl_coal(i).len(), 21);
        assert!(sl_coal(i).ends_with(' '));
        assert_eq!(sl_car(i).len(), 21);
        assert!(sl_car(i).ends_with(' '));
    }
}

#[test]
fn erasers_fit_puffs() {
    for p in 0..16 {
        for kind in 0..2 {
            assert_eq!(smoke_shape(kind, p).len(), smoke_eraser(p).len());
        }
        assert!(smoke_eraser(p).chars().all(|c| c == ' '));
    }
}

// ----- passengers -----

#[test]
fn add_man_pose() {
    let mut f = Vec::new();
    add_man(&mut f, 4, 0); // (84 + 0) / 12 = 7: waving
    assert_eq!(f, vec![d(4, 0, "Help!"), d(5, 0, "\\O/")]);
    let mut f = Vec::new();
    add_man(&mut f, 4, 12); // (84 + 12) / 12 = 8: resting
    assert_eq!(f, vec![d(4, 12, ""), d(5, 12, "(O)")]);
}

#[test]
fn add_man_alternates_every_twelve_columns() {
    for x in -84..100 {
        let mut a = Vec::new();
        let mut b = Vec::new();
        add_man(&mut a, 0, x);
        add_man(&mut b, 0, x + 12);
        assert_ne!(a[0].text, b[0].text);
    }
}

// ----- smoke -----

#[test]
fn smoke_drift_table() {
    let dy: Vec<i32> = (0..16).map(smoke_dy).collect();
    let dx: Vec<i32> = (0..16).map(smoke_dx).collect();
    assert_eq!(dy, vec![2, 1, 1, 1, 0, 0, 0, 0, 0, 0, 0, 0, 0, 0, 0, 0]);
    assert_eq!(dx, vec![-2, -1, 0, 1, 1, 1, 1, 1, 2, 2, 2, 2, 2, 3, 3, 3]);
}

#[test]
fn advance_a_puff() {
    let p = Puff { y: 10, x: 10, ptrn: 0, kind: 1 };
    assert_eq!(advance(p), Puff { y: 8, x: 8, ptrn: 1, kind: 1 });
    let p = Puff { y: 10, x: 10, ptrn: 15, kind: 0 };
    assert_eq!(advance(p), Puff { y: 10, x: 13, ptrn: 15, kind: 0 });
}

#[test]
fn smoke_only_on_every_fourth_column() {
    let mut s = Smoke::new();
    let mut f = Vec::new();
    s.add_smoke(&mut f, 5, 9);
    s.add_smoke(&mut f, 5, -3);
    assert!(f.is_empty());
    assert_eq!(s.len(), 0);
    s.add_smoke(&mut f, 5, -8);
    assert_eq!(s.len(), 1);
}

#[test]
fn smoke_steps() {
    let mut s = Smoke::new();
    let mut f = Vec::new();
    s.add_smoke(&mut f, 5, 8);
    assert_eq!(f, vec![d(5, 8, "(   )")]);
    assert_eq!(s.puff(0), Puff { y: 5, x: 8, ptrn: 0, kind: 0 });
    let mut f = Vec::new();
    s.add_smoke(&mut f, 4, 12);
    assert_eq!(f, vec![d(5, 8, "     "), d(3, 6, "(    )"), d(4, 12, "(@@@)")]);
    assert_eq!(s.puff(0), Puff { y: 3, x: 6, ptrn: 1, kind: 0 });
    assert_eq!(s.puff(1), Puff { y: 4, x: 12, ptrn: 0, kind: 1 });
}

#[test]
fn smoke_kinds_alternate_and_stages_stop_at_the_last() {
    let mut s = Smoke::new();
    let mut f = Vec::new();
    for k in 0..40 {
        s.add_smoke(&mut f, 100, 4 * k);
    }
    assert_eq!(s.len(), 40);
    for i in 0..40 {
        let p = s.puff(i);
        assert_eq!(p.kind, (i % 2) as i32);
        assert_eq!(p.ptrn, std::cmp::min(39 - i as i32, 15));
        assert!(p.y <= 100);
    }
}

#[test]
fn puff_path() {
    // A puff appears at (20, 0); the funnel passes a column divisible by 4
    // at every step.
    let mut s = Smoke::new();
    let mut f = Vec::new();
    s.add_smoke(&mut f, 20, 0);
    let rise = [0, 2, 3, 4, 5];
    let mut x = 0;
    let mut drift = 0;
    for m in 0..30usize {
        let p = s.puff(0);
        assert_eq!(p.y, 20 - rise[m.min(4)]);
        assert_eq!(p.x, drift);
        assert_eq!(p.ptrn, m.min(15) as i32);
        drift += smoke_dx(p.ptrn);
        let mut f = Vec::new();
        x += 4;
        s.add_smoke(&mut f, 20, x);
        // The puff is wiped where it was, with blanks as wide as it was drawn.
        assert_eq!(f[0], d(p.y, p.x, smoke_eraser(p.ptrn as usize)));
        assert_eq!(f[0].text.len(), smoke_shape(0, p.ptrn as usize).len());
        // And drawn where the smoke now holds it.
        let q = s.puff(0);
        assert_eq!(f[1], d(q.y, q.x, smoke_shape(0, q.ptrn as usize)));
        if m >= 15 {
            assert_eq!(f[0].text, " ");
            assert_eq!(f[1].text, " ");
            assert_eq!((q.y, q.x), (p.y, p.x + 3));
        }
    }
}

#[test]
fn smoke_capacity() {
    let mut s = Smoke::new();
    let mut f = Vec::new();
    for _ in 0..SMOKE_CAPACITY {
        assert!(s.ready(0));
        f.clear();
        s.add_smoke(&mut f, 0, 0);
    }
    assert_eq!(s.len(), SMOKE_CAPACITY);
    assert!(s.ready(0));
    // A full smoke still moves and draws every puff and the new one, but
    // cannot keep the new one.
    f.clear();
    s.add_smoke(&mut f, 0, 0);
    assert_eq!(s.len(), SMOKE_CAPACITY);
    assert_eq!(f.len(), 2 * SMOKE_CAPACITY + 1);
    assert_eq!(f[2 * SMOKE_CAPACITY], d(0, 0, "(   )"));
}

#[test]
fn smoke_not_ready_when_a_puff_would_overflow() {
    let mut s = Smoke::new();
    let mut f = Vec::new();
    s.add_smoke(&mut f, i32::MIN + 1, 0);
    assert!(!s.ready(0));
}

// ----- the trains -----

#[test]
fn d51_frame() {
    let mut s = Smoke::new();
    let mut f = Vec::new();
    assert!(add_d51(&mut f, &mut s, 10, false, false, 24, 80));
    // 11 rows of engine, each with the row of the tender beside it; no smoke
    // at column 17.
    assert_eq!(f.len(), 22);
    assert_eq!(f[0], d(7, 10, D51_STR_1));
    assert_eq!(f[1], d(7, 63, COAL_01));
    assert_eq!(f[15], d(14, 63, COAL_08));
    // (83 + 10) % 6 = 3
    assert_eq!(f[14], d(14, 10, d51_row(3, 7)));
    assert_eq!(f[21], d(17, 63, COAL_DEL));
}

#[test]
fn d51_frame_with_accident_and_smoke() {
    let mut s = Smoke::new();
    let mut f = Vec::new();
    assert!(add_d51(&mut f, &mut s, 9, false, true, 24, 80));
    assert_eq!(f.len(), 22 + 4 + 1);
    // (84 + 52) / 12 = 11: waving
    assert_eq!(f[22], d(9, 52, "Help!"));
    assert_eq!(f[23], d(10, 52, "\\O/"));
    // (84 + 56) / 12 = 11
    assert_eq!(f[24], d(9, 56, "Help!"));
    assert_eq!(f[26], d(6, 16, "(   )"));
    assert_eq!(s.len(), 1);
}

#[test]
fn d51_gone() {
    let mut s = Smoke::new();
    let mut f = Vec::new();
    assert!(!add_d51(&mut f, &mut s, -84, false, false, 24, 80));
    assert!(f.is_empty());
    assert!(add_d51(&mut f, &mut s, -83, false, false, 24, 80));
}

#[test]
fn d51_flying() {
    let mut s = Smoke::new();
    let mut f = Vec::new();
    assert!(add_d51(&mut f, &mut s, 14, true, false, 24, 80));
    // 14 / 7 + 24 - 80 / 7 - 10 = 5; the tender hangs one line lower
    assert_eq!(f[0], d(5, 14, D51_STR_1));
    assert_eq!(f[1], d(6, 67, COAL_01));
    let mut f = Vec::new();
    assert!(add_d51(&mut f, &mut s, -1, true, false, 24, 80));
    // -1 / 7 rounds toward zero
    assert_eq!(f[0].y, 3);
    let mut f = Vec::new();
    assert!(add_d51(&mut f, &mut s, -7, true, false, 24, 80));
    assert_eq!(f[0].y, 2);
}

#[test]
fn c51_frame() {
    let mut s = Smoke::new();
    let mut f = Vec::new();
    assert!(add_c51(&mut f, &mut s, 0, false, false, 24, 80));
    // 12 rows, each with the tender; a puff at column 7? no: 7 % 4 != 0
    assert_eq!(f.len(), 24);
    assert_eq!(f[1], d(7, 55, COAL_DEL));
    assert_eq!(f[3], d(8, 55, COAL_01));
    assert_eq!(f[14], d(14, 0, C51_WH_41));
    assert!(!add_c51(&mut f, &mut s, -88, false, false, 24, 80));
}

#[test]
fn c51_accident() {
    let mut s = Smoke::new();
    let mut f = Vec::new();
    assert!(add_c51(&mut f, &mut s, 1, true, true, 30, 80));
    // 1 / 7 + 30 - 80 / 7 - 11 = 8; passengers three lines below the top
    assert_eq!(f.len(), 24 + 4 + 1);
    assert_eq!(f[24].y, 11);
    assert_eq!(f[24].x, 46);
    assert_eq!(f[28], d(7, 8, "(   )"));
}

#[test]
fn sl_frame() {
    let mut s = Smoke::new();
    let mut f = Vec::new();
    assert!(add_sl(&mut f, &mut s, 0, false, false, 24, 80));
    // 7 rows of engine, coal car and two cars; the funnel at 4 puffs
    assert_eq!(f.len(), 28 + 1);
    assert_eq!(f[0], d(9, 0, LOGO_1));
    assert_eq!(f[1], d(9, 21, LCOAL_1));
    assert_eq!(f[2], d(9, 42, LCAR_1));
    assert_eq!(f[3], d(9, 63, LCAR_1));
    // (84 + 0) / 3 % 6 = 4
    assert_eq!(f[16], d(13, 0, LWHL_51));
    assert_eq!(f[28], d(8, 4, "(   )"));
    assert!(!add_sl(&mut f, &mut s, -85, false, false, 24, 80));
}

#[test]
fn sl_flying_with_accident() {
    let mut s = Smoke::new();
    let mut f = Vec::new();
    assert!(add_sl(&mut f, &mut s, 1, true, true, 24, 80));
    // 1 / 6 + 24 - 80 / 6 - 6 = 5; the cars hang 2, 4 and 6 lines lower
    assert_eq!(f[0].y, 5);
    assert_eq!(f[1].y, 7);
    assert_eq!(f[2].y, 9);
    assert_eq!(f[3].y, 11);
    assert_eq!(f.len(), 28 + 10);
    let men: Vec<(i32, i32)> = f[28..38].iter().step_by(2).map(|o| (o.y, o.x)).collect();
    assert_eq!(men, vec![(6, 15), (10, 46), (10, 54), (12, 67), (12, 75)]);
}

#[test]
fn pictures_repeat() {
    for x in [-83, -20, 0, 5, 40] {
        for (a, b) in [(x, x + 6)] {
            let mut s = Smoke::new();
            let mut fa = Vec::new();
            let mut fb = Vec::new();
            add_d51(&mut fa, &mut s, a, false, false, 24, 80);
            let mut s = Smoke::new();
            add_d51(&mut fb, &mut s, b, false, false, 24, 80);
            for k in 0..22 {
                assert_eq!(fa[k].text, fb[k].text);
                assert_eq!(fa[k].x + 6, fb[k].x);
            }
        }
        let mut s = Smoke::new();
        let mut fa = Vec::new();
        let mut fb = Vec::new();
        add_sl(&mut fa, &mut s, x, false, false, 24, 80);
        let mut s = Smoke::new();
        add_sl(&mut fb, &mut s, x + 18, false, false, 24, 80);
        for k in 0..28 {
            assert_eq!(fa[k].text, fb[k].text);
        }
    }
}

#[test]
fn flying_trains_climb() {
    let mut last = i32::MIN;
    for x in -83..120 {
        let mut s = Smoke::new();
        let mut f = Vec::new();
        add_d51(&mut f, &mut s, x, true, false, 40, 100);
        assert!(f[0].y >= last);
        last = f[0].y;
    }
}

// ----- the run -----

#[test]
fn options_choose_the_train() {
    let o = |logo, c51| Options { accident: false, fly: false, logo, c51, intr: false };
    assert_eq!(o(true, true).train(), Train::Logo);
    assert_eq!(o(false, true).train(), Train::C51);
    assert_eq!(o(false, false).train(), Train::D51);
    assert!(o(false, false).ignores_interrupt());
    let e = Options { accident: false, fly: false, logo: false, c51: false, intr: true };
    assert!(!e.ignores_interrupt());
}

fn run(opts: Options, lines: i32, cols: i32) -> usize {
    let mut a = Animation::new(&opts, cols);
    let mut frames = 0;
    loop {
        assert!(a.can_step(lines, cols));
        let x = a.x;
        match a.next_frame(lines, cols) {
            None => break,
            Some(ops) => {
                assert!(!ops.is_empty());
                assert_eq!(a.x, x - 1);
                frames += 1;
            }
        }
    }
    frames
}

#[test]
fn a_run_crosses_the_whole_screen() {
    let base = Options { accident: false, fly: false, logo: false, c51: false, intr: false };
    assert_eq!(run(base, 24, 80), 80 + 83);
    assert_eq!(run(Options { c51: true, ..base }, 24, 80), 80 + 87);
    assert_eq!(run(Options { logo: true, accident: true, fly: true, ..base }, 24, 80), 80 + 84);
    assert_eq!(run(base, 24, 0), 83);
    assert_eq!(run(base, 24, -200), 0);
}

#[test]
fn a_run_starts_at_the_last_column() {
    let base = Options { accident: false, fly: false, logo: false, c51: false, intr: false };
    let mut a = Animation::new(&base, 80);
    assert_eq!(a.x, 79);
    let ops = a.next_frame(24, 80).unwrap();
    assert_eq!(ops[0], d(7, 79, D51_STR_1));
}

#[test]
fn a_run_on_a_wide_screen_loses_a_puff() {
    let base = Options { accident: false, fly: false, logo: false, c51: false, intr: false };
    let mut a = Animation::new(&base, 5000);
    let mut frames = 0;
    while !a.puff_lost() {
        assert!(a.can_step(24, 5000));
        a.next_frame(24, 5000).unwrap();
        frames += 1;
    }
    // A puff is due every fourth column: the first in the third frame, the 1001st four thousand frames later.
    assert_eq!(frames, 4002);
    assert_eq!(a.smoke.len(), SMOKE_CAPACITY);
    let ops = a.next_frame(24, 5000).unwrap();
    assert_eq!(ops.len(), 22 + 2 * SMOKE_CAPACITY + 1);
    assert_eq!(a.smoke.len(), SMOKE_CAPACITY);
}

#[test]
fn a_run_on_a_huge_screen_cannot_step() {
    let base = Options { accident: false, fly: false, logo: false, c51: false, intr: false };
    let a = Animation::new(&base, i32::MAX);
    assert!(!a.can_step(24, i32::MAX));
    let f = Options { fly: true, ..base };
    let a = Animation::new(&f, 80);
    assert!(!a.can_step(i32::MAX, 80));
    assert!(a.can_step(24, 80));
}
