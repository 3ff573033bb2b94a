//! One frame of each train: the engine in its wheel position, what it pulls,
//! the passengers when there is an accident, and the smoke from the funnel.
//! A train whose front has gone too far left of the screen is not drawn, and
//! that ends the run.

use vstd::prelude::*;
use crate::art::{
    C51_DEL,
    C51_FUNNEL,
    C51_HIGHT,
    C51_LENGTH,
    C51_PATTERNS,
    C51_STR_1,
    C51_STR_2,
    C51_STR_3,
    C51_STR_4,
    C51_STR_5,
    C51_STR_6,
    C51_STR_7,
    C51_WH_11,
    C51_WH_12,
    C51_WH_13,
    C51_WH_14,
    C51_WH_21,
    C51_WH_22,
    C51_WH_23,
    C51_WH_24,
    C51_WH_31,
    C51_WH_32,
    C51_WH_33,
    C51_WH_34,
    C51_WH_41,
    C51_WH_42,
    C51_WH_43,
    C51_WH_44,
    C51_WH_51,
    C51_WH_52,
    C51_WH_53,
    C51_WH_54,
    C51_WH_61,
    C51_WH_62,
    C51_WH_63,
    C51_WH_64,
    COAL_01,
    COAL_02,
    COAL_03,
    COAL_04,
    COAL_05,
    COAL_06,
    COAL_07,
    COAL_08,
    COAL_09,
    COAL_10,
    COAL_DEL,
    D51_DEL,
    D51_FUNNEL,
    D51_HIGHT,
    D51_LENGTH,
    D51_PATTERNS,
    D51_STR_1,
    D51_STR_2,
    D51_STR_3,
    D51_STR_4,
    D51_STR_5,
    D51_STR_6,
    D51_STR_7,
    D51_WHL_11,
    D51_WHL_12,
    D51_WHL_13,
    D51_WHL_21,
    D51_WHL_22,
    D51_WHL_23,
    D51_WHL_31,
    D51_WHL_32,
    D51_WHL_33,
    D51_WHL_41,
    D51_WHL_42,
    D51_WHL_43,
    D51_WHL_51,
    D51_WHL_52,
    D51_WHL_53,
    D51_WHL_61,
    D51_WHL_62,
    D51_WHL_63,
    DEL_LN,
    LCAR_1,
    LCAR_2,
    LCAR_3,
    LCAR_4,
    LCAR_5,
    LCAR_6,
    LCOAL_1,
    LCOAL_2,
    LCOAL_3,
    LCOAL_4,
    LCOAL_5,
    LCOAL_6,
    LOGO_1,
    LOGO_2,
    LOGO_3,
    LOGO_4,
    LOGO_FUNNEL,
    LOGO_HIGHT,
    LOGO_LENGTH,
    LOGO_PATTERNS,
    LWHL_11,
    LWHL_12,
    LWHL_21,
    LWHL_22,
    LWHL_31,
    LWHL_32,
    LWHL_41,
    LWHL_42,
    LWHL_51,
    LWHL_52,
    LWHL_61,
    LWHL_62,
    c51_coal,
    c51_coal_spec,
    c51_row,
    c51_row_spec,
    d51_coal,
    d51_coal_spec,
    d51_row,
    d51_row_spec,
    man,
    man_spec,
    sl_car,
    sl_car_spec,
    sl_coal,
    sl_coal_spec,
    sl_row,
    sl_row_spec,
};
use crate::num::{div_t, fits, rem_t};
use crate::smoke::{smoke_after, smoke_ops, smoke_ready, Puff, Smoke};
use crate::text::{op, DrawOp};

verus! {

// ---------------------------------------------------------------------------
// Passengers
// ---------------------------------------------------------------------------

/// The pose of a passenger at column `x`: it changes every twelve columns.
/// Negative on columns far left of the screen, where no pose exists.
pub open spec fn man_pose(x: int) -> int {
    rem_t(div_t(LOGO_LENGTH + x, 12), 2)
}

/// The two rows of a passenger at `(y, x)`.
pub open spec fn man_ops(y: int, x: int) -> Seq<DrawOp> {
    seq![op(y, x, man_spec(man_pose(x), 0)), op(y + 1, x, man_spec(man_pose(x), 1))]
}

/// The passenger at `(y, x)` can be drawn without a panic.
pub open spec fn man_ok(y: int, x: int) -> bool {
    &&& fits(y + 1)
    &&& fits(LOGO_LENGTH + x)
    &&& man_pose(x) != -1
}

/// A passenger at `(y, x)`, resting or waving for help by turns as the train
/// moves; its two rows go to the end of `frame`.
pub fn add_man(frame: &mut Vec<DrawOp>, y: i32, x: i32)
    requires
        man_ok(y as int, x as int),
    ensures
        final(frame)@ == old(frame)@ + man_ops(y as int, x as int),
{
    let pose = (LOGO_LENGTH + x) / 12 % 2;
    assert(pose == man_pose(x as int));
    frame.push(DrawOp { y, x, text: man(pose as usize, 0) });
    frame.push(DrawOp { y: y + 1, x, text: man(pose as usize, 1) });
    assert(frame@ =~= old(frame)@ + man_ops(y as int, x as int));
}

/// A passenger stands right of the first column that a train is drawn at: its
/// pose exists.
pub proof fn lemma_man_pose_exists(x: int)
    requires
        LOGO_LENGTH + x >= 0,
    ensures
        0 <= man_pose(x) <= 1,
{
    let q = div_t(LOGO_LENGTH + x, 12);
    assert(q >= 0) by (nonlinear_arith)
        requires q == (LOGO_LENGTH + x) / 12, LOGO_LENGTH + x >= 0;
}

// ---------------------------------------------------------------------------
// D51
// ---------------------------------------------------------------------------

/// The row of the top of the D51: the middle of the screen, or, when it
/// flies, a row that rises one line every seven columns it moves left.
pub open spec fn d51_y(x: int, fly: bool, lines: int, cols: int) -> int {
    if fly {
        div_t(x, 7) + lines - div_t(cols, 7) - D51_HIGHT
    } else {
        div_t(lines, 2) - 5
    }
}

/// The wheel position of the D51 at column `x`: one of six, advancing with
/// each column.
pub open spec fn d51_pattern(x: int) -> int {
    (D51_LENGTH + x) % D51_PATTERNS as int
}

/// The engine and its tender, row by row: each row of the engine followed
/// by the row of the tender beside it (one line lower when flying).
pub open spec fn d51_body(x: int, fly: bool, lines: int, cols: int) -> Seq<DrawOp> {
    let y = d51_y(x, fly, lines, cols);
    let dy: int = if fly { 1 } else { 0 };
    let p = d51_pattern(x);
    Seq::new(
        (2 * (D51_HIGHT + 1)) as nat,
        |k: int|
            if k % 2 == 0 {
                op(y + k / 2, x, d51_row_spec(p, k / 2))
            } else {
                op(y + k / 2 + dy, x + 53, d51_coal_spec(k / 2))
            },
    )
}

/// The passengers of the D51 in an accident.
pub open spec fn d51_men(x: int, fly: bool, lines: int, cols: int) -> Seq<DrawOp> {
    let y = d51_y(x, fly, lines, cols);
    man_ops(y + 2, x + 43) + man_ops(y + 2, x + 47)
}

/// Everything drawn in a frame of the D51 at column `x`, with the smoke `s`
/// left so far.
pub open spec fn d51_frame(
    x: int,
    fly: bool,
    accident: bool,
    lines: int,
    cols: int,
    s: Seq<Puff>,
) -> Seq<DrawOp> {
    let y = d51_y(x, fly, lines, cols);
    d51_body(x, fly, lines, cols) + (if accident {
        d51_men(x, fly, lines, cols)
    } else {
        Seq::empty()
    }) + smoke_ops(s, y - 1, x + D51_FUNNEL)
}

/// The D51 at column `x` is off the screen for good.
pub open spec fn d51_gone(x: int) -> bool {
    x < -D51_LENGTH
}

/// The arithmetic of a D51 frame stays within `i32`.
pub open spec fn d51_args_ok(x: int, fly: bool, accident: bool, lines: int, cols: int) -> bool {
    !d51_gone(x) ==> {
        let y = d51_y(x, fly, lines, cols);
        &&& x + (if accident { LOGO_LENGTH + 47 } else { D51_LENGTH as int }) <= i32::MAX
        &&& fly ==> fits(div_t(x, 7) + lines) && fits(div_t(x, 7) + lines - div_t(cols, 7))
        &&& fits(y - 1)
        &&& fits(y + D51_HIGHT + 1)
    }
}

/// Draws the D51 with its front at column `x` on a screen of `lines` rows and
/// `cols` columns, appending the ops to `frame` and moving the smoke. Returns
/// `false` (curses' `ERR`), drawing nothing, when the train has gone
/// off the screen.
pub fn add_d51(
    frame: &mut Vec<DrawOp>,
    smoke: &mut Smoke,
    x: i32,
    is_fly: bool,
    is_accident: bool,
    lines: i32,
    cols: i32,
) -> (drawn: bool)
    requires
        d51_args_ok(x as int, is_fly, is_accident, lines as int, cols as int),
        !d51_gone(x as int) ==> smoke_ready(old(smoke)@, x + D51_FUNNEL),
    ensures
        drawn == !d51_gone(x as int),
        !drawn ==> final(frame)@ == old(frame)@ && final(smoke)@ == old(smoke)@,
        drawn ==> final(frame)@ == old(frame)@ + d51_frame(
            x as int,
            is_fly,
            is_accident,
            lines as int,
            cols as int,
            old(smoke)@,
        ),
        drawn ==> final(smoke)@ == smoke_after(
            old(smoke)@,
            d51_y(x as int, is_fly, lines as int, cols as int) - 1,
            x + D51_FUNNEL,
        ),
{
    let mut y: i32;
    let mut dy: i32 = 0;
    if x < -D51_LENGTH {
        return false;
    }
    y = lines / 2 - 5;
    if is_fly {
        y = (x / 7) + lines - cols / 7 - D51_HIGHT;
        dy = 1;
    }
    assert(y == d51_y(x as int, is_fly, lines as int, cols as int));
    let p = ((D51_LENGTH + x) % D51_PATTERNS) as usize;
    let ghost f0 = frame@;
    let ghost body = d51_body(x as int, is_fly, lines as int, cols as int);
    let mut i: i32 = 0;
    while i < D51_HIGHT + 1
        invariant
            0 <= i <= D51_HIGHT + 1,
            p == d51_pattern(x as int),
            fits(y + D51_HIGHT + 1),
            x + 53 <= i32::MAX,
            y == d51_y(x as int, is_fly, lines as int, cols as int),
            dy == (if is_fly { 1int } else { 0 }),
            body == d51_body(x as int, is_fly, lines as int, cols as int),
            frame@ == f0 + body.subrange(0, 2 * i),
        decreases D51_HIGHT + 1 - i,
    {
        frame.push(DrawOp { y: y + i, x, text: d51_row(p, i as usize) });
        frame.push(DrawOp { y: y + i + dy, x: x + 53, text: d51_coal(i as usize) });
        proof {
            assert(body.subrange(0, 2 * (i + 1)) =~= body.subrange(0, 2 * i).push(
                body[2 * i as int],
            ).push(body[2 * i + 1]));
        }
        i = i + 1;
    }
    assert(body.subrange(0, 2 * (D51_HIGHT + 1)) =~= body);
    let ghost f1 = frame@;
    if is_accident {
        proof {
            lemma_man_pose_exists(x + 43);
            lemma_man_pose_exists(x + 47);
        }
        add_man(frame, y + 2, x + 43);
        add_man(frame, y + 2, x + 47);
        assert(frame@ =~= f1 + d51_men(x as int, is_fly, lines as int, cols as int));
    } else {
        assert(frame@ =~= f1 + Seq::<DrawOp>::empty());
    }
    smoke.add_smoke(frame, y - 1, x + D51_FUNNEL);
    assert(frame@ =~= f0 + d51_frame(
        x as int,
        is_fly,
        is_accident,
        lines as int,
        cols as int,
        old(smoke)@,
    ));
    true
}

// ---------------------------------------------------------------------------
// C51
// ---------------------------------------------------------------------------

/// The row of the top of the C51: the middle of the screen, or, when it
/// flies, a row that rises one line every seven columns it moves left.
pub open spec fn c51_y(x: int, fly: bool, lines: int, cols: int) -> int {
    if fly {
        div_t(x, 7) + lines - div_t(cols, 7) - C51_HIGHT
    } else {
        div_t(lines, 2) - 5
    }
}

/// The wheel position of the C51 at column `x`: one of six, advancing with
/// each column.
pub open spec fn c51_pattern(x: int) -> int {
    (C51_LENGTH + x) % C51_PATTERNS as int
}

/// The engine and its tender, row by row: each row of the engine followed
/// by the row of the tender beside it (one line lower when flying).
pub open spec fn c51_body(x: int, fly: bool, lines: int, cols: int) -> Seq<DrawOp> {
    let y = c51_y(x, fly, lines, cols);
    let dy: int = if fly { 1 } else { 0 };
    let p = c51_pattern(x);
    Seq::new(
        (2 * (C51_HIGHT + 1)) as nat,
        |k: int|
            if k % 2 == 0 {
                op(y + k / 2, x, c51_row_spec(p, k / 2))
            } else {
                op(y + k / 2 + dy, x + 55, c51_coal_spec(k / 2))
            },
    )
}

/// The passengers of the C51 in an accident.
pub open spec fn c51_men(x: int, fly: bool, lines: int, cols: int) -> Seq<DrawOp> {
    let y = c51_y(x, fly, lines, cols);
    man_ops(y + 3, x + 45) + man_ops(y + 3, x + 49)
}

/// Everything drawn in a frame of the C51 at column `x`, with the smoke `s`
/// left so far.
pub open spec fn c51_frame(
    x: int,
    fly: bool,
    accident: bool,
    lines: int,
    cols: int,
    s: Seq<Puff>,
) -> Seq<DrawOp> {
    let y = c51_y(x, fly, lines, cols);
    c51_body(x, fly, lines, cols) + (if accident {
        c51_men(x, fly, lines, cols)
    } else {
        Seq::empty()
    }) + smoke_ops(s, y - 1, x + C51_FUNNEL)
}

/// The C51 at column `x` is off the screen for good.
pub open spec fn c51_gone(x: int) -> bool {
    x < -C51_LENGTH
}

/// The arithmetic of a C51 frame stays within `i32`.
pub open spec fn c51_args_ok(x: int, fly: bool, accident: bool, lines: int, cols: int) -> bool {
    !c51_gone(x) ==> {
        let y = c51_y(x, fly, lines, cols);
        &&& x + (if accident { LOGO_LENGTH + 49 } else { C51_LENGTH as int }) <= i32::MAX
        &&& fly ==> fits(div_t(x, 7) + lines) && fits(div_t(x, 7) + lines - div_t(cols, 7))
        &&& fits(y - 1)
        &&& fits(y + C51_HIGHT + 1)
    }
}

/// Draws the C51 with its front at column `x` on a screen of `lines` rows and
/// `cols` columns, appending the ops to `frame` and moving the smoke. Returns
/// `false` (curses' `ERR`), drawing nothing, when the train has gone
/// off the screen.
pub fn add_c51(
    frame: &mut Vec<DrawOp>,
    smoke: &mut Smoke,
    x: i32,
    is_fly: bool,
    is_accident: bool,
    lines: i32,
    cols: i32,
) -> (drawn: bool)
    requires
        c51_args_ok(x as int, is_fly, is_accident, lines as int, cols as int),
        !c51_gone(x as int) ==> smoke_ready(old(smoke)@, x + C51_FUNNEL),
    ensures
        drawn == !c51_gone(x as int),
        !drawn ==> final(frame)@ == old(frame)@ && final(smoke)@ == old(smoke)@,
        drawn ==> final(frame)@ == old(frame)@ + c51_frame(
            x as int,
            is_fly,
            is_accident,
            lines as int,
            cols as int,
            old(smoke)@,
        ),
        drawn ==> final(smoke)@ == smoke_after(
            old(smoke)@,
            c51_y(x as int, is_fly, lines as int, cols as int) - 1,
            x + C51_FUNNEL,
        ),
{
    let mut y: i32;
    let mut dy: i32 = 0;
    if x < -C51_LENGTH {
        return false;
    }
    y = lines / 2 - 5;
    if is_fly {
        y = (x / 7) + lines - cols / 7 - C51_HIGHT;
        dy = 1;
    }
    assert(y == c51_y(x as int, is_fly, lines as int, cols as int));
    let p = ((C51_LENGTH + x) % C51_PATTERNS) as usize;
    let ghost f0 = frame@;
    let ghost body = c51_body(x as int, is_fly, lines as int, cols as int);
    let mut i: i32 = 0;
    while i < C51_HIGHT + 1
        invariant
            0 <= i <= C51_HIGHT + 1,
            p == c51_pattern(x as int),
            fits(y + C51_HIGHT + 1),
            x + 55 <= i32::MAX,
            y == c51_y(x as int, is_fly, lines as int, cols as int),
            dy == (if is_fly { 1int } else { 0 }),
            body == c51_body(x as int, is_fly, lines as int, cols as int),
            frame@ == f0 + body.subrange(0, 2 * i),
        decreases C51_HIGHT + 1 - i,
    {
        frame.push(DrawOp { y: y + i, x, text: c51_row(p, i as usize) });
        frame.push(DrawOp { y: y + i + dy, x: x + 55, text: c51_coal(i as usize) });
        proof {
            assert(body.subrange(0, 2 * (i + 1)) =~= body.subrange(0, 2 * i).push(
                body[2 * i as int],
            ).push(body[2 * i + 1]));
        }
        i = i + 1;
    }
    assert(body.subrange(0, 2 * (C51_HIGHT + 1)) =~= body);
    let ghost f1 = frame@;
    if is_accident {
        proof {
            lemma_man_pose_exists(x + 45);
            lemma_man_pose_exists(x + 49);
        }
        add_man(frame, y + 3, x + 45);
        add_man(frame, y + 3, x + 49);
        assert(frame@ =~= f1 + c51_men(x as int, is_fly, lines as int, cols as int));
    } else {
        assert(frame@ =~= f1 + Seq::<DrawOp>::empty());
    }
    smoke.add_smoke(frame, y - 1, x + C51_FUNNEL);
    assert(frame@ =~= f0 + c51_frame(
        x as int,
        is_fly,
        is_accident,
        lines as int,
        cols as int,
        old(smoke)@,
    ));
    true
}

// ---------------------------------------------------------------------------
// The small engine (the logo)
// ---------------------------------------------------------------------------

/// The row of the top of the small engine: the middle of the screen, or, when
/// it flies, a row that rises one line every six columns it moves left.
pub open spec fn sl_y(x: int, fly: bool, lines: int, cols: int) -> int {
    if fly {
        div_t(x, 6) + lines - div_t(cols, 6) - LOGO_HIGHT
    } else {
        div_t(lines, 2) - 3
    }
}

/// How far below the engine the coal car hangs: two lines when flying.
pub open spec fn sl_py1(fly: bool) -> int {
    if fly { 2 } else { 0 }
}

/// How far below the engine the first car hangs: four lines when flying.
pub open spec fn sl_py2(fly: bool) -> int {
    if fly { 4 } else { 0 }
}

/// How far below the engine the second car hangs: six lines when flying.
pub open spec fn sl_py3(fly: bool) -> int {
    if fly { 6 } else { 0 }
}

/// The wheel position of the small engine at column `x`: one of six,
/// advancing every three columns.
pub open spec fn sl_pattern(x: int) -> int {
    div_t(LOGO_LENGTH + x, 3) % LOGO_PATTERNS as int
}

/// The engine, its coal car and its two passenger cars, row by row: each row
/// of the engine followed by the rows of the coal car and the two cars beside
/// it.
pub open spec fn sl_body(x: int, fly: bool, lines: int, cols: int) -> Seq<DrawOp> {
    let y = sl_y(x, fly, lines, cols);
    let p = sl_pattern(x);
    Seq::new(
        (4 * (LOGO_HIGHT + 1)) as nat,
        |k: int|
            if k % 4 == 0 {
                op(y + k / 4, x, sl_row_spec(p, k / 4))
            } else if k % 4 == 1 {
                op(y + k / 4 + sl_py1(fly), x + 21, sl_coal_spec(k / 4))
            } else if k % 4 == 2 {
                op(y + k / 4 + sl_py2(fly), x + 42, sl_car_spec(k / 4))
            } else {
                op(y + k / 4 + sl_py3(fly), x + 63, sl_car_spec(k / 4))
            },
    )
}

/// The passengers of the small train in an accident: the driver and two in
/// each car.
pub open spec fn sl_men(x: int, fly: bool, lines: int, cols: int) -> Seq<DrawOp> {
    let y = sl_y(x, fly, lines, cols);
    man_ops(y + 1, x + 14) + man_ops(y + 1 + sl_py2(fly), x + 45) + man_ops(
        y + 1 + sl_py2(fly),
        x + 53,
    ) + man_ops(y + 1 + sl_py3(fly), x + 66) + man_ops(y + 1 + sl_py3(fly), x + 74)
}

/// Everything drawn in a frame of the small train at column `x`, with the
/// smoke `s` left so far.
pub open spec fn sl_frame(
    x: int,
    fly: bool,
    accident: bool,
    lines: int,
    cols: int,
    s: Seq<Puff>,
) -> Seq<DrawOp> {
    let y = sl_y(x, fly, lines, cols);
    sl_body(x, fly, lines, cols) + (if accident {
        sl_men(x, fly, lines, cols)
    } else {
        Seq::empty()
    }) + smoke_ops(s, y - 1, x + LOGO_FUNNEL)
}

/// The small train at column `x` is off the screen for good.
pub open spec fn sl_gone(x: int) -> bool {
    x < -LOGO_LENGTH
}

/// The arithmetic of a frame of the small train stays within `i32`.
pub open spec fn sl_args_ok(x: int, fly: bool, accident: bool, lines: int, cols: int) -> bool {
    !sl_gone(x) ==> {
        let y = sl_y(x, fly, lines, cols);
        &&& x + (if accident { LOGO_LENGTH + 74 } else { LOGO_LENGTH as int }) <= i32::MAX
        &&& fly ==> fits(div_t(x, 6) + lines) && fits(div_t(x, 6) + lines - div_t(cols, 6))
        &&& fits(y - 1)
        &&& fits(y + 2 * LOGO_HIGHT)
    }
}

/// Draws the small train with its front at column `x` on a screen of `lines`
/// rows and `cols` columns, appending the ops to `frame` and moving the
/// smoke. Returns `false` (curses' `ERR`), drawing nothing, when the
/// train has gone off the screen.
pub fn add_sl(
    frame: &mut Vec<DrawOp>,
    smoke: &mut Smoke,
    x: i32,
    is_fly: bool,
    is_accident: bool,
    lines: i32,
    cols: i32,
) -> (drawn: bool)
    requires
        sl_args_ok(x as int, is_fly, is_accident, lines as int, cols as int),
        !sl_gone(x as int) ==> smoke_ready(old(smoke)@, x + LOGO_FUNNEL),
    ensures
        drawn == !sl_gone(x as int),
        !drawn ==> final(frame)@ == old(frame)@ && final(smoke)@ == old(smoke)@,
        drawn ==> final(frame)@ == old(frame)@ + sl_frame(
            x as int,
            is_fly,
            is_accident,
            lines as int,
            cols as int,
            old(smoke)@,
        ),
        drawn ==> final(smoke)@ == smoke_after(
            old(smoke)@,
            sl_y(x as int, is_fly, lines as int, cols as int) - 1,
            x + LOGO_FUNNEL,
        ),
{
    if x < -LOGO_LENGTH {
        return false;
    }
    let mut y: i32 = lines / 2 - 3;
    let mut py1: i32 = 0;
    let mut py2: i32 = 0;
    let mut py3: i32 = 0;
    if is_fly {
        y = (x / 6) + lines - (cols / 6) - LOGO_HIGHT;
        py1 = 2;
        py2 = 4;
        py3 = 6;
    }
    assert(y == sl_y(x as int, is_fly, lines as int, cols as int));
    let p = ((LOGO_LENGTH + x) / 3 % LOGO_PATTERNS) as usize;
    let ghost f0 = frame@;
    let ghost body = sl_body(x as int, is_fly, lines as int, cols as int);
    let mut i: i32 = 0;
    while i < LOGO_HIGHT + 1
        invariant
            0 <= i <= LOGO_HIGHT + 1,
            p == sl_pattern(x as int),
            fits(y + 2 * LOGO_HIGHT),
            x + 63 <= i32::MAX,
            y == sl_y(x as int, is_fly, lines as int, cols as int),
            py1 == sl_py1(is_fly),
            py2 == sl_py2(is_fly),
            py3 == sl_py3(is_fly),
            body == sl_body(x as int, is_fly, lines as int, cols as int),
            frame@ == f0 + body.subrange(0, 4 * i),
        decreases LOGO_HIGHT + 1 - i,
    {
        frame.push(DrawOp { y: y + i, x, text: sl_row(p, i as usize) });
        frame.push(DrawOp { y: y + i + py1, x: x + 21, text: sl_coal(i as usize) });
        frame.push(DrawOp { y: y + i + py2, x: x + 42, text: sl_car(i as usize) });
        frame.push(DrawOp { y: y + i + py3, x: x + 63, text: sl_car(i as usize) });
        proof {
            assert(body.subrange(0, 4 * (i + 1)) =~= body.subrange(0, 4 * i).push(
                body[4 * i as int],
            ).push(body[4 * i + 1]).push(body[4 * i + 2]).push(body[4 * i + 3]));
        }
        i = i + 1;
    }
    assert(body.subrange(0, 4 * (LOGO_HIGHT + 1)) =~= body);
    let ghost f1 = frame@;
    if is_accident {
        proof {
            lemma_man_pose_exists(x + 14);
            lemma_man_pose_exists(x + 45);
            lemma_man_pose_exists(x + 53);
            lemma_man_pose_exists(x + 66);
            lemma_man_pose_exists(x + 74);
        }
        add_man(frame, y + 1, x + 14);
        add_man(frame, y + 1 + py2, x + 45);
        add_man(frame, y + 1 + py2, x + 53);
        add_man(frame, y + 1 + py3, x + 66);
        add_man(frame, y + 1 + py3, x + 74);
        assert(frame@ =~= f1 + sl_men(x as int, is_fly, lines as int, cols as int));
    } else {
        assert(frame@ =~= f1 + Seq::<DrawOp>::empty());
    }
    smoke.add_smoke(frame, y - 1, x + LOGO_FUNNEL);
    assert(frame@ =~= f0 + sl_frame(
        x as int,
        is_fly,
        is_accident,
        lines as int,
        cols as int,
        old(smoke)@,
    ));
    true
}

// ---------------------------------------------------------------------------
// Laws
// ---------------------------------------------------------------------------

/// A passenger changes pose every twelve columns: twelve columns further
/// right it is in the other pose.
pub proof fn lemma_man_pose_alternates(x: int)
    requires
        LOGO_LENGTH + x >= 0,
    ensures
        man_pose(x + 12) == 1 - man_pose(x),
{
    let a = LOGO_LENGTH + x;
    assert((a + 12) / 12 == a / 12 + 1) by (nonlinear_arith)
        requires a >= 0;
    assert(a / 12 >= 0) by (nonlinear_arith)
        requires a >= 0;
}

/// The D51's picture repeats every six columns: six columns further right
/// every row shows the same text, shifted six columns.
pub proof fn lemma_d51_picture_repeats(x: int, fly: bool, lines: int, cols: int)
    requires
        D51_LENGTH + x >= 0,
        x + 59 <= i32::MAX,
    ensures
        d51_pattern(x + 6) == d51_pattern(x),
        forall|k: int|
            0 <= k < 2 * (D51_HIGHT + 1) ==> {
                &&& #[trigger] d51_body(x + 6, fly, lines, cols)[k].text == d51_body(
                    x,
                    fly,
                    lines,
                    cols,
                )[k].text
                &&& d51_body(x + 6, fly, lines, cols)[k].x == d51_body(x, fly, lines, cols)[k].x + 6
            },
{
    assert((D51_LENGTH + x + 6) % 6 == (D51_LENGTH + x) % 6) by (nonlinear_arith)
        requires D51_LENGTH + x >= 0;
}

/// The C51's picture repeats every six columns: six columns further right
/// every row shows the same text, shifted six columns.
pub proof fn lemma_c51_picture_repeats(x: int, fly: bool, lines: int, cols: int)
    requires
        C51_LENGTH + x >= 0,
        x + 61 <= i32::MAX,
    ensures
        c51_pattern(x + 6) == c51_pattern(x),
        forall|k: int|
            0 <= k < 2 * (C51_HIGHT + 1) ==> {
                &&& #[trigger] c51_body(x + 6, fly, lines, cols)[k].text == c51_body(
                    x,
                    fly,
                    lines,
                    cols,
                )[k].text
                &&& c51_body(x + 6, fly, lines, cols)[k].x == c51_body(x, fly, lines, cols)[k].x + 6
            },
{
    assert((C51_LENGTH + x + 6) % 6 == (C51_LENGTH + x) % 6) by (nonlinear_arith)
        requires C51_LENGTH + x >= 0;
}

/// The small engine's wheels turn every three columns, so its picture repeats
/// every eighteen: eighteen columns further right every row shows the same
/// text, shifted eighteen columns.
pub proof fn lemma_sl_picture_repeats(x: int, fly: bool, lines: int, cols: int)
    requires
        LOGO_LENGTH + x >= 0,
        x + 81 <= i32::MAX,
    ensures
        sl_pattern(x + 18) == sl_pattern(x),
        forall|k: int|
            0 <= k < 4 * (LOGO_HIGHT + 1) ==> {
                &&& #[trigger] sl_body(x + 18, fly, lines, cols)[k].text == sl_body(
                    x,
                    fly,
                    lines,
                    cols,
                )[k].text
                &&& sl_body(x + 18, fly, lines, cols)[k].x == sl_body(x, fly, lines, cols)[k].x + 18
            },
{
    let a = LOGO_LENGTH + x;
    assert((a + 18) / 3 == a / 3 + 6) by (nonlinear_arith)
        requires a >= 0;
    assert(a / 3 >= 0) by (nonlinear_arith)
        requires a >= 0;
    assert((a / 3 + 6) % 6 == (a / 3) % 6) by (nonlinear_arith)
        requires a / 3 >= 0;
}

/// A flying train climbs as it moves left and never sinks: its top row at a
/// column left of another is never lower (the rows count downward).
pub proof fn lemma_flying_trains_climb(x1: int, x2: int, lines: int, cols: int)
    requires
        x1 <= x2,
    ensures
        d51_y(x1, true, lines, cols) <= d51_y(x2, true, lines, cols),
        c51_y(x1, true, lines, cols) <= c51_y(x2, true, lines, cols),
        sl_y(x1, true, lines, cols) <= sl_y(x2, true, lines, cols),
{
    crate::num::lemma_div_t_monotone(x1, x2, 7);
    crate::num::lemma_div_t_monotone(x1, x2, 6);
}

/// A train that does not fly keeps to the same rows wherever it is.
pub proof fn lemma_grounded_trains_keep_their_rows(x1: int, x2: int, lines: int, cols: int)
    ensures
        d51_y(x1, false, lines, cols) == d51_y(x2, false, lines, cols),
        c51_y(x1, false, lines, cols) == c51_y(x2, false, lines, cols),
        sl_y(x1, false, lines, cols) == sl_y(x2, false, lines, cols),
{
}

/// The wheels: each train has six wheel positions. The D51's and the C51's
/// wheels turn at every column, so two neighbouring columns never show the
/// same position; the small engine's turn every three columns, at the columns
/// where `85 + x` is divisible by three.
pub proof fn lemma_wheel_positions(x: int)
    ensures
        D51_LENGTH + x >= 0 ==> 0 <= d51_pattern(x) < 6 && d51_pattern(x + 1) != d51_pattern(x),
        C51_LENGTH + x >= 0 ==> 0 <= c51_pattern(x) < 6 && c51_pattern(x + 1) != c51_pattern(x),
        LOGO_LENGTH + x >= 0 ==> {
            &&& 0 <= sl_pattern(x) < 6
            &&& (sl_pattern(x + 1) == sl_pattern(x) <==> (85 + x) % 3 != 0)
        },
{
    if LOGO_LENGTH + x >= 0 {
        let a = LOGO_LENGTH + x;
        assert(a / 3 >= 0) by (nonlinear_arith)
            requires a >= 0;
        assert((a + 1) % 3 == 0 ==> (a + 1) / 3 == a / 3 + 1) by (nonlinear_arith)
            requires a >= 0;
        assert((a + 1) % 3 != 0 ==> (a + 1) / 3 == a / 3) by (nonlinear_arith)
            requires a >= 0;
    }
}

/// In an accident a frame of the D51 is the frame without one, with its two
/// passengers put in just before the smoke.
pub proof fn lemma_d51_accident_adds_passengers(
    x: int,
    fly: bool,
    lines: int,
    cols: int,
    s: Seq<Puff>,
)
    ensures
        ({
            let plain = d51_frame(x, fly, false, lines, cols, s);
            let n = 2 * (D51_HIGHT + 1);
            d51_frame(x, fly, true, lines, cols, s) == plain.subrange(0, n) + d51_men(
                x,
                fly,
                lines,
                cols,
            ) + plain.subrange(n, plain.len() as int)
        }),
{
    let plain = d51_frame(x, fly, false, lines, cols, s);
    let n = 2 * (D51_HIGHT + 1);
    let body = d51_body(x, fly, lines, cols);
    assert(plain.subrange(0, n) =~= body);
    assert(plain.subrange(n, plain.len() as int) =~= smoke_ops(
        s,
        d51_y(x, fly, lines, cols) - 1,
        x + D51_FUNNEL,
    ));
    assert(d51_frame(x, fly, true, lines, cols, s) =~= plain.subrange(0, n) + d51_men(
        x,
        fly,
        lines,
        cols,
    ) + plain.subrange(n, plain.len() as int));
}

/// In an accident a frame of the C51 is the frame without one, with its two
/// passengers put in just before the smoke.
pub proof fn lemma_c51_accident_adds_passengers(
    x: int,
    fly: bool,
    lines: int,
    cols: int,
    s: Seq<Puff>,
)
    ensures
        ({
            let plain = c51_frame(x, fly, false, lines, cols, s);
            let n = 2 * (C51_HIGHT + 1);
            c51_frame(x, fly, true, lines, cols, s) == plain.subrange(0, n) + c51_men(
                x,
                fly,
                lines,
                cols,
            ) + plain.subrange(n, plain.len() as int)
        }),
{
    let plain = c51_frame(x, fly, false, lines, cols, s);
    let n = 2 * (C51_HIGHT + 1);
    let body = c51_body(x, fly, lines, cols);
    assert(plain.subrange(0, n) =~= body);
    assert(plain.subrange(n, plain.len() as int) =~= smoke_ops(
        s,
        c51_y(x, fly, lines, cols) - 1,
        x + C51_FUNNEL,
    ));
    assert(c51_frame(x, fly, true, lines, cols, s) =~= plain.subrange(0, n) + c51_men(
        x,
        fly,
        lines,
        cols,
    ) + plain.subrange(n, plain.len() as int));
}

/// In an accident a frame of the small train is the frame without one, with
/// its five passengers (the driver, then two in each car) put in just before
/// the smoke.
pub proof fn lemma_sl_accident_adds_passengers(
    x: int,
    fly: bool,
    lines: int,
    cols: int,
    s: Seq<Puff>,
)
    ensures
        ({
            let plain = sl_frame(x, fly, false, lines, cols, s);
            let n = 4 * (LOGO_HIGHT + 1);
            sl_frame(x, fly, true, lines, cols, s) == plain.subrange(0, n) + sl_men(
                x,
                fly,
                lines,
                cols,
            ) + plain.subrange(n, plain.len() as int)
        }),
{
    let plain = sl_frame(x, fly, false, lines, cols, s);
    let n = 4 * (LOGO_HIGHT + 1);
    let body = sl_body(x, fly, lines, cols);
    assert(plain.subrange(0, n) =~= body);
    assert(plain.subrange(n, plain.len() as int) =~= smoke_ops(
        s,
        sl_y(x, fly, lines, cols) - 1,
        x + LOGO_FUNNEL,
    ));
    assert(sl_frame(x, fly, true, lines, cols, s) =~= plain.subrange(0, n) + sl_men(
        x,
        fly,
        lines,
        cols,
    ) + plain.subrange(n, plain.len() as int));
}

/// Where every row of a D51 frame goes and what it shows: row `i` of the engine at `(top + i, x)`, its tender row beside it at column `x + 53` (a line lower when flying), with wheel position `(83 + x) % 6`; in an accident two passengers at `(top + 2, x + 43)` and `(top + 2, x + 47)`; then the smoke from the funnel at `(top - 1, x + 7)`.
pub proof fn lemma_d51_layout(x: int, fly: bool, accident: bool, lines: int, cols: int, s: Seq<Puff>)
    requires
        x >= -83,
        d51_args_ok(x, fly, accident, lines, cols),
    ensures
        ({
            let f = d51_frame(x, fly, accident, lines, cols, s);
            let top = if fly { div_t(x, 7) + lines - div_t(cols, 7) - 10 } else { div_t(lines, 2) - 5 };
            let low: int = if fly { 1 } else { 0 };
            let p = (83 + x) % 6;
            let men: int = if accident { 4 } else { 0 };
            &&& f.len() == 22 + men + smoke_ops(s, top - 1, x + 7).len()
            &&& f.subrange(22 + men, f.len() as int) == smoke_ops(s, top - 1, x + 7)
            &&& forall|k: int| 0 <= k < 22 && k % 2 == 0 ==> {
                &&& (#[trigger] f[k]).y == top + k / 2
                &&& f[k].x == x
            }
            &&& forall|k: int| 0 <= k < 22 && k % 2 == 1 ==> {
                &&& (#[trigger] f[k]).y == top + k / 2 + low
                &&& f[k].x == x + 53
                &&& f[k].text == seq![COAL_01, COAL_02, COAL_03, COAL_04, COAL_05, COAL_06, COAL_07, COAL_08, COAL_09, COAL_10, COAL_DEL][k / 2]
            }
            &&& forall|k: int| 0 <= k < 14 && k % 2 == 0 ==> (#[trigger] f[k]).text == seq![D51_STR_1, D51_STR_2, D51_STR_3, D51_STR_4, D51_STR_5, D51_STR_6, D51_STR_7][k / 2]
            &&& f[14].text == seq![D51_WHL_11, D51_WHL_21, D51_WHL_31, D51_WHL_41, D51_WHL_51, D51_WHL_61][p]
            &&& f[16].text == seq![D51_WHL_12, D51_WHL_22, D51_WHL_32, D51_WHL_42, D51_WHL_52, D51_WHL_62][p]
            &&& f[18].text == seq![D51_WHL_13, D51_WHL_23, D51_WHL_33, D51_WHL_43, D51_WHL_53, D51_WHL_63][p]
            &&& f[20].text == D51_DEL
            &&& accident ==> {
                &&& f[22].y == top + 2 && f[22].x == x + 43
                &&& f[22].text == seq!["", "Help!"][(84 + x + 43) / 12 % 2]
                &&& f[23].y == top + 2 + 1 && f[23].x == x + 43
                &&& f[23].text == seq!["(O)", "\\O/"][(84 + x + 43) / 12 % 2]
                &&& f[24].y == top + 2 && f[24].x == x + 47
                &&& f[24].text == seq!["", "Help!"][(84 + x + 47) / 12 % 2]
                &&& f[25].y == top + 2 + 1 && f[25].x == x + 47
                &&& f[25].text == seq!["(O)", "\\O/"][(84 + x + 47) / 12 % 2]
            }
        }),
{
    let f = d51_frame(x, fly, accident, lines, cols, s);
    let body = d51_body(x, fly, lines, cols);
    assert(f.subrange(0, 22) =~= body);
    lemma_man_pose_exists(x + 43);
    lemma_man_pose_exists(x + 47);
    if accident {
        assert(f.subrange(22, 26) =~= d51_men(x, fly, lines, cols));
    }
    assert forall|k: int| 0 <= k < 22 implies #[trigger] f[k] == body[k] by {
        assert(f.subrange(0, 22)[k] == f[k]);
    }
}

/// Where every row of a C51 frame goes and what it shows: row `i` of the engine at `(top + i, x)`, its tender row beside it at column `x + 55` (a line lower when flying), with wheel position `(87 + x) % 6`; in an accident two passengers at `(top + 3, x + 45)` and `(top + 3, x + 49)`; then the smoke from the funnel at `(top - 1, x + 7)`.
pub proof fn lemma_c51_layout(x: int, fly: bool, accident: bool, lines: int, cols: int, s: Seq<Puff>)
    requires
        x >= -87,
        c51_args_ok(x, fly, accident, lines, cols),
    ensures
        ({
            let f = c51_frame(x, fly, accident, lines, cols, s);
            let top = if fly { div_t(x, 7) + lines - div_t(cols, 7) - 11 } else { div_t(lines, 2) - 5 };
            let low: int = if fly { 1 } else { 0 };
            let p = (87 + x) % 6;
            let men: int = if accident { 4 } else { 0 };
            &&& f.len() == 24 + men + smoke_ops(s, top - 1, x + 7).len()
            &&& f.subrange(24 + men, f.len() as int) == smoke_ops(s, top - 1, x + 7)
            &&& forall|k: int| 0 <= k < 24 && k % 2 == 0 ==> {
                &&& (#[trigger] f[k]).y == top + k / 2
                &&& f[k].x == x
            }
            &&& forall|k: int| 0 <= k < 24 && k % 2 == 1 ==> {
                &&& (#[trigger] f[k]).y == top + k / 2 + low
                &&& f[k].x == x + 55
                &&& f[k].text == seq![COAL_DEL, COAL_01, COAL_02, COAL_03, COAL_04, COAL_05, COAL_06, COAL_07, COAL_08, COAL_09, COAL_10, COAL_DEL][k / 2]
            }
            &&& forall|k: int| 0 <= k < 14 && k % 2 == 0 ==> (#[trigger] f[k]).text == seq![C51_STR_1, C51_STR_2, C51_STR_3, C51_STR_4, C51_STR_5, C51_STR_6, C51_STR_7][k / 2]
            &&& f[14].text == seq![C51_WH_11, C51_WH_21, C51_WH_31, C51_WH_41, C51_WH_51, C51_WH_61][p]
            &&& f[16].text == seq![C51_WH_12, C51_WH_22, C51_WH_32, C51_WH_42, C51_WH_52, C51_WH_62][p]
            &&& f[18].text == seq![C51_WH_13, C51_WH_23, C51_WH_33, C51_WH_43, C51_WH_53, C51_WH_63][p]
            &&& f[20].text == seq![C51_WH_14, C51_WH_24, C51_WH_34, C51_WH_44, C51_WH_54, C51_WH_64][p]
            &&& f[22].text == C51_DEL
            &&& accident ==> {
                &&& f[24].y == top + 3 && f[24].x == x + 45
                &&& f[24].text == seq!["", "Help!"][(84 + x + 45) / 12 % 2]
                &&& f[25].y == top + 3 + 1 && f[25].x == x + 45
                &&& f[25].text == seq!["(O)", "\\O/"][(84 + x + 45) / 12 % 2]
                &&& f[26].y == top + 3 && f[26].x == x + 49
                &&& f[26].text == seq!["", "Help!"][(84 + x + 49) / 12 % 2]
                &&& f[27].y == top + 3 + 1 && f[27].x == x + 49
                &&& f[27].text == seq!["(O)", "\\O/"][(84 + x + 49) / 12 % 2]
            }
        }),
{
    let f = c51_frame(x, fly, accident, lines, cols, s);
    let body = c51_body(x, fly, lines, cols);
    assert(f.subrange(0, 24) =~= body);
    lemma_man_pose_exists(x + 45);
    lemma_man_pose_exists(x + 49);
    if accident {
        assert(f.subrange(24, 28) =~= c51_men(x, fly, lines, cols));
    }
    assert forall|k: int| 0 <= k < 24 implies #[trigger] f[k] == body[k] by {
        assert(f.subrange(0, 24)[k] == f[k]);
    }
}

/// Where every row of a frame of the small train goes and what it shows: row `i` of the engine at `(top + i, x)` with wheel position `((84 + x) / 3) % 6`, the coal car's row at column `x + 21`, the cars' at `x + 42` and `x + 63` (two, four and six lines lower when flying); in an accident the driver at `(top + 1, x + 14)` and two passengers in each car; then the smoke from the funnel at `(top - 1, x + 4)`.
pub proof fn lemma_sl_layout(x: int, fly: bool, accident: bool, lines: int, cols: int, s: Seq<Puff>)
    requires
        x >= -84,
        sl_args_ok(x, fly, accident, lines, cols),
    ensures
        ({
            let f = sl_frame(x, fly, accident, lines, cols, s);
            let top = if fly { div_t(x, 6) + lines - div_t(cols, 6) - 6 } else { div_t(lines, 2) - 3 };
            let py1: int = if fly { 2 } else { 0 };
            let py2: int = if fly { 4 } else { 0 };
            let py3: int = if fly { 6 } else { 0 };
            let p = (84 + x) / 3 % 6;
            let men: int = if accident { 10 } else { 0 };
            &&& f.len() == 28 + men + smoke_ops(s, top - 1, x + 4).len()
            &&& f.subrange(28 + men, f.len() as int) == smoke_ops(s, top - 1, x + 4)
            &&& forall|k: int| 0 <= k < 28 && k % 4 == 0 ==> {
                &&& (#[trigger] f[k]).y == top + k / 4
                &&& f[k].x == x
            }
            &&& forall|k: int| 0 <= k < 28 && k % 4 == 1 ==> {
                &&& (#[trigger] f[k]).y == top + k / 4 + py1
                &&& f[k].x == x + 21
                &&& f[k].text == seq![LCOAL_1, LCOAL_2, LCOAL_3, LCOAL_4, LCOAL_5, LCOAL_6, DEL_LN][k / 4]
            }
            &&& forall|k: int| 0 <= k < 28 && k % 4 == 2 ==> {
                &&& (#[trigger] f[k]).y == top + k / 4 + py2
                &&& f[k].x == x + 42
                &&& f[k].text == seq![LCAR_1, LCAR_2, LCAR_3, LCAR_4, LCAR_5, LCAR_6, DEL_LN][k / 4]
            }
            &&& forall|k: int| 0 <= k < 28 && k % 4 == 3 ==> {
                &&& (#[trigger] f[k]).y == top + k / 4 + py3
                &&& f[k].x == x + 63
                &&& f[k].text == seq![LCAR_1, LCAR_2, LCAR_3, LCAR_4, LCAR_5, LCAR_6, DEL_LN][k / 4]
            }
            &&& forall|k: int| 0 <= k < 16 && k % 4 == 0 ==> (#[trigger] f[k]).text == seq![LOGO_1, LOGO_2, LOGO_3, LOGO_4][k / 4]
            &&& f[16].text == seq![LWHL_11, LWHL_21, LWHL_31, LWHL_41, LWHL_51, LWHL_61][p]
            &&& f[20].text == seq![LWHL_12, LWHL_22, LWHL_32, LWHL_42, LWHL_52, LWHL_62][p]
            &&& f[24].text == DEL_LN
            &&& accident ==> {
                &&& f[28].y == top + 1 && f[28].x == x + 14
                &&& f[28].text == seq!["", "Help!"][(84 + x + 14) / 12 % 2]
                &&& f[29].y == top + 1 + 1 && f[29].x == x + 14
                &&& f[29].text == seq!["(O)", "\\O/"][(84 + x + 14) / 12 % 2]
                &&& f[30].y == top + 1 + py2 && f[30].x == x + 45
                &&& f[30].text == seq!["", "Help!"][(84 + x + 45) / 12 % 2]
                &&& f[31].y == top + 1 + py2 + 1 && f[31].x == x + 45
                &&& f[31].text == seq!["(O)", "\\O/"][(84 + x + 45) / 12 % 2]
                &&& f[32].y == top + 1 + py2 && f[32].x == x + 53
                &&& f[32].text == seq!["", "Help!"][(84 + x + 53) / 12 % 2]
                &&& f[33].y == top + 1 + py2 + 1 && f[33].x == x + 53
                &&& f[33].text == seq!["(O)", "\\O/"][(84 + x + 53) / 12 % 2]
                &&& f[34].y == top + 1 + py3 && f[34].x == x + 66
                &&& f[34].text == seq!["", "Help!"][(84 + x + 66) / 12 % 2]
                &&& f[35].y == top + 1 + py3 + 1 && f[35].x == x + 66
                &&& f[35].text == seq!["(O)", "\\O/"][(84 + x + 66) / 12 % 2]
                &&& f[36].y == top + 1 + py3 && f[36].x == x + 74
                &&& f[36].text == seq!["", "Help!"][(84 + x + 74) / 12 % 2]
                &&& f[37].y == top + 1 + py3 + 1 && f[37].x == x + 74
                &&& f[37].text == seq!["(O)", "\\O/"][(84 + x + 74) / 12 % 2]
            }
        }),
{
    let f = sl_frame(x, fly, accident, lines, cols, s);
    let body = sl_body(x, fly, lines, cols);
    assert(f.subrange(0, 28) =~= body);
    lemma_man_pose_exists(x + 14);
    lemma_man_pose_exists(x + 45);
    lemma_man_pose_exists(x + 53);
    lemma_man_pose_exists(x + 66);
    lemma_man_pose_exists(x + 74);
    if accident {
        assert(f.subrange(28, 38) =~= sl_men(x, fly, lines, cols));
    }
    assert forall|k: int| 0 <= k < 28 implies #[trigger] f[k] == body[k] by {
        assert(f.subrange(0, 28)[k] == f[k]);
    }
}

/// A passenger at `(y, x)`, on any column right of where a train can still
/// be seen, is two rows: in pose `((84 + x) / 12) % 2` (changing every twelve
/// columns) a head and arms waving for help, else a resting head; the arms
/// or the blank top come first, at row `y`, the rest below at row `y + 1`,
/// both at column `x`.
pub proof fn lemma_man_rows(y: int, x: int)
    requires
        84 + x >= 0,
        fits(y),
        fits(x),
        man_ok(y, x),
    ensures
        man_ops(y, x).len() == 2,
        man_ops(y, x)[0].y == y && man_ops(y, x)[0].x == x,
        man_ops(y, x)[1].y == y + 1 && man_ops(y, x)[1].x == x,
        man_ops(y, x)[0].text == seq!["", "Help!"][(84 + x) / 12 % 2],
        man_ops(y, x)[1].text == seq!["(O)", "\\O/"][(84 + x) / 12 % 2],
{
    lemma_man_pose_exists(x);
}

} // verus!
