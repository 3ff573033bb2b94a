//! The run of the program: which train the options ask for, where it starts,
//! and, frame by frame, what to draw until the train has left the screen.
//! The terminal (its size, the drawing, the pause between frames) stays with
//! the caller, which asks for one frame at a time.

use vstd::prelude::*;
use crate::art::{
    C51_FUNNEL, C51_LENGTH, C51_STR_1, D51_FUNNEL, D51_LENGTH, D51_STR_1, LOGO_1, LOGO_FUNNEL,
    LOGO_LENGTH,
};
use crate::num::div_t;
use crate::smoke::{puff_due, smoke_after, smoke_ready, Puff, Smoke, SMOKE_CAPACITY};
use crate::text::DrawOp;
use crate::trains::{
    add_c51, add_d51, add_sl, c51_args_ok, c51_frame, c51_gone, c51_y, d51_args_ok, d51_frame,
    d51_gone, d51_y, lemma_c51_layout, lemma_d51_layout, lemma_sl_layout, sl_args_ok, sl_frame,
    sl_gone, sl_y,
};

verus! {

/// The three trains.
#[derive(Clone, Copy, Debug, PartialEq, Eq)]
pub enum Train {
    /// The small engine with a coal car and two passenger cars (`-l`).
    Logo,
    /// The C51 (`-c`).
    C51,
    /// The D51, the default.
    D51,
}

/// The command-line switches.
#[derive(Clone, Copy, Debug, PartialEq, Eq)]
pub struct Options {
    /// `-a`: an accident; passengers cry for help.
    pub accident: bool,
    /// `-f`: the train flies.
    pub fly: bool,
    /// `-l`: the small engine.
    pub logo: bool,
    /// `-c`: the C51.
    pub c51: bool,
    /// `-e`: Ctrl-C may interrupt the run.
    pub intr: bool,
}

impl Options {
    /// The train chosen: the small engine if asked for, else the C51 if asked
    /// for, else the D51.
    pub open spec fn train_spec(self) -> Train {
        if self.logo {
            Train::Logo
        } else if self.c51 {
            Train::C51
        } else {
            Train::D51
        }
    }

    /// The train chosen (see `train_spec`).
    pub fn train(&self) -> (t: Train)
        ensures
            t == self.train_spec(),
    {
        if self.logo {
            Train::Logo
        } else if self.c51 {
            Train::C51
        } else {
            Train::D51
        }
    }

    /// Whether Ctrl-C is to be ignored during the run: unless `-e` was given.
    pub fn ignores_interrupt(&self) -> (b: bool)
        ensures
            b == !self.intr,
    {
        !self.intr
    }
}

/// How many columns of the train there are behind its front: once the front
/// is further than this left of column 0, nothing of it is left to draw.
pub open spec fn train_length(t: Train) -> int {
    match t {
        Train::Logo => LOGO_LENGTH as int,
        Train::C51 => C51_LENGTH as int,
        Train::D51 => D51_LENGTH as int,
    }
}

/// A run in progress: the train, how it runs, the column of its front in the
/// next frame, and the smoke left so far.
pub struct Animation {
    pub train: Train,
    pub fly: bool,
    pub accident: bool,
    pub x: i32,
    pub smoke: Smoke,
}

impl Animation {
    /// The train has left the screen: the run is over.
    pub open spec fn gone(&self) -> bool {
        self.x < -train_length(self.train)
    }

    /// How many frames are still to come.
    pub open spec fn frames_left(&self) -> int {
        if self.gone() {
            0
        } else {
            self.x + train_length(self.train) + 1
        }
    }

    /// The next frame, as the train's own drawing function makes it.
    pub open spec fn frame_spec(&self, lines: int, cols: int) -> Seq<DrawOp> {
        let x = self.x as int;
        match self.train {
            Train::Logo => sl_frame(x, self.fly, self.accident, lines, cols, self.smoke@),
            Train::C51 => c51_frame(x, self.fly, self.accident, lines, cols, self.smoke@),
            Train::D51 => d51_frame(x, self.fly, self.accident, lines, cols, self.smoke@),
        }
    }

    /// The smoke after the next frame.
    pub open spec fn smoke_next(&self, lines: int, cols: int) -> Seq<Puff> {
        let x = self.x as int;
        match self.train {
            Train::Logo => smoke_after(
                self.smoke@,
                sl_y(x, self.fly, lines, cols) - 1,
                x + LOGO_FUNNEL,
            ),
            Train::C51 => smoke_after(
                self.smoke@,
                c51_y(x, self.fly, lines, cols) - 1,
                x + C51_FUNNEL,
            ),
            Train::D51 => smoke_after(
                self.smoke@,
                d51_y(x, self.fly, lines, cols) - 1,
                x + D51_FUNNEL,
            ),
        }
    }

    /// The next frame can be made on a screen of `lines` rows and `cols`
    /// columns with its arithmetic, the smoke's included, within `i32`.
    pub open spec fn step_ok(&self, lines: int, cols: int) -> bool {
        let x = self.x as int;
        match self.train {
            Train::Logo => {
                &&& sl_args_ok(x, self.fly, self.accident, lines, cols)
                &&& !sl_gone(x) ==> smoke_ready(self.smoke@, x + LOGO_FUNNEL)
            },
            Train::C51 => {
                &&& c51_args_ok(x, self.fly, self.accident, lines, cols)
                &&& !c51_gone(x) ==> smoke_ready(self.smoke@, x + C51_FUNNEL)
            },
            Train::D51 => {
                &&& d51_args_ok(x, self.fly, self.accident, lines, cols)
                &&& !d51_gone(x) ==> smoke_ready(self.smoke@, x + D51_FUNNEL)
            },
        }
    }

    /// A run of the train the options choose, on a screen `cols` columns
    /// wide: its front starts at the last column, with no smoke yet. It will
    /// show `cols` plus the train's length frames (none on a screen too narrow
    /// to hold any column).
    pub fn new(opts: &Options, cols: i32) -> (a: Animation)
        requires
            cols > i32::MIN,
        ensures
            a.train == opts.train_spec(),
            a.fly == opts.fly,
            a.accident == opts.accident,
            a.x == cols - 1,
            a.smoke@ == Seq::<Puff>::empty(),
            a.frames_left() == if cols + train_length(a.train) >= 0 {
                cols + train_length(a.train)
            } else {
                0
            },
    {
        Animation {
            train: opts.train(),
            fly: opts.fly,
            accident: opts.accident,
            x: cols - 1,
            smoke: Smoke::new(),
        }
    }

    /// Whether the next frame can be made on this screen (see `step_ok`).
    pub fn can_step(&self, lines: i32, cols: i32) -> (b: bool)
        ensures
            b == self.step_ok(lines as int, cols as int),
    {
        let x = self.x;
        // The train's length, funnel column, widest reach right of its front,
        // how many columns it flies per line it climbs, its height, how far
        // above the middle it runs, and its lowest row below its top.
        let (length, funnel, reach, fall, hight, rise, tall): (
            i32,
            i32,
            i64,
            i64,
            i64,
            i64,
            i64,
        ) = match self.train {
            Train::Logo => (LOGO_LENGTH, LOGO_FUNNEL, if self.accident { 158 } else { 84 }, 6, 6, 3, 12),
            Train::C51 => (C51_LENGTH, C51_FUNNEL, if self.accident { 133 } else { 87 }, 7, 11, 5, 12),
            Train::D51 => (D51_LENGTH, D51_FUNNEL, if self.accident { 131 } else { 83 }, 7, 10, 5, 11),
        };
        if x < -length {
            return true;
        }
        if x as i64 + reach > i32::MAX as i64 {
            return false;
        }
        let y: i64;
        if self.fly {
            let a: i64 = (x as i64) / fall + lines as i64;
            let b: i64 = a - (cols as i64) / fall;
            if a < i32::MIN as i64 || a > i32::MAX as i64 || b < i32::MIN as i64 || b > i32::MAX
                as i64 {
                return false;
            }
            y = b - hight;
        } else {
            y = (lines as i64) / 2 - rise;
        }
        if y - 1 < i32::MIN as i64 || y + tall > i32::MAX as i64 {
            return false;
        }
        self.smoke.ready(x + funnel)
    }

    /// The column of the funnel in the next frame.
    pub open spec fn funnel_x(&self) -> int {
        self.x + match self.train {
            Train::Logo => LOGO_FUNNEL as int,
            Train::C51 => C51_FUNNEL as int,
            Train::D51 => D51_FUNNEL as int,
        }
    }

    /// The next frame draws a new puff that the smoke has no room to keep:
    /// the smoke is full and a puff is due at the funnel.
    pub fn puff_lost(&self) -> (b: bool)
        ensures
            b == (!self.gone() && puff_due(self.funnel_x()) && self.smoke@.len()
                >= SMOKE_CAPACITY),
    {
        let (length, funnel): (i32, i32) = match self.train {
            Train::Logo => (LOGO_LENGTH, LOGO_FUNNEL),
            Train::C51 => (C51_LENGTH, C51_FUNNEL),
            Train::D51 => (D51_LENGTH, D51_FUNNEL),
        };
        if self.x < -length {
            return false;
        }
        let fx: i64 = self.x as i64 + funnel as i64;
        fx % 4 == 0 && self.smoke.len() >= SMOKE_CAPACITY
    }

    /// The next frame on a screen of `lines` rows and `cols` columns: `None`
    /// when the train has left the screen (the run is over and nothing
    /// changes); otherwise the ops of the frame, after which the train stands
    /// one column further left and the smoke has moved.
    pub fn next_frame(&mut self, lines: i32, cols: i32) -> (r: Option<Vec<DrawOp>>)
        requires
            old(self).step_ok(lines as int, cols as int),
        ensures
            final(self).train == old(self).train,
            final(self).fly == old(self).fly,
            final(self).accident == old(self).accident,
            r is None <==> old(self).gone(),
            r is None ==> final(self).x == old(self).x && final(self).smoke@ == old(self).smoke@,
            r matches Some(ops) ==> {
                &&& ops@ == old(self).frame_spec(lines as int, cols as int)
                &&& final(self).x == old(self).x - 1
                &&& final(self).smoke@ == old(self).smoke_next(lines as int, cols as int)
            },
            old(self).gone() ==> final(self).frames_left() == 0,
            !old(self).gone() ==> final(self).frames_left() == old(self).frames_left() - 1,
    {
        let mut frame: Vec<DrawOp> = Vec::new();
        let drawn = match self.train {
            Train::Logo => add_sl(
                &mut frame,
                &mut self.smoke,
                self.x,
                self.fly,
                self.accident,
                lines,
                cols,
            ),
            Train::C51 => add_c51(
                &mut frame,
                &mut self.smoke,
                self.x,
                self.fly,
                self.accident,
                lines,
                cols,
            ),
            Train::D51 => add_d51(
                &mut frame,
                &mut self.smoke,
                self.x,
                self.fly,
                self.accident,
                lines,
                cols,
            ),
        };
        if !drawn {
            return None;
        }
        self.x = self.x - 1;
        Some(frame)
    }
}

/// The run counts down: the number of frames still to come is never
/// negative, is zero exactly when the train has left the screen, and drops by
/// one when the train stands one column further left. With `new` starting the
/// count at `cols` plus the train's length and `next_frame` moving the train
/// one column left per frame, a run shows exactly that many frames.
pub proof fn lemma_frames_count_down(a: Animation, b: Animation)
    requires
        b.train == a.train,
        !a.gone(),
        b.x == a.x - 1,
    ensures
        a.frames_left() > 0,
        b.frames_left() == a.frames_left() - 1,
        b.frames_left() == 0 <==> b.gone(),
        b.frames_left() >= 0,
{
}

/// A frame of the run is a frame of the train the switches chose, drawn
/// with the run's own switches: it starts with the top row of that engine at
/// the run's column, the next row belongs to what the engine pulls (lower by
/// the flying offset when the train flies), and with an accident the frame
/// holds that train's passengers (five for the small train, two for the
/// others) right after the train, first the one nearest the front, and is
/// longer by their rows than the same frame without an accident.
pub proof fn lemma_run_frame(a: Animation, lines: int, cols: int)
    requires
        !a.gone(),
        a.step_ok(lines, cols),
    ensures
        ({
            let f = a.frame_spec(lines, cols);
            let plain = Animation {
                train: a.train,
                fly: a.fly,
                accident: false,
                x: a.x,
                smoke: a.smoke,
            }.frame_spec(lines, cols);
            let (first, pulled, drop, body, men, front) = match a.train {
                Train::Logo => (LOGO_1, 21int, 2int, 28int, 10int, 14int),
                Train::C51 => (C51_STR_1, 55int, 1int, 24int, 4int, 45int),
                Train::D51 => (D51_STR_1, 53int, 1int, 22int, 4int, 43int),
            };
            &&& f[0].x == a.x
            &&& f[0].text == first
            &&& f[1].x == a.x + pulled
            &&& f[1].y == f[0].y + if a.fly { drop } else { 0 }
            &&& f.len() == plain.len() + if a.accident { men } else { 0 }
            &&& a.accident ==> f[body].x == a.x + front && f[body + 1].x == a.x + front
        }),
{
    let x = a.x as int;
    match a.train {
        Train::Logo => {
            lemma_sl_layout(x, a.fly, a.accident, lines, cols, a.smoke@);
            lemma_sl_layout(x, a.fly, false, lines, cols, a.smoke@);
        },
        Train::C51 => {
            lemma_c51_layout(x, a.fly, a.accident, lines, cols, a.smoke@);
            lemma_c51_layout(x, a.fly, false, lines, cols, a.smoke@);
        },
        Train::D51 => {
            lemma_d51_layout(x, a.fly, a.accident, lines, cols, a.smoke@);
            lemma_d51_layout(x, a.fly, false, lines, cols, a.smoke@);
        },
    }
}

/// The switches choose the train: `-l` the small engine whatever else is
/// given, otherwise `-c` the C51, otherwise the D51.
pub proof fn lemma_train_choice(o: Options)
    ensures
        o.logo ==> o.train_spec() == Train::Logo,
        !o.logo && o.c51 ==> o.train_spec() == Train::C51,
        !o.logo && !o.c51 ==> o.train_spec() == Train::D51,
{
}

/// A run ends when the front of the train has gone further left of column 0
/// than the train is long: 84 columns for the small train, 87 for the C51,
/// 83 for the D51.
pub proof fn lemma_run_ends(a: Animation)
    ensures
        a.gone() <==> a.x < -(match a.train {
            Train::Logo => 84int,
            Train::C51 => 87int,
            Train::D51 => 83int,
        }),
{
}

/// On any terminal of up to 32767 rows and columns, every frame of a run
/// that started at its last column can be computed, whatever the switches:
/// only the smoke's own coordinates could still leave `i32`.
pub proof fn lemma_real_screens_fit(a: Animation, lines: int, cols: int)
    requires
        0 <= lines <= 32767,
        0 <= cols <= 32767,
        a.x < cols,
    ensures
        match a.train {
            Train::Logo => sl_args_ok(a.x as int, a.fly, a.accident, lines, cols),
            Train::C51 => c51_args_ok(a.x as int, a.fly, a.accident, lines, cols),
            Train::D51 => d51_args_ok(a.x as int, a.fly, a.accident, lines, cols),
        },
{
    let x = a.x as int;
    if x >= -100 {
        crate::num::lemma_div_t_monotone(-100, x, 7);
        crate::num::lemma_div_t_monotone(x, 32767, 7);
        crate::num::lemma_div_t_monotone(-100, x, 6);
        crate::num::lemma_div_t_monotone(x, 32767, 6);
    }
    crate::num::lemma_div_t_monotone(0, cols, 7);
    crate::num::lemma_div_t_monotone(cols, 32767, 7);
    crate::num::lemma_div_t_monotone(0, cols, 6);
    crate::num::lemma_div_t_monotone(cols, 32767, 6);
    crate::num::lemma_div_t_monotone(0, lines, 2);
    crate::num::lemma_div_t_monotone(lines, 32767, 2);
    assert(div_t(32767, 7) == 4681);
    assert(div_t(32767, 6) == 5461);
    assert(div_t(32767, 2) == 16383);
    assert(div_t(-100, 7) == -14);
    assert(div_t(-100, 6) == -16);
}

} // verus!
