# sl

A steam locomotive runs across the terminal when you mistype `ls`.

The library (`src/`) computes every frame: which rows of which picture go
where, the smoke that drifts from the funnel, the clipping of rows at the left
edge of the screen, and when the run ends. Each function carries a contract
that Verus proves. `app/` holds the program around it: the command line, the
curses terminal, the signal handling and the pause between frames.

- `src/art.rs`: the pictures and the trains' geometry.
- `src/text.rs`: placing a row of text at a column that may lie off the screen.
- `src/smoke.rs`: the puffs of smoke and how they age and drift.
- `src/trains.rs`: one frame of each train, with its passengers.
- `src/animation.rs`: the choice of train and the run, frame by frame.
- `src/num.rs`: rounding toward zero and `i32` bounds.
