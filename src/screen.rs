//! The screen: owns the drawables and the handler, and turns the handler's
//! grid into the text of one frame.
use vstd::prelude::*;
use vstd::pervasive::arbitrary;
use crate::clock::{Time, ticked, DELTA_TIME};

verus! {

/// Columns of the character grid.
pub const SCREEN_SIZE_X: usize = 150;

/// Rows of the character grid.
pub const SCREEN_SIZE_Y: usize = 45;

/// One rendered frame: `SCREEN_SIZE_Y` rows of `SCREEN_SIZE_X` characters.
pub type Grid = [[char; SCREEN_SIZE_X]; SCREEN_SIZE_Y];

/// Characters in one line of output: a row and its line break.
pub open spec fn line_len() -> int {
    SCREEN_SIZE_X as int + 1
}

/// The character at position `i` of a frame's text: row-major, top row first,
/// each row followed by a line break.
pub open spec fn frame_char(grid: Grid, i: int) -> char {
    if i % line_len() == SCREEN_SIZE_X as int {
        '\n'
    } else {
        grid@[i / line_len()]@[i % line_len()]
    }
}

/// The text written for one frame of `grid`.
pub open spec fn frame_text(grid: Grid) -> Seq<char> {
    Seq::new((SCREEN_SIZE_Y as int * line_len()) as nat, |i: int| frame_char(grid, i))
}

/// The control sequence that moves the cursor to the top-left corner.
pub open spec fn cursor_home() -> Seq<char> {
    seq!['\x1b', '[', 'H']
}

/// An entity held by the screen. The loop never looks inside one; only the
/// handler gives it meaning.
pub trait Drawable {
}

/// The one extension point: advances the world and paints the grid.
///
/// The spec functions describe an implementation's behaviour to the verifier;
/// an implementation that is verified overrides them.
pub trait Handler<D: Drawable>: Sized {
    /// The grid that `get_screen` returns in this state.
    open spec fn frame(&self) -> Grid {
        arbitrary()
    }

    /// The blank grid that `clear` resets this handler to.
    open spec fn blank(&self) -> Grid {
        arbitrary()
    }

    /// What one `tick` may do to the handler and the drawables at `time`.
    open spec fn tick_ensures(&self, next: Self, objs: Seq<D>, next_objs: Seq<D>, time: Time) -> bool {
        true
    }

    /// Updates the world for one fixed step; may add or remove drawables.
    fn tick(&mut self, objs: &mut Vec<D>, time: &Time)
        ensures
            old(self).tick_ensures(*final(self), old(objs)@, final(objs)@, *time),
    ;

    /// A snapshot of the current frame.
    fn get_screen(&self) -> (r: Grid)
        ensures
            r == self.frame(),
    ;

    /// Resets the state that feeds `get_screen` to the blank frame; doing it
    /// again changes nothing.
    fn clear(&mut self)
        ensures
            final(self).frame() == old(self).blank(),
            final(self).blank() == old(self).blank(),
    ;
}

/// The text of one frame: every row of `grid`, top first, each followed by a
/// line break.
pub fn render_grid(grid: &Grid) -> (r: String)
    ensures
        r@ == frame_text(*grid),
{
    let mut out = String::new();
    let mut y: usize = 0;
    while y < SCREEN_SIZE_Y
        invariant
            y <= SCREEN_SIZE_Y,
            out@.len() == y * line_len(),
            forall|i: int| 0 <= i < out@.len() ==> out@[i] == #[trigger] frame_char(*grid, i),
        decreases SCREEN_SIZE_Y - y,
    {
        let row = &grid[y];
        let mut x: usize = 0;
        while x < SCREEN_SIZE_X
            invariant
                y < SCREEN_SIZE_Y,
                x <= SCREEN_SIZE_X,
                *row == grid@[y as int],
                out@.len() == y * line_len() + x,
                forall|i: int| 0 <= i < out@.len() ==> out@[i] == #[trigger] frame_char(*grid, i),
            decreases SCREEN_SIZE_X - x,
        {
            let c = row[x];
            proof {
                lemma_line_pos(y as int, x as int);
            }
            out.push(c);
            x = x + 1;
        }
        proof {
            lemma_line_pos(y as int, SCREEN_SIZE_X as int);
        }
        out.push('\n');
        y = y + 1;
    }
    assert(out@ =~= frame_text(*grid));
    out
}

/// Position `x` of line `y` is column `x` of row `y`.
proof fn lemma_line_pos(y: int, x: int)
    requires
        0 <= y,
        0 <= x < line_len(),
    ensures
        (y * line_len() + x) / line_len() == y,
        (y * line_len() + x) % line_len() == x,
{
    vstd::arithmetic::div_mod::lemma_fundamental_div_mod_converse(
        y * line_len() + x,
        line_len(),
        y,
        x,
    );
}

/// Owns the drawables, in insertion order, and the one active handler.
pub struct Screen<D, H> {
    /// Horizontal position of the view, in cells.
    pub position_x: i64,
    /// Vertical position of the view, in cells.
    pub position_y: i64,
    /// Uniform scale factor of the view.
    pub scale: u32,
    objs: Vec<D>,
    handler: H,
}

impl<D: Drawable, H: Handler<D>> Screen<D, H> {
    /// The drawables, in the order the handler sees them.
    pub closed spec fn bodies(&self) -> Seq<D> {
        self.objs@
    }

    /// The handler's current state.
    pub closed spec fn handler(&self) -> H {
        self.handler
    }

    /// The view's position and scale: `(position_x, position_y, scale)`.
    pub closed spec fn placement(&self) -> (i64, i64, u32) {
        (self.position_x, self.position_y, self.scale)
    }

    /// A screen with no drawables, at the origin, at unit scale.
    pub fn new(handler: H) -> (r: Self)
        ensures
            r.bodies() == Seq::<D>::empty(),
            r.handler() == handler,
            r.placement() == (0i64, 0i64, 1u32),
    {
        Screen { objs: Vec::new(), position_x: 0, position_y: 0, scale: 1, handler: handler }
    }

    /// The text of the current frame, as the handler paints it.
    pub fn draw(&self) -> (r: String)
        ensures
            r@ == frame_text(self.handler().frame()),
            r@.len() == SCREEN_SIZE_Y * (SCREEN_SIZE_X + 1),
    {
        let grid = self.handler.get_screen();
        render_grid(&grid)
    }

    /// Resets the handler to its blank frame and returns the control sequence
    /// that brings the cursor back to the top-left corner.
    pub fn clear(&mut self) -> (r: String)
        ensures
            r@ == cursor_home(),
            cleared(*old(self), *final(self)),
            final(self).bodies() == old(self).bodies(),
            final(self).placement() == old(self).placement(),
    {
        self.handler.clear();
        let r = "\x1b[H".to_owned();
        proof {
            reveal_strlit("\x1b[H");
        }
        assert(r@ =~= cursor_home());
        r
    }

    /// Appends a drawable at the end; duplicates are kept.
    pub fn add_body(&mut self, body: D)
        ensures
            final(self).bodies() == old(self).bodies().push(body),
            final(self).handler() == old(self).handler(),
            final(self).placement() == old(self).placement(),
    {
        self.objs.push(body);
    }

    /// Hands the drawables and the clock to the handler for one step.
    pub fn tick(&mut self, time: &Time)
        ensures
            old(self).handler().tick_ensures(
                final(self).handler(),
                old(self).bodies(),
                final(self).bodies(),
                *time,
            ),
            final(self).placement() == old(self).placement(),
    {
        self.handler.tick(&mut self.objs, time);
    }

    /// The drawables, in insertion order as changed by the handler.
    pub fn objs(&self) -> (r: &Vec<D>)
        ensures
            r@ == self.bodies(),
    {
        &self.objs
    }
}

/// `after` is `before` with its handler reset by `clear`.
pub open spec fn cleared<D: Drawable, H: Handler<D>>(before: Screen<D, H>, after: Screen<D, H>) -> bool {
    &&& after.handler().frame() == before.handler().blank()
    &&& after.handler().blank() == before.handler().blank()
}

/// The work of one frame before pacing: advances the clock, lets the handler
/// tick at the new time, then draws. Returns the frame's text.
pub fn advance_frame<D: Drawable, H: Handler<D>>(screen: &mut Screen<D, H>, time: &mut Time) -> (r:
    String)
    requires
        old(time).current_time + DELTA_TIME <= u64::MAX,
    ensures
        ticked(*old(time), *final(time)),
        old(screen).handler().tick_ensures(
            final(screen).handler(),
            old(screen).bodies(),
            final(screen).bodies(),
            *final(time),
        ),
        final(screen).placement() == old(screen).placement(),
        r@ == frame_text(final(screen).handler().frame()),
{
    time.tick();
    screen.tick(time);
    screen.draw()
}

/// Every frame has the same shape: `SCREEN_SIZE_Y` lines, line `y` holding
/// row `y` of the grid, all `SCREEN_SIZE_X` characters of it, then a line break.
pub proof fn lemma_frame_rows(grid: Grid)
    ensures
        frame_text(grid).len() == SCREEN_SIZE_Y * (SCREEN_SIZE_X + 1),
        forall|y: int|
            0 <= y < SCREEN_SIZE_Y ==> #[trigger] frame_text(grid).subrange(
                y * line_len(),
                y * line_len() + SCREEN_SIZE_X,
            ) == grid@[y]@,
        forall|y: int|
            0 <= y < SCREEN_SIZE_Y ==> #[trigger] frame_text(grid)[y * line_len() + SCREEN_SIZE_X]
                == '\n',
{
    let text = frame_text(grid);
    assert forall|y: int| 0 <= y < SCREEN_SIZE_Y implies #[trigger] text.subrange(
        y * line_len(),
        y * line_len() + SCREEN_SIZE_X,
    ) == grid@[y]@ by {
        assert((y + 1) * line_len() == y * line_len() + line_len()) by (nonlinear_arith);
        assert(y * line_len() + line_len() <= SCREEN_SIZE_Y * line_len()) by (nonlinear_arith)
            requires
                y < SCREEN_SIZE_Y,
        ;
        assert forall|x: int| 0 <= x < SCREEN_SIZE_X implies text.subrange(
            y * line_len(),
            y * line_len() + SCREEN_SIZE_X,
        )[x] == grid@[y]@[x] by {
            lemma_line_pos(y, x);
        }
        assert(text.subrange(y * line_len(), y * line_len() + SCREEN_SIZE_X) =~= grid@[y]@);
    }
    assert forall|y: int| 0 <= y < SCREEN_SIZE_Y implies #[trigger] text[y * line_len()
        + SCREEN_SIZE_X] == '\n' by {
        assert(y * line_len() + line_len() <= SCREEN_SIZE_Y * line_len()) by (nonlinear_arith)
            requires
                y < SCREEN_SIZE_Y,
        ;
        lemma_line_pos(y, SCREEN_SIZE_X as int);
    }
}

/// Drawables keep the order in which they were added: over a run of screens
/// where each one is the previous with one body added, the last holds the
/// first one's drawables followed by the added bodies, in order.
pub proof fn lemma_bodies_in_insertion_order<D: Drawable, H: Handler<D>>(
    run: Seq<Screen<D, H>>,
    added: Seq<D>,
)
    requires
        run.len() == added.len() + 1,
        forall|i: int|
            0 <= i < added.len() ==> (#[trigger] run[i + 1]).bodies() == run[i].bodies().push(
                added[i],
            ),
    ensures
        run.last().bodies() == run[0].bodies() + added,
        run.last().bodies().len() == run[0].bodies().len() + added.len(),
    decreases added.len(),
{
    if added.len() > 0 {
        let n = added.len() - 1;
        lemma_bodies_in_insertion_order(run.drop_last(), added.drop_last());
        assert(run.drop_last().last() == run[n]);
        assert(run[n + 1].bodies() == run[n].bodies().push(added[n]));
        assert(run.last().bodies() =~= run[0].bodies() + added);
    } else {
        assert(run[0].bodies() + added =~= run[0].bodies());
    }
}

/// Drawing right after a `clear`, with no tick between, gives the text of the
/// handler's blank grid.
pub proof fn lemma_clear_then_draw<D: Drawable, H: Handler<D>>(
    before: Screen<D, H>,
    after: Screen<D, H>,
)
    requires
        cleared(before, after),
    ensures
        frame_text(after.handler().frame()) == frame_text(before.handler().blank()),
{
}

/// Clearing twice in a row shows the same frame as clearing once.
pub proof fn lemma_clear_idempotent<D: Drawable, H: Handler<D>>(
    first: Screen<D, H>,
    once: Screen<D, H>,
    twice: Screen<D, H>,
)
    requires
        cleared(first, once),
        cleared(once, twice),
    ensures
        twice.handler().frame() == once.handler().frame(),
        twice.handler().blank() == once.handler().blank(),
{
}

/// Relies on `String::push`: appends one character at the end.
pub assume_specification[ String::push ](s: &mut String, ch: char)
    ensures
        final(s)@ == old(s)@.push(ch),
;

} // verus!
