//! The game state machine: the falling piece, gravity, hold and next pieces,
//! locking, line clearing, scoring and the end of the game.
use vstd::prelude::*;

use crate::bag::SevenGenerator;
use crate::board::{
    cleared, committed, fits, full_row_count, on_board, Block, Board, BOARD_HEIGHT, BOARD_WIDTH,
};
use crate::tetrimino::{
    clockwise, color_of, counter_clockwise, is_piece_shape, Shape, Tetrimino, TetriminoType,
};

verus! {

/// Milliseconds between two gravity steps.
pub const FALL_RATE_MS: u64 = 500;

/// Points for each cleared row.
pub const SCORE_PER_LINE: usize = 10;

/// Column where a new piece's bounding box starts.
pub const SPAWN_X: isize = 3;

/// Whether the game goes on.
#[derive(Clone, Copy, Debug, PartialEq, Eq, Structural)]
pub enum State {
    Playing,
    Lost,
}

/// What the player can ask for.
#[derive(Clone, Copy, Debug, PartialEq, Eq, Structural)]
pub enum Command {
    MoveLeft,
    MoveRight,
    SoftDrop,
    HardDrop,
    RotateClockwise,
    RotateCounterClockwise,
    Hold,
    Quit,
}

/// The command bound to a character key: `j`, `l`, `k` move left, right and
/// down, space drops, `x` and `z` turn clockwise and counter-clockwise, `c`
/// holds and `q` quits.
pub open spec fn key_binding(key: char) -> Option<Command> {
    if key == 'j' {
        Some(Command::MoveLeft)
    } else if key == 'l' {
        Some(Command::MoveRight)
    } else if key == 'k' {
        Some(Command::SoftDrop)
    } else if key == ' ' {
        Some(Command::HardDrop)
    } else if key == 'x' {
        Some(Command::RotateClockwise)
    } else if key == 'z' {
        Some(Command::RotateCounterClockwise)
    } else if key == 'c' {
        Some(Command::Hold)
    } else if key == 'q' {
        Some(Command::Quit)
    } else {
        None
    }
}

/// The command bound to the character key `key`, if any.
pub fn command_for_char(key: char) -> (r: Option<Command>)
    ensures
        r == key_binding(key),
{
    match key {
        'j' => Some(Command::MoveLeft),
        'l' => Some(Command::MoveRight),
        'k' => Some(Command::SoftDrop),
        ' ' => Some(Command::HardDrop),
        'x' => Some(Command::RotateClockwise),
        'z' => Some(Command::RotateCounterClockwise),
        'c' => Some(Command::Hold),
        'q' => Some(Command::Quit),
        _ => None,
    }
}

/// The falling piece and the grid position of its bounding box's top-left
/// corner; the corner may lie off the grid as long as the set cells do not.
#[derive(Clone, Copy, Debug)]
pub struct ActiveTetrimino {
    pub tetrimino: Tetrimino,
    pub x: isize,
    pub y: isize,
}

/// Row where a new piece of `kind` starts: the long piece, whose shape leaves
/// its top row empty, starts one row higher.
pub open spec fn spawn_y(kind: TetriminoType) -> int {
    if kind is I {
        -1
    } else {
        0
    }
}

/// `n` clamped to what a `usize` holds.
pub open spec fn capped(n: int) -> nat {
    if n > usize::MAX {
        usize::MAX as nat
    } else if n < 0 {
        0
    } else {
        n as nat
    }
}

/// The row that a piece at `(x, y)` reaches after `n` steps down, each taken
/// only if the piece fits one row lower.
pub open spec fn fallen(rows: Seq<Seq<Block>>, x: int, y: int, shape: Shape, n: nat) -> int
    decreases n,
{
    if n == 0 {
        y
    } else {
        let p = fallen(rows, x, y, shape, (n - 1) as nat);
        if fits(rows, x, p + 1, shape) {
            p + 1
        } else {
            p
        }
    }
}

/// Some set cell of the shape at `(x, y)` sits on the bottom row or right
/// above an occupied cell: the piece locks.
pub open spec fn rests(rows: Seq<Seq<Block>>, x: int, y: int, shape: Shape) -> bool {
    exists|r: int, c: int|
        0 <= r < 4 && 0 <= c < 4 && #[trigger] shape[r][c] == 1 && rests_on(rows, x + c, y + r)
}

/// The cell `(bx, by)` is on the bottom row or right above an occupied cell.
pub open spec fn rests_on(rows: Seq<Seq<Block>>, bx: int, by: int) -> bool {
    by == BOARD_HEIGHT - 1 || (on_board(bx, by + 1) && rows[by + 1][bx] is Occupied)
}

/// Some cell of the row is occupied.
pub open spec fn has_block(row: Seq<Block>) -> bool {
    exists|i: int| 0 <= i < row.len() && #[trigger] row[i] is Occupied
}

/// Rotation state after one turn in the given direction.
pub open spec fn turned(rotation: int, clockwise_turn: bool) -> int {
    if clockwise_turn {
        clockwise(rotation)
    } else {
        counter_clockwise(rotation)
    }
}

/// The state of a game as plain values.
pub struct GameView {
    pub score: nat,
    pub lines: nat,
    pub board: Seq<Seq<Block>>,
    pub state: State,
    pub piece: Tetrimino,
    pub x: int,
    pub y: int,
    pub next: TetriminoType,
    pub held: Option<TetriminoType>,
    pub can_hold: bool,
    pub elapsed: nat,
    pub generator: SevenGenerator,
}

impl GameView {
    /// The shape of the falling piece.
    pub open spec fn shape(self) -> Shape {
        self.piece.shape()
    }

    /// The falling piece is a fresh piece of `kind` at its spawn position.
    pub open spec fn spawned(self, kind: TetriminoType) -> bool {
        &&& self.piece.wf()
        &&& self.piece.kind() == kind
        &&& self.piece.rotation() == 0
        &&& self.x == SPAWN_X
        &&& self.y == spawn_y(kind)
    }

    /// `after` is `self` with the piece shifted by `(dx, dy)` when the game is
    /// on and the piece fits there, and `self` unchanged otherwise.
    pub open spec fn after_move(self, after: GameView, dx: int, dy: int) -> bool {
        if self.state is Playing && fits(self.board, self.x + dx, self.y + dy, self.shape()) {
            after == (GameView { x: self.x + dx, y: self.y + dy, ..self })
        } else {
            after == self
        }
    }

    /// `after` is `self` with the piece turned once when the game is on and
    /// the turned shape fits at the same position, and `self` unchanged otherwise.
    pub open spec fn after_rotate(self, after: GameView, clockwise_turn: bool) -> bool {
        let rotation = turned(self.piece.rotation(), clockwise_turn);
        if self.state is Playing && fits(
            self.board,
            self.x,
            self.y,
            crate::tetrimino::shape_of(self.piece.kind(), rotation),
        ) {
            &&& after == (GameView { piece: after.piece, ..self })
            &&& after.piece.wf()
            &&& after.piece.kind() == self.piece.kind()
            &&& after.piece.rotation() == rotation
        } else {
            after == self
        }
    }

    /// `after` is `self` after a hold: nothing happens unless the game is on
    /// and holding is allowed; then the falling kind is put aside, the kind
    /// held before (or else the next kind, with a fresh draw for next) starts
    /// falling, and holding is barred until the next lock.
    pub open spec fn after_hold(self, after: GameView) -> bool {
        if self.state is Playing && self.can_hold {
            &&& after.held == Some(self.piece.kind())
            &&& !after.can_hold
            &&& match self.held {
                Some(h) => {
                    &&& after.spawned(h)
                    &&& after == (GameView {
                        piece: after.piece,
                        x: after.x,
                        y: after.y,
                        held: after.held,
                        can_hold: false,
                        ..self
                    })
                },
                None => {
                    &&& after.spawned(self.next)
                    &&& self.generator.draws(after.generator, after.next)
                    &&& after == (GameView {
                        piece: after.piece,
                        x: after.x,
                        y: after.y,
                        held: after.held,
                        can_hold: false,
                        next: after.next,
                        generator: after.generator,
                        ..self
                    })
                },
            }
        } else {
            after == self
        }
    }

    /// `after` is `self` after `dt` milliseconds: when the game is on, the
    /// gravity clock advances and every full `FALL_RATE_MS` it holds is taken
    /// off it and moves the piece one row down, whatever lies below; the lock
    /// check that ends the tick deals with a piece that came to rest.
    /// Otherwise nothing changes.
    pub open spec fn after_update(self, after: GameView, dt: int) -> bool {
        if self.state is Playing {
            let total = self.elapsed + dt;
            after == (GameView {
                elapsed: (total % (FALL_RATE_MS as int)) as nat,
                y: self.y + total / (FALL_RATE_MS as int),
                ..self
            })
        } else {
            after == self
        }
    }

    /// `after` is `self` after a hard drop: when the game is on, the piece
    /// moves down as long as it fits, `BOARD_HEIGHT` tries at most.
    pub open spec fn after_drop(self, after: GameView) -> bool {
        if self.state is Playing {
            after == (GameView {
                y: fallen(self.board, self.x, self.y, self.shape(), BOARD_HEIGHT as nat),
                ..self
            })
        } else {
            after == self
        }
    }

    /// `after` is `self` after the lock check: when the game is on and the
    /// piece rests, its cells become part of the grid in its colour, the next
    /// kind starts falling, a fresh kind is drawn for next, and holding is
    /// allowed again; otherwise nothing changes.
    pub open spec fn after_fuse(self, after: GameView) -> bool {
        if self.state is Playing && rests(self.board, self.x, self.y, self.shape()) {
            &&& after.board == committed(
                self.board,
                self.x,
                self.y,
                self.shape(),
                color_of(self.piece.kind()),
            )
            &&& after.spawned(self.next)
            &&& self.generator.draws(after.generator, after.next)
            &&& after == (GameView {
                board: after.board,
                piece: after.piece,
                x: after.x,
                y: after.y,
                next: after.next,
                generator: after.generator,
                can_hold: true,
                ..self
            })
        } else {
            after == self
        }
    }

    /// `self` with its full rows cleared when the game is on: each cleared
    /// row adds one to the lines and `SCORE_PER_LINE` to the score.
    pub open spec fn erased(self) -> GameView {
        if self.state is Playing {
            let k = full_row_count(self.board);
            GameView {
                board: cleared(self.board),
                lines: capped(self.lines + k as int),
                score: capped(self.score + SCORE_PER_LINE * k as int),
                ..self
            }
        } else {
            self
        }
    }

    /// `self` after the loss check: the game is lost once the top row holds a block.
    pub open spec fn checked(self) -> GameView {
        GameView {
            state: if has_block(self.board[0]) {
                State::Lost
            } else {
                self.state
            },
            ..self
        }
    }

    /// `after` is `self` after the end-of-tick work: lock check, then row
    /// clearing, then loss check.
    pub open spec fn after_resolve(self, after: GameView) -> bool {
        exists|mid: GameView| #[trigger] self.after_fuse(mid) && after == mid.erased().checked()
    }

    /// `after` is `self` after the command `cmd`; `Quit` changes nothing.
    pub open spec fn after_command(self, after: GameView, cmd: Command) -> bool {
        match cmd {
            Command::MoveLeft => self.after_move(after, -1, 0),
            Command::MoveRight => self.after_move(after, 1, 0),
            Command::SoftDrop => self.after_move(after, 0, 1),
            Command::HardDrop => self.after_drop(after),
            Command::RotateClockwise => self.after_rotate(after, true),
            Command::RotateCounterClockwise => self.after_rotate(after, false),
            Command::Hold => self.after_hold(after),
            Command::Quit => after == self,
        }
    }

    /// `after` is `self` after the command `cmd` if there is one, `self` otherwise.
    pub open spec fn after_input(self, after: GameView, cmd: Option<Command>) -> bool {
        match cmd {
            None => after == self,
            Some(c) => self.after_command(after, c),
        }
    }

    /// `after` is `self` after one tick of `dt` milliseconds in which the
    /// player gave `cmd` (if any), and `quit` says whether the player quit.
    /// A lost game only listens for `Quit`. Otherwise gravity runs, then the
    /// command; unless it was `Quit`, the end-of-tick work follows.
    pub open spec fn after_step(
        self,
        after: GameView,
        dt: int,
        cmd: Option<Command>,
        quit: bool,
    ) -> bool {
        &&& quit == (cmd == Some(Command::Quit))
        &&& if self.state is Lost {
            after == self
        } else {
            exists|ticked: GameView, commanded: GameView|
                #![trigger self.after_update(ticked, dt), ticked.after_input(commanded, cmd)]
                {
                    &&& self.after_update(ticked, dt)
                    &&& ticked.after_input(commanded, cmd)
                    &&& if quit {
                        after == commanded
                    } else {
                        commanded.after_resolve(after)
                    }
                }
        }
    }
}

/// A game: the grid, the falling piece, the next and held kinds, the score and
/// the bag the pieces come from.
pub struct Game {
    score: usize,
    lines: usize,
    board: Board,
    state: State,
    current_tetrimino: ActiveTetrimino,
    next_type: TetriminoType,
    held_type: Option<TetriminoType>,
    can_hold: bool,
    elapsed: u64,
    generator: SevenGenerator,
}

impl View for Game {
    type V = GameView;

    closed spec fn view(&self) -> GameView {
        GameView {
            score: self.score as nat,
            lines: self.lines as nat,
            board: self.board@,
            state: self.state,
            piece: self.current_tetrimino.tetrimino,
            x: self.current_tetrimino.x as int,
            y: self.current_tetrimino.y as int,
            next: self.next_type,
            held: self.held_type,
            can_hold: self.can_hold,
            elapsed: self.elapsed as nat,
            generator: self.generator,
        }
    }
}

/// A shape that fits lies with its bounding box at most three cells off the
/// left and top edges and starting inside the right and bottom edges.
pub proof fn lemma_fits_bounds(rows: Seq<Seq<Block>>, x: int, y: int, shape: Shape)
    requires
        fits(rows, x, y, shape),
        is_piece_shape(shape),
    ensures
        -3 <= x < BOARD_WIDTH,
        -3 <= y < BOARD_HEIGHT,
{
    let (r, c) = choose|r: int, c: int| 0 <= r < 4 && 0 <= c < 4 && #[trigger] shape[r][c] == 1;
    assert(on_board(x + c, y + r));
}

/// On an empty grid every kind fits at its spawn position.
pub proof fn lemma_spawn_fits_empty(kind: TetriminoType)
    ensures
        fits(
            crate::board::free_rows(BOARD_HEIGHT as nat),
            SPAWN_X as int,
            spawn_y(kind),
            crate::tetrimino::shape_of(kind, 0),
        ),
{
    let shape = crate::tetrimino::shape_of(kind, 0);
    let rows = crate::board::free_rows(BOARD_HEIGHT as nat);
    assert forall|r: int, c: int|
        0 <= r < 4 && 0 <= c < 4 && #[trigger] shape[r][c] == 1 implies on_board(
        SPAWN_X + c,
        spawn_y(kind) + r,
    ) && rows[spawn_y(kind) + r][SPAWN_X + c] is Free by {
        assert(r == 0 || r == 1 || r == 2 || r == 3);
        assert(c == 0 || c == 1 || c == 2 || c == 3);
    }
}

/// Falling from a place where the piece fits keeps it where it fits, and
/// after `n` steps it has either moved down all `n` rows or come to a stop
/// where one row lower it does not fit.
proof fn lemma_fallen(rows: Seq<Seq<Block>>, x: int, y: int, shape: Shape, n: nat)
    requires
        fits(rows, x, y, shape),
    ensures
        fits(rows, x, fallen(rows, x, y, shape, n), shape),
        fallen(rows, x, y, shape, n) == y + n || !fits(
            rows,
            x,
            fallen(rows, x, y, shape, n) + 1,
            shape,
        ),
    decreases n,
{
    if n > 0 {
        lemma_fallen(rows, x, y, shape, (n - 1) as nat);
    }
}

/// A hard drop of a piece that fits ends where the piece fits and rests: one
/// row lower it no longer fits. So `BOARD_HEIGHT` tries are as many as moving
/// down until refused needs.
pub proof fn lemma_drop_lands(rows: Seq<Seq<Block>>, x: int, y: int, shape: Shape)
    requires
        is_piece_shape(shape),
        fits(rows, x, y, shape),
    ensures
        fits(rows, x, fallen(rows, x, y, shape, BOARD_HEIGHT as nat), shape),
        !fits(rows, x, fallen(rows, x, y, shape, BOARD_HEIGHT as nat) + 1, shape),
{
    let landed = fallen(rows, x, y, shape, BOARD_HEIGHT as nat);
    lemma_fallen(rows, x, y, shape, BOARD_HEIGHT as nat);
    let (r, c) = choose|r: int, c: int| 0 <= r < 4 && 0 <= c < 4 && #[trigger] shape[r][c] == 1;
    // the same set cell cannot be on the grid both at `y` and `BOARD_HEIGHT` rows lower
    assert(on_board(x + c, y + r));
    assert(on_board(x + c, landed + r));
}

impl Game {
    /// The parts agree: the grid has its size, the piece and the bag are
    /// well formed, the gravity clock is below one step, the piece's column
    /// is one where some set cell can be on the grid (it only changes by
    /// moves that fit), and the piece is no higher than its spawn row (it
    /// only moves down).
    pub closed spec fn wf(&self) -> bool {
        &&& self.board.wf()
        &&& self.current_tetrimino.tetrimino.wf()
        &&& self.generator.wf()
        &&& self.elapsed < FALL_RATE_MS
        &&& -3 <= self.current_tetrimino.x < BOARD_WIDTH
        &&& -1 <= self.current_tetrimino.y
    }

    /// What the well-formedness of a game gives: the grid has its size, the
    /// piece and the bag are well formed, the gravity clock is below one step,
    /// the piece's column lies in `[-3, BOARD_WIDTH)` and its row is at least -1.
    pub proof fn lemma_wf_parts(&self)
        requires
            self.wf(),
        ensures
            crate::board::grid_shaped(self@.board),
            self@.piece.wf(),
            self@.generator.wf(),
            self@.elapsed < FALL_RATE_MS,
            -3 <= self@.x < BOARD_WIDTH,
            -1 <= self@.y,
    {
    }

    /// A fresh piece of `ttype` at its spawn position.
    pub fn initialize_tetrimino(ttype: TetriminoType) -> (r: ActiveTetrimino)
        ensures
            r.tetrimino.wf(),
            r.tetrimino.kind() == ttype,
            r.tetrimino.rotation() == 0,
            r.x == SPAWN_X,
            r.y == spawn_y(ttype),
    {
        let y: isize = match ttype {
            TetriminoType::I => -1,
            _ => 0,
        };
        ActiveTetrimino { tetrimino: Tetrimino::new(ttype), x: SPAWN_X, y }
    }

    /// A game on `board` whose pieces come from `generator`: its next two
    /// draws are the falling piece and the next one; score and lines start
    /// at zero.
    pub fn with_parts(board: Board, generator: SevenGenerator) -> (r: Game)
        requires
            board.wf(),
            generator.wf(),
        ensures
            r.wf(),
            r@.board == board@,
            r@.score == 0,
            r@.lines == 0,
            r@.state == State::Playing,
            r@.spawned(r@.piece.kind()),
            exists|mid: SevenGenerator|
                #[trigger] generator.draws(mid, r@.piece.kind()) && mid.draws(
                    r@.generator,
                    r@.next,
                ),
            r@.held == None::<TetriminoType>,
            r@.can_hold,
            r@.elapsed == 0,
    {
        let mut generator = generator;
        let current_ttype = generator.next();
        let ghost mid = generator;
        let next_ttype = generator.next();
        let r = Game {
            score: 0,
            lines: 0,
            board,
            state: State::Playing,
            current_tetrimino: Self::initialize_tetrimino(current_ttype),
            next_type: next_ttype,
            held_type: None,
            can_hold: true,
            elapsed: 0,
            generator,
        };
        assert(mid.draws(r@.generator, r@.next));
        r
    }

    /// A game on `board`: the first two kinds of a freshly shuffled bag are
    /// the falling piece and the next one; score and lines start at zero.
    pub fn with_board(board: Board) -> (r: Game)
        requires
            board.wf(),
        ensures
            r.wf(),
            r@.board == board@,
            r@.score == 0,
            r@.lines == 0,
            r@.state == State::Playing,
            r@.spawned(r@.generator.bag()[0]),
            r@.next == r@.generator.bag()[1],
            r@.generator.cursor() == 2,
            r@.held == None::<TetriminoType>,
            r@.can_hold,
            r@.elapsed == 0,
    {
        Self::with_parts(board, SevenGenerator::new())
    }

    /// A game on an empty grid.
    pub fn new() -> (r: Game)
        ensures
            r.wf(),
            r@.board == crate::board::free_rows(BOARD_HEIGHT as nat),
            r@.score == 0,
            r@.lines == 0,
            r@.state == State::Playing,
            r@.spawned(r@.generator.bag()[0]),
            r@.next == r@.generator.bag()[1],
            r@.generator.cursor() == 2,
            r@.held == None::<TetriminoType>,
            r@.can_hold,
            r@.elapsed == 0,
    {
        Self::with_board(Board::new())
    }

    /// Puts a fresh piece of `ttype` at its spawn position in place of the
    /// falling one.
    pub fn spawn(&mut self, ttype: TetriminoType)
        requires
            old(self).wf(),
        ensures
            final(self).wf(),
            final(self)@.spawned(ttype),
            final(self)@ == (GameView {
                piece: final(self)@.piece,
                x: final(self)@.x,
                y: final(self)@.y,
                ..old(self)@
            }),
    {
        self.current_tetrimino = Self::initialize_tetrimino(ttype);
    }

    /// Shifts the piece by `(dx, dy)` if the game is on and it fits there;
    /// a blocked move is ignored.
    pub fn handle_tetrimino_move(&mut self, dx: isize, dy: isize)
        requires
            old(self).wf(),
            -1 <= dx <= 1,
            0 <= dy <= 1,
        ensures
            final(self).wf(),
            old(self)@.after_move(final(self)@, dx as int, dy as int),
    {
        if self.state != State::Playing {
            return;
        }
        let block = self.current_tetrimino.tetrimino.get_block();
        if self.current_tetrimino.y >= BOARD_HEIGHT as isize {
            // below the last row no set cell can be on the grid
            proof {
                if fits(self.board@, self@.x + dx, self@.y + dy, block) {
                    lemma_fits_bounds(self.board@, self@.x + dx, self@.y + dy, block);
                }
            }
            return;
        }
        let new_x = self.current_tetrimino.x + dx;
        let new_y = self.current_tetrimino.y + dy;
        if self.board.can_fit(new_x, new_y, &block) {
            proof {
                lemma_fits_bounds(self.board@, new_x as int, new_y as int, block);
            }
            self.current_tetrimino.x = new_x;
            self.current_tetrimino.y = new_y;
        }
    }

    /// Turns the piece once, clockwise or not, if the game is on and the
    /// turned shape fits at the same position; otherwise nothing changes.
    pub fn rotate(&mut self, clockwise_turn: bool)
        requires
            old(self).wf(),
        ensures
            final(self).wf(),
            old(self)@.after_rotate(final(self)@, clockwise_turn),
    {
        if self.state != State::Playing {
            return;
        }
        let new_state = if clockwise_turn {
            self.current_tetrimino.tetrimino.rotate_clockwise()
        } else {
            self.current_tetrimino.tetrimino.rotate_counter_clockwise()
        };
        let block = new_state.get_block();
        if self.board.can_fit(self.current_tetrimino.x, self.current_tetrimino.y, &block) {
            self.current_tetrimino.tetrimino = new_state;
        }
    }

    /// Puts the falling kind aside, once per lock: the kind held before, or
    /// else the next kind, starts falling.
    pub fn try_hold_tetrimino(&mut self)
        requires
            old(self).wf(),
        ensures
            final(self).wf(),
            old(self)@.after_hold(final(self)@),
    {
        if self.state != State::Playing || !self.can_hold {
            return;
        }
        let current = self.current_tetrimino.tetrimino.ttype();
        match self.held_type {
            Some(held) => {
                self.held_type = Some(current);
                self.current_tetrimino = Self::initialize_tetrimino(held);
            },
            None => {
                self.held_type = Some(current);
                self.current_tetrimino = Self::initialize_tetrimino(self.next_type);
                self.next_type = self.generator.next();
            },
        }
        self.can_hold = false;
    }

    /// Lets `elapsed` milliseconds pass: every full `FALL_RATE_MS` moves the
    /// piece one row down. A lost game does not change. The piece's row must
    /// stay within `isize`.
    pub fn update(&mut self, elapsed: u64)
        requires
            old(self).wf(),
            old(self)@.state is Playing ==> old(self)@.y + (old(self)@.elapsed + elapsed) / (
            FALL_RATE_MS as int) <= isize::MAX,
        ensures
            final(self).wf(),
            old(self)@.after_update(final(self)@, elapsed as int),
    {
        if self.state != State::Playing {
            return;
        }
        let ghost start = self@;
        let ghost total = start.elapsed + elapsed;
        proof {
            vstd::arithmetic::div_mod::lemma_fundamental_div_mod(total, FALL_RATE_MS as int);
        }
        let mut remaining: u64 = elapsed;
        let ghost mut steps: nat = 0;
        while remaining >= FALL_RATE_MS - self.elapsed
            invariant
                self.wf(),
                start.state is Playing,
                self@ == (GameView { y: self@.y, elapsed: self@.elapsed, ..start }),
                total == steps * FALL_RATE_MS + self@.elapsed + remaining,
                total == FALL_RATE_MS * (total / (FALL_RATE_MS as int)) + total % (
                FALL_RATE_MS as int),
                0 <= total % (FALL_RATE_MS as int) < FALL_RATE_MS,
                start.y + total / (FALL_RATE_MS as int) <= isize::MAX,
                self@.y == start.y + steps,
            decreases remaining,
        {
            remaining = remaining - (FALL_RATE_MS - self.elapsed);
            self.elapsed = 0;
            self.current_tetrimino.y = self.current_tetrimino.y + 1;
            proof {
                steps = steps + 1;
            }
        }
        self.elapsed = self.elapsed + remaining;
        proof {
            vstd::arithmetic::div_mod::lemma_fundamental_div_mod_converse(
                total,
                FALL_RATE_MS as int,
                steps as int,
                self@.elapsed as int,
            );
        }
    }

    /// Moves the piece down as far as it goes, `BOARD_HEIGHT` tries at most.
    pub fn drop_current_tetrimino(&mut self)
        requires
            old(self).wf(),
        ensures
            final(self).wf(),
            old(self)@.after_drop(final(self)@),
    {
        let ghost start = self@;
        let mut i: usize = 0;
        while i < BOARD_HEIGHT
            invariant
                self.wf(),
                i <= BOARD_HEIGHT,
                self@ == (if start.state is Playing {
                    GameView {
                        y: fallen(start.board, start.x, start.y, start.shape(), i as nat),
                        ..start
                    }
                } else {
                    start
                }),
            decreases BOARD_HEIGHT - i,
        {
            self.handle_tetrimino_move(0, 1);
            i = i + 1;
        }
    }

    /// Whether the set cell at row `r`, column `c` of the piece's shape sits
    /// on the bottom row or right above an occupied cell.
    fn should_fuse_with_ground(&self, c: usize, r: usize) -> (res: bool)
        requires
            self.wf(),
            c < 4,
            r < 4,
        ensures
            res == rests_on(self@.board, self@.x + c, self@.y + r),
    {
        if self.current_tetrimino.y > BOARD_HEIGHT as isize {
            return false;
        }
        let bx = self.current_tetrimino.x + c as isize;
        let by = self.current_tetrimino.y + r as isize;
        if by == BOARD_HEIGHT as isize - 1 {
            true
        } else if 0 <= bx && bx < BOARD_WIDTH as isize && -1 <= by && by < BOARD_HEIGHT as isize
            - 1 {
            self.board.is_occupied(bx as usize, (by + 1) as usize)
        } else {
            false
        }
    }

    /// Whether the piece rests: some set cell sits on the bottom row or right
    /// above an occupied cell.
    pub fn should_fuse_current_tetrimino(&self) -> (res: bool)
        requires
            self.wf(),
        ensures
            res == rests(self@.board, self@.x, self@.y, self@.shape()),
    {
        let block = self.current_tetrimino.tetrimino.get_block();
        let mut r: usize = 0;
        while r < 4
            invariant
                self.wf(),
                block == self@.shape(),
                r <= 4,
                forall|rr: int, cc: int|
                    0 <= rr < r && 0 <= cc < 4 && #[trigger] block[rr][cc] == 1 ==> !rests_on(
                        self@.board,
                        self@.x + cc,
                        self@.y + rr,
                    ),
            decreases 4 - r,
        {
            let mut c: usize = 0;
            while c < 4
                invariant
                    self.wf(),
                    block == self@.shape(),
                    r < 4,
                    c <= 4,
                    forall|rr: int, cc: int|
                        0 <= rr < 4 && 0 <= cc < 4 && (rr < r || (rr == r && cc < c))
                            && #[trigger] block[rr][cc] == 1 ==> !rests_on(
                            self@.board,
                            self@.x + cc,
                            self@.y + rr,
                        ),
                decreases 4 - c,
            {
                if block[r][c] == 1 && self.should_fuse_with_ground(c, r) {
                    return true;
                }
                c = c + 1;
            }
            r = r + 1;
        }
        false
    }

    /// Locks the piece into the grid when it rests, and brings in the next one.
    pub fn try_fuse_with_ground(&mut self)
        requires
            old(self).wf(),
        ensures
            final(self).wf(),
            old(self)@.after_fuse(final(self)@),
    {
        if self.state != State::Playing {
            return;
        }
        if self.should_fuse_current_tetrimino() {
            let block = self.current_tetrimino.tetrimino.get_block();
            let color = self.current_tetrimino.tetrimino.get_color();
            self.board.commit(self.current_tetrimino.x, self.current_tetrimino.y, &block, color);
            self.current_tetrimino = Self::initialize_tetrimino(self.next_type);
            self.next_type = self.generator.next();
            self.can_hold = true;
        }
    }

    /// Clears the full rows and counts them into lines and score.
    pub fn erase_lines(&mut self)
        requires
            old(self).wf(),
        ensures
            final(self).wf(),
            final(self)@ == old(self)@.erased(),
    {
        if self.state != State::Playing {
            return;
        }
        proof {
            crate::board::lemma_cleared_len(self.board@);
        }
        let count = self.board.clear_full_rows();
        self.lines = self.lines.saturating_add(count);
        self.score = self.score.saturating_add(count * SCORE_PER_LINE);
    }

    /// Ends the game once the top row holds a block.
    pub fn check_game_over(&mut self)
        requires
            old(self).wf(),
        ensures
            final(self).wf(),
            final(self)@ == old(self)@.checked(),
    {
        let mut x: usize = 0;
        while x < BOARD_WIDTH
            invariant
                self.wf(),
                self@ == old(self)@,
                x <= BOARD_WIDTH,
                forall|i: int| 0 <= i < x ==> !(#[trigger] self@.board[0][i] is Occupied),
            decreases BOARD_WIDTH - x,
        {
            if self.board.is_occupied(x, 0) {
                self.state = State::Lost;
                return;
            }
            x = x + 1;
        }
    }

    /// The end-of-tick work: lock check, row clearing, loss check, in that order.
    pub fn resolve_lock_and_clear(&mut self)
        requires
            old(self).wf(),
        ensures
            final(self).wf(),
            old(self)@.after_resolve(final(self)@),
    {
        self.try_fuse_with_ground();
        let ghost mid = self@;
        self.erase_lines();
        self.check_game_over();
        assert(old(self)@.after_fuse(mid));
    }

    /// Carries out `cmd`; returns whether it was `Quit`.
    pub fn apply_command(&mut self, cmd: Command) -> (quit: bool)
        requires
            old(self).wf(),
        ensures
            final(self).wf(),
            quit == (cmd == Command::Quit),
            old(self)@.after_command(final(self)@, cmd),
    {
        match cmd {
            Command::MoveLeft => self.handle_tetrimino_move(-1, 0),
            Command::MoveRight => self.handle_tetrimino_move(1, 0),
            Command::SoftDrop => self.handle_tetrimino_move(0, 1),
            Command::HardDrop => self.drop_current_tetrimino(),
            Command::RotateClockwise => self.rotate(true),
            Command::RotateCounterClockwise => self.rotate(false),
            Command::Hold => self.try_hold_tetrimino(),
            Command::Quit => {
                return true;
            },
        }
        false
    }

    /// One tick of `elapsed` milliseconds in which the player gave `cmd`, if
    /// any; returns whether the player quit. A lost game only listens for
    /// `Quit`. The piece's row after gravity must stay within `isize`.
    pub fn step(&mut self, elapsed: u64, cmd: Option<Command>) -> (quit: bool)
        requires
            old(self).wf(),
            old(self)@.state is Playing ==> old(self)@.y + (old(self)@.elapsed + elapsed) / (
            FALL_RATE_MS as int) <= isize::MAX,
        ensures
            final(self).wf(),
            old(self)@.after_step(final(self)@, elapsed as int, cmd, quit),
    {
        if self.state == State::Lost {
            return match cmd {
                Some(Command::Quit) => true,
                _ => false,
            };
        }
        self.update(elapsed);
        let ghost ticked = self@;
        let quit = match cmd {
            Some(c) => self.apply_command(c),
            None => false,
        };
        let ghost commanded = self@;
        if !quit {
            self.resolve_lock_and_clear();
        }
        assert(old(self)@.after_update(ticked, elapsed as int));
        assert(ticked.after_input(commanded, cmd));
        quit
    }

    /// The score.
    pub fn score(&self) -> (r: usize)
        ensures
            r == self@.score,
    {
        self.score
    }

    /// How many rows have been cleared.
    pub fn lines(&self) -> (r: usize)
        ensures
            r == self@.lines,
    {
        self.lines
    }

    /// Whether the game goes on.
    pub fn state(&self) -> (r: State)
        ensures
            r == self@.state,
    {
        self.state
    }

    /// The kind that falls after the current piece.
    pub fn next_type(&self) -> (r: TetriminoType)
        ensures
            r == self@.next,
    {
        self.next_type
    }

    /// The kind put aside, if any.
    pub fn held_type(&self) -> (r: Option<TetriminoType>)
        ensures
            r == self@.held,
    {
        self.held_type
    }

    /// Whether a hold is allowed before the next lock.
    pub fn can_hold(&self) -> (r: bool)
        ensures
            r == self@.can_hold,
    {
        self.can_hold
    }

    /// The falling piece and its position.
    pub fn current(&self) -> (r: ActiveTetrimino)
        requires
            self.wf(),
        ensures
            r.tetrimino == self@.piece,
            r.tetrimino.wf(),
            r.x == self@.x,
            r.y == self@.y,
            -3 <= r.x < BOARD_WIDTH,
            -1 <= r.y,
    {
        self.current_tetrimino
    }

    /// Milliseconds on the gravity clock since the last step.
    pub fn elapsed(&self) -> (r: u64)
        requires
            self.wf(),
        ensures
            r == self@.elapsed,
            r < FALL_RATE_MS,
    {
        self.elapsed
    }

    /// The grid.
    pub fn board(&self) -> (r: &Board)
        requires
            self.wf(),
        ensures
            r.wf(),
            r@ == self@.board,
    {
        &self.board
    }
}

} // verus!
