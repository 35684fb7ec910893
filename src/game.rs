//! The game state machine: one grid step per tick, food, collisions, pause and reset.

use crate::clock::{advanced, fires, Clock};
use crate::food::{
    free_cells, free_cells_of, lemma_free_cells_are_free, occupies, random_below, CELL_COUNT,
};
use crate::input::{command_for, key_command, Key};
use crate::grid::{arbitrate, arbitrated, in_grid, is_reverse, moved, step_pos, Direction, Pos, GRID_HEIGHT, GRID_WIDTH};
use vstd::prelude::*;

verus! {

/// Column of the head at the start of a game.
pub const START_HEAD_X: u64 = GRID_WIDTH / 2;

/// Row of the head at the start of a game.
pub const START_HEAD_Y: u64 = GRID_HEIGHT / 2;

/// Column of the food at the start of a game.
pub const START_FOOD_X: u64 = GRID_WIDTH / 2 - 4;

/// Row of the food at the start of a game.
pub const START_FOOD_Y: u64 = GRID_HEIGHT / 2 - 4;

/// Whether the simulation advances.
#[derive(Clone, Copy, Debug, PartialEq, Eq, Structural)]
pub enum RunState {
    Running,
    Paused,
    GameOver,
}

/// What an input asks of the game.
#[derive(Clone, Copy, Debug, PartialEq, Eq, Structural)]
pub enum Command {
    SetDirection(Direction),
    TogglePause,
    Reset,
}

/// The whole game: snake, food, run state and clock.
#[derive(Debug)]
pub struct Game {
    pub run: RunState,
    pub clock: Clock,
    pub head: Pos,
    /// Where the head stood before the last tick.
    pub prev_head: Pos,
    pub direction: Direction,
    /// The direction requested by the latest input, applied at the next tick.
    pub pending: Direction,
    /// Tail segments, the one next to the head first.
    pub tail: Vec<Pos>,
    /// How many tail segments the snake has.
    pub growth: usize,
    pub food: Pos,
}

/// The head's cell at the start of a game.
pub open spec fn start_head() -> Pos {
    Pos { x: START_HEAD_X, y: START_HEAD_Y }
}

/// The food's cell at the start of a game.
pub open spec fn start_food() -> Pos {
    Pos { x: START_FOOD_X, y: START_FOOD_Y }
}

/// The tail after one shift: the head's cell enters at the front and the
/// oldest segment leaves; an empty tail stays empty.
pub open spec fn shifted_tail(tail: Seq<Pos>, head: Pos) -> Seq<Pos> {
    if tail.len() == 0 {
        tail
    } else {
        seq![head] + tail.drop_last()
    }
}

impl Game {
    /// Every position is on the playfield and the tail has `growth` segments.
    pub open spec fn wf(&self) -> bool {
        &&& in_grid(self.head)
        &&& in_grid(self.prev_head)
        &&& in_grid(self.food)
        &&& self.tail@.len() == self.growth
        &&& forall|i: int| 0 <= i < self.tail@.len() ==> in_grid(#[trigger] self.tail@[i])
    }

    /// The configuration in which every game starts.
    pub open spec fn is_initial(&self) -> bool {
        &&& self.run == RunState::Running
        &&& self.clock.accumulated == 0
        &&& self.head == start_head()
        &&& self.prev_head == start_head()
        &&& self.direction == Direction::Still
        &&& self.pending == Direction::Still
        &&& self.tail@.len() == 0
        &&& self.growth == 0
        &&& self.food == start_food()
    }

    /// The direction the next tick moves in.
    pub open spec fn next_direction(&self) -> Direction {
        arbitrated(self.direction, self.pending)
    }

    /// The head's cell after the next tick.
    pub open spec fn next_head(&self) -> Pos {
        moved(self.head, self.next_direction())
    }

    /// The next tick brings the head onto the food.
    pub open spec fn eats(&self) -> bool {
        self.next_head() == self.food
    }

    /// The tail after the next tick: shifted, then grown at the cell the head
    /// left when the food is eaten.
    pub open spec fn next_tail(&self) -> Seq<Pos> {
        if self.eats() {
            seq![self.head] + shifted_tail(self.tail@, self.head)
        } else {
            shifted_tail(self.tail@, self.head)
        }
    }

    /// The run state after the next tick: over when the head lands on the tail.
    pub open spec fn next_run(&self) -> RunState {
        if self.next_tail().contains(self.next_head()) {
            RunState::GameOver
        } else {
            RunState::Running
        }
    }

    /// The cells eaten food may move to: none of the tail, the new head or
    /// the cell the head left.
    pub open spec fn food_choices(&self) -> Seq<Pos> {
        free_cells_of(self.next_tail().push(self.next_head()).push(self.head))
    }

    /// `self` is `old` after one tick's snake movement, collision check and
    /// growth; food and clock are not covered.
    pub open spec fn snake_stepped_from(&self, old: &Game) -> bool {
        &&& self.direction == old.next_direction()
        &&& self.pending == old.next_direction()
        &&& self.prev_head == old.head
        &&& self.head == old.next_head()
        &&& self.tail@ == old.next_tail()
        &&& self.growth == old.next_tail().len()
        &&& self.run == old.next_run()
    }

    /// A fresh game: head in the middle, standing still, no tail.
    pub fn new() -> (r: Game)
        ensures
            r.is_initial(),
            r.wf(),
    {
        Game {
            run: RunState::Running,
            clock: Clock::new(),
            head: Pos { x: START_HEAD_X, y: START_HEAD_Y },
            prev_head: Pos { x: START_HEAD_X, y: START_HEAD_Y },
            direction: Direction::Still,
            pending: Direction::Still,
            tail: Vec::new(),
            growth: 0,
            food: Pos { x: START_FOOD_X, y: START_FOOD_Y },
        }
    }

    /// Moves the tail one step behind the head.
    fn shift_tail(&mut self)
        requires
            old(self).wf(),
        ensures
            final(self).tail@ == shifted_tail(old(self).tail@, old(self).head),
            final(self).growth == old(self).growth,
            final(self).head == old(self).head,
            final(self).prev_head == old(self).prev_head,
            final(self).food == old(self).food,
            final(self).run == old(self).run,
            final(self).clock == old(self).clock,
            final(self).direction == old(self).direction,
            final(self).pending == old(self).pending,
            final(self).wf(),
    {
        if self.growth == 0 {
            return;
        }
        let ghost before = self.tail@;
        self.tail.insert(0, self.head);
        self.tail.pop();
        assert(self.tail@ =~= seq![self.head] + before.drop_last());
        assert forall|i: int| 0 <= i < self.tail@.len() implies in_grid(#[trigger] self.tail@[i]) by {
            if i > 0 {
                assert(self.tail@[i] == before[i - 1]);
            }
        }
    }

    /// One tick's movement: tail shift, direction arbitration, position
    /// update, growth on food and the self-collision check. Returns whether
    /// the food was eaten; the food itself is not moved here.
    fn advance_snake(&mut self) -> (ate: bool)
        requires
            old(self).wf(),
            old(self).run == RunState::Running,
        ensures
            ate == old(self).eats(),
            final(self).snake_stepped_from(old(self)),
            final(self).food == old(self).food,
            final(self).clock == old(self).clock,
            final(self).wf(),
    {
        let ghost start = *self;
        self.shift_tail();
        let d = arbitrate(self.direction, self.pending);
        self.direction = d;
        self.pending = d;
        self.prev_head = self.head;
        self.head = step_pos(self.head, d);
        let ate = self.head == self.food;
        if ate {
            let ghost before = self.tail@;
            self.tail.insert(0, self.prev_head);
            self.growth = self.tail.len();
            assert(self.tail@ =~= seq![self.prev_head] + before);
            assert forall|i: int| 0 <= i < self.tail@.len() implies in_grid(#[trigger] self.tail@[i]) by {
                if i > 0 {
                    assert(self.tail@[i] == before[i - 1]);
                }
            }
        }
        if occupies(&self.tail, self.head) {
            self.run = RunState::GameOver;
        }
        assert(self.tail@ == start.next_tail());
        ate
    }

    /// The cells food must avoid: the tail, the head and the head's previous cell.
    fn occupied_cells(&self) -> (r: Vec<Pos>)
        ensures
            r@ == self.tail@.push(self.head).push(self.prev_head),
    {
        let mut r: Vec<Pos> = Vec::new();
        let mut i: usize = 0;
        while i < self.tail.len()
            invariant
                i <= self.tail@.len(),
                r@ == self.tail@.subrange(0, i as int),
            decreases self.tail@.len() - i,
        {
            r.push(self.tail[i]);
            i = i + 1;
            assert(r@ =~= self.tail@.subrange(0, i as int));
        }
        assert(r@ =~= self.tail@);
        r.push(self.head);
        r.push(self.prev_head);
        r
    }

    /// One tick with the food's new cell chosen by `food_pick`: when the food
    /// is eaten it moves to the free cell at index `food_pick` modulo their
    /// number (and stays where it is when no cell is free). Only a running
    /// game changes.
    pub fn step_with(&mut self, food_pick: usize)
        requires
            old(self).wf(),
        ensures
            final(self).wf(),
            in_grid(final(self).head),
            final(self).tail@.len() == final(self).growth,
            old(self).run != RunState::Running ==> *final(self) == *old(self),
            old(self).run == RunState::Running ==> {
                &&& final(self).snake_stepped_from(old(self))
                &&& final(self).clock == old(self).clock
                &&& final(self).food == if old(self).eats() && old(self).food_choices().len() > 0 {
                    old(self).food_choices()[food_pick as int % (old(self).food_choices().len() as int)]
                } else {
                    old(self).food
                }
            },
    {
        if self.run != RunState::Running {
            return;
        }
        let ate = self.advance_snake();
        if ate {
            let occupied = self.occupied_cells();
            let free = free_cells(&occupied);
            if free.len() > 0 {
                self.food = free[food_pick % free.len()];
            }
        }
    }

    /// One tick with the food's new cell drawn at random among the free cells.
    /// Only a running game changes.
    pub fn step(&mut self)
        requires
            old(self).wf(),
        ensures
            final(self).wf(),
            in_grid(final(self).head),
            final(self).tail@.len() == final(self).growth,
            old(self).run != RunState::Running ==> *final(self) == *old(self),
            old(self).run == RunState::Running ==> {
                &&& final(self).snake_stepped_from(old(self))
                &&& final(self).clock == old(self).clock
                &&& if old(self).eats() && old(self).food_choices().len() > 0 {
                    old(self).food_choices().contains(final(self).food)
                } else {
                    final(self).food == old(self).food
                }
            },
    {
        if self.run != RunState::Running {
            return;
        }
        let ate = self.advance_snake();
        if ate {
            let occupied = self.occupied_cells();
            let free = free_cells(&occupied);
            if free.len() > 0 {
                let pick = random_below(free.len());
                self.food = free[pick];
            }
        }
    }

    /// The game after `cmd`: the toggle switches between running and paused;
    /// a direction becomes pending unless paused; reset starts afresh, but
    /// only once the game is over. Anything else leaves the game as it is.
    pub open spec fn commanded(&self, after: &Game, cmd: Command) -> bool {
        match cmd {
            Command::TogglePause => match self.run {
                RunState::Running => *after == (Game { run: RunState::Paused, ..*self }),
                RunState::Paused => *after == (Game { run: RunState::Running, ..*self }),
                RunState::GameOver => *after == *self,
            },
            Command::SetDirection(d) => if self.run == RunState::Paused {
                *after == *self
            } else {
                *after == (Game { pending: d, ..*self })
            },
            Command::Reset => if self.run == RunState::GameOver {
                after.is_initial()
            } else {
                *after == *self
            },
        }
    }

    /// Carries out one command.
    pub fn apply(&mut self, cmd: Command)
        requires
            old(self).wf(),
        ensures
            final(self).wf(),
            old(self).commanded(final(self), cmd),
    {
        match cmd {
            Command::TogglePause => match self.run {
                RunState::Running => self.run = RunState::Paused,
                RunState::Paused => self.run = RunState::Running,
                RunState::GameOver => {},
            },
            Command::SetDirection(d) => {
                if self.run != RunState::Paused {
                    self.pending = d;
                }
            },
            Command::Reset => {
                if self.run == RunState::GameOver {
                    *self = Game::new();
                }
            },
        }
    }

    /// Handles a key event: a press carries out the key's command, if any;
    /// a release does nothing.
    pub fn on_input(&mut self, key: Key, pressed: bool)
        requires
            old(self).wf(),
        ensures
            final(self).wf(),
            pressed && key_command(key).is_some() ==> old(self).commanded(
                final(self),
                key_command(key).unwrap(),
            ),
            !(pressed && key_command(key).is_some()) ==> *final(self) == *old(self),
    {
        match command_for(key, pressed) {
            Some(cmd) => self.apply(cmd),
            None => {},
        }
    }

    /// Handles `dt` microseconds of elapsed time: while running, the clock
    /// advances and, when it fires, exactly one tick is taken, with the food
    /// drawn at random. A paused or finished game does not change.
    pub fn on_tick(&mut self, dt: u64)
        requires
            old(self).wf(),
        ensures
            final(self).wf(),
            old(self).run != RunState::Running ==> *final(self) == *old(self),
            old(self).run == RunState::Running ==> {
                &&& final(self).clock.accumulated == advanced(old(self).clock.accumulated, dt)
                &&& !fires(old(self).clock.accumulated, dt) ==> *final(self) == (Game {
                    clock: final(self).clock,
                    ..*old(self)
                })
                &&& fires(old(self).clock.accumulated, dt) ==> {
                    &&& final(self).snake_stepped_from(old(self))
                    &&& if old(self).eats() && old(self).food_choices().len() > 0 {
                        old(self).food_choices().contains(final(self).food)
                    } else {
                        final(self).food == old(self).food
                    }
                }
            },
    {
        if self.run != RunState::Running {
            return;
        }
        if self.clock.advance(dt) {
            self.step();
        }
    }
}

/// A tick never takes the head off the playfield: the new head lies within
/// both dimensions.
pub proof fn lemma_head_stays_on_grid(g: &Game)
    requires
        g.wf(),
    ensures
        in_grid(g.next_head()),
        g.next_head().x < GRID_WIDTH,
        g.next_head().y < GRID_HEIGHT,
{
}

/// The tail grows by one segment exactly when food is eaten and otherwise
/// keeps its length, so it always has as many segments as the growth counter.
pub proof fn lemma_tail_tracks_growth(g: &Game)
    requires
        g.wf(),
    ensures
        g.next_tail().len() == g.growth + if g.eats() {
            1int
        } else {
            0int
        },
{
}

/// Moving East, a pending West is not adopted, neither on the next tick nor
/// on the one after: the tick discards it, leaving East pending. Any pending direction that is not the reverse of the
/// current one is adopted.
pub proof fn lemma_reverse_rejected(g: &Game, after: &Game)
    requires
        g.direction == Direction::East,
        g.pending == Direction::West,
        after.snake_stepped_from(g),
    ensures
        g.next_direction() == Direction::East,
        after.direction == Direction::East,
        after.pending == Direction::East,
        after.next_direction() == Direction::East,
        forall|d: Direction| !is_reverse(g.direction, d) ==> arbitrated(g.direction, d) == d,
{
}

/// Every cell food can move to after a tick is on the playfield, off the
/// new tail and off the new head.
pub proof fn lemma_food_lands_free(g: &Game)
    requires
        g.wf(),
    ensures
        forall|i: int|
            0 <= i < g.food_choices().len() ==> {
                let c = #[trigger] g.food_choices()[i];
                &&& in_grid(c)
                &&& !g.next_tail().contains(c)
                &&& c != g.next_head()
            },
{
    let occupied = g.next_tail().push(g.next_head()).push(g.head);
    lemma_free_cells_are_free(occupied, CELL_COUNT as nat);
    assert forall|i: int| 0 <= i < g.food_choices().len() implies {
        let c = #[trigger] g.food_choices()[i];
        &&& in_grid(c)
        &&& !g.next_tail().contains(c)
        &&& c != g.next_head()
    } by {
        let c = g.food_choices()[i];
        assert(!occupied.contains(c));
        if g.next_tail().contains(c) {
            let j = choose|j: int| 0 <= j < g.next_tail().len() && g.next_tail()[j] == c;
            assert(occupied[j] == c);
        }
        assert(occupied[occupied.len() - 2] == g.next_head());
    }
}

} // verus!
