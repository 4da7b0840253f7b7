//! The simulation state and its per-tick phases.
//!
//! One `GameState` owns everything the game tracks: the snake's segments
//! (head first), its direction of travel, the single optional food cell,
//! the score, and the cell the tail vacated on the most recent move.  The
//! phases the game runs in a fixed order — input, movement, eating,
//! growth, game over — are methods here, each with a contract that pins
//! down the state it leaves behind.

use vstd::prelude::*;

use crate::grid::{ArenaConfig, Direction, Position, step_in_playable, stepped, try_step};
use crate::rng::random_u64;

verus! {

/// The whole simulation state.
pub struct GameState {
    pub config: ArenaConfig,
    /// The snake's segments; the head is `body[0]`.  Always nonempty.
    pub body: Vec<Position>,
    /// The direction the next movement tick will step in.
    pub direction: Direction,
    /// The at-most-one live food cell.
    pub food: Option<Position>,
    /// Food cells eaten since the last restart.
    pub score: u32,
    /// The cell the final segment vacated on the most recent movement tick;
    /// a segment grown this tick is attached there.
    pub last_tail: Option<Position>,
}

/// Whether two states hold the same values field for field.
pub open spec fn same_state(a: GameState, b: GameState) -> bool {
    &&& a.config == b.config
    &&& a.body@ == b.body@
    &&& a.direction == b.direction
    &&& a.food == b.food
    &&& a.score == b.score
    &&& a.last_tail == b.last_tail
}

/// The events one movement tick can raise.
#[derive(Clone, Copy, PartialEq, Eq, Structural, Debug)]
pub struct TickEvents {
    /// The head would have left the playable region or met the body; the
    /// state has been restarted.
    pub game_over: bool,
    /// The head reached the food cell; the snake grew by one segment.
    pub growth: bool,
}

impl GameState {
    /// Every state the library hands out satisfies this: the arena is
    /// valid, the snake is nonempty, and every tracked cell lies in the
    /// playable region.
    pub open spec fn wf(self) -> bool {
        &&& self.config.valid()
        &&& self.body@.len() >= 1
        &&& forall|i: int|
            0 <= i < self.body@.len() ==> self.config.in_playable(#[trigger] self.body@[i])
        &&& (self.food matches Some(f) ==> self.config.in_playable(f))
        &&& (self.last_tail matches Some(t) ==> self.config.in_playable(t))
    }

    /// The head cell.
    pub open spec fn head0(self) -> Position {
        self.body@[0]
    }

    /// The tail cell: the final segment.
    pub open spec fn tail0(self) -> Position {
        self.body@[self.body@.len() - 1]
    }

    /// Whether the next step leaves the playable region.
    pub open spec fn move_out_of_bounds(self) -> bool {
        !step_in_playable(self.config, self.head0(), self.direction)
    }

    /// Whether the cell the head is about to occupy coincides with a
    /// pre-move segment.
    pub open spec fn move_self_collides(self) -> bool {
        self.body@.contains(stepped(self.head0(), self.direction))
    }

    /// Whether this movement tick ends the game.
    pub open spec fn move_blocked(self) -> bool {
        self.move_out_of_bounds() || self.move_self_collides()
    }

    /// The body after a plain (non-growing) move: the stepped head in
    /// front, every other segment where its predecessor stood, the old
    /// tail cell dropped.
    pub open spec fn shifted_body(self) -> Seq<Position> {
        seq![stepped(self.head0(), self.direction)] + self.body@.take(self.body@.len() - 1)
    }

    /// Whether `p` is one of the snake's segments.
    pub fn body_contains(&self, p: Position) -> (r: bool)
        ensures
            r == self.body@.contains(p),
    {
        let n = self.body.len();
        let mut i: usize = 0;
        while i < n
            invariant
                n == self.body@.len(),
                i <= n,
                forall|j: int| 0 <= j < i ==> self.body@[j] != p,
            decreases n - i,
        {
            if self.body[i] == p {
                proof {
                    assert(self.body@[i as int] == p);
                }
                return true;
            }
            i += 1;
        }
        false
    }

    /// One movement tick: step the head one cell in the current direction,
    /// end the game instead if that cell lies outside the playable region
    /// or on a pre-move segment, otherwise let every segment follow its
    /// predecessor and record the cell the tail vacated.  On game over the
    /// state is left untouched: the illegal coordinate is never committed.
    pub fn snake_movement(&mut self) -> (game_over: bool)
        requires
            old(self).wf(),
        ensures
            final(self).wf(),
            game_over == old(self).move_blocked(),
            game_over ==> same_state(*final(self), *old(self)),
            !game_over ==> ({
                &&& final(self).body@ == old(self).shifted_body()
                &&& final(self).body@.len() == old(self).body@.len()
                &&& final(self).head0() == stepped(old(self).head0(), old(self).direction)
                &&& forall|i: int|
                    1 <= i < final(self).body@.len() ==> final(self).body@[i] == old(
                        self,
                    ).body@[i - 1]
                &&& final(self).last_tail == Some(old(self).tail0())
                &&& final(self).direction == old(self).direction
                &&& final(self).food == old(self).food
                &&& final(self).score == old(self).score
                &&& final(self).config == old(self).config
            }),
    {
        let head = self.body[0];
        match try_step(self.config, head, self.direction) {
            None => true,
            Some(new_head) => {
                if self.body_contains(new_head) {
                    true
                } else {
                    let n = self.body.len();
                    let tail = self.body[n - 1];
                    let mut new_body: Vec<Position> = Vec::new();
                    new_body.push(new_head);
                    let mut i: usize = 0;
                    while i < n - 1
                        invariant
                            n == self.body@.len(),
                            1 <= n,
                            i <= n - 1,
                            new_body@.len() == i + 1,
                            new_body@[0] == new_head,
                            forall|j: int| 1 <= j <= i ==> new_body@[j] == self.body@[j - 1],
                        decreases n - 1 - i,
                    {
                        let seg = self.body[i];
                        new_body.push(seg);
                        i += 1;
                    }
                    proof {
                        assert(new_body@ =~= self.shifted_body());
                        assert(self.config.in_playable(new_head));
                        assert forall|k: int| 0 <= k < new_body@.len()
                            implies self.config.in_playable(new_body@[k]) by {
                            if k >= 1 {
                                assert(new_body@[k] == self.body@[k - 1]);
                            }
                        }
                        assert(self.config.in_playable(tail)) by {
                            assert(self.body@[n - 1] == tail);
                        }
                    }
                    self.body = new_body;
                    self.last_tail = Some(tail);
                    false
                }
            },
        }
    }

    /// The directional intent one frame's key poll yields: the first held
    /// key in the priority order Left, Down, Up, Right, or the current
    /// direction when none is held.
    pub open spec fn input_intent(
        self,
        left: bool,
        down: bool,
        up: bool,
        right: bool,
    ) -> Direction {
        if left {
            Direction::Left
        } else if down {
            Direction::Down
        } else if up {
            Direction::Up
        } else if right {
            Direction::Right
        } else {
            self.direction
        }
    }

    /// One frame's input phase: adopt the polled intent unless it is the
    /// exact reversal of the current direction, which would drive the head
    /// into the second segment.  The new direction is never the reversal
    /// of the old one.
    pub fn snake_movement_input(&mut self, left: bool, down: bool, up: bool, right: bool)
        requires
            old(self).wf(),
        ensures
            final(self).wf(),
            final(self).direction == (if old(self).input_intent(left, down, up, right)
                == old(self).direction.opposite_spec() {
                old(self).direction
            } else {
                old(self).input_intent(left, down, up, right)
            }),
            final(self).direction != old(self).direction.opposite_spec(),
            final(self).body@ == old(self).body@,
            final(self).food == old(self).food,
            final(self).score == old(self).score,
            final(self).last_tail == old(self).last_tail,
            final(self).config == old(self).config,
    {
        let dir = if left {
            Direction::Left
        } else if down {
            Direction::Down
        } else if up {
            Direction::Up
        } else if right {
            Direction::Right
        } else {
            self.direction
        };
        if dir != self.direction.opposite() {
            self.direction = dir;
        }
    }

    /// Whether the head stands on the food cell.
    pub open spec fn eats(self) -> bool {
        self.food == Some(self.head0())
    }

    /// One eating phase: where the food cell coincides with the head,
    /// destroy the food and count the score; the returned flag is the
    /// growth event the caller hands to `snake_growth` the same tick.
    /// The score bound is a machine limit: the counter must fit its word.
    pub fn snake_eating(&mut self) -> (grew: bool)
        requires
            old(self).wf(),
            old(self).score < u32::MAX,
        ensures
            final(self).wf(),
            grew == old(self).eats(),
            !grew ==> same_state(*final(self), *old(self)),
            grew ==> ({
                &&& final(self).food is None
                &&& final(self).score == old(self).score + 1
                &&& final(self).body@ == old(self).body@
                &&& final(self).direction == old(self).direction
                &&& final(self).last_tail == old(self).last_tail
                &&& final(self).config == old(self).config
            }),
    {
        if let Some(f) = self.food {
            if f == self.body[0] {
                self.food = None;
                self.score = self.score + 1;
                return true;
            }
        }
        false
    }

    /// One growth phase: on a growth event, append one segment at the cell
    /// the tail vacated this tick, undoing the tick's tail trim.  A growth
    /// event only ever follows a movement tick, which recorded that cell.
    pub fn snake_growth(&mut self, grew: bool)
        requires
            old(self).wf(),
            grew ==> old(self).last_tail is Some,
        ensures
            final(self).wf(),
            !grew ==> same_state(*final(self), *old(self)),
            grew ==> ({
                &&& final(self).body@ == old(self).body@.push(old(self).last_tail->0)
                &&& final(self).direction == old(self).direction
                &&& final(self).food == old(self).food
                &&& final(self).score == old(self).score
                &&& final(self).last_tail == old(self).last_tail
                &&& final(self).config == old(self).config
            }),
    {
        if grew {
            if let Some(t) = self.last_tail {
                self.body.push(t);
            }
        }
    }

    /// The cell a pair of random draws places the fresh head on.
    pub open spec fn spawned_position(cfg: ArenaConfig, rx: u64, ry: u64) -> Position {
        Position {
            x: (cfg.border + rx as int % cfg.playable_width()) as u32,
            y: (cfg.border + ry as int % cfg.playable_height()) as u32,
        }
    }

    /// The direction a random draw picks.
    pub open spec fn spawned_direction(rd: u64) -> Direction {
        if rd as int % 4 == 0 {
            Direction::Left
        } else if rd as int % 4 == 1 {
            Direction::Up
        } else if rd as int % 4 == 2 {
            Direction::Right
        } else {
            Direction::Down
        }
    }

    /// Replace the snake by a fresh one-segment snake placed and directed
    /// by the given draws; food and score are left as they are.
    pub fn spawn_snake_with(&mut self, rx: u64, ry: u64, rd: u64)
        requires
            old(self).wf(),
        ensures
            final(self).wf(),
            final(self).body@ == seq![
                GameState::spawned_position(old(self).config, rx, ry),
            ],
            final(self).direction == GameState::spawned_direction(rd),
            final(self).last_tail is None,
            final(self).food == old(self).food,
            final(self).score == old(self).score,
            final(self).config == old(self).config,
    {
        let pw = self.config.width - 2 * self.config.border;
        let ph = self.config.height - 2 * self.config.border;
        let x = self.config.border + (rx % pw as u64) as u32;
        let y = self.config.border + (ry % ph as u64) as u32;
        let direction = match rd % 4 {
            0 => Direction::Left,
            1 => Direction::Up,
            2 => Direction::Right,
            _ => Direction::Down,
        };
        let head = Position { x, y };
        let mut body: Vec<Position> = Vec::new();
        body.push(head);
        proof {
            assert(head == GameState::spawned_position(self.config, rx, ry));
            assert(body@ =~= seq![GameState::spawned_position(self.config, rx, ry)]);
        }
        self.body = body;
        self.direction = direction;
        self.last_tail = None;
    }

    /// Replace the snake by a fresh one-segment snake at a random playable
    /// cell with a random direction, as happens on startup and after game
    /// over.  The draws are random, so the contract states only what
    /// holds of every outcome.
    pub fn spawn_snake(&mut self)
        requires
            old(self).wf(),
        ensures
            final(self).wf(),
            final(self).body@.len() == 1,
            final(self).config.in_playable(final(self).head0()),
            final(self).last_tail is None,
            final(self).food == old(self).food,
            final(self).score == old(self).score,
            final(self).config == old(self).config,
    {
        let rx = random_u64();
        let ry = random_u64();
        let rd = random_u64();
        self.spawn_snake_with(rx, ry, rd);
    }

    /// One game-over phase: on a game-over event, destroy the food and
    /// every segment of the old snake, reset the score, and respawn a
    /// fresh one-segment snake — a full restart, never a pause.
    pub fn game_over(&mut self, fired: bool)
        requires
            old(self).wf(),
        ensures
            final(self).wf(),
            final(self).config == old(self).config,
            !fired ==> same_state(*final(self), *old(self)),
            fired ==> ({
                &&& final(self).food is None
                &&& final(self).score == 0
                &&& final(self).body@.len() == 1
                &&& final(self).config.in_playable(final(self).head0())
                &&& final(self).last_tail is None
            }),
    {
        if fired {
            self.food = None;
            self.score = 0;
            self.spawn_snake();
        }
    }

    /// A deterministic starting state: a one-segment snake at the centre
    /// of the arena heading up, no food, score zero.
    pub fn new(config: ArenaConfig) -> (s: GameState)
        requires
            config.valid(),
        ensures
            s.wf(),
            s.config == config,
            s.body@ == seq![GameState::centre(config)],
            s.direction == Direction::Up,
            s.food is None,
            s.score == 0,
            s.last_tail is None,
    {
        let head = Position { x: config.width / 2, y: config.height / 2 };
        let mut body: Vec<Position> = Vec::new();
        body.push(head);
        proof {
            assert(body@ =~= seq![GameState::centre(config)]);
        }
        GameState {
            config,
            body,
            direction: Direction::Up,
            food: None,
            score: 0,
            last_tail: None,
        }
    }

    /// The centre cell of the arena.
    pub open spec fn centre(config: ArenaConfig) -> Position {
        Position { x: (config.width / 2) as u32, y: (config.height / 2) as u32 }
    }

    /// One full movement tick in the game's phase order: movement, then
    /// eating, then growth; a blocked move raises game over and
    /// restarts instead.  At most one game-over and at most one growth
    /// event can come out of one tick, and a growth event grows the body
    /// by exactly one segment, attached at the cell the tail vacated —
    /// the moved body with its old tail restored.
    pub fn tick(&mut self) -> (ev: TickEvents)
        requires
            old(self).wf(),
            old(self).score < u32::MAX,
        ensures
            final(self).wf(),
            final(self).config == old(self).config,
            ev.game_over == old(self).move_blocked(),
            ev.game_over ==> ({
                &&& !ev.growth
                &&& final(self).body@.len() == 1
                &&& final(self).config.in_playable(final(self).head0())
                &&& final(self).score == 0
                &&& final(self).food is None
                &&& final(self).last_tail is None
            }),
            !ev.game_over ==> ({
                let moved = stepped(old(self).head0(), old(self).direction);
                &&& ev.growth == (old(self).food == Some(moved))
                &&& final(self).head0() == moved
                &&& final(self).direction == old(self).direction
                &&& final(self).last_tail == Some(old(self).tail0())
                &&& (ev.growth ==> ({
                    &&& final(self).body@ == seq![moved] + old(self).body@
                    &&& final(self).body@.len() == old(self).body@.len() + 1
                    &&& final(self).food is None
                    &&& final(self).score == old(self).score + 1
                }))
                &&& (!ev.growth ==> ({
                    &&& final(self).body@ == old(self).shifted_body()
                    &&& final(self).body@.len() == old(self).body@.len()
                    &&& final(self).food == old(self).food
                    &&& final(self).score == old(self).score
                }))
            }),
    {
        let ghost pre = *self;
        let went_over = self.snake_movement();
        if went_over {
            self.game_over(true);
            TickEvents { game_over: true, growth: false }
        } else {
            let grew = self.snake_eating();
            self.snake_growth(grew);
            proof {
                if grew {
                    let moved = stepped(pre.head0(), pre.direction);
                    assert(self.body@ =~= seq![moved] + pre.body@) by {
                        assert(self.body@ == pre.shifted_body().push(pre.tail0()));
                    }
                }
            }
            TickEvents { game_over: false, growth: grew }
        }
    }
}

/// The head cell of any well-formed state lies in the playable region:
/// `0 <= x < width` and `0 <= y < height`, tightened by the border inset.
/// Movement refuses to commit a coordinate outside it, so no state the
/// library hands out ever violates this.
pub proof fn lemma_head_in_playable(s: GameState)
    requires
        s.wf(),
    ensures
        s.config.in_playable(s.head0()),
        0 <= s.head0().x < s.config.width,
        0 <= s.head0().y < s.config.height,
{
    assert(s.config.in_playable(s.body@[0]));
}

/// At most one food cell ever exists — the state holds an `Option` — and
/// whenever one does, it lies in the playable region, and so within
/// `[0, width) × [0, height)`.
pub proof fn lemma_food_in_playable(s: GameState)
    requires
        s.wf(),
    ensures
        s.food matches Some(f) ==> {
            &&& s.config.in_playable(f)
            &&& 0 <= f.x < s.config.width
            &&& 0 <= f.y < s.config.height
        },
{
}

} // verus!
