//! The food-spawn phase: where no food exists, place one on a free
//! playable cell chosen by a random draw.
//!
//! The free cells are enumerated in row-major order and the draw picks
//! one of them, so every free cell is reachable and an occupied cell
//! never is.

use vstd::arithmetic::div_mod::lemma_multiply_divide_lt;
use vstd::prelude::*;

use crate::game::{same_state, GameState};
use crate::grid::{ArenaConfig, Position};
use crate::rng::random_u64;

verus! {

/// Number of playable cells of the arena.
pub open spec fn playable_area(cfg: ArenaConfig) -> int {
    cfg.playable_width() * cfg.playable_height()
}

/// The playable cell with row-major index `i`.
pub open spec fn playable_cell(cfg: ArenaConfig, i: int) -> Position {
    Position {
        x: (cfg.border + i % cfg.playable_width()) as u32,
        y: (cfg.border + i / cfg.playable_width()) as u32,
    }
}

/// A playable cell indexed within the playable area lies in the playable
/// region.
proof fn lemma_playable_cell_in_playable(cfg: ArenaConfig, i: int)
    requires
        cfg.valid(),
        0 <= i < playable_area(cfg),
    ensures
        cfg.in_playable(playable_cell(cfg, i)),
{
    let pw = cfg.playable_width();
    let ph = cfg.playable_height();
    lemma_multiply_divide_lt(i, pw, ph);
    assert(0 <= i % pw < pw);
    assert(0 <= i / pw < ph);
}

impl GameState {
    /// The free cells among the first `n` playable cells, in row-major
    /// order: those no segment of the snake stands on.
    pub open spec fn free_cells_up_to(self, n: int) -> Seq<Position>
        decreases n,
    {
        if n <= 0 {
            Seq::empty()
        } else {
            let rest = self.free_cells_up_to(n - 1);
            let c = playable_cell(self.config, n - 1);
            if self.body@.contains(c) {
                rest
            } else {
                rest.push(c)
            }
        }
    }

    /// Every playable cell no segment of the snake stands on, in
    /// row-major order.
    pub open spec fn free_cells(self) -> Seq<Position> {
        self.free_cells_up_to(playable_area(self.config))
    }

    /// Every enumerated free cell lies in the playable region and off the
    /// snake.
    proof fn lemma_free_cells_free(self, n: int)
        requires
            self.wf(),
            0 <= n <= playable_area(self.config),
        ensures
            forall|k: int|
                0 <= k < self.free_cells_up_to(n).len() ==> {
                    &&& self.config.in_playable(#[trigger] self.free_cells_up_to(n)[k])
                    &&& !self.body@.contains(self.free_cells_up_to(n)[k])
                },
        decreases n,
    {
        if n > 0 {
            self.lemma_free_cells_free(n - 1);
            let c = playable_cell(self.config, n - 1);
            lemma_playable_cell_in_playable(self.config, n - 1);
            if !self.body@.contains(c) {
                assert(self.free_cells_up_to(n) == self.free_cells_up_to(n - 1).push(c));
            }
        }
    }

    /// Collect the free playable cells, in row-major order.
    fn collect_free_cells(&self) -> (free: Vec<Position>)
        requires
            self.wf(),
        ensures
            free@ == self.free_cells(),
    {
        let pw = self.config.width - 2 * self.config.border;
        let ph = self.config.height - 2 * self.config.border;
        proof {
            assert(pw == self.config.playable_width());
            assert(ph == self.config.playable_height());
            assert(pw as int * ph as int <= u32::MAX as int * u32::MAX as int)
                by (nonlinear_arith)
                requires
                    pw as int <= u32::MAX as int,
                    ph as int <= u32::MAX as int,
                    0 <= pw as int,
                    0 <= ph as int,
            ;
        }
        let area = pw as u64 * ph as u64;
        let mut free: Vec<Position> = Vec::new();
        let mut i: u64 = 0;
        while i < area
            invariant
                self.wf(),
                pw == self.config.playable_width(),
                ph == self.config.playable_height(),
                area == playable_area(self.config),
                i <= area,
                free@ == self.free_cells_up_to(i as int),
            decreases area - i,
        {
            proof {
                lemma_multiply_divide_lt(i as int, pw as int, ph as int);
            }
            let x = self.config.border + (i % pw as u64) as u32;
            let y = self.config.border + (i / pw as u64) as u32;
            let c = Position { x, y };
            proof {
                assert(c == playable_cell(self.config, i as int));
            }
            if !self.body_contains(c) {
                free.push(c);
            }
            i += 1;
        }
        free
    }

    /// One food-spawn phase, with the draw handed in: where no food
    /// exists and a free playable cell remains, create food on the free
    /// cell the draw selects; otherwise leave the state untouched.
    pub fn food_spawner_with(&mut self, r: u64) -> (spawned: bool)
        requires
            old(self).wf(),
        ensures
            final(self).wf(),
            spawned == (old(self).food is None && old(self).free_cells().len() > 0),
            !spawned ==> same_state(*final(self), *old(self)),
            spawned ==> ({
                &&& final(self).food == Some(
                    old(self).free_cells()[r as int % old(self).free_cells().len() as int],
                )
                &&& final(self).body@ == old(self).body@
                &&& final(self).direction == old(self).direction
                &&& final(self).score == old(self).score
                &&& final(self).last_tail == old(self).last_tail
                &&& final(self).config == old(self).config
            }),
    {
        if self.food.is_some() {
            return false;
        }
        let free = self.collect_free_cells();
        if free.len() == 0 {
            return false;
        }
        let k = (r % free.len() as u64) as usize;
        let cell = free[k];
        proof {
            self.lemma_free_cells_free(playable_area(self.config));
            assert(self.config.in_playable(free@[k as int]));
        }
        self.food = Some(cell);
        true
    }

    /// One food-spawn phase, drawing from the thread-local generator: the
    /// spawned cell is random, so the contract states what holds of every
    /// outcome — food appears exactly when none exists and a free
    /// playable cell remains, and lands on a free playable cell.
    pub fn food_spawner(&mut self) -> (spawned: bool)
        requires
            old(self).wf(),
        ensures
            final(self).wf(),
            spawned == (old(self).food is None && old(self).free_cells().len() > 0),
            !spawned ==> same_state(*final(self), *old(self)),
            spawned ==> ({
                &&& final(self).food matches Some(f) && final(self).config.in_playable(f)
                    && !old(self).body@.contains(f)
                &&& final(self).body@ == old(self).body@
                &&& final(self).direction == old(self).direction
                &&& final(self).score == old(self).score
                &&& final(self).last_tail == old(self).last_tail
                &&& final(self).config == old(self).config
            }),
    {
        let r = random_u64();
        let ghost pre = *self;
        let spawned = self.food_spawner_with(r);
        proof {
            if spawned {
                pre.lemma_free_cells_free(playable_area(pre.config));
            }
        }
        spawned
    }
}

} // verus!
