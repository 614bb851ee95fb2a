//! The orchestrating state machine: mode dispatch, the playing tick with its
//! physics gating, scoring, obstacle recycling and death adjudication, and the
//! restart logic. The host performs drawing and the high-score file access;
//! it feeds one tick per frame and, on a death, hands the submission outcome
//! back through [`State::dying`].

use std::collections::VecDeque;

use vstd::prelude::*;

use crate::libs::{blend_colors, spec_blend};
use crate::obs::{gap_size, spec_hit, Obstacle};
use crate::palette::{
    background, background_highlight, bird, spec_background, spec_background_highlight, spec_bird,
    spec_bird_highlight, Cor,
};
use crate::plr::{decay, spec_flap, spec_gravity_and_move, Player};
use crate::sc::ScoreInfo;
use crate::{
    FRAME_DURATION, FRAME_MS_LIMIT, HIGHLIGHT_DURATION, OBSTACLE_GAP, POSITION_OFFSET, QUEUE_LEN,
    SCREEN_HEIGHT, SCREEN_WIDTH, X_LIMIT,
};

verus! {

broadcast use vstd::std_specs::vecdeque::group_vec_dequeue_axioms;

/// The three modes the game cycles through.
#[derive(Clone, Copy, Debug, PartialEq, Eq, Structural)]
pub enum GameMode {
    Menu,
    Playing,
    End,
}

/// The discrete input events the simulation reacts to, one at most per tick.
#[derive(Clone, Copy, Debug, PartialEq, Eq, Structural)]
pub enum Key {
    P,
    Q,
    Space,
}

/// The high-score outcome shown on the end screen: not yet submitted,
/// submitted with a result, or lost to a storage failure.
#[derive(Clone, Copy, Debug, PartialEq, Eq, Structural)]
pub enum HistoryScore {
    Unknown,
    Known(ScoreInfo),
    Unavailable,
}

/// What one tick asks of the host: the colors to draw the scene and the
/// player in, whether the run just ended (so a score submission is due), and
/// whether the player asked to leave the game.
#[derive(Clone, Copy, Debug, PartialEq, Eq, Structural)]
pub struct TickEffects {
    pub background: Cor,
    pub player_color: Cor,
    pub died: bool,
    pub quit: bool,
}

/// The whole game: the player, the accumulated frame time that gates physics
/// steps, the mode, the sliding window of obstacles ahead, the score, the
/// high-score outcome of the last finished run, and the scene highlight
/// countdown that flashes the background on each point scored.
pub struct State {
    pub player: Player,
    pub frame_time: u32,
    pub mode: GameMode,
    pub obstacles: VecDeque<Obstacle>,
    pub score: i32,
    pub history_score: HistoryScore,
    pub highlight_countdown: u32,
}

/// A newly created obstacle at column `x` under score `score`: unpassed, its
/// gap sized by the score, its gap center inside the safe band.
pub open spec fn fresh_obstacle(o: Obstacle, x: int, score: int) -> bool {
    &&& o.x == x
    &&& o.size == gap_size(score)
    &&& !o.passed
    &&& o.wf()
}

/// What `restart` establishes: a fresh player, a zero score, Playing mode,
/// full highlights, and a queue of fresh obstacles spanning one screen width
/// ahead at the fixed spacing, all with the widest gap.
pub open spec fn restarted(pre: State, post: State) -> bool {
    &&& post.player == (Player {
        x: POSITION_OFFSET,
        y: 25,
        velocity: 0,
        time: 0,
        highlight_countdown: HIGHLIGHT_DURATION,
    })
    &&& post.frame_time == 0
    &&& post.mode is Playing
    &&& post.score == 0
    &&& post.highlight_countdown == HIGHLIGHT_DURATION
    &&& post.history_score == pre.history_score
    &&& post.obstacles@.len() == QUEUE_LEN
    &&& forall|i: int|
        0 <= i < post.obstacles@.len() ==> fresh_obstacle(
            #[trigger] post.obstacles@[i],
            SCREEN_WIDTH + i * OBSTACLE_GAP,
            0,
        )
}

/// What a Menu or End tick does: a restart on `P`, a quit signal on `Q`,
/// nothing otherwise, against the plain background.
pub open spec fn idle_rel(pre: State, key: Option<Key>, post: State, eff: TickEffects) -> bool {
    &&& if key == Some(Key::P) {
        restarted(pre, post)
    } else {
        post == pre
    }
    &&& eff.quit == (key == Some(Key::Q))
    &&& !eff.died
    &&& eff.background == spec_background()
    &&& eff.player_color == spec_bird()
}

/// What one Playing tick does, stage by stage: the scene highlight decays and
/// gives the background color; a physics step runs once the accumulated frame
/// time passes the threshold; at most one input is consumed (a flap, or a
/// voluntary quit that ends the run); the player's flap highlight decays and
/// gives the player color; the front obstacle scores once when the player
/// reaches its column, re-arming the scene highlight; a fully passed front
/// obstacle is recycled to the back with the current score's gap; and the run
/// ends on a fall past the bottom of the screen or on a collision with the
/// front obstacle.
pub open spec fn play_rel(
    pre: State,
    ft: u32,
    key: Option<Key>,
    post: State,
    eff: TickEffects,
) -> bool {
    let bg_cd = decay(pre.highlight_countdown, ft);
    let advanced = pre.frame_time + ft > FRAME_DURATION;
    let p1 = if advanced {
        spec_gravity_and_move(pre.player)
    } else {
        pre.player
    };
    let p2 = if key == Some(Key::Space) {
        spec_flap(p1)
    } else {
        p1
    };
    let p3 = Player { highlight_countdown: decay(p2.highlight_countdown, ft), ..p2 };
    let q = pre.obstacles@;
    let pass = p3.x == q[0].x && !q[0].passed;
    let q1 = if pass {
        q.update(0, Obstacle { passed: true, ..q[0] })
    } else {
        q
    };
    let score1 = if pass {
        pre.score + 1
    } else {
        pre.score as int
    };
    let recycle = p3.x > q1[0].x + POSITION_OFFSET && q1[0].passed;
    let died = key == Some(Key::Q) || p3.y > SCREEN_HEIGHT || spec_hit(post.obstacles@[0], p3);
    &&& post.player == p3
    &&& post.frame_time == (if advanced {
        0int
    } else {
        pre.frame_time + ft
    })
    &&& post.score == score1
    &&& post.highlight_countdown == (if pass {
        HIGHLIGHT_DURATION as int
    } else {
        bg_cd as int
    })
    &&& post.history_score == pre.history_score
    &&& post.mode == (if died {
        GameMode::End
    } else {
        GameMode::Playing
    })
    &&& post.obstacles@.len() == q.len()
    &&& if recycle {
        (forall|i: int| 0 <= i < q1.len() - 1 ==> #[trigger] post.obstacles@[i] == q1[i + 1])
            && fresh_obstacle(post.obstacles@.last(), q1.last().x + OBSTACLE_GAP, score1)
    } else {
        post.obstacles@ == q1
    }
    &&& eff.background == spec_blend(
        spec_background(),
        spec_background_highlight(),
        bg_cd as int,
        HIGHLIGHT_DURATION as int,
    )
    &&& eff.player_color == spec_blend(
        spec_bird(),
        spec_bird_highlight(),
        p3.highlight_countdown as int,
        HIGHLIGHT_DURATION as int,
    )
    &&& eff.died == died
    &&& !eff.quit
}

/// Law: a playing tick never changes the obstacle queue's length — a recycle
/// removes the front obstacle and appends exactly one — so together with
/// `restarted` the queue stays at `QUEUE_LEN` across any number of recycle
/// events after a restart.
pub proof fn lemma_queue_len_invariant(
    pre: State,
    ft: u32,
    key: Option<Key>,
    post: State,
    eff: TickEffects,
)
    requires
        play_rel(pre, ft, key, post, eff),
    ensures
        post.obstacles@.len() == pre.obstacles@.len(),
{
}

/// Law: across a playing tick the score never falls, rises by at most one,
/// and rises exactly when the front obstacle is passed for the first time,
/// which happens only with the player at that obstacle's column.
pub proof fn lemma_score_step(pre: State, ft: u32, key: Option<Key>, post: State, eff: TickEffects)
    requires
        pre.wf(),
        pre.mode is Playing,
        play_rel(pre, ft, key, post, eff),
    ensures
        post.score >= pre.score,
        post.score <= pre.score + 1,
        post.score == pre.score + 1 <==> (!pre.obstacles@[0].passed && post.player.x
            == pre.obstacles@[0].x),
{
}

/// Law: matching obstacles across a playing tick by their column (columns are
/// unique within the queue and a recycled-in obstacle gets a column past all
/// existing ones), a passed flag never reverts to false, and a flag that
/// turns true does so only with the player standing at that obstacle's exact
/// column.
pub proof fn lemma_passed_transition(
    pre: State,
    ft: u32,
    key: Option<Key>,
    post: State,
    eff: TickEffects,
    i: int,
    j: int,
)
    requires
        pre.wf(),
        pre.mode is Playing,
        play_rel(pre, ft, key, post, eff),
        0 <= i < pre.obstacles@.len(),
        0 <= j < post.obstacles@.len(),
        post.obstacles@[j].x == pre.obstacles@[i].x,
    ensures
        pre.obstacles@[i].passed ==> post.obstacles@[j].passed,
        (!pre.obstacles@[i].passed && post.obstacles@[j].passed) ==> post.player.x
            == pre.obstacles@[i].x,
{
    let q = pre.obstacles@;
    assert(q[0int + 1].x == q[0int].x + OBSTACLE_GAP);
    assert(q[1int + 1].x == q[1int].x + OBSTACLE_GAP);
    let advanced = pre.frame_time + ft > FRAME_DURATION;
    let p1 = if advanced {
        spec_gravity_and_move(pre.player)
    } else {
        pre.player
    };
    let p2 = if key == Some(Key::Space) {
        spec_flap(p1)
    } else {
        p1
    };
    let p3 = Player { highlight_countdown: decay(p2.highlight_countdown, ft), ..p2 };
    let pass = p3.x == q[0].x && !q[0].passed;
    let q1 = if pass {
        q.update(0, Obstacle { passed: true, ..q[0] })
    } else {
        q
    };
    let recycle = p3.x > q1[0].x + POSITION_OFFSET && q1[0].passed;
    if recycle {
        assert(post.obstacles@[2] == post.obstacles@.last());
        assert(post.obstacles@[2].x == q[2].x + OBSTACLE_GAP);
        if j < 2 {
            assert(post.obstacles@[j] == q1[j + 1]);
            assert(i == j + 1);
        } else {
            assert(post.obstacles@[j].x > q[i].x);
            assert(false);
        }
    } else {
        assert(post.obstacles@ == q1);
        assert(i == j);
    }
}

impl State {
    /// The queue's shape: full length, strictly increasing columns at the
    /// fixed spacing, sound obstacles, and no passed obstacle behind the
    /// front.
    pub open spec fn obstacles_ok(self) -> bool {
        let q = self.obstacles@;
        &&& q.len() == QUEUE_LEN
        &&& forall|i: int| 0 <= i < q.len() ==> (#[trigger] q[i]).wf()
        &&& forall|i: int| 0 <= i < q.len() - 1 ==> #[trigger] q[i + 1].x == q[i].x + OBSTACLE_GAP
        &&& forall|i: int| 1 <= i < q.len() ==> !(#[trigger] q[i]).passed
    }

    /// The invariant of a running game: a sound queue, the player between the
    /// front obstacle and the point where it is recycled (and past it only
    /// once it is passed), the front obstacle within a screen's reach, the
    /// fall clock and velocity bounded by the distance travelled, and the
    /// score bounded by the columns passed.
    pub open spec fn playing_inv(self) -> bool {
        let q = self.obstacles@;
        &&& self.obstacles_ok()
        &&& POSITION_OFFSET <= self.player.x <= X_LIMIT
        &&& self.player.x <= q[0].x + POSITION_OFFSET
        &&& (self.player.x >= q[0].x ==> q[0].passed)
        &&& q[0].x <= self.player.x + 75
        &&& self.player.time <= self.player.x
        &&& self.player.velocity <= 2 * self.player.x
        &&& 30 * self.score + 80 <= q[0].x + (if q[0].passed {
            30int
        } else {
            0int
        })
    }

    /// Well-formedness of the whole game state.
    pub open spec fn wf(self) -> bool {
        &&& self.player.wf()
        &&& 0 <= self.score
        &&& self.highlight_countdown <= HIGHLIGHT_DURATION
        &&& self.frame_time <= FRAME_DURATION
        &&& (self.mode is Playing ==> self.playing_inv())
    }

    /// The initial state: the menu, a fresh player, no obstacles yet, no
    /// score, and no high-score outcome recorded.
    pub fn new() -> (s: State)
        ensures
            s.wf(),
            s.mode is Menu,
            s.score == 0,
            s.frame_time == 0,
            s.highlight_countdown == HIGHLIGHT_DURATION,
            s.history_score is Unknown,
            s.obstacles@.len() == 0,
            s.player == (Player {
                x: POSITION_OFFSET,
                y: 25,
                velocity: 0,
                time: 0,
                highlight_countdown: HIGHLIGHT_DURATION,
            }),
    {
        State {
            player: Player::new(POSITION_OFFSET, 25),
            frame_time: 0,
            mode: GameMode::Menu,
            obstacles: VecDeque::new(),
            score: 0,
            history_score: HistoryScore::Unknown,
            highlight_countdown: HIGHLIGHT_DURATION,
        }
    }

    /// Begin a run: reset the player, the score, the frame accumulator and
    /// the highlight, enter Playing mode, and rebuild the obstacle queue as
    /// fresh widest-gap obstacles one screen width ahead at the fixed
    /// spacing.
    pub fn restart(&mut self)
        ensures
            restarted(*old(self), *final(self)),
            final(self).wf(),
    {
        self.player = Player::new(POSITION_OFFSET, 25);
        self.frame_time = 0;
        self.mode = GameMode::Playing;
        let mut obstacles: VecDeque<Obstacle> = VecDeque::new();
        let mut i: i32 = 0;
        while i < QUEUE_LEN
            invariant
                0 <= i <= QUEUE_LEN,
                obstacles@.len() == i,
                forall|j: int|
                    0 <= j < i ==> fresh_obstacle(
                        #[trigger] obstacles@[j],
                        SCREEN_WIDTH + j * OBSTACLE_GAP,
                        0,
                    ),
            decreases QUEUE_LEN - i,
        {
            obstacles.push_back(Obstacle::new(SCREEN_WIDTH + i * OBSTACLE_GAP, 0));
            i = i + 1;
        }
        self.obstacles = obstacles;
        self.score = 0;
        self.highlight_countdown = HIGHLIGHT_DURATION;
    }

    /// End the run with the outcome of the high-score submission the host
    /// performed: record it for the end screen and enter End mode.
    pub fn dying(&mut self, outcome: HistoryScore)
        ensures
            final(self).mode is End,
            final(self).history_score == outcome,
            final(self).player == old(self).player,
            final(self).frame_time == old(self).frame_time,
            final(self).obstacles@ == old(self).obstacles@,
            final(self).score == old(self).score,
            final(self).highlight_countdown == old(self).highlight_countdown,
            old(self).wf() ==> final(self).wf(),
    {
        self.history_score = outcome;
        self.mode = GameMode::End;
    }

    /// The menu tick: start a run on `P`, signal a quit on `Q`.
    pub fn main_menu(&mut self, key: Option<Key>) -> (eff: TickEffects)
        requires
            old(self).wf(),
            old(self).mode is Menu,
        ensures
            final(self).wf(),
            idle_rel(*old(self), key, *final(self), eff),
    {
        let mut quit = false;
        match key {
            Some(Key::P) => self.restart(),
            Some(Key::Q) => {
                quit = true;
            },
            _ => {},
        }
        TickEffects { background: background(), player_color: bird(), died: false, quit }
    }

    /// The end-screen tick: start a new run on `P`, signal a quit on `Q`.
    pub fn dead(&mut self, key: Option<Key>) -> (eff: TickEffects)
        requires
            old(self).wf(),
            old(self).mode is End,
        ensures
            final(self).wf(),
            idle_rel(*old(self), key, *final(self), eff),
    {
        let mut quit = false;
        match key {
            Some(Key::P) => self.restart(),
            Some(Key::Q) => {
                quit = true;
            },
            _ => {},
        }
        TickEffects { background: background(), player_color: bird(), died: false, quit }
    }

    /// The playing tick, stage by stage: scene highlight and
    /// background; physics step once the frame accumulator passes the
    /// threshold; one input event; the player's color; scoring at the front
    /// obstacle's column; recycling of the fully passed front obstacle; and
    /// the death check against the bottom of the screen and the front
    /// obstacle.
    #[verifier::rlimit(100)]
    pub fn play(&mut self, frame_time_ms: u32, key: Option<Key>) -> (eff: TickEffects)
        requires
            old(self).wf(),
            old(self).mode is Playing,
            old(self).player.x < X_LIMIT,
            frame_time_ms <= FRAME_MS_LIMIT,
        ensures
            final(self).wf(),
            play_rel(*old(self), frame_time_ms, key, *final(self), eff),
            final(self).obstacles@.len() == old(self).obstacles@.len(),
    {
        let ghost pre = *old(self);
        let ghost q = pre.obstacles@;
        proof {
            assert(q[0int + 1].x == q[0int].x + OBSTACLE_GAP);
            assert(q[1int + 1].x == q[1int].x + OBSTACLE_GAP);
        }
        if self.highlight_countdown > 0 {
            if frame_time_ms >= self.highlight_countdown {
                self.highlight_countdown = 0;
            } else {
                self.highlight_countdown = self.highlight_countdown - frame_time_ms;
            }
        }
        let background_color = blend_colors(
            background(),
            background_highlight(),
            self.highlight_countdown,
            HIGHLIGHT_DURATION,
        );

        let ghost bg_cd = decay(pre.highlight_countdown, frame_time_ms);
        proof {
            assert(self.highlight_countdown == bg_cd);
        }

        self.frame_time = self.frame_time + frame_time_ms;
        let ghost advanced = pre.frame_time + frame_time_ms > FRAME_DURATION;
        if self.frame_time > FRAME_DURATION {
            self.frame_time = 0;
            self.player.gravity_and_move();
        }
        let ghost p1 = if advanced {
            spec_gravity_and_move(pre.player)
        } else {
            pre.player
        };
        proof {
            assert(self.player == p1);
        }

        match key {
            Some(Key::Space) => self.player.flap(),
            Some(Key::Q) => {
                self.mode = GameMode::End;
            },
            _ => {},
        }
        let ghost p2 = if key == Some(Key::Space) {
            spec_flap(p1)
        } else {
            p1
        };
        proof {
            assert(self.player == p2);
        }

        let player_color = self.player.render_color(frame_time_ms);
        let ghost p3 = Player { highlight_countdown: decay(p2.highlight_countdown, frame_time_ms), ..p2 };
        proof {
            assert(self.player == p3);
            assert(p3.x <= p1.x <= pre.player.x + 1);
            assert(p3.x >= pre.player.x);
        }

        let first: Obstacle = self.obstacles[0];
        let ghost pass = p3.x == q[0].x && !q[0].passed;
        if self.player.x == first.x && !first.passed {
            self.score = self.score + 1;
            self.highlight_countdown = HIGHLIGHT_DURATION;
            match self.obstacles.pop_front() {
                Some(mut front) => {
                    front.passed = true;
                    self.obstacles.push_front(front);
                },
                None => {},
            }
        }
        let ghost q1 = if pass {
            q.update(0, Obstacle { passed: true, ..q[0] })
        } else {
            q
        };
        let ghost score1 = if pass {
            pre.score + 1
        } else {
            pre.score as int
        };
        proof {
            assert(self.obstacles@ =~= q1);
            assert(self.score == score1);
            assert(q1[1] == q[1] && q1[2] == q[2]);
            assert(q1[0].x == q[0].x && q1[0].wf());
        }

        let front_now: Obstacle = self.obstacles[0];
        let ghost recycle = p3.x > q1[0].x + POSITION_OFFSET && q1[0].passed;
        if self.player.x > front_now.x + POSITION_OFFSET && front_now.passed {
            let popped = self.obstacles.pop_front();
            proof {
                assert(popped == Some(q1[0]));
                assert(self.obstacles@ =~= q1.subrange(1, 3));
                assert(self.obstacles@[1] == q1[2]);
            }
            let last: Obstacle = self.obstacles[self.obstacles.len() - 1];
            proof {
                assert(last == q1[2]);
                assert(last.x == q[0].x + 2 * OBSTACLE_GAP);
            }
            self.obstacles.push_back(Obstacle::new(last.x + OBSTACLE_GAP, self.score));
            proof {
                assert(forall|i: int|
                    0 <= i < q1.len() - 1 ==> #[trigger] self.obstacles@[i] == q1[i + 1]);
                assert(self.obstacles@.last() == self.obstacles@[2]);
            }
        }
        proof {
            assert(self.obstacles@.len() == 3);
            assert(self.obstacles@[0].wf() && self.obstacles@[1].wf() && self.obstacles@[2].wf());
        }

        let front_final: Obstacle = self.obstacles[0];
        if self.player.y > SCREEN_HEIGHT || front_final.hit_obstacle(&self.player) {
            self.mode = GameMode::End;
        }

        let died = match self.mode {
            GameMode::End => true,
            _ => false,
        };
        proof {
            let post = *self;
            assert(died == (key == Some(Key::Q) || p3.y > SCREEN_HEIGHT || spec_hit(
                post.obstacles@[0],
                p3,
            )));
            if post.mode is Playing {
                assert(!recycle ==> post.obstacles@ == q1);
                assert(post.playing_inv());
            }
        }
        TickEffects { background: background_color, player_color, died, quit: false }
    }

    /// One frame of the game: dispatch on the mode.
    pub fn tick(&mut self, frame_time_ms: u32, key: Option<Key>) -> (eff: TickEffects)
        requires
            old(self).wf(),
            frame_time_ms <= FRAME_MS_LIMIT,
            old(self).mode is Playing ==> old(self).player.x < X_LIMIT,
        ensures
            final(self).wf(),
            old(self).mode is Menu ==> idle_rel(*old(self), key, *final(self), eff),
            old(self).mode is End ==> idle_rel(*old(self), key, *final(self), eff),
            old(self).mode is Playing ==> play_rel(
                *old(self),
                frame_time_ms,
                key,
                *final(self),
                eff,
            ),
    {
        match self.mode {
            GameMode::Menu => self.main_menu(key),
            GameMode::Playing => self.play(frame_time_ms, key),
            GameMode::End => self.dead(key),
        }
    }
}

} // verus!
