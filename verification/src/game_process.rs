use vstd::prelude::*;

use crate::bot;
use crate::bot::{Bot, Field, Turn};
use crate::error::{CoreError, GameProcessError};
use crate::error_utils::ResultExt;
use crate::hooks::Hooks;
use crate::win;

verus! {

/// The phase a running game is in.
#[derive(Clone, Copy, Debug)]
pub enum GameState {
    Initial,
    TurnWaiting,
    BotThinking,
    TurnMaking,
    Finished(GameResult),
}

/// How a finished game ended for the local side.
#[derive(Clone, Copy, Debug)]
pub enum GameResult {
    Win,
    Defeat,
    Draw,
}

/// The fixed parameters of one game: field size, the run length that
/// wins, and the side played locally.
pub struct PlayInfo {
    pub field_size: crate::bot::Size,
    pub win_condition: usize,
    pub side: crate::bot::Side,
}

impl PlayInfo {
    /// A playable configuration: valid field dimensions and a positive
    /// win run no longer than the longer field side.
    pub open spec fn valid(self) -> bool {
        &&& self.field_size.valid()
        &&& 1 <= self.win_condition
        &&& self.win_condition <= self.field_size.width || self.win_condition
            <= self.field_size.height
    }

    /// The number of cells of the configured field.
    pub open spec fn area(self) -> int {
        self.field_size.width * self.field_size.height
    }
}

/// How far a phase is from the placement that ends its cycle: the
/// waiting, thinking, and committing phases step down in that order.
pub open spec fn phase_rank(s: GameState) -> int {
    match s {
        GameState::Initial => 0,
        GameState::TurnWaiting => 3,
        GameState::BotThinking => 2,
        GameState::TurnMaking => 1,
        GameState::Finished(_) => 0,
    }
}

/// One game against a remote opponent: the state machine that owns the
/// field, the move history, and the configuration, and that consults
/// its two collaborators, a `Bot` to decide moves and `Hooks` to talk
/// to the opponent.
pub struct GameProcess<B: Bot, H: Hooks> {
    pub bot: B,
    pub hooks: H,
    pub state: GameState,
    pub field: Option<Field>,
    pub play_info: Option<PlayInfo>,
    pub history: Vec<Turn>,
    pub bot_prediction: Option<Turn>,
}

impl<B: Bot, H: Hooks> GameProcess<B, H> {
    /// Once a game is configured: the configuration is valid, the field
    /// matches it, and the history counts exactly the occupied cells.
    pub open spec fn config_ok(self) -> bool {
        &&& self.play_info matches Some(info)
        &&& info.valid()
        &&& self.field matches Some(f)
        &&& f.wf()
        &&& f.size == info.field_size
        &&& self.history@.len() == f.occupied_count()
    }

    /// The field still has room for a move.
    pub open spec fn not_full(self) -> bool {
        self.play_info matches Some(info) && self.history@.len() < info.area()
    }

    /// The invariant that holds in phase `s`.
    pub open spec fn wf_at(self, s: GameState) -> bool {
        match s {
            GameState::Initial => {
                &&& self.field is None
                &&& self.play_info is None
                &&& self.history@.len() == 0
            },
            GameState::TurnWaiting => self.config_ok() && self.not_full(),
            GameState::BotThinking => self.config_ok() && self.not_full(),
            GameState::TurnMaking => {
                &&& self.config_ok()
                &&& self.not_full()
                &&& self.bot_prediction matches Some(p)
                &&& p.side == self.play_info.unwrap().side
            },
            GameState::Finished(_) => self.config_ok(),
        }
    }

    /// The invariant of the game process.
    pub open spec fn wf(self) -> bool {
        self.wf_at(self.state)
    }

    /// How many moves the configured field still has room for.
    pub open spec fn free_cells(self) -> int {
        match self.play_info {
            Some(info) => if self.history@.len() <= info.area() {
                info.area() - self.history@.len()
            } else {
                0
            },
            None => 0,
        }
    }

    /// The transition table: which phase may follow which.
    pub open spec fn successor(pre: GameState, post: GameState) -> bool {
        match pre {
            GameState::Initial => post is TurnWaiting,
            GameState::TurnWaiting => {
                ||| post is BotThinking
                ||| post == GameState::Finished(GameResult::Defeat)
                ||| post == GameState::Finished(GameResult::Draw)
            },
            GameState::BotThinking => post is TurnMaking,
            GameState::TurnMaking => {
                ||| post is TurnWaiting
                ||| post == GameState::Finished(GameResult::Win)
                ||| post == GameState::Finished(GameResult::Draw)
            },
            GameState::Finished(_) => post == pre,
        }
    }

    /// One accepted move `t`, placed by a step from `pre` to `post`:
    /// the placement succeeded, `t` was appended to the history, and
    /// the step chose `s` from win, draw, or `otherwise`, in that order.
    pub open spec fn applied(
        pre: Self,
        post: Self,
        t: Turn,
        on_win: GameResult,
        otherwise: GameState,
        s: GameState,
    ) -> bool {
        &&& pre.field matches Some(f0)
        &&& post.field matches Some(f1)
        &&& pre.play_info matches Some(info)
        &&& f0.place_outcome(t) is Ok
        &&& f0.placed(f1, t)
        &&& post.history@ == pre.history@.push(t)
        &&& s == if win::has_winning_line(f1, t.side, info.win_condition as int) {
            GameState::Finished(on_win)
        } else if post.history@.len() >= info.area() {
            GameState::Finished(GameResult::Draw)
        } else {
            otherwise
        }
    }

    /// A fresh, not yet configured game driven by `bot` and `hooks`.
    pub fn new(bot: B, hooks: H) -> (r: Self)
        ensures
            r.wf(),
            r.state is Initial,
            r.bot == bot,
            r.hooks == hooks,
            r.field is None,
            r.play_info is None,
            r.history@.len() == 0,
            r.bot_prediction is None,
    {
        GameProcess {
            bot,
            hooks,
            state: GameState::Initial,
            field: None,
            play_info: None,
            history: Vec::new(),
            bot_prediction: None,
        }
    }

    /// Drives the game to its end: steps until a `Finished` phase is
    /// reached and returns its result, or the first collaborator or
    /// board error encountered.
    pub fn run(&mut self) -> (r: Result<GameResult, GameProcessError>)
        requires
            old(self).wf(),
        ensures
            final(self).wf(),
            r matches Ok(result) ==> final(self).state == GameState::Finished(result),
            r is Err ==> final(self).state !is Finished,
            old(self).state matches GameState::Finished(result) ==> r == Ok::<
                GameResult,
                GameProcessError,
            >(result) && *final(self) == *old(self),
    {
        loop
            invariant
                self.wf(),
                old(self).state is Finished ==> *self == *old(self),
            decreases
                    (if self.state is Initial {
                        1int
                    } else {
                        0int
                    }),
                    self.free_cells(),
                    phase_rank(self.state),
        {
            match self.state {
                GameState::Finished(result) => {
                    return Ok(result);
                },
                _ => {
                    match self.run_step() {
                        Ok(_) => {},
                        Err(e) => {
                            return Err(e);
                        },
                    }
                },
            }
        }
    }

    /// One transition of the state machine: performs the action of the
    /// current phase and moves to the returned phase. On an error the
    /// phase, the field and the history are left as they were, and the
    /// error carries the tag of the collaborator that failed in that
    /// phase; the history grows by exactly one move per step that
    /// places one, and never otherwise.
    pub fn run_step(&mut self) -> (r: Result<GameState, GameProcessError>)
        requires
            old(self).wf(),
        ensures
            final(self).wf(),
            r matches Ok(s) ==> final(self).state == s && Self::successor(old(self).state, s),
            r matches Ok(s) ==> final(self).history@ == old(self).history@ || (exists|t: Turn|
                final(self).history@ == old(self).history@.push(t)),
            r matches Ok(s) ==> (old(self).state is TurnMaking ==> final(self).history@.len()
                == old(self).history@.len() + 1),
            old(self).state !is Initial ==> final(self).play_info == old(self).play_info,
            old(self).state is Finished ==> r is Ok && *final(self) == *old(self),
            r matches Ok(s) ==> (old(self).state is Initial ==> s is TurnWaiting && final(self).field is Some && (forall|x: int, y: int|
                final(self).field.unwrap().in_bounds(x, y) ==> final(self).field.unwrap().cell(
                    x,
                    y,
                ) is Empty) && final(self).history == old(self).history),
            r matches Ok(s) ==> (old(self).state is TurnWaiting ==> (s is BotThinking && final(self).field == old(self).field && final(self).history == old(self).history) || (
            exists|t: Turn|
                Self::applied(
                    *old(self),
                    *final(self),
                    t,
                    GameResult::Defeat,
                    GameState::BotThinking,
                    s,
                ))),
            r matches Ok(s) ==> (old(self).state is BotThinking ==> s is TurnMaking && final(self).field == old(self).field && final(self).history == old(self).history && final(self).bot_prediction is Some && final(self).bot_prediction.unwrap().side == old(self).play_info.unwrap().side),
            r matches Ok(s) ==> (old(self).state is TurnMaking ==> Self::applied(
                *old(self),
                *final(self),
                old(self).bot_prediction.unwrap(),
                GameResult::Win,
                GameState::TurnWaiting,
                s,
            )),
            r matches Err(e) ==> match old(self).state {
                GameState::Initial => e is Hook,
                GameState::TurnWaiting => e is Hook || e is Core,
                GameState::BotThinking => e is Bot,
                GameState::TurnMaking => e is Hook || e is Core,
                GameState::Finished(_) => false,
            },
            r matches Err(e) ==> (old(self).state is TurnMaking ==> (e matches
                GameProcessError::Core(ce) ==> old(self).field.unwrap().place_outcome(
                old(self).bot_prediction.unwrap(),
            ) == Err::<(), CoreError>(ce))),
            r matches Err(e) ==> (old(self).state is TurnWaiting ==> (e matches
                GameProcessError::Core(ce) ==> exists|t: Turn|
                old(self).field.unwrap().place_outcome(t) == Err::<(), CoreError>(ce))),
            r is Err ==> final(self).state == old(self).state && final(self).field == old(self).field && final(self).history == old(self).history,
    {
        let next = match self.state {
            GameState::Initial => self.run_initial_state(),
            GameState::TurnWaiting => self.run_turn_waiting_state(),
            GameState::BotThinking => self.run_bot_thinking_state(),
            GameState::TurnMaking => self.run_turn_making_state(),
            GameState::Finished(_) => Ok(self.state),
        };
        match next {
            Ok(s) => {
                let ghost mid = *self;
                self.state = s;
                proof {
                    if old(self).state is TurnWaiting {
                        if exists|t: Turn|
                            Self::applied(
                                *old(self),
                                mid,
                                t,
                                GameResult::Defeat,
                                GameState::BotThinking,
                                s,
                            ) {
                            let t = choose|t: Turn|
                                Self::applied(
                                    *old(self),
                                    mid,
                                    t,
                                    GameResult::Defeat,
                                    GameState::BotThinking,
                                    s,
                                );
                            assert(Self::applied(
                                *old(self),
                                *self,
                                t,
                                GameResult::Defeat,
                                GameState::BotThinking,
                                s,
                            ));
                        }
                    }
                }
                Ok(s)
            },
            Err(e) => Err(e),
        }
    }

    /// Stores the configuration of the game about to be played and
    /// builds the empty field it describes. Exactly the given
    /// configuration is kept: callers hand in what their transport
    /// returned.
    pub fn apply_config(&mut self, info: PlayInfo)
        requires
            old(self).wf(),
            old(self).state is Initial,
            info.valid(),
        ensures
            final(self).state == old(self).state,
            final(self).history == old(self).history,
            final(self).bot_prediction == old(self).bot_prediction,
            final(self).play_info == Some(info),
            final(self).field matches Some(f) && f.size == info.field_size && (forall|
                x: int,
                y: int,
            | f.in_bounds(x, y) ==> f.cell(x, y) is Empty),
            final(self).wf_at(GameState::TurnWaiting),
    {
        let field = Field::new(info.field_size);
        proof {
            bot::lemma_fresh_count_zero(field);
            assert(1 <= info.area()) by (nonlinear_arith)
                requires
                    1 <= info.field_size.width,
                    1 <= info.field_size.height,
            ;
        }
        self.field = Some(field);
        self.play_info = Some(info);
    }

    /// Configures the game: asks the hooks for the play configuration
    /// and applies it. What configuration the hooks return cannot be
    /// stated here; `apply_config` pins what is done with it.
    fn run_initial_state(&mut self) -> (r: Result<GameState, GameProcessError>)
        requires
            old(self).wf(),
            old(self).state is Initial,
        ensures
            final(self).state == old(self).state,
            final(self).history == old(self).history,
            final(self).bot_prediction == old(self).bot_prediction,
            r matches Ok(s) ==> s is TurnWaiting && final(self).wf_at(s),
            r matches Ok(s) ==> final(self).field matches Some(f) && (forall|x: int, y: int|
                f.in_bounds(x, y) ==> f.cell(x, y) is Empty),
            r is Err ==> final(self).field == old(self).field && final(self).play_info == old(self).play_info,
            r matches Err(e) ==> e is Hook,
    {
        let play_info = match self.hooks.init().pack_err() {
            Ok(info) => info,
            Err(e) => {
                return Err(e);
            },
        };
        self.apply_config(play_info);
        Ok(GameState::TurnWaiting)
    }

    /// Waits on the opponent: either it has not moved yet and the bot
    /// may think, or its move is placed and the game is lost, drawn,
    /// or goes on. Which answer the transport gives cannot be stated
    /// here; `apply_enemy_turn` pins what is done with a received move.
    fn run_turn_waiting_state(&mut self) -> (r: Result<GameState, GameProcessError>)
        requires
            old(self).wf(),
            old(self).state is TurnWaiting,
        ensures
            final(self).state == old(self).state,
            final(self).play_info == old(self).play_info,
            final(self).bot_prediction == old(self).bot_prediction,
            r matches Ok(s) ==> final(self).wf_at(s),
            r matches Ok(s) ==> (s is BotThinking && final(self).field == old(self).field && final(self).history == old(self).history) || (exists|t: Turn|
                Self::applied(
                    *old(self),
                    *final(self),
                    t,
                    GameResult::Defeat,
                    GameState::BotThinking,
                    s,
                )),
            r is Err ==> final(self).field == old(self).field && final(self).history == old(self).history,
            r matches Err(e) ==> e is Hook || e is Core,
            r matches Err(e) ==> (e matches GameProcessError::Core(ce) ==> exists|t: Turn|
                old(self).field.unwrap().place_outcome(t) == Err::<(), CoreError>(ce)),
    {
        let enemy_turn = match self.hooks.wait_for_turn().pack_err() {
            Ok(t) => t,
            Err(e) => {
                return Err(e);
            },
        };
        match enemy_turn {
            None => Ok(GameState::BotThinking),
            Some(enemy_turn) => {
                let r = self.apply_enemy_turn(enemy_turn);
                proof {
                    assert(r matches Ok(s) ==> Self::applied(
                        *old(self),
                        *self,
                        enemy_turn,
                        GameResult::Defeat,
                        GameState::BotThinking,
                        s,
                    ));
                }
                r
            },
        }
    }

    /// Places the opponent move `t` and decides what follows: the game
    /// is lost on a completed run, drawn on a full field, and otherwise
    /// the bot may think. Succeeds exactly when the placement does;
    /// a rejected placement fails with that `CoreError` and changes
    /// nothing. Callers hand in the very move their transport received.
    pub fn apply_enemy_turn(&mut self, t: Turn) -> (r: Result<GameState, GameProcessError>)
        requires
            old(self).wf(),
            old(self).state is TurnWaiting,
        ensures
            final(self).state == old(self).state,
            final(self).play_info == old(self).play_info,
            final(self).bot_prediction == old(self).bot_prediction,
            r is Ok <==> old(self).field.unwrap().place_outcome(t) is Ok,
            r matches Ok(s) ==> final(self).wf_at(s) && Self::applied(
                *old(self),
                *final(self),
                t,
                GameResult::Defeat,
                GameState::BotThinking,
                s,
            ),
            r is Err ==> *final(self) == *old(self),
            r matches Err(e) ==> e matches GameProcessError::Core(ce) && old(self).field.unwrap().place_outcome(t) == Err::<(), CoreError>(ce),
    {
        let place_result = match &mut self.field {
            Some(f) => f.add_turn(&t),
            None => vstd::pervasive::unreached(),
        };
        match place_result {
            Ok(_) => {},
            Err(e) => {
                return Err(GameProcessError::Core(e));
            },
        }
        proof {
            bot::lemma_place_raises_count(old(self).field.unwrap(), self.field.unwrap(), t);
        }
        self.history.push(t);
        let next_state = if self.check_win(&t) {
            GameState::Finished(GameResult::Defeat)
        } else if self.is_field_full() {
            GameState::Finished(GameResult::Draw)
        } else {
            GameState::BotThinking
        };
        proof {
            assert(Self::applied(
                *old(self),
                *self,
                t,
                GameResult::Defeat,
                GameState::BotThinking,
                next_state,
            ));
        }
        Ok(next_state)
    }

    /// Asks the bot for the local side's next move and remembers it.
    fn run_bot_thinking_state(&mut self) -> (r: Result<GameState, GameProcessError>)
        requires
            old(self).wf(),
            old(self).state is BotThinking,
        ensures
            final(self).state == old(self).state,
            final(self).play_info == old(self).play_info,
            final(self).field == old(self).field,
            final(self).history == old(self).history,
            r matches Ok(s) ==> s is TurnMaking && final(self).wf_at(s),
            r is Err ==> final(self).bot_prediction == old(self).bot_prediction,
            r matches Err(e) ==> e is Bot,
    {
        proof {
            bot::lemma_not_full_has_empty(old(self).field.unwrap());
        }
        let side = self.play_info.as_ref().unwrap().side;
        let best_turn = match self.bot.make_turn(self.field.as_ref().unwrap(), side).pack_err() {
            Ok(t) => t,
            Err(e) => {
                return Err(e);
            },
        };
        self.bot_prediction = Some(best_turn);
        Ok(GameState::TurnMaking)
    }

    /// Commits the bot's move: submits it through the hooks, places it,
    /// and the game is won, drawn, or goes on.
    fn run_turn_making_state(&mut self) -> (r: Result<GameState, GameProcessError>)
        requires
            old(self).wf(),
            old(self).state is TurnMaking,
        ensures
            final(self).state == old(self).state,
            final(self).play_info == old(self).play_info,
            final(self).bot_prediction == old(self).bot_prediction,
            r matches Ok(s) ==> final(self).wf_at(s),
            r matches Ok(s) ==> Self::applied(
                *old(self),
                *final(self),
                old(self).bot_prediction.unwrap(),
                GameResult::Win,
                GameState::TurnWaiting,
                s,
            ),
            r is Err ==> final(self).field == old(self).field && final(self).history == old(self).history,
            r matches Err(e) ==> e is Hook || e is Core,
            r matches Err(e) ==> (e matches GameProcessError::Core(ce) ==> old(self).field.unwrap().place_outcome(old(self).bot_prediction.unwrap()) == Err::<
                (),
                CoreError,
            >(ce)),
    {
        let best_turn = match &self.bot_prediction {
            Some(t) => *t,
            None => vstd::pervasive::unreached(),
        };
        match self.hooks.make_turn(&best_turn.coords).pack_err() {
            Ok(_) => {},
            Err(e) => {
                return Err(e);
            },
        }
        let place_result = match &mut self.field {
            Some(f) => f.add_turn(&best_turn),
            None => vstd::pervasive::unreached(),
        };
        match place_result {
            Ok(_) => {},
            Err(e) => {
                return Err(GameProcessError::Core(e));
            },
        }
        proof {
            bot::lemma_place_raises_count(
                old(self).field.unwrap(),
                self.field.unwrap(),
                best_turn,
            );
        }
        self.history.push(best_turn);
        let next_state = if self.check_win(&best_turn) {
            GameState::Finished(GameResult::Win)
        } else if self.is_field_full() {
            GameState::Finished(GameResult::Draw)
        } else {
            GameState::TurnWaiting
        };
        Ok(next_state)
    }

    /// Whether the side of `turn` has a winning line on the current
    /// field, for the configured win run.
    fn check_win(&self, turn: &Turn) -> (r: bool)
        requires
            self.config_ok(),
        ensures
            r == win::has_winning_line(
                self.field.unwrap(),
                turn.side,
                self.play_info.unwrap().win_condition as int,
            ),
    {
        let info = self.play_info.as_ref().unwrap();
        win::check_win(self.field.as_ref().unwrap(), turn, info.win_condition)
    }

    /// Whether the history already counts as many moves as the field
    /// has cells.
    fn is_field_full(&self) -> (r: bool)
        requires
            self.play_info matches Some(info) && info.valid(),
        ensures
            r == (self.history@.len() >= self.play_info.unwrap().area()),
    {
        let info = self.play_info.as_ref().unwrap();
        self.history.len() >= info.field_size.width * info.field_size.height
    }
}

} // verus!
