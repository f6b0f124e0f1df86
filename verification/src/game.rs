//! The game: one session's state, the mode it is in, and what a tick does.
//!
//! A tick takes the time that has passed, at most one command and the random
//! draws it may need. In the playing mode it runs a fixed pipeline: timers and
//! the player's motion step, the command, the obstacle, the power-ups, and last
//! the collision or the pass of the obstacle.

use vstd::prelude::*;
use bracket_lib::prelude::RandomNumberGenerator;
use crate::difficulty::{Difficulty, DifficultySettings};
use crate::obstacle::{Obstacle, ObstacleType};
use crate::player::{flap_impulse, gravity_step, Player, PlayerView};
use crate::powerup::{
    age_effects, aged_effects, collect_powerups, collected_types, doubles_score,
    drop_gone_powerups, has_double_score, remaining_powerups, scroll_powerups,
    scrolled_powerups, uncollected, ActivePowerUp, PowerUp, PowerUpType, DOUBLE_SCORE_DURATION,
    SHIELD_DURATION, SLOW_MOTION_DURATION,
};
use crate::rolls::{ObstacleRolls, PowerUpRolls, Rolls, GAP_ROW_MAX, GAP_ROW_MIN};
use crate::scores::ScoreRecord;
use crate::{min_int, FRAME_DURATION, SCREEN_HEIGHT, SCREEN_WIDTH};

verus! {

/// Column the player starts in.
pub const START_X: i32 = 5;

/// Row the player starts in.
pub const START_Y: i32 = 25;

/// Lives of a session before a level was applied.
pub const DEFAULT_LIVES: i32 = 3;

/// The modes of the game.
#[derive(Debug, Clone, Copy, PartialEq, Eq, Structural)]
pub enum GameMode {
    Menu,
    DifficultySelect,
    Playing,
    End,
    HighScores,
    Paused,
}

/// What the player of the game can ask for.
#[derive(Debug, Clone, Copy, PartialEq, Eq, Structural)]
pub enum Command {
    Flap,
    MoveLeft,
    MoveRight,
    MoveDown,
    Pause,
    Resume,
    /// Open the choice of levels.
    SelectDifficulty,
    /// Choose a level.
    SetLevel(Difficulty),
    Play,
    Replay,
    BackToMenu,
    ShowHighScores,
    Quit,
}

/// What a tick asks of the host.
#[derive(Debug, Clone, Copy, PartialEq, Eq, Structural)]
pub struct TickOutcome {
    /// The game is to end.
    pub quit: bool,
    /// A final score to add to the score store, with its level.
    pub persist: Option<ScoreRecord>,
}

/// All state of one session.
#[derive(Debug)]
pub struct State {
    pub player: Player,
    /// Time gathered towards the next motion step, in microseconds.
    pub frame_time: u64,
    pub mode: GameMode,
    pub obstacle: Obstacle,
    pub score: i32,
    /// Whether the final score of this game was handed out for storing.
    pub score_saved: bool,
    pub selected_difficulty: Difficulty,
    pub difficulty_settings: DifficultySettings,
    pub powerups: Vec<PowerUp>,
    pub active_powerups: Vec<ActivePowerUp>,
    /// Time gathered towards the next power-up, in microseconds.
    pub powerup_spawn_timer: u64,
    /// Time slow motion still lasts, in microseconds.
    pub slow_motion_timer: u32,
    pub shield_active: bool,
    /// Time the shield still lasts, in microseconds.
    pub shield_timer: u32,
    pub lives: i32,
    /// Obstacles passed in a row without a hit.
    pub combo_count: i32,
    /// Column in which the last obstacle was counted as passed.
    pub last_obstacle_passed: i32,
}

/// A session as a mathematical value.
pub ghost struct StateView {
    pub player: PlayerView,
    pub frame_time: int,
    pub mode: GameMode,
    pub obstacle: Obstacle,
    pub score: int,
    pub score_saved: bool,
    pub selected_difficulty: Difficulty,
    pub difficulty_settings: DifficultySettings,
    pub powerups: Seq<PowerUp>,
    pub active_powerups: Seq<ActivePowerUp>,
    pub powerup_spawn_timer: int,
    pub slow_motion_timer: int,
    pub shield_active: bool,
    pub shield_timer: int,
    pub lives: int,
    pub combo_count: int,
    pub last_obstacle_passed: int,
}

impl View for State {
    type V = StateView;

    open spec fn view(&self) -> StateView {
        StateView {
            player: self.player@,
            frame_time: self.frame_time as int,
            mode: self.mode,
            obstacle: self.obstacle,
            score: self.score as int,
            score_saved: self.score_saved,
            selected_difficulty: self.selected_difficulty,
            difficulty_settings: self.difficulty_settings,
            powerups: self.powerups@,
            active_powerups: self.active_powerups@,
            powerup_spawn_timer: self.powerup_spawn_timer as int,
            slow_motion_timer: self.slow_motion_timer as int,
            shield_active: self.shield_active,
            shield_timer: self.shield_timer as int,
            lives: self.lives as int,
            combo_count: self.combo_count as int,
            last_obstacle_passed: self.last_obstacle_passed as int,
        }
    }
}

/// `value` less `elapsed`, zero at least.
pub open spec fn run_down(value: int, elapsed: int) -> int {
    if value > elapsed {
        value - elapsed
    } else {
        0
    }
}

/// `value` and `more`, the largest `i32` at most.
pub open spec fn capped_sum(value: int, more: int) -> int {
    min_int(value + more, i32::MAX as int)
}

impl StateView {
    /// What holds of a session at all times: its constants are those of the
    /// selected level, its counters are not negative, and its two gathering
    /// timers are within their bounds.
    pub open spec fn wf(self) -> bool {
        &&& self.difficulty_settings == DifficultySettings::profile(self.selected_difficulty)
        &&& 0 <= self.frame_time <= FRAME_DURATION
        &&& 0 <= self.powerup_spawn_timer <= u32::MAX
        &&& self.score >= 0
        &&& self.lives >= 0
        &&& self.combo_count >= 0
    }

    /// A session that has not been played: in the menu, at the normal level,
    /// with `obstacle` waiting.
    pub open spec fn initial(obstacle: Obstacle) -> StateView {
        StateView {
            player: PlayerView::at(START_X as int, START_Y as int),
            frame_time: 0,
            mode: GameMode::Menu,
            obstacle,
            score: 0,
            score_saved: false,
            selected_difficulty: Difficulty::Normal,
            difficulty_settings: DifficultySettings::profile(Difficulty::Normal),
            powerups: Seq::empty(),
            active_powerups: Seq::empty(),
            powerup_spawn_timer: 0,
            slow_motion_timer: 0,
            shield_active: false,
            shield_timer: 0,
            lives: DEFAULT_LIVES as int,
            combo_count: 0,
            last_obstacle_passed: -1,
        }
    }

    /// The session set back to the start of a game, playing, with a new
    /// obstacle at the right edge. The level and the lives stay.
    pub open spec fn restarted(self, rolls: ObstacleRolls) -> StateView {
        StateView {
            mode: GameMode::Playing,
            obstacle: Obstacle::spawned(SCREEN_WIDTH as int, 0, rolls),
            selected_difficulty: self.selected_difficulty,
            difficulty_settings: self.difficulty_settings,
            lives: self.lives,
            ..StateView::initial(self.obstacle)
        }
    }

    /// The session with the lives its level starts with.
    pub open spec fn with_starting_lives(self) -> StateView {
        StateView { lives: self.difficulty_settings.starting_lives as int, ..self }
    }

    /// The session at the start of a new game at its level.
    pub open spec fn started(self, rolls: ObstacleRolls) -> StateView {
        self.restarted(rolls).with_starting_lives()
    }

    /// The part of `elapsed` that counts towards the player's motion: half of
    /// it while slow motion lasts.
    pub open spec fn effective_time(self, elapsed: int) -> int {
        if self.slow_motion_timer > 0 {
            elapsed / 2
        } else {
            elapsed
        }
    }

    /// After `elapsed` microseconds have passed. Slow motion and the shield run
    /// down, and a shield that runs out is lost. When more than a frame's time
    /// has gathered, the player makes one motion step under the level's
    /// gravity.
    pub open spec fn time_advanced(self, elapsed: int) -> StateView {
        let gathered = self.frame_time + self.effective_time(elapsed);
        let shield_timer = run_down(self.shield_timer, elapsed);
        let timed = StateView {
            slow_motion_timer: run_down(self.slow_motion_timer, elapsed),
            shield_timer,
            shield_active: self.shield_active && !(self.shield_timer > 0 && shield_timer == 0),
            ..self
        };
        if gathered > FRAME_DURATION {
            StateView {
                frame_time: 0,
                player: self.player.fallen(
                    gravity_step(self.difficulty_settings.gravity_multiplier as int),
                ),
                ..timed
            }
        } else {
            StateView { frame_time: gathered, ..timed }
        }
    }

    /// After a command was applied in the playing mode. Commands that mean
    /// nothing there change nothing.
    pub open spec fn commanded(self, command: Option<Command>) -> StateView {
        match command {
            Some(Command::MoveLeft) => StateView { player: self.player.moved_left(), ..self },
            Some(Command::MoveRight) => StateView { player: self.player.moved_right(), ..self },
            Some(Command::Flap) => StateView {
                player: self.player.flapped(
                    flap_impulse(self.difficulty_settings.gravity_multiplier as int),
                ),
                ..self
            },
            Some(Command::MoveDown) => StateView { player: self.player.dived(), ..self },
            Some(Command::Pause) => StateView { mode: GameMode::Paused, ..self },
            _ => self,
        }
    }

    /// After the obstacle has moved for one tick.
    pub open spec fn obstacle_advanced(self) -> StateView {
        StateView { obstacle: self.obstacle.advanced(self.difficulty_settings, self.score), ..self }
    }

    /// After `elapsed` microseconds were gathered towards the next power-up.
    /// When more than the level's interval has gathered, the power-up of
    /// `rolls` appears and the gathering starts again.
    pub open spec fn powerup_spawned(self, elapsed: int, rolls: PowerUpRolls) -> StateView {
        let gathered = self.powerup_spawn_timer + elapsed;
        if gathered > self.difficulty_settings.powerup_spawn_rate {
            StateView {
                powerups: self.powerups.push(PowerUp::spawned(rolls)),
                powerup_spawn_timer: 0,
                ..self
            }
        } else {
            StateView { powerup_spawn_timer: gathered, ..self }
        }
    }

    /// After the effect `power_type` was started.
    pub open spec fn activated(self, power_type: PowerUpType) -> StateView {
        match power_type {
            PowerUpType::Shield => StateView {
                shield_active: true,
                shield_timer: SHIELD_DURATION as int,
                ..self
            },
            PowerUpType::SlowMotion => StateView {
                slow_motion_timer: SLOW_MOTION_DURATION as int,
                ..self
            },
            PowerUpType::DoubleScore => StateView {
                active_powerups: self.active_powerups.push(
                    ActivePowerUp {
                        power_type: PowerUpType::DoubleScore,
                        timer: DOUBLE_SCORE_DURATION,
                    },
                ),
                ..self
            },
            PowerUpType::ExtraLife => StateView { lives: capped_sum(self.lives, 1), ..self },
        }
    }

    /// After the first `upto` of the effects `types` were started, in order.
    pub open spec fn activated_all(self, types: Seq<PowerUpType>, upto: nat) -> StateView
        recommends
            upto <= types.len(),
        decreases upto,
    {
        if upto == 0 {
            self
        } else {
            self.activated_all(types, (upto - 1) as nat).activated(types[upto - 1])
        }
    }

    /// After the power-ups have moved for one tick, the player has collected
    /// those it touches, and of the others those that have left the playfield
    /// are gone.
    pub open spec fn powerups_collected(self) -> StateView {
        let moved = scrolled_powerups(self.powerups, self.powerups.len());
        let types = collected_types(moved, moved.len(), self.player.x, self.player.y);
        let left = uncollected(moved, moved.len(), self.player.x, self.player.y);
        (StateView { powerups: remaining_powerups(left, left.len()), ..self }).activated_all(
            types,
            types.len(),
        )
    }

    /// After the running effects have aged by `elapsed` microseconds.
    pub open spec fn effects_aged(self, elapsed: int) -> StateView {
        StateView {
            active_powerups: aged_effects(
                self.active_powerups,
                self.active_powerups.len(),
                elapsed,
            ),
            ..self
        }
    }

    /// After the power-ups' part of a tick: a power-up may appear, all move,
    /// the player collects, and the running effects age.
    pub open spec fn powerups_updated(self, elapsed: int, rolls: PowerUpRolls) -> StateView {
        self.powerup_spawned(elapsed, rolls).powerups_collected().effects_aged(elapsed)
    }

    /// Whether the player is hit: it is in the wall, or it has fallen below the
    /// playfield.
    pub open spec fn collides(self) -> bool {
        self.player.y > SCREEN_HEIGHT || self.obstacle.hits(
            self.player.x,
            self.player.y,
            self.difficulty_settings,
            self.score,
        )
    }

    /// Whether the player has passed the obstacle and this pass was not
    /// counted yet.
    pub open spec fn passes(self) -> bool {
        self.obstacle.passed_by(self.player.x) && self.last_obstacle_passed != self.obstacle.x
    }

    /// Points for a pass: two while an effect doubles the score, else one.
    pub open spec fn pass_points(self) -> int {
        if doubles_score(self.active_powerups) {
            2
        } else {
            1
        }
    }

    /// After a hit. A shield takes it and is lost. Without one a life is lost:
    /// with none left the game is over, else the player starts again and a new
    /// obstacle appears. The combo ends either way.
    pub open spec fn hit_taken(self, rolls: ObstacleRolls) -> StateView {
        if self.shield_active {
            StateView { shield_active: false, shield_timer: 0, combo_count: 0, ..self }
        } else if self.lives <= 1 {
            StateView { lives: 0, combo_count: 0, mode: GameMode::End, ..self }
        } else {
            StateView {
                lives: self.lives - 1,
                combo_count: 0,
                player: PlayerView::at(START_X as int, START_Y as int),
                obstacle: Obstacle::spawned(SCREEN_WIDTH as int, self.score, rolls),
                ..self
            }
        }
    }

    /// After a pass was counted: points, one more in the combo, the pass
    /// marked, and a new obstacle that is made for the new score.
    pub open spec fn pass_counted(self, rolls: ObstacleRolls) -> StateView {
        let score = capped_sum(self.score, self.pass_points());
        StateView {
            score,
            combo_count: capped_sum(self.combo_count, 1),
            last_obstacle_passed: self.obstacle.x as int,
            obstacle: Obstacle::spawned(SCREEN_WIDTH as int, score, rolls),
            ..self
        }
    }

    /// After the end of a tick: a hit is taken, or else a pass is counted.
    pub open spec fn collisions_checked(self, rolls: ObstacleRolls) -> StateView {
        if self.collides() {
            self.hit_taken(rolls)
        } else if self.passes() {
            self.pass_counted(rolls)
        } else {
            self
        }
    }

    /// After one tick in the playing mode.
    pub open spec fn played(self, command: Option<Command>, elapsed: int, rolls: Rolls) -> StateView {
        self.time_advanced(elapsed).commanded(command).obstacle_advanced().powerups_updated(
            elapsed,
            rolls.powerup,
        ).collisions_checked(rolls.obstacle)
    }

    /// After one tick in the menu.
    pub open spec fn menu_handled(self, command: Option<Command>, rolls: Rolls) -> StateView {
        match command {
            Some(Command::Play) => self.started(rolls.obstacle),
            Some(Command::SelectDifficulty) => StateView {
                mode: GameMode::DifficultySelect,
                ..self
            },
            Some(Command::ShowHighScores) => StateView { mode: GameMode::HighScores, ..self },
            _ => self,
        }
    }

    /// After one tick in the choice of levels.
    pub open spec fn level_handled(self, command: Option<Command>) -> StateView {
        match command {
            Some(Command::SetLevel(level)) => StateView {
                selected_difficulty: level,
                difficulty_settings: DifficultySettings::profile(level),
                ..self
            },
            Some(Command::BackToMenu) => StateView { mode: GameMode::Menu, ..self },
            _ => self,
        }
    }

    /// After one tick while paused.
    pub open spec fn pause_handled(self, command: Option<Command>) -> StateView {
        match command {
            Some(Command::Resume) => StateView { mode: GameMode::Playing, ..self },
            Some(Command::BackToMenu) => StateView { mode: GameMode::Menu, ..self },
            _ => self,
        }
    }

    /// After one tick when the game is over. The score counts as handed out
    /// from the first such tick on, until a new game starts.
    pub open spec fn end_handled(self, command: Option<Command>, rolls: Rolls) -> StateView {
        match command {
            Some(Command::Replay) => self.started(rolls.obstacle),
            Some(Command::BackToMenu) => StateView {
                mode: GameMode::Menu,
                score_saved: true,
                ..self
            },
            Some(Command::ShowHighScores) => StateView {
                mode: GameMode::HighScores,
                score_saved: true,
                ..self
            },
            _ => StateView { score_saved: true, ..self },
        }
    }

    /// After one tick in the list of high scores.
    pub open spec fn scores_handled(self, command: Option<Command>) -> StateView {
        match command {
            Some(Command::BackToMenu) => StateView { mode: GameMode::Menu, ..self },
            _ => self,
        }
    }

    /// After one tick, whatever the mode.
    pub open spec fn stepped(self, command: Option<Command>, elapsed: int, rolls: Rolls) -> StateView {
        match self.mode {
            GameMode::Menu => self.menu_handled(command, rolls),
            GameMode::DifficultySelect => self.level_handled(command),
            GameMode::Playing => self.played(command, elapsed, rolls),
            GameMode::Paused => self.pause_handled(command),
            GameMode::End => self.end_handled(command, rolls),
            GameMode::HighScores => self.scores_handled(command),
        }
    }

    /// The score to store in a tick: the final score, in the first tick after
    /// the game is over.
    pub open spec fn to_persist(self) -> Option<ScoreRecord> {
        if self.mode == GameMode::End && !self.score_saved {
            Some(ScoreRecord { score: self.score as i32, difficulty: self.selected_difficulty })
        } else {
            None
        }
    }

    /// Whether a tick with `command` ends the game: the command to quit does,
    /// in the menu, while paused and when the game is over.
    pub open spec fn quits(self, command: Option<Command>) -> bool {
        command == Some(Command::Quit) && (self.mode == GameMode::Menu || self.mode
            == GameMode::Paused || self.mode == GameMode::End)
    }

    /// What a tick with `command` asks of the host.
    pub open spec fn outcome(self, command: Option<Command>) -> TickOutcome {
        TickOutcome { quit: self.quits(command), persist: self.to_persist() }
    }
}

impl State {
    /// A session that has not been played, with an obstacle shaped by chance.
    pub fn new(rng: &mut RandomNumberGenerator) -> (r: State)
        ensures
            r@ == StateView::initial(r.obstacle),
            r.obstacle == Obstacle::fresh(
                SCREEN_WIDTH as int,
                0,
                ObstacleType::Static,
                r.obstacle.gap_y as int,
            ),
            GAP_ROW_MIN <= r.obstacle.gap_y <= GAP_ROW_MAX,
            r@.wf(),
    {
        State::with_obstacle(Obstacle::new(SCREEN_WIDTH, 0, rng))
    }

    /// A session that has not been played, with `obstacle` waiting.
    pub fn with_obstacle(obstacle: Obstacle) -> (r: State)
        ensures
            r@ == StateView::initial(obstacle),
            r@.wf(),
    {
        State {
            player: Player::new(START_X, START_Y),
            frame_time: 0,
            mode: GameMode::Menu,
            obstacle,
            score: 0,
            score_saved: false,
            selected_difficulty: Difficulty::Normal,
            difficulty_settings: DifficultySettings::new(Difficulty::Normal),
            powerups: Vec::new(),
            active_powerups: Vec::new(),
            powerup_spawn_timer: 0,
            slow_motion_timer: 0,
            shield_active: false,
            shield_timer: 0,
            lives: DEFAULT_LIVES,
            combo_count: 0,
            last_obstacle_passed: -1,
        }
    }

    /// Whether the session is in a state the engine keeps it in.
    pub fn is_valid(&self) -> (r: bool)
        ensures
            r == self@.wf(),
    {
        self.difficulty_settings == DifficultySettings::new(self.selected_difficulty)
            && self.frame_time <= FRAME_DURATION && self.powerup_spawn_timer <= u32::MAX as u64
            && self.score >= 0 && self.lives >= 0 && self.combo_count >= 0
    }

    /// One tick in the menu.
    pub fn main_menu(&mut self, command: Option<Command>, rolls: &Rolls) -> (outcome: TickOutcome)
        requires
            old(self)@.wf(),
        ensures
            final(self)@ == old(self)@.menu_handled(command, *rolls),
            outcome.quit == (command == Some(Command::Quit)),
            outcome.persist is None,
            final(self)@.wf(),
    {
        let mut quit = false;
        match command {
            Some(Command::Play) => {
                self.restart(&rolls.obstacle);
                self.apply_difficulty_settings();
            },
            Some(Command::SelectDifficulty) => {
                self.mode = GameMode::DifficultySelect;
            },
            Some(Command::ShowHighScores) => {
                self.mode = GameMode::HighScores;
            },
            Some(Command::Quit) => {
                quit = true;
            },
            _ => {},
        }
        TickOutcome { quit, persist: None }
    }

    /// One tick in the choice of levels.
    pub fn difficulty_select(&mut self, command: Option<Command>)
        requires
            old(self)@.wf(),
        ensures
            final(self)@ == old(self)@.level_handled(command),
            final(self)@.wf(),
    {
        match command {
            Some(Command::SetLevel(level)) => {
                self.selected_difficulty = level;
                self.difficulty_settings = DifficultySettings::new(level);
            },
            Some(Command::BackToMenu) => {
                self.mode = GameMode::Menu;
            },
            _ => {},
        }
    }

    /// One tick in the playing mode: time, the command, the obstacle, the
    /// power-ups, and the hit or the pass, in this order.
    pub fn play(&mut self, command: Option<Command>, elapsed: u32, rolls: &Rolls)
        requires
            old(self)@.wf(),
        ensures
            final(self)@ == old(self)@.played(command, elapsed as int, *rolls),
            final(self)@.wf(),
    {
        self.advance_time(elapsed);
        self.handle_input(command);
        let settings = self.difficulty_settings;
        self.obstacle.advance(&settings, self.score);
        self.update_powerups(elapsed, &rolls.powerup);
        self.check_collisions(&rolls.obstacle);
    }

    /// Lets `elapsed` microseconds pass: the timers run down, and once a
    /// frame's time has gathered the player makes a motion step.
    pub fn advance_time(&mut self, elapsed: u32)
        requires
            old(self)@.wf(),
        ensures
            final(self)@ == old(self)@.time_advanced(elapsed as int),
            final(self)@.wf(),
    {
        let effective_frame_time: u32 = if self.slow_motion_timer > 0 {
            elapsed / 2
        } else {
            elapsed
        };
        self.frame_time = self.frame_time + effective_frame_time as u64;
        self.slow_motion_timer = State::less(self.slow_motion_timer, elapsed);
        if self.shield_timer > 0 {
            self.shield_timer = State::less(self.shield_timer, elapsed);
            if self.shield_timer == 0 {
                self.shield_active = false;
            }
        }
        if self.frame_time > FRAME_DURATION {
            self.frame_time = 0;
            self.player.gravity_and_move_with_difficulty(&self.difficulty_settings);
        }
    }

    /// `timer` less `elapsed`, zero at least.
    fn less(timer: u32, elapsed: u32) -> (r: u32)
        ensures
            r == run_down(timer as int, elapsed as int),
    {
        if timer > elapsed {
            timer - elapsed
        } else {
            0
        }
    }

    /// `value` and `more`, the largest `i32` at most.
    fn capped(value: i32, more: i32) -> (r: i32)
        requires
            value >= 0,
            more >= 0,
        ensures
            r == capped_sum(value as int, more as int),
            r >= 0,
    {
        if value > i32::MAX - more {
            i32::MAX
        } else {
            value + more
        }
    }

    /// Applies a command in the playing mode.
    pub fn handle_input(&mut self, command: Option<Command>)
        requires
            old(self)@.wf(),
        ensures
            final(self)@ == old(self)@.commanded(command),
            final(self)@.wf(),
    {
        match command {
            Some(Command::MoveLeft) => self.player.move_left(),
            Some(Command::MoveRight) => self.player.move_right(),
            Some(Command::Flap) => self.player.flap_with_difficulty(&self.difficulty_settings),
            Some(Command::MoveDown) => self.player.move_down(),
            Some(Command::Pause) => {
                self.mode = GameMode::Paused;
            },
            _ => {},
        }
    }

    /// The power-ups' part of a tick: a power-up may appear, all move, the
    /// player collects those it touches, those that have left the playfield
    /// are dropped, and the running effects age.
    pub fn update_powerups(&mut self, elapsed: u32, rolls: &PowerUpRolls)
        requires
            old(self)@.wf(),
        ensures
            final(self)@ == old(self)@.powerups_updated(elapsed as int, *rolls),
            final(self)@.wf(),
    {
        self.powerup_spawn_timer = self.powerup_spawn_timer + elapsed as u64;
        if self.powerup_spawn_timer > self.difficulty_settings.powerup_spawn_rate as u64 {
            self.spawn_powerup(rolls);
            self.powerup_spawn_timer = 0;
        }
        assert(self@ == old(self)@.powerup_spawned(elapsed as int, *rolls));
        let ghost spawned = self@;
        scroll_powerups(&mut self.powerups);
        let types = collect_powerups(&mut self.powerups, self.player.x, self.player.y);
        drop_gone_powerups(&mut self.powerups);
        let ghost emptied = self@;
        let mut i: usize = 0;
        while i < types.len()
            invariant
                i <= types@.len(),
                emptied.wf(),
                self@ == emptied.activated_all(types@, i as nat),
                self@.wf(),
            decreases types.len() - i,
        {
            self.activate_powerup(types[i]);
            i += 1;
        }
        assert(self@ == spawned.powerups_collected());
        age_effects(&mut self.active_powerups, elapsed);
    }

    /// Puts the power-up of `rolls` beyond the right edge.
    pub fn spawn_powerup(&mut self, rolls: &PowerUpRolls)
        ensures
            final(self)@ == (StateView {
                powerups: old(self)@.powerups.push(PowerUp::spawned(*rolls)),
                ..old(self)@
            }),
    {
        self.powerups.push(PowerUp::from_rolls(rolls));
    }

    /// Starts the effect of a collected power-up. A shield and slow motion
    /// start their time anew, double scoring is added to the running effects,
    /// and an extra life counts at once.
    pub fn activate_powerup(&mut self, power_type: PowerUpType)
        requires
            old(self)@.wf(),
        ensures
            final(self)@ == old(self)@.activated(power_type),
            final(self)@.wf(),
    {
        match power_type {
            PowerUpType::Shield => {
                self.shield_active = true;
                self.shield_timer = SHIELD_DURATION;
            },
            PowerUpType::SlowMotion => {
                self.slow_motion_timer = SLOW_MOTION_DURATION;
            },
            PowerUpType::DoubleScore => {
                self.active_powerups.push(
                    ActivePowerUp::new(PowerUpType::DoubleScore, DOUBLE_SCORE_DURATION),
                );
            },
            PowerUpType::ExtraLife => {
                self.lives = State::capped(self.lives, 1);
            },
        }
    }

    /// The end of a tick. If the player is in the wall or below the playfield,
    /// the hit is taken: by the shield, or else by a life, and with no life
    /// left the game is over. If there is no hit and the player has passed the
    /// obstacle, the pass is counted once and a new obstacle appears.
    pub fn check_collisions(&mut self, rolls: &ObstacleRolls)
        requires
            old(self)@.wf(),
        ensures
            final(self)@ == old(self)@.collisions_checked(*rolls),
            final(self)@.wf(),
    {
        if self.player.y > SCREEN_HEIGHT || self.obstacle.hit_obstacle(
            &self.player,
            &self.difficulty_settings,
            self.score,
        ) {
            if self.shield_active {
                self.shield_active = false;
                self.shield_timer = 0;
                self.combo_count = 0;
            } else {
                self.combo_count = 0;
                if self.lives <= 1 {
                    self.lives = 0;
                    self.mode = GameMode::End;
                } else {
                    self.lives = self.lives - 1;
                    self.player = Player::new(START_X, START_Y);
                    self.obstacle = Obstacle::from_rolls(SCREEN_WIDTH, self.score, rolls);
                }
            }
        } else if self.obstacle.is_passed_by_player(&self.player) && self.last_obstacle_passed
            != self.obstacle.x {
            let score_multiplier: i32 = if has_double_score(&self.active_powerups) {
                2
            } else {
                1
            };
            self.score = State::capped(self.score, score_multiplier);
            self.combo_count = State::capped(self.combo_count, 1);
            self.last_obstacle_passed = self.obstacle.x;
            self.obstacle = Obstacle::from_rolls(SCREEN_WIDTH, self.score, rolls);
        }
    }

    /// One tick while paused.
    pub fn paused(&mut self, command: Option<Command>) -> (outcome: TickOutcome)
        requires
            old(self)@.wf(),
        ensures
            final(self)@ == old(self)@.pause_handled(command),
            outcome.quit == (command == Some(Command::Quit)),
            outcome.persist is None,
            final(self)@.wf(),
    {
        let mut quit = false;
        match command {
            Some(Command::Resume) => {
                self.mode = GameMode::Playing;
            },
            Some(Command::BackToMenu) => {
                self.mode = GameMode::Menu;
            },
            Some(Command::Quit) => {
                quit = true;
            },
            _ => {},
        }
        TickOutcome { quit, persist: None }
    }

    /// One tick when the game is over. The first such tick of a game hands out
    /// the final score for storing; later ones do not.
    pub fn dead(&mut self, command: Option<Command>, rolls: &Rolls) -> (outcome: TickOutcome)
        requires
            old(self)@.wf(),
        ensures
            final(self)@ == old(self)@.end_handled(command, *rolls),
            outcome.quit == (command == Some(Command::Quit)),
            outcome.persist == if old(self).score_saved {
                None
            } else {
                Some(
                    ScoreRecord {
                        score: old(self).score,
                        difficulty: old(self).selected_difficulty,
                    },
                )
            },
            final(self)@.wf(),
    {
        let persist = if !self.score_saved {
            Some(ScoreRecord { score: self.score, difficulty: self.selected_difficulty })
        } else {
            None
        };
        self.score_saved = true;
        let mut quit = false;
        match command {
            Some(Command::Replay) => {
                self.restart(&rolls.obstacle);
                self.apply_difficulty_settings();
                self.score_saved = false;
            },
            Some(Command::BackToMenu) => {
                self.mode = GameMode::Menu;
            },
            Some(Command::ShowHighScores) => {
                self.mode = GameMode::HighScores;
            },
            Some(Command::Quit) => {
                quit = true;
            },
            _ => {},
        }
        TickOutcome { quit, persist }
    }

    /// Sets the session back to the start of a game and into the playing
    /// mode. The level and the lives stay as they are.
    pub fn restart(&mut self, rolls: &ObstacleRolls)
        requires
            old(self)@.wf(),
        ensures
            final(self)@ == old(self)@.restarted(*rolls),
            final(self)@.wf(),
    {
        self.player = Player::new(START_X, START_Y);
        self.frame_time = 0;
        self.mode = GameMode::Playing;
        self.obstacle = Obstacle::from_rolls(SCREEN_WIDTH, 0, rolls);
        self.score = 0;
        self.score_saved = false;
        self.powerups.clear();
        self.active_powerups.clear();
        self.powerup_spawn_timer = 0;
        self.slow_motion_timer = 0;
        self.shield_active = false;
        self.shield_timer = 0;
        self.combo_count = 0;
        self.last_obstacle_passed = -1;
    }

    /// Gives the session the lives its level starts with.
    pub fn apply_difficulty_settings(&mut self)
        requires
            old(self)@.wf(),
        ensures
            final(self)@ == old(self)@.with_starting_lives(),
            final(self)@.wf(),
    {
        self.lives = self.difficulty_settings.starting_lives;
    }

    /// One tick in the list of high scores.
    pub fn display_high_scores(&mut self, command: Option<Command>)
        requires
            old(self)@.wf(),
        ensures
            final(self)@ == old(self)@.scores_handled(command),
            final(self)@.wf(),
    {
        match command {
            Some(Command::BackToMenu) => {
                self.mode = GameMode::Menu;
            },
            _ => {},
        }
    }

    /// One tick with the draws given: the handler of the current mode runs.
    pub fn step(&mut self, command: Option<Command>, elapsed: u32, rolls: &Rolls) -> (outcome:
        TickOutcome)
        requires
            old(self)@.wf(),
        ensures
            final(self)@ == old(self)@.stepped(command, elapsed as int, *rolls),
            outcome == old(self)@.outcome(command),
            final(self)@.wf(),
    {
        match self.mode {
            GameMode::Menu => self.main_menu(command, rolls),
            GameMode::DifficultySelect => {
                self.difficulty_select(command);
                TickOutcome { quit: false, persist: None }
            },
            GameMode::Playing => {
                self.play(command, elapsed, rolls);
                TickOutcome { quit: false, persist: None }
            },
            GameMode::Paused => self.paused(command),
            GameMode::End => self.dead(command, rolls),
            GameMode::HighScores => {
                self.display_high_scores(command);
                TickOutcome { quit: false, persist: None }
            },
        }
    }

    /// One tick with draws taken from `rng`. Whatever is drawn, the session
    /// ends up as `step` leaves it for some draws within their ranges.
    pub fn tick(
        &mut self,
        command: Option<Command>,
        elapsed: u32,
        rng: &mut RandomNumberGenerator,
    ) -> (outcome: TickOutcome)
        requires
            old(self)@.wf(),
        ensures
            exists|rolls: Rolls|
                rolls.in_range() && final(self)@ == #[trigger] old(self)@.stepped(
                    command,
                    elapsed as int,
                    rolls,
                ),
            outcome == old(self)@.outcome(command),
            final(self)@.wf(),
    {
        let rolls = Rolls::draw(rng);
        self.step(command, elapsed, &rolls)
    }
}

} // verus!
