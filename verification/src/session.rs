//! One sitting at the game, from the first frame to the player's leaving.
//!
//! The session decides; the front end acts. The front end reads the clock
//! and the keyboard and hands what it read to the session, which updates the
//! game and answers with what is to be drawn, shown and waited for.

use crate::game::{lemma_event_keeps_wf, Game, GameEvent, GameView};
use vstd::prelude::*;

verus! {

/// The standard time between two ticks of the simulation: 33 ms.
pub const TICK_INTERVAL_NANOS: u64 = 33_000_000;

/// The standard time between two drawings of the screen: 100 ms.
pub const RENDER_INTERVAL_NANOS: u64 = 100_000_000;

/// The standard wait for a key, in milliseconds.
pub const INPUT_POLL_MILLIS: u64 = 10;

/// The standard time that a message stays up, in milliseconds.
pub const MESSAGE_PAUSE_MILLIS: u64 = 800;

/// The standard rest when no key came, in milliseconds.
pub const IDLE_PAUSE_MILLIS: u64 = 1;

/// A key as the keyboard delivers it.
#[derive(Clone, Copy, Debug, PartialEq, Eq)]
pub enum Key {
    /// A key that stands for a character.
    Char(char),
    /// The up arrow.
    Up,
    /// The down arrow.
    Down,
    /// Any other key.
    Other,
}

/// What the player asks for with a key.
#[derive(Clone, Copy, Debug, PartialEq, Eq)]
pub enum Command {
    /// Leave the game.
    Quit,
    /// Upgrade the selected swimmer.
    Upgrade,
    /// Recruit a new swimmer.
    Recruit,
    /// Select the swimmer above.
    SelectPrevious,
    /// Select the swimmer below.
    SelectNext,
    /// Nothing: the key has no meaning in the game.
    Ignore,
}

/// Where a session stands in its life.
#[derive(Clone, Copy, Debug, PartialEq, Eq)]
pub enum Phase {
    /// The game is being played.
    Running,
    /// The player has quit and the farewell waits to be acknowledged.
    Quitting,
    /// The session is over.
    Terminated,
}

/// The cadences and pauses of a session.
#[derive(Clone, Copy, Debug, PartialEq, Eq)]
pub struct Settings {
    /// The time between two ticks of the simulation, in nanoseconds.
    pub tick_interval_nanos: u64,
    /// The time between two drawings of the screen, in nanoseconds.
    pub render_interval_nanos: u64,
    /// How long the front end waits for a key before it looks at the clock
    /// again, in milliseconds.
    pub input_poll_millis: u64,
    /// How long a message stays up before the game goes on, in milliseconds.
    pub message_pause_millis: u64,
    /// How long the front end rests when no key came, in milliseconds.
    pub idle_pause_millis: u64,
}

/// What the front end shows the player after a key.
#[derive(Clone, Copy, Debug, PartialEq, Eq)]
pub enum Notice {
    /// Nothing.
    Nothing,
    /// The swimmer at `index` was upgraded.
    Upgraded { index: usize },
    /// The swimmer at `index` lacks `missing` lengths for its upgrade.
    UpgradeRefused { index: usize, missing: i128 },
    /// A recruit joined and stands at `index`.
    Recruited { index: usize },
    /// The first swimmer lacks `missing` lengths for a recruit.
    RecruitRefused { missing: i128 },
    /// The farewell.
    Goodbye,
    /// The command would take a counter past what the machine can hold, and
    /// was not carried out.
    LimitReached,
}

/// The session's answer to a key: what to show, and how long to leave it up
/// before the game goes on.
#[derive(Clone, Copy, Debug, PartialEq, Eq)]
pub struct Reaction {
    pub notice: Notice,
    pub pause_millis: u64,
}

/// The session's answer to a reading of the clock.
#[derive(Clone, Copy, Debug, PartialEq, Eq)]
pub struct Frame {
    /// Whether the swimmers were advanced by one tick.
    pub ticked: bool,
    /// Whether the screen is to be drawn.
    pub render: bool,
    /// Whether a tick was due but would take a counter past what the machine
    /// can hold, so that nothing was done.
    pub limit_reached: bool,
}

/// One sitting at the game.
pub struct Session {
    game: Game,
    phase: Phase,
    settings: Settings,
    last_update: u64,
    last_render: u64,
}

/// A session as a mathematical value.
pub struct SessionView {
    pub game: GameView,
    pub phase: Phase,
    pub settings: Settings,
    /// The clock reading at the last tick, in nanoseconds.
    pub last_update: nat,
    /// The clock reading at the last drawing, in nanoseconds.
    pub last_render: nat,
}

/// The command that a key stands for: `q` quits, the space bar upgrades, `n`
/// recruits, the arrows move the selection, and every other key is ignored.
pub open spec fn command_of(key: Key) -> Command {
    match key {
        Key::Char(c) => if c == 'q' {
            Command::Quit
        } else if c == ' ' {
            Command::Upgrade
        } else if c == 'n' {
            Command::Recruit
        } else {
            Command::Ignore
        },
        Key::Up => Command::SelectPrevious,
        Key::Down => Command::SelectNext,
        Key::Other => Command::Ignore,
    }
}

/// The time from `since` to `now` on a clock that never runs backwards; zero
/// where `now` is the earlier.
pub open spec fn elapsed(now: nat, since: nat) -> nat {
    if now >= since {
        (now - since) as nat
    } else {
        0
    }
}

impl Settings {
    /// The settings of the game as it is played: a tick every 33 ms, a
    /// drawing every 100 ms, 10 ms of waiting for a key, messages that stay
    /// for 800 ms, and 1 ms of rest when no key came.
    pub fn standard() -> (settings: Settings)
        ensures
            settings == (Settings {
                tick_interval_nanos: TICK_INTERVAL_NANOS,
                render_interval_nanos: RENDER_INTERVAL_NANOS,
                input_poll_millis: INPUT_POLL_MILLIS,
                message_pause_millis: MESSAGE_PAUSE_MILLIS,
                idle_pause_millis: IDLE_PAUSE_MILLIS,
            }),
    {
        Settings {
            tick_interval_nanos: TICK_INTERVAL_NANOS,
            render_interval_nanos: RENDER_INTERVAL_NANOS,
            input_poll_millis: INPUT_POLL_MILLIS,
            message_pause_millis: MESSAGE_PAUSE_MILLIS,
            idle_pause_millis: IDLE_PAUSE_MILLIS,
        }
    }
}

impl SessionView {
    /// A session as it starts at clock reading `now`.
    pub open spec fn started(game: GameView, settings: Settings, now: nat) -> SessionView {
        SessionView { game, phase: Phase::Running, settings, last_update: now, last_render: now }
    }

    /// The invariant of a session: that of its game.
    pub open spec fn wf(self) -> bool {
        self.game.wf()
    }

    /// Whether a tick is due at clock reading `now`: the game is running and
    /// a full tick interval has passed since the last tick.
    pub open spec fn tick_due(self, now: nat) -> bool {
        self.phase == Phase::Running && elapsed(now, self.last_update)
            >= self.settings.tick_interval_nanos
    }

    /// Whether a drawing is due at clock reading `now`: the game is running
    /// and a full render interval has passed since the last drawing.
    pub open spec fn render_due(self, now: nat) -> bool {
        self.phase == Phase::Running && elapsed(now, self.last_render)
            >= self.settings.render_interval_nanos
    }

    /// Whether a tick is due at `now` that the machine's counters cannot
    /// take.
    pub open spec fn clock_blocked(self, now: nat) -> bool {
        self.tick_due(now) && !self.game.tick().representable()
    }

    /// The session after the clock was read at `now`. Each of the two gates
    /// fires by itself: where a tick is due every swimmer swims once and the
    /// time of the last tick becomes `now`; where a drawing is due the time
    /// of the last drawing becomes `now`.
    pub open spec fn after_clock(self, now: nat) -> SessionView {
        if self.clock_blocked(now) {
            self
        } else {
            SessionView {
                game: if self.tick_due(now) {
                    self.game.tick()
                } else {
                    self.game
                },
                last_update: if self.tick_due(now) {
                    now
                } else {
                    self.last_update
                },
                last_render: if self.render_due(now) {
                    now
                } else {
                    self.last_render
                },
                ..self
            }
        }
    }

    /// The answer to a reading of the clock at `now`.
    pub open spec fn frame_at(self, now: nat) -> Frame {
        if self.clock_blocked(now) {
            Frame { ticked: false, render: false, limit_reached: true }
        } else {
            Frame {
                ticked: self.tick_due(now),
                render: self.render_due(now),
                limit_reached: false,
            }
        }
    }

    /// Whether the command would take a counter past what the machine can
    /// hold.
    pub open spec fn blocked(self, command: Command) -> bool {
        match command {
            Command::Upgrade => !self.game.upgrade_selected().representable(),
            Command::Recruit => !self.game.recruit_fits(),
            _ => false,
        }
    }

    /// The session after a command; `recruit_name` is the name that a
    /// recruit would get. Only a running session obeys commands. Each
    /// command does exactly one thing: quitting ends the play, the others
    /// change the game and leave the phase alone.
    pub open spec fn after_command(self, command: Command, recruit_name: Seq<char>) -> SessionView {
        if self.phase != Phase::Running || self.blocked(command) {
            self
        } else {
            match command {
                Command::Quit => SessionView { phase: Phase::Quitting, ..self },
                Command::Upgrade => SessionView { game: self.game.upgrade_selected(), ..self },
                Command::Recruit => SessionView { game: self.game.recruit(recruit_name), ..self },
                Command::SelectPrevious => SessionView {
                    game: self.game.select_previous(),
                    ..self
                },
                Command::SelectNext => SessionView { game: self.game.select_next(), ..self },
                Command::Ignore => self,
            }
        }
    }

    /// What the player is shown in answer to a command, as the state in which
    /// the command arrives decides it.
    pub open spec fn notice_for(self, command: Command) -> Notice {
        if self.phase != Phase::Running {
            Notice::Nothing
        } else if self.blocked(command) {
            Notice::LimitReached
        } else {
            match command {
                Command::Quit => Notice::Goodbye,
                Command::Upgrade => if self.game.selected().can_upgrade() {
                    Notice::Upgraded { index: self.game.selected_index as usize }
                } else {
                    Notice::UpgradeRefused {
                        index: self.game.selected_index as usize,
                        missing: self.game.selected().upgrade_shortfall() as i128,
                    }
                },
                Command::Recruit => if self.game.can_recruit() {
                    Notice::Recruited { index: self.game.swimmers.len() as usize }
                } else {
                    Notice::RecruitRefused { missing: self.game.recruit_shortfall() as i128 }
                },
                _ => Notice::Nothing,
            }
        }
    }

    /// The answer to a command: the notice, and a pause for the player to
    /// read it where it reports on an upgrade or a recruit.
    pub open spec fn reaction_to(self, command: Command) -> Reaction {
        let notice = self.notice_for(command);
        Reaction {
            notice,
            pause_millis: match notice {
                Notice::Upgraded { .. }
                | Notice::UpgradeRefused { .. }
                | Notice::Recruited { .. }
                | Notice::RecruitRefused { .. } => self.settings.message_pause_millis,
                _ => 0,
            },
        }
    }

    /// The session after the player has acknowledged the farewell.
    pub open spec fn acknowledged(self) -> SessionView {
        if self.phase == Phase::Quitting {
            SessionView { phase: Phase::Terminated, ..self }
        } else {
            self
        }
    }
}

/// The command that a key stands for.
pub fn command_for(key: Key) -> (command: Command)
    ensures
        command == command_of(key),
{
    match key {
        Key::Char(c) => {
            if c == 'q' {
                Command::Quit
            } else if c == ' ' {
                Command::Upgrade
            } else if c == 'n' {
                Command::Recruit
            } else {
                Command::Ignore
            }
        },
        Key::Up => Command::SelectPrevious,
        Key::Down => Command::SelectNext,
        Key::Other => Command::Ignore,
    }
}

/// The time from `since` to `now`, zero where `now` is the earlier.
pub fn time_between(now: u64, since: u64) -> (time: u64)
    ensures
        time == elapsed(now as nat, since as nat),
{
    if now >= since {
        now - since
    } else {
        0
    }
}

impl View for Session {
    type V = SessionView;

    closed spec fn view(&self) -> SessionView {
        SessionView {
            game: self.game@,
            phase: self.phase,
            settings: self.settings,
            last_update: self.last_update as nat,
            last_render: self.last_render as nat,
        }
    }
}

impl Session {
    /// Starts a session on `game`, with the clock at `now` nanoseconds.
    pub fn start(game: Game, settings: Settings, now: u64) -> (session: Session)
        requires
            game@.wf(),
        ensures
            session@ == SessionView::started(game@, settings, now as nat),
            session@.wf(),
    {
        Session { game, phase: Phase::Running, settings, last_update: now, last_render: now }
    }

    /// The game as it stands, for the front end to draw.
    pub fn game(&self) -> (game: &Game)
        ensures
            game@ == self@.game,
    {
        &self.game
    }

    /// Where the session stands in its life.
    pub fn phase(&self) -> (phase: Phase)
        ensures
            phase == self@.phase,
    {
        self.phase
    }

    /// The cadences and pauses of the session.
    pub fn settings(&self) -> (settings: Settings)
        ensures
            settings == self@.settings,
    {
        self.settings
    }

    /// Whether the game is being played.
    pub fn is_running(&self) -> (running: bool)
        ensures
            running == (self@.phase == Phase::Running),
    {
        match self.phase {
            Phase::Running => true,
            _ => false,
        }
    }

    /// Takes a reading of the clock, in nanoseconds, and advances the game
    /// by one tick if a tick is due. The answer says whether it did and
    /// whether the screen is due to be drawn.
    pub fn on_clock(&mut self, now: u64) -> (frame: Frame)
        requires
            old(self)@.wf(),
        ensures
            final(self)@ == old(self)@.after_clock(now as nat),
            frame == old(self)@.frame_at(now as nat),
            final(self)@.wf(),
    {
        if !self.is_running() {
            return Frame { ticked: false, render: false, limit_reached: false };
        }
        let tick_due: bool = time_between(now, self.last_update)
            >= self.settings.tick_interval_nanos;
        let render_due: bool = time_between(now, self.last_render)
            >= self.settings.render_interval_nanos;
        if tick_due {
            if !self.game.tick_fits() {
                return Frame { ticked: false, render: false, limit_reached: true };
            }
            self.game.tick();
            self.last_update = now;
        }
        if render_due {
            self.last_render = now;
        }
        Frame { ticked: tick_due, render: render_due, limit_reached: false }
    }

    /// Takes a key and carries out the command that it stands for.
    pub fn on_key(&mut self, key: Key) -> (reaction: Reaction)
        requires
            old(self)@.wf(),
        ensures
            reaction == old(self)@.reaction_to(command_of(key)),
            final(self)@ == old(self)@.after_command(
                command_of(key),
                final(self)@.game.swimmers.last().name,
            ),
            reaction.notice is Recruited ==> old(self)@.game.names.offers(
                final(self)@.game.swimmers.last().name,
            ),
            final(self)@.wf(),
    {
        self.on_command(command_for(key))
    }

    /// Carries out a command.
    pub fn on_command(&mut self, command: Command) -> (reaction: Reaction)
        requires
            old(self)@.wf(),
        ensures
            reaction == old(self)@.reaction_to(command),
            final(self)@ == old(self)@.after_command(
                command,
                final(self)@.game.swimmers.last().name,
            ),
            reaction.notice is Recruited ==> old(self)@.game.names.offers(
                final(self)@.game.swimmers.last().name,
            ),
            final(self)@.wf(),
    {
        let quiet = Reaction { notice: Notice::Nothing, pause_millis: 0 };
        if !self.is_running() {
            return quiet;
        }
        let pause: u64 = self.settings.message_pause_millis;
        match command {
            Command::Quit => {
                self.phase = Phase::Quitting;
                Reaction { notice: Notice::Goodbye, pause_millis: 0 }
            },
            Command::Upgrade => {
                if !self.game.upgrade_selected_fits() {
                    return Reaction { notice: Notice::LimitReached, pause_millis: 0 };
                }
                let index: usize = self.game.selected_index();
                let missing: i128 = self.game.selected().upgrade_shortfall();
                if self.game.upgrade_selected() {
                    Reaction { notice: Notice::Upgraded { index }, pause_millis: pause }
                } else {
                    Reaction {
                        notice: Notice::UpgradeRefused { index, missing },
                        pause_millis: pause,
                    }
                }
            },
            Command::Recruit => {
                if !self.game.recruit_fits() {
                    return Reaction { notice: Notice::LimitReached, pause_millis: 0 };
                }
                let index: usize = self.game.swimmers().len();
                let missing: i128 = self.game.recruit_shortfall();
                if self.game.add_new_swimmer() {
                    Reaction { notice: Notice::Recruited { index }, pause_millis: pause }
                } else {
                    Reaction { notice: Notice::RecruitRefused { missing }, pause_millis: pause }
                }
            },
            Command::SelectPrevious => {
                self.game.select_previous();
                quiet
            },
            Command::SelectNext => {
                self.game.select_next();
                quiet
            },
            Command::Ignore => quiet,
        }
    }

    /// Takes the player's acknowledgement of the farewell, which ends the
    /// session.
    pub fn acknowledge(&mut self)
        ensures
            final(self)@ == old(self)@.acknowledged(),
            old(self)@.wf() ==> final(self)@.wf(),
    {
        match self.phase {
            Phase::Quitting => {
                self.phase = Phase::Terminated;
            },
            _ => {},
        }
    }
}

/// The life of a session has three phases and two steps between them: the
/// quit command takes it from running to quitting, and the acknowledgement
/// of the farewell from quitting to terminated. Nothing else changes the
/// phase, and nothing takes a session back.
pub proof fn lemma_lifecycle(s: SessionView, command: Command, recruit_name: Seq<char>, now: nat)
    ensures
        s.after_command(command, recruit_name).phase == if s.phase == Phase::Running && command
            == Command::Quit {
            Phase::Quitting
        } else {
            s.phase
        },
        s.after_clock(now).phase == s.phase,
        s.acknowledged().phase == if s.phase == Phase::Quitting {
            Phase::Terminated
        } else {
            s.phase
        },
{
}

/// Once the player has quit, the game stands still: neither the clock nor a
/// key changes anything, nothing is shown for a key, and no frame is drawn.
pub proof fn lemma_still_after_quit(
    s: SessionView,
    command: Command,
    recruit_name: Seq<char>,
    now: nat,
)
    requires
        s.phase != Phase::Running,
    ensures
        s.after_command(command, recruit_name) == s,
        s.reaction_to(command) == (Reaction { notice: Notice::Nothing, pause_millis: 0 }),
        s.after_clock(now) == s,
        s.frame_at(now) == (Frame { ticked: false, render: false, limit_reached: false }),
{
}

/// A command is carried out whole or not at all: the quit command changes
/// the phase and nothing else, every other command changes the game as the
/// game's own rule says and nothing else, and a key without a meaning
/// changes nothing.
pub proof fn lemma_command_does_one_thing(
    s: SessionView,
    command: Command,
    recruit_name: Seq<char>,
)
    requires
        s.phase == Phase::Running,
        !s.blocked(command),
    ensures
        s.after_command(command, recruit_name) == (SessionView {
            phase: s.after_command(command, recruit_name).phase,
            game: s.after_command(command, recruit_name).game,
            ..s
        }),
        command == Command::Quit ==> s.after_command(command, recruit_name).game == s.game,
        command == Command::Upgrade ==> s.after_command(command, recruit_name).game
            == s.game.after(GameEvent::Upgrade),
        command == Command::Recruit ==> s.after_command(command, recruit_name).game
            == s.game.after(GameEvent::Recruit { name: recruit_name }),
        command == Command::SelectPrevious ==> s.after_command(command, recruit_name).game
            == s.game.after(GameEvent::SelectPrevious),
        command == Command::SelectNext ==> s.after_command(command, recruit_name).game
            == s.game.after(GameEvent::SelectNext),
        command == Command::Ignore ==> s.after_command(command, recruit_name) == s,
{
}

/// The swimmers swim once per tick interval and no more often: on a reading
/// of the clock they swim once if a full interval has passed since the last
/// tick and not at all otherwise, and after a tick none is due before
/// another full interval has passed. (With an interval of zero a tick is due
/// at every reading.)
pub proof fn lemma_one_tick_per_interval(s: SessionView, now: nat, later: nat)
    requires
        s.phase == Phase::Running,
        !s.clock_blocked(now),
    ensures
        s.after_clock(now).game == if now >= s.last_update + s.settings.tick_interval_nanos
            || s.settings.tick_interval_nanos == 0 {
            s.game.after(GameEvent::Tick)
        } else {
            s.game
        },
        s.frame_at(now).ticked && s.settings.tick_interval_nanos > 0 && later < now
            + s.settings.tick_interval_nanos ==> !s.after_clock(now).tick_due(later),
{
}

/// The screen is drawn once per render interval, whatever the ticks do: a
/// drawing is due exactly when a full render interval has passed since the
/// last one, and after a drawing none is due before another full interval
/// has passed. (With an interval of zero a drawing is due at every reading.)
pub proof fn lemma_one_drawing_per_interval(s: SessionView, now: nat, later: nat)
    requires
        s.phase == Phase::Running,
        !s.clock_blocked(now),
    ensures
        s.frame_at(now).render == (now >= s.last_render + s.settings.render_interval_nanos
            || s.settings.render_interval_nanos == 0),
        s.frame_at(now).render && s.settings.render_interval_nanos > 0 && later < now
            + s.settings.render_interval_nanos ==> !s.after_clock(now).render_due(later),
{
}

/// Whatever the clock or the player does, the invariant of the session
/// holds afterwards.
pub proof fn lemma_session_keeps_wf(
    s: SessionView,
    command: Command,
    recruit_name: Seq<char>,
    now: nat,
)
    requires
        s.wf(),
    ensures
        s.after_command(command, recruit_name).wf(),
        s.after_clock(now).wf(),
        s.acknowledged().wf(),
{
    lemma_event_keeps_wf(s.game, GameEvent::Tick);
    lemma_event_keeps_wf(s.game, GameEvent::Upgrade);
    lemma_event_keeps_wf(s.game, GameEvent::Recruit { name: recruit_name });
    lemma_event_keeps_wf(s.game, GameEvent::SelectPrevious);
    lemma_event_keeps_wf(s.game, GameEvent::SelectNext);
}

} // verus!
