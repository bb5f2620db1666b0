//! The game: its swimmers, the one the player has selected, and what the
//! next recruit costs.

use crate::swimmer::{lemma_swim_keeps_wf, lemma_upgrade_keeps_wf, Swimmer, SwimmerView};
use crate::utils::{generate_random_name, NameData, NameDataView};
use vstd::prelude::*;

verus! {

/// The speed of every new swimmer, in tenths: 0.7.
pub const BASE_SPEED_TENTHS: usize = 7;

/// What the first recruit costs, in lengths.
pub const STARTING_NEW_SWIMMER_COST: usize = 25;

/// What the first upgrade of a recruit costs, in lengths.
pub const RECRUIT_UPGRADE_COST: usize = 10;

/// The state of a game.
pub struct Game {
    swimmers: Vec<Swimmer>,
    selected_index: usize,
    name_data: NameData,
    new_swimmer_cost: usize,
}

/// A game as a mathematical value: what a front end draws, and the catalog
/// that names its recruits.
pub struct GameView {
    pub swimmers: Seq<SwimmerView>,
    pub selected_index: nat,
    pub new_swimmer_cost: nat,
    pub names: NameDataView,
}

/// The views of a list of swimmers, in order.
pub open spec fn swimmer_views(list: Seq<Swimmer>) -> Seq<SwimmerView> {
    Seq::new(list.len(), |i: int| list[i]@)
}

/// The lengths that the swimmers hold between them.
pub open spec fn total_lengths(swimmers: Seq<SwimmerView>) -> int
    decreases swimmers.len(),
{
    if swimmers.len() == 0 {
        0
    } else {
        total_lengths(swimmers.drop_last()) + swimmers.last().lengths
    }
}

/// A recruit as it joins: a fresh swimmer at the base speed.
pub open spec fn recruit_view(name: Seq<char>) -> SwimmerView {
    SwimmerView {
        upgrade_cost: RECRUIT_UPGRADE_COST as nat,
        ..SwimmerView::fresh(name, BASE_SPEED_TENTHS as nat)
    }
}

/// The cost of the recruit after one of cost `cost`: one and a half times as
/// much, rounded down.
pub open spec fn next_recruit_cost(cost: nat) -> nat {
    (cost * 3) / 2
}

impl GameView {
    /// A game as it opens: one swimmer of the given name, selected, and the
    /// first recruit at its starting cost.
    pub open spec fn opening(names: NameDataView, first_name: Seq<char>) -> GameView {
        GameView {
            swimmers: seq![SwimmerView::fresh(first_name, BASE_SPEED_TENTHS as nat)],
            selected_index: 0,
            new_swimmer_cost: STARTING_NEW_SWIMMER_COST as nat,
            names,
        }
    }

    /// The invariant of a game: there is a swimmer, the selection points at
    /// one, a recruit costs at least one length, and every swimmer and the
    /// catalog are well formed.
    pub open spec fn wf(self) -> bool {
        &&& self.swimmers.len() >= 1
        &&& self.selected_index < self.swimmers.len()
        &&& self.new_swimmer_cost >= 1
        &&& self.names.wf()
        &&& forall|i: int| 0 <= i < self.swimmers.len() ==> (#[trigger] self.swimmers[i]).wf()
    }

    /// Whether the game fits the machine types that hold it.
    pub open spec fn representable(self) -> bool {
        &&& self.selected_index <= usize::MAX
        &&& self.new_swimmer_cost <= usize::MAX
        &&& forall|i: int|
            0 <= i < self.swimmers.len() ==> (#[trigger] self.swimmers[i]).representable()
    }

    /// The swimmer that the player has selected.
    pub open spec fn selected(self) -> SwimmerView {
        self.swimmers[self.selected_index as int]
    }

    /// The lengths that all swimmers hold between them.
    pub open spec fn total_lengths(self) -> int {
        total_lengths(self.swimmers)
    }

    /// Whether the swimmers hold enough between them to pay for a recruit.
    pub open spec fn can_recruit(self) -> bool {
        self.total_lengths() >= self.new_swimmer_cost
    }

    /// What the first swimmer lacks to pay for a recruit by itself. This is
    /// the amount shown to the player when recruiting fails.
    pub open spec fn recruit_shortfall(self) -> int {
        self.new_swimmer_cost - self.swimmers[0].lengths
    }

    /// The game after an attempt to recruit a swimmer called `name`. Without
    /// the funds nothing changes. With them the first swimmer alone pays the
    /// whole cost, whatever it holds itself; the recruit joins at the end of
    /// the list; and the next recruit costs one and a half times as much.
    pub open spec fn recruit(self, name: Seq<char>) -> GameView {
        if self.can_recruit() {
            let payer = SwimmerView {
                lengths: self.swimmers[0].lengths - self.new_swimmer_cost,
                ..self.swimmers[0]
            };
            GameView {
                swimmers: self.swimmers.update(0, payer).push(recruit_view(name)),
                new_swimmer_cost: next_recruit_cost(self.new_swimmer_cost),
                ..self
            }
        } else {
            self
        }
    }

    /// Whether the game after an attempt to recruit fits the machine types
    /// that hold it. The name of the recruit makes no difference to that.
    pub open spec fn recruit_fits(self) -> bool {
        self.recruit(Seq::empty()).representable()
    }

    /// The game after moving the selection one swimmer up; at the first
    /// swimmer it stays.
    pub open spec fn select_previous(self) -> GameView {
        if self.selected_index > 0 {
            GameView { selected_index: (self.selected_index - 1) as nat, ..self }
        } else {
            self
        }
    }

    /// The game after moving the selection one swimmer down; at the last
    /// swimmer it stays.
    pub open spec fn select_next(self) -> GameView {
        if self.selected_index + 1 < self.swimmers.len() {
            GameView { selected_index: self.selected_index + 1, ..self }
        } else {
            self
        }
    }

    /// The game after one tick: every swimmer has swum once.
    pub open spec fn tick(self) -> GameView {
        GameView {
            swimmers: Seq::new(self.swimmers.len(), |i: int| self.swimmers[i].swim()),
            ..self
        }
    }

    /// The game after an attempt to upgrade the selected swimmer.
    pub open spec fn upgrade_selected(self) -> GameView {
        GameView {
            swimmers: self.swimmers.update(self.selected_index as int, self.selected().upgrade()),
            ..self
        }
    }
}

/// The lengths that the swimmers of a list hold between them.
pub fn lengths_held(swimmers: &[Swimmer]) -> (total: i128)
    ensures
        total == total_lengths(swimmer_views(swimmers@)),
{
    let ghost views = swimmer_views(swimmers@);
    let mut total: i128 = 0;
    let mut i: usize = 0;
    while i < swimmers.len()
        invariant
            i <= swimmers.len(),
            views == swimmer_views(swimmers@),
            total == total_lengths(views.subrange(0, i as int)),
            -0x8000_0000 * i <= total <= 0x8000_0000 * i,
        decreases swimmers.len() - i,
    {
        assert(views.subrange(0, i + 1).drop_last() =~= views.subrange(0, i as int));
        total = total + swimmers[i].lengths as i128;
        i = i + 1;
    }
    assert(views.subrange(0, i as int) =~= views);
    total
}

impl View for Game {
    type V = GameView;

    closed spec fn view(&self) -> GameView {
        GameView {
            swimmers: swimmer_views(self.swimmers@),
            selected_index: self.selected_index as nat,
            new_swimmer_cost: self.new_swimmer_cost as nat,
            names: self.name_data@,
        }
    }
}

impl Game {
    /// Opens a game with one swimmer, whose name is drawn from the catalog.
    pub fn new(name_data: NameData) -> (game: Game)
        requires
            name_data@.wf(),
        ensures
            game@ == GameView::opening(name_data@, game@.swimmers[0].name),
            name_data@.offers(game@.swimmers[0].name),
            game@.wf(),
    {
        let first_name: String = generate_random_name(&name_data);
        Game::with_first_swimmer(name_data, first_name.as_str())
    }

    /// Opens a game with one swimmer of the given name.
    pub fn with_first_swimmer(name_data: NameData, first_name: &str) -> (game: Game)
        requires
            name_data@.wf(),
        ensures
            game@ == GameView::opening(name_data@, first_name@),
            game@.wf(),
    {
        let mut swimmers: Vec<Swimmer> = Vec::new();
        swimmers.push(Swimmer::new(first_name, BASE_SPEED_TENTHS));
        let game = Game {
            swimmers,
            selected_index: 0,
            name_data,
            new_swimmer_cost: STARTING_NEW_SWIMMER_COST,
        };
        assert(game@.swimmers =~= GameView::opening(name_data@, first_name@).swimmers);
        game
    }

    /// Makes a game of the given parts, or none if they do not meet the
    /// invariant of a game.
    pub fn from_parts(
        swimmers: Vec<Swimmer>,
        selected_index: usize,
        name_data: NameData,
        new_swimmer_cost: usize,
    ) -> (made: Option<Game>)
        ensures
            made is Some <==> (GameView {
                swimmers: swimmer_views(swimmers@),
                selected_index: selected_index as nat,
                new_swimmer_cost: new_swimmer_cost as nat,
                names: name_data@,
            }).wf(),
            made matches Some(game) ==> game@ == (GameView {
                swimmers: swimmer_views(swimmers@),
                selected_index: selected_index as nat,
                new_swimmer_cost: new_swimmer_cost as nat,
                names: name_data@,
            }),
    {
        let game = Game { swimmers, selected_index, name_data, new_swimmer_cost };
        if game.is_valid() {
            Some(game)
        } else {
            None
        }
    }

    /// Whether the game meets its invariant. Every game that this module
    /// hands out does.
    pub fn is_valid(&self) -> (valid: bool)
        ensures
            valid == self@.wf(),
    {
        if self.swimmers.len() == 0 || self.selected_index >= self.swimmers.len()
            || self.new_swimmer_cost == 0 || !self.name_data.is_valid() {
            return false;
        }
        let mut i: usize = 0;
        while i < self.swimmers.len()
            invariant
                i <= self.swimmers.len(),
                forall|j: int| 0 <= j < i ==> (#[trigger] self@.swimmers[j]).wf(),
            decreases self.swimmers.len() - i,
        {
            if !self.swimmers[i].is_valid() {
                assert(!self@.swimmers[i as int].wf());
                return false;
            }
            i = i + 1;
        }
        true
    }

    /// The swimmers, in the order in which they joined.
    pub fn swimmers(&self) -> (list: &Vec<Swimmer>)
        ensures
            swimmer_views(list@) == self@.swimmers,
    {
        &self.swimmers
    }

    /// The index of the selected swimmer.
    pub fn selected_index(&self) -> (index: usize)
        ensures
            index == self@.selected_index,
    {
        self.selected_index
    }

    /// What the next recruit costs, in lengths.
    pub fn new_swimmer_cost(&self) -> (cost: usize)
        ensures
            cost == self@.new_swimmer_cost,
    {
        self.new_swimmer_cost
    }

    /// The catalog that names the recruits.
    pub fn name_data(&self) -> (name_data: &NameData)
        ensures
            name_data@ == self@.names,
    {
        &self.name_data
    }

    /// The selected swimmer.
    pub fn selected(&self) -> (swimmer: &Swimmer)
        requires
            self@.wf(),
        ensures
            swimmer@ == self@.selected(),
    {
        &self.swimmers[self.selected_index]
    }

    /// The lengths that all swimmers hold between them.
    pub fn total_lengths(&self) -> (total: i128)
        ensures
            total == self@.total_lengths(),
    {
        lengths_held(self.swimmers.as_slice())
    }

    /// Whether the swimmers hold enough between them to pay for a recruit.
    pub fn can_recruit(&self) -> (enough: bool)
        ensures
            enough == self@.can_recruit(),
    {
        self.total_lengths() >= self.new_swimmer_cost as i128
    }

    /// What the first swimmer lacks to pay for a recruit by itself.
    pub fn recruit_shortfall(&self) -> (missing: i128)
        requires
            self@.wf(),
        ensures
            missing == self@.recruit_shortfall(),
    {
        self.new_swimmer_cost as i128 - self.swimmers[0].lengths as i128
    }

    /// Whether `recruit` and `add_new_swimmer` can be called: what they would
    /// set must fit the fields. Which name the recruit gets makes no
    /// difference.
    pub fn recruit_fits(&self) -> (fits: bool)
        requires
            self@.wf(),
        ensures
            fits == self@.recruit_fits(),
    {
        if !self.can_recruit() {
            return true;
        }
        let cost: u128 = self.new_swimmer_cost as u128;
        let paid: i128 = self.swimmers[0].lengths as i128 - self.new_swimmer_cost as i128;
        proof {
            if paid < i32::MIN {
                assert(!self@.recruit(Seq::empty()).swimmers[0].representable());
            }
        }
        paid >= i32::MIN as i128 && cost * 3 / 2 <= usize::MAX as u128
    }

    /// Recruits a swimmer called `name` if the swimmers hold enough between
    /// them. Returns whether the recruit joined.
    pub fn recruit(&mut self, name: &str) -> (recruited: bool)
        requires
            old(self)@.wf(),
            old(self)@.recruit_fits(),
        ensures
            recruited == old(self)@.can_recruit(),
            final(self)@ == old(self)@.recruit(name@),
            final(self)@.wf(),
    {
        if !self.can_recruit() {
            return false;
        }
        let ghost before = self@;
        let ghost after = before.recruit(name@);
        proof {
            lemma_recruit_fits_any_name(before, name@);
        }
        let cost: usize = self.new_swimmer_cost;
        let paid: i128 = self.swimmers[0].lengths as i128 - cost as i128;
        self.swimmers[0].lengths = paid as i32;
        let mut recruit = Swimmer::new(name, BASE_SPEED_TENTHS);
        recruit.upgrade_cost = RECRUIT_UPGRADE_COST;
        self.swimmers.push(recruit);
        self.new_swimmer_cost = (cost as u128 * 3 / 2) as usize;
        assert(self@.swimmers =~= after.swimmers);
        proof {
            lemma_recruit_keeps_wf(before, name@);
        }
        true
    }

    /// Adds a new swimmer, with a name drawn from the catalog, if the
    /// swimmers hold enough between them. Returns whether the recruit joined.
    pub fn add_new_swimmer(&mut self) -> (recruited: bool)
        requires
            old(self)@.wf(),
            old(self)@.recruit_fits(),
        ensures
            recruited == old(self)@.can_recruit(),
            !recruited ==> final(self)@ == old(self)@,
            recruited ==> {
                &&& final(self)@ == old(self)@.recruit(final(self)@.swimmers.last().name)
                &&& old(self)@.names.offers(final(self)@.swimmers.last().name)
            },
            final(self)@.wf(),
    {
        if !self.can_recruit() {
            return false;
        }
        let new_name: String = generate_random_name(&self.name_data);
        self.recruit(new_name.as_str())
    }

    /// Moves the selection one swimmer up, unless it is at the first.
    pub fn select_previous(&mut self)
        requires
            old(self)@.wf(),
        ensures
            final(self)@ == old(self)@.select_previous(),
            final(self)@.wf(),
    {
        if self.selected_index > 0 {
            self.selected_index = self.selected_index - 1;
        }
    }

    /// Moves the selection one swimmer down, unless it is at the last.
    pub fn select_next(&mut self)
        requires
            old(self)@.wf(),
        ensures
            final(self)@ == old(self)@.select_next(),
            final(self)@.wf(),
    {
        if self.selected_index < self.swimmers.len() - 1 {
            self.selected_index = self.selected_index + 1;
        }
    }

    /// Whether `tick` can be called: the lengths that the tick may earn must
    /// fit the counters.
    pub fn tick_fits(&self) -> (fits: bool)
        ensures
            fits == self@.tick().representable(),
    {
        let mut i: usize = 0;
        while i < self.swimmers.len()
            invariant
                i <= self.swimmers.len(),
                forall|j: int|
                    0 <= j < i ==> (#[trigger] self.swimmers[j])@.swim().representable(),
            decreases self.swimmers.len() - i,
        {
            if !self.swimmers[i].can_swim() {
                assert(!self@.tick().swimmers[i as int].representable());
                return false;
            }
            i = i + 1;
        }
        true
    }

    /// Advances the game by one tick: every swimmer swims once.
    pub fn tick(&mut self)
        requires
            old(self)@.wf(),
            old(self)@.tick().representable(),
        ensures
            final(self)@ == old(self)@.tick(),
            final(self)@.wf(),
    {
        let ghost before = self@;
        let mut i: usize = 0;
        while i < self.swimmers.len()
            invariant
                i <= self.swimmers.len(),
                self.swimmers.len() == before.swimmers.len(),
                self.selected_index == old(self).selected_index,
                self.new_swimmer_cost == old(self).new_swimmer_cost,
                self.name_data == old(self).name_data,
                before == old(self)@,
                before.tick().representable(),
                forall|j: int|
                    0 <= j < i ==> (#[trigger] self.swimmers[j])@ == before.swimmers[j].swim(),
                forall|j: int|
                    i <= j < self.swimmers.len() ==> (#[trigger] self.swimmers[j])@
                        == before.swimmers[j],
            decreases self.swimmers.len() - i,
        {
            assert(before.tick().swimmers[i as int].representable());
            self.swimmers[i].swim();
            i = i + 1;
        }
        assert(self@.swimmers =~= before.tick().swimmers);
        proof {
            lemma_tick_keeps_wf(before);
        }
    }

    /// Whether `upgrade_selected` can be called: what it would set must fit
    /// the fields.
    pub fn upgrade_selected_fits(&self) -> (fits: bool)
        requires
            self@.wf(),
        ensures
            fits == self@.upgrade_selected().representable(),
    {
        let fits: bool = self.swimmers[self.selected_index].upgrade_fits();
        proof {
            if !fits {
                let after = self@.upgrade_selected();
                assert(!after.swimmers[self.selected_index as int].representable());
            }
        }
        fits
    }

    /// Attempts to upgrade the selected swimmer. Returns whether the upgrade
    /// was made.
    pub fn upgrade_selected(&mut self) -> (upgraded: bool)
        requires
            old(self)@.wf(),
            old(self)@.upgrade_selected().representable(),
        ensures
            upgraded == old(self)@.selected().can_upgrade(),
            final(self)@ == old(self)@.upgrade_selected(),
            final(self)@.wf(),
    {
        let ghost before = self@;
        assert(before.upgrade_selected().swimmers[self.selected_index as int].representable());
        let upgraded: bool = self.swimmers[self.selected_index].upgrade();
        assert(self@.swimmers =~= before.upgrade_selected().swimmers);
        proof {
            lemma_upgrade_selected_keeps_wf(before);
        }
        upgraded
    }
}

/// One thing that can happen to a game.
pub enum GameEvent {
    /// A tick of the simulation.
    Tick,
    /// An attempt to upgrade the selected swimmer.
    Upgrade,
    /// An attempt to recruit a swimmer of this name.
    Recruit { name: Seq<char> },
    /// The selection moves up.
    SelectPrevious,
    /// The selection moves down.
    SelectNext,
}

impl GameEvent {
    /// Whether the event is a move of the selection.
    pub open spec fn is_selection(self) -> bool {
        self is SelectPrevious || self is SelectNext
    }
}

impl GameView {
    /// The game after one event.
    pub open spec fn after(self, event: GameEvent) -> GameView {
        match event {
            GameEvent::Tick => self.tick(),
            GameEvent::Upgrade => self.upgrade_selected(),
            GameEvent::Recruit { name } => self.recruit(name),
            GameEvent::SelectPrevious => self.select_previous(),
            GameEvent::SelectNext => self.select_next(),
        }
    }

    /// The game after a sequence of events, the first of them first.
    pub open spec fn after_all(self, events: Seq<GameEvent>) -> GameView
        decreases events.len(),
    {
        if events.len() == 0 {
            self
        } else {
            self.after_all(events.drop_last()).after(events.last())
        }
    }
}

/// Replacing one swimmer changes the total by the difference between what
/// the new one and the old one hold.
pub proof fn lemma_total_lengths_update(swimmers: Seq<SwimmerView>, i: int, swimmer: SwimmerView)
    requires
        0 <= i < swimmers.len(),
    ensures
        total_lengths(swimmers.update(i, swimmer)) == total_lengths(swimmers)
            - swimmers[i].lengths + swimmer.lengths,
    decreases swimmers.len(),
{
    let updated = swimmers.update(i, swimmer);
    if i == swimmers.len() - 1 {
        assert(updated.drop_last() =~= swimmers.drop_last());
    } else {
        assert(updated.drop_last() =~= swimmers.drop_last().update(i, swimmer));
        lemma_total_lengths_update(swimmers.drop_last(), i, swimmer);
    }
}

/// Recruiting fails whenever the swimmers hold less between them than a
/// recruit costs, and a failed attempt changes nothing at all.
pub proof fn lemma_recruit_refused_changes_nothing(g: GameView, name: Seq<char>)
    requires
        total_lengths(g.swimmers) < g.new_swimmer_cost,
    ensures
        !g.can_recruit(),
        g.recruit(name) == g,
{
}

/// Recruiting succeeds whenever the swimmers hold at least the cost between
/// them. The first swimmer then pays exactly the cost, even where it holds
/// less than that itself, and nothing else about it changes; the other
/// swimmers are untouched; exactly one swimmer joins, at the end, with speed
/// 0.7, an upgrade cost of 10 and nothing earned; the selection stays; and
/// the cost of the next recruit is one and a half times the old cost,
/// rounded down.
pub proof fn lemma_recruit_granted(g: GameView, name: Seq<char>)
    requires
        g.swimmers.len() >= 1,
        total_lengths(g.swimmers) >= g.new_swimmer_cost,
    ensures
        g.can_recruit(),
        g.recruit(name).swimmers.len() == g.swimmers.len() + 1,
        g.recruit(name).swimmers[0] == (SwimmerView {
            lengths: g.swimmers[0].lengths - g.new_swimmer_cost,
            ..g.swimmers[0]
        }),
        forall|i: int|
            1 <= i < g.swimmers.len() ==> #[trigger] g.recruit(name).swimmers[i] == g.swimmers[i],
        g.recruit(name).swimmers.last() == (SwimmerView {
            name,
            speed_tenths: 7,
            lengths: 0,
            upgrade_cost: 10,
            position: 0,
            direction: true,
            upgrade_multiplier_percent: 120,
        }),
        g.recruit(name).new_swimmer_cost == (g.new_swimmer_cost * 3) / 2,
        g.recruit(name).selected_index == g.selected_index,
        g.recruit(name).names == g.names,
        total_lengths(g.recruit(name).swimmers) == total_lengths(g.swimmers) - g.new_swimmer_cost,
{
    let payer = SwimmerView {
        lengths: g.swimmers[0].lengths - g.new_swimmer_cost,
        ..g.swimmers[0]
    };
    let paid = g.swimmers.update(0, payer);
    lemma_total_lengths_update(g.swimmers, 0, payer);
    assert(paid.push(recruit_view(name)).drop_last() =~= paid);
}

/// A move of the selection changes nothing but the selection, and leaves it
/// on a swimmer of the list.
pub proof fn lemma_selection_move(g: GameView, event: GameEvent)
    requires
        g.wf(),
        event.is_selection(),
    ensures
        g.after(event).selected_index < g.swimmers.len(),
        g.after(event) == (GameView { selected_index: g.after(event).selected_index, ..g }),
        event is SelectPrevious ==> g.after(event).selected_index == if g.selected_index == 0 {
            0nat
        } else {
            (g.selected_index - 1) as nat
        },
        event is SelectNext ==> g.after(event).selected_index == if g.selected_index
            == g.swimmers.len() - 1 {
            g.selected_index
        } else {
            g.selected_index + 1
        },
{
}

/// After any sequence of moves of the selection, however often it is pushed
/// against the first or the last swimmer, the selection is still on a
/// swimmer of the list, and nothing else has changed.
pub proof fn lemma_selection_stays_in_range(g: GameView, moves: Seq<GameEvent>)
    requires
        g.wf(),
        forall|i: int| 0 <= i < moves.len() ==> (#[trigger] moves[i]).is_selection(),
    ensures
        0 <= g.after_all(moves).selected_index <= g.swimmers.len() - 1,
        g.after_all(moves) == (GameView {
            selected_index: g.after_all(moves).selected_index,
            ..g
        }),
    decreases moves.len(),
{
    if moves.len() > 0 {
        lemma_selection_stays_in_range(g, moves.drop_last());
        lemma_selection_move(g.after_all(moves.drop_last()), moves.last());
    }
}

/// Whatever happens to a game keeps its invariant. No swimmer ever leaves,
/// none changes its name or its place in the list, and the cost of a recruit
/// never falls.
pub proof fn lemma_event_keeps_wf(g: GameView, event: GameEvent)
    requires
        g.wf(),
    ensures
        g.after(event).wf(),
        g.after(event).swimmers.len() >= g.swimmers.len(),
        forall|i: int|
            0 <= i < g.swimmers.len() ==> (#[trigger] g.after(event).swimmers[i]).name
                == g.swimmers[i].name,
        g.after(event).new_swimmer_cost >= g.new_swimmer_cost,
        g.after(event).names == g.names,
{
    match event {
        GameEvent::Tick => {
            lemma_tick_keeps_wf(g);
        },
        GameEvent::Upgrade => {
            lemma_upgrade_selected_keeps_wf(g);
        },
        GameEvent::Recruit { name } => {
            lemma_recruit_keeps_wf(g, name);
        },
        GameEvent::SelectPrevious => {},
        GameEvent::SelectNext => {},
    }
}

/// After any sequence of events the invariant of the game holds: there is a
/// swimmer, and the selection is on one. The list has only grown, its
/// swimmers have kept their names and places, and the cost of a recruit is
/// no lower than it was.
pub proof fn lemma_events_keep_wf(g: GameView, events: Seq<GameEvent>)
    requires
        g.wf(),
    ensures
        g.after_all(events).wf(),
        0 <= g.after_all(events).selected_index <= g.after_all(events).swimmers.len() - 1,
        g.after_all(events).swimmers.len() >= g.swimmers.len(),
        forall|i: int|
            0 <= i < g.swimmers.len() ==> (#[trigger] g.after_all(events).swimmers[i]).name
                == g.swimmers[i].name,
        g.after_all(events).new_swimmer_cost >= g.new_swimmer_cost,
        g.after_all(events).names == g.names,
    decreases events.len(),
{
    if events.len() > 0 {
        let earlier = g.after_all(events.drop_last());
        lemma_events_keep_wf(g, events.drop_last());
        lemma_event_keeps_wf(earlier, events.last());
    }
}

/// Whether the game after a recruit fits the machine does not depend on the
/// name of the recruit.
pub proof fn lemma_recruit_fits_any_name(g: GameView, name: Seq<char>)
    requires
        g.swimmers.len() >= 1,
    ensures
        g.recruit_fits() == g.recruit(name).representable(),
{
    let unnamed = g.recruit(Seq::empty());
    let named = g.recruit(name);
    if g.can_recruit() {
        if unnamed.representable() {
            assert forall|i: int| 0 <= i < named.swimmers.len() implies
                (#[trigger] named.swimmers[i]).representable() by {
                if i < g.swimmers.len() {
                    assert(unnamed.swimmers[i].representable());
                }
            }
        }
        if named.representable() {
            assert forall|i: int| 0 <= i < unnamed.swimmers.len() implies
                (#[trigger] unnamed.swimmers[i]).representable() by {
                if i < g.swimmers.len() {
                    assert(named.swimmers[i].representable());
                }
            }
        }
    }
}

/// Recruiting keeps the invariant of a game.
pub proof fn lemma_recruit_keeps_wf(g: GameView, name: Seq<char>)
    requires
        g.wf(),
    ensures
        g.recruit(name).wf(),
        g.recruit(name).new_swimmer_cost >= g.new_swimmer_cost,
{
}

/// A tick keeps the invariant of a game.
pub proof fn lemma_tick_keeps_wf(g: GameView)
    requires
        g.wf(),
    ensures
        g.tick().wf(),
{
    assert forall|i: int| 0 <= i < g.tick().swimmers.len() implies
        (#[trigger] g.tick().swimmers[i]).wf() by {
        lemma_swim_keeps_wf(g.swimmers[i]);
    }
}

/// An upgrade attempt keeps the invariant of a game.
pub proof fn lemma_upgrade_selected_keeps_wf(g: GameView)
    requires
        g.wf(),
    ensures
        g.upgrade_selected().wf(),
{
    let after = g.upgrade_selected();
    assert forall|i: int| 0 <= i < after.swimmers.len() implies
        (#[trigger] after.swimmers[i]).wf() by {
        if i == g.selected_index {
            lemma_upgrade_keeps_wf(g.selected());
        }
    }
}

} // verus!
