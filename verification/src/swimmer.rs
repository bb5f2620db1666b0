//! One swimmer: where it is in its lane, how fast it swims, what it has
//! earned, and what its next upgrade costs.
//!
//! Speeds and multipliers are fractional in the game's rules. They are held
//! as exact fixed-point numbers: a speed in tenths of a lane unit per tick, a
//! cost multiplier in hundredths.

use crate::text::{append_one_decimal_place, one_decimal_place};
use vstd::prelude::*;

verus! {

/// The far wall of the lane. The near wall is at 0.
pub const LANE_END: usize = 100;

/// What the first upgrade of a new swimmer costs, in lengths.
pub const STARTING_UPGRADE_COST: usize = 10;

/// The cost multiplier of a new swimmer, in hundredths: 1.2.
pub const STARTING_MULTIPLIER_PERCENT: usize = 120;

/// What one upgrade adds to the speed, in tenths: 0.5.
pub const SPEED_GAIN_TENTHS: usize = 5;

/// What one upgrade adds to the cost multiplier, in hundredths: 0.02.
pub const MULTIPLIER_GAIN_PERCENT: usize = 2;

/// A swimmer in its lane.
pub struct Swimmer {
    /// Display name, never changed after creation.
    pub name: String,
    /// Speed in tenths of a lane unit per tick.
    pub speed_tenths: usize,
    /// Lengths earned and not yet spent. The first swimmer of a game pays for
    /// every recruit, whatever it holds itself, so this can fall below zero.
    pub lengths: i32,
    /// Cost, in lengths, of the next upgrade.
    pub upgrade_cost: usize,
    /// Position in the lane, from 0 to `LANE_END`.
    pub position: usize,
    /// `true` while swimming forward, toward `LANE_END`; `false` on the way back.
    pub direction: bool,
    /// Factor by which an upgrade raises the cost of the next one, in hundredths.
    pub upgrade_multiplier_percent: usize,
}

/// A swimmer as a mathematical value, free of machine limits.
pub struct SwimmerView {
    pub name: Seq<char>,
    pub speed_tenths: nat,
    pub lengths: int,
    pub upgrade_cost: nat,
    pub position: nat,
    pub direction: bool,
    pub upgrade_multiplier_percent: nat,
}

/// The cost of the upgrade that follows one of cost `cost`, with the
/// multiplier at `percent` hundredths: their product, rounded down.
pub open spec fn raised_cost(cost: nat, percent: nat) -> nat {
    (cost * percent) / 100
}

impl SwimmerView {
    /// A swimmer as it is created: at the near wall, heading forward, with
    /// nothing earned.
    pub open spec fn fresh(name: Seq<char>, speed_tenths: nat) -> SwimmerView {
        SwimmerView {
            name,
            speed_tenths,
            lengths: 0,
            upgrade_cost: STARTING_UPGRADE_COST as nat,
            position: 0,
            direction: true,
            upgrade_multiplier_percent: STARTING_MULTIPLIER_PERCENT as nat,
        }
    }

    /// The invariant of a swimmer: it is inside the lane, its speed is
    /// positive, an upgrade costs at least one length, and the multiplier is
    /// at least 1. The lengths are not bound: a swimmer that pays for recruits
    /// can owe lengths.
    pub open spec fn wf(self) -> bool {
        &&& self.position <= LANE_END
        &&& self.speed_tenths >= 1
        &&& self.upgrade_cost >= 1
        &&& self.upgrade_multiplier_percent >= 100
    }

    /// Whether every field fits the machine type that holds it.
    pub open spec fn representable(self) -> bool {
        &&& self.speed_tenths <= usize::MAX
        &&& i32::MIN <= self.lengths <= i32::MAX
        &&& self.upgrade_cost <= usize::MAX
        &&& self.position <= usize::MAX
        &&& self.upgrade_multiplier_percent <= usize::MAX
    }

    /// The distance covered in one tick: the speed rounded to the nearest
    /// whole unit, a half rounded up.
    pub open spec fn stride(self) -> nat {
        (self.speed_tenths + 5) / 10
    }

    /// Whether the next tick takes the swimmer to the wall it is heading for.
    pub open spec fn reaches_wall(self) -> bool {
        if self.direction {
            self.position + self.stride() >= LANE_END
        } else {
            self.position <= self.stride()
        }
    }

    /// The swimmer after one tick. It moves by its stride; where that takes
    /// it to the wall or past it, it stops at the wall, earns one length and
    /// turns round.
    pub open spec fn swim(self) -> SwimmerView {
        if self.reaches_wall() {
            SwimmerView {
                position: if self.direction {
                    LANE_END as nat
                } else {
                    0
                },
                direction: !self.direction,
                lengths: self.lengths + 1,
                ..self
            }
        } else if self.direction {
            SwimmerView { position: self.position + self.stride(), ..self }
        } else {
            SwimmerView { position: (self.position - self.stride()) as nat, ..self }
        }
    }

    /// The swimmer after `ticks` ticks.
    pub open spec fn swim_n(self, ticks: nat) -> SwimmerView
        decreases ticks,
    {
        if ticks == 0 {
            self
        } else {
            self.swim_n((ticks - 1) as nat).swim()
        }
    }

    /// Whether the swimmer has earned enough for its next upgrade.
    pub open spec fn can_upgrade(self) -> bool {
        self.lengths >= self.upgrade_cost
    }

    /// How many lengths the swimmer lacks for its next upgrade; zero or
    /// negative when it can pay.
    pub open spec fn upgrade_shortfall(self) -> int {
        self.upgrade_cost - self.lengths
    }

    /// The swimmer after an attempt to upgrade. Without the funds nothing
    /// changes. With them the cost is paid, the speed grows by 0.5, the next
    /// cost is the old cost times the multiplier as it stood, rounded down,
    /// and only then the multiplier grows by 0.02.
    pub open spec fn upgrade(self) -> SwimmerView {
        if self.can_upgrade() {
            SwimmerView {
                lengths: self.lengths - self.upgrade_cost,
                speed_tenths: (self.speed_tenths + SPEED_GAIN_TENTHS) as nat,
                upgrade_cost: raised_cost(self.upgrade_cost, self.upgrade_multiplier_percent),
                upgrade_multiplier_percent: (self.upgrade_multiplier_percent
                    + MULTIPLIER_GAIN_PERCENT) as nat,
                ..self
            }
        } else {
            self
        }
    }

    /// The speed as shown to the player, with one decimal place.
    pub open spec fn display_speed(self) -> Seq<char> {
        one_decimal_place(self.speed_tenths)
    }
}

impl View for Swimmer {
    type V = SwimmerView;

    open spec fn view(&self) -> SwimmerView {
        SwimmerView {
            name: self.name@,
            speed_tenths: self.speed_tenths as nat,
            lengths: self.lengths as int,
            upgrade_cost: self.upgrade_cost as nat,
            position: self.position as nat,
            direction: self.direction,
            upgrade_multiplier_percent: self.upgrade_multiplier_percent as nat,
        }
    }
}

impl Swimmer {
    /// Creates a swimmer with the given name and speed, the speed in tenths
    /// of a lane unit per tick.
    pub fn new(name: &str, speed_tenths: usize) -> (swimmer: Swimmer)
        requires
            speed_tenths >= 1,
        ensures
            swimmer@ == SwimmerView::fresh(name@, speed_tenths as nat),
            swimmer@.wf(),
    {
        Swimmer {
            name: name.to_owned(),
            speed_tenths,
            lengths: 0,
            upgrade_cost: STARTING_UPGRADE_COST,
            position: 0,
            direction: true,
            upgrade_multiplier_percent: STARTING_MULTIPLIER_PERCENT,
        }
    }

    /// Whether the swimmer meets its invariant.
    pub fn is_valid(&self) -> (valid: bool)
        ensures
            valid == self@.wf(),
    {
        self.position <= LANE_END && self.speed_tenths >= 1 && self.upgrade_cost >= 1
            && self.upgrade_multiplier_percent >= 100
    }

    /// The distance this swimmer covers in one tick.
    pub fn stride(&self) -> (distance: usize)
        ensures
            distance == self@.stride(),
    {
        let whole: usize = self.speed_tenths / 10;
        if self.speed_tenths % 10 >= 5 {
            whole + 1
        } else {
            whole
        }
    }

    /// Whether `swim` can be called: the length that the tick may earn must
    /// still fit the counter.
    pub fn can_swim(&self) -> (fits: bool)
        ensures
            fits == self@.swim().representable(),
    {
        let distance: usize = self.stride();
        let at_wall: bool = if self.direction {
            self.position >= LANE_END || distance >= LANE_END - self.position
        } else {
            self.position <= distance
        };
        !at_wall || self.lengths < i32::MAX
    }

    /// Advances the swimmer by one tick.
    pub fn swim(&mut self)
        requires
            old(self)@.swim().representable(),
        ensures
            final(self)@ == old(self)@.swim(),
            old(self)@.wf() ==> final(self)@.wf(),
    {
        let distance: usize = self.stride();
        if self.direction {
            if self.position >= LANE_END || distance >= LANE_END - self.position {
                self.lengths = self.lengths + 1;
                self.position = LANE_END;
                self.direction = false;
            } else {
                self.position = self.position + distance;
            }
        } else {
            if self.position <= distance {
                self.lengths = self.lengths + 1;
                self.position = 0;
                self.direction = true;
            } else {
                self.position = self.position - distance;
            }
        }
    }

    /// Whether the swimmer has earned enough for its next upgrade.
    pub fn can_upgrade(&self) -> (enough: bool)
        ensures
            enough == self@.can_upgrade(),
    {
        self.lengths >= 0 && self.lengths as usize >= self.upgrade_cost
    }

    /// How many lengths the swimmer lacks for its next upgrade.
    pub fn upgrade_shortfall(&self) -> (missing: i128)
        ensures
            missing == self@.upgrade_shortfall(),
    {
        self.upgrade_cost as i128 - self.lengths as i128
    }

    /// Whether `upgrade` can be called: what it would set must fit the
    /// fields.
    pub fn upgrade_fits(&self) -> (fits: bool)
        ensures
            fits == self@.upgrade().representable(),
    {
        if !self.can_upgrade() {
            return true;
        }
        let raised: u128 = self.raised_upgrade_cost();
        self.speed_tenths <= usize::MAX - SPEED_GAIN_TENTHS && raised <= usize::MAX as u128
            && self.upgrade_multiplier_percent <= usize::MAX - MULTIPLIER_GAIN_PERCENT
    }

    /// The cost of the upgrade after the next one.
    fn raised_upgrade_cost(&self) -> (raised: u128)
        ensures
            raised == raised_cost(
                self.upgrade_cost as nat,
                self.upgrade_multiplier_percent as nat,
            ),
    {
        let cost: u128 = self.upgrade_cost as u128;
        let percent: u128 = self.upgrade_multiplier_percent as u128;
        assert(cost * percent <= 0xffff_ffff_ffff_ffff * 0xffff_ffff_ffff_ffff) by (nonlinear_arith)
            requires
                cost <= 0xffff_ffff_ffff_ffff,
                percent <= 0xffff_ffff_ffff_ffff,
        ;
        cost * percent / 100
    }

    /// Attempts to upgrade the swimmer's speed, paying in lengths. Returns
    /// whether the upgrade was made.
    pub fn upgrade(&mut self) -> (upgraded: bool)
        requires
            old(self)@.upgrade().representable(),
        ensures
            upgraded == old(self)@.can_upgrade(),
            final(self)@ == old(self)@.upgrade(),
            old(self)@.wf() ==> final(self)@.wf(),
    {
        if !self.can_upgrade() {
            return false;
        }
        proof {
            if self@.wf() {
                lemma_upgrade_keeps_wf(self@);
            }
        }
        let raised: u128 = self.raised_upgrade_cost();
        self.lengths = self.lengths - self.upgrade_cost as i32;
        self.speed_tenths = self.speed_tenths + SPEED_GAIN_TENTHS;
        self.upgrade_cost = raised as usize;
        self.upgrade_multiplier_percent = self.upgrade_multiplier_percent
            + MULTIPLIER_GAIN_PERCENT;
        true
    }

    /// The speed as shown to the player, with one decimal place.
    pub fn display_speed(&self) -> (shown: String)
        ensures
            shown@ == self@.display_speed(),
    {
        let mut shown = String::new();
        append_one_decimal_place(&mut shown, self.speed_tenths as u128);
        shown
    }
}

/// The stride is the whole number nearest to the speed, and a speed halfway
/// between two whole numbers takes the larger.
pub proof fn lemma_stride_is_nearest(s: SwimmerView)
    ensures
        10 * s.stride() - 5 <= s.speed_tenths < 10 * s.stride() + 5,
{
}

/// A tick leaves the name, the speed and the upgrade terms alone, and a
/// swimmer that was inside the lane is inside it afterwards.
pub proof fn lemma_swim_keeps_wf(s: SwimmerView)
    ensures
        s.swim().name == s.name,
        s.swim().speed_tenths == s.speed_tenths,
        s.swim().upgrade_cost == s.upgrade_cost,
        s.swim().upgrade_multiplier_percent == s.upgrade_multiplier_percent,
        s.position <= LANE_END ==> s.swim().position <= LANE_END,
        s.wf() ==> s.swim().wf(),
{
}

/// However many ticks pass, a swimmer that starts inside the lane stays
/// between its two walls.
pub proof fn lemma_position_stays_in_lane(s: SwimmerView, ticks: nat)
    requires
        s.wf(),
    ensures
        s.swim_n(ticks).wf(),
        0 <= s.swim_n(ticks).position <= LANE_END,
    decreases ticks,
{
    if ticks > 0 {
        lemma_position_stays_in_lane(s, (ticks - 1) as nat);
        lemma_swim_keeps_wf(s.swim_n((ticks - 1) as nat));
    }
}

/// The swimmer turns round on exactly the tick on which its stride would
/// take it to a wall or beyond: to 100 or more on the way out, to 0 or less
/// on the way back. On that tick it stops at the wall and earns exactly one
/// length, however large its stride. On every other tick it keeps its
/// direction, moves by its stride and earns nothing.
pub proof fn lemma_turns_exactly_at_wall(s: SwimmerView)
    ensures
        (s.swim().direction != s.direction) <==> (if s.direction {
            s.position + s.stride() >= 100
        } else {
            s.position - s.stride() <= 0
        }),
        s.swim().direction != s.direction ==> {
            &&& s.swim().lengths == s.lengths + 1
            &&& s.swim().position == if s.direction {
                100nat
            } else {
                0nat
            }
        },
        s.swim().direction == s.direction ==> {
            &&& s.swim().lengths == s.lengths
            &&& s.swim().position == if s.direction {
                s.position + s.stride()
            } else {
                (s.position - s.stride()) as nat
            }
        },
{
}

/// Over any number of ticks the lengths never fall, and they grow by at most
/// one per tick.
pub proof fn lemma_at_most_one_length_per_tick(s: SwimmerView, ticks: nat)
    ensures
        s.lengths <= s.swim_n(ticks).lengths <= s.lengths + ticks,
    decreases ticks,
{
    if ticks > 0 {
        lemma_at_most_one_length_per_tick(s, (ticks - 1) as nat);
    }
}

/// An upgrade that the swimmer cannot pay for changes no field.
pub proof fn lemma_upgrade_refused_changes_nothing(s: SwimmerView)
    requires
        s.lengths < s.upgrade_cost,
    ensures
        !s.can_upgrade(),
        s.upgrade() == s,
{
}

/// An upgrade that the swimmer can pay for takes exactly its cost from the
/// lengths, adds exactly 0.5 to the speed, sets the next cost to the old cost
/// times the old multiplier, rounded down, and adds 0.02 to the multiplier.
/// Name, position and direction stay.
pub proof fn lemma_upgrade_granted(s: SwimmerView)
    requires
        s.lengths >= s.upgrade_cost,
    ensures
        s.can_upgrade(),
        s.upgrade().lengths == s.lengths - s.upgrade_cost,
        s.upgrade().speed_tenths == s.speed_tenths + 5,
        s.upgrade().upgrade_cost == (s.upgrade_cost * s.upgrade_multiplier_percent) / 100,
        s.upgrade().upgrade_multiplier_percent == s.upgrade_multiplier_percent + 2,
        s.upgrade().name == s.name,
        s.upgrade().position == s.position,
        s.upgrade().direction == s.direction,
{
}

/// With a multiplier of at least 1 the cost of an upgrade never falls.
pub proof fn lemma_raised_cost_never_falls(cost: nat, percent: nat)
    requires
        percent >= 100,
    ensures
        raised_cost(cost, percent) >= cost,
{
    assert(cost * percent >= cost * 100) by (nonlinear_arith)
        requires
            percent >= 100,
    ;
}

/// An upgrade attempt keeps the invariant of a swimmer, and never lowers the
/// cost of the next upgrade, the speed or the multiplier.
pub proof fn lemma_upgrade_keeps_wf(s: SwimmerView)
    requires
        s.wf(),
    ensures
        s.upgrade().wf(),
        s.upgrade().upgrade_cost >= s.upgrade_cost,
        s.upgrade().speed_tenths >= s.speed_tenths,
        s.upgrade().upgrade_multiplier_percent >= s.upgrade_multiplier_percent,
{
    lemma_raised_cost_never_falls(s.upgrade_cost, s.upgrade_multiplier_percent);
}

} // verus!
