//! The catalog of names, and the drawing of a random name for a swimmer.
//!
//! A name is drawn in two steps. The random choices are made first and held
//! in a `NameDraw`; the name is then put together from the catalog and the
//! draw, which involves no chance.

use rand::rngs::ThreadRng;
use rand::Rng;
use vstd::prelude::*;

verus! {

/// Out of `NICKNAME_CHANCE_OUT_OF` names, this many are made with a nickname.
pub const NICKNAME_CHANCE: u32 = 3;

/// See `NICKNAME_CHANCE`.
pub const NICKNAME_CHANCE_OUT_OF: u32 = 10;

/// The lists from which names are made.
pub struct NameData {
    pub first_names: Vec<String>,
    pub last_names: Vec<String>,
    pub nicknames: Vec<String>,
}

/// The catalog as three sequences of texts.
pub struct NameDataView {
    pub first_names: Seq<Seq<char>>,
    pub last_names: Seq<Seq<char>>,
    pub nicknames: Seq<Seq<char>>,
}

/// The random choices behind one name: which form it takes, and which entry
/// of each list it uses.
#[derive(Clone, Copy, Debug, PartialEq, Eq)]
pub enum NameDraw {
    /// A first name and a last name.
    Plain { first: usize, last: usize },
    /// A nickname in double quotes and a last name.
    Nickname { nickname: usize, last: usize },
}

/// The texts of a list of strings.
pub open spec fn texts(list: Seq<String>) -> Seq<Seq<char>> {
    Seq::new(list.len(), |i: int| list[i]@)
}

/// A first name, a space, a last name.
pub open spec fn plain_name(first: Seq<char>, last: Seq<char>) -> Seq<char> {
    first + seq![' '] + last
}

/// A nickname between double quotes, a space, a last name.
pub open spec fn nickname_name(nickname: Seq<char>, last: Seq<char>) -> Seq<char> {
    seq!['"'] + nickname + seq!['"', ' '] + last
}

impl NameDataView {
    /// The invariant of a catalog: none of its lists is empty.
    pub open spec fn wf(self) -> bool {
        &&& self.first_names.len() > 0
        &&& self.last_names.len() > 0
        &&& self.nicknames.len() > 0
    }

    /// Whether the draw points at entries that the catalog has.
    pub open spec fn has(self, draw: NameDraw) -> bool {
        match draw {
            NameDraw::Plain { first, last } => {
                first < self.first_names.len() && last < self.last_names.len()
            },
            NameDraw::Nickname { nickname, last } => {
                nickname < self.nicknames.len() && last < self.last_names.len()
            },
        }
    }

    /// The name that the draw stands for.
    pub open spec fn name_for(self, draw: NameDraw) -> Seq<char> {
        match draw {
            NameDraw::Plain { first, last } => {
                plain_name(self.first_names[first as int], self.last_names[last as int])
            },
            NameDraw::Nickname { nickname, last } => {
                nickname_name(self.nicknames[nickname as int], self.last_names[last as int])
            },
        }
    }

    /// Whether `name` can be made from the catalog: from one of its first
    /// names or one of its nicknames, and one of its last names.
    pub open spec fn offers(self, name: Seq<char>) -> bool {
        exists|draw: NameDraw| self.has(draw) && #[trigger] self.name_for(draw) == name
    }
}

impl View for NameData {
    type V = NameDataView;

    open spec fn view(&self) -> NameDataView {
        NameDataView {
            first_names: texts(self.first_names@),
            last_names: texts(self.last_names@),
            nicknames: texts(self.nicknames@),
        }
    }
}

impl NameData {
    /// Makes a catalog of the three lists, or none if one of them is empty.
    pub fn new(
        first_names: Vec<String>,
        last_names: Vec<String>,
        nicknames: Vec<String>,
    ) -> (made: Option<NameData>)
        ensures
            made is Some <==> first_names@.len() > 0 && last_names@.len() > 0 && nicknames@.len()
                > 0,
            made matches Some(name_data) ==> {
                &&& name_data.first_names == first_names
                &&& name_data.last_names == last_names
                &&& name_data.nicknames == nicknames
                &&& name_data@.wf()
            },
    {
        let name_data = NameData { first_names, last_names, nicknames };
        if name_data.is_valid() {
            Some(name_data)
        } else {
            None
        }
    }

    /// Whether none of the lists is empty.
    pub fn is_valid(&self) -> (valid: bool)
        ensures
            valid == self@.wf(),
    {
        self.first_names.len() > 0 && self.last_names.len() > 0 && self.nicknames.len() > 0
    }

    /// Whether the draw points at entries that the catalog has.
    pub fn has(&self, draw: NameDraw) -> (found: bool)
        ensures
            found == self@.has(draw),
    {
        match draw {
            NameDraw::Plain { first, last } => {
                first < self.first_names.len() && last < self.last_names.len()
            },
            NameDraw::Nickname { nickname, last } => {
                nickname < self.nicknames.len() && last < self.last_names.len()
            },
        }
    }

    /// Puts together the name that the draw stands for.
    pub fn name_for(&self, draw: NameDraw) -> (name: String)
        requires
            self@.has(draw),
        ensures
            name@ == self@.name_for(draw),
            self@.offers(name@),
    {
        proof {
            reveal_strlit(" ");
            reveal_strlit("\"");
            reveal_strlit("\" ");
        }
        let mut name = String::new();
        match draw {
            NameDraw::Plain { first, last } => {
                name.append(self.first_names[first].as_str());
                name.append(" ");
                name.append(self.last_names[last].as_str());
            },
            NameDraw::Nickname { nickname, last } => {
                name.append("\"");
                name.append(self.nicknames[nickname].as_str());
                name.append("\" ");
                name.append(self.last_names[last].as_str());
            },
        }
        name
    }

    /// Makes the random choices for one name: with 3 chances in 10 the
    /// nickname form, and for each list that the form uses, one of its
    /// entries.
    pub fn draw(&self) -> (draw: NameDraw)
        requires
            self@.wf(),
        ensures
            self@.has(draw),
    {
        let mut generator = rand::rng();
        let use_nickname: bool = random_ratio(
            &mut generator,
            NICKNAME_CHANCE,
            NICKNAME_CHANCE_OUT_OF,
        );
        let given: usize = random_below(&mut generator, self.given_count(use_nickname));
        let last: usize = random_below(&mut generator, self.last_names.len());
        NameDraw::from_choices(use_nickname, given, last)
    }

    /// How many entries the list has from which the first part of a name is
    /// taken: the nicknames for a name in the nickname form, the first names
    /// otherwise.
    pub fn given_count(&self, use_nickname: bool) -> (count: usize)
        ensures
            count == self@.given_count(use_nickname),
    {
        if use_nickname {
            self.nicknames.len()
        } else {
            self.first_names.len()
        }
    }
}

impl NameDataView {
    /// How many entries the list has from which the first part of a name is
    /// taken: the nicknames for a name in the nickname form, the first names
    /// otherwise.
    pub open spec fn given_count(self, use_nickname: bool) -> nat {
        if use_nickname {
            self.nicknames.len()
        } else {
            self.first_names.len()
        }
    }
}

impl NameDraw {
    /// The draw that three choices make: the form, the entry for the first
    /// part of the name in the list that the form uses, and the entry of the
    /// last name.
    pub open spec fn of(use_nickname: bool, given: usize, last: usize) -> NameDraw {
        if use_nickname {
            NameDraw::Nickname { nickname: given, last }
        } else {
            NameDraw::Plain { first: given, last }
        }
    }

    /// Makes a draw of three choices.
    pub fn from_choices(use_nickname: bool, given: usize, last: usize) -> (draw: NameDraw)
        ensures
            draw == NameDraw::of(use_nickname, given, last),
    {
        if use_nickname {
            NameDraw::Nickname { nickname: given, last }
        } else {
            NameDraw::Plain { first: given, last }
        }
    }
}

/// Generates a random swimmer name from the catalog: a quoted nickname and a
/// last name, or a first name and a last name.
pub fn generate_random_name(name_data: &NameData) -> (name: String)
    requires
        name_data@.wf(),
    ensures
        name_data@.offers(name@),
{
    let draw = name_data.draw();
    name_data.name_for(draw)
}

/// The generator of the `rand` crate that belongs to the running thread.
#[verifier::external_type_specification]
#[verifier::external_body]
pub struct ExThreadRng(ThreadRng);

/// `rand::rng` hands out the thread's generator. Nothing is claimed of it.
pub assume_specification[ rand::rng ]() -> (generator: ThreadRng)
;

/// `Rng::random_ratio` returns `true` with `numerator` chances out of
/// `denominator`. It is certain to be `true` when the two are equal and
/// `false` when `numerator` is zero; otherwise either value may come back.
#[verifier::external_body]
fn random_ratio(generator: &mut ThreadRng, numerator: u32, denominator: u32) -> (hit: bool)
    requires
        denominator > 0,
        numerator <= denominator,
    ensures
        numerator == denominator ==> hit,
        numerator == 0 ==> !hit,
{
    generator.random_ratio(numerator, denominator)
}

/// `Rng::random_range` on `0..bound` returns some number below `bound`.
#[verifier::external_body]
fn random_below(generator: &mut ThreadRng, bound: usize) -> (index: usize)
    requires
        bound > 0,
    ensures
        index < bound,
{
    generator.random_range(0..bound)
}

} // verus!
