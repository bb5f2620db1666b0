use swim_idle::game::{
    lengths_held, Game, BASE_SPEED_TENTHS, RECRUIT_UPGRADE_COST, STARTING_NEW_SWIMMER_COST,
};
use swim_idle::swimmer::Swimmer;
use swim_idle::utils::NameData;

fn names() -> NameData {
    NameData::new(
        vec![String::from("Ada"), String::from("Bo")],
        vec![String::from("Reed"), String::from("Stone")],
        vec![String::from("Flipper")],
    )
    .unwrap()
}

fn with_lengths(name: &str, lengths: i32) -> Swimmer {
    let mut s = Swimmer::new(name, 7);
    s.lengths = lengths;
    s
}

fn game_of(lengths: &[i32], selected: usize, cost: usize) -> Game {
    let swimmers: Vec<Swimmer> =
        lengths.iter().enumerate().map(|(i, l)| with_lengths(&format!("S{}", i), *l)).collect();
    Game::from_parts(swimmers, selected, names(), cost).unwrap()
}

fn snapshot(game: &Game) -> (Vec<(String, usize, i32, usize, usize, bool, usize)>, usize, usize) {
    let swimmers = game
        .swimmers()
        .iter()
        .map(|s| {
            (
                s.name.clone(),
                s.speed_tenths,
                s.lengths,
                s.upgrade_cost,
                s.position,
                s.direction,
                s.upgrade_multiplier_percent,
            )
        })
        .collect();
    (swimmers, game.selected_index(), game.new_swimmer_cost())
}

#[test]
fn constants_of_a_game() {
    assert_eq!(BASE_SPEED_TENTHS, 7);
    assert_eq!(STARTING_NEW_SWIMMER_COST, 25);
    assert_eq!(RECRUIT_UPGRADE_COST, 10);
}

#[test]
fn a_new_game_has_one_swimmer_from_the_catalog() {
    for _ in 0..50 {
        let game = Game::new(names());
        assert_eq!(game.swimmers().len(), 1);
        assert_eq!(game.selected_index(), 0);
        assert_eq!(game.new_swimmer_cost(), 25);
        let first = &game.swimmers()[0];
        assert_eq!(first.speed_tenths, 7);
        assert_eq!(first.lengths, 0);
        assert_eq!(first.upgrade_cost, 10);
        assert_eq!(first.position, 0);
        assert!(first.direction);
        assert_eq!(first.upgrade_multiplier_percent, 120);
        let allowed = [
            "Ada Reed",
            "Ada Stone",
            "Bo Reed",
            "Bo Stone",
            "\"Flipper\" Reed",
            "\"Flipper\" Stone",
        ];
        assert!(allowed.contains(&first.name.as_str()), "name {:?}", first.name);
        assert_eq!(game.name_data().first_names.len(), 2);
    }
}

#[test]
fn a_game_opens_with_the_given_first_swimmer() {
    let game = Game::with_first_swimmer(names(), "Dana Doe");
    assert_eq!(
        snapshot(&game),
        (vec![(String::from("Dana Doe"), 7, 0, 10, 0, true, 120)], 0, 25)
    );
    assert_eq!(game.selected().name, "Dana Doe");
    assert_eq!(game.total_lengths(), 0);
    assert!(game.is_valid());
}

#[test]
fn from_parts_refuses_what_breaks_the_invariant() {
    assert!(Game::from_parts(vec![], 0, names(), 25).is_none());
    assert!(Game::from_parts(vec![with_lengths("A", 0)], 1, names(), 25).is_none());
    assert!(Game::from_parts(vec![with_lengths("A", 0)], 0, names(), 0).is_none());
    let empty = NameData { first_names: vec![], last_names: vec![], nicknames: vec![] };
    assert!(Game::from_parts(vec![with_lengths("A", 0)], 0, empty, 25).is_none());
    let mut outside = with_lengths("B", 0);
    outside.position = 101;
    assert!(Game::from_parts(vec![with_lengths("A", 0), outside], 0, names(), 25).is_none());
    assert!(Game::from_parts(vec![with_lengths("A", -4)], 0, names(), 1).is_some());
}

#[test]
fn total_lengths_adds_up_all_swimmers() {
    assert_eq!(game_of(&[5, 20], 0, 25).total_lengths(), 25);
    assert_eq!(game_of(&[-20, 7, 3], 0, 25).total_lengths(), -10);
    assert_eq!(
        game_of(&[i32::MAX, i32::MAX, i32::MAX], 0, 25).total_lengths(),
        3 * (i32::MAX as i128)
    );
}

#[test]
fn lengths_held_adds_up_a_list() {
    assert_eq!(lengths_held(&[]), 0);
    assert_eq!(lengths_held(&[with_lengths("A", 7)]), 7);
    assert_eq!(
        lengths_held(&[with_lengths("A", 7), with_lengths("B", -9), with_lengths("C", 40)]),
        38
    );
    assert_eq!(
        lengths_held(&[with_lengths("A", i32::MIN), with_lengths("B", i32::MIN)]),
        2 * (i32::MIN as i128)
    );
}

#[test]
fn recruit_succeeds_with_exactly_the_cost() {
    let mut game = game_of(&[5, 20], 1, 25);
    assert!(game.can_recruit());
    assert!(game.recruit_fits());
    assert!(game.recruit("Newcomer"));
    assert_eq!(game.new_swimmer_cost(), 37);
    assert_eq!(game.swimmers().len(), 3);
}

#[test]
fn recruit_fails_one_length_short_and_changes_nothing() {
    let mut game = game_of(&[4, 20], 1, 25);
    let before = snapshot(&game);
    assert!(!game.can_recruit());
    assert!(game.recruit_fits());
    assert!(!game.recruit("Newcomer"));
    assert_eq!(snapshot(&game), before);
    assert!(!game.add_new_swimmer());
    assert_eq!(snapshot(&game), before);
}

#[test]
fn recruit_debits_the_first_swimmer_only() {
    let mut game = game_of(&[5, 20, 3], 2, 25);
    assert!(game.recruit("Newcomer"));
    assert_eq!(
        snapshot(&game),
        (
            vec![
                (String::from("S0"), 7, -20, 10, 0, true, 120),
                (String::from("S1"), 7, 20, 10, 0, true, 120),
                (String::from("S2"), 7, 3, 10, 0, true, 120),
                (String::from("Newcomer"), 7, 0, 10, 0, true, 120),
            ],
            2,
            37
        )
    );
    assert_eq!(game.total_lengths(), 3);
}

#[test]
fn recruit_leaves_the_rest_of_the_first_swimmer_alone() {
    let mut first = with_lengths("First", 30);
    first.position = 64;
    first.direction = false;
    first.speed_tenths = 22;
    first.upgrade_cost = 17;
    first.upgrade_multiplier_percent = 126;
    let mut game = Game::from_parts(vec![first], 0, names(), 25).unwrap();
    assert!(game.recruit("Newcomer"));
    let s = &game.swimmers()[0];
    assert_eq!(
        (s.name.as_str(), s.speed_tenths, s.lengths, s.upgrade_cost, s.position, s.direction),
        ("First", 22, 5, 17, 64, false)
    );
    assert_eq!(s.upgrade_multiplier_percent, 126);
}

#[test]
fn the_cost_of_a_recruit_grows_by_half_rounded_down() {
    let mut game = game_of(&[100_000], 0, 25);
    for expected in [37usize, 55, 82, 123, 184, 276, 414] {
        assert!(game.recruit("Newcomer"));
        assert_eq!(game.new_swimmer_cost(), expected);
    }
    assert_eq!(game.swimmers().len(), 8);
    assert_eq!(game.swimmers()[0].lengths, 100_000 - 25 - 37 - 55 - 82 - 123 - 184 - 276);
    let mut cheap = game_of(&[10], 0, 1);
    for expected in [1usize, 1, 1] {
        assert!(cheap.recruit("Newcomer"));
        assert_eq!(cheap.new_swimmer_cost(), expected);
    }
}

#[test]
fn add_new_swimmer_names_the_recruit_from_the_catalog() {
    let mut game = game_of(&[25], 0, 25);
    assert!(game.add_new_swimmer());
    assert_eq!(game.swimmers().len(), 2);
    assert_eq!(game.swimmers()[0].lengths, 0);
    assert_eq!(game.new_swimmer_cost(), 37);
    let recruit = &game.swimmers()[1];
    let allowed =
        ["Ada Reed", "Ada Stone", "Bo Reed", "Bo Stone", "\"Flipper\" Reed", "\"Flipper\" Stone"];
    assert!(allowed.contains(&recruit.name.as_str()), "name {:?}", recruit.name);
    assert_eq!(
        (recruit.speed_tenths, recruit.lengths, recruit.upgrade_cost, recruit.position),
        (7, 0, 10, 0)
    );
    assert!(recruit.direction);
    assert_eq!(recruit.upgrade_multiplier_percent, 120);
}

#[test]
fn recruit_shortfall_counts_the_first_swimmer_only() {
    assert_eq!(game_of(&[4, 20], 0, 25).recruit_shortfall(), 21);
    assert_eq!(game_of(&[-20, 3], 0, 37).recruit_shortfall(), 57);
    assert_eq!(game_of(&[30], 0, 25).recruit_shortfall(), -5);
}

#[test]
fn recruit_fits_is_false_when_the_debit_would_underflow() {
    let game = game_of(&[i32::MIN + 10, i32::MAX, i32::MAX], 0, 25);
    assert!(game.can_recruit());
    assert!(!game.recruit_fits());
    let poor = game_of(&[i32::MIN + 10], 0, 25);
    assert!(poor.recruit_fits());
}

#[test]
fn selection_stops_at_both_ends() {
    let mut game = game_of(&[0, 0, 0], 1, 25);
    let before = snapshot(&game);
    game.select_previous();
    assert_eq!(game.selected_index(), 0);
    for _ in 0..5 {
        game.select_previous();
        assert_eq!(game.selected_index(), 0);
    }
    game.select_next();
    assert_eq!(game.selected_index(), 1);
    game.select_next();
    assert_eq!(game.selected_index(), 2);
    for _ in 0..5 {
        game.select_next();
        assert_eq!(game.selected_index(), 2);
    }
    game.select_previous();
    assert_eq!(snapshot(&game), before);
}

#[test]
fn selection_of_a_single_swimmer_never_moves() {
    let mut game = game_of(&[0], 0, 25);
    game.select_next();
    assert_eq!(game.selected_index(), 0);
    game.select_previous();
    assert_eq!(game.selected_index(), 0);
}

#[test]
fn selection_stays_in_range_over_any_moves() {
    let mut game = game_of(&[0, 0, 0, 0], 2, 25);
    let mut state: u32 = 12345;
    for _ in 0..2000 {
        state = state.wrapping_mul(1_103_515_245).wrapping_add(12345);
        if (state >> 16) % 3 == 0 {
            game.select_previous();
        } else {
            game.select_next();
        }
        assert!(game.selected_index() < game.swimmers().len());
    }
}

#[test]
fn tick_swims_every_swimmer_once() {
    let mut a = with_lengths("A", 0);
    a.position = 99;
    let mut b = with_lengths("B", 3);
    b.position = 50;
    b.direction = false;
    b.speed_tenths = 25;
    let c = with_lengths("C", 0);
    let mut game = Game::from_parts(vec![a, b, c], 1, names(), 25).unwrap();
    assert!(game.tick_fits());
    game.tick();
    assert_eq!(
        snapshot(&game),
        (
            vec![
                (String::from("A"), 7, 1, 10, 100, false, 120),
                (String::from("B"), 25, 3, 10, 47, false, 120),
                (String::from("C"), 7, 0, 10, 1, true, 120),
            ],
            1,
            25
        )
    );
}

#[test]
fn tick_fits_is_false_when_a_counter_is_full() {
    let mut full = with_lengths("A", i32::MAX);
    full.position = 99;
    let game = Game::from_parts(vec![with_lengths("B", 0), full], 0, names(), 25).unwrap();
    assert!(!game.tick_fits());
}

#[test]
fn upgrade_selected_upgrades_that_swimmer_only() {
    let mut game = game_of(&[50, 10, 50], 1, 25);
    assert!(game.upgrade_selected_fits());
    assert!(game.upgrade_selected());
    assert_eq!(
        snapshot(&game),
        (
            vec![
                (String::from("S0"), 7, 50, 10, 0, true, 120),
                (String::from("S1"), 12, 0, 12, 0, true, 122),
                (String::from("S2"), 7, 50, 10, 0, true, 120),
            ],
            1,
            25
        )
    );
    let before = snapshot(&game);
    assert!(!game.upgrade_selected());
    assert_eq!(snapshot(&game), before);
}

#[test]
fn a_played_game_keeps_its_invariant() {
    let mut game = Game::with_first_swimmer(names(), "Dana");
    let mut state: u32 = 99;
    let mut last_cost = game.new_swimmer_cost();
    let mut last_len = game.swimmers().len();
    for _ in 0..20_000 {
        state = state.wrapping_mul(1_103_515_245).wrapping_add(12345);
        match (state >> 16) % 16 {
            0 => game.select_previous(),
            1 => game.select_next(),
            2 => {
                if game.upgrade_selected_fits() {
                    game.upgrade_selected();
                }
            }
            3 => {
                if game.recruit_fits() {
                    game.add_new_swimmer();
                }
            }
            _ => {
                if game.tick_fits() {
                    game.tick();
                }
            }
        }
        assert!(game.swimmers().len() >= last_len && last_len >= 1);
        assert!(game.selected_index() < game.swimmers().len());
        assert!(game.new_swimmer_cost() >= last_cost);
        assert!(game.swimmers().iter().all(|s| s.is_valid()));
        assert!(game.is_valid());
        last_cost = game.new_swimmer_cost();
        last_len = game.swimmers().len();
    }
    assert!(game.swimmers().len() > 1);
}
