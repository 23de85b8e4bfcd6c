use procedural::controller::{apply_command, nudge, step, Command, KeyState, COMMAND_COUNT};
use procedural::terrain::{HeightGrid, NoiseParameters, TerrainMap};

fn start() -> NoiseParameters {
    NoiseParameters::new(11)
}

fn clean_map() -> TerrainMap {
    let mut map = TerrainMap::new(1, 11);
    match HeightGrid::from_samples(1, vec![100]) {
        Some(g) => map.regenerate(&g),
        None => panic!("the samples do not fill the grid"),
    }
    map
}

#[test]
fn step_is_one_or_five() {
    assert_eq!(step(false), 1);
    assert_eq!(step(true), 5);
}

#[test]
fn commands_come_in_their_order() {
    assert_eq!(COMMAND_COUNT, 10);
    assert_eq!(Command::in_order(0), Command::DecreaseOctaves);
    assert_eq!(Command::in_order(1), Command::IncreaseOctaves);
    assert_eq!(Command::in_order(2), Command::DecreaseFrequency);
    assert_eq!(Command::in_order(3), Command::IncreaseFrequency);
    assert_eq!(Command::in_order(4), Command::DecreaseGain);
    assert_eq!(Command::in_order(5), Command::IncreaseGain);
    assert_eq!(Command::in_order(6), Command::DecreaseLacunarity);
    assert_eq!(Command::in_order(7), Command::IncreaseLacunarity);
    assert_eq!(Command::in_order(8), Command::ResetAll);
    assert_eq!(Command::in_order(9), Command::Reseed);
    assert!(Command::ResetAll.draws_seed());
    assert!(Command::Reseed.draws_seed());
    assert!(!Command::IncreaseGain.draws_seed());
}

#[test]
fn octave_commands_move_by_the_step() {
    let p = start();
    assert_eq!(apply_command(&p, Command::DecreaseOctaves, false, 0).octaves, 4);
    assert_eq!(apply_command(&p, Command::IncreaseOctaves, false, 0).octaves, 6);
    assert_eq!(apply_command(&p, Command::DecreaseOctaves, true, 0).octaves, 0);
    assert_eq!(apply_command(&p, Command::IncreaseOctaves, true, 0).octaves, 10);
}

#[test]
fn octaves_saturate_at_zero() {
    let mut p = NoiseParameters { octaves: 0, ..start() };
    for _ in 0..10 {
        p = apply_command(&p, Command::DecreaseOctaves, false, 0);
        assert_eq!(p.octaves, 0);
        p = apply_command(&p, Command::DecreaseOctaves, true, 0);
        assert_eq!(p.octaves, 0);
    }
    let three = NoiseParameters { octaves: 3, ..start() };
    assert_eq!(apply_command(&three, Command::DecreaseOctaves, true, 0).octaves, 0);
    assert_eq!(p, NoiseParameters { octaves: 0, ..start() });
}

#[test]
fn octaves_saturate_at_the_top() {
    let p = NoiseParameters { octaves: 253, ..start() };
    assert_eq!(apply_command(&p, Command::IncreaseOctaves, true, 0).octaves, 255);
    assert_eq!(apply_command(&p, Command::IncreaseOctaves, false, 0).octaves, 254);
    let top = NoiseParameters { octaves: 255, ..start() };
    assert_eq!(apply_command(&top, Command::IncreaseOctaves, false, 0).octaves, 255);
}

#[test]
fn scalar_commands_move_by_hundredths() {
    let p = start();
    assert_eq!(
        apply_command(&p, Command::DecreaseFrequency, false, 0),
        NoiseParameters { frequency: 4, ..p }
    );
    assert_eq!(
        apply_command(&p, Command::IncreaseFrequency, true, 0),
        NoiseParameters { frequency: 10, ..p }
    );
    assert_eq!(apply_command(&p, Command::DecreaseGain, true, 0), NoiseParameters { gain: 195, ..p });
    assert_eq!(apply_command(&p, Command::IncreaseGain, false, 0), NoiseParameters { gain: 201, ..p });
    assert_eq!(
        apply_command(&p, Command::DecreaseLacunarity, false, 0),
        NoiseParameters { lacunarity: 49, ..p }
    );
    assert_eq!(
        apply_command(&p, Command::IncreaseLacunarity, true, 0),
        NoiseParameters { lacunarity: 55, ..p }
    );
}

#[test]
fn scalars_may_go_negative() {
    let mut p = start();
    for _ in 0..3 {
        p = apply_command(&p, Command::DecreaseFrequency, true, 0);
    }
    assert_eq!(p.frequency, -10);
}

#[test]
fn nudge_stops_at_the_ends_of_the_range() {
    assert_eq!(nudge(7, -9), -2);
    assert_eq!(nudge(i64::MAX - 2, 5), i64::MAX);
    assert_eq!(nudge(i64::MIN + 2, -5), i64::MIN);
    assert_eq!(nudge(i64::MAX, i64::MAX), i64::MAX);
    assert_eq!(nudge(i64::MIN, i64::MIN), i64::MIN);
    assert_eq!(nudge(i64::MIN, i64::MAX), -1);
}

#[test]
fn reset_restores_the_defaults_under_the_new_seed() {
    let edited = NoiseParameters { seed: 1, octaves: 77, frequency: -300, gain: 12, lacunarity: 900 };
    let p = apply_command(&edited, Command::ResetAll, false, 1234);
    assert_eq!(p, NoiseParameters { seed: 1234, octaves: 5, frequency: 5, gain: 200, lacunarity: 50 });
    assert_eq!(apply_command(&edited, Command::ResetAll, true, -5), NoiseParameters::new(-5));
}

#[test]
fn reseed_changes_only_the_seed() {
    let edited = NoiseParameters { seed: 1, octaves: 77, frequency: -300, gain: 12, lacunarity: 900 };
    let p = apply_command(&edited, Command::Reseed, true, 99);
    assert_eq!(p, NoiseParameters { seed: 99, ..edited });
}

#[test]
fn seed_is_ignored_by_the_other_commands() {
    let p = start();
    for i in 0..8 {
        let command = Command::in_order(i);
        assert_eq!(apply_command(&p, command, false, 1), apply_command(&p, command, false, 2));
        assert_eq!(apply_command(&p, command, false, 1).seed, 11);
    }
}

#[test]
fn idle_keys_hold_no_command() {
    let keys = KeyState::idle();
    assert!(keys.commands().is_empty());
    for i in 0..COMMAND_COUNT {
        assert!(!keys.is_held(Command::in_order(i)));
    }
}

#[test]
fn held_keys_give_their_commands_in_order() {
    let mut keys = KeyState::idle();
    keys.reseed = true;
    keys.increase_gain = true;
    keys.decrease_octaves = true;
    assert_eq!(
        keys.commands(),
        vec![Command::DecreaseOctaves, Command::IncreaseGain, Command::Reseed]
    );
    let all = KeyState {
        decrease_octaves: true,
        increase_octaves: true,
        decrease_frequency: true,
        increase_frequency: true,
        decrease_gain: true,
        increase_gain: true,
        decrease_lacunarity: true,
        increase_lacunarity: true,
        reset_all: true,
        reseed: true,
        boost: true,
    };
    let expected: Vec<Command> = (0..COMMAND_COUNT).map(Command::in_order).collect();
    assert_eq!(all.commands(), expected);
}

#[test]
fn idle_tick_leaves_buffer_and_flag_alone() {
    let mut map = clean_map();
    let buffer = map.current_buffer().clone();
    let parameters = *map.current_parameters();
    assert!(!map.tick(&KeyState::idle()));
    assert!(!map.is_dirty());
    assert_eq!(*map.current_buffer(), buffer);
    assert_eq!(*map.current_parameters(), parameters);
    let mut boosted = KeyState::idle();
    boosted.boost = true;
    assert!(!map.tick(&boosted));
    assert_eq!(*map.current_parameters(), parameters);
}

#[test]
fn idle_tick_keeps_a_dirty_map_dirty() {
    let mut map = TerrainMap::new(3, 5);
    assert!(map.tick(&KeyState::idle()));
    assert!(map.is_dirty());
}

#[test]
fn single_command_marks_dirty() {
    for i in 0..COMMAND_COUNT {
        let mut map = clean_map();
        let buffer = map.current_buffer().clone();
        map.issue(Command::in_order(i), false);
        assert!(map.is_dirty());
        assert_eq!(*map.current_buffer(), buffer);
    }
}

#[test]
fn apply_edits_the_parameters_of_the_map() {
    let mut map = clean_map();
    map.apply(Command::IncreaseLacunarity, true, 0);
    assert!(map.is_dirty());
    assert_eq!(*map.current_parameters(), NoiseParameters { lacunarity: 55, ..start() });
    map.apply(Command::Reseed, false, 321);
    assert_eq!(*map.current_parameters(), NoiseParameters { seed: 321, lacunarity: 55, ..start() });
}

#[test]
fn issue_of_an_edit_is_exact() {
    let mut map = clean_map();
    map.issue(Command::DecreaseGain, true);
    assert_eq!(*map.current_parameters(), NoiseParameters { gain: 195, ..start() });
}

#[test]
fn issue_of_reseed_keeps_the_other_parameters() {
    let mut map = clean_map();
    map.issue(Command::IncreaseOctaves, false);
    map.issue(Command::Reseed, false);
    let p = *map.current_parameters();
    assert_eq!(NoiseParameters { seed: 11, ..p }, NoiseParameters { octaves: 6, ..start() });
}

#[test]
fn issue_of_reset_restores_the_defaults() {
    let mut map = clean_map();
    map.issue(Command::IncreaseOctaves, true);
    map.issue(Command::DecreaseFrequency, true);
    map.issue(Command::ResetAll, true);
    let p = *map.current_parameters();
    assert_eq!((p.octaves, p.frequency, p.gain, p.lacunarity), (5, 5, 200, 50));
}

#[test]
fn reseeds_draw_varying_seeds() {
    let mut map = clean_map();
    let mut seeds: Vec<i32> = Vec::new();
    for _ in 0..16 {
        map.issue(Command::Reseed, false);
        seeds.push(map.current_parameters().seed);
    }
    seeds.sort();
    seeds.dedup();
    assert!(seeds.len() > 1);
}

#[test]
fn tick_applies_decrease_before_increase() {
    let mut map = clean_map();
    map.set_parameters(NoiseParameters { octaves: 0, ..start() });
    let mut keys = KeyState::idle();
    keys.decrease_octaves = true;
    keys.increase_octaves = true;
    assert!(map.tick(&keys));
    assert_eq!(map.current_parameters().octaves, 1);
    keys.boost = true;
    map.set_parameters(NoiseParameters { octaves: 252, ..start() });
    assert!(map.tick(&keys));
    assert_eq!(map.current_parameters().octaves, 252);
}

#[test]
fn tick_applies_every_held_edit_once() {
    let mut map = clean_map();
    let mut keys = KeyState::idle();
    keys.increase_frequency = true;
    keys.decrease_gain = true;
    keys.increase_lacunarity = true;
    keys.boost = true;
    assert!(map.tick(&keys));
    assert_eq!(
        *map.current_parameters(),
        NoiseParameters { frequency: 10, gain: 195, lacunarity: 55, ..start() }
    );
}

#[test]
fn tick_with_reset_wins_over_edits() {
    let mut map = clean_map();
    let mut keys = KeyState::idle();
    keys.increase_octaves = true;
    keys.decrease_gain = true;
    keys.reset_all = true;
    assert!(map.tick(&keys));
    let p = *map.current_parameters();
    assert_eq!((p.octaves, p.frequency, p.gain, p.lacunarity), (5, 5, 200, 50));
}

#[test]
fn regeneration_after_a_tick_clears_dirty() {
    let mut map = clean_map();
    let mut keys = KeyState::idle();
    keys.increase_gain = true;
    assert!(map.tick(&keys));
    match HeightGrid::from_samples(1, vec![230]) {
        Some(g) => map.regenerate(&g),
        None => panic!("the samples do not fill the grid"),
    }
    assert!(!map.is_dirty());
    assert_eq!(*map.current_buffer(), vec![255, 255, 255, 255]);
    assert!(!map.tick(&KeyState::idle()));
}
