//! The editing commands, their effect on the noise parameters, and the tick
//! that applies the commands of the keys held and says whether the buffer
//! has to be rebuilt.

use vstd::prelude::*;
use crate::terrain::{default_parameters, with_parameters, NoiseParameters, TerrainMap, TerrainState};

verus! {

/// An editing command. The variants stand in the order in which the
/// commands of one tick are applied.
#[derive(Clone, Copy, Debug, PartialEq, Eq, Structural)]
pub enum Command {
    DecreaseOctaves,
    IncreaseOctaves,
    DecreaseFrequency,
    IncreaseFrequency,
    DecreaseGain,
    IncreaseGain,
    DecreaseLacunarity,
    IncreaseLacunarity,
    ResetAll,
    Reseed,
}

/// Number of commands.
pub const COMMAND_COUNT: usize = 10;

/// The step of a command issued without the modifier.
pub const SINGLE_STEP: u8 = 1;

/// The step of a command issued with the modifier.
pub const BOOSTED_STEP: u8 = 5;

/// Which command keys are held during a tick, and whether the modifier that
/// boosts the step is.
#[derive(Clone, Copy, Debug)]
pub struct KeyState {
    pub decrease_octaves: bool,
    pub increase_octaves: bool,
    pub decrease_frequency: bool,
    pub increase_frequency: bool,
    pub decrease_gain: bool,
    pub increase_gain: bool,
    pub decrease_lacunarity: bool,
    pub increase_lacunarity: bool,
    pub reset_all: bool,
    pub reseed: bool,
    pub boost: bool,
}

/// The step of a command: 5 with the modifier, 1 without.
pub open spec fn step_size(boost: bool) -> u8 {
    if boost {
        BOOSTED_STEP
    } else {
        SINGLE_STEP
    }
}

/// `octaves - step`, stopping at 0.
pub open spec fn octaves_lowered(octaves: u8, step: u8) -> u8 {
    if octaves < step {
        0
    } else {
        (octaves - step) as u8
    }
}

/// `octaves + step`, stopping at 255.
pub open spec fn octaves_raised(octaves: u8, step: u8) -> u8 {
    if octaves + step > u8::MAX {
        u8::MAX
    } else {
        (octaves + step) as u8
    }
}

/// `value + delta` in hundredths, stopping at the ends of the range of
/// `i64`.
pub open spec fn nudged(value: i64, delta: int) -> i64 {
    if value + delta > i64::MAX {
        i64::MAX
    } else if value + delta < i64::MIN {
        i64::MIN
    } else {
        (value + delta) as i64
    }
}

/// The command draws a new seed.
pub open spec fn needs_seed(command: Command) -> bool {
    command == Command::ResetAll || command == Command::Reseed
}

/// The parameters after `command`. `fresh_seed` is the seed drawn for it,
/// which only a reset and a reseed use.
pub open spec fn applied(
    parameters: NoiseParameters,
    command: Command,
    boost: bool,
    fresh_seed: i32,
) -> NoiseParameters {
    let step = step_size(boost);
    match command {
        Command::DecreaseOctaves => NoiseParameters {
            octaves: octaves_lowered(parameters.octaves, step),
            ..parameters
        },
        Command::IncreaseOctaves => NoiseParameters {
            octaves: octaves_raised(parameters.octaves, step),
            ..parameters
        },
        Command::DecreaseFrequency => NoiseParameters {
            frequency: nudged(parameters.frequency, -(step as int)),
            ..parameters
        },
        Command::IncreaseFrequency => NoiseParameters {
            frequency: nudged(parameters.frequency, step as int),
            ..parameters
        },
        Command::DecreaseGain => NoiseParameters { gain: nudged(parameters.gain, -(step as int)), ..parameters },
        Command::IncreaseGain => NoiseParameters {
            gain: nudged(parameters.gain, step as int),
            ..parameters
        },
        Command::DecreaseLacunarity => NoiseParameters {
            lacunarity: nudged(parameters.lacunarity, -(step as int)),
            ..parameters
        },
        Command::IncreaseLacunarity => NoiseParameters {
            lacunarity: nudged(parameters.lacunarity, step as int),
            ..parameters
        },
        Command::ResetAll => default_parameters(fresh_seed),
        Command::Reseed => NoiseParameters { seed: fresh_seed, ..parameters },
    }
}

/// The state of a map after `command`: the parameters are edited, the map is
/// dirty, the buffer stays.
pub open spec fn commanded(
    state: TerrainState,
    command: Command,
    boost: bool,
    fresh_seed: i32,
) -> TerrainState {
    with_parameters(state, applied(state.parameters, command, boost, fresh_seed))
}

/// The state of a map after `commands`, applied in their order, the i-th of
/// them with the i-th of `seeds`.
pub open spec fn commanded_all(
    state: TerrainState,
    commands: Seq<Command>,
    boost: bool,
    seeds: Seq<i32>,
) -> TerrainState
    decreases commands.len(),
{
    if commands.len() == 0 {
        state
    } else {
        commanded(
            commanded_all(state, commands.drop_last(), boost, seeds.drop_last()),
            commands.last(),
            boost,
            seeds.last(),
        )
    }
}

/// The `i`-th command in the order of application.
pub open spec fn command_in_order(i: int) -> Command {
    if i == 0 {
        Command::DecreaseOctaves
    } else if i == 1 {
        Command::IncreaseOctaves
    } else if i == 2 {
        Command::DecreaseFrequency
    } else if i == 3 {
        Command::IncreaseFrequency
    } else if i == 4 {
        Command::DecreaseGain
    } else if i == 5 {
        Command::IncreaseGain
    } else if i == 6 {
        Command::DecreaseLacunarity
    } else if i == 7 {
        Command::IncreaseLacunarity
    } else if i == 8 {
        Command::ResetAll
    } else {
        Command::Reseed
    }
}

/// The key of `command` is held.
pub open spec fn holds(keys: KeyState, command: Command) -> bool {
    match command {
        Command::DecreaseOctaves => keys.decrease_octaves,
        Command::IncreaseOctaves => keys.increase_octaves,
        Command::DecreaseFrequency => keys.decrease_frequency,
        Command::IncreaseFrequency => keys.increase_frequency,
        Command::DecreaseGain => keys.decrease_gain,
        Command::IncreaseGain => keys.increase_gain,
        Command::DecreaseLacunarity => keys.decrease_lacunarity,
        Command::IncreaseLacunarity => keys.increase_lacunarity,
        Command::ResetAll => keys.reset_all,
        Command::Reseed => keys.reseed,
    }
}

/// The commands among the first `n` whose keys are held, in order.
pub open spec fn held_among(keys: KeyState, n: nat) -> Seq<Command>
    decreases n,
{
    if n == 0 {
        Seq::empty()
    } else {
        let earlier = held_among(keys, (n - 1) as nat);
        if holds(keys, command_in_order(n - 1)) {
            earlier.push(command_in_order(n - 1))
        } else {
            earlier
        }
    }
}

/// The commands of a tick: those whose keys are held, in the order of
/// application.
pub open spec fn held(keys: KeyState) -> Seq<Command> {
    held_among(keys, COMMAND_COUNT as nat)
}

impl Command {
    /// The `i`-th command in the order of application.
    pub fn in_order(i: usize) -> (command: Command)
        requires
            i < COMMAND_COUNT,
        ensures
            command == command_in_order(i as int),
    {
        if i == 0 {
            Command::DecreaseOctaves
        } else if i == 1 {
            Command::IncreaseOctaves
        } else if i == 2 {
            Command::DecreaseFrequency
        } else if i == 3 {
            Command::IncreaseFrequency
        } else if i == 4 {
            Command::DecreaseGain
        } else if i == 5 {
            Command::IncreaseGain
        } else if i == 6 {
            Command::DecreaseLacunarity
        } else if i == 7 {
            Command::IncreaseLacunarity
        } else if i == 8 {
            Command::ResetAll
        } else {
            Command::Reseed
        }
    }

    /// Whether the command draws a new seed.
    pub fn draws_seed(self) -> (yes: bool)
        ensures
            yes == needs_seed(self),
    {
        match self {
            Command::ResetAll => true,
            Command::Reseed => true,
            _ => false,
        }
    }
}

impl KeyState {
    /// No key held.
    pub fn idle() -> (keys: KeyState)
        ensures
            held(keys).len() == 0,
            !keys.boost,
            forall|command: Command| !holds(keys, command),
    {
        let keys = KeyState {
            decrease_octaves: false,
            increase_octaves: false,
            decrease_frequency: false,
            increase_frequency: false,
            decrease_gain: false,
            increase_gain: false,
            decrease_lacunarity: false,
            increase_lacunarity: false,
            reset_all: false,
            reseed: false,
            boost: false,
        };
        proof {
            no_key_no_command(keys);
        }
        keys
    }

    /// Whether the key of `command` is held.
    pub fn is_held(&self, command: Command) -> (down: bool)
        ensures
            down == holds(*self, command),
    {
        match command {
            Command::DecreaseOctaves => self.decrease_octaves,
            Command::IncreaseOctaves => self.increase_octaves,
            Command::DecreaseFrequency => self.decrease_frequency,
            Command::IncreaseFrequency => self.increase_frequency,
            Command::DecreaseGain => self.decrease_gain,
            Command::IncreaseGain => self.increase_gain,
            Command::DecreaseLacunarity => self.decrease_lacunarity,
            Command::IncreaseLacunarity => self.increase_lacunarity,
            Command::ResetAll => self.reset_all,
            Command::Reseed => self.reseed,
        }
    }

    /// The commands of this tick, in the order of application.
    pub fn commands(&self) -> (list: Vec<Command>)
        ensures
            list@ == held(*self),
    {
        let mut list: Vec<Command> = Vec::new();
        let mut i: usize = 0;
        while i < COMMAND_COUNT
            invariant
                i <= COMMAND_COUNT,
                list@ == held_among(*self, i as nat),
            decreases COMMAND_COUNT - i,
        {
            let command: Command = Command::in_order(i);
            if self.is_held(command) {
                list.push(command);
            }
            i = i + 1;
        }
        list
    }
}

/// The step of a command: 5 with the modifier, 1 without.
pub fn step(boost: bool) -> (s: u8)
    ensures
        s == step_size(boost),
{
    if boost {
        BOOSTED_STEP
    } else {
        SINGLE_STEP
    }
}

/// Moves a value in hundredths by `delta`, stopping at the ends of the range
/// of `i64`.
pub fn nudge(value: i64, delta: i64) -> (moved: i64)
    ensures
        moved == nudged(value, delta as int),
{
    let sum: i128 = value as i128 + delta as i128;
    if sum > i64::MAX as i128 {
        i64::MAX
    } else if sum < i64::MIN as i128 {
        i64::MIN
    } else {
        sum as i64
    }
}

/// Applies one command to a parameter set. `fresh_seed` is the seed drawn
/// for it; only a reset and a reseed use it.
pub fn apply_command(
    parameters: &NoiseParameters,
    command: Command,
    boost: bool,
    fresh_seed: i32,
) -> (next: NoiseParameters)
    ensures
        next == applied(*parameters, command, boost, fresh_seed),
{
    let s: u8 = step(boost);
    let delta: i64 = s as i64;
    let mut next: NoiseParameters = *parameters;
    match command {
        Command::DecreaseOctaves => {
            next.octaves = parameters.octaves.saturating_sub(s);
        },
        Command::IncreaseOctaves => {
            next.octaves = parameters.octaves.saturating_add(s);
        },
        Command::DecreaseFrequency => {
            next.frequency = nudge(parameters.frequency, -delta);
        },
        Command::IncreaseFrequency => {
            next.frequency = nudge(parameters.frequency, delta);
        },
        Command::DecreaseGain => {
            next.gain = nudge(parameters.gain, -delta);
        },
        Command::IncreaseGain => {
            next.gain = nudge(parameters.gain, delta);
        },
        Command::DecreaseLacunarity => {
            next.lacunarity = nudge(parameters.lacunarity, -delta);
        },
        Command::IncreaseLacunarity => {
            next.lacunarity = nudge(parameters.lacunarity, delta);
        },
        Command::ResetAll => {
            next = NoiseParameters::new(fresh_seed);
        },
        Command::Reseed => {
            next.seed = fresh_seed;
        },
    }
    next
}

/// Draws a seed with `rand::Rng::gen` on the generator that
/// `rand::thread_rng` hands out. The value depends on chance, so nothing is
/// claimed of it. `thread_rng` aborts where the system cannot seed it.
#[verifier::external_body]
fn draw_seed() -> (seed: i32) {
    rand::Rng::gen::<i32>(&mut rand::thread_rng())
}

impl TerrainMap {
    /// Applies one command with the seed drawn for it, and marks the map
    /// dirty. The buffer stays as it is until the next regeneration.
    pub fn apply(&mut self, command: Command, boost: bool, fresh_seed: i32)
        ensures
            final(self)@ == commanded(old(self)@, command, boost, fresh_seed),
    {
        let next: NoiseParameters = apply_command(self.current_parameters(), command, boost, fresh_seed);
        self.set_parameters(next);
    }

    /// Applies one command, drawing a random seed where the command asks for
    /// one. Every parameter but a new seed is determined by the command.
    pub fn issue(&mut self, command: Command, boost: bool)
        ensures
            exists|seed: i32| final(self)@ == #[trigger] commanded(old(self)@, command, boost, seed),
            !needs_seed(command) ==> final(self)@ == commanded(
                old(self)@,
                command,
                boost,
                old(self)@.parameters.seed,
            ),
    {
        let seed: i32 = if command.draws_seed() {
            draw_seed()
        } else {
            self.current_parameters().seed
        };
        self.apply(command, boost, seed);
    }

    /// One tick: applies the commands of the keys held, in order, each reset
    /// and reseed with a seed of its own, and returns whether a regeneration
    /// is due. With no key held the map stays as it is.
    pub fn tick(&mut self, keys: &KeyState) -> (due: bool)
        ensures
            due == final(self)@.dirty,
            exists|seeds: Seq<i32>|
                seeds.len() == held(*keys).len() && final(self)@ == #[trigger] commanded_all(
                    old(self)@,
                    held(*keys),
                    keys.boost,
                    seeds,
                ),
            held(*keys).len() == 0 ==> final(self)@ == old(self)@,
            held(*keys).len() > 0 ==> due,
            final(self)@.buffer == old(self)@.buffer,
            final(self)@.size == old(self)@.size,
    {
        let commands: Vec<Command> = keys.commands();
        let ghost before = self@;
        let ghost mut seeds: Seq<i32> = Seq::empty();
        let mut i: usize = 0;
        while i < commands.len()
            invariant
                i <= commands.len(),
                commands@ == held(*keys),
                seeds.len() == i,
                self@ == commanded_all(before, commands@.take(i as int), keys.boost, seeds),
            decreases commands.len() - i,
        {
            let command: Command = commands[i];
            let ghost reached = self@;
            self.issue(command, keys.boost);
            proof {
                let seed = choose|seed: i32| self@ == #[trigger] commanded(reached, command, keys.boost, seed);
                let earlier = seeds;
                seeds = seeds.push(seed);
                assert(seeds.drop_last() =~= earlier);
                assert(commands@.take(i + 1).drop_last() =~= commands@.take(i as int));
                assert(commands@.take(i + 1).last() == command);
            }
            i = i + 1;
        }
        proof {
            assert(commands@.take(i as int) =~= commands@);
            commands_mark_dirty(before, commands@, keys.boost, seeds);
        }
        self.is_dirty()
    }
}

/// With no command key held a tick has no command.
pub proof fn no_key_no_command(keys: KeyState)
    requires
        forall|command: Command| !holds(keys, command),
    ensures
        held(keys).len() == 0,
{
    reveal_with_fuel(held_among, 11);
}

/// A tick without commands leaves the state as it is: parameters, buffer and
/// dirty flag.
pub proof fn idle_tick_changes_nothing(state: TerrainState, boost: bool, seeds: Seq<i32>)
    ensures
        commanded_all(state, Seq::<Command>::empty(), boost, seeds) == state,
{
}

/// A tick with one command is that command, applied with the seed drawn
/// for it.
pub proof fn one_command_tick(state: TerrainState, command: Command, boost: bool, seed: i32)
    ensures
        commanded_all(state, seq![command], boost, seq![seed]) == commanded(
            state,
            command,
            boost,
            seed,
        ),
{
    let commands = seq![command];
    let seeds = seq![seed];
    assert(commands.drop_last() =~= Seq::<Command>::empty());
    assert(commands.last() == command);
    assert(seeds.last() == seed);
    reveal_with_fuel(commanded_all, 2);
}

/// Any single command marks the map dirty, and leaves the side and the
/// buffer alone.
pub proof fn command_marks_dirty(state: TerrainState, command: Command, boost: bool, seed: i32)
    ensures
        commanded(state, command, boost, seed).dirty,
        commanded(state, command, boost, seed).buffer == state.buffer,
        commanded(state, command, boost, seed).size == state.size,
{
}

/// After one or more commands the map is dirty; commands never touch the
/// side or the buffer.
pub proof fn commands_mark_dirty(
    state: TerrainState,
    commands: Seq<Command>,
    boost: bool,
    seeds: Seq<i32>,
)
    ensures
        commands.len() > 0 ==> commanded_all(state, commands, boost, seeds).dirty,
        commanded_all(state, commands, boost, seeds).buffer == state.buffer,
        commanded_all(state, commands, boost, seeds).size == state.size,
    decreases commands.len(),
{
    if commands.len() > 0 {
        commands_mark_dirty(state, commands.drop_last(), boost, seeds.drop_last());
    }
}

/// Commands keep a map well formed.
pub proof fn commands_keep_well_formed(
    state: TerrainState,
    commands: Seq<Command>,
    boost: bool,
    seeds: Seq<i32>,
)
    requires
        state.wf(),
    ensures
        commanded_all(state, commands, boost, seeds).wf(),
    decreases commands.len(),
{
    if commands.len() > 0 {
        commands_keep_well_formed(state, commands.drop_last(), boost, seeds.drop_last());
    }
}

/// Octaves at 0 stay at 0 under any number of decrease commands, with or
/// without the modifier.
pub proof fn octaves_stay_at_zero(
    state: TerrainState,
    commands: Seq<Command>,
    boost: bool,
    seeds: Seq<i32>,
)
    requires
        state.parameters.octaves == 0,
        forall|i: int| 0 <= i < commands.len() ==> commands[i] == Command::DecreaseOctaves,
    ensures
        commanded_all(state, commands, boost, seeds).parameters.octaves == 0,
    decreases commands.len(),
{
    if commands.len() > 0 {
        octaves_stay_at_zero(state, commands.drop_last(), boost, seeds.drop_last());
    }
}

/// Octaves never leave the range of a byte: a decrease stops at 0 and an
/// increase at 255.
pub proof fn octaves_saturate(parameters: NoiseParameters, boost: bool, seed: i32)
    ensures
        parameters.octaves < step_size(boost) ==> applied(
            parameters,
            Command::DecreaseOctaves,
            boost,
            seed,
        ).octaves == 0,
        parameters.octaves + step_size(boost) > 255 ==> applied(
            parameters,
            Command::IncreaseOctaves,
            boost,
            seed,
        ).octaves == 255,
{
}

/// Whatever the parameters were, a reset gives the defaults under the seed
/// drawn for it: 5 octaves, a frequency of 0.05, a gain of 2.0 and a
/// lacunarity of 0.5.
pub proof fn reset_restores_defaults(parameters: NoiseParameters, boost: bool, seed: i32)
    ensures
        applied(parameters, Command::ResetAll, boost, seed) == default_parameters(seed),
        applied(parameters, Command::ResetAll, boost, seed) == (NoiseParameters {
            seed,
            octaves: 5,
            frequency: 5,
            gain: 200,
            lacunarity: 50,
        }),
{
}

/// A reseed changes the seed and nothing else.
pub proof fn reseed_keeps_the_rest(parameters: NoiseParameters, boost: bool, seed: i32)
    ensures
        applied(parameters, Command::Reseed, boost, seed) == (NoiseParameters { seed, ..parameters }),
{
}

} // verus!
