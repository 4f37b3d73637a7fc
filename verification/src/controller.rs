//! The controller: owner of the grid and the clock state, and the one place
//! where user intents and clock ticks take effect.

use vstd::prelude::*;
use crate::engine::step;
use crate::grid::Grid;
use crate::grid::GridModel;
use crate::grid::lemma_toggle_flips_one_cell;
use crate::sampling::Probability;
use crate::state::GridState;

verus! {

/// Width and height requested before the user has entered any.
pub const DEFAULT_SIZE: usize = 10;

/// Period of the clock, in milliseconds.
pub const DEFAULT_TICK_INTERVAL_MS: u32 = 400;

/// Whether clock ticks advance the grid.
#[derive(Clone, Copy, Debug, PartialEq, Eq, Structural)]
pub enum ClockState {
    /// Ticks are ignored.
    Idle,
    /// Each tick advances the grid by one generation.
    Running,
}

impl ClockState {
    /// The other state.
    pub open spec fn flipped(self) -> ClockState {
        match self {
            ClockState::Idle => ClockState::Running,
            ClockState::Running => ClockState::Idle,
        }
    }
}

/// Settings fixed when a controller is made.
#[derive(Clone, Copy, Debug)]
pub struct SimulationConfig {
    /// Probability that a cell of a random grid is born alive.
    pub randomize_threshold: Probability,
    /// Period of the clock that sends ticks, in milliseconds.
    pub tick_interval_ms: u32,
}

impl Default for SimulationConfig {
    /// Even odds for a random cell, and a tick every 400 ms.
    fn default() -> (config: SimulationConfig)
        ensures
            config.randomize_threshold@ == (1nat, 2nat),
            config.tick_interval_ms == DEFAULT_TICK_INTERVAL_MS,
    {
        SimulationConfig {
            randomize_threshold: Probability::half(),
            tick_interval_ms: DEFAULT_TICK_INTERVAL_MS,
        }
    }
}

/// What the presentation layer or the clock asks of the controller.
#[derive(Clone, Copy, Debug)]
pub enum Intent {
    /// Set both requested dimensions (width, then height) and rebuild the
    /// grid, all dead, at that size. `None` stands for input that did not
    /// parse; with either one missing the intent is ignored.
    Resize(Option<usize>, Option<usize>),
    /// Set the requested width for the next generated grid. `None` is ignored.
    ChangeX(Option<usize>),
    /// Set the requested height for the next generated grid. `None` is ignored.
    ChangeY(Option<usize>),
    /// Replace the grid with an all-dead one of the requested dimensions.
    Generate,
    /// Replace the grid with a random one of the requested dimensions, each
    /// cell alive with the given probability.
    GenerateRandom(Probability),
    /// Flip the cell at column `x`, row `y`.
    ToggleCell(usize, usize),
    /// Advance one generation, whatever the clock state.
    Step,
    /// Start the clock if it is idle, stop it if it is running.
    ToggleClock,
    /// A tick of the clock: advances one generation while the clock runs.
    Tick,
}

/// Mathematical model of a controller.
pub struct ControllerModel {
    /// Requested width, applied when a grid is next generated.
    pub size_x: nat,
    /// Requested height, applied when a grid is next generated.
    pub size_y: nat,
    /// The current generation.
    pub grid: GridModel,
    /// Whether ticks advance the grid.
    pub clock: ClockState,
    /// The settings the controller was made with.
    pub config: SimulationConfig,
}

impl ControllerModel {
    /// The state a controller starts in: ten by ten requested, an empty
    /// grid, the clock idle.
    pub open spec fn initial(config: SimulationConfig) -> ControllerModel {
        ControllerModel {
            size_x: DEFAULT_SIZE as nat,
            size_y: DEFAULT_SIZE as nat,
            grid: GridModel::dead(0, 0),
            clock: ClockState::Idle,
            config,
        }
    }

    /// The state after a forced or honored tick: the grid moves on one
    /// generation, nothing else changes.
    pub open spec fn advanced(self) -> ControllerModel {
        ControllerModel { grid: self.grid.step(), ..self }
    }

    /// The state after the whole grid was rewritten: `grid` is the current
    /// generation and the clock is idle.
    pub open spec fn regenerated(self, grid: GridModel) -> ControllerModel {
        ControllerModel { grid, clock: ClockState::Idle, ..self }
    }

    /// The state after an intent whose outcome the state and the intent
    /// determine. The outcome of `GenerateRandom` is drawn, so it is not
    /// among them: `is_random_generation_of` says what it leads to, and
    /// `react` leaves the state as it is.
    pub open spec fn react(self, intent: Intent) -> ControllerModel {
        match intent {
            Intent::Resize(Some(width), Some(height)) => ControllerModel {
                size_x: width as nat,
                size_y: height as nat,
                ..self
            }.regenerated(GridModel::dead(width as nat, height as nat)),
            Intent::Resize(_, _) => self,
            Intent::ChangeX(Some(width)) => ControllerModel { size_x: width as nat, ..self },
            Intent::ChangeX(None) => self,
            Intent::ChangeY(Some(height)) => ControllerModel { size_y: height as nat, ..self },
            Intent::ChangeY(None) => self,
            Intent::Generate => self.regenerated(GridModel::dead(self.size_x, self.size_y)),
            Intent::GenerateRandom(_) => self,
            Intent::ToggleCell(x, y) => ControllerModel {
                grid: self.grid.toggle(x as int, y as int),
                ..self
            },
            Intent::Step => self.advanced(),
            Intent::ToggleClock => ControllerModel { clock: self.clock.flipped(), ..self },
            Intent::Tick => if self.clock == ClockState::Running {
                self.advanced()
            } else {
                self
            },
        }
    }

    /// Whether `self` can be the state after `GenerateRandom(threshold)` in
    /// state `before`: the grid is a random fill at the requested
    /// dimensions, the clock is idle, and the rest is as it was.
    pub open spec fn is_random_generation_of(self, before: ControllerModel, threshold: Probability) -> bool {
        &&& self.grid.is_random_fill(before.size_x, before.size_y, threshold)
        &&& self == before.regenerated(self.grid)
    }

    /// Whether `self` can be the state after `intent` in state `before`.
    pub open spec fn follows(self, before: ControllerModel, intent: Intent) -> bool {
        match intent {
            Intent::GenerateRandom(threshold) => self.is_random_generation_of(before, threshold),
            _ => self == before.react(intent),
        }
    }

    /// Whether the presentation layer has to render again after `intent`:
    /// yes after every intent that took effect on the grid or on a requested
    /// dimension, no after one that was ignored and after `ToggleClock`.
    pub open spec fn render_needed(self, intent: Intent) -> bool {
        match intent {
            Intent::Resize(width, height) => width is Some && height is Some,
            Intent::ChangeX(width) => width is Some,
            Intent::ChangeY(height) => height is Some,
            Intent::Generate => true,
            Intent::GenerateRandom(_) => true,
            Intent::ToggleCell(x, y) => self.grid.in_bounds(x as int, y as int),
            Intent::Step => true,
            Intent::ToggleClock => false,
            Intent::Tick => self.clock == ClockState::Running,
        }
    }
}

/// While the clock is idle a tick is dropped: the state stays as it is and no
/// render is asked for. A forced step still advances the grid by one
/// generation and leaves the clock idle.
pub proof fn lemma_idle_drops_ticks(state: ControllerModel)
    requires
        state.clock == ClockState::Idle,
    ensures
        state.react(Intent::Tick) == state,
        !state.render_needed(Intent::Tick),
        state.react(Intent::Step).grid == state.grid.step(),
        state.react(Intent::Step).clock == ClockState::Idle,
{
}

/// While the clock runs a tick advances the grid by exactly one generation,
/// as a forced step does, and the clock keeps running.
pub proof fn lemma_running_tick_advances_once(state: ControllerModel)
    requires
        state.clock == ClockState::Running,
    ensures
        state.react(Intent::Tick) == state.react(Intent::Step),
        state.react(Intent::Tick).grid == state.grid.step(),
        state.react(Intent::Tick).clock == ClockState::Running,
        state.render_needed(Intent::Tick),
{
}

/// Toggling the clock twice leaves the state as it was.
pub proof fn lemma_toggle_clock_twice(state: ControllerModel)
    ensures
        state.react(Intent::ToggleClock).react(Intent::ToggleClock) == state,
{
}

/// Every intent that rewrites the whole grid leaves the clock idle.
pub proof fn lemma_rewrite_stops_clock(before: ControllerModel, after: ControllerModel, intent: Intent)
    requires
        after.follows(before, intent),
        intent is Generate || intent is GenerateRandom || (intent matches Intent::Resize(
            width,
            height,
        ) && width is Some && height is Some),
    ensures
        after.clock == ClockState::Idle,
{
}

/// No intent breaks the shape of the grid: if the matrix was rectangular
/// before, it is rectangular after.
pub proof fn lemma_grid_stays_rectangular(before: ControllerModel, after: ControllerModel, intent: Intent)
    requires
        before.grid.wf(),
        after.follows(before, intent),
    ensures
        after.grid.wf(),
{
    match intent {
        Intent::ToggleCell(x, y) => {
            if before.grid.in_bounds(x as int, y as int) {
                lemma_toggle_flips_one_cell(before.grid, x as int, y as int);
            }
        },
        _ => {},
    }
}

/// Owner of the grid and of the clock state.
pub struct Controller {
    size_x: usize,
    size_y: usize,
    grid: GridState,
    clock: ClockState,
    config: SimulationConfig,
}

impl View for Controller {
    type V = ControllerModel;

    closed spec fn view(&self) -> ControllerModel {
        ControllerModel {
            size_x: self.size_x as nat,
            size_y: self.size_y as nat,
            grid: self.grid@,
            clock: self.clock,
            config: self.config,
        }
    }
}

impl Controller {
    /// A controller in its initial state.
    pub fn new(config: SimulationConfig) -> (controller: Controller)
        ensures
            controller@ == ControllerModel::initial(config),
    {
        Controller {
            size_x: DEFAULT_SIZE,
            size_y: DEFAULT_SIZE,
            grid: GridState::new(),
            clock: ClockState::Idle,
            config,
        }
    }

    /// Handles one intent and reports whether a render is needed.
    pub fn dispatch(&mut self, intent: Intent) -> (render: bool)
        ensures
            final(self)@.follows(old(self)@, intent),
            render == old(self)@.render_needed(intent),
    {
        match intent {
            Intent::Resize(width, height) => self.resize(width, height),
            Intent::ChangeX(width) => self.change_x(width),
            Intent::ChangeY(height) => self.change_y(height),
            Intent::Generate => self.generate(),
            Intent::GenerateRandom(threshold) => self.generate_random(threshold),
            Intent::ToggleCell(x, y) => self.toggle_cell(x, y),
            Intent::Step => self.tick(true),
            Intent::ToggleClock => self.toggle_clock(),
            Intent::Tick => self.tick(false),
        }
    }

    /// Sets both requested dimensions and rebuilds the grid, all dead, at
    /// that size; the clock stops. With either dimension missing nothing
    /// changes and no render is needed.
    pub fn resize(&mut self, width: Option<usize>, height: Option<usize>) -> (render: bool)
        ensures
            final(self)@ == old(self)@.react(Intent::Resize(width, height)),
            render == (width is Some && height is Some),
    {
        match (width, height) {
            (Some(w), Some(h)) => {
                self.size_x = w;
                self.size_y = h;
                self.clock = ClockState::Idle;
                self.grid.resize(w, h);
                true
            },
            _ => false,
        }
    }

    /// Sets the requested width; the grid keeps its size until it is next
    /// generated. `None` changes nothing.
    pub fn change_x(&mut self, width: Option<usize>) -> (render: bool)
        ensures
            final(self)@ == old(self)@.react(Intent::ChangeX(width)),
            render == width is Some,
    {
        match width {
            Some(w) => {
                self.size_x = w;
                true
            },
            None => false,
        }
    }

    /// Sets the requested height; the grid keeps its size until it is next
    /// generated. `None` changes nothing.
    pub fn change_y(&mut self, height: Option<usize>) -> (render: bool)
        ensures
            final(self)@ == old(self)@.react(Intent::ChangeY(height)),
            render == height is Some,
    {
        match height {
            Some(h) => {
                self.size_y = h;
                true
            },
            None => false,
        }
    }

    /// Replaces the grid with an all-dead one of the requested dimensions
    /// and stops the clock.
    pub fn generate(&mut self) -> (render: bool)
        ensures
            final(self)@ == old(self)@.react(Intent::Generate),
            render,
    {
        self.clock = ClockState::Idle;
        self.grid.resize(self.size_x, self.size_y);
        true
    }

    /// Replaces the grid with a random one of the requested dimensions and
    /// stops the clock.
    pub fn generate_random(&mut self, threshold: Probability) -> (render: bool)
        ensures
            final(self)@.is_random_generation_of(old(self)@, threshold),
            render,
    {
        self.clock = ClockState::Idle;
        self.grid.resize(self.size_x, self.size_y);
        self.grid.randomize(threshold);
        true
    }

    /// Flips one cell; a coordinate off the grid is ignored and needs no render.
    pub fn toggle_cell(&mut self, x: usize, y: usize) -> (render: bool)
        ensures
            final(self)@ == old(self)@.react(Intent::ToggleCell(x, y)),
            render == old(self)@.grid.in_bounds(x as int, y as int),
    {
        self.grid.toggle_cell(x, y)
    }

    /// Starts the clock if it is idle and stops it if it is running. The
    /// grid is not touched and no render is needed.
    pub fn toggle_clock(&mut self) -> (render: bool)
        ensures
            final(self)@ == old(self)@.react(Intent::ToggleClock),
            !render,
    {
        self.clock = match self.clock {
            ClockState::Idle => ClockState::Running,
            ClockState::Running => ClockState::Idle,
        };
        false
    }

    /// Reacts to a tick. While the clock runs, or when `force` is set, the
    /// grid advances by exactly one generation; otherwise the tick is
    /// dropped. The clock state stays as it is.
    pub fn tick(&mut self, force: bool) -> (render: bool)
        ensures
            render == (force || old(self)@.clock == ClockState::Running),
            final(self)@ == (if render {
                old(self)@.advanced()
            } else {
                old(self)@
            }),
    {
        if !force && !self.is_active() {
            return false;
        }
        let next = step(self.grid.snapshot());
        self.grid.replace(next);
        true
    }

    /// The current generation, for rendering.
    pub fn snapshot(&self) -> (grid: &Grid)
        ensures
            grid@ == self@.grid,
    {
        self.grid.snapshot()
    }

    /// The requested width.
    pub fn size_x(&self) -> (width: usize)
        ensures
            width == self@.size_x,
    {
        self.size_x
    }

    /// The requested height.
    pub fn size_y(&self) -> (height: usize)
        ensures
            height == self@.size_y,
    {
        self.size_y
    }

    /// The clock state.
    pub fn clock(&self) -> (clock: ClockState)
        ensures
            clock == self@.clock,
    {
        self.clock
    }

    /// Whether the clock is running.
    pub fn is_active(&self) -> (active: bool)
        ensures
            active == (self@.clock == ClockState::Running),
    {
        match self.clock {
            ClockState::Idle => false,
            ClockState::Running => true,
        }
    }

    /// The settings the controller was made with.
    pub fn config(&self) -> (config: SimulationConfig)
        ensures
            config == self@.config,
    {
        self.config
    }
}

} // verus!
