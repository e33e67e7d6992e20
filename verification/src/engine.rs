//! The engine: a simulation and the order in which its stages are
//! performed.
//!
//! The engine does not perform a stage itself. It says which stage is next,
//! the caller performs it and asks again. What the engine keeps itself is
//! the count of the steps.

use crate::dynamics::neighbors::rebuild_is_due;
use crate::error::ConfigError;
use crate::io::input::first_document;
use crate::io::input::parse_yaml;
use crate::io::input::same_text;
use crate::simulation::simulation_fault;
use crate::simulation::simulation_shows;
use crate::simulation::Simulation;
use crate::utils::logger::log_is_due;
use crate::utils::logger::script_logger;
use crate::utils::logger::LoggerModel;
use crate::utils::logger::SimulationLogger;
use vstd::prelude::*;

verus! {

/// What the caller is to do next.
#[derive(Clone, Copy, Debug, PartialEq, Eq, Structural)]
pub enum Action {
    /// Set the simulated time back to zero.
    ResetClock,
    /// Wrap the positions and rebuild the neighbour list.
    UpdateNeighbors,
    /// Propagate the atoms by one step.
    Integrate,
    /// Bring the thermodynamic quantities up to date.
    UpdateThermodynamics,
    /// Write the state of the simulation to the destinations of the log.
    LogState,
    /// Write the neighbour list to the log.
    LogNeighbors,
    /// Add one timestep to the simulated time.
    Tick,
    /// Nothing: the run is over.
    Stop,
}

/// Where a run stands: the stage that is performed next.
#[derive(Clone, Copy, Debug, PartialEq, Eq, Structural)]
pub enum Stage {
    Reset,
    FirstRebuild,
    Check,
    Rebuild,
    Thermodynamics,
    LogState,
    LogNeighbors,
    Tick,
    Done,
}

#[derive(Debug)]
pub struct SimulationRunnerEngine<G> {
    pub simulation: Simulation<G>,
    pub logger: SimulationLogger,
    pub stage: Stage,
}

/// What decides the course of a run at one moment: whether the clock has
/// left its first step, whether the simulated time is up, whether a rebuild
/// of the neighbour list is due, whether the state is logged at this step,
/// and whether the neighbour list is logged.
#[derive(Clone, Copy, Debug, PartialEq, Eq, Structural)]
pub struct Situation {
    pub started: bool,
    pub finished: bool,
    pub due: bool,
    pub log_due: bool,
    pub log: bool,
}

/// The action that is next at a stage, and the stage that follows it.
pub open spec fn next_of(stage: Stage, situation: Situation) -> (Action, Stage) {
    match stage {
        Stage::Reset => if situation.started {
            (Action::ResetClock, Stage::FirstRebuild)
        } else {
            (Action::UpdateNeighbors, Stage::Check)
        },
        Stage::FirstRebuild => (Action::UpdateNeighbors, Stage::Check),
        Stage::Check => if situation.finished {
            (Action::Stop, Stage::Done)
        } else {
            (Action::Integrate, Stage::Rebuild)
        },
        Stage::Rebuild => if situation.due {
            (Action::UpdateNeighbors, Stage::Thermodynamics)
        } else {
            (Action::UpdateThermodynamics, Stage::LogState)
        },
        Stage::Thermodynamics => (Action::UpdateThermodynamics, Stage::LogState),
        Stage::LogState => if situation.log_due {
            if situation.log {
                (Action::LogState, Stage::LogNeighbors)
            } else {
                (Action::LogState, Stage::Tick)
            }
        } else if situation.log {
            (Action::LogNeighbors, Stage::Tick)
        } else {
            (Action::Tick, Stage::Check)
        },
        Stage::LogNeighbors => (Action::LogNeighbors, Stage::Tick),
        Stage::Tick => (Action::Tick, Stage::Check),
        Stage::Done => (Action::Stop, Stage::Done),
    }
}

/// The first `count` actions from a stage on, in a situation that does not
/// change.
pub open spec fn actions_from(stage: Stage, situation: Situation, count: nat) -> Seq<Action>
    decreases count,
{
    if count == 0 {
        Seq::empty()
    } else {
        seq![next_of(stage, situation).0] + actions_from(
            next_of(stage, situation).1,
            situation,
            (count - 1) as nat,
        )
    }
}

/// The stage that is reached after `count` actions.
pub open spec fn stage_after(stage: Stage, situation: Situation, count: nat) -> Stage
    decreases count,
{
    if count == 0 {
        stage
    } else {
        stage_after(next_of(stage, situation).1, situation, (count - 1) as nat)
    }
}

/// The actions of one step, in their order: the atoms are propagated, the
/// neighbour list is rebuilt if that is due, the thermodynamic quantities
/// are brought up to date, the state is logged if that is due, the
/// neighbour list is logged if it is to be, and the clock ticks.
pub open spec fn actions_of_step(situation: Situation) -> Seq<Action> {
    seq![Action::Integrate] + (if situation.due {
        seq![Action::UpdateNeighbors]
    } else {
        Seq::empty()
    }) + seq![Action::UpdateThermodynamics] + (if situation.log_due {
        seq![Action::LogState]
    } else {
        Seq::empty()
    }) + (if situation.log {
        seq![Action::LogNeighbors]
    } else {
        Seq::empty()
    }) + seq![Action::Tick]
}

/// While the simulated time is not up, the engine goes through the actions
/// of one step in their order and is then back where it checks the time.
pub proof fn lemma_step_order(situation: Situation)
    requires
        !situation.finished,
    ensures
        actions_from(Stage::Check, situation, actions_of_step(situation).len())
            == actions_of_step(situation),
        stage_after(Stage::Check, situation, actions_of_step(situation).len()) == Stage::Check,
{
    reveal_with_fuel(actions_from, 8);
    reveal_with_fuel(stage_after, 8);
    let expected = actions_of_step(situation);
    assert(actions_from(Stage::Check, situation, expected.len()) =~= expected);
}

/// A run begins by setting back a clock that has left its first step, and
/// then builds the neighbour list before it checks the time.
pub proof fn lemma_run_start(situation: Situation)
    ensures
        situation.started ==> actions_from(Stage::Reset, situation, 2) == seq![
            Action::ResetClock,
            Action::UpdateNeighbors,
        ] && stage_after(Stage::Reset, situation, 2) == Stage::Check,
        !situation.started ==> actions_from(Stage::Reset, situation, 1) == seq![
            Action::UpdateNeighbors,
        ] && stage_after(Stage::Reset, situation, 1) == Stage::Check,
{
    reveal_with_fuel(actions_from, 4);
    reveal_with_fuel(stage_after, 4);
    if situation.started {
        assert(actions_from(Stage::Reset, situation, 2) =~= seq![
            Action::ResetClock,
            Action::UpdateNeighbors,
        ]);
    } else {
        assert(actions_from(Stage::Reset, situation, 1) =~= seq![Action::UpdateNeighbors]);
    }
}

/// Once the simulated time is up, the run stops and stays stopped.
pub proof fn lemma_run_end(situation: Situation, count: nat)
    requires
        situation.finished,
    ensures
        stage_after(Stage::Check, situation, count) == if count == 0 {
            Stage::Check
        } else {
            Stage::Done
        },
        forall|k: int|
            0 <= k < count ==> #[trigger] actions_from(Stage::Check, situation, count)[k]
                == Action::Stop,
        actions_from(Stage::Check, situation, count).len() == count,
    decreases count,
{
    lemma_stays_done(situation, count);
    if count > 0 {
        let rest = actions_from(Stage::Done, situation, (count - 1) as nat);
        assert(actions_from(Stage::Check, situation, count) =~= seq![Action::Stop] + rest);
    }
}

/// A run that is over stays over.
proof fn lemma_stays_done(situation: Situation, count: nat)
    ensures
        stage_after(Stage::Done, situation, count) == Stage::Done,
        actions_from(Stage::Done, situation, count).len() == count,
        forall|k: int|
            0 <= k < count ==> #[trigger] actions_from(Stage::Done, situation, count)[k]
                == Action::Stop,
    decreases count,
{
    if count > 0 {
        lemma_stays_done(situation, (count - 1) as nat);
    }
}

/// Whether a file name is `yaml` or ends in `.yaml`.
pub open spec fn has_yaml_extension(path: Seq<char>) -> bool {
    path == "yaml"@ || (path.len() >= 5 && path.subrange(path.len() - 5, path.len() as int)
        == ".yaml"@)
}

/// The extension of a file name: the text after its last dot, or the whole
/// name where it has no dot.
pub open spec fn extension_of(path: Seq<char>) -> Seq<char>
    decreases path.len(),
{
    if path.len() == 0 || path.last() == '.' {
        Seq::empty()
    } else {
        extension_of(path.drop_last()).push(path.last())
    }
}

/// The extension of a file name is empty only if the name is empty or ends
/// in a dot.
proof fn lemma_empty_extension(path: Seq<char>)
    ensures
        extension_of(path).len() == 0 <==> (path.len() == 0 || path.last() == '.'),
{
}

/// A file name is `yaml` or ends in `.yaml` exactly if its extension is
/// `yaml`.
pub proof fn lemma_yaml_extension(path: Seq<char>)
    ensures
        has_yaml_extension(path) <==> extension_of(path) == "yaml"@,
{
    reveal_strlit("yaml");
    reveal_strlit(".yaml");
    reveal_with_fuel(extension_of, 6);
    let word = "yaml"@;
    let length = path.len() as int;
    if has_yaml_extension(path) {
        if path == word {
            assert(path.drop_last().drop_last().drop_last().drop_last().len() == 0);
            assert(extension_of(path) =~= word);
        } else {
            let tail = path.subrange(length - 5, length);
            assert(tail[0] == '.' && tail[1] == 'y' && tail[2] == 'a' && tail[3] == 'm' && tail[4]
                == 'l');
            let stem = path.drop_last().drop_last().drop_last().drop_last();
            assert(stem.last() == path[length - 5]);
            assert(extension_of(path) =~= word);
        }
    }
    if extension_of(path) == word {
        assert(word.len() == 4);
        let first = path.drop_last();
        lemma_empty_extension(path);
        assert(extension_of(path) == extension_of(first).push(path.last()));
        assert(extension_of(first) =~= word.drop_last());
        let second = first.drop_last();
        lemma_empty_extension(first);
        assert(extension_of(first) == extension_of(second).push(first.last()));
        assert(extension_of(second) =~= word.drop_last().drop_last());
        let third = second.drop_last();
        lemma_empty_extension(second);
        assert(extension_of(second) == extension_of(third).push(second.last()));
        assert(extension_of(third) =~= word.drop_last().drop_last().drop_last());
        let stem = third.drop_last();
        lemma_empty_extension(third);
        assert(extension_of(third) == extension_of(stem).push(third.last()));
        assert(extension_of(stem) =~= Seq::<char>::empty());
        lemma_empty_extension(stem);
        assert(path[length - 1] == word[3]);
        assert(path[length - 2] == word[2]);
        assert(path[length - 3] == word[1]);
        assert(path[length - 4] == word[0]);
        if stem.len() == 0 {
            assert(path =~= word);
        } else {
            assert(path[length - 5] == '.');
            assert(path.subrange(length - 5, length) =~= ".yaml"@);
        }
    }
}

/// Whether a script with this file name is a YAML document: whether its
/// extension is `yaml`.
pub fn is_yaml_script(script_filepath: &str) -> (r: bool)
    ensures
        r == has_yaml_extension(script_filepath@),
        r == (extension_of(script_filepath@) == "yaml"@),
{
    proof {
        lemma_yaml_extension(script_filepath@);
    }
    let length = script_filepath.unicode_len();
    if same_text(script_filepath, "yaml") {
        true
    } else if length >= 5 {
        same_text(script_filepath.substring_char(length - 5, length), ".yaml")
    } else {
        false
    }
}

impl<G: Copy> SimulationRunnerEngine<G> {
    /// An engine is well-formed if its simulation and its logger are.
    pub open spec fn well_formed(&self) -> bool {
        self.simulation.well_formed() && self.logger.well_formed()
    }

    /// Sets an engine up from a script: its file name and its text. Fails
    /// with `UnknownExtension` where the name does not end in `yaml`, with
    /// `Unreadable` where the text is no document, and else with the first
    /// fault of the description of the simulation, or with that of the
    /// logger where the simulation has none.
    pub fn from_script(script_filepath: &str, script: &str) -> (r: Result<
        SimulationRunnerEngine<G>,
        ConfigError,
    >)
        ensures
            match r {
                Ok(engine) => has_yaml_extension(script_filepath@) && first_document(script@)
                    is Some && simulation_fault(first_document(script@).unwrap()) is None
                    && simulation_shows(engine.simulation, first_document(script@).unwrap())
                    && script_logger(first_document(script@).unwrap()) == Ok::<
                    LoggerModel,
                    ConfigError,
                >(engine.logger@) && engine.stage == Stage::Reset && engine.well_formed(),
                Err(e) => if !has_yaml_extension(script_filepath@) {
                    e == ConfigError::UnknownExtension
                } else if first_document(script@) is None {
                    e == ConfigError::Unreadable
                } else if simulation_fault(first_document(script@).unwrap()) is Some {
                    simulation_fault(first_document(script@).unwrap()) == Some(e)
                } else {
                    script_logger(first_document(script@).unwrap()) == Err::<
                        LoggerModel,
                        ConfigError,
                    >(e)
                },
            },
    {
        if !is_yaml_script(script_filepath) {
            return Err(ConfigError::UnknownExtension);
        }
        let document = match parse_yaml(script) {
            Ok(document) => document,
            Err(e) => {
                return Err(e);
            },
        };
        let simulation = match Simulation::from(&document) {
            Ok(simulation) => simulation,
            Err(e) => {
                return Err(e);
            },
        };
        match SimulationLogger::of_script(&document) {
            Ok(logger) => Ok(SimulationRunnerEngine { simulation, logger, stage: Stage::Reset }),
            Err(e) => Err(e),
        }
    }

    /// Makes the engine ready for another run: the next action sets back a
    /// clock that has left its first step, or else builds the neighbour
    /// list.
    pub fn restart(&mut self)
        ensures
            final(self).stage == Stage::Reset,
            final(self).simulation == old(self).simulation,
            final(self).logger == old(self).logger,
    {
        self.stage = Stage::Reset;
    }

    /// The situation of the engine, given whether the simulated time is up.
    pub open spec fn situation(&self, finished: bool) -> Situation {
        Situation {
            started: self.simulation.clock.current_step > 1,
            finished,
            due: rebuild_is_due(
                self.simulation.neighbors.frequency,
                self.simulation.clock.current_step,
            ),
            log_due: log_is_due(self.logger.frequency, self.simulation.clock.current_step),
            log: self.simulation.neighbors.log,
        }
    }

    /// Says what the caller is to do next, given whether the simulated time
    /// is up, and moves on to the stage that follows. Where the action is to
    /// set back the clock or to let it tick, the count of the steps is set
    /// back to one or goes up by one. Nothing else of the simulation
    /// changes.
    pub fn next_action(&mut self, finished: bool) -> (action: Action)
        requires
            old(self).simulation.clock.current_step < u64::MAX,
        ensures
            (action, final(self).stage) == next_of(old(self).stage, old(self).situation(finished)),
            final(self).simulation.clock.current_step == match action {
                Action::ResetClock => 1,
                Action::Tick => (old(self).simulation.clock.current_step + 1) as u64,
                _ => old(self).simulation.clock.current_step,
            },
            final(self).simulation.clock.timestep == old(self).simulation.clock.timestep,
            final(self).simulation.clock.length == old(self).simulation.clock.length,
            final(self).simulation.system == old(self).simulation.system,
            final(self).simulation.integrator == old(self).simulation.integrator,
            final(self).simulation.potential_model == old(self).simulation.potential_model,
            final(self).simulation.neighbors == old(self).simulation.neighbors,
            final(self).simulation.thermodynamics == old(self).simulation.thermodynamics,
            final(self).logger == old(self).logger,
            old(self).well_formed() ==> final(self).well_formed(),
    {
        match self.stage {
            Stage::Reset => {
                if self.simulation.clock.has_started() {
                    self.simulation.clock.reset();
                    self.stage = Stage::FirstRebuild;
                    Action::ResetClock
                } else {
                    self.stage = Stage::Check;
                    Action::UpdateNeighbors
                }
            },
            Stage::FirstRebuild => {
                self.stage = Stage::Check;
                Action::UpdateNeighbors
            },
            Stage::Check => {
                if finished {
                    self.stage = Stage::Done;
                    Action::Stop
                } else {
                    self.stage = Stage::Rebuild;
                    Action::Integrate
                }
            },
            Stage::Rebuild => {
                if self.simulation.neighbors.is_due(self.simulation.clock.current_step) {
                    self.stage = Stage::Thermodynamics;
                    Action::UpdateNeighbors
                } else {
                    self.simulation.thermodynamics.update();
                    self.stage = Stage::LogState;
                    Action::UpdateThermodynamics
                }
            },
            Stage::Thermodynamics => {
                self.simulation.thermodynamics.update();
                self.stage = Stage::LogState;
                Action::UpdateThermodynamics
            },
            Stage::LogState => {
                if self.logger.is_due(self.simulation.clock.current_step) {
                    if self.simulation.neighbors.log {
                        self.stage = Stage::LogNeighbors;
                    } else {
                        self.stage = Stage::Tick;
                    }
                    Action::LogState
                } else if self.simulation.neighbors.log {
                    self.stage = Stage::Tick;
                    Action::LogNeighbors
                } else {
                    self.simulation.clock.tick();
                    self.stage = Stage::Check;
                    Action::Tick
                }
            },
            Stage::LogNeighbors => {
                self.stage = Stage::Tick;
                Action::LogNeighbors
            },
            Stage::Tick => {
                self.simulation.clock.tick();
                self.stage = Stage::Check;
                Action::Tick
            },
            Stage::Done => Action::Stop,
        }
    }
}

} // verus!
