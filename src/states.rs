use std::ops::ControlFlow;
use vstd::prelude::*;

use crate::command::Command;

verus! {

/// What a state reports after handling a command; one variant per state.
#[derive(Clone, Copy, Debug, PartialEq, Eq, Structural)]
pub enum StateData {
    OnMap { is_encounter: bool },
    Fight,
}

/// A behavioural mode of a connection. Running a command either keeps the
/// state active (`Continue`) or finishes it (`Break`), each with the data
/// that decides whether another state is entered; `Err` rejects the command.
pub trait State: Sized {
    /// The data the state reports about itself.
    spec fn data_spec(&self) -> StateData;

    /// The result of running `cmd`, or `None` where the state rejects it.
    spec fn outcome(&self, cmd: Command) -> Option<ControlFlow<StateData, StateData>>;

    /// The state after running `cmd`.
    spec fn after(&self, cmd: Command) -> Self;

    fn run_command(&mut self, cmd: Command) -> (r: Result<ControlFlow<StateData, StateData>, String>)
        ensures
            *final(self) == old(self).after(cmd),
            match r {
                Ok(flow) => old(self).outcome(cmd) == Some(flow),
                Err(_) => old(self).outcome(cmd) is None,
            },
    ;

    fn get_data(&self) -> (r: StateData)
        ensures
            r == self.data_spec(),
    ;
}

/// The fight mode: it goes on until the player flees, which finishes it.
#[derive(Clone, Copy, Debug, PartialEq, Eq, Structural)]
pub struct FightState {}

impl State for FightState {
    open spec fn data_spec(&self) -> StateData {
        StateData::Fight
    }

    open spec fn outcome(&self, cmd: Command) -> Option<ControlFlow<StateData, StateData>> {
        match cmd {
            Command::Flee => Some(ControlFlow::Break(StateData::Fight)),
            _ => Some(ControlFlow::Continue(StateData::Fight)),
        }
    }

    open spec fn after(&self, cmd: Command) -> Self {
        *self
    }

    fn run_command(&mut self, cmd: Command) -> (r: Result<ControlFlow<StateData, StateData>, String>) {
        match cmd {
            Command::Flee => Ok(ControlFlow::Break(StateData::Fight)),
            _ => Ok(ControlFlow::Continue(StateData::Fight)),
        }
    }

    fn get_data(&self) -> (r: StateData) {
        StateData::Fight
    }
}

/// The map mode, the default one: every command meets an encounter.
#[derive(Clone, Copy, Debug, PartialEq, Eq, Structural)]
pub struct OnMapState {}

impl State for OnMapState {
    open spec fn data_spec(&self) -> StateData {
        StateData::OnMap { is_encounter: true }
    }

    open spec fn outcome(&self, cmd: Command) -> Option<ControlFlow<StateData, StateData>> {
        Some(ControlFlow::Continue(StateData::OnMap { is_encounter: true }))
    }

    open spec fn after(&self, cmd: Command) -> Self {
        *self
    }

    fn run_command(&mut self, cmd: Command) -> (r: Result<ControlFlow<StateData, StateData>, String>) {
        Ok(ControlFlow::Continue(StateData::OnMap { is_encounter: true }))
    }

    fn get_data(&self) -> (r: StateData) {
        StateData::OnMap { is_encounter: true }
    }
}

/// One entry of a connection's state stack: the closed set of states.
#[derive(Clone, Copy, Debug, PartialEq, Eq, Structural)]
pub enum ActiveState {
    OnMap(OnMapState),
    Fight(FightState),
}

impl ActiveState {
    /// The state a connection starts in.
    pub open spec fn initial() -> ActiveState {
        ActiveState::OnMap(OnMapState {})
    }

    pub fn new_initial() -> (r: ActiveState)
        ensures
            r == ActiveState::initial(),
    {
        ActiveState::OnMap(OnMapState {})
    }
}

impl State for ActiveState {
    open spec fn data_spec(&self) -> StateData {
        match self {
            ActiveState::OnMap(s) => s.data_spec(),
            ActiveState::Fight(s) => s.data_spec(),
        }
    }

    open spec fn outcome(&self, cmd: Command) -> Option<ControlFlow<StateData, StateData>> {
        match self {
            ActiveState::OnMap(s) => s.outcome(cmd),
            ActiveState::Fight(s) => s.outcome(cmd),
        }
    }

    open spec fn after(&self, cmd: Command) -> Self {
        match self {
            ActiveState::OnMap(s) => ActiveState::OnMap(s.after(cmd)),
            ActiveState::Fight(s) => ActiveState::Fight(s.after(cmd)),
        }
    }

    fn run_command(&mut self, cmd: Command) -> (r: Result<ControlFlow<StateData, StateData>, String>) {
        match self {
            ActiveState::OnMap(s) => s.run_command(cmd),
            ActiveState::Fight(s) => s.run_command(cmd),
        }
    }

    fn get_data(&self) -> (r: StateData) {
        match self {
            ActiveState::OnMap(s) => s.get_data(),
            ActiveState::Fight(s) => s.get_data(),
        }
    }
}

} // verus!
