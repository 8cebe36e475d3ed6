use std::ops::ControlFlow;
use vstd::prelude::*;

use crate::command::Command;
use crate::states::{ActiveState, FightState, State, StateData};

verus! {

/// The state that `data` asks to enter, if any: an encounter on the map
/// starts a fight; nothing else starts anything.
pub open spec fn next_state(data: StateData) -> Option<ActiveState> {
    match data {
        StateData::OnMap { is_encounter } => if is_encounter {
            Some(ActiveState::Fight(FightState {}))
        } else {
            None
        },
        StateData::Fight => None,
    }
}

/// The stack once `flow` has been applied to `stack`.
/// `Continue` keeps the top and pushes the new state, if any, on it;
/// `Break` pops the top and pushes the new state, if any, in its place.
/// A `Break` that would leave the stack empty leaves the initial state.
pub open spec fn apply_flow(stack: Seq<ActiveState>, flow: ControlFlow<StateData, StateData>) -> Seq<
    ActiveState,
> {
    match flow {
        ControlFlow::Continue(d) => match next_state(d) {
            Some(s) => stack.push(s),
            None => stack,
        },
        ControlFlow::Break(d) => match next_state(d) {
            Some(s) => stack.drop_last().push(s),
            None => if stack.len() > 1 {
                stack.drop_last()
            } else {
                seq![ActiveState::initial()]
            },
        },
    }
}

/// The data that applying `flow` reports: that of the entered state, if
/// any, else the data carried by `flow`.
pub open spec fn reported_data(flow: ControlFlow<StateData, StateData>) -> StateData {
    let d = match flow {
        ControlFlow::Continue(d) => d,
        ControlFlow::Break(d) => d,
    };
    match next_state(d) {
        Some(s) => s.data_spec(),
        None => d,
    }
}

/// The stack after the top state of `stack` ran `cmd`.
pub open spec fn dispatch_spec(stack: Seq<ActiveState>, cmd: Command) -> Seq<ActiveState>
    recommends
        stack.len() > 0,
{
    let top = stack.last();
    match top.outcome(cmd) {
        Some(flow) => apply_flow(stack.update(stack.len() - 1, top.after(cmd)), flow),
        None => stack.update(stack.len() - 1, top.after(cmd)),
    }
}

/// The state that `data` asks to enter, if any.
pub fn switch_state_if_needed(data: &StateData) -> (r: Option<ActiveState>)
    ensures
        r == next_state(*data),
{
    match data {
        StateData::OnMap { is_encounter } => {
            if *is_encounter {
                return Some(ActiveState::Fight(FightState {}));
            }
            None
        },
        StateData::Fight => None,
    }
}

/// Holds one connection's stack of active states, most recent last, and
/// routes each command to the top one.
pub struct StateDispatcher {
    states: Vec<ActiveState>,
}

impl View for StateDispatcher {
    type V = Seq<ActiveState>;

    closed spec fn view(&self) -> Seq<ActiveState> {
        self.states@
    }
}

impl StateDispatcher {
    /// The stack is never empty.
    pub open spec fn wf(&self) -> bool {
        self@.len() > 0
    }

    /// A dispatcher whose stack holds the initial state alone.
    pub fn new() -> (r: StateDispatcher)
        ensures
            r@ == seq![ActiveState::initial()],
            r.wf(),
    {
        let mut states: Vec<ActiveState> = Vec::new();
        states.push(ActiveState::new_initial());
        StateDispatcher { states }
    }

    /// The number of states on the stack.
    pub fn depth(&self) -> (r: usize)
        ensures
            r == self@.len(),
    {
        self.states.len()
    }

    /// The state at position `i`, counted from the bottom of the stack.
    pub fn state_at(&self, i: usize) -> (r: ActiveState)
        requires
            i < self@.len(),
        ensures
            r == self@[i as int],
    {
        self.states[i]
    }

    /// The currently active state.
    pub fn active(&self) -> (r: ActiveState)
        requires
            self.wf(),
        ensures
            r == self@.last(),
    {
        self.states[self.states.len() - 1]
    }

    /// Applies the result of a state's handling of a command to the stack
    /// and returns the data of the state that is then entered, or else the
    /// data carried by `data`.
    pub fn process_data(&mut self, data: ControlFlow<StateData, StateData>) -> (r: StateData)
        requires
            old(self).wf(),
        ensures
            final(self)@ == apply_flow(old(self)@, data),
            r == reported_data(data),
            final(self).wf(),
            match data {
                ControlFlow::Continue(d) => match next_state(d) {
                    None => final(self)@.len() == old(self)@.len(),
                    Some(s) => final(self)@.len() == old(self)@.len() + 1 && final(self)@.last() == s,
                },
                ControlFlow::Break(d) => next_state(d) is None && old(self)@.len() > 1
                    ==> final(self)@.len() == old(self)@.len() - 1 && final(self)@ == old(
                    self,
                )@.drop_last(),
            },
    {
        match data {
            ControlFlow::Continue(dt) => {
                if let Some(new_state) = switch_state_if_needed(&dt) {
                    let result = new_state.get_data();
                    self.states.push(new_state);
                    return result;
                }
                dt
            },
            ControlFlow::Break(dt) => {
                if let Some(new_state) = switch_state_if_needed(&dt) {
                    let result = new_state.get_data();
                    self.states.pop();
                    self.states.push(new_state);
                    return result;
                }
                self.states.pop();
                if self.states.len() == 0 {
                    self.states.push(ActiveState::new_initial());
                }
                dt
            },
        }
    }

    /// Runs `cmd` in the active state and applies what it yields; a
    /// rejected command leaves the stack as the state left it.
    pub fn dispatch_command(&mut self, cmd: Command)
        requires
            old(self).wf(),
        ensures
            final(self).wf(),
            final(self)@ == dispatch_spec(old(self)@, cmd),
            match old(self)@.last().outcome(cmd) {
                Some(ControlFlow::Continue(d)) => match next_state(d) {
                    None => final(self)@.len() == old(self)@.len(),
                    Some(s) => final(self)@.len() == old(self)@.len() + 1 && final(self)@.last()
                        == s,
                },
                Some(ControlFlow::Break(d)) => next_state(d) is None && old(self)@.len() > 1
                    ==> final(self)@.len() == old(self)@.len() - 1 && final(self)@ == old(
                    self,
                )@.drop_last(),
                None => final(self)@.len() == old(self)@.len(),
            },
            old(self)@.last() is Fight && cmd is Flee && old(self)@.len() > 1 ==> final(self)@
                == old(self)@.drop_last(),
            old(self)@.last() is OnMap ==> final(self)@.len() == old(self)@.len() + 1
                && final(self)@.last() is Fight,
    {
        let n = self.states.len();
        let mut top = self.states[n - 1];
        let res = top.run_command(cmd);
        self.states.set(n - 1, top);
        match res {
            Ok(data) => {
                self.process_data(data);
            },
            Err(_) => {},
        }
    }
}

} // verus!
