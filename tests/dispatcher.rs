use std::ops::ControlFlow;

use ws_game_server::command::Command;
use ws_game_server::state_dispatcher::{switch_state_if_needed, StateDispatcher};
use ws_game_server::states::{ActiveState, FightState, OnMapState, State, StateData};

fn move_cmd() -> Command {
    Command::Move { dx: 1, dy: 0 }
}

#[test]
fn new_dispatcher_holds_the_map_state_alone() {
    let d = StateDispatcher::new();
    assert_eq!(d.depth(), 1);
    assert_eq!(d.active(), ActiveState::OnMap(OnMapState {}));
}

#[test]
fn encounter_on_the_map_enters_a_fight() {
    let mut d = StateDispatcher::new();
    d.dispatch_command(move_cmd());
    assert_eq!(d.depth(), 2);
    assert_eq!(d.state_at(0), ActiveState::OnMap(OnMapState {}));
    assert_eq!(d.state_at(1), ActiveState::Fight(FightState {}));
}

#[test]
fn fight_continues_without_changing_the_stack() {
    let mut d = StateDispatcher::new();
    d.dispatch_command(move_cmd());
    d.dispatch_command(move_cmd());
    d.dispatch_command(Command::Move { dx: -3, dy: 7 });
    assert_eq!(d.depth(), 2);
    assert_eq!(d.active(), ActiveState::Fight(FightState {}));
}

#[test]
fn continue_without_transition_keeps_the_depth() {
    let mut d = StateDispatcher::new();
    let r = d.process_data(ControlFlow::Continue(StateData::OnMap { is_encounter: false }));
    assert_eq!(r, StateData::OnMap { is_encounter: false });
    assert_eq!(d.depth(), 1);
    let r = d.process_data(ControlFlow::Continue(StateData::Fight));
    assert_eq!(r, StateData::Fight);
    assert_eq!(d.depth(), 1);
}

#[test]
fn continue_with_encounter_pushes_a_fight() {
    let mut d = StateDispatcher::new();
    let r = d.process_data(ControlFlow::Continue(StateData::OnMap { is_encounter: true }));
    assert_eq!(r, StateData::Fight);
    assert_eq!(d.depth(), 2);
    assert_eq!(d.state_at(0), ActiveState::OnMap(OnMapState {}));
    assert_eq!(d.active(), ActiveState::Fight(FightState {}));
}

#[test]
fn break_without_transition_pops_one_state() {
    let mut d = StateDispatcher::new();
    d.dispatch_command(move_cmd());
    assert_eq!(d.depth(), 2);
    let r = d.process_data(ControlFlow::Break(StateData::Fight));
    assert_eq!(r, StateData::Fight);
    assert_eq!(d.depth(), 1);
    assert_eq!(d.active(), ActiveState::OnMap(OnMapState {}));
}

#[test]
fn break_of_the_last_state_leaves_the_initial_state() {
    let mut d = StateDispatcher::new();
    d.process_data(ControlFlow::Break(StateData::OnMap { is_encounter: false }));
    assert_eq!(d.depth(), 1);
    assert_eq!(d.active(), ActiveState::OnMap(OnMapState {}));
}

#[test]
fn break_with_transition_replaces_the_top() {
    let mut d = StateDispatcher::new();
    d.dispatch_command(move_cmd());
    let r = d.process_data(ControlFlow::Break(StateData::OnMap { is_encounter: true }));
    assert_eq!(r, StateData::Fight);
    assert_eq!(d.depth(), 2);
    assert_eq!(d.state_at(0), ActiveState::OnMap(OnMapState {}));
    assert_eq!(d.state_at(1), ActiveState::Fight(FightState {}));
}

#[test]
fn transition_rule_enters_a_fight_on_encounter_only() {
    assert_eq!(
        switch_state_if_needed(&StateData::OnMap { is_encounter: true }),
        Some(ActiveState::Fight(FightState {}))
    );
    assert_eq!(switch_state_if_needed(&StateData::OnMap { is_encounter: false }), None);
    assert_eq!(switch_state_if_needed(&StateData::Fight), None);
}

#[test]
fn states_report_their_data() {
    let mut map = OnMapState {};
    assert_eq!(map.get_data(), StateData::OnMap { is_encounter: true });
    assert_eq!(
        map.run_command(move_cmd()),
        Ok(ControlFlow::Continue(StateData::OnMap { is_encounter: true }))
    );
    let mut fight = FightState {};
    assert_eq!(fight.get_data(), StateData::Fight);
    assert_eq!(fight.run_command(move_cmd()), Ok(ControlFlow::Continue(StateData::Fight)));
    let mut active = ActiveState::Fight(FightState {});
    assert_eq!(active.get_data(), StateData::Fight);
    assert_eq!(active.run_command(move_cmd()), Ok(ControlFlow::Continue(StateData::Fight)));
}

#[test]
fn fleeing_a_fight_returns_to_the_map() {
    let mut d = StateDispatcher::new();
    d.dispatch_command(move_cmd());
    assert_eq!(d.depth(), 2);
    d.dispatch_command(Command::Flee);
    assert_eq!(d.depth(), 1);
    assert_eq!(d.active(), ActiveState::OnMap(OnMapState {}));
    d.dispatch_command(move_cmd());
    assert_eq!(d.depth(), 2);
    assert_eq!(d.active(), ActiveState::Fight(FightState {}));
}

#[test]
fn fleeing_on_the_map_still_meets_an_encounter() {
    let mut d = StateDispatcher::new();
    d.dispatch_command(Command::Flee);
    assert_eq!(d.depth(), 2);
    assert_eq!(d.active(), ActiveState::Fight(FightState {}));
    let mut map = OnMapState {};
    assert_eq!(
        map.run_command(Command::Flee),
        Ok(ControlFlow::Continue(StateData::OnMap { is_encounter: true }))
    );
    let mut fight = FightState {};
    assert_eq!(fight.run_command(Command::Flee), Ok(ControlFlow::Break(StateData::Fight)));
}
