use scene_boot::scene::Scene;
use scene_boot::state::{Completion, GameState, Trans};

#[test]
fn fresh_state_awaits_nothing() {
    let state = GameState::default();
    assert_eq!(state.entity, None);
    assert!(!state.initialised);
    assert!(!state.progress_active);
    let scene = Scene::default();
    assert_eq!(scene.handle, None);
    assert_eq!(scene.animation_index, 0);
}

#[test]
fn on_start_attaches_progress_and_records_handle() {
    let mut state = GameState::default();
    let mut scene = Scene::default();
    state.on_start(&mut scene, 7);
    assert!(state.progress_active);
    assert!(!state.initialised);
    assert_eq!(state.entity, None);
    assert_eq!(scene.handle, Some(7));
    assert_eq!(scene.animation_index, 0);
}

#[test]
fn loading_frame_changes_nothing() {
    let mut state = GameState::default();
    let mut scene = Scene::default();
    state.on_start(&mut scene, 7);
    let out = state.update(&scene, Some(Completion::Loading), None);
    assert_eq!(out.trans, Trans::Stay);
    assert_eq!(out.spawn, None);
    assert!(state.progress_active);
    assert!(!state.initialised);
    assert_eq!(state.entity, None);
}

#[test]
fn completed_load_spawns_recorded_prefab() {
    let mut state = GameState::default();
    let mut scene = Scene::default();
    state.on_start(&mut scene, 7);
    let out = state.update(&scene, Some(Completion::Complete), None);
    assert_eq!(out.trans, Trans::Stay);
    assert_eq!(out.spawn, Some(7));
    assert!(!state.progress_active);
    assert!(!state.initialised);
    assert_eq!(state.entity, None);
}

#[test]
fn failed_load_quits_and_leaves_state() {
    let mut state = GameState::default();
    let mut scene = Scene::default();
    state.on_start(&mut scene, 7);
    let out = state.update(&scene, Some(Completion::Failed), None);
    assert_eq!(out.trans, Trans::Quit);
    assert_eq!(out.spawn, None);
    assert!(state.progress_active);
    assert!(!state.initialised);
    assert_eq!(state.entity, None);
}

#[test]
fn marker_found_finishes_bootstrap() {
    let mut state = GameState::default();
    let mut scene = Scene::default();
    state.on_start(&mut scene, 7);
    state.update(&scene, Some(Completion::Complete), None);
    let out = state.update(&scene, None, Some(3));
    assert_eq!(out.trans, Trans::Stay);
    assert_eq!(out.spawn, None);
    assert_eq!(state.entity, Some(3));
    assert!(state.initialised);
    assert!(!state.progress_active);
}

#[test]
fn complete_and_marker_in_one_frame() {
    let mut state = GameState::default();
    let mut scene = Scene::default();
    state.on_start(&mut scene, 11);
    let out = state.update(&scene, Some(Completion::Complete), Some(4));
    assert_eq!(out.trans, Trans::Stay);
    assert_eq!(out.spawn, Some(11));
    assert!(!state.progress_active);
    assert_eq!(state.entity, Some(4));
    assert!(state.initialised);
}

#[test]
fn idle_frame_without_progress() {
    let mut state = GameState::default();
    let scene = Scene::default();
    let out = state.update(&scene, None, None);
    assert_eq!(out.trans, Trans::Stay);
    assert_eq!(out.spawn, None);
    assert_eq!(state.entity, None);
    assert!(!state.initialised);
    assert!(!state.progress_active);
}

#[test]
fn running_state_ignores_frames() {
    let mut state = GameState {
        entity: Some(4),
        initialised: true,
        progress_active: false,
    };
    let scene = Scene {
        handle: Some(11),
        animation_index: 0,
    };
    let out = state.update(&scene, None, Some(9));
    assert_eq!(out.trans, Trans::Stay);
    assert_eq!(out.spawn, None);
    assert_eq!(state.entity, Some(4));
    assert!(state.initialised);
    assert!(!state.progress_active);
}

#[test]
fn full_session_reaches_running() {
    let mut state = GameState::default();
    let mut scene = Scene::default();
    state.on_start(&mut scene, 9);

    let first = state.update(&scene, Some(Completion::Loading), None);
    assert_eq!(first.trans, Trans::Stay);
    assert_eq!(first.spawn, None);

    let second = state.update(&scene, Some(Completion::Complete), None);
    assert_eq!(second.trans, Trans::Stay);
    assert_eq!(second.spawn, Some(9));
    assert!(!state.progress_active);

    let third = state.update(&scene, None, None);
    assert_eq!(third.trans, Trans::Stay);
    assert_eq!(third.spawn, None);
    assert!(!state.initialised);

    let fourth = state.update(&scene, None, Some(1));
    assert_eq!(fourth.trans, Trans::Stay);
    assert_eq!(state.entity, Some(1));
    assert!(state.initialised);

    let fifth = state.update(&scene, None, Some(2));
    assert_eq!(fifth.trans, Trans::Stay);
    assert_eq!(fifth.spawn, None);
    assert_eq!(state.entity, Some(1));
}
