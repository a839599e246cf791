use fortress::flow::{check_keys, day_tabs, AppState, AudioState, DayTabs, GameState, KeyAction, KeyContext, Keys};
use fortress::names::NameFromEnum;
use fortress::technology::{Technologies, TechnologyName};

fn none() -> Keys {
    Keys { e: false, a: false, enter: false, ctrl: false, shift: false, n: false, l: false, s: false,
        q: false, up: false, down: false, left: false, right: false, space: false }
}

fn ctx(app_state: AppState) -> KeyContext {
    KeyContext { app_state, game_state: GameState::Running, audio: true, expedition_settled: false, idle: 0, day: 3 }
}

#[test]
fn no_keys_no_actions() {
    assert!(check_keys(&ctx(AppState::Night), &none()).is_empty());
}

#[test]
fn enter_moves_between_stages() {
    let enter = Keys { enter: true, ..none() };
    assert_eq!(check_keys(&ctx(AppState::StartGame), &enter), vec![KeyAction::SetAppState(AppState::Night)]);
    assert_eq!(check_keys(&ctx(AppState::Day), &enter), vec![KeyAction::SetAppState(AppState::Night)]);
    assert_eq!(check_keys(&ctx(AppState::GameOver), &enter), vec![KeyAction::SetAppState(AppState::StartGame)]);
    assert!(check_keys(&ctx(AppState::Night), &enter).is_empty());
}

#[test]
fn the_night_waits_for_idle_people_and_expeditions() {
    let enter = Keys { enter: true, ..none() };
    let idle = KeyContext { idle: 4, ..ctx(AppState::Day) };
    assert_eq!(check_keys(&idle, &enter), vec![KeyAction::IdleWarning]);
    let back = KeyContext { expedition_settled: true, ..idle };
    assert_eq!(check_keys(&back, &enter), vec![KeyAction::ResolveExpedition]);
}

#[test]
fn toggles_come_first() {
    let keys = Keys { e: true, a: true, enter: true, ..none() };
    let muted = KeyContext { audio: false, ..ctx(AppState::StartGame) };
    assert_eq!(
        check_keys(&muted, &keys),
        vec![KeyAction::ToggleEnemyInfo, KeyAction::SetAudio(AudioState::Playing), KeyAction::SetAppState(AppState::Night)]
    );
    assert_eq!(check_keys(&ctx(AppState::Day), &Keys { a: true, ..none() }), vec![KeyAction::SetAudio(AudioState::Stopped)]);
}

#[test]
fn control_shortcuts_pick_the_first_in_order() {
    let keys = Keys { ctrl: true, l: true, s: true, ..none() };
    assert_eq!(check_keys(&ctx(AppState::Day), &keys), vec![KeyAction::LoadGame]);
    let keys = Keys { ctrl: true, q: true, ..none() };
    assert_eq!(check_keys(&ctx(AppState::Day), &keys), vec![KeyAction::Quit]);
    let keys = Keys { ctrl: true, n: true, s: true, ..none() };
    assert_eq!(check_keys(&ctx(AppState::Day), &keys), vec![KeyAction::SetAppState(AppState::StartGame)]);
    let keys = Keys { s: true, ..none() };
    assert!(check_keys(&ctx(AppState::Day), &keys).is_empty());
}

#[test]
fn the_first_day_cannot_be_rewound() {
    let down = Keys { ctrl: true, shift: true, down: true, ..none() };
    let first = KeyContext { day: 1, ..ctx(AppState::Day) };
    assert!(check_keys(&first, &down).is_empty());
    let both = Keys { up: true, ..down };
    assert_eq!(check_keys(&first, &both), vec![KeyAction::SkipDay, KeyAction::RewindDay]);
    assert_eq!(check_keys(&ctx(AppState::Day), &down), vec![KeyAction::RewindDay]);
    let right = Keys { ctrl: true, shift: true, right: true, ..none() };
    assert_eq!(check_keys(&ctx(AppState::Night), &right), vec![KeyAction::SetAppState(AppState::Day), KeyAction::SpeedUp]);
}

#[test]
fn the_night_can_be_paused_and_sped_up() {
    let space = Keys { space: true, ..none() };
    assert_eq!(check_keys(&ctx(AppState::Night), &space), vec![KeyAction::SetGameState(GameState::Paused)]);
    let paused = KeyContext { game_state: GameState::Paused, ..ctx(AppState::Night) };
    assert_eq!(check_keys(&paused, &space), vec![KeyAction::SetGameState(GameState::Running)]);
    assert!(check_keys(&ctx(AppState::Day), &space).is_empty());
    let slower = Keys { ctrl: true, left: true, ..none() };
    assert_eq!(check_keys(&ctx(AppState::Night), &slower), vec![KeyAction::SlowDown]);
}

#[test]
fn stages_start_where_the_game_starts() {
    assert_eq!(AppState::default(), AppState::StartGame);
    assert_eq!(GameState::default(), GameState::Running);
    assert_eq!(DayTabs::Expeditions.name(), "Expeditions");
    assert_eq!(AppState::GameOver.name(), "GameOver");
}

#[test]
fn expeditions_tab_appears_with_charts() {
    let mut t = Technologies::new();
    let base = vec![DayTabs::Overview, DayTabs::Population, DayTabs::Constructions, DayTabs::Armory, DayTabs::Technology];
    assert_eq!(day_tabs(&t), base);
    t.research(TechnologyName::Electricity, true);
    assert_eq!(day_tabs(&t), base);
    t.research(TechnologyName::Charts, true);
    let mut with_charts = base.clone();
    with_charts.push(DayTabs::Expeditions);
    assert_eq!(day_tabs(&t), with_charts);
}
