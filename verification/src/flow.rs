use crate::technology::{TechnologyName, Technologies};
use vstd::prelude::*;

verus! {

/// The stage of the game.
#[derive(Clone, Copy, Debug, PartialEq, Eq, Structural)]
pub enum AppState {
    Day,
    EndNight,
    Night,
    GameOver,
    StartGame,
}

/// Whether the night is running or paused.
#[derive(Clone, Copy, Debug, PartialEq, Eq, Structural)]
pub enum GameState {
    Running,
    Paused,
}

/// Whether the audio plays.
#[derive(Clone, Copy, Debug, PartialEq, Eq, Structural)]
pub enum AudioState {
    Playing,
    Stopped,
}

/// The tabs of the day menu.
#[derive(Clone, Copy, Debug, PartialEq, Eq, Structural)]
pub enum DayTabs {
    Overview,
    Population,
    Constructions,
    Armory,
    Technology,
    Expeditions,
}

/// The tabs that the day menu shows, in order: expeditions can only be sent,
/// and their tab only appears, once the charts are researched.
pub open spec fn spec_day_tabs(charts: bool) -> Seq<DayTabs> {
    let always = seq![
        DayTabs::Overview,
        DayTabs::Population,
        DayTabs::Constructions,
        DayTabs::Armory,
        DayTabs::Technology,
    ];
    if charts {
        always.push(DayTabs::Expeditions)
    } else {
        always
    }
}

/// The tabs of the day menu for the technologies researched so far.
pub fn day_tabs(technologies: &Technologies) -> (v: Vec<DayTabs>)
    ensures
        v@ == spec_day_tabs(technologies.view().contains(TechnologyName::Charts)),
{
    let mut v: Vec<DayTabs> = Vec::new();
    v.push(DayTabs::Overview);
    v.push(DayTabs::Population);
    v.push(DayTabs::Constructions);
    v.push(DayTabs::Armory);
    v.push(DayTabs::Technology);
    let charts = technologies.has_tech(TechnologyName::Charts);
    if charts {
        v.push(DayTabs::Expeditions);
    }
    assert(v@ =~= spec_day_tabs(charts));
    v
}

/// Law: the expeditions tab is offered exactly when the charts are researched.
pub proof fn law_expeditions_need_charts(charts: bool)
    ensures
        spec_day_tabs(charts).contains(DayTabs::Expeditions) <==> charts,
{
    let always = seq![
        DayTabs::Overview,
        DayTabs::Population,
        DayTabs::Constructions,
        DayTabs::Armory,
        DayTabs::Technology,
    ];
    if charts {
        assert(spec_day_tabs(charts)[5] == DayTabs::Expeditions);
    } else {
        assert(!always.contains(DayTabs::Expeditions)) by {
            if always.contains(DayTabs::Expeditions) {
                let i = choose|i: int| 0 <= i < always.len() && always[i] == DayTabs::Expeditions;
                assert(0 <= i < 5);
            }
        }
    }
}

impl Default for AppState {
    /// The game starts at the start screen.
    fn default() -> (s: AppState)
        ensures
            s == AppState::StartGame,
    {
        AppState::StartGame
    }
}

impl Default for GameState {
    /// The game starts running.
    fn default() -> (s: GameState)
        ensures
            s == GameState::Running,
    {
        GameState::Running
    }
}

/// The keyboard in one frame. `ctrl` and `shift` tell whether either key of
/// that kind is held down; every other field tells whether that key was
/// pressed in this frame.
#[derive(Clone, Copy, Debug, PartialEq, Eq, Structural)]
pub struct Keys {
    pub e: bool,
    pub a: bool,
    pub enter: bool,
    pub ctrl: bool,
    pub shift: bool,
    pub n: bool,
    pub l: bool,
    pub s: bool,
    pub q: bool,
    pub up: bool,
    pub down: bool,
    pub left: bool,
    pub right: bool,
    pub space: bool,
}

/// What the key handling needs to know of the game.
#[derive(Clone, Copy, Debug, PartialEq, Eq, Structural)]
pub struct KeyContext {
    pub app_state: AppState,
    pub game_state: GameState,
    /// Whether the audio is on.
    pub audio: bool,
    /// Whether an expedition is out and its outcome (returned or lost) is known.
    pub expedition_settled: bool,
    /// The idle population.
    pub idle: u32,
    /// The current day.
    pub day: u32,
}

/// What the keys ask the game to do, in the order in which it must be done.
#[derive(Clone, Copy, Debug, PartialEq, Eq, Structural)]
pub enum KeyAction {
    /// Show or hide the enemy info panel.
    ToggleEnemyInfo,
    /// Move the audio to this state.
    SetAudio(AudioState),
    /// Move the game to this stage (the last one set in a frame wins).
    SetAppState(AppState),
    /// Settle the expedition whose outcome is known.
    ResolveExpedition,
    /// Tell the player that nobody may stay idle.
    IdleWarning,
    /// Load a saved game.
    LoadGame,
    /// Save the game.
    SaveGame,
    /// Leave the game.
    Quit,
    /// Jump to the next day and receive extra resources.
    SkipDay,
    /// Go back one day.
    RewindDay,
    /// Pause or resume the night.
    SetGameState(GameState),
    /// Lower the game speed by one step, if it is at least one step.
    SlowDown,
    /// Raise the game speed by one step, if it is at most the maximum.
    SpeedUp,
}

pub open spec fn when(c: bool, a: KeyAction) -> Seq<KeyAction> {
    if c {
        seq![a]
    } else {
        Seq::empty()
    }
}

/// What Enter does in each stage.
pub open spec fn enter_actions(c: KeyContext) -> Seq<KeyAction> {
    match c.app_state {
        AppState::StartGame => seq![KeyAction::SetAppState(AppState::Night)],
        AppState::Day => if c.expedition_settled {
            seq![KeyAction::ResolveExpedition]
        } else if c.idle > 0 {
            seq![KeyAction::IdleWarning]
        } else {
            seq![KeyAction::SetAppState(AppState::Night)]
        },
        AppState::GameOver => seq![KeyAction::SetAppState(AppState::StartGame)],
        _ => Seq::empty(),
    }
}

/// What the control shortcuts do: new game, load, save or quit (only the
/// first of these in that order), and with shift held the day shortcuts.
pub open spec fn ctrl_actions(c: KeyContext, k: Keys) -> Seq<KeyAction> {
    if !k.ctrl {
        Seq::empty()
    } else {
        let menu = if k.n {
            seq![KeyAction::SetAppState(AppState::StartGame)]
        } else if k.l {
            seq![KeyAction::LoadGame]
        } else if k.s {
            seq![KeyAction::SaveGame]
        } else if k.q {
            seq![KeyAction::Quit]
        } else {
            Seq::empty()
        };
        let day_after_skip = if k.shift && k.up {
            c.day + 1
        } else {
            c.day as int
        };
        let days = if k.shift {
            when(k.up, KeyAction::SkipDay) + when(k.down && day_after_skip > 1, KeyAction::RewindDay)
                + when(k.right, KeyAction::SetAppState(AppState::Day))
        } else {
            Seq::empty()
        };
        menu + days
    }
}

/// What the keys do during the night: pause or resume, and change the speed.
pub open spec fn night_actions(c: KeyContext, k: Keys) -> Seq<KeyAction> {
    if c.app_state != AppState::Night {
        Seq::empty()
    } else {
        when(
            k.space,
            KeyAction::SetGameState(
                if c.game_state == GameState::Running {
                    GameState::Paused
                } else {
                    GameState::Running
                },
            ),
        ) + when(k.ctrl && k.left, KeyAction::SlowDown) + when(k.ctrl && k.right, KeyAction::SpeedUp)
    }
}

/// Everything the keys of a frame ask for, in order.
pub open spec fn key_actions(c: KeyContext, k: Keys) -> Seq<KeyAction> {
    when(k.e, KeyAction::ToggleEnemyInfo) + when(
        k.a,
        KeyAction::SetAudio(
            if c.audio {
                AudioState::Stopped
            } else {
                AudioState::Playing
            },
        ),
    ) + (if k.enter {
        enter_actions(c)
    } else {
        Seq::empty()
    }) + ctrl_actions(c, k) + night_actions(c, k)
}

fn push_when(v: &mut Vec<KeyAction>, c: bool, a: KeyAction)
    ensures
        final(v)@ == old(v)@ + when(c, a),
{
    if c {
        v.push(a);
    } else {
        assert(v@ + when(c, a) =~= v@);
    }
}

fn enter_part(c: &KeyContext) -> (v: Vec<KeyAction>)
    ensures
        v@ == enter_actions(*c),
{
    let mut v: Vec<KeyAction> = Vec::new();
    match c.app_state {
        AppState::StartGame => v.push(KeyAction::SetAppState(AppState::Night)),
        AppState::Day => {
            if c.expedition_settled {
                v.push(KeyAction::ResolveExpedition);
            } else if c.idle > 0 {
                v.push(KeyAction::IdleWarning);
            } else {
                v.push(KeyAction::SetAppState(AppState::Night));
            }
        },
        AppState::GameOver => v.push(KeyAction::SetAppState(AppState::StartGame)),
        _ => {},
    }
    assert(v@ =~= enter_actions(*c));
    v
}

fn ctrl_part(c: &KeyContext, k: &Keys) -> (v: Vec<KeyAction>)
    requires
        k.ctrl,
    ensures
        v@ == ctrl_actions(*c, *k),
{
    let mut v: Vec<KeyAction> = Vec::new();
    if k.n {
        v.push(KeyAction::SetAppState(AppState::StartGame));
    } else if k.l {
        v.push(KeyAction::LoadGame);
    } else if k.s {
        v.push(KeyAction::SaveGame);
    } else if k.q {
        v.push(KeyAction::Quit);
    }
    let ghost v3 = v@;
    if k.shift {
        push_when(&mut v, k.up, KeyAction::SkipDay);
        let rewind = k.down && (c.day > 1 || (k.up && c.day >= 1));
        push_when(&mut v, rewind, KeyAction::RewindDay);
        push_when(&mut v, k.right, KeyAction::SetAppState(AppState::Day));
        assert(v@ =~= v3 + (when(k.up, KeyAction::SkipDay) + when(rewind, KeyAction::RewindDay)
            + when(k.right, KeyAction::SetAppState(AppState::Day))));
    } else {
        assert(v@ =~= v3 + Seq::<KeyAction>::empty());
    }
    v
}

fn night_part(c: &KeyContext, k: &Keys) -> (v: Vec<KeyAction>)
    requires
        c.app_state == AppState::Night,
    ensures
        v@ == night_actions(*c, *k),
{
    let mut v: Vec<KeyAction> = Vec::new();
    let next = if c.game_state == GameState::Running {
        GameState::Paused
    } else {
        GameState::Running
    };
    push_when(&mut v, k.space, KeyAction::SetGameState(next));
    push_when(&mut v, k.ctrl && k.left, KeyAction::SlowDown);
    push_when(&mut v, k.ctrl && k.right, KeyAction::SpeedUp);
    assert(v@ =~= night_actions(*c, *k));
    v
}

/// Decides what the keys pressed in a frame do, given the state of the game.
///
/// E toggles the enemy info and A the audio. Enter starts the first night,
/// continues from the day to the night (settling a finished expedition first,
/// and refusing while people are idle), or starts a new game after a game
/// over. Ctrl with N, L, S or Q starts a new game, loads, saves or quits; with
/// shift added, up skips a day, down goes back one (never before the first
/// day) and right jumps to the day. During the night space pauses or resumes
/// and ctrl with left or right changes the speed.
pub fn check_keys(c: &KeyContext, k: &Keys) -> (v: Vec<KeyAction>)
    ensures
        v@ == key_actions(*c, *k),
        k.ctrl && k.n ==> v@.contains(KeyAction::SetAppState(AppState::StartGame)),
        k.ctrl && k.l && !k.n ==> v@.contains(KeyAction::LoadGame),
        k.ctrl && k.s && !k.n && !k.l ==> v@.contains(KeyAction::SaveGame),
        k.ctrl && k.q && !k.n && !k.l && !k.s ==> v@.contains(KeyAction::Quit),
        v@.contains(KeyAction::LoadGame) ==> k.ctrl && k.l,
        v@.contains(KeyAction::SaveGame) ==> k.ctrl && k.s,
        v@.contains(KeyAction::Quit) ==> k.ctrl && k.q,
{
    let mut v: Vec<KeyAction> = Vec::new();
    push_when(&mut v, k.e, KeyAction::ToggleEnemyInfo);
    let audio = if c.audio {
        AudioState::Stopped
    } else {
        AudioState::Playing
    };
    push_when(&mut v, k.a, KeyAction::SetAudio(audio));
    let ghost head = v@;
    let mut enter: Vec<KeyAction> = if k.enter {
        enter_part(c)
    } else {
        Vec::new()
    };
    let ghost e = enter@;
    v.append(&mut enter);
    let mut ctrl: Vec<KeyAction> = if k.ctrl {
        ctrl_part(c, k)
    } else {
        Vec::new()
    };
    let ghost cs = ctrl@;
    v.append(&mut ctrl);
    let mut night: Vec<KeyAction> = if c.app_state == AppState::Night {
        night_part(c, k)
    } else {
        Vec::new()
    };
    let ghost ns = night@;
    v.append(&mut night);
    proof {
        assert(e =~= (if k.enter {
            enter_actions(*c)
        } else {
            Seq::empty()
        }));
        assert(cs =~= ctrl_actions(*c, *k));
        assert(ns =~= night_actions(*c, *k));
        assert(v@ =~= head + e + cs + ns);
        law_ctrl_shortcuts(*c, *k);
        law_file_actions_need_their_key(*c, *k);
    }
    v
}

/// The day after applying the day shortcuts among `actions` in order.
pub open spec fn day_after(day: int, actions: Seq<KeyAction>) -> int
    decreases actions.len(),
{
    if actions.len() == 0 {
        day
    } else {
        let d = day_after(day, actions.drop_last());
        match actions.last() {
            KeyAction::SkipDay => d + 1,
            KeyAction::RewindDay => d - 1,
            _ => d,
        }
    }
}

proof fn lemma_day_after_append(day: int, a: Seq<KeyAction>, b: Seq<KeyAction>)
    ensures
        day_after(day, a + b) == day_after(day_after(day, a), b),
    decreases b.len(),
{
    if b.len() == 0 {
        assert(a + b =~= a);
    } else {
        lemma_day_after_append(day, a, b.drop_last());
        assert((a + b).drop_last() =~= a + b.drop_last());
    }
}

proof fn lemma_day_after_when(day: int, c: bool, a: KeyAction)
    ensures
        day_after(day, when(c, a)) == if c && a == KeyAction::SkipDay {
            day + 1
        } else if c && a == KeyAction::RewindDay {
            day - 1
        } else {
            day
        },
{
    reveal_with_fuel(day_after, 2);
    if c {
        assert(when(c, a).drop_last() =~= Seq::<KeyAction>::empty());
    }
}

proof fn lemma_enter_plain(day: int, c: KeyContext)
    ensures
        day_after(day, enter_actions(c)) == day,
{
    let e = enter_actions(c);
    reveal_with_fuel(day_after, 2);
    if e.len() > 0 {
        assert(e.drop_last() =~= Seq::<KeyAction>::empty());
    }
}

proof fn lemma_night_plain(day: int, c: KeyContext, k: Keys)
    ensures
        day_after(day, night_actions(c, k)) == day,
{
    if c.app_state == AppState::Night {
        let a = when(
            k.space,
            KeyAction::SetGameState(
                if c.game_state == GameState::Running {
                    GameState::Paused
                } else {
                    GameState::Running
                },
            ),
        );
        let b = when(k.ctrl && k.left, KeyAction::SlowDown);
        let d = when(k.ctrl && k.right, KeyAction::SpeedUp);
        lemma_day_after_append(day, a, b);
        lemma_day_after_append(day, a + b, d);
        lemma_day_after_when(day, k.space, a.last());
        lemma_day_after_when(day, k.space, KeyAction::SetGameState(
            if c.game_state == GameState::Running {
                GameState::Paused
            } else {
                GameState::Running
            },
        ));
        lemma_day_after_when(day, k.ctrl && k.left, KeyAction::SlowDown);
        lemma_day_after_when(day, k.ctrl && k.right, KeyAction::SpeedUp);
    }
}

proof fn lemma_menu_plain(day: int, k: Keys)
    ensures
        day_after(
            day,
            if k.n {
                seq![KeyAction::SetAppState(AppState::StartGame)]
            } else if k.l {
                seq![KeyAction::LoadGame]
            } else if k.s {
                seq![KeyAction::SaveGame]
            } else if k.q {
                seq![KeyAction::Quit]
            } else {
                Seq::empty()
            },
        ) == day,
{
    let m = if k.n {
        seq![KeyAction::SetAppState(AppState::StartGame)]
    } else if k.l {
        seq![KeyAction::LoadGame]
    } else if k.s {
        seq![KeyAction::SaveGame]
    } else if k.q {
        seq![KeyAction::Quit]
    } else {
        Seq::empty()
    };
    reveal_with_fuel(day_after, 2);
    if m.len() > 0 {
        assert(m.drop_last() =~= Seq::<KeyAction>::empty());
    }
}

proof fn lemma_ctrl_days(c: KeyContext, k: Keys)
    requires
        c.day >= 1,
    ensures
        day_after(c.day as int, ctrl_actions(c, k)) >= 1,
{
    let day = c.day as int;
    if k.ctrl {
        let menu = if k.n {
            seq![KeyAction::SetAppState(AppState::StartGame)]
        } else if k.l {
            seq![KeyAction::LoadGame]
        } else if k.s {
            seq![KeyAction::SaveGame]
        } else if k.q {
            seq![KeyAction::Quit]
        } else {
            Seq::empty()
        };
        lemma_menu_plain(day, k);
        if k.shift {
            let d1 = if k.up {
                c.day + 1
            } else {
                c.day as int
            };
            let s1 = when(k.up, KeyAction::SkipDay);
            let s2 = when(k.down && d1 > 1, KeyAction::RewindDay);
            let s3 = when(k.right, KeyAction::SetAppState(AppState::Day));
            assert(ctrl_actions(c, k) == menu + (s1 + s2 + s3));
            lemma_day_after_append(day, menu, s1 + s2 + s3);
            lemma_day_after_append(day, s1, s2);
            lemma_day_after_append(day, s1 + s2, s3);
            lemma_day_after_when(day, k.up, KeyAction::SkipDay);
            lemma_day_after_when(d1, k.down && d1 > 1, KeyAction::RewindDay);
            lemma_day_after_when(day_after(day, s1 + s2), k.right, KeyAction::SetAppState(AppState::Day));
        } else {
            assert(ctrl_actions(c, k) =~= menu);
        }
    }
}

/// Law: the day shortcuts never take the game before the first day.
pub proof fn law_days_stay_positive(c: KeyContext, k: Keys)
    requires
        c.day >= 1,
    ensures
        day_after(c.day as int, key_actions(c, k)) >= 1,
{
    let day = c.day as int;
    let p1 = when(k.e, KeyAction::ToggleEnemyInfo);
    let p2 = when(
        k.a,
        KeyAction::SetAudio(
            if c.audio {
                AudioState::Stopped
            } else {
                AudioState::Playing
            },
        ),
    );
    let p3 = if k.enter {
        enter_actions(c)
    } else {
        Seq::empty()
    };
    let ctrl = ctrl_actions(c, k);
    let night = night_actions(c, k);
    assert(key_actions(c, k) == p1 + p2 + p3 + ctrl + night);
    lemma_day_after_when(day, k.e, KeyAction::ToggleEnemyInfo);
    lemma_day_after_when(day, k.a, KeyAction::SetAudio(
        if c.audio {
            AudioState::Stopped
        } else {
            AudioState::Playing
        },
    ));
    lemma_enter_plain(day, c);
    lemma_day_after_append(day, p1, p2);
    lemma_day_after_append(day, p1 + p2, p3);
    lemma_day_after_append(day, p1 + p2 + p3, ctrl);
    lemma_ctrl_days(c, k);
    lemma_day_after_append(day, p1 + p2 + p3 + ctrl, night);
    lemma_night_plain(day_after(day, p1 + p2 + p3 + ctrl), c, k);
}

proof fn lemma_concat_lacks(a: Seq<KeyAction>, b: Seq<KeyAction>, x: KeyAction)
    requires
        !a.contains(x),
        !b.contains(x),
    ensures
        !(a + b).contains(x),
{
    if (a + b).contains(x) {
        let i = choose|i: int| 0 <= i < (a + b).len() && (a + b)[i] == x;
        if i < a.len() {
            assert(a[i] == x);
        } else {
            assert(b[i - a.len()] == x);
        }
    }
}

proof fn lemma_when_lacks(c: bool, a: KeyAction, x: KeyAction)
    requires
        a != x,
    ensures
        !when(c, a).contains(x),
{
    if when(c, a).contains(x) {
        let i = choose|i: int| 0 <= i < when(c, a).len() && when(c, a)[i] == x;
        assert(when(c, a)[0] == a);
    }
}

proof fn lemma_ctrl_never_night(c: KeyContext, k: Keys)
    ensures
        !ctrl_actions(c, k).contains(KeyAction::SetAppState(AppState::Night)),
{
    let x = KeyAction::SetAppState(AppState::Night);
    if k.ctrl {
        let menu = if k.n {
            seq![KeyAction::SetAppState(AppState::StartGame)]
        } else if k.l {
            seq![KeyAction::LoadGame]
        } else if k.s {
            seq![KeyAction::SaveGame]
        } else if k.q {
            seq![KeyAction::Quit]
        } else {
            Seq::empty()
        };
        if menu.contains(x) {
            let i = choose|i: int| 0 <= i < menu.len() && menu[i] == x;
            assert(false);
        }
        if k.shift {
            let d1 = if k.up {
                c.day + 1
            } else {
                c.day as int
            };
            let s1 = when(k.up, KeyAction::SkipDay);
            let s2 = when(k.down && d1 > 1, KeyAction::RewindDay);
            let s3 = when(k.right, KeyAction::SetAppState(AppState::Day));
            lemma_when_lacks(k.up, KeyAction::SkipDay, x);
            lemma_when_lacks(k.down && d1 > 1, KeyAction::RewindDay, x);
            lemma_when_lacks(k.right, KeyAction::SetAppState(AppState::Day), x);
            lemma_concat_lacks(menu, s1, x);
            lemma_concat_lacks(menu + s1, s2, x);
            lemma_concat_lacks(menu + s1 + s2, s3, x);
            assert(ctrl_actions(c, k) == menu + s1 + s2 + s3);
        } else {
            assert(ctrl_actions(c, k) =~= menu);
        }
    }
}

/// Law: while people are idle, the keys never start the night from the day.
pub proof fn law_no_night_while_idle(c: KeyContext, k: Keys)
    requires
        c.app_state == AppState::Day,
        c.idle > 0,
    ensures
        !key_actions(c, k).contains(KeyAction::SetAppState(AppState::Night)),
{
    let x = KeyAction::SetAppState(AppState::Night);
    let p1 = when(k.e, KeyAction::ToggleEnemyInfo);
    let audio = KeyAction::SetAudio(
        if c.audio {
            AudioState::Stopped
        } else {
            AudioState::Playing
        },
    );
    let p2 = when(k.a, audio);
    let p3 = if k.enter {
        enter_actions(c)
    } else {
        Seq::empty()
    };
    lemma_when_lacks(k.e, KeyAction::ToggleEnemyInfo, x);
    lemma_when_lacks(k.a, audio, x);
    if p3.contains(x) {
        let i = choose|i: int| 0 <= i < p3.len() && p3[i] == x;
        assert(false);
    }
    lemma_ctrl_never_night(c, k);
    assert(night_actions(c, k) =~= Seq::<KeyAction>::empty());
    lemma_concat_lacks(p1, p2, x);
    lemma_concat_lacks(p1 + p2, p3, x);
    lemma_concat_lacks(p1 + p2 + p3, ctrl_actions(c, k), x);
    lemma_concat_lacks(p1 + p2 + p3 + ctrl_actions(c, k), night_actions(c, k), x);
    assert(key_actions(c, k) == p1 + p2 + p3 + ctrl_actions(c, k) + night_actions(c, k));
}

/// The shortcut of the control menu that the keys pick (new game, load, save
/// or quit, the first pressed in that order).
spec fn menu_of(k: Keys) -> Seq<KeyAction> {
    if k.n {
        seq![KeyAction::SetAppState(AppState::StartGame)]
    } else if k.l {
        seq![KeyAction::LoadGame]
    } else if k.s {
        seq![KeyAction::SaveGame]
    } else if k.q {
        seq![KeyAction::Quit]
    } else {
        Seq::empty()
    }
}

/// The day shortcuts of the control keys.
spec fn days_of(c: KeyContext, k: Keys) -> Seq<KeyAction> {
    let d1 = if k.up {
        c.day + 1
    } else {
        c.day as int
    };
    when(k.up, KeyAction::SkipDay) + when(k.down && d1 > 1, KeyAction::RewindDay) + when(
        k.right,
        KeyAction::SetAppState(AppState::Day),
    )
}

/// The actions before the control shortcuts.
spec fn head_of(c: KeyContext, k: Keys) -> Seq<KeyAction> {
    when(k.e, KeyAction::ToggleEnemyInfo) + when(
        k.a,
        KeyAction::SetAudio(
            if c.audio {
                AudioState::Stopped
            } else {
                AudioState::Playing
            },
        ),
    ) + (if k.enter {
        enter_actions(c)
    } else {
        Seq::empty()
    })
}

proof fn lemma_key_parts(c: KeyContext, k: Keys)
    ensures
        k.ctrl && k.shift ==> key_actions(c, k) == head_of(c, k) + (menu_of(k) + days_of(c, k))
            + night_actions(c, k),
        k.ctrl && !k.shift ==> key_actions(c, k) == head_of(c, k) + menu_of(k) + night_actions(
            c,
            k,
        ),
        !k.ctrl ==> key_actions(c, k) == head_of(c, k) + night_actions(c, k),
{
    if k.ctrl && !k.shift {
        assert(ctrl_actions(c, k) =~= menu_of(k));
    }
    if !k.ctrl {
        assert(head_of(c, k) + Seq::<KeyAction>::empty() =~= head_of(c, k));
    }
}

/// The actions that no key of the frame but the control menu asks for.
spec fn file_action(x: KeyAction) -> bool {
    x == KeyAction::LoadGame || x == KeyAction::SaveGame || x == KeyAction::Quit
}

proof fn lemma_head_lacks(c: KeyContext, k: Keys, x: KeyAction)
    requires
        file_action(x),
    ensures
        !head_of(c, k).contains(x),
{
    let audio = KeyAction::SetAudio(
        if c.audio {
            AudioState::Stopped
        } else {
            AudioState::Playing
        },
    );
    let p1 = when(k.e, KeyAction::ToggleEnemyInfo);
    let p2 = when(k.a, audio);
    let p3 = if k.enter {
        enter_actions(c)
    } else {
        Seq::empty()
    };
    lemma_when_lacks(k.e, KeyAction::ToggleEnemyInfo, x);
    lemma_when_lacks(k.a, audio, x);
    if p3.contains(x) {
        let i = choose|i: int| 0 <= i < p3.len() && p3[i] == x;
        assert(false);
    }
    lemma_concat_lacks(p1, p2, x);
    lemma_concat_lacks(p1 + p2, p3, x);
}

proof fn lemma_night_lacks(c: KeyContext, k: Keys, x: KeyAction)
    requires
        file_action(x),
    ensures
        !night_actions(c, k).contains(x),
{
    if c.app_state == AppState::Night {
        let next = KeyAction::SetGameState(
            if c.game_state == GameState::Running {
                GameState::Paused
            } else {
                GameState::Running
            },
        );
        let a = when(k.space, next);
        let b = when(k.ctrl && k.left, KeyAction::SlowDown);
        let d = when(k.ctrl && k.right, KeyAction::SpeedUp);
        lemma_when_lacks(k.space, next, x);
        lemma_when_lacks(k.ctrl && k.left, KeyAction::SlowDown, x);
        lemma_when_lacks(k.ctrl && k.right, KeyAction::SpeedUp, x);
        lemma_concat_lacks(a, b, x);
        lemma_concat_lacks(a + b, d, x);
    }
}

proof fn lemma_days_lack(c: KeyContext, k: Keys, x: KeyAction)
    requires
        file_action(x),
    ensures
        !days_of(c, k).contains(x),
{
    let d1 = if k.up {
        c.day + 1
    } else {
        c.day as int
    };
    let a = when(k.up, KeyAction::SkipDay);
    let b = when(k.down && d1 > 1, KeyAction::RewindDay);
    let d = when(k.right, KeyAction::SetAppState(AppState::Day));
    lemma_when_lacks(k.up, KeyAction::SkipDay, x);
    lemma_when_lacks(k.down && d1 > 1, KeyAction::RewindDay, x);
    lemma_when_lacks(k.right, KeyAction::SetAppState(AppState::Day), x);
    lemma_concat_lacks(a, b, x);
    lemma_concat_lacks(a + b, d, x);
}

/// Loading, saving and quitting only come from the control menu.
proof fn lemma_file_actions_only_from_menu(c: KeyContext, k: Keys, x: KeyAction)
    requires
        file_action(x),
        key_actions(c, k).contains(x),
    ensures
        k.ctrl,
        menu_of(k).contains(x),
{
    lemma_head_lacks(c, k, x);
    lemma_night_lacks(c, k, x);
    lemma_days_lack(c, k, x);
    lemma_key_parts(c, k);
    let h = head_of(c, k);
    let night = night_actions(c, k);
    if !k.ctrl {
        lemma_concat_lacks(h, night, x);
    } else if !menu_of(k).contains(x) {
        if k.shift {
            lemma_concat_lacks(menu_of(k), days_of(c, k), x);
            lemma_concat_lacks(h, menu_of(k) + days_of(c, k), x);
            lemma_concat_lacks(h + (menu_of(k) + days_of(c, k)), night, x);
        } else {
            lemma_concat_lacks(h, menu_of(k), x);
            lemma_concat_lacks(h + menu_of(k), night, x);
        }
    }
}

/// The picked control menu shortcut is among the frame's actions.
proof fn lemma_menu_taken(c: KeyContext, k: Keys)
    requires
        k.ctrl,
        menu_of(k).len() > 0,
    ensures
        key_actions(c, k).contains(menu_of(k)[0]),
{
    lemma_key_parts(c, k);
    let h = head_of(c, k);
    let m = menu_of(k);
    let n = night_actions(c, k);
    if k.shift {
        let all = h + (m + days_of(c, k)) + n;
        assert(all[h.len() as int] == m[0]);
    } else {
        let all = h + m + n;
        assert(all[h.len() as int] == m[0]);
    }
}

/// Law: with ctrl held, N starts a new game; otherwise L loads, otherwise S
/// saves, otherwise Q quits.
pub proof fn law_ctrl_shortcuts(c: KeyContext, k: Keys)
    ensures
        k.ctrl && k.n ==> key_actions(c, k).contains(KeyAction::SetAppState(AppState::StartGame)),
        k.ctrl && k.l && !k.n ==> key_actions(c, k).contains(KeyAction::LoadGame),
        k.ctrl && k.s && !k.n && !k.l ==> key_actions(c, k).contains(KeyAction::SaveGame),
        k.ctrl && k.q && !k.n && !k.l && !k.s ==> key_actions(c, k).contains(KeyAction::Quit),
{
    if k.ctrl && (k.n || k.l || k.s || k.q) {
        lemma_menu_taken(c, k);
    }
}

/// Law: the game is only loaded, saved or left when ctrl is held with L, S
/// or Q respectively, and only one of these happens in a frame.
pub proof fn law_file_actions_need_their_key(c: KeyContext, k: Keys)
    ensures
        key_actions(c, k).contains(KeyAction::LoadGame) ==> k.ctrl && k.l,
        key_actions(c, k).contains(KeyAction::SaveGame) ==> k.ctrl && k.s,
        key_actions(c, k).contains(KeyAction::Quit) ==> k.ctrl && k.q,
        key_actions(c, k).contains(KeyAction::SaveGame) ==> !key_actions(c, k).contains(
            KeyAction::Quit,
        ) && !key_actions(c, k).contains(KeyAction::LoadGame),
        key_actions(c, k).contains(KeyAction::Quit) ==> !key_actions(c, k).contains(
            KeyAction::LoadGame,
        ),
{
    let m = menu_of(k);
    assert forall|x: KeyAction|
        file_action(x) && #[trigger] key_actions(c, k).contains(x) implies k.ctrl && m.contains(x) && m.len()
        == 1 && m[0] == x by {
        lemma_file_actions_only_from_menu(c, k, x);
        let i = choose|i: int| 0 <= i < m.len() && m[i] == x;
    }
}

} // verus!
