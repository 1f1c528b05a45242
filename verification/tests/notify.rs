use user_colors::colors::ColorOverrides;
use user_colors::config::Config;
use user_colors::error::Lookup;
use user_colors::notify::{load_theme, ChangeKind, State, ThemeUpdate, ThemeWatcher, WatchEvent};

fn ocean() -> ColorOverrides {
    ColorOverrides {
        name: "Ocean".to_string(),
        accent_bg_color: Some("#336699".to_string()),
        ..Default::default()
    }
}

fn desert() -> ColorOverrides {
    ColorOverrides {
        name: "Desert".to_string(),
        accent_bg_color: Some("#cc9933".to_string()),
        ..Default::default()
    }
}

fn waiting(state: State) -> ThemeWatcher {
    match state {
        State::Waiting(watcher) => watcher,
        State::Ready => panic!("ready"),
        State::Error => panic!("error"),
    }
}

fn palette(update: Option<ThemeUpdate>) -> ColorOverrides {
    match update {
        Some(ThemeUpdate::Palette(palette)) => palette,
        Some(ThemeUpdate::Errored) => panic!("errored"),
        None => panic!("silent"),
    }
}

#[test]
fn only_create_modify_and_remove_are_relevant() {
    assert!(ChangeKind::Create.is_relevant());
    assert!(ChangeKind::Modify.is_relevant());
    assert!(ChangeKind::Remove.is_relevant());
    assert!(!ChangeKind::Any.is_relevant());
    assert!(!ChangeKind::Access.is_relevant());
    assert!(!ChangeKind::Other.is_relevant());
}

#[test]
fn palette_is_the_active_set() {
    let policy = Config::new_static("Ocean".to_string(), false);
    assert!(ThemeWatcher::palette(&policy, Lookup::Found(ocean())) == ocean());
    let policy = Config::new_dark_light(false, true, "Ocean".to_string(), "Desert".to_string());
    assert!(ThemeWatcher::palette(&policy, Lookup::Found(ocean())) == ocean().to_high_contrast());
}

#[test]
fn palette_falls_back_to_the_baseline_of_the_mode() {
    let dark = Config::new_dark_light(true, false, "A".to_string(), "B".to_string());
    assert!(ThemeWatcher::palette(&dark, Lookup::Missing) == ColorOverrides::dark_default());
    assert!(ThemeWatcher::palette(&dark, Lookup::Malformed) == ColorOverrides::dark_default());
    let light = Config::new_dark_light(false, false, "A".to_string(), "B".to_string());
    assert!(ThemeWatcher::palette(&light, Lookup::Missing) == ColorOverrides::light_default());
    let contrast = Config::new_dark_light(false, true, "A".to_string(), "B".to_string());
    assert!(
        ThemeWatcher::palette(&contrast, Lookup::Missing)
            == ColorOverrides::light_default().to_high_contrast()
    );
    let fixed = Config::new_static("Ocean".to_string(), true);
    assert!(ThemeWatcher::palette(&fixed, Lookup::Missing) == ColorOverrides::dark_default());
    assert!(ThemeWatcher::palette(&Config::default(), Lookup::Found(ocean())) == ColorOverrides::dark_default());
    let unnamed = Config::new_dark_light(false, false, String::new(), "B".to_string());
    assert!(ThemeWatcher::palette(&unnamed, Lookup::Found(ocean())) == ColorOverrides::light_default());
}

#[test]
fn change_of_an_inactive_set_emits_nothing() {
    let policy = Config::new_static("Ocean".to_string(), false);
    let mut watcher = ThemeWatcher::new(ThemeWatcher::palette(&policy, Lookup::Found(ocean())));
    let resolved = ThemeWatcher::palette(&policy, Lookup::Found(ocean()));
    assert_eq!(watcher.palette_change(ChangeKind::Modify, resolved), None);
    assert!(*watcher.last_palette() == ocean());
}

#[test]
fn change_of_the_active_set_emits_once() {
    let policy = Config::new_static("Ocean".to_string(), false);
    let mut watcher = ThemeWatcher::new(ThemeWatcher::palette(&policy, Lookup::Found(ocean())));
    let mut edited = ocean();
    edited.set_key("accent_bg_color", Some("#003366".to_string())).unwrap();
    let resolved = ThemeWatcher::palette(&policy, Lookup::Found(edited.clone()));
    assert_eq!(watcher.palette_change(ChangeKind::Modify, resolved), Some(edited.clone()));
    assert!(*watcher.last_palette() == edited);
    let again = ThemeWatcher::palette(&policy, Lookup::Found(edited.clone()));
    assert_eq!(watcher.palette_change(ChangeKind::Modify, again), None);
    assert!(*watcher.last_palette() == edited);
}

#[test]
fn irrelevant_change_emits_nothing() {
    let mut watcher = ThemeWatcher::new(ocean());
    assert_eq!(watcher.palette_change(ChangeKind::Access, desert()), None);
    assert_eq!(watcher.palette_change(ChangeKind::Other, desert()), None);
    assert!(*watcher.last_palette() == ocean());
    assert_eq!(watcher.palette_change(ChangeKind::Remove, desert()), Some(desert()));
    assert_eq!(watcher.palette_change(ChangeKind::Create, ocean()), Some(ocean()));
}

#[test]
fn subscription_leads_from_ready_to_waiting() {
    let (update, state) = load_theme(State::Ready, WatchEvent::Subscribed(ocean()));
    assert!(palette(update) == ocean());
    assert!(*waiting(state).last_palette() == ocean());
}

#[test]
fn failed_subscription_leads_to_error() {
    let (update, state) = load_theme(State::Ready, WatchEvent::SubscribeFailed);
    assert!(matches!(update, Some(ThemeUpdate::Errored)));
    assert!(matches!(state, State::Error));
}

#[test]
fn ready_passes_over_what_is_no_subscription() {
    let (update, state) = load_theme(State::Ready, WatchEvent::Changed(ChangeKind::Modify, ocean()));
    assert!(update.is_none());
    assert!(matches!(state, State::Ready));
    let (update, state) = load_theme(State::Ready, WatchEvent::Closed);
    assert!(update.is_none());
    assert!(matches!(state, State::Ready));
}

#[test]
fn waiting_emits_only_a_palette_that_differs() {
    let state = State::Waiting(ThemeWatcher::new(ocean()));
    let (update, state) = load_theme(state, WatchEvent::Changed(ChangeKind::Modify, ocean()));
    assert!(update.is_none());
    let (update, state) = load_theme(state, WatchEvent::Changed(ChangeKind::Access, desert()));
    assert!(update.is_none());
    let (update, state) = load_theme(state, WatchEvent::Changed(ChangeKind::Modify, desert()));
    assert!(palette(update) == desert());
    let (update, state) = load_theme(state, WatchEvent::Changed(ChangeKind::Create, desert()));
    assert!(update.is_none());
    let (update, state) = load_theme(state, WatchEvent::Subscribed(ocean()));
    assert!(update.is_none());
    assert!(*waiting(state).last_palette() == desert());
}

#[test]
fn flip_of_a_mode_flag_emits_only_a_palette_that_differs() {
    let state = State::Waiting(ThemeWatcher::new(ColorOverrides::dark_default()));
    let (update, state) = load_theme(state, WatchEvent::ModeChanged(ColorOverrides::dark_default()));
    assert!(update.is_none());
    let (update, state) = load_theme(state, WatchEvent::ModeChanged(ColorOverrides::light_default()));
    assert!(palette(update) == ColorOverrides::light_default());
    assert!(*waiting(state).last_palette() == ColorOverrides::light_default());
    let (update, state) = load_theme(State::Ready, WatchEvent::ModeChanged(ocean()));
    assert!(update.is_none());
    assert!(matches!(state, State::Ready));
}

#[test]
fn end_of_notifications_leads_to_error() {
    let state = State::Waiting(ThemeWatcher::new(ocean()));
    let (update, state) = load_theme(state, WatchEvent::Closed);
    assert!(matches!(update, Some(ThemeUpdate::Errored)));
    assert!(matches!(state, State::Error));
    let state = State::Waiting(ThemeWatcher::new(ocean()));
    let (update, state) = load_theme(state, WatchEvent::SubscribeFailed);
    assert!(matches!(update, Some(ThemeUpdate::Errored)));
    assert!(matches!(state, State::Error));
}

#[test]
fn error_is_never_left_and_says_no_more() {
    let events = [
        WatchEvent::Subscribed(ocean()),
        WatchEvent::SubscribeFailed,
        WatchEvent::Changed(ChangeKind::Modify, desert()),
        WatchEvent::ModeChanged(desert()),
        WatchEvent::Closed,
    ];
    let mut state = State::Error;
    for event in events {
        let (update, next) = load_theme(state, event);
        assert!(update.is_none());
        assert!(matches!(next, State::Error));
        state = next;
    }
}

#[test]
fn errored_is_emitted_exactly_once() {
    let mut emitted = 0;
    let mut state = State::Ready;
    let events = [
        WatchEvent::Subscribed(ocean()),
        WatchEvent::Changed(ChangeKind::Modify, ocean()),
        WatchEvent::Closed,
        WatchEvent::Closed,
        WatchEvent::Changed(ChangeKind::Modify, desert()),
    ];
    for event in events {
        let (update, next) = load_theme(state, event);
        if matches!(update, Some(ThemeUpdate::Errored)) {
            emitted += 1;
        }
        state = next;
    }
    assert_eq!(emitted, 1);
    assert!(matches!(state, State::Error));
}
