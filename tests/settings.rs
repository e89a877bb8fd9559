use npp_heat_balance::config::{AppConfig, ThemeChoice};
use npp_heat_balance::errors::Error;
use npp_heat_balance::session::{DirStep, PendingAction, SaveStep, Session};

#[test]
fn theme_names_round_trip() {
    for t in [
        ThemeChoice::CatppuccinLatte,
        ThemeChoice::TokyoNightLight,
        ThemeChoice::CatppuccinMocha,
        ThemeChoice::TokyoNightStorm,
    ] {
        assert_eq!(ThemeChoice::from_name(&t.name()), t);
    }
    assert_eq!(ThemeChoice::TokyoNightStorm.name(), "TokyoNightStorm");
}

#[test]
fn unknown_theme_name_gives_dark_default() {
    assert_eq!(ThemeChoice::from_name(&"Solarized".to_string()), ThemeChoice::CatppuccinMocha);
    assert_eq!(AppConfig::default().theme_choice(), ThemeChoice::CatppuccinMocha);
}

#[test]
fn set_theme_keeps_output_path() {
    let mut c = AppConfig { output_path: "/tmp/out".to_string(), theme: String::new() };
    c.set_theme(ThemeChoice::CatppuccinLatte);
    assert_eq!(c.theme, "CatppuccinLatte");
    assert_eq!(c.output_path, "/tmp/out");
    assert_eq!(c.theme_choice(), ThemeChoice::CatppuccinLatte);
}

#[test]
fn save_without_directory_waits_for_one() {
    let mut s = Session::new(AppConfig::default());
    assert!(s.config.needs_output_dir());
    assert_eq!(s.request_save(PendingAction::Result), SaveStep::AskOutputDir);
    assert_eq!(s.pending_action, Some(PendingAction::Result));
    assert_eq!(
        s.output_dir_selected(Some("/data/run1".to_string())),
        DirStep::PersistAndWrite(Some(PendingAction::Result))
    );
    assert_eq!(s.config.output_path, "/data/run1");
    assert_eq!(s.pending_action, None);
}

#[test]
fn save_with_directory_writes_at_once() {
    let mut s = Session::new(AppConfig { output_path: "/data".to_string(), theme: String::new() });
    assert_eq!(s.request_save(PendingAction::InputParams), SaveStep::Write(PendingAction::InputParams));
    assert_eq!(s.pending_action, None);
}

#[test]
fn dismissed_directory_question_drops_the_save() {
    let mut s = Session::new(AppConfig::default());
    s.request_save(PendingAction::InputParams);
    assert_eq!(s.output_dir_selected(None), DirStep::Abandoned);
    assert_eq!(s.pending_action, None);
    assert!(s.config.output_path.is_empty());
}

#[test]
fn choosing_a_directory_with_nothing_pending_only_stores_it() {
    let mut s = Session::new(AppConfig::default());
    s.select_theme(ThemeChoice::TokyoNightLight);
    assert_eq!(s.output_dir_selected(Some("/out".to_string())), DirStep::PersistAndWrite(None));
    assert_eq!(s.config.theme, "TokyoNightLight");
}

#[test]
fn error_kinds_are_kept() {
    let e = Error::IoError(std::io::ErrorKind::NotFound);
    assert_eq!(e, Error::IoError(std::io::ErrorKind::NotFound));
    assert_ne!(e, Error::DialogClosed);
}
