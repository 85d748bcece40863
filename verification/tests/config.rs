use genshin_force_fps::config::{select_game_path, Args, CliOption, PathError, PathSource};
use genshin_force_fps::error::ErrorKind;
use genshin_force_fps::logger::TinyLogger;

#[test]
fn the_settings_of_a_run_without_options() {
    let args = Args::new();
    assert_eq!(args.game_path, None);
    assert_eq!(args.game_cwd, None);
    assert!(!args.enable_hdr);
    assert_eq!(args.fps, 120);
    assert!(args.disable_vsync);
    assert!(args.game_args.is_empty());
}

#[test]
fn each_option_changes_its_setting() {
    let mut args = Args::new();
    args.apply(CliOption::Hdr);
    args.apply(CliOption::NoDisableVsync);
    args.apply(CliOption::Fps(144));
    args.apply(CliOption::Cwd("D:\\game".to_string()));
    args.apply(CliOption::Open("D:\\game\\GenshinImpact.exe".to_string()));
    args.apply(CliOption::GameArg("-screen-width".to_string()));
    args.apply(CliOption::GameArg("1600".to_string()));
    assert!(args.enable_hdr);
    assert!(!args.disable_vsync);
    assert_eq!(args.fps, 144);
    assert_eq!(args.game_cwd.as_deref(), Some("D:\\game"));
    assert_eq!(args.game_path.as_deref(), Some("D:\\game\\GenshinImpact.exe"));
    assert_eq!(args.game_args, vec!["-screen-width", "1600"]);
}

#[test]
fn a_frame_rate_below_one_is_raised_to_one() {
    let mut args = Args::new();
    args.apply(CliOption::Fps(0));
    assert_eq!(args.fps, 1);
    args.apply(CliOption::Fps(60));
    assert_eq!(args.fps, 60);
    args.apply(CliOption::Fps(-30));
    assert_eq!(args.fps, 1);
    args.apply(CliOption::Fps(i32::MAX));
    assert_eq!(args.fps, i32::MAX);
}

#[test]
fn the_later_value_of_an_option_stands() {
    let mut args = Args::new();
    args.apply(CliOption::Open("a.exe".to_string()));
    args.apply(CliOption::Open("b.exe".to_string()));
    assert_eq!(args.game_path.as_deref(), Some("b.exe"));
}

#[test]
fn the_given_path_counts_alone() {
    assert_eq!(select_game_path(Some(true), Some(true), &[true]), Ok(PathSource::Option));
    assert_eq!(select_game_path(Some(false), Some(true), &[true]), Err(PathError::GivenPathMissing));
}

#[test]
fn the_first_argument_comes_before_the_usual_places() {
    assert_eq!(select_game_path(None, Some(true), &[true, true]), Ok(PathSource::FirstArgument));
    assert_eq!(select_game_path(None, Some(false), &[false, true]), Ok(PathSource::Default(1)));
    assert_eq!(select_game_path(None, None, &[true, true]), Ok(PathSource::Default(0)));
}

#[test]
fn without_any_path_the_game_is_not_installed() {
    assert_eq!(select_game_path(None, None, &[]), Err(PathError::NotInstalled));
    assert_eq!(select_game_path(None, Some(false), &[false, false]), Err(PathError::NotInstalled));
}

#[test]
fn a_record_on_one_line() {
    assert_eq!(TinyLogger.format("INFO", "genshin_force_fps", "force FPS: 60 -> 120"), "[INFO][genshin_force_fps] force FPS: 60 -> 120");
    assert_eq!(TinyLogger.format("", "", ""), "[][] ");
    assert_eq!(TinyLogger.format("ERROR", "a::b", "\u{539f}\u{795e}"), "[ERROR][a::b] \u{539f}\u{795e}");
}

#[test]
fn every_failure_has_its_words() {
    assert_eq!(ErrorKind::ProcessCreationFailed.message(), "failed to create process");
    assert_eq!(ErrorKind::ModuleNotFound.message(), "module not found");
    assert_eq!(ErrorKind::MemoryReadFailed.message(), "failed to read memory");
    assert_eq!(ErrorKind::MemoryWriteFailed.message(), "failed to write memory");
    assert_eq!(ErrorKind::PatternNotFound.message(), "anchor pattern not found, try updating this tool");
    assert_eq!(ErrorKind::OutOfBoundsTranslation.message(), "address out of the bounds of the module");
    assert_eq!(ErrorKind::ProcessExited.message(), "process exited");
    assert_eq!(ErrorKind::TrampolineLoop.message(), "jump chain never ends");
}
