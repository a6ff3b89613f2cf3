use spotifyctl::command::{conclude, Command, Effect, DEFAULT_MAX_PROGRESS};
use spotifyctl::controller::RemoteCall;
use spotifyctl::error::{exit_status, ControlError, RemoteFailure, EXIT_FAILURE, EXIT_SUCCESS};
use spotifyctl::playback::{PlayableItem, PlaybackSnapshot, Position};
use spotifyctl::settings::{cache_file_name, configure, Credentials, Settings};

fn snapshot(is_playing: bool, seconds: i64) -> PlaybackSnapshot {
    PlaybackSnapshot {
        is_playing,
        item: Some(PlayableItem::Track {
            artists: vec!["A".to_string()],
            title: "T".to_string(),
        }),
        progress: Position::from_millis(seconds * 1_000),
    }
}

#[test]
fn commands_go_by_their_names() {
    assert_eq!(Command::from_name("get", 15), Some(Command::Get));
    assert_eq!(Command::from_name("next", 15), Some(Command::Next));
    assert_eq!(Command::from_name("previous", 15), Some(Command::Previous { max_progress: 15 }));
    assert_eq!(Command::from_name("previous", -2), Some(Command::Previous { max_progress: -2 }));
    assert_eq!(Command::from_name("play-pause", 15), Some(Command::PlayPause));
}

#[test]
fn other_names_are_no_commands() {
    for name in ["", "Get", "get ", "play_pause", "playpause", "prev", "pause", "nextt"] {
        assert_eq!(Command::from_name(name, 15), None);
    }
}

#[test]
fn the_default_threshold_is_fifteen_seconds() {
    assert_eq!(DEFAULT_MAX_PROGRESS, 15);
}

#[test]
fn only_next_does_without_the_players_state() {
    assert!(Command::Get.reads_playback());
    assert!(Command::Previous { max_progress: 15 }.reads_playback());
    assert!(Command::PlayPause.reads_playback());
    assert!(!Command::Next.reads_playback());
}

#[test]
fn get_prints_what_is_playing() {
    let s = snapshot(true, 10);
    assert_eq!(Command::Get.effect(Some(&s)), Effect::Print { line: "A - T".to_string() });
}

#[test]
fn get_does_nothing_when_nothing_is_playing() {
    assert_eq!(Command::Get.effect(None), Effect::Nothing);
    let s = PlaybackSnapshot { is_playing: true, item: None, progress: None };
    assert_eq!(Command::Get.effect(Some(&s)), Effect::Nothing);
}

#[test]
fn next_sends_a_skip_whatever_the_state() {
    let skip = Effect::Send { call: RemoteCall::SkipToNext };
    assert_eq!(Command::Next.effect(None), skip);
    assert_eq!(Command::Next.effect(Some(&snapshot(false, 0))), skip);
    assert_eq!(Command::Next.effect(Some(&snapshot(true, 100))), skip);
}

#[test]
fn previous_and_play_pause_follow_the_state() {
    let previous = Command::Previous { max_progress: DEFAULT_MAX_PROGRESS };
    assert_eq!(
        previous.effect(Some(&snapshot(true, 10))),
        Effect::Send { call: RemoteCall::SkipToPrevious }
    );
    assert_eq!(
        previous.effect(Some(&snapshot(true, 20))),
        Effect::Send { call: RemoteCall::Seek { position: Position::zero() } }
    );
    assert_eq!(previous.effect(Some(&snapshot(false, 10))), Effect::Nothing);
    assert_eq!(previous.effect(None), Effect::Nothing);
    assert_eq!(
        Command::PlayPause.effect(Some(&snapshot(true, 10))),
        Effect::Send { call: RemoteCall::Pause }
    );
    assert_eq!(
        Command::PlayPause.effect(Some(&snapshot(false, 10))),
        Effect::Send { call: RemoteCall::Resume }
    );
    assert_eq!(Command::PlayPause.effect(None), Effect::Nothing);
}

#[test]
fn a_command_fails_when_the_player_does_not_answer() {
    let error = Err(ControlError::RemoteService);
    assert_eq!(Command::Get.effect_after(Err(RemoteFailure)), error);
    assert_eq!(Command::PlayPause.effect_after(Err(RemoteFailure)), error);
    assert_eq!(Command::Previous { max_progress: 15 }.effect_after(Err(RemoteFailure)), error);
}

#[test]
fn next_does_not_depend_on_an_answer() {
    let skip = Ok(Effect::Send { call: RemoteCall::SkipToNext });
    assert_eq!(Command::Next.effect_after(Err(RemoteFailure)), skip);
    assert_eq!(Command::Next.effect_after(Ok(None)), skip);
}

#[test]
fn an_answer_leads_to_the_effect_of_the_command() {
    let s = snapshot(true, 10);
    for command in [
        Command::Get,
        Command::Next,
        Command::Previous { max_progress: 15 },
        Command::PlayPause,
    ] {
        assert_eq!(command.effect_after(Ok(Some(&s))), Ok(command.effect(Some(&s))));
        assert_eq!(command.effect_after(Ok(None)), Ok(command.effect(None)));
    }
}

#[test]
fn a_call_that_is_not_taken_fails_the_command() {
    assert_eq!(conclude(Ok(())), Ok(()));
    assert_eq!(conclude(Err(RemoteFailure)), Err(ControlError::RemoteService));
    assert_eq!(exit_status(&conclude(Err(RemoteFailure))), 1);
}

#[test]
fn complete_settings_are_accepted() {
    let some = |s: &str| Some(s.to_string());
    assert_eq!(
        configure(some("id"), some("secret"), some("http://localhost:8888"), some("/home/u/.config")),
        Ok(Settings {
            credentials: Credentials {
                client_id: "id".to_string(),
                client_secret: "secret".to_string(),
            },
            redirect_uri: "http://localhost:8888".to_string(),
            config_dir: "/home/u/.config".to_string(),
        })
    );
}

#[test]
fn a_missing_setting_is_a_configuration_error() {
    let some = |s: &str| Some(s.to_string());
    let error = Err(ControlError::Configuration);
    assert_eq!(configure(None, some("s"), some("r"), some("d")), error);
    assert_eq!(configure(some("i"), None, some("r"), some("d")), error);
    assert_eq!(configure(some("i"), some("s"), None, some("d")), error);
    assert_eq!(configure(some("i"), some("s"), some("r"), None), error);
    assert_eq!(configure(None, None, None, None), error);
}

#[test]
fn the_cache_file_has_a_fixed_name() {
    assert_eq!(cache_file_name(), ".spotifyctl.token");
}

#[test]
fn a_failed_run_ends_with_a_status_that_is_not_zero() {
    assert_eq!(exit_status(&Ok(())), 0);
    assert_eq!(EXIT_SUCCESS, 0);
    assert_eq!(EXIT_FAILURE, 1);
    for error in
        [ControlError::Configuration, ControlError::Authentication, ControlError::RemoteService]
    {
        assert_eq!(exit_status(&Err(error)), 1);
    }
}

#[test]
fn every_error_has_its_own_message() {
    assert_eq!(
        ControlError::Configuration.message(),
        "configuration error: credentials or configuration directory unavailable"
    );
    assert_eq!(
        ControlError::Authentication.message(),
        "authentication error: could not obtain a valid access token"
    );
    assert_eq!(
        ControlError::RemoteService.message(),
        "remote service error: the playback request failed"
    );
}
