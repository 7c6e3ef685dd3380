use hockey_app::asset::{sprite_file_name, sprite_url};
use hockey_app::search::{start_search, step, SearchAction, SearchEvent, SearchState};
use hockey_app::select::{select_random_team, select_team};
use hockey_app::team::{Error, FailureKind, Team, TeamRecord};

fn record(id: u32, name: &str, active: bool) -> TeamRecord {
    TeamRecord { id, name: name.to_string(), active }
}

fn directory() -> Vec<TeamRecord> {
    vec![record(1, "A", true), record(2, "B", false), record(3, "C", true)]
}

#[test]
fn start_search_fetches_directory() {
    let (state, action) = start_search();
    assert_eq!(state, SearchState::FetchingDirectory);
    assert_eq!(action, SearchAction::FetchDirectory);
}

#[test]
fn selector_returns_member_of_input() {
    let original = directory();
    let mut teams = directory();
    let team = select_random_team(&mut teams);
    assert!(original.contains(&team));
    assert_eq!(teams.len(), original.len() - 1);
    assert!(!teams.contains(&team));
}

#[test]
fn selector_removes_chosen_index() {
    let mut teams = directory();
    let team = select_team(&mut teams, 1);
    assert_eq!(team, record(2, "B", false));
    assert_eq!(teams, vec![record(1, "A", true), record(3, "C", true)]);
}

#[test]
fn selection_step_picks_present_team() {
    let (state, action) = step(
        SearchState::FetchingDirectory,
        SearchEvent::DirectoryResult(Ok(vec![record(17, "Lone", true)])),
    );
    assert_eq!(state, SearchState::ProbingCache { team: record(17, "Lone", true) });
    assert_eq!(action, SearchAction::ProbeCache { file_name: "17.svg".to_string() });
}

#[test]
fn cache_hit_performs_no_network_call() {
    let (state, action) = step(
        SearchState::ProbingCache { team: record(7, "Cached", true) },
        SearchEvent::CacheProbe(true),
    );
    let expected = Team {
        number: 7,
        name: "Cached".to_string(),
        active: true,
        image: "7.svg".to_string(),
    };
    assert_eq!(state, SearchState::Done { result: Ok(expected) });
    assert_eq!(action, SearchAction::Idle);
}

#[test]
fn cache_miss_fetches_templated_url() {
    let (state, action) = step(
        SearchState::ProbingCache { team: record(7, "Missed", true) },
        SearchEvent::CacheProbe(false),
    );
    assert_eq!(state, SearchState::FetchingImage { team: record(7, "Missed", true) });
    assert_eq!(
        action,
        SearchAction::FetchImage {
            url: "http://www-league.nhlstatic.com/images/logos/teams-current-circle/7.svg"
                .to_string(),
        }
    );
}

#[test]
fn fetched_body_is_written_verbatim() {
    let body = b"<svg/>".to_vec();
    let (state, action) = step(
        SearchState::FetchingImage { team: record(7, "Missed", true) },
        SearchEvent::ImageBody(Ok(body.clone())),
    );
    assert_eq!(state, SearchState::WritingImage { team: record(7, "Missed", true) });
    assert_eq!(action, SearchAction::WriteFile { file_name: "7.svg".to_string(), bytes: body });
}

#[test]
fn directory_failure_short_circuits() {
    let (state, action) = step(
        SearchState::FetchingDirectory,
        SearchEvent::DirectoryResult(Err(FailureKind::Transport)),
    );
    assert_eq!(state, SearchState::Done { result: Err(Error::APIError) });
    assert_eq!(action, SearchAction::Idle);
}

#[test]
fn empty_directory_is_classified_error() {
    let (state, action) = step(
        SearchState::FetchingDirectory,
        SearchEvent::DirectoryResult(Ok(vec![])),
    );
    assert_eq!(state, SearchState::Done { result: Err(Error::APIError) });
    assert_eq!(action, SearchAction::Idle);
}

#[test]
fn image_failure_discards_selected_team() {
    let (state, action) = step(
        SearchState::FetchingImage { team: record(2, "B", false) },
        SearchEvent::ImageBody(Err(FailureKind::UnreadableResponse)),
    );
    assert_eq!(state, SearchState::Done { result: Err(Error::APIError) });
    assert_eq!(action, SearchAction::Idle);
}

#[test]
fn write_failure_is_classified_error() {
    let (state, action) = step(
        SearchState::WritingImage { team: record(2, "B", false) },
        SearchEvent::WriteDone(Err(FailureKind::WriteFailed)),
    );
    assert_eq!(state, SearchState::Done { result: Err(Error::APIError) });
    assert_eq!(action, SearchAction::Idle);
}

#[test]
fn finished_search_ignores_stale_events() {
    let done = SearchState::Done { result: Err(Error::APIError) };
    let (state, action) = step(done, SearchEvent::CacheProbe(true));
    assert_eq!(state, SearchState::Done { result: Err(Error::APIError) });
    assert_eq!(action, SearchAction::Idle);
}

#[test]
fn mismatched_event_leaves_state_unchanged() {
    let (state, action) = step(SearchState::FetchingDirectory, SearchEvent::CacheProbe(true));
    assert_eq!(state, SearchState::FetchingDirectory);
    assert_eq!(action, SearchAction::Idle);
}

#[test]
fn full_search_scenario_for_second_team() {
    let mut teams = vec![record(1, "A", true), record(2, "B", false)];
    let team = select_team(&mut teams, 1);
    assert_eq!(team.id, 2);

    assert_eq!(sprite_file_name(team.id), "2.svg".to_string());
    assert_eq!(
        sprite_url(team.id),
        "http://www-league.nhlstatic.com/images/logos/teams-current-circle/2.svg".to_string()
    );

    let (state, action) =
        step(SearchState::ProbingCache { team }, SearchEvent::CacheProbe(false));
    assert_eq!(
        action,
        SearchAction::FetchImage {
            url: "http://www-league.nhlstatic.com/images/logos/teams-current-circle/2.svg"
                .to_string(),
        }
    );

    let (state, action) = step(state, SearchEvent::ImageBody(Ok(b"<svg/>".to_vec())));
    assert_eq!(
        action,
        SearchAction::WriteFile {
            file_name: "2.svg".to_string(),
            bytes: b"<svg/>".to_vec(),
        }
    );

    let (state, action) = step(state, SearchEvent::WriteDone(Ok(())));
    let expected = Team {
        number: 2,
        name: "B".to_string(),
        active: false,
        image: "2.svg".to_string(),
    };
    assert_eq!(state, SearchState::Done { result: Ok(expected) });
    assert_eq!(action, SearchAction::Idle);
}
