//! The search orchestrator, as an explicit state machine. One search runs
//! the pipeline in strict sequence: fetch the team directory, select one
//! team at random, resolve its logo through the cache probe or a remote
//! fetch, and assemble the result. Every step is driven by an event that
//! the unverified shell reports after performing the previous action; the
//! machine itself performs no effect.

use vstd::prelude::*;

use crate::asset::{file_name_of, sprite_file_name, sprite_url, sprite_url_of};
use crate::select::{random_index, select_team};
use crate::team::{Error, FailureKind, Team, TeamRecord};

verus! {

/// Where a search currently stands.
#[derive(Debug, PartialEq)]
pub enum SearchState {
    /// Waiting for the team directory.
    FetchingDirectory,
    /// A team is selected; waiting to learn whether its logo is cached.
    ProbingCache { team: TeamRecord },
    /// Cache miss; waiting for the remote logo bytes.
    FetchingImage { team: TeamRecord },
    /// Logo fetched; waiting for the cache file write to complete.
    WritingImage { team: TeamRecord },
    /// The search is over, successfully or with the classified error.
    Done { result: Result<Team, Error> },
}

/// What the shell reports back after performing an action.
#[derive(Debug, PartialEq)]
pub enum SearchEvent {
    /// The directory request finished: the full team list, or the failure.
    DirectoryResult(Result<Vec<TeamRecord>, FailureKind>),
    /// Whether a regular file exists at the deterministic cache path.
    CacheProbe(bool),
    /// The logo request finished: the full response body, or the failure.
    ImageBody(Result<Vec<u8>, FailureKind>),
    /// The cache file write finished.
    WriteDone(Result<(), FailureKind>),
}

/// What the shell must do next.
#[derive(Debug, PartialEq)]
pub enum SearchAction {
    /// Nothing: the machine either finished or ignored a stale event.
    Idle,
    /// Request the team directory from the stats service.
    FetchDirectory,
    /// Check whether a regular file with this name exists in the cache.
    ProbeCache { file_name: String },
    /// Issue a GET for this URL and read the whole body.
    FetchImage { url: String },
    /// Write exactly these bytes to this cache file, creating or truncating.
    WriteFile { file_name: String, bytes: Vec<u8> },
}

/// The assembled result carries the selected team's fields unchanged, and
/// its image handle is backed by the deterministic cache file.
pub open spec fn is_team_for(t: Team, record: TeamRecord) -> bool {
    &&& t.number == record.id
    &&& t.name == record.name
    &&& t.active == record.active
    &&& t.image@ == file_name_of(record.id as nat)
}

/// The failed state: every failure cause surfaces as the one classified
/// error.
pub open spec fn failed(post: SearchState) -> bool {
    post == (SearchState::Done { result: Err::<Team, Error>(Error::APIError) })
}

/// The transition relation of the orchestrator. `steps_to(pre, event, post,
/// action)` says that, on `event` in state `pre`, the machine may move to
/// `post` while asking the shell to perform `action`. It is relational only
/// in the selection step, where the chosen index is random.
pub open spec fn steps_to(
    pre: SearchState,
    event: SearchEvent,
    post: SearchState,
    action: SearchAction,
) -> bool {
    match (pre, event) {
        (SearchState::FetchingDirectory, SearchEvent::DirectoryResult(res)) => match res {
            Ok(teams) => if teams@.len() == 0 {
                failed(post) && action is Idle
            } else {
                post matches SearchState::ProbingCache { team } && teams@.contains(team) && (
                action matches SearchAction::ProbeCache { file_name } && file_name@
                    == file_name_of(team.id as nat))
            },
            Err(_) => failed(post) && action is Idle,
        },
        (SearchState::ProbingCache { team }, SearchEvent::CacheProbe(hit)) => if hit {
            post matches SearchState::Done { result: Ok(t) } && is_team_for(t, team) && action
                is Idle
        } else {
            post == (SearchState::FetchingImage { team }) && (
            action matches SearchAction::FetchImage { url } && url@ == sprite_url_of(
                team.id as nat,
            ))
        },
        (SearchState::FetchingImage { team }, SearchEvent::ImageBody(res)) => match res {
            Ok(body) => post == (SearchState::WritingImage { team }) && (
            action matches SearchAction::WriteFile { file_name, bytes } && file_name@
                == file_name_of(team.id as nat) && bytes@ == body@),
            Err(_) => failed(post) && action is Idle,
        },
        (SearchState::WritingImage { team }, SearchEvent::WriteDone(res)) => match res {
            Ok(_) => post matches SearchState::Done { result: Ok(t) } && is_team_for(t, team)
                && action is Idle,
            Err(_) => failed(post) && action is Idle,
        },
        _ => post == pre && action is Idle,
    }
}

/// Starts a fresh search: the machine waits for the directory, and the
/// shell must fetch it.
pub fn start_search() -> (r: (SearchState, SearchAction))
    ensures
        r.0 is FetchingDirectory,
        r.1 is FetchDirectory,
{
    (SearchState::FetchingDirectory, SearchAction::FetchDirectory)
}

/// Advances the search by one step. The full transition table is
/// `steps_to`; an event that does not belong to the current state leaves
/// the machine unchanged.
pub fn step(state: SearchState, event: SearchEvent) -> (r: (SearchState, SearchAction))
    ensures
        steps_to(state, event, r.0, r.1),
{
    match (state, event) {
        (SearchState::FetchingDirectory, SearchEvent::DirectoryResult(res)) => match res {
            Ok(mut teams) => {
                if teams.len() == 0 {
                    (SearchState::Done { result: Err(Error::APIError) }, SearchAction::Idle)
                } else {
                    let index = random_index(teams.len());
                    let team = select_team(&mut teams, index);
                    let file_name = sprite_file_name(team.id);
                    (SearchState::ProbingCache { team }, SearchAction::ProbeCache { file_name })
                }
            },
            Err(_) => (SearchState::Done { result: Err(Error::APIError) }, SearchAction::Idle),
        },
        (SearchState::ProbingCache { team }, SearchEvent::CacheProbe(hit)) => {
            if hit {
                let image = sprite_file_name(team.id);
                let t = Team { number: team.id, name: team.name, active: team.active, image };
                (SearchState::Done { result: Ok(t) }, SearchAction::Idle)
            } else {
                let url = sprite_url(team.id);
                (SearchState::FetchingImage { team }, SearchAction::FetchImage { url })
            }
        },
        (SearchState::FetchingImage { team }, SearchEvent::ImageBody(res)) => match res {
            Ok(body) => {
                let file_name = sprite_file_name(team.id);
                (
                    SearchState::WritingImage { team },
                    SearchAction::WriteFile { file_name, bytes: body },
                )
            },
            Err(_) => (SearchState::Done { result: Err(Error::APIError) }, SearchAction::Idle),
        },
        (SearchState::WritingImage { team }, SearchEvent::WriteDone(res)) => match res {
            Ok(_) => {
                let image = sprite_file_name(team.id);
                let t = Team { number: team.id, name: team.name, active: team.active, image };
                (SearchState::Done { result: Ok(t) }, SearchAction::Idle)
            },
            Err(_) => (SearchState::Done { result: Err(Error::APIError) }, SearchAction::Idle),
        },
        (s, _) => (s, SearchAction::Idle),
    }
}

/// A run of one search: starting from `init`, each event moves the machine
/// to the recorded state while emitting the recorded action, all under the
/// transition relation.
pub open spec fn valid_trace(
    init: SearchState,
    events: Seq<SearchEvent>,
    states: Seq<SearchState>,
    actions: Seq<SearchAction>,
) -> bool {
    &&& states.len() == events.len()
    &&& actions.len() == events.len()
    &&& forall|i: int|
        0 <= i < events.len() ==> steps_to(
            if i == 0 {
                init
            } else {
                states[i - 1]
            },
            events[i],
            #[trigger] states[i],
            actions[i],
        )
}

/// Law: whenever the directory arrives non-empty, the machine moves on with
/// a team that was present in the directory.
pub proof fn lemma_selection_is_from_directory(
    teams: Vec<TeamRecord>,
    post: SearchState,
    action: SearchAction,
)
    requires
        teams@.len() > 0,
        steps_to(
            SearchState::FetchingDirectory,
            SearchEvent::DirectoryResult(Ok(teams)),
            post,
            action,
        ),
    ensures
        post matches SearchState::ProbingCache { team } && teams@.contains(team),
{
}

/// Law: a cache hit finishes the search at once. No network action is
/// requested, and the result's image handle is the existing deterministic
/// cache file, unchanged.
pub proof fn lemma_cache_hit_is_idempotent(
    team: TeamRecord,
    post: SearchState,
    action: SearchAction,
)
    requires
        steps_to(
            SearchState::ProbingCache { team },
            SearchEvent::CacheProbe(true),
            post,
            action,
        ),
    ensures
        action is Idle,
        post matches SearchState::Done { result: Ok(t) } && is_team_for(t, team),
{
}

/// Law: the bytes handed to the cache write are exactly the fetched
/// response body, and the write targets the deterministic cache file.
pub proof fn lemma_fetched_bytes_written_verbatim(
    team: TeamRecord,
    body: Vec<u8>,
    post: SearchState,
    action: SearchAction,
)
    requires
        steps_to(
            SearchState::FetchingImage { team },
            SearchEvent::ImageBody(Ok(body)),
            post,
            action,
        ),
    ensures
        action matches SearchAction::WriteFile { file_name, bytes } && file_name@ == file_name_of(
            team.id as nat,
        ) && bytes@ == body@,
        post == (SearchState::WritingImage { team }),
{
}

/// Law: a finished search is final. No event moves the machine out of the
/// done state, and no further action is ever requested.
pub proof fn lemma_done_is_final(
    pre: SearchState,
    event: SearchEvent,
    post: SearchState,
    action: SearchAction,
)
    requires
        pre is Done,
        steps_to(pre, event, post, action),
    ensures
        post == pre,
        action is Idle,
{
}

/// Law: once a run reaches the done state it stays there, and every later
/// step of the run is actionless.
pub proof fn lemma_trace_stays_done(
    init: SearchState,
    events: Seq<SearchEvent>,
    states: Seq<SearchState>,
    actions: Seq<SearchAction>,
    k: int,
    j: int,
)
    requires
        valid_trace(init, events, states, actions),
        0 <= k <= j < states.len(),
        states[k] is Done,
    ensures
        states[j] == states[k],
        j > k ==> actions[j] is Idle,
    decreases j - k,
{
    if j > k {
        lemma_trace_stays_done(init, events, states, actions, k, j - 1);
        assert(steps_to(states[j - 1], events[j], states[j], actions[j]));
        lemma_done_is_final(states[j - 1], events[j], states[j], actions[j]);
    }
}

/// Law: if the directory fetch fails, the search ends at once with the
/// classified error, and no later step performs any action — in particular,
/// no image fetch is ever attempted.
pub proof fn lemma_directory_failure_short_circuits(
    init: SearchState,
    events: Seq<SearchEvent>,
    states: Seq<SearchState>,
    actions: Seq<SearchAction>,
)
    requires
        valid_trace(init, events, states, actions),
        init is FetchingDirectory,
        events.len() > 0,
        events[0] matches SearchEvent::DirectoryResult(Err(_)),
    ensures
        forall|j: int| 0 <= j < states.len() ==> failed(#[trigger] states[j]),
        forall|j: int| 0 <= j < actions.len() ==> (#[trigger] actions[j]) is Idle,
{
    assert(steps_to(init, events[0], states[0], actions[0]));
    assert forall|j: int| 0 <= j < states.len() implies failed(#[trigger] states[j]) by {
        lemma_trace_stays_done(init, events, states, actions, 0, j);
    }
    assert forall|j: int| 0 <= j < actions.len() implies (#[trigger] actions[j]) is Idle by {
        if j > 0 {
            lemma_trace_stays_done(init, events, states, actions, 0, j);
        }
    }
}

/// Law: if the image fetch fails after a team was already selected, the
/// search ends with the classified error, every later step is actionless,
/// and no state of the run ever holds a successful result — a partially
/// assembled team is never exposed.
pub proof fn lemma_image_failure_discards_selection(
    init: SearchState,
    events: Seq<SearchEvent>,
    states: Seq<SearchState>,
    actions: Seq<SearchAction>,
)
    requires
        valid_trace(init, events, states, actions),
        init is FetchingImage,
        events.len() > 0,
        events[0] matches SearchEvent::ImageBody(Err(_)),
    ensures
        forall|j: int| 0 <= j < states.len() ==> failed(#[trigger] states[j]),
        forall|j: int| 0 <= j < actions.len() ==> (#[trigger] actions[j]) is Idle,
{
    assert(steps_to(init, events[0], states[0], actions[0]));
    assert forall|j: int| 0 <= j < states.len() implies failed(#[trigger] states[j]) by {
        lemma_trace_stays_done(init, events, states, actions, 0, j);
    }
    assert forall|j: int| 0 <= j < actions.len() implies (#[trigger] actions[j]) is Idle by {
        if j > 0 {
            lemma_trace_stays_done(init, events, states, actions, 0, j);
        }
    }
}

} // verus!
