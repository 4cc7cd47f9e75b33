//! The request handler, as a state machine.
//!
//! The handler decides; its caller does the work. The caller hands in an
//! event, gets an action back, performs it, and hands in what came of it,
//! until the action is to send the response or to fail the request.

use crate::config::Config;
use crate::error::{status_of, Error, IoErrorKind};
use crate::path::{join, local_path_for_request, lemma_resolve_ignores_query, resolve};
use crate::response::{
    error_outcome, error_page_response, file_response, handle_io_error, internal_server_error,
    outcome_view, respond_with_file, Response, ResponseView,
};
use crate::status::Status;
use crate::template::{error_page, template_is_valid};
use vstd::prelude::*;

verus! {

/// Where the handling of a request stands.
#[derive(Debug)]
pub enum State {
    /// No request has arrived yet.
    Idle,
    /// The file at `path` is being opened.
    Opening { path: String },
    /// The file at `path` is open and is being read.
    Reading { path: String },
    /// The response is with the post-processing hook.
    Hooking,
    /// The request is over.
    Done,
}

/// What has happened outside the handler.
#[derive(Debug)]
pub enum Event {
    /// A request has arrived; `path` is the path of its URI.
    Request { path: String },
    /// The file has been opened.
    Opened,
    /// The file could not be opened.
    OpenFailed(IoErrorKind),
    /// The file has been read to its end.
    Read { content: Vec<u8> },
    /// Reading the file failed.
    ReadFailed(IoErrorKind),
    /// The hook has returned a response.
    HookReturned { response: Response },
    /// The hook has failed.
    HookFailed,
}

/// What the caller is to do next.
#[derive(Debug)]
pub enum Action {
    /// Open the file at `path` for reading.
    Open { path: String },
    /// Read the open file to its end.
    Read,
    /// Pass `response` to the post-processing hook, with the request and
    /// the configuration.
    Hook { response: Response },
    /// Send `response`: the request is done.
    Send { response: Response },
    /// Fail the request: no response is sent.
    Fail(Error),
}

/// What a `State` holds.
pub enum StateView {
    Idle,
    Opening { path: Seq<char> },
    Reading { path: Seq<char> },
    Hooking,
    Done,
}

/// What an `Event` holds.
pub enum EventView {
    Request { path: Seq<char> },
    Opened,
    OpenFailed(IoErrorKind),
    Read { content: Seq<u8> },
    ReadFailed(IoErrorKind),
    HookReturned { response: ResponseView },
    HookFailed,
}

/// What an `Action` holds.
pub enum ActionView {
    Open { path: Seq<char> },
    Read,
    Hook { response: ResponseView },
    Send { response: ResponseView },
    Fail(Error),
}

impl View for State {
    type V = StateView;

    open spec fn view(&self) -> StateView {
        match *self {
            State::Idle => StateView::Idle,
            State::Opening { path } => StateView::Opening { path: path@ },
            State::Reading { path } => StateView::Reading { path: path@ },
            State::Hooking => StateView::Hooking,
            State::Done => StateView::Done,
        }
    }
}

impl View for Event {
    type V = EventView;

    open spec fn view(&self) -> EventView {
        match *self {
            Event::Request { path } => EventView::Request { path: path@ },
            Event::Opened => EventView::Opened,
            Event::OpenFailed(kind) => EventView::OpenFailed(kind),
            Event::Read { content } => EventView::Read { content: content@ },
            Event::ReadFailed(kind) => EventView::ReadFailed(kind),
            Event::HookReturned { response } => EventView::HookReturned { response: response@ },
            Event::HookFailed => EventView::HookFailed,
        }
    }
}

impl View for Action {
    type V = ActionView;

    open spec fn view(&self) -> ActionView {
        match *self {
            Action::Open { path } => ActionView::Open { path: path@ },
            Action::Read => ActionView::Read,
            Action::Hook { response } => ActionView::Hook { response: response@ },
            Action::Send { response } => ActionView::Send { response: response@ },
            Action::Fail(e) => ActionView::Fail(e),
        }
    }
}

/// What follows once the server's own response is built, or cannot be
/// built: the response goes to the hook, or the request fails.
pub open spec fn handed_over(outcome: Result<ResponseView, Error>) -> (StateView, ActionView) {
    match outcome {
        Ok(response) => (StateView::Hooking, ActionView::Hook { response }),
        Err(e) => (StateView::Done, ActionView::Fail(e)),
    }
}

/// The handler's transition: the next state and the action, for a state
/// and an event.
///
/// A request is resolved; with no path it is answered with status 500 and
/// no file is touched. The resolved file is opened, then read, and its
/// content is served; a failure to open it is answered by its kind, a
/// failure to read it with status 500. Every response of the server goes
/// to the hook, and what the hook returns is sent. An event that the state
/// does not wait for fails the request.
pub open spec fn step_spec(root_dir: Seq<char>, state: StateView, event: EventView) -> (
    StateView,
    ActionView,
) {
    match (state, event) {
        (StateView::Idle, EventView::Request { path }) => match resolve(path, root_dir) {
            Some(file) => (StateView::Opening { path: file }, ActionView::Open { path: file }),
            None => handed_over(error_outcome(Status::InternalServerError)),
        },
        (StateView::Opening { path }, EventView::Opened) => (
            StateView::Reading { path },
            ActionView::Read,
        ),
        (StateView::Opening { path }, EventView::OpenFailed(kind)) => handed_over(
            error_outcome(status_of(kind)),
        ),
        (StateView::Reading { path }, EventView::Read { content }) => handed_over(
            Ok(file_response(content, path)),
        ),
        (StateView::Reading { path }, EventView::ReadFailed(kind)) => handed_over(
            error_outcome(Status::InternalServerError),
        ),
        (StateView::Hooking, EventView::HookReturned { response }) => (
            StateView::Done,
            ActionView::Send { response },
        ),
        (StateView::Hooking, EventView::HookFailed) => (
            StateView::Done,
            ActionView::Fail(Error::Hook),
        ),
        _ => (StateView::Done, ActionView::Fail(Error::UnexpectedEvent)),
    }
}

/// Hands the server's own response over to the hook, or fails the
/// request where the response could not be built.
pub fn hand_over(outcome: Result<Response, Error>) -> (r: (State, Action))
    ensures
        (r.0@, r.1@) == handed_over(outcome_view(outcome)),
{
    match outcome {
        Ok(response) => (State::Hooking, Action::Hook { response }),
        Err(e) => (State::Done, Action::Fail(e)),
    }
}

/// Takes one step of the handling of a request: from the state and the
/// event to the next state and the action for the caller.
pub fn step(config: &Config, state: State, event: Event) -> (r: (State, Action))
    ensures
        (r.0@, r.1@) == step_spec(config.root_dir@, state@, event@),
{
    match (state, event) {
        (State::Idle, Event::Request { path }) => {
            match local_path_for_request(path.as_str(), config.root_dir.as_str()) {
                Some(file) => {
                    let opening = file.clone();
                    (State::Opening { path: opening }, Action::Open { path: file })
                },
                None => hand_over(internal_server_error()),
            }
        },
        (State::Opening { path }, Event::Opened) => (State::Reading { path }, Action::Read),
        (State::Opening { path }, Event::OpenFailed(kind)) => hand_over(
            handle_io_error(kind),
        ),
        (State::Reading { path }, Event::Read { content }) => hand_over(
            Ok(respond_with_file(content, path.as_str())),
        ),
        (State::Reading { path }, Event::ReadFailed(kind)) => hand_over(
            internal_server_error(),
        ),
        (State::Hooking, Event::HookReturned { response }) => (
            State::Done,
            Action::Send { response },
        ),
        (State::Hooking, Event::HookFailed) => (State::Done, Action::Fail(Error::Hook)),
        _ => (State::Done, Action::Fail(Error::UnexpectedEvent)),
    }
}

/// How a request that is not served is answered: the page for `status`
/// goes to the hook, or, where the page does not render, the request
/// fails.
pub open spec fn answers_with(action: ActionView, status: Status) -> bool {
    match error_page(status) {
        Some(html) => action == (ActionView::Hook { response: error_page_response(status, html) }),
        None => action == ActionView::Fail(Error::Handlebars),
    }
}

/// A request whose path does not begin with `/` resolves to nothing and is
/// answered with status 500; no file is opened for it.
pub proof fn lemma_unresolved_request_gets_500(root_dir: Seq<char>, path: Seq<char>)
    requires
        path.len() == 0 || path[0] != '/',
    ensures
        resolve(path, root_dir) is None,
        answers_with(
            step_spec(root_dir, StateView::Idle, EventView::Request { path }).1,
            Status::InternalServerError,
        ),
{
}

/// A request whose path begins with `/` has the resolved file opened, and
/// nothing else happens first.
pub proof fn lemma_resolved_request_opens_file(root_dir: Seq<char>, path: Seq<char>)
    requires
        path.len() > 0,
        path[0] == '/',
    ensures
        resolve(path, root_dir) matches Some(file) && step_spec(
            root_dir,
            StateView::Idle,
            EventView::Request { path },
        ) == (StateView::Opening { path: file }, ActionView::Open { path: file }),
{
}

/// A file that does not exist is answered with status 404, and the body
/// of that response is the error page for 404.
pub proof fn lemma_missing_file_gets_404(root_dir: Seq<char>, file: Seq<char>)
    ensures
        answers_with(
            step_spec(
                root_dir,
                StateView::Opening { path: file },
                EventView::OpenFailed(IoErrorKind::NotFound),
            ).1,
            Status::NotFound,
        ),
{
}

/// A file that cannot be opened for any other reason than that it does not
/// exist, and a file that cannot be read, are answered with status 500.
pub proof fn lemma_other_failure_gets_500(root_dir: Seq<char>, file: Seq<char>, kind: IoErrorKind)
    ensures
        kind != IoErrorKind::NotFound ==> answers_with(
            step_spec(root_dir, StateView::Opening { path: file }, EventView::OpenFailed(kind)).1,
            Status::InternalServerError,
        ),
        answers_with(
            step_spec(root_dir, StateView::Reading { path: file }, EventView::ReadFailed(kind)).1,
            Status::InternalServerError,
        ),
{
}

/// Round trip: a file under the root, asked for by its path relative to
/// the root, is opened at the root joined with that path, and its content
/// comes back byte for byte, with its length, under status 200. The
/// relative path holds no `?`, which would start a query, and does not end
/// with `/`, which would name a directory.
pub proof fn lemma_file_round_trip(root_dir: Seq<char>, relative: Seq<char>, content: Seq<u8>)
    requires
        relative.len() > 0,
        relative.last() != '/',
        !relative.contains('?'),
    ensures
        ({
            let request = EventView::Request { path: seq!['/'] + relative };
            let (opening, open) = step_spec(root_dir, StateView::Idle, request);
            let (reading, read) = step_spec(root_dir, opening, EventView::Opened);
            let (hooking, hook) = step_spec(root_dir, reading, EventView::Read { content });
            &&& open == ActionView::Open { path: join(root_dir, relative) }
            &&& read == ActionView::Read
            &&& hook matches ActionView::Hook { response }
            &&& response.status == Status::Success
            &&& response.body == content
            &&& response.content_length == content.len()
            &&& step_spec(root_dir, hooking, EventView::HookReturned { response }).1
                == ActionView::Send { response }
        }),
{
    let path = seq!['/'] + relative;
    assert forall|j: int| 0 <= j < path.len() implies path[j] != '?' by {
        if j > 0 {
            assert(path[j] == relative[j - 1]);
            assert(relative.contains(relative[j - 1]));
        }
    }
    assert(!path.contains('?'));
    lemma_resolve_ignores_query(path, Seq::empty(), root_dir);
    assert(path.skip(1) =~= relative);
}

/// Every response of the server's own carries the length of its body, and
/// carries a content type exactly when it serves a file.
pub proof fn lemma_own_response_headers(root_dir: Seq<char>, state: StateView, event: EventView)
    ensures
        step_spec(root_dir, state, event).1 matches ActionView::Hook { response } ==> {
            &&& response.well_formed()
            &&& response.content_type is Some <==> response.status == Status::Success
        },
{
}

/// The hook sees every response before it is sent: a response is sent
/// only as the hook returned it, and the request is over then.
pub proof fn lemma_hook_precedes_send(root_dir: Seq<char>, state: StateView, event: EventView)
    ensures
        step_spec(root_dir, state, event).1 matches ActionView::Send { response } ==> {
            &&& state == StateView::Hooking
            &&& event == EventView::HookReturned { response }
            &&& step_spec(root_dir, state, event).0 == StateView::Done
        },
        step_spec(root_dir, state, event).1 is Hook <==> step_spec(root_dir, state, event).0
            == StateView::Hooking,
{
}

/// With a sound template no request fails for want of an error page:
/// every request that is not served is answered with a page.
pub proof fn lemma_valid_template_always_answers(
    root_dir: Seq<char>,
    state: StateView,
    event: EventView,
)
    ensures
        template_is_valid() ==> step_spec(root_dir, state, event).1 != ActionView::Fail(
            Error::Handlebars,
        ),
{
    if template_is_valid() {
        assert(error_page(Status::NotFound) is Some);
        assert(error_page(Status::InternalServerError) is Some);
    }
}

/// The same request gives the same response: what `step` returns depends
/// on the root directory, the state and the event alone. Any two results
/// that `step` may give for them hold the same state and the same action.
pub proof fn lemma_step_deterministic(
    config: &Config,
    state: State,
    event: Event,
    first: (State, Action),
    second: (State, Action),
)
    requires
        call_ensures(step, (config, state, event), first),
        call_ensures(step, (config, state, event), second),
    ensures
        first.0@ == second.0@,
        first.1@ == second.1@,
{
}

} // verus!
