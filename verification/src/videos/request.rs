//! The deferred request of a video lookup.
//!
//! A [`Videos`] is built with its parameters and then advanced, event by
//! event, by a driver that owns the network. The request asks for one HTTP
//! GET in its life and yields one result.

use super::error::{Diagnostic, DiagnosticView, Error, ErrorView};
use super::json::{json_text, Json};
use super::query::{
    encoded_text, lemma_encoded_part, lemma_query_written_out, VideosData, VideosDataView,
};
use super::response::{Response, ResponseView};
use super::schema::outcome;
use crate::ApiKey;
use serde_json::Error as JsonError;
use serde_urlencoded::ser::Error as QueryError;
use vstd::prelude::*;
use vstd::string::StringExecFns;

verus! {

/// Where a request stands.
#[derive(Debug, Clone, Copy, PartialEq, Eq)]
pub enum Phase {
    /// The parameters are held and nothing has been sent.
    Unstarted,
    /// The one GET has been asked for and its outcome is awaited.
    InFlight,
    /// The answer has been yielded.
    Completed,
    /// A failure has been yielded.
    Failed,
}

impl Phase {
    /// How far a request has come: 0 before the GET, 1 while it is awaited,
    /// 2 once the result has been yielded.
    pub open spec fn rank(self) -> nat {
        match self {
            Phase::Unstarted => 0,
            Phase::InFlight => 1,
            Phase::Completed | Phase::Failed => 2,
        }
    }
}

/// What happens to a request.
#[derive(Debug)]
pub enum Event {
    /// The caller asks the request to advance.
    Poll,
    /// The transport has delivered the body of the answer.
    Body(String),
    /// The transport has failed, with this message.
    Failure(String),
}

/// The mathematical value of an [`Event`].
pub ghost enum EventView {
    Poll,
    Body(Seq<char>),
    Failure(Seq<char>),
}

impl View for Event {
    type V = EventView;

    open spec fn view(&self) -> EventView {
        match self {
            Event::Poll => EventView::Poll,
            Event::Body(body) => EventView::Body(body@),
            Event::Failure(message) => EventView::Failure(message@),
        }
    }
}

/// What the driver of a request is to do next.
#[derive(Debug)]
pub enum Action {
    /// Send an HTTP GET to this URL and report its outcome.
    Get(String),
    /// Keep waiting for the outcome of the GET.
    Wait,
    /// Hand this result to the caller; the request is over.
    Yield(Result<Response, Error>),
    /// Nothing: the event has no meaning where the request stands.
    Ignore,
}

/// The mathematical value of an [`Action`].
pub ghost enum ActionView {
    Get(Seq<char>),
    Wait,
    Yield(Result<ResponseView, ErrorView>),
    Ignore,
}

impl View for Action {
    type V = ActionView;

    open spec fn view(&self) -> ActionView {
        match self {
            Action::Get(url) => ActionView::Get(url@),
            Action::Wait => ActionView::Wait,
            Action::Yield(result) => ActionView::Yield(outcome(*result)),
            Action::Ignore => ActionView::Ignore,
        }
    }
}

/// The mathematical value of a [`Videos`]: its phase, and its parameters
/// for as long as it holds them.
pub ghost struct VideosView {
    pub phase: Phase,
    pub data: Option<VideosDataView>,
}

impl VideosView {
    /// A request holds its parameters exactly until it starts, and the
    /// parts that it asks for are fixed.
    pub open spec fn wf(self) -> bool {
        &&& self.phase is Unstarted <==> self.data is Some
        &&& self.data matches Some(data) ==> data.part == VideosData::PART@
    }

    /// The request in a later phase, its parameters given up.
    pub open spec fn moved_to(self, phase: Phase) -> VideosView {
        VideosView { phase, data: None }
    }

    /// The URL of the GET that an unstarted request asks for.
    pub open spec fn url(self) -> Seq<char> {
        Videos::URL@ + "?"@ + self.data->Some_0.query()
    }
}

enum State {
    Unstarted(VideosData),
    InFlight,
    Completed,
    Failed,
}

/// The deferred request of a video lookup.
pub struct Videos {
    state: State,
}

impl View for Videos {
    type V = VideosView;

    closed spec fn view(&self) -> VideosView {
        match self.state {
            State::Unstarted(data) => VideosView { phase: Phase::Unstarted, data: Some(data@) },
            State::InFlight => VideosView { phase: Phase::InFlight, data: None },
            State::Completed => VideosView { phase: Phase::Completed, data: None },
            State::Failed => VideosView { phase: Phase::Failed, data: None },
        }
    }
}

/// What a request may do on an event: the phase it moves to and the action
/// it returns. Only the first poll of an unstarted request has two
/// outcomes, one for a query that was written and one for a query that
/// could not be.
pub open spec fn allows(
    pre: VideosView,
    event: EventView,
    post: VideosView,
    action: ActionView,
) -> bool {
    match (pre.phase, event) {
        (Phase::Unstarted, EventView::Poll) => {
            ||| post == pre.moved_to(Phase::InFlight) && action == ActionView::Get(pre.url())
            ||| post == pre.moved_to(Phase::Failed) && action == ActionView::Yield(
                Err(ErrorView::Serialization),
            )
        },
        (Phase::InFlight, EventView::Poll) => post == pre && action == ActionView::Wait,
        (Phase::InFlight, EventView::Body(body)) => {
            let result = Response::result_of(body, Response::answer(body));
            &&& post == pre.moved_to(
                if result is Ok {
                    Phase::Completed
                } else {
                    Phase::Failed
                },
            )
            &&& action == ActionView::Yield(result)
        },
        (Phase::InFlight, EventView::Failure(message)) => {
            &&& post == pre.moved_to(Phase::Failed)
            &&& action == ActionView::Yield(Err(ErrorView::Connection { string: message }))
        },
        _ => post == pre && action == ActionView::Ignore,
    }
}

impl Videos {
    /// The endpoint of the lookup.
    pub const URL: &'static str = "https://www.googleapis.com/youtube/v3/videos";

    #[verifier::type_invariant]
    spec fn inv(&self) -> bool {
        self@.wf()
    }

    /// A request for the given key, with the fixed parts and no identifier.
    #[must_use]
    pub fn new(key: ApiKey) -> (r: Videos)
        ensures
            r@.wf(),
            r@ == (VideosView {
                phase: Phase::Unstarted,
                data: Some(VideosDataView { key: key@, part: VideosData::PART@, id: None }),
            }),
    {
        Videos { state: State::Unstarted(VideosData::new(key)) }
    }

    /// Sets the identifier of the video to look up. A request that has
    /// started keeps what it was sent with.
    #[must_use]
    pub fn id(self, id: &str) -> (r: Videos)
        ensures
            r@.wf(),
            r@ == match self@.data {
                Some(data) => VideosView {
                    phase: self@.phase,
                    data: Some(VideosDataView { id: Some(id@), ..data }),
                },
                None => self@,
            },
    {
        proof {
            use_type_invariant(&self);
        }
        match self.state {
            State::Unstarted(data) => Videos { state: State::Unstarted(data.with_id(id)) },
            other => Videos { state: other },
        }
    }

    /// Where the request stands.
    pub fn phase(&self) -> (r: Phase)
        ensures
            r == self@.phase,
    {
        match self.state {
            State::Unstarted(_) => Phase::Unstarted,
            State::InFlight => Phase::InFlight,
            State::Completed => Phase::Completed,
            State::Failed => Phase::Failed,
        }
    }

    /// Starts an unstarted request with what the encoder made of its
    /// parameters: a query sends the request on its way, a failure ends it.
    /// A request that has started ignores the call.
    pub fn launch(&mut self, encoded: Result<String, QueryError>) -> (action: Action)
        ensures
            final(self)@.wf(),
            old(self)@.phase is Unstarted ==> match encoded {
                Ok(query) => {
                    &&& final(self)@ == old(self)@.moved_to(Phase::InFlight)
                    &&& action@ == ActionView::Get(Videos::URL@ + "?"@ + query@)
                },
                Err(cause) => {
                    &&& final(self)@ == old(self)@.moved_to(Phase::Failed)
                    &&& action@ == ActionView::Yield(Err(ErrorView::Serialization))
                    &&& action matches Action::Yield(Err(Error::Serialization { source }))
                        && source == cause
                },
            },
            !(old(self)@.phase is Unstarted) ==> final(self)@ == old(self)@ && action@
                == ActionView::Ignore,
    {
        proof {
            use_type_invariant(&*self);
        }
        match self.state {
            State::Unstarted(_) => match encoded {
                Ok(query) => {
                    let mut url = Videos::URL.to_owned();
                    url.append("?");
                    url.append(query.as_str());
                    self.state = State::InFlight;
                    Action::Get(url)
                },
                Err(source) => {
                    self.state = State::Failed;
                    Action::Yield(Err(Error::Serialization { source }))
                },
            },
            _ => Action::Ignore,
        }
    }

    /// Ends a request in flight with the body that arrived and what the
    /// parser made of it. A request that is not in flight ignores the call.
    pub fn settle(&mut self, body: String, parsed: Result<Json, JsonError>) -> (action: Action)
        ensures
            final(self)@.wf(),
            old(self)@.phase is InFlight ==> {
                let result = Response::result_of(
                    body@,
                    Response::read(
                        match parsed {
                            Ok(doc) => Some(doc@),
                            Err(_) => None,
                        },
                    ),
                );
                &&& final(self)@ == old(self)@.moved_to(
                    if result is Ok {
                        Phase::Completed
                    } else {
                        Phase::Failed
                    },
                )
                &&& action@ == ActionView::Yield(result)
                &&& parsed matches Err(cause) ==> action matches Action::Yield(
                    Err(Error::Deserialization { string: _, source: Diagnostic::Syntax(kept) }),
                ) && kept == cause
            },
            !(old(self)@.phase is InFlight) ==> final(self)@ == old(self)@ && action@
                == ActionView::Ignore,
    {
        proof {
            use_type_invariant(&*self);
        }
        match self.state {
            State::InFlight => {
                let result = Response::from_parsed(body, parsed);
                match result {
                    Ok(_) => {
                        self.state = State::Completed;
                    },
                    Err(_) => {
                        self.state = State::Failed;
                    },
                }
                Action::Yield(result)
            },
            _ => Action::Ignore,
        }
    }

    /// Advances the request by one event and says what the driver is to do.
    ///
    /// The first poll writes the query and asks for the GET. Later polls
    /// wait. The body or the failure of the transport ends the request with
    /// its result. Every other event is ignored.
    pub fn advance(&mut self, event: Event) -> (action: Action)
        ensures
            final(self)@.wf(),
            allows(old(self)@, event@, final(self)@, action@),
    {
        proof {
            use_type_invariant(&*self);
        }
        match event {
            Event::Poll => match &self.state {
                State::Unstarted(data) => {
                    let encoded = data.encode();
                    self.launch(encoded)
                },
                State::InFlight => Action::Wait,
                _ => Action::Ignore,
            },
            Event::Body(body) => {
                let parsed = Json::parse(body.as_str());
                self.settle(body, parsed)
            },
            Event::Failure(message) => match self.state {
                State::InFlight => {
                    self.state = State::Failed;
                    Action::Yield(Err(Error::Connection { string: message }))
                },
                _ => Action::Ignore,
            },
        }
    }
}

/// The URL that a request asks for, written out: the endpoint, the key,
/// the fixed parts with their comma encoded, and the identifier where
/// there is one.
pub proof fn lemma_url_written_out(request: VideosView)
    requires
        request.wf(),
        request.phase is Unstarted,
    ensures
        request.url() == Videos::URL@ + "?key="@ + encoded_text(request.data->Some_0.key)
            + "&part=snippet%2CcontentDetails"@ + match request.data->Some_0.id {
            Some(id) => "&id="@ + encoded_text(id),
            None => Seq::empty(),
        },
{
    let data = request.data->Some_0;
    lemma_query_written_out(data);
    lemma_encoded_part();
    reveal_strlit("?");
    reveal_strlit("key=");
    reveal_strlit("?key=");
    reveal_strlit("&part=");
    reveal_strlit("snippet%2CcontentDetails");
    reveal_strlit("&part=snippet%2CcontentDetails");
    assert("?key="@ =~= "?"@ + "key="@);
    assert("&part=snippet%2CcontentDetails"@ =~= "&part="@ + "snippet%2CcontentDetails"@);
    let tail = match data.id {
        Some(id) => "&id="@ + encoded_text(id),
        None => Seq::empty(),
    };
    assert(request.url() =~= Videos::URL@ + "?key="@ + encoded_text(data.key)
        + "&part=snippet%2CcontentDetails"@ + tail);
}

/// When the transport fails, a request in flight yields the failure to
/// connect, with the transport's message, and is over.
pub proof fn lemma_transport_failure(
    pre: VideosView,
    message: Seq<char>,
    post: VideosView,
    action: ActionView,
)
    requires
        pre.phase is InFlight,
        allows(pre, EventView::Failure(message), post, action),
    ensures
        action == ActionView::Yield(Err(ErrorView::Connection { string: message })),
        post.phase is Failed,
{
}

/// When the body that arrives is not a JSON document, a request in flight
/// yields the failure to deserialize, with the body as it came, and is
/// over.
pub proof fn lemma_malformed_body(
    pre: VideosView,
    body: Seq<char>,
    post: VideosView,
    action: ActionView,
)
    requires
        pre.phase is InFlight,
        json_text(body) is None,
        allows(pre, EventView::Body(body), post, action),
    ensures
        action == ActionView::Yield(
            Err(ErrorView::Deserialization { string: body, source: DiagnosticView::Syntax }),
        ),
        post.phase is Failed,
{
}

/// A request that is over stays as it is and ignores every event: it asks
/// for no second GET and yields no second result.
pub proof fn lemma_over_is_over(
    pre: VideosView,
    event: EventView,
    post: VideosView,
    action: ActionView,
)
    requires
        pre.phase is Completed || pre.phase is Failed,
        allows(pre, event, post, action),
    ensures
        post == pre,
        action == ActionView::Ignore,
{
}

/// A life of a request: the states it goes through, the events that
/// happen to it and the actions it answers them with.
pub open spec fn is_run(
    states: Seq<VideosView>,
    events: Seq<EventView>,
    actions: Seq<ActionView>,
) -> bool {
    &&& states.len() == events.len() + 1
    &&& actions.len() == events.len()
    &&& forall|i: int|
        0 <= i < events.len() ==> allows(states[i], #[trigger] events[i], states[i + 1], actions[i])
}

/// A request never goes back to an earlier phase.
pub proof fn lemma_phases_go_forward(
    states: Seq<VideosView>,
    events: Seq<EventView>,
    actions: Seq<ActionView>,
    i: int,
    j: int,
)
    requires
        is_run(states, events, actions),
        0 <= i <= j < states.len(),
    ensures
        states[i].phase.rank() <= states[j].phase.rank(),
    decreases j - i,
{
    if i < j {
        lemma_phases_go_forward(states, events, actions, i, j - 1);
        assert(allows(states[j - 1], events[j - 1], states[j], actions[j - 1]));
    }
}

/// In the whole life of a request there is at most one GET.
pub proof fn lemma_one_get(
    states: Seq<VideosView>,
    events: Seq<EventView>,
    actions: Seq<ActionView>,
    i: int,
    j: int,
)
    requires
        is_run(states, events, actions),
        0 <= i < j < actions.len(),
        actions[i] is Get,
    ensures
        !(actions[j] is Get),
{
    assert(allows(states[i], events[i], states[i + 1], actions[i]));
    lemma_phases_go_forward(states, events, actions, i + 1, j);
    assert(allows(states[j], events[j], states[j + 1], actions[j]));
}

/// In the whole life of a request there is at most one result, and after
/// it every event is ignored.
pub proof fn lemma_one_result(
    states: Seq<VideosView>,
    events: Seq<EventView>,
    actions: Seq<ActionView>,
    i: int,
    j: int,
)
    requires
        is_run(states, events, actions),
        0 <= i < j < actions.len(),
        actions[i] is Yield,
    ensures
        actions[j] == ActionView::Ignore,
{
    assert(allows(states[i], events[i], states[i + 1], actions[i]));
    lemma_phases_go_forward(states, events, actions, i + 1, j);
    assert(allows(states[j], events[j], states[j + 1], actions[j]));
}

} // verus!
