//! The response of one request: a state machine that whoever drives the
//! transport advances with what the transport reported.

use vstd::prelude::*;

use crate::error::{
    classify_decoded,
    classify_error_body,
    decoded_outcome,
    error_of_body,
    Error,
    JsonError,
    TransportError,
    UsageError,
};

verus! {

/// The request on the wire, for whoever drives the transport: a `GET` of
/// `url` with the two headers.
#[derive(Clone, Debug)]
pub struct Dispatch {
    /// The absolute URL.
    pub url: String,
    /// The value of the `X-Schema-Version` header.
    pub schema_version: String,
    /// The value of the `Authorization` header, where one is sent.
    pub authorization: Option<String>,
}

/// What a [`Dispatch`] stands for.
pub struct DispatchView {
    pub url: Seq<char>,
    pub schema_version: Seq<char>,
    pub authorization: Option<Seq<char>>,
}

impl View for Dispatch {
    type V = DispatchView;

    open spec fn view(&self) -> DispatchView {
        DispatchView {
            url: self.url@,
            schema_version: self.schema_version@,
            authorization: match self.authorization {
                Some(value) => Some(value@),
                None => None,
            },
        }
    }
}

impl Dispatch {
    /// A copy of the request.
    pub fn duplicate(&self) -> (r: Dispatch)
        ensures
            r@ == self@,
    {
        Dispatch {
            url: self.url.clone(),
            schema_version: self.schema_version.clone(),
            authorization: match &self.authorization {
                Some(value) => Some(value.clone()),
                None => None,
            },
        }
    }
}

/// Where a response stands.
pub enum State<T> {
    /// The request is under way; status and headers have not arrived.
    AwaitingHeaders,
    /// The status has arrived and the body is being read. `is_error` holds
    /// whether the status was not a success.
    AwaitingBody { is_error: bool },
    /// The response is over. It holds its result until a poll has handed
    /// it out.
    Done(Option<Result<T, Error>>),
}

/// What the transport reported for the handle a response is waiting on.
pub enum Event {
    /// Nothing yet.
    Pending,
    /// The transport failed.
    Failed(TransportError),
    /// Status and headers arrived, with this status code.
    Headers(u16),
    /// The whole body arrived.
    Body(Vec<u8>),
}

/// What a poll tells its caller to do next.
pub enum Progress<T> {
    /// Suspend until the transport has news.
    Pending,
    /// Start reading the body and poll again at once with what that gives.
    ReadBody,
    /// The request is over, with this result.
    Ready(Result<T, Error>),
}

/// What one step of a response comes to.
pub enum Step<T> {
    /// The answer of the poll.
    Answer(Result<Progress<T>, UsageError>),
    /// The response is over and this body of a success response is still to
    /// be decoded into its result.
    Decode(Vec<u8>),
}

/// Whether an HTTP status code is in the success class.
pub open spec fn is_success(status: u16) -> bool {
    200 <= status < 300
}

/// Whether an HTTP status code is in the success class.
pub fn status_is_success(status: u16) -> (r: bool)
    ensures
        r == is_success(status),
{
    200 <= status && status < 300
}

/// How far a state is along the only path a response can take.
pub open spec fn rank<T>(state: State<T>) -> nat {
    match state {
        State::AwaitingHeaders => 0,
        State::AwaitingBody { .. } => 1,
        State::Done(Some(_)) => 2,
        State::Done(None) => 3,
    }
}

/// One step: from the state `before` and the `event` to the state `after`
/// and the outcome `step`. The body of a success response is handed back
/// undecoded; everything else is answered.
pub open spec fn stepped<T>(before: State<T>, event: Event, after: State<T>, step: Step<T>) -> bool {
    match before {
        State::Done(Some(result)) => after == State::<T>::Done(None) && step == Step::Answer(
            Ok(Progress::Ready(result)),
        ),
        State::Done(None) => after == before && step == Step::<T>::Answer(
            Err(UsageError::PolledAfterCompletion),
        ),
        State::AwaitingHeaders => match event {
            Event::Pending => after == before && step == Step::<T>::Answer(Ok(Progress::Pending)),
            Event::Failed(error) => after == State::<T>::Done(None) && step == Step::<T>::Answer(
                Ok(Progress::Ready(Err(Error::Http(error)))),
            ),
            Event::Headers(status) => after == (State::<T>::AwaitingBody {
                is_error: !is_success(status),
            }) && step == Step::<T>::Answer(Ok(Progress::ReadBody)),
            Event::Body(_) => after == before && step == Step::<T>::Answer(
                Err(UsageError::UnexpectedEvent),
            ),
        },
        State::AwaitingBody { is_error } => match event {
            Event::Pending => after == before && step == Step::<T>::Answer(Ok(Progress::Pending)),
            Event::Failed(error) => after == State::<T>::Done(None) && step == Step::<T>::Answer(
                Ok(Progress::Ready(Err(Error::Http(error)))),
            ),
            Event::Headers(_) => after == before && step == Step::<T>::Answer(
                Err(UsageError::UnexpectedEvent),
            ),
            Event::Body(body) => after == State::<T>::Done(None) && if is_error {
                step matches Step::Answer(Ok(Progress::Ready(Err(error)))) && error_of_body(
                    body@,
                    error,
                )
            } else {
                step == Step::<T>::Decode(body)
            },
        },
    }
}

/// One poll: from the state `before` and the `event`, with `decode` as the
/// decoder of success bodies, to the state `after` and the answer `r`.
/// It is one step, and the decoding of the body where the step hands one
/// back.
pub open spec fn transition<T, D: FnOnce(Vec<u8>) -> Result<T, JsonError>>(
    before: State<T>,
    event: Event,
    decode: D,
    after: State<T>,
    r: Result<Progress<T>, UsageError>,
) -> bool {
    ||| stepped(before, event, after, Step::Answer(r))
    ||| exists|body: Vec<u8>, decoded: Result<T, JsonError>|
        {
            &&& stepped(before, event, after, Step::<T>::Decode(body))
            &&& call_ensures(decode, (body,), decoded)
            &&& r == Ok::<Progress<T>, UsageError>(Progress::Ready(decoded_outcome(decoded)))
        }
}

/// The response of one request.
#[must_use]
pub struct ResponseFuture<T> {
    state: State<T>,
    request: Option<Dispatch>,
}

impl<T> ResponseFuture<T> {
    /// Where the response stands.
    pub closed spec fn state(&self) -> State<T> {
        self.state
    }

    /// The request the transport is to carry out, if there is one.
    pub closed spec fn request(&self) -> Option<Dispatch> {
        self.request
    }

    /// The response of a request that the transport is to carry out.
    pub fn new(request: Dispatch) -> (r: Self)
        ensures
            r.state() == State::<T>::AwaitingHeaders,
            r.request() == Some(request),
    {
        Self { state: State::AwaitingHeaders, request: Some(request) }
    }

    /// A response that is over before anything was sent.
    pub fn result(res: Result<T, Error>) -> (r: Self)
        ensures
            r.state() == State::<T>::Done(Some(res)),
            r.request() is None,
    {
        Self { state: State::Done(Some(res)), request: None }
    }

    /// The request the transport is to carry out, if there is one.
    pub fn dispatch(&self) -> (r: Option<&Dispatch>)
        ensures
            match r {
                Some(request) => self.request() == Some(*request),
                None => self.request() is None,
            },
    {
        self.request.as_ref()
    }

    /// Whether the response waits for status and headers.
    pub fn is_awaiting_headers(&self) -> (r: bool)
        ensures
            r == (self.state() is AwaitingHeaders),
    {
        matches!(self.state, State::AwaitingHeaders)
    }

    /// Whether the response waits for its body.
    pub fn is_awaiting_body(&self) -> (r: bool)
        ensures
            r == (self.state() is AwaitingBody),
    {
        matches!(self.state, State::AwaitingBody { .. })
    }

    /// Whether the response is over.
    pub fn is_done(&self) -> (r: bool)
        ensures
            r == (self.state() is Done),
    {
        matches!(self.state, State::Done(_))
    }

    /// Advances the response by one step, without decoding: the body of a
    /// success response is handed back as it came.
    ///
    /// `event` is what the transport reported for the handle the response
    /// waits on; a response that is over ignores it. The body of a
    /// non-success response is read as the API's error message. A step of a
    /// response that has handed out its result, or an event that the state
    /// does not wait for, is refused and changes nothing.
    pub fn step(&mut self, event: Event) -> (step: Step<T>)
        ensures
            stepped(old(self).state(), event, final(self).state(), step),
            final(self).request() == old(self).request(),
    {
        let mut state = State::Done(None);
        core::mem::swap(&mut self.state, &mut state);
        match state {
            State::Done(Some(result)) => Step::Answer(Ok(Progress::Ready(result))),
            State::Done(None) => Step::Answer(Err(UsageError::PolledAfterCompletion)),
            State::AwaitingHeaders => match event {
                Event::Pending => {
                    self.state = State::AwaitingHeaders;
                    Step::Answer(Ok(Progress::Pending))
                },
                Event::Failed(error) => Step::Answer(Ok(Progress::Ready(Err(Error::Http(error))))),
                Event::Headers(status) => {
                    self.state = State::AwaitingBody { is_error: !status_is_success(status) };
                    Step::Answer(Ok(Progress::ReadBody))
                },
                Event::Body(_) => {
                    self.state = State::AwaitingHeaders;
                    Step::Answer(Err(UsageError::UnexpectedEvent))
                },
            },
            State::AwaitingBody { is_error } => match event {
                Event::Pending => {
                    self.state = State::AwaitingBody { is_error };
                    Step::Answer(Ok(Progress::Pending))
                },
                Event::Failed(error) => Step::Answer(Ok(Progress::Ready(Err(Error::Http(error))))),
                Event::Headers(_) => {
                    self.state = State::AwaitingBody { is_error };
                    Step::Answer(Err(UsageError::UnexpectedEvent))
                },
                Event::Body(body) => {
                    if is_error {
                        Step::Answer(
                            Ok(Progress::Ready(Err(classify_error_body(body.as_slice())))),
                        )
                    } else {
                        Step::Decode(body)
                    }
                },
            },
        }
    }

    /// Advances the response by one poll: one step, and the decoding of the
    /// body where the step hands one back. `decode` turns the body of a
    /// success response into the value and is called for nothing else.
    pub fn poll<D: FnOnce(Vec<u8>) -> Result<T, JsonError>>(&mut self, event: Event, decode: D) -> (r:
        Result<Progress<T>, UsageError>)
        requires
            forall|body: Vec<u8>| call_requires(decode, (body,)),
        ensures
            transition(old(self).state(), event, decode, final(self).state(), r),
            final(self).request() == old(self).request(),
    {
        match self.step(event) {
            Step::Answer(answer) => answer,
            Step::Decode(body) => Ok(Progress::Ready(classify_decoded(decode(body)))),
        }
    }
}

/// A response only moves forward: no poll takes it back to a state it has
/// left, and a poll that hands out the result leaves it over for good.
pub proof fn lemma_poll_moves_forward<T, D: FnOnce(Vec<u8>) -> Result<T, JsonError>>(
    before: State<T>,
    event: Event,
    decode: D,
    after: State<T>,
    r: Result<Progress<T>, UsageError>,
)
    requires
        transition(before, event, decode, after, r),
    ensures
        rank(after) >= rank(before),
        r is Err ==> after == before,
        r matches Ok(Progress::Ready(_)) ==> after == State::<T>::Done(None),
        r matches Ok(Progress::Pending) ==> after == before,
        r matches Ok(Progress::ReadBody) ==> before is AwaitingHeaders && after is AwaitingBody,
{
}

/// The flag set when the status arrives decides how the body is read: after
/// a non-success status the body is never decoded as a value, and after a
/// success status it is never read as an error message.
pub proof fn lemma_error_flag_survives<T, D: FnOnce(Vec<u8>) -> Result<T, JsonError>>(
    status: u16,
    body: Vec<u8>,
    decode: D,
    awaiting: State<T>,
    first: Result<Progress<T>, UsageError>,
    after: State<T>,
    second: Result<Progress<T>, UsageError>,
)
    requires
        transition(State::<T>::AwaitingHeaders, Event::Headers(status), decode, awaiting, first),
        transition(awaiting, Event::Body(body), decode, after, second),
    ensures
        first == Ok::<Progress<T>, UsageError>(Progress::ReadBody),
        after == State::<T>::Done(None),
        !is_success(status) ==> (second matches Ok(Progress::Ready(Err(error))) && error_of_body(
            body@,
            error,
        )),
        is_success(status) ==> exists|decoded: Result<T, JsonError>|
            call_ensures(decode, (body,), decoded) && second == Ok::<Progress<T>, UsageError>(
                Progress::Ready(decoded_outcome(decoded)),
            ),
{
}

} // verus!
