//! The synchronous way to use the client: a call is carried out on the
//! calling thread, by a transport that returns when the response is whole.

use vstd::prelude::*;
use vstd::std_specs::convert::FromSpecImpl;

use crate::client::{response_for, Builder, ClientExecutor, Settings};
use crate::error::{
    classify_decoded,
    decoded_outcome,
    error_of_body,
    Error,
    JsonError,
    TransportError,
    UsageError,
};
use crate::language::Language;
use crate::private::Sealed;
use crate::request::{Request, RequestBuilder};
use crate::response::{
    is_success,
    transition,
    Dispatch,
    Event,
    Progress,
    ResponseFuture,
    State,
    Step,
};

verus! {

/// A response that arrived whole.
#[derive(Clone, Debug)]
pub struct HttpResponse {
    pub status: u16,
    pub body: Vec<u8>,
}

/// The synchronous api client.
#[derive(Clone, Debug)]
pub struct Client {
    inner: crate::client::Client,
}

impl View for Client {
    type V = Settings;

    closed spec fn view(&self) -> Settings {
        self.inner@
    }
}

impl Client {
    /// Creates a new `Client`: no access token, the default language.
    pub fn new() -> (r: Self)
        ensures
            r@ == (Settings { access_token: None, language: Language::En }),
    {
        Self { inner: crate::client::Client::new() }
    }

    /// Creates a new [`Builder`] for a client.
    pub fn builder() -> (r: Builder)
        ensures
            r@ == (Settings { access_token: None, language: Language::En }),
    {
        Builder::new()
    }
}

impl Default for Client {
    fn default() -> (r: Self)
        ensures
            r@ == (Settings { access_token: None, language: Language::En }),
    {
        Client::new()
    }
}

impl From<Builder> for Client {
    fn from(builder: Builder) -> (client: Client)
        ensures
            client@ == builder@,
    {
        Client { inner: crate::client::Client::from(builder) }
    }
}

impl FromSpecImpl<Builder> for Client {
    open spec fn obeys_from_spec() -> bool {
        true
    }

    closed spec fn from_spec(builder: Builder) -> Client {
        Client { inner: crate::client::Client::built(builder) }
    }
}

impl Sealed for Client {

}

/// A request that is carried out where [`Call::run`] is called.
#[must_use]
pub struct Call<T> {
    response: ResponseFuture<T>,
}

/// What a call comes to once the transport has returned `reply`: a failure
/// of the transport is the `Http` error; the body of a non-success response
/// gives the error; the body of a success response gives what `decode`
/// makes of it.
pub open spec fn completed<T, D: FnOnce(Vec<u8>) -> Result<T, JsonError>>(
    reply: Result<HttpResponse, TransportError>,
    decode: D,
    r: Result<T, Error>,
) -> bool {
    match reply {
        Err(error) => r == Err::<T, Error>(Error::Http(error)),
        Ok(response) => if is_success(response.status) {
            exists|decoded: Result<T, JsonError>|
                call_ensures(decode, (response.body,), decoded) && r == decoded_outcome(decoded)
        } else {
            r matches Err(error) && error_of_body(response.body@, error)
        },
    }
}

impl<T> Call<T> {
    #[verifier::type_invariant]
    spec fn fresh(&self) -> bool {
        match self.response.state() {
            State::AwaitingHeaders => self.response.request() is Some,
            State::Done(Some(_)) => self.response.request() is None,
            _ => false,
        }
    }

    /// The response the call drives.
    pub closed spec fn response(&self) -> ResponseFuture<T> {
        self.response
    }

    /// The request the transport is to carry out, if the call is not over
    /// already.
    pub fn dispatch(&self) -> (r: Option<&Dispatch>)
        ensures
            match r {
                Some(request) => self.response().request() == Some(*request),
                None => self.response().request() is None,
            },
    {
        self.response.dispatch()
    }

    /// Carries the call out on the calling thread.
    ///
    /// A call that was refused returns its error and `transport` is not
    /// called. Otherwise `transport` is called once, with the request, and
    /// what it returns is fed through the response: the status, then the
    /// body.
    pub fn run<X, D>(self, transport: X, decode: D) -> (r: Result<T, Error>) where
        X: FnOnce(Dispatch) -> Result<HttpResponse, TransportError>,
        D: FnOnce(Vec<u8>) -> Result<T, JsonError>,

        requires
            forall|request: Dispatch| call_requires(transport, (request,)),
            forall|body: Vec<u8>| call_requires(decode, (body,)),
        ensures
            match self.response().state() {
                State::Done(Some(result)) => r == result,
                _ => exists|request: Dispatch, reply: Result<HttpResponse, TransportError>|
                    {
                        &&& self.response().request() matches Some(asked) && asked@ == request@
                        &&& call_ensures(transport, (request,), reply)
                        &&& completed(reply, decode, r)
                    },
            },
    {
        proof {
            use_type_invariant(&self);
        }
        let mut response = self.response;
        let request = match response.dispatch() {
            Some(request) => Some(request.duplicate()),
            None => None,
        };
        match request {
            None => match response.step(Event::Pending) {
                Step::Answer(Ok(Progress::Ready(result))) => result,
                _ => {
                    proof {
                        assert(false);
                    }
                    Err(Error::NoAccessToken)
                },
            },
            Some(request) => {
                let reply = transport(request);
                match reply {
                    Err(error) => match response.step(Event::Failed(error)) {
                        Step::Answer(Ok(Progress::Ready(result))) => result,
                        _ => {
                            proof {
                                assert(false);
                            }
                            Err(Error::NoAccessToken)
                        },
                    },
                    Ok(whole) => {
                        let HttpResponse { status, body } = whole;
                        match response.step(Event::Headers(status)) {
                            Step::Answer(Ok(Progress::ReadBody)) => match response.step(
                                Event::Body(body),
                            ) {
                                Step::Answer(Ok(Progress::Ready(result))) => result,
                                Step::Decode(body) => classify_decoded(decode(body)),
                                _ => {
                                    proof {
                                        assert(false);
                                    }
                                    Err(Error::NoAccessToken)
                                },
                            },
                            _ => {
                                proof {
                                    assert(false);
                                }
                                Err(Error::NoAccessToken)
                            },
                        }
                    },
                }
            },
        }
    }
}

impl<T> ClientExecutor<T> for Client {
    type Result = Call<T>;

    open spec fn answers(&self, request: Request, result: Call<T>) -> bool {
        response_for(self@, request, result.response())
    }

    fn send(&self, request: RequestBuilder) -> (result: Call<T>) {
        let response = <crate::client::Client as ClientExecutor<T>>::send(&self.inner, request);
        Call { response }
    }
}

/// The blocking way and the polling way come to the same: what a whole
/// reply completes to is what two polls give, the first with its status
/// and the second with its body.
pub proof fn lemma_run_agrees_with_polls<T, D: FnOnce(Vec<u8>) -> Result<T, JsonError>>(
    reply: HttpResponse,
    decode: D,
    awaiting: State<T>,
    first: Result<Progress<T>, UsageError>,
    after: State<T>,
    second: Result<Progress<T>, UsageError>,
)
    requires
        transition(
            State::<T>::AwaitingHeaders,
            Event::Headers(reply.status),
            decode,
            awaiting,
            first,
        ),
        transition(awaiting, Event::Body(reply.body), decode, after, second),
    ensures
        second matches Ok(Progress::Ready(result)) && completed(Ok(reply), decode, result),
{
}

/// A call for an endpoint that requires authentication, made by a client
/// without an access token, comes to `NoAccessToken` whatever the transport
/// would do: there is nothing for it to send.
pub proof fn lemma_refused_call<T>(settings: Settings, request: Request, call: Call<T>)
    requires
        crate::client::refused(settings, request),
        response_for(settings, request, call.response()),
    ensures
        call.response().state() == State::<T>::Done(Some(Err(Error::NoAccessToken))),
        call.response().request() is None,
{
}

} // verus!
