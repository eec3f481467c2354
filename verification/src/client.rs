//! The client: the access token and the language of a caller, and the one
//! operation that turns a request into a response.

use vstd::prelude::*;
use vstd::std_specs::convert::FromSpecImpl;
use vstd::string::StringExecFns;

use crate::error::Error;
use crate::language::Language;
use crate::private::Sealed;
use crate::request::{Authentication, Request, RequestBuilder};
use crate::response::{Dispatch, DispatchView, ResponseFuture, State};
use crate::uri::{localize, with_language};

verus! {

/// Scheme and host of every request.
pub const HOST: &'static str = "https://api.guildwars2.com";

/// The version of the API's schema that every request asks for.
pub const SCHEMA_VERSION: &'static str = "2022-03-23T19:00:00.000Z";

/// What a [`Client`] or a [`Builder`] stands for.
pub struct Settings {
    pub access_token: Option<Seq<char>>,
    pub language: Language,
}

/// Collects the settings of a client.
#[derive(Clone, Debug)]
pub struct Builder {
    access_token: Option<String>,
    language: Language,
}

impl View for Builder {
    type V = Settings;

    closed spec fn view(&self) -> Settings {
        Settings {
            access_token: match self.access_token {
                Some(token) => Some(token@),
                None => None,
            },
            language: self.language,
        }
    }
}

impl Builder {
    /// Creates a new `Builder`: no access token, the default language.
    pub fn new() -> (r: Self)
        ensures
            r@ == (Settings { access_token: None, language: Language::En }),
    {
        Self { access_token: None, language: Language::En }
    }

    /// Sets the access token.
    pub fn access_token(self, access_token: &str) -> (r: Self)
        ensures
            r@ == (Settings { access_token: Some(access_token@), ..self@ }),
    {
        let mut this = self;
        this.access_token = Some(String::from_str(access_token));
        this
    }

    /// Sets the prefered [`Language`] for this `Client`.
    pub fn language(self, language: Language) -> (r: Self)
        ensures
            r@ == (Settings { language, ..self@ }),
    {
        let mut this = self;
        this.language = language;
        this
    }
}

impl Default for Builder {
    fn default() -> (r: Self)
        ensures
            r@ == (Settings { access_token: None, language: Language::En }),
    {
        Builder::new()
    }
}

/// The Client for making requests.
#[derive(Clone, Debug)]
pub struct Client {
    access_token: Option<String>,
    language: Language,
}

impl View for Client {
    type V = Settings;

    closed spec fn view(&self) -> Settings {
        Settings {
            access_token: match self.access_token {
                Some(token) => Some(token@),
                None => None,
            },
            language: self.language,
        }
    }
}

impl Client {
    /// Creates a new `Client`: no access token, the default language.
    pub fn new() -> (r: Self)
        ensures
            r@ == (Settings { access_token: None, language: Language::En }),
    {
        Self { access_token: None, language: Language::En }
    }

    /// The client with the settings that `builder` has collected.
    pub closed spec fn built(builder: Builder) -> Client {
        Client { access_token: builder.access_token, language: builder.language }
    }

    /// Creates a new [`Builder`] for a client.
    pub fn builder() -> (r: Builder)
        ensures
            r@ == (Settings { access_token: None, language: Language::En }),
    {
        Builder::new()
    }

    /// The language the client asks for.
    pub fn language(&self) -> (r: Language)
        ensures
            r == self@.language,
    {
        self.language
    }

    /// Whether an access token is set.
    pub fn has_access_token(&self) -> (r: bool)
        ensures
            r == (self@.access_token is Some),
    {
        self.access_token.is_some()
    }
}

impl Default for Client {
    fn default() -> (r: Self)
        ensures
            r@ == (Settings { access_token: None, language: Language::En }),
    {
        Client::new()
    }
}

impl From<Builder> for Client {
    fn from(builder: Builder) -> (client: Client)
        ensures
            client@ == builder@,
    {
        Client { access_token: builder.access_token, language: builder.language }
    }
}

impl FromSpecImpl<Builder> for Client {
    open spec fn obeys_from_spec() -> bool {
        true
    }

    open spec fn from_spec(builder: Builder) -> Client {
        Client::built(builder)
    }
}

/// Whether a request is refused before anything is sent: the endpoint
/// requires the access token and none is set.
pub open spec fn refused(settings: Settings, request: Request) -> bool {
    request.authentication == Authentication::Required && settings.access_token is None
}

/// The request on the wire for `request` as a client with `settings`
/// sends it.
pub open spec fn dispatch_for(settings: Settings, request: Request) -> DispatchView {
    DispatchView {
        url: HOST@ + with_language(request.uri, request.localized, settings.language),
        schema_version: SCHEMA_VERSION@,
        authorization: match settings.access_token {
            Some(token) => if request.authentication == Authentication::Public {
                None
            } else {
                Some("Bearer "@ + token)
            },
            None => None,
        },
    }
}

/// A client used to make requests to the API.
///
/// This trait is sealed and cannot be implemented.
pub trait ClientExecutor<T>: Sealed {
    /// The return type of this client.
    type Result;

    /// Whether `result` is what the client returns for `request`.
    spec fn answers(&self, request: Request, result: Self::Result) -> bool;

    /// Sends a requests returning the client's return type.
    fn send(&self, request: RequestBuilder) -> (result: Self::Result)
        ensures
            self.answers(request@, result),
    ;
}

impl Sealed for Client {

}

/// Whether `response` is the response a client with `settings` starts for
/// `request`: over at once with `NoAccessToken` where the request is
/// refused, else waiting for the headers of the request on the wire.
pub open spec fn response_for<T>(
    settings: Settings,
    request: Request,
    response: ResponseFuture<T>,
) -> bool {
    if refused(settings, request) {
        &&& response.state() == State::<T>::Done(Some(Err(Error::NoAccessToken)))
        &&& response.request() is None
    } else {
        &&& response.state() == State::<T>::AwaitingHeaders
        &&& response.request() matches Some(dispatch)
        &&& dispatch@ == dispatch_for(settings, request)
    }
}

impl<T> ClientExecutor<T> for Client {
    type Result = ResponseFuture<T>;

    open spec fn answers(&self, request: Request, result: ResponseFuture<T>) -> bool {
        response_for(self@, request, result)
    }

    fn send(&self, request: RequestBuilder) -> (result: ResponseFuture<T>) {
        let authorization = match &self.access_token {
            Some(token) => {
                if request.authentication().is_none() {
                    None
                } else {
                    let mut value = String::from_str("Bearer ");
                    value.append(token.as_str());
                    Some(value)
                }
            },
            None => {
                if request.authentication().is_required() {
                    return ResponseFuture::result(Err(Error::NoAccessToken));
                }
                None
            },
        };
        let path = localize(request.uri(), request.is_localized(), self.language);
        let mut url = String::from_str(HOST);
        url.append(path.as_str());
        ResponseFuture::new(
            Dispatch { url, schema_version: String::from_str(SCHEMA_VERSION), authorization },
        )
    }
}

/// Sending the same request twice from the same client asks for the same
/// URL with the same headers, or is refused both times.
pub proof fn lemma_send_deterministic<T>(
    settings: Settings,
    request: Request,
    first: ResponseFuture<T>,
    second: ResponseFuture<T>,
)
    requires
        response_for(settings, request, first),
        response_for(settings, request, second),
    ensures
        first.state() == second.state(),
        first.request() is Some <==> second.request() is Some,
        first.request() matches Some(a) ==> (second.request() matches Some(b) && a@ == b@),
{
}

/// A request for an endpoint that requires authentication, sent by a client
/// without an access token, is over at once with `NoAccessToken` and leaves
/// the transport nothing to send.
pub proof fn lemma_no_access_token<T>(settings: Settings, request: Request, response: ResponseFuture<T>)
    requires
        request.authentication == Authentication::Required,
        settings.access_token is None,
        response_for(settings, request, response),
    ensures
        response.state() == State::<T>::Done(Some(Err(Error::NoAccessToken))),
        response.request() is None,
{
}

} // verus!
