//! Connection parameters of the streaming transcription session.
//!
//! The session talks to one fixed endpoint. The model and the audio format
//! travel as query parameters, the credential as a request header.

use vstd::prelude::*;

verus! {

/// Endpoint of the realtime speech-to-text service.
pub const ELEVENLABS_WSS_URL: &'static str = "wss://api.elevenlabs.io/v1/speech-to-text/realtime";

/// Query parameter that selects the model.
pub const MODEL_PARAM: &'static str = "model_id";

/// Query parameter that announces the audio format.
pub const AUDIO_FORMAT_PARAM: &'static str = "audio_format";

/// The one audio format that is streamed: 16-bit PCM at 16 kHz.
pub const AUDIO_FORMAT: &'static str = "pcm_16000";

/// Request header that carries the credential.
pub const API_KEY_HEADER: &'static str = "xi-api-key";

#[verifier::external_type_specification]
#[verifier::external_body]
pub struct ExUrlParseError(url::ParseError);

#[verifier::external_type_specification]
#[verifier::external_body]
#[verifier::reject_recursive_types(T)]
pub struct ExHttpRequest<T>(http::Request<T>);

#[verifier::external_type_specification]
#[verifier::external_body]
pub struct ExHttpError(http::Error);

/// The serialisation of the URL that `url::Url::parse_with_params` builds
/// from a base and two query pairs, or `None` where the base is no absolute
/// URL.
pub uninterp spec fn url_with_query(
    base: Seq<char>,
    first_name: Seq<char>,
    first_value: Seq<char>,
    second_name: Seq<char>,
    second_value: Seq<char>,
) -> Option<Seq<char>>;

/// Whether `http::request::Builder` accepts a URI together with one header,
/// that is, whether all three parse.
pub uninterp spec fn request_accepted(uri: Seq<char>, header: Seq<char>, value: Seq<char>) -> bool;

/// The longest base, in characters, that is handed to the URL parser.
pub const MAX_BASE_URL_CHARS: usize = 0x0100_0000;

/// Whether `base` may be handed to the URL parser together with query pairs:
/// it is of moderate length and has no fragment.
pub open spec fn base_admitted(base: Seq<char>) -> bool {
    &&& base.len() <= MAX_BASE_URL_CHARS
    &&& forall|i: int| 0 <= i < base.len() ==> base[i] != '#'
}

/// Calls `url::Url::parse_with_params` with two query pairs and takes the
/// URL's serialisation. Trusted: success and the resulting text depend on
/// the five strings alone. The parser keeps positions in 32 bits and panics
/// where it has to note one beyond that: when it opens the query of a base
/// longer than 4 GiB, and when it puts a fragment back behind a query that
/// has grown that long. The precondition rules out both.
#[verifier::external_body]
fn parse_url_with_params(base: &str, first: (&str, &str), second: (&str, &str)) -> (parsed: Result<
    String,
    url::ParseError,
>)
    requires
        base_admitted(base@),
    ensures
        match parsed {
            Ok(text) => url_with_query(base@, first.0@, first.1@, second.0@, second.1@) == Some(
                text@,
            ),
            Err(_) => url_with_query(base@, first.0@, first.1@, second.0@, second.1@) is None,
        },
{
    url::Url::parse_with_params(base, &[first, second]).map(|parsed| String::from(parsed))
}

/// Calls `http::Request::builder` with a URI, one header and an empty body.
/// Trusted: whether the builder succeeds depends on the three strings alone.
#[verifier::external_body]
fn build_request(uri: &str, header: &str, value: &str) -> (built: Result<
    http::Request<()>,
    http::Error,
>)
    ensures
        built is Ok == request_accepted(uri@, header@, value@),
{
    http::Request::builder().uri(uri).header(header, value).body(())
}

/// Why a transcription session could not be established.
#[derive(Debug, Clone, Copy, PartialEq, Eq, Structural)]
pub enum NetworkError {
    /// The endpoint with its query parameters is no valid URL.
    InvalidEndpoint,
    /// The endpoint or the credential cannot be put in a request.
    InvalidRequest,
    /// The connection attempt itself failed.
    ConnectionFailed,
}

impl NetworkError {
    /// A short description for logs and status lines.
    pub fn message(&self) -> (text: String)
        ensures
            text@ == match *self {
                NetworkError::InvalidEndpoint => "invalid endpoint URL"@,
                NetworkError::InvalidRequest => "invalid connection request"@,
                NetworkError::ConnectionFailed => "connection failed"@,
            },
    {
        match self {
            NetworkError::InvalidEndpoint => String::from_str("invalid endpoint URL"),
            NetworkError::InvalidRequest => String::from_str("invalid connection request"),
            NetworkError::ConnectionFailed => String::from_str("connection failed"),
        }
    }
}

/// Requests that the session's owner can make of a running session.
#[derive(Debug, Clone, Copy, PartialEq, Eq, Structural)]
pub enum ControlMessage {
    /// End the audio stream gracefully.
    Stop,
}

/// Credential and model for one transcription session.
pub struct ElevenLabsClient {
    api_key: String,
    model_id: String,
}

/// Mathematical model of an [`ElevenLabsClient`].
pub struct ClientModel {
    pub api_key: Seq<char>,
    pub model_id: Seq<char>,
}

impl ClientModel {
    /// The URL that the session connects to, if the parameters form one.
    pub open spec fn endpoint(self) -> Option<Seq<char>> {
        url_with_query(
            ELEVENLABS_WSS_URL@,
            MODEL_PARAM@,
            self.model_id,
            AUDIO_FORMAT_PARAM@,
            AUDIO_FORMAT@,
        )
    }

    /// The outcome of preparing the connection request: the first step that
    /// fails decides the error.
    pub open spec fn handshake(self) -> Result<(), NetworkError> {
        match self.endpoint() {
            None => Err(NetworkError::InvalidEndpoint),
            Some(endpoint) => if request_accepted(endpoint, API_KEY_HEADER@, self.api_key) {
                Ok(())
            } else {
                Err(NetworkError::InvalidRequest)
            },
        }
    }
}

impl View for ElevenLabsClient {
    type V = ClientModel;

    closed spec fn view(&self) -> ClientModel {
        ClientModel { api_key: self.api_key@, model_id: self.model_id@ }
    }
}

impl ElevenLabsClient {
    pub fn new(api_key: String, model_id: String) -> (client: ElevenLabsClient)
        ensures
            client@ == (ClientModel { api_key: api_key@, model_id: model_id@ }),
    {
        ElevenLabsClient { api_key, model_id }
    }

    pub fn api_key(&self) -> (key: &str)
        ensures
            key@ == self@.api_key,
    {
        self.api_key.as_str()
    }

    pub fn model_id(&self) -> (model: &str)
        ensures
            model@ == self@.model_id,
    {
        self.model_id.as_str()
    }

    /// The URL to connect to: the service endpoint with the model and the
    /// audio format as query parameters.
    pub fn endpoint(&self) -> (url: Result<String, NetworkError>)
        ensures
            match url {
                Ok(text) => self@.endpoint() == Some(text@),
                Err(error) => self@.endpoint() is None && error == NetworkError::InvalidEndpoint,
            },
    {
        proof {
            reveal_strlit("wss://api.elevenlabs.io/v1/speech-to-text/realtime");
        }
        match parse_url_with_params(
            ELEVENLABS_WSS_URL,
            (MODEL_PARAM, self.model_id.as_str()),
            (AUDIO_FORMAT_PARAM, AUDIO_FORMAT),
        ) {
            Ok(text) => Ok(text),
            Err(_) => Err(NetworkError::InvalidEndpoint),
        }
    }

    /// The request that opens the session: it addresses the endpoint and
    /// carries the credential in its header.
    pub fn handshake_request(&self) -> (request: Result<http::Request<()>, NetworkError>)
        ensures
            match request {
                Ok(_) => self@.handshake() is Ok,
                Err(error) => self@.handshake() == Err::<(), NetworkError>(error),
            },
    {
        match self.endpoint() {
            Ok(endpoint) => match build_request(
                endpoint.as_str(),
                API_KEY_HEADER,
                self.api_key.as_str(),
            ) {
                Ok(request) => Ok(request),
                Err(_) => Err(NetworkError::InvalidRequest),
            },
            Err(error) => Err(error),
        }
    }
}

} // verus!
