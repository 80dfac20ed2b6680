//! The streaming API: an authenticated client built from credentials, the
//! response envelope common to every call, and the copy-then-poll upload
//! workflow expressed as verified step functions.

use vstd::prelude::*;

verus! {

/// Building a client without both credentials set.
#[derive(Clone, Debug, PartialEq, Eq)]
pub struct BuildError;

/// The provider answered, but reported a failure.
#[derive(Clone, Debug, PartialEq, Eq)]
pub enum ProviderError {
    /// The envelope carried `success == false`; its error messages are kept.
    Rejected { errors: Vec<String> },
    /// The envelope carried `success == true` but no result payload.
    MissingResult,
}

/// Why a call against the provider failed.
#[derive(Clone, Debug, PartialEq, Eq)]
pub enum ApiError {
    /// The provider was never reached, or its answer was not a well-formed
    /// envelope: a network, TLS or deserialization failure, with the
    /// transport stack's message. Callers may choose to retry these.
    Transport { message: String },
    /// The provider answered and explicitly reported failure. Not worth
    /// retrying: the provider has rejected the request itself.
    Provider { error: ProviderError },
}

/// The uniform wrapper the provider puts around every response payload.
///
/// Invariant of the protocol: a call succeeded exactly when `success` is true
/// and `result` carries a payload; everything else is a failure.
pub struct CloudflareResponse<T> {
    pub result: Option<T>,
    pub success: bool,
    pub errors: Vec<String>,
    pub messages: Vec<String>,
}

impl<T> CloudflareResponse<T> {
    /// Assembles an envelope from its four wire fields.
    pub fn new(
        result: Option<T>,
        success: bool,
        errors: Vec<String>,
        messages: Vec<String>,
    ) -> (r: CloudflareResponse<T>)
        ensures
            r == (CloudflareResponse { result, success, errors, messages }),
    {
        CloudflareResponse { result, success, errors, messages }
    }

    /// What this envelope means: the unwrapped payload on success, and
    /// otherwise which way the provider failed.
    pub open spec fn spec_outcome(self) -> Result<T, ProviderError> {
        if !self.success {
            Err(ProviderError::Rejected { errors: self.errors })
        } else if self.result is None {
            Err(ProviderError::MissingResult)
        } else {
            Ok(self.result->0)
        }
    }

    /// Unwraps the envelope: the payload exactly when `success` is true and a
    /// result is present; `Rejected` with the envelope's error list whenever
    /// `success` is false, whatever the `result` holds; `MissingResult` when
    /// `success` is true but the payload is absent.
    pub fn into_result(self) -> (r: Result<T, ProviderError>)
        ensures
            r == self.spec_outcome(),
    {
        if !self.success {
            Err(ProviderError::Rejected { errors: self.errors })
        } else {
            match self.result {
                None => Err(ProviderError::MissingResult),
                Some(payload) => Ok(payload),
            }
        }
    }
}

/// Collects the credentials for a `Client`; `build` refuses to construct one
/// until both are set and non-empty.
pub struct ClientBuilder {
    token: Option<String>,
    account_id: Option<String>,
}

/// The API token and account identifier a `Client` authenticates with.
struct Credentials {
    token: String,
    account_id: String,
}

/// An authenticated client for the streaming API. Owns its credentials
/// exclusively; they are never handed back out.
pub struct Client {
    credentials: Credentials,
}

/// The outbound payload of a copy request: the source URL of the video and
/// its metadata.
pub struct VideoRequest {
    pub url: String,
    pub meta: VideoMeta,
}

/// Metadata attached to an uploaded video; currently only a display name.
pub struct VideoMeta {
    pub name: String,
}

/// The provider's representation of a video asset.
pub struct Video {
    /// The asset's unique identifier.
    pub uid: String,
    /// Where a preview of the asset can be watched.
    pub preview: String,
    /// Whether the asset is ready to stream; polling waits for this.
    pub ready_to_stream: bool,
}

impl Video {
    /// Assembles a video value from its three wire fields.
    pub fn new(uid: String, preview: String, ready_to_stream: bool) -> (r: Video)
        ensures
            r == (Video { uid, preview, ready_to_stream }),
    {
        Video { uid, preview, ready_to_stream }
    }
}

/// The exact value of the authorization header sent with every call: the
/// provider expects `Bearer: <token>`, with a literal colon after `Bearer`.
pub open spec fn auth_header_of(token: Seq<char>) -> Seq<char> {
    "Bearer: "@ + token
}

/// The fixed base under which every account's resources live.
pub open spec fn api_base() -> Seq<char> {
    "https://api.cloudflare.com/client/v4/accounts/"@
}

/// The endpoint that copies a remote video into the account.
pub open spec fn copy_url_of(account_id: Seq<char>) -> Seq<char> {
    api_base() + account_id + "/stream/copy"@
}

/// The endpoint at which one video asset of the account is fetched.
pub open spec fn video_url_of(account_id: Seq<char>, uid: Seq<char>) -> Seq<char> {
    api_base() + account_id + "/stream/"@ + uid
}

/// When a builder may construct a client: both credentials are set, and
/// neither is the empty string.
pub open spec fn credentials_valid(token: Option<Seq<char>>, account_id: Option<Seq<char>>) -> bool {
    &&& token matches Some(t) && t.len() > 0
    &&& account_id matches Some(a) && a.len() > 0
}

impl ClientBuilder {
    /// A builder with neither credential set.
    pub fn new() -> (r: ClientBuilder)
        ensures
            r.spec_token() is None,
            r.spec_account_id() is None,
    {
        ClientBuilder { token: None, account_id: None }
    }

    /// Sets the API token.
    pub fn token(self, token: String) -> (r: ClientBuilder)
        ensures
            r.spec_token() == Some(token@),
            r.spec_account_id() == self.spec_account_id(),
    {
        ClientBuilder { token: Some(token), ..self }
    }

    /// Sets the account identifier.
    pub fn account_id(self, account_id: String) -> (r: ClientBuilder)
        ensures
            r.spec_account_id() == Some(account_id@),
            r.spec_token() == self.spec_token(),
    {
        ClientBuilder { account_id: Some(account_id), ..self }
    }

    /// Builds the client. Succeeds exactly when both credentials were set
    /// and neither is empty; an empty or missing value is rejected here,
    /// before any network activity could take place.
    pub fn build(self) -> (r: Result<Client, BuildError>)
        ensures
            r is Ok <==> credentials_valid(self.spec_token(), self.spec_account_id()),
            r matches Ok(c) ==> Some(c.spec_token()) == self.spec_token()
                && Some(c.spec_account_id()) == self.spec_account_id(),
            r is Err ==> r == Err::<Client, BuildError>(BuildError),
    {
        match (self.token, self.account_id) {
            (Some(token), Some(account_id)) => {
                if token.as_str().unicode_len() > 0 && account_id.as_str().unicode_len() > 0 {
                    Ok(Client::new(Credentials { token, account_id }))
                } else {
                    Err(BuildError)
                }
            },
            (_, _) => Err(BuildError),
        }
    }

    /// The token set so far, if any.
    pub closed spec fn spec_token(&self) -> Option<Seq<char>> {
        match self.token {
            Some(t) => Some(t@),
            None => None,
        }
    }

    /// The account identifier set so far, if any.
    pub closed spec fn spec_account_id(&self) -> Option<Seq<char>> {
        match self.account_id {
            Some(a) => Some(a@),
            None => None,
        }
    }
}

/// An authenticated POST, ready for the transport: where to send it, the
/// authorization header to attach, and the payload to serialize as JSON.
pub struct PostRequest {
    pub url: String,
    pub authorization: String,
    pub body: VideoRequest,
}

/// An authenticated GET, ready for the transport.
pub struct GetRequest {
    pub url: String,
    pub authorization: String,
}

/// What the upload workflow keeps between polls: the identifier under which
/// the initial POST registered the video. It is recorded once and never
/// replaced while polling.
pub struct PollState {
    pub uid: String,
}

/// What the upload workflow does next, once a response has been handled.
pub enum UploadTurn {
    /// The asset reported itself ready: the workflow returns this video.
    Done { video: Video },
    /// Not ready yet: sleep one second, then fetch the asset once more.
    Poll { state: PollState },
}

/// One decision of the polling loop: the first video that reports itself
/// ready ends the workflow; any other answer keeps the state as it is.
pub open spec fn spec_turn(state: PollState, video: Video) -> UploadTurn {
    if video.ready_to_stream {
        UploadTurn::Done { video }
    } else {
        UploadTurn::Poll { state }
    }
}

/// What the transport's answer means to the workflow: a transport failure
/// aborts with `Transport`, a provider failure with `Provider`, and a
/// successful envelope yields its video payload.
pub open spec fn envelope_step(
    response: Result<CloudflareResponse<Video>, String>,
) -> Result<Video, ApiError> {
    match response {
        Err(message) => Err(ApiError::Transport { message }),
        Ok(envelope) => match envelope.spec_outcome() {
            Err(error) => Err(ApiError::Provider { error }),
            Ok(video) => Ok(video),
        },
    }
}

/// The turn the workflow takes from the initial POST's response: on success
/// the state records the returned video's own identifier.
pub open spec fn spec_upload_posted(
    response: Result<CloudflareResponse<Video>, String>,
) -> Result<UploadTurn, ApiError> {
    match envelope_step(response) {
        Err(error) => Err(error),
        Ok(video) => Ok(spec_turn(PollState { uid: video.uid }, video)),
    }
}

/// The turn the workflow takes from one poll's response: the state carried
/// into the poll is the one carried out of it, unless the asset is ready.
pub open spec fn spec_upload_polled(
    state: PollState,
    response: Result<CloudflareResponse<Video>, String>,
) -> Result<UploadTurn, ApiError> {
    match envelope_step(response) {
        Err(error) => Err(error),
        Ok(video) => Ok(spec_turn(state, video)),
    }
}

/// The turn the workflow reaches when, polling from `state`, the successful
/// GET responses deliver the payloads `videos`, in order: the turns of
/// `spec_turn`, folded until the first ready video or the end of the
/// sequence.
pub open spec fn poll_outcome(state: PollState, videos: Seq<Video>) -> UploadTurn
    decreases videos.len(),
{
    if videos.len() == 0 {
        UploadTurn::Poll { state }
    } else {
        match spec_turn(state, videos[0]) {
            UploadTurn::Done { video } => UploadTurn::Done { video },
            UploadTurn::Poll { state } => poll_outcome(state, videos.skip(1)),
        }
    }
}

/// However many polls in a row answer "not ready", the workflow's state —
/// and with it the identifier its next GET names — stays exactly the one
/// recorded from the initial POST: it is never re-derived along the way.
pub proof fn lemma_poll_keeps_identifier(state: PollState, videos: Seq<Video>)
    requires
        forall|i: int| 0 <= i < videos.len() ==> !(#[trigger] videos[i]).ready_to_stream,
    ensures
        poll_outcome(state, videos) == (UploadTurn::Poll { state }),
    decreases videos.len(),
{
    if videos.len() > 0 {
        assert forall|i: int|
            0 <= i < videos.skip(1).len() implies !(#[trigger] videos.skip(
            1,
        )[i]).ready_to_stream by {
            assert(videos.skip(1)[i] == videos[i + 1]);
        }
        lemma_poll_keeps_identifier(state, videos.skip(1));
    }
}

/// The polling loop ends at the first video that reports itself ready, and
/// ends with exactly that payload: whatever responses would come later are
/// never fetched, so they cannot change the outcome.
pub proof fn lemma_poll_stops_at_first_ready(state: PollState, videos: Seq<Video>, k: int)
    requires
        0 <= k < videos.len(),
        videos[k].ready_to_stream,
        forall|i: int| 0 <= i < k ==> !(#[trigger] videos[i]).ready_to_stream,
    ensures
        poll_outcome(state, videos) == (UploadTurn::Done { video: videos[k] }),
        poll_outcome(state, videos) == poll_outcome(state, videos.take(k + 1)),
    decreases k,
{
    if k == 0 {
        assert(videos.take(1)[0] == videos[0]);
    } else {
        assert(!videos[0].ready_to_stream);
        assert(videos.skip(1)[k - 1] == videos[k]);
        assert forall|i: int|
            0 <= i < k - 1 implies !(#[trigger] videos.skip(1)[i]).ready_to_stream by {
            assert(videos.skip(1)[i] == videos[i + 1]);
        }
        lemma_poll_stops_at_first_ready(state, videos.skip(1), k - 1);
        assert(videos.take(k + 1)[0] == videos[0]);
        assert(videos.take(k + 1).skip(1) =~= videos.skip(1).take(k));
    }
}

impl Client {
    /// Wraps the validated credentials.
    fn new(credentials: Credentials) -> (r: Client)
        ensures
            r.spec_token() == credentials.token@,
            r.spec_account_id() == credentials.account_id@,
    {
        Client { credentials }
    }

    /// The token this client authenticates with.
    pub closed spec fn spec_token(&self) -> Seq<char> {
        self.credentials.token@
    }

    /// The account every request of this client addresses.
    pub closed spec fn spec_account_id(&self) -> Seq<char> {
        self.credentials.account_id@
    }

    /// The authorization header value sent with every outbound call:
    /// exactly `Bearer: <token>`, the provider's quirky format with a
    /// literal colon after `Bearer`, preserved for compatibility.
    fn authorization(&self) -> (h: String)
        ensures
            h@ == auth_header_of(self.spec_token()),
    {
        String::from_str("Bearer: ").concat(self.credentials.token.as_str())
    }

    /// The authenticated POST that copies the remote video of `body` into
    /// this client's account.
    pub fn copy_request(&self, body: VideoRequest) -> (r: PostRequest)
        ensures
            r.url@ == copy_url_of(self.spec_account_id()),
            r.authorization@ == auth_header_of(self.spec_token()),
            r.body == body,
    {
        let mut url = String::from_str("https://api.cloudflare.com/client/v4/accounts/");
        url.append(self.credentials.account_id.as_str());
        url.append("/stream/copy");
        PostRequest { url, authorization: self.authorization(), body }
    }

    /// The authenticated GET that fetches the asset the workflow is waiting
    /// on: its URL names exactly the identifier recorded in `state`.
    pub fn poll_request(&self, state: &PollState) -> (r: GetRequest)
        ensures
            r.url@ == video_url_of(self.spec_account_id(), state.uid@),
            r.authorization@ == auth_header_of(self.spec_token()),
    {
        let mut url = String::from_str("https://api.cloudflare.com/client/v4/accounts/");
        url.append(self.credentials.account_id.as_str());
        url.append("/stream/");
        url.append(state.uid.as_str());
        GetRequest { url, authorization: self.authorization() }
    }

    /// Handles the response of the initial POST. A transport or provider
    /// failure aborts the upload at once, before any poll is issued; on
    /// success the next turn polls under the identifier the provider just
    /// returned — recorded here, once, from the POST's own payload.
    pub fn upload_posted(&self, response: Result<CloudflareResponse<Video>, String>) -> (r: Result<
        UploadTurn,
        ApiError,
    >)
        ensures
            r == spec_upload_posted(response),
            envelope_step(response) matches Ok(v) ==> (!v.ready_to_stream ==> r == Ok::<
                UploadTurn,
                ApiError,
            >(UploadTurn::Poll { state: PollState { uid: v.uid } })),
    {
        match response {
            Err(message) => Err(ApiError::Transport { message }),
            Ok(envelope) => match envelope.into_result() {
                Err(error) => Err(ApiError::Provider { error }),
                Ok(video) => {
                    if video.ready_to_stream {
                        Ok(UploadTurn::Done { video })
                    } else {
                        let Video { uid, preview: _, ready_to_stream: _ } = video;
                        Ok(UploadTurn::Poll { state: PollState { uid } })
                    }
                },
            },
        }
    }

    /// Handles the response of one poll. The first response whose video is
    /// ready ends the workflow with exactly that payload; a video not yet
    /// ready hands the state back unchanged, so every later poll still uses
    /// the identifier from the initial POST; any failure aborts.
    pub fn upload_polled(
        &self,
        state: PollState,
        response: Result<CloudflareResponse<Video>, String>,
    ) -> (r: Result<UploadTurn, ApiError>)
        ensures
            r == spec_upload_polled(state, response),
            envelope_step(response) matches Ok(v) ==> (v.ready_to_stream ==> r == Ok::<
                UploadTurn,
                ApiError,
            >(UploadTurn::Done { video: v })),
            envelope_step(response) matches Ok(v) ==> (!v.ready_to_stream ==> r == Ok::<
                UploadTurn,
                ApiError,
            >(UploadTurn::Poll { state })),
    {
        match response {
            Err(message) => Err(ApiError::Transport { message }),
            Ok(envelope) => match envelope.into_result() {
                Err(error) => Err(ApiError::Provider { error }),
                Ok(video) => {
                    if video.ready_to_stream {
                        Ok(UploadTurn::Done { video })
                    } else {
                        Ok(UploadTurn::Poll { state })
                    }
                },
            },
        }
    }
}

} // verus!
