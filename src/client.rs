//! The client's configuration and the decisions it takes around each
//! request: whether to sign, what to sign, which headers to attach, and how
//! to read the status of a response.

use crate::error::Error;
use crate::instruction::{instruction_for, resolve_instruction, Method};
use crate::keys::{base64_text, ed25519_public_key, ed25519_signature, base64_decoded, KeyPair, SECRET_KEY_LENGTH};
use crate::query::{entries_of_pairs, Entry, QueryMap};
use crate::signee::{build_signee, request_signee, JsonBody, PAYLOAD_NOT_OBJECT};
use vstd::prelude::*;

verus! {

/// The official base URL of the REST API.
pub const BACKPACK_API_BASE_URL: &'static str = "https://api.backpack.exchange";

/// The official URL of the streaming API.
pub const BACKPACK_WS_URL: &'static str = "wss://ws.backpack.exchange";

/// How long a signature stays valid, in milliseconds.
pub const DEFAULT_WINDOW: u32 = 5000;

/// The request timeout, in seconds, where none is configured.
pub const DEFAULT_TIMEOUT_SECS: u64 = 30;

pub const API_USER_AGENT: &'static str = "bpx-rust-client";
pub const API_KEY_HEADER: &'static str = "X-API-Key";
pub const SIGNATURE_HEADER: &'static str = "X-Signature";
pub const TIMESTAMP_HEADER: &'static str = "X-Timestamp";
pub const WINDOW_HEADER: &'static str = "X-Window";
pub const CONTENT_TYPE_HEADER: &'static str = "Content-Type";
pub const JSON_CONTENT: &'static str = "application/json; charset=utf-8";

/// The normalised text of a URL, or `None` where the text is not a valid
/// absolute URL.
pub uninterp spec fn parsed_url(s: Seq<char>) -> Option<Seq<char>>;

/// Relies on url's `Url::parse`: the parsed URL's text, or the parser's
/// error as text.
#[verifier::external_body]
fn parse_url(s: &str) -> (r: Result<String, String>)
    ensures
        match parsed_url(s@) {
            Some(u) => r is Ok && r->Ok_0@ == u,
            None => r is Err,
        },
{
    url::Url::parse(s).map(|u| u.to_string()).map_err(|e| e.to_string())
}

/// Relies on std's `SystemTime::now`: milliseconds since the Unix epoch, or 0
/// for a clock set before it. Nothing is promised of the value.
#[verifier::external_body]
pub(crate) fn now_millis() -> (r: u64) {
    std::time::SystemTime::now().duration_since(std::time::UNIX_EPOCH).map(|d| d.as_millis() as u64).unwrap_or(0)
}

/// The views of a list of string pairs.
pub open spec fn pairs_view(pairs: Seq<(String, String)>) -> Seq<Entry> {
    pairs.map_values(|e: (String, String)| (e.0@, e.1@))
}

/// The given URL, or the default.
pub open spec fn url_or(given: Option<String>, default: Seq<char>) -> Seq<char> {
    match given {
        Some(u) => u@,
        None => default,
    }
}

/// Settings from which a client is built.
pub struct BpxClientBuilder {
    pub base_url: Option<String>,
    pub ws_url: Option<String>,
    pub secret: Option<String>,
    pub headers: Option<Vec<(String, String)>>,
    pub timeout: Option<u64>,
}

impl BpxClientBuilder {
    /// A builder with nothing set.
    pub fn new() -> (r: BpxClientBuilder)
        ensures
            r.base_url is None,
            r.ws_url is None,
            r.secret is None,
            r.headers is None,
            r.timeout is None,
    {
        BpxClientBuilder { base_url: None, ws_url: None, secret: None, headers: None, timeout: None }
    }

    /// Sets the REST base URL; without it the official one is used.
    pub fn base_url(self, base_url: &str) -> (r: BpxClientBuilder)
        ensures
            r.base_url matches Some(u) && u@ == base_url@,
            r.ws_url == self.ws_url,
            r.secret == self.secret,
            r.headers == self.headers,
            r.timeout == self.timeout,
    {
        BpxClientBuilder { base_url: Some(String::from_str(base_url)), ..self }
    }

    /// Sets the streaming URL; without it the official one is used.
    pub fn ws_url(self, ws_url: &str) -> (r: BpxClientBuilder)
        ensures
            r.ws_url matches Some(u) && u@ == ws_url@,
            r.base_url == self.base_url,
            r.secret == self.secret,
            r.headers == self.headers,
            r.timeout == self.timeout,
    {
        BpxClientBuilder { ws_url: Some(String::from_str(ws_url)), ..self }
    }

    /// Sets the base64 secret; without it the client cannot sign.
    pub fn secret(self, secret: &str) -> (r: BpxClientBuilder)
        ensures
            r.secret matches Some(s) && s@ == secret@,
            r.base_url == self.base_url,
            r.ws_url == self.ws_url,
            r.headers == self.headers,
            r.timeout == self.timeout,
    {
        BpxClientBuilder { secret: Some(String::from_str(secret)), ..self }
    }

    /// Sets extra headers sent with every request, as name and value.
    pub fn headers(self, headers: Vec<(String, String)>) -> (r: BpxClientBuilder)
        ensures
            r.headers == Some(headers),
            r.base_url == self.base_url,
            r.ws_url == self.ws_url,
            r.secret == self.secret,
            r.timeout == self.timeout,
    {
        BpxClientBuilder { headers: Some(headers), ..self }
    }

    /// Sets the request timeout in seconds; without it 30 s apply.
    pub fn timeout(self, timeout: u64) -> (r: BpxClientBuilder)
        ensures
            r.timeout == Some(timeout),
            r.base_url == self.base_url,
            r.ws_url == self.ws_url,
            r.secret == self.secret,
            r.headers == self.headers,
    {
        BpxClientBuilder { timeout: Some(timeout), ..self }
    }

    /// Builds the client. Fails with `UrlParseError` where the base or the
    /// streaming URL is invalid, then with `Base64Decode` or `SecretKey`
    /// where the secret does not decode to a 32-byte key.
    pub fn build(self) -> (r: Result<BpxClient, Error>)
        ensures
            match parsed_url(url_or(self.base_url, BACKPACK_API_BASE_URL@)) {
                None => r matches Err(Error::UrlParseError(_)),
                Some(base) => match parsed_url(url_or(self.ws_url, BACKPACK_WS_URL@)) {
                    None => r matches Err(Error::UrlParseError(_)),
                    Some(ws) => match self.secret {
                        None => r matches Ok(c) && c.spec_base_url() == base && c.spec_ws_url() == ws
                            && c.key_seed() is None,
                        Some(s) => match base64_decoded(s@) {
                            None => r matches Err(Error::Base64Decode(_)),
                            Some(b) => if b.len() == SECRET_KEY_LENGTH {
                                r matches Ok(c) && c.spec_base_url() == base && c.spec_ws_url() == ws
                                    && c.key_seed() == Some(b)
                            } else {
                                r matches Err(Error::SecretKey)
                            },
                        },
                    },
                },
            },
            r is Ok ==> r->Ok_0.spec_timeout_secs() == match self.timeout {
                Some(t) => t,
                None => DEFAULT_TIMEOUT_SECS,
            },
            r is Ok ==> r->Ok_0.spec_headers() == match self.headers {
                Some(h) => h@,
                None => Seq::empty(),
            },
    {
        let base = match self.base_url {
            Some(u) => u,
            None => String::from_str(BACKPACK_API_BASE_URL),
        };
        let base_url = match parse_url(base.as_str()) {
            Ok(u) => u,
            Err(message) => return Err(Error::UrlParseError(message)),
        };
        let ws = match self.ws_url {
            Some(u) => u,
            None => String::from_str(BACKPACK_WS_URL),
        };
        let ws_url = match parse_url(ws.as_str()) {
            Ok(u) => u,
            Err(message) => return Err(Error::UrlParseError(message)),
        };
        let key = match self.secret {
            Some(s) => match KeyPair::from_secret(s.as_str()) {
                Ok(k) => Some(k),
                Err(e) => return Err(e),
            },
            None => None,
        };
        let headers = match self.headers {
            Some(h) => h,
            None => Vec::new(),
        };
        let timeout_secs = match self.timeout {
            Some(t) => t,
            None => DEFAULT_TIMEOUT_SECS,
        };
        Ok(BpxClient { key, base_url, ws_url, headers, timeout_secs })
    }
}

/// A configured client: its URLs, its extra headers, its timeout, and the
/// key pair if it was given a secret. Only the verifying key is ever handed
/// out.
pub struct BpxClient {
    key: Option<KeyPair>,
    base_url: String,
    ws_url: String,
    headers: Vec<(String, String)>,
    timeout_secs: u64,
}

/// The headers that a signed request carries besides its defaults.
pub struct SignatureHeaders {
    /// The base64 Ed25519 signature of the signee.
    pub signature: String,
    /// Milliseconds since the Unix epoch, as signed.
    pub timestamp: u64,
    /// Validity of the signature in milliseconds, as signed.
    pub window: u32,
    /// Whether the request also declares a JSON body: a POST, PATCH or
    /// DELETE that has one.
    pub json_content_type: bool,
}

/// What to do with a request before it is sent.
pub enum RequestPlan {
    /// Send it as it is: the endpoint needs no signature.
    Unsigned,
    /// Attach these headers.
    Signed(SignatureHeaders),
}

/// Whether `h` is what a request with `method`, signed at `timestamp` with
/// `seed` over `signee`, carries.
pub open spec fn headers_for(
    h: SignatureHeaders,
    seed: Seq<u8>,
    signee: Seq<char>,
    method: Method,
    has_body: bool,
    timestamp: u64,
) -> bool {
    &&& h.signature@ == base64_text(ed25519_signature(seed, vstd::utf8::encode_utf8(signee)))
    &&& h.timestamp == timestamp
    &&& h.window == DEFAULT_WINDOW
    &&& h.json_content_type == (has_body && (method == Method::Post || method == Method::Patch || method
        == Method::Delete))
}

/// What preparing a request must give: unsigned where the table has no
/// instruction; `NotAuthenticated` where it has one and there is no key;
/// `InvalidRequest` where the body cannot be signed; else the signature
/// headers over the signee at `timestamp`.
pub open spec fn plan_for(
    seed: Option<Seq<u8>>,
    method: Method,
    path: Seq<char>,
    query: Seq<Entry>,
    payload: Option<JsonBody>,
    timestamp: u64,
    r: Result<RequestPlan, Error>,
) -> bool {
    match instruction_for(method, path) {
        None => r matches Ok(RequestPlan::Unsigned),
        Some(instruction) => match seed {
            None => r matches Err(Error::NotAuthenticated),
            Some(sd) => match request_signee(
                instruction,
                entries_of_pairs(query),
                payload,
                timestamp as nat,
                DEFAULT_WINDOW as nat,
            ) {
                None => r matches Err(Error::InvalidRequest(m)) && m@ == PAYLOAD_NOT_OBJECT@,
                Some(signee) => r matches Ok(RequestPlan::Signed(h)) && headers_for(
                    h,
                    sd,
                    signee,
                    method,
                    payload is Some,
                    timestamp,
                ),
            },
        },
    }
}

/// The body, seen as a value.
pub open spec fn body_of(payload: Option<&JsonBody>) -> Option<JsonBody> {
    match payload {
        Some(b) => Some(*b),
        None => None,
    }
}

impl BpxClient {
    /// The secret seed, where the client holds a key; for contracts only.
    pub closed spec fn key_seed(&self) -> Option<Seq<u8>> {
        match self.key {
            Some(k) => Some(k.seed_bytes()),
            None => None,
        }
    }

    /// The REST base URL, as text.
    pub closed spec fn spec_base_url(&self) -> Seq<char> {
        self.base_url@
    }

    /// The streaming URL, as text.
    pub closed spec fn spec_ws_url(&self) -> Seq<char> {
        self.ws_url@
    }

    /// The extra headers, as name and value.
    pub closed spec fn spec_headers(&self) -> Seq<(String, String)> {
        self.headers@
    }

    /// The request timeout in seconds.
    pub closed spec fn spec_timeout_secs(&self) -> u64 {
        self.timeout_secs
    }

    /// The REST base URL.
    pub fn base_url(&self) -> (r: &str)
        ensures
            r@ == self.spec_base_url(),
    {
        self.base_url.as_str()
    }

    /// The streaming URL.
    pub fn ws_url(&self) -> (r: &str)
        ensures
            r@ == self.spec_ws_url(),
    {
        self.ws_url.as_str()
    }

    /// The extra headers, as name and value.
    pub fn headers(&self) -> (r: &Vec<(String, String)>)
        ensures
            r@ == self.spec_headers(),
    {
        &self.headers
    }

    /// The request timeout in seconds.
    pub fn timeout_secs(&self) -> (r: u64)
        ensures
            r == self.spec_timeout_secs(),
    {
        self.timeout_secs
    }

    /// The key pair, where the client holds one.
    pub(crate) fn key_pair(&self) -> (r: Option<&KeyPair>)
        ensures
            match r {
                Some(k) => self.key_seed() == Some(k.seed_bytes()),
                None => self.key_seed() is None,
            },
    {
        match &self.key {
            Some(k) => Some(k),
            None => None,
        }
    }

    /// A builder with nothing set.
    pub fn builder() -> (r: BpxClientBuilder)
        ensures
            r.base_url is None,
            r.ws_url is None,
            r.secret is None,
            r.headers is None,
            r.timeout is None,
    {
        BpxClientBuilder::new()
    }

    /// A client for `base_url` with a secret and extra headers.
    pub fn init(base_url: &str, secret: &str, headers: Option<Vec<(String, String)>>) -> (r: Result<BpxClient, Error>)
        ensures
            match parsed_url(base_url@) {
                None => r matches Err(Error::UrlParseError(_)),
                Some(base) => match parsed_url(BACKPACK_WS_URL@) {
                    None => r matches Err(Error::UrlParseError(_)),
                    Some(ws) => match base64_decoded(secret@) {
                        None => r matches Err(Error::Base64Decode(_)),
                        Some(b) => if b.len() == SECRET_KEY_LENGTH {
                            r matches Ok(c) && c.spec_base_url() == base && c.spec_ws_url() == ws
                                && c.key_seed() == Some(b)
                        } else {
                            r matches Err(Error::SecretKey)
                        },
                    },
                },
            },
            r is Ok ==> r->Ok_0.spec_timeout_secs() == DEFAULT_TIMEOUT_SECS,
            r is Ok ==> r->Ok_0.spec_headers() == match headers {
                Some(h) => h@,
                None => Seq::empty(),
            },
    {
        let h = match headers {
            Some(h) => h,
            None => Vec::new(),
        };
        BpxClientBuilder::new().base_url(base_url).secret(secret).headers(h).build()
    }

    /// A client for `base_url` and the streaming URL `ws_url`, with a secret
    /// and extra headers.
    pub fn init_with_ws(base_url: &str, ws_url: &str, secret: &str, headers: Option<Vec<(String, String)>>) -> (r:
        Result<BpxClient, Error>)
        ensures
            match parsed_url(base_url@) {
                None => r matches Err(Error::UrlParseError(_)),
                Some(base) => match parsed_url(ws_url@) {
                    None => r matches Err(Error::UrlParseError(_)),
                    Some(ws) => match base64_decoded(secret@) {
                        None => r matches Err(Error::Base64Decode(_)),
                        Some(b) => if b.len() == SECRET_KEY_LENGTH {
                            r matches Ok(c) && c.spec_base_url() == base && c.spec_ws_url() == ws
                                && c.key_seed() == Some(b)
                        } else {
                            r matches Err(Error::SecretKey)
                        },
                    },
                },
            },
            r is Ok ==> r->Ok_0.spec_timeout_secs() == DEFAULT_TIMEOUT_SECS,
            r is Ok ==> r->Ok_0.spec_headers() == match headers {
                Some(h) => h@,
                None => Seq::empty(),
            },
    {
        let h = match headers {
            Some(h) => h,
            None => Vec::new(),
        };
        BpxClientBuilder::new().base_url(base_url).ws_url(ws_url).secret(secret).headers(h).build()
    }

    /// The verifying key, where the client was given a secret.
    pub fn verifying_key(&self) -> (r: Option<[u8; 32]>)
        ensures
            match self.key_seed() {
                Some(sd) => r matches Some(vk) && vk@ == ed25519_public_key(sd),
                None => r is None,
            },
    {
        match &self.key {
            Some(k) => Some(k.verifying_key()),
            None => None,
        }
    }

    /// The default headers of every request: the extra headers, then the
    /// base64 verifying key where there is one. A later pair replaces an
    /// earlier one of the same name.
    pub fn default_headers(&self) -> (r: Vec<(String, String)>)
        ensures
            pairs_view(r@) == pairs_view(self.spec_headers()) + match self.key_seed() {
                Some(sd) => seq![(API_KEY_HEADER@, base64_text(ed25519_public_key(sd)))],
                None => Seq::<Entry>::empty(),
            },
    {
        let mut r: Vec<(String, String)> = Vec::new();
        let n = self.headers.len();
        let mut i: usize = 0;
        while i < n
            invariant
                n == self.headers@.len(),
                i <= n,
                r@ == self.headers@.subrange(0, i as int),
            decreases n - i,
        {
            let name = self.headers[i].0.clone();
            let value = self.headers[i].1.clone();
            r.push((name, value));
            assert(r@ =~= self.headers@.subrange(0, i + 1));
            i = i + 1;
        }
        assert(self.headers@.subrange(0, n as int) =~= self.headers@);
        let ghost extra = r@;
        match &self.key {
            Some(k) => {
                r.push((String::from_str(API_KEY_HEADER), k.verifying_key_base64()));
            },
            None => {},
        }
        assert(pairs_view(r@) =~= pairs_view(extra) + match self.key_seed() {
            Some(sd) => seq![(API_KEY_HEADER@, base64_text(ed25519_public_key(sd)))],
            None => Seq::<Entry>::empty(),
        });
        r
    }

    /// Decides how to send a request of `method` to `path` with the decoded
    /// query pairs (in URL order) and optional body, signing at `timestamp`.
    pub fn sign_request_at(
        &self,
        method: Method,
        path: &str,
        query_pairs: &Vec<(String, String)>,
        payload: Option<&JsonBody>,
        timestamp: u64,
    ) -> (r: Result<RequestPlan, Error>)
        ensures
            plan_for(self.key_seed(), method, path@, pairs_view(query_pairs@), body_of(payload), timestamp, r),
    {
        let instruction = match resolve_instruction(method, path) {
            Some(i) => i,
            None => return Ok(RequestPlan::Unsigned),
        };
        let key = match &self.key {
            Some(k) => k,
            None => return Err(Error::NotAuthenticated),
        };
        let query = QueryMap::from_pairs(query_pairs);
        let signee = match build_signee(instruction, &query, payload, timestamp, DEFAULT_WINDOW) {
            Ok(s) => s,
            Err(e) => return Err(e),
        };
        let signature = key.sign_base64(signee.as_str());
        let has_body = payload.is_some();
        let json_content_type = has_body && (method == Method::Post || method == Method::Patch || method
            == Method::Delete);
        Ok(RequestPlan::Signed(SignatureHeaders { signature, timestamp, window: DEFAULT_WINDOW, json_content_type }))
    }

    /// Decides how to send a request, signing it with the current time.
    pub fn build_and_maybe_sign_request(
        &self,
        method: Method,
        path: &str,
        query_pairs: &Vec<(String, String)>,
        payload: Option<&JsonBody>,
    ) -> (r: Result<RequestPlan, Error>)
        ensures
            exists|t: u64| plan_for(self.key_seed(), method, path@, pairs_view(query_pairs@), body_of(payload), t, r),
    {
        let timestamp = now_millis();
        self.sign_request_at(method, path, query_pairs, payload, timestamp)
    }

    /// Turns a response status into a result: the body text for a 2xx
    /// status, else an API error carrying the status and the body verbatim.
    pub fn process_response(status_code: u16, body: String) -> (r: Result<String, Error>)
        ensures
            200 <= status_code < 300 ==> r == Ok::<String, Error>(body),
            !(200 <= status_code < 300) ==> (r matches Err(Error::BpxApiError { status_code: s, message: m })
                && s == status_code && m == body),
    {
        if 200 <= status_code && status_code < 300 {
            Ok(body)
        } else {
            Err(Error::BpxApiError { status_code, message: body })
        }
    }
}

/// Two plans agree: both unsigned, both the same error with the same text,
/// or both signed with the same header values.
pub open spec fn same_plan(r1: Result<RequestPlan, Error>, r2: Result<RequestPlan, Error>) -> bool {
    match (r1, r2) {
        (Ok(RequestPlan::Unsigned), Ok(RequestPlan::Unsigned)) => true,
        (Ok(RequestPlan::Signed(h1)), Ok(RequestPlan::Signed(h2))) => {
            &&& h1.signature@ == h2.signature@
            &&& h1.timestamp == h2.timestamp
            &&& h1.window == h2.window
            &&& h1.json_content_type == h2.json_content_type
        },
        (Err(Error::NotAuthenticated), Err(Error::NotAuthenticated)) => true,
        (Err(Error::InvalidRequest(m1)), Err(Error::InvalidRequest(m2))) => m1@ == m2@,
        _ => false,
    }
}

/// Preparing the same request twice at the same timestamp gives the same
/// outcome: the same signature, timestamp and window headers, or the same
/// error with the same text.
pub proof fn law_request_deterministic(
    seed: Option<Seq<u8>>,
    method: Method,
    path: Seq<char>,
    query: Seq<Entry>,
    payload: Option<JsonBody>,
    timestamp: u64,
    r1: Result<RequestPlan, Error>,
    r2: Result<RequestPlan, Error>,
)
    requires
        plan_for(seed, method, path, query, payload, timestamp, r1),
        plan_for(seed, method, path, query, payload, timestamp, r2),
    ensures
        same_plan(r1, r2),
{
}

/// With a key, a path that the table maps and a body that can be signed,
/// preparing the request twice at the same timestamp signs it both times,
/// with identical signature, timestamp and window headers.
pub proof fn law_signed_request_deterministic(
    seed: Seq<u8>,
    method: Method,
    path: Seq<char>,
    query: Seq<Entry>,
    payload: Option<JsonBody>,
    timestamp: u64,
    r1: Result<RequestPlan, Error>,
    r2: Result<RequestPlan, Error>,
)
    requires
        plan_for(Some(seed), method, path, query, payload, timestamp, r1),
        plan_for(Some(seed), method, path, query, payload, timestamp, r2),
        instruction_for(method, path) is Some,
        request_signee(
            instruction_for(method, path)->0,
            entries_of_pairs(query),
            payload,
            timestamp as nat,
            DEFAULT_WINDOW as nat,
        ) is Some,
    ensures
        r1 matches Ok(RequestPlan::Signed(h1)) && r2 matches Ok(RequestPlan::Signed(h2)) && h1.signature@
            == h2.signature@ && h1.timestamp == timestamp && h2.timestamp == timestamp && h1.window
            == DEFAULT_WINDOW && h2.window == DEFAULT_WINDOW,
{
}

/// A client without a key refuses every endpoint that the table resolves to
/// an instruction, with `NotAuthenticated`, before anything is sent.
pub proof fn law_unauthenticated_refused(
    method: Method,
    path: Seq<char>,
    query: Seq<Entry>,
    payload: Option<JsonBody>,
    timestamp: u64,
    r: Result<RequestPlan, Error>,
)
    requires
        plan_for(None, method, path, query, payload, timestamp, r),
        instruction_for(method, path) is Some,
    ensures
        r matches Err(Error::NotAuthenticated),
{
}

/// A (method, path) pair absent from the table is sent without any signature
/// headers, whether or not the client holds a key.
pub proof fn law_unmapped_unsigned(
    seed: Option<Seq<u8>>,
    method: Method,
    path: Seq<char>,
    query: Seq<Entry>,
    payload: Option<JsonBody>,
    timestamp: u64,
    r: Result<RequestPlan, Error>,
)
    requires
        plan_for(seed, method, path, query, payload, timestamp, r),
        instruction_for(method, path) is None,
    ensures
        r matches Ok(RequestPlan::Unsigned),
{
}

} // verus!
