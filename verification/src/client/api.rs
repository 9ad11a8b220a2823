//! How the client addresses the server.
use vstd::prelude::*;

verus! {

/// `s` without the `'/'` characters at its end.
pub open spec fn trim_trailing_slashes(s: Seq<char>) -> Seq<char>
    decreases s.len(),
{
    if s.len() > 0 && s.last() == '/' {
        trim_trailing_slashes(s.drop_last())
    } else {
        s
    }
}

/// The endpoints of the server that the client calls.
#[derive(Clone, Copy, Debug, PartialEq, Eq, Structural)]
pub enum Endpoint {
    Health,
    Version,
    PostWeather,
    ListWeather,
    LatestWeather,
}

impl Endpoint {
    /// The path of the endpoint below the base URL.
    pub open spec fn spec_path(self) -> Seq<char> {
        match self {
            Endpoint::Health => "/api/v1/health"@,
            Endpoint::Version => "/api/v1/version"@,
            Endpoint::PostWeather => "/api/v1/weather"@,
            Endpoint::ListWeather => "/api/v1/weather"@,
            Endpoint::LatestWeather => "/api/v1/weather/latest"@,
        }
    }

    /// Whether the endpoint is called with `POST` (else with `GET`).
    pub open spec fn spec_is_post(self) -> bool {
        self == Endpoint::PostWeather
    }

    /// Returns the path of the endpoint.
    pub fn path(&self) -> (path: &'static str)
        ensures
            path@ == self.spec_path(),
    {
        match self {
            Endpoint::Health => "/api/v1/health",
            Endpoint::Version => "/api/v1/version",
            Endpoint::PostWeather => "/api/v1/weather",
            Endpoint::ListWeather => "/api/v1/weather",
            Endpoint::LatestWeather => "/api/v1/weather/latest",
        }
    }

    /// Returns whether the endpoint is called with `POST`.
    pub fn is_post(&self) -> (post: bool)
        ensures
            post == self.spec_is_post(),
        post <==> *self == Endpoint::PostWeather,
    {
        match self {
            Endpoint::PostWeather => true,
            _ => false,
        }
    }
}

/// Only the measurement upload is sent with `POST`; health, version, the
/// history and the latest reading are fetched with `GET`. The upload and the
/// history share a path and differ only in the method; every other endpoint
/// has a path of its own.
pub proof fn lemma_only_upload_is_post(e: Endpoint)
    ensures
        e.spec_is_post() <==> e == Endpoint::PostWeather,
        !Endpoint::Health.spec_is_post(),
        !Endpoint::Version.spec_is_post(),
        !Endpoint::ListWeather.spec_is_post(),
        !Endpoint::LatestWeather.spec_is_post(),
        e != Endpoint::PostWeather && e != Endpoint::ListWeather ==> e.spec_path()
            != Endpoint::PostWeather.spec_path(),
{
    reveal_strlit("/api/v1/health");
    reveal_strlit("/api/v1/version");
    reveal_strlit("/api/v1/weather");
    reveal_strlit("/api/v1/weather/latest");
    if e == Endpoint::Health {
        assert(e.spec_path()[8] != Endpoint::PostWeather.spec_path()[8]);
    } else if e == Endpoint::Version {
        assert(e.spec_path()[8] != Endpoint::PostWeather.spec_path()[8]);
    } else if e == Endpoint::LatestWeather {
        assert(e.spec_path().len() != Endpoint::PostWeather.spec_path().len());
    }
}

/// Where the client sends its requests, and with which ingestion key.
#[derive(Debug, Clone)]
pub struct ApiClient {
    base_url: String,
    auth_key: Option<String>,
}

impl ApiClient {
    /// The base URL, without a trailing `'/'`.
    pub closed spec fn spec_base_url(self) -> Seq<char> {
        self.base_url@
    }

    /// The ingestion key sent with every request, if any.
    pub closed spec fn spec_auth_key(self) -> Option<String> {
        self.auth_key
    }

    /// A client for the server at `base_url`; the trailing `'/'` characters
    /// of the URL are dropped.
    pub fn new(base_url: String, auth_key: Option<String>) -> (client: ApiClient)
        ensures
            client.spec_base_url() == trim_trailing_slashes(base_url@),
            client.spec_auth_key() == auth_key,
    {
        ApiClient { base_url: trim_end_slashes(base_url.as_str()), auth_key }
    }

    /// The URL of a path below the base URL.
    pub fn url(&self, path: &str) -> (url: String)
        ensures
            url@ == self.spec_base_url() + path@,
    {
        self.base_url.clone().concat(path)
    }

    /// The ingestion key sent with every request, if any.
    pub fn auth_key(&self) -> (key: Option<&String>)
        ensures
            key == match self.spec_auth_key() {
                Some(k) => Some(&k),
                None => None::<&String>,
            },
    {
        self.auth_key.as_ref()
    }
}

/// An HTTP status code that reports success: 200 to 299.
pub open spec fn is_success_status(code: u16) -> bool {
    200 <= code < 300
}

/// The message of a failed request, from the text of its status.
pub open spec fn spec_status_failure(status_text: Seq<char>) -> Seq<char> {
    "request failed with status "@ + status_text
}

/// Decides from the status of an answer (its code and its text, such as
/// `404 Not Found`) whether the client reads the body: it does for a success
/// status, and otherwise fails with a message that names the status.
pub fn check_status(code: u16, status_text: &str) -> (r: Result<(), String>)
    ensures
        is_success_status(code) ==> r is Ok,
        !is_success_status(code) ==> (r matches Err(message) && message@ == spec_status_failure(
            status_text@,
        )),
{
    if 200 <= code && code < 300 {
        Ok(())
    } else {
        Err(String::from_str("request failed with status ").concat(status_text))
    }
}

/// Returns `s` without the `'/'` characters at its end.
pub fn trim_end_slashes(s: &str) -> (trimmed: String)
    ensures
        trimmed@ == trim_trailing_slashes(s@),
{
    let len = s.unicode_len();
    let mut n = len;
    assert(s@.subrange(0, len as int) =~= s@);
    while n > 0 && s.get_char(n - 1) == '/'
        invariant
            len == s@.len(),
            n <= len,
            trim_trailing_slashes(s@) == trim_trailing_slashes(s@.subrange(0, n as int)),
        decreases n,
    {
        assert(s@.subrange(0, n as int).drop_last() =~= s@.subrange(0, n - 1));
        n = n - 1;
    }
    let kept = s.substring_char(0, n);
    proof {
        let t = s@.subrange(0, n as int);
        if n > 0 {
            assert(t.last() != '/');
        }
    }
    String::from_str(kept)
}

/// Trimming leaves no `'/'` at the end, trimming again changes nothing, and
/// the original is the trimmed text followed by `'/'` characters only.
pub proof fn lemma_trim_trailing_slashes(s: Seq<char>)
    ensures
        trim_trailing_slashes(s).len() > 0 ==> trim_trailing_slashes(s).last() != '/',
        trim_trailing_slashes(trim_trailing_slashes(s)) == trim_trailing_slashes(s),
        trim_trailing_slashes(s).len() <= s.len(),
        s.subrange(0, trim_trailing_slashes(s).len() as int) == trim_trailing_slashes(s),
        forall|i: int|
            trim_trailing_slashes(s).len() <= i < s.len() ==> #[trigger] s[i] == '/',
    decreases s.len(),
{
    if s.len() > 0 && s.last() == '/' {
        lemma_trim_trailing_slashes(s.drop_last());
        let t = trim_trailing_slashes(s.drop_last());
        assert(s.subrange(0, t.len() as int) =~= s.drop_last().subrange(0, t.len() as int));
        assert forall|i: int| t.len() <= i < s.len() implies #[trigger] s[i] == '/' by {
            if i < s.len() - 1 {
                assert(s.drop_last()[i] == s[i]);
            }
        }
    } else {
        assert(s.subrange(0, s.len() as int) =~= s);
    }
}

} // verus!
