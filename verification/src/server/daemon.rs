//! The decisions of the HTTP handlers: who may store a measurement, how a
//! history request is read, and how a refusal is answered.
use crate::protocol::system::ApiErrorResponse;
use crate::protocol::weather::WeatherHistoryQuery;
use crate::server::rfc3339::{
    parse_rfc3339_unix_nanos, rfc3339_max_unix_nanos, rfc3339_min_unix_nanos, rfc3339_unix_nanos,
};
use subtle::ConstantTimeEq;
use vstd::prelude::*;
use vstd::string::StringSliceAdditionalSpecFns;
use vstd::arithmetic::div_mod::lemma_div_by_multiple;
use vstd::utf8::{encode_utf8, encode_utf8_decode_utf8};
use crate::server::db::unix_nanos_of_millis;

verus! {

/// Page size of a history request that names none.
pub const DEFAULT_HISTORY_LIMIT: u32 = 1000;

/// Largest page size that a history request may ask for.
pub const MAX_HISTORY_LIMIT: u32 = 10_000;

/// Why the server refuses a request.
#[derive(Debug, Clone)]
pub enum ApiError {
    /// The request is malformed; the text says how.
    BadRequest(String),
    /// The request lacks a valid ingestion key; the text says how.
    Unauthorized(String),
    /// No route matches the request.
    NotFound,
    /// The server failed; the details stay in the server's log.
    Internal,
}

/// The parts of the answer to a refused request.
pub open spec fn spec_error_status(e: ApiError) -> u16 {
    match e {
        ApiError::BadRequest(_) => 400,
        ApiError::Unauthorized(_) => 401,
        ApiError::NotFound => 404,
        ApiError::Internal => 500,
    }
}

/// The machine-readable code of the answer to a refused request.
pub open spec fn spec_error_code(e: ApiError) -> Seq<char> {
    match e {
        ApiError::BadRequest(_) => "bad_request"@,
        ApiError::Unauthorized(_) => "unauthorized"@,
        ApiError::NotFound => "not_found"@,
        ApiError::Internal => "internal_error"@,
    }
}

/// The human-readable message of the answer to a refused request.
pub open spec fn spec_error_message(e: ApiError) -> Seq<char> {
    match e {
        ApiError::BadRequest(message) => message@,
        ApiError::Unauthorized(message) => message@,
        ApiError::NotFound => "route does not exist"@,
        ApiError::Internal => "unexpected server error"@,
    }
}

impl ApiError {
    /// A malformed request, with the reason.
    pub fn bad_request(message: &str) -> (e: ApiError)
        ensures
            e matches ApiError::BadRequest(m) && m@ == message@,
    {
        ApiError::BadRequest(message.to_owned())
    }

    /// A request without a valid ingestion key, with the reason.
    pub fn unauthorized(message: &str) -> (e: ApiError)
        ensures
            e matches ApiError::Unauthorized(m) && m@ == message@,
    {
        ApiError::Unauthorized(message.to_owned())
    }

    /// A request for a route that does not exist.
    pub fn not_found() -> (e: ApiError)
        ensures
            e matches ApiError::NotFound,
    {
        ApiError::NotFound
    }

    /// A failure of the server. The message is for the server's log; the
    /// answer does not carry it.
    pub fn internal(message: String) -> (e: ApiError)
        ensures
            e matches ApiError::Internal,
    {
        ApiError::Internal
    }

    /// The HTTP status code and the body of the answer to the refusal.
    pub fn into_status_and_body(self) -> (r: (u16, ApiErrorResponse))
        ensures
            r.0 == spec_error_status(self),
            r.1.code@ == spec_error_code(self),
            r.1.message@ == spec_error_message(self),
            self matches ApiError::BadRequest(m) ==> (r.0 == 400 && r.1.message@ == m@),
            self matches ApiError::Unauthorized(m) ==> (r.0 == 401 && r.1.message@ == m@),
            self is NotFound ==> r.0 == 404,
            self is Internal ==> r.0 == 500,
    {
        match self {
            ApiError::BadRequest(message) => (
                400,
                ApiErrorResponse { code: String::from_str("bad_request"), message },
            ),
            ApiError::Unauthorized(message) => (
                401,
                ApiErrorResponse { code: String::from_str("unauthorized"), message },
            ),
            ApiError::NotFound => (
                404,
                ApiErrorResponse {
                    code: String::from_str("not_found"),
                    message: String::from_str("route does not exist"),
                },
            ),
            ApiError::Internal => (
                500,
                ApiErrorResponse {
                    code: String::from_str("internal_error"),
                    message: String::from_str("unexpected server error"),
                },
            ),
        }
    }
}

/// Calls `subtle::ConstantTimeEq::ct_eq` on two byte slices and turns the
/// resulting `Choice` into a `bool` with subtle's `From<Choice> for bool`.
/// Claimed: the result is true exactly when the slices hold the same bytes
/// (subtle's slice implementation answers 0 on a length mismatch and
/// otherwise the conjunction of the bytewise comparisons).
#[verifier::external_body]
fn constant_time_bytes_eq(a: &[u8], b: &[u8]) -> (equal: bool)
    ensures
        equal == (a@ == b@),
{
    a.ct_eq(b).into()
}

/// Whether a provided ingestion key is the expected one; the comparison takes
/// the same time for every key of the expected length.
pub fn valid_api_key(expected: &str, provided: &str) -> (valid: bool)
    ensures
        valid == (expected@ == provided@),
{
    let equal = constant_time_bytes_eq(expected.as_bytes(), provided.as_bytes());
    proof {
        encode_utf8_decode_utf8(expected@);
        encode_utf8_decode_utf8(provided@);
    }
    equal
}

/// A byte that may stand in a header value read as text: a visible ASCII
/// character, a space or a tab.
pub open spec fn is_visible_ascii(b: u8) -> bool {
    (32 <= b && b < 127) || b == 9
}

/// A header value that can be read as text: all its bytes are visible ASCII.
pub open spec fn header_is_text(bytes: Seq<u8>) -> bool {
    forall|i: int| 0 <= i < bytes.len() ==> is_visible_ascii(#[trigger] bytes[i])
}

/// Whether a header value can be read as text: every byte is a visible
/// ASCII character (32 to 126) or a tab.
pub fn header_value_is_text(bytes: &[u8]) -> (text: bool)
    ensures
        text == header_is_text(bytes@),
        text <==> forall|i: int|
            0 <= i < bytes@.len() ==> (32 <= #[trigger] bytes@[i] <= 126 || bytes@[i] == 9),
{
    let n = bytes.len();
    for i in 0..n
        invariant
            n == bytes@.len(),
            forall|j: int| 0 <= j < i ==> is_visible_ascii(#[trigger] bytes@[j]),
    {
        let b = bytes[i];
        if !((32 <= b && b < 127) || b == 9) {
            assert(!is_visible_ascii(bytes@[i as int]));
            return false;
        }
    }
    true
}

/// The bytes of a header value, where the header is present.
pub open spec fn header_bytes(header: Option<&[u8]>) -> Option<Seq<u8>> {
    match header {
        Some(bytes) => Some(bytes@),
        None => None,
    }
}

/// The outcome of checking the ingestion key header of a request against
/// the expected key.
pub open spec fn spec_authorize_ingest(expected: Seq<u8>, header: Option<Seq<u8>>) -> Result<
    (),
    Seq<char>,
> {
    match header {
        None => Err("missing API key header"@),
        Some(bytes) => if !header_is_text(bytes) {
            Err("invalid API key header encoding"@)
        } else if expected != bytes {
            Err("invalid API key"@)
        } else {
            Ok(())
        },
    }
}

/// Decides whether a request may store a measurement, from the value of its
/// ingestion key header (absent, or its raw bytes): the header must be
/// present, must read as text, and must hold the expected key. A refusal is
/// `Unauthorized` with the reason.
pub fn authorize_ingest(expected: &str, api_key_header: Option<&[u8]>) -> (r: Result<(), ApiError>)
    ensures
        match spec_authorize_ingest(expected.spec_bytes(), header_bytes(api_key_header)) {
            Ok(()) => r is Ok,
            Err(reason) => r matches Err(ApiError::Unauthorized(m)) && m@ == reason,
        },
        api_key_header is None ==> (r matches Err(ApiError::Unauthorized(m)) && m@
            == "missing API key header"@),
        r is Ok <==> (api_key_header matches Some(h) && header_is_text(h@) && h@
            == expected.spec_bytes()),
{
    match api_key_header {
        None => Err(ApiError::unauthorized("missing API key header")),
        Some(bytes) => {
            if !header_value_is_text(bytes) {
                return Err(ApiError::unauthorized("invalid API key header encoding"));
            }
            if !constant_time_bytes_eq(expected.as_bytes(), bytes) {
                return Err(ApiError::unauthorized("invalid API key"));
            }
            Ok(())
        },
    }
}

/// The outcome of an ingestion request: the ingestion key is checked first,
/// and only a request that passes it has its measurement checked (`payload`
/// is the outcome of that check, with its reason). A refusal gives the HTTP
/// status of the answer (401 for the key, 400 for the measurement) and the
/// reason.
pub open spec fn spec_admit_ingest(
    expected: Seq<u8>,
    header: Option<Seq<u8>>,
    payload: Result<(), Seq<char>>,
) -> Result<(), (u16, Seq<char>)> {
    match spec_authorize_ingest(expected, header) {
        Err(reason) => Err((401, reason)),
        Ok(()) => match payload {
            Err(reason) => Err((400, reason)),
            Ok(()) => Ok(()),
        },
    }
}

/// The outcome of a check that refuses with a reason.
pub open spec fn check_outcome(check: Result<(), &str>) -> Result<(), Seq<char>> {
    match check {
        Ok(()) => Ok(()),
        Err(reason) => Err(reason@),
    }
}

/// Decides whether a request may store its measurement: first the ingestion
/// key header (see `authorize_ingest`), then the outcome of checking the
/// measurement, which refuses with `BadRequest` and its reason.
pub fn admit_ingest(expected: &str, api_key_header: Option<&[u8]>, payload_check: Result<(), &str>) -> (r:
    Result<(), ApiError>)
    ensures
        match spec_admit_ingest(
            expected.spec_bytes(),
            header_bytes(api_key_header),
            check_outcome(payload_check),
        ) {
            Ok(()) => r is Ok,
            Err((status, reason)) => r matches Err(e) && spec_error_status(e) == status
                && spec_error_message(e) == reason,
        },
{
    match authorize_ingest(expected, api_key_header) {
        Err(e) => Err(e),
        Ok(()) => match payload_check {
            Err(reason) => Err(ApiError::bad_request(reason)),
            Ok(()) => Ok(()),
        },
    }
}

/// A request with a missing or wrong key is refused as unauthorized whatever
/// its measurement holds: the key is checked before the measurement.
pub proof fn lemma_key_checked_before_payload(
    expected: Seq<u8>,
    header: Option<Seq<u8>>,
    payload1: Result<(), Seq<char>>,
    payload2: Result<(), Seq<char>>,
)
    requires
        spec_authorize_ingest(expected, header) is Err,
    ensures
        spec_admit_ingest(expected, header, payload1) == spec_admit_ingest(expected, header, payload2),
        spec_admit_ingest(expected, header, payload1) matches Err((status, _)) && status == 401,
{
}

/// The page size of a history request: the requested one, else the default,
/// and never above the largest allowed.
pub open spec fn spec_history_limit(requested: Option<u32>) -> u32 {
    let wanted = match requested {
        Some(n) => n,
        None => DEFAULT_HISTORY_LIMIT,
    };
    if wanted < MAX_HISTORY_LIMIT {
        wanted
    } else {
        MAX_HISTORY_LIMIT
    }
}

/// Returns the page size of a history request.
pub fn history_limit(requested: Option<u32>) -> (limit: u32)
    ensures
        limit == spec_history_limit(requested),
        limit <= 10_000,
        requested is None ==> limit == 1000,
        requested matches Some(n) ==> limit == (if n <= 10_000 {
            n
        } else {
            10_000
        }),
{
    let wanted = match requested {
        Some(n) => n,
        None => DEFAULT_HISTORY_LIMIT,
    };
    if wanted < MAX_HISTORY_LIMIT {
        wanted
    } else {
        MAX_HISTORY_LIMIT
    }
}

/// Whole milliseconds in a count of nanoseconds, rounded toward zero.
pub open spec fn millis_of_unix_nanos(nanos: int) -> int {
    if nanos >= 0 {
        nanos / 1_000_000
    } else {
        -((-nanos) / 1_000_000)
    }
}

/// `ms` is the count of whole milliseconds in `nanos`, rounded toward zero:
/// it has the sign of `nanos` and falls short of it by less than one
/// millisecond.
pub open spec fn rounds_toward_zero(nanos: int, ms: int) -> bool {
    &&& (nanos >= 0 ==> ms * 1_000_000 <= nanos < ms * 1_000_000 + 1_000_000)
    &&& (nanos < 0 ==> ms * 1_000_000 - 1_000_000 < nanos <= ms * 1_000_000)
}

/// The milliseconds of a count of nanoseconds are rounded toward zero.
pub proof fn lemma_millis_round_toward_zero(nanos: int)
    ensures
        rounds_toward_zero(nanos, millis_of_unix_nanos(nanos)),
{
    if nanos >= 0 {
        let q = nanos / 1_000_000;
        assert(q * 1_000_000 <= nanos < q * 1_000_000 + 1_000_000) by (nonlinear_arith)
            requires
                q == nanos / 1_000_000,
                nanos >= 0,
        ;
    } else {
        let q = (-nanos) / 1_000_000;
        assert(q * 1_000_000 <= -nanos < q * 1_000_000 + 1_000_000) by (nonlinear_arith)
            requires
                q == (-nanos) / 1_000_000,
                nanos < 0,
        ;
        assert((-q) * 1_000_000 == -(q * 1_000_000)) by (nonlinear_arith);
    }
}

/// What a timestamp parameter becomes once its text was parsed: the
/// milliseconds of the instant, or the reason for refusing it.
pub open spec fn spec_millis_from_parsed(parsed: Option<i128>) -> Result<i64, Seq<char>> {
    match parsed {
        None => Err("invalid RFC3339 timestamp"@),
        Some(nanos) => if i64::MIN <= millis_of_unix_nanos(nanos as int) <= i64::MAX {
            Ok(millis_of_unix_nanos(nanos as int) as i64)
        } else {
            Err("timestamp is out of range"@)
        },
    }
}

/// Turns the result of parsing a timestamp parameter (nanoseconds since the
/// Unix epoch, or `None` where the text was not RFC 3339) into milliseconds,
/// rounded toward zero. Refuses the text, or an instant whose milliseconds do
/// not fit an `i64`, with `BadRequest`.
pub fn millis_from_parsed(parsed: Option<i128>) -> (r: Result<i64, ApiError>)
    ensures
        match spec_millis_from_parsed(parsed) {
            Ok(ms) => r == Ok::<i64, ApiError>(ms),
            Err(reason) => r matches Err(ApiError::BadRequest(m)) && m@ == reason,
        },
        r matches Ok(ms) ==> (parsed matches Some(nanos) && rounds_toward_zero(nanos as int, ms as int)),
        parsed is None ==> r is Err,
{
    proof {
        if let Some(nanos) = parsed {
            lemma_millis_round_toward_zero(nanos as int);
        }
    }
    match parsed {
        None => Err(ApiError::bad_request("invalid RFC3339 timestamp")),
        Some(nanos) => {
            let millis = nanos / 1_000_000;
            assert(millis == millis_of_unix_nanos(nanos as int));
            if -9_223_372_036_854_775_808i128 <= millis && millis <= 9_223_372_036_854_775_807i128 {
                Ok(millis as i64)
            } else {
                Err(ApiError::bad_request("timestamp is out of range"))
            }
        },
    }
}

/// The text of an optional parameter, where it is present.
pub open spec fn text_of(value: Option<&str>) -> Option<Seq<char>> {
    match value {
        Some(text) => Some(text@),
        None => None,
    }
}

/// What an optional timestamp parameter becomes: nothing where it is absent,
/// else the milliseconds of the instant its text denotes.
pub open spec fn spec_parse_rfc3339_to_ms(value: Option<Seq<char>>) -> Result<Option<i64>, Seq<char>> {
    match value {
        None => Ok(None),
        Some(text) => match spec_millis_from_parsed(rfc3339_unix_nanos(text)) {
            Ok(ms) => Ok(Some(ms)),
            Err(reason) => Err(reason),
        },
    }
}

/// Every instant that an RFC 3339 text can denote has milliseconds that fit
/// an `i64`, so such a text is never refused as out of range.
pub proof fn lemma_rfc3339_instants_fit_millis(nanos: i128)
    requires
        rfc3339_min_unix_nanos() <= nanos <= rfc3339_max_unix_nanos(),
    ensures
        spec_millis_from_parsed(Some(nanos)) is Ok,
{
    let n = nanos as int;
    if n >= 0 {
        assert(0 <= n / 1_000_000 <= n) by (nonlinear_arith)
            requires
                n >= 0,
        ;
    } else {
        assert(0 <= (-n) / 1_000_000 <= -n) by (nonlinear_arith)
            requires
                n < 0,
        ;
    }
}

/// Reads an optional RFC 3339 timestamp parameter as milliseconds since the
/// Unix epoch. It is refused exactly when its text is not RFC 3339, and then
/// as "invalid RFC3339 timestamp".
pub fn parse_rfc3339_to_ms(value: Option<&str>) -> (r: Result<Option<i64>, ApiError>)
    ensures
        match spec_parse_rfc3339_to_ms(text_of(value)) {
            Ok(ms) => r == Ok::<Option<i64>, ApiError>(ms),
            Err(reason) => r matches Err(ApiError::BadRequest(m)) && m@ == reason,
        },
        r is Err <==> (value matches Some(text) && rfc3339_unix_nanos(text@) is None),
        r matches Err(e) ==> (e matches ApiError::BadRequest(m) && m@
            == "invalid RFC3339 timestamp"@),
{
    match value {
        None => Ok(None),
        Some(text) => {
            let parsed = parse_rfc3339_unix_nanos(text);
            proof {
                if let Some(nanos) = parsed {
                    lemma_rfc3339_instants_fit_millis(nanos);
                }
            }
            match millis_from_parsed(parsed) {
                Ok(ms) => Ok(Some(ms)),
                Err(e) => Err(e),
            }
        },
    }
}

/// A history request as the storage layer takes it.
#[derive(Clone, Copy, Debug, PartialEq, Eq, Structural)]
pub struct HistoryRequest {
    /// Lower bound (inclusive) of the recording time, in milliseconds.
    pub from_ms: Option<i64>,
    /// Upper bound (exclusive) of the recording time, in milliseconds.
    pub to_ms: Option<i64>,
    /// Only readings with an id below this one.
    pub cursor: Option<i64>,
    /// Largest number of readings in the page.
    pub limit: u32,
}

/// The text of an optional owned parameter, where it is present.
pub open spec fn string_text_of(value: Option<String>) -> Option<Seq<char>> {
    match value {
        Some(text) => Some(text@),
        None => None,
    }
}

/// What a history query string becomes: the bounds are read first `from`,
/// then `to`, and the first that is refused decides the refusal.
pub open spec fn spec_history_request(
    from: Option<Seq<char>>,
    to: Option<Seq<char>>,
    limit: Option<u32>,
    cursor: Option<i64>,
) -> Result<HistoryRequest, Seq<char>> {
    match spec_parse_rfc3339_to_ms(from) {
        Err(reason) => Err(reason),
        Ok(from_ms) => match spec_parse_rfc3339_to_ms(to) {
            Err(reason) => Err(reason),
            Ok(to_ms) => Ok(
                HistoryRequest { from_ms, to_ms, cursor, limit: spec_history_limit(limit) },
            ),
        },
    }
}

/// Reads the query string of a history request.
pub fn history_request(query: &WeatherHistoryQuery) -> (r: Result<HistoryRequest, ApiError>)
    ensures
        match spec_history_request(
            string_text_of(query.from),
            string_text_of(query.to),
            query.limit,
            query.cursor,
        ) {
            Ok(request) => r == Ok::<HistoryRequest, ApiError>(request),
            Err(reason) => r matches Err(ApiError::BadRequest(m)) && m@ == reason,
        },
        r is Err <==> ((query.from matches Some(t) && rfc3339_unix_nanos(t@) is None) || (
        query.to matches Some(t) && rfc3339_unix_nanos(t@) is None)),
        r matches Err(e) ==> (e matches ApiError::BadRequest(m) && m@
            == "invalid RFC3339 timestamp"@),
        r matches Ok(req) ==> {
            &&& req.cursor == query.cursor
            &&& req.limit == spec_history_limit(query.limit)
            &&& (req.from_ms is None <==> query.from is None)
            &&& (req.to_ms is None <==> query.to is None)
            &&& (query.from matches Some(t) ==> (rfc3339_unix_nanos(t@) matches Some(n)
                && req.from_ms == Some(millis_of_unix_nanos(n as int) as i64)))
            &&& (query.to matches Some(t) ==> (rfc3339_unix_nanos(t@) matches Some(n)
                && req.to_ms == Some(millis_of_unix_nanos(n as int) as i64)))
        },
{
    let from_ms = match &query.from {
        Some(text) => parse_rfc3339_to_ms(Some(text.as_str())),
        None => parse_rfc3339_to_ms(None),
    };
    let from_ms = match from_ms {
        Ok(v) => v,
        Err(e) => return Err(e),
    };
    let to_ms = match &query.to {
        Some(text) => parse_rfc3339_to_ms(Some(text.as_str())),
        None => parse_rfc3339_to_ms(None),
    };
    let to_ms = match to_ms {
        Ok(v) => v,
        Err(e) => return Err(e),
    };
    Ok(HistoryRequest { from_ms, to_ms, cursor: query.cursor, limit: history_limit(query.limit) })
}

/// A header that holds the text of a key is accepted exactly when that key is
/// the expected one, which is what `valid_api_key` decides for the key as
/// text.
pub proof fn lemma_header_accepted_iff_key_valid(expected: Seq<char>, key: Seq<char>)
    requires
        header_is_text(encode_utf8(key)),
    ensures
        spec_authorize_ingest(encode_utf8(expected), Some(encode_utf8(key))) is Ok <==> expected
            == key,
{
    encode_utf8_decode_utf8(expected);
    encode_utf8_decode_utf8(key);
}

/// A request without the header, or with one that does not read as text, is
/// refused whatever key the server expects.
pub proof fn lemma_header_refused_before_key(expected1: Seq<u8>, expected2: Seq<u8>, header: Option<Seq<u8>>)
    requires
        header matches Some(bytes) ==> !header_is_text(bytes),
    ensures
        spec_authorize_ingest(expected1, header) is Err,
        spec_authorize_ingest(expected1, header) == spec_authorize_ingest(expected2, header),
{
}

/// The page size of a history request is the requested one wherever that is
/// allowed, the default where none is given, and never above the largest
/// allowed.
pub proof fn lemma_history_limit_bounds(requested: Option<u32>)
    ensures
        spec_history_limit(requested) <= MAX_HISTORY_LIMIT,
        requested is None ==> spec_history_limit(requested) == DEFAULT_HISTORY_LIMIT,
        requested matches Some(n) ==> (n <= MAX_HISTORY_LIMIT ==> spec_history_limit(requested)
            == n),
        requested matches Some(n) ==> (n > MAX_HISTORY_LIMIT ==> spec_history_limit(requested)
            == MAX_HISTORY_LIMIT),
{
}

/// Milliseconds that storage turns into nanoseconds come back unchanged when
/// a timestamp parameter's nanoseconds are turned into milliseconds.
pub proof fn lemma_millis_nanos_round_trip(ms: i64)
    ensures
        spec_millis_from_parsed(Some(unix_nanos_of_millis(ms))) == Ok::<i64, Seq<char>>(ms),
{
    let n: int = ms * 1_000_000;
    assert(i128::MIN <= n <= i128::MAX) by (nonlinear_arith)
        requires
            n == ms * 1_000_000,
            i64::MIN <= ms <= i64::MAX,
    ;
    if ms >= 0 {
        lemma_div_by_multiple(ms as int, 1_000_000);
    } else {
        lemma_div_by_multiple(-ms, 1_000_000);
        assert(-n == (-ms) * 1_000_000) by (nonlinear_arith)
            requires
                n == ms * 1_000_000,
        ;
    }
    assert(millis_of_unix_nanos(n) == ms);
}

/// A history request keeps the bounds and the cursor it was given: a given
/// `from` or `to` becomes the milliseconds (rounded toward zero) of the
/// instant its text denotes, an absent one stays absent, and the cursor is
/// passed on unchanged.
pub proof fn lemma_history_request_keeps_bounds(
    from: Option<Seq<char>>,
    to: Option<Seq<char>>,
    limit: Option<u32>,
    cursor: Option<i64>,
)
    ensures
        spec_history_request(from, to, limit, cursor) matches Ok(req) ==> {
            &&& req.cursor == cursor
            &&& (req.from_ms is None <==> from is None)
            &&& (req.to_ms is None <==> to is None)
            &&& (from matches Some(t) ==> (rfc3339_unix_nanos(t) matches Some(n) && req.from_ms
                == Some(millis_of_unix_nanos(n as int) as i64)))
            &&& (to matches Some(t) ==> (rfc3339_unix_nanos(t) matches Some(n) && req.to_ms
                == Some(millis_of_unix_nanos(n as int) as i64)))
        },
{
}

/// A header holding exactly the expected key is accepted when every byte of
/// the key is a visible ASCII character or a tab; a header holding a control
/// byte other than tab, or a byte above 126, is refused as not text whatever
/// the key.
pub proof fn lemma_text_key_header_accepted(expected: Seq<u8>, header: Seq<u8>, i: int)
    ensures
        (forall|j: int| 0 <= j < expected.len() ==> (32 <= #[trigger] expected[j] <= 126
            || expected[j] == 9)) ==> spec_authorize_ingest(expected, Some(expected)) is Ok,
        (0 <= i < header.len() && !(32 <= header[i] <= 126 || header[i] == 9))
            ==> spec_authorize_ingest(expected, Some(header)) == Err::<(), Seq<char>>(
            "invalid API key header encoding"@,
        ),
{
    if forall|j: int| 0 <= j < expected.len() ==> (32 <= #[trigger] expected[j] <= 126
        || expected[j] == 9) {
        assert(header_is_text(expected));
    }
    if 0 <= i < header.len() && !(32 <= header[i] <= 126 || header[i] == 9) {
        assert(!is_visible_ascii(header[i]));
    }
}

} // verus!
