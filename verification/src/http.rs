//! Secure one-shot HTTPS time-fetch client.
//!
//! One call performs one bounded encrypted GET against the fixed
//! time-service endpoint: the runtime resolves, connects, and reads on the
//! client's behalf and feeds the outcomes into the session state machine
//! here, which enforces the single connection slot, the fixed response
//! capacity, and the decoding of the body into a Unix timestamp.

use vstd::prelude::*;

verus! {

/// Fixed capacity of a response body, in bytes.
pub const RESPONSE_SIZE: usize = 4096;

/// The fixed time-service endpoint: its response body is a Unix timestamp
/// in seconds, as optionally-signed base-10 ASCII.
pub const TIME_URL: &'static str = "https://io.adafruit.com/api/v2/time/seconds";

/// An error within an HTTP request.
#[derive(Clone, Copy, PartialEq, Eq, Structural, Debug)]
pub enum Error {
    /// Response was too large.
    ResponseTooLarge,
    /// Error within TCP streams.
    Tcp,
    /// Error within TCP connection.
    TcpConnect,
    /// Error within DNS system.
    Dns,
    /// Error in the HTTP protocol layer.
    Reqless,
    /// Error parsing UTF-8.
    Utf8Error,
    /// Error parsing a timestamp.
    ParseIntError,
}

/// A transport failure observed by the runtime while it drove one request.
#[derive(Clone, Copy, PartialEq, Eq, Structural, Debug)]
pub enum TransportFailure {
    /// The host could not be resolved.
    Dns,
    /// The TCP connection could not be opened.
    TcpConnect,
    /// The TCP stream failed while in use.
    Tcp,
    /// The HTTP protocol layer failed.
    Http,
}

/// The tagged error a transport failure is reported as.
pub open spec fn spec_transport_error(f: TransportFailure) -> Error {
    match f {
        TransportFailure::Dns => Error::Dns,
        TransportFailure::TcpConnect => Error::TcpConnect,
        TransportFailure::Tcp => Error::Tcp,
        TransportFailure::Http => Error::Reqless,
    }
}

fn transport_error(f: TransportFailure) -> (e: Error)
    ensures
        e == spec_transport_error(f),
{
    match f {
        TransportFailure::Dns => Error::Dns,
        TransportFailure::TcpConnect => Error::TcpConnect,
        TransportFailure::Tcp => Error::Tcp,
        TransportFailure::Http => Error::Reqless,
    }
}

#[verifier::external_type_specification]
#[verifier::external_body]
#[verifier::reject_recursive_types(T)]
pub struct ExHeaplessVec<T, const N: usize>(heapless::Vec<T, N>);

/// The bytes a fixed-capacity response buffer holds.
pub uninterp spec fn stored_bytes(v: heapless::Vec<u8, 4096>) -> Seq<u8>;

/// Relies on heapless::Vec::from_slice: it copies the slice into a new
/// fixed-capacity vector when the slice fits, and reports an error when the
/// slice is longer than the capacity.
#[verifier::external_body]
fn hvec_from_slice(bytes: &[u8]) -> (r: Option<heapless::Vec<u8, 4096>>)
    ensures
        r is Some <==> bytes@.len() <= 4096,
        r matches Some(v) ==> stored_bytes(v) == bytes@,
{
    heapless::Vec::from_slice(bytes).ok()
}

/// Relies on heapless::Vec::as_slice: it exposes exactly the stored bytes.
#[verifier::external_body]
fn hvec_as_slice(v: &heapless::Vec<u8, 4096>) -> (r: &[u8])
    ensures
        r@ == stored_bytes(*v),
{
    v.as_slice()
}

/// A response body, bounded at [`RESPONSE_SIZE`] bytes and held in a
/// fixed-capacity buffer that is never resized.
pub struct Response {
    data: heapless::Vec<u8, 4096>,
}

impl View for Response {
    type V = Seq<u8>;

    closed spec fn view(&self) -> Seq<u8> {
        stored_bytes(self.data)
    }
}

impl Response {
    /// A response never exceeds the fixed capacity.
    pub open spec fn wf(self) -> bool {
        self@.len() <= RESPONSE_SIZE
    }

    /// Take a fully read body into the bounded buffer: the capacity error
    /// comes exactly when the body exceeds [`RESPONSE_SIZE`] bytes.
    pub fn from_body(bytes: &[u8]) -> (r: Result<Response, Error>)
        ensures
            r is Ok <==> bytes@.len() <= RESPONSE_SIZE,
            r matches Ok(resp) ==> resp@ == bytes@ && resp.wf(),
            r is Err ==> r == Err::<Response, Error>(Error::ResponseTooLarge),
    {
        match hvec_from_slice(bytes) {
            Some(data) => Ok(Response { data }),
            None => Err(Error::ResponseTooLarge),
        }
    }

    /// The stored body bytes.
    pub fn as_bytes(&self) -> (r: &[u8])
        ensures
            r@ == self@,
    {
        hvec_as_slice(&self.data)
    }
}

/// A decimal digit, as an ASCII byte.
pub open spec fn is_ascii_digit(b: u8) -> bool {
    48 <= b <= 57
}

/// The number denoted by a sequence of ASCII digits, most significant
/// first.
pub open spec fn digits_value(s: Seq<u8>) -> int
    decreases s.len(),
{
    if s.len() == 0 {
        0
    } else {
        digits_value(s.drop_last()) * 10 + (s.last() - 48)
    }
}

pub open spec fn all_digits(s: Seq<u8>) -> bool {
    forall|i: int| 0 <= i < s.len() ==> is_ascii_digit(s[i])
}

/// Whether the literal opens with an explicit sign byte (`+` is 43, `-` is
/// 45).
pub open spec fn has_sign(s: Seq<u8>) -> bool {
    s.len() > 0 && (s[0] == 43 || s[0] == 45)
}

/// Whether the literal denotes a negated number.
pub open spec fn is_negative_literal(s: Seq<u8>) -> bool {
    s.len() > 0 && s[0] == 45
}

/// The digits of the literal, after any sign byte.
pub open spec fn digits_part(s: Seq<u8>) -> Seq<u8> {
    if has_sign(s) {
        s.subrange(1, s.len() as int)
    } else {
        s
    }
}

/// The grammar of an optionally-signed base-10 integer: an optional sign
/// byte followed by one or more ASCII digits and nothing else.
pub open spec fn valid_int_literal(s: Seq<u8>) -> bool {
    digits_part(s).len() > 0 && all_digits(digits_part(s))
}

/// The number a valid literal denotes.
pub open spec fn int_literal_value(s: Seq<u8>) -> int {
    if is_negative_literal(s) {
        -digits_value(digits_part(s))
    } else {
        digits_value(digits_part(s))
    }
}

/// A digit string denotes a number that is not negative.
proof fn lemma_digits_value_nonneg(s: Seq<u8>)
    requires
        all_digits(s),
    ensures
        digits_value(s) >= 0,
    decreases s.len(),
{
    if s.len() > 0 {
        lemma_digits_value_nonneg(s.drop_last());
    }
}

/// Dropping trailing digits never increases the denoted number.
proof fn lemma_digits_prefix_bound(s: Seq<u8>, k: int)
    requires
        all_digits(s),
        0 <= k <= s.len(),
    ensures
        digits_value(s.subrange(0, k)) <= digits_value(s),
    decreases s.len() - k,
{
    if k == s.len() {
        assert(s.subrange(0, k) =~= s);
    } else {
        let t = s.subrange(0, k + 1);
        assert(t.drop_last() =~= s.subrange(0, k));
        lemma_digits_value_nonneg(s.subrange(0, k));
        lemma_digits_prefix_bound(s, k + 1);
    }
}

/// Parse an optionally-signed base-10 ASCII integer.
///
/// Succeeds exactly on byte sequences that match the literal grammar and
/// denote a number representable in 64 signed bits, and then returns
/// exactly that number.
pub fn parse_i64(s: &[u8]) -> (r: Result<i64, ()>)
    ensures
        r is Ok <==> valid_int_literal(s@) && i64::MIN <= int_literal_value(s@) <= i64::MAX,
        r matches Ok(v) ==> v == int_literal_value(s@),
{
    let n: usize = s.len();
    if n == 0 {
        return Err(());
    }
    let neg: bool = s[0] == 45;
    let start: usize = if s[0] == 45 || s[0] == 43 {
        1
    } else {
        0
    };
    if start == n {
        return Err(());
    }
    let limit: u64 = if neg {
        0x8000_0000_0000_0000
    } else {
        0x7FFF_FFFF_FFFF_FFFF
    };
    let ghost part = digits_part(s@);
    proof {
        assert(part =~= s@.subrange(start as int, n as int));
    }
    let mut acc: u64 = 0;
    let mut i: usize = start;
    while i < n
        invariant
            start <= i <= n,
            n == s@.len(),
            start < n,
            part == s@.subrange(start as int, n as int),
            part == digits_part(s@),
            neg == is_negative_literal(s@),
            limit == if neg {
                0x8000_0000_0000_0000u64
            } else {
                0x7FFF_FFFF_FFFF_FFFFu64
            },
            forall|j: int| start <= j < i ==> is_ascii_digit(s@[j]),
            acc == digits_value(s@.subrange(start as int, i as int)),
            acc <= limit,
        decreases n - i,
    {
        let b = s[i];
        if b < 48 || 57 < b {
            proof {
                assert(part[i - start as int] == s@[i as int]);
            }
            return Err(());
        }
        let d: u64 = (b - 48) as u64;
        let wide: u128 = (acc as u128) * 10 + (d as u128);
        proof {
            assert(s@.subrange(start as int, (i + 1) as int).drop_last() =~= s@.subrange(
                start as int,
                i as int,
            ));
            assert(digits_value(s@.subrange(start as int, (i + 1) as int)) == acc * 10 + d);
        }
        if wide > limit as u128 {
            proof {
                if valid_int_literal(s@) {
                    assert(part.subrange(0, (i + 1 - start) as int) =~= s@.subrange(
                        start as int,
                        (i + 1) as int,
                    ));
                    lemma_digits_prefix_bound(part, (i + 1 - start) as int);
                }
            }
            return Err(());
        }
        acc = (wide as u64);
        i = i + 1;
    }
    proof {
        assert(s@.subrange(start as int, n as int) =~= part);
        lemma_digits_value_nonneg(part);
    }
    if neg {
        if acc == 0x8000_0000_0000_0000 {
            Ok(i64::MIN)
        } else {
            Ok(-(acc as i64))
        }
    } else {
        Ok(acc as i64)
    }
}

/// Whether a byte sequence is valid UTF-8. What the decoder accepts is
/// fixed by the encoding alone, so the predicate is a function of the
/// bytes.
pub uninterp spec fn utf8_ok(s: Seq<u8>) -> bool;

/// Relies on core::str::from_utf8: whether it accepts a byte sequence
/// depends on the bytes alone, and it accepts every all-ASCII sequence.
#[verifier::external_body]
fn check_utf8(bytes: &[u8]) -> (r: bool)
    ensures
        r == utf8_ok(bytes@),
        (forall|i: int| 0 <= i < bytes@.len() ==> bytes@[i] < 128) ==> r,
{
    core::str::from_utf8(bytes).is_ok()
}

/// The phase of the single request a client can have in flight.
#[derive(Clone, Copy, PartialEq, Eq, Structural, Debug)]
pub enum SessionPhase {
    /// No request in flight; the connection slot is free.
    Idle,
    /// Resolving the host and performing the TCP and TLS handshakes.
    Connecting,
    /// Sending the GET request.
    Sending,
    /// Reading the response body.
    Receiving,
}

/// The TLS session parameters for one request: a fresh seed each call, and
/// certificate verification explicitly disabled (a deliberate trust-all
/// transport, not an oversight).
#[derive(Clone, Copy, PartialEq, Eq, Structural, Debug)]
pub struct SessionSetup {
    pub seed: u64,
    pub verify_certificates: bool,
}

/// What one completed read of the response body yields.
pub open spec fn body_outcome_view(outcome: Result<&[u8], TransportFailure>) -> Result<
    Seq<u8>,
    TransportFailure,
> {
    match outcome {
        Ok(b) => Ok(b@),
        Err(f) => Err(f),
    }
}

/// How a completed read is reported: the bytes when they fit the fixed
/// capacity, the capacity error when they do not, and the mapped transport
/// error when the read failed.
pub open spec fn spec_receive(outcome: Result<Seq<u8>, TransportFailure>) -> Result<
    Seq<u8>,
    Error,
> {
    match outcome {
        Ok(b) => if b.len() <= RESPONSE_SIZE {
            Ok(b)
        } else {
            Err(Error::ResponseTooLarge)
        },
        Err(f) => Err(spec_transport_error(f)),
    }
}

/// HTTP client: owns the single TCP connection slot and the two fixed TLS
/// record buffers for its entire lifetime, so at most one secure session is
/// in flight per instance at any time.
pub struct Client {
    phase: SessionPhase,
}

impl Client {
    /// The phase of the request in flight, if any.
    pub closed spec fn spec_phase(self) -> SessionPhase {
        self.phase
    }

    /// The connection slot is free: a new request may begin.
    pub open spec fn idle(self) -> bool {
        self.spec_phase() == SessionPhase::Idle
    }

    /// Create a new client. Its buffers and connection slot are allocated
    /// once here and reused by every subsequent call, never per request.
    pub fn new() -> (c: Client)
        ensures
            c.idle(),
    {
        Client { phase: SessionPhase::Idle }
    }

    /// Begin one request: derive the TLS session parameters from a fresh
    /// 64-bit seed. Requires the connection slot to be free, which keeps a
    /// second concurrent request on the same instance impossible.
    pub fn begin_request(&mut self, seed: u64) -> (setup: SessionSetup)
        requires
            old(self).idle(),
        ensures
            final(self).spec_phase() == SessionPhase::Connecting,
            setup.seed == seed,
            !setup.verify_certificates,
    {
        self.phase = SessionPhase::Connecting;
        SessionSetup { seed, verify_certificates: false }
    }

    /// Record the outcome of resolving, connecting and handshaking. A
    /// failure frees the connection slot and reports the mapped error.
    pub fn on_connected(&mut self, outcome: Result<(), TransportFailure>) -> (r: Option<Error>)
        requires
            old(self).spec_phase() == SessionPhase::Connecting,
        ensures
            outcome is Ok ==> final(self).spec_phase() == SessionPhase::Sending && r is None,
            outcome matches Err(f) ==> final(self).idle() && r == Some(spec_transport_error(f)),
    {
        match outcome {
            Ok(_) => {
                self.phase = SessionPhase::Sending;
                None
            },
            Err(f) => {
                self.phase = SessionPhase::Idle;
                Some(transport_error(f))
            },
        }
    }

    /// Record the outcome of sending the GET request.
    pub fn on_sent(&mut self, outcome: Result<(), TransportFailure>) -> (r: Option<Error>)
        requires
            old(self).spec_phase() == SessionPhase::Sending,
        ensures
            outcome is Ok ==> final(self).spec_phase() == SessionPhase::Receiving && r is None,
            outcome matches Err(f) ==> final(self).idle() && r == Some(spec_transport_error(f)),
    {
        match outcome {
            Ok(_) => {
                self.phase = SessionPhase::Receiving;
                None
            },
            Err(f) => {
                self.phase = SessionPhase::Idle;
                Some(transport_error(f))
            },
        }
    }

    /// Record the fully read body, or the failure that ended the read. The
    /// connection slot is freed either way: a capacity error leaves the
    /// client valid for subsequent calls.
    pub fn on_body(&mut self, outcome: Result<&[u8], TransportFailure>) -> (r: Result<
        Response,
        Error,
    >)
        requires
            old(self).spec_phase() == SessionPhase::Receiving,
        ensures
            final(self).idle(),
            r is Ok <==> spec_receive(body_outcome_view(outcome)) is Ok,
            r matches Ok(resp) ==> spec_receive(body_outcome_view(outcome)) == Ok::<
                Seq<u8>,
                Error,
            >(resp@) && resp.wf(),
            r matches Err(e) ==> spec_receive(body_outcome_view(outcome)) == Err::<
                Seq<u8>,
                Error,
            >(e),
    {
        self.phase = SessionPhase::Idle;
        match outcome {
            Ok(bytes) => Response::from_body(bytes),
            Err(f) => Err(transport_error(f)),
        }
    }

    /// Decode a completed request against the fixed time-service endpoint:
    /// the body is UTF-8 text denoting an optionally-signed base-10 Unix
    /// timestamp in seconds.
    ///
    /// Every body that is such a literal, with a representable value,
    /// decodes to exactly that value. A body that is not valid UTF-8 fails
    /// with the encoding error; one that is valid UTF-8 but not a
    /// representable literal fails with the parse error; a failed request
    /// propagates its own error.
    pub fn fetch_current_time(response: Result<Response, Error>) -> (r: Result<i64, Error>)
        ensures
            response matches Err(e) ==> r == Err::<i64, Error>(e),
            response matches Ok(body) ==> {
                &&& (r is Ok <==> valid_int_literal(body@) && i64::MIN <= int_literal_value(body@)
                    <= i64::MAX)
                &&& (r matches Ok(v) ==> v == int_literal_value(body@))
                &&& (r is Err && !utf8_ok(body@) ==> r == Err::<i64, Error>(Error::Utf8Error))
                &&& (r is Err && utf8_ok(body@) ==> r == Err::<i64, Error>(Error::ParseIntError))
            },
    {
        match response {
            Err(e) => Err(e),
            Ok(body) => {
                let bytes = body.as_bytes();
                match parse_i64(bytes) {
                    Ok(v) => Ok(v),
                    Err(_) => if check_utf8(bytes) {
                        Err(Error::ParseIntError)
                    } else {
                        Err(Error::Utf8Error)
                    },
                }
            },
        }
    }
}

/// Law: an oversized body yields exactly the capacity error, and the same
/// client then accepts a smaller body in full — the bounded buffer is
/// handed back byte for byte. Together with `on_body` always returning the
/// client to idle, a capacity failure leaves the instance usable.
pub proof fn lemma_capacity_error_leaves_client_usable(big: Seq<u8>, small: Seq<u8>)
    requires
        big.len() > RESPONSE_SIZE,
        small.len() <= RESPONSE_SIZE,
    ensures
        spec_receive(Ok(big)) == Err::<Seq<u8>, Error>(Error::ResponseTooLarge),
        spec_receive(Ok(small)) == Ok::<Seq<u8>, Error>(small),
{
}

} // verus!
