use crate::paxos_message::PaxosMessage;
use vstd::prelude::*;
use vstd::slice::slice_subrange;

verus! {

/// The seconds that one read or write on the stream may take.
pub const STEP_TIMEOUT_SECS: u64 = 5;

/// The bytes of the length prefix.
pub const HEADER_LEN: usize = 4;

/// The longest payload whose length the prefix can hold.
pub const MAX_PAYLOAD_LEN: usize = 0xffff_ffff;

/// Why a send or a receive failed.
#[derive(Clone, Copy, Debug, PartialEq, Eq, Structural)]
pub enum TransportError {
    /// One read or write took longer than its deadline.
    TimedOut,
    /// The peer could not be reached.
    ConnectionRefused,
    /// The peer dropped the connection.
    ConnectionReset,
    /// The payload is no message.
    Malformed,
    /// Any other failure of the stream.
    Io,
}

impl TransportError {
    /// A receive is tried again after this error.
    pub open spec fn is_transient(self) -> bool {
        self == TransportError::TimedOut || self == TransportError::ConnectionRefused
    }
}

/// How one read or write on the stream ended.
#[derive(Clone, Copy, Debug, PartialEq, Eq, Structural)]
pub enum IoStep {
    /// It ran to its end within the deadline.
    Completed,
    /// The deadline passed first.
    Elapsed,
    /// The stream reported an error within the deadline.
    Failed(TransportError),
}

impl IoStep {
    /// The error that this step stands for, if it is one.
    pub open spec fn error(self) -> Option<TransportError> {
        match self {
            IoStep::Completed => None,
            IoStep::Elapsed => Some(TransportError::TimedOut),
            IoStep::Failed(e) => Some(e),
        }
    }
}

/// The four bytes of `n`, most significant first.
pub open spec fn length_prefix(n: nat) -> Seq<u8> {
    seq![
        ((n / 0x100_0000) % 0x100) as u8,
        ((n / 0x1_0000) % 0x100) as u8,
        ((n / 0x100) % 0x100) as u8,
        (n % 0x100) as u8,
    ]
}

/// The number that four bytes hold, most significant first.
pub open spec fn prefix_value(header: Seq<u8>) -> nat
    recommends
        header.len() == 4,
{
    (header[0] as nat) * 0x100_0000 + (header[1] as nat) * 0x1_0000 + (header[2] as nat) * 0x100
        + (header[3] as nat)
}

/// A payload on the wire: its length in four bytes, then the payload.
pub open spec fn frame(payload: Seq<u8>) -> Seq<u8> {
    length_prefix(payload.len()) + payload
}

/// The first frame of `bytes`, as its payload and the bytes that follow it,
/// where `bytes` holds a whole frame.
pub open spec fn first_frame(bytes: Seq<u8>) -> Option<(Seq<u8>, Seq<u8>)> {
    if bytes.len() < 4 {
        None
    } else {
        let n = prefix_value(bytes.subrange(0, 4)) as int;
        if bytes.len() < 4 + n {
            None
        } else {
            Some((bytes.subrange(4, 4 + n), bytes.subrange(4 + n, bytes.len() as int)))
        }
    }
}

/// The length prefix of a payload of `len` bytes.
pub fn encode_length(len: u32) -> (r: [u8; 4])
    ensures
        r@ == length_prefix(len as nat),
{
    let r: [u8; 4] = [
        ((len / 0x100_0000) % 0x100) as u8,
        ((len / 0x1_0000) % 0x100) as u8,
        ((len / 0x100) % 0x100) as u8,
        (len % 0x100) as u8,
    ];
    assert(r@ =~= length_prefix(len as nat));
    r
}

/// The payload length that a length prefix announces.
pub fn decode_length(header: &[u8; 4]) -> (r: u32)
    ensures
        r == prefix_value(header@),
{
    let b0: u32 = header[0] as u32;
    let b1: u32 = header[1] as u32;
    let b2: u32 = header[2] as u32;
    let b3: u32 = header[3] as u32;
    b0 * 0x100_0000 + b1 * 0x1_0000 + b2 * 0x100 + b3
}

/// Every number that four bytes can hold comes back from its prefix.
pub proof fn lemma_length_round_trip(n: nat)
    requires
        n <= 0xffff_ffff,
    ensures
        length_prefix(n).len() == 4,
        prefix_value(length_prefix(n)) == n,
{
}

/// Puts the length prefix before `payload`.
pub fn encode_frame(payload: &[u8]) -> (r: Vec<u8>)
    requires
        payload@.len() <= MAX_PAYLOAD_LEN,
    ensures
        r@ == frame(payload@),
{
    let header = encode_length(payload.len() as u32);
    let mut r: Vec<u8> = Vec::with_capacity(4);
    r.push(header[0]);
    r.push(header[1]);
    r.push(header[2]);
    r.push(header[3]);
    r.extend_from_slice(payload);
    assert(r@ =~= frame(payload@));
    r
}

/// Takes the first frame off `bytes`: its payload, and how many bytes the
/// frame took. `None` where `bytes` does not yet hold a whole frame.
pub fn decode_frame(bytes: &[u8]) -> (r: Option<(Vec<u8>, usize)>)
    ensures
        match (r, first_frame(bytes@)) {
            (Some((payload, used)), Some((first, rest))) => payload@ == first && used == 4
                + first.len() && rest == bytes@.subrange(used as int, bytes@.len() as int),
            (None, None) => true,
            _ => false,
        },
{
    if bytes.len() < 4 {
        return None;
    }
    let header: [u8; 4] = [bytes[0], bytes[1], bytes[2], bytes[3]];
    assert(header@ =~= bytes@.subrange(0, 4));
    let n = decode_length(&header) as usize;
    if bytes.len() - 4 < n {
        return None;
    }
    let body = slice_subrange(bytes, 4, 4 + n);
    let mut payload: Vec<u8> = Vec::with_capacity(n);
    payload.extend_from_slice(body);
    assert(payload@ =~= bytes@.subrange(4, 4 + n));
    Some((payload, 4 + n))
}

/// A frame, with whatever follows it, gives back its payload and what
/// follows.
pub proof fn lemma_frame_round_trip(payload: Seq<u8>, rest: Seq<u8>)
    requires
        payload.len() <= 0xffff_ffff,
    ensures
        frame(payload).len() == 4 + payload.len(),
        first_frame(frame(payload) + rest) == Some((payload, rest)),
{
    let bytes = frame(payload) + rest;
    lemma_length_round_trip(payload.len());
    assert(bytes.subrange(0, 4) =~= length_prefix(payload.len()));
    assert(bytes.subrange(4, 4 + payload.len() as int) =~= payload);
    assert(bytes.subrange(4 + payload.len() as int, bytes.len() as int) =~= rest);
}

/// The result of a send, from how the write of the length and the write of
/// the payload ended: the first of the two that did not complete decides.
pub open spec fn send_result(length_write: IoStep, payload_write: IoStep) -> Result<
    (),
    TransportError,
> {
    if length_write.error() is Some {
        Err(length_write.error()->0)
    } else if payload_write.error() is Some {
        Err(payload_write.error()->0)
    } else {
        Ok(())
    }
}

/// The error of a step that did not complete.
pub fn step_error(step: IoStep) -> (r: Option<TransportError>)
    ensures
        r == step.error(),
{
    match step {
        IoStep::Completed => None,
        IoStep::Elapsed => Some(TransportError::TimedOut),
        IoStep::Failed(e) => Some(e),
    }
}

/// The result of a send whose two writes ended as given.
pub fn send_outcome(length_write: IoStep, payload_write: IoStep) -> (r: Result<(), TransportError>)
    ensures
        r == send_result(length_write, payload_write),
{
    match step_error(length_write) {
        Some(e) => Err(e),
        None => match step_error(payload_write) {
            Some(e) => Err(e),
            None => Ok(()),
        },
    }
}

/// After the read of the length prefix: the number of payload bytes to read
/// next, or the error of a read that did not complete.
pub fn header_outcome(length_read: IoStep, header: &[u8; 4]) -> (r: Result<usize, TransportError>)
    ensures
        r == match length_read.error() {
            Some(e) => Err::<usize, TransportError>(e),
            None => Ok(prefix_value(header@) as usize),
        },
        r is Ok ==> r->Ok_0 == prefix_value(header@),
{
    match step_error(length_read) {
        Some(e) => Err(e),
        None => Ok(decode_length(header) as usize),
    }
}

/// The result of a receive, from how the read of the payload ended and what
/// the payload decoded to: the error of a read that did not complete, else
/// the message, else `Malformed` where the payload is no message.
pub fn receive_outcome(payload_read: IoStep, decoded: Option<PaxosMessage>) -> (r: Result<
    PaxosMessage,
    TransportError,
>)
    ensures
        r == match (payload_read.error(), decoded) {
            (Some(e), _) => Err::<PaxosMessage, TransportError>(e),
            (None, Some(m)) => Ok(m),
            (None, None) => Err(TransportError::Malformed),
        },
{
    match step_error(payload_read) {
        Some(e) => Err(e),
        None => match decoded {
            Some(m) => Ok(m),
            None => Err(TransportError::Malformed),
        },
    }
}

/// What follows a failed attempt.
#[derive(Clone, Copy, Debug, PartialEq, Eq, Structural)]
pub enum RetryDecision {
    /// Try again; this is the number of retries made so far, this one
    /// included.
    Again(u32),
    /// Give up and report the error of the attempt.
    Stop,
}

/// What follows a failed send: any error is tried again until `retries`
/// retries have been made.
pub open spec fn send_retry(attempt: u32, retries: u32) -> RetryDecision {
    if attempt >= retries {
        RetryDecision::Stop
    } else {
        RetryDecision::Again((attempt + 1) as u32)
    }
}

/// What follows a failed receive: only a timeout or a refused connection is
/// tried again, until `retries` retries have been made.
pub open spec fn receive_retry(error: TransportError, attempt: u32, retries: u32) -> RetryDecision {
    if error.is_transient() && attempt < retries {
        RetryDecision::Again((attempt + 1) as u32)
    } else {
        RetryDecision::Stop
    }
}

/// Decides what follows a send that failed with `error` after `attempt`
/// retries.
pub fn after_send_failure(error: TransportError, attempt: u32, retries: u32) -> (r: RetryDecision)
    ensures
        r == send_retry(attempt, retries),
{
    if attempt >= retries {
        RetryDecision::Stop
    } else {
        RetryDecision::Again(attempt + 1)
    }
}

/// Decides what follows a receive that failed with `error` after `attempt`
/// retries.
pub fn after_receive_failure(error: TransportError, attempt: u32, retries: u32) -> (r:
    RetryDecision)
    ensures
        r == receive_retry(error, attempt, retries),
{
    let transient = match error {
        TransportError::TimedOut => true,
        TransportError::ConnectionRefused => true,
        _ => false,
    };
    if transient && attempt < retries {
        RetryDecision::Again(attempt + 1)
    } else {
        RetryDecision::Stop
    }
}

/// What a send with retries returns when its attempts end as `outcomes`
/// says, one after the other, counted from `attempt` retries made: the
/// first success, or the error of the attempt after which it gives up.
/// `None` where the attempts run out before either.
pub open spec fn send_with_retry_result(
    outcomes: Seq<Result<(), TransportError>>,
    attempt: u32,
    retries: u32,
) -> Option<Result<(), TransportError>>
    decreases outcomes.len(),
{
    if outcomes.len() == 0 {
        None
    } else {
        match outcomes[0] {
            Ok(_) => Some(Ok(())),
            Err(e) => match send_retry(attempt, retries) {
                RetryDecision::Stop => Some(Err(e)),
                RetryDecision::Again(next) => send_with_retry_result(
                    outcomes.drop_first(),
                    next,
                    retries,
                ),
            },
        }
    }
}

/// Replays a send with retries whose attempts ended as `outcomes` says, one
/// after the other: the first success, or the error of the attempt after
/// which the send gives up; `None` where the attempts run out before either.
pub fn replay_send_with_retry(outcomes: &[Result<(), TransportError>], retries: u32) -> (r: Option<
    Result<(), TransportError>,
>)
    ensures
        r == send_with_retry_result(outcomes@, 0, retries),
{
    let mut attempt: u32 = 0;
    let mut i: usize = 0;
    assert(outcomes@.subrange(0, outcomes@.len() as int) =~= outcomes@);
    while i < outcomes.len()
        invariant
            i <= outcomes@.len(),
            send_with_retry_result(outcomes@, 0, retries) == send_with_retry_result(
                outcomes@.subrange(i as int, outcomes@.len() as int),
                attempt,
                retries,
            ),
        decreases outcomes@.len() - i,
    {
        let ghost pending = outcomes@.subrange(i as int, outcomes@.len() as int);
        assert(pending[0] == outcomes@[i as int]);
        assert(pending.drop_first() =~= outcomes@.subrange(i + 1, outcomes@.len() as int));
        match outcomes[i] {
            Ok(_) => {
                return Some(Ok(()));
            },
            Err(e) => match after_send_failure(e, attempt, retries) {
                RetryDecision::Stop => {
                    return Some(Err(e));
                },
                RetryDecision::Again(next) => {
                    attempt = next;
                },
            },
        }
        i += 1;
    }
    assert(outcomes@.subrange(i as int, outcomes@.len() as int).len() == 0);
    None
}

/// What a receive with retries returns when its attempts end as `outcomes`
/// says: the first message, or the error of the attempt after which it
/// gives up. `None` where the attempts run out before either.
pub open spec fn receive_with_retry_result<T>(
    outcomes: Seq<Result<T, TransportError>>,
    attempt: u32,
    retries: u32,
) -> Option<Result<T, TransportError>>
    decreases outcomes.len(),
{
    if outcomes.len() == 0 {
        None
    } else {
        match outcomes[0] {
            Ok(m) => Some(Ok(m)),
            Err(e) => match receive_retry(e, attempt, retries) {
                RetryDecision::Stop => Some(Err(e)),
                RetryDecision::Again(next) => receive_with_retry_result(
                    outcomes.drop_first(),
                    next,
                    retries,
                ),
            },
        }
    }
}

/// `errors` as the outcomes of as many failed sends.
pub open spec fn failed_sends(errors: Seq<TransportError>) -> Seq<Result<(), TransportError>> {
    Seq::new(errors.len(), |i: int| Err::<(), TransportError>(errors[i]))
}

/// A send that may still make as many retries as attempts fail, and then
/// meets a success, succeeds.
pub proof fn lemma_send_retry_within_budget(
    errors: Seq<TransportError>,
    attempt: u32,
    retries: u32,
    rest: Seq<Result<(), TransportError>>,
)
    requires
        attempt + errors.len() <= retries,
    ensures
        send_with_retry_result(failed_sends(errors) + seq![Ok(())] + rest, attempt, retries)
            == Some(Ok::<(), TransportError>(())),
    decreases errors.len(),
{
    let outcomes = failed_sends(errors) + seq![Ok(())] + rest;
    if errors.len() > 0 {
        let tail = errors.drop_first();
        assert(outcomes.drop_first() =~= failed_sends(tail) + seq![Ok(())] + rest);
        lemma_send_retry_within_budget(tail, (attempt + 1) as u32, retries, rest);
    }
}

/// A send that meets one failure more than it may make retries returns the
/// error of the last of these attempts, whatever would have followed.
pub proof fn lemma_send_retry_budget_spent(
    errors: Seq<TransportError>,
    attempt: u32,
    retries: u32,
    rest: Seq<Result<(), TransportError>>,
)
    requires
        attempt <= retries,
        attempt + errors.len() == retries + 1,
    ensures
        send_with_retry_result(failed_sends(errors) + rest, attempt, retries) == Some(
            Err::<(), TransportError>(errors.last()),
        ),
    decreases errors.len(),
{
    let outcomes = failed_sends(errors) + rest;
    if errors.len() > 1 {
        let tail = errors.drop_first();
        assert(outcomes.drop_first() =~= failed_sends(tail) + rest);
        lemma_send_retry_budget_spent(tail, (attempt + 1) as u32, retries, rest);
    }
}

/// `errors` as the outcomes of as many failed receives.
pub open spec fn failed_receives<T>(errors: Seq<TransportError>) -> Seq<Result<T, TransportError>> {
    Seq::new(errors.len(), |i: int| Err::<T, TransportError>(errors[i]))
}

/// A receive that meets only timeouts and refused connections, no more of
/// them than it may make retries, and then a message, returns that message.
pub proof fn lemma_receive_retry_within_budget<T>(
    errors: Seq<TransportError>,
    attempt: u32,
    retries: u32,
    message: T,
    rest: Seq<Result<T, TransportError>>,
)
    requires
        attempt + errors.len() <= retries,
        forall|i: int| 0 <= i < errors.len() ==> (#[trigger] errors[i]).is_transient(),
    ensures
        receive_with_retry_result(
            failed_receives::<T>(errors) + seq![Ok(message)] + rest,
            attempt,
            retries,
        ) == Some(Ok::<T, TransportError>(message)),
    decreases errors.len(),
{
    let outcomes = failed_receives::<T>(errors) + seq![Ok(message)] + rest;
    if errors.len() > 0 {
        let tail = errors.drop_first();
        assert(errors[0].is_transient());
        assert(outcomes.drop_first() =~= failed_receives::<T>(tail) + seq![Ok(message)] + rest);
        lemma_receive_retry_within_budget(tail, (attempt + 1) as u32, retries, message, rest);
    }
}

/// A receive with retries returns at once the first error that is neither
/// a timeout nor a refused connection.
pub proof fn lemma_receive_stops_on_hard_error<T>(
    error: TransportError,
    attempt: u32,
    retries: u32,
    rest: Seq<Result<T, TransportError>>,
)
    requires
        !error.is_transient(),
    ensures
        receive_with_retry_result(seq![Err::<T, TransportError>(error)] + rest, attempt, retries)
            == Some(Err::<T, TransportError>(error)),
{
}

} // verus!
