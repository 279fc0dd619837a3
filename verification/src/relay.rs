//! The relay's decision logic, one connection at a time.
//!
//! The code that owns sockets performs reads, writes, dialing and
//! scheduling; everything it has to decide — which preamble bytes the
//! back-end is owed, what to do with each read, how a failure is
//! classified and logged, whether the acceptor keeps listening — is a
//! pure function here, stated over every possible outcome of the I/O.

use vstd::prelude::*;

use crate::addr::Endpoint;
use crate::header::HeaderError;
use crate::header::encode_v1;
use crate::header::encode_v2;
use crate::header::spec_v1_header;
use crate::header::spec_v2_header;

verus! {

/// Whether and how a PROXY header opens the back-end stream.
#[derive(Clone, Copy, Debug, PartialEq, Eq, Structural)]
pub enum ProxyProtocolMode {
    Disabled,
    V1,
    V2,
}

/// The per-process configuration: made once at startup, never mutated,
/// handed read-only to every connection.
#[derive(Clone, Copy, Debug)]
pub struct Config {
    pub mode: ProxyProtocolMode,
    pub listen: Endpoint,
    pub backend: Endpoint,
}

/// The bytes owed to the back-end before any client byte: nothing when
/// disabled, else the selected header.
pub open spec fn spec_preamble(mode: ProxyProtocolMode, client: Endpoint, proxy: Endpoint) -> Seq<
    u8,
> {
    match mode {
        ProxyProtocolMode::Disabled => Seq::empty(),
        ProxyProtocolMode::V1 => spec_v1_header(client, proxy),
        ProxyProtocolMode::V2 => spec_v2_header(client, proxy),
    }
}

/// The bytes to write to the back-end before relaying, for a connection
/// from `client` arriving at the relay's address `proxy`. Empty when the
/// mode is `Disabled`; exactly the version 1 or 2 header otherwise.
pub fn preamble(mode: ProxyProtocolMode, client: &Endpoint, proxy: &Endpoint) -> (r: Result<
    Vec<u8>,
    HeaderError,
>)
    ensures
        (mode is Disabled || client.ip.spec_same_family(proxy.ip)) ==> (r matches Ok(v) && v@
            == spec_preamble(mode, *client, *proxy)),
        (!(mode is Disabled) && !client.ip.spec_same_family(proxy.ip)) ==> (r matches Err(e) && e
            == HeaderError::MixedAddressFamily),
{
    match mode {
        ProxyProtocolMode::Disabled => Ok(Vec::new()),
        ProxyProtocolMode::V1 => encode_v1(client, proxy),
        ProxyProtocolMode::V2 => encode_v2(client, proxy),
    }
}

/// One side of the relayed connection.
#[derive(Clone, Copy, Debug, PartialEq, Eq, Structural)]
pub enum Leg {
    Client,
    Backend,
}

impl Leg {
    /// The other side.
    pub open spec fn spec_peer(self) -> Leg {
        match self {
            Leg::Client => Leg::Backend,
            Leg::Backend => Leg::Client,
        }
    }

    /// The other side.
    pub fn peer(&self) -> (r: Leg)
        ensures
            r == self.spec_peer(),
    {
        match self {
            Leg::Client => Leg::Backend,
            Leg::Backend => Leg::Client,
        }
    }
}

/// The kinds of I/O failure the relay tells apart when logging.
#[derive(Clone, Copy, Debug, PartialEq, Eq, Structural)]
pub enum IoErrorClass {
    BrokenPipe,
    ConnectionRefused,
    ConnectionAborted,
    ConnectionReset,
    Other,
}

/// What one read on a leg produced: some bytes (none at all means the
/// peer closed in an orderly way) or a failure.
#[derive(Debug)]
pub enum ReadOutcome {
    Data(Vec<u8>),
    Failed(IoErrorClass),
}

/// Why the relay stopped.
#[derive(Clone, Copy, Debug, PartialEq, Eq, Structural)]
pub enum StopReason {
    PeerClosed(Leg),
    ReadFailed(Leg, IoErrorClass),
}

/// The relay's next move: hand these bytes to the named side, or tear
/// both connections down.
#[derive(Debug)]
pub enum RelayDecision {
    Forward(Leg, Vec<u8>),
    Stop(StopReason),
}

/// Decide what one read means for the relay. Bytes read on one side are
/// forwarded to the other, unmodified; an empty read or a failed read on
/// either side stops the whole relay, both directions at once.
pub fn relay_step(source: Leg, outcome: ReadOutcome) -> (d: RelayDecision)
    ensures
        match outcome {
            ReadOutcome::Data(buf) => if buf@.len() > 0 {
                d matches RelayDecision::Forward(to, payload) && to == source.spec_peer()
                    && payload@ == buf@
            } else {
                d == RelayDecision::Stop(StopReason::PeerClosed(source))
            },
            ReadOutcome::Failed(k) => d == RelayDecision::Stop(StopReason::ReadFailed(source, k)),
        },
{
    match outcome {
        ReadOutcome::Data(buf) => {
            if buf.len() > 0 {
                RelayDecision::Forward(source.peer(), buf)
            } else {
                RelayDecision::Stop(StopReason::PeerClosed(source))
            }
        },
        ReadOutcome::Failed(k) => RelayDecision::Stop(StopReason::ReadFailed(source, k)),
    }
}

/// The views of a vector of buffers.
pub open spec fn chunk_views(s: Seq<Vec<u8>>) -> Seq<Seq<u8>> {
    s.map_values(|v: Vec<u8>| v@)
}

/// The position of the read that closes the stream — the first empty
/// one — or the number of reads when none does.
pub open spec fn close_index(chunks: Seq<Seq<u8>>) -> int
    decreases chunks.len(),
{
    if chunks.len() == 0 {
        0
    } else if chunks[0].len() == 0 {
        0
    } else {
        1 + close_index(chunks.drop_first())
    }
}

/// All bytes of `chunks`, in order.
pub open spec fn flatten_chunks(chunks: Seq<Seq<u8>>) -> Seq<u8>
    decreases chunks.len(),
{
    if chunks.len() == 0 {
        Seq::empty()
    } else {
        chunks[0] + flatten_chunks(chunks.drop_first())
    }
}

/// The bytes one direction of the relay writes out, given the successive
/// reads `chunks` on its source side: each chunk in order, up to the
/// first empty read.
pub open spec fn spec_session_out(chunks: Seq<Seq<u8>>) -> Seq<u8>
    decreases chunks.len(),
{
    if chunks.len() == 0 {
        Seq::empty()
    } else if chunks[0].len() == 0 {
        Seq::empty()
    } else {
        chunks[0] + spec_session_out(chunks.drop_first())
    }
}

/// Round trip: what one direction of the relay delivers is exactly what
/// was read before the first orderly close — every byte, unmodified and
/// in order, and not a byte more.
pub proof fn lemma_session_round_trip(chunks: Seq<Seq<u8>>)
    ensures
        0 <= close_index(chunks) <= chunks.len(),
        spec_session_out(chunks) == flatten_chunks(chunks.take(close_index(chunks))),
    decreases chunks.len(),
{
    if chunks.len() == 0 {
        assert(chunks.take(0) =~= Seq::<Seq<u8>>::empty());
    } else if chunks[0].len() == 0 {
        assert(chunks.take(0) =~= Seq::<Seq<u8>>::empty());
    } else {
        let rest = chunks.drop_first();
        lemma_session_round_trip(rest);
        let k = close_index(chunks);
        assert(k == 1 + close_index(rest));
        assert(chunks.take(k).len() == k);
        assert(chunks.take(k)[0] == chunks[0]);
        assert(chunks.take(k).drop_first() =~= rest.take(close_index(rest)));
    }
}

fn copy_bytes(src: &Vec<u8>, i: usize, out: &mut Vec<u8>)
    requires
        i <= src@.len(),
    ensures
        final(out)@ == old(out)@ + src@.skip(i as int),
    decreases src@.len() - i,
{
    if i < src.len() {
        out.push(src[i]);
        copy_bytes(src, i + 1, out);
        assert(out@ =~= old(out)@ + src@.skip(i as int));
    } else {
        assert(out@ =~= old(out)@ + src@.skip(i as int));
    }
}

fn run_from(source: Leg, reads: &Vec<Vec<u8>>, i: usize, out: &mut Vec<u8>)
    requires
        i <= reads@.len(),
    ensures
        final(out)@ == old(out)@ + spec_session_out(chunk_views(reads@).skip(i as int)),
    decreases reads@.len() - i,
{
    let ghost tail = chunk_views(reads@).skip(i as int);
    if i < reads.len() {
        let mut chunk: Vec<u8> = Vec::new();
        copy_bytes(&reads[i], 0, &mut chunk);
        assert(chunk@ =~= reads@[i as int]@);
        let d = relay_step(source, ReadOutcome::Data(chunk));
        match d {
            RelayDecision::Forward(_, mut payload) => {
                out.append(&mut payload);
                run_from(source, reads, i + 1, out);
                assert(tail.drop_first() =~= chunk_views(reads@).skip(i + 1));
                assert(out@ =~= old(out)@ + spec_session_out(tail));
            },
            RelayDecision::Stop(_) => {
                assert(out@ =~= old(out)@ + spec_session_out(tail));
            },
        }
    } else {
        assert(out@ =~= old(out)@ + spec_session_out(tail));
    }
}

/// Drive one direction of the relay over the successive reads `reads`,
/// collecting everything the relay forwards: the verified core of the
/// copy loop, which the socket-owning loop mirrors one read at a time.
pub fn run_direction(source: Leg, reads: &Vec<Vec<u8>>) -> (out: Vec<u8>)
    ensures
        out@ == spec_session_out(chunk_views(reads@)),
{
    let mut out: Vec<u8> = Vec::new();
    run_from(source, reads, 0, &mut out);
    assert(chunk_views(reads@).skip(0) =~= chunk_views(reads@));
    out
}

/// How loudly a finished connection's outcome is reported.
#[derive(Clone, Copy, Debug, PartialEq, Eq, Structural)]
pub enum LogSeverity {
    Info,
    Warn,
    Error,
}

/// Failures that ordinary network churn produces: the peer went away.
pub open spec fn spec_is_peer_reset(k: IoErrorClass) -> bool {
    k is BrokenPipe || k is ConnectionRefused || k is ConnectionAborted || k is ConnectionReset
}

/// Reset-like failures are expected churn and logged as warnings; any
/// other failure is unexpected and logged as an error.
pub fn error_severity(k: &IoErrorClass) -> (s: LogSeverity)
    ensures
        spec_is_peer_reset(*k) ==> s is Warn,
        !spec_is_peer_reset(*k) ==> s is Error,
{
    match k {
        IoErrorClass::BrokenPipe => LogSeverity::Warn,
        IoErrorClass::ConnectionRefused => LogSeverity::Warn,
        IoErrorClass::ConnectionAborted => LogSeverity::Warn,
        IoErrorClass::ConnectionReset => LogSeverity::Warn,
        IoErrorClass::Other => LogSeverity::Error,
    }
}

/// A connection-scoped failure. Every variant concerns exactly one
/// connection; none stops the acceptor or another connection.
#[derive(Clone, Copy, Debug, PartialEq, Eq, Structural)]
pub enum RelayError {
    /// The back-end could not be dialed.
    Dial(IoErrorClass),
    /// The PROXY header could not be built for this address pair.
    Header(HeaderError),
    /// The PROXY header could not be written to the back-end.
    HeaderWrite(IoErrorClass),
    /// The peer went away mid-stream.
    PeerReset(IoErrorClass),
    /// Any other I/O failure during the relay.
    UnexpectedIo(IoErrorClass),
}

/// Where in a connection's lifecycle an I/O failure happened.
#[derive(Clone, Copy, Debug, PartialEq, Eq, Structural)]
pub enum FailureSite {
    Dial,
    HeaderWrite,
    Stream,
}

/// Name an I/O failure after where it happened: dial and header-write
/// failures keep their site; a mid-stream failure is a peer reset when
/// its class is reset-like, unexpected otherwise.
pub fn classify_failure(site: FailureSite, k: IoErrorClass) -> (e: RelayError)
    ensures
        site is Dial ==> e == RelayError::Dial(k),
        site is HeaderWrite ==> e == RelayError::HeaderWrite(k),
        (site is Stream && spec_is_peer_reset(k)) ==> e == RelayError::PeerReset(k),
        (site is Stream && !spec_is_peer_reset(k)) ==> e == RelayError::UnexpectedIo(k),
{
    match site {
        FailureSite::Dial => RelayError::Dial(k),
        FailureSite::HeaderWrite => RelayError::HeaderWrite(k),
        FailureSite::Stream => {
            match k {
                IoErrorClass::Other => RelayError::UnexpectedIo(k),
                _ => RelayError::PeerReset(k),
            }
        },
    }
}

/// The severity a finished connection's error is logged at: resets are
/// warnings, everything else an error, and a dial or header-write
/// failure goes by the class of its underlying I/O failure.
pub fn relay_error_severity(e: &RelayError) -> (s: LogSeverity)
    ensures
        match *e {
            RelayError::Dial(k) => (s is Warn <==> spec_is_peer_reset(k)) && (s is Error
                <==> !spec_is_peer_reset(k)),
            RelayError::Header(_) => s is Error,
            RelayError::HeaderWrite(k) => (s is Warn <==> spec_is_peer_reset(k)) && (s is Error
                <==> !spec_is_peer_reset(k)),
            RelayError::PeerReset(_) => s is Warn,
            RelayError::UnexpectedIo(_) => s is Error,
        },
{
    match e {
        RelayError::Dial(k) => error_severity(k),
        RelayError::Header(_) => LogSeverity::Error,
        RelayError::HeaderWrite(k) => error_severity(k),
        RelayError::PeerReset(_) => LogSeverity::Warn,
        RelayError::UnexpectedIo(_) => LogSeverity::Error,
    }
}

/// What one accept attempt produced; the accepted socket itself stays
/// with the caller.
#[derive(Clone, Copy, Debug, PartialEq, Eq, Structural)]
pub enum AcceptOutcome {
    Accepted,
    Failed(IoErrorClass),
}

/// The acceptor's move after one accept attempt. There is no variant
/// that stops the listening loop: accept failures, and anything that
/// later happens to a dispatched connection, leave the acceptor serving
/// the next client.
#[derive(Clone, Copy, Debug, PartialEq, Eq, Structural)]
pub enum AcceptDecision {
    Dispatch,
    LogAndContinue,
}

/// One turn of the accept loop: dispatch an accepted connection to its
/// own relay, log a failed accept and keep listening. The acceptor
/// carries no state from one turn to the next, so no connection's fate —
/// a failed dial included — can influence a later turn.
pub fn accept_step(outcome: &AcceptOutcome) -> (d: AcceptDecision)
    ensures
        outcome is Accepted <==> d is Dispatch,
        outcome is Failed <==> d is LogAndContinue,
{
    match outcome {
        AcceptOutcome::Accepted => AcceptDecision::Dispatch,
        AcceptOutcome::Failed(_) => AcceptDecision::LogAndContinue,
    }
}

} // verus!
