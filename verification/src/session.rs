//! The capture session: interface binding, cooperative start/stop, and the
//! decision logic of the producer/consumer pipeline.
//!
//! One session owns one producer generation at a time, coordinated by a
//! single shared cancellation signal. The signal is raised once and never
//! reset: a new generation gets a fresh signal. Cancellation is cooperative:
//! the producer polls the signal every poll-check interval, so worst-case
//! shutdown latency is one such interval, and `stop_capture` never blocks.
//! The reads from the capture device and the thread plumbing live with the
//! embedding program; the decisions they feed are here and verified.

use core::sync::atomic::{AtomicBool, Ordering};
use std::sync::Arc;
use vstd::prelude::*;

use crate::decoder::{decode, spec_decode, DHCPPacket, PacketModel};
use crate::resolver::{resolve, spec_device_matches, DeviceDescriptor};

verus! {

/// The errors a `start` caller can see. Everything else that can go wrong in
/// a running session is absorbed locally and never surfaced.
#[derive(Clone, Copy, Debug, PartialEq, Eq, Structural)]
pub enum DHCPError {
    /// No available device matches the selector; no session is created.
    InterfaceNotFound,
    /// The matched device could not be opened; fatal for that start call.
    DeviceOpenFailed,
}

/// The fixed capture filter expression applied at the device before polling
/// begins. Failure to apply it is recovered locally by falling back to an
/// unfiltered capture, so downstream code tolerates non-DHCP frames.
pub fn capture_filter_expression() -> (r: &'static str)
    ensures
        r@ == "udp and (port 67 or port 68)"@,
{
    "udp and (port 67 or port 68)"
}

/// How many consecutive read failures are tolerated before the producer adds
/// a short sleep between retries. The loop itself never terminates on read
/// failures, however many.
pub const MAX_CONSECUTIVE_ERRORS: u32 = 5;

/// Relies on Arc::clone: the clone is a second handle to the very value the
/// original points at, so the two are the same value to a specification.
#[verifier::external_body]
fn arc_clone_flag(arc: &Arc<AtomicBool>) -> (res: Arc<AtomicBool>)
    ensures
        res == *arc,
{
    Arc::clone(arc)
}

/// The shared cancellation signal of one producer generation: a boolean set
/// once by `stop_capture` and polled by the producer. Its value is shared
/// across threads, so no read is pinned to a value here; the producer's
/// decision logic is verified for either outcome.
pub struct CancelSignal {
    flag: Arc<AtomicBool>,
}

impl CancelSignal {
    /// A fresh, unraised signal for a new generation.
    pub fn new() -> (r: CancelSignal) {
        CancelSignal { flag: Arc::new(AtomicBool::new(false)) }
    }

    /// A second handle to this same signal: what one side raises, the other
    /// observes.
    pub fn duplicate(&self) -> (r: CancelSignal)
        ensures
            r == *self,
    {
        CancelSignal { flag: arc_clone_flag(&self.flag) }
    }

    /// Raises the signal. A raised signal is never reset while a producer
    /// holds it; a new generation requires a new signal.
    pub fn cancel(&self) {
        self.flag.store(true, Ordering::SeqCst);
    }

    /// Polls the signal. Another thread may raise it at any moment, so the
    /// result says only what was observed.
    pub fn is_cancelled(&self) -> (r: bool) {
        self.flag.load(Ordering::SeqCst)
    }
}

/// One capture session: the interface selector and, while a generation is
/// current, the cancellation signal handed to its producer.
pub struct DHCPCapture {
    interface_name: String,
    signal: Option<CancelSignal>,
}

impl DHCPCapture {
    /// Whether a producer generation is logically current. The session is
    /// otherwise idle.
    pub closed spec fn spec_is_running(&self) -> bool {
        self.signal is Some
    }

    /// The selector this session resolves devices against.
    pub closed spec fn spec_selector(&self) -> Seq<char> {
        self.interface_name@
    }

    /// The cancellation signal of the current generation, if one is current.
    pub closed spec fn spec_signal(&self) -> Option<CancelSignal> {
        self.signal
    }

    /// Creates an idle session bound to the given selector.
    pub fn new(interface_name: &str) -> (r: Result<Self, DHCPError>)
        ensures
            r matches Ok(s) && s.spec_selector() == interface_name@ && !s.spec_is_running(),
    {
        Ok(DHCPCapture { interface_name: String::from_str(interface_name), signal: None })
    }

    /// Resolves this session's selector against the available devices: the
    /// first match in list order wins; no match surfaces `InterfaceNotFound`
    /// and the session stays as it was, with no producer created.
    pub fn resolve_target(&self, devices: &Vec<DeviceDescriptor>) -> (r: Result<usize, DHCPError>)
        ensures
            match r {
                Ok(i) => i < devices@.len() && spec_device_matches(
                    devices@[i as int]@,
                    self.spec_selector(),
                ) && (forall|j: int|
                    0 <= j < i ==> !spec_device_matches(devices@[j]@, self.spec_selector())),
                Err(e) => e == DHCPError::InterfaceNotFound && (forall|j: int|
                    0 <= j < devices@.len() ==> !spec_device_matches(
                        devices@[j]@,
                        self.spec_selector(),
                    )),
            },
    {
        match resolve(self.interface_name.as_str(), devices) {
            Some(i) => Ok(i),
            None => Err(DHCPError::InterfaceNotFound),
        }
    }

    /// Begins a new producer generation, after the device was opened: stores
    /// a fresh, unraised cancellation signal and returns the producer's
    /// handle to that same signal, so that `stop_capture` raises exactly the
    /// signal the producer polls. Starting over a still-live previous
    /// producer is the documented race: the old generation keeps its own
    /// signal.
    pub fn activate(&mut self) -> (sig: CancelSignal)
        ensures
            final(self).spec_is_running(),
            final(self).spec_selector() == old(self).spec_selector(),
            final(self).spec_signal() == Some(sig),
    {
        let sig = CancelSignal::new();
        self.signal = Some(sig.duplicate());
        sig
    }

    /// Requests termination of the current generation and returns the session
    /// to idle. Idempotent: with no generation current it changes nothing and
    /// does not error. It never blocks; the producer observes the raised
    /// signal within one poll-check interval.
    pub fn stop_capture(&mut self)
        ensures
            !final(self).spec_is_running(),
            final(self).spec_selector() == old(self).spec_selector(),
            !old(self).spec_is_running() ==> *final(self) == *old(self),
    {
        match &self.signal {
            Some(sig) => {
                sig.cancel();
            },
            None => {},
        }
        self.signal = None;
    }

    /// Whether a generation is logically current. Callers that need
    /// synchronous shutdown poll this and wait out the poll-check interval
    /// themselves, since `stop_capture` does not join the producer.
    pub fn is_active(&self) -> (r: bool)
        ensures
            r == self.spec_is_running(),
    {
        self.signal.is_some()
    }
}

/// One observation of the producer loop: the cancellation signal was seen
/// raised, a raw frame arrived (with its capture time in milliseconds since
/// the Unix epoch), or the read failed or timed out.
#[derive(Clone, Debug)]
pub enum PollEvent {
    Cancelled,
    Frame(i64, Vec<u8>),
    ReadFailed,
}

/// The mathematical value of a producer observation.
pub enum PollEventModel {
    Cancelled,
    Frame(int, Seq<u8>),
    ReadFailed,
}

impl View for PollEvent {
    type V = PollEventModel;

    open spec fn view(&self) -> PollEventModel {
        match self {
            PollEvent::Cancelled => PollEventModel::Cancelled,
            PollEvent::Frame(ts, bytes) => PollEventModel::Frame(*ts as int, bytes@),
            PollEvent::ReadFailed => PollEventModel::ReadFailed,
        }
    }
}

impl DeepView for PollEvent {
    type V = PollEventModel;

    open spec fn deep_view(&self) -> PollEventModel {
        self.view()
    }
}

/// What the producer does with one observation.
pub enum ProducerAction {
    /// Cancellation observed: leave the loop.
    Exit,
    /// A frame decoded: hand this record to the delivery queue.
    Deliver(DHCPPacket),
    /// Keep polling at once.
    Poll,
    /// Keep polling after a short sleep, to avoid busy-spinning on a device
    /// that keeps failing.
    Backoff,
}

/// The consecutive-error counter after one more read failure; it saturates
/// rather than wrap.
pub open spec fn spec_bump_errors(n: u32) -> u32 {
    if n < u32::MAX {
        (n + 1) as u32
    } else {
        n
    }
}

/// Decides the producer's next action from one observation, maintaining the
/// consecutive-error counter. This is the loop's decision logic in full: the
/// device read, the enqueue and the sleep are performed by the embedding
/// loop, one per action.
pub fn producer_step(event: &PollEvent, consecutive_errors: &mut u32) -> (r: ProducerAction)
    ensures
        match event@ {
            PollEventModel::Cancelled => r is Exit && *final(consecutive_errors) == *old(
                consecutive_errors,
            ),
            PollEventModel::Frame(ts, bytes) => *final(consecutive_errors) == 0 && match spec_decode(
                bytes,
                ts,
            ) {
                Some(p) => r matches ProducerAction::Deliver(q) && q@ == p,
                None => r is Poll,
            },
            PollEventModel::ReadFailed => *final(consecutive_errors) == spec_bump_errors(
                *old(consecutive_errors),
            ) && (if *final(consecutive_errors) > MAX_CONSECUTIVE_ERRORS {
                r is Backoff
            } else {
                r is Poll
            }),
        },
{
    match event {
        PollEvent::Cancelled => ProducerAction::Exit,
        PollEvent::Frame(ts, bytes) => {
            *consecutive_errors = 0;
            match decode(bytes.as_slice(), *ts) {
                Some(p) => ProducerAction::Deliver(p),
                None => ProducerAction::Poll,
            }
        },
        PollEvent::ReadFailed => {
            if *consecutive_errors < u32::MAX {
                *consecutive_errors = *consecutive_errors + 1;
            }
            if *consecutive_errors > MAX_CONSECUTIVE_ERRORS {
                ProducerAction::Backoff
            } else {
                ProducerAction::Poll
            }
        },
    }
}

/// The records the sink receives, in order, for a sequence of producer
/// observations: every decodable frame seen strictly before the first
/// observed cancellation, and nothing at or after it.
pub open spec fn spec_deliveries(events: Seq<PollEventModel>) -> Seq<PacketModel>
    decreases events.len(),
{
    if events.len() == 0 {
        Seq::empty()
    } else {
        match events[0] {
            PollEventModel::Cancelled => Seq::empty(),
            PollEventModel::Frame(ts, bytes) => match spec_decode(bytes, ts) {
                Some(p) => seq![p] + spec_deliveries(events.drop_first()),
                None => spec_deliveries(events.drop_first()),
            },
            PollEventModel::ReadFailed => spec_deliveries(events.drop_first()),
        }
    }
}

/// The decodable subset of a sequence of observations, in original relative
/// order, with cancellation ignored; what the pipeline owes the sink when no
/// stop is requested.
pub open spec fn spec_decoded_subset(events: Seq<PollEventModel>) -> Seq<PacketModel>
    decreases events.len(),
{
    if events.len() == 0 {
        Seq::empty()
    } else {
        let rest = spec_decoded_subset(events.drop_first());
        match events[0] {
            PollEventModel::Frame(ts, bytes) => match spec_decode(bytes, ts) {
                Some(p) => seq![p] + rest,
                None => rest,
            },
            _ => rest,
        }
    }
}

/// Runs the producer and consumer over a fixed sequence of observations:
/// each decodable frame is delivered exactly once, in capture order, and the
/// run stops at the first observed cancellation.
pub fn producer_run(events: &Vec<PollEvent>) -> (out: Vec<DHCPPacket>)
    ensures
        out.deep_view() == spec_deliveries(events.deep_view()),
{
    let n = events.len();
    let mut out: Vec<DHCPPacket> = Vec::new();
    proof {
        assert(out.deep_view() =~= Seq::<PacketModel>::empty());
        assert(events.deep_view().skip(0) =~= events.deep_view());
    }
    let mut i: usize = 0;
    while i < n
        invariant
            n == events@.len(),
            i <= n,
            spec_deliveries(events.deep_view()) =~= out.deep_view() + spec_deliveries(
                events.deep_view().skip(i as int),
            ),
        ensures
            spec_deliveries(events.deep_view()) =~= out.deep_view(),
        decreases n - i,
    {
        proof {
            assert(events.deep_view()[i as int] == events@[i as int]@);
            assert(events.deep_view().skip(i as int)[0] == events.deep_view()[i as int]);
            assert(events.deep_view().skip(i as int).drop_first() =~= events.deep_view().skip(
                i as int + 1,
            ));
        }
        match &events[i] {
            PollEvent::Cancelled => {
                proof {
                    assert(spec_deliveries(events.deep_view().skip(i as int))
                        =~= Seq::<PacketModel>::empty());
                }
                break;
            },
            PollEvent::Frame(ts, bytes) => {
                match decode(bytes.as_slice(), *ts) {
                    Some(p) => {
                        let ghost old_dv = out.deep_view();
                        let ghost pm = p@;
                        out.push(p);
                        proof {
                            assert(out.deep_view() =~= old_dv.push(pm));
                            assert(old_dv + (seq![pm] + spec_deliveries(
                                events.deep_view().skip(i as int + 1),
                            )) =~= old_dv.push(pm) + spec_deliveries(
                                events.deep_view().skip(i as int + 1),
                            ));
                        }
                    },
                    None => {},
                }
            },
            PollEvent::ReadFailed => {},
        }
        i = i + 1;
    }
    proof {
        if i >= n {
            assert(events.deep_view().skip(n as int) =~= Seq::<PollEventModel>::empty());
        }
    }
    out
}

/// Once the producer observes cancellation, nothing more reaches the sink:
/// whatever observations follow the first cancellation, the deliveries are
/// exactly those of the run that ends there.
pub proof fn lemma_nothing_delivered_after_cancel(
    before: Seq<PollEventModel>,
    after: Seq<PollEventModel>,
)
    ensures
        spec_deliveries(before.push(PollEventModel::Cancelled) + after) == spec_deliveries(
            before.push(PollEventModel::Cancelled),
        ),
    decreases before.len(),
{
    let whole = before.push(PollEventModel::Cancelled) + after;
    let stopped = before.push(PollEventModel::Cancelled);
    if before.len() == 0 {
        assert(whole[0] == PollEventModel::Cancelled);
        assert(stopped[0] == PollEventModel::Cancelled);
    } else {
        assert(whole[0] == before[0]);
        assert(stopped[0] == before[0]);
        assert(whole.drop_first() =~= before.drop_first().push(PollEventModel::Cancelled) + after);
        assert(stopped.drop_first() =~= before.drop_first().push(PollEventModel::Cancelled));
        lemma_nothing_delivered_after_cancel(before.drop_first(), after);
    }
}

/// A run in which the producer never observes cancellation delivers exactly
/// the decodable subset of its observations, in original relative order.
pub proof fn lemma_uncancelled_run_delivers_decodable_subset(events: Seq<PollEventModel>)
    requires
        forall|k: int| 0 <= k < events.len() ==> !(#[trigger] events[k] is Cancelled),
    ensures
        spec_deliveries(events) == spec_decoded_subset(events),
    decreases events.len(),
{
    if events.len() > 0 {
        assert(!(events[0] is Cancelled));
        assert(forall|k: int|
            0 <= k < events.drop_first().len() ==> #[trigger] events.drop_first()[k] == events[k
                + 1]);
        lemma_uncancelled_run_delivers_decodable_subset(events.drop_first());
    }
}

} // verus!
