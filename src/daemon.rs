//! The daemon's lifecycle: the process-wide slot that admits one running
//! instance, the two phases of a start, the steps of a stop, and the
//! translation of the engine's error texts.
use vstd::prelude::*;
use vstd::utf8::{decode_utf8, encode_utf8, encode_utf8_decode_utf8, encode_utf8_valid_utf8, valid_utf8};

use crate::config::{
    boundary_of, c_text, config_valid, has_nul, marshal, marshal_spec, marshal_view, BoundaryConfig,
    BoundaryView, ConfigView, DaemonConfig,
};
use crate::start_error::{StartError, StartErrorView};
use crate::text::{lossy_text, lossy_utf8};

verus! {

/// The error text of a result that the engine handed back: none when it
/// reported none, else its bytes decoded, malformed UTF-8 replaced rather
/// than refused.
pub fn decode_error(raw: Option<&[u8]>) -> (r: Option<String>)
    ensures
        r is None <==> raw is None,
        raw matches Some(b) ==> r->0@ == lossy_utf8(b@),
        raw matches Some(b) ==> (valid_utf8(b@) ==> r->0@ == decode_utf8(b@)),
{
    match raw {
        None => None,
        Some(b) => Some(lossy_text(b)),
    }
}

/// An engine text that holds a string's own bytes is well-formed UTF-8
/// and decodes back to that string, so `decode_error` hands it back
/// unchanged.
pub proof fn lemma_error_text_round_trip(s: Seq<char>)
    ensures
        valid_utf8(encode_utf8(s)),
        decode_utf8(encode_utf8(s)) == s,
{
    encode_utf8_valid_utf8(s);
    encode_utf8_decode_utf8(s);
}

/// A running daemon, as its caller sees it.
#[derive(Debug)]
pub struct Daemon {
    port: u16,
}

impl Daemon {
    /// The port the daemon listens on.
    pub closed spec fn spec_port(&self) -> u16 {
        self.port
    }

    /// The port the daemon listens on.
    #[must_use]
    pub fn port(&self) -> (r: u16)
        ensures
            r == self.spec_port(),
    {
        self.port
    }

    /// The second phase of a start: the answer of the engine's init call,
    /// its bound port and its error text, if any. An error fails the start
    /// with the engine's text as it came; otherwise the daemon listens on
    /// the port that the engine bound.
    pub fn from_init(port: u16, error: Option<String>) -> (r: Result<Daemon, StartError>)
        ensures
            match error {
                Some(m) => r matches Err(e) && e@ == StartErrorView::Lassie(m@),
                None => r matches Ok(d) && d.spec_port() == port,
            },
    {
        match error {
            Some(m) => Err(StartError::Lassie(m)),
            None => Ok(Daemon { port }),
        }
    }
}

/// Why a stop could not be carried out. None of these can be recovered
/// from: the caller is expected to abort.
#[derive(Debug, PartialEq, Clone)]
pub enum StopFailure {
    /// The lock of the process-wide slot was poisoned.
    MutexPoisoned,
    /// No daemon was registered as running.
    NotRunning,
    /// The engine's stop call reported an error, with its text.
    EngineStop(String),
    /// The worker that ran the engine ended by panicking.
    WorkerPanicked,
}

/// A `StopFailure` with its text as a sequence.
pub enum StopFailureView {
    MutexPoisoned,
    NotRunning,
    EngineStop(Seq<char>),
    WorkerPanicked,
}

impl View for StopFailure {
    type V = StopFailureView;

    open spec fn view(&self) -> StopFailureView {
        match self {
            StopFailure::MutexPoisoned => StopFailureView::MutexPoisoned,
            StopFailure::NotRunning => StopFailureView::NotRunning,
            StopFailure::EngineStop(m) => StopFailureView::EngineStop(m@),
            StopFailure::WorkerPanicked => StopFailureView::WorkerPanicked,
        }
    }
}

/// The message of a stop failure.
pub open spec fn stop_failure_message(f: StopFailureView) -> Seq<char> {
    match f {
        StopFailureView::MutexPoisoned => "global daemon mutex was poisoned"@,
        StopFailureView::NotRunning => "Daemon.drop() was called when no GoDaemon was running"@,
        StopFailureView::EngineStop(m) => "Cannot stop Lassie Daemon: "@ + m,
        StopFailureView::WorkerPanicked => "Lassie handler panicked"@,
    }
}

impl StopFailure {
    /// The human-readable message.
    pub fn message(&self) -> (r: String)
        ensures
            r@ == stop_failure_message(self@),
    {
        match self {
            StopFailure::MutexPoisoned => "global daemon mutex was poisoned".to_owned(),
            StopFailure::NotRunning => "Daemon.drop() was called when no GoDaemon was running".to_owned(),
            StopFailure::EngineStop(m) => {
                let mut r = "Cannot stop Lassie Daemon: ".to_owned();
                r.append(m.as_str());
                r
            },
            StopFailure::WorkerPanicked => "Lassie handler panicked".to_owned(),
        }
    }
}

/// What the first phase of a start gives: refused when the lock is
/// poisoned, then when a daemon is live, else what marshaling the
/// configuration gives.
pub open spec fn start_spec(poisoned: bool, live: bool, c: ConfigView, debug_enabled: bool) -> Result<
    BoundaryView,
    StartErrorView,
> {
    if poisoned {
        Err(StartErrorView::MutexPoisoned)
    } else if live {
        Err(StartErrorView::OnlyOneInstanceAllowed)
    } else {
        marshal_spec(c, debug_enabled)
    }
}

/// The process-wide slot that holds the worker of the one running daemon,
/// if any. It is meant to sit behind a lock, which its caller holds across
/// each check and the change that follows it.
pub struct Registry<W> {
    slot: Option<W>,
}

impl<W> View for Registry<W> {
    type V = Option<W>;

    closed spec fn view(&self) -> Option<W> {
        self.slot
    }
}

impl<W> Registry<W> {
    /// Whether a daemon is registered as running.
    pub open spec fn is_live(&self) -> bool {
        self@ is Some
    }

    /// An empty slot.
    pub fn new() -> (r: Registry<W>)
        ensures
            r@ is None,
    {
        Registry { slot: None }
    }

    /// Whether a daemon is registered as running.
    pub fn is_occupied(&self) -> (r: bool)
        ensures
            r == self.is_live(),
    {
        self.slot.is_some()
    }

    /// The first phase of a start, with the lock taken (`poisoned` says
    /// whether it came poisoned): the record for the engine's init call, or
    /// why the start is refused. Nothing is handed to the engine unless this
    /// succeeds.
    pub fn begin_start(&self, poisoned: bool, config: &DaemonConfig, debug_enabled: bool) -> (r:
        Result<BoundaryConfig, StartError>)
        ensures
            marshal_view(r) == start_spec(poisoned, self.is_live(), config@, debug_enabled),
    {
        if poisoned {
            return Err(StartError::MutexPoisoned);
        }
        if self.slot.is_some() {
            return Err(StartError::OnlyOneInstanceAllowed);
        }
        marshal(config, debug_enabled)
    }

    /// Registers the worker of a daemon that has just started. The caller
    /// holds the lock from `begin_start` on, so the slot is still empty.
    pub fn occupy(&mut self, worker: W)
        requires
            !old(self).is_live(),
        ensures
            final(self)@ == Some(worker),
    {
        self.slot = Some(worker);
    }

    /// The first step of a stop, with the lock taken: refused when the lock
    /// came poisoned, or when no daemon is registered.
    pub fn begin_stop(&self, poisoned: bool) -> (r: Result<(), StopFailure>)
        ensures
            poisoned ==> r matches Err(StopFailure::MutexPoisoned),
            !poisoned && !self.is_live() ==> r matches Err(StopFailure::NotRunning),
            !poisoned && self.is_live() ==> r is Ok,
    {
        if poisoned {
            Err(StopFailure::MutexPoisoned)
        } else if self.slot.is_none() {
            Err(StopFailure::NotRunning)
        } else {
            Ok(())
        }
    }

    /// Empties the slot and hands back the worker it held; refused, and the
    /// slot left as it was, when it was empty.
    pub fn release(&mut self) -> (r: Result<W, StopFailure>)
        ensures
            final(self)@ is None,
            match old(self)@ {
                Some(w) => r == Ok::<W, StopFailure>(w),
                None => r matches Err(StopFailure::NotRunning),
            },
    {
        match self.slot.take() {
            Some(w) => Ok(w),
            None => Err(StopFailure::NotRunning),
        }
    }

    /// The last step of a stop, given the error text of the engine's stop
    /// call: an error leaves the slot as it was and fails the stop;
    /// otherwise the slot is released and its worker handed back, to be
    /// joined.
    pub fn finish_stop(&mut self, stop_error: Option<String>) -> (r: Result<W, StopFailure>)
        ensures
            match stop_error {
                Some(m) => {
                    &&& r matches Err(f) && f@ == StopFailureView::EngineStop(m@)
                    &&& final(self)@ == old(self)@
                },
                None => {
                    &&& final(self)@ is None
                    &&& match old(self)@ {
                        Some(w) => r == Ok::<W, StopFailure>(w),
                        None => r matches Err(StopFailure::NotRunning),
                    }
                },
            },
    {
        match stop_error {
            Some(m) => Err(StopFailure::EngineStop(m)),
            None => self.release(),
        }
    }
}

/// While a daemon is live, every start is refused, whatever its
/// configuration: with `OnlyOneInstanceAllowed` when the lock is sound, and
/// with `MutexPoisoned` when it came poisoned, which is checked first.
pub proof fn lemma_second_start_refused<W>(
    registry: Registry<W>,
    poisoned: bool,
    c: ConfigView,
    debug_enabled: bool,
)
    requires
        registry.is_live(),
    ensures
        start_spec(poisoned, registry.is_live(), c, debug_enabled) is Err,
        !poisoned ==> start_spec(poisoned, registry.is_live(), c, debug_enabled)
            == Err::<BoundaryView, StartErrorView>(StartErrorView::OnlyOneInstanceAllowed),
        poisoned ==> start_spec(poisoned, registry.is_live(), c, debug_enabled)
            == Err::<BoundaryView, StartErrorView>(StartErrorView::MutexPoisoned),
{
}

/// Once a stop has released the slot, the slot is empty, and a start with a
/// valid configuration succeeds with the record for that configuration;
/// a second release of the same slot is refused.
pub proof fn lemma_restart_after_stop<W>(
    running: Registry<W>,
    stopped: Registry<W>,
    c: ConfigView,
    debug_enabled: bool,
)
    requires
        running.is_live(),
        stopped@ is None,
        config_valid(c),
    ensures
        start_spec(false, running.is_live(), c, debug_enabled) is Err,
        start_spec(false, stopped.is_live(), c, debug_enabled) == Ok::<
            BoundaryView,
            StartErrorView,
        >(boundary_of(c, debug_enabled)),
{
}

/// A working directory that holds a null byte fails the first phase of a
/// start, so no record reaches the engine: as `PathContainsNullByte` when
/// the directory is UTF-8, and as `PathIsNotValidUtf8` otherwise.
pub proof fn lemma_null_byte_path_refused(
    poisoned: bool,
    live: bool,
    c: ConfigView,
    debug_enabled: bool,
)
    requires
        c.temp_dir is Some,
        has_nul(c.temp_dir->0),
    ensures
        start_spec(poisoned, live, c, debug_enabled) is Err,
        !poisoned && !live && valid_utf8(c.temp_dir->0) ==> start_spec(
            poisoned,
            live,
            c,
            debug_enabled,
        ) matches Err(StartErrorView::PathContainsNullByte(_)),
        !poisoned && !live && !valid_utf8(c.temp_dir->0) ==> start_spec(
            poisoned,
            live,
            c,
            debug_enabled,
        ) == Err::<BoundaryView, StartErrorView>(
            StartErrorView::PathIsNotValidUtf8(c.temp_dir->0),
        ),
{
}

/// A start that passes its checks hands the engine the requested port as
/// it is (0 asks the engine to pick one), the block limit, the timeout in
/// nanoseconds and the access token's bytes, each null-terminated text
/// ending at its single null byte.
pub proof fn lemma_settings_forwarded(c: ConfigView, debug_enabled: bool)
    requires
        config_valid(c),
    ensures
        start_spec(false, false, c, debug_enabled) is Ok,
        ({
            let b = start_spec(false, false, c, debug_enabled)->Ok_0;
            &&& b.port == c.port
            &&& c.max_blocks matches Some(m) ==> b.max_blocks == m
            &&& c.global_timeout matches Some(d) ==> b.global_timeout_nanos == d.total_nanos()
            &&& c.access_token matches Some(t) ==> b.access_token == c_text(encode_utf8(t))
            &&& !has_nul(b.access_token.drop_last())
            &&& !has_nul(b.temp_dir.drop_last())
        }),
{
    let b = boundary_of(c, debug_enabled);
    if let Some(t) = c.access_token {
        crate::config::lemma_encoded_nul(t);
        assert(b.access_token.drop_last() == encode_utf8(t));
    } else {
        assert(b.access_token.drop_last() =~= Seq::<u8>::empty());
    }
    if let Some(p) = c.temp_dir {
        assert(b.temp_dir.drop_last() == p);
    } else {
        assert(b.temp_dir.drop_last() =~= Seq::<u8>::empty());
    }
}

} // verus!
