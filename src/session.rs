//! Server side: admission of connections, how a connection's end is
//! counted, the handler's simulated work, and the lines reported to the
//! operator.

use std::sync::Arc;
use rand::Rng;
use tokio::sync::Semaphore;
use vstd::prelude::*;
use vstd::rwlock::{RwLock, RwLockPredicate};
use vstd::string::StringExecFns;

use crate::call_timing::CallTiming;
use crate::text::{decimal_text, humantime_text, push_decimal, push_duration, MAX_SPAN_NANOS};

verus! {

#[verifier::external_type_specification]
#[verifier::external_body]
pub struct ExSemaphore(Semaphore);

/// How many connections are served at once.
pub const ADMISSION_CAPACITY: usize = 5;

/// The largest pool accepted: tokio's semaphore holds at most
/// `usize::MAX >> 3` permits, and this is that bound for a 32-bit `usize`.
pub const MAX_CAPACITY: usize = 536870911;

/// Shortest simulated work of the request handler, in milliseconds.
pub const MIN_DELAY_MS: u64 = 100;

/// Longest simulated work of the request handler, in milliseconds.
pub const MAX_DELAY_MS: u64 = 500;

/// Relies on tokio::sync::Semaphore::new, which panics only above
/// `Semaphore::MAX_PERMITS`, never below `MAX_CAPACITY`.
#[verifier::external_body]
fn new_semaphore(permits: usize) -> (r: Arc<Semaphore>)
    requires
        permits <= MAX_CAPACITY,
{
    Arc::new(Semaphore::new(permits))
}

/// Relies on rand's `thread_rng().gen_range(lo..=hi)`: a value in the
/// inclusive range, which must not be empty.
#[verifier::external_body]
fn random_between(lo: u64, hi: u64) -> (r: u64)
    requires
        lo <= hi,
    ensures
        lo <= r <= hi,
{
    rand::thread_rng().gen_range(lo..=hi)
}

/// A pool of permits, one for each connection being served; a connection
/// is served only while it holds one.
pub struct AdmissionController {
    pool: Arc<Semaphore>,
    capacity: usize,
}

impl AdmissionController {
    /// How many permits the pool was made with.
    pub closed spec fn spec_capacity(&self) -> nat {
        self.capacity as nat
    }

    /// A pool of `capacity` permits.
    pub fn new(capacity: usize) -> (r: AdmissionController)
        requires
            capacity <= MAX_CAPACITY,
        ensures
            r.spec_capacity() == capacity,
    {
        AdmissionController { pool: new_semaphore(capacity), capacity }
    }

    /// How many permits the pool was made with.
    pub fn capacity(&self) -> (r: usize)
        ensures
            r as nat == self.spec_capacity(),
    {
        self.capacity
    }

    /// The pool itself, from which permits are acquired and to which a
    /// dropped permit returns.
    pub fn pool(&self) -> Arc<Semaphore> {
        self.pool.clone()
    }
}

/// How the serving of one connection ended.
#[derive(Clone, Copy, Debug, PartialEq, Eq, Structural)]
pub enum SessionEnd {
    /// The transport closed without error.
    Clean,
    /// The peer closed its side while a response was being written.
    BrokenPipe,
    /// Any other failure of the transport.
    OtherError,
}

/// What made serving a connection fail, as far as the transport tells.
#[derive(Clone, Copy, Debug, PartialEq, Eq, Structural)]
pub enum TransportFault {
    /// Writing found the peer's side closed.
    BrokenPipe,
    /// The peer reset the connection.
    ConnectionReset,
    /// Another I/O error.
    OtherIo,
    /// A failure that is not an I/O error (a protocol error, say).
    NotIo,
}

/// How a connection ends when serving it failed with `fault`: a closed or
/// reset peer counts as a broken pipe, anything else as another error.
pub open spec fn end_of_fault(fault: TransportFault) -> SessionEnd {
    match fault {
        TransportFault::BrokenPipe | TransportFault::ConnectionReset => SessionEnd::BrokenPipe,
        _ => SessionEnd::OtherError,
    }
}

/// How a connection ends when serving it failed with `fault`.
pub fn classify_fault(fault: TransportFault) -> (r: SessionEnd)
    ensures
        r == end_of_fault(fault),
{
    match fault {
        TransportFault::BrokenPipe | TransportFault::ConnectionReset => SessionEnd::BrokenPipe,
        _ => SessionEnd::OtherError,
    }
}

/// The broken-pipe count after a connection that ended as `end`: one more
/// for a broken pipe (held at `u64::MAX`), the same otherwise.
pub open spec fn broken_pipes_after(count: nat, end: SessionEnd) -> nat {
    if end == SessionEnd::BrokenPipe && count < u64::MAX {
        count + 1
    } else {
        count
    }
}

/// The broken-pipe count after a connection that ended as `end`.
pub fn next_broken_pipes(count: u64, end: SessionEnd) -> (r: u64)
    ensures
        r as nat == broken_pipes_after(count as nat, end),
{
    if end == SessionEnd::BrokenPipe && count < u64::MAX {
        count + 1
    } else {
        count
    }
}

/// A connection whose serving failed on a closed or reset peer adds
/// exactly one to the broken-pipe count, below its largest value; a
/// connection that ended otherwise leaves the count as it was.
pub proof fn lemma_broken_pipe_counted_once(count: nat, fault: TransportFault)
    ensures
        (fault == TransportFault::BrokenPipe || fault == TransportFault::ConnectionReset)
            && count < u64::MAX ==> broken_pipes_after(count, end_of_fault(fault)) == count + 1,
        !(fault == TransportFault::BrokenPipe || fault == TransportFault::ConnectionReset)
            ==> broken_pipes_after(count, end_of_fault(fault)) == count,
        broken_pipes_after(count, SessionEnd::Clean) == count,
{
}

/// Any count is a valid broken-pipe count.
pub struct AnyCount;

impl RwLockPredicate<u64> for AnyCount {
    open spec fn inv(self, v: u64) -> bool {
        true
    }
}

/// How many connections ended in a broken pipe, shared by every connection
/// and by the shutdown report; each clone refers to the same count.
#[derive(Clone)]
pub struct BrokenPipeCounter {
    lock: Arc<RwLock<u64, AnyCount>>,
}

impl BrokenPipeCounter {
    /// A count of zero.
    pub fn new() -> (r: BrokenPipeCounter) {
        BrokenPipeCounter { lock: Arc::new(RwLock::new(0u64, Ghost(AnyCount))) }
    }

    /// Counts the end of one connection under the lock; returns the count
    /// as the lock held it before and after.
    pub fn note_end(&self, end: SessionEnd) -> (r: (u64, u64))
        ensures
            r.1 as nat == broken_pipes_after(r.0 as nat, end),
    {
        let (count, handle) = self.lock.acquire_write();
        let next = next_broken_pipes(count, end);
        handle.release_write(next);
        (count, next)
    }

    /// The count as it is now.
    pub fn get(&self) -> (r: u64) {
        let handle = self.lock.acquire_read();
        let count = *handle.borrow();
        handle.release_read();
        count
    }
}

/// The line reported when a connection closes.
pub open spec fn session_line(lifetime: nat, requests: CallTiming) -> Seq<char> {
    "session: "@ + humantime_text(lifetime) + ", requests: "@ + requests.rendered()
}

/// The line reported at shutdown.
pub open spec fn shutdown_line(connections: CallTiming, broken_pipes: nat) -> Seq<char> {
    "connections: "@ + connections.rendered() + ", broken pipes: "@ + decimal_text(broken_pipes)
}

/// The line reported when a connection that lived `lifetime` nanoseconds
/// closes, with the statistics of its requests.
pub fn session_summary(lifetime: u128, requests: &CallTiming) -> (r: String)
    requires
        lifetime <= MAX_SPAN_NANOS,
        requests.wf(),
    ensures
        r@ == session_line(lifetime as nat, *requests),
{
    let mut out = String::from_str("session: ");
    push_duration(&mut out, lifetime);
    out.append(", requests: ");
    let rendered = requests.render();
    out.append(rendered.as_str());
    out
}

/// The line reported at shutdown, with the statistics of the connections
/// and the broken-pipe count.
pub fn shutdown_report(connections: &CallTiming, broken_pipes: u64) -> (r: String)
    requires
        connections.wf(),
    ensures
        r@ == shutdown_line(*connections, broken_pipes as nat),
{
    let mut out = String::from_str("connections: ");
    let rendered = connections.render();
    out.append(rendered.as_str());
    out.append(", broken pipes: ");
    push_decimal(&mut out, broken_pipes);
    out
}

/// How long the request handler works on one request, in milliseconds:
/// drawn anew for each request.
pub fn response_delay_ms() -> (r: u64)
    ensures
        MIN_DELAY_MS <= r <= MAX_DELAY_MS,
{
    random_between(MIN_DELAY_MS, MAX_DELAY_MS)
}

} // verus!
