//! Event multiplexer: a watch list of file descriptors, readiness sets, and
//! the per-cycle classification and dispatch policy of the run loop.

use vstd::prelude::*;

verus! {

/// Readiness flag: data may be read.
pub const POLLIN: i16 = 0x001;
/// Readiness flag: high-priority (out-of-band) data may be read.
pub const POLLPRI: i16 = 0x002;
/// Readiness flag: writing will not block.
pub const POLLOUT: i16 = 0x004;
/// Readiness flag: an error condition was reported.
pub const POLLERR: i16 = 0x008;
/// Readiness flag: the peer hung up.
pub const POLLHUP: i16 = 0x010;
/// Readiness flag: the descriptor is not valid.
pub const POLLNVAL: i16 = 0x020;

/// Identifies a watched I/O endpoint to the handler. By convention the value
/// is the descriptor number itself; `Token(0)` designates console input.
#[derive(Debug, Eq, PartialEq, Clone, Copy, Structural)]
pub struct Token(pub i32);

/// The readiness (or interest) bits for one descriptor on one poll cycle.
/// A value type, copied per event, never mutated after creation.
#[derive(Debug, Eq, PartialEq, Clone, Copy, Structural)]
pub struct EventSet {
    pub events: i16,
}

impl EventSet {
    /// Whether every bit of `flag` is set in this event set.
    pub open spec fn has(self, flag: i16) -> bool {
        self.events & flag == flag
    }

    pub open spec fn spec_readable(self) -> bool {
        self.has(POLLIN) || self.has(POLLPRI)
    }

    pub open spec fn spec_high_prio_readable(self) -> bool {
        self.has(POLLPRI)
    }

    pub open spec fn spec_writable(self) -> bool {
        self.has(POLLOUT)
    }

    pub open spec fn spec_not_valid(self) -> bool {
        self.has(POLLNVAL)
    }

    pub open spec fn spec_error(self) -> bool {
        self.has(POLLERR)
    }

    pub open spec fn spec_hangup(self) -> bool {
        self.has(POLLHUP)
    }

    pub fn empty() -> (r: EventSet)
        ensures
            r.events == 0,
    {
        EventSet { events: 0 }
    }

    pub fn is_readable(self) -> (r: bool)
        ensures
            r == self.spec_readable(),
    {
        (self.events & POLLIN) == POLLIN || (self.events & POLLPRI) == POLLPRI
    }

    pub fn is_high_prio_readable(self) -> (r: bool)
        ensures
            r == self.spec_high_prio_readable(),
    {
        (self.events & POLLPRI) == POLLPRI
    }

    pub fn is_writable(self) -> (r: bool)
        ensures
            r == self.spec_writable(),
    {
        (self.events & POLLOUT) == POLLOUT
    }

    pub fn is_not_valid(self) -> (r: bool)
        ensures
            r == self.spec_not_valid(),
    {
        (self.events & POLLNVAL) == POLLNVAL
    }

    pub fn is_error(self) -> (r: bool)
        ensures
            r == self.spec_error(),
    {
        (self.events & POLLERR) == POLLERR
    }

    pub fn is_hangup(self) -> (r: bool)
        ensures
            r == self.spec_hangup(),
    {
        (self.events & POLLHUP) == POLLHUP
    }

    pub fn is_empty(self) -> (r: bool)
        ensures
            r == (self.events == 0),
    {
        self.events == 0
    }

    /// The names of the flags set in this event set, in a fixed order,
    /// joined by `|`; empty when no flag is set.
    pub open spec fn spec_describe(self) -> Seq<char> {
        let s = Seq::<char>::empty();
        let s = if self.has(POLLIN) {
            spec_describe_join(s, "POLLIN"@)
        } else {
            s
        };
        let s = if self.has(POLLOUT) {
            spec_describe_join(s, "POLLOUT"@)
        } else {
            s
        };
        let s = if self.has(POLLERR) {
            spec_describe_join(s, "POLLERR"@)
        } else {
            s
        };
        let s = if self.has(POLLHUP) {
            spec_describe_join(s, "POLLHUP"@)
        } else {
            s
        };
        let s = if self.has(POLLNVAL) {
            spec_describe_join(s, "POLLNVAL"@)
        } else {
            s
        };
        let s = if self.has(POLLPRI) {
            spec_describe_join(s, "POLLPRI"@)
        } else {
            s
        };
        s
    }

    /// Render the set flags for a human, as [`Self::spec_describe`] says.
    pub fn describe(self) -> (r: String)
        ensures
            r@ == self.spec_describe(),
    {
        proof {
            reveal_strlit("POLLIN");
            reveal_strlit("POLLOUT");
            reveal_strlit("POLLERR");
            reveal_strlit("POLLHUP");
            reveal_strlit("POLLNVAL");
            reveal_strlit("POLLPRI");
            reveal_strlit("|");
        }
        let mut events_str = String::new();
        let mut any = false;
        if (self.events & POLLIN) == POLLIN {
            describe_join(&mut events_str, any, "POLLIN");
            any = true;
        }
        if (self.events & POLLOUT) == POLLOUT {
            describe_join(&mut events_str, any, "POLLOUT");
            any = true;
        }
        if (self.events & POLLERR) == POLLERR {
            describe_join(&mut events_str, any, "POLLERR");
            any = true;
        }
        if (self.events & POLLHUP) == POLLHUP {
            describe_join(&mut events_str, any, "POLLHUP");
            any = true;
        }
        if (self.events & POLLNVAL) == POLLNVAL {
            describe_join(&mut events_str, any, "POLLNVAL");
            any = true;
        }
        if (self.events & POLLPRI) == POLLPRI {
            describe_join(&mut events_str, any, "POLLPRI");
            any = true;
        }
        events_str
    }
}

/// An accumulated description with one more flag name: separated by `|`
/// from what is already there, unless nothing is.
pub open spec fn spec_describe_join(acc: Seq<char>, name: Seq<char>) -> Seq<char> {
    if acc.len() == 0 {
        name
    } else {
        acc + "|"@ + name
    }
}

/// Append one flag name to an accumulated description, `|`-separated.
fn describe_join(acc: &mut String, any: bool, name: &str)
    requires
        any == (old(acc)@.len() > 0),
    ensures
        final(acc)@ == spec_describe_join(old(acc)@, name@),
{
    proof {
        reveal_strlit("|");
    }
    if any {
        acc.append("|");
    }
    acc.append(name);
    proof {
        assert(acc@ =~= spec_describe_join(old(acc)@, name@));
    }
}

/// Accumulates interest bits before registration.
pub struct EventSetBuilder {
    pub eventset: EventSet,
}

impl EventSetBuilder {
    pub fn new() -> (r: EventSetBuilder)
        ensures
            r.eventset.events == 0,
    {
        EventSetBuilder { eventset: EventSet::empty() }
    }

    pub fn finalize(self) -> (r: EventSet)
        ensures
            r == self.eventset,
    {
        self.eventset
    }

    /// Declare interest in readable (including high-priority) data.
    pub fn readable(self) -> (r: EventSetBuilder)
        ensures
            r.eventset.events == self.eventset.events | POLLIN | POLLPRI,
    {
        EventSetBuilder { eventset: EventSet { events: self.eventset.events | POLLIN | POLLPRI } }
    }

    /// Declare interest in writability.
    pub fn writable(self) -> (r: EventSetBuilder)
        ensures
            r.eventset.events == self.eventset.events | POLLOUT,
    {
        EventSetBuilder { eventset: EventSet { events: self.eventset.events | POLLOUT } }
    }

    /// Declare interest in both directions at once, replacing prior bits.
    pub fn all(self) -> (r: EventSetBuilder)
        ensures
            r.eventset.events == POLLIN | POLLPRI | POLLOUT,
    {
        EventSetBuilder { eventset: EventSet { events: POLLIN | POLLPRI | POLLOUT } }
    }
}

/// Timeout sentinel meaning "block indefinitely" in a poll call.
pub const TIMEOUT_INFINITE: i32 = -1;

/// One watch-list entry: a descriptor, the interest bits it was registered
/// with, and the readiness bits last observed for it.
#[derive(Debug, Eq, PartialEq, Clone, Copy, Structural)]
pub struct WatchEntry {
    pub fd: i32,
    pub events: i16,
    pub revents: i16,
}

/// Whether some entry of the watch list carries the descriptor `fd`.
pub open spec fn spec_watches(s: Seq<WatchEntry>, fd: i32) -> bool {
    exists|i: int| 0 <= i < s.len() && s[i].fd == fd
}

/// The watch list after registering `fd` with interest bits `events`:
/// a new entry is appended, with zero prior readiness.
pub open spec fn spec_register(s: Seq<WatchEntry>, fd: i32, events: i16) -> Seq<WatchEntry> {
    s.push(WatchEntry { fd, events, revents: 0 })
}

/// No two entries of the watch list share a descriptor.
pub open spec fn spec_distinct_fds(s: Seq<WatchEntry>) -> bool {
    forall|i: int, j: int| 0 <= i < j < s.len() ==> s[i].fd != s[j].fd
}

/// The watch list after unregistering `fd`: the first entry carrying `fd`
/// is removed; the list is unchanged when no entry carries it.
pub open spec fn spec_unregister(s: Seq<WatchEntry>, fd: i32) -> Seq<WatchEntry>
    decreases s.len(),
{
    if s.len() == 0 {
        s
    } else if s[0].fd == fd {
        s.drop_first()
    } else {
        seq![s[0]] + spec_unregister(s.drop_first(), fd)
    }
}

/// Unregistering a descriptor that no entry carries leaves the list unchanged.
proof fn lemma_unregister_absent(s: Seq<WatchEntry>, fd: i32)
    requires
        !spec_watches(s, fd),
    ensures
        spec_unregister(s, fd) == s,
    decreases s.len(),
{
    if s.len() > 0 {
        assert(s[0].fd != fd);
        assert(forall|i: int| 0 <= i < s.drop_first().len() ==> s.drop_first()[i] == s[i + 1]);
        lemma_unregister_absent(s.drop_first(), fd);
        assert(seq![s[0]] + s.drop_first() =~= s);
    }
}

/// When `i` is the first index carrying `fd`, unregistering `fd` removes
/// exactly the entry at `i`.
proof fn lemma_unregister_removes_first(s: Seq<WatchEntry>, fd: i32, i: int)
    requires
        0 <= i < s.len(),
        s[i].fd == fd,
        forall|j: int| 0 <= j < i ==> s[j].fd != fd,
    ensures
        spec_unregister(s, fd) == s.remove(i),
    decreases i,
{
    if i == 0 {
        assert(s.drop_first() =~= s.remove(0));
    } else {
        assert(s[0].fd != fd);
        assert(forall|j: int| 0 <= j < i - 1 ==> s.drop_first()[j] == s[j + 1]);
        lemma_unregister_removes_first(s.drop_first(), fd, i - 1);
        assert(seq![s[0]] + s.drop_first().remove(i - 1) =~= s.remove(i));
    }
}

/// The zero bits change nothing under bitwise or.
proof fn lemma_zero_or(x: i16)
    ensures
        0i16 | x == x,
{
    assert(0i16 | x == x) by (bit_vector);
}

/// A descriptor absent from a watch list stays absent when another
/// descriptor is unregistered.
proof fn lemma_unregister_keeps_absent(s: Seq<WatchEntry>, fd: i32, g: i32)
    requires
        !spec_watches(s, g),
    ensures
        !spec_watches(spec_unregister(s, fd), g),
    decreases s.len(),
{
    if s.len() > 0 {
        assert(forall|i: int| 0 <= i < s.drop_first().len() ==> s.drop_first()[i] == s[i + 1]);
        lemma_unregister_keeps_absent(s.drop_first(), fd, g);
        if s[0].fd != fd {
            let rest = spec_unregister(s.drop_first(), fd);
            assert(forall|i: int| 0 <= i < rest.len() ==> (seq![s[0]] + rest)[i + 1] == rest[i]);
        }
    }
}

/// The event multiplexer: owns the watch list, the timeout policy of each
/// poll call, and the loop activity flag. It never owns the descriptors
/// themselves; they remain with whoever opened them.
pub struct EventLoop {
    /// Registered descriptors that are polled for I/O, in insertion order.
    pub pollfds: Vec<WatchEntry>,
    /// Timeout handed to each poll call, in milliseconds
    /// ([`TIMEOUT_INFINITE`]: wait indefinitely).
    pub timeout: i32,
    /// Whether the run loop is active: set by starting a run, cleared by
    /// [`EventLoop::shutdown`], checked once per cycle boundary.
    pub active: bool,
}

impl EventLoop {
    /// Create a new event loop that blocks indefinitely in each poll call.
    pub fn new() -> (r: EventLoop)
        ensures
            r.pollfds@ =~= Seq::<WatchEntry>::empty(),
            r.timeout == TIMEOUT_INFINITE,
            !r.active,
    {
        EventLoop::new_with_timeout(None)
    }

    /// Create a new event loop with a bounded idle timeout in milliseconds;
    /// `None` means the infinite timeout.
    pub fn new_with_timeout(timeout: Option<u32>) -> (r: EventLoop)
        requires
            timeout matches Some(t) ==> t <= i32::MAX,
        ensures
            r.pollfds@ =~= Seq::<WatchEntry>::empty(),
            r.timeout == (match timeout {
                Some(t) => t as i32,
                None => TIMEOUT_INFINITE,
            }),
            !r.active,
    {
        let mut my_timeout = TIMEOUT_INFINITE;
        if let Some(t) = timeout {
            my_timeout = t as i32;
        }
        EventLoop { pollfds: Vec::new(), active: false, timeout: my_timeout }
    }

    /// Whether the run loop is active.
    pub fn is_active(&self) -> (r: bool)
        ensures
            r == self.active,
    {
        self.active
    }

    /// Request loop termination: takes effect at the next cycle-boundary
    /// check, never mid-dispatch.
    pub fn shutdown(&mut self)
        ensures
            !final(self).active,
            final(self).pollfds == old(self).pollfds,
            final(self).timeout == old(self).timeout,
    {
        self.active = false;
    }

    /// Mark the run loop active; a run begins this way.
    pub fn begin_run(&mut self)
        ensures
            final(self).active,
            final(self).pollfds == old(self).pollfds,
            final(self).timeout == old(self).timeout,
    {
        self.active = true;
    }

    /// Remove the watch-list entry carrying `fd` if one is present; a no-op
    /// when none is, so a caller may remove defensively after a descriptor
    /// was already taken out by prior error handling.
    pub fn remove_fd(&mut self, fd: i32)
        ensures
            final(self).pollfds@ == spec_unregister(old(self).pollfds@, fd),
            final(self).timeout == old(self).timeout,
            final(self).active == old(self).active,
    {
        self.unregister_fd(fd);
    }

    /// Register a descriptor with the given interest bits, appending a watch
    /// list entry with zero prior readiness. The returned token is the
    /// descriptor's own identity. Callers must not register a descriptor
    /// that is already watched.
    pub fn register_fd(&mut self, fd: i32, eventset: EventSet) -> (t: Token)
        requires
            !spec_watches(old(self).pollfds@, fd),
        ensures
            final(self).pollfds@ == spec_register(old(self).pollfds@, fd, eventset.events),
            final(self).timeout == old(self).timeout,
            final(self).active == old(self).active,
            t == Token(fd),
    {
        self.pollfds.push(WatchEntry { fd, events: eventset.events, revents: 0 });
        Token(fd)
    }

    /// Unregister a descriptor: removes the first matching entry if present,
    /// and is a no-op when no entry matches.
    pub fn unregister_fd(&mut self, fd: i32)
        ensures
            final(self).pollfds@ == spec_unregister(old(self).pollfds@, fd),
            final(self).timeout == old(self).timeout,
            final(self).active == old(self).active,
    {
        let mut i: usize = 0;
        let n = self.pollfds.len();
        while i < n
            invariant
                n == old(self).pollfds@.len(),
                0 <= i <= n,
                self.pollfds@ == old(self).pollfds@,
                self.timeout == old(self).timeout,
                self.active == old(self).active,
                forall|j: int| 0 <= j < i ==> old(self).pollfds@[j].fd != fd,
            decreases n - i,
        {
            if self.pollfds[i].fd == fd {
                self.pollfds.remove(i);
                proof {
                    lemma_unregister_removes_first(old(self).pollfds@, fd, i as int);
                }
                return;
            }
            i += 1;
        }
        proof {
            lemma_unregister_absent(old(self).pollfds@, fd);
        }
    }

    /// Register the console input stream (descriptor 0) for read events.
    pub fn register_stdin(&mut self) -> (t: Token)
        requires
            !spec_watches(old(self).pollfds@, 0),
        ensures
            final(self).pollfds@ == spec_register(old(self).pollfds@, 0, POLLIN | POLLPRI),
            final(self).timeout == old(self).timeout,
            final(self).active == old(self).active,
            t == Token(0),
    {
        let eventset = EventSetBuilder::new().readable().finalize();
        proof {
            lemma_zero_or(POLLIN);
        }
        self.register_fd(0, eventset);
        Token(0)
    }

    /// Unregister the console input stream (stop listening for its events).
    pub fn unregister_stdin(&mut self)
        ensures
            final(self).pollfds@ == spec_unregister(old(self).pollfds@, 0),
            final(self).timeout == old(self).timeout,
            final(self).active == old(self).active,
    {
        self.unregister_fd(0);
    }

    /// Register a descriptor for read events.
    pub fn register_read(&mut self, fd: i32) -> (t: Token)
        requires
            !spec_watches(old(self).pollfds@, fd),
        ensures
            final(self).pollfds@ == spec_register(old(self).pollfds@, fd, POLLIN | POLLPRI),
            final(self).timeout == old(self).timeout,
            final(self).active == old(self).active,
            t == Token(fd),
    {
        proof {
            lemma_zero_or(POLLIN);
        }
        self.register_fd(fd, EventSetBuilder::new().readable().finalize())
    }

    /// Register a descriptor for write events.
    pub fn register_write(&mut self, fd: i32) -> (t: Token)
        requires
            !spec_watches(old(self).pollfds@, fd),
        ensures
            final(self).pollfds@ == spec_register(old(self).pollfds@, fd, POLLOUT),
            final(self).timeout == old(self).timeout,
            final(self).active == old(self).active,
            t == Token(fd),
    {
        proof {
            lemma_zero_or(POLLOUT);
        }
        self.register_fd(fd, EventSetBuilder::new().writable().finalize())
    }
}

/// The kinds of handler callback a readiness set can give rise to, in the
/// fixed order the run loop dispatches them for one descriptor.
#[derive(Debug, Eq, PartialEq, Clone, Copy, Structural)]
pub enum CallbackKind {
    /// Ready for I/O (readable or writable).
    Io,
    /// The peer hung up.
    Hangup,
    /// An error condition was reported.
    Error,
    /// The descriptor is not valid.
    NotValid,
}

/// The callbacks that one observed readiness set gives rise to, in dispatch
/// order: I/O first (so a hanging-up descriptor may drain its final bytes),
/// then hangup, then error, then invalid-descriptor.
pub open spec fn spec_dispatch_plan(es: EventSet) -> Seq<CallbackKind> {
    (if es.spec_readable() || es.spec_writable() {
        seq![CallbackKind::Io]
    } else {
        Seq::empty()
    }) + (if es.spec_hangup() {
        seq![CallbackKind::Hangup]
    } else {
        Seq::empty()
    }) + (if es.spec_error() {
        seq![CallbackKind::Error]
    } else {
        Seq::empty()
    }) + (if es.spec_not_valid() {
        seq![CallbackKind::NotValid]
    } else {
        Seq::empty()
    })
}

/// Compute the dispatch plan for one readiness set.
fn planned_callbacks(es: EventSet) -> (r: Vec<CallbackKind>)
    ensures
        r@ == spec_dispatch_plan(es),
{
    let mut r: Vec<CallbackKind> = Vec::new();
    if es.is_readable() || es.is_writable() {
        r.push(CallbackKind::Io);
    }
    if es.is_hangup() {
        r.push(CallbackKind::Hangup);
    }
    if es.is_error() {
        r.push(CallbackKind::Error);
    }
    if es.is_not_valid() {
        r.push(CallbackKind::NotValid);
    }
    proof {
        assert(r@ =~= spec_dispatch_plan(es));
    }
    r
}

/// The descriptors of a watch list whose last observed readiness is
/// non-empty, paired with that readiness, in watch-list order.
pub open spec fn spec_triggered(s: Seq<WatchEntry>) -> Seq<(i32, EventSet)>
    decreases s.len(),
{
    if s.len() == 0 {
        Seq::empty()
    } else {
        let rest = spec_triggered(s.drop_last());
        if s.last().revents != 0 {
            rest.push((s.last().fd, EventSet { events: s.last().revents }))
        } else {
            rest
        }
    }
}

/// Whether a poll cycle observed no readiness at all.
pub open spec fn spec_quiet(revents: Seq<i16>) -> bool {
    forall|i: int| 0 <= i < revents.len() ==> revents[i] == 0
}

/// A watch list whose observed readiness is empty everywhere triggers
/// nothing.
proof fn lemma_triggered_empty(s: Seq<WatchEntry>)
    requires
        forall|i: int| 0 <= i < s.len() ==> s[i].revents == 0,
    ensures
        spec_triggered(s) == Seq::<(i32, EventSet)>::empty(),
    decreases s.len(),
{
    if s.len() > 0 {
        assert(forall|i: int| 0 <= i < s.drop_last().len() ==> s.drop_last()[i] == s[i]);
        lemma_triggered_empty(s.drop_last());
    }
}

/// What one poll call reported: a platform-level failure, a timeout with no
/// ready descriptor, or the per-entry readiness bits, in watch-list order.
pub enum PollOutcome {
    /// The poll call itself failed; carries its description.
    Failed(String),
    /// The timeout elapsed with zero ready descriptors.
    TimedOut,
    /// Readiness bits observed for each watch-list entry, in order.
    Ready(Vec<i16>),
}

/// The four callbacks the run loop dispatches. Each receives a mutable
/// reference back into the multiplexer, so a handler may register,
/// unregister or shut the loop down from inside a callback.
pub trait EventHandler {
    /// A descriptor is ready for I/O. A failure returned here aborts the run
    /// immediately and becomes the run's outcome.
    fn ready_for_io(
        &mut self,
        event_loop: &mut EventLoop,
        stream_id: Token,
        eventset: EventSet,
    ) -> Result<(), String>;

    /// An error condition was reported for a descriptor.
    fn error(&mut self, event_loop: &mut EventLoop, stream_id: Token);

    /// A descriptor hung up.
    fn hangup(&mut self, event_loop: &mut EventLoop, stream_id: Token);

    /// A descriptor is not valid. By default the descriptor is unregistered;
    /// the run loop additionally queues it for removal at the end of the
    /// cycle, which tolerates this default having already removed it.
    fn not_valid(&mut self, event_loop: &mut EventLoop, stream_id: Token) {
        let Token(fd) = stream_id;
        event_loop.remove_fd(fd);
    }

    /// The poll timeout elapsed with no descriptor ready.
    fn timeout(&mut self, event_loop: &mut EventLoop);
}

impl EventLoop {
    /// Record the readiness bits one poll call observed, entry by entry.
    fn store_revents(&mut self, revents: &Vec<i16>)
        requires
            revents@.len() == old(self).pollfds@.len(),
        ensures
            final(self).pollfds@.len() == old(self).pollfds@.len(),
            forall|i: int| 0 <= i < old(self).pollfds@.len()
                ==> final(self).pollfds@[i] == (WatchEntry {
                    revents: revents@[i],
                    ..old(self).pollfds@[i]
                }),
            final(self).timeout == old(self).timeout,
            final(self).active == old(self).active,
    {
        let n = self.pollfds.len();
        let mut i: usize = 0;
        while i < n
            invariant
                n == old(self).pollfds@.len(),
                revents@.len() == n,
                0 <= i <= n,
                self.pollfds@.len() == n,
                forall|j: int| 0 <= j < i
                    ==> self.pollfds@[j] == (WatchEntry {
                        revents: revents@[j],
                        ..old(self).pollfds@[j]
                    }),
                forall|j: int| i <= j < n ==> self.pollfds@[j] == old(self).pollfds@[j],
                self.timeout == old(self).timeout,
                self.active == old(self).active,
            decreases n - i,
        {
            let entry = self.pollfds[i];
            self.pollfds.set(i, WatchEntry { revents: revents[i], ..entry });
            i += 1;
        }
    }

    /// Snapshot the entries whose observed readiness is non-empty, so that
    /// dispatch never iterates a watch list a callback may mutate.
    fn triggered_events(&self) -> (r: Vec<(i32, EventSet)>)
        ensures
            r@ == spec_triggered(self.pollfds@),
    {
        let mut r: Vec<(i32, EventSet)> = Vec::new();
        let n = self.pollfds.len();
        let mut i: usize = 0;
        while i < n
            invariant
                n == self.pollfds@.len(),
                0 <= i <= n,
                r@ == spec_triggered(self.pollfds@.subrange(0, i as int)),
            decreases n - i,
        {
            let entry = self.pollfds[i];
            if entry.revents != 0 {
                r.push((entry.fd, EventSet { events: entry.revents }));
            }
            proof {
                let pre = self.pollfds@.subrange(0, i as int);
                let post = self.pollfds@.subrange(0, i + 1);
                assert(post.drop_last() =~= pre);
                assert(post.last() == self.pollfds@[i as int]);
            }
            i += 1;
        }
        proof {
            assert(self.pollfds@.subrange(0, n as int) =~= self.pollfds@);
        }
        r
    }

    /// One cycle of the run loop, applied to what one poll call reported.
    ///
    /// A poll failure deactivates the loop and is surfaced as the cycle's
    /// error. A timeout invokes the handler's timeout callback once; the
    /// handler decides whether to shut down. Otherwise every descriptor with
    /// non-empty observed readiness is dispatched, in watch-list order, with
    /// the callbacks of [`spec_dispatch_plan`] in that fixed order per
    /// descriptor; a failure from the I/O callback aborts the cycle at once.
    /// Descriptors reported invalid are queued and removed only after all
    /// dispatching, so classification never iterates a mutating list.
    #[verifier::loop_isolation(false)]
    pub fn handle_cycle<H: EventHandler>(
        &mut self,
        handler: &mut H,
        outcome: PollOutcome,
    ) -> (r: Result<(), String>)
        requires
            outcome matches PollOutcome::Ready(revents) ==> revents@.len()
                == old(self).pollfds@.len(),
        ensures
            outcome matches PollOutcome::Failed(msg) ==> r == Err::<(), String>(msg)
                && !final(self).active
                && final(self).pollfds@ == old(self).pollfds@
                && final(self).timeout == old(self).timeout,
            outcome matches PollOutcome::TimedOut ==> r == Ok::<(), String>(()),
            outcome matches PollOutcome::Ready(revents) ==> (spec_quiet(revents@) ==> r == Ok::<
                (),
                String,
            >(()) && final(self).active == old(self).active && final(self).timeout == old(
                self,
            ).timeout && final(self).pollfds@.len() == old(self).pollfds@.len() && (forall|i: int|
                0 <= i < old(self).pollfds@.len() ==> final(self).pollfds@[i] == (WatchEntry {
                    revents: 0i16,
                    ..old(self).pollfds@[i]
                }))),
    {
        match outcome {
            PollOutcome::Failed(msg) => {
                self.shutdown();
                Err(msg)
            }
            PollOutcome::TimedOut => {
                handler.timeout(self);
                Ok(())
            }
            PollOutcome::Ready(revents) => {
                self.store_revents(&revents);
                let triggered = self.triggered_events();
                proof {
                    if spec_quiet(revents@) {
                        lemma_triggered_empty(self.pollfds@);
                    }
                }
                let ghost pre_dispatch = *self;
                let mut remove_pollfds: Vec<i32> = Vec::new();
                let n = triggered.len();
                let mut i: usize = 0;
                while i < n
                    invariant
                        n == triggered@.len(),
                        0 <= i <= n,
                        n == 0 ==> *self == pre_dispatch && remove_pollfds@.len() == 0,
                    decreases n - i,
                {
                    let (fd, eventset) = triggered[i];
                    let plan = planned_callbacks(eventset);
                    let m = plan.len();
                    let mut k: usize = 0;
                    while k < m
                        invariant
                            m == plan@.len(),
                            0 <= k <= m,
                        decreases m - k,
                    {
                        match plan[k] {
                            CallbackKind::Io => {
                                if let Err(e) = handler.ready_for_io(self, Token(fd), eventset) {
                                    return Err(e);
                                }
                            }
                            CallbackKind::Hangup => {
                                handler.hangup(self, Token(fd));
                            }
                            CallbackKind::Error => {
                                handler.error(self, Token(fd));
                            }
                            CallbackKind::NotValid => {
                                handler.not_valid(self, Token(fd));
                                remove_pollfds.push(fd);
                            }
                        }
                        k += 1;
                    }
                    i += 1;
                }
                let nr = remove_pollfds.len();
                let mut j: usize = 0;
                while j < nr
                    invariant
                        nr == remove_pollfds@.len(),
                        0 <= j <= nr,
                        n == 0 ==> *self == pre_dispatch,
                    decreases nr - j,
                {
                    self.unregister_fd(remove_pollfds[j]);
                    j += 1;
                }
                Ok(())
            }
        }
    }
}

/// Registration identity: registering a descriptor that the watch list does
/// not carry and then unregistering it leaves the watch list in the same
/// observable state as before the registration.
pub proof fn lemma_register_unregister_identity(s: Seq<WatchEntry>, fd: i32, events: i16)
    requires
        !spec_watches(s, fd),
    ensures
        spec_unregister(spec_register(s, fd, events), fd) == s,
{
    let s2 = spec_register(s, fd, events);
    assert(forall|j: int| 0 <= j < s.len() ==> s2[j].fd != fd);
    lemma_unregister_removes_first(s2, fd, s.len() as int);
    assert(s2.remove(s.len() as int) =~= s);
}

/// Tokens are unique while registered: registering a descriptor that the
/// watch list does not carry keeps its descriptors pairwise distinct.
pub proof fn lemma_register_preserves_distinct(s: Seq<WatchEntry>, fd: i32, events: i16)
    requires
        spec_distinct_fds(s),
        !spec_watches(s, fd),
    ensures
        spec_distinct_fds(spec_register(s, fd, events)),
{
}

/// Unregistering never introduces a shared descriptor: a watch list with
/// pairwise distinct descriptors keeps them distinct.
pub proof fn lemma_unregister_preserves_distinct(s: Seq<WatchEntry>, fd: i32)
    requires
        spec_distinct_fds(s),
    ensures
        spec_distinct_fds(spec_unregister(s, fd)),
    decreases s.len(),
{
    if s.len() > 0 {
        assert(forall|i: int| 0 <= i < s.drop_first().len() ==> s.drop_first()[i] == s[i + 1]);
        if s[0].fd == fd {
        } else {
            lemma_unregister_preserves_distinct(s.drop_first(), fd);
            assert(!spec_watches(s.drop_first(), s[0].fd));
            lemma_unregister_keeps_absent(s.drop_first(), fd, s[0].fd);
            let rest = spec_unregister(s.drop_first(), fd);
            assert(forall|i: int| 0 <= i < rest.len() ==> (seq![s[0]] + rest)[i + 1] == rest[i]);
        }
    }
}

/// Dispatch order: a readiness set that is simultaneously readable, hanging
/// up and in error gives rise to the I/O callback before the hangup callback
/// before the error callback, within one cycle.
pub proof fn lemma_dispatch_order(es: EventSet)
    requires
        es.spec_readable(),
        es.spec_hangup(),
        es.spec_error(),
        !es.spec_not_valid(),
    ensures
        spec_dispatch_plan(es) == seq![CallbackKind::Io, CallbackKind::Hangup, CallbackKind::Error],
{
    assert(spec_dispatch_plan(es) =~= seq![
        CallbackKind::Io,
        CallbackKind::Hangup,
        CallbackKind::Error,
    ]);
}

} // verus!
