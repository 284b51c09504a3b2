//! The bookkeeping of a query channel.
//!
//! A channel owns one session of the engine.  This module holds the part of
//! a channel that decides: which queries are outstanding, which completion
//! handler belongs to which of them, and who is owed a cancellation when the
//! channel is destroyed.  The engine's session itself lives with the caller,
//! who performs what this module decides.

use vstd::prelude::*;
use crate::cname::{spec_cname_completion, CNameResult, ParsedReply};
use crate::error::{
    spec_ares_error, AresError, ARES_EBADNAME, ARES_ECANCELLED, ARES_ENOMEM, ARES_SUCCESS,
};
use crate::host::{spec_host_result, HostResults};
use crate::hostent::{lemma_until_null_prefix, until_null, Hostent};
use crate::utils::ares_error;

verus! {

/// The option mask bit that says that flags are set.
pub const ARES_OPT_FLAGS: i32 = 0x1;

/// The option mask bit that says that a number of tries is set.
pub const ARES_OPT_TRIES: i32 = 0x4;

/// The option mask bit that says that an observer of socket state changes is
/// set.
pub const ARES_OPT_SOCK_STATE_CB: i32 = 0x200;

/// The option mask bit that says that a timeout in milliseconds is set.
pub const ARES_OPT_TIMEOUTMS: i32 = 0x2000;

/// The number of sockets that the engine can report on at once.
pub const ARES_GETSOCK_MAXNUM: usize = 16;

/// The kinds of lookup that a channel can be asked for.
#[derive(Clone, Copy, Debug, PartialEq, Eq, Structural, Hash)]
pub enum RecordKind {
    A,
    AAAA,
    CNAME,
    MX,
    NS,
    PTR,
    SOA,
    SRV,
    TXT,
    /// A generic host lookup.
    HOST,
}

/// The configuration of a channel.  What is not set is left to the engine.
/// Every channel is created with an observer of socket state changes, which
/// is no part of the configuration.
#[derive(Clone, Copy, Debug, PartialEq, Eq, Structural, Hash)]
pub struct Options {
    /// The flags that rule the engine's behaviour.
    pub flags: Option<i32>,
    /// The time, in milliseconds, that the engine waits for an answer to its
    /// first try.
    pub timeout: Option<i32>,
    /// The number of times that the engine tries each server.
    pub tries: Option<i32>,
}

impl Options {
    /// The option mask that tells the engine which options are set: the sum
    /// of the bits of those options and of the bit of the observer.
    pub open spec fn spec_optmask(self) -> i32 {
        (ARES_OPT_SOCK_STATE_CB + (if self.flags is Some {
            ARES_OPT_FLAGS
        } else {
            0i32
        }) + (if self.timeout is Some {
            ARES_OPT_TIMEOUTMS
        } else {
            0i32
        }) + (if self.tries is Some {
            ARES_OPT_TRIES
        } else {
            0i32
        })) as i32
    }

    /// A configuration in which nothing is set.
    pub fn new() -> (options: Options)
        ensures
            options == (Options { flags: None, timeout: None, tries: None }),
    {
        Options { flags: None, timeout: None, tries: None }
    }

    /// Sets the flags that rule the engine's behaviour.
    pub fn set_flags(&mut self, flags: i32) -> (options: &mut Options)
        ensures
            *options == (Options { flags: Some(flags), ..*old(self) }),
            *final(self) == *final(options),
    {
        self.flags = Some(flags);
        self
    }

    /// Sets the time, in milliseconds, that the engine waits for an answer to
    /// its first try.
    pub fn set_timeout(&mut self, ms: i32) -> (options: &mut Options)
        ensures
            *options == (Options { timeout: Some(ms), ..*old(self) }),
            *final(self) == *final(options),
    {
        self.timeout = Some(ms);
        self
    }

    /// Sets the number of times that the engine tries each server.
    pub fn set_tries(&mut self, tries: i32) -> (options: &mut Options)
        ensures
            *options == (Options { tries: Some(tries), ..*old(self) }),
            *final(self) == *final(options),
    {
        self.tries = Some(tries);
        self
    }

    /// The option mask that tells the engine which options are set.
    pub fn optmask(&self) -> (mask: i32)
        ensures
            mask == self.spec_optmask(),
    {
        let mut mask: i32 = ARES_OPT_SOCK_STATE_CB;
        if self.flags.is_some() {
            mask = mask + ARES_OPT_FLAGS;
        }
        if self.timeout.is_some() {
            mask = mask + ARES_OPT_TIMEOUTMS;
        }
        if self.tries.is_some() {
            mask = mask + ARES_OPT_TRIES;
        }
        mask
    }
}

/// A socket that the engine waits on, and what it waits for.
#[derive(Clone, Copy, Debug, PartialEq, Eq, Structural, Hash)]
pub struct SocketWants {
    pub socket: i32,
    pub readable: bool,
    pub writable: bool,
}

/// Whether bit `n` of `mask` is set.
pub open spec fn bit_set(mask: u32, n: u32) -> bool {
    mask & (1u32 << n) != 0
}

/// What the engine's answer says of the socket at position `n`: in the mask,
/// bit `n` says that the socket is waited on for reading, and bit `n + 16`
/// that it is waited on for writing.  A socket for which neither bit is set
/// is not waited on at all.
pub open spec fn spec_socket_wants(socks: Seq<i32>, bitmask: u32, n: int) -> Option<SocketWants> {
    let readable = bit_set(bitmask, n as u32);
    let writable = bit_set(bitmask, (n + ARES_GETSOCK_MAXNUM) as u32);
    if readable || writable {
        Some(SocketWants { socket: socks[n], readable, writable })
    } else {
        None
    }
}

/// The sockets that the engine waits on: those at the positions before the
/// first one that is not waited on, in order.
pub open spec fn spec_sockets_awaiting_io(socks: Seq<i32>, bitmask: u32) -> Seq<SocketWants> {
    until_null(
        Seq::new(ARES_GETSOCK_MAXNUM as nat, |n: int| spec_socket_wants(socks, bitmask, n)),
    )
}

/// Reads the engine's answer to the question which sockets it waits on:
/// `socks` holds the sockets and `bitmask` says what each is waited on for.
/// The engine fills the positions from the front, so the first socket that is
/// not waited on ends the answer.
pub fn sockets_awaiting_io(socks: &[i32; 16], bitmask: u32) -> (wanted: Vec<SocketWants>)
    ensures
        wanted@ == spec_sockets_awaiting_io(socks@, bitmask),
        wanted@.len() <= ARES_GETSOCK_MAXNUM,
{
    let ghost answer = Seq::new(
        ARES_GETSOCK_MAXNUM as nat,
        |n: int| spec_socket_wants(socks@, bitmask, n),
    );
    let mut wanted: Vec<SocketWants> = Vec::new();
    let mut n: usize = 0;
    while n < ARES_GETSOCK_MAXNUM
        invariant
            n <= ARES_GETSOCK_MAXNUM,
            wanted@.len() == n,
            answer == Seq::new(
                ARES_GETSOCK_MAXNUM as nat,
                |n: int| spec_socket_wants(socks@, bitmask, n),
            ),
            forall|j: int| 0 <= j < n ==> #[trigger] answer[j] == Some(wanted@[j]),
            n == ARES_GETSOCK_MAXNUM ==> wanted@ == until_null(answer),
        ensures
            wanted@ == until_null(answer),
            wanted@.len() <= ARES_GETSOCK_MAXNUM,
        decreases ARES_GETSOCK_MAXNUM - n,
    {
        let readable: bool = bitmask & (1u32 << (n as u32)) != 0;
        let writable: bool = bitmask & (1u32 << ((n + ARES_GETSOCK_MAXNUM) as u32)) != 0;
        if !(readable || writable) {
            proof {
                lemma_until_null_prefix(answer, n as int);
            }
            break ;
        }
        wanted.push(SocketWants { socket: socks[n], readable, writable });
        n += 1;
        proof {
            if n == ARES_GETSOCK_MAXNUM {
                lemma_until_null_prefix(answer, n as int);
            }
        }
    }
    wanted
}

/// A span of time: whole seconds, and the nanoseconds beyond them.
#[derive(Clone, Copy, Debug, PartialEq, Eq, Structural, Hash)]
pub struct Timeout {
    pub secs: u64,
    pub nanos: u32,
}

/// The microseconds that a time value of the engine stands for.  A negative
/// part counts as zero.
pub open spec fn spec_micros(tv_sec: i64, tv_usec: i64) -> int {
    (if tv_sec < 0 {
        0
    } else {
        tv_sec as int
    }) * 1_000_000 + (if tv_usec < 0 {
        0
    } else {
        tv_usec as int
    })
}

/// Reads the engine's answer to the question how long the caller may wait
/// for activity on the sockets before it has to let the engine work again.
/// The answer is a time value in seconds and microseconds, or nothing where
/// the engine sets no deadline.
pub fn next_timeout(timeval: Option<(i64, i64)>) -> (deadline: Option<Timeout>)
    ensures
        timeval is None <==> deadline is None,
        timeval matches Some(tv) ==> deadline matches Some(timeout) && timeout.nanos
            < 1_000_000_000 && timeout.secs * 1_000_000_000 + timeout.nanos == spec_micros(
            tv.0,
            tv.1,
        ) * 1_000,
{
    match timeval {
        None => None,
        Some((tv_sec, tv_usec)) => {
            let sec: u64 = if tv_sec < 0 {
                0
            } else {
                tv_sec as u64
            };
            let usec: u64 = if tv_usec < 0 {
                0
            } else {
                tv_usec as u64
            };
            let secs: u64 = sec + usec / 1_000_000;
            let nanos: u32 = ((usec % 1_000_000) * 1_000) as u32;
            Some(Timeout { secs, nanos })
        },
    }
}

/// An outstanding query: the token by which the engine will name it, its
/// kind, and the completion handler that waits for its outcome.
pub struct PendingQuery<H> {
    pub token: u64,
    pub kind: RecordKind,
    pub handler: H,
}

/// A query that was outstanding when its channel was destroyed, with the
/// status that its handler is owed.
pub struct Cancellation<H> {
    pub query: PendingQuery<H>,
    pub status: i32,
}

/// A query that the channel could not take, with the handler that came with
/// it and the status that the handler is owed.
pub struct Rejection<H> {
    pub handler: H,
    pub status: i32,
}

/// Whether a name holds a zero byte.
pub open spec fn holds_zero(name: Seq<u8>) -> bool {
    exists|i: int| 0 <= i < name.len() && name[i] == 0
}

/// Whether a name holds a zero byte.
pub fn has_zero_byte(name: &[u8]) -> (found: bool)
    ensures
        found == holds_zero(name@),
{
    let mut i: usize = 0;
    while i < name.len()
        invariant
            i <= name@.len(),
            forall|j: int| 0 <= j < i ==> name@[j] != 0,
        decreases name@.len() - i,
    {
        if name[i] == 0 {
            return true;
        }
        i += 1;
    }
    false
}

/// A channel as a mathematical value.
pub struct ChannelView<H> {
    /// The configuration that the channel was made with.
    pub options: Options,
    /// The token that the next query gets.
    pub next_token: u64,
    /// The outstanding queries, in the order in which they were submitted.
    pub pending: Seq<PendingQuery<H>>,
}

impl<H> ChannelView<H> {
    /// Tokens grow along the outstanding queries, and the next token is
    /// larger than all of them: no token names two queries, now or later.
    pub open spec fn well_formed(self) -> bool {
        &&& forall|i: int, j: int|
            0 <= i < j < self.pending.len() ==> self.pending[i].token < self.pending[j].token
        &&& forall|i: int|
            0 <= i < self.pending.len() ==> (#[trigger] self.pending[i]).token < self.next_token
    }

    /// A channel on which nothing has been asked yet.
    pub open spec fn fresh(options: Options) -> ChannelView<H> {
        ChannelView { options, next_token: 0, pending: Seq::empty() }
    }

    /// Whether a query with this token is outstanding.
    pub open spec fn is_pending(self, token: u64) -> bool {
        exists|i: int| 0 <= i < self.pending.len() && (#[trigger] self.pending[i]).token == token
    }

    /// The channel after a query of `kind` has been submitted with `handler`.
    pub open spec fn submit(self, kind: RecordKind, handler: H) -> ChannelView<H> {
        ChannelView {
            next_token: (self.next_token + 1) as u64,
            pending: self.pending.push(PendingQuery { token: self.next_token, kind, handler }),
            ..self
        }
    }

    /// The channel after the outstanding query at position `i` has
    /// completed.
    pub open spec fn complete_at(self, i: int) -> ChannelView<H> {
        ChannelView { pending: self.pending.remove(i), ..self }
    }

    /// What is owed when the channel is destroyed: one cancellation for each
    /// outstanding query, in the order of submission.
    pub open spec fn cancellations(self) -> Seq<Cancellation<H>> {
        Seq::new(
            self.pending.len(),
            |i: int| Cancellation { query: self.pending[i], status: ARES_ECANCELLED },
        )
    }
}

/// The bookkeeping of a query channel: the handlers of the queries that are
/// outstanding.  `H` is the type of a completion handler.
pub struct Channel<H> {
    options: Options,
    next_token: u64,
    pending: Vec<PendingQuery<H>>,
}

impl<H> View for Channel<H> {
    type V = ChannelView<H>;

    closed spec fn view(&self) -> ChannelView<H> {
        ChannelView { options: self.options, next_token: self.next_token, pending: self.pending@ }
    }
}

impl<H> Channel<H> {
    #[verifier::type_invariant]
    spec fn sound(&self) -> bool {
        self@.well_formed()
    }

    /// Makes the bookkeeping of a channel that the engine has been asked to
    /// create with `options`, where `init_status` is what the engine
    /// answered.  A status other than success is an initialisation failure:
    /// there is no channel, and the result is the error that the status
    /// stands for.
    pub fn new(options: Options, init_status: i32) -> (channel: Result<Channel<H>, AresError>)
        ensures
            match channel {
                Ok(c) => init_status == ARES_SUCCESS && c@ == ChannelView::<H>::fresh(options),
                Err(e) => init_status != ARES_SUCCESS && e == spec_ares_error(init_status),
            },
    {
        if init_status != ARES_SUCCESS {
            Err(ares_error(init_status))
        } else {
            Ok(Channel { options, next_token: 0, pending: Vec::new() })
        }
    }

    /// The configuration that the channel was made with.
    pub fn options(&self) -> (options: Options)
        ensures
            options == self@.options,
            self@.well_formed(),
    {
        proof {
            use_type_invariant(self);
        }
        self.options
    }

    /// The number of outstanding queries.
    pub fn outstanding(&self) -> (count: usize)
        ensures
            count == self@.pending.len(),
            self@.well_formed(),
    {
        proof {
            use_type_invariant(self);
        }
        self.pending.len()
    }

    /// Registers the completion handler of a new query for `name` and returns
    /// the token under which the query is to be handed to the engine.
    ///
    /// A query is rejected where `name` holds a zero byte, which no name that
    /// is handed to the engine can hold, and, after 2^64 - 1 queries, where
    /// the channel has run out of tokens.  A rejected query is not
    /// registered, and its handler comes back with the status that it is
    /// owed: that of a bad name, or that of exhausted memory.
    pub fn submit_query(&mut self, kind: RecordKind, name: &[u8], handler: H) -> (outcome: Result<
        u64,
        Rejection<H>,
    >)
        ensures
            final(self)@.well_formed(),
            match outcome {
                Ok(token) => {
                    &&& !holds_zero(name@)
                    &&& old(self)@.next_token < u64::MAX
                    &&& token == old(self)@.next_token
                    &&& !old(self)@.is_pending(token)
                    &&& final(self)@ == old(self)@.submit(kind, handler)
                    &&& final(self)@.is_pending(token)
                },
                Err(rejection) => {
                    &&& holds_zero(name@) || old(self)@.next_token == u64::MAX
                    &&& rejection.handler == handler
                    &&& rejection.status == if holds_zero(name@) {
                        ARES_EBADNAME
                    } else {
                        ARES_ENOMEM
                    }
                    &&& final(self)@ == old(self)@
                },
            },
    {
        proof {
            use_type_invariant(&*self);
        }
        if has_zero_byte(name) {
            return Err(Rejection { handler, status: ARES_EBADNAME });
        }
        if self.next_token == u64::MAX {
            return Err(Rejection { handler, status: ARES_ENOMEM });
        }
        let token: u64 = self.next_token;
        let mut pending: Vec<PendingQuery<H>> = Vec::new();
        core::mem::swap(&mut pending, &mut self.pending);
        pending.push(PendingQuery { token, kind, handler });
        self.next_token = token + 1;
        core::mem::swap(&mut pending, &mut self.pending);
        assert(self.pending@[self.pending@.len() - 1].token == token);
        Ok(token)
    }

    /// Takes the outstanding query with this token out of the channel, for
    /// its handler to be called.  The result is `None` where no such query is
    /// outstanding: the engine has named a query that was never submitted, or
    /// one that has completed already, and no handler is to be called.
    #[must_use]
    pub fn complete(&mut self, token: u64) -> (query: Option<PendingQuery<H>>)
        ensures
            final(self)@.well_formed(),
            match query {
                Some(q) => exists|i: int|
                    {
                        &&& 0 <= i < old(self)@.pending.len()
                        &&& #[trigger] old(self)@.pending[i] == q
                        &&& q.token == token
                        &&& final(self)@ == old(self)@.complete_at(i)
                    },
                None => !old(self)@.is_pending(token) && final(self)@ == old(self)@,
            },
            !final(self)@.is_pending(token),
    {
        proof {
            use_type_invariant(&*self);
        }
        let mut i: usize = 0;
        while i < self.pending.len()
            invariant
                *self == *old(self),
                self@.well_formed(),
                i <= self.pending@.len(),
                forall|k: int| 0 <= k < i ==> (#[trigger] self.pending@[k]).token != token,
            decreases self.pending@.len() - i,
        {
            if self.pending[i].token == token {
                let mut pending: Vec<PendingQuery<H>> = Vec::new();
                core::mem::swap(&mut pending, &mut self.pending);
                let q = pending.remove(i);
                core::mem::swap(&mut pending, &mut self.pending);
                return Some(q);
            }
            i += 1;
        }
        None
    }

    /// Destroys the channel.  Every query that is still outstanding comes
    /// back once, in the order of submission, with the cancellation status
    /// that its handler is owed.  Where no query is outstanding nothing comes
    /// back, and no handler is to be called.
    #[must_use]
    pub fn destroy(self) -> (owed: Vec<Cancellation<H>>)
        ensures
            owed@ == self@.cancellations(),
            owed@.len() == self@.pending.len(),
            forall|i: int|
                0 <= i < owed@.len() ==> (#[trigger] owed@[i]).query == self@.pending[i]
                    && owed@[i].status == ARES_ECANCELLED,
    {
        let ghost all = self.pending@;
        let Channel { pending, .. } = self;
        let mut owed: Vec<Cancellation<H>> = Vec::new();
        for query in it: pending.into_iter()
            invariant
                it.seq() == all,
                owed@.len() == it.index(),
                forall|i: int|
                    0 <= i < owed@.len() ==> owed@[i] == (Cancellation {
                        query: all[i],
                        status: ARES_ECANCELLED,
                    }),
        {
            owed.push(Cancellation { query, status: ARES_ECANCELLED });
        }
        owed
    }
}

/// A query that is submitted to a channel on which nothing has happened,
/// and that sees no I/O before the channel is destroyed, is owed exactly one
/// cancellation, whatever its kind; and a handler that is called with the
/// status of that cancellation gets the cancellation error.
pub proof fn lemma_cancelled_before_io<H>(
    options: Options,
    kind: RecordKind,
    handler: H,
    hostent: Option<&Hostent>,
    parsed: ParsedReply,
)
    ensures
        ChannelView::fresh(options).submit(kind, handler).cancellations() == seq![
            Cancellation {
                query: PendingQuery { token: 0, kind, handler },
                status: ARES_ECANCELLED,
            },
        ],
        spec_ares_error(ARES_ECANCELLED) == AresError::ECANCELLED,
        spec_host_result(ARES_ECANCELLED, hostent) == Err::<HostResults, AresError>(
            AresError::ECANCELLED,
        ),
        spec_cname_completion(ARES_ECANCELLED, parsed) == Err::<CNameResult, AresError>(
            AresError::ECANCELLED,
        ),
{
    let channel = ChannelView::fresh(options).submit(kind, handler);
    assert(channel.cancellations() =~= seq![
        Cancellation { query: PendingQuery { token: 0, kind, handler }, status: ARES_ECANCELLED },
    ]);
}

/// Destroying a channel on which no query is outstanding owes nothing: no
/// handler is called.  This holds of every channel whose queries have all
/// completed, and of a channel on which nothing was ever asked.
pub proof fn lemma_destroy_idle<H>(channel: ChannelView<H>)
    requires
        channel.pending.len() == 0,
    ensures
        channel.cancellations() == Seq::<Cancellation<H>>::empty(),
{
}

/// A channel on which nothing has been asked yet is well formed and has no
/// query outstanding, so that destroying it owes nothing.
pub proof fn lemma_fresh_channel_is_idle<H>(options: Options)
    ensures
        ChannelView::<H>::fresh(options).well_formed(),
        ChannelView::<H>::fresh(options).pending.len() == 0,
        ChannelView::<H>::fresh(options).cancellations() == Seq::<Cancellation<H>>::empty(),
{
}

/// In every state of a channel, destruction owes each outstanding query one
/// cancellation and no more: there are as many cancellations as outstanding
/// queries, each carries the cancellation status, and no two of them name
/// the same query.
pub proof fn lemma_destroy_owes_each_once<H>(channel: ChannelView<H>)
    requires
        channel.well_formed(),
    ensures
        channel.cancellations().len() == channel.pending.len(),
        forall|i: int|
            0 <= i < channel.pending.len() ==> (#[trigger] channel.cancellations()[i]).query
                == channel.pending[i] && channel.cancellations()[i].status == ARES_ECANCELLED,
        forall|i: int, j: int|
            0 <= i < j < channel.pending.len() ==> channel.cancellations()[i].query.token
                != channel.cancellations()[j].query.token,
{
}

/// Submitting a query keeps a channel well formed, as long as a token is
/// left, and the query is outstanding from there on under a token that named
/// no query before.
pub proof fn lemma_submit<H>(channel: ChannelView<H>, kind: RecordKind, handler: H)
    requires
        channel.well_formed(),
        channel.next_token < u64::MAX,
    ensures
        channel.submit(kind, handler).well_formed(),
        !channel.is_pending(channel.next_token),
        channel.submit(kind, handler).is_pending(channel.next_token),
{
    let after = channel.submit(kind, handler);
    assert(after.pending[channel.pending.len() as int].token == channel.next_token);
}

/// A query completes once: when it has completed it is no longer
/// outstanding, so that a second completion under its token finds nothing,
/// and destruction owes it no cancellation.  The other queries stay as they
/// were.
pub proof fn lemma_complete_once<H>(channel: ChannelView<H>, i: int)
    requires
        channel.well_formed(),
        0 <= i < channel.pending.len(),
    ensures
        channel.complete_at(i).well_formed(),
        !channel.complete_at(i).is_pending(channel.pending[i].token),
        channel.complete_at(i).pending.len() == channel.pending.len() - 1,
        forall|token: u64|
            token != channel.pending[i].token ==> (channel.complete_at(i).is_pending(token)
                <==> channel.is_pending(token)),
{
    let before = channel.pending;
    let after = channel.complete_at(i).pending;
    assert forall|token: u64| token != before[i].token implies (channel.complete_at(i).is_pending(
        token,
    ) <==> channel.is_pending(token)) by {
        if channel.is_pending(token) {
            let k = choose|k: int| 0 <= k < before.len() && (#[trigger] before[k]).token == token;
            assert(after[if k < i { k } else { k - 1 }] == before[k]);
        }
    }
}

} // verus!
