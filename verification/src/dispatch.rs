//! Routing of a raw syscall frame to the handler that serves it.
//!
//! A frame is seven machine words: the selector and up to six arguments.
//! Handlers do their work outside this crate, so routing is a decision with
//! two steps. [`generic_do_syscall`] says which handler to run on which words,
//! or that the call is unsupported; once the handler has returned,
//! [`Call::settle`] says what goes to the outcome encoder.
//!
//! The selector is never among the words that a handler receives: every
//! handler takes the first of the six argument words that follow it, as many
//! as its signature has.

use crate::error::{SyscallError, SyscallOutcome};
use crate::render::{hex, hex_text, lemma_digits_hold_no_line_break};
use std::collections::HashMap;
use vstd::prelude::*;

verus! {

broadcast use vstd::std_specs::hash::group_hash_axioms;

/// The collaborators a syscall can be routed to, one for each known call.
/// The prefix names the subsystem that serves it.
#[derive(Clone, Copy, Debug, PartialEq, Eq, Structural)]
pub enum Handler {
    ProcessExit,
    ProcessShutdown,
    ProcessFork,
    ProcessMmap,
    ProcessMunmap,
    ProcessMprotect,
    ProcessExec,
    ProcessLog,
    ProcessUname,
    ProcessWaitpid,
    ProcessGetpid,
    ProcessGetppid,
    ProcessGettid,
    ProcessGethostname,
    ProcessSethostname,
    ProcessInfo,
    ProcessSigaction,
    ProcessSigprocmask,
    ProcessClone,
    ProcessKill,
    ProcessBacktrace,
    ProcessTrace,
    ProcessSetpgid,
    ProcessSetsid,
    ProcessGetpgid,
    FsRead,
    FsOpen,
    FsClose,
    FsWrite,
    FsGetdents,
    FsGetcwd,
    FsChdir,
    FsMkdirat,
    FsRmdir,
    FsIoctl,
    FsSeek,
    FsAccess,
    FsPipe,
    FsUnlink,
    FsDup,
    FsDup2,
    FsFcntl,
    FsStat,
    FsFstat,
    FsReadLink,
    FsEventFd,
    FsLink,
    FsPoll,
    FsRename,
    FsEpollCreate,
    FsEpollCtl,
    FsEpollPwait,
    NetSocket,
    NetBind,
    NetConnect,
    NetListen,
    NetAccept,
    NetSockRecv,
    NetSockSend,
    NetSocketPair,
    NetShutdown,
    NetGetPeername,
    NetGetSockname,
    NetSetopt,
    TimeGettime,
    TimeSleep,
    TimeSetitimer,
    TimeGetitimer,
    IpcSend,
    IpcRecv,
    IpcDiscoverRoot,
    IpcBecomeRoot,
    FutexWait,
    FutexWake,
    /// The directory-creating call under its older selector, which names no
    /// directory to start from. No call is made to it: a frame routed here
    /// becomes a call of `FsMkdirat` that starts from the caller's working
    /// directory (see [`Call::resolved`]).
    FsMkdir,
    /// The debug call that labels a range of the caller's memory.
    TagMemory,
}

impl Handler {
    /// How many words of the frame the handler takes.
    pub open spec fn spec_arity(self) -> nat {
        match self {
            Handler::ProcessShutdown
            | Handler::ProcessFork
            | Handler::ProcessGetpid
            | Handler::ProcessGetppid
            | Handler::ProcessGettid
            | Handler::ProcessBacktrace
            | Handler::ProcessTrace
            | Handler::ProcessSetsid
            | Handler::IpcDiscoverRoot
            | Handler::IpcBecomeRoot => 0,
            Handler::ProcessExit
            | Handler::ProcessUname
            | Handler::ProcessInfo
            | Handler::ProcessGetpgid
            | Handler::FsClose
            | Handler::FsEpollCreate
            | Handler::TimeSleep
            | Handler::FutexWake => 1,
            Handler::ProcessMunmap
            | Handler::ProcessLog
            | Handler::ProcessGethostname
            | Handler::ProcessSethostname
            | Handler::ProcessClone
            | Handler::ProcessKill
            | Handler::ProcessSetpgid
            | Handler::FsGetcwd
            | Handler::FsChdir
            | Handler::FsRmdir
            | Handler::FsPipe
            | Handler::FsDup
            | Handler::FsFstat
            | Handler::FsEventFd
            | Handler::NetListen
            | Handler::NetShutdown
            | Handler::TimeGettime
            | Handler::TimeGetitimer
            | Handler::FsMkdir => 2,
            Handler::ProcessMprotect
            | Handler::ProcessWaitpid
            | Handler::ProcessSigprocmask
            | Handler::FsRead
            | Handler::FsWrite
            | Handler::FsGetdents
            | Handler::FsMkdirat
            | Handler::FsIoctl
            | Handler::FsSeek
            | Handler::FsDup2
            | Handler::FsFcntl
            | Handler::FsStat
            | Handler::NetSocket
            | Handler::NetBind
            | Handler::NetConnect
            | Handler::NetAccept
            | Handler::NetSockRecv
            | Handler::NetSockSend
            | Handler::NetGetPeername
            | Handler::NetGetSockname
            | Handler::TimeSetitimer
            | Handler::IpcSend
            | Handler::FutexWait => 3,
            Handler::ProcessSigaction
            | Handler::FsOpen
            | Handler::FsUnlink
            | Handler::FsReadLink
            | Handler::FsLink
            | Handler::FsPoll
            | Handler::FsRename
            | Handler::FsEpollCtl
            | Handler::NetSocketPair
            | Handler::IpcRecv
            | Handler::TagMemory => 4,
            Handler::FsAccess
            | Handler::FsEpollPwait
            | Handler::NetSetopt => 5,
            Handler::ProcessMmap
            | Handler::ProcessExec => 6,
        }
    }

    /// Returns how many words of the frame the handler takes.
    pub fn arity(&self) -> (n: usize)
        ensures
            n == self.spec_arity(),
            n <= 6,
    {
        match self {
            Handler::ProcessShutdown
            | Handler::ProcessFork
            | Handler::ProcessGetpid
            | Handler::ProcessGetppid
            | Handler::ProcessGettid
            | Handler::ProcessBacktrace
            | Handler::ProcessTrace
            | Handler::ProcessSetsid
            | Handler::IpcDiscoverRoot
            | Handler::IpcBecomeRoot => 0,
            Handler::ProcessExit
            | Handler::ProcessUname
            | Handler::ProcessInfo
            | Handler::ProcessGetpgid
            | Handler::FsClose
            | Handler::FsEpollCreate
            | Handler::TimeSleep
            | Handler::FutexWake => 1,
            Handler::ProcessMunmap
            | Handler::ProcessLog
            | Handler::ProcessGethostname
            | Handler::ProcessSethostname
            | Handler::ProcessClone
            | Handler::ProcessKill
            | Handler::ProcessSetpgid
            | Handler::FsGetcwd
            | Handler::FsChdir
            | Handler::FsRmdir
            | Handler::FsPipe
            | Handler::FsDup
            | Handler::FsFstat
            | Handler::FsEventFd
            | Handler::NetListen
            | Handler::NetShutdown
            | Handler::TimeGettime
            | Handler::TimeGetitimer
            | Handler::FsMkdir => 2,
            Handler::ProcessMprotect
            | Handler::ProcessWaitpid
            | Handler::ProcessSigprocmask
            | Handler::FsRead
            | Handler::FsWrite
            | Handler::FsGetdents
            | Handler::FsMkdirat
            | Handler::FsIoctl
            | Handler::FsSeek
            | Handler::FsDup2
            | Handler::FsFcntl
            | Handler::FsStat
            | Handler::NetSocket
            | Handler::NetBind
            | Handler::NetConnect
            | Handler::NetAccept
            | Handler::NetSockRecv
            | Handler::NetSockSend
            | Handler::NetGetPeername
            | Handler::NetGetSockname
            | Handler::TimeSetitimer
            | Handler::IpcSend
            | Handler::FutexWait => 3,
            Handler::ProcessSigaction
            | Handler::FsOpen
            | Handler::FsUnlink
            | Handler::FsReadLink
            | Handler::FsLink
            | Handler::FsPoll
            | Handler::FsRename
            | Handler::FsEpollCtl
            | Handler::NetSocketPair
            | Handler::IpcRecv
            | Handler::TagMemory => 4,
            Handler::FsAccess
            | Handler::FsEpollPwait
            | Handler::NetSetopt => 5,
            Handler::ProcessMmap
            | Handler::ProcessExec => 6,
        }
    }

}

/// The seven words of a frame in order, the selector first.
pub open spec fn frame_words(
    a: usize,
    b: usize,
    c: usize,
    d: usize,
    e: usize,
    f: usize,
    g: usize,
) -> Seq<usize> {
    seq![a, b, c, d, e, f, g]
}

/// The words of `frame` that `handler` receives, in the order of the frame:
/// the argument words from the first on, as many as the handler takes.
pub open spec fn forwarded(handler: Handler, frame: Seq<usize>) -> Seq<usize> {
    frame.subrange(1, 1 + handler.spec_arity() as int)
}

/// The line that reports an unknown selector.
pub open spec fn unsupported_diagnostic(selector: usize) -> Seq<char> {
    "invalid syscall: "@ + hex_text(selector as nat)
}

/// The mapping from selectors to handlers. A selector has at most one
/// handler; a selector that was never registered is a hole.
pub struct DispatchTable {
    routes: HashMap<usize, Handler>,
}

impl View for DispatchTable {
    type V = Map<usize, Handler>;

    closed spec fn view(&self) -> Map<usize, Handler> {
        self.routes@
    }
}

impl DispatchTable {
    /// A table in which every selector is a hole.
    pub fn new() -> (table: Self)
        ensures
            table@ == Map::<usize, Handler>::empty(),
    {
        DispatchTable { routes: HashMap::new() }
    }

    /// Maps `selector` to `handler` unless the selector has a handler
    /// already: the first registration of a selector is the one that counts.
    pub fn register_first(&mut self, selector: usize, handler: Handler)
        ensures
            final(self)@ == if old(self)@.contains_key(selector) {
                old(self)@
            } else {
                old(self)@.insert(selector, handler)
            },
    {
        if self.lookup(selector).is_none() {
            self.register(selector, handler);
        }
    }

    /// Maps `selector` to `handler`. A handler that the selector had before
    /// is replaced; every other selector keeps what it had.
    pub fn register(&mut self, selector: usize, handler: Handler)
        ensures
            final(self)@ == old(self)@.insert(selector, handler),
    {
        self.routes.insert(selector, handler);
    }

    /// The handler of `selector`, or `None` where the selector is a hole.
    pub fn lookup(&self, selector: usize) -> (found: Option<Handler>)
        ensures
            found == if self@.contains_key(selector) {
                Some(self@[selector])
            } else {
                None::<Handler>
            },
    {
        match self.routes.get(&selector) {
            Some(handler) => Some(*handler),
            None => None,
        }
    }
}

/// One invocation to perform: the handler and the words it receives.
pub struct Call {
    pub handler: Handler,
    pub args: Vec<usize>,
}

/// What a [`Call`] is in contracts.
pub struct CallView {
    pub handler: Handler,
    pub args: Seq<usize>,
}

impl View for Call {
    type V = CallView;

    open spec fn view(&self) -> CallView {
        CallView { handler: self.handler, args: self.args@ }
    }
}

/// The answer to a frame with an unknown selector: no handler runs, the
/// diagnostic is written once at error severity, and the outcome goes to the
/// encoder.
pub struct Rejection {
    pub diagnostic: String,
    pub outcome: SyscallOutcome,
}

/// What a [`Rejection`] is in contracts.
pub struct RejectionView {
    pub diagnostic: Seq<char>,
    pub outcome: SyscallOutcome,
}

impl View for Rejection {
    type V = RejectionView;

    open spec fn view(&self) -> RejectionView {
        RejectionView { diagnostic: self.diagnostic@, outcome: self.outcome }
    }
}

/// The decision taken on a frame.
pub enum Dispatch {
    /// Exactly this handler runs, on exactly these words.
    Invoke(Call),
    /// The selector is unknown.
    Unsupported(Rejection),
}

/// What a [`Dispatch`] is in contracts.
pub enum DispatchView {
    Invoke(CallView),
    Unsupported(RejectionView),
}

impl View for Dispatch {
    type V = DispatchView;

    open spec fn view(&self) -> DispatchView {
        match self {
            Dispatch::Invoke(call) => DispatchView::Invoke(call@),
            Dispatch::Unsupported(rejection) => DispatchView::Unsupported(rejection@),
        }
    }
}

/// The call that is made for `call`. A call routed to the older mkdir
/// selector becomes a call of `FsMkdirat` whose first word is
/// `working_directory`, the descriptor that stands for the caller's working
/// directory, followed by the two words of the path. Every other call is
/// made as it is.
pub open spec fn resolved_call(call: CallView, working_directory: usize) -> CallView {
    if call.handler == Handler::FsMkdir {
        CallView {
            handler: Handler::FsMkdirat,
            args: seq![working_directory, call.args[0], call.args[1]],
        }
    } else {
        call
    }
}

/// The decision that `routes` prescribes for `frame`, where
/// `working_directory` is the descriptor that stands for the caller's
/// working directory.
pub open spec fn dispatch_of(
    routes: Map<usize, Handler>,
    working_directory: usize,
    frame: Seq<usize>,
) -> DispatchView {
    let selector = frame[0];
    if routes.contains_key(selector) {
        DispatchView::Invoke(
            resolved_call(
                CallView { handler: routes[selector], args: forwarded(routes[selector], frame) },
                working_directory,
            ),
        )
    } else {
        DispatchView::Unsupported(
            RejectionView {
                diagnostic: unsupported_diagnostic(selector),
                outcome: Err(SyscallError::ENOSYS),
            },
        )
    }
}

/// What the encoder receives once the handler of a call has returned.
pub open spec fn settled(call: CallView, returned: SyscallOutcome) -> SyscallOutcome {
    returned
}

impl Call {
    /// Gives the call that is made for this one: an `FsMkdirat` call that
    /// starts from `working_directory` where this one is routed to the older
    /// mkdir selector, and this call itself otherwise.
    pub fn resolved(self, working_directory: usize) -> (call: Call)
        requires
            self@.handler == Handler::FsMkdir ==> self@.args.len() == 2,
        ensures
            call@ == resolved_call(self@, working_directory),
    {
        match self.handler {
            Handler::FsMkdir => {
                let args = vec![working_directory, self.args[0], self.args[1]];
                Call { handler: Handler::FsMkdirat, args }
            },
            _ => self,
        }
    }

    /// Takes what the handler returned and gives what goes to the encoder:
    /// the same outcome, success or error, with nothing altered, retried
    /// or suppressed.
    pub fn settle(&self, returned: SyscallOutcome) -> (outcome: SyscallOutcome)
        ensures
            outcome == settled(self@, returned),
    {
        returned
    }
}

/// Decides what to do with the frame `a`..`g`, of which `a` is the selector.
/// `working_directory` is the descriptor that stands for the caller's
/// working directory.
///
/// A selector that `table` knows yields the call to make; the caller runs
/// the handler and passes what it returned to [`Call::settle`]. Any other
/// selector yields a [`Rejection`], whatever the argument words are.
pub fn generic_do_syscall(
    table: &DispatchTable,
    working_directory: usize,
    a: usize,
    b: usize,
    c: usize,
    d: usize,
    e: usize,
    f: usize,
    g: usize,
) -> (decision: Dispatch)
    ensures
        decision@ == dispatch_of(table@, working_directory, frame_words(a, b, c, d, e, f, g)),
{
    match table.lookup(a) {
        Some(handler) => {
            let frame = vec![a, b, c, d, e, f, g];
            let words = vstd::slice::slice_subrange(frame.as_slice(), 1, 1 + handler.arity());
            let call = Call { handler, args: vstd::slice::slice_to_vec(words) };
            Dispatch::Invoke(call.resolved(working_directory))
        },
        None => {
            let mut diagnostic = String::from_str("invalid syscall: ");
            diagnostic.append(hex(a).as_str());
            Dispatch::Unsupported(Rejection { diagnostic, outcome: Err(SyscallError::ENOSYS) })
        },
    }
}

/// Every selector that the table knows is routed to the one handler the
/// table maps it to, the handler receives the argument words its signature
/// takes and never the selector, and the outcome it returns reaches the
/// encoder unchanged. A frame under the older mkdir selector reaches
/// `FsMkdirat`, with the working directory first and the two words of the
/// path after it.
pub proof fn lemma_known_selector_reaches_its_handler(
    routes: Map<usize, Handler>,
    working_directory: usize,
    frame: Seq<usize>,
    returned: SyscallOutcome,
)
    requires
        frame.len() == 7,
        routes.contains_key(frame[0]),
    ensures
        dispatch_of(routes, working_directory, frame) matches DispatchView::Invoke(call) && {
            &&& call.handler != Handler::FsMkdir
            &&& call.args.len() == call.handler.spec_arity()
            &&& routes[frame[0]] != Handler::FsMkdir ==> {
                &&& call.handler == routes[frame[0]]
                &&& call.args == frame.subrange(1, 1 + call.handler.spec_arity() as int)
            }
            &&& routes[frame[0]] == Handler::FsMkdir ==> {
                &&& call.handler == Handler::FsMkdirat
                &&& call.args == seq![working_directory, frame[1], frame[2]]
            }
            &&& settled(call, returned) == returned
        },
{
}

/// A selector that the table does not know is answered with the unsupported
/// call error and a diagnostic of exactly one line, and no handler; the
/// answer is the same for every choice of the six argument words.
pub proof fn lemma_unknown_selector_is_rejected(
    routes: Map<usize, Handler>,
    working_directory: usize,
    frame: Seq<usize>,
    other: Seq<usize>,
)
    requires
        frame.len() == 7,
        other.len() == 7,
        other[0] == frame[0],
        !routes.contains_key(frame[0]),
    ensures
        dispatch_of(routes, working_directory, frame) matches DispatchView::Unsupported(
            rejection,
        ) && {
            &&& rejection.outcome == Err::<usize, SyscallError>(SyscallError::ENOSYS)
            &&& rejection.diagnostic == unsupported_diagnostic(frame[0])
            &&& !rejection.diagnostic.contains('\n')
        },
        dispatch_of(routes, working_directory, other) == dispatch_of(
            routes,
            working_directory,
            frame,
        ),
{
    reveal_strlit("invalid syscall: ");
    lemma_digits_hold_no_line_break(frame[0] as nat, 16);
}

} // verus!
