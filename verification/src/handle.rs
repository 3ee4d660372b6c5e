//! The handle: the life of one engine instance, from its creation to its
//! release.
//!
//! A handle does not call the engine. It decides what is to be asked of it
//! next, and what an answer means. Whoever holds the engine makes each call
//! that a [`Step::Ask`] names, and hands the reply to [`Magic::resume`],
//! until a [`Step::Done`] ends the operation.

use crate::engine::{
    argument_of, copy_buffers, database_argument, database_argument_of, path_argument,
    slices_view, Action, Call, CallView, Outcome, OutcomeView, Reply, ReplyView, Step, StepView,
};
use crate::error::{allocation_text, failure_text, not_ready_text, unexpected_text, MagicError};
use crate::flags::{MagicFlags, ERROR};
use crate::text::{decode_lossy, utf8_lossy};
use vstd::prelude::*;
use vstd::slice::slice_to_vec;
use vstd::utf8::{decode_utf8, encode_utf8, valid_utf8};

verus! {

/// Where a handle stands.
#[derive(Debug, PartialEq, Eq)]
enum Phase {
    /// The engine was asked for an instance. `plan` is what follows once
    /// there is one: the call that loads the databases, or the error of
    /// their names.
    Opening { plan: Result<Call, MagicError> },
    /// The engine was asked to load the databases of a new instance.
    Loading,
    /// The instance is idle and takes a request.
    Ready,
    /// The engine was asked to describe a file or a buffer.
    Querying,
    /// The engine was asked to check, compile or list databases.
    Managing,
    /// The engine was asked to take `flags` in place of those in force.
    Setting { flags: MagicFlags },
    /// A request failed, and the engine was asked for its last error.
    Failing,
    /// The load of a new instance failed, and the engine was asked for its
    /// last error.
    Aborting,
    /// The engine was asked to release the instance. `verdict` is the error
    /// that ended its construction, if one did.
    Closing { verdict: Option<MagicError> },
    /// There is no instance: none was created, or it is released.
    Closed,
}

/// A phase with what it carries as sequences.
pub enum PhaseView {
    Opening { plan: Result<CallView, Seq<char>> },
    Loading,
    Ready,
    Querying,
    Managing,
    Setting { flags: MagicFlags },
    Failing,
    Aborting,
    Closing { verdict: Option<Seq<char>> },
    Closed,
}

impl View for Phase {
    type V = PhaseView;

    closed spec fn view(&self) -> PhaseView {
        match *self {
            Phase::Opening { plan: Ok(call) } => PhaseView::Opening { plan: Ok(call@) },
            Phase::Opening { plan: Err(e) } => PhaseView::Opening { plan: Err(e@) },
            Phase::Loading => PhaseView::Loading,
            Phase::Ready => PhaseView::Ready,
            Phase::Querying => PhaseView::Querying,
            Phase::Managing => PhaseView::Managing,
            Phase::Setting { flags } => PhaseView::Setting { flags },
            Phase::Failing => PhaseView::Failing,
            Phase::Aborting => PhaseView::Aborting,
            Phase::Closing { verdict: Some(e) } => PhaseView::Closing { verdict: Some(e@) },
            Phase::Closing { verdict: None } => PhaseView::Closing { verdict: None },
            Phase::Closed => PhaseView::Closed,
        }
    }
}

/// The handle of one engine instance.
///
/// It is not copied. It asks for the release of its instance once, and
/// after that for nothing.
#[derive(Debug)]
pub struct Magic {
    flags: MagicFlags,
    phase: Phase,
}

/// What a handle is: the flags of its instance, and where it stands.
pub struct MagicView {
    /// The flags that the instance is created with, and after that those
    /// in force on it.
    pub flags: MagicFlags,
    pub phase: PhaseView,
}

impl MagicView {
    /// The same handle in another phase.
    pub open spec fn at(self, phase: PhaseView) -> MagicView {
        MagicView { flags: self.flags, phase }
    }

    /// Whether the handle is one that a life can lead to: what follows the
    /// creation of the instance is a load that the engine can take, or an
    /// error.
    pub open spec fn wf(self) -> bool {
        match self.phase {
            PhaseView::Opening { plan: Ok(call) } => call.is_sound() && (call is Buffers || (
                call is Database && call->action == Action::Load)),
            _ => true,
        }
    }

    /// Whether an engine instance exists for this handle.
    pub open spec fn holds_instance(self) -> bool {
        !(self.phase is Opening) && !(self.phase is Closed)
    }

    /// Whether the release of the instance has been asked for, or there
    /// never was one to release.
    pub open spec fn is_released(self) -> bool {
        self.phase is Closing || self.phase is Closed
    }
}

impl View for Magic {
    type V = MagicView;

    closed spec fn view(&self) -> MagicView {
        MagicView { flags: self.flags, phase: self.phase@ }
    }
}

/// The flags that an instance is created with for a caller who asks for
/// `flags`: the error flag is always among them, so that the failures of
/// the operating system come back as errors.
pub open spec fn forced(flags: MagicFlags) -> MagicFlags {
    MagicFlags { bits: flags.bits | ERROR }
}

/// The error that a failed request ends with, from the text that the
/// engine gave as its last error.
pub open spec fn engine_failure(last_error: Option<Seq<u8>>) -> Seq<char> {
    failure_text(
        match last_error {
            Some(bytes) => Some(utf8_lossy(bytes)),
            None => None,
        },
    )
}

/// The call that loads the databases `names`, or the error of the names.
pub open spec fn load_plan(names: Seq<&str>) -> Result<CallView, Seq<char>> {
    database_call(Action::Load, names)
}

/// The call that works on the databases `names`, or the error of the names.
pub open spec fn database_call(action: Action, names: Seq<&str>) -> Result<CallView, Seq<char>> {
    match database_argument_of(names) {
        Ok(list) => Ok(CallView::Database { action, names: list }),
        Err(text) => Err(text),
    }
}

/// The call that describes the file `filename`, or the error of the name.
pub open spec fn file_call(filename: Seq<char>) -> Result<CallView, Seq<char>> {
    match argument_of(encode_utf8(filename)) {
        Ok(path) => Ok(CallView::File { path }),
        Err(text) => Err(text),
    }
}

/// A new handle: the engine is asked for an instance with the forced flags,
/// and `plan` follows.
pub open spec fn opening(flags: MagicFlags, plan: Result<CallView, Seq<char>>) -> (
    MagicView,
    StepView,
) {
    (
        MagicView { flags: forced(flags), phase: PhaseView::Opening { plan } },
        StepView::Ask(CallView::Open { flags: forced(flags) }),
    )
}

/// What a request does to a handle. Only a ready handle takes one. A
/// request whose arguments were rejected ends at once with their error and
/// asks nothing of the engine; any other asks `call` and waits in `then`.
pub open spec fn begun(m: MagicView, call: Result<CallView, Seq<char>>, then: PhaseView) -> (
    MagicView,
    StepView,
) {
    if !(m.phase is Ready) {
        (m, StepView::Done(Err(not_ready_text())))
    } else {
        match call {
            Ok(c) => (m.at(then), StepView::Ask(c)),
            Err(text) => (m, StepView::Done(Err(text))),
        }
    }
}

/// What closing does to a handle: where there is an instance whose release
/// was not asked for yet, it is asked for; else nothing is asked.
pub open spec fn closing(m: MagicView) -> (MagicView, StepView) {
    if m.holds_instance() && !m.is_released() {
        (m.at(PhaseView::Closing { verdict: None }), StepView::Ask(CallView::Close))
    } else {
        (m, StepView::Done(Err(not_ready_text())))
    }
}

/// What a reply does to a handle that waits for one.
pub open spec fn resumed(m: MagicView, reply: ReplyView) -> (MagicView, StepView) {
    match (m.phase, reply) {
        (PhaseView::Opening { plan: Ok(call) }, ReplyView::Opened) => (
            m.at(PhaseView::Loading),
            StepView::Ask(call),
        ),
        (PhaseView::Opening { plan: Err(text) }, ReplyView::Opened) => (
            m.at(PhaseView::Closing { verdict: Some(text) }),
            StepView::Ask(CallView::Close),
        ),
        (PhaseView::Opening { .. }, ReplyView::Refused { code, text }) => (
            m.at(PhaseView::Closed),
            StepView::Done(Err(allocation_text(text, code as int))),
        ),
        (PhaseView::Loading, ReplyView::Status(status)) => if status == 0 {
            (m.at(PhaseView::Ready), StepView::Done(Ok(OutcomeView::Completed)))
        } else {
            (m.at(PhaseView::Aborting), StepView::Ask(CallView::LastError))
        },
        (PhaseView::Aborting, ReplyView::Text(text)) => (
            m.at(PhaseView::Closing { verdict: Some(engine_failure(text)) }),
            StepView::Ask(CallView::Close),
        ),
        (PhaseView::Closing { verdict: Some(text) }, ReplyView::Released) => (
            m.at(PhaseView::Closed),
            StepView::Done(Err(text)),
        ),
        (PhaseView::Closing { verdict: None }, ReplyView::Released) => (
            m.at(PhaseView::Closed),
            StepView::Done(Ok(OutcomeView::Completed)),
        ),
        (PhaseView::Querying, ReplyView::Text(Some(bytes))) => (
            m.at(PhaseView::Ready),
            StepView::Done(Ok(OutcomeView::Description(utf8_lossy(bytes)))),
        ),
        (PhaseView::Querying, ReplyView::Text(None)) => (
            m.at(PhaseView::Failing),
            StepView::Ask(CallView::LastError),
        ),
        (PhaseView::Managing, ReplyView::Status(status)) => if status == 0 {
            (m.at(PhaseView::Ready), StepView::Done(Ok(OutcomeView::Completed)))
        } else {
            (m.at(PhaseView::Failing), StepView::Ask(CallView::LastError))
        },
        (PhaseView::Setting { flags }, ReplyView::Status(status)) => if status == -1 {
            (m.at(PhaseView::Ready), StepView::Done(Ok(OutcomeView::FlagsSet(false))))
        } else {
            (
                MagicView { flags, phase: PhaseView::Ready },
                StepView::Done(Ok(OutcomeView::FlagsSet(true))),
            )
        },
        (PhaseView::Failing, ReplyView::Text(text)) => (
            m.at(PhaseView::Ready),
            StepView::Done(Err(engine_failure(text))),
        ),
        _ => (m, StepView::Done(Err(unexpected_text()))),
    }
}

impl Magic {
    #[verifier::type_invariant]
    spec fn valid(self) -> bool {
        self@.wf()
    }

    /// Whether the handle takes a request.
    pub fn is_ready(&self) -> (r: bool)
        ensures
            r == (self@.phase is Ready),
    {
        matches!(self.phase, Phase::Ready)
    }

    /// Whether the handle has no instance any more, or never had one.
    pub fn is_closed(&self) -> (r: bool)
        ensures
            r == (self@.phase is Closed),
    {
        matches!(self.phase, Phase::Closed)
    }

    /// The flags that the instance is created with, and after that those
    /// in force on it.
    pub fn flags(&self) -> (r: MagicFlags)
        ensures
            r == self@.flags,
    {
        self.flags
    }

    /// The error that a failed request ends with, from the text that the
    /// engine gave as its last error: that text decoded, or a fixed text
    /// where the engine gave none.
    pub fn magic_failure(last_error: Option<Vec<u8>>) -> (e: MagicError)
        ensures
            e@ == engine_failure(
                match last_error {
                    Some(bytes) => Some(bytes@),
                    None => None,
                },
            ),
            match last_error {
                Some(bytes) => valid_utf8(bytes@) ==> e@ == decode_utf8(bytes@),
                None => true,
            },
    {
        match last_error {
            Some(bytes) => MagicError::operation(Some(decode_lossy(bytes.as_slice()))),
            None => MagicError::operation(None),
        }
    }

    fn open(flags: MagicFlags, plan: Result<Call, MagicError>) -> (r: (Magic, Step))
        requires
            plan matches Ok(call) ==> call@.is_sound() && (call@ is Buffers || (call@ is Database
                && call@->action == Action::Load)),
        ensures
            (r.0@, r.1@) == opening(
                flags,
                match plan {
                    Ok(call) => Ok(call@),
                    Err(e) => Err(e@),
                },
            ),
    {
        let flags = flags | MagicFlags::ERROR();
        (Magic { flags, phase: Phase::Opening { plan } }, Step::Ask(Call::Open { flags }))
    }

    fn begin(&mut self, call: Result<Call, MagicError>, then: Phase) -> (step: Step)
        requires
            !(then is Opening),
        ensures
            (final(self)@, step@) == begun(
                old(self)@,
                match call {
                    Ok(c) => Ok(c@),
                    Err(e) => Err(e@),
                },
                then@,
            ),
            final(self)@.wf(),
    {
        proof {
            use_type_invariant(&*self);
        }
        if !self.is_ready() {
            Step::Done(Err(MagicError::not_ready()))
        } else {
            match call {
                Ok(c) => {
                    self.phase = then;
                    Step::Ask(c)
                },
                Err(e) => Step::Done(Err(e)),
            }
        }
    }

    fn database(&mut self, action: Action, filenames: &[&str]) -> (step: Step)
        ensures
            (final(self)@, step@) == begun(
                old(self)@,
                database_call(action, filenames@),
                PhaseView::Managing,
            ),
            final(self)@.wf(),
    {
        let call = match database_argument(filenames) {
            Ok(names) => Ok(Call::Database { action, names }),
            Err(e) => Err(e),
        };
        self.begin(call, Phase::Managing)
    }

    /// Begins the life of a handle: an instance is asked for with `flags`
    /// and the error flag, and the databases `filenames` are loaded into it
    /// once it exists. With no names the default database is loaded.
    pub fn new(flags: MagicFlags, filenames: &[&str]) -> (r: (Magic, Step))
        ensures
            (r.0@, r.1@) == opening(flags, load_plan(filenames@)),
            r.0@.wf(),
    {
        let plan = match database_argument(filenames) {
            Ok(names) => Ok(Call::Database { action: Action::Load, names }),
            Err(e) => Err(e),
        };
        Magic::open(flags, plan)
    }

    /// Begins the life of a handle whose databases are compiled ones held
    /// in memory.
    pub fn new_from_buffers(flags: MagicFlags, buffers: &[&[u8]]) -> (r: (Magic, Step))
        ensures
            (r.0@, r.1@) == opening(
                flags,
                Ok(CallView::Buffers { buffers: slices_view(buffers@) }),
            ),
            r.0@.wf(),
    {
        Magic::open(flags, Ok(Call::Buffers { buffers: copy_buffers(buffers) }))
    }

    /// Asks for a description of the contents of the file `filename`.
    pub fn file(&mut self, filename: &str) -> (step: Step)
        ensures
            (final(self)@, step@) == begun(old(self)@, file_call(filename@), PhaseView::Querying),
            final(self)@.wf(),
    {
        let call = match path_argument(filename) {
            Ok(path) => Ok(Call::File { path }),
            Err(e) => Err(e),
        };
        self.begin(call, Phase::Querying)
    }

    /// Asks for a description of the bytes `buf`.
    pub fn buffer(&mut self, buf: &[u8]) -> (step: Step)
        ensures
            (final(self)@, step@) == begun(
                old(self)@,
                Ok(CallView::Buffer { bytes: buf@ }),
                PhaseView::Querying,
            ),
            final(self)@.wf(),
    {
        self.begin(Ok(Call::Buffer { bytes: slice_to_vec(buf) }), Phase::Querying)
    }

    /// Asks the engine to take `flags` in place of the flags in force.
    pub fn set_flags(&mut self, flags: MagicFlags) -> (step: Step)
        ensures
            (final(self)@, step@) == begun(
                old(self)@,
                Ok(CallView::SetFlags { flags }),
                PhaseView::Setting { flags },
            ),
            final(self)@.wf(),
    {
        self.begin(Ok(Call::SetFlags { flags }), Phase::Setting { flags })
    }

    /// Asks for a check of the entries of the databases `filenames`.
    pub fn check(&mut self, filenames: &[&str]) -> (step: Step)
        ensures
            (final(self)@, step@) == begun(
                old(self)@,
                database_call(Action::Check, filenames@),
                PhaseView::Managing,
            ),
            final(self)@.wf(),
    {
        self.database(Action::Check, filenames)
    }

    /// Asks for the databases `filenames` to be compiled.
    pub fn compile(&mut self, filenames: &[&str]) -> (step: Step)
        ensures
            (final(self)@, step@) == begun(
                old(self)@,
                database_call(Action::Compile, filenames@),
                PhaseView::Managing,
            ),
            final(self)@.wf(),
    {
        self.database(Action::Compile, filenames)
    }

    /// Asks for the entries of the databases `filenames` to be printed.
    pub fn list(&mut self, filenames: &[&str]) -> (step: Step)
        ensures
            (final(self)@, step@) == begun(
                old(self)@,
                database_call(Action::List, filenames@),
                PhaseView::Managing,
            ),
            final(self)@.wf(),
    {
        self.database(Action::List, filenames)
    }

    /// Ends the life of the handle: asks for the release of its instance,
    /// unless there is none or its release was asked for before.
    pub fn close(&mut self) -> (step: Step)
        ensures
            (final(self)@, step@) == closing(old(self)@),
            final(self)@.wf(),
    {
        proof {
            use_type_invariant(&*self);
        }
        match self.phase {
            Phase::Opening { .. } | Phase::Closing { .. } | Phase::Closed => Step::Done(
                Err(MagicError::not_ready()),
            ),
            _ => {
                self.phase = Phase::Closing { verdict: None };
                Step::Ask(Call::Close)
            },
        }
    }

    /// Takes the engine's reply to the call that was asked last, and says
    /// what comes next. A description or an error text that the engine gave
    /// in valid UTF-8 is the text that its bytes encode.
    pub fn resume(&mut self, reply: Reply) -> (step: Step)
        ensures
            (final(self)@, step@) == resumed(old(self)@, reply@),
            final(self)@.wf(),
            match reply {
                Reply::Text(Some(bytes)) => valid_utf8(bytes@) ==> {
                    &&& old(self)@.phase is Querying ==> step@ == StepView::Done(
                        Ok(OutcomeView::Description(decode_utf8(bytes@))),
                    )
                    &&& old(self)@.phase is Failing ==> step@ == StepView::Done(
                        Err(decode_utf8(bytes@)),
                    )
                },
                _ => true,
            },
    {
        proof {
            use_type_invariant(&*self);
        }
        let mut phase = Phase::Closed;
        core::mem::swap(&mut self.phase, &mut phase);
        match (phase, reply) {
            (Phase::Opening { plan: Ok(call) }, Reply::Opened) => {
                self.phase = Phase::Loading;
                Step::Ask(call)
            },
            (Phase::Opening { plan: Err(e) }, Reply::Opened) => {
                self.phase = Phase::Closing { verdict: Some(e) };
                Step::Ask(Call::Close)
            },
            (Phase::Opening { .. }, Reply::Refused { code, text }) => {
                Step::Done(Err(MagicError::allocation(text.as_str(), code)))
            },
            (Phase::Loading, Reply::Status(status)) => {
                if status == 0 {
                    self.phase = Phase::Ready;
                    Step::Done(Ok(Outcome::Completed))
                } else {
                    self.phase = Phase::Aborting;
                    Step::Ask(Call::LastError)
                }
            },
            (Phase::Aborting, Reply::Text(text)) => {
                self.phase = Phase::Closing { verdict: Some(Magic::magic_failure(text)) };
                Step::Ask(Call::Close)
            },
            (Phase::Closing { verdict }, Reply::Released) => {
                match verdict {
                    Some(e) => Step::Done(Err(e)),
                    None => Step::Done(Ok(Outcome::Completed)),
                }
            },
            (Phase::Querying, Reply::Text(Some(bytes))) => {
                self.phase = Phase::Ready;
                Step::Done(Ok(Outcome::Description(decode_lossy(bytes.as_slice()))))
            },
            (Phase::Querying, Reply::Text(None)) => {
                self.phase = Phase::Failing;
                Step::Ask(Call::LastError)
            },
            (Phase::Managing, Reply::Status(status)) => {
                if status == 0 {
                    self.phase = Phase::Ready;
                    Step::Done(Ok(Outcome::Completed))
                } else {
                    self.phase = Phase::Failing;
                    Step::Ask(Call::LastError)
                }
            },
            (Phase::Setting { flags }, Reply::Status(status)) => {
                self.phase = Phase::Ready;
                if status == -1 {
                    Step::Done(Ok(Outcome::FlagsSet(false)))
                } else {
                    self.flags = flags;
                    Step::Done(Ok(Outcome::FlagsSet(true)))
                }
            },
            (Phase::Failing, Reply::Text(text)) => {
                self.phase = Phase::Ready;
                Step::Done(Err(Magic::magic_failure(text)))
            },
            (other, _) => {
                self.phase = other;
                Step::Done(Err(MagicError::unexpected_reply()))
            },
        }
    }
}

} // verus!
