//! What holds of every life of a handle, whatever is asked of it and whatever
//! the engine answers.

use crate::engine::{slices_view, Action, CallView, OutcomeView, ReplyView, StepView};
use crate::error::allocation_text;
use crate::flags::{includes, MagicFlags, ERROR};
use crate::handle::{
    begun, closing, database_call, engine_failure, file_call, forced, load_plan, opening, resumed,
    MagicView, PhaseView,
};
use vstd::prelude::*;

verus! {

/// One thing that happens to a handle: a request of its holder, or a reply
/// of the engine.
pub enum Event<'a> {
    /// A description of the file of this name is asked for.
    File(Seq<char>),
    /// A description of these bytes is asked for.
    Buffer(Seq<u8>),
    /// These flags are to take the place of those in force.
    SetFlags(MagicFlags),
    /// The databases of these names are to be checked, compiled or listed.
    Database(Action, Seq<&'a str>),
    /// The handle is closed.
    Close,
    /// The engine answered.
    Reply(ReplyView),
}

/// The handle after an event, and the step that the event led to.
pub open spec fn after(m: MagicView, event: Event) -> (MagicView, StepView) {
    match event {
        Event::File(filename) => begun(m, file_call(filename), PhaseView::Querying),
        Event::Buffer(bytes) => begun(m, Ok(CallView::Buffer { bytes }), PhaseView::Querying),
        Event::SetFlags(flags) => begun(
            m,
            Ok(CallView::SetFlags { flags }),
            PhaseView::Setting { flags },
        ),
        Event::Database(action, names) => begun(
            m,
            database_call(action, names),
            PhaseView::Managing,
        ),
        Event::Close => closing(m),
        Event::Reply(reply) => resumed(m, reply),
    }
}

/// How often the release of the instance is asked for while `events`
/// happen to the handle, one after the other.
pub open spec fn releases(m: MagicView, events: Seq<Event>) -> nat
    decreases events.len(),
{
    if events.len() == 0 {
        0
    } else {
        let (next, step) = after(m, events[0]);
        let asked: nat = if step == StepView::Ask(CallView::Close) {
            1
        } else {
            0
        };
        asked + releases(next, events.skip(1))
    }
}

/// A new handle is well formed, whatever the names of its databases and
/// whatever its buffers hold.
pub proof fn new_handle_is_wf(flags: MagicFlags, names: Seq<&str>, buffers: Seq<&[u8]>)
    ensures
        opening(flags, load_plan(names)).0.wf(),
        opening(flags, Ok(CallView::Buffers { buffers: slices_view(buffers) })).0.wf(),
{
}

/// A well-formed handle stays well formed through every event.
pub proof fn wf_is_kept(m: MagicView, event: Event)
    requires
        m.wf(),
    ensures
        after(m, event).0.wf(),
{
}

/// An instance is always created with the error flag, and with every flag
/// that was asked for.
pub proof fn open_flags_hold_error(flags: MagicFlags)
    ensures
        includes(forced(flags).bits, ERROR),
        includes(forced(flags).bits, flags.bits),
        opening(flags, load_plan(Seq::empty())).1 == StepView::Ask(
            CallView::Open { flags: forced(flags) },
        ),
{
    let b = flags.bits;
    assert((b | 0x200i32) & 0x200i32 == 0x200i32) by (bit_vector);
    assert((b | 0x200i32) & b == b) by (bit_vector);
}

/// No call with a nul byte inside a nul-terminated argument is ever asked
/// of the engine.
pub proof fn asked_calls_are_sound(m: MagicView, event: Event)
    requires
        m.wf(),
    ensures
        after(m, event).1 matches StepView::Ask(call) ==> call.is_sound(),
{
}

/// The engine is asked for something only when a request is taken by a
/// ready handle, when a handle with an instance is closed, or in reply to
/// what came back from it; and a handle that waits for a reply takes no
/// request.
pub proof fn busy_handle_takes_no_request(m: MagicView, event: Event)
    requires
        !(m.phase is Ready),
        !(event is Reply),
        !(event is Close),
    ensures
        after(m, event).0 == m,
        after(m, event).1 is Done,
{
}

/// Once the release of the instance has been asked for, or when there never
/// was an instance, nothing more is asked of the engine: there is no use
/// after the release and no second release.
pub proof fn released_handle_asks_nothing(m: MagicView, event: Event)
    requires
        m.is_released(),
    ensures
        after(m, event).1 is Done,
        after(m, event).0.is_released(),
{
}

/// The release is asked for exactly when the handle goes over to its closing
/// phase, which it does from a phase before the release only.
pub proof fn release_starts_closing(m: MagicView, event: Event)
    requires
        m.wf(),
    ensures
        after(m, event).1 == StepView::Ask(CallView::Close) <==> !m.is_released() && after(
            m,
            event,
        ).0.phase is Closing,
{
}

/// Whatever happens to a handle, the release of its instance is asked for
/// once at most, and never where it has been asked for before.
pub proof fn release_is_asked_once(m: MagicView, events: Seq<Event>)
    requires
        m.wf(),
    ensures
        releases(m, events) <= 1,
        m.is_released() ==> releases(m, events) == 0,
    decreases events.len(),
{
    if events.len() > 0 {
        let (next, step) = after(m, events[0]);
        wf_is_kept(m, events[0]);
        release_starts_closing(m, events[0]);
        release_is_asked_once(next, events.skip(1));
        if m.is_released() {
            released_handle_asks_nothing(m, events[0]);
        }
    }
}

/// A handle comes to its closed phase in two ways only: the engine refused
/// to create an instance, so that there is none to release; or the engine
/// answered that the instance is released, after the release was asked for.
pub proof fn instance_ends_by_release(m: MagicView, event: Event)
    requires
        !(m.phase is Closed),
        after(m, event).0.phase is Closed,
    ensures
        (m.phase is Opening && event matches Event::Reply(ReplyView::Refused { .. })) || (m.phase is Closing
            && event == Event::Reply(ReplyView::Released)),
{
}

/// Where the engine refuses to create an instance, the construction ends
/// with the operating system's error, and nothing is asked for release.
pub proof fn refused_open_ends_construction(m: MagicView, code: i32, text: Seq<char>)
    requires
        m.phase is Opening,
    ensures
        resumed(m, ReplyView::Refused { code, text }) == (
            m.at(PhaseView::Closed),
            StepView::Done(Err(allocation_text(text, code as int))),
        ),
{
}

/// Where the load of a new instance fails, the instance is released before
/// the construction ends with the engine's error.
pub proof fn failed_load_is_released(m: MagicView, status: i32, last_error: Option<Seq<u8>>)
    requires
        m.phase is Loading,
        status != 0,
    ensures
        ({
            let (asking, first) = resumed(m, ReplyView::Status(status));
            let (releasing, second) = resumed(asking, ReplyView::Text(last_error));
            let (ended, third) = resumed(releasing, ReplyView::Released);
            &&& first == StepView::Ask(CallView::LastError)
            &&& second == StepView::Ask(CallView::Close)
            &&& third == StepView::Done(Err(engine_failure(last_error)))
            &&& ended.phase is Closed
        }),
{
}

/// Where the names of the databases of a new instance are rejected, the
/// instance is released before the construction ends with their error, and
/// the engine is never asked to load them.
pub proof fn rejected_names_are_released(flags: MagicFlags, names: Seq<&str>)
    requires
        load_plan(names) is Err,
    ensures
        ({
            let (created, first) = opening(flags, load_plan(names));
            let (releasing, second) = resumed(created, ReplyView::Opened);
            let (ended, third) = resumed(releasing, ReplyView::Released);
            &&& first == StepView::Ask(CallView::Open { flags: forced(flags) })
            &&& second == StepView::Ask(CallView::Close)
            &&& third == StepView::Done(Err(load_plan(names)->Err_0))
            &&& ended.phase is Closed
        }),
{
}

/// Where the engine creates the instance and loads its databases, the
/// handle is ready, with the forced flags in force.
pub proof fn construction_succeeds(flags: MagicFlags, names: Seq<&str>)
    requires
        load_plan(names) is Ok,
    ensures
        ({
            let (created, first) = opening(flags, load_plan(names));
            let (loading, second) = resumed(created, ReplyView::Opened);
            let (ready, third) = resumed(loading, ReplyView::Status(0));
            &&& second == StepView::Ask(load_plan(names)->Ok_0)
            &&& third == StepView::Done(Ok(OutcomeView::Completed))
            &&& ready.phase is Ready
            &&& ready.flags == forced(flags)
        }),
{
}

/// A request that fails leaves the instance in place: the handle is ready
/// again, and the request ends with the engine's error.
pub proof fn failed_request_keeps_instance(m: MagicView, last_error: Option<Seq<u8>>)
    requires
        m.phase is Failing,
    ensures
        resumed(m, ReplyView::Text(last_error)) == (
            m.at(PhaseView::Ready),
            StepView::Done(Err(engine_failure(last_error))),
        ),
{
}

/// New flags take the place of those in force, whatever those were, where
/// the engine takes them; where it does not, those in force stay.
pub proof fn set_flags_overwrites(m: MagicView, flags: MagicFlags, status: i32)
    requires
        m.phase is Ready,
    ensures
        ({
            let (setting, first) = after(m, Event::SetFlags(flags));
            let (set, second) = resumed(setting, ReplyView::Status(status));
            &&& first == StepView::Ask(CallView::SetFlags { flags })
            &&& second == StepView::Done(Ok(OutcomeView::FlagsSet(status != -1)))
            &&& set.phase is Ready
            &&& set.flags == if status != -1 {
                flags
            } else {
                m.flags
            }
        }),
{
}

} // verus!
