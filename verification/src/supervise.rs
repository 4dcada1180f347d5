//! How a session is kept: started, watched until it fails or is told to end, and
//! torn down.
//!
//! The watch is a sequence of actions. Each action is performed outside, and what
//! came of it is handed to [`up_next`], which names the next one.

use vstd::prelude::*;

use crate::component::ReportError;
use crate::target::{Target, TargetView};

verus! {

/// How long to wait between two looks at the components.
pub const WATCH_MILLIS: u64 = 500;

/// A step of the watch.
#[derive(Clone, Copy, Debug)]
pub enum UpAction {
    /// Start the session.
    Start,
    /// Ask to be told of the request to terminate.
    HandleTerminate,
    /// Ask to be told of an interrupt.
    HandleInterrupt,
    /// See whether a component is not running.
    CheckComponents,
    /// Wait a moment, or until a signal comes.
    Wait,
    /// Tear the session down after a component was found not to be running; that
    /// this may fail is fine.
    DownAfterExit(&'static str),
    /// Tear the session down after a signal.
    Down,
    /// The session was torn down as asked for.
    Stopped,
    /// Give up with the error of the step before.
    GiveUp,
    /// Give up because this component is not running.
    Exited(&'static str),
}

/// What came of a step.
#[derive(Clone, Copy, Debug)]
pub enum UpEvent {
    /// It was done.
    Done,
    /// It could not be done.
    Failed,
    /// The first component that is not running.
    FirstFailed(Option<&'static str>),
    /// The moment has passed.
    Tick,
    /// A request to terminate, or an interrupt, has come.
    Signal,
}

/// `event` is something that can come of `action`.
pub open spec fn up_answers(action: UpAction, event: UpEvent) -> bool {
    match action {
        UpAction::Start => event is Done || event is Failed,
        UpAction::HandleTerminate => event is Done || event is Failed,
        UpAction::HandleInterrupt => event is Done || event is Failed,
        UpAction::CheckComponents => event is FirstFailed || event is Failed,
        UpAction::Wait => event is Tick || event is Signal,
        UpAction::DownAfterExit(_) => event is Done || event is Failed,
        UpAction::Down => event is Done || event is Failed,
        UpAction::Stopped => false,
        UpAction::GiveUp => false,
        UpAction::Exited(_) => false,
    }
}

/// What follows an action, given what came of it. An event that cannot come of
/// the action leaves it pending.
pub open spec fn up_step(action: UpAction, event: UpEvent) -> UpAction {
    if !up_answers(action, event) {
        action
    } else {
        match (action, event) {
            (UpAction::DownAfterExit(name), _) => UpAction::Exited(name),
            (_, UpEvent::Failed) => UpAction::GiveUp,
            (_, UpEvent::Signal) => UpAction::Down,
            (_, UpEvent::Tick) => UpAction::CheckComponents,
            (_, UpEvent::FirstFailed(Some(name))) => UpAction::DownAfterExit(name),
            (_, UpEvent::FirstFailed(None)) => UpAction::Wait,
            (UpAction::Start, UpEvent::Done) => UpAction::HandleTerminate,
            (UpAction::HandleTerminate, UpEvent::Done) => UpAction::HandleInterrupt,
            (UpAction::HandleInterrupt, UpEvent::Done) => UpAction::CheckComponents,
            (UpAction::Down, UpEvent::Done) => UpAction::Stopped,
            _ => action,
        }
    }
}

/// The first action of the watch.
pub fn up_begin() -> (r: UpAction)
    ensures
        r == UpAction::Start,
{
    UpAction::Start
}

/// The action that follows `action`, given what came of it.
pub fn up_next(action: UpAction, event: UpEvent) -> (r: UpAction)
    ensures
        r == up_step(action, event),
{
    match (action, event) {
        (UpAction::Start, UpEvent::Done) => UpAction::HandleTerminate,
        (UpAction::HandleTerminate, UpEvent::Done) => UpAction::HandleInterrupt,
        (UpAction::HandleInterrupt, UpEvent::Done) => UpAction::CheckComponents,
        (UpAction::CheckComponents, UpEvent::FirstFailed(Some(name))) => UpAction::DownAfterExit(
            name,
        ),
        (UpAction::CheckComponents, UpEvent::FirstFailed(None)) => UpAction::Wait,
        (UpAction::Wait, UpEvent::Tick) => UpAction::CheckComponents,
        (UpAction::Wait, UpEvent::Signal) => UpAction::Down,
        (UpAction::DownAfterExit(name), UpEvent::Done | UpEvent::Failed) => UpAction::Exited(name),
        (UpAction::Down, UpEvent::Done) => UpAction::Stopped,
        (
            UpAction::Start
            | UpAction::HandleTerminate
            | UpAction::HandleInterrupt
            | UpAction::CheckComponents
            | UpAction::Down,
            UpEvent::Failed,
        ) => UpAction::GiveUp,
        _ => action,
    }
}

/// What a look at the components comes to.
pub open spec fn components_event_of(
    found: Result<Option<&'static str>, ReportError>,
) -> UpEvent {
    match found {
        Ok(name) => UpEvent::FirstFailed(name),
        Err(_) => UpEvent::Failed,
    }
}

/// What a look at the components comes to: a pid file that is in the way is a
/// failure of the look, and not one of a component.
pub fn components_event(found: &Result<Option<&'static str>, ReportError>) -> (r: UpEvent)
    ensures
        r == components_event_of(*found),
{
    match found {
        Ok(name) => UpEvent::FirstFailed(*name),
        Err(_) => UpEvent::Failed,
    }
}

/// What an action is about.
pub open spec fn up_target_of(action: UpAction) -> TargetView {
    match action {
        UpAction::Wait => TargetView::Pause(WATCH_MILLIS),
        _ => TargetView::Nothing,
    }
}

/// What an action is about.
pub fn up_target(action: UpAction) -> (r: Target)
    ensures
        r@ == up_target_of(action),
{
    match action {
        UpAction::Wait => Target::Pause { millis: WATCH_MILLIS },
        _ => Target::Nothing,
    }
}

/// What is said where the component `name` is not running any more.
pub fn exited_message(name: &str) -> (m: String)
    ensures
        m@ == "qgui up: component '"@ + name@ + "' exited"@,
{
    "qgui up: component '".to_string().concat(name).concat("' exited")
}

// ---------------------------------------------------------------------------
// Laws
// ---------------------------------------------------------------------------

/// The actions of a watch from its start, each with what came of it.
pub open spec fn is_watch(run: Seq<(UpAction, UpEvent)>) -> bool {
    &&& run.len() > 0 ==> run[0].0 == UpAction::Start
    &&& forall|i: int| 0 <= i < run.len() ==> up_answers((#[trigger] run[i]).0, run[i].1)
    &&& forall|i: int, j: int|
        #![trigger run[i], run[j]]
        0 <= j < i < run.len() && i == j + 1 ==> run[i].0 == up_step(run[j].0, run[j].1)
}

/// The action that is due after a run.
pub open spec fn up_due(run: Seq<(UpAction, UpEvent)>) -> UpAction {
    if run.len() == 0 {
        UpAction::Start
    } else {
        up_step(run.last().0, run.last().1)
    }
}

/// A watch ends well only after a signal, with the session torn down.
pub proof fn law_stopped_by_signal(run: Seq<(UpAction, UpEvent)>)
    requires
        is_watch(run),
        up_due(run) == UpAction::Stopped,
    ensures
        run.len() >= 2,
        run.last() == (UpAction::Down, UpEvent::Done),
        run[run.len() - 2] == (UpAction::Wait, UpEvent::Signal),
{
    let n = run.len() - 1;
    assert(up_answers(run[n].0, run[n].1));
    assert(run[n].0 == up_step(run[n - 1].0, run[n - 1].1));
    assert(up_answers(run[n - 1].0, run[n - 1].1));
}

/// A watch that ends because of a component has found that component not to be
/// running, and has torn the session down, or tried to, before it says so.
pub proof fn law_exit_is_reported_after_teardown(run: Seq<(UpAction, UpEvent)>, name: &'static str)
    requires
        is_watch(run),
        up_due(run) == UpAction::Exited(name),
    ensures
        run.len() >= 2,
        run.last().0 == UpAction::DownAfterExit(name),
        run[run.len() - 2] == (UpAction::CheckComponents, UpEvent::FirstFailed(Some(name))),
{
    let n = run.len() - 1;
    assert(up_answers(run[n].0, run[n].1));
    assert(run[n].0 == up_step(run[n - 1].0, run[n - 1].1));
    assert(up_answers(run[n - 1].0, run[n - 1].1));
}

/// The watch waits only where all components were just found to be running.
pub proof fn law_waits_only_while_all_run(run: Seq<(UpAction, UpEvent)>, i: int)
    requires
        is_watch(run),
        0 <= i < run.len(),
        run[i].0 == UpAction::Wait,
    ensures
        i >= 1,
        run[i - 1] == (UpAction::CheckComponents, UpEvent::FirstFailed(None)),
{
    assert(run[i].0 == up_step(run[i - 1].0, run[i - 1].1));
    assert(up_answers(run[i - 1].0, run[i - 1].1));
}

/// Components are watched only once the session was started and both signals
/// are handled.
pub proof fn law_watch_begins_after_start(run: Seq<(UpAction, UpEvent)>)
    requires
        is_watch(run),
        run.len() > 3,
    ensures
        run[0] == (UpAction::Start, UpEvent::Done),
        run[1] == (UpAction::HandleTerminate, UpEvent::Done),
        run[2] == (UpAction::HandleInterrupt, UpEvent::Done),
        run[3].0 == UpAction::CheckComponents,
{
    assert(up_answers(run[0].0, run[0].1));
    assert(run[1].0 == up_step(run[0].0, run[0].1));
    assert(up_answers(run[1].0, run[1].1));
    assert(run[2].0 == up_step(run[1].0, run[1].1));
    assert(up_answers(run[2].0, run[2].1));
    assert(run[3].0 == up_step(run[2].0, run[2].1));
    assert(up_answers(run[3].0, run[3].1));
}

/// A watch never stands still: whatever comes of an action leads to another one.
pub proof fn law_watch_moves_on(action: UpAction, event: UpEvent)
    requires
        up_answers(action, event),
    ensures
        up_step(action, event) != action,
{
}

/// A look at the components that a pid file is in the way of ends the watch, and
/// does not tear the session down.
pub proof fn law_bad_pid_file_ends_the_watch(error: ReportError)
    ensures
        up_step(UpAction::CheckComponents, components_event_of(Err(error))) == UpAction::GiveUp,
{
}

/// What came after the `i`th step of a run, or is due after it.
pub open spec fn up_after(run: Seq<(UpAction, UpEvent)>, i: int) -> UpAction {
    if i + 1 < run.len() {
        run[i + 1].0
    } else {
        up_due(run)
    }
}

proof fn lemma_up_after(run: Seq<(UpAction, UpEvent)>, i: int)
    requires
        is_watch(run),
        0 <= i < run.len(),
    ensures
        up_answers(run[i].0, run[i].1),
        up_after(run, i) == up_step(run[i].0, run[i].1),
{
    if i + 1 < run.len() {
        assert(run[i + 1].0 == up_step(run[i].0, run[i].1));
    }
}

/// A watch starts the session, then has both signals handled, and then looks at the
/// components; it comes to the next of these as soon as one is done.
pub proof fn law_watch_gets_going(run: Seq<(UpAction, UpEvent)>, i: int)
    requires
        is_watch(run),
        0 <= i < run.len(),
        i < 3,
        run[i].1 is Done,
    ensures
        i == 0 ==> run[i].0 == UpAction::Start && up_after(run, i) == UpAction::HandleTerminate,
        i == 1 ==> up_after(run, i) == UpAction::HandleInterrupt,
        i == 2 ==> up_after(run, i) == UpAction::CheckComponents,
{
    lemma_up_after(run, i);
    if i > 0 {
        lemma_up_after(run, i - 1);
        assert(run[0].0 == UpAction::Start);
    }
    if i > 1 {
        lemma_up_after(run, i - 2);
    }
}

/// A watch lasts as long as all components run and no signal comes: it waits, and looks
/// again.
pub proof fn law_watch_lasts(run: Seq<(UpAction, UpEvent)>, i: int)
    requires
        is_watch(run),
        0 <= i < run.len(),
    ensures
        run[i] == (UpAction::CheckComponents, UpEvent::FirstFailed(None)) ==> up_after(run, i)
            == UpAction::Wait,
        run[i] == (UpAction::Wait, UpEvent::Tick) ==> up_after(run, i) == UpAction::CheckComponents,
{
    lemma_up_after(run, i);
}

/// A component that was found not to run has the session torn down, and is the reason
/// given in the end, whether or not the teardown succeeds.
pub proof fn law_component_that_exits_ends_the_watch(
    run: Seq<(UpAction, UpEvent)>,
    i: int,
    name: &'static str,
)
    requires
        is_watch(run),
        0 <= i < run.len(),
        run[i] == (UpAction::CheckComponents, UpEvent::FirstFailed(Some(name))),
    ensures
        up_after(run, i) == UpAction::DownAfterExit(name),
        i + 1 < run.len() ==> up_after(run, i + 1) == UpAction::Exited(name),
{
    lemma_up_after(run, i);
    if i + 1 < run.len() {
        lemma_up_after(run, i + 1);
    }
}

/// A signal has the session torn down; the watch then ends well where that succeeds, and
/// with the error of the teardown where it does not.
pub proof fn law_signal_ends_the_watch(run: Seq<(UpAction, UpEvent)>, i: int)
    requires
        is_watch(run),
        0 <= i < run.len(),
        run[i] == (UpAction::Wait, UpEvent::Signal),
    ensures
        up_after(run, i) == UpAction::Down,
        i + 1 < run.len() && run[i + 1].1 is Done ==> up_after(run, i + 1) == UpAction::Stopped,
        i + 1 < run.len() && run[i + 1].1 is Failed ==> up_after(run, i + 1) == UpAction::GiveUp,
        i + 1 < run.len() ==> run[i + 1].1 is Done || run[i + 1].1 is Failed,
{
    lemma_up_after(run, i);
    if i + 1 < run.len() {
        lemma_up_after(run, i + 1);
    }
}

/// A step that fails ends the watch with its error, but for the teardown after a
/// component has exited.
pub proof fn law_failure_ends_the_watch(run: Seq<(UpAction, UpEvent)>, i: int)
    requires
        is_watch(run),
        0 <= i < run.len(),
        run[i].1 is Failed,
        !(run[i].0 is DownAfterExit),
    ensures
        up_after(run, i) == UpAction::GiveUp,
{
    lemma_up_after(run, i);
}

/// What can come of each step, and that nothing else moves the watch.
pub proof fn law_what_moves_a_watch(
    action: UpAction,
    event: UpEvent,
    name: &'static str,
    failed: Option<&'static str>,
    r: UpAction,
)
    requires
        call_ensures(up_next, (action, event), r),
    ensures
        up_answers(UpAction::CheckComponents, UpEvent::FirstFailed(failed)),
        up_answers(UpAction::CheckComponents, UpEvent::Failed),
        up_answers(UpAction::Wait, UpEvent::Tick) && up_answers(UpAction::Wait, UpEvent::Signal),
        action == UpAction::Start || action == UpAction::HandleTerminate || action
            == UpAction::HandleInterrupt || action == UpAction::DownAfterExit(name) || action
            == UpAction::Down ==> up_answers(action, UpEvent::Done) && up_answers(
            action,
            UpEvent::Failed,
        ),
        action is Stopped || action is GiveUp || action is Exited ==> !up_answers(action, event),
        event is Tick || event is Signal ==> (up_answers(action, event) ==> action is Wait),
        event is FirstFailed ==> (up_answers(action, event) ==> action is CheckComponents),
        event is Done && (action is Wait || action is CheckComponents) ==> !up_answers(
            action,
            event,
        ),
        event is Failed && action is Wait ==> !up_answers(action, event),
        !up_answers(action, event) ==> r == action,
        r == up_step(action, event),
{
}

/// What a look at the components comes to says which one does not run, and is a failure
/// where the look was one.
pub proof fn law_what_a_look_comes_to(
    name: Option<&'static str>,
    error: ReportError,
    r: UpEvent,
    bad: UpEvent,
)
    requires
        call_ensures(components_event, (&Ok::<Option<&'static str>, ReportError>(name),), r),
        call_ensures(components_event, (&Err::<Option<&'static str>, ReportError>(error),), bad),
    ensures
        r == UpEvent::FirstFailed(name),
        bad == UpEvent::Failed,
{
}

/// The watch waits for half a second between two looks, begins with the start of the
/// session, and says which component has exited.
pub proof fn law_pace_and_words_of_a_watch(
    wait: Target,
    first: UpAction,
    name: &str,
    m: String,
)
    requires
        call_ensures(up_target, (UpAction::Wait,), wait),
        call_ensures(up_begin, (), first),
        call_ensures(exited_message, (name,), m),
    ensures
        wait@ == TargetView::Pause(500),
        first == UpAction::Start,
        m@ == "qgui up: component '"@ + name@ + "' exited"@,
{
}

} // verus!
