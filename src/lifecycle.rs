//! Shutdown: a termination signal (or the end of the work) leads to one
//! final line for the publisher and the end of polling.

use vstd::prelude::*;
use crate::text::text_of;

verus! {

/// The termination signals that are handled.
#[derive(Clone, Copy, Debug, PartialEq, Eq, Structural)]
pub enum ShutdownSignal {
    Interrupt,
    Terminate,
}

/// What the coordinator waits for.
#[derive(Clone, Copy, Debug, PartialEq, Eq, Structural)]
pub enum LifecycleEvent {
    Signal(ShutdownSignal),
    WorkDone,
}

pub open spec fn signal_name(s: ShutdownSignal) -> Seq<char> {
    match s {
        ShutdownSignal::Interrupt => "INT"@,
        ShutdownSignal::Terminate => "TERM"@,
    }
}

/// The final line for an event.
pub open spec fn final_text(ev: LifecycleEvent) -> Seq<char> {
    match ev {
        LifecycleEvent::Signal(s) => "rust-dwm-status stopped with signal "@ + signal_name(s) + "."@,
        LifecycleEvent::WorkDone => "rust-dwm-status: done."@,
    }
}

/// The final lines published for a run of events, starting running or not.
pub open spec fn final_lines(running: bool, events: Seq<LifecycleEvent>) -> Seq<Seq<char>>
    decreases events.len(),
{
    if events.len() == 0 || !running {
        Seq::empty()
    } else {
        seq![final_text(events[0])] + final_lines(false, events.skip(1))
    }
}

/// The final line for an event: the signal named, or the work done.
pub fn final_message(ev: LifecycleEvent) -> (r: String)
    ensures
        r@ == final_text(ev),
{
    match ev {
        LifecycleEvent::Signal(s) => {
            let mut r = text_of("rust-dwm-status stopped with signal ");
            match s {
                ShutdownSignal::Interrupt => r.append("INT"),
                ShutdownSignal::Terminate => r.append("TERM"),
            }
            r.append(".");
            r
        },
        LifecycleEvent::WorkDone => text_of("rust-dwm-status: done."),
    }
}

/// Waits on signals for the process: running until the first event, stopped after.
pub struct Coordinator {
    running: bool,
}

impl Coordinator {
    pub closed spec fn is_running(&self) -> bool {
        self.running
    }

    pub fn new() -> (r: Coordinator)
        ensures
            r.is_running(),
    {
        Coordinator { running: true }
    }

    /// Whether the scheduler may go on polling.
    pub fn may_poll(&self) -> (r: bool)
        ensures
            r == self.is_running(),
    {
        self.running
    }

    /// Handles an event: while running, stop and hand back the final line
    /// to publish; once stopped, nothing more.
    pub fn on_event(&mut self, ev: LifecycleEvent) -> (r: Option<String>)
        ensures
            !final(self).is_running(),
            old(self).is_running() ==> (r matches Some(s) && s@ == final_text(ev)),
            !old(self).is_running() ==> r is None,
    {
        if self.running {
            self.running = false;
            Some(final_message(ev))
        } else {
            None
        }
    }
}

/// A termination signal to a running process gives exactly one final line,
/// which names the signal, whatever events follow it.
pub proof fn law_signal_gives_one_final_line(s: ShutdownSignal, later: Seq<LifecycleEvent>)
    ensures
        final_lines(true, seq![LifecycleEvent::Signal(s)] + later) == seq![
            "rust-dwm-status stopped with signal "@ + signal_name(s) + "."@,
        ],
{
    let evs = seq![LifecycleEvent::Signal(s)] + later;
    assert(evs[0] == LifecycleEvent::Signal(s));
    assert(final_lines(false, evs.skip(1)) =~= Seq::<Seq<char>>::empty());
    assert(final_lines(true, evs) =~= seq![final_text(LifecycleEvent::Signal(s))]);
}

} // verus!
