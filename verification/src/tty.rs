//! The terminal behind the file descriptors: pointing input and output at it,
//! and writing all of an answer.

use vstd::prelude::*;
use vstd::string::*;

verus! {

/// What to do next.
#[derive(Debug)]
pub enum TtyStep {
    /// Duplicate standard output.
    Duplicate,
    /// See whether this descriptor is a terminal.
    Check(i32),
    /// Open the terminal for this descriptor: for writing, else for reading.
    Open(i32, bool),
    /// Put the first descriptor in the place of the second and close the first.
    Install(i32, i32),
    /// The duplicate of standard output, or what went wrong.
    Finished(Result<i32, String>),
    /// Nothing: the event answers no step that is open.
    Wait,
}

/// What a `TtyStep` says.
pub enum TtyStepView {
    Duplicate,
    Check(i32),
    Open(i32, bool),
    Install(i32, i32),
    Finished(Result<i32, Seq<char>>),
    Wait,
}

impl View for TtyStep {
    type V = TtyStepView;

    open spec fn view(&self) -> TtyStepView {
        match self {
            TtyStep::Duplicate => TtyStepView::Duplicate,
            TtyStep::Check(fd) => TtyStepView::Check(*fd),
            TtyStep::Open(fd, write) => TtyStepView::Open(*fd, *write),
            TtyStep::Install(tty, fd) => TtyStepView::Install(*tty, *fd),
            TtyStep::Finished(Ok(fd)) => TtyStepView::Finished(Ok(*fd)),
            TtyStep::Finished(Err(s)) => TtyStepView::Finished(Err(s@)),
            TtyStep::Wait => TtyStepView::Wait,
        }
    }
}

/// What happened outside.
#[derive(Debug, Clone, Copy, PartialEq, Eq, Structural)]
pub enum TtyEvent {
    /// The duplicate; negative where there is none.
    Duplicated(i32),
    /// Whether the descriptor is a terminal.
    Checked(bool),
    /// The terminal; negative where there is none.
    Opened(i32),
    /// It is in place.
    Installed,
}

/// How far it is.
#[derive(Debug, Clone, Copy, PartialEq, Eq, Structural)]
pub enum TtyPhase {
    Duplicating,
    /// Looking at this descriptor.
    Checking(i32),
    /// Opening the terminal for this descriptor.
    Opening(i32),
    /// Putting it in the place of this descriptor.
    Installing(i32),
    Finished,
}

/// Points standard output and standard input at the terminal, so that the user
/// interface is painted there even where standard output is a pipe, and keeps
/// the original standard output for the answer.
#[derive(Debug, Clone, Copy, PartialEq, Eq, Structural)]
pub struct Redirect {
    pub phase: TtyPhase,
    /// The duplicate of standard output, once there is one.
    pub saved: i32,
}

/// After a descriptor is settled: standard output comes first, then standard
/// input.
pub open spec fn after_descriptor(r: Redirect, fd: i32) -> (Redirect, TtyStepView) {
    if fd == 1 {
        (Redirect { phase: TtyPhase::Checking(0), ..r }, TtyStepView::Check(0))
    } else {
        (Redirect { phase: TtyPhase::Finished, ..r }, TtyStepView::Finished(Ok(r.saved)))
    }
}

/// Where an event takes it, and what it does then. An event that answers no open
/// step changes nothing.
pub open spec fn next(r: Redirect, event: TtyEvent) -> (Redirect, TtyStepView) {
    match (r.phase, event) {
        (TtyPhase::Duplicating, TtyEvent::Duplicated(saved)) => if saved < 0 {
            (
                Redirect { phase: TtyPhase::Finished, ..r },
                TtyStepView::Finished(Err("cannot duplicate stdout"@)),
            )
        } else {
            (Redirect { phase: TtyPhase::Checking(1), saved }, TtyStepView::Check(1))
        },
        (TtyPhase::Checking(fd), TtyEvent::Checked(terminal)) => if terminal {
            after_descriptor(r, fd)
        } else {
            (
                Redirect { phase: TtyPhase::Opening(fd), ..r },
                TtyStepView::Open(fd, fd == 1),
            )
        },
        (TtyPhase::Opening(fd), TtyEvent::Opened(tty)) => if tty < 0 {
            (
                Redirect { phase: TtyPhase::Finished, ..r },
                TtyStepView::Finished(Err("no controlling terminal (/dev/tty)"@)),
            )
        } else {
            (
                Redirect { phase: TtyPhase::Installing(fd), ..r },
                TtyStepView::Install(tty, fd),
            )
        },
        (TtyPhase::Installing(fd), TtyEvent::Installed) => after_descriptor(r, fd),
        _ => (r, TtyStepView::Wait),
    }
}

impl Redirect {
    /// Starts with a duplicate of standard output.
    pub fn start() -> (r: (Redirect, TtyStep))
        ensures
            r.0 == (Redirect { phase: TtyPhase::Duplicating, saved: 0 }),
            r.1@ == TtyStepView::Duplicate,
    {
        (Redirect { phase: TtyPhase::Duplicating, saved: 0 }, TtyStep::Duplicate)
    }

    /// Goes on to the next descriptor.
    fn settle(&mut self, fd: i32) -> (step: TtyStep)
        ensures
            (*final(self), step@) == after_descriptor(*old(self), fd),
    {
        if fd == 1 {
            self.phase = TtyPhase::Checking(0);
            TtyStep::Check(0)
        } else {
            self.phase = TtyPhase::Finished;
            TtyStep::Finished(Ok(self.saved))
        }
    }

    /// Takes an event and says what to do next.
    pub fn step(&mut self, event: TtyEvent) -> (step: TtyStep)
        ensures
            (*final(self), step@) == next(*old(self), event),
    {
        match (self.phase, event) {
            (TtyPhase::Duplicating, TtyEvent::Duplicated(saved)) => if saved < 0 {
                self.phase = TtyPhase::Finished;
                TtyStep::Finished(Err("cannot duplicate stdout".to_string()))
            } else {
                self.saved = saved;
                self.phase = TtyPhase::Checking(1);
                TtyStep::Check(1)
            },
            (TtyPhase::Checking(fd), TtyEvent::Checked(terminal)) => if terminal {
                self.settle(fd)
            } else {
                self.phase = TtyPhase::Opening(fd);
                TtyStep::Open(fd, fd == 1)
            },
            (TtyPhase::Opening(fd), TtyEvent::Opened(tty)) => if tty < 0 {
                self.phase = TtyPhase::Finished;
                TtyStep::Finished(Err("no controlling terminal (/dev/tty)".to_string()))
            } else {
                self.phase = TtyPhase::Installing(fd);
                TtyStep::Install(tty, fd)
            },
            (TtyPhase::Installing(fd), TtyEvent::Installed) => self.settle(fd),
            _ => TtyStep::Wait,
        }
    }
}

/// What comes next when an answer of `len` bytes is written out, of which `off`
/// are written and the last call wrote `n`: where to go on, unless everything is
/// written or the call failed.
pub open spec fn remaining(len: nat, off: nat, n: int) -> Option<nat> {
    if n <= 0 || off + n >= len {
        None
    } else {
        Some((off + n) as nat)
    }
}

/// Where to go on writing an answer of `len` bytes after a call that wrote `n`
/// bytes from `off` on.
pub fn write_fd(len: usize, off: usize, n: isize) -> (r: Option<usize>)
    ensures
        r is Some == remaining(len as nat, off as nat, n as int) is Some,
        r matches Some(at) ==> Some(at as nat) == remaining(len as nat, off as nat, n as int),
{
    if n <= 0 || off >= len {
        return None;
    }
    let written: usize = n as usize;
    if written >= len - off {
        None
    } else {
        Some(off + written)
    }
}

/// Writing goes forward, and what is left is never empty.
pub proof fn law_writing_goes_forward(len: nat, off: nat, n: int)
    ensures
        remaining(len, off, n) matches Some(at) ==> off < at < len,
{
}

/// The redirection after `events`, and the steps it took.
pub open spec fn run(r: Redirect, events: Seq<TtyEvent>) -> (Redirect, Seq<TtyStepView>)
    decreases events.len(),
{
    if events.len() == 0 {
        (r, seq![])
    } else {
        let (before, steps) = run(r, events.drop_last());
        let (after, step) = next(before, events.last());
        (after, steps.push(step))
    }
}

/// Whether a descriptor is a terminal by now: it was one, or the terminal was put
/// in its place.
pub open spec fn settled(r: Redirect, fd: i32, events: Seq<TtyEvent>) -> bool
    decreases events.len(),
{
    events.len() > 0 && {
        let before = run(r, events.drop_last()).0;
        ||| settled(r, fd, events.drop_last())
        ||| before.phase == TtyPhase::Checking(fd) && events.last() == TtyEvent::Checked(true)
        ||| before.phase == TtyPhase::Installing(fd) && events.last() == TtyEvent::Installed
    }
}

/// Success means that standard output and standard input are both a terminal,
/// and that the duplicate is a valid descriptor.
pub proof fn law_success_means_terminal(events: Seq<TtyEvent>)
    ensures
        ({
            let start = Redirect { phase: TtyPhase::Duplicating, saved: 0 };
            let (r, steps) = run(start, events);
            &&& r.phase matches TtyPhase::Checking(fd) ==> fd == 1 || (fd == 0 && settled(
                start,
                1,
                events,
            ))
            &&& r.phase matches TtyPhase::Opening(fd) ==> fd == 1 || (fd == 0 && settled(
                start,
                1,
                events,
            ))
            &&& r.phase matches TtyPhase::Installing(fd) ==> fd == 1 || (fd == 0 && settled(
                start,
                1,
                events,
            ))
            &&& r.saved >= 0
            &&& steps.len() > 0 && (steps.last() matches TtyStepView::Finished(Ok(fd))) ==> {
                &&& settled(start, 1, events)
                &&& settled(start, 0, events)
                &&& steps.last()->Finished_0->Ok_0 >= 0
            }
        }),
    decreases events.len(),
{
    if events.len() > 0 {
        law_success_means_terminal(events.drop_last());
    }
}

/// Whether an event answers what a redirection in this phase waits for.
pub open spec fn answers(phase: TtyPhase, event: TtyEvent) -> bool {
    match phase {
        TtyPhase::Duplicating => event is Duplicated,
        TtyPhase::Checking(_) => event is Checked,
        TtyPhase::Opening(_) => event is Opened,
        TtyPhase::Installing(_) => event is Installed,
        TtyPhase::Finished => false,
    }
}

/// Whether an event tells what came of a step.
pub open spec fn replies(step: TtyStepView, event: TtyEvent) -> bool {
    match step {
        TtyStepView::Duplicate => event is Duplicated,
        TtyStepView::Check(_) => event is Checked,
        TtyStepView::Open(_, _) => event is Opened,
        TtyStepView::Install(_, _) => event is Installed,
        TtyStepView::Finished(_) | TtyStepView::Wait => false,
    }
}

/// How many answers a redirection in this phase takes at most.
pub open spec fn steps_left(phase: TtyPhase) -> nat {
    match phase {
        TtyPhase::Duplicating => 7,
        TtyPhase::Checking(fd) => if fd == 1 { 6 } else { 3 },
        TtyPhase::Opening(fd) => if fd == 1 { 5 } else { 2 },
        TtyPhase::Installing(fd) => if fd == 1 { 4 } else { 1 },
        TtyPhase::Finished => 0,
    }
}

/// An answer is never met with `Wait`, and anything else changes nothing. What
/// comes of a step is what the redirection then waits for, and each answer brings
/// it closer to its end, where it says what came of it.
pub proof fn law_every_answer_counts(r: Redirect, event: TtyEvent, reply: TtyEvent)
    ensures
        answers(r.phase, event) <==> !(next(r, event).1 is Wait),
        !answers(r.phase, event) ==> next(r, event).0 == r,
        answers(r.phase, event) ==> {
            &&& next(r, event).1 is Finished <==> next(r, event).0.phase == TtyPhase::Finished
            &&& replies(next(r, event).1, reply) <==> answers(next(r, event).0.phase, reply)
            &&& steps_left(next(r, event).0.phase) < steps_left(r.phase)
        },
{
}

/// First standard output is duplicated; without a duplicate nothing is done. Then
/// standard output and after it standard input are looked at: one that is no
/// terminal gets the terminal, for writing and for reading, and without a terminal
/// there is none.
pub proof fn law_redirection(r: Redirect, n: i32, fd: i32)
    ensures
        r.phase == TtyPhase::Duplicating ==> {
            &&& n < 0 ==> next(r, TtyEvent::Duplicated(n)).1 == TtyStepView::Finished(
                Err("cannot duplicate stdout"@),
            )
            &&& n >= 0 ==> next(r, TtyEvent::Duplicated(n)) == (
                Redirect { phase: TtyPhase::Checking(1), saved: n },
                TtyStepView::Check(1),
            )
        },
        r.phase == TtyPhase::Checking(fd) ==> next(r, TtyEvent::Checked(false)) == (
            Redirect { phase: TtyPhase::Opening(fd), saved: r.saved },
            TtyStepView::Open(fd, fd == 1),
        ),
        r.phase == TtyPhase::Opening(fd) ==> {
            &&& n < 0 ==> next(r, TtyEvent::Opened(n)).1 == TtyStepView::Finished(
                Err("no controlling terminal (/dev/tty)"@),
            )
            &&& n >= 0 ==> next(r, TtyEvent::Opened(n)) == (
                Redirect { phase: TtyPhase::Installing(fd), saved: r.saved },
                TtyStepView::Install(n, fd),
            )
        },
        r.phase == TtyPhase::Checking(1) ==> next(r, TtyEvent::Checked(true)) == (
            Redirect { phase: TtyPhase::Checking(0), saved: r.saved },
            TtyStepView::Check(0),
        ),
        r.phase == TtyPhase::Installing(1) ==> next(r, TtyEvent::Installed) == (
            Redirect { phase: TtyPhase::Checking(0), saved: r.saved },
            TtyStepView::Check(0),
        ),
        r.phase == TtyPhase::Checking(0) ==> next(r, TtyEvent::Checked(true)).1
            == TtyStepView::Finished(Ok(r.saved)),
        r.phase == TtyPhase::Installing(0) ==> next(r, TtyEvent::Installed).1
            == TtyStepView::Finished(Ok(r.saved)),
{
}

/// Writing goes on exactly behind what was written, until everything is, and stops
/// where nothing was written.
pub proof fn law_what_remains(len: nat, off: nat, n: int)
    ensures
        off >= len ==> remaining(len, off, n) is None,
        n <= 0 ==> remaining(len, off, n) is None,
        0 < n < len - off ==> remaining(len, off, n) == Some((off + n) as nat),
        n >= len - off ==> remaining(len, off, n) is None,
{
}

} // verus!
