//! The render loop as a state machine. Each frame the driver draws the
//! current view, then tries to take one pending input event without waiting;
//! it reports what happened as a `FrameOutcome`, and the loop decides whether
//! the session goes on, dispatching at most one event to the view.

use vstd::prelude::*;
use crate::event::{is_quit, is_quit_spec, Event};
use crate::view::{View, ViewController, ViewModel};
use vstd::view::View as _;

verus! {

/// Why a session ended.
#[derive(Clone, Copy, Debug, PartialEq, Eq, Structural)]
pub enum Exit {
    /// The quit hotkey was pressed.
    Quit,
    /// Drawing a frame failed.
    DrawFailed,
}

/// What the driver does after a frame.
#[derive(Clone, Copy, Debug, PartialEq, Eq, Structural)]
pub enum Flow {
    /// Draw the next frame.
    Continue,
    /// Leave the loop.
    Stop(Exit),
}

/// What happened during one frame.
#[derive(Clone, Copy, Debug, PartialEq, Eq, Structural)]
pub enum FrameOutcome {
    /// The frame could not be drawn; no event was taken.
    DrawFailed,
    /// The frame was drawn, and then the event that was pending, if any, was taken.
    Drawn(Option<Event>),
}

/// The state of a session: the current view, why the loop stopped (if it
/// has), and whether the terminal has been restored.
pub struct LoopModel {
    pub view: ViewModel,
    pub exit: Option<Exit>,
    pub cleaned_up: bool,
}

/// A session never restores the terminal while its loop still runs.
pub open spec fn wf(m: LoopModel) -> bool {
    m.cleaned_up ==> m.exit is Some
}

/// The state at the start of a session on `view`.
pub open spec fn initial(view: ViewModel) -> LoopModel {
    LoopModel { view, exit: None, cleaned_up: false }
}

/// Whether a running session can take `o`: an event other than the quit
/// hotkey goes to the view, which must be able to take it.
pub open spec fn frame_allowed(m: LoopModel, o: FrameOutcome) -> bool {
    match o {
        FrameOutcome::Drawn(Some(e)) => is_quit_spec(e) || m.view.accepts(),
        _ => true,
    }
}

/// The state after a running session goes through one frame.
pub open spec fn next(m: LoopModel, o: FrameOutcome) -> LoopModel {
    match o {
        FrameOutcome::DrawFailed => LoopModel { exit: Some(Exit::DrawFailed), ..m },
        FrameOutcome::Drawn(None) => m,
        FrameOutcome::Drawn(Some(e)) => if is_quit_spec(e) {
            LoopModel { exit: Some(Exit::Quit), ..m }
        } else {
            LoopModel { view: m.view.after(e), ..m }
        },
    }
}

/// What the driver is told to do after a running session goes through one frame.
pub open spec fn flow_after(m: LoopModel, o: FrameOutcome) -> Flow {
    match next(m, o).exit {
        Some(x) => Flow::Stop(x),
        None => Flow::Continue,
    }
}

/// The state after a session goes through the frames of `s` in order; frames
/// after the loop has stopped are not run.
pub open spec fn run_model(m: LoopModel, s: Seq<FrameOutcome>) -> LoopModel
    decreases s.len(),
{
    if s.len() == 0 || m.exit is Some {
        m
    } else {
        run_model(next(m, s[0]), s.drop_first())
    }
}

/// How many frames of `s` a session starting at `m` runs.
pub open spec fn frames_run(m: LoopModel, s: Seq<FrameOutcome>) -> nat
    decreases s.len(),
{
    if s.len() == 0 || m.exit is Some {
        0
    } else {
        1 + frames_run(next(m, s[0]), s.drop_first())
    }
}

/// Whether every frame of `s` that a session starting at `m` runs is allowed.
pub open spec fn run_allowed(m: LoopModel, s: Seq<FrameOutcome>) -> bool
    decreases s.len(),
{
    if s.len() == 0 || m.exit is Some {
        true
    } else {
        frame_allowed(m, s[0]) && run_allowed(next(m, s[0]), s.drop_first())
    }
}

/// The events of `s` that reach the view, in the order they were taken: each
/// event taken before the loop stops, but the quit hotkey.
pub open spec fn delivered(s: Seq<FrameOutcome>) -> Seq<Event>
    decreases s.len(),
{
    if s.len() == 0 {
        Seq::empty()
    } else {
        match s[0] {
            FrameOutcome::DrawFailed => Seq::empty(),
            FrameOutcome::Drawn(None) => delivered(s.drop_first()),
            FrameOutcome::Drawn(Some(e)) => if is_quit_spec(e) {
                Seq::empty()
            } else {
                seq![e] + delivered(s.drop_first())
            },
        }
    }
}

/// The state after asking a session whether the terminal must be restored,
/// and the answer.
pub open spec fn finish_model(m: LoopModel) -> (LoopModel, bool) {
    (LoopModel { cleaned_up: m.cleaned_up || m.exit is Some, ..m }, m.exit is Some && !m.cleaned_up)
}

/// How many of `k` successive requests to finish a session at `m` answer
/// that the terminal must be restored.
pub open spec fn cleanups(m: LoopModel, k: nat) -> nat
    decreases k,
{
    if k == 0 {
        0
    } else {
        let (m2, due) = finish_model(m);
        (if due { 1nat } else { 0nat }) + cleanups(m2, (k - 1) as nat)
    }
}

/// A render session: it owns the current view for its whole life.
pub struct RenderLoop {
    view: View,
    exit: Option<Exit>,
    cleaned_up: bool,
}

impl RenderLoop {
    pub closed spec fn model(&self) -> LoopModel {
        LoopModel { view: self.view.model(), exit: self.exit, cleaned_up: self.cleaned_up }
    }

    /// A session that has not drawn yet, on `view`.
    pub fn new(view: View) -> (r: RenderLoop)
        ensures
            r.model() == initial(view.model()),
            wf(r.model()),
    {
        RenderLoop { view, exit: None, cleaned_up: false }
    }

    /// The current view, to be drawn.
    pub fn view(&self) -> (r: &View)
        ensures
            r.model() == self.model().view,
    {
        &self.view
    }

    /// Why the loop stopped, or `None` while it runs.
    pub fn exit(&self) -> (r: Option<Exit>)
        ensures
            r == self.model().exit,
    {
        self.exit
    }

    /// Decides on one frame. A failed draw stops the loop. A drawn frame with
    /// no pending event changes nothing. The quit hotkey stops the loop and
    /// never reaches the view. Any other event goes to the view, unchanged
    /// and once.
    pub fn frame(&mut self, outcome: FrameOutcome) -> (r: Flow)
        requires
            wf(old(self).model()),
            old(self).model().exit is None,
            frame_allowed(old(self).model(), outcome),
        ensures
            wf(final(self).model()),
            !final(self).model().cleaned_up,
            final(self).model() == next(old(self).model(), outcome),
            r == flow_after(old(self).model(), outcome),
            final(self).model().view == old(self).model().view || exists|e: Event|
                outcome == FrameOutcome::Drawn(Some(e)) && final(self).model().view
                    == old(self).model().view.after(e),
            forall|e: Event|
                outcome == FrameOutcome::Drawn(Some(e)) && is_quit_spec(e) ==> r == Flow::Stop(
                    Exit::Quit,
                ) && final(self).model().view == old(self).model().view,
            forall|h: Seq<Event>, e: Event|
                outcome == FrameOutcome::Drawn(Some(e)) && !is_quit_spec(e)
                    && old(self).model().view == ViewModel::Setup(h) ==> r == Flow::Continue
                    && final(self).model().view == ViewModel::Setup(h.push(e)),
            outcome == FrameOutcome::DrawFailed ==> r == Flow::Stop(Exit::DrawFailed),
    {
        match outcome {
            FrameOutcome::DrawFailed => {
                self.exit = Some(Exit::DrawFailed);
                Flow::Stop(Exit::DrawFailed)
            },
            FrameOutcome::Drawn(None) => Flow::Continue,
            FrameOutcome::Drawn(Some(event)) => {
                if is_quit(&event) {
                    self.exit = Some(Exit::Quit);
                    Flow::Stop(Exit::Quit)
                } else {
                    self.view.handle_event(event);
                    Flow::Continue
                }
            },
        }
    }

    /// Runs the frames of `outcomes` in order until the loop stops; returns
    /// how many frames ran.
    pub fn run(&mut self, outcomes: &Vec<FrameOutcome>) -> (r: usize)
        requires
            wf(old(self).model()),
            run_allowed(old(self).model(), outcomes@),
        ensures
            wf(final(self).model()),
            final(self).model() == run_model(old(self).model(), outcomes@),
            r == frames_run(old(self).model(), outcomes@),
    {
        let mut i: usize = 0;
        assert(outcomes@.skip(0) =~= outcomes@);
        while i < outcomes.len() && self.exit.is_none()
            invariant
                i <= outcomes.len(),
                run_model(old(self).model(), outcomes@) == run_model(self.model(), outcomes@.skip(i as int)),
                frames_run(old(self).model(), outcomes@) == i + frames_run(self.model(), outcomes@.skip(i as int)),
                run_allowed(self.model(), outcomes@.skip(i as int)),
                wf(self.model()),
            decreases outcomes.len() - i,
        {
            let ghost rest = outcomes@.skip(i as int);
            assert(rest[0] == outcomes@[i as int]);
            assert(rest.drop_first() =~= outcomes@.skip(i + 1));
            self.frame(outcomes[i]);
            i = i + 1;
        }
        proof {
            let rest = outcomes@.skip(i as int);
            if i == outcomes.len() {
                assert(rest.len() == 0);
            }
        }
        i
    }

    /// Asks whether the terminal must be restored now: true exactly once, on
    /// the first request after the loop has stopped.
    pub fn finish(&mut self) -> (r: bool)
        requires
            wf(old(self).model()),
        ensures
            wf(final(self).model()),
            (final(self).model(), r) == finish_model(old(self).model()),
    {
        let due = self.exit.is_some() && !self.cleaned_up;
        if self.exit.is_some() {
            self.cleaned_up = true;
        }
        due
    }
}

/// Frames never touch whether the terminal has been restored.
proof fn lemma_run_keeps_cleanup_flag(m: LoopModel, s: Seq<FrameOutcome>)
    ensures
        run_model(m, s).cleaned_up == m.cleaned_up,
    decreases s.len(),
{
    if s.len() > 0 && m.exit is None {
        lemma_run_keeps_cleanup_flag(next(m, s[0]), s.drop_first());
    }
}

/// Once the terminal has been restored, no later request restores it again.
proof fn lemma_no_cleanup_after_cleanup(m: LoopModel, k: nat)
    requires
        m.cleaned_up || m.exit is None,
    ensures
        cleanups(m, k) == 0,
    decreases k,
{
    if k > 0 {
        lemma_no_cleanup_after_cleanup(finish_model(m).0, (k - 1) as nat);
    }
}

/// The view sees the events of a run in the order they were taken, each
/// once, up to the frame that stopped the loop: a later event waits for a
/// later frame and never overtakes or replaces an earlier one.
pub proof fn lemma_dispatch_in_order(h: Seq<Event>, s: Seq<FrameOutcome>)
    requires
        run_allowed(initial(ViewModel::Setup(h)), s),
    ensures
        run_model(initial(ViewModel::Setup(h)), s).view == ViewModel::Setup(h + delivered(s)),
    decreases s.len(),
{
    let m = initial(ViewModel::Setup(h));
    if s.len() == 0 {
        assert(h + delivered(s) =~= h);
    } else {
        match s[0] {
            FrameOutcome::DrawFailed => {
                assert(h + delivered(s) =~= h);
                assert(run_model(next(m, s[0]), s.drop_first()) == next(m, s[0]));
            },
            FrameOutcome::Drawn(None) => {
                lemma_dispatch_in_order(h, s.drop_first());
            },
            FrameOutcome::Drawn(Some(e)) => {
                if is_quit_spec(e) {
                    assert(h + delivered(s) =~= h);
                    assert(run_model(next(m, s[0]), s.drop_first()) == next(m, s[0]));
                } else {
                    assert(next(m, s[0]) == initial(ViewModel::Setup(h.push(e))));
                    lemma_dispatch_in_order(h.push(e), s.drop_first());
                    assert(h.push(e) + delivered(s.drop_first()) =~= h + delivered(s));
                }
            },
        }
    }
}

/// Over any run, the view is handed at most one event per frame.
pub proof fn lemma_one_dispatch_per_frame(m: LoopModel, s: Seq<FrameOutcome>)
    requires
        m.exit is None,
    ensures
        delivered(s).len() <= frames_run(m, s),
    decreases s.len(),
{
    if s.len() > 0 {
        match s[0] {
            FrameOutcome::DrawFailed => {},
            FrameOutcome::Drawn(None) => {
                lemma_one_dispatch_per_frame(next(m, s[0]), s.drop_first());
            },
            FrameOutcome::Drawn(Some(e)) => {
                if !is_quit_spec(e) {
                    lemma_one_dispatch_per_frame(next(m, s[0]), s.drop_first());
                }
            },
        }
    }
}

/// The terminal is restored exactly once per session that has stopped,
/// whichever way it stopped, however often the driver asks; and never while
/// the loop still runs.
pub proof fn lemma_cleanup_exactly_once(v: ViewModel, s: Seq<FrameOutcome>, k: nat)
    requires
        k >= 1,
    ensures
        run_model(initial(v), s).exit is Some ==> cleanups(run_model(initial(v), s), k) == 1,
        run_model(initial(v), s).exit is None ==> cleanups(run_model(initial(v), s), k) == 0,
{
    let m = run_model(initial(v), s);
    lemma_run_keeps_cleanup_flag(initial(v), s);
    if m.exit is Some {
        lemma_no_cleanup_after_cleanup(finish_model(m).0, (k - 1) as nat);
    } else {
        lemma_no_cleanup_after_cleanup(m, k);
    }
}

/// Frames without input keep the loop running and drawing, and never
/// dispatch: each of them is run and the view stays as it was.
pub proof fn lemma_idle_frames(v: ViewModel, s: Seq<FrameOutcome>)
    requires
        forall|i: int| 0 <= i < s.len() ==> s[i] == FrameOutcome::Drawn(None),
    ensures
        run_model(initial(v), s) == initial(v),
        frames_run(initial(v), s) == s.len(),
        delivered(s) == Seq::<Event>::empty(),
    decreases s.len(),
{
    if s.len() > 0 {
        assert(s[0] == FrameOutcome::Drawn(None));
        let rest = s.drop_first();
        assert forall|i: int| 0 <= i < rest.len() implies rest[i] == FrameOutcome::Drawn(None) by {
            assert(rest[i] == s[i + 1]);
        }
        lemma_idle_frames(v, rest);
    }
}

/// On any running session, whatever its view, the quit hotkey or a failed
/// draw stops the loop without touching the view, and the next request to
/// finish says that the terminal must be restored.
pub proof fn lemma_stop_then_cleanup(m: LoopModel, o: FrameOutcome)
    requires
        wf(m),
        m.exit is None,
        o == FrameOutcome::DrawFailed || exists|e: Event| o == FrameOutcome::Drawn(Some(e)) && is_quit_spec(e),
    ensures
        next(m, o).exit is Some,
        next(m, o).view == m.view,
        finish_model(next(m, o)).1,
{
}

} // verus!
