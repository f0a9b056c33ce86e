//! The closed set of views that the render loop dispatches to.

use vstd::prelude::*;
use crate::event::Event;
use vstd::view::View as _;

verus! {

/// The first view of a session. It keeps, in order, every event that was
/// handed to it.
pub struct SetupView {
    handled: Vec<Event>,
}

impl SetupView {
    /// The events handed to this view so far, oldest first.
    pub closed spec fn handled_spec(&self) -> Seq<Event> {
        self.handled@
    }

    pub fn new() -> (r: SetupView)
        ensures
            r.handled_spec() == Seq::<Event>::empty(),
    {
        SetupView { handled: Vec::new() }
    }

    /// The events handed to this view so far, oldest first.
    pub fn handled(&self) -> (r: &Vec<Event>)
        ensures
            r@ == self.handled_spec(),
    {
        &self.handled
    }

    /// Takes one event: it is appended, as it came, to what the view has seen.
    pub fn handle_event(&mut self, event: Event)
        requires
            old(self).handled_spec().len() < usize::MAX,
        ensures
            final(self).handled_spec() == old(self).handled_spec().push(event),
    {
        self.handled.push(event);
    }
}

impl Default for SetupView {
    fn default() -> (r: SetupView)
        ensures
            r.handled_spec() == Seq::<Event>::empty(),
    {
        SetupView::new()
    }
}

/// What a view is, as far as dispatch can tell: a setup view with the events
/// it has seen, or the dashboard.
pub enum ViewModel {
    Setup(Seq<Event>),
    Dashboard,
}

/// The active UI state. A session starts in `Setup`. `Dashboard` has no
/// behaviour yet: rendering it or handing it an event is a defect, so the
/// contracts below keep every call away from it.
pub enum View {
    Setup(SetupView),
    Dashboard,
}

impl View {
    pub open spec fn model(&self) -> ViewModel {
        match self {
            View::Setup(s) => ViewModel::Setup(s.handled_spec()),
            View::Dashboard => ViewModel::Dashboard,
        }
    }

    pub fn is_setup(&self) -> (r: bool)
        ensures
            r == (self.model() is Setup),
    {
        match self {
            View::Setup(_) => true,
            View::Dashboard => false,
        }
    }
}

impl ViewModel {
    /// Whether this view can take an event: only a setup view whose record
    /// of events still has room.
    pub open spec fn accepts(self) -> bool {
        match self {
            ViewModel::Setup(h) => h.len() < usize::MAX,
            ViewModel::Dashboard => false,
        }
    }

    /// The view after it has taken `event`.
    pub open spec fn after(self, event: Event) -> ViewModel {
        match self {
            ViewModel::Setup(h) => ViewModel::Setup(h.push(event)),
            ViewModel::Dashboard => ViewModel::Dashboard,
        }
    }
}

impl Default for View {
    fn default() -> (r: View)
        ensures
            r.model() == ViewModel::Setup(Seq::<Event>::empty()),
    {
        View::Setup(SetupView::new())
    }
}

/// The input capability of a view: take one event and change state by it.
pub trait ViewController: Sized {
    /// Whether the view is in a state that can take an event.
    spec fn can_handle(&self) -> bool;

    /// Whether this state is the one that `before` reaches by taking `event`.
    spec fn follows(&self, before: &Self, event: Event) -> bool;

    fn handle_event(&mut self, event: Event)
        requires
            old(self).can_handle(),
        ensures
            final(self).follows(old(self), event),
    ;
}

impl ViewController for View {
    open spec fn can_handle(&self) -> bool {
        self.model().accepts()
    }

    open spec fn follows(&self, before: &View, event: Event) -> bool {
        self.model() == before.model().after(event)
    }

    fn handle_event(&mut self, event: Event) {
        match self {
            View::Setup(setup_view) => setup_view.handle_event(event),
            View::Dashboard => {},
        }
    }
}

} // verus!
