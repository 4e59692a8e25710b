//! The scoped listener registry: one observer at a time, reachable from every
//! frame that holds the registry, installed for the extent of a body and
//! removed again when the body returns.

use vstd::prelude::*;
use crate::events::EvmEvent;
use crate::gasometer::GasometerEvent;

verus! {

/// Which data of step events a listener wants kept. Keeping it means cloning
/// the stack or the memory at every step, which is costly.
#[derive(Clone, Copy, Eq, PartialEq, Default, Debug, Structural)]
pub struct StepEventFilter {
    pub enable_stack: bool,
    pub enable_memory: bool,
}

/// What a listener is told.
#[derive(Clone, Eq, PartialEq, Debug)]
pub enum Event {
    Evm(EvmEvent),
    Gasometer(GasometerEvent),
    CallListNew(),
}

/// An observer of the interpreter. Implementors decide what becomes of the
/// events: keep them, forward them, or drop them. An implementor must not
/// emit events from within `event`.
pub trait Listener {
    /// The events this listener has been handed, in the order received.
    spec fn received(&self) -> Seq<Event>;

    /// The step data this listener asks for.
    spec fn wanted_filter(&self) -> StepEventFilter;

    /// Receives one event.
    fn event(&mut self, event: Event)
        ensures
            final(self).received() == old(self).received().push(event),
    ;

    /// Which step data this listener wants. Asked once, when the listener is
    /// installed; the answer holds for the whole scope.
    fn step_event_filter(&self) -> (r: StepEventFilter)
        ensures
            r == self.wanted_filter(),
    ;
}

/// A listener that keeps every event it is handed, in order, and asks for
/// the step data given at construction.
#[derive(Clone, Debug)]
pub struct EventLog {
    pub events: Vec<Event>,
    pub filter: StepEventFilter,
}

impl EventLog {
    /// An empty log that will ask for `filter`.
    pub fn new(filter: StepEventFilter) -> (r: EventLog)
        ensures
            r.received() == Seq::<Event>::empty(),
            r.wanted_filter() == filter,
    {
        EventLog { events: Vec::new(), filter }
    }
}

impl Listener for EventLog {
    open spec fn received(&self) -> Seq<Event> {
        self.events@
    }

    open spec fn wanted_filter(&self) -> StepEventFilter {
        self.filter
    }

    fn event(&mut self, event: Event) {
        self.events.push(event);
    }

    fn step_event_filter(&self) -> (r: StepEventFilter) {
        self.filter
    }
}

/// An installed listener with the filter that it answered when installed.
pub struct Frame<L> {
    pub listener: L,
    pub filter: StepEventFilter,
}

/// The frame that installing `l` adds: the listener with its own answer.
pub open spec fn frame_of<L: Listener>(l: L) -> Frame<L> {
    Frame { listener: l, filter: l.wanted_filter() }
}

/// Whether a scope's body, run on frames `before` whose last is its own,
/// left `after` with every frame below its own as it was and its own frame
/// still installed.
pub open spec fn keeps_outer<L>(before: Seq<Frame<L>>, after: Seq<Frame<L>>) -> bool {
    before.len() <= after.len() && after.subrange(0, before.len() - 1) == before.subrange(
        0,
        before.len() - 1,
    )
}

/// The registry of one interpreter instance. The last frame holds the
/// current observer; the frames below it are the listeners that it shadows.
pub struct ListenerRegistry<L> {
    frames: Vec<Frame<L>>,
}

impl<L: Listener> ListenerRegistry<L> {
    /// The installed listeners, innermost last.
    pub closed spec fn frames(&self) -> Seq<Frame<L>> {
        self.frames@
    }

    /// Whether a listener is installed.
    pub open spec fn has_listener(&self) -> bool {
        self.frames().len() > 0
    }

    /// The current observer's frame.
    pub open spec fn current(&self) -> Frame<L>
        recommends
            self.has_listener(),
    {
        self.frames().last()
    }

    /// The filter of the current observer, if there is one.
    pub open spec fn current_filter(&self) -> Option<StepEventFilter> {
        if self.has_listener() {
            Some(self.current().filter)
        } else {
            None
        }
    }

    /// A registry with no listener installed.
    pub fn new() -> (r: Self)
        ensures
            r.frames() == Seq::<Frame<L>>::empty(),
    {
        ListenerRegistry { frames: Vec::new() }
    }

    /// Whether a listener is installed.
    pub fn is_listening(&self) -> (r: bool)
        ensures
            r == self.has_listener(),
    {
        self.frames.len() > 0
    }

    /// Makes `l` the current observer, shadowing the one before it. The
    /// listener is asked for its filter here, once.
    pub fn install(&mut self, l: L) -> (filter: StepEventFilter)
        ensures
            filter == l.wanted_filter(),
            final(self).frames() == old(self).frames().push(frame_of(l)),
    {
        let filter = l.step_event_filter();
        self.frames.push(Frame { listener: l, filter });
        filter
    }

    /// Removes the current observer and hands it back; the listener that it
    /// shadowed is current again.
    pub fn uninstall(&mut self) -> (r: Option<L>)
        ensures
            old(self).has_listener() ==> r == Some(old(self).current().listener)
                && final(self).frames() == old(self).frames().drop_last(),
            !old(self).has_listener() ==> r.is_none() && *final(self) == *old(self),
    {
        if self.frames.len() > 0 {
            match self.frames.pop() {
                Some(frame) => Some(frame.listener),
                None => None,
            }
        } else {
            None
        }
    }

    /// The filter that the current observer answered when it was installed,
    /// or `None` where no listener is installed.
    pub fn current_step_filter(&self) -> (r: Option<StepEventFilter>)
        ensures
            r == self.current_filter(),
    {
        let n = self.frames.len();
        if n > 0 {
            Some(self.frames[n - 1].filter)
        } else {
            None
        }
    }

    /// Hands `event` to the current observer, and to no other listener. With
    /// no listener installed the registry is left exactly as it was.
    pub fn emit(&mut self, event: Event)
        ensures
            !old(self).has_listener() ==> *final(self) == *old(self),
            final(self).frames().len() == old(self).frames().len(),
            old(self).has_listener() ==> {
                &&& final(self).frames().drop_last() == old(self).frames().drop_last()
                &&& final(self).current().filter == old(self).current().filter
                &&& final(self).current().listener.received() == old(
                    self,
                ).current().listener.received().push(event)
            },
    {
        if self.frames.len() > 0 {
            match self.frames.pop() {
                Some(frame) => {
                    let Frame { mut listener, filter } = frame;
                    listener.event(event);
                    self.frames.push(Frame { listener, filter });
                },
                None => {},
            }
        }
    }

    /// Runs `f` with `l` installed as the current observer over the
    /// listeners installed before, then removes `l` again and hands back
    /// what `f` returned together with `l` as `f` left it. The listeners
    /// installed before are exactly as they were once `f` has returned. They
    /// stay in place below `l` while `f` runs, so a body that unwinds takes
    /// none of them with it.
    pub fn run_scoped<R, F: FnOnce(&mut ListenerRegistry<L>) -> R>(&mut self, l: L, f: F) -> (r:
        (R, L))
        requires
            forall|x: &mut ListenerRegistry<L>|
                x.frames() == old(self).frames().push(frame_of(l)) ==> f.requires((x,)),
            forall|x: &mut ListenerRegistry<L>, y: R|
                f.ensures((x,), y) ==> keeps_outer(x.frames(), final(x).frames()),
        ensures
            final(self).frames() == old(self).frames(),
            exists|x: &mut ListenerRegistry<L>|
                {
                    &&& x.frames() == old(self).frames().push(frame_of(l))
                    &&& f.ensures((x,), r.0)
                    &&& r.1 == final(x).frames()[old(self).frames().len() as int].listener
                },
    {
        let ghost outer = self.frames@;
        self.install(l);
        let top = self.frames.len();
        let res = f(self);
        let ghost after = self.frames@;
        while self.frames.len() > top
            invariant
                top <= self.frames@.len(),
                top == outer.len() + 1,
                after.len() >= top,
                self.frames@.subrange(0, top as int) == after.subrange(0, top as int),
            decreases self.frames@.len(),
        {
            self.frames.pop();
            assert(self.frames@.subrange(0, top as int) =~= after.subrange(0, top as int));
        }
        assert(self.frames@ =~= after.subrange(0, top as int));
        let back = self.frames.pop().unwrap().listener;
        assert(self.frames@ =~= outer);
        (res, back)
    }
}

/// Runs `f` with `l` installed in `registry` as the current observer; see
/// `ListenerRegistry::run_scoped`.
pub fn using<L: Listener, R, F: FnOnce(&mut ListenerRegistry<L>) -> R>(
    registry: &mut ListenerRegistry<L>,
    l: L,
    f: F,
) -> (r: (R, L))
    requires
        forall|x: &mut ListenerRegistry<L>|
            x.frames() == old(registry).frames().push(frame_of(l)) ==> f.requires((x,)),
        forall|x: &mut ListenerRegistry<L>, y: R|
            f.ensures((x,), y) ==> keeps_outer(x.frames(), final(x).frames()),
    ensures
        final(registry).frames() == old(registry).frames(),
        exists|x: &mut ListenerRegistry<L>|
            {
                &&& x.frames() == old(registry).frames().push(frame_of(l))
                &&& f.ensures((x,), r.0)
                &&& r.1 == final(x).frames()[old(registry).frames().len() as int].listener
            },
{
    registry.run_scoped(l, f)
}

/// The filter of the current observer of `registry`, as it answered when it
/// was installed, or `None` where no listener is installed.
pub fn step_event_filter<L: Listener>(registry: &ListenerRegistry<L>) -> (r: Option<
    StepEventFilter,
>)
    ensures
        r == registry.current_filter(),
{
    registry.current_step_filter()
}

impl Event {
    /// Hands the event to the current observer of `registry`, if any, and to
    /// no other listener.
    pub fn emit<L: Listener>(self, registry: &mut ListenerRegistry<L>)
        ensures
            !old(registry).has_listener() ==> *final(registry) == *old(registry),
            final(registry).frames().len() == old(registry).frames().len(),
            old(registry).has_listener() ==> {
                &&& final(registry).frames().drop_last() == old(registry).frames().drop_last()
                &&& final(registry).current().filter == old(registry).current().filter
                &&& final(registry).current().listener.received() == old(
                    registry,
                ).current().listener.received().push(self)
            },
    {
        registry.emit(self)
    }
}

} // verus!
