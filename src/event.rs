use vstd::prelude::*;

verus! {

/// The categories of events that the gateway delivers; the key of dispatch.
#[derive(Debug, Clone, Copy, PartialEq, Eq, Structural)]
pub enum EventType {
    Ready,
}

/// The event sent once the gateway has accepted the client's identify.
#[derive(Debug, Clone, PartialEq, Eq)]
pub struct Ready {
    pub session_id: String,
}

/// An event of any type, as the registry receives it.
#[derive(Debug, Clone, PartialEq, Eq)]
pub enum AnyEvent {
    Ready(Ready),
}

/// The type tag of an event value.
pub open spec fn event_type(e: AnyEvent) -> EventType {
    match e {
        AnyEvent::Ready(_) => EventType::Ready,
    }
}

impl AnyEvent {
    /// The type tag of this event.
    pub fn ty(&self) -> (t: EventType)
        ensures
            t == event_type(*self),
    {
        match self {
            AnyEvent::Ready(_) => EventType::Ready,
        }
    }
}

/// A concrete event payload: it belongs to one event type, and can be viewed
/// as an event of any type carrying that same tag.
pub trait Event: Sized {
    spec fn spec_ty() -> EventType;

    fn ty() -> (t: EventType)
        ensures
            t == Self::spec_ty(),
    ;

    fn into_any(self) -> (a: AnyEvent)
        ensures
            event_type(a) == Self::spec_ty(),
    ;
}

impl Event for Ready {
    open spec fn spec_ty() -> EventType {
        EventType::Ready
    }

    fn ty() -> (t: EventType) {
        EventType::Ready
    }

    fn into_any(self) -> (a: AnyEvent) {
        AnyEvent::Ready(self)
    }
}

/// One registration: the event type it listens for and the callback to run.
pub struct Listener<C> {
    pub ty: EventType,
    pub call: C,
}

impl<C: Fn(&AnyEvent)> Listener<C> {
    /// Pairs an event type with its callback.
    pub fn new(ty: EventType, callback: C) -> (r: Self)
        ensures
            r.ty == ty,
            r.call == callback,
    {
        Listener { ty, call: callback }
    }

    /// Runs the callback on `event` if the event carries this listener's type,
    /// and says whether it ran.
    pub fn handle(&self, event: &AnyEvent) -> (ran: bool)
        requires
            self.call.requires((event,)),
        ensures
            ran == (event_type(*event) == self.ty),
            ran ==> self.call.ensures((event,), ()),
    {
        if event.ty() == self.ty {
            (self.call)(event);
            true
        } else {
            false
        }
    }
}

/// The positions, in registration order, of the listeners among the first `n`
/// of `ls` that listen for type `t`.
pub open spec fn matching_upto<C>(ls: Seq<Listener<C>>, t: EventType, n: int) -> Seq<int>
    decreases n,
{
    if n <= 0 {
        seq![]
    } else if ls[n - 1].ty == t {
        matching_upto(ls, t, n - 1).push(n - 1)
    } else {
        matching_upto(ls, t, n - 1)
    }
}

/// The positions, in registration order, of all listeners of `ls` for type `t`.
pub open spec fn matching<C>(ls: Seq<Listener<C>>, t: EventType) -> Seq<int> {
    matching_upto(ls, t, ls.len() as int)
}

/// The listeners that run for an event of type `t` are exactly those
/// registered for `t`, each once, in registration order: every position
/// appears if and only if its listener has type `t`, and positions rise.
pub proof fn lemma_dispatch_exact<C>(ls: Seq<Listener<C>>, t: EventType)
    ensures
        forall|i: int| 0 <= i < ls.len() ==> (matching(ls, t).contains(i) <==> ls[i].ty == t),
        forall|k: int| 0 <= k < matching(ls, t).len() ==> 0 <= #[trigger] matching(ls, t)[k] < ls.len(),
        forall|k1: int, k2: int|
            0 <= k1 < k2 < matching(ls, t).len() ==> matching(ls, t)[k1] < matching(ls, t)[k2],
{
    lemma_matching_upto(ls, t, ls.len() as int);
}

proof fn lemma_matching_upto<C>(ls: Seq<Listener<C>>, t: EventType, n: int)
    requires
        0 <= n <= ls.len(),
    ensures
        forall|i: int| 0 <= i < n ==> (matching_upto(ls, t, n).contains(i) <==> ls[i].ty == t),
        forall|k: int|
            0 <= k < matching_upto(ls, t, n).len() ==> 0 <= #[trigger] matching_upto(ls, t, n)[k] < n,
        forall|k1: int, k2: int|
            0 <= k1 < k2 < matching_upto(ls, t, n).len() ==> matching_upto(ls, t, n)[k1]
                < matching_upto(ls, t, n)[k2],
    decreases n,
{
    if n > 0 {
        lemma_matching_upto(ls, t, n - 1);
        let prev = matching_upto(ls, t, n - 1);
        let cur = matching_upto(ls, t, n);
        if ls[n - 1].ty == t {
            assert(cur == prev.push(n - 1));
            assert forall|i: int| 0 <= i < n implies (cur.contains(i) <==> ls[i].ty == t) by {
                if i < n - 1 {
                    if prev.contains(i) {
                        let k = choose|k: int| 0 <= k < prev.len() && prev[k] == i;
                        assert(cur[k] == i);
                    }
                    if cur.contains(i) {
                        let k = choose|k: int| 0 <= k < cur.len() && cur[k] == i;
                        assert(k < prev.len());
                        assert(prev[k] == i);
                    }
                } else {
                    assert(cur[cur.len() - 1] == i);
                }
            }
        } else {
            assert forall|i: int| 0 <= i < n implies (cur.contains(i) <==> ls[i].ty == t) by {
                if i == n - 1 && cur.contains(i) {
                    let k = choose|k: int| 0 <= k < cur.len() && cur[k] == i;
                    assert(prev[k] < n - 1);
                }
            }
        }
    }
}

/// Where every listener has type `t`, an event of type `t` runs all of them, in
/// registration order.
pub proof fn lemma_dispatch_all<C>(ls: Seq<Listener<C>>, t: EventType)
    requires
        forall|i: int| 0 <= i < ls.len() ==> (#[trigger] ls[i]).ty == t,
    ensures
        matching(ls, t) == Seq::new(ls.len(), |i: int| i),
{
    lemma_matching_all(ls, t, ls.len() as int);
}

proof fn lemma_matching_all<C>(ls: Seq<Listener<C>>, t: EventType, n: int)
    requires
        0 <= n <= ls.len(),
        forall|i: int| 0 <= i < ls.len() ==> (#[trigger] ls[i]).ty == t,
    ensures
        matching_upto(ls, t, n) == Seq::new(n as nat, |i: int| i),
    decreases n,
{
    if n > 0 {
        lemma_matching_all(ls, t, n - 1);
        assert(ls[n - 1].ty == t);
        assert(matching_upto(ls, t, n) =~= Seq::new(n as nat, |i: int| i));
    }
}

/// A listener just registered for `t` runs on an event of type `t`, after every
/// listener registered before it for `t`; registered for another type, it is
/// skipped, and the earlier listeners run as before.
pub proof fn lemma_register_then_dispatch<C>(ls: Seq<Listener<C>>, l: Listener<C>, t: EventType)
    ensures
        l.ty == t ==> matching(ls.push(l), t) == matching(ls, t).push(ls.len() as int),
        l.ty != t ==> matching(ls.push(l), t) == matching(ls, t),
{
    lemma_matching_prefix(ls, l, t, ls.len() as int);
}

proof fn lemma_matching_prefix<C>(ls: Seq<Listener<C>>, l: Listener<C>, t: EventType, n: int)
    requires
        0 <= n <= ls.len(),
    ensures
        matching_upto(ls.push(l), t, n) == matching_upto(ls, t, n),
    decreases n,
{
    if n > 0 {
        lemma_matching_prefix(ls, l, t, n - 1);
        assert(ls.push(l)[n - 1] == ls[n - 1]);
    }
}

/// An ordered table of listeners, with any number of listeners per event type.
pub struct EventRegistry<C> {
    listeners: Vec<Listener<C>>,
}

impl<C> View for EventRegistry<C> {
    type V = Seq<Listener<C>>;

    closed spec fn view(&self) -> Seq<Listener<C>> {
        self.listeners@
    }
}

impl<C: Fn(&AnyEvent)> EventRegistry<C> {
    /// An empty registry.
    pub fn new() -> (r: Self)
        ensures
            r@ == Seq::<Listener<C>>::empty(),
    {
        EventRegistry { listeners: Vec::new() }
    }

    /// The number of registered listeners.
    pub fn len(&self) -> (n: usize)
        ensures
            n == self@.len(),
    {
        self.listeners.len()
    }

    /// Appends a listener for events of type `ty`.
    pub fn register(&mut self, ty: EventType, callback: C)
        ensures
            final(self)@ == old(self)@.push(Listener { ty, call: callback }),
    {
        let l = Listener::new(ty, callback);
        self.listeners.push(l);
    }

    /// Appends a listener for the event type that `E` belongs to.
    pub fn register_for<E: Event>(&mut self, callback: C)
        ensures
            final(self)@ == old(self)@.push(Listener { ty: E::spec_ty(), call: callback }),
    {
        let ty = E::ty();
        self.register(ty, callback);
    }

    /// Runs, in registration order, every listener registered for the type of
    /// `event`, each once, and returns their positions in the order they ran.
    pub fn dispatch(&self, event: &AnyEvent) -> (ran: Vec<usize>)
        requires
            forall|i: int| 0 <= i < self@.len() ==> (#[trigger] self@[i]).call.requires((event,)),
        ensures
            ran@.map_values(|p: usize| p as int) == matching(self@, event_type(*event)),
            forall|k: int|
                0 <= k < ran@.len() ==> (#[trigger] self@[ran@[k] as int]).call.ensures(
                    (event,),
                    (),
                ),
    {
        let mut ran: Vec<usize> = Vec::new();
        let mut i: usize = 0;
        while i < self.listeners.len()
            invariant
                i <= self.listeners@.len(),
                forall|j: int|
                    0 <= j < self.listeners@.len() ==> (#[trigger] self.listeners@[j]).call.requires(
                        (event,),
                    ),
                ran@.map_values(|p: usize| p as int) == matching_upto(
                    self.listeners@,
                    event_type(*event),
                    i as int,
                ),
                forall|k: int|
                    0 <= k < ran@.len() ==> (#[trigger] self.listeners@[ran@[k] as int]).call.ensures(
                        (event,),
                        (),
                    ),
            decreases self.listeners@.len() - i,
        {
            let l = &self.listeners[i];
            let hit = l.handle(event);
            if hit {
                ran.push(i);
                assert(ran@.map_values(|p: usize| p as int) =~= matching_upto(
                    self.listeners@,
                    event_type(*event),
                    i as int,
                ).push(i as int));
            }
            i = i + 1;
        }
        ran
    }
}

} // verus!
