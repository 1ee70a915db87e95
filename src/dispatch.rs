use vstd::prelude::*;

verus! {

/// Something that reacts to events, possibly asking for follow-up events.
/// Its behaviour is stated over its view: which follow-ups an event yields,
/// and what state it leaves.
pub trait EventHandler<E>: View + Sized {
    /// The handler's consistency condition, kept by every event.
    spec fn handler_wf(state: Self::V) -> bool;

    /// The follow-up events that handling `event` in `state` asks for, in order.
    spec fn responses(state: Self::V, event: E) -> Seq<E>;

    /// The state after handling `event` in `state`.
    spec fn after(state: Self::V, event: E) -> Self::V;

    fn handle(&mut self, event: E) -> (r: Vec<E>)
        requires
            Self::handler_wf(old(self)@),
        ensures
            Self::handler_wf(final(self)@),
            r@ == Self::responses(old(self)@, event),
            final(self)@ == Self::after(old(self)@, event),
    ;
}

/// The outcome of dispatching `pending` in order, each event followed at once
/// by the whole cascade of its follow-ups, down to `depth` levels: the final
/// state, the events in the order they were handled, and whether no
/// follow-up had to be dropped at the depth limit.
pub open spec fn cascade<E, H: EventHandler<E>>(state: H::V, pending: Seq<E>, depth: nat) -> (
    H::V,
    Seq<E>,
    bool,
)
    decreases depth, pending.len(),
{
    if pending.len() == 0 {
        (state, Seq::empty(), true)
    } else {
        let e = pending[0];
        let follow = H::responses(state, e);
        let s1 = H::after(state, e);
        let inner = if depth > 0 {
            cascade::<E, H>(s1, follow, (depth - 1) as nat)
        } else {
            (s1, Seq::empty(), follow.len() == 0)
        };
        let rest = cascade::<E, H>(inner.0, pending.drop_first(), depth);
        (rest.0, seq![e] + inner.1 + rest.1, inner.2 && rest.2)
    }
}

/// Dispatches `pending` in order, depth first; follow-ups below `depth`
/// levels are dropped, and the result says whether any was.
pub fn dispatch_all<E, H: EventHandler<E>>(handler: &mut H, pending: Vec<E>, depth: usize) -> (r:
    bool)
    requires
        H::handler_wf(old(handler)@),
    ensures
        H::handler_wf(final(handler)@),
        final(handler)@ == cascade::<E, H>(old(handler)@, pending@, depth as nat).0,
        r == cascade::<E, H>(old(handler)@, pending@, depth as nat).2,
    decreases depth, pending.len(),
{
    if pending.len() == 0 {
        return true;
    }
    let mut pending = pending;
    let ghost all = pending@;
    let event = pending.remove(0);
    assert(pending@ == all.drop_first());
    let follow = handler.handle(event);
    let inner = if depth > 0 {
        dispatch_all(handler, follow, depth - 1)
    } else {
        follow.len() == 0
    };
    let rest = dispatch_all(handler, pending, depth);
    inner && rest
}

/// Dispatches one event and, depth first, all that it leads to.
pub fn dispatch_event<E, H: EventHandler<E>>(handler: &mut H, event: E, depth: usize) -> (r: bool)
    requires
        H::handler_wf(old(handler)@),
    ensures
        H::handler_wf(final(handler)@),
        final(handler)@ == cascade::<E, H>(old(handler)@, seq![event], depth as nat).0,
        r == cascade::<E, H>(old(handler)@, seq![event], depth as nat).2,
{
    let mut pending: Vec<E> = Vec::new();
    pending.push(event);
    assert(pending@ =~= seq![event]);
    dispatch_all(handler, pending, depth)
}

/// Depth-first order: when an event asks for follow-ups `[x, y]`, the
/// handled order is the event, then `x` with everything `x` leads to, and
/// only then `y` with everything `y` leads to.
pub proof fn lemma_depth_first<E, H: EventHandler<E>>(state: H::V, event: E, depth: nat)
    requires
        depth > 0,
        H::responses(state, event).len() == 2,
    ensures
        ({
            let x = H::responses(state, event)[0];
            let y = H::responses(state, event)[1];
            let after_x = cascade::<E, H>(H::after(state, event), seq![x], (depth - 1) as nat);
            let after_y = cascade::<E, H>(after_x.0, seq![y], (depth - 1) as nat);
            &&& cascade::<E, H>(state, seq![event], depth).1 == seq![event] + after_x.1 + after_y.1
            &&& cascade::<E, H>(state, seq![event], depth).0 == after_y.0
        }),
{
    let follow = H::responses(state, event);
    let x = follow[0];
    let y = follow[1];
    let d = (depth - 1) as nat;
    let s1 = H::after(state, event);
    let whole = cascade::<E, H>(s1, follow, d);
    let after_x = cascade::<E, H>(s1, seq![x], d);
    let after_y = cascade::<E, H>(after_x.0, seq![y], d);
    assert(follow.drop_first() =~= seq![y]);
    assert(seq![x].len() == 1 && seq![y].len() == 1 && seq![event].len() == 1);
    assert(seq![x].drop_first() =~= Seq::<E>::empty());
    assert(seq![y].drop_first() =~= Seq::<E>::empty());
    assert(seq![event].drop_first() =~= Seq::<E>::empty());
    let x_sub = if d > 0 {
        cascade::<E, H>(H::after(s1, x), H::responses(s1, x), (d - 1) as nat)
    } else {
        (H::after(s1, x), Seq::empty(), H::responses(s1, x).len() == 0)
    };
    assert(after_x.0 == cascade::<E, H>(x_sub.0, Seq::<E>::empty(), d).0);
    assert(whole.1 == seq![x] + x_sub.1 + cascade::<E, H>(x_sub.0, seq![y], d).1);
    assert(after_x.1 =~= seq![x] + x_sub.1);
    assert(whole.1 =~= after_x.1 + after_y.1);
    assert(seq![event][0] == event);
    let tail = cascade::<E, H>(whole.0, seq![event].drop_first(), depth);
    assert(tail.1 == Seq::<E>::empty() && tail.0 == whole.0);
    assert(cascade::<E, H>(state, seq![event], depth).1 == seq![event] + whole.1 + tail.1);
    assert(cascade::<E, H>(state, seq![event], depth).1 =~= seq![event] + whole.1);
}

} // verus!
