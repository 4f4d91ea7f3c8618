//! The depth-counting walk over one element's content, shared by every block
//! parser.

use crate::xml::ElementView;
use crate::xml::EventView;
use crate::xml::XmlElement;
use crate::xml::XmlEvent;
use vstd::prelude::*;

verus! {

/// What a start tag did to the value being built.
pub struct Opened<V> {
    /// The value after the tag was handled.
    pub acc: V,
    /// Index of the first event not yet consumed.
    pub next: int,
    /// Whether the element's content is still to come (the tag was not handed
    /// to a block parser that consumed it whole).
    pub nested: bool,
    /// False when a malformed event was met while handling the tag.
    pub ok: bool,
}

/// Outcome of walking one element's content.
pub struct Walked<V> {
    pub acc: V,
    pub next: int,
    pub ok: bool,
}

/// What a start tag did, without the value: where to go on, and how.
pub struct OpenStep {
    pub next: usize,
    pub nested: bool,
    pub ok: bool,
}

/// A value that is filled from the content of an element of kind `K`.
pub trait Block<K>: DeepView + Sized {
    /// Effect of the start tag at `events[pos]`.
    spec fn opened(acc: Self::V, events: Seq<EventView>, pos: int) -> Opened<Self::V>;

    /// Effect of a self-closing tag.
    spec fn leaf(acc: Self::V, e: ElementView) -> Self::V;

    fn open(&mut self, events: &[XmlEvent], pos: usize) -> (step: OpenStep)
        requires
            pos < events.len(),
            events[pos as int] is Start,
        ensures
            pos < step.next <= events.len(),
            Self::opened(old(self).deep_view(), events.deep_view(), pos as int) == (Opened {
                acc: final(self).deep_view(),
                next: step.next as int,
                nested: step.nested,
                ok: step.ok,
            }),
    ;

    fn close_leaf(&mut self, e: &XmlElement)
        ensures
            final(self).deep_view() == Self::leaf(old(self).deep_view(), e.deep_view()),
    ;
}

/// Walks events from `pos`, with `depth` child elements open, until the
/// element itself closes, the events end, or one is malformed. A start tag
/// always takes the walk forward; a step that claimed otherwise would end
/// the walk as malformed input does.
#[verifier::opaque]
pub open spec fn walk<K, T: Block<K>>(
    acc: T::V,
    events: Seq<EventView>,
    pos: int,
    depth: nat,
) -> Walked<T::V>
    decreases events.len() - pos,
{
    if pos < 0 || pos >= events.len() {
        Walked { acc, next: pos, ok: true }
    } else {
        match events[pos] {
            EventView::Start(_) => {
                let o = T::opened(acc, events, pos);
                if o.next <= pos || o.next > events.len() {
                    Walked { acc: o.acc, next: pos + 1, ok: false }
                } else if !o.ok {
                    Walked { acc: o.acc, next: o.next, ok: false }
                } else {
                    walk::<K, T>(
                        o.acc,
                        events,
                        o.next,
                        if o.nested {
                            depth + 1
                        } else {
                            depth
                        },
                    )
                }
            },
            EventView::Empty(e) => walk::<K, T>(T::leaf(acc, e), events, pos + 1, depth),
            EventView::End => if depth == 0 {
                Walked { acc, next: pos + 1, ok: true }
            } else {
                walk::<K, T>(acc, events, pos + 1, (depth - 1) as nat)
            },
            EventView::Malformed => Walked { acc, next: pos + 1, ok: false },
            EventView::Other => walk::<K, T>(acc, events, pos + 1, depth),
        }
    }
}

/// Fills `target` from the content of the element whose start tag stands just
/// before `start`. Returns the index of the first event after the element
/// and whether the content was well formed. A start beyond the events finds
/// no content.
pub fn walk_block<K, T: Block<K>>(target: &mut T, events: &[XmlEvent], start: usize) -> (r: (
    usize,
    bool,
))
    ensures
        start <= events.len() ==> start <= r.0 <= events.len(),
        walk::<K, T>(old(target).deep_view(), events.deep_view(), start as int, 0) == (Walked {
            acc: final(target).deep_view(),
            next: r.0 as int,
            ok: r.1,
        }),
{
    reveal(walk);
    if start > events.len() {
        return (start, true);
    }
    let mut pos = start;
    let mut depth: usize = 0;
    let ghost goal = walk::<K, T>(old(target).deep_view(), events.deep_view(), start as int, 0);
    while pos < events.len()
        invariant
            start <= pos <= events.len(),
            depth <= pos - start,
            goal == walk::<K, T>(old(target).deep_view(), events.deep_view(), start as int, 0),
            goal == walk::<K, T>(target.deep_view(), events.deep_view(), pos as int, depth as nat),
        decreases events.len() - pos,
    {
        reveal(walk);
        assert(events.deep_view()[pos as int] == events[pos as int].deep_view());
        match &events[pos] {
            XmlEvent::Start(_) => {
                let step = target.open(events, pos);
                if !step.ok {
                    return (step.next, false);
                }
                pos = step.next;
                if step.nested {
                    depth = depth + 1;
                }
            },
            XmlEvent::Empty(e) => {
                target.close_leaf(e);
                pos = pos + 1;
            },
            XmlEvent::End => {
                pos = pos + 1;
                if depth == 0 {
                    return (pos, true);
                }
                depth = depth - 1;
            },
            XmlEvent::Malformed => {
                return (pos + 1, false);
            },
            XmlEvent::Other => {
                pos = pos + 1;
            },
        }
    }
    (pos, true)
}

/// What holds of a value before a walk and is kept by every tag holds of
/// the value after the walk.
pub proof fn lemma_walk_keeps<K, T: Block<K>>(
    holds: spec_fn(T::V) -> bool,
    acc: T::V,
    events: Seq<EventView>,
    pos: int,
    depth: nat,
)
    requires
        holds(acc),
        forall|a: T::V, p: int| holds(a) ==> holds(#[trigger] T::opened(a, events, p).acc),
        forall|a: T::V, e: ElementView| holds(a) ==> holds(#[trigger] T::leaf(a, e)),
    ensures
        holds(walk::<K, T>(acc, events, pos, depth).acc),
    decreases events.len() - pos,
{
    reveal(walk);
    if 0 <= pos < events.len() {
        match events[pos] {
            EventView::Start(_) => {
                let o = T::opened(acc, events, pos);
                if o.ok && pos < o.next <= events.len() {
                    lemma_walk_keeps::<K, T>(
                        holds,
                        o.acc,
                        events,
                        o.next,
                        if o.nested {
                            depth + 1
                        } else {
                            depth
                        },
                    );
                }
            },
            EventView::Empty(e) => {
                lemma_walk_keeps::<K, T>(holds, T::leaf(acc, e), events, pos + 1, depth);
            },
            EventView::End => {
                if depth > 0 {
                    lemma_walk_keeps::<K, T>(holds, acc, events, pos + 1, (depth - 1) as nat);
                }
            },
            EventView::Malformed => {},
            EventView::Other => {
                lemma_walk_keeps::<K, T>(holds, acc, events, pos + 1, depth);
            },
        }
    }
}

} // verus!
