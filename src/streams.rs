//! Change and event feeds: each turns the raw notifications of one field or
//! one event into values of its type. A feed ends when its raw stream ends,
//! and also at the first notification that does not parse: a malformed
//! notification is not skipped.

use vstd::prelude::*;

use crate::properties::{Property, parse, parse_spec};
use crate::signals::{Signal, parse_signal, parse_signal_spec};
use crate::wire::{Wire, WireValue};

verus! {

/// What a raw notification is, with `None` for the end of the raw stream.
pub open spec fn raw_view(raw: Option<WireValue>) -> Option<Wire> {
    match raw {
        Some(w) => Some(w@),
        None => None,
    }
}

/// Whether a feed of field `p` has ended after the raw notifications `raws`.
pub open spec fn feed_ended<P: Property>(p: &P, raws: Seq<Option<Wire>>) -> bool
    decreases raws.len(),
{
    if raws.len() == 0 {
        false
    } else {
        feed_ended(p, raws.drop_last()) || match raws.last() {
            None => true,
            Some(w) => parse_spec(p, w) is None,
        }
    }
}

/// What a feed of field `p` gives for each of the raw notifications `raws`,
/// in order.
pub open spec fn feed_outputs<P: Property>(
    p: &P,
    raws: Seq<Option<Wire>>,
) -> Seq<Option<<P::Output as DeepView>::V>>
    decreases raws.len(),
{
    if raws.len() == 0 {
        Seq::empty()
    } else {
        let out = if feed_ended(p, raws.drop_last()) {
            None
        } else {
            match raws.last() {
                None => None,
                Some(w) => parse_spec(p, w),
            }
        };
        feed_outputs(p, raws.drop_last()).push(out)
    }
}

/// Whether a feed of event `s` has ended after the raw notifications `raws`.
pub open spec fn signal_feed_ended<S: Signal>(s: &S, raws: Seq<Option<Wire>>) -> bool
    decreases raws.len(),
{
    if raws.len() == 0 {
        false
    } else {
        signal_feed_ended(s, raws.drop_last()) || match raws.last() {
            None => true,
            Some(w) => parse_signal_spec(s, w) is None,
        }
    }
}

/// What a feed of event `s` gives for each of the raw notifications `raws`,
/// in order.
pub open spec fn signal_feed_outputs<S: Signal>(
    s: &S,
    raws: Seq<Option<Wire>>,
) -> Seq<Option<<S::Output as DeepView>::V>>
    decreases raws.len(),
{
    if raws.len() == 0 {
        Seq::empty()
    } else {
        let out = if signal_feed_ended(s, raws.drop_last()) {
            None
        } else {
            match raws.last() {
                None => None,
                Some(w) => parse_signal_spec(s, w),
            }
        };
        signal_feed_outputs(s, raws.drop_last()).push(out)
    }
}

/// The change feed of one field. Each subscription has a feed of its own,
/// which shares nothing with any other.
pub struct PropertyFeed<P: Property> {
    property: P,
    ended: bool,
    received: Ghost<Seq<Option<Wire>>>,
}

impl<P: Property> PropertyFeed<P> {
    pub closed spec fn property(&self) -> P {
        self.property
    }

    /// The raw notifications received so far, `None` for the end of the raw stream.
    pub closed spec fn received(&self) -> Seq<Option<Wire>> {
        self.received@
    }

    pub closed spec fn is_ended(&self) -> bool {
        self.ended
    }

    pub open spec fn wf(&self) -> bool {
        self.is_ended() == feed_ended(&self.property(), self.received())
    }

    /// A feed of `property` that has received nothing yet.
    pub fn new(property: P) -> (r: Self)
        ensures
            r.wf(),
            r.property() == property,
            r.received() == Seq::<Option<Wire>>::empty(),
            !r.is_ended(),
    {
        PropertyFeed { property, ended: false, received: Ghost(Seq::empty()) }
    }

    /// Whether the feed has ended.
    pub fn ended(&self) -> (r: bool)
        ensures
            r == self.is_ended(),
    {
        self.ended
    }

    /// Takes the next raw notification (`None`: the raw stream ended) and
    /// gives the value it parses to, or `None` once the feed has ended.
    pub fn push(&mut self, raw: Option<WireValue>) -> (r: Option<P::Output>)
        requires
            old(self).wf(),
        ensures
            final(self).wf(),
            final(self).property() == old(self).property(),
            final(self).received() == old(self).received().push(raw_view(raw)),
            r.deep_view() == feed_outputs(&final(self).property(), final(self).received()).last(),
            old(self).is_ended() ==> r is None && final(self).is_ended(),
            !old(self).is_ended() ==> match raw_view(raw) {
                None => r is None && final(self).is_ended(),
                Some(w) => match parse_spec(&old(self).property(), w) {
                    Some(v) => r is Some && r->0.deep_view() == v && !final(self).is_ended(),
                    None => r is None && final(self).is_ended(),
                },
            },
    {
        let ghost before = self.received@;
        self.received = Ghost(before.push(raw_view(raw)));
        proof {
            assert(self.received@.drop_last() =~= before);
        }
        if self.ended {
            return None;
        }
        match raw {
            None => {
                self.ended = true;
                None
            },
            Some(w) => match parse(&self.property, w) {
                Ok(v) => Some(v),
                Err(_) => {
                    self.ended = true;
                    None
                },
            },
        }
    }
}

/// The feed of one event. Each subscription has a feed of its own, which
/// shares nothing with any other.
pub struct SignalFeed<S: Signal> {
    signal: S,
    ended: bool,
    received: Ghost<Seq<Option<Wire>>>,
}

impl<S: Signal> SignalFeed<S> {
    pub closed spec fn signal(&self) -> S {
        self.signal
    }

    /// The raw notifications received so far, `None` for the end of the raw stream.
    pub closed spec fn received(&self) -> Seq<Option<Wire>> {
        self.received@
    }

    pub closed spec fn is_ended(&self) -> bool {
        self.ended
    }

    pub open spec fn wf(&self) -> bool {
        self.is_ended() == signal_feed_ended(&self.signal(), self.received())
    }

    /// A feed of `signal` that has received nothing yet.
    pub fn new(signal: S) -> (r: Self)
        ensures
            r.wf(),
            r.signal() == signal,
            r.received() == Seq::<Option<Wire>>::empty(),
            !r.is_ended(),
    {
        SignalFeed { signal, ended: false, received: Ghost(Seq::empty()) }
    }

    /// Whether the feed has ended.
    pub fn ended(&self) -> (r: bool)
        ensures
            r == self.is_ended(),
    {
        self.ended
    }

    /// Takes the next raw notification (`None`: the raw stream ended) and
    /// gives the value it parses to, or `None` once the feed has ended.
    pub fn push(&mut self, raw: Option<WireValue>) -> (r: Option<S::Output>)
        requires
            old(self).wf(),
        ensures
            final(self).wf(),
            final(self).signal() == old(self).signal(),
            final(self).received() == old(self).received().push(raw_view(raw)),
            r.deep_view() == signal_feed_outputs(&final(self).signal(), final(self).received()).last(),
            old(self).is_ended() ==> r is None && final(self).is_ended(),
            !old(self).is_ended() ==> match raw_view(raw) {
                None => r is None && final(self).is_ended(),
                Some(w) => match parse_signal_spec(&old(self).signal(), w) {
                    Some(v) => r is Some && r->0.deep_view() == v && !final(self).is_ended(),
                    None => r is None && final(self).is_ended(),
                },
            },
    {
        let ghost before = self.received@;
        self.received = Ghost(before.push(raw_view(raw)));
        proof {
            assert(self.received@.drop_last() =~= before);
        }
        if self.ended {
            return None;
        }
        match raw {
            None => {
                self.ended = true;
                None
            },
            Some(w) => match parse_signal(&self.signal, w) {
                Ok(v) => Some(v),
                Err(_) => {
                    self.ended = true;
                    None
                },
            },
        }
    }
}

/// Independence: what a subscription to a field observes is fixed by the raw
/// notifications it receives alone, one result for each of them, and a later
/// notification never changes what was observed before it. So two
/// subscriptions that receive the same notifications observe the same values.
pub proof fn lemma_subscriptions_independent<P: Property>(p: &P, raws: Seq<Option<Wire>>, i: int)
    requires
        0 <= i <= raws.len(),
    ensures
        feed_outputs(p, raws).len() == raws.len(),
        feed_outputs(p, raws.take(i)) == feed_outputs(p, raws).take(i),
    decreases raws.len(),
{
    if raws.len() > 0 {
        if i == raws.len() {
            assert(raws.take(i) =~= raws);
            lemma_subscriptions_independent(p, raws.drop_last(), 0);
            assert(feed_outputs(p, raws).take(i) =~= feed_outputs(p, raws));
        } else {
            lemma_subscriptions_independent(p, raws.drop_last(), i);
            assert(raws.drop_last().take(i) =~= raws.take(i));
            assert(feed_outputs(p, raws).take(i) =~= feed_outputs(p, raws.drop_last()).take(i));
        }
    } else {
        assert(raws.take(i) =~= raws);
    }
}

/// Independence for events: what a subscription to an event observes is fixed
/// by the raw notifications it receives alone, one result for each of them,
/// and a later notification never changes what was observed before it.
pub proof fn lemma_signal_subscriptions_independent<S: Signal>(s: &S, raws: Seq<Option<Wire>>, i: int)
    requires
        0 <= i <= raws.len(),
    ensures
        signal_feed_outputs(s, raws).len() == raws.len(),
        signal_feed_outputs(s, raws.take(i)) == signal_feed_outputs(s, raws).take(i),
    decreases raws.len(),
{
    if raws.len() > 0 {
        if i == raws.len() {
            assert(raws.take(i) =~= raws);
            lemma_signal_subscriptions_independent(s, raws.drop_last(), 0);
            assert(signal_feed_outputs(s, raws).take(i) =~= signal_feed_outputs(s, raws));
        } else {
            lemma_signal_subscriptions_independent(s, raws.drop_last(), i);
            assert(raws.drop_last().take(i) =~= raws.take(i));
            assert(signal_feed_outputs(s, raws).take(i) =~= signal_feed_outputs(s, raws.drop_last()).take(i));
        }
    } else {
        assert(raws.take(i) =~= raws);
    }
}

} // verus!
