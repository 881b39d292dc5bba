use vstd::prelude::*;

verus! {

/// The kinds of event carried by the bus.
#[derive(Debug, Clone)]
pub enum EventType {
    PlayerStateChanged,
    PlayerSongChanged,
    PlaybackChanged,
    ParseError,
    Unknown(String),
}

/// What identifies an event type: a tag and, for an unknown one, its name.
pub open spec fn type_key(t: EventType) -> (int, Seq<char>) {
    match t {
        EventType::PlayerStateChanged => (0, Seq::empty()),
        EventType::PlayerSongChanged => (1, Seq::empty()),
        EventType::PlaybackChanged => (2, Seq::empty()),
        EventType::ParseError => (3, Seq::empty()),
        EventType::Unknown(s) => (4, s@),
    }
}

pub open spec fn same_type(a: EventType, b: EventType) -> bool {
    type_key(a) == type_key(b)
}

/// The name of an event type.
pub open spec fn event_name(t: EventType) -> Seq<char> {
    match t {
        EventType::PlayerStateChanged => seq!['P', 'l', 'a', 'y', 'e', 'r', 'S', 't', 'a', 't', 'e', 'C', 'h', 'a', 'n', 'g', 'e', 'd'],
        EventType::PlayerSongChanged => seq!['P', 'l', 'a', 'y', 'e', 'r', 'S', 'o', 'n', 'g', 'C', 'h', 'a', 'n', 'g', 'e', 'd'],
        EventType::PlaybackChanged => seq!['P', 'l', 'a', 'y', 'b', 'a', 'c', 'k', 'C', 'h', 'a', 'n', 'g', 'e', 'd'],
        EventType::ParseError => seq!['P', 'a', 'r', 's', 'e', 'E', 'r', 'r', 'o', 'r'],
        EventType::Unknown(_) => seq!['U', 'n', 'k', 'n', 'o', 'w', 'n'],
    }
}

impl EventType {
    pub fn same_as(&self, other: &EventType) -> (r: bool)
        ensures
            r == same_type(*self, *other),
    {
        match (self, other) {
            (EventType::PlayerStateChanged, EventType::PlayerStateChanged) => true,
            (EventType::PlayerSongChanged, EventType::PlayerSongChanged) => true,
            (EventType::PlaybackChanged, EventType::PlaybackChanged) => true,
            (EventType::ParseError, EventType::ParseError) => true,
            (EventType::Unknown(a), EventType::Unknown(b)) => *a == *b,
            _ => false,
        }
    }

    /// The name of the event type.
    pub fn name(&self) -> (r: &'static str)
        ensures
            r@ == event_name(*self),
    {
        let r = match self {
            EventType::PlayerStateChanged => "PlayerStateChanged",
            EventType::PlayerSongChanged => "PlayerSongChanged",
            EventType::PlaybackChanged => "PlaybackChanged",
            EventType::ParseError => "ParseError",
            EventType::Unknown(_) => "Unknown",
        };
        proof {
            reveal_strlit("PlayerStateChanged");
            reveal_strlit("PlayerSongChanged");
            reveal_strlit("PlaybackChanged");
            reveal_strlit("ParseError");
            reveal_strlit("Unknown");
            assert(r@ =~= event_name(*self));
        }
        r
    }
}

/// The event type of a property change: its first property's name, when
/// there is one.
pub open spec fn type_of_property(name: Option<Seq<char>>) -> (int, Seq<char>) {
    match name {
        None => (3, Seq::empty()),
        Some(n) => if n == seq!['M', 'e', 't', 'a', 'd', 'a', 't', 'a'] {
            (1, Seq::empty())
        } else if n == seq!['P', 'l', 'a', 'y', 'b', 'a', 'c', 'k', 'S', 't', 'a', 't', 'u', 's'] {
            (2, Seq::empty())
        } else {
            (4, n)
        },
    }
}

impl EventType {
    /// Classifies a property change by its first property's name; none means
    /// the change could not be read.
    pub fn from_property(name: Option<String>) -> (r: EventType)
        ensures
            type_key(r) == type_of_property(match name {
                Some(n) => Some(n@),
                None => None,
            }),
    {
        let metadata = String::from_str("Metadata");
        let playback = String::from_str("PlaybackStatus");
        proof {
            reveal_strlit("Metadata");
            reveal_strlit("PlaybackStatus");
            assert(metadata@ =~= seq!['M', 'e', 't', 'a', 'd', 'a', 't', 'a']);
            assert(playback@ =~= seq!['P', 'l', 'a', 'y', 'b', 'a', 'c', 'k', 'S', 't', 'a', 't', 'u', 's']);
        }
        match name {
            None => EventType::ParseError,
            Some(n) => if n == metadata {
                EventType::PlayerSongChanged
            } else if n == playback {
                EventType::PlaybackChanged
            } else {
                EventType::Unknown(n)
            },
        }
    }
}

impl PartialEq for EventType {
    fn eq(&self, other: &EventType) -> (r: bool) {
        self.same_as(other)
    }
}

impl vstd::std_specs::cmp::PartialEqSpecImpl for EventType {
    open spec fn obeys_eq_spec() -> bool {
        true
    }

    open spec fn eq_spec(&self, other: &EventType) -> bool {
        same_type(*self, *other)
    }
}

/// A request to the bus.
pub enum EventBusMessage {
    Publish { event_type: EventType, data: Vec<u8> },
    Subscribe { event_type: EventType },
}

/// A subscription: its type and the payloads delivered to it, not yet taken.
pub struct Subscriber {
    pub event_type: EventType,
    pub pending: Vec<Vec<u8>>,
}

/// A subscription as seen in contracts: its type and its pending payloads.
pub type SubscriberView = (EventType, Seq<Seq<u8>>);

/// The table after `data` is published under `t`: every subscription of that
/// type receives it at the end of its queue.
pub open spec fn deliver(subs: Seq<SubscriberView>, t: EventType, data: Seq<u8>) -> Seq<
    SubscriberView,
> {
    Seq::new(
        subs.len(),
        |i: int|
            if same_type(subs[i].0, t) {
                (subs[i].0, subs[i].1.push(data))
            } else {
                subs[i]
            },
    )
}

/// The table after each of `events` is published in turn.
pub open spec fn deliver_all(subs: Seq<SubscriberView>, events: Seq<(EventType, Seq<u8>)>) -> Seq<
    SubscriberView,
>
    decreases events.len(),
{
    if events.len() == 0 {
        subs
    } else {
        let last = events.last();
        deliver(deliver_all(subs, events.drop_last()), last.0, last.1)
    }
}

/// The payloads among `events` that a subscription to `t` receives, in order.
pub open spec fn observed(events: Seq<(EventType, Seq<u8>)>, t: EventType) -> Seq<Seq<u8>>
    decreases events.len(),
{
    if events.len() == 0 {
        Seq::empty()
    } else {
        let prev = observed(events.drop_last(), t);
        if same_type(events.last().0, t) {
            prev.push(events.last().1)
        } else {
            prev
        }
    }
}

/// Routes published payloads to the subscriptions of their type, in publish order.
pub struct EventBus {
    senders: Vec<Subscriber>,
}

fn copy_bytes(v: &Vec<u8>) -> (r: Vec<u8>)
    ensures
        r@ == v@,
{
    let mut out: Vec<u8> = Vec::new();
    let mut i: usize = 0;
    while i < v.len()
        invariant
            i <= v@.len(),
            out@ == v@.take(i as int),
        decreases v@.len() - i,
    {
        out.push(v[i]);
        assert(out@ =~= v@.take(i + 1));
        i = i + 1;
    }
    assert(out@ =~= v@);
    out
}

impl EventBus {
    pub closed spec fn view(&self) -> Seq<SubscriberView> {
        self.senders@.map_values(|s: Subscriber| (s.event_type, s.pending@.map_values(|p: Vec<u8>| p@)))
    }

    pub fn new() -> (r: Self)
        ensures
            r@.len() == 0,
    {
        Self { senders: Vec::new() }
    }

    /// Number of subscriptions.
    pub fn len(&self) -> (r: usize)
        ensures
            r == self@.len(),
    {
        self.senders.len()
    }

    /// Adds a subscription to `event_type`; it receives only what is published
    /// from now on. Returns its number.
    pub fn subscribe(&mut self, event_type: EventType) -> (r: usize)
        ensures
            final(self)@ == old(self)@.push((event_type, Seq::<Seq<u8>>::empty())),
            r == old(self)@.len(),
    {
        let r = self.senders.len();
        self.senders.push(Subscriber { event_type, pending: Vec::new() });
        proof {
            assert(self.senders@[r as int].pending@.map_values(|p: Vec<u8>| p@) =~= Seq::<
                Seq<u8>,
            >::empty());
            assert(self@ =~= old(self)@.push((event_type, Seq::<Seq<u8>>::empty())));
        }
        r
    }

    /// Delivers `data` to every subscription of `event_type`. Returns whether
    /// there was any.
    pub fn publish(&mut self, event_type: EventType, data: Vec<u8>) -> (r: bool)
        ensures
            final(self)@ == deliver(old(self)@, event_type, data@),
            r == exists|i: int| 0 <= i < old(self)@.len() && same_type(old(self)@[i].0, event_type),
    {
        let mut any = false;
        let mut i: usize = 0;
        while i < self.senders.len()
            invariant
                self@.len() == old(self)@.len(),
                i <= self@.len(),
                forall|j: int| 0 <= j < i ==> #[trigger] self@[j] == deliver(old(self)@, event_type, data@)[j],
                forall|j: int| i <= j < self@.len() ==> #[trigger] self@[j] == old(self)@[j],
                any == exists|j: int| 0 <= j < i && same_type(old(self)@[j].0, event_type),
            decreases self@.len() - i,
        {
            assert(self@[i as int] == old(self)@[i as int]);
            if self.senders[i].event_type.same_as(&event_type) {
                assert(same_type(old(self)@[i as int].0, event_type));
                let copy = copy_bytes(&data);
                let ghost before = self@;
                let mut sub = self.senders.remove(i);
                sub.pending.push(copy);
                self.senders.insert(i, sub);
                proof {
                    assert(sub.pending@.map_values(|p: Vec<u8>| p@) =~= before[i as int].1.push(data@));
                    assert(self@ =~= before.update(i as int, (sub.event_type, before[i as int].1.push(data@))));
                }
                any = true;
            }
            assert(any == exists|j: int| 0 <= j < i + 1 && same_type(old(self)@[j].0, event_type)) by {
                if any && !(exists|j: int| 0 <= j < i && same_type(old(self)@[j].0, event_type)) {
                    assert(same_type(old(self)@[i as int].0, event_type));
                }
            }
            i = i + 1;
        }
        assert(self@ =~= deliver(old(self)@, event_type, data@));
        any
    }

    /// Takes the oldest payload delivered to subscription `id`, if any.
    pub fn receive(&mut self, id: usize) -> (r: Option<Vec<u8>>)
        requires
            id < old(self)@.len(),
        ensures
            old(self)@[id as int].1.len() == 0 ==> r is None && final(self)@ == old(self)@,
            old(self)@[id as int].1.len() > 0 ==> (r matches Some(p) && p@ == old(self)@[id as int].1[0]),
            old(self)@[id as int].1.len() > 0 ==> final(self)@ == old(self)@.update(
                id as int,
                (old(self)@[id as int].0, old(self)@[id as int].1.drop_first()),
            ),
    {
        if self.senders[id].pending.len() == 0 {
            return None;
        }
        let ghost before = self@;
        let mut sub = self.senders.remove(id);
        let p = sub.pending.remove(0);
        self.senders.insert(id, sub);
        proof {
            assert(sub.pending@.map_values(|p: Vec<u8>| p@) =~= before[id as int].1.drop_first());
            assert(self@ =~= before.update(id as int, (before[id as int].0, before[id as int].1.drop_first())));
        }
        Some(p)
    }

    /// Handles one request: a publish, or a subscribe, whose number it returns.
    pub fn run(&mut self, msg: EventBusMessage) -> (r: Option<usize>)
        ensures
            match msg {
                EventBusMessage::Publish { event_type, data } => {
                    &&& final(self)@ == deliver(old(self)@, event_type, data@)
                    &&& r is None
                },
                EventBusMessage::Subscribe { event_type } => {
                    &&& final(self)@ == old(self)@.push((event_type, Seq::<Seq<u8>>::empty()))
                    &&& r == Some(old(self)@.len() as usize)
                },
            },
    {
        match msg {
            EventBusMessage::Publish { event_type, data } => {
                self.publish(event_type, data);
                None
            },
            EventBusMessage::Subscribe { event_type } => Some(self.subscribe(event_type)),
        }
    }
}

/// Publishing a sequence of events leaves the table's length and types as
/// they were, and appends to each subscription exactly the payloads of its
/// type, in publish order.
pub proof fn lemma_deliver_all(subs: Seq<SubscriberView>, events: Seq<(EventType, Seq<u8>)>, i: int)
    requires
        0 <= i < subs.len(),
    ensures
        deliver_all(subs, events).len() == subs.len(),
        deliver_all(subs, events)[i].0 == subs[i].0,
        deliver_all(subs, events)[i].1 == subs[i].1 + observed(events, subs[i].0),
    decreases events.len(),
{
    if events.len() == 0 {
        assert(subs[i].1 + Seq::<Seq<u8>>::empty() =~= subs[i].1);
    } else {
        lemma_deliver_all(subs, events.drop_last(), i);
        let prev = deliver_all(subs, events.drop_last());
        let last = events.last();
        if same_type(prev[i].0, last.0) {
            assert(subs[i].1 + observed(events, subs[i].0) =~= (subs[i].1 + observed(
                events.drop_last(),
                subs[i].0,
            )).push(last.1));
        }
    }
}

/// Two subscription types that are the same observe the same payloads.
pub proof fn lemma_observed_same_type(events: Seq<(EventType, Seq<u8>)>, a: EventType, b: EventType)
    requires
        same_type(a, b),
    ensures
        observed(events, a) == observed(events, b),
    decreases events.len(),
{
    if events.len() > 0 {
        lemma_observed_same_type(events.drop_last(), a, b);
    }
}

/// A subscription to `t` made after the events `before` observes none of them,
/// and observes every event of its type published after it, in order.
pub proof fn subscriber_sees_exactly_later_publishes(
    subs: Seq<SubscriberView>,
    before: Seq<(EventType, Seq<u8>)>,
    t: EventType,
    after: Seq<(EventType, Seq<u8>)>,
)
    ensures
        ({
            let table = deliver_all(subs, before).push((t, Seq::<Seq<u8>>::empty()));
            let id = deliver_all(subs, before).len() as int;
            &&& deliver_all(table, after)[id].0 == t
            &&& deliver_all(table, after)[id].1 == observed(after, t)
        }),
{
    let table = deliver_all(subs, before).push((t, Seq::<Seq<u8>>::empty()));
    let id = deliver_all(subs, before).len() as int;
    lemma_deliver_all(table, after, id);
    assert(Seq::<Seq<u8>>::empty() + observed(after, t) =~= observed(after, t));
}

/// Subscriptions to the same type that hold the same pending payloads keep
/// holding the same payloads, whatever is published.
pub proof fn subscribers_of_one_type_agree(
    subs: Seq<SubscriberView>,
    events: Seq<(EventType, Seq<u8>)>,
    i: int,
    j: int,
)
    requires
        0 <= i < subs.len(),
        0 <= j < subs.len(),
        same_type(subs[i].0, subs[j].0),
        subs[i].1 == subs[j].1,
    ensures
        deliver_all(subs, events)[i].1 == deliver_all(subs, events)[j].1,
{
    lemma_deliver_all(subs, events, i);
    lemma_deliver_all(subs, events, j);
    lemma_observed_same_type(events, subs[i].0, subs[j].0);
}

/// Any number of subscriptions to one type that hold the same pending
/// payloads (none, when they were all made before the events) each observe
/// every payload published under that type, in publish order: they all end
/// with the same queue.
pub proof fn all_subscribers_of_one_type_agree(
    subs: Seq<SubscriberView>,
    events: Seq<(EventType, Seq<u8>)>,
    t: EventType,
    pending: Seq<Seq<u8>>,
)
    requires
        forall|i: int| 0 <= i < subs.len() && same_type(#[trigger] subs[i].0, t) ==> subs[i].1 == pending,
    ensures
        forall|i: int|
            0 <= i < subs.len() && same_type(#[trigger] subs[i].0, t) ==> deliver_all(subs, events)[i].1
                == pending + observed(events, t),
{
    assert forall|i: int| 0 <= i < subs.len() && same_type(#[trigger] subs[i].0, t) implies deliver_all(
        subs,
        events,
    )[i].1 == pending + observed(events, t) by {
        lemma_deliver_all(subs, events, i);
        lemma_observed_same_type(events, subs[i].0, t);
    }
}

} // verus!
