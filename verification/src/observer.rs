//! An event publisher: listeners subscribe to a kind of event and are
//! called, in the order in which they subscribed, whenever it is published.

use std::collections::HashMap;
use vstd::pervasive::unreached;
use vstd::prelude::*;
use vstd::std_specs::cmp::PartialEqSpec;

verus! {

/// The kinds of event that an editor publishes.
#[derive(PartialEq, Eq, Hash, Clone)]
pub enum Event {
    Load,
    Save,
}

/// The key under which an event's listeners are stored.
pub open spec fn slot_of(event: Event) -> u64 {
    match event {
        Event::Load => 0,
        Event::Save => 1,
    }
}

fn slot(event: &Event) -> (k: u64)
    ensures
        k == slot_of(*event),
{
    match event {
        Event::Load => 0,
        Event::Save => 1,
    }
}

/// What is left of `listeners` once every entry equal to `listener` is
/// taken out; the others keep their order.
pub open spec fn without<L: PartialEq>(listeners: Seq<L>, listener: L) -> Seq<L> {
    listeners.filter(|x: L| !x.eq_spec(&listener))
}

/// Keeps, for each event that was ever subscribed to, the listeners to call
/// when it is published. A listener is any callable value that takes the
/// path of the file concerned.
pub struct Publisher<L> {
    events: HashMap<u64, Vec<L>>,
}

impl<L> View for Publisher<L> {
    type V = Map<Event, Seq<L>>;

    /// The listeners of each event that has an entry, in calling order.
    closed spec fn view(&self) -> Map<Event, Seq<L>> {
        Map::new(
            |e: Event| self.events@.contains_key(slot_of(e)),
            |e: Event| self.events@[slot_of(e)]@,
        )
    }
}

impl<L> Default for Publisher<L> {
    /// A publisher without any entry.
    fn default() -> (p: Self)
        ensures
            p@ == Map::<Event, Seq<L>>::empty(),
    {
        let p = Publisher { events: HashMap::new() };
        assert(p@ =~= Map::<Event, Seq<L>>::empty());
        p
    }
}

impl<L: Fn(String) + PartialEq + Copy> Publisher<L> {
    /// The listeners that `notify` calls for `event`: none where the event
    /// has no entry.
    pub open spec fn listeners(&self, event: Event) -> Seq<L> {
        if self@.contains_key(event) {
            self@[event]
        } else {
            Seq::empty()
        }
    }

    /// Whether every listener of `event` may be called with `file_path`.
    pub open spec fn accepts(&self, event: Event, file_path: String) -> bool {
        forall|i: int|
            0 <= i < self.listeners(event).len() ==> call_requires(
                #[trigger] self.listeners(event)[i],
                (file_path,),
            )
    }

    /// Whether every listener of `event` has run on `file_path`.
    pub open spec fn delivered(&self, event: Event, file_path: String) -> bool {
        forall|i: int|
            0 <= i < self.listeners(event).len() ==> call_ensures(
                #[trigger] self.listeners(event)[i],
                (file_path,),
                (),
            )
    }

    /// Adds `listener` behind the listeners that `event_type` already has,
    /// and gives the event an entry if it had none.
    pub fn subscribe(&mut self, event_type: Event, listener: L)
        ensures
            final(self)@ == old(self)@.insert(
                event_type,
                old(self).listeners(event_type).push(listener),
            ),
    {
        let k = slot(&event_type);
        let list = self.events.entry(k).or_insert(Vec::new());
        list.push(listener);
        assert(self@ =~= old(self)@.insert(
            event_type,
            old(self).listeners(event_type).push(listener),
        ));
    }

    /// Takes every entry equal to `listener` out of the listeners of
    /// `event_type`. The event keeps its entry, even where no listener is
    /// left, and must have one: it was subscribed to before.
    pub fn unsubscribe(&mut self, event_type: Event, listener: L)
        requires
            old(self)@.contains_key(event_type),
        ensures
            final(self)@ == old(self)@.insert(event_type, final(self).listeners(event_type)),
            final(self).listeners(event_type).len() <= old(self).listeners(event_type).len(),
            L::obeys_eq_spec() ==> final(self).listeners(event_type) == without(
                old(self).listeners(event_type),
                listener,
            ),
    {
        let k = slot(&event_type);
        let list = match self.events.remove(&k) {
            Some(list) => list,
            None => unreached(),
        };
        let ghost before = list@;
        let mut kept: Vec<L> = Vec::new();
        let mut i: usize = 0;
        while i < list.len()
            invariant
                i <= list.len(),
                list@ == before,
                kept.len() <= i,
                L::obeys_eq_spec() ==> kept@ == without(before.take(i as int), listener),
            decreases list.len() - i,
        {
            let x = list[i];
            proof {
                reveal(Seq::filter);
                assert(before.take(i + 1).drop_last() =~= before.take(i as int));
            }
            if x != listener {
                kept.push(x);
            }
            i = i + 1;
        }
        proof {
            assert(before.take(i as int) =~= before);
        }
        self.events.insert(k, kept);
        assert(self@ =~= old(self)@.insert(event_type, self.listeners(event_type)));
    }

    /// Calls each listener of `event_type` with a copy of `file_path`, in
    /// the order in which they subscribed. The event must have an entry.
    pub fn notify(&self, event_type: Event, file_path: String)
        requires
            self@.contains_key(event_type),
            self.accepts(event_type, file_path),
        ensures
            self.delivered(event_type, file_path),
    {
        let k = slot(&event_type);
        match self.events.get(&k) {
            Some(list) => {
                let mut i: usize = 0;
                while i < list.len()
                    invariant
                        i <= list.len(),
                        list@ == self.listeners(event_type),
                        self.accepts(event_type, file_path),
                        forall|j: int|
                            0 <= j < i ==> call_ensures(#[trigger] list@[j], (file_path,), ()),
                    decreases list.len() - i,
                {
                    let listener = list[i];
                    listener(file_path.clone());
                    i = i + 1;
                }
            },
            None => unreached(),
        }
    }
}

/// A text editor that publishes an event when it loads or saves a file.
pub struct Editor<L> {
    publisher: Publisher<L>,
    file_path: String,
}

impl<L> Editor<L> {
    /// The publisher that holds this editor's listeners.
    pub closed spec fn publisher(&self) -> Publisher<L> {
        self.publisher
    }

    /// The path of the file that was loaded last: empty before the first.
    pub closed spec fn file_path(&self) -> String {
        self.file_path
    }
}

impl<L> Default for Editor<L> {
    /// An editor without listeners and with an empty path.
    fn default() -> (e: Self)
        ensures
            e.publisher()@ == Map::<Event, Seq<L>>::empty(),
            e.file_path()@ == Seq::<char>::empty(),
    {
        Editor { publisher: Publisher::default(), file_path: String::new() }
    }
}

impl<L: Fn(String) + PartialEq + Copy> Editor<L> {
    /// Hands out the publisher, to subscribe and unsubscribe listeners.
    pub fn events(&mut self) -> (p: &mut Publisher<L>)
        ensures
            *p == old(self).publisher(),
            final(self).publisher() == *final(p),
            final(self).file_path() == old(self).file_path(),
    {
        &mut self.publisher
    }

    /// Remembers `path` as the current file and publishes `Event::Load`
    /// with it. The event must have an entry.
    pub fn load(&mut self, path: String)
        requires
            old(self).publisher()@.contains_key(Event::Load),
            old(self).publisher().accepts(Event::Load, path),
        ensures
            final(self).file_path() == path,
            final(self).publisher() == old(self).publisher(),
            final(self).publisher().delivered(Event::Load, path),
    {
        self.file_path = path.clone();
        self.publisher.notify(Event::Load, path);
    }

    /// Publishes `Event::Save` with the current file's path. The event must
    /// have an entry.
    pub fn save(&self)
        requires
            self.publisher()@.contains_key(Event::Save),
            self.publisher().accepts(Event::Save, self.file_path()),
        ensures
            self.publisher().delivered(Event::Save, self.file_path()),
    {
        self.publisher.notify(Event::Save, self.file_path.clone());
    }
}

} // verus!
