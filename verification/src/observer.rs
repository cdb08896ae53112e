//! Observer pattern: physics tells whoever listens that an entity fell, and the
//! achievements listen.
//!
//! A subject owns its observers. An observer is found again by its id, which is
//! what removing one goes by.

use vstd::prelude::*;

pub mod borrowed;

verus! {

/// Types of events that can be sent by observer subjects.
#[derive(Debug, Clone, Copy, PartialEq, Eq, Structural)]
pub enum Event {
    EntityFell,
}

/// Types of achievements that can be unlocked.
#[derive(Debug, Clone, Copy, PartialEq, Eq, Structural)]
pub enum Achievement {
    FellOfTheBridge,
}

/// Base trait of Entity in our theoretical game.
pub trait Entity {
    spec fn hero(&self) -> bool;

    fn is_hero(&self) -> (hero: bool)
        ensures
            hero == self.hero(),
    ;
}

/// Our Hero that will fall of the bridge.
#[derive(Debug)]
pub struct Hero;

impl Hero {
    pub fn new() -> Hero {
        Hero
    }
}

impl Default for Hero {
    fn default() -> Hero {
        Hero
    }
}

impl Entity for Hero {
    open spec fn hero(&self) -> bool {
        true
    }

    fn is_hero(&self) -> bool {
        true
    }
}

/// The achievements of a game, which an [`AchievementObserver`] keeps up to
/// date.
#[derive(Debug)]
pub struct Achievements {
    pub hero_fallen: bool,
}

impl Achievements {
    pub fn new() -> (achievements: Achievements)
        ensures
            !achievements.hero_fallen,
    {
        Achievements { hero_fallen: false }
    }

    /// Unlocks `achievement`, for good. Tells whether it was locked before.
    pub fn unlock(&mut self, achievement: Achievement) -> (fresh: bool)
        ensures
            final(self).hero_fallen,
            fresh == !old(self).hero_fallen,
    {
        match achievement {
            Achievement::FellOfTheBridge => {
                if !self.hero_fallen {
                    self.hero_fallen = true;
                    true
                } else {
                    false
                }
            },
        }
    }
}

impl Default for Achievements {
    fn default() -> (achievements: Achievements)
        ensures
            !achievements.hero_fallen,
    {
        Achievements { hero_fallen: false }
    }
}

/// Trait that defines objects which are interested in listening for events.
pub trait Observer: Sized {
    /// The observer's id.
    spec fn key(&self) -> Seq<char>;

    /// Whether `after` is this observer once it has heard of `event`, which
    /// befell a hero or another entity.
    spec fn heard(&self, hero: bool, event: Event, after: &Self) -> bool;

    fn on_notify<E: Entity>(&mut self, entity: &E, event: Event)
        ensures
            old(self).heard(entity.hero(), event, final(self)),
            final(self).key() == old(self).key(),
    ;

    /// Id string used to compare with other observers. Mainly for deleting that
    /// observer.
    fn id(&self) -> (id: &String)
        ensures
            id@ == self.key(),
    ;
}

pub struct AchievementObserver {
    // Unlocked Achievements
    unlocked: Vec<Achievement>,
    achievements: Achievements,
    id: String,
}

impl AchievementObserver {
    /// What this observer has unlocked, in the order in which it did.
    pub closed spec fn unlocked_view(&self) -> Seq<Achievement> {
        self.unlocked@
    }

    /// The achievements that this observer keeps.
    pub closed spec fn kept(&self) -> Achievements {
        self.achievements
    }

    pub fn new(achievements: Achievements) -> (observer: AchievementObserver)
        ensures
            observer.unlocked_view() == Seq::<Achievement>::empty(),
            observer.kept() == achievements,
            observer.key() == "AchievmentObserver"@,
    {
        AchievementObserver {
            unlocked: Vec::new(),
            achievements,
            id: "AchievmentObserver".to_owned(),
        }
    }

    pub fn is_unlocked(&self, achievement: Achievement) -> (unlocked: bool)
        ensures
            unlocked == self.unlocked_view().contains(achievement),
    {
        for i in 0..self.unlocked.len()
            invariant
                forall|j: int| 0 <= j < i ==> self.unlocked@[j] != achievement,
        {
            if self.unlocked[i] == achievement {
                return true;
            }
        }
        false
    }

    /// The achievements that this observer keeps.
    pub fn achievements(&self) -> (achievements: &Achievements)
        ensures
            *achievements == self.kept(),
    {
        &self.achievements
    }
}

impl Observer for AchievementObserver {
    closed spec fn key(&self) -> Seq<char> {
        self.id@
    }

    /// The fall of a hero unlocks `FellOfTheBridge`, once. Nothing else changes
    /// the observer.
    open spec fn heard(&self, hero: bool, event: Event, after: &Self) -> bool {
        let fresh = hero && !self.unlocked_view().contains(Achievement::FellOfTheBridge);
        &&& after.unlocked_view() == if fresh {
            self.unlocked_view().push(Achievement::FellOfTheBridge)
        } else {
            self.unlocked_view()
        }
        &&& after.kept().hero_fallen == (fresh || self.kept().hero_fallen)
    }

    fn on_notify<E: Entity>(&mut self, entity: &E, event: Event) {
        match event {
            Event::EntityFell => {
                if entity.is_hero() && !self.is_unlocked(Achievement::FellOfTheBridge) {
                    self.unlocked.push(Achievement::FellOfTheBridge);
                    self.achievements.unlock(Achievement::FellOfTheBridge);
                }
            },
        }
    }

    fn id(&self) -> &String {
        &self.id
    }
}

/// The observers that are left when those with the id `key` are taken out one
/// by one, from the front: each is looked up by the place that it had before
/// any was taken out, so every removal moves the later ones one place down.
/// `keys` holds the ids in their places at the start, `live` what is left so
/// far, and `i` the place looked at next.
pub open spec fn after_removals<O>(keys: Seq<Seq<char>>, live: Seq<O>, key: Seq<char>, i: int) -> Seq<
    O,
>
    decreases keys.len() - i,
{
    if i < 0 || i >= keys.len() {
        live
    } else if keys[i] == key && i < live.len() {
        after_removals(keys, live.remove(i), key, i + 1)
    } else {
        after_removals(keys, live, key, i + 1)
    }
}

/// Whether every place looked at from `i` on that holds the id `key` is still
/// within what is left when its turn comes.
pub open spec fn removals_in_range<O>(
    keys: Seq<Seq<char>>,
    live: Seq<O>,
    key: Seq<char>,
    i: int,
) -> bool
    decreases keys.len() - i,
{
    if i < 0 || i >= keys.len() {
        true
    } else if keys[i] == key {
        i < live.len() && removals_in_range(keys, live.remove(i), key, i + 1)
    } else {
        removals_in_range(keys, live, key, i + 1)
    }
}

/// The ids of `observers`, place by place.
pub open spec fn keys_of<O: Observer>(observers: Seq<O>) -> Seq<Seq<char>> {
    Seq::new(observers.len(), |i: int| observers[i].key())
}

/// Where no place from `i` on holds the id `key`, nothing is taken out.
pub proof fn lemma_no_removal<O>(keys: Seq<Seq<char>>, live: Seq<O>, key: Seq<char>, i: int)
    requires
        forall|j: int| i <= j < keys.len() && 0 <= j ==> keys[j] != key,
    ensures
        removals_in_range(keys, live, key, i),
        after_removals(keys, live, key, i) == live,
    decreases keys.len() - i,
{
    if 0 <= i < keys.len() {
        lemma_no_removal(keys, live, key, i + 1);
    }
}

/// Where exactly one place from `i` on holds the id `key`, the observer in that
/// place is taken out and no other.
pub proof fn lemma_one_removal<O>(
    keys: Seq<Seq<char>>,
    live: Seq<O>,
    key: Seq<char>,
    i: int,
    place: int,
)
    requires
        0 <= i <= place < keys.len(),
        place < live.len(),
        keys[place] == key,
        forall|j: int| i <= j < keys.len() && j != place ==> keys[j] != key,
    ensures
        removals_in_range(keys, live, key, i),
        after_removals(keys, live, key, i) == live.remove(place),
    decreases place - i,
{
    if i == place {
        lemma_no_removal(keys, live.remove(place), key, place + 1);
    } else {
        lemma_one_removal(keys, live, key, i + 1, place);
    }
}

/// An observer whose id no other observer shares can be removed, and removing
/// it takes out that observer alone.
pub proof fn lemma_remove_by_unique_id<O: Observer>(observers: Seq<O>, place: int)
    requires
        0 <= place < observers.len(),
        forall|j: int|
            0 <= j < observers.len() && j != place ==> observers[j].key()
                != observers[place].key(),
    ensures
        removals_in_range(keys_of(observers), observers, observers[place].key(), 0),
        after_removals(keys_of(observers), observers, observers[place].key(), 0)
            == observers.remove(place),
{
    lemma_one_removal(keys_of(observers), observers, observers[place].key(), 0, place);
}

/// Removing by an id that no observer has is always possible and changes
/// nothing.
pub proof fn lemma_remove_by_unknown_id<O: Observer>(observers: Seq<O>, key: Seq<char>)
    requires
        forall|j: int| 0 <= j < observers.len() ==> observers[j].key() != key,
    ensures
        removals_in_range(keys_of(observers), observers, key, 0),
        after_removals(keys_of(observers), observers, key, 0) == observers,
{
    lemma_no_removal(keys_of(observers), observers, key, 0);
}

/// Subject trait defines objects that can be observed. It holds a list of
/// observers and sends notifications to them.
pub trait Subject<O: Observer> {
    /// The observers, in the order in which they were added.
    spec fn listeners(&self) -> Seq<O>;

    fn add_observer(&mut self, observer: O)
        ensures
            final(self).listeners() == old(self).listeners().push(observer),
    ;

    /// Takes out the observers that share the id of `observer`.
    fn remove_observer(&mut self, observer: &O)
        requires
            removals_in_range(
                keys_of(old(self).listeners()),
                old(self).listeners(),
                observer.key(),
                0,
            ),
        ensures
            final(self).listeners() == after_removals(
                keys_of(old(self).listeners()),
                old(self).listeners(),
                observer.key(),
                0,
            ),
    ;

    /// Tells every observer of `event`, in order.
    fn notify<E: Entity>(&mut self, entity: &E, event: Event)
        ensures
            final(self).listeners().len() == old(self).listeners().len(),
            forall|i: int|
                0 <= i < old(self).listeners().len() ==> (#[trigger] old(self).listeners()[i]).heard(
                    entity.hero(),
                    event,
                    &final(self).listeners()[i],
                ),
    ;
}

/// We'll make Physics hold Subjects that can be observed instead of being a
/// subject.
pub struct EntityFallSubject<O: Observer> {
    pub observers: Vec<O>,
}

impl<O: Observer> EntityFallSubject<O> {
    pub fn new() -> (subject: EntityFallSubject<O>)
        ensures
            subject.observers@ == Seq::<O>::empty(),
    {
        EntityFallSubject { observers: Vec::new() }
    }
}

impl<O: Observer> Default for EntityFallSubject<O> {
    fn default() -> (subject: EntityFallSubject<O>)
        ensures
            subject.observers@ == Seq::<O>::empty(),
    {
        EntityFallSubject { observers: Vec::new() }
    }
}

impl<O: Observer> Subject<O> for EntityFallSubject<O> {
    open spec fn listeners(&self) -> Seq<O> {
        self.observers@
    }

    fn add_observer(&mut self, observer: O) {
        self.observers.push(observer);
    }

    fn remove_observer(&mut self, observer: &O) {
        let count = self.observers.len();
        let ghost keys = keys_of(self.observers@);
        let mut ids: Vec<String> = Vec::with_capacity(count);
        for i in 0..count
            invariant
                count == self.observers@.len(),
                ids@.len() == i,
                forall|j: int| 0 <= j < i ==> (#[trigger] ids@[j])@ == self.observers@[j].key(),
        {
            ids.push(self.observers[i].id().clone());
        }
        let id = observer.id();
        for i in 0..count
            invariant
                count == ids@.len(),
                keys.len() == count,
                id@ == observer.key(),
                forall|j: int| 0 <= j < count ==> (#[trigger] ids@[j])@ == keys[j],
                removals_in_range(keys, self.observers@, observer.key(), i as int),
                after_removals(keys, self.observers@, observer.key(), i as int) == after_removals(
                    keys,
                    old(self).observers@,
                    observer.key(),
                    0,
                ),
        {
            if ids[i] == *id {
                self.observers.remove(i);
            }
        }
    }

    fn notify<E: Entity>(&mut self, entity: &E, event: Event) {
        let count = self.observers.len();
        for i in 0..count
            invariant
                count == self.observers@.len(),
                count == old(self).observers@.len(),
                forall|j: int|
                    0 <= j < i ==> (#[trigger] old(self).observers@[j]).heard(
                        entity.hero(),
                        event,
                        &self.observers@[j],
                    ),
                forall|j: int| i <= j < count ==> self.observers@[j] == old(self).observers@[j],
        {
            self.observers[i].on_notify(entity, event);
        }
    }
}

/// Physics will hold subjects which we can observe and make our hero fall.
pub struct Physics<O: Observer> {
    fall_event: EntityFallSubject<O>,
}

impl<O: Observer> Physics<O> {
    /// The subject that tells of falls.
    pub closed spec fn falls(&self) -> EntityFallSubject<O> {
        self.fall_event
    }

    pub fn new() -> (physics: Physics<O>)
        ensures
            physics.falls().observers@ == Seq::<O>::empty(),
    {
        let fall_event = EntityFallSubject::new();
        Physics { fall_event }
    }

    /// Moves `entity`, which falls off the bridge: every observer of falls
    /// hears of it.
    pub fn update_entity<E: Entity>(&mut self, entity: &E)
        ensures
            final(self).falls().observers@.len() == old(self).falls().observers@.len(),
            forall|i: int|
                0 <= i < old(self).falls().observers@.len() ==> (#[trigger] old(
                    self,
                ).falls().observers@[i]).heard(
                    entity.hero(),
                    Event::EntityFell,
                    &final(self).falls().observers@[i],
                ),
    {
        self.fall_event.notify(entity, Event::EntityFell);
    }

    /// The subject that tells of falls, to add observers to or to take them
    /// from.
    pub fn fall_event(&mut self) -> (subject: &mut EntityFallSubject<O>)
        ensures
            *subject == old(self).falls(),
            final(self).falls() == *final(subject),
    {
        &mut self.fall_event
    }
}

impl<O: Observer> Default for Physics<O> {
    fn default() -> (physics: Physics<O>)
        ensures
            physics.falls().observers@ == Seq::<O>::empty(),
    {
        Physics { fall_event: EntityFallSubject::new() }
    }
}

} // verus!
