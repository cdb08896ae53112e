//! The observer pattern with borrowed observers: the subject holds references
//! and never changes an observer, so an observer answers a notification with
//! what it unlocks.

use vstd::prelude::*;
use vstd::std_specs::cmp::{PartialEqSpec, PartialEqSpecImpl};
use crate::observer::{Achievement, Entity, Event};

verus! {

pub trait Observer {
    /// What the observer unlocks when it hears of `event`, which befell a hero
    /// or another entity.
    spec fn unlocks(&self, hero: bool, event: Event) -> Option<Achievement>;

    fn on_notify<E: Entity>(&self, entity: &E, event: Event) -> (unlocked: Option<Achievement>)
        ensures
            unlocked == self.unlocks(entity.hero(), event),
    ;
}

#[derive(Debug, Clone, Copy)]
pub struct Achievements {
    pub hero_on_bridge: bool,
}

impl PartialEq for Achievements {
    fn eq(&self, other: &Self) -> (equal: bool) {
        self.hero_on_bridge == other.hero_on_bridge
    }
}

impl PartialEqSpecImpl for Achievements {
    open spec fn obeys_eq_spec() -> bool {
        true
    }

    /// Two sets of achievements are equal when they agree on the bridge.
    open spec fn eq_spec(&self, other: &Self) -> bool {
        self.hero_on_bridge == other.hero_on_bridge
    }
}

impl Achievements {
    pub fn new() -> (achievements: Achievements)
        ensures
            achievements.hero_on_bridge,
    {
        Achievements { hero_on_bridge: true }
    }

    /// Unlocks `achievement`: hands it back for whoever announces it.
    pub fn unlock(&self, achievement: Achievement) -> (unlocked: Achievement)
        ensures
            unlocked == achievement,
    {
        match achievement {
            Achievement::FellOfTheBridge => Achievement::FellOfTheBridge,
        }
    }
}

impl Observer for Achievements {
    /// A hero who falls while on the bridge unlocks `FellOfTheBridge`.
    open spec fn unlocks(&self, hero: bool, event: Event) -> Option<Achievement> {
        if hero && self.hero_on_bridge {
            Some(Achievement::FellOfTheBridge)
        } else {
            None
        }
    }

    fn on_notify<E: Entity>(&self, entity: &E, event: Event) -> (unlocked: Option<Achievement>) {
        match event {
            Event::EntityFell => {
                if entity.is_hero() && self.hero_on_bridge {
                    Some(self.unlock(Achievement::FellOfTheBridge))
                } else {
                    None
                }
            },
        }
    }
}

/// What is left of `live` when the observers equal to `gone` are taken out one
/// by one, from the front: each is looked up by the place that it had before
/// any was taken out, so every removal moves the later ones one place down.
/// `all` holds the observers in their places at the start, and `i` is the
/// place looked at next.
pub open spec fn after_removals<'a, T: PartialEq>(
    all: Seq<&'a T>,
    live: Seq<&'a T>,
    gone: &'a T,
    i: int,
) -> Seq<&'a T>
    decreases all.len() - i,
{
    if i < 0 || i >= all.len() {
        live
    } else if all[i].eq_spec(gone) && i < live.len() {
        after_removals(all, live.remove(i), gone, i + 1)
    } else {
        after_removals(all, live, gone, i + 1)
    }
}

/// Whether every place looked at from `i` on that holds an observer equal to
/// `gone` is still within what is left when its turn comes.
pub open spec fn removals_in_range<'a, T: PartialEq>(
    all: Seq<&'a T>,
    live: Seq<&'a T>,
    gone: &'a T,
    i: int,
) -> bool
    decreases all.len() - i,
{
    if i < 0 || i >= all.len() {
        true
    } else if all[i].eq_spec(gone) {
        i < live.len() && removals_in_range(all, live.remove(i), gone, i + 1)
    } else {
        removals_in_range(all, live, gone, i + 1)
    }
}

/// Where no place from `i` on holds an observer equal to `gone`, nothing is
/// taken out.
pub proof fn lemma_no_removal<'a, T: PartialEq>(
    all: Seq<&'a T>,
    live: Seq<&'a T>,
    gone: &'a T,
    i: int,
)
    requires
        forall|j: int| i <= j < all.len() && 0 <= j ==> !all[j].eq_spec(gone),
    ensures
        removals_in_range(all, live, gone, i),
        after_removals(all, live, gone, i) == live,
    decreases all.len() - i,
{
    if 0 <= i < all.len() {
        lemma_no_removal(all, live, gone, i + 1);
    }
}

/// Where exactly one place from `i` on holds an observer equal to `gone`, the
/// observer in that place is taken out and no other.
pub proof fn lemma_one_removal<'a, T: PartialEq>(
    all: Seq<&'a T>,
    live: Seq<&'a T>,
    gone: &'a T,
    i: int,
    place: int,
)
    requires
        0 <= i <= place < all.len(),
        place < live.len(),
        all[place].eq_spec(gone),
        forall|j: int| i <= j < all.len() && j != place ==> !all[j].eq_spec(gone),
    ensures
        removals_in_range(all, live, gone, i),
        after_removals(all, live, gone, i) == live.remove(place),
    decreases place - i,
{
    if i == place {
        lemma_no_removal(all, live.remove(place), gone, place + 1);
    } else {
        lemma_one_removal(all, live, gone, i + 1, place);
    }
}

/// What the observers unlock, one after the other, when they hear of `event`.
pub open spec fn unlocked_by<T: Observer>(observers: Seq<&T>, hero: bool, event: Event) -> Seq<
    Achievement,
>
    decreases observers.len(),
{
    if observers.len() == 0 {
        Seq::empty()
    } else {
        let before = unlocked_by(observers.drop_last(), hero, event);
        match observers.last().unlocks(hero, event) {
            Some(achievement) => before.push(achievement),
            None => before,
        }
    }
}

pub trait Subject<'a, T: Observer + PartialEq> {
    /// The observers, in the order in which they were added.
    spec fn listeners(&self) -> Seq<&'a T>;

    fn add_observer(&mut self, observer: &'a T)
        ensures
            final(self).listeners() == old(self).listeners().push(observer),
    ;

    /// Takes out the observers that are equal to `observer`.
    fn remove_observer(&mut self, observer: &'a T)
        requires
            T::obeys_eq_spec(),
            removals_in_range(old(self).listeners(), old(self).listeners(), observer, 0),
        ensures
            final(self).listeners() == after_removals(
                old(self).listeners(),
                old(self).listeners(),
                observer,
                0,
            ),
    ;

    /// Tells every observer of `event`, in order, and hands back what they
    /// unlocked.
    fn notify<E: Entity>(&self, entity: &E, event: Event) -> (unlocked: Vec<Achievement>)
        ensures
            unlocked@ == unlocked_by(self.listeners(), entity.hero(), event),
    ;
}

pub struct EntityFallSubject<'a, T> {
    pub observers: Vec<&'a T>,
}

impl<'a, T: Observer> EntityFallSubject<'a, T> {
    pub fn new() -> (subject: EntityFallSubject<'a, T>)
        ensures
            subject.observers@ == Seq::<&'a T>::empty(),
    {
        EntityFallSubject { observers: Vec::new() }
    }
}

impl<'a, T: Observer + PartialEq> Subject<'a, T> for EntityFallSubject<'a, T> {
    open spec fn listeners(&self) -> Seq<&'a T> {
        self.observers@
    }

    fn add_observer(&mut self, observer: &'a T) {
        self.observers.push(observer);
    }

    fn remove_observer(&mut self, observer: &'a T) {
        let all = self.observers.clone();
        assert(all@ =~= self.observers@);
        for i in 0..all.len()
            invariant
                T::obeys_eq_spec(),
                all@ == old(self).observers@,
                removals_in_range(all@, self.observers@, observer, i as int),
                after_removals(all@, self.observers@, observer, i as int) == after_removals(
                    all@,
                    old(self).observers@,
                    observer,
                    0,
                ),
        {
            if all[i] == observer {
                self.observers.remove(i);
            }
        }
    }

    fn notify<E: Entity>(&self, entity: &E, event: Event) -> (unlocked: Vec<Achievement>) {
        let mut unlocked: Vec<Achievement> = Vec::new();
        for i in 0..self.observers.len()
            invariant
                unlocked@ == unlocked_by(self.observers@.take(i as int), entity.hero(), event),
        {
            assert(self.observers@.take(i + 1).drop_last() =~= self.observers@.take(i as int));
            if let Some(achievement) = self.observers[i].on_notify(entity, event) {
                unlocked.push(achievement);
            }
        }
        assert(self.observers@.take(self.observers@.len() as int) =~= self.observers@);
        unlocked
    }
}

pub struct Physics<'a, T: Observer> {
    fall_event: EntityFallSubject<'a, T>,
}

impl<'a, T: Observer + PartialEq> Physics<'a, T> {
    /// The subject that tells of falls.
    pub closed spec fn falls(&self) -> EntityFallSubject<'a, T> {
        self.fall_event
    }

    pub fn new() -> (physics: Physics<'a, T>)
        ensures
            physics.falls().observers@ == Seq::<&'a T>::empty(),
    {
        let fall_event = EntityFallSubject::new();
        Physics { fall_event }
    }

    /// Moves `entity`, which falls off the bridge: every observer of falls
    /// hears of it. Hands back what they unlocked.
    pub fn update_entity<E: Entity>(&self, entity: &E) -> (unlocked: Vec<Achievement>)
        ensures
            unlocked@ == unlocked_by(self.falls().observers@, entity.hero(), Event::EntityFell),
    {
        self.fall_event.notify(entity, Event::EntityFell)
    }

    /// The subject that tells of falls, to add observers to or to take them
    /// from.
    pub fn fall_event(&mut self) -> (subject: &mut EntityFallSubject<'a, T>)
        ensures
            *subject == old(self).falls(),
            final(self).falls() == *final(subject),
    {
        &mut self.fall_event
    }
}

} // verus!
