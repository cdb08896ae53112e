//! Prototype pattern: a spawner makes monsters by cloning the one it holds.

use vstd::prelude::*;

verus! {

pub trait Monster: Sized {
    spec fn health_of(&self) -> i32;

    spec fn speed_of(&self) -> u32;

    /// The monster of this kind that a spawner without a prototype makes.
    spec fn fresh() -> Self;

    fn health(&self) -> (health: i32)
        ensures
            health == self.health_of(),
    ;

    fn speed(&self) -> (speed: u32)
        ensures
            speed == self.speed_of(),
    ;

    /// Clone itself with all the members values.
    fn clone(&self) -> (copy: Self)
        ensures
            copy == *self,
    ;

    /// Used in template style spawner.
    /// This one creates new Monster with defaults specified in that method.
    fn clone_new() -> (monster: Self)
        ensures
            monster == Self::fresh(),
    ;
}

#[derive(Debug)]
pub struct Spectre {
    health: i32,
    speed: u32,
}

impl Spectre {
    pub fn new(health: i32, speed: u32) -> (spectre: Spectre)
        ensures
            spectre.health_of() == health,
            spectre.speed_of() == speed,
    {
        Spectre { health, speed }
    }

    /// The spectre that a spawner without a prototype makes has health 8 and
    /// speed 2.
    pub proof fn lemma_fresh()
        ensures
            Self::fresh().health_of() == 8,
            Self::fresh().speed_of() == 2,
    {
    }

    /// A spectre is no more than its health and its speed.
    pub proof fn lemma_same(a: Spectre, b: Spectre)
        requires
            a.health_of() == b.health_of(),
            a.speed_of() == b.speed_of(),
        ensures
            a == b,
    {
    }
}

impl Monster for Spectre {
    closed spec fn health_of(&self) -> i32 {
        self.health
    }

    closed spec fn speed_of(&self) -> u32 {
        self.speed
    }

    closed spec fn fresh() -> Spectre {
        Spectre { speed: 2, health: 8 }
    }

    fn health(&self) -> i32 {
        self.health
    }

    fn speed(&self) -> u32 {
        self.speed
    }

    fn clone(&self) -> Spectre {
        Spectre { speed: self.speed, health: self.health }
    }

    fn clone_new() -> (monster: Spectre)
        ensures
            monster.health_of() == 8,
            monster.speed_of() == 2,
    {
        Spectre { speed: 2, health: 8 }
    }
}

pub struct Spawner<T: Monster> {
    prototype: T,
}

impl<T: Monster> Spawner<T> {
    /// The monster that this spawner clones.
    pub closed spec fn prototype_of(&self) -> T {
        self.prototype
    }

    pub fn new(prototype: T) -> (spawner: Spawner<T>)
        ensures
            spawner.prototype_of() == prototype,
    {
        Spawner { prototype }
    }

    pub fn spawn(&self) -> (monster: T)
        ensures
            monster == self.prototype_of(),
    {
        self.prototype.clone()
    }
}

/// Second style of spawner: the kind of monster is a type parameter.
pub struct SpawnerT;

impl SpawnerT {
    pub fn spawn<T: Monster>() -> (monster: T)
        ensures
            monster == T::fresh(),
    {
        T::clone_new()
    }
}

} // verus!
