//! Type object pattern: a breed is a value that stands for a kind of monster,
//! and a breed made from a parent takes over what the parent has.

use vstd::prelude::*;

verus! {

pub trait Monster {
    spec fn health_of(&self) -> u32;

    spec fn attack_of(&self) -> Seq<char>;

    fn get_health(&self) -> (health: u32)
        ensures
            health == self.health_of(),
    ;

    fn get_attack(&self) -> (attack: String)
        ensures
            attack@ == self.attack_of(),
    ;

    /// The monster attacks: hands back the line that its attack says.
    fn attack(&self) -> (line: String)
        ensures
            line@ == self.attack_of(),
    {
        self.get_attack()
    }
}

pub struct Breed {
    health: u32,
    attack: String,
}

impl Breed {
    /// Create new breed. When given parent health and attack will be inherited.
    pub fn new(parent: Option<&Breed>, health: u32, attack: String) -> (breed: Breed)
        ensures
            parent matches Some(p) ==> breed.health_of() == p.health_of() && breed.attack_of()
                == p.attack_of(),
            parent is None ==> breed.health_of() == health && breed.attack_of() == attack@,
    {
        if let Some(p) = parent {
            Breed { health: p.get_health(), attack: p.get_attack() }
        } else {
            Breed { health, attack }
        }
    }
}

impl Monster for Breed {
    closed spec fn health_of(&self) -> u32 {
        self.health
    }

    closed spec fn attack_of(&self) -> Seq<char> {
        self.attack@
    }

    fn get_health(&self) -> u32 {
        self.health
    }

    fn get_attack(&self) -> String {
        self.attack.clone()
    }
}

} // verus!
