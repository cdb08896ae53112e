//! Component pattern: an entity is an index, and what it is made of stands in
//! one array per kind of component, with a mask that says which it has.
//!
//! No logic is stored in a component: systems pick the entities whose mask
//! holds what they need. Coordinates are single-precision numbers, held as
//! their IEEE-754 bit patterns; this module stores them and never computes
//! with them.

use vstd::prelude::*;

verus! {

/// The kinds of component, each with its own bit in an entity's mask.
#[derive(Debug, Clone, Copy, PartialEq, Eq, Structural)]
pub enum Component {
    Empty,
    Velocity,
    Displacement,
    Appearance,
}

/// The mask of an entity that nobody uses.
pub const EMPTY: u32 = 0;

pub const VELOCITY: u32 = 2;

pub const DISPLACEMENT: u32 = 4;

pub const APPEARANCE: u32 = 8;

/// How many entities a new world has room for.
pub const ENTITY_COUNT: usize = 100;

/// The pattern of the number 1.
pub const ONE: u32 = 0x3f80_0000;

/// The pattern of the number 2.
pub const TWO: u32 = 0x4000_0000;

/// The pattern of the number 3.
pub const THREE: u32 = 0x4040_0000;

impl Component {
    pub open spec fn bit(self) -> u32 {
        match self {
            Component::Empty => EMPTY,
            Component::Velocity => VELOCITY,
            Component::Displacement => DISPLACEMENT,
            Component::Appearance => APPEARANCE,
        }
    }

    /// The component's bit in a mask.
    pub fn mask(self) -> (mask: u32)
        ensures
            mask == self.bit(),
    {
        match self {
            Component::Empty => EMPTY,
            Component::Velocity => VELOCITY,
            Component::Displacement => DISPLACEMENT,
            Component::Appearance => APPEARANCE,
        }
    }
}

#[derive(Debug, Clone, Copy, PartialEq, Eq, Structural)]
pub struct Velocity {
    pub x: u32,
    pub y: u32,
}

impl Default for Velocity {
    fn default() -> (velocity: Velocity)
        ensures
            velocity == (Velocity { x: 0, y: 0 }),
    {
        Velocity { x: 0, y: 0 }
    }
}

#[derive(Debug, Clone, Copy, PartialEq, Eq, Structural)]
pub struct Displacement {
    pub x: u32,
    pub y: u32,
}

impl Default for Displacement {
    fn default() -> (displacement: Displacement)
        ensures
            displacement == (Displacement { x: 0, y: 0 }),
    {
        Displacement { x: 0, y: 0 }
    }
}

#[derive(Debug)]
pub struct Appearance {
    pub name: String,
}

impl Default for Appearance {
    fn default() -> (appearance: Appearance)
        ensures
            appearance.name@ == Seq::<char>::empty(),
    {
        Appearance { name: String::new() }
    }
}

pub type EntityId = usize;

/// Whether a mask holds every bit of `wanted`.
pub open spec fn holds(mask: u32, wanted: u32) -> bool {
    mask & wanted == wanted
}

/// The entities, in rising order, whose mask holds every bit of `wanted`.
pub open spec fn with_mask(masks: Seq<u32>, wanted: u32) -> Seq<EntityId>
    decreases masks.len(),
{
    if masks.len() == 0 {
        Seq::empty()
    } else {
        let before = with_mask(masks.drop_last(), wanted);
        if holds(masks.last(), wanted) {
            before.push((masks.len() - 1) as usize)
        } else {
            before
        }
    }
}

/// `with_mask` lists exactly the entities whose mask holds `wanted`, each once
/// and in rising order.
pub proof fn lemma_with_mask(masks: Seq<u32>, wanted: u32)
    requires
        masks.len() <= usize::MAX,
    ensures
        forall|k: int|
            0 <= k < with_mask(masks, wanted).len() ==> (#[trigger] with_mask(masks, wanted)[k])
                < masks.len() && holds(masks[with_mask(masks, wanted)[k] as int], wanted),
        forall|k: int, l: int|
            0 <= k < l < with_mask(masks, wanted).len() ==> with_mask(masks, wanted)[k]
                < with_mask(masks, wanted)[l],
        forall|id: int|
            0 <= id < masks.len() && holds(#[trigger] masks[id], wanted) ==> with_mask(
                masks,
                wanted,
            ).contains(id as usize),
    decreases masks.len(),
{
    if masks.len() > 0 {
        let shorter = masks.drop_last();
        let before = with_mask(shorter, wanted);
        let all = with_mask(masks, wanted);
        lemma_with_mask(shorter, wanted);
        assert forall|id: int| 0 <= id < masks.len() && holds(#[trigger] masks[id], wanted) implies all.contains(
            id as usize,
        ) by {
            if id < masks.len() - 1 {
                assert(holds(shorter[id], wanted));
                let k = choose|k: int| 0 <= k < before.len() && before[k] == id as usize;
                assert(all[k] == id as usize);
            } else {
                assert(all[all.len() - 1] == id as usize);
            }
        }
    }
}

/// Whether some entity is not in use.
pub open spec fn has_empty(masks: Seq<u32>) -> bool {
    exists|id: int| 0 <= id < masks.len() && #[trigger] masks[id] == EMPTY
}

/// Whether `id` is the first entity that is not in use.
pub open spec fn is_first_empty(masks: Seq<u32>, id: int) -> bool {
    &&& 0 <= id < masks.len()
    &&& masks[id] == EMPTY
    &&& forall|j: int| 0 <= j < id ==> #[trigger] masks[j] != EMPTY
}

pub struct World {
    pub masks: Vec<u32>,
    pub displacements: Vec<Displacement>,
    pub velocitys: Vec<Velocity>,
    pub appearances: Vec<Appearance>,
    pub entity_count: usize,
}

impl World {
    /// Every entity has a place in each of the four arrays.
    pub open spec fn wf(&self) -> bool {
        &&& self.masks@.len() == self.entity_count
        &&& self.displacements@.len() == self.entity_count
        &&& self.velocitys@.len() == self.entity_count
        &&& self.appearances@.len() == self.entity_count
    }

    /// Whether this world is `before` but for the entity `id`.
    pub open spec fn same_but(&self, before: &World, id: int) -> bool {
        &&& self.entity_count == before.entity_count
        &&& forall|j: int|
            0 <= j < before.entity_count && j != id ==> {
                &&& #[trigger] self.masks@[j] == before.masks@[j]
                &&& self.displacements@[j] == before.displacements@[j]
                &&& self.velocitys@[j] == before.velocitys@[j]
                &&& self.appearances@[j] == before.appearances@[j]
            }
    }

    /// A world with room for `ENTITY_COUNT` entities, none of them in use.
    pub fn new() -> (world: World)
        ensures
            world.wf(),
            world.entity_count == ENTITY_COUNT,
            forall|id: int|
                0 <= id < ENTITY_COUNT ==> {
                    &&& #[trigger] world.masks@[id] == EMPTY
                    &&& world.displacements@[id] == (Displacement { x: 0, y: 0 })
                    &&& world.velocitys@[id] == (Velocity { x: 0, y: 0 })
                    &&& world.appearances@[id].name@ == Seq::<char>::empty()
                },
    {
        let entity_count: usize = ENTITY_COUNT;
        let mut masks: Vec<u32> = Vec::with_capacity(entity_count);
        let mut displacements: Vec<Displacement> = Vec::with_capacity(entity_count);
        let mut velocitys: Vec<Velocity> = Vec::with_capacity(entity_count);
        let mut appearances: Vec<Appearance> = Vec::with_capacity(entity_count);
        for i in 0..entity_count
            invariant
                masks@.len() == i,
                displacements@.len() == i,
                velocitys@.len() == i,
                appearances@.len() == i,
                forall|id: int|
                    0 <= id < i ==> {
                        &&& #[trigger] masks@[id] == EMPTY
                        &&& displacements@[id] == (Displacement { x: 0, y: 0 })
                        &&& velocitys@[id] == (Velocity { x: 0, y: 0 })
                        &&& appearances@[id].name@ == Seq::<char>::empty()
                    },
        {
            masks.push(EMPTY);
            displacements.push(Displacement::default());
            velocitys.push(Velocity::default());
            appearances.push(Appearance::default());
        }
        World { masks, entity_count, displacements, velocitys, appearances }
    }

    /// The first entity that nobody uses, if there is one.
    pub fn create_entity(&self) -> (found: Option<EntityId>)
        ensures
            match found {
                Some(id) => is_first_empty(self.masks@, id as int),
                None => !has_empty(self.masks@),
            },
    {
        for id in 0..self.masks.len()
            invariant
                forall|j: int| 0 <= j < id ==> #[trigger] self.masks@[j] != EMPTY,
        {
            if self.masks[id] == EMPTY {
                return Some(id);
            }
        }
        None
    }

    /// Gives the entity `id` back: nobody uses it any more.
    pub fn destroy_entity(&mut self, id: usize)
        requires
            id < old(self).masks@.len(),
        ensures
            final(self).masks@ == old(self).masks@.update(id as int, EMPTY),
            final(self).displacements == old(self).displacements,
            final(self).velocitys == old(self).velocitys,
            final(self).appearances == old(self).appearances,
            final(self).entity_count == old(self).entity_count,
    {
        self.masks[id] = EMPTY;
    }

    /// Makes a tree at (`x`, `y`): an entity that has a place and a look.
    pub fn create_tree(&mut self, x: u32, y: u32) -> (id: EntityId)
        requires
            old(self).wf(),
            has_empty(old(self).masks@),
        ensures
            final(self).wf(),
            is_first_empty(old(self).masks@, id as int),
            final(self).same_but(old(self), id as int),
            final(self).masks@[id as int] == DISPLACEMENT | APPEARANCE,
            final(self).masks@[id as int] != EMPTY,
            final(self).displacements@[id as int] == (Displacement { x, y }),
            final(self).velocitys@[id as int] == old(self).velocitys@[id as int],
            final(self).appearances@[id as int].name@ == "Tree"@,
    {
        let id = self.create_entity().unwrap();
        assert(DISPLACEMENT | APPEARANCE != EMPTY) by (bit_vector);
        self.masks[id] = DISPLACEMENT | APPEARANCE;
        self.displacements[id] = Displacement { x, y };
        self.appearances[id] = Appearance { name: "Tree".to_owned() };
        id
    }

    /// Makes a box at (`x`, `y`): an entity that has a place and a look, and
    /// moves with velocity (1, 2).
    pub fn create_box(&mut self, x: u32, y: u32) -> (id: EntityId)
        requires
            old(self).wf(),
            has_empty(old(self).masks@),
        ensures
            final(self).wf(),
            is_first_empty(old(self).masks@, id as int),
            final(self).same_but(old(self), id as int),
            final(self).masks@[id as int] == DISPLACEMENT | APPEARANCE | VELOCITY,
            final(self).masks@[id as int] != EMPTY,
            final(self).displacements@[id as int] == (Displacement { x, y }),
            final(self).velocitys@[id as int] == (Velocity { x: ONE, y: TWO }),
            final(self).appearances@[id as int].name@ == "Box"@,
    {
        let id = self.create_entity().unwrap();
        assert(DISPLACEMENT | APPEARANCE | VELOCITY != EMPTY) by (bit_vector);
        self.masks[id] = DISPLACEMENT | APPEARANCE | VELOCITY;
        self.displacements[id] = Displacement { x, y };
        self.velocitys[id] = Velocity { x: ONE, y: TWO };
        self.appearances[id] = Appearance { name: "Box".to_owned() };
        id
    }

    /// Makes a ghost at (`x`, `y`): an entity that has a place and moves with
    /// velocity (3, 2), and that nobody sees.
    pub fn create_ghost(&mut self, x: u32, y: u32) -> (id: EntityId)
        requires
            old(self).wf(),
            has_empty(old(self).masks@),
        ensures
            final(self).wf(),
            is_first_empty(old(self).masks@, id as int),
            final(self).same_but(old(self), id as int),
            final(self).masks@[id as int] == DISPLACEMENT | VELOCITY,
            final(self).masks@[id as int] != EMPTY,
            final(self).displacements@[id as int] == (Displacement { x, y }),
            final(self).velocitys@[id as int] == (Velocity { x: THREE, y: TWO }),
            final(self).appearances@[id as int] == old(self).appearances@[id as int],
    {
        let id = self.create_entity().unwrap();
        assert(DISPLACEMENT | VELOCITY != EMPTY) by (bit_vector);
        self.masks[id] = DISPLACEMENT | VELOCITY;
        self.displacements[id] = Displacement { x, y };
        self.velocitys[id] = Velocity { x: THREE, y: TWO };
        id
    }

    /// Get vector of entities with specified mask.
    pub fn get_with_mask(&self, mask: u32) -> (ids: Vec<EntityId>)
        ensures
            ids@ == with_mask(self.masks@, mask),
    {
        let mut ids: Vec<EntityId> = Vec::new();
        for id in 0..self.masks.len()
            invariant
                ids@ == with_mask(self.masks@.take(id as int), mask),
        {
            assert(self.masks@.take(id + 1).drop_last() =~= self.masks@.take(id as int));
            if self.masks[id] & mask == mask {
                ids.push(id);
            }
        }
        assert(self.masks@.take(self.masks@.len() as int) =~= self.masks@);
        ids
    }
}

impl Default for World {
    fn default() -> (world: World)
        ensures
            world.wf(),
            world.entity_count == ENTITY_COUNT,
            forall|id: int| 0 <= id < ENTITY_COUNT ==> #[trigger] world.masks@[id] == EMPTY,
    {
        World::new()
    }
}

/// The entities that the movement system moves: those that have a place and a
/// velocity.
pub fn movement_system(world: &World) -> (ids: Vec<EntityId>)
    ensures
        ids@ == with_mask(world.masks@, DISPLACEMENT | VELOCITY),
{
    let movement_mask: u32 = DISPLACEMENT | VELOCITY;
    world.get_with_mask(movement_mask)
}

/// The entities that the render system draws: those that have a place and a
/// look.
pub fn render_system(world: &World) -> (ids: Vec<EntityId>)
    ensures
        ids@ == with_mask(world.masks@, DISPLACEMENT | APPEARANCE),
{
    let render_mask: u32 = DISPLACEMENT | APPEARANCE;
    world.get_with_mask(render_mask)
}

} // verus!
