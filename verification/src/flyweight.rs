//! Flyweight pattern: a world of tiles in which every tile points to one of a
//! few terrains that are made once and shared.

use vstd::prelude::*;
use std::rc::Rc;
use rand::Rng;

verus! {

/// Example world width.
pub const WIDTH: usize = 5;

/// Example world height.
pub const HEIGHT: usize = 5;

/// A draw of this value, out of `HILL_ODDS`, makes a hill.
pub const HILL_DRAW: usize = 10;

/// How many values the draw for a hill ranges over.
pub const HILL_ODDS: usize = 11;

/// Terrain type that will be referenced around using the pattern.
#[derive(Debug)]
pub struct Terrain {
    movement_cost: i32,
    is_water: bool,
}

impl Terrain {
    pub closed spec fn cost(&self) -> i32 {
        self.movement_cost
    }

    pub closed spec fn water(&self) -> bool {
        self.is_water
    }

    /// A terrain is no more than its cost and whether it is water.
    pub proof fn lemma_same(a: Terrain, b: Terrain)
        requires
            a.cost() == b.cost(),
            a.water() == b.water(),
        ensures
            a == b,
    {
    }

    pub fn new(movement_cost: i32, is_water: bool) -> (terrain: Terrain)
        ensures
            terrain.cost() == movement_cost,
            terrain.water() == is_water,
    {
        Terrain { movement_cost, is_water }
    }

    pub fn is_water(&self) -> (water: bool)
        ensures
            water == self.water(),
    {
        self.is_water
    }

    pub fn get_movement_cost(&self) -> (cost: i32)
        ensures
            cost == self.cost(),
    {
        self.movement_cost
    }
}

impl Default for Terrain {
    fn default() -> (terrain: Terrain)
        ensures
            terrain.cost() == 0,
            !terrain.water(),
    {
        Terrain { movement_cost: 0, is_water: false }
    }
}

impl Default for World {
    /// A world without tiles, whose three terrains are all the default one.
    fn default() -> (world: World)
        ensures
            world.tiles@.len() == 0,
            world.grass_terrain.cost() == 0 && !world.grass_terrain.water(),
            world.hill_terrain.cost() == 0 && !world.hill_terrain.water(),
            world.river_terrain.cost() == 0 && !world.river_terrain.water(),
    {
        World {
            tiles: Vec::new(),
            grass_terrain: Rc::new(Terrain::default()),
            hill_terrain: Rc::new(Terrain::default()),
            river_terrain: Rc::new(Terrain::default()),
        }
    }
}

/// Calls `Rc::clone`: the result is one more pointer to the terrain that
/// `terrain` points to, so both stand for the same value.
#[verifier::external_body]
fn share(terrain: &Rc<Terrain>) -> (shared: Rc<Terrain>)
    ensures
        shared == *terrain,
{
    Rc::clone(terrain)
}

/// Calls rand's `thread_rng()` and, on it, `Rng::gen_range(low, high)`. The
/// crate documents the result as a value from `low`, inclusive, to `high`,
/// exclusive, and a panic where `low >= high`; which value comes is left open.
/// (The generator is seeded by the system, and panics where the system has
/// nothing to seed it with.)
#[verifier::external_body]
fn random_in_range(low: usize, high: usize) -> (value: usize)
    requires
        low < high,
    ensures
        low <= value < high,
{
    rand::thread_rng().gen_range(low, high)
}

/// Our game world structure containing all the tiles with their associated
/// terrain type. Terrains are made once, and tiles point to them.
#[derive(Debug)]
pub struct World {
    pub tiles: Vec<Vec<Rc<Terrain>>>,
    pub grass_terrain: Rc<Terrain>,
    pub hill_terrain: Rc<Terrain>,
    pub river_terrain: Rc<Terrain>,
}

impl World {
    /// The world is `WIDTH` columns of `HEIGHT` tiles each.
    pub open spec fn wf(&self) -> bool {
        &&& self.tiles@.len() == WIDTH
        &&& forall|x: int| 0 <= x < WIDTH ==> (#[trigger] self.tiles@[x])@.len() == HEIGHT
    }

    /// The terrain of the tile at (`x`, `y`).
    pub open spec fn tile(&self, x: int, y: int) -> Terrain {
        *self.tiles@[x]@[y]
    }

    /// Whether the two worlds share their three terrains.
    pub open spec fn same_terrains(&self, other: &World) -> bool {
        &&& self.grass_terrain == other.grass_terrain
        &&& self.hill_terrain == other.hill_terrain
        &&& self.river_terrain == other.river_terrain
    }

    /// Whether the column `river` is river from end to end, and every other tile
    /// is a hill or grass.
    pub open spec fn is_landscape(&self, river: int) -> bool {
        &&& 0 <= river < WIDTH
        &&& forall|x: int, y: int|
            0 <= x < WIDTH && 0 <= y < HEIGHT ==> if x == river {
                #[trigger] self.tile(x, y) == *self.river_terrain
            } else {
                self.tile(x, y) == *self.hill_terrain || self.tile(x, y) == *self.grass_terrain
            }
    }

    /// A world of grass, with a grass of cost 1, a hill of cost 2 and a river
    /// of cost 3, which alone is water.
    pub fn new() -> (world: World)
        ensures
            world.wf(),
            world.grass_terrain.cost() == 1 && !world.grass_terrain.water(),
            world.hill_terrain.cost() == 2 && !world.hill_terrain.water(),
            world.river_terrain.cost() == 3 && world.river_terrain.water(),
            forall|x: int, y: int|
                0 <= x < WIDTH && 0 <= y < HEIGHT ==> #[trigger] world.tile(x, y)
                    == *world.grass_terrain,
    {
        let gt = Rc::new(Terrain::new(1, false));
        let ht = Rc::new(Terrain::new(2, false));
        let rt = Rc::new(Terrain::new(3, true));
        let mut tiles: Vec<Vec<Rc<Terrain>>> = Vec::with_capacity(WIDTH);
        for x in 0..WIDTH
            invariant
                tiles@.len() == x,
                forall|i: int| 0 <= i < x ==> (#[trigger] tiles@[i])@.len() == HEIGHT,
                forall|i: int, j: int|
                    0 <= i < x && 0 <= j < HEIGHT ==> *(#[trigger] tiles@[i]@[j]) == *gt,
        {
            let mut column: Vec<Rc<Terrain>> = Vec::with_capacity(HEIGHT);
            for y in 0..HEIGHT
                invariant
                    column@.len() == y,
                    forall|j: int| 0 <= j < y ==> *(#[trigger] column@[j]) == *gt,
            {
                column.push(share(&gt));
            }
            tiles.push(column);
        }
        World { grass_terrain: gt, hill_terrain: ht, river_terrain: rt, tiles }
    }

    /// Lets the tile at (`x`, `y`) point to `terrain`.
    fn set_tile(&mut self, x: usize, y: usize, terrain: Rc<Terrain>)
        requires
            old(self).wf(),
            x < WIDTH,
            y < HEIGHT,
        ensures
            final(self).wf(),
            final(self).same_terrains(old(self)),
            final(self).tile(x as int, y as int) == *terrain,
            forall|i: int, j: int|
                0 <= i < WIDTH && 0 <= j < HEIGHT && !(i == x && j == y)
                    ==> #[trigger] final(self).tile(i, j) == old(self).tile(i, j),
    {
        self.tiles[x][y] = terrain;
    }

    /// Puts the terrain that the draw `roll` stands for on the tile at
    /// (`x`, `y`): a hill for `HILL_DRAW`, grass for every other value.
    pub fn place(&mut self, x: usize, y: usize, roll: usize)
        requires
            old(self).wf(),
            x < WIDTH,
            y < HEIGHT,
        ensures
            final(self).wf(),
            final(self).same_terrains(old(self)),
            final(self).tile(x as int, y as int) == if roll == HILL_DRAW {
                *old(self).hill_terrain
            } else {
                *old(self).grass_terrain
            },
            forall|i: int, j: int|
                0 <= i < WIDTH && 0 <= j < HEIGHT && !(i == x && j == y)
                    ==> #[trigger] final(self).tile(i, j) == old(self).tile(i, j),
    {
        let terrain = if roll == HILL_DRAW {
            share(&self.hill_terrain)
        } else {
            share(&self.grass_terrain)
        };
        self.set_tile(x, y, terrain);
    }

    /// Lets a river run down the column `x`.
    pub fn carve_river(&mut self, x: usize)
        requires
            old(self).wf(),
            x < WIDTH,
        ensures
            final(self).wf(),
            final(self).same_terrains(old(self)),
            forall|j: int|
                0 <= j < HEIGHT ==> #[trigger] final(self).tile(x as int, j)
                    == *old(self).river_terrain,
            forall|i: int, j: int|
                0 <= i < WIDTH && 0 <= j < HEIGHT && i != x ==> #[trigger] final(self).tile(i, j)
                    == old(self).tile(i, j),
    {
        for y in 0..HEIGHT
            invariant
                x < WIDTH,
                self.wf(),
                self.same_terrains(old(self)),
                forall|j: int|
                    0 <= j < y ==> #[trigger] self.tile(x as int, j) == *old(self).river_terrain,
                forall|i: int, j: int|
                    0 <= i < WIDTH && 0 <= j < HEIGHT && i != x ==> #[trigger] self.tile(i, j)
                        == old(self).tile(i, j),
        {
            let terrain = share(&self.river_terrain);
            self.set_tile(x, y, terrain);
        }
    }

    /// Makes a new landscape by chance: every tile becomes a hill or grass,
    /// and then one column becomes a river from end to end.
    pub fn generate_world(&mut self)
        requires
            old(self).wf(),
        ensures
            final(self).wf(),
            final(self).same_terrains(old(self)),
            exists|river: int| #[trigger] final(self).is_landscape(river),
    {
        for x in 0..WIDTH
            invariant
                self.wf(),
                self.same_terrains(old(self)),
                forall|i: int, j: int|
                    0 <= i < x && 0 <= j < HEIGHT ==> #[trigger] self.tile(i, j) == *old(
                        self,
                    ).hill_terrain || self.tile(i, j) == *old(self).grass_terrain,
        {
            for y in 0..HEIGHT
                invariant
                    x < WIDTH,
                    self.wf(),
                    self.same_terrains(old(self)),
                    forall|i: int, j: int|
                        0 <= i < x && 0 <= j < HEIGHT ==> #[trigger] self.tile(i, j) == *old(
                            self,
                        ).hill_terrain || self.tile(i, j) == *old(self).grass_terrain,
                    forall|j: int|
                        0 <= j < y ==> #[trigger] self.tile(x as int, j) == *old(
                            self,
                        ).hill_terrain || self.tile(x as int, j) == *old(self).grass_terrain,
            {
                let roll = random_in_range(0, HILL_ODDS);
                self.place(x, y, roll);
            }
        }
        let river = random_in_range(0, WIDTH);
        self.carve_river(river);
        assert(self.is_landscape(river as int));
    }

    /// The terrain of the tile at (`x`, `y`), shared.
    pub fn get_tile(&self, x: usize, y: usize) -> (terrain: Rc<Terrain>)
        requires
            x < self.tiles@.len(),
            y < self.tiles@[x as int]@.len(),
        ensures
            *terrain == self.tile(x as int, y as int),
    {
        share(&self.tiles[x][y])
    }
}

} // verus!
