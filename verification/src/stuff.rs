use vstd::prelude::*;

verus! {

/// The four elements a potion, a poop or a slime can have.
#[derive(PartialEq, Eq, Structural, Clone, Copy, Debug)]
pub enum Stuff {
    Fire,
    Light,
    Poison,
    Water,
}

/// A brewed potion: its element and how many times it was strengthened.
#[derive(PartialEq, Eq, Structural, Clone, Copy, Debug)]
pub struct Posion {
    pub property: Stuff,
    pub stronger: i32,
}

/// The element that a random draw in `0..4` stands for when a slime is spawned.
pub open spec fn spec_stuff_from_index(index: u32) -> Stuff {
    if index == 0 {
        Stuff::Fire
    } else if index == 1 {
        Stuff::Water
    } else if index == 2 {
        Stuff::Light
    } else if index == 3 {
        Stuff::Poison
    } else {
        Stuff::Fire
    }
}

/// Element of a slime from the index drawn for it (any other index gives fire).
pub fn stuff_from_index(index: u32) -> (stuff: Stuff)
    ensures
        stuff == spec_stuff_from_index(index),
{
    match index {
        0 => Stuff::Fire,
        1 => Stuff::Water,
        2 => Stuff::Light,
        3 => Stuff::Poison,
        _ => Stuff::Fire,
    }
}

} // verus!
