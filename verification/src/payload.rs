//! Values that belong to other parts of the game. The connection layer hands
//! them on without looking inside, so they are kept in their wire form.

use vstd::prelude::*;

verus! {

/// A house, in its wire encoding.
#[derive(Debug, Clone)]
pub struct HouseData {
    pub encoding: Vec<u8>,
}

/// A room of a house, in its wire encoding.
#[derive(Debug, Clone)]
pub struct RoomData {
    pub encoding: Vec<u8>,
}

/// The wall of a room a door is in, by its wire name.
#[derive(Debug, Clone)]
pub struct WallDirection {
    pub name: String,
}

/// Where an item is worn, by its wire name.
#[derive(Debug, Clone)]
pub struct EquipSlot {
    pub name: String,
}

/// What a monster is doing, by its wire name.
#[derive(Debug, Clone)]
pub struct MonsterState {
    pub name: String,
}

/// Everything a player carries, in its wire encoding.
#[derive(Debug, Clone)]
pub struct PlayerInventory {
    pub encoding: Vec<u8>,
}

/// An item lying on the ground, in its wire encoding.
#[derive(Debug, Clone)]
pub struct GroundItem {
    pub encoding: Vec<u8>,
}

} // verus!
