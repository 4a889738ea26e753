//! Players and monsters, and who is connected as what.

use crate::character::{CharacterClass, Gender};
use crate::payload::MonsterState;
use crate::text::same_text;
use crate::world::{Position, Scalar};
use vstd::prelude::*;

verus! {

/// Server-issued number of a player in the running game.
#[derive(Debug, Clone, Copy, PartialEq, Eq, Structural)]
pub struct PlayerId(pub u64);

impl From<u64> for PlayerId {
    fn from(id: u64) -> (res: PlayerId) {
        PlayerId(id)
    }
}

impl vstd::std_specs::convert::FromSpecImpl<u64> for PlayerId {
    open spec fn obeys_from_spec() -> bool {
        true
    }

    open spec fn from_spec(id: u64) -> PlayerId {
        PlayerId(id)
    }
}

/// Which client program is on the other end. Self-reported and used for
/// counting only, never for permissions.
#[derive(Debug, Clone, Copy, PartialEq, Eq, Structural)]
pub enum ClientKind {
    Web,
    Cli,
    Other,
}

/// The kind a client reports under the name `reported`.
pub open spec fn kind_named(reported: Seq<char>) -> ClientKind {
    if reported == "web"@ {
        ClientKind::Web
    } else if reported == "cli"@ {
        ClientKind::Cli
    } else {
        ClientKind::Other
    }
}

impl ClientKind {
    /// Buckets the reported name; an unknown one counts as `Other`.
    pub fn from_reported(reported: &str) -> (res: ClientKind)
        ensures
            res == kind_named(reported@),
    {
        if same_text(reported, "web") {
            ClientKind::Web
        } else if same_text(reported, "cli") {
            ClientKind::Cli
        } else {
            ClientKind::Other
        }
    }

    /// The name of the kind.
    pub fn as_str(&self) -> (res: &'static str)
        ensures
            res@ == (match *self {
                ClientKind::Web => "web"@,
                ClientKind::Cli => "cli"@,
                ClientKind::Other => "other"@,
            }),
    {
        match *self {
            ClientKind::Web => "web",
            ClientKind::Cli => "cli",
            ClientKind::Other => "other",
        }
    }
}

impl Default for ClientKind {
    fn default() -> (res: ClientKind)
        ensures
            res == ClientKind::Other,
    {
        ClientKind::Other
    }
}

/// A player in the running game.
#[derive(Debug)]
pub struct Player {
    pub id: PlayerId,
    pub name: String,
    pub position: Position,
    pub rotation: Scalar,
    pub level: u32,
    pub health: u32,
    pub max_health: u32,
    pub class: CharacterClass,
    pub gender: Gender,
    pub is_official_npc: bool,
    pub torch_on: bool,
    pub floor_level: i8,
    pub object_type: Option<String>,
    pub object_id: Option<u32>,
    pub last_combat_at: u64,
    pub client_kind: ClientKind,
}

impl Clone for Player {
    fn clone(&self) -> (res: Player)
        ensures
            res == *self,
    {
        let object_type = match &self.object_type {
            Some(kind) => Some(kind.clone()),
            None => None,
        };
        Player {
            id: self.id,
            name: self.name.clone(),
            position: self.position,
            rotation: self.rotation,
            level: self.level,
            health: self.health,
            max_health: self.max_health,
            class: self.class,
            gender: self.gender,
            is_official_npc: self.is_official_npc,
            torch_on: self.torch_on,
            floor_level: self.floor_level,
            object_type,
            object_id: self.object_id,
            last_combat_at: self.last_combat_at,
            client_kind: self.client_kind,
        }
    }
}

/// A monster in the running game.
#[derive(Debug, Clone)]
pub struct Monster {
    pub id: String,
    pub monster_type: String,
    pub position: Position,
    pub rotation: Scalar,
    pub state: MonsterState,
    /// The player whose client drives this monster.
    pub owner_id: Option<PlayerId>,
    pub health: u32,
    pub max_health: u32,
    pub floor_level: i8,
    pub level_override: Option<u32>,
    pub aggressive: bool,
    pub last_attack_at: u64,
    pub last_move_at: u64,
    pub move_budget: Scalar,
}

} // verus!
