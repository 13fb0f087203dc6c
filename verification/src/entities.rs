//! What the decoder of a demo knows of the entities, classes, teams and
//! players of a tick.

use std::collections::HashMap;
use vstd::prelude::*;
use crate::variants::Variant;

verus! {

/// The path of a field in the schema of the demo, as the decoder numbers
/// the paths.
pub type FieldPath = u32;

/// What is known of a connected player besides the fields of its entities.
#[derive(Debug, PartialEq)]
pub struct PlayerMetaData {
    /// The steam id of the player.
    pub steamid: Option<u64>,
    /// The name that the player goes by.
    pub name: Option<String>,
    /// The entity of the player's controller.
    pub controller_entid: Option<i32>,
}

impl Clone for PlayerMetaData {
    fn clone(&self) -> (copy: Self)
        ensures
            copy == *self,
    {
        PlayerMetaData {
            steamid: self.steamid,
            name: match &self.name {
                Some(name) => Some(name.clone()),
                None => None,
            },
            controller_entid: self.controller_entid,
        }
    }
}

/// The entities that stand for the teams, by the number of the team.
#[derive(Clone, Copy, Debug, PartialEq, Eq, Structural)]
pub struct Teams {
    pub team1_entid: Option<i32>,
    pub team2_entid: Option<i32>,
    pub team3_entid: Option<i32>,
}

impl Teams {
    /// The entity of the team with the number `team_num`. Only the numbers
    /// 1, 2 and 3 have a team entity.
    pub open spec fn slot(&self, team_num: u32) -> Option<i32> {
        if team_num == 1 {
            self.team1_entid
        } else if team_num == 2 {
            self.team2_entid
        } else if team_num == 3 {
            self.team3_entid
        } else {
            None
        }
    }

    /// Finds the entity of the team with the number `team_num`.
    pub fn team_entity(&self, team_num: u32) -> (entity_id: Option<i32>)
        ensures
            entity_id == self.slot(team_num),
    {
        match team_num {
            1 => self.team1_entid,
            2 => self.team2_entid,
            3 => self.team3_entid,
            _ => None,
        }
    }
}

/// An entity of one tick: the class it was declared with and the fields
/// that hold a value, by their path.
#[derive(Debug)]
pub struct Entity {
    /// The id of the entity's class.
    pub cls_id: u32,
    /// The values of the entity's fields, by the path of the field.
    pub props: HashMap<FieldPath, Variant>,
}

/// A class of entities as the demo declares it.
#[derive(Debug)]
pub struct Class {
    /// The name of the class, which the names of its fields start with.
    pub name: String,
}

} // verus!
