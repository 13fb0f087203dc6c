//! The parser: its request, the snapshot it reads and what it has
//! collected.

use std::collections::{BTreeMap, BTreeSet, HashMap, HashSet};
use vstd::hash_map::StringHashMap;
use vstd::prelude::*;
use vstd::std_specs::iter::IteratorSpec;
use crate::collect_data::ProjectileRecord;
use crate::entities::{Class, Entity, FieldPath, PlayerMetaData, Teams};
use crate::order::{ascending, lemma_ascending_listing, lemma_increasing_is_ascending};
use crate::variants::{Columns, OutputColumns};

verus! {

/// The state of one pass over a demo: what was asked for, the snapshot of
/// the tick that is being read, and what has been collected so far.
pub struct Parser {
    /// The tick that the snapshot belongs to.
    pub tick: i32,
    /// The ticks to collect; empty for all of them.
    pub wanted_ticks: HashSet<i32>,
    /// The fields to collect for each player, in the order of the request.
    pub wanted_player_props: Vec<String>,
    /// Whether to collect a record for each projectile.
    pub parse_projectiles: bool,
    /// The entities of the tick, by their id.
    pub entities: HashMap<i32, Entity>,
    /// The classes of the demo, by their id.
    pub cls_by_id: Vec<Option<Class>>,
    /// The path of each field that the demo declares, by the field's name.
    pub prop_name_to_path: StringHashMap<FieldPath>,
    /// The connected players, by the id of their pawn.
    pub players: BTreeMap<i32, PlayerMetaData>,
    /// The entities of the teams.
    pub teams: Teams,
    /// The entity that holds the rules of the match, once it is known.
    pub rules_entity_id: Option<i32>,
    /// The ids of the projectiles that exist in this tick.
    pub projectiles: BTreeSet<i32>,
    /// One column for each field collected.
    pub output: OutputColumns,
    /// One record for each projectile and tick collected.
    pub projectile_records: Vec<ProjectileRecord>,
}

impl Parser {
    /// A parser that has read nothing yet: it knows what is asked for, and
    /// its snapshot and its output are empty.
    pub fn new(
        wanted_player_props: Vec<String>,
        wanted_ticks: HashSet<i32>,
        parse_projectiles: bool,
    ) -> (parser: Self)
        ensures
            parser.tick == 0,
            parser.wanted_ticks == wanted_ticks,
            parser.wanted_player_props == wanted_player_props,
            parser.parse_projectiles == parse_projectiles,
            parser.entities@ == Map::<i32, Entity>::empty(),
            parser.cls_by_id@ == Seq::<Option<Class>>::empty(),
            parser.prop_name_to_path@ == Map::<Seq<char>, FieldPath>::empty(),
            parser.players@ == Map::<i32, PlayerMetaData>::empty(),
            parser.teams == (Teams { team1_entid: None, team2_entid: None, team3_entid: None }),
            parser.rules_entity_id is None,
            parser.projectiles@ == Set::<i32>::empty(),
            parser.output@ == Columns::empty(),
            parser.projectile_records@ == Seq::<ProjectileRecord>::empty(),
    {
        Parser {
            tick: 0,
            wanted_ticks,
            wanted_player_props,
            parse_projectiles,
            entities: HashMap::new(),
            cls_by_id: Vec::new(),
            prop_name_to_path: StringHashMap::new(),
            players: BTreeMap::new(),
            teams: Teams { team1_entid: None, team2_entid: None, team3_entid: None },
            rules_entity_id: None,
            projectiles: BTreeSet::new(),
            output: OutputColumns::new(),
            projectile_records: Vec::new(),
        }
    }

    /// Whether `other` has the request and the snapshot of this parser:
    /// all but what has been collected.
    pub open spec fn same_snapshot(&self, other: &Parser) -> bool {
        &&& self.tick == other.tick
        &&& self.wanted_ticks == other.wanted_ticks
        &&& self.wanted_player_props == other.wanted_player_props
        &&& self.parse_projectiles == other.parse_projectiles
        &&& self.entities == other.entities
        &&& self.cls_by_id == other.cls_by_id
        &&& self.prop_name_to_path == other.prop_name_to_path
        &&& self.players == other.players
        &&& self.teams == other.teams
        &&& self.rules_entity_id == other.rules_entity_id
        &&& self.projectiles == other.projectiles
    }

    /// The pawns of the connected players, in the order of their visit.
    pub open spec fn player_order(&self) -> Seq<i32> {
        ascending(self.players@.dom())
    }

    /// The projectiles of the tick, in the order of their visit.
    pub open spec fn projectile_order(&self) -> Seq<i32> {
        ascending(self.projectiles@)
    }

    pub(crate) fn player_ids(&self) -> (ids: Vec<i32>)
        ensures
            ids@ == self.player_order(),
    {
        let mut ids: Vec<i32> = Vec::new();
        let ghost order = self.players.keys().remaining();
        for id in it: self.players.keys()
            invariant
                it.seq() == order,
                ids@.len() == it.index(),
                forall|i: int| 0 <= i < ids@.len() ==> ids@[i] == *order[i],
        {
            ids.push(*id);
        }
        proof {
            assert(ids@ =~= order.unref());
            lemma_increasing_is_ascending(order);
            lemma_ascending_listing(ids@, self.players@.dom());
        }
        ids
    }

    pub(crate) fn projectile_ids(&self) -> (ids: Vec<i32>)
        ensures
            ids@ == self.projectile_order(),
            ids@.len() == self.projectiles@.len(),
    {
        let mut ids: Vec<i32> = Vec::new();
        let ghost order = self.projectiles.iter().remaining();
        for id in it: self.projectiles.iter()
            invariant
                it.seq() == order,
                ids@.len() == it.index(),
                forall|i: int| 0 <= i < ids@.len() ==> ids@[i] == *order[i],
        {
            ids.push(*id);
        }
        proof {
            assert(ids@ =~= order.unref());
            lemma_increasing_is_ascending(order);
            lemma_ascending_listing(ids@, self.projectiles@);
        }
        ids
    }
}

} // verus!
