//! Resolving the fields of players and projectiles from the snapshot of a
//! tick, and collecting what they resolve to.

use vstd::arithmetic::power2::{lemma2_to64, pow2};
use vstd::prelude::*;
use vstd::string::*;
use crate::entities::{Class, FieldPath, PlayerMetaData};
use crate::field_kinds::{
    classification, classify, is_axis_field, lemma_custom_fields_are_the_axes, NAME_FIELD,
    STEAMID_FIELD, TICK_FIELD,
};
use crate::order::lemma_ascending_lists;
use crate::parser_settings::Parser;
use crate::text::same_text;
use crate::variants::{pushed, Columns, Float32, Variant};

verus! {

/// What was read of one projectile in one tick.
#[derive(Debug, PartialEq)]
pub struct ProjectileRecord {
    pub steamid: Option<u64>,
    pub name: Option<String>,
    pub x: Option<Float32>,
    pub y: Option<Float32>,
    pub z: Option<Float32>,
    pub tick: Option<i32>,
    pub grenade_type: Option<String>,
}

/// Where a field has to be looked for.
#[derive(Clone, Copy, Debug, PartialEq, Eq, Structural)]
pub enum PropType {
    /// On the entity of the team that the player is on.
    Team,
    /// On the one entity that holds the rules of the match.
    Rules,
    /// Not stored anywhere: put together from other fields.
    Custom,
    /// On the player's controller.
    Controller,
    /// On the player's pawn, while the pawn is alive.
    Player,
}

/// A projectile record with its texts as sequences of characters.
pub ghost struct ProjectileRow {
    pub steamid: Option<u64>,
    pub name: Option<Seq<char>>,
    pub x: Option<Float32>,
    pub y: Option<Float32>,
    pub z: Option<Float32>,
    pub tick: Option<i32>,
    pub grenade_type: Option<Seq<char>>,
}

/// The characters of a text that may be missing.
pub open spec fn text_of(text: Option<String>) -> Option<Seq<char>> {
    match text {
        Some(t) => Some(t@),
        None => None,
    }
}

impl View for ProjectileRecord {
    type V = ProjectileRow;

    open spec fn view(&self) -> ProjectileRow {
        ProjectileRow {
            steamid: self.steamid,
            name: text_of(self.name),
            x: self.x,
            y: self.y,
            z: self.z,
            tick: self.tick,
            grenade_type: text_of(self.grenade_type),
        }
    }
}

/// The rows of `records`, in their order.
pub open spec fn rows_of(records: Seq<ProjectileRecord>) -> Seq<ProjectileRow> {
    records.map_values(|record: ProjectileRecord| record@)
}

/// A request that cannot be met, however the snapshot looks.
#[derive(Debug, PartialEq)]
pub enum PropError {
    /// The custom field of this name does not exist.
    UnknownCustomProp(String),
}

impl PropError {
    /// What went wrong, in words.
    pub fn message(&self) -> (text: String)
        ensures
            match self {
                PropError::UnknownCustomProp(name) => text@ == "unknown custom prop: "@ + name@,
            },
    {
        match self {
            PropError::UnknownCustomProp(name) => String::from_str("unknown custom prop: ").concat(
                name.as_str(),
            ),
        }
    }
}

/// The field of a controller that says whether its pawn is alive.
pub const LIVENESS_FIELD: &'static str = "CCSPlayerController.m_bPawnIsAlive";

/// The field of a pawn that holds the number of its team.
pub const TEAM_NUMBER_FIELD: &'static str = "CCSPlayerPawn.m_iTeamNum";

/// What the names of the fields of a player's pawn start with.
pub const PAWN_PREFIX: &'static str = "CCSPlayerPawn.";

/// What separates the name of a class from the names of its fields.
pub const CLASS_SEPARATOR: &'static str = ".";

/// The field of the grid cell of a coordinate, without the class before
/// it and the axis behind it.
pub const CELL_FIELD: &'static str = "CBodyComponentBaseAnimGraph.m_cell";

/// The field of the offset of a coordinate inside its grid cell, without
/// the class before it and the axis behind it.
pub const OFFSET_FIELD: &'static str = "CBodyComponentBaseAnimGraph.m_vec";

/// The field of a projectile that holds the handle of its owner, without
/// the class before it.
pub const OWNER_FIELD: &'static str = "m_nOwnerId";

/// The field that holds the grid cell of a coordinate on `axis`, for an
/// entity whose fields start with `prefix`.
pub open spec fn cell_field(prefix: Seq<char>, axis: Seq<char>) -> Seq<char> {
    prefix + CELL_FIELD@ + axis
}

/// The field that holds the offset of a coordinate on `axis` inside its
/// grid cell, for an entity whose fields start with `prefix`.
pub open spec fn offset_field(prefix: Seq<char>, axis: Seq<char>) -> Seq<char> {
    prefix + OFFSET_FIELD@ + axis
}

/// What the names of the fields of an entity of the class `class_name`
/// start with.
pub open spec fn class_prefix(class_name: Seq<char>) -> Seq<char> {
    class_name + CLASS_SEPARATOR@
}

/// The field of a projectile of the class `class_name` that holds the
/// handle of its owner.
pub open spec fn owner_field(class_name: Seq<char>) -> Seq<char> {
    class_prefix(class_name) + OWNER_FIELD@
}

/// The bits of an owner handle that hold the id of the owning entity.
pub const OWNER_ID_MASK: u32 = 0x7FF;

/// The id of the entity that the owner handle `handle` points to.
pub open spec fn owner_of_handle(handle: u32) -> i32 {
    (handle & OWNER_ID_MASK) as i32
}

/// A grid cell is two to the power of this number units of the world
/// wide.
pub const CELL_BITS: u32 = 9;

/// The first grid cell begins two to the power of this number units of
/// the world below zero.
pub const MAX_COORDINATE_BITS: u32 = 14;

/// The coordinate at which the grid cell `cell` begins.
pub open spec fn cell_origin(cell: u32) -> int {
    cell * pow2(CELL_BITS as nat) - pow2(MAX_COORDINATE_BITS as nat)
}

/// A coordinate from the two fields it is transmitted in: the origin of
/// its cell, and its offset handed on. Both fields must be there, the cell
/// as an unsigned integer and the offset as the bits of a float: otherwise
/// there is no coordinate.
pub open spec fn coordinate_of(cell: Option<Variant>, offset: Option<Variant>) -> Option<Float32> {
    match (cell, offset) {
        (Some(Variant::U32(cell)), Some(Variant::F32(Float32::Bits(offset)))) => Some(
            Float32::Cell { origin: cell_origin(cell) as i64, offset },
        ),
        _ => None,
    }
}

/// The cells are 512 units wide and begin at -16384: the origin of every
/// cell fits the integer that holds it.
pub proof fn lemma_cell_origin(cell: u32)
    ensures
        cell_origin(cell) == cell * 512 - 16384,
        i64::MIN <= cell_origin(cell) <= i64::MAX,
{
    lemma2_to64();
}

/// The value of a resolved coordinate as a column entry.
pub open spec fn as_entry(coordinate: Option<Float32>) -> Option<Variant> {
    match coordinate {
        Some(c) => Some(Variant::F32(c)),
        None => None,
    }
}

/// What is left of the class name of the projectile that all explosive
/// grenades share.
pub const BASE_GRENADE: &'static str = "BaseCSGrenade";

/// The name of the explosive grenade.
pub const HE_GRENADE: &'static str = "HeGrenade";

/// The number of characters that a projectile's class name starts with
/// before the name of the grenade.
pub const CLASS_NAME_HEAD: usize = 1;

/// The number of characters that follow the name of the grenade in a
/// projectile's class name.
pub const CLASS_NAME_TAIL: usize = 10;

/// The name of the grenade that a projectile of the class `class_name`
/// is: the class name without its first character and its last ten, and
/// the name of the explosive grenade where that leaves the name of the
/// base class. A class name too short to hold both ends has no grenade
/// name.
pub open spec fn grenade_name(class_name: Seq<char>) -> Option<Seq<char>> {
    if class_name.len() < CLASS_NAME_HEAD + CLASS_NAME_TAIL {
        None
    } else {
        let clean = class_name.subrange(
            CLASS_NAME_HEAD as int,
            class_name.len() - CLASS_NAME_TAIL,
        );
        if clean == BASE_GRENADE@ {
            Some(HE_GRENADE@)
        } else {
            Some(clean)
        }
    }
}

/// Two parsers with one request and one snapshot append the same entries
/// for a player.
proof fn lemma_fields_read_the_snapshot(
    first: Parser,
    second: Parser,
    columns: Columns,
    pawn: i32,
    count: int,
)
    requires
        first.same_snapshot(&second),
    ensures
        first.with_fields(columns, pawn, count) == second.with_fields(columns, pawn, count),
    decreases count,
{
    if count > 0 {
        lemma_fields_read_the_snapshot(first, second, columns, pawn, count - 1);
    }
}

fn float_of(entry: Option<Variant>) -> (float: Option<Float32>)
    ensures
        entry is Some && entry->0 is F32 ==> float == Some(entry->0->F32_0),
        !(entry is Some && entry->0 is F32) ==> float is None,
{
    match entry {
        Some(Variant::F32(float)) => Some(float),
        _ => None,
    }
}

fn coord_from_cell(cell: Option<Variant>, offset: Option<Variant>) -> (coordinate: Option<Float32>)
    ensures
        coordinate == coordinate_of(cell, offset),
{
    if let Some(Variant::U32(cell)) = cell {
        if let Some(Variant::F32(Float32::Bits(offset))) = offset {
            let cell_width: i64 = 1i64 << CELL_BITS;
            let max_coordinate: i64 = 1i64 << MAX_COORDINATE_BITS;
            proof {
                assert(1i64 << 9u32 == 512 && 1i64 << 14u32 == 16384) by (bit_vector);
                lemma_cell_origin(cell);
            }
            let origin = cell as i64 * cell_width - max_coordinate;
            return Some(Float32::Cell { origin, offset });
        }
    }
    None
}

impl Parser {
    /// What the snapshot stores for the entity `entity_id` at `path`.
    pub open spec fn stored(&self, entity_id: i32, path: FieldPath) -> Option<Variant> {
        if self.entities@.contains_key(entity_id) && self.entities@[entity_id].props@.contains_key(
            path,
        ) {
            Some(self.entities@[entity_id].props@[path])
        } else {
            None
        }
    }

    /// The value of the field `name` of the entity `entity_id`, read from
    /// that entity itself. There is none where the demo declares no such
    /// field, where the tick has no such entity, and where the entity
    /// holds no value for the field.
    pub open spec fn lookup(&self, name: Seq<char>, entity_id: i32) -> Option<Variant> {
        if self.prop_name_to_path@.contains_key(name) {
            self.stored(entity_id, self.prop_name_to_path@[name])
        } else {
            None
        }
    }

    /// The name of the class of the entity `entity_id`, where the tick has
    /// the entity and its class is known.
    pub open spec fn class_name(&self, entity_id: i32) -> Option<Seq<char>> {
        if self.entities@.contains_key(entity_id) {
            let cls_id = self.entities@[entity_id].cls_id;
            if cls_id < self.cls_by_id@.len() {
                match self.cls_by_id@[cls_id as int] {
                    Some(class) => Some(class.name@),
                    None => None,
                }
            } else {
                None
            }
        } else {
            None
        }
    }

    /// The coordinate on `axis` of the pawn `entity_id`.
    pub open spec fn player_coordinate(&self, axis: Seq<char>, entity_id: i32) -> Option<Float32> {
        coordinate_of(
            self.lookup(cell_field(PAWN_PREFIX@, axis), entity_id),
            self.lookup(offset_field(PAWN_PREFIX@, axis), entity_id),
        )
    }

    /// The coordinate on `axis` of the projectile `entity_id`, whose
    /// fields start with the name of its class.
    pub open spec fn grenade_coordinate(&self, axis: Seq<char>, entity_id: i32) -> Option<
        Float32,
    > {
        match self.class_name(entity_id) {
            Some(class_name) => coordinate_of(
                self.lookup(cell_field(class_prefix(class_name), axis), entity_id),
                self.lookup(offset_field(class_prefix(class_name), axis), entity_id),
            ),
            None => None,
        }
    }

    /// The entity that threw the projectile `entity_id`.
    pub open spec fn thrower(&self, entity_id: i32) -> Option<i32> {
        match self.class_name(entity_id) {
            Some(class_name) => match self.lookup(owner_field(class_name), entity_id) {
                Some(Variant::U32(handle)) => Some(owner_of_handle(handle)),
                _ => None,
            },
            None => None,
        }
    }

    /// What is known of the player that threw the projectile `entity_id`.
    pub open spec fn thrower_metadata(&self, entity_id: i32) -> Option<PlayerMetaData> {
        match self.thrower(entity_id) {
            Some(owner) => if self.players@.contains_key(owner) {
                Some(self.players@[owner])
            } else {
                None
            },
            None => None,
        }
    }

    /// The steam id of the player that threw the projectile `entity_id`.
    pub open spec fn thrower_steamid(&self, entity_id: i32) -> Option<u64> {
        match self.thrower_metadata(entity_id) {
            Some(metadata) => metadata.steamid,
            None => None,
        }
    }

    /// The name of the player that threw the projectile `entity_id`.
    pub open spec fn thrower_name(&self, entity_id: i32) -> Option<String> {
        match self.thrower_metadata(entity_id) {
            Some(metadata) => metadata.name,
            None => None,
        }
    }

    /// The name of the grenade that the projectile `entity_id` is.
    pub open spec fn grenade_type(&self, entity_id: i32) -> Option<Seq<char>> {
        match self.class_name(entity_id) {
            Some(class_name) => grenade_name(class_name),
            None => None,
        }
    }

    /// The value of the field `name` for the team of the pawn
    /// `player_entid`: read from the entity of the team whose number the
    /// pawn holds.
    pub open spec fn team_prop(&self, player_entid: i32, name: Seq<char>) -> Option<Variant> {
        match self.lookup(TEAM_NUMBER_FIELD@, player_entid) {
            Some(Variant::U32(team_num)) => match self.teams.slot(team_num) {
                Some(team_entid) => self.lookup(name, team_entid),
                None => None,
            },
            _ => None,
        }
    }

    /// Whether the pawn of `player` is alive: whether its controller is
    /// known and says so.
    pub open spec fn is_alive(&self, player: PlayerMetaData) -> bool {
        match player.controller_entid {
            Some(controller) => self.lookup(LIVENESS_FIELD@, controller) == Some(
                Variant::Bool(true),
            ),
            None => false,
        }
    }

    /// The value of the field `name` for the player `player` with the
    /// pawn `entity_id`.
    pub open spec fn resolved(
        &self,
        name: Seq<char>,
        entity_id: i32,
        player: PlayerMetaData,
    ) -> Option<Variant> {
        if name == TICK_FIELD@ {
            Some(Variant::I32(self.tick))
        } else if name == STEAMID_FIELD@ {
            match player.steamid {
                Some(steamid) => Some(Variant::U64(steamid)),
                None => None,
            }
        } else if name == NAME_FIELD@ {
            match player.name {
                Some(player_name) => Some(Variant::String(player_name)),
                None => None,
            }
        } else {
            match classification(name) {
                Some(PropType::Team) => self.team_prop(entity_id, name),
                Some(PropType::Rules) => match self.rules_entity_id {
                    Some(rules_entid) => self.lookup(name, rules_entid),
                    None => None,
                },
                Some(PropType::Controller) => match player.controller_entid {
                    Some(controller) => self.lookup(name, controller),
                    None => None,
                },
                Some(PropType::Player) => if self.is_alive(player) {
                    self.lookup(name, entity_id)
                } else {
                    None
                },
                Some(PropType::Custom) => as_entry(self.player_coordinate(name, entity_id)),
                None => self.lookup(name, entity_id),
            }
        }
    }

    /// The row that the projectile `entity_id` gives in this tick.
    pub open spec fn projectile_row(&self, entity_id: i32) -> ProjectileRow {
        ProjectileRow {
            steamid: self.thrower_steamid(entity_id),
            name: text_of(self.thrower_name(entity_id)),
            x: self.grenade_coordinate("X"@, entity_id),
            y: self.grenade_coordinate("Y"@, entity_id),
            z: self.grenade_coordinate("Z"@, entity_id),
            tick: Some(self.tick),
            grenade_type: self.grenade_type(entity_id),
        }
    }

    /// The rows that the projectiles of this tick give, in the order of
    /// their visit.
    pub open spec fn projectile_rows(&self) -> Seq<ProjectileRow> {
        self.projectile_order().map_values(|entity_id: i32| self.projectile_row(entity_id))
    }

    /// Whether this tick is passed over: whether ticks were picked and
    /// this is none of them.
    pub open spec fn skips_tick(&self) -> bool {
        self.wanted_ticks@.len() != 0 && !self.wanted_ticks@.contains(self.tick)
    }

    /// `columns` after the first `count` of the wanted fields were
    /// resolved for the player with the pawn `pawn`, and appended.
    pub open spec fn with_fields(
        &self,
        columns: Columns,
        pawn: i32,
        count: int,
    ) -> Columns
        decreases count,
    {
        if count <= 0 {
            columns
        } else {
            let name = self.wanted_player_props@[count - 1]@;
            pushed(
                self.with_fields(columns, pawn, count - 1),
                name,
                self.resolved(name, pawn, self.players@[pawn]),
            )
        }
    }

    /// `columns` after all wanted fields were resolved and appended for
    /// each of the first `count` players.
    pub open spec fn with_players(
        &self,
        columns: Columns,
        count: int,
    ) -> Columns
        decreases count,
    {
        if count <= 0 {
            columns
        } else {
            self.with_fields(
                self.with_players(columns, count - 1),
                self.player_order()[count - 1],
                self.wanted_player_props@.len() as int,
            )
        }
    }

    /// `columns` after this tick was collected into them.
    pub open spec fn collected(&self, columns: Columns) -> Columns {
        self.with_players(columns, self.player_order().len() as int)
    }

    /// Collects the tick: one record for each projectile, where records
    /// are asked for, then one entry in the column of each wanted field
    /// for each player. A tick that was not picked leaves no trace.
    pub fn collect_entities(&mut self)
        ensures
            final(self).same_snapshot(old(self)),
            old(self).skips_tick() ==> *final(self) == *old(self),
            !old(self).skips_tick() ==> final(self).output@ == old(self).collected(
                old(self).output@,
            ),
            !old(self).skips_tick() && old(self).parse_projectiles ==> {
                &&& rows_of(final(self).projectile_records@) == rows_of(
                    old(self).projectile_records@,
                ) + old(self).projectile_rows()
                &&& final(self).projectile_records@.take(old(self).projectile_records@.len() as int)
                    == old(self).projectile_records@
                &&& final(self).projectile_records@.len() == old(self).projectile_records@.len()
                    + old(self).projectiles@.len()
            },
            !old(self).parse_projectiles ==> final(self).projectile_records == old(
                self,
            ).projectile_records,
    {
        if !self.wanted_ticks.contains(&self.tick) && self.wanted_ticks.len() != 0 {
            return;
        }
        if self.parse_projectiles {
            self.collect_projectiles();
        }
        let ghost records = self.projectile_records;
        let ids = self.player_ids();
        proof {
            lemma_ascending_lists(self.players@.dom());
        }
        let mut n: usize = 0;
        while n < ids.len()
            invariant
                n <= ids@.len(),
                ids@ == old(self).player_order(),
                ids@.to_set() == old(self).players@.dom(),
                self.same_snapshot(old(self)),
                self.projectile_records == records,
                self.output@ == old(self).with_players(old(self).output@, n as int),
            decreases ids@.len() - n,
        {
            proof {
                lemma_fields_read_the_snapshot(
                    *self,
                    *old(self),
                    self.output@,
                    ids@[n as int],
                    self.wanted_player_props@.len() as int,
                );
            }
            self.collect_player(ids[n]);
            n += 1;
        }
    }

    /// Resolves each wanted field for the player with the pawn
    /// `entity_id`, and appends what it resolved to to the field's column.
    fn collect_player(&mut self, entity_id: i32)
        requires
            old(self).players@.contains_key(entity_id),
        ensures
            final(self).same_snapshot(old(self)),
            final(self).projectile_records == old(self).projectile_records,
            final(self).output@ == old(self).with_fields(
                old(self).output@,
                entity_id,
                old(self).wanted_player_props@.len() as int,
            ),
    {
        if let Some(player) = self.players.get(&entity_id) {
            let mut k: usize = 0;
            while k < self.wanted_player_props.len()
                invariant
                    k <= self.wanted_player_props@.len(),
                    *player == old(self).players@[entity_id],
                    self.same_snapshot(old(self)),
                    self.projectile_records == old(self).projectile_records,
                    self.output@ == old(self).with_fields(old(self).output@, entity_id, k as int),
                decreases self.wanted_player_props@.len() - k,
            {
                let prop_name = self.wanted_player_props[k].as_str();
                let prop = self.find_prop(prop_name, &entity_id, player);
                self.output.push(prop_name, prop);
                k += 1;
            }
        }
    }

    /// Reads the field `prop_name` from the entity `entity_id` itself.
    pub fn get_prop_for_ent(&self, prop_name: &str, entity_id: &i32) -> (prop: Option<Variant>)
        ensures
            prop == self.lookup(prop_name@, *entity_id),
    {
        match self.prop_name_to_path.get(prop_name) {
            Some(path) => match self.entities.get(entity_id) {
                Some(ent) => match ent.props.get(path) {
                    Some(prop) => Some(prop.clone()),
                    None => None,
                },
                None => None,
            },
            None => None,
        }
    }

    /// Resolves the field `prop_name` for the player `player` with the
    /// pawn `entity_id`, by the route that the field's kind asks for.
    pub fn find_prop(&self, prop_name: &str, entity_id: &i32, player: &PlayerMetaData) -> (prop:
        Option<Variant>)
        ensures
            prop == self.resolved(prop_name@, *entity_id, *player),
    {
        if same_text(prop_name, TICK_FIELD) {
            return Some(Variant::I32(self.tick));
        }
        if same_text(prop_name, STEAMID_FIELD) {
            return match player.steamid {
                Some(steamid) => Some(Variant::U64(steamid)),
                None => None,
            };
        }
        if same_text(prop_name, NAME_FIELD) {
            return match &player.name {
                Some(name) => Some(Variant::String(name.clone())),
                None => None,
            };
        }
        match classify(prop_name) {
            Some(PropType::Team) => self.find_team_prop(entity_id, prop_name),
            Some(PropType::Custom) => {
                proof {
                    lemma_custom_fields_are_the_axes(prop_name@);
                }
                match self.create_custom_prop(prop_name, entity_id) {
                    Ok(prop) => prop,
                    Err(_) => unreached(),
                }
            },
            Some(PropType::Controller) => match player.controller_entid {
                Some(entid) => self.get_prop_for_ent(prop_name, &entid),
                None => None,
            },
            Some(PropType::Rules) => match self.rules_entity_id {
                Some(rules_entid) => self.get_prop_for_ent(prop_name, &rules_entid),
                None => None,
            },
            Some(PropType::Player) => match player.controller_entid {
                Some(entid) => {
                    let is_alive = self.get_prop_for_ent(LIVENESS_FIELD, &entid);
                    match is_alive {
                        Some(Variant::Bool(true)) => self.get_prop_for_ent(prop_name, entity_id),
                        _ => None,
                    }
                },
                None => None,
            },
            None => self.get_prop_for_ent(prop_name, entity_id),
        }
    }

    /// Reads the coordinate of the pawn `entity_id` on `axis`.
    pub fn collect_cell_coordinate_player(&self, axis: &str, entity_id: &i32) -> (coordinate:
        Option<Variant>)
        ensures
            coordinate == as_entry(self.player_coordinate(axis@, *entity_id)),
    {
        let mut offset_name = String::from_str(PAWN_PREFIX);
        offset_name.append(OFFSET_FIELD);
        offset_name.append(axis);
        let offset = self.get_prop_for_ent(offset_name.as_str(), entity_id);
        let mut cell_name = String::from_str(PAWN_PREFIX);
        cell_name.append(CELL_FIELD);
        cell_name.append(axis);
        let cell = self.get_prop_for_ent(cell_name.as_str(), entity_id);
        match coord_from_cell(cell, offset) {
            Some(coord) => Some(Variant::F32(coord)),
            None => None,
        }
    }

    fn class_of(&self, entity_id: &i32) -> (class: Option<&Class>)
        ensures
            match class {
                Some(class) => self.class_name(*entity_id) == Some(class.name@),
                None => self.class_name(*entity_id) is None,
            },
    {
        match self.entities.get(entity_id) {
            Some(ent) => {
                let cls_id = ent.cls_id as usize;
                if cls_id < self.cls_by_id.len() {
                    self.cls_by_id[cls_id].as_ref()
                } else {
                    None
                }
            },
            None => None,
        }
    }

    /// Reads the coordinate of the projectile `entity_id` on `axis`.
    pub fn collect_cell_coordinate_grenade(&self, axis: &str, entity_id: &i32) -> (coordinate:
        Option<Variant>)
        ensures
            coordinate == as_entry(self.grenade_coordinate(axis@, *entity_id)),
    {
        let class = match self.class_of(entity_id) {
            Some(cls) => cls,
            None => return None,
        };
        let mut offset_name = class.name.clone();
        offset_name.append(CLASS_SEPARATOR);
        offset_name.append(OFFSET_FIELD);
        offset_name.append(axis);
        let offset = self.get_prop_for_ent(offset_name.as_str(), entity_id);
        let mut cell_name = class.name.clone();
        cell_name.append(CLASS_SEPARATOR);
        cell_name.append(CELL_FIELD);
        cell_name.append(axis);
        let cell = self.get_prop_for_ent(cell_name.as_str(), entity_id);
        match coord_from_cell(cell, offset) {
            Some(coord) => Some(Variant::F32(coord)),
            None => None,
        }
    }

    fn find_thrower(&self, entity_id: &i32) -> (owner: Option<i32>)
        ensures
            owner == self.thrower(*entity_id),
    {
        let class = match self.class_of(entity_id) {
            Some(cls) => cls,
            None => return None,
        };
        let mut owner_name = class.name.clone();
        owner_name.append(CLASS_SEPARATOR);
        owner_name.append(OWNER_FIELD);
        match self.get_prop_for_ent(owner_name.as_str(), entity_id) {
            Some(Variant::U32(handle)) => {
                let owner = handle & OWNER_ID_MASK;
                assert(owner <= 0x7FF) by (bit_vector)
                    requires
                        owner == handle & 0x7FF,
                ;
                Some(owner as i32)
            },
            _ => None,
        }
    }

    /// Finds the steam id of the player that threw the projectile
    /// `entity_id`.
    pub fn find_thrower_steamid(&self, entity_id: &i32) -> (steamid: Option<u64>)
        ensures
            steamid == self.thrower_steamid(*entity_id),
    {
        match self.find_thrower(entity_id) {
            Some(entid) => match self.players.get(&entid) {
                Some(metadata) => metadata.steamid,
                None => None,
            },
            None => None,
        }
    }

    /// Finds the name of the player that threw the projectile `entity_id`.
    pub fn find_thrower_name(&self, entity_id: &i32) -> (name: Option<String>)
        ensures
            name == self.thrower_name(*entity_id),
    {
        match self.find_thrower(entity_id) {
            Some(entid) => match self.players.get(&entid) {
                Some(metadata) => match &metadata.name {
                    Some(name) => Some(name.clone()),
                    None => None,
                },
                None => None,
            },
            None => None,
        }
    }

    /// Finds the name of the grenade that the projectile `entity_id` is.
    pub fn find_grenade_type(&self, entity_id: &i32) -> (grenade_type: Option<String>)
        ensures
            match grenade_type {
                Some(name) => self.grenade_type(*entity_id) == Some(name@),
                None => self.grenade_type(*entity_id) is None,
            },
    {
        match self.class_of(entity_id) {
            Some(cls) => {
                let len = cls.name.as_str().unicode_len();
                if len < CLASS_NAME_HEAD + CLASS_NAME_TAIL {
                    return None;
                }
                let clean_name = cls.name.as_str().substring_char(
                    CLASS_NAME_HEAD,
                    len - CLASS_NAME_TAIL,
                );
                if same_text(clean_name, BASE_GRENADE) {
                    Some(HE_GRENADE.to_owned())
                } else {
                    Some(clean_name.to_owned())
                }
            },
            None => None,
        }
    }

    /// Appends one record for each projectile of the tick.
    pub fn collect_projectiles(&mut self)
        ensures
            final(self).same_snapshot(old(self)),
            final(self).output == old(self).output,
            rows_of(final(self).projectile_records@) == rows_of(old(self).projectile_records@)
                + old(self).projectile_rows(),
            final(self).projectile_records@.take(old(self).projectile_records@.len() as int)
                == old(self).projectile_records@,
            final(self).projectile_records@.len() == old(self).projectile_records@.len() + old(
                self,
            ).projectiles@.len(),
    {
        let ids = self.projectile_ids();
        let mut n: usize = 0;
        while n < ids.len()
            invariant
                n <= ids@.len(),
                ids@ == old(self).projectile_order(),
                self.same_snapshot(old(self)),
                self.output == old(self).output,
                rows_of(self.projectile_records@) == rows_of(old(self).projectile_records@)
                    + old(self).projectile_rows().take(n as int),
                self.projectile_records@.take(old(self).projectile_records@.len() as int)
                    == old(self).projectile_records@,
            decreases ids@.len() - n,
        {
            let projectile_entid = ids[n];
            let grenade_type = self.find_grenade_type(&projectile_entid);
            let steamid = self.find_thrower_steamid(&projectile_entid);
            let name = self.find_thrower_name(&projectile_entid);
            let x = float_of(self.collect_cell_coordinate_grenade("X", &projectile_entid));
            let y = float_of(self.collect_cell_coordinate_grenade("Y", &projectile_entid));
            let z = float_of(self.collect_cell_coordinate_grenade("Z", &projectile_entid));
            let record = ProjectileRecord {
                steamid,
                name,
                x,
                y,
                z,
                tick: Some(self.tick),
                grenade_type,
            };
            let ghost before = self.projectile_records@;
            self.projectile_records.push(record);
            proof {
                let kept = old(self).projectile_records@.len() as int;
                assert(rows_of(self.projectile_records@) =~= rows_of(before).push(record@));
                assert(self.projectile_records@.take(kept) =~= before.take(kept));
            }
            n += 1;
        }
    }

    /// Resolves the field `prop` for the team of the pawn `player_entid`.
    pub fn find_team_prop(&self, player_entid: &i32, prop: &str) -> (value: Option<Variant>)
        ensures
            value == self.team_prop(*player_entid, prop@),
    {
        let team_num = self.get_prop_for_ent(TEAM_NUMBER_FIELD, player_entid);
        if let Some(Variant::U32(team_num)) = team_num {
            if let Some(entid) = self.teams.team_entity(team_num) {
                return self.get_prop_for_ent(prop, &entid);
            }
        }
        None
    }

    /// Puts the custom field `prop_name` together for the pawn
    /// `entity_id`. The custom fields are the three axes; any other name
    /// is an error.
    pub fn create_custom_prop(&self, prop_name: &str, entity_id: &i32) -> (prop: Result<
        Option<Variant>,
        PropError,
    >)
        ensures
            match prop {
                Ok(value) => is_axis_field(prop_name@) && value == as_entry(
                    self.player_coordinate(prop_name@, *entity_id),
                ),
                Err(PropError::UnknownCustomProp(name)) => !is_axis_field(prop_name@) && name@
                    == prop_name@,
            },
    {
        if same_text(prop_name, "X") {
            Ok(self.collect_cell_coordinate_player("X", entity_id))
        } else if same_text(prop_name, "Y") {
            Ok(self.collect_cell_coordinate_player("Y", entity_id))
        } else if same_text(prop_name, "Z") {
            Ok(self.collect_cell_coordinate_player("Z", entity_id))
        } else {
            Err(PropError::UnknownCustomProp(prop_name.to_owned()))
        }
    }
}

} // verus!
