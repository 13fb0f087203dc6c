use parser::collect_data::ProjectileRecord;
use parser::entities::{Class, Entity, PlayerMetaData};
use parser::parser_settings::Parser;
use parser::variants::{Float32, Variant};
use std::collections::{HashMap, HashSet};

const SMOKE: u32 = 1;
const HE: u32 = 2;
const SHORT: u32 = 3;
const EMPTY_SLOT: u32 = 4;

fn props(parser: &mut Parser, entity_id: i32, cls_id: u32) -> &mut HashMap<u32, Variant> {
    let entity = parser
        .entities
        .entry(entity_id)
        .or_insert_with(|| Entity { cls_id, props: HashMap::new() });
    &mut entity.props
}

fn declare_class(parser: &mut Parser, class: &str, first_path: u32) {
    let fields = [
        "m_nOwnerId",
        "CBodyComponentBaseAnimGraph.m_cellX",
        "CBodyComponentBaseAnimGraph.m_vecX",
        "CBodyComponentBaseAnimGraph.m_cellY",
        "CBodyComponentBaseAnimGraph.m_vecY",
        "CBodyComponentBaseAnimGraph.m_cellZ",
        "CBodyComponentBaseAnimGraph.m_vecZ",
    ];
    for (i, field) in fields.iter().enumerate() {
        parser.prop_name_to_path.insert(format!("{}.{}", class, field), first_path + i as u32);
    }
}

fn bits(value: f32) -> Variant {
    Variant::F32(Float32::Bits(value.to_bits()))
}

fn world() -> Parser {
    let mut parser = Parser::new(Vec::new(), HashSet::new(), true);
    parser.tick = 77;
    parser.cls_by_id = vec![
        None,
        Some(Class { name: "CSmokeGrenadeProjectile".to_string() }),
        Some(Class { name: "CBaseCSGrenadeProjectile".to_string() }),
        Some(Class { name: "CProjectil".to_string() }),
        None,
    ];
    declare_class(&mut parser, "CSmokeGrenadeProjectile", 100);
    declare_class(&mut parser, "CBaseCSGrenadeProjectile", 200);
    parser.players.insert(
        3,
        PlayerMetaData {
            steamid: Some(76561198000000003),
            name: Some("bob".to_string()),
            controller_entid: Some(1),
        },
    );
    parser.players.insert(
        9,
        PlayerMetaData { steamid: None, name: Some("carol".to_string()), controller_entid: None },
    );
    let smoke = props(&mut parser, 300, SMOKE);
    smoke.insert(100, Variant::U32(0x800003));
    smoke.insert(101, Variant::U32(3));
    smoke.insert(102, bits(1.5));
    smoke.insert(103, Variant::U32(32));
    smoke.insert(104, bits(-0.25));
    smoke.insert(105, Variant::U32(33));
    let he = props(&mut parser, 250, HE);
    he.insert(200, Variant::U32(9));
    he.insert(206, bits(4.0));
    props(&mut parser, 400, SHORT);
    props(&mut parser, 401, EMPTY_SLOT);
    props(&mut parser, 402, 1000);
    parser
}

#[test]
fn a_grenade_is_named_after_its_class() {
    let parser = world();
    assert_eq!(parser.find_grenade_type(&300), Some("SmokeGrenade".to_string()));
}

#[test]
fn the_base_grenade_is_the_he_grenade() {
    let parser = world();
    assert_eq!(parser.find_grenade_type(&250), Some("HeGrenade".to_string()));
}

#[test]
fn a_grenade_needs_a_known_class_with_a_long_name() {
    let parser = world();
    assert_eq!(parser.find_grenade_type(&400), None);
    assert_eq!(parser.find_grenade_type(&401), None);
    assert_eq!(parser.find_grenade_type(&402), None);
    assert_eq!(parser.find_grenade_type(&999), None);
}

#[test]
fn the_shortest_class_name_leaves_an_empty_grenade_name() {
    let mut parser = world();
    parser.cls_by_id[3] = Some(Class { name: "CProjectile".to_string() });
    assert_eq!(parser.find_grenade_type(&400), Some(String::new()));
    parser.cls_by_id[3] = Some(Class { name: "CAProjectile".to_string() });
    assert_eq!(parser.find_grenade_type(&400), Some("A".to_string()));
}

#[test]
fn the_owner_is_in_the_low_bits_of_the_handle() {
    let parser = world();
    assert_eq!(0x800003 & parser::collect_data::OWNER_ID_MASK, 3);
    assert_eq!(parser.find_thrower_steamid(&300), Some(76561198000000003));
    assert_eq!(parser.find_thrower_name(&300), Some("bob".to_string()));
}

#[test]
fn each_part_of_the_thrower_may_be_missing_alone() {
    let parser = world();
    assert_eq!(parser.find_thrower_steamid(&250), None);
    assert_eq!(parser.find_thrower_name(&250), Some("carol".to_string()));
}

#[test]
fn a_thrower_needs_an_owner_that_is_a_player() {
    let mut parser = world();
    props(&mut parser, 300, SMOKE).insert(100, Variant::U32(0x800004));
    assert_eq!(parser.find_thrower_steamid(&300), None);
    assert_eq!(parser.find_thrower_name(&300), None);
    props(&mut parser, 300, SMOKE).insert(100, Variant::I32(3));
    assert_eq!(parser.find_thrower_steamid(&300), None);
    assert_eq!(parser.find_thrower_name(&300), None);
    props(&mut parser, 300, SMOKE).remove(&100);
    assert_eq!(parser.find_thrower_steamid(&300), None);
    assert_eq!(parser.find_thrower_name(&300), None);
    assert_eq!(parser.find_thrower_steamid(&401), None);
    assert_eq!(parser.find_thrower_name(&999), None);
}

#[test]
fn a_projectile_is_placed_by_the_fields_of_its_class() {
    let parser = world();
    assert_eq!(
        parser.collect_cell_coordinate_grenade("X", &300),
        Some(Variant::F32(Float32::Cell { origin: -14848, offset: 1.5f32.to_bits() }))
    );
    assert_eq!(
        parser.collect_cell_coordinate_grenade("Y", &300),
        Some(Variant::F32(Float32::Cell { origin: 0, offset: (-0.25f32).to_bits() }))
    );
    assert_eq!(parser.collect_cell_coordinate_grenade("Z", &300), None);
    assert_eq!(parser.collect_cell_coordinate_grenade("Z", &250), None);
    assert_eq!(parser.collect_cell_coordinate_grenade("X", &401), None);
    assert_eq!(parser.collect_cell_coordinate_grenade("X", &999), None);
}

#[test]
fn the_greatest_cell_has_an_exact_origin() {
    let mut parser = world();
    props(&mut parser, 300, SMOKE).insert(101, Variant::U32(u32::MAX));
    assert_eq!(
        parser.collect_cell_coordinate_grenade("X", &300),
        Some(Variant::F32(Float32::Cell {
            origin: 4294967295 * 512 - 16384,
            offset: 1.5f32.to_bits()
        }))
    );
    props(&mut parser, 300, SMOKE).insert(101, Variant::U32(0));
    assert_eq!(
        parser.collect_cell_coordinate_grenade("X", &300),
        Some(Variant::F32(Float32::Cell { origin: -16384, offset: 1.5f32.to_bits() }))
    );
}

#[test]
fn every_projectile_gives_one_record() {
    let mut parser = world();
    parser.projectiles.insert(300);
    parser.projectiles.insert(250);
    parser.projectiles.insert(999);
    parser.collect_projectiles();
    let expected = vec![
        ProjectileRecord {
            steamid: None,
            name: Some("carol".to_string()),
            x: None,
            y: None,
            z: None,
            tick: Some(77),
            grenade_type: Some("HeGrenade".to_string()),
        },
        ProjectileRecord {
            steamid: Some(76561198000000003),
            name: Some("bob".to_string()),
            x: Some(Float32::Cell { origin: -14848, offset: 1.5f32.to_bits() }),
            y: Some(Float32::Cell { origin: 0, offset: (-0.25f32).to_bits() }),
            z: None,
            tick: Some(77),
            grenade_type: Some("SmokeGrenade".to_string()),
        },
        ProjectileRecord {
            steamid: None,
            name: None,
            x: None,
            y: None,
            z: None,
            tick: Some(77),
            grenade_type: None,
        },
    ];
    assert_eq!(parser.projectile_records, expected);
}

#[test]
fn records_are_kept_from_tick_to_tick() {
    let mut parser = world();
    parser.projectiles.insert(300);
    parser.collect_projectiles();
    parser.tick = 78;
    parser.projectiles.insert(250);
    parser.collect_projectiles();
    let ticks: Vec<Option<i32>> = parser.projectile_records.iter().map(|r| r.tick).collect();
    assert_eq!(ticks, vec![Some(77), Some(78), Some(78)]);
    let kinds: Vec<Option<String>> =
        parser.projectile_records.iter().map(|r| r.grenade_type.clone()).collect();
    assert_eq!(
        kinds,
        vec![
            Some("SmokeGrenade".to_string()),
            Some("HeGrenade".to_string()),
            Some("SmokeGrenade".to_string())
        ]
    );
}

#[test]
fn without_projectiles_there_are_no_records() {
    let mut parser = world();
    parser.collect_projectiles();
    assert!(parser.projectile_records.is_empty());
}
