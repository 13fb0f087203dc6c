use parser::collect_data::{PropError, PropType};
use parser::entities::{Class, Entity, PlayerMetaData, Teams};
use parser::field_kinds::classify;
use parser::parser_settings::Parser;
use parser::variants::{Float32, Variant};
use std::collections::{HashMap, HashSet};

const PAWN: i32 = 7;
const CONTROLLER: i32 = 1;
const RULES: i32 = 60;
const TEAM_TWO: i32 = 52;

fn declare(parser: &mut Parser, name: &str, path: u32) {
    parser.prop_name_to_path.insert(name.to_string(), path);
}

fn store(parser: &mut Parser, entity_id: i32, cls_id: u32, path: u32, value: Variant) {
    let entity = parser
        .entities
        .entry(entity_id)
        .or_insert_with(|| Entity { cls_id, props: HashMap::new() });
    entity.props.insert(path, value);
}

fn player() -> PlayerMetaData {
    PlayerMetaData {
        steamid: Some(76561198000000001),
        name: Some("alice".to_string()),
        controller_entid: Some(CONTROLLER),
    }
}

fn snapshot() -> Parser {
    let mut parser = Parser::new(Vec::new(), HashSet::new(), false);
    parser.tick = 1234;
    declare(&mut parser, "CCSPlayerController.m_bPawnIsAlive", 1);
    declare(&mut parser, "CCSPlayerPawn.m_iTeamNum", 2);
    declare(&mut parser, "CCSPlayerPawn.m_iHealth", 3);
    declare(&mut parser, "CCSTeam.m_iScore", 4);
    declare(&mut parser, "CCSGameRulesProxy.CCSGameRules.m_bBombPlanted", 5);
    declare(&mut parser, "CCSPlayerController.m_iPing", 6);
    declare(&mut parser, "CCSPlayerPawn.m_angEyeAngles", 7);
    declare(&mut parser, "CCSPlayerPawn.CBodyComponentBaseAnimGraph.m_cellX", 8);
    declare(&mut parser, "CCSPlayerPawn.CBodyComponentBaseAnimGraph.m_vecX", 9);
    declare(&mut parser, "CCSPlayerPawn.CBodyComponentBaseAnimGraph.m_cellY", 10);
    declare(&mut parser, "CCSPlayerPawn.CBodyComponentBaseAnimGraph.m_vecY", 11);
    declare(&mut parser, "CCSPlayerPawn.CBodyComponentBaseAnimGraph.m_cellZ", 12);
    declare(&mut parser, "CCSPlayerPawn.CBodyComponentBaseAnimGraph.m_vecZ", 13);
    store(&mut parser, CONTROLLER, 0, 1, Variant::Bool(true));
    store(&mut parser, CONTROLLER, 0, 6, Variant::I32(35));
    store(&mut parser, PAWN, 0, 2, Variant::U32(2));
    store(&mut parser, PAWN, 0, 3, Variant::I32(87));
    store(&mut parser, PAWN, 0, 7, Variant::String("up".to_string()));
    store(&mut parser, PAWN, 0, 8, Variant::U32(3));
    store(&mut parser, PAWN, 0, 9, Variant::F32(Float32::Bits(1.5f32.to_bits())));
    store(&mut parser, PAWN, 0, 10, Variant::U32(40));
    store(&mut parser, PAWN, 0, 13, Variant::F32(Float32::Bits(2.0f32.to_bits())));
    store(&mut parser, TEAM_TWO, 0, 4, Variant::I32(11));
    store(&mut parser, RULES, 0, 5, Variant::Bool(false));
    parser.teams = Teams { team1_entid: None, team2_entid: Some(TEAM_TWO), team3_entid: None };
    parser.rules_entity_id = Some(RULES);
    parser.players.insert(PAWN, player());
    parser
}

#[test]
fn the_table_gives_each_kind() {
    assert_eq!(classify("CCSTeam.m_iTeamNum"), Some(PropType::Team));
    assert_eq!(classify("CCSTeam.m_szClanTeamname"), Some(PropType::Team));
    assert_eq!(
        classify("CCSGameRulesProxy.CCSGameRules.m_bFreezePeriod"),
        Some(PropType::Rules)
    );
    assert_eq!(
        classify("CCSGameRulesProxy.CCSGameRules.m_bTeamIntroPeriod"),
        Some(PropType::Rules)
    );
    assert_eq!(
        classify("CCSGameRulesProxy.CCSGameRules.m_SpawnTileState"),
        Some(PropType::Rules)
    );
    assert_eq!(classify("CCSPlayerController.m_iPing"), Some(PropType::Controller));
    assert_eq!(
        classify("CCSPlayerController.CCSPlayerController_DamageServices.CDamageRecord.m_killType"),
        Some(PropType::Controller)
    );
    assert_eq!(classify("CCSPlayerPawn.m_MoveCollide"), Some(PropType::Player));
    assert_eq!(classify("CCSPlayerPawn.m_lifeState"), Some(PropType::Player));
    assert_eq!(
        classify("CCSPlayerPawn.CCSPlayer_MovementServices.m_flLastDuckTime"),
        Some(PropType::Player)
    );
    assert_eq!(classify("X"), Some(PropType::Custom));
    assert_eq!(classify("Y"), Some(PropType::Custom));
    assert_eq!(classify("Z"), Some(PropType::Custom));
}

#[test]
fn the_table_lists_nothing_else() {
    assert_eq!(classify("W"), None);
    assert_eq!(classify(""), None);
    assert_eq!(classify("x"), None);
    assert_eq!(classify("tick"), None);
    assert_eq!(classify("steamid"), None);
    assert_eq!(classify("name"), None);
    assert_eq!(classify("CCSTeam.m_iTeamNu"), None);
    assert_eq!(classify("CCSTeam.m_iTeamNum "), None);
    assert_eq!(classify("CCSPlayerPawn.m_angEyeAngles"), None);
}

#[test]
fn a_field_is_read_from_the_entity_that_holds_it() {
    let parser = snapshot();
    assert_eq!(parser.get_prop_for_ent("CCSPlayerPawn.m_iHealth", &PAWN), Some(Variant::I32(87)));
    assert_eq!(parser.get_prop_for_ent("CCSTeam.m_iScore", &TEAM_TWO), Some(Variant::I32(11)));
}

#[test]
fn a_lookup_misses_without_entity_path_or_value() {
    let parser = snapshot();
    assert_eq!(parser.get_prop_for_ent("CCSPlayerPawn.m_iHealth", &999), None);
    assert_eq!(parser.get_prop_for_ent("CCSPlayerPawn.m_iArmor", &PAWN), None);
    assert_eq!(parser.get_prop_for_ent("CCSPlayerPawn.m_iHealth", &CONTROLLER), None);
}

#[test]
fn the_metadata_fields_come_from_the_player_and_the_tick() {
    let parser = snapshot();
    let player = player();
    assert_eq!(parser.find_prop("tick", &PAWN, &player), Some(Variant::I32(1234)));
    assert_eq!(
        parser.find_prop("steamid", &PAWN, &player),
        Some(Variant::U64(76561198000000001))
    );
    assert_eq!(
        parser.find_prop("name", &PAWN, &player),
        Some(Variant::String("alice".to_string()))
    );
}

#[test]
fn missing_metadata_resolves_to_nothing() {
    let parser = snapshot();
    let nobody = PlayerMetaData { steamid: None, name: None, controller_entid: None };
    assert_eq!(parser.find_prop("steamid", &PAWN, &nobody), None);
    assert_eq!(parser.find_prop("name", &PAWN, &nobody), None);
    assert_eq!(parser.find_prop("tick", &PAWN, &nobody), Some(Variant::I32(1234)));
}

#[test]
fn a_team_field_is_read_from_the_team_of_the_pawn() {
    let parser = snapshot();
    assert_eq!(parser.find_prop("CCSTeam.m_iScore", &PAWN, &player()), Some(Variant::I32(11)));
    assert_eq!(parser.find_team_prop(&PAWN, "CCSTeam.m_iScore"), Some(Variant::I32(11)));
}

#[test]
fn a_team_field_needs_a_team_number_with_an_entity() {
    let mut parser = snapshot();
    store(&mut parser, PAWN, 0, 2, Variant::U32(3));
    assert_eq!(parser.find_team_prop(&PAWN, "CCSTeam.m_iScore"), None);
    store(&mut parser, PAWN, 0, 2, Variant::U32(0));
    assert_eq!(parser.find_team_prop(&PAWN, "CCSTeam.m_iScore"), None);
    store(&mut parser, PAWN, 0, 2, Variant::U32(4));
    assert_eq!(parser.find_team_prop(&PAWN, "CCSTeam.m_iScore"), None);
    store(&mut parser, PAWN, 0, 2, Variant::I32(2));
    assert_eq!(parser.find_team_prop(&PAWN, "CCSTeam.m_iScore"), None);
    assert_eq!(parser.find_team_prop(&CONTROLLER, "CCSTeam.m_iScore"), None);
}

#[test]
fn each_team_number_has_its_own_slot() {
    let teams = Teams { team1_entid: Some(51), team2_entid: Some(52), team3_entid: Some(53) };
    assert_eq!(teams.team_entity(1), Some(51));
    assert_eq!(teams.team_entity(2), Some(52));
    assert_eq!(teams.team_entity(3), Some(53));
    assert_eq!(teams.team_entity(0), None);
    assert_eq!(teams.team_entity(4), None);
}

#[test]
fn a_rules_field_is_read_from_the_rules_entity() {
    let mut parser = snapshot();
    let name = "CCSGameRulesProxy.CCSGameRules.m_bBombPlanted";
    assert_eq!(parser.find_prop(name, &PAWN, &player()), Some(Variant::Bool(false)));
    parser.rules_entity_id = None;
    assert_eq!(parser.find_prop(name, &PAWN, &player()), None);
}

#[test]
fn a_controller_field_is_read_from_the_controller() {
    let parser = snapshot();
    let name = "CCSPlayerController.m_iPing";
    assert_eq!(parser.find_prop(name, &PAWN, &player()), Some(Variant::I32(35)));
    let nobody = PlayerMetaData { steamid: None, name: None, controller_entid: None };
    assert_eq!(parser.find_prop(name, &PAWN, &nobody), None);
}

#[test]
fn a_pawn_field_is_read_while_the_pawn_is_alive() {
    let parser = snapshot();
    assert_eq!(
        parser.find_prop("CCSPlayerPawn.m_iHealth", &PAWN, &player()),
        Some(Variant::I32(87))
    );
}

#[test]
fn a_pawn_field_of_a_dead_player_resolves_to_nothing() {
    let mut parser = snapshot();
    store(&mut parser, CONTROLLER, 0, 1, Variant::Bool(false));
    assert_eq!(parser.find_prop("CCSPlayerPawn.m_iHealth", &PAWN, &player()), None);
    assert_eq!(
        parser.get_prop_for_ent("CCSPlayerPawn.m_iHealth", &PAWN),
        Some(Variant::I32(87))
    );
}

#[test]
fn a_pawn_field_without_liveness_resolves_to_nothing() {
    let mut parser = snapshot();
    parser.entities.remove(&CONTROLLER);
    assert_eq!(parser.find_prop("CCSPlayerPawn.m_iHealth", &PAWN, &player()), None);
    let mut parser = snapshot();
    store(&mut parser, CONTROLLER, 0, 1, Variant::U32(1));
    assert_eq!(parser.find_prop("CCSPlayerPawn.m_iHealth", &PAWN, &player()), None);
    let parser = snapshot();
    let nobody = PlayerMetaData { steamid: None, name: None, controller_entid: None };
    assert_eq!(parser.find_prop("CCSPlayerPawn.m_iHealth", &PAWN, &nobody), None);
}

#[test]
fn an_unlisted_field_is_read_from_the_entity_asked() {
    let mut parser = snapshot();
    let name = "CCSPlayerPawn.m_angEyeAngles";
    let direct = parser.get_prop_for_ent(name, &PAWN);
    assert_eq!(direct, Some(Variant::String("up".to_string())));
    assert_eq!(parser.find_prop(name, &PAWN, &player()), direct);
    store(&mut parser, CONTROLLER, 0, 1, Variant::Bool(false));
    assert_eq!(parser.find_prop(name, &PAWN, &player()), direct);
    assert_eq!(parser.find_prop("W", &PAWN, &player()), None);
}

#[test]
fn resolving_twice_gives_the_same_value() {
    let parser = snapshot();
    let player = player();
    for name in ["tick", "name", "CCSTeam.m_iScore", "CCSPlayerPawn.m_iHealth", "X", "Y", "W"] {
        let first = parser.find_prop(name, &PAWN, &player);
        let second = parser.find_prop(name, &PAWN, &player);
        assert_eq!(first, second);
    }
}

#[test]
fn a_coordinate_is_its_cell_and_its_offset() {
    let parser = snapshot();
    let x = parser.collect_cell_coordinate_player("X", &PAWN);
    assert_eq!(x, Some(Variant::F32(Float32::Cell { origin: -14848, offset: 1.5f32.to_bits() })));
    assert_eq!(parser.find_prop("X", &PAWN, &player()), x);
    assert_eq!(parser.create_custom_prop("X", &PAWN), Ok(x));
    match parser.find_prop("X", &PAWN, &player()) {
        Some(Variant::F32(Float32::Cell { origin, offset })) => {
            assert_eq!(origin as f32 + f32::from_bits(offset), -14846.5);
        }
        other => panic!("no coordinate: {:?}", other),
    }
}

#[test]
fn a_coordinate_needs_its_cell_and_its_offset() {
    let mut parser = snapshot();
    assert_eq!(parser.collect_cell_coordinate_player("Y", &PAWN), None);
    assert_eq!(parser.collect_cell_coordinate_player("Z", &PAWN), None);
    assert_eq!(parser.collect_cell_coordinate_player("X", &CONTROLLER), None);
    assert_eq!(parser.create_custom_prop("Y", &PAWN), Ok(None));
    assert_eq!(parser.find_prop("Z", &PAWN, &player()), None);
    store(&mut parser, PAWN, 0, 8, Variant::I32(3));
    assert_eq!(parser.collect_cell_coordinate_player("X", &PAWN), None);
    store(&mut parser, PAWN, 0, 8, Variant::U32(3));
    store(&mut parser, PAWN, 0, 9, Variant::U32(1));
    assert_eq!(parser.collect_cell_coordinate_player("X", &PAWN), None);
    store(&mut parser, PAWN, 0, 9, Variant::F32(Float32::Cell { origin: 512, offset: 0 }));
    assert_eq!(parser.collect_cell_coordinate_player("X", &PAWN), None);
}

#[test]
fn an_unknown_custom_field_is_an_error() {
    let parser = snapshot();
    let error = parser.create_custom_prop("W", &PAWN);
    assert_eq!(error, Err(PropError::UnknownCustomProp("W".to_string())));
    assert_eq!(error.unwrap_err().message(), "unknown custom prop: W");
    assert_eq!(
        parser.create_custom_prop("x", &PAWN),
        Err(PropError::UnknownCustomProp("x".to_string()))
    );
    assert_eq!(
        parser.create_custom_prop("CCSPlayerPawn.m_iHealth", &PAWN),
        Err(PropError::UnknownCustomProp("CCSPlayerPawn.m_iHealth".to_string()))
    );
}

#[test]
fn a_class_is_known_by_its_id() {
    let mut parser = snapshot();
    parser.cls_by_id = vec![None, Some(Class { name: "CSmokeGrenadeProjectile".to_string() })];
    store(&mut parser, 200, 1, 3, Variant::I32(1));
    assert_eq!(parser.find_grenade_type(&200), Some("SmokeGrenade".to_string()));
}
