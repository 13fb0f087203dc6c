use parser::entities::{Entity, PlayerMetaData};
use parser::parser_settings::Parser;
use parser::variants::{Float32, OutputColumns, PropColumn, Variant};
use std::collections::{HashMap, HashSet};

fn entity(props: Vec<(u32, Variant)>) -> Entity {
    Entity { cls_id: 0, props: props.into_iter().collect::<HashMap<u32, Variant>>() }
}

fn someone(steamid: u64, name: &str, controller: i32) -> PlayerMetaData {
    PlayerMetaData {
        steamid: Some(steamid),
        name: Some(name.to_string()),
        controller_entid: Some(controller),
    }
}

fn match_of_two(wanted: &[&str], ticks: &[i32]) -> Parser {
    let wanted = wanted.iter().map(|name| name.to_string()).collect();
    let ticks: HashSet<i32> = ticks.iter().copied().collect();
    let mut parser = Parser::new(wanted, ticks, false);
    parser.prop_name_to_path.insert("CCSPlayerController.m_bPawnIsAlive".to_string(), 1);
    parser.prop_name_to_path.insert("CCSPlayerPawn.m_iHealth".to_string(), 2);
    parser.prop_name_to_path.insert("CCSPlayerPawn.CBodyComponentBaseAnimGraph.m_cellX".to_string(), 3);
    parser.prop_name_to_path.insert("CCSPlayerPawn.CBodyComponentBaseAnimGraph.m_vecX".to_string(), 4);
    parser.players.insert(20, someone(2, "second", 2));
    parser.players.insert(10, someone(1, "first", 1));
    parser.entities.insert(1, entity(vec![(1, Variant::Bool(true))]));
    parser.entities.insert(2, entity(vec![(1, Variant::Bool(false))]));
    parser.entities.insert(
        10,
        entity(vec![
            (2, Variant::I32(100)),
            (3, Variant::U32(32)),
            (4, Variant::F32(Float32::Bits(7.25f32.to_bits()))),
        ]),
    );
    parser.entities.insert(20, entity(vec![(2, Variant::I32(55))]));
    parser
}

fn entries(parser: &Parser, name: &str) -> Vec<Option<Variant>> {
    match parser.output.get(name) {
        Some(column) => column.data.clone(),
        None => Vec::new(),
    }
}

#[test]
fn a_new_column_is_empty() {
    let column = PropColumn::new();
    assert_eq!(column.len(), 0);
    assert!(column.data.is_empty());
}

#[test]
fn a_column_keeps_its_entries_in_order() {
    let mut column = PropColumn::new();
    column.push(Some(Variant::I32(1)));
    column.push(None);
    column.push(Some(Variant::Bool(true)));
    assert_eq!(column.len(), 3);
    assert_eq!(column.data, vec![Some(Variant::I32(1)), None, Some(Variant::Bool(true))]);
}

#[test]
fn a_column_is_made_with_its_first_entry() {
    let mut output = OutputColumns::new();
    assert!(output.names().is_empty());
    assert_eq!(output.get("a"), None);
    output.push("a", Some(Variant::U32(1)));
    output.push("b", None);
    output.push("a", Some(Variant::U32(2)));
    assert_eq!(output.names(), &vec!["a".to_string(), "b".to_string()]);
    assert_eq!(output.get("a").unwrap().data, vec![Some(Variant::U32(1)), Some(Variant::U32(2))]);
    assert_eq!(output.get("b").unwrap().data, vec![None]);
    assert_eq!(output.get("c"), None);
    assert_eq!(output.get(""), None);
}

#[test]
fn one_tick_gives_each_column_one_entry_per_player() {
    let mut parser = match_of_two(&["tick", "name", "CCSPlayerPawn.m_iHealth", "X"], &[]);
    parser.tick = 5;
    parser.collect_entities();
    assert_eq!(entries(&parser, "tick"), vec![Some(Variant::I32(5)), Some(Variant::I32(5))]);
    assert_eq!(
        entries(&parser, "name"),
        vec![
            Some(Variant::String("first".to_string())),
            Some(Variant::String("second".to_string()))
        ]
    );
    assert_eq!(entries(&parser, "CCSPlayerPawn.m_iHealth"), vec![Some(Variant::I32(100)), None]);
    assert_eq!(
        entries(&parser, "X"),
        vec![Some(Variant::F32(Float32::Cell { origin: 0, offset: 7.25f32.to_bits() })), None]
    );
    assert_eq!(parser.output.names().len(), 4);
}

#[test]
fn the_columns_stay_aligned_over_the_ticks() {
    let wanted = ["steamid", "tick", "CCSPlayerPawn.m_iHealth"];
    let mut parser = match_of_two(&wanted, &[]);
    for tick in 0..4 {
        parser.tick = tick;
        parser.entities.get_mut(&10).unwrap().props.insert(2, Variant::I32(100 - tick));
        parser.collect_entities();
    }
    for name in wanted {
        assert_eq!(entries(&parser, name).len(), 4 * 2);
    }
    let steamids = entries(&parser, "steamid");
    let ticks = entries(&parser, "tick");
    let healths = entries(&parser, "CCSPlayerPawn.m_iHealth");
    for row in 0..8 {
        let tick = (row / 2) as i32;
        assert_eq!(ticks[row], Some(Variant::I32(tick)));
        if row % 2 == 0 {
            assert_eq!(steamids[row], Some(Variant::U64(1)));
            assert_eq!(healths[row], Some(Variant::I32(100 - tick)));
        } else {
            assert_eq!(steamids[row], Some(Variant::U64(2)));
            assert_eq!(healths[row], None);
        }
    }
}

#[test]
fn a_tick_that_was_not_picked_leaves_no_trace() {
    let mut parser = match_of_two(&["tick"], &[3, 5]);
    parser.parse_projectiles = true;
    parser.projectiles.insert(10);
    parser.tick = 4;
    parser.collect_entities();
    assert!(parser.output.names().is_empty());
    assert!(parser.projectile_records.is_empty());
    parser.tick = 5;
    parser.collect_entities();
    assert_eq!(entries(&parser, "tick"), vec![Some(Variant::I32(5)), Some(Variant::I32(5))]);
    assert_eq!(parser.projectile_records.len(), 1);
    assert_eq!(parser.projectile_records[0].tick, Some(5));
    parser.tick = 6;
    parser.collect_entities();
    assert_eq!(entries(&parser, "tick").len(), 2);
    assert_eq!(parser.projectile_records.len(), 1);
}

#[test]
fn without_picked_ticks_every_tick_is_collected() {
    let mut parser = match_of_two(&["tick"], &[]);
    for tick in [-1, 0, 7] {
        parser.tick = tick;
        parser.collect_entities();
    }
    let ticks: Vec<Option<Variant>> =
        [-1, -1, 0, 0, 7, 7].iter().map(|t| Some(Variant::I32(*t))).collect();
    assert_eq!(entries(&parser, "tick"), ticks);
}

#[test]
fn projectiles_are_collected_only_on_request() {
    let mut parser = match_of_two(&["tick"], &[]);
    parser.projectiles.insert(10);
    parser.collect_entities();
    assert!(parser.projectile_records.is_empty());
    parser.parse_projectiles = true;
    parser.collect_entities();
    assert_eq!(parser.projectile_records.len(), 1);
}

#[test]
fn without_players_no_column_is_made() {
    let mut parser = match_of_two(&["tick", "X"], &[]);
    parser.players.clear();
    parser.collect_entities();
    assert!(parser.output.names().is_empty());
}

#[test]
fn without_wanted_fields_no_column_is_made() {
    let mut parser = match_of_two(&[], &[]);
    parser.collect_entities();
    assert!(parser.output.names().is_empty());
}

#[test]
fn a_field_wanted_twice_gets_two_entries_per_player() {
    let mut parser = match_of_two(&["tick", "tick"], &[]);
    parser.tick = 9;
    parser.collect_entities();
    assert_eq!(entries(&parser, "tick").len(), 4);
    assert_eq!(parser.output.names().len(), 1);
}

#[test]
fn players_are_visited_by_ascending_pawn() {
    let mut parser = match_of_two(&["steamid"], &[]);
    parser.players.insert(-4, someone(3, "third", 3));
    parser.collect_entities();
    assert_eq!(
        entries(&parser, "steamid"),
        vec![Some(Variant::U64(3)), Some(Variant::U64(1)), Some(Variant::U64(2))]
    );
}

#[test]
fn collecting_leaves_the_snapshot_as_it_is() {
    let mut parser = match_of_two(&["tick", "CCSPlayerPawn.m_iHealth"], &[]);
    let player = someone(1, "first", 1);
    let before = parser.find_prop("CCSPlayerPawn.m_iHealth", &10, &player);
    parser.collect_entities();
    parser.collect_entities();
    assert_eq!(parser.find_prop("CCSPlayerPawn.m_iHealth", &10, &player), before);
    assert_eq!(parser.players.len(), 2);
    assert_eq!(parser.entities.len(), 4);
    assert_eq!(parser.wanted_player_props.len(), 2);
}

#[test]
fn a_new_parser_has_read_nothing() {
    let wanted: HashSet<i32> = [1, 2].into_iter().collect();
    let parser = Parser::new(vec!["tick".to_string()], wanted.clone(), true);
    assert_eq!(parser.tick, 0);
    assert_eq!(parser.wanted_ticks, wanted);
    assert_eq!(parser.wanted_player_props, vec!["tick".to_string()]);
    assert!(parser.parse_projectiles);
    assert!(parser.entities.is_empty());
    assert!(parser.cls_by_id.is_empty());
    assert!(parser.prop_name_to_path.is_empty());
    assert!(parser.players.is_empty());
    assert_eq!(parser.rules_entity_id, None);
    assert!(parser.projectiles.is_empty());
    assert!(parser.output.names().is_empty());
    assert!(parser.projectile_records.is_empty());
}

#[test]
fn a_copy_of_a_value_equals_it() {
    let values = vec![
        Variant::Bool(true),
        Variant::U32(7),
        Variant::I32(-7),
        Variant::F32(Float32::Bits(0x3fc00000)),
        Variant::F32(Float32::Cell { origin: -512, offset: 1 }),
        Variant::U64(u64::MAX),
        Variant::String("text".to_string()),
        Variant::Handle(0x800003),
    ];
    for value in &values {
        assert_eq!(&value.clone(), value);
    }
    let player = someone(1, "first", 1);
    assert_eq!(player.clone(), player);
    assert_ne!(Variant::U32(7), Variant::Handle(7));
    assert_ne!(Variant::U32(7), Variant::I32(7));
}
