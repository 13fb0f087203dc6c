//! What holds of resolution and collection whatever the demo holds.

use vstd::prelude::*;
use crate::collect_data::{coordinate_of, owner_of_handle, PropType};
use crate::entities::PlayerMetaData;
use crate::field_kinds::{
    classification, is_axis_field, is_metadata_field, lemma_custom_fields_are_the_axes, lists,
    CONTROLLER_FIELDS, PLAYER_FIELDS, RULES_FIELDS, TEAM_FIELDS,
};
use crate::order::lemma_ascending_lists;
use crate::parser_settings::Parser;
use crate::variants::{column_entries, Columns, Variant};

verus! {

/// Without its cell or without its offset there is no coordinate.
pub proof fn lemma_coordinate_needs_both_parts(cell: Option<Variant>, offset: Option<Variant>)
    requires
        cell is None || offset is None,
    ensures
        coordinate_of(cell, offset) is None,
{
}

/// The owner of a handle is what the handle's lowest eleven bits hold.
pub proof fn lemma_owner_is_the_low_bits(handle: u32)
    ensures
        owner_of_handle(handle) == handle % 2048,
{
    assert(handle & 0x7FF == handle % 2048) by (bit_vector);
}

/// A field that the table does not list, and that is none of the three
/// metadata fields, is read from the entity it was asked of.
pub proof fn lemma_unlisted_field_is_read_directly(
    parser: Parser,
    name: Seq<char>,
    entity_id: i32,
    player: PlayerMetaData,
)
    requires
        classification(name) is None,
        !is_metadata_field(name),
    ensures
        parser.resolved(name, entity_id, player) == parser.lookup(name, entity_id),
{
}

/// A field of the pawn has no value for a player whose pawn is not known
/// to be alive, whatever the pawn holds.
pub proof fn lemma_dead_player_has_no_pawn_fields(
    parser: Parser,
    name: Seq<char>,
    entity_id: i32,
    player: PlayerMetaData,
)
    requires
        classification(name) == Some(PropType::Player),
        !parser.is_alive(player),
    ensures
        parser.resolved(name, entity_id, player) is None,
{
    if is_metadata_field(name) {
        lemma_metadata_fields_are_unlisted(name);
    }
}

/// What a field resolves to depends on the request and the snapshot
/// alone: with both unchanged, it resolves to the same value again,
/// whatever has been collected in between.
pub proof fn lemma_resolution_reads_the_snapshot_alone(
    first: Parser,
    second: Parser,
    name: Seq<char>,
    entity_id: i32,
    player: PlayerMetaData,
)
    requires
        first.same_snapshot(&second),
    ensures
        first.resolved(name, entity_id, player) == second.resolved(name, entity_id, player),
{
}

/// Whether no two of `names` are the same text.
pub open spec fn distinct_names(names: Seq<String>) -> bool {
    forall|i: int, j: int| 0 <= i < j < names.len() ==> names[i]@ != names[j]@
}

/// Whether `name` is one of the first `count` of `names`.
pub open spec fn among(names: Seq<String>, count: int, name: Seq<char>) -> bool {
    exists|k: int| 0 <= k < count && k < names.len() && names[k]@ == name
}

impl Parser {
    /// Whether the field `name` is asked for.
    pub open spec fn wants(&self, name: Seq<char>) -> bool {
        among(self.wanted_player_props@, self.wanted_player_props@.len() as int, name)
    }

    /// The entries that this tick gives the column `name`: what the field
    /// resolves to for each player, in the order of the visit.
    pub open spec fn tick_entries(&self, name: Seq<char>) -> Seq<Option<Variant>> {
        self.player_order().map_values(
            |pawn: i32| self.resolved(name, pawn, self.players@[pawn]),
        )
    }
}

/// Resolving the first `count` wanted fields for one player appends one
/// entry to the column of each of them, and leaves all other columns as
/// they are, where no field is wanted twice.
pub proof fn lemma_fields_append_one_entry(
    parser: Parser,
    columns: Columns,
    pawn: i32,
    count: int,
    name: Seq<char>,
)
    requires
        distinct_names(parser.wanted_player_props@),
        0 <= count <= parser.wanted_player_props@.len(),
    ensures
        among(parser.wanted_player_props@, count, name) ==> column_entries(
            parser.with_fields(columns, pawn, count),
            name,
        ) == column_entries(columns, name).push(
            parser.resolved(name, pawn, parser.players@[pawn]),
        ),
        !among(parser.wanted_player_props@, count, name) ==> column_entries(
            parser.with_fields(columns, pawn, count),
            name,
        ) == column_entries(columns, name) && (parser.with_fields(
            columns,
            pawn,
            count,
        ).contains_key(name) <==> columns.contains_key(name)),
    decreases count,
{
    if count > 0 {
        lemma_fields_append_one_entry(parser, columns, pawn, count - 1, name);
        let names = parser.wanted_player_props@;
        if names[count - 1]@ == name {
            // The field is wanted once: not among the fields before.
            assert(!among(names, count - 1, name));
        } else {
            assert(among(names, count, name) == among(names, count - 1, name));
        }
    }
}

/// Collecting the first `count` players appends one entry for each of
/// them to the column of each wanted field, in the order of the visit,
/// and leaves all other columns as they are, where no field is wanted
/// twice.
pub proof fn lemma_players_append_their_entries(
    parser: Parser,
    columns: Columns,
    count: int,
    name: Seq<char>,
)
    requires
        distinct_names(parser.wanted_player_props@),
        0 <= count <= parser.player_order().len(),
    ensures
        parser.wants(name) ==> column_entries(parser.with_players(columns, count), name)
            == column_entries(columns, name) + parser.tick_entries(name).take(count),
        !parser.wants(name) ==> column_entries(parser.with_players(columns, count), name)
            == column_entries(columns, name) && (parser.with_players(columns, count).contains_key(
            name,
        ) <==> columns.contains_key(name)),
    decreases count,
{
    if count > 0 {
        lemma_players_append_their_entries(parser, columns, count - 1, name);
        lemma_fields_append_one_entry(
            parser,
            parser.with_players(columns, count - 1),
            parser.player_order()[count - 1],
            parser.wanted_player_props@.len() as int,
            name,
        );
        if parser.wants(name) {
            let entries = parser.tick_entries(name);
            assert(column_entries(parser.with_players(columns, count), name) =~= column_entries(
                columns,
                name,
            ) + entries.take(count));
        }
    } else {
        assert(column_entries(columns, name) + Seq::<Option<Variant>>::empty() =~= column_entries(
            columns,
            name,
        ));
    }
}

/// One tick, one entry per player in every wanted column: where no field
/// is wanted twice, collecting a tick appends to the column of each wanted
/// field what the field resolves to for each player, in one order for all
/// columns, and changes no other column.
pub proof fn lemma_tick_appends_one_row_per_player(
    parser: Parser,
    columns: Columns,
    name: Seq<char>,
)
    requires
        distinct_names(parser.wanted_player_props@),
    ensures
        parser.wants(name) ==> column_entries(parser.collected(columns), name) == column_entries(
            columns,
            name,
        ) + parser.tick_entries(name),
        !parser.wants(name) ==> column_entries(parser.collected(columns), name) == column_entries(
            columns,
            name,
        ) && (parser.collected(columns).contains_key(name) <==> columns.contains_key(name)),
        parser.tick_entries(name).len() == parser.players@.dom().len(),
{
    lemma_players_append_their_entries(parser, columns, parser.player_order().len() as int, name);
    lemma_ascending_lists(parser.players@.dom());
}

proof fn lemma_fields_only_append(
    parser: Parser,
    columns: Columns,
    pawn: i32,
    count: int,
    name: Seq<char>,
)
    ensures
        column_entries(columns, name).is_prefix_of(
            column_entries(parser.with_fields(columns, pawn, count), name),
        ),
        columns.contains_key(name) ==> parser.with_fields(columns, pawn, count).contains_key(name),
    decreases count,
{
    if count > 0 {
        lemma_fields_only_append(parser, columns, pawn, count - 1, name);
    }
}

proof fn lemma_players_only_append(parser: Parser, columns: Columns, count: int, name: Seq<char>)
    ensures
        column_entries(columns, name).is_prefix_of(
            column_entries(parser.with_players(columns, count), name),
        ),
        columns.contains_key(name) ==> parser.with_players(columns, count).contains_key(name),
    decreases count,
{
    if count > 0 {
        lemma_players_only_append(parser, columns, count - 1, name);
        lemma_fields_only_append(
            parser,
            parser.with_players(columns, count - 1),
            parser.player_order()[count - 1],
            parser.wanted_player_props@.len() as int,
            name,
        );
    }
}

/// Collecting only appends: a tick removes no column, and every column
/// begins after the tick with the entries that it had before, whatever is
/// wanted and whoever plays.
pub proof fn lemma_collecting_only_appends(parser: Parser, columns: Columns, name: Seq<char>)
    ensures
        column_entries(columns, name).is_prefix_of(
            column_entries(parser.collected(columns), name),
        ),
        columns.contains_key(name) ==> parser.collected(columns).contains_key(name),
{
    lemma_players_only_append(parser, columns, parser.player_order().len() as int, name);
}

/// The columns after the first `count` of `ticks` were collected, one
/// after the other, starting without any column.
pub open spec fn collected_over(ticks: Seq<Parser>, count: int) -> Columns
    decreases count,
{
    if count <= 0 {
        Map::empty()
    } else {
        let tick = ticks[count - 1];
        let before = collected_over(ticks, count - 1);
        if tick.skips_tick() {
            before
        } else {
            tick.collected(before)
        }
    }
}

/// Whether each of `ticks` is collected, asks for the fields `names` and
/// has `players` players.
pub open spec fn uniform_ticks(ticks: Seq<Parser>, names: Seq<String>, players: nat) -> bool {
    forall|t: int|
        0 <= t < ticks.len() ==> {
            &&& !(#[trigger] ticks[t]).skips_tick()
            &&& ticks[t].wanted_player_props@ == names
            &&& ticks[t].players@.dom().len() == players
        }
}

proof fn lemma_rows_before(earlier: int, later: int, players: nat, player: int)
    requires
        0 <= earlier < later,
        0 <= player < players,
    ensures
        0 <= earlier * players + player < later * players,
        later * players == (later - 1) * players + players,
{
    assert(0 <= earlier * players) by (nonlinear_arith)
        requires
            0 <= earlier,
    ;
    assert((earlier + 1) * players <= later * players) by (nonlinear_arith)
        requires
            earlier + 1 <= later,
    ;
    assert((earlier + 1) * players == earlier * players + players) by (nonlinear_arith);
    assert(later * players == (later - 1) * players + players) by (nonlinear_arith);
}

/// The columns stay aligned: after any number of ticks, each with the
/// same wanted fields, none wanted twice, and the same number of players,
/// the column of every wanted field has one entry for each tick and
/// player, and the entry at a given place belongs to the same tick and
/// player in all of them.
pub proof fn lemma_columns_stay_aligned(
    ticks: Seq<Parser>,
    count: int,
    names: Seq<String>,
    players: nat,
    name: Seq<char>,
)
    requires
        distinct_names(names),
        among(names, names.len() as int, name),
        uniform_ticks(ticks, names, players),
        0 <= count <= ticks.len(),
    ensures
        column_entries(collected_over(ticks, count), name).len() == count * players,
        forall|t: int, player: int|
            0 <= t < count && 0 <= player < players ==> column_entries(
                collected_over(ticks, count),
                name,
            )[t * players + player] == #[trigger] ticks[t].tick_entries(name)[player],
    decreases count,
{
    if count > 0 {
        lemma_columns_stay_aligned(ticks, count - 1, names, players, name);
        let earlier = column_entries(collected_over(ticks, count - 1), name);
        let after = column_entries(collected_over(ticks, count), name);
        lemma_tick_appends_one_row_per_player(
            ticks[count - 1],
            collected_over(ticks, count - 1),
            name,
        );
        assert(count * players == (count - 1) * players + players) by (nonlinear_arith);
        assert forall|t: int, player: int| 0 <= t < count && 0 <= player < players implies after[t
            * players + player] == #[trigger] ticks[t].tick_entries(name)[player] by {
            if t < count - 1 {
                lemma_rows_before(t, count - 1, players, player);
            }
        }
    } else {
        assert(count * players == 0) by (nonlinear_arith)
            requires
                count == 0,
        ;
    }
}

/// The number of characters of the shortest name that the table lists
/// besides the axes.
pub const SHORTEST_LISTED_NAME: usize = 16;

/// Whether each of the first `count` of `fields` has `least` characters
/// or more.
pub open spec fn all_long(fields: Seq<&'static str>, count: int, least: int) -> bool
    decreases count,
{
    count <= 0 || (fields[count - 1]@.len() >= least && all_long(fields, count - 1, least))
}

proof fn lemma_all_long(fields: Seq<&'static str>, count: int, least: int, name: Seq<char>)
    requires
        all_long(fields, count, least),
        0 <= count <= fields.len(),
        exists|i: int| 0 <= i < count && (#[trigger] fields[i])@ == name,
    ensures
        name.len() >= least,
    decreases count,
{
    if fields[count - 1]@ != name {
        lemma_all_long(fields, count - 1, least, name);
    }
}

proof fn lemma_team_fields_are_long()
    ensures
        all_long(TEAM_FIELDS@, 12, SHORTEST_LISTED_NAME as int),
{
    reveal_strlit("CCSTeam.m_iTeamNum");
    reveal_strlit("CCSTeam.m_aPlayers");
    reveal_strlit("CCSTeam.m_aPawns");
    reveal_strlit("CCSTeam.m_iScore");
    reveal_strlit("CCSTeam.m_szTeamname");
    reveal_strlit("CCSTeam.m_bSurrendered");
    reveal_strlit("CCSTeam.m_szTeamMatchStat");
    reveal_strlit("CCSTeam.m_numMapVictories");
    reveal_strlit("CCSTeam.m_scoreFirstHalf");
    reveal_strlit("CCSTeam.m_scoreSecondHalf");
    reveal_strlit("CCSTeam.m_scoreOvertime");
    reveal_strlit("CCSTeam.m_szClanTeamname");
    reveal_with_fuel(all_long, 13);
}

proof fn lemma_rules_fields_are_long()
    ensures
        all_long(RULES_FIELDS@, 110, SHORTEST_LISTED_NAME as int),
{
    reveal_strlit("CCSGameRulesProxy.CCSGameRules.m_bFreezePeriod");
    reveal_strlit("CCSGameRulesProxy.CCSGameRules.m_bWarmupPeriod");
    reveal_strlit("CCSGameRulesProxy.CCSGameRules.m_fWarmupPeriodEnd");
    reveal_strlit("CCSGameRulesProxy.CCSGameRules.m_fWarmupPeriodStart");
    reveal_strlit("CCSGameRulesProxy.CCSGameRules.m_bTerroristTimeOutActive");
    reveal_strlit("CCSGameRulesProxy.CCSGameRules.m_bCTTimeOutActive");
    reveal_strlit("CCSGameRulesProxy.CCSGameRules.m_flTerroristTimeOutRemaining");
    reveal_strlit("CCSGameRulesProxy.CCSGameRules.m_flCTTimeOutRemaining");
    reveal_strlit("CCSGameRulesProxy.CCSGameRules.m_nTerroristTimeOuts");
    reveal_strlit("CCSGameRulesProxy.CCSGameRules.m_nCTTimeOuts");
    reveal_strlit("CCSGameRulesProxy.CCSGameRules.m_bTechnicalTimeOut");
    reveal_strlit("CCSGameRulesProxy.CCSGameRules.m_bMatchWaitingForResume");
    reveal_strlit("CCSGameRulesProxy.CCSGameRules.m_iRoundTime");
    reveal_strlit("CCSGameRulesProxy.CCSGameRules.m_fMatchStartTime");
    reveal_strlit("CCSGameRulesProxy.CCSGameRules.m_fRoundStartTime");
    reveal_strlit("CCSGameRulesProxy.CCSGameRules.m_flRestartRoundTime");
    reveal_strlit("CCSGameRulesProxy.CCSGameRules.m_bGameRestart");
    reveal_strlit("CCSGameRulesProxy.CCSGameRules.m_flGameStartTime");
    reveal_strlit("CCSGameRulesProxy.CCSGameRules.m_timeUntilNextPhaseStarts");
    reveal_strlit("CCSGameRulesProxy.CCSGameRules.m_gamePhase");
    reveal_strlit("CCSGameRulesProxy.CCSGameRules.m_totalRoundsPlayed");
    reveal_strlit("CCSGameRulesProxy.CCSGameRules.m_nRoundsPlayedThisPhase");
    reveal_strlit("CCSGameRulesProxy.CCSGameRules.m_nOvertimePlaying");
    reveal_strlit("CCSGameRulesProxy.CCSGameRules.m_iHostagesRemaining");
    reveal_strlit("CCSGameRulesProxy.CCSGameRules.m_bAnyHostageReached");
    reveal_strlit("CCSGameRulesProxy.CCSGameRules.m_bMapHasBombTarget");
    reveal_strlit("CCSGameRulesProxy.CCSGameRules.m_bMapHasRescueZone");
    reveal_strlit("CCSGameRulesProxy.CCSGameRules.m_bMapHasBuyZone");
    reveal_strlit("CCSGameRulesProxy.CCSGameRules.m_bIsQueuedMatchmaking");
    reveal_strlit("CCSGameRulesProxy.CCSGameRules.m_nQueuedMatchmakingMode");
    reveal_strlit("CCSGameRulesProxy.CCSGameRules.m_bIsValveDS");
    reveal_strlit("CCSGameRulesProxy.CCSGameRules.m_bLogoMap");
    reveal_strlit("CCSGameRulesProxy.CCSGameRules.m_bPlayAllStepSoundsOnServer");
    reveal_strlit("CCSGameRulesProxy.CCSGameRules.m_iNumGunGameProgressiveWeaponsCT");
    reveal_strlit("CCSGameRulesProxy.CCSGameRules.m_iNumGunGameProgressiveWeaponsT");
    reveal_strlit("CCSGameRulesProxy.CCSGameRules.m_iSpectatorSlotCount");
    reveal_strlit("CCSGameRulesProxy.CCSGameRules.m_GGProgressiveWeaponOrderCT");
    reveal_strlit("CCSGameRulesProxy.CCSGameRules.m_GGProgressiveWeaponOrderT");
    reveal_strlit("CCSGameRulesProxy.CCSGameRules.m_GGProgressiveWeaponKillUpgradeOrderCT");
    reveal_strlit("CCSGameRulesProxy.CCSGameRules.m_GGProgressiveWeaponKillUpgradeOrderT");
    reveal_strlit("CCSGameRulesProxy.CCSGameRules.m_MatchDevice");
    reveal_strlit("CCSGameRulesProxy.CCSGameRules.m_bHasMatchStarted");
    reveal_strlit("CCSGameRulesProxy.CCSGameRules.m_flDMBonusStartTime");
    reveal_strlit("CCSGameRulesProxy.CCSGameRules.m_flDMBonusTimeLength");
    reveal_strlit("CCSGameRulesProxy.CCSGameRules.m_unDMBonusWeaponLoadoutSlot");
    reveal_strlit("CCSGameRulesProxy.CCSGameRules.m_bDMBonusActive");
    reveal_strlit("CCSGameRulesProxy.CCSGameRules.m_nNextMapInMapgroup");
    reveal_strlit("CCSGameRulesProxy.CCSGameRules.m_szTournamentEventName");
    reveal_strlit("CCSGameRulesProxy.CCSGameRules.m_szTournamentEventStage");
    reveal_strlit("CCSGameRulesProxy.CCSGameRules.m_szMatchStatTxt");
    reveal_strlit("CCSGameRulesProxy.CCSGameRules.m_szTournamentPredictionsTxt");
    reveal_strlit("CCSGameRulesProxy.CCSGameRules.m_nTournamentPredictionsPct");
    reveal_strlit("CCSGameRulesProxy.CCSGameRules.m_flCMMItemDropRevealStartTime");
    reveal_strlit("CCSGameRulesProxy.CCSGameRules.m_flCMMItemDropRevealEndTime");
    reveal_strlit("CCSGameRulesProxy.CCSGameRules.m_bIsDroppingItems");
    reveal_strlit("CCSGameRulesProxy.CCSGameRules.m_bIsQuestEligible");
    reveal_strlit("CCSGameRulesProxy.CCSGameRules.m_nGuardianModeWaveNumber");
    reveal_strlit("CCSGameRulesProxy.CCSGameRules.m_nGuardianModeSpecialKillsRemaining");
    reveal_strlit("CCSGameRulesProxy.CCSGameRules.m_nGuardianModeSpecialWeaponNeeded");
    reveal_strlit("CCSGameRulesProxy.CCSGameRules.m_numGlobalGiftsGiven");
    reveal_strlit("CCSGameRulesProxy.CCSGameRules.m_numGlobalGifters");
    reveal_strlit("CCSGameRulesProxy.CCSGameRules.m_numGlobalGiftsPeriodSeconds");
    reveal_strlit("CCSGameRulesProxy.CCSGameRules.m_arrFeaturedGiftersAccounts");
    reveal_strlit("CCSGameRulesProxy.CCSGameRules.m_arrFeaturedGiftersGifts");
    reveal_strlit("CCSGameRulesProxy.CCSGameRules.m_arrProhibitedItemIndices");
    reveal_strlit("CCSGameRulesProxy.CCSGameRules.m_arrTournamentActiveCasterAccounts");
    reveal_strlit("CCSGameRulesProxy.CCSGameRules.m_numBestOfMaps");
    reveal_strlit("CCSGameRulesProxy.CCSGameRules.m_nHalloweenMaskListSeed");
    reveal_strlit("CCSGameRulesProxy.CCSGameRules.m_bBombDropped");
    reveal_strlit("CCSGameRulesProxy.CCSGameRules.m_bBombPlanted");
    reveal_strlit("CCSGameRulesProxy.CCSGameRules.m_iRoundWinStatus");
    reveal_strlit("CCSGameRulesProxy.CCSGameRules.m_eRoundWinReason");
    reveal_strlit("CCSGameRulesProxy.CCSGameRules.m_bTCantBuy");
    reveal_strlit("CCSGameRulesProxy.CCSGameRules.m_bCTCantBuy");
    reveal_strlit("CCSGameRulesProxy.CCSGameRules.m_flGuardianBuyUntilTime");
    reveal_strlit("CCSGameRulesProxy.CCSGameRules.m_iMatchStats_RoundResults");
    reveal_strlit("CCSGameRulesProxy.CCSGameRules.m_iMatchStats_PlayersAlive_CT");
    reveal_strlit("CCSGameRulesProxy.CCSGameRules.m_iMatchStats_PlayersAlive_T");
    reveal_strlit("CCSGameRulesProxy.CCSGameRules.m_TeamRespawnWaveTimes");
    reveal_strlit("CCSGameRulesProxy.CCSGameRules.m_flNextRespawnWave");
    reveal_strlit("CCSGameRulesProxy.CCSGameRules.m_nServerQuestID");
    reveal_strlit("CCSGameRulesProxy.CCSGameRules.m_nEndMatchMapGroupVoteTypes");
    reveal_strlit("CCSGameRulesProxy.CCSGameRules.m_nEndMatchMapGroupVoteOptions");
    reveal_strlit("CCSGameRulesProxy.CCSGameRules.m_nEndMatchMapVoteWinner");
    reveal_strlit("CCSGameRulesProxy.CCSGameRules.m_iNumConsecutiveCTLoses");
    reveal_strlit("CCSGameRulesProxy.CCSGameRules.m_iNumConsecutiveTerroristLoses");
    reveal_strlit("CCSGameRulesProxy.CCSGameRules.m_vecPlayAreaMins");
    reveal_strlit("CCSGameRulesProxy.CCSGameRules.m_vecPlayAreaMaxs");
    reveal_strlit("CCSGameRulesProxy.CCSGameRules.m_iPlayerSpawnHexIndices");
    reveal_strlit("CCSGameRulesProxy.CCSGameRules.m_SpawnTileState");
    reveal_strlit("CCSGameRulesProxy.CCSGameRules.m_flSpawnSelectionTimeStartCurrentStage");
    reveal_strlit("CCSGameRulesProxy.CCSGameRules.m_flSpawnSelectionTimeEndCurrentStage");
    reveal_strlit("CCSGameRulesProxy.CCSGameRules.m_flSpawnSelectionTimeEndLastStage");
    reveal_strlit("CCSGameRulesProxy.CCSGameRules.m_spawnStage");
    reveal_strlit("CCSGameRulesProxy.CCSGameRules.m_flTabletHexOriginX");
    reveal_strlit("CCSGameRulesProxy.CCSGameRules.m_flTabletHexOriginY");
    reveal_strlit("CCSGameRulesProxy.CCSGameRules.m_flTabletHexSize");
    reveal_strlit("CCSGameRulesProxy.CCSGameRules.m_roundData_playerXuids");
    reveal_strlit("CCSGameRulesProxy.CCSGameRules.m_roundData_playerPositions");
    reveal_strlit("CCSGameRulesProxy.CCSGameRules.m_roundData_playerTeams");
    reveal_strlit("CCSGameRulesProxy.CCSGameRules.m_SurvivalGameRuleDecisionTypes");
    reveal_strlit("CCSGameRulesProxy.CCSGameRules.m_SurvivalGameRuleDecisionValues");
    reveal_strlit("CCSGameRulesProxy.CCSGameRules.m_flSurvivalStartTime");
    reveal_strlit("CCSGameRulesProxy.CCSGameRules.m_nMatchSeed");
    reveal_strlit("CCSGameRulesProxy.CCSGameRules.m_bBlockersPresent");
    reveal_strlit("CCSGameRulesProxy.CCSGameRules.m_bRoundInProgress");
    reveal_strlit("CCSGameRulesProxy.CCSGameRules.m_iFirstSecondHalfRound");
    reveal_strlit("CCSGameRulesProxy.CCSGameRules.m_iBombSite");
    reveal_strlit("CCSGameRulesProxy.CCSGameRules.m_nMatchEndCount");
    reveal_strlit("CCSGameRulesProxy.CCSGameRules.m_bTeamIntroPeriod");
    reveal_with_fuel(all_long, 41);
    assert(all_long(RULES_FIELDS@, 40, SHORTEST_LISTED_NAME as int));
    assert(all_long(RULES_FIELDS@, 80, SHORTEST_LISTED_NAME as int));
}

proof fn lemma_controller_fields_are_long()
    ensures
        all_long(CONTROLLER_FIELDS@, 118, SHORTEST_LISTED_NAME as int),
{
    reveal_strlit("CCSPlayerController.m_bHasCommunicationAbuseMute");
    reveal_strlit("CCSPlayerController.m_szCrosshairCodes");
    reveal_strlit("CCSPlayerController.m_iPendingTeamNum");
    reveal_strlit("CCSPlayerController.m_flForceTeamTime");
    reveal_strlit("CCSPlayerController.m_iCompTeammateColor");
    reveal_strlit("CCSPlayerController.m_bEverPlayedOnTeam");
    reveal_strlit("CCSPlayerController.m_szClan");
    reveal_strlit("CCSPlayerController.m_iCoachingTeam");
    reveal_strlit("CCSPlayerController.m_nPlayerDominated");
    reveal_strlit("CCSPlayerController.m_nPlayerDominatingMe");
    reveal_strlit("CCSPlayerController.m_iCompetitiveRanking");
    reveal_strlit("CCSPlayerController.m_iCompetitiveWins");
    reveal_strlit("CCSPlayerController.m_iCompetitiveRankType");
    reveal_strlit("CCSPlayerController.m_nEndMatchNextMapVote");
    reveal_strlit("CCSPlayerController.m_unActiveQuestId");
    reveal_strlit("CCSPlayerController.m_nQuestProgressReason");
    reveal_strlit("CCSPlayerController.m_unPlayerTvControlFlags");
    reveal_strlit("CCSPlayerController.m_nDisconnectionTick");
    reveal_strlit("CCSPlayerController.m_bControllingBot");
    reveal_strlit("CCSPlayerController.m_bHasControlledBotThisRound");
    reveal_strlit("CCSPlayerController.m_bCanControlObservedBot");
    reveal_strlit("CCSPlayerController.m_hPlayerPawn");
    reveal_strlit("CCSPlayerController.m_hObserverPawn");
    reveal_strlit("CCSPlayerController.m_bPawnIsAlive");
    reveal_strlit("CCSPlayerController.m_iPawnHealth");
    reveal_strlit("CCSPlayerController.m_iPawnArmor");
    reveal_strlit("CCSPlayerController.m_bPawnHasDefuser");
    reveal_strlit("CCSPlayerController.m_bPawnHasHelmet");
    reveal_strlit("CCSPlayerController.m_nPawnCharacterDefIndex");
    reveal_strlit("CCSPlayerController.m_iPawnLifetimeStart");
    reveal_strlit("CCSPlayerController.m_iPawnLifetimeEnd");
    reveal_strlit("CCSPlayerController.m_iPawnGunGameLevel");
    reveal_strlit("CCSPlayerController.m_iPawnBotDifficulty");
    reveal_strlit("CCSPlayerController.m_hOriginalControllerOfCurrentPawn");
    reveal_strlit("CCSPlayerController.m_iScore");
    reveal_strlit("CCSPlayerController.m_flSimulationTime");
    reveal_strlit("CCSPlayerController.m_nTickBase");
    reveal_strlit("CCSPlayerController.m_fFlags");
    reveal_strlit("CCSPlayerController.CEntityIdentity.m_nameStringableIndex");
    reveal_strlit("CCSPlayerController.m_flCreateTime");
    reveal_strlit("CCSPlayerController.m_iTeamNum");
    reveal_strlit("CCSPlayerController.m_bSimulatedEveryTick");
    reveal_strlit("CCSPlayerController.m_hPawn");
    reveal_strlit("CCSPlayerController.m_iConnected");
    reveal_strlit("CCSPlayerController.m_iszPlayerName");
    reveal_strlit("CCSPlayerController.m_steamID");
    reveal_strlit("CCSPlayerController.m_iDesiredFOV");
    reveal_strlit("CCSPlayerController.CCSPlayerController_InGameMoneyServices.m_iAccount");
    reveal_strlit("CCSPlayerController.CCSPlayerController_InGameMoneyServices.m_iStartAccount");
    reveal_strlit("CCSPlayerController.CCSPlayerController_InGameMoneyServices.m_iTotalCashSpent");
    reveal_strlit("CCSPlayerController.CCSPlayerController_InGameMoneyServices.m_iCashSpentThisRound");
    reveal_strlit("CCSPlayerController.CCSPlayerController_InventoryServices.m_unMusicID");
    reveal_strlit("CCSPlayerController.CCSPlayerController_InventoryServices.m_rank");
    reveal_strlit("CCSPlayerController.CCSPlayerController_InventoryServices.m_nPersonaDataPublicLevel");
    reveal_strlit("CCSPlayerController.CCSPlayerController_InventoryServices.m_nPersonaDataPublicCommendsLeader");
    reveal_strlit("CCSPlayerController.CCSPlayerController_InventoryServices.m_nPersonaDataPublicCommendsTeacher");
    reveal_strlit("CCSPlayerController.CCSPlayerController_InventoryServices.m_nPersonaDataPublicCommendsFriendly");
    reveal_strlit("CCSPlayerController.CCSPlayerController_InventoryServices.CEconItemView.m_iItemDefinitionIndex");
    reveal_strlit("CCSPlayerController.CCSPlayerController_InventoryServices.CEconItemView.m_iEntityQuality");
    reveal_strlit("CCSPlayerController.CCSPlayerController_InventoryServices.CEconItemView.m_iEntityLevel");
    reveal_strlit("CCSPlayerController.CCSPlayerController_InventoryServices.CEconItemView.m_iItemIDHigh");
    reveal_strlit("CCSPlayerController.CCSPlayerController_InventoryServices.CEconItemView.m_iItemIDLow");
    reveal_strlit("CCSPlayerController.CCSPlayerController_InventoryServices.CEconItemView.m_iAccountID");
    reveal_strlit("CCSPlayerController.CCSPlayerController_InventoryServices.CEconItemView.m_iInventoryPosition");
    reveal_strlit("CCSPlayerController.CCSPlayerController_InventoryServices.CEconItemView.m_bInitialized");
    reveal_strlit("CCSPlayerController.CCSPlayerController_InventoryServices.CEconItemView.CEconItemAttribute.m_iAttributeDefinitionIndex");
    reveal_strlit("CCSPlayerController.CCSPlayerController_InventoryServices.CEconItemView.CEconItemAttribute.m_iRawValue32");
    reveal_strlit("CCSPlayerController.CCSPlayerController_InventoryServices.CEconItemView.CEconItemAttribute.m_flInitialValue");
    reveal_strlit("CCSPlayerController.CCSPlayerController_InventoryServices.CEconItemView.CEconItemAttribute.m_nRefundableCurrency");
    reveal_strlit("CCSPlayerController.CCSPlayerController_InventoryServices.CEconItemView.CEconItemAttribute.m_bSetBonus");
    reveal_strlit("CCSPlayerController.CCSPlayerController_InventoryServices.CEconItemView.m_szCustomName");
    reveal_strlit("CCSPlayerController.CCSPlayerController_ActionTrackingServices.CSPerRoundStats_t.m_iKills");
    reveal_strlit("CCSPlayerController.CCSPlayerController_ActionTrackingServices.CSPerRoundStats_t.m_iDeaths");
    reveal_strlit("CCSPlayerController.CCSPlayerController_ActionTrackingServices.CSPerRoundStats_t.m_iAssists");
    reveal_strlit("CCSPlayerController.CCSPlayerController_ActionTrackingServices.CSPerRoundStats_t.m_iLiveTime");
    reveal_strlit("CCSPlayerController.CCSPlayerController_ActionTrackingServices.CSPerRoundStats_t.m_iHeadShotKills");
    reveal_strlit("CCSPlayerController.CCSPlayerController_ActionTrackingServices.CSPerRoundStats_t.m_iDamage");
    reveal_strlit("CCSPlayerController.CCSPlayerController_ActionTrackingServices.CSPerRoundStats_t.m_iObjective");
    reveal_strlit("CCSPlayerController.CCSPlayerController_ActionTrackingServices.CSPerRoundStats_t.m_iUtilityDamage");
    reveal_strlit("CCSPlayerController.CCSPlayerController_ActionTrackingServices.CSPerRoundStats_t.m_iEnemiesFlashed");
    reveal_strlit("CCSPlayerController.CCSPlayerController_ActionTrackingServices.CSPerRoundStats_t.m_iEquipmentValue");
    reveal_strlit("CCSPlayerController.CCSPlayerController_ActionTrackingServices.CSPerRoundStats_t.m_iMoneySaved");
    reveal_strlit("CCSPlayerController.CCSPlayerController_ActionTrackingServices.CSPerRoundStats_t.m_iKillReward");
    reveal_strlit("CCSPlayerController.CCSPlayerController_ActionTrackingServices.CSPerRoundStats_t.m_iCashEarned");
    reveal_strlit("CCSPlayerController.CCSPlayerController_ActionTrackingServices.m_iKills");
    reveal_strlit("CCSPlayerController.CCSPlayerController_ActionTrackingServices.m_iDeaths");
    reveal_strlit("CCSPlayerController.CCSPlayerController_ActionTrackingServices.m_iAssists");
    reveal_strlit("CCSPlayerController.CCSPlayerController_ActionTrackingServices.m_iLiveTime");
    reveal_strlit("CCSPlayerController.CCSPlayerController_ActionTrackingServices.m_iHeadShotKills");
    reveal_strlit("CCSPlayerController.CCSPlayerController_ActionTrackingServices.m_iEnemy5Ks");
    reveal_strlit("CCSPlayerController.CCSPlayerController_ActionTrackingServices.m_iEnemy4Ks");
    reveal_strlit("CCSPlayerController.CCSPlayerController_ActionTrackingServices.m_iEnemy3Ks");
    reveal_strlit("CCSPlayerController.CCSPlayerController_ActionTrackingServices.m_iNumRoundKills");
    reveal_strlit("CCSPlayerController.CCSPlayerController_ActionTrackingServices.m_iNumRoundKillsHeadshots");
    reveal_strlit("CCSPlayerController.CCSPlayerController_ActionTrackingServices.m_iDamage");
    reveal_strlit("CCSPlayerController.CCSPlayerController_ActionTrackingServices.m_iObjective");
    reveal_strlit("CCSPlayerController.CCSPlayerController_ActionTrackingServices.m_iUtilityDamage");
    reveal_strlit("CCSPlayerController.CCSPlayerController_ActionTrackingServices.m_iEnemiesFlashed");
    reveal_strlit("CCSPlayerController.CCSPlayerController_ActionTrackingServices.m_iEquipmentValue");
    reveal_strlit("CCSPlayerController.CCSPlayerController_ActionTrackingServices.m_iMoneySaved");
    reveal_strlit("CCSPlayerController.CCSPlayerController_ActionTrackingServices.m_iKillReward");
    reveal_strlit("CCSPlayerController.CCSPlayerController_ActionTrackingServices.m_iCashEarned");
    reveal_strlit("CCSPlayerController.CCSPlayerController_DamageServices.m_nSendUpdate");
    reveal_strlit("CCSPlayerController.CCSPlayerController_DamageServices.CDamageRecord.m_PlayerDamager");
    reveal_strlit("CCSPlayerController.CCSPlayerController_DamageServices.CDamageRecord.m_PlayerRecipient");
    reveal_strlit("CCSPlayerController.CCSPlayerController_DamageServices.CDamageRecord.m_hPlayerControllerDamager");
    reveal_strlit("CCSPlayerController.CCSPlayerController_DamageServices.CDamageRecord.m_hPlayerControllerRecipient");
    reveal_strlit("CCSPlayerController.CCSPlayerController_DamageServices.CDamageRecord.m_szPlayerDamagerName");
    reveal_strlit("CCSPlayerController.CCSPlayerController_DamageServices.CDamageRecord.m_szPlayerRecipientName");
    reveal_strlit("CCSPlayerController.CCSPlayerController_DamageServices.CDamageRecord.m_DamagerXuid");
    reveal_strlit("CCSPlayerController.CCSPlayerController_DamageServices.CDamageRecord.m_RecipientXuid");
    reveal_strlit("CCSPlayerController.CCSPlayerController_DamageServices.CDamageRecord.m_iDamage");
    reveal_strlit("CCSPlayerController.CCSPlayerController_DamageServices.CDamageRecord.m_iActualHealthRemoved");
    reveal_strlit("CCSPlayerController.CCSPlayerController_DamageServices.CDamageRecord.m_iNumHits");
    reveal_strlit("CCSPlayerController.CCSPlayerController_DamageServices.CDamageRecord.m_iLastBulletUpdate");
    reveal_strlit("CCSPlayerController.CCSPlayerController_DamageServices.CDamageRecord.m_bIsOtherEnemy");
    reveal_strlit("CCSPlayerController.CCSPlayerController_DamageServices.CDamageRecord.m_killType");
    reveal_strlit("CCSPlayerController.m_iPing");
    reveal_with_fuel(all_long, 41);
    assert(all_long(CONTROLLER_FIELDS@, 40, SHORTEST_LISTED_NAME as int));
    assert(all_long(CONTROLLER_FIELDS@, 80, SHORTEST_LISTED_NAME as int));
}

proof fn lemma_player_fields_are_long()
    ensures
        all_long(PLAYER_FIELDS@, 66, SHORTEST_LISTED_NAME as int),
{
    reveal_strlit("CCSPlayerPawn.m_MoveCollide");
    reveal_strlit("CCSPlayerPawn.m_MoveType");
    reveal_strlit("CCSPlayerPawn.m_iTeamNum");
    reveal_strlit("CCSPlayerPawn.CCSPlayer_WeaponServices.m_hActiveWeapon");
    reveal_strlit("CCSPlayerPawn.CCSPlayer_WeaponServices.m_iAmmo");
    reveal_strlit("CCSPlayerPawn.CCSPlayer_WeaponServices.m_bIsLookingAtWeapon");
    reveal_strlit("CCSPlayerPawn.CCSPlayer_WeaponServices.m_bIsHoldingLookAtWeapon");
    reveal_strlit("CCSPlayerPawn.CCSPlayer_WeaponServices.m_flNextAttack");
    reveal_strlit("CCSPlayerPawn.CCSPlayer_MovementServices.m_nDuckTimeMsecs");
    reveal_strlit("CCSPlayerPawn.CCSPlayer_MovementServices.m_flMaxspeed");
    reveal_strlit("CCSPlayerPawn.CCSPlayer_MovementServices.m_flMaxFallVelocity");
    reveal_strlit("CCSPlayerPawn.CCSPlayer_MovementServices.m_flDuckAmount");
    reveal_strlit("CCSPlayerPawn.CCSPlayer_MovementServices.m_flDuckSpeed");
    reveal_strlit("CCSPlayerPawn.CCSPlayer_MovementServices.m_bDuckOverride");
    reveal_strlit("CCSPlayerPawn.CCSPlayer_MovementServices.m_bOldJumpPressed");
    reveal_strlit("CCSPlayerPawn.CCSPlayer_MovementServices.m_flJumpUntil");
    reveal_strlit("CCSPlayerPawn.CCSPlayer_MovementServices.m_flJumpVel");
    reveal_strlit("CCSPlayerPawn.CCSPlayer_MovementServices.m_flFallVelocity");
    reveal_strlit("CCSPlayerPawn.CCSPlayer_MovementServices.m_bInCrouch");
    reveal_strlit("CCSPlayerPawn.CCSPlayer_MovementServices.m_nCrouchState");
    reveal_strlit("CCSPlayerPawn.CCSPlayer_MovementServices.m_bDucked");
    reveal_strlit("CCSPlayerPawn.CCSPlayer_MovementServices.m_bDucking");
    reveal_strlit("CCSPlayerPawn.CCSPlayer_MovementServices.m_bInDuckJump");
    reveal_strlit("CCSPlayerPawn.CCSPlayer_MovementServices.m_bAllowAutoMovement");
    reveal_strlit("CCSPlayerPawn.CCSPlayer_MovementServices.m_nJumpTimeMsecs");
    reveal_strlit("CCSPlayerPawn.CCSPlayer_MovementServices.m_flLastDuckTime");
    reveal_strlit("CCSPlayerPawn.CCSPlayer_ActionTrackingServices.m_bIsRescuing");
    reveal_strlit("CCSPlayerPawn.CCSPlayer_ActionTrackingServices.m_iWeaponPurchasesThisMatch");
    reveal_strlit("CCSPlayerPawn.CCSPlayer_ActionTrackingServices.m_iWeaponPurchasesThisRound");
    reveal_strlit("CCSPlayerPawn.m_bSpotted");
    reveal_strlit("CCSPlayerPawn.m_bSpottedByMask");
    reveal_strlit("CCSPlayerPawn.m_flTimeOfLastInjury");
    reveal_strlit("CCSPlayerPawn.m_nRelativeDirectionOfLastInjury");
    reveal_strlit("CCSPlayerPawn.m_iPlayerState");
    reveal_strlit("CCSPlayerPawn.m_passiveItems");
    reveal_strlit("CCSPlayerPawn.m_bIsScoped");
    reveal_strlit("CCSPlayerPawn.m_bIsWalking");
    reveal_strlit("CCSPlayerPawn.m_bResumeZoom");
    reveal_strlit("CCSPlayerPawn.m_bIsDefusing");
    reveal_strlit("CCSPlayerPawn.m_bIsGrabbingHostage");
    reveal_strlit("CCSPlayerPawn.m_iBlockingUseActionInProgress");
    reveal_strlit("CCSPlayerPawn.m_fMolotovDamageTime");
    reveal_strlit("CCSPlayerPawn.m_bHasMovedSinceSpawn");
    reveal_strlit("CCSPlayerPawn.m_bInBombZone");
    reveal_strlit("CCSPlayerPawn.m_bInBuyZone");
    reveal_strlit("CCSPlayerPawn.m_bInNoDefuseArea");
    reveal_strlit("CCSPlayerPawn.m_bKilledByTaser");
    reveal_strlit("CCSPlayerPawn.m_iMoveState");
    reveal_strlit("CCSPlayerPawn.m_nWhichBombZone");
    reveal_strlit("CCSPlayerPawn.m_bInHostageRescueZone");
    reveal_strlit("CCSPlayerPawn.m_flStamina");
    reveal_strlit("CCSPlayerPawn.m_iDirection");
    reveal_strlit("CCSPlayerPawn.m_iShotsFired");
    reveal_strlit("CCSPlayerPawn.m_ArmorValue");
    reveal_strlit("CCSPlayerPawn.m_flVelocityModifier");
    reveal_strlit("CCSPlayerPawn.m_flGroundAccelLinearFracLastTime");
    reveal_strlit("CCSPlayerPawn.m_flFlashDuration");
    reveal_strlit("CCSPlayerPawn.m_flFlashMaxAlpha");
    reveal_strlit("CCSPlayerPawn.m_bWaitForNoAttack");
    reveal_strlit("CCSPlayerPawn.m_szLastPlaceName");
    reveal_strlit("CCSPlayerPawn.m_bStrafing");
    reveal_strlit("CCSPlayerPawn.m_unRoundStartEquipmentValue");
    reveal_strlit("CCSPlayerPawn.m_unCurrentEquipmentValue");
    reveal_strlit("CCSPlayerPawn.m_flSimulationTime");
    reveal_strlit("CCSPlayerPawn.m_iHealth");
    reveal_strlit("CCSPlayerPawn.m_lifeState");
    reveal_with_fuel(all_long, 41);
    assert(all_long(PLAYER_FIELDS@, 40, SHORTEST_LISTED_NAME as int));
}

/// The names that the table lists are the three axes, of one character
/// each, and names of sixteen characters or more. The axes are its custom
/// fields and its only ones: no field that is resolved by the table fails
/// as an unknown custom field.
pub proof fn lemma_listed_names(name: Seq<char>)
    requires
        classification(name) is Some,
    ensures
        classification(name) == Some(PropType::Custom) <==> is_axis_field(name),
        is_axis_field(name) ==> name.len() == 1,
        !is_axis_field(name) ==> name.len() >= SHORTEST_LISTED_NAME,
{
    reveal_strlit("X");
    reveal_strlit("Y");
    reveal_strlit("Z");
    lemma_custom_fields_are_the_axes(name);
    if lists(TEAM_FIELDS@, name) {
        lemma_team_fields_are_long();
        lemma_all_long(
            TEAM_FIELDS@,
            TEAM_FIELDS@.len() as int,
            SHORTEST_LISTED_NAME as int,
            name,
        );
    }
    if lists(RULES_FIELDS@, name) {
        lemma_rules_fields_are_long();
        lemma_all_long(
            RULES_FIELDS@,
            RULES_FIELDS@.len() as int,
            SHORTEST_LISTED_NAME as int,
            name,
        );
    }
    if lists(CONTROLLER_FIELDS@, name) {
        lemma_controller_fields_are_long();
        lemma_all_long(
            CONTROLLER_FIELDS@,
            CONTROLLER_FIELDS@.len() as int,
            SHORTEST_LISTED_NAME as int,
            name,
        );
    }
    if lists(PLAYER_FIELDS@, name) {
        lemma_player_fields_are_long();
        lemma_all_long(
            PLAYER_FIELDS@,
            PLAYER_FIELDS@.len() as int,
            SHORTEST_LISTED_NAME as int,
            name,
        );
    }
}

/// The table lists none of the three metadata fields.
pub proof fn lemma_metadata_fields_are_unlisted(name: Seq<char>)
    requires
        is_metadata_field(name),
    ensures
        classification(name) is None,
{
    reveal_strlit("tick");
    reveal_strlit("steamid");
    reveal_strlit("name");
    if classification(name) is Some {
        lemma_listed_names(name);
    }
}

} // verus!
