//! The table of routing kinds: which field is read from which entity.

use vstd::prelude::*;
use crate::collect_data::PropType;
use crate::text::same_text;

verus! {

/// The fields that are read from the entity of the player's team.
pub const TEAM_FIELDS: [&'static str; 12] = [
    "CCSTeam.m_iTeamNum",
    "CCSTeam.m_aPlayers",
    "CCSTeam.m_aPawns",
    "CCSTeam.m_iScore",
    "CCSTeam.m_szTeamname",
    "CCSTeam.m_bSurrendered",
    "CCSTeam.m_szTeamMatchStat",
    "CCSTeam.m_numMapVictories",
    "CCSTeam.m_scoreFirstHalf",
    "CCSTeam.m_scoreSecondHalf",
    "CCSTeam.m_scoreOvertime",
    "CCSTeam.m_szClanTeamname",
];

/// The fields that are read from the entity that holds the rules of the
/// match.
pub const RULES_FIELDS: [&'static str; 110] = [
    "CCSGameRulesProxy.CCSGameRules.m_bFreezePeriod",
    "CCSGameRulesProxy.CCSGameRules.m_bWarmupPeriod",
    "CCSGameRulesProxy.CCSGameRules.m_fWarmupPeriodEnd",
    "CCSGameRulesProxy.CCSGameRules.m_fWarmupPeriodStart",
    "CCSGameRulesProxy.CCSGameRules.m_bTerroristTimeOutActive",
    "CCSGameRulesProxy.CCSGameRules.m_bCTTimeOutActive",
    "CCSGameRulesProxy.CCSGameRules.m_flTerroristTimeOutRemaining",
    "CCSGameRulesProxy.CCSGameRules.m_flCTTimeOutRemaining",
    "CCSGameRulesProxy.CCSGameRules.m_nTerroristTimeOuts",
    "CCSGameRulesProxy.CCSGameRules.m_nCTTimeOuts",
    "CCSGameRulesProxy.CCSGameRules.m_bTechnicalTimeOut",
    "CCSGameRulesProxy.CCSGameRules.m_bMatchWaitingForResume",
    "CCSGameRulesProxy.CCSGameRules.m_iRoundTime",
    "CCSGameRulesProxy.CCSGameRules.m_fMatchStartTime",
    "CCSGameRulesProxy.CCSGameRules.m_fRoundStartTime",
    "CCSGameRulesProxy.CCSGameRules.m_flRestartRoundTime",
    "CCSGameRulesProxy.CCSGameRules.m_bGameRestart",
    "CCSGameRulesProxy.CCSGameRules.m_flGameStartTime",
    "CCSGameRulesProxy.CCSGameRules.m_timeUntilNextPhaseStarts",
    "CCSGameRulesProxy.CCSGameRules.m_gamePhase",
    "CCSGameRulesProxy.CCSGameRules.m_totalRoundsPlayed",
    "CCSGameRulesProxy.CCSGameRules.m_nRoundsPlayedThisPhase",
    "CCSGameRulesProxy.CCSGameRules.m_nOvertimePlaying",
    "CCSGameRulesProxy.CCSGameRules.m_iHostagesRemaining",
    "CCSGameRulesProxy.CCSGameRules.m_bAnyHostageReached",
    "CCSGameRulesProxy.CCSGameRules.m_bMapHasBombTarget",
    "CCSGameRulesProxy.CCSGameRules.m_bMapHasRescueZone",
    "CCSGameRulesProxy.CCSGameRules.m_bMapHasBuyZone",
    "CCSGameRulesProxy.CCSGameRules.m_bIsQueuedMatchmaking",
    "CCSGameRulesProxy.CCSGameRules.m_nQueuedMatchmakingMode",
    "CCSGameRulesProxy.CCSGameRules.m_bIsValveDS",
    "CCSGameRulesProxy.CCSGameRules.m_bLogoMap",
    "CCSGameRulesProxy.CCSGameRules.m_bPlayAllStepSoundsOnServer",
    "CCSGameRulesProxy.CCSGameRules.m_iNumGunGameProgressiveWeaponsCT",
    "CCSGameRulesProxy.CCSGameRules.m_iNumGunGameProgressiveWeaponsT",
    "CCSGameRulesProxy.CCSGameRules.m_iSpectatorSlotCount",
    "CCSGameRulesProxy.CCSGameRules.m_GGProgressiveWeaponOrderCT",
    "CCSGameRulesProxy.CCSGameRules.m_GGProgressiveWeaponOrderT",
    "CCSGameRulesProxy.CCSGameRules.m_GGProgressiveWeaponKillUpgradeOrderCT",
    "CCSGameRulesProxy.CCSGameRules.m_GGProgressiveWeaponKillUpgradeOrderT",
    "CCSGameRulesProxy.CCSGameRules.m_MatchDevice",
    "CCSGameRulesProxy.CCSGameRules.m_bHasMatchStarted",
    "CCSGameRulesProxy.CCSGameRules.m_flDMBonusStartTime",
    "CCSGameRulesProxy.CCSGameRules.m_flDMBonusTimeLength",
    "CCSGameRulesProxy.CCSGameRules.m_unDMBonusWeaponLoadoutSlot",
    "CCSGameRulesProxy.CCSGameRules.m_bDMBonusActive",
    "CCSGameRulesProxy.CCSGameRules.m_nNextMapInMapgroup",
    "CCSGameRulesProxy.CCSGameRules.m_szTournamentEventName",
    "CCSGameRulesProxy.CCSGameRules.m_szTournamentEventStage",
    "CCSGameRulesProxy.CCSGameRules.m_szMatchStatTxt",
    "CCSGameRulesProxy.CCSGameRules.m_szTournamentPredictionsTxt",
    "CCSGameRulesProxy.CCSGameRules.m_nTournamentPredictionsPct",
    "CCSGameRulesProxy.CCSGameRules.m_flCMMItemDropRevealStartTime",
    "CCSGameRulesProxy.CCSGameRules.m_flCMMItemDropRevealEndTime",
    "CCSGameRulesProxy.CCSGameRules.m_bIsDroppingItems",
    "CCSGameRulesProxy.CCSGameRules.m_bIsQuestEligible",
    "CCSGameRulesProxy.CCSGameRules.m_nGuardianModeWaveNumber",
    "CCSGameRulesProxy.CCSGameRules.m_nGuardianModeSpecialKillsRemaining",
    "CCSGameRulesProxy.CCSGameRules.m_nGuardianModeSpecialWeaponNeeded",
    "CCSGameRulesProxy.CCSGameRules.m_numGlobalGiftsGiven",
    "CCSGameRulesProxy.CCSGameRules.m_numGlobalGifters",
    "CCSGameRulesProxy.CCSGameRules.m_numGlobalGiftsPeriodSeconds",
    "CCSGameRulesProxy.CCSGameRules.m_arrFeaturedGiftersAccounts",
    "CCSGameRulesProxy.CCSGameRules.m_arrFeaturedGiftersGifts",
    "CCSGameRulesProxy.CCSGameRules.m_arrProhibitedItemIndices",
    "CCSGameRulesProxy.CCSGameRules.m_arrTournamentActiveCasterAccounts",
    "CCSGameRulesProxy.CCSGameRules.m_numBestOfMaps",
    "CCSGameRulesProxy.CCSGameRules.m_nHalloweenMaskListSeed",
    "CCSGameRulesProxy.CCSGameRules.m_bBombDropped",
    "CCSGameRulesProxy.CCSGameRules.m_bBombPlanted",
    "CCSGameRulesProxy.CCSGameRules.m_iRoundWinStatus",
    "CCSGameRulesProxy.CCSGameRules.m_eRoundWinReason",
    "CCSGameRulesProxy.CCSGameRules.m_bTCantBuy",
    "CCSGameRulesProxy.CCSGameRules.m_bCTCantBuy",
    "CCSGameRulesProxy.CCSGameRules.m_flGuardianBuyUntilTime",
    "CCSGameRulesProxy.CCSGameRules.m_iMatchStats_RoundResults",
    "CCSGameRulesProxy.CCSGameRules.m_iMatchStats_PlayersAlive_CT",
    "CCSGameRulesProxy.CCSGameRules.m_iMatchStats_PlayersAlive_T",
    "CCSGameRulesProxy.CCSGameRules.m_TeamRespawnWaveTimes",
    "CCSGameRulesProxy.CCSGameRules.m_flNextRespawnWave",
    "CCSGameRulesProxy.CCSGameRules.m_nServerQuestID",
    "CCSGameRulesProxy.CCSGameRules.m_nEndMatchMapGroupVoteTypes",
    "CCSGameRulesProxy.CCSGameRules.m_nEndMatchMapGroupVoteOptions",
    "CCSGameRulesProxy.CCSGameRules.m_nEndMatchMapVoteWinner",
    "CCSGameRulesProxy.CCSGameRules.m_iNumConsecutiveCTLoses",
    "CCSGameRulesProxy.CCSGameRules.m_iNumConsecutiveTerroristLoses",
    "CCSGameRulesProxy.CCSGameRules.m_vecPlayAreaMins",
    "CCSGameRulesProxy.CCSGameRules.m_vecPlayAreaMaxs",
    "CCSGameRulesProxy.CCSGameRules.m_iPlayerSpawnHexIndices",
    "CCSGameRulesProxy.CCSGameRules.m_SpawnTileState",
    "CCSGameRulesProxy.CCSGameRules.m_flSpawnSelectionTimeStartCurrentStage",
    "CCSGameRulesProxy.CCSGameRules.m_flSpawnSelectionTimeEndCurrentStage",
    "CCSGameRulesProxy.CCSGameRules.m_flSpawnSelectionTimeEndLastStage",
    "CCSGameRulesProxy.CCSGameRules.m_spawnStage",
    "CCSGameRulesProxy.CCSGameRules.m_flTabletHexOriginX",
    "CCSGameRulesProxy.CCSGameRules.m_flTabletHexOriginY",
    "CCSGameRulesProxy.CCSGameRules.m_flTabletHexSize",
    "CCSGameRulesProxy.CCSGameRules.m_roundData_playerXuids",
    "CCSGameRulesProxy.CCSGameRules.m_roundData_playerPositions",
    "CCSGameRulesProxy.CCSGameRules.m_roundData_playerTeams",
    "CCSGameRulesProxy.CCSGameRules.m_SurvivalGameRuleDecisionTypes",
    "CCSGameRulesProxy.CCSGameRules.m_SurvivalGameRuleDecisionValues",
    "CCSGameRulesProxy.CCSGameRules.m_flSurvivalStartTime",
    "CCSGameRulesProxy.CCSGameRules.m_nMatchSeed",
    "CCSGameRulesProxy.CCSGameRules.m_bBlockersPresent",
    "CCSGameRulesProxy.CCSGameRules.m_bRoundInProgress",
    "CCSGameRulesProxy.CCSGameRules.m_iFirstSecondHalfRound",
    "CCSGameRulesProxy.CCSGameRules.m_iBombSite",
    "CCSGameRulesProxy.CCSGameRules.m_nMatchEndCount",
    "CCSGameRulesProxy.CCSGameRules.m_bTeamIntroPeriod",
];

/// The fields that are read from the player's controller.
pub const CONTROLLER_FIELDS: [&'static str; 118] = [
    "CCSPlayerController.m_bHasCommunicationAbuseMute",
    "CCSPlayerController.m_szCrosshairCodes",
    "CCSPlayerController.m_iPendingTeamNum",
    "CCSPlayerController.m_flForceTeamTime",
    "CCSPlayerController.m_iCompTeammateColor",
    "CCSPlayerController.m_bEverPlayedOnTeam",
    "CCSPlayerController.m_szClan",
    "CCSPlayerController.m_iCoachingTeam",
    "CCSPlayerController.m_nPlayerDominated",
    "CCSPlayerController.m_nPlayerDominatingMe",
    "CCSPlayerController.m_iCompetitiveRanking",
    "CCSPlayerController.m_iCompetitiveWins",
    "CCSPlayerController.m_iCompetitiveRankType",
    "CCSPlayerController.m_nEndMatchNextMapVote",
    "CCSPlayerController.m_unActiveQuestId",
    "CCSPlayerController.m_nQuestProgressReason",
    "CCSPlayerController.m_unPlayerTvControlFlags",
    "CCSPlayerController.m_nDisconnectionTick",
    "CCSPlayerController.m_bControllingBot",
    "CCSPlayerController.m_bHasControlledBotThisRound",
    "CCSPlayerController.m_bCanControlObservedBot",
    "CCSPlayerController.m_hPlayerPawn",
    "CCSPlayerController.m_hObserverPawn",
    "CCSPlayerController.m_bPawnIsAlive",
    "CCSPlayerController.m_iPawnHealth",
    "CCSPlayerController.m_iPawnArmor",
    "CCSPlayerController.m_bPawnHasDefuser",
    "CCSPlayerController.m_bPawnHasHelmet",
    "CCSPlayerController.m_nPawnCharacterDefIndex",
    "CCSPlayerController.m_iPawnLifetimeStart",
    "CCSPlayerController.m_iPawnLifetimeEnd",
    "CCSPlayerController.m_iPawnGunGameLevel",
    "CCSPlayerController.m_iPawnBotDifficulty",
    "CCSPlayerController.m_hOriginalControllerOfCurrentPawn",
    "CCSPlayerController.m_iScore",
    "CCSPlayerController.m_flSimulationTime",
    "CCSPlayerController.m_nTickBase",
    "CCSPlayerController.m_fFlags",
    "CCSPlayerController.CEntityIdentity.m_nameStringableIndex",
    "CCSPlayerController.m_flCreateTime",
    "CCSPlayerController.m_iTeamNum",
    "CCSPlayerController.m_bSimulatedEveryTick",
    "CCSPlayerController.m_hPawn",
    "CCSPlayerController.m_iConnected",
    "CCSPlayerController.m_iszPlayerName",
    "CCSPlayerController.m_steamID",
    "CCSPlayerController.m_iDesiredFOV",
    "CCSPlayerController.CCSPlayerController_InGameMoneyServices.m_iAccount",
    "CCSPlayerController.CCSPlayerController_InGameMoneyServices.m_iStartAccount",
    "CCSPlayerController.CCSPlayerController_InGameMoneyServices.m_iTotalCashSpent",
    "CCSPlayerController.CCSPlayerController_InGameMoneyServices.m_iCashSpentThisRound",
    "CCSPlayerController.CCSPlayerController_InventoryServices.m_unMusicID",
    "CCSPlayerController.CCSPlayerController_InventoryServices.m_rank",
    "CCSPlayerController.CCSPlayerController_InventoryServices.m_nPersonaDataPublicLevel",
    "CCSPlayerController.CCSPlayerController_InventoryServices.m_nPersonaDataPublicCommendsLeader",
    "CCSPlayerController.CCSPlayerController_InventoryServices.m_nPersonaDataPublicCommendsTeacher",
    "CCSPlayerController.CCSPlayerController_InventoryServices.m_nPersonaDataPublicCommendsFriendly",
    "CCSPlayerController.CCSPlayerController_InventoryServices.CEconItemView.m_iItemDefinitionIndex",
    "CCSPlayerController.CCSPlayerController_InventoryServices.CEconItemView.m_iEntityQuality",
    "CCSPlayerController.CCSPlayerController_InventoryServices.CEconItemView.m_iEntityLevel",
    "CCSPlayerController.CCSPlayerController_InventoryServices.CEconItemView.m_iItemIDHigh",
    "CCSPlayerController.CCSPlayerController_InventoryServices.CEconItemView.m_iItemIDLow",
    "CCSPlayerController.CCSPlayerController_InventoryServices.CEconItemView.m_iAccountID",
    "CCSPlayerController.CCSPlayerController_InventoryServices.CEconItemView.m_iInventoryPosition",
    "CCSPlayerController.CCSPlayerController_InventoryServices.CEconItemView.m_bInitialized",
    "CCSPlayerController.CCSPlayerController_InventoryServices.CEconItemView.CEconItemAttribute.m_iAttributeDefinitionIndex",
    "CCSPlayerController.CCSPlayerController_InventoryServices.CEconItemView.CEconItemAttribute.m_iRawValue32",
    "CCSPlayerController.CCSPlayerController_InventoryServices.CEconItemView.CEconItemAttribute.m_flInitialValue",
    "CCSPlayerController.CCSPlayerController_InventoryServices.CEconItemView.CEconItemAttribute.m_nRefundableCurrency",
    "CCSPlayerController.CCSPlayerController_InventoryServices.CEconItemView.CEconItemAttribute.m_bSetBonus",
    "CCSPlayerController.CCSPlayerController_InventoryServices.CEconItemView.m_szCustomName",
    "CCSPlayerController.CCSPlayerController_ActionTrackingServices.CSPerRoundStats_t.m_iKills",
    "CCSPlayerController.CCSPlayerController_ActionTrackingServices.CSPerRoundStats_t.m_iDeaths",
    "CCSPlayerController.CCSPlayerController_ActionTrackingServices.CSPerRoundStats_t.m_iAssists",
    "CCSPlayerController.CCSPlayerController_ActionTrackingServices.CSPerRoundStats_t.m_iLiveTime",
    "CCSPlayerController.CCSPlayerController_ActionTrackingServices.CSPerRoundStats_t.m_iHeadShotKills",
    "CCSPlayerController.CCSPlayerController_ActionTrackingServices.CSPerRoundStats_t.m_iDamage",
    "CCSPlayerController.CCSPlayerController_ActionTrackingServices.CSPerRoundStats_t.m_iObjective",
    "CCSPlayerController.CCSPlayerController_ActionTrackingServices.CSPerRoundStats_t.m_iUtilityDamage",
    "CCSPlayerController.CCSPlayerController_ActionTrackingServices.CSPerRoundStats_t.m_iEnemiesFlashed",
    "CCSPlayerController.CCSPlayerController_ActionTrackingServices.CSPerRoundStats_t.m_iEquipmentValue",
    "CCSPlayerController.CCSPlayerController_ActionTrackingServices.CSPerRoundStats_t.m_iMoneySaved",
    "CCSPlayerController.CCSPlayerController_ActionTrackingServices.CSPerRoundStats_t.m_iKillReward",
    "CCSPlayerController.CCSPlayerController_ActionTrackingServices.CSPerRoundStats_t.m_iCashEarned",
    "CCSPlayerController.CCSPlayerController_ActionTrackingServices.m_iKills",
    "CCSPlayerController.CCSPlayerController_ActionTrackingServices.m_iDeaths",
    "CCSPlayerController.CCSPlayerController_ActionTrackingServices.m_iAssists",
    "CCSPlayerController.CCSPlayerController_ActionTrackingServices.m_iLiveTime",
    "CCSPlayerController.CCSPlayerController_ActionTrackingServices.m_iHeadShotKills",
    "CCSPlayerController.CCSPlayerController_ActionTrackingServices.m_iEnemy5Ks",
    "CCSPlayerController.CCSPlayerController_ActionTrackingServices.m_iEnemy4Ks",
    "CCSPlayerController.CCSPlayerController_ActionTrackingServices.m_iEnemy3Ks",
    "CCSPlayerController.CCSPlayerController_ActionTrackingServices.m_iNumRoundKills",
    "CCSPlayerController.CCSPlayerController_ActionTrackingServices.m_iNumRoundKillsHeadshots",
    "CCSPlayerController.CCSPlayerController_ActionTrackingServices.m_iDamage",
    "CCSPlayerController.CCSPlayerController_ActionTrackingServices.m_iObjective",
    "CCSPlayerController.CCSPlayerController_ActionTrackingServices.m_iUtilityDamage",
    "CCSPlayerController.CCSPlayerController_ActionTrackingServices.m_iEnemiesFlashed",
    "CCSPlayerController.CCSPlayerController_ActionTrackingServices.m_iEquipmentValue",
    "CCSPlayerController.CCSPlayerController_ActionTrackingServices.m_iMoneySaved",
    "CCSPlayerController.CCSPlayerController_ActionTrackingServices.m_iKillReward",
    "CCSPlayerController.CCSPlayerController_ActionTrackingServices.m_iCashEarned",
    "CCSPlayerController.CCSPlayerController_DamageServices.m_nSendUpdate",
    "CCSPlayerController.CCSPlayerController_DamageServices.CDamageRecord.m_PlayerDamager",
    "CCSPlayerController.CCSPlayerController_DamageServices.CDamageRecord.m_PlayerRecipient",
    "CCSPlayerController.CCSPlayerController_DamageServices.CDamageRecord.m_hPlayerControllerDamager",
    "CCSPlayerController.CCSPlayerController_DamageServices.CDamageRecord.m_hPlayerControllerRecipient",
    "CCSPlayerController.CCSPlayerController_DamageServices.CDamageRecord.m_szPlayerDamagerName",
    "CCSPlayerController.CCSPlayerController_DamageServices.CDamageRecord.m_szPlayerRecipientName",
    "CCSPlayerController.CCSPlayerController_DamageServices.CDamageRecord.m_DamagerXuid",
    "CCSPlayerController.CCSPlayerController_DamageServices.CDamageRecord.m_RecipientXuid",
    "CCSPlayerController.CCSPlayerController_DamageServices.CDamageRecord.m_iDamage",
    "CCSPlayerController.CCSPlayerController_DamageServices.CDamageRecord.m_iActualHealthRemoved",
    "CCSPlayerController.CCSPlayerController_DamageServices.CDamageRecord.m_iNumHits",
    "CCSPlayerController.CCSPlayerController_DamageServices.CDamageRecord.m_iLastBulletUpdate",
    "CCSPlayerController.CCSPlayerController_DamageServices.CDamageRecord.m_bIsOtherEnemy",
    "CCSPlayerController.CCSPlayerController_DamageServices.CDamageRecord.m_killType",
    "CCSPlayerController.m_iPing",
];

/// The fields that are read from the player's pawn while it is alive.
pub const PLAYER_FIELDS: [&'static str; 66] = [
    "CCSPlayerPawn.m_MoveCollide",
    "CCSPlayerPawn.m_MoveType",
    "CCSPlayerPawn.m_iTeamNum",
    "CCSPlayerPawn.CCSPlayer_WeaponServices.m_hActiveWeapon",
    "CCSPlayerPawn.CCSPlayer_WeaponServices.m_iAmmo",
    "CCSPlayerPawn.CCSPlayer_WeaponServices.m_bIsLookingAtWeapon",
    "CCSPlayerPawn.CCSPlayer_WeaponServices.m_bIsHoldingLookAtWeapon",
    "CCSPlayerPawn.CCSPlayer_WeaponServices.m_flNextAttack",
    "CCSPlayerPawn.CCSPlayer_MovementServices.m_nDuckTimeMsecs",
    "CCSPlayerPawn.CCSPlayer_MovementServices.m_flMaxspeed",
    "CCSPlayerPawn.CCSPlayer_MovementServices.m_flMaxFallVelocity",
    "CCSPlayerPawn.CCSPlayer_MovementServices.m_flDuckAmount",
    "CCSPlayerPawn.CCSPlayer_MovementServices.m_flDuckSpeed",
    "CCSPlayerPawn.CCSPlayer_MovementServices.m_bDuckOverride",
    "CCSPlayerPawn.CCSPlayer_MovementServices.m_bOldJumpPressed",
    "CCSPlayerPawn.CCSPlayer_MovementServices.m_flJumpUntil",
    "CCSPlayerPawn.CCSPlayer_MovementServices.m_flJumpVel",
    "CCSPlayerPawn.CCSPlayer_MovementServices.m_flFallVelocity",
    "CCSPlayerPawn.CCSPlayer_MovementServices.m_bInCrouch",
    "CCSPlayerPawn.CCSPlayer_MovementServices.m_nCrouchState",
    "CCSPlayerPawn.CCSPlayer_MovementServices.m_bDucked",
    "CCSPlayerPawn.CCSPlayer_MovementServices.m_bDucking",
    "CCSPlayerPawn.CCSPlayer_MovementServices.m_bInDuckJump",
    "CCSPlayerPawn.CCSPlayer_MovementServices.m_bAllowAutoMovement",
    "CCSPlayerPawn.CCSPlayer_MovementServices.m_nJumpTimeMsecs",
    "CCSPlayerPawn.CCSPlayer_MovementServices.m_flLastDuckTime",
    "CCSPlayerPawn.CCSPlayer_ActionTrackingServices.m_bIsRescuing",
    "CCSPlayerPawn.CCSPlayer_ActionTrackingServices.m_iWeaponPurchasesThisMatch",
    "CCSPlayerPawn.CCSPlayer_ActionTrackingServices.m_iWeaponPurchasesThisRound",
    "CCSPlayerPawn.m_bSpotted",
    "CCSPlayerPawn.m_bSpottedByMask",
    "CCSPlayerPawn.m_flTimeOfLastInjury",
    "CCSPlayerPawn.m_nRelativeDirectionOfLastInjury",
    "CCSPlayerPawn.m_iPlayerState",
    "CCSPlayerPawn.m_passiveItems",
    "CCSPlayerPawn.m_bIsScoped",
    "CCSPlayerPawn.m_bIsWalking",
    "CCSPlayerPawn.m_bResumeZoom",
    "CCSPlayerPawn.m_bIsDefusing",
    "CCSPlayerPawn.m_bIsGrabbingHostage",
    "CCSPlayerPawn.m_iBlockingUseActionInProgress",
    "CCSPlayerPawn.m_fMolotovDamageTime",
    "CCSPlayerPawn.m_bHasMovedSinceSpawn",
    "CCSPlayerPawn.m_bInBombZone",
    "CCSPlayerPawn.m_bInBuyZone",
    "CCSPlayerPawn.m_bInNoDefuseArea",
    "CCSPlayerPawn.m_bKilledByTaser",
    "CCSPlayerPawn.m_iMoveState",
    "CCSPlayerPawn.m_nWhichBombZone",
    "CCSPlayerPawn.m_bInHostageRescueZone",
    "CCSPlayerPawn.m_flStamina",
    "CCSPlayerPawn.m_iDirection",
    "CCSPlayerPawn.m_iShotsFired",
    "CCSPlayerPawn.m_ArmorValue",
    "CCSPlayerPawn.m_flVelocityModifier",
    "CCSPlayerPawn.m_flGroundAccelLinearFracLastTime",
    "CCSPlayerPawn.m_flFlashDuration",
    "CCSPlayerPawn.m_flFlashMaxAlpha",
    "CCSPlayerPawn.m_bWaitForNoAttack",
    "CCSPlayerPawn.m_szLastPlaceName",
    "CCSPlayerPawn.m_bStrafing",
    "CCSPlayerPawn.m_unRoundStartEquipmentValue",
    "CCSPlayerPawn.m_unCurrentEquipmentValue",
    "CCSPlayerPawn.m_flSimulationTime",
    "CCSPlayerPawn.m_iHealth",
    "CCSPlayerPawn.m_lifeState",
];

/// The fields that are put together from other fields: the three axes of
/// a player's position.
pub const CUSTOM_FIELDS: [&'static str; 3] = [
    "X",
    "Y",
    "Z",
];

/// Whether `name` is one of `fields`.
pub open spec fn lists(fields: Seq<&'static str>, name: Seq<char>) -> bool {
    exists|i: int| 0 <= i < fields.len() && (#[trigger] fields[i])@ == name
}

/// The routing kind that the table gives `name`, if it lists the name.
pub open spec fn classification(name: Seq<char>) -> Option<PropType> {
    if lists(TEAM_FIELDS@, name) {
        Some(PropType::Team)
    } else if lists(RULES_FIELDS@, name) {
        Some(PropType::Rules)
    } else if lists(CONTROLLER_FIELDS@, name) {
        Some(PropType::Controller)
    } else if lists(PLAYER_FIELDS@, name) {
        Some(PropType::Player)
    } else if lists(CUSTOM_FIELDS@, name) {
        Some(PropType::Custom)
    } else {
        None
    }
}

/// Whether `name` is one of the three axes.
pub open spec fn is_axis_field(name: Seq<char>) -> bool {
    name == "X"@ || name == "Y"@ || name == "Z"@
}

/// The field that holds the number of the tick.
pub const TICK_FIELD: &'static str = "tick";

/// The field that holds the steam id of the player.
pub const STEAMID_FIELD: &'static str = "steamid";

/// The field that holds the name of the player.
pub const NAME_FIELD: &'static str = "name";

/// Whether `name` is one of the three fields that are answered from what
/// is known of the player and of the tick, before the table is asked.
pub open spec fn is_metadata_field(name: Seq<char>) -> bool {
    name == TICK_FIELD@ || name == STEAMID_FIELD@ || name == NAME_FIELD@
}

fn listed<const N: usize>(fields: &[&'static str; N], name: &str) -> (found: bool)
    ensures
        found == lists(fields@, name@),
{
    let mut i: usize = 0;
    while i < N
        invariant
            i <= N,
            fields@.len() == N,
            forall|k: int| 0 <= k < i ==> (#[trigger] fields@[k])@ != name@,
        decreases N - i,
    {
        if same_text(name, fields[i]) {
            return true;
        }
        i += 1;
    }
    false
}

/// Looks `name` up in the table of routing kinds. `None` says that the
/// table does not list the name: such a field is read from the entity it
/// was asked of.
pub fn classify(name: &str) -> (kind: Option<PropType>)
    ensures
        kind == classification(name@),
{
    if listed(&TEAM_FIELDS, name) {
        Some(PropType::Team)
    } else if listed(&RULES_FIELDS, name) {
        Some(PropType::Rules)
    } else if listed(&CONTROLLER_FIELDS, name) {
        Some(PropType::Controller)
    } else if listed(&PLAYER_FIELDS, name) {
        Some(PropType::Player)
    } else if listed(&CUSTOM_FIELDS, name) {
        Some(PropType::Custom)
    } else {
        None
    }
}

/// The custom fields of the table are the three axes.
pub proof fn lemma_custom_fields_are_the_axes(name: Seq<char>)
    ensures
        lists(CUSTOM_FIELDS@, name) <==> is_axis_field(name),
{
    if lists(CUSTOM_FIELDS@, name) {
        let i = choose|i: int| 0 <= i < CUSTOM_FIELDS@.len() && CUSTOM_FIELDS@[i]@ == name;
        assert(i == 0 || i == 1 || i == 2);
    }
}

} // verus!
