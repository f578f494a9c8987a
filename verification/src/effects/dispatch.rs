//! Running effects: each effect kind goes to its handler.
use vstd::prelude::*;
use crate::card::{CardDb, CardFilter};
pub use crate::effects::damage_calc::compute_damage_modifier;
use crate::constants::POINTS_TO_WIN;
use crate::rng::{flip_coin, random_index};
use crate::state::{after_damage, damage_fits};
use crate::effects::{EffectContext, EffectKind, extra_get};
use crate::effects::damage_mod_handlers::{bench_can_damage, damage_bench, specific_bench_target};
use crate::effects::misc_handlers::{
    attack_bonus_incoming, aura_bonus, candy_card, candy_hand, card_in_db, copy_applies, copy_fits, copy_outcome, cured,
    evolved, extra_target, extra_target_ok, healed, hp_raised, no_attack_incoming, no_retreat_incoming, protected_incoming,
    reduction_incoming, self_block_on_tails, top_is_psychic_pokemon,
};
use crate::effects::{damage_mod_handlers, draw_handlers, energy_handlers, misc_handlers, status_handlers};
use crate::effects::draw_handlers::{searched_first, searched_random, shuffled_in};
use crate::effects::search::{first_match, random_moves, took_match};
use crate::effects::status_handlers::{
    add_status_at, attack_block_on_flip, opponent, paralysis_on_flip, random_status_choice, sleep_on_flip,
};
use crate::effects::energy_handlers::{
    all_discarded, any_energy, apply_units, attach_each, chosen_bench, chosen_bench_ok, coins_attached, dawn_result,
    discard_fits_all, discard_room, electric_moved, energy_set_at, first_bench, grass_attached, has_unit, heads_attached,
    named_attached, random_unit_removed, source_of, source_slot, str_views, two_targets_ok, typed_moved, typed_room,
    unit_removed, units_moved_to_pile, valid_units, water_moved, water_picks,
};
use crate::actions::SlotRef;
use crate::state::{GameState, GameView, Pile, PlayerView, PokemonSlot, active_ref, bench_ref, read_slot, write_slot};
use crate::types::{Element, StatusEffect};

verus! {

/// The families of effects, by the handlers that apply them.
#[derive(Clone, Copy, Debug, PartialEq, Eq, Structural)]
pub enum EffectFamily {
    Status,
    Draw,
    Attach,
    Energy,
    Damage,
    Misc,
    Other,
}

/// The family of `e`.
pub open spec fn effect_family(e: EffectKind) -> EffectFamily {
    match e {
        EffectKind::ApplyPoison => EffectFamily::Status,
        EffectKind::ApplyBurn => EffectFamily::Status,
        EffectKind::ApplySleep => EffectFamily::Status,
        EffectKind::ApplyParalysis => EffectFamily::Status,
        EffectKind::ApplyConfusion => EffectFamily::Status,
        EffectKind::ApplyRandomStatus => EffectFamily::Status,
        EffectKind::ToxicPoison => EffectFamily::Status,
        EffectKind::CoinFlipApplyParalysis => EffectFamily::Status,
        EffectKind::CoinFlipApplySleep => EffectFamily::Status,
        EffectKind::SelfConfuse => EffectFamily::Status,
        EffectKind::SelfSleep => EffectFamily::Status,
        EffectKind::CoinFlipAttackBlockNextTurn => EffectFamily::Status,
        EffectKind::HealSelf { .. } => EffectFamily::Other,
        EffectKind::HealTarget { .. } => EffectFamily::Other,
        EffectKind::HealActive { .. } => EffectFamily::Other,
        EffectKind::HealAllOwn { .. } => EffectFamily::Other,
        EffectKind::HealGrassTarget { .. } => EffectFamily::Other,
        EffectKind::HealWaterPokemon { .. } => EffectFamily::Other,
        EffectKind::HealStage2Target { .. } => EffectFamily::Other,
        EffectKind::HealAndCureStatus { .. } => EffectFamily::Other,
        EffectKind::HealSelfEqualToDamageDealt => EffectFamily::Other,
        EffectKind::HealAllNamedDiscardEnergy { .. } => EffectFamily::Other,
        EffectKind::HealAllTyped { .. } => EffectFamily::Other,
        EffectKind::DrawCards { .. } => EffectFamily::Draw,
        EffectKind::DrawOneCard => EffectFamily::Draw,
        EffectKind::DrawBasicPokemon => EffectFamily::Draw,
        EffectKind::IonoHandShuffle => EffectFamily::Draw,
        EffectKind::MarsHandShuffle => EffectFamily::Draw,
        EffectKind::ShuffleHandIntoDeck => EffectFamily::Draw,
        EffectKind::ShuffleHandDrawOpponentCount => EffectFamily::Draw,
        EffectKind::DiscardToDraw { .. } => EffectFamily::Draw,
        EffectKind::OpponentShuffleHandDraw { .. } => EffectFamily::Draw,
        EffectKind::SearchDeckNamedBasic { .. } => EffectFamily::Draw,
        EffectKind::SearchDeckRandomPokemon => EffectFamily::Draw,
        EffectKind::SearchDeckEvolvesFrom { .. } => EffectFamily::Draw,
        EffectKind::SearchDeckNamed { .. } => EffectFamily::Draw,
        EffectKind::SearchDeckGrassPokemon => EffectFamily::Draw,
        EffectKind::SearchDeckRandomBasic => EffectFamily::Draw,
        EffectKind::SearchDiscardRandomBasic => EffectFamily::Draw,
        EffectKind::LookTopOfDeck { .. } => EffectFamily::Draw,
        EffectKind::RevealOpponentHand => EffectFamily::Draw,
        EffectKind::LookOpponentHand => EffectFamily::Draw,
        EffectKind::RevealOpponentSupporters => EffectFamily::Draw,
        EffectKind::FishingNet => EffectFamily::Draw,
        EffectKind::PokemonCommunication => EffectFamily::Draw,
        EffectKind::DiscardRandomCardOpponent => EffectFamily::Draw,
        EffectKind::DiscardRandomToolFromHand => EffectFamily::Draw,
        EffectKind::DiscardRandomItemFromHand => EffectFamily::Draw,
        EffectKind::DiscardTopDeck => EffectFamily::Draw,
        EffectKind::AttachEnergyZoneSelf => EffectFamily::Attach,
        EffectKind::AttachEnergyZoneBench { .. } => EffectFamily::Attach,
        EffectKind::AttachEnergyZoneBenchBracket { .. } => EffectFamily::Attach,
        EffectKind::AttachEnergyZoneBenchAnyBracket { .. } => EffectFamily::Attach,
        EffectKind::AttachEnergyZoneSelfBracket => EffectFamily::Attach,
        EffectKind::AttachEnergyZoneNamed { .. } => EffectFamily::Attach,
        EffectKind::AttachEnergyZoneToGrass => EffectFamily::Attach,
        EffectKind::AttachNEnergyZoneBench { .. } => EffectFamily::Attach,
        EffectKind::AttachWaterTwoBench => EffectFamily::Attach,
        EffectKind::AttachColorlessEnergyZoneBench => EffectFamily::Attach,
        EffectKind::AttachEnergyDiscardNamed { .. } => EffectFamily::Attach,
        EffectKind::AttachEnergyNamedEndTurn { .. } => EffectFamily::Attach,
        EffectKind::AbilityAttachEnergyEndTurn => EffectFamily::Attach,
        EffectKind::CoinFlipUntilTailsAttachEnergy => EffectFamily::Attach,
        EffectKind::MultiCoinAttachBench { .. } => EffectFamily::Attach,
        EffectKind::LusamineAttach => EffectFamily::Attach,
        EffectKind::FirstTurnEnergyAttach => EffectFamily::Attach,
        EffectKind::DiscardEnergySelf => EffectFamily::Energy,
        EffectKind::DiscardNEnergySelf { .. } => EffectFamily::Energy,
        EffectKind::DiscardAllEnergySelf => EffectFamily::Energy,
        EffectKind::DiscardAllTypedEnergySelf { .. } => EffectFamily::Energy,
        EffectKind::CoinFlipDiscardRandomEnergyOpponent => EffectFamily::Energy,
        EffectKind::DiscardRandomEnergyOpponent => EffectFamily::Energy,
        EffectKind::DiscardRandomEnergyBothActive => EffectFamily::Energy,
        EffectKind::DiscardRandomEnergyAllPokemon => EffectFamily::Energy,
        EffectKind::CoinFlipUntilTailsDiscardEnergy => EffectFamily::Energy,
        EffectKind::MoveBenchEnergyToActive => EffectFamily::Energy,
        EffectKind::MoveWaterBenchToActive => EffectFamily::Energy,
        EffectKind::MoveAllTypedEnergyBenchToActive { .. } => EffectFamily::Energy,
        EffectKind::MoveAllElectricToActiveNamed { .. } => EffectFamily::Energy,
        EffectKind::ChangeOpponentEnergyType { .. } => EffectFamily::Energy,
        EffectKind::OpponentNoEnergyNextTurn => EffectFamily::Misc,
        EffectKind::ReduceAttackCostNamed { .. } => EffectFamily::Energy,
        EffectKind::CoinFlipBonusDamage { .. } => EffectFamily::Other,
        EffectKind::CoinFlipNothing => EffectFamily::Other,
        EffectKind::BothCoinsBonus { .. } => EffectFamily::Other,
        EffectKind::MultiCoinDamage { .. } => EffectFamily::Other,
        EffectKind::FlipUntilTailsDamage { .. } => EffectFamily::Other,
        EffectKind::CoinFlipBonusOrSelfDamage { .. } => EffectFamily::Other,
        EffectKind::MultiCoinPerEnergyDamage { .. } => EffectFamily::Other,
        EffectKind::MultiCoinPerTypedEnergyDamage { .. } => EffectFamily::Other,
        EffectKind::MultiCoinPerPokemonDamage { .. } => EffectFamily::Other,
        EffectKind::FlipUntilTailsBonus { .. } => EffectFamily::Other,
        EffectKind::MultiCoinBonus { .. } => EffectFamily::Other,
        EffectKind::BonusPerBench { .. } => EffectFamily::Other,
        EffectKind::BonusPerBenchElement { .. } => EffectFamily::Other,
        EffectKind::BonusPerBenchNamed { .. } => EffectFamily::Other,
        EffectKind::BonusPerOpponentEnergy { .. } => EffectFamily::Other,
        EffectKind::BonusIfExtraWaterEnergy { .. } => EffectFamily::Other,
        EffectKind::BonusIfOpponentDamaged { .. } => EffectFamily::Other,
        EffectKind::BonusIfSelfDamaged { .. } => EffectFamily::Other,
        EffectKind::BonusIfOpponentPoisoned { .. } => EffectFamily::Other,
        EffectKind::BonusPerOpponentBench { .. } => EffectFamily::Other,
        EffectKind::BonusIfToolAttached { .. } => EffectFamily::Other,
        EffectKind::BonusIfOpponentHasTool { .. } => EffectFamily::Other,
        EffectKind::BonusIfOpponentEx { .. } => EffectFamily::Other,
        EffectKind::BonusIfOpponentBasic { .. } => EffectFamily::Other,
        EffectKind::BonusIfOpponentElement { .. } => EffectFamily::Other,
        EffectKind::BonusIfOpponentHasAbility { .. } => EffectFamily::Other,
        EffectKind::BonusIfBenchDamaged { .. } => EffectFamily::Other,
        EffectKind::BonusIfKoLastTurn { .. } => EffectFamily::Other,
        EffectKind::BonusIfPlayedSupporter { .. } => EffectFamily::Other,
        EffectKind::BonusIfJustPromoted { .. } => EffectFamily::Other,
        EffectKind::BonusIfOpponentMoreHp { .. } => EffectFamily::Other,
        EffectKind::BonusIfOpponentHasStatus { .. } => EffectFamily::Other,
        EffectKind::BonusEqualToDamageTaken => EffectFamily::Other,
        EffectKind::BonusIfExtraEnergy { .. } => EffectFamily::Other,
        EffectKind::BonusIfNamedInPlay { .. } => EffectFamily::Other,
        EffectKind::HalveOpponentHp => EffectFamily::Damage,
        EffectKind::DoubleHeadsInstantKo => EffectFamily::Other,
        EffectKind::SwitchOpponentActive => EffectFamily::Other,
        EffectKind::SwitchSelfToBench => EffectFamily::Other,
        EffectKind::SwitchSelfToBenchTyped { .. } => EffectFamily::Other,
        EffectKind::SwitchOpponentBasicToActive => EffectFamily::Other,
        EffectKind::SwitchOpponentDamagedToActive => EffectFamily::Other,
        EffectKind::SwitchUltraBeast => EffectFamily::Other,
        EffectKind::AbilityBenchToActive => EffectFamily::Other,
        EffectKind::CoinFlipBounceOpponent => EffectFamily::Other,
        EffectKind::ReturnActiveToHandNamed { .. } => EffectFamily::Other,
        EffectKind::ReturnColorlessToHand => EffectFamily::Other,
        EffectKind::PlaceOpponentBasicFromDiscard => EffectFamily::Other,
        EffectKind::ShuffleOpponentActiveIntoDeck => EffectFamily::Other,
        EffectKind::SplashBenchOpponent { .. } => EffectFamily::Damage,
        EffectKind::SplashBenchOwn { .. } => EffectFamily::Damage,
        EffectKind::SplashAllOpponent { .. } => EffectFamily::Damage,
        EffectKind::RandomHitOne { .. } => EffectFamily::Damage,
        EffectKind::RandomMultiHit { .. } => EffectFamily::Damage,
        EffectKind::SelfDamage { .. } => EffectFamily::Damage,
        EffectKind::SelfDamageOnCoinFlipResult { .. } => EffectFamily::Damage,
        EffectKind::DiscardOpponentToolsBeforeDamage => EffectFamily::Damage,
        EffectKind::DiscardAllOpponentTools => EffectFamily::Damage,
        EffectKind::BenchHitOpponent { .. } => EffectFamily::Damage,
        EffectKind::MoveDamageToOpponent { .. } => EffectFamily::Damage,
        EffectKind::CantRetreatNextTurn => EffectFamily::Misc,
        EffectKind::PreventDamageNextTurn => EffectFamily::Misc,
        EffectKind::TakeLessDamageNextTurn { .. } => EffectFamily::Misc,
        EffectKind::DefenderAttacksDoLessDamage { .. } => EffectFamily::Misc,
        EffectKind::OpponentNoSupporterNextTurn => EffectFamily::Misc,
        EffectKind::SupporterDamageAura { .. } => EffectFamily::Misc,
        EffectKind::SupporterDamageAuraVsEx { .. } => EffectFamily::Misc,
        EffectKind::ReduceRetreatCost { .. } => EffectFamily::Misc,
        EffectKind::CopyOpponentAttack => EffectFamily::Misc,
        EffectKind::CoinFlipShuffleOpponentCard => EffectFamily::Misc,
        EffectKind::MultiCoinShuffleOpponentCards { .. } => EffectFamily::Misc,
        EffectKind::CantAttackNextTurn => EffectFamily::Misc,
        EffectKind::SelfCantAttackNextTurn => EffectFamily::Misc,
        EffectKind::CoinFlipSelfCantAttackNextTurn => EffectFamily::Misc,
        EffectKind::SelfCantUseSpecificAttack { .. } => EffectFamily::Misc,
        EffectKind::SelfAttackBuffNextTurn { .. } => EffectFamily::Misc,
        EffectKind::TakeMoreDamageNextTurn { .. } => EffectFamily::Misc,
        EffectKind::NextTurnAllDamageReduction { .. } => EffectFamily::Misc,
        EffectKind::NextTurnMetalDamageReduction { .. } => EffectFamily::Misc,
        EffectKind::OpponentCostIncreaseNextTurn { .. } => EffectFamily::Misc,
        EffectKind::OpponentNoItemsNextTurn => EffectFamily::Misc,
        EffectKind::BigMalasada => EffectFamily::Misc,
        EffectKind::MythicalSlab => EffectFamily::Misc,
        EffectKind::BeastWallProtection => EffectFamily::Misc,
        EffectKind::RareCandyEvolve => EffectFamily::Misc,
        EffectKind::HpBonus { .. } => EffectFamily::Misc,
        EffectKind::PassiveDamageReduction { .. } => EffectFamily::Other,
        EffectKind::PassiveRetaliate { .. } => EffectFamily::Other,
        EffectKind::PassiveBlockSupporters => EffectFamily::Other,
        EffectKind::PassiveDittoImpostor { .. } => EffectFamily::Other,
        EffectKind::PassiveDoubleGrassEnergy => EffectFamily::Other,
        EffectKind::PassiveImmuneStatus => EffectFamily::Other,
        EffectKind::PassiveKoEnergyTransfer => EffectFamily::Other,
        EffectKind::PassiveSurviveKoCoinFlip => EffectFamily::Other,
        EffectKind::PassiveTypeDamageBoost { .. } => EffectFamily::Other,
        EffectKind::PassiveTypeDamageReduction { .. } => EffectFamily::Other,
        EffectKind::PassiveBenchRetreatReduction { .. } => EffectFamily::Other,
        EffectKind::PassiveBlockEvolution => EffectFamily::Other,
        EffectKind::PassiveCheckupDamage { .. } => EffectFamily::Other,
        EffectKind::PassiveCoinFlipDamageReduction { .. } => EffectFamily::Other,
        EffectKind::PassiveDarkEnergyPing { .. } => EffectFamily::Other,
        EffectKind::PassiveElectricalCord => EffectFamily::Other,
        EffectKind::PassiveEnergySleep => EffectFamily::Other,
        EffectKind::PassiveFirstTurnNoRetreat => EffectFamily::Other,
        EffectKind::PassiveFreeRetreatWithEnergy => EffectFamily::Other,
        EffectKind::PassiveKoRetaliate { .. } => EffectFamily::Other,
        EffectKind::PassiveLumBerry => EffectFamily::Other,
        EffectKind::PassiveMoveDamageToSelf => EffectFamily::Other,
        EffectKind::PassiveNamedNoRetreat { .. } => EffectFamily::Other,
        EffectKind::PassiveNoHealing => EffectFamily::Other,
        EffectKind::PassiveOpponentAttackCostIncrease { .. } => EffectFamily::Other,
        EffectKind::PassiveOpponentDamageReduction { .. } => EffectFamily::Other,
        EffectKind::PassivePreventAttackEffects => EffectFamily::Other,
        EffectKind::PassivePreventExDamage => EffectFamily::Other,
        EffectKind::PassivePsychicCleanse => EffectFamily::Other,
        EffectKind::PassiveRetaliatePoison => EffectFamily::Other,
        EffectKind::PassiveArceusCostReduction => EffectFamily::Other,
        EffectKind::PassiveArceusDamageReduction { .. } => EffectFamily::Other,
        EffectKind::PassiveArceusNoRetreat => EffectFamily::Other,
        EffectKind::PassiveBeastiteDamage { .. } => EffectFamily::Other,
    }
}

/// The family of `e`.
pub fn family_of(e: &EffectKind) -> (r: EffectFamily)
    ensures
        r == effect_family(*e),
{
    match e {
        EffectKind::ApplyPoison => EffectFamily::Status,
        EffectKind::ApplyBurn => EffectFamily::Status,
        EffectKind::ApplySleep => EffectFamily::Status,
        EffectKind::ApplyParalysis => EffectFamily::Status,
        EffectKind::ApplyConfusion => EffectFamily::Status,
        EffectKind::ApplyRandomStatus => EffectFamily::Status,
        EffectKind::ToxicPoison => EffectFamily::Status,
        EffectKind::CoinFlipApplyParalysis => EffectFamily::Status,
        EffectKind::CoinFlipApplySleep => EffectFamily::Status,
        EffectKind::SelfConfuse => EffectFamily::Status,
        EffectKind::SelfSleep => EffectFamily::Status,
        EffectKind::CoinFlipAttackBlockNextTurn => EffectFamily::Status,
        EffectKind::HealSelf { .. } => EffectFamily::Other,
        EffectKind::HealTarget { .. } => EffectFamily::Other,
        EffectKind::HealActive { .. } => EffectFamily::Other,
        EffectKind::HealAllOwn { .. } => EffectFamily::Other,
        EffectKind::HealGrassTarget { .. } => EffectFamily::Other,
        EffectKind::HealWaterPokemon { .. } => EffectFamily::Other,
        EffectKind::HealStage2Target { .. } => EffectFamily::Other,
        EffectKind::HealAndCureStatus { .. } => EffectFamily::Other,
        EffectKind::HealSelfEqualToDamageDealt => EffectFamily::Other,
        EffectKind::HealAllNamedDiscardEnergy { .. } => EffectFamily::Other,
        EffectKind::HealAllTyped { .. } => EffectFamily::Other,
        EffectKind::DrawCards { .. } => EffectFamily::Draw,
        EffectKind::DrawOneCard => EffectFamily::Draw,
        EffectKind::DrawBasicPokemon => EffectFamily::Draw,
        EffectKind::IonoHandShuffle => EffectFamily::Draw,
        EffectKind::MarsHandShuffle => EffectFamily::Draw,
        EffectKind::ShuffleHandIntoDeck => EffectFamily::Draw,
        EffectKind::ShuffleHandDrawOpponentCount => EffectFamily::Draw,
        EffectKind::DiscardToDraw { .. } => EffectFamily::Draw,
        EffectKind::OpponentShuffleHandDraw { .. } => EffectFamily::Draw,
        EffectKind::SearchDeckNamedBasic { .. } => EffectFamily::Draw,
        EffectKind::SearchDeckRandomPokemon => EffectFamily::Draw,
        EffectKind::SearchDeckEvolvesFrom { .. } => EffectFamily::Draw,
        EffectKind::SearchDeckNamed { .. } => EffectFamily::Draw,
        EffectKind::SearchDeckGrassPokemon => EffectFamily::Draw,
        EffectKind::SearchDeckRandomBasic => EffectFamily::Draw,
        EffectKind::SearchDiscardRandomBasic => EffectFamily::Draw,
        EffectKind::LookTopOfDeck { .. } => EffectFamily::Draw,
        EffectKind::RevealOpponentHand => EffectFamily::Draw,
        EffectKind::LookOpponentHand => EffectFamily::Draw,
        EffectKind::RevealOpponentSupporters => EffectFamily::Draw,
        EffectKind::FishingNet => EffectFamily::Draw,
        EffectKind::PokemonCommunication => EffectFamily::Draw,
        EffectKind::DiscardRandomCardOpponent => EffectFamily::Draw,
        EffectKind::DiscardRandomToolFromHand => EffectFamily::Draw,
        EffectKind::DiscardRandomItemFromHand => EffectFamily::Draw,
        EffectKind::DiscardTopDeck => EffectFamily::Draw,
        EffectKind::AttachEnergyZoneSelf => EffectFamily::Attach,
        EffectKind::AttachEnergyZoneBench { .. } => EffectFamily::Attach,
        EffectKind::AttachEnergyZoneBenchBracket { .. } => EffectFamily::Attach,
        EffectKind::AttachEnergyZoneBenchAnyBracket { .. } => EffectFamily::Attach,
        EffectKind::AttachEnergyZoneSelfBracket => EffectFamily::Attach,
        EffectKind::AttachEnergyZoneNamed { .. } => EffectFamily::Attach,
        EffectKind::AttachEnergyZoneToGrass => EffectFamily::Attach,
        EffectKind::AttachNEnergyZoneBench { .. } => EffectFamily::Attach,
        EffectKind::AttachWaterTwoBench => EffectFamily::Attach,
        EffectKind::AttachColorlessEnergyZoneBench => EffectFamily::Attach,
        EffectKind::AttachEnergyDiscardNamed { .. } => EffectFamily::Attach,
        EffectKind::AttachEnergyNamedEndTurn { .. } => EffectFamily::Attach,
        EffectKind::AbilityAttachEnergyEndTurn => EffectFamily::Attach,
        EffectKind::CoinFlipUntilTailsAttachEnergy => EffectFamily::Attach,
        EffectKind::MultiCoinAttachBench { .. } => EffectFamily::Attach,
        EffectKind::LusamineAttach => EffectFamily::Attach,
        EffectKind::FirstTurnEnergyAttach => EffectFamily::Attach,
        EffectKind::DiscardEnergySelf => EffectFamily::Energy,
        EffectKind::DiscardNEnergySelf { .. } => EffectFamily::Energy,
        EffectKind::DiscardAllEnergySelf => EffectFamily::Energy,
        EffectKind::DiscardAllTypedEnergySelf { .. } => EffectFamily::Energy,
        EffectKind::CoinFlipDiscardRandomEnergyOpponent => EffectFamily::Energy,
        EffectKind::DiscardRandomEnergyOpponent => EffectFamily::Energy,
        EffectKind::DiscardRandomEnergyBothActive => EffectFamily::Energy,
        EffectKind::DiscardRandomEnergyAllPokemon => EffectFamily::Energy,
        EffectKind::CoinFlipUntilTailsDiscardEnergy => EffectFamily::Energy,
        EffectKind::MoveBenchEnergyToActive => EffectFamily::Energy,
        EffectKind::MoveWaterBenchToActive => EffectFamily::Energy,
        EffectKind::MoveAllTypedEnergyBenchToActive { .. } => EffectFamily::Energy,
        EffectKind::MoveAllElectricToActiveNamed { .. } => EffectFamily::Energy,
        EffectKind::ChangeOpponentEnergyType { .. } => EffectFamily::Energy,
        EffectKind::OpponentNoEnergyNextTurn => EffectFamily::Misc,
        EffectKind::ReduceAttackCostNamed { .. } => EffectFamily::Energy,
        EffectKind::CoinFlipBonusDamage { .. } => EffectFamily::Other,
        EffectKind::CoinFlipNothing => EffectFamily::Other,
        EffectKind::BothCoinsBonus { .. } => EffectFamily::Other,
        EffectKind::MultiCoinDamage { .. } => EffectFamily::Other,
        EffectKind::FlipUntilTailsDamage { .. } => EffectFamily::Other,
        EffectKind::CoinFlipBonusOrSelfDamage { .. } => EffectFamily::Other,
        EffectKind::MultiCoinPerEnergyDamage { .. } => EffectFamily::Other,
        EffectKind::MultiCoinPerTypedEnergyDamage { .. } => EffectFamily::Other,
        EffectKind::MultiCoinPerPokemonDamage { .. } => EffectFamily::Other,
        EffectKind::FlipUntilTailsBonus { .. } => EffectFamily::Other,
        EffectKind::MultiCoinBonus { .. } => EffectFamily::Other,
        EffectKind::BonusPerBench { .. } => EffectFamily::Other,
        EffectKind::BonusPerBenchElement { .. } => EffectFamily::Other,
        EffectKind::BonusPerBenchNamed { .. } => EffectFamily::Other,
        EffectKind::BonusPerOpponentEnergy { .. } => EffectFamily::Other,
        EffectKind::BonusIfExtraWaterEnergy { .. } => EffectFamily::Other,
        EffectKind::BonusIfOpponentDamaged { .. } => EffectFamily::Other,
        EffectKind::BonusIfSelfDamaged { .. } => EffectFamily::Other,
        EffectKind::BonusIfOpponentPoisoned { .. } => EffectFamily::Other,
        EffectKind::BonusPerOpponentBench { .. } => EffectFamily::Other,
        EffectKind::BonusIfToolAttached { .. } => EffectFamily::Other,
        EffectKind::BonusIfOpponentHasTool { .. } => EffectFamily::Other,
        EffectKind::BonusIfOpponentEx { .. } => EffectFamily::Other,
        EffectKind::BonusIfOpponentBasic { .. } => EffectFamily::Other,
        EffectKind::BonusIfOpponentElement { .. } => EffectFamily::Other,
        EffectKind::BonusIfOpponentHasAbility { .. } => EffectFamily::Other,
        EffectKind::BonusIfBenchDamaged { .. } => EffectFamily::Other,
        EffectKind::BonusIfKoLastTurn { .. } => EffectFamily::Other,
        EffectKind::BonusIfPlayedSupporter { .. } => EffectFamily::Other,
        EffectKind::BonusIfJustPromoted { .. } => EffectFamily::Other,
        EffectKind::BonusIfOpponentMoreHp { .. } => EffectFamily::Other,
        EffectKind::BonusIfOpponentHasStatus { .. } => EffectFamily::Other,
        EffectKind::BonusEqualToDamageTaken => EffectFamily::Other,
        EffectKind::BonusIfExtraEnergy { .. } => EffectFamily::Other,
        EffectKind::BonusIfNamedInPlay { .. } => EffectFamily::Other,
        EffectKind::HalveOpponentHp => EffectFamily::Damage,
        EffectKind::DoubleHeadsInstantKo => EffectFamily::Other,
        EffectKind::SwitchOpponentActive => EffectFamily::Other,
        EffectKind::SwitchSelfToBench => EffectFamily::Other,
        EffectKind::SwitchSelfToBenchTyped { .. } => EffectFamily::Other,
        EffectKind::SwitchOpponentBasicToActive => EffectFamily::Other,
        EffectKind::SwitchOpponentDamagedToActive => EffectFamily::Other,
        EffectKind::SwitchUltraBeast => EffectFamily::Other,
        EffectKind::AbilityBenchToActive => EffectFamily::Other,
        EffectKind::CoinFlipBounceOpponent => EffectFamily::Other,
        EffectKind::ReturnActiveToHandNamed { .. } => EffectFamily::Other,
        EffectKind::ReturnColorlessToHand => EffectFamily::Other,
        EffectKind::PlaceOpponentBasicFromDiscard => EffectFamily::Other,
        EffectKind::ShuffleOpponentActiveIntoDeck => EffectFamily::Other,
        EffectKind::SplashBenchOpponent { .. } => EffectFamily::Damage,
        EffectKind::SplashBenchOwn { .. } => EffectFamily::Damage,
        EffectKind::SplashAllOpponent { .. } => EffectFamily::Damage,
        EffectKind::RandomHitOne { .. } => EffectFamily::Damage,
        EffectKind::RandomMultiHit { .. } => EffectFamily::Damage,
        EffectKind::SelfDamage { .. } => EffectFamily::Damage,
        EffectKind::SelfDamageOnCoinFlipResult { .. } => EffectFamily::Damage,
        EffectKind::DiscardOpponentToolsBeforeDamage => EffectFamily::Damage,
        EffectKind::DiscardAllOpponentTools => EffectFamily::Damage,
        EffectKind::BenchHitOpponent { .. } => EffectFamily::Damage,
        EffectKind::MoveDamageToOpponent { .. } => EffectFamily::Damage,
        EffectKind::CantRetreatNextTurn => EffectFamily::Misc,
        EffectKind::PreventDamageNextTurn => EffectFamily::Misc,
        EffectKind::TakeLessDamageNextTurn { .. } => EffectFamily::Misc,
        EffectKind::DefenderAttacksDoLessDamage { .. } => EffectFamily::Misc,
        EffectKind::OpponentNoSupporterNextTurn => EffectFamily::Misc,
        EffectKind::SupporterDamageAura { .. } => EffectFamily::Misc,
        EffectKind::SupporterDamageAuraVsEx { .. } => EffectFamily::Misc,
        EffectKind::ReduceRetreatCost { .. } => EffectFamily::Misc,
        EffectKind::CopyOpponentAttack => EffectFamily::Misc,
        EffectKind::CoinFlipShuffleOpponentCard => EffectFamily::Misc,
        EffectKind::MultiCoinShuffleOpponentCards { .. } => EffectFamily::Misc,
        EffectKind::CantAttackNextTurn => EffectFamily::Misc,
        EffectKind::SelfCantAttackNextTurn => EffectFamily::Misc,
        EffectKind::CoinFlipSelfCantAttackNextTurn => EffectFamily::Misc,
        EffectKind::SelfCantUseSpecificAttack { .. } => EffectFamily::Misc,
        EffectKind::SelfAttackBuffNextTurn { .. } => EffectFamily::Misc,
        EffectKind::TakeMoreDamageNextTurn { .. } => EffectFamily::Misc,
        EffectKind::NextTurnAllDamageReduction { .. } => EffectFamily::Misc,
        EffectKind::NextTurnMetalDamageReduction { .. } => EffectFamily::Misc,
        EffectKind::OpponentCostIncreaseNextTurn { .. } => EffectFamily::Misc,
        EffectKind::OpponentNoItemsNextTurn => EffectFamily::Misc,
        EffectKind::BigMalasada => EffectFamily::Misc,
        EffectKind::MythicalSlab => EffectFamily::Misc,
        EffectKind::BeastWallProtection => EffectFamily::Misc,
        EffectKind::RareCandyEvolve => EffectFamily::Misc,
        EffectKind::HpBonus { .. } => EffectFamily::Misc,
        EffectKind::PassiveDamageReduction { .. } => EffectFamily::Other,
        EffectKind::PassiveRetaliate { .. } => EffectFamily::Other,
        EffectKind::PassiveBlockSupporters => EffectFamily::Other,
        EffectKind::PassiveDittoImpostor { .. } => EffectFamily::Other,
        EffectKind::PassiveDoubleGrassEnergy => EffectFamily::Other,
        EffectKind::PassiveImmuneStatus => EffectFamily::Other,
        EffectKind::PassiveKoEnergyTransfer => EffectFamily::Other,
        EffectKind::PassiveSurviveKoCoinFlip => EffectFamily::Other,
        EffectKind::PassiveTypeDamageBoost { .. } => EffectFamily::Other,
        EffectKind::PassiveTypeDamageReduction { .. } => EffectFamily::Other,
        EffectKind::PassiveBenchRetreatReduction { .. } => EffectFamily::Other,
        EffectKind::PassiveBlockEvolution => EffectFamily::Other,
        EffectKind::PassiveCheckupDamage { .. } => EffectFamily::Other,
        EffectKind::PassiveCoinFlipDamageReduction { .. } => EffectFamily::Other,
        EffectKind::PassiveDarkEnergyPing { .. } => EffectFamily::Other,
        EffectKind::PassiveElectricalCord => EffectFamily::Other,
        EffectKind::PassiveEnergySleep => EffectFamily::Other,
        EffectKind::PassiveFirstTurnNoRetreat => EffectFamily::Other,
        EffectKind::PassiveFreeRetreatWithEnergy => EffectFamily::Other,
        EffectKind::PassiveKoRetaliate { .. } => EffectFamily::Other,
        EffectKind::PassiveLumBerry => EffectFamily::Other,
        EffectKind::PassiveMoveDamageToSelf => EffectFamily::Other,
        EffectKind::PassiveNamedNoRetreat { .. } => EffectFamily::Other,
        EffectKind::PassiveNoHealing => EffectFamily::Other,
        EffectKind::PassiveOpponentAttackCostIncrease { .. } => EffectFamily::Other,
        EffectKind::PassiveOpponentDamageReduction { .. } => EffectFamily::Other,
        EffectKind::PassivePreventAttackEffects => EffectFamily::Other,
        EffectKind::PassivePreventExDamage => EffectFamily::Other,
        EffectKind::PassivePsychicCleanse => EffectFamily::Other,
        EffectKind::PassiveRetaliatePoison => EffectFamily::Other,
        EffectKind::PassiveArceusCostReduction => EffectFamily::Other,
        EffectKind::PassiveArceusDamageReduction { .. } => EffectFamily::Other,
        EffectKind::PassiveArceusNoRetreat => EffectFamily::Other,
        EffectKind::PassiveBeastiteDamage { .. } => EffectFamily::Other,
    }
}

/// The status effects.
pub open spec fn is_status_effect(e: EffectKind) -> bool {
    effect_family(e) == EffectFamily::Status
}

/// What a status effect needs.
#[verifier::opaque]
pub open spec fn status_pre(e: EffectKind, g: GameView, ctx: EffectContext) -> bool {
    e is ToxicPoison ==> g.players[1 - ctx.acting_player].extra_poison_damage + 20 <= i16::MAX
}

/// What a status effect does.
#[verifier::opaque]
pub open spec fn status_post(e: EffectKind, g0: GameView, g1: GameView, ctx: EffectContext) -> bool {
    let opp = active_ref(opponent(ctx));
    let me = active_ref(ctx.acting_player as int);
    match e {
        EffectKind::ApplyPoison => g1 == add_status_at(g0, opp, StatusEffect::Poisoned),
        EffectKind::ApplyBurn => g1 == add_status_at(g0, opp, StatusEffect::Burned),
        EffectKind::ApplySleep => g1 == add_status_at(g0, opp, StatusEffect::Asleep),
        EffectKind::ApplyParalysis => g1 == add_status_at(g0, opp, StatusEffect::Paralyzed),
        EffectKind::ApplyConfusion => g1 == add_status_at(g0, opp, StatusEffect::Confused),
        EffectKind::ApplyRandomStatus => exists|i: int| 0 <= i < 5 && g1 == add_status_at(g0, opp, #[trigger] random_status_choice(i)),
        EffectKind::ToxicPoison => {
            let g = add_status_at(g0, opp, StatusEffect::Poisoned);
            let o = opponent(ctx);
            g1 == g.with_player(o, PlayerView { extra_poison_damage: (g.players[o].extra_poison_damage + 20) as i16, ..g.players[o] })
        },
        EffectKind::CoinFlipApplyParalysis => exists|heads: bool| g1 == #[trigger] paralysis_on_flip(g0, ctx, heads),
        EffectKind::CoinFlipApplySleep => exists|heads: bool| g1 == #[trigger] sleep_on_flip(g0, ctx, heads),
        EffectKind::SelfConfuse => g1 == add_status_at(g0, me, StatusEffect::Confused),
        EffectKind::SelfSleep => g1 == add_status_at(g0, me, StatusEffect::Asleep),
        EffectKind::CoinFlipAttackBlockNextTurn => exists|heads: bool| g1 == #[trigger] attack_block_on_flip(g0, ctx, heads),
        _ => false,
    }
}

fn apply_status_effect(state: &mut GameState, effect: &EffectKind, ctx: &EffectContext)
    requires
        ctx.acting_player < 2,
        is_status_effect(*effect),
        status_pre(*effect, old(state)@, *ctx),
    ensures
        status_post(*effect, old(state)@, final(state)@, *ctx),
{
    proof {
        reveal(status_pre);
        reveal(status_post);
    }
    match effect {
        EffectKind::ApplyPoison => status_handlers::apply_poison(state, ctx),
        EffectKind::ApplyBurn => status_handlers::apply_burn(state, ctx),
        EffectKind::ApplySleep => status_handlers::apply_sleep(state, ctx),
        EffectKind::ApplyParalysis => status_handlers::apply_paralysis(state, ctx),
        EffectKind::ApplyConfusion => status_handlers::apply_confusion(state, ctx),
        EffectKind::ApplyRandomStatus => status_handlers::apply_random_status(state, ctx),
        EffectKind::ToxicPoison => status_handlers::toxic_poison(state, ctx),
        EffectKind::CoinFlipApplyParalysis => status_handlers::coin_flip_apply_paralysis(state, ctx),
        EffectKind::CoinFlipApplySleep => status_handlers::coin_flip_apply_sleep(state, ctx),
        EffectKind::SelfConfuse => status_handlers::self_confuse(state, ctx),
        EffectKind::SelfSleep => status_handlers::self_sleep(state, ctx),
        EffectKind::CoinFlipAttackBlockNextTurn => status_handlers::coin_flip_attack_block_next_turn(state, ctx),
        _ => {},
    }
}

/// The card-moving effects.
pub open spec fn is_draw_effect(e: EffectKind) -> bool {
    effect_family(e) == EffectFamily::Draw
}

/// What a card-moving effect needs: the cards it looks up exist.
#[verifier::opaque]
pub open spec fn draw_pre(e: EffectKind, g: GameView, ctx: EffectContext, db: CardDb) -> bool {
    let p = ctx.acting_player as int;
    match e {
        EffectKind::SearchDiscardRandomBasic => db.knows_all(g.pile(p, Pile::Discard)),
        EffectKind::DiscardRandomToolFromHand => db.knows_all(g.pile(p, Pile::Hand)),
        EffectKind::DiscardRandomItemFromHand => db.knows_all(g.pile(p, Pile::Hand)),
        EffectKind::PokemonCommunication => db.knows_all(g.pile(p, Pile::Hand)) && db.knows_all(g.pile(p, Pile::Deck)),
        EffectKind::DrawBasicPokemon | EffectKind::SearchDeckNamedBasic { .. } | EffectKind::SearchDeckRandomPokemon
        | EffectKind::SearchDeckEvolvesFrom { .. } | EffectKind::SearchDeckNamed { .. } | EffectKind::SearchDeckGrassPokemon
        | EffectKind::SearchDeckRandomBasic | EffectKind::FishingNet => db.knows_all(g.pile(p, Pile::Deck)),
        _ => true,
    }
}

/// What a card-moving effect does.
#[verifier::opaque]
pub open spec fn draw_post(e: EffectKind, g0: GameView, g1: GameView, ctx: EffectContext, db: CardDb) -> bool {
    let a = ctx.acting_player as int;
    let o = 1 - a;
    match e {
        EffectKind::DrawCards { count } => g1 == g0.draw_n(a, count as nat),
        EffectKind::DrawOneCard => g1 == g0.draw_n(a, 1),
        EffectKind::DrawBasicPokemon => searched_random(g0, g1, a, Pile::Deck, Pile::Hand, db, CardFilter::BasicPokemon, true),
        EffectKind::IonoHandShuffle => {
            let na = g0.pile(a, Pile::Hand).len() as u8;
            let no = g0.pile(o, Pile::Hand).len() as u8;
            exists|x: GameView, y: GameView|
                #[trigger] shuffled_in(g0, x, a) && #[trigger] shuffled_in(x, y, o) && g1 == y.draw_n(a, na as nat).draw_n(o, no as nat)
        },
        EffectKind::MarsHandShuffle => {
            let pts = g0.players[o].points;
            let n: nat = if pts >= POINTS_TO_WIN { 0 } else { (POINTS_TO_WIN - pts) as nat };
            exists|x: GameView| #[trigger] shuffled_in(g0, x, o) && g1 == x.draw_n(o, n)
        },
        EffectKind::ShuffleHandIntoDeck => shuffled_in(g0, g1, a),
        EffectKind::ShuffleHandDrawOpponentCount => {
            let n = g0.pile(o, Pile::Hand).len() as u8;
            exists|x: GameView| #[trigger] shuffled_in(g0, x, a) && g1 == x.draw_n(a, n as nat)
        },
        EffectKind::DiscardToDraw { count } => exists|x: GameView|
            #[trigger] random_moves(g0, x, a, Pile::Hand, Pile::Discard, count as nat) && g1 == x.draw_n(a, count as nat),
        EffectKind::OpponentShuffleHandDraw { count } => exists|x: GameView|
            #[trigger] shuffled_in(g0, x, o) && g1 == x.draw_n(o, count as nat),
        EffectKind::SearchDeckNamedBasic { name } => exists|n: String|
            n@ == name@ && #[trigger] searched_first(g0, g1, a, db, CardFilter::NamedBasic(n)),
        EffectKind::SearchDeckRandomPokemon => searched_random(g0, g1, a, Pile::Deck, Pile::Hand, db, CardFilter::Pokemon, true),
        EffectKind::SearchDeckEvolvesFrom { name } => exists|n: String|
            n@ == name@ && #[trigger] searched_random(g0, g1, a, Pile::Deck, Pile::Hand, db, CardFilter::EvolvesFrom(n), true),
        EffectKind::SearchDeckNamed { name } => exists|n: String|
            n@ == name@ && #[trigger] searched_first(g0, g1, a, db, CardFilter::Named(n)),
        EffectKind::SearchDeckGrassPokemon => searched_random(
            g0,
            g1,
            a,
            Pile::Deck,
            Pile::Hand,
            db,
            CardFilter::PokemonOfElement(Element::Grass),
            true,
        ),
        EffectKind::SearchDeckRandomBasic => searched_random(g0, g1, a, Pile::Deck, Pile::Hand, db, CardFilter::BasicPokemon, true),
        EffectKind::SearchDiscardRandomBasic => took_match(g0, g1, a, Pile::Discard, Pile::Hand, db, CardFilter::BasicPokemon),
        EffectKind::FishingNet => exists|x: GameView|
            #[trigger] searched_random(g0, x, a, Pile::Deck, Pile::Hand, db, CardFilter::Pokemon, true) && searched_random(
                x,
                g1,
                a,
                Pile::Deck,
                Pile::Hand,
                db,
                CardFilter::Pokemon,
                true,
            ),
        EffectKind::PokemonCommunication => match first_match(g0.pile(a, Pile::Hand), db, CardFilter::Pokemon) {
            Some(i) => searched_random(g0.move_card(a, Pile::Hand, i, Pile::Deck), g1, a, Pile::Deck, Pile::Hand, db, CardFilter::Pokemon, true),
            None => g1 == g0,
        },
        EffectKind::DiscardRandomCardOpponent => random_moves(g0, g1, o, Pile::Hand, Pile::Discard, 1),
        EffectKind::DiscardRandomToolFromHand => took_match(g0, g1, a, Pile::Hand, Pile::Discard, db, CardFilter::Tool),
        EffectKind::DiscardRandomItemFromHand => took_match(g0, g1, a, Pile::Hand, Pile::Discard, db, CardFilter::Item),
        EffectKind::DiscardTopDeck => {
            let d = g0.pile(a, Pile::Deck);
            if d.len() == 0 {
                g1 == g0
            } else {
                let x = g0.with_pile(a, Pile::Deck, d.subrange(0, d.len() - 1));
                g1 == x.with_pile(a, Pile::Discard, x.pile(a, Pile::Discard) + d.subrange(d.len() - 1, d.len() as int))
            }
        },
        _ => g1 == g0,
    }
}

fn apply_draw_effect(state: &mut GameState, db: &CardDb, effect: &EffectKind, ctx: &EffectContext)
    requires
        ctx.acting_player < 2,
        is_draw_effect(*effect),
        draw_pre(*effect, old(state)@, *ctx, *db),
    ensures
        draw_post(*effect, old(state)@, final(state)@, *ctx, *db),
{
    proof {
        reveal(draw_pre);
        reveal(draw_post);
    }
    match effect {
        EffectKind::DrawCards { count } => draw_handlers::draw_cards(state, *count, ctx),
        EffectKind::DrawOneCard => draw_handlers::draw_one_card(state, ctx),
        EffectKind::DrawBasicPokemon => draw_handlers::draw_basic_pokemon(state, db, ctx),
        EffectKind::IonoHandShuffle => draw_handlers::iono_hand_shuffle(state, ctx),
        EffectKind::MarsHandShuffle => draw_handlers::mars_hand_shuffle(state, ctx),
        EffectKind::ShuffleHandIntoDeck => draw_handlers::shuffle_hand_into_deck(state, ctx),
        EffectKind::ShuffleHandDrawOpponentCount => draw_handlers::shuffle_hand_draw_opponent_count(state, ctx),
        EffectKind::DiscardToDraw { count } => draw_handlers::discard_to_draw(state, *count, ctx),
        EffectKind::OpponentShuffleHandDraw { count } => draw_handlers::opponent_shuffle_hand_draw(state, *count, ctx),
        EffectKind::SearchDeckNamedBasic { name } => draw_handlers::search_deck_named_basic(state, db, name.as_str(), ctx),
        EffectKind::SearchDeckRandomPokemon => draw_handlers::search_deck_random_pokemon(state, db, ctx),
        EffectKind::SearchDeckEvolvesFrom { name } => draw_handlers::search_deck_evolves_from(state, db, name.as_str(), ctx),
        EffectKind::SearchDeckNamed { name } => draw_handlers::search_deck_named(state, db, name.as_str(), ctx),
        EffectKind::SearchDeckGrassPokemon => draw_handlers::search_deck_grass_pokemon(state, db, ctx),
        EffectKind::SearchDeckRandomBasic => draw_handlers::search_deck_random_basic(state, db, ctx),
        EffectKind::SearchDiscardRandomBasic => draw_handlers::search_discard_random_basic(state, db, ctx),
        EffectKind::LookTopOfDeck { count } => draw_handlers::look_top_of_deck(state, *count, ctx),
        EffectKind::RevealOpponentHand => draw_handlers::reveal_opponent_hand(state, ctx),
        EffectKind::LookOpponentHand => draw_handlers::look_opponent_hand(state, ctx),
        EffectKind::RevealOpponentSupporters => draw_handlers::reveal_opponent_supporters(state, ctx),
        EffectKind::FishingNet => draw_handlers::fishing_net(state, db, ctx),
        EffectKind::PokemonCommunication => draw_handlers::pokemon_communication(state, db, ctx),
        EffectKind::DiscardRandomCardOpponent => draw_handlers::discard_random_card_opponent(state, ctx),
        EffectKind::DiscardRandomToolFromHand => draw_handlers::discard_random_tool_from_hand(state, db, ctx),
        EffectKind::DiscardRandomItemFromHand => draw_handlers::discard_random_item_from_hand(state, db, ctx),
        EffectKind::DiscardTopDeck => energy_handlers::discard_top_deck(state, ctx, 1),
        _ => {},
    }
}


/// The energy on offer from player `pv`'s Energy Zone, else `dflt`.
pub open spec fn zone_element(pv: PlayerView, dflt: Element) -> Element {
    match pv.energy_available {
        Some(e) => e,
        None => dflt,
    }
}

/// The deck's first Energy Zone type, else the energy on offer, else `dflt`.
pub open spec fn deck_element(pv: PlayerView, dflt: Element) -> Element {
    if pv.energy_types.len() > 0 {
        pv.energy_types[0]
    } else {
        zone_element(pv, dflt)
    }
}

fn zone_element_of(state: &GameState, p: usize, dflt: Element) -> (r: Element)
    requires
        p < 2,
    ensures
        r == zone_element(state@.players[p as int], dflt),
{
    match state.players[p].energy_available {
        Some(e) => e,
        None => dflt,
    }
}

fn deck_element_of(state: &GameState, p: usize, dflt: Element) -> (r: Element)
    requires
        p < 2,
    ensures
        r == deck_element(state@.players[p as int], dflt),
{
    if state.players[p].energy_types.len() > 0 {
        state.players[p].energy_types[0]
    } else {
        zone_element_of(state, p, dflt)
    }
}

/// The game after one energy of `el` goes to the acting player's chosen
/// benched Pokémon, else to the first benched one.
pub open spec fn bench_attach_once(g: GameView, ctx: EffectContext, el: Element) -> GameView {
    let p = ctx.acting_player as int;
    match chosen_bench(ctx, first_bench(g, p)) {
        Some(i) => g.map_slot(bench_ref(p, i), |s: PokemonSlot| s.with_energy_added(el, 1)),
        None => g,
    }
}

/// `bench_attach_once`, `n` times over.
pub open spec fn bench_attach_n(g: GameView, ctx: EffectContext, el: Element, n: nat) -> GameView
    decreases n,
{
    if n == 0 {
        g
    } else {
        bench_attach_once(bench_attach_n(g, ctx, el, (n - 1) as nat), ctx, el)
    }
}

fn attach_bench_n(state: &mut GameState, db: &CardDb, ctx: &EffectContext, el: Element, count: u8)
    requires
        ctx.acting_player < 2,
        chosen_bench_ok(*ctx),
    ensures
        final(state)@ == bench_attach_n(old(state)@, *ctx, el, count as nat),
{
    let mut i: u8 = 0;
    while i < count
        invariant
            i <= count,
            ctx.acting_player < 2,
            chosen_bench_ok(*ctx),
            state@ == bench_attach_n(old(state)@, *ctx, el, i as nat),
        decreases count - i,
    {
        energy_handlers::attach_energy_zone_bench(state, db, ctx, el, None);
        i = i + 1;
    }
}

fn attach_named(state: &mut GameState, db: &CardDb, ctx: &EffectContext, el: Element, name: &String)
    requires
        ctx.acting_player < 2,
    ensures
        final(state)@ == named_attached(old(state)@, *db, ctx.acting_player as int, el, seq![name@]),
{
    let names = [name.as_str()];
    proof {
        assert(str_views(names@) =~= seq![name@]);
    }
    energy_handlers::attach_energy_zone_named(state, db, ctx, el, &names);
}

/// The effects that give energy.
pub open spec fn is_attach_effect(e: EffectKind) -> bool {
    effect_family(e) == EffectFamily::Attach
}

/// What an energy-giving effect needs: a chosen bench spot is one of the three.
#[verifier::opaque]
pub open spec fn attach_pre(e: EffectKind, ctx: EffectContext) -> bool {
    match e {
        EffectKind::AttachWaterTwoBench => two_targets_ok(ctx),
        _ => chosen_bench_ok(ctx),
    }
}

/// What an energy-giving effect does.
#[verifier::opaque]
pub open spec fn attach_post(e: EffectKind, g0: GameView, g1: GameView, ctx: EffectContext, db: CardDb) -> bool {
    let a = ctx.acting_player as int;
    let pv = g0.players[a];
    let me = active_ref(a);
    match e {
        EffectKind::AttachEnergyZoneSelf | EffectKind::AttachEnergyZoneSelfBracket => g1 == g0.map_slot(
            me,
            |s: PokemonSlot| s.with_energy_added(deck_element(pv, Element::Grass), 1),
        ),
        EffectKind::AttachEnergyZoneBench { count } | EffectKind::AttachEnergyZoneBenchBracket { count }
        | EffectKind::AttachEnergyZoneBenchAnyBracket { count } => g1 == bench_attach_n(
            g0,
            ctx,
            deck_element(pv, Element::Grass),
            count as nat,
        ),
        EffectKind::AttachEnergyZoneNamed { name } => g1 == named_attached(g0, db, a, deck_element(pv, Element::Grass), seq![name@]),
        EffectKind::AttachEnergyZoneToGrass => g1 == grass_attached(g0, db, a),
        EffectKind::AttachNEnergyZoneBench { count } => g1 == match chosen_bench(ctx, first_bench(g0, a)) {
            Some(i) => g0.map_slot(bench_ref(a, i), |s: PokemonSlot| s.with_energy_added(zone_element(pv, Element::Grass), count)),
            None => g0,
        },
        EffectKind::AttachWaterTwoBench => g1 == attach_each(g0, a, water_picks(g0, ctx), Element::Water, 1),
        EffectKind::AttachColorlessEnergyZoneBench | EffectKind::FirstTurnEnergyAttach => g1 == g0,
        EffectKind::AttachEnergyDiscardNamed { .. } => g1 == g0.map_slot(
            me,
            |s: PokemonSlot| s.with_energy_added(zone_element(pv, Element::Grass), 1),
        ),
        EffectKind::AttachEnergyNamedEndTurn { name } => g1 == named_attached(g0, db, a, zone_element(pv, Element::Grass), seq![name@]),
        EffectKind::AbilityAttachEnergyEndTurn => g1 == g0.map_slot(me, |s: PokemonSlot| s.with_energy_added(Element::Psychic, 1)),
        EffectKind::CoinFlipUntilTailsAttachEnergy => exists|heads: u8|
            g1 == #[trigger] heads_attached(g0, db, ctx, deck_element(pv, Element::Water), heads),
        EffectKind::MultiCoinAttachBench { count } => coins_attached(g0, g1, db, a, count, zone_element(pv, Element::Fire), None),
        EffectKind::LusamineAttach => g1 == bench_attach_once(g0, ctx, zone_element(pv, Element::Grass)),
        _ => false,
    }
}

fn apply_attach_effect(state: &mut GameState, db: &CardDb, effect: &EffectKind, ctx: &EffectContext)
    requires
        ctx.acting_player < 2,
        is_attach_effect(*effect),
        attach_pre(*effect, *ctx),
    ensures
        attach_post(*effect, old(state)@, final(state)@, *ctx, *db),
{
    proof {
        reveal(attach_pre);
        reveal(attach_post);
    }
    let p = ctx.acting_player;
    match effect {
        EffectKind::AttachEnergyZoneSelf | EffectKind::AttachEnergyZoneSelfBracket => {
            let el = deck_element_of(state, p, Element::Grass);
            energy_handlers::attach_energy_zone_self(state, ctx, el, 1);
        },
        EffectKind::AttachEnergyZoneBench { count } | EffectKind::AttachEnergyZoneBenchBracket { count }
        | EffectKind::AttachEnergyZoneBenchAnyBracket { count } => {
            let el = deck_element_of(state, p, Element::Grass);
            attach_bench_n(state, db, ctx, el, *count);
        },
        EffectKind::AttachEnergyZoneNamed { name } => {
            let el = deck_element_of(state, p, Element::Grass);
            attach_named(state, db, ctx, el, name);
        },
        EffectKind::AttachEnergyZoneToGrass => energy_handlers::attach_energy_zone_to_grass(state, db, ctx),
        EffectKind::AttachNEnergyZoneBench { count } => {
            let el = zone_element_of(state, p, Element::Grass);
            energy_handlers::attach_n_energy_zone_bench(state, db, ctx, el, *count);
        },
        EffectKind::AttachWaterTwoBench => energy_handlers::attach_water_two_bench(state, ctx),
        EffectKind::AttachColorlessEnergyZoneBench => energy_handlers::attach_colorless_energy_zone_bench(state, ctx),
        EffectKind::AttachEnergyDiscardNamed { .. } => {
            let el = zone_element_of(state, p, Element::Grass);
            energy_handlers::attach_energy_zone_self(state, ctx, el, 1);
        },
        EffectKind::AttachEnergyNamedEndTurn { name } => {
            let el = zone_element_of(state, p, Element::Grass);
            attach_named(state, db, ctx, el, name);
        },
        EffectKind::AbilityAttachEnergyEndTurn => energy_handlers::ability_attach_energy_end_turn(state, ctx),
        EffectKind::CoinFlipUntilTailsAttachEnergy => {
            let el = deck_element_of(state, p, Element::Water);
            energy_handlers::coin_flip_until_tails_attach_energy(state, db, ctx, el);
        },
        EffectKind::MultiCoinAttachBench { count } => {
            let el = zone_element_of(state, p, Element::Fire);
            energy_handlers::multi_coin_attach_bench(state, db, ctx, *count, el, None);
        },
        EffectKind::LusamineAttach => {
            let el = zone_element_of(state, p, Element::Grass);
            energy_handlers::attach_energy_zone_bench(state, db, ctx, el, None);
        },
        EffectKind::FirstTurnEnergyAttach => {
            let el = zone_element_of(state, p, Element::Grass);
            energy_handlers::first_turn_energy_attach(state, ctx, el);
        },
        _ => {},
    }
}


/// The effects that take or move energy.
pub open spec fn is_energy_effect(e: EffectKind) -> bool {
    effect_family(e) == EffectFamily::Energy
}

/// What an energy-taking effect needs: room in the energy discard for what
/// it discards, and room on the active Pokémon for what it moves there.
#[verifier::opaque]
pub open spec fn energy_pre(e: EffectKind, g: GameView, ctx: EffectContext) -> bool {
    let a = ctx.acting_player as int;
    let src = source_of(ctx);
    let opp = active_ref(1 - a);
    match e {
        EffectKind::DiscardEnergySelf => discard_room(g, src),
        EffectKind::DiscardNEnergySelf { .. } => discard_fits_all(g, src),
        EffectKind::DiscardAllEnergySelf => match g.slot(src) {
            Some(s) => forall|i: int| 0 <= i < 8 ==> #[trigger] g.players[src.player as int].energy_discard[i] + s.energy@[i] <= 255,
            None => true,
        },
        EffectKind::DiscardAllTypedEnergySelf { element } => match Element::parse(element@) {
            Some(el) => match g.slot(src) {
                Some(s) => typed_room(g, src, el.index(), s.energy@[el.index()] as int),
                None => true,
            },
            None => true,
        },
        EffectKind::CoinFlipDiscardRandomEnergyOpponent | EffectKind::DiscardRandomEnergyOpponent => discard_room(g, opp),
        EffectKind::DiscardRandomEnergyBothActive => discard_room(g, active_ref(0)) && discard_room(g, active_ref(1)),
        EffectKind::MoveBenchEnergyToActive => {
            &&& chosen_bench_ok(ctx)
            &&& g.players[a].active matches Some(s) ==> forall|i: int| 0 <= i < 8 ==> #[trigger] s.energy@[i] < 255
        },
        EffectKind::MoveWaterBenchToActive => g.players[a].active matches Some(s) ==> s.energy@[Element::Water.index()] < 255,
        _ => true,
    }
}

/// What an energy-taking effect does.
#[verifier::opaque]
pub open spec fn energy_post(e: EffectKind, g0: GameView, g1: GameView, ctx: EffectContext, db: CardDb) -> bool {
    let a = ctx.acting_player as int;
    let src = source_of(ctx);
    let opp = active_ref(1 - a);
    match e {
        EffectKind::DiscardEnergySelf => random_unit_removed(g0, g1, src, true),
        EffectKind::DiscardNEnergySelf { count } => exists|picks: Seq<int>|
            #[trigger] valid_units(g0, src, picks) && picks.len() <= count && g1 == apply_units(g0, src, picks),
        EffectKind::DiscardAllEnergySelf => g1 == all_discarded(g0, src),
        EffectKind::DiscardAllTypedEnergySelf { element } => g1 == match Element::parse(element@) {
            Some(el) => match g0.slot(src) {
                Some(s) => units_moved_to_pile(g0, src, el.index(), s.energy@[el.index()] as int),
                None => g0,
            },
            None => g0,
        },
        EffectKind::CoinFlipDiscardRandomEnergyOpponent => g1 == g0 || random_unit_removed(g0, g1, opp, true),
        EffectKind::DiscardRandomEnergyOpponent => random_unit_removed(g0, g1, opp, true),
        EffectKind::DiscardRandomEnergyBothActive => exists|x: GameView|
            #[trigger] random_unit_removed(g0, x, active_ref(0), true) && random_unit_removed(x, g1, active_ref(1), true),
        EffectKind::DiscardRandomEnergyAllPokemon => {
            &&& !any_energy(g0) ==> g1 == g0
            &&& any_energy(g0) ==> exists|r: SlotRef, i: int|
                r.valid() && 0 <= i < 8 && has_unit(g0, r, i) && g1 == #[trigger] unit_removed(g0, r, i, false)
        },
        EffectKind::CoinFlipUntilTailsDiscardEnergy => {
            let i = zone_element(g0.players[a], Element::Grass).index();
            match g0.slot(src) {
                Some(s) => exists|m: int| 0 <= m <= s.energy@[i] && g1 == #[trigger] energy_set_at(g0, src, i, (s.energy@[i] - m) as u8),
                None => g1 == g0,
            }
        },
        EffectKind::MoveBenchEnergyToActive => g1 == dawn_result(g0, ctx),
        EffectKind::MoveWaterBenchToActive => g1 == water_moved(g0, db, a),
        EffectKind::MoveAllTypedEnergyBenchToActive { element } => g1 == match Element::parse(element@) {
            Some(el) => typed_moved(g0, db, a, el, None),
            None => g0,
        },
        EffectKind::MoveAllElectricToActiveNamed { name } => g1 == electric_moved(g0, db, a, seq![name@]),
        EffectKind::ChangeOpponentEnergyType { .. } | EffectKind::ReduceAttackCostNamed { .. } => g1 == g0,
        _ => false,
    }
}

fn move_electric_named(state: &mut GameState, db: &CardDb, ctx: &EffectContext, name: &String)
    requires
        ctx.acting_player < 2,
    ensures
        final(state)@ == electric_moved(old(state)@, *db, ctx.acting_player as int, seq![name@]),
{
    let names = [name.as_str()];
    proof {
        assert(str_views(names@) =~= seq![name@]);
    }
    energy_handlers::move_all_electric_to_active_named(state, db, ctx, &names);
}

fn apply_energy_effect(state: &mut GameState, db: &CardDb, effect: &EffectKind, ctx: &EffectContext)
    requires
        ctx.acting_player < 2,
        is_energy_effect(*effect),
        energy_pre(*effect, old(state)@, *ctx),
    ensures
        energy_post(*effect, old(state)@, final(state)@, *ctx, *db),
{
    proof {
        reveal(energy_pre);
        reveal(energy_post);
    }
    match effect {
        EffectKind::DiscardEnergySelf => energy_handlers::discard_random_energy_self(state, ctx),
        EffectKind::DiscardNEnergySelf { count } => {
            let src = source_slot(ctx);
            energy_handlers::discard_random_units(state, src, *count);
        },
        EffectKind::DiscardAllEnergySelf => energy_handlers::discard_all_energy_self(state, ctx),
        EffectKind::DiscardAllTypedEnergySelf { element } => {
            if let Some(el) = Element::from_str(element.as_str()) {
                energy_handlers::discard_all_typed_energy_self(state, ctx, el);
            }
        },
        EffectKind::CoinFlipDiscardRandomEnergyOpponent => energy_handlers::coin_flip_discard_random_energy_opponent(state, ctx),
        EffectKind::DiscardRandomEnergyOpponent => energy_handlers::discard_random_energy_opponent(state, ctx),
        EffectKind::DiscardRandomEnergyBothActive => energy_handlers::discard_random_energy_both_active(state, ctx),
        EffectKind::DiscardRandomEnergyAllPokemon => energy_handlers::discard_random_energy_all_pokemon(state, ctx),
        EffectKind::CoinFlipUntilTailsDiscardEnergy => {
            let el = zone_element_of(state, ctx.acting_player, Element::Grass);
            energy_handlers::coin_flip_until_tails_discard_energy(state, ctx, el);
        },
        EffectKind::MoveBenchEnergyToActive => energy_handlers::move_bench_energy_to_active(state, ctx),
        EffectKind::MoveWaterBenchToActive => energy_handlers::move_water_bench_to_active(state, db, ctx),
        EffectKind::MoveAllTypedEnergyBenchToActive { element } => {
            if let Some(el) = Element::from_str(element.as_str()) {
                energy_handlers::move_all_typed_energy_bench_to_active(state, db, ctx, el, None);
            }
        },
        EffectKind::MoveAllElectricToActiveNamed { name } => move_electric_named(state, db, ctx, name),
        _ => {},
    }
}


/// The spots of player `p` listed in order (active, then bench), keeping
/// those whose flag is set.
pub open spec fn occupied_spots(p: int, a: bool, b0: bool, b1: bool, b2: bool) -> Seq<SlotRef> {
    (if a { seq![active_ref(p)] } else { Seq::<SlotRef>::empty() })
        + (if b0 { seq![bench_ref(p, 0)] } else { Seq::<SlotRef>::empty() })
        + (if b1 { seq![bench_ref(p, 1)] } else { Seq::<SlotRef>::empty() })
        + (if b2 { seq![bench_ref(p, 2)] } else { Seq::<SlotRef>::empty() })
}

/// The spots of player `p` a random hit can land on: the active spot, then
/// each bench spot, when occupied.
pub open spec fn hit_targets(g: GameView, p: int) -> Seq<SlotRef> {
    occupied_spots(
        p,
        g.players[p].active is Some,
        g.players[p].bench[0] is Some,
        g.players[p].bench[1] is Some,
        g.players[p].bench[2] is Some,
    )
}

/// `s` can take `n` hits of `amount` in a row without its HP leaving `i16`.
pub open spec fn slot_hits_fit(s: PokemonSlot, amount: i16, n: int) -> bool {
    &&& i16::MIN <= s.current_hp - amount
    &&& (if s.current_hp > 0 { s.current_hp as int } else { 0 }) - n * amount <= i16::MAX
}

/// Every Pokémon of player `p` can take `n` hits of `amount` in a row.
pub open spec fn hits_fit(g: GameView, p: int, amount: i16, n: int) -> bool {
    forall|k: int| 0 <= k < hit_targets(g, p).len() ==> slot_hits_fit(#[trigger] g.slot(hit_targets(g, p)[k])->0, amount, n)
}

/// The game after the hits that `picks` choose among `targets`, in order.
pub open spec fn hits_applied(g: GameView, targets: Seq<SlotRef>, picks: Seq<int>, amount: i16) -> GameView
    decreases picks.len(),
{
    if picks.len() == 0 {
        g
    } else {
        hits_applied(g, targets, picks.drop_last(), amount).damage_at(targets[picks.last()], amount)
    }
}

/// `g1` is `g0` after `n` hits of `amount`, each on a randomly chosen
/// Pokémon of player `p`; nothing happens when `p` has none.
pub open spec fn random_hits(g0: GameView, g1: GameView, p: int, amount: i16, n: nat) -> bool {
    let t = hit_targets(g0, p);
    if t.len() == 0 {
        g1 == g0
    } else {
        exists|picks: Seq<int>|
            picks.len() == n && (forall|j: int| 0 <= j < n ==> 0 <= #[trigger] picks[j] < t.len()) && g1 == #[trigger] hits_applied(
                g0,
                t,
                picks,
                amount,
            )
    }
}

/// A Pokémon with room for `n` hits has room for one now, and, hit or not,
/// for `n - 1` more.
proof fn lemma_slot_hit(s: PokemonSlot, amount: i16, n: int)
    requires
        n >= 1,
        slot_hits_fit(s, amount, n),
    ensures
        damage_fits(s, amount),
        slot_hits_fit(s, amount, n - 1),
        slot_hits_fit(after_damage(s, amount), amount, n - 1),
{
    if amount >= 0 {
        assert(n * amount >= amount) by (nonlinear_arith)
            requires
                n >= 1,
                amount >= 0,
        ;
        assert((n - 1) * amount >= 0) by (nonlinear_arith)
            requires
                n >= 1,
                amount >= 0,
        ;
    } else {
        assert(n * amount <= amount) by (nonlinear_arith)
            requires
                n >= 1,
                amount < 0,
        ;
    }
    assert((n - 1) * amount == n * amount - amount) by (nonlinear_arith);
}

/// Putting a Pokémon on an occupied spot keeps which spots are occupied.
proof fn lemma_with_slot_occupancy(g: GameView, r: SlotRef, x: PokemonSlot, p: int)
    requires
        g.wf(),
        0 <= p < 2,
        g.slot(r) is Some,
    ensures
        g.with_slot(r, Some(x)).wf(),
        g.with_slot(r, Some(x)).players[p].active is Some == g.players[p].active is Some,
        forall|i: int| 0 <= i < 3 ==> (#[trigger] g.with_slot(r, Some(x)).players[p].bench[i]) is Some == g.players[p].bench[i] is Some,
{
    let h = g.with_slot(r, Some(x));
    assert(g.players[0].bench.len() == 3 && g.players[1].bench.len() == 3);
    assert forall|q: int| 0 <= q < 2 implies #[trigger] h.players[q].bench.len() == 3 by {
        assert(g.players[q].bench.len() == 3);
    }
}

/// Damage at a spot leaves which of player `p`'s spots are occupied as it was.
proof fn lemma_hit_targets_kept(g: GameView, p: int, r: SlotRef, amount: i16)
    requires
        g.wf(),
        0 <= p < 2,
    ensures
        hit_targets(g.damage_at(r, amount), p) == hit_targets(g, p),
        g.damage_at(r, amount).wf(),
{
    let h = g.damage_at(r, amount);
    if g.slot(r) is Some {
        let x = after_damage(g.slot(r)->0, amount);
        assert(h == g.with_slot(r, Some(x)));
        lemma_with_slot_occupancy(g, r, x, p);
        assert(h.players[p].bench[0] is Some == g.players[p].bench[0] is Some);
        assert(h.players[p].bench[1] is Some == g.players[p].bench[1] is Some);
        assert(h.players[p].bench[2] is Some == g.players[p].bench[2] is Some);
    }
}

/// The spots in `hit_targets` are valid, occupied and distinct.
proof fn lemma_hit_targets_shape(g: GameView, p: int)
    requires
        g.wf(),
        0 <= p < 2,
    ensures
        forall|k: int| 0 <= k < hit_targets(g, p).len() ==> (#[trigger] hit_targets(g, p)[k]).valid() && g.slot(
            hit_targets(g, p)[k],
        ) is Some,
        forall|j: int, k: int|
            0 <= j < k < hit_targets(g, p).len() ==> #[trigger] hit_targets(g, p)[j] != #[trigger] hit_targets(g, p)[k],
{
    assert(g.players[p].bench.len() == 3);
}

/// One hit keeps the spots that can be hit, and leaves room for one hit fewer.
proof fn lemma_hit(g: GameView, p: int, k: int, amount: i16, n: int)
    requires
        g.wf(),
        0 <= p < 2,
        0 <= k < hit_targets(g, p).len(),
        n >= 1,
        hits_fit(g, p, amount, n),
    ensures
        g.can_damage(hit_targets(g, p)[k], amount),
        g.damage_at(hit_targets(g, p)[k], amount).wf(),
        hit_targets(g.damage_at(hit_targets(g, p)[k], amount), p) == hit_targets(g, p),
        hits_fit(g.damage_at(hit_targets(g, p)[k], amount), p, amount, n - 1),
{
    let t = hit_targets(g, p);
    let r = t[k];
    let h = g.damage_at(r, amount);
    lemma_hit_targets_kept(g, p, r, amount);
    lemma_hit_targets_shape(g, p);
    assert(slot_hits_fit(g.slot(t[k])->0, amount, n));
    lemma_slot_hit(g.slot(r)->0, amount, n);
    assert forall|j: int| 0 <= j < hit_targets(h, p).len() implies slot_hits_fit(#[trigger] h.slot(hit_targets(h, p)[j])->0, amount, n - 1) by {
        let q = t[j];
        assert(slot_hits_fit(g.slot(t[j])->0, amount, n));
        lemma_slot_hit(g.slot(q)->0, amount, n);
        if q != r {
            assert(h.slot(q) == g.slot(q));
        } else {
            assert(h.slot(q) == Some(after_damage(g.slot(r)->0, amount)));
        }
    }
}

/// `count` hits of `amount`, each on a random Pokémon of player `p`.
fn random_hit_n(state: &mut GameState, p: usize, amount: i16, count: u8)
    requires
        p < 2,
        hits_fit(old(state)@, p as int, amount, count as int),
    ensures
        random_hits(old(state)@, final(state)@, p as int, amount, count as nat),
{
    let ghost g0 = state@;
    let ghost t = hit_targets(g0, p as int);
    assert(g0.players[0].bench.len() == 3 && g0.players[1].bench.len() == 3);
    let mut targets: Vec<SlotRef> = Vec::new();
    if state.players[p].active.is_some() {
        targets.push(SlotRef::active(p));
    }
    let mut i: usize = 0;
    while i < 3
        invariant
            p < 2,
            i <= 3,
            state@ == g0,
            g0.wf(),
            targets@ == (if g0.players[p as int].active is Some { seq![active_ref(p as int)] } else { Seq::<SlotRef>::empty() })
                + (if 0 < i && g0.players[p as int].bench[0] is Some { seq![bench_ref(p as int, 0)] } else { Seq::<SlotRef>::empty() })
                + (if 1 < i && g0.players[p as int].bench[1] is Some { seq![bench_ref(p as int, 1)] } else { Seq::<SlotRef>::empty() })
                + (if 2 < i && g0.players[p as int].bench[2] is Some { seq![bench_ref(p as int, 2)] } else { Seq::<SlotRef>::empty() }),
        decreases 3 - i,
    {
        assert(state@.players[p as int].bench[i as int] == state.players[p as int].bench[i as int]);
        if state.players[p].bench[i].is_some() {
            targets.push(SlotRef::bench(p, i));
        }
        i = i + 1;
    }
    assert(targets@ =~= t);
    if targets.len() == 0 {
        return;
    }
    let ghost mut picks: Seq<int> = Seq::empty();
    let mut k: u8 = 0;
    while k < count
        invariant
            p < 2,
            k <= count,
            targets@ == t,
            t == hit_targets(g0, p as int),
            t.len() > 0,
            picks.len() == k,
            forall|j: int| 0 <= j < k ==> 0 <= #[trigger] picks[j] < t.len(),
            state@ == hits_applied(g0, t, picks, amount),
            state@.wf(),
            hit_targets(state@, p as int) == t,
            hits_fit(state@, p as int, amount, count - k),
        decreases count - k,
    {
        let idx = random_index(&mut state.rng, targets.len());
        let r = targets[idx];
        proof {
            lemma_hit(state@, p as int, idx as int, amount, count - k);
        }
        damage_mod_handlers::damage_slot(state, r, amount);
        proof {
            let np = picks.push(idx as int);
            assert(np.drop_last() =~= picks);
            picks = np;
        }
        k = k + 1;
    }
}


/// The game after the tool on the Pokémon at `r`, if any, goes to its
/// owner's discard pile.
pub open spec fn tool_discarded(g: GameView, r: SlotRef) -> GameView {
    match g.slot(r) {
        Some(s) => match s.tool_idx {
            Some(t) => {
                let g1 = g.with_slot(r, Some(PokemonSlot { tool_idx: None, ..s }));
                g1.with_pile(r.player as int, Pile::Discard, g1.pile(r.player as int, Pile::Discard).push(t))
            },
            None => g,
        },
        None => g,
    }
}

fn discard_tool_at(state: &mut GameState, r: SlotRef)
    requires
        r.valid(),
    ensures
        final(state)@ == tool_discarded(old(state)@, r),
{
    let s = match read_slot(state, r) {
        Some(s) => s,
        None => {
            return;
        },
    };
    let t = match s.tool_idx {
        Some(t) => t,
        None => {
            return;
        },
    };
    let mut s2 = s;
    s2.tool_idx = None;
    write_slot(state, r, Some(s2));
    state.put_on_pile(r.player as usize, Pile::Discard, t);
}

/// The damage on player `p`'s active Pokémon (0 without one).
pub open spec fn damage_on_active(g: GameView, p: int) -> int {
    match g.players[p].active {
        Some(s) => s.max_hp - s.current_hp,
        None => 0,
    }
}

/// How much damage moves: the damage on the acting Pokémon, at most `amount`.
pub open spec fn moved_damage(g: GameView, p: int, amount: i16) -> int {
    if damage_on_active(g, p) < amount { damage_on_active(g, p) } else { amount as int }
}

/// `s` healed by `d`, but not past its maximum HP.
pub open spec fn healed_up_to_max(s: PokemonSlot, d: int) -> PokemonSlot {
    PokemonSlot { current_hp: if s.current_hp + d < s.max_hp { (s.current_hp + d) as i16 } else { s.max_hp }, ..s }
}

/// Moving the damage stays within `i16` throughout.
pub open spec fn move_damage_ok(g: GameView, p: int, amount: i16) -> bool {
    let d = moved_damage(g, p, amount);
    &&& (g.players[p].active matches Some(s) ==> i16::MIN <= s.max_hp - s.current_hp <= i16::MAX && i16::MIN <= s.current_hp + d)
    &&& (g.players[1 - p].active matches Some(o) ==> i16::MIN <= o.current_hp - d <= i16::MAX)
}

/// The game after up to `amount` damage moves from player `p`'s active
/// Pokémon to the opponent's.
pub open spec fn damage_moved(g: GameView, p: int, amount: i16) -> GameView {
    let d = moved_damage(g, p, amount);
    let g1 = g.map_slot(active_ref(p), |s: PokemonSlot| healed_up_to_max(s, d));
    g1.damage_at(active_ref(1 - p), d as i16)
}

fn move_damage_to_opponent(state: &mut GameState, amount: i16, ctx: &EffectContext)
    requires
        ctx.acting_player < 2,
        move_damage_ok(old(state)@, ctx.acting_player as int, amount),
    ensures
        final(state)@ == damage_moved(old(state)@, ctx.acting_player as int, amount),
{
    let p = ctx.acting_player;
    let opp = 1 - p;
    let dmg: i16 = match &state.players[p].active {
        Some(s) => s.max_hp - s.current_hp,
        None => 0,
    };
    let d: i16 = if dmg < amount { dmg } else { amount };
    assert(d == moved_damage(old(state)@, p as int, amount));
    heal_active_up_to(state, p, d);
    let ghost g1 = state@;
    assert(g1.slot(active_ref(opp as int)) == old(state)@.slot(active_ref(opp as int)));
    damage_mod_handlers::damage_slot(state, SlotRef::active(opp), d);
}

fn heal_active_up_to(state: &mut GameState, p: usize, d: i16)
    requires
        p < 2,
        old(state)@.players[p as int].active matches Some(s) ==> i16::MIN <= s.current_hp + d,
    ensures
        final(state)@ == old(state)@.map_slot(active_ref(p as int), |s: PokemonSlot| healed_up_to_max(s, d as int)),
{
    let me = SlotRef::active(p);
    if let Some(s) = read_slot(state, me) {
        let mut s2 = s;
        let raised: i16 = if s.current_hp as i32 + d as i32 > i16::MAX as i32 { i16::MAX } else { s.current_hp + d };
        s2.current_hp = if raised < s.max_hp { raised } else { s.max_hp };
        assert(s2 == healed_up_to_max(s, d as int));
        write_slot(state, me, Some(s2));
    }
}

/// `s` with its HP halved, and never below 0.
pub open spec fn halved(s: PokemonSlot) -> PokemonSlot {
    PokemonSlot { current_hp: if s.current_hp > 0 { (s.current_hp / 2) as i16 } else { 0 }, ..s }
}

fn halve_opponent_hp(state: &mut GameState, ctx: &EffectContext)
    requires
        ctx.acting_player < 2,
    ensures
        final(state)@ == old(state)@.map_slot(active_ref(1 - ctx.acting_player), |s: PokemonSlot| halved(s)),
{
    let r = SlotRef::active(1 - ctx.acting_player);
    if let Some(s) = read_slot(state, r) {
        let mut s2 = s;
        s2.current_hp = if s.current_hp > 0 { s.current_hp / 2 } else { 0 };
        write_slot(state, r, Some(s2));
    }
}

/// The attack that carries the effect knocked out the defender.
pub open spec fn knocked_out(ctx: EffectContext) -> bool {
    ctx.extra_value("opponent_ko"@) matches Some(v) && v != 0
}

/// The game after the attacker at `src` takes `amount` damage.
pub open spec fn self_hit(g: GameView, src: Option<SlotRef>, amount: i16) -> GameView {
    match src {
        Some(r) => g.damage_at(r, amount),
        None => g,
    }
}

/// The attacker at `src` can take `amount` damage.
pub open spec fn self_hit_ok(g: GameView, src: Option<SlotRef>, amount: i16) -> bool {
    match src {
        Some(r) => g.can_damage(r, amount),
        None => true,
    }
}

/// The effects that deal damage or strip tools outside the attack itself.
pub open spec fn is_damage_effect(e: EffectKind) -> bool {
    effect_family(e) == EffectFamily::Damage
}

/// What a damage effect needs: the HP it changes stays within `i16`.
#[verifier::opaque]
pub open spec fn damage_pre(e: EffectKind, g: GameView, ctx: EffectContext) -> bool {
    let a = ctx.acting_player as int;
    let o = 1 - a;
    match e {
        EffectKind::SplashBenchOpponent { amount } => bench_can_damage(g, o, amount),
        EffectKind::SplashBenchOwn { amount } => bench_can_damage(g, a, amount),
        EffectKind::SplashAllOpponent { amount } => g.can_damage(active_ref(o), amount) && bench_can_damage(g, o, amount),
        EffectKind::RandomHitOne { amount } => hits_fit(g, o, amount, 1),
        EffectKind::RandomMultiHit { count, amount } => hits_fit(g, o, amount, count as int),
        EffectKind::SelfDamage { amount } => knocked_out(ctx) ==> self_hit_ok(g, ctx.source_ref, amount),
        EffectKind::SelfDamageOnCoinFlipResult { amount } => self_hit_ok(g, ctx.source_ref, amount),
        EffectKind::BenchHitOpponent { amount } => match specific_bench_target(g, ctx.target_ref, o) {
            Some(t) => g.can_damage(t, amount),
            None => true,
        },
        EffectKind::MoveDamageToOpponent { amount } => move_damage_ok(g, a, amount),
        _ => true,
    }
}

/// What a damage effect does.
#[verifier::opaque]
pub open spec fn damage_post(e: EffectKind, g0: GameView, g1: GameView, ctx: EffectContext) -> bool {
    let a = ctx.acting_player as int;
    let o = 1 - a;
    match e {
        EffectKind::SplashBenchOpponent { amount } => g1 == damage_bench(g0, o, amount),
        EffectKind::SplashBenchOwn { amount } => g1 == damage_bench(g0, a, amount),
        EffectKind::SplashAllOpponent { amount } => g1 == damage_bench(g0.damage_at(active_ref(o), amount), o, amount),
        EffectKind::RandomHitOne { amount } => random_hits(g0, g1, o, amount, 1),
        EffectKind::RandomMultiHit { count, amount } => random_hits(g0, g1, o, amount, count as nat),
        EffectKind::SelfDamage { amount } => g1 == if knocked_out(ctx) { self_hit(g0, ctx.source_ref, amount) } else { g0 },
        EffectKind::SelfDamageOnCoinFlipResult { amount } => g1 == g0 || g1 == self_hit(g0, ctx.source_ref, amount),
        EffectKind::DiscardOpponentToolsBeforeDamage => g1 == tool_discarded(g0, active_ref(o)),
        EffectKind::DiscardAllOpponentTools => g1 == tool_discarded(
            tool_discarded(tool_discarded(tool_discarded(g0, active_ref(o)), bench_ref(o, 0)), bench_ref(o, 1)),
            bench_ref(o, 2),
        ),
        EffectKind::BenchHitOpponent { amount } => g1 == match specific_bench_target(g0, ctx.target_ref, o) {
            Some(t) => g0.damage_at(t, amount),
            None => g0,
        },
        EffectKind::MoveDamageToOpponent { amount } => g1 == damage_moved(g0, a, amount),
        EffectKind::HalveOpponentHp => g1 == g0.map_slot(active_ref(o), |s: PokemonSlot| halved(s)),
        _ => false,
    }
}

fn apply_damage_effect(state: &mut GameState, effect: &EffectKind, ctx: &EffectContext)
    requires
        ctx.acting_player < 2,
        is_damage_effect(*effect),
        damage_pre(*effect, old(state)@, *ctx),
    ensures
        damage_post(*effect, old(state)@, final(state)@, *ctx),
{
    proof {
        reveal(damage_pre);
        reveal(damage_post);
    }
    let p = ctx.acting_player;
    let opp = 1 - p;
    match effect {
        EffectKind::SplashBenchOpponent { amount } => damage_mod_handlers::damage_all_opponent_bench(state, *amount, ctx),
        EffectKind::SplashBenchOwn { amount } => damage_mod_handlers::damage_bench_of(state, p, *amount),
        EffectKind::SplashAllOpponent { amount } => damage_mod_handlers::damage_all_opponent(state, *amount, ctx),
        EffectKind::RandomHitOne { amount } => random_hit_n(state, opp, *amount, 1),
        EffectKind::RandomMultiHit { count, amount } => random_hit_n(state, opp, *amount, *count),
        EffectKind::SelfDamage { amount } => {
            let flag = match extra_get(&ctx.extra, "opponent_ko") {
                Some(v) => v,
                None => 0,
            };
            if flag != 0 {
                damage_mod_handlers::self_damage(state, *amount, ctx.source_ref, ctx);
            }
        },
        EffectKind::SelfDamageOnCoinFlipResult { amount } => {
            if flip_coin(&mut state.rng) {
                damage_mod_handlers::self_damage(state, *amount, ctx.source_ref, ctx);
            }
        },
        EffectKind::DiscardOpponentToolsBeforeDamage => discard_tool_at(state, SlotRef::active(opp)),
        EffectKind::DiscardAllOpponentTools => {
            discard_tool_at(state, SlotRef::active(opp));
            discard_tool_at(state, SlotRef::bench(opp, 0));
            discard_tool_at(state, SlotRef::bench(opp, 1));
            discard_tool_at(state, SlotRef::bench(opp, 2));
        },
        EffectKind::BenchHitOpponent { amount } => damage_mod_handlers::damage_specific_bench(state, *amount, ctx.target_ref, ctx),
        EffectKind::MoveDamageToOpponent { amount } => move_damage_to_opponent(state, *amount, ctx),
        EffectKind::HalveOpponentHp => halve_opponent_hp(state, ctx),
        _ => {},
    }
}


/// The next-turn flags, Trainer effects and other effects that fit no family.
pub open spec fn is_misc_effect(e: EffectKind) -> bool {
    effect_family(e) == EffectFamily::Misc
}

/// What one of these effects needs.
#[verifier::opaque]
pub open spec fn misc_pre(e: EffectKind, g: GameView, ctx: EffectContext, db: CardDb) -> bool {
    let a = ctx.acting_player as int;
    let o = 1 - a;
    match e {
        EffectKind::DefenderAttacksDoLessDamage { amount } => g.players[o].active is Some ==> (amount as i8) != i8::MIN,
        EffectKind::TakeMoreDamageNextTurn { amount } => g.players[a].active is Some ==> (amount as i8) != i8::MIN,
        EffectKind::ReduceRetreatCost { amount } => i8::MIN <= g.players[a].retreat_cost_modifier - (amount as i8) <= i8::MAX,
        EffectKind::CopyOpponentAttack => {
            &&& g.players[a].active is Some ==> card_in_db(g, active_ref(a), db)
            &&& g.players[o].active is Some ==> card_in_db(g, active_ref(o), db)
            &&& copy_applies(g, db, a) ==> copy_fits(g, db, a)
        },
        EffectKind::BigMalasada => match g.players[a].active {
            Some(s) => s.current_hp + 20 <= i16::MAX,
            None => true,
        },
        EffectKind::MythicalSlab => g.pile(a, Pile::Deck).len() > 0 ==> (g.pile(a, Pile::Deck).last() as int) < db.cards@.len(),
        EffectKind::RareCandyEvolve => match candy_card(ctx) {
            Some(evo) => {
                &&& (evo as int) < db.cards@.len()
                &&& extra_target_ok(ctx)
                &&& match g.slot(extra_target(ctx)) {
                    Some(s) => {
                        &&& i16::MIN <= s.max_hp - s.current_hp <= i16::MAX
                        &&& i16::MIN <= db.cards@[evo as int].hp - (s.max_hp - s.current_hp) <= i16::MAX
                    },
                    None => true,
                }
            },
            None => true,
        },
        EffectKind::HpBonus { amount } => {
            &&& extra_target_ok(ctx)
            &&& match g.slot(extra_target(ctx)) {
                Some(s) => i16::MIN <= s.max_hp + amount <= i16::MAX && i16::MIN <= s.current_hp + amount <= i16::MAX,
                None => true,
            }
        },
        _ => true,
    }
}

/// What one of these effects does.
#[verifier::opaque]
pub open spec fn misc_post(e: EffectKind, g0: GameView, g1: GameView, ctx: EffectContext, db: CardDb) -> bool {
    let a = ctx.acting_player as int;
    let o = 1 - a;
    let me = active_ref(a);
    let them = active_ref(o);
    let pv = g0.players[a];
    match e {
        EffectKind::CantRetreatNextTurn | EffectKind::OpponentCostIncreaseNextTurn { .. } => g1 == g0.map_slot(
            them,
            |s: PokemonSlot| no_retreat_incoming(s),
        ),
        EffectKind::PreventDamageNextTurn => g1 == g0 || g1 == g0.map_slot(me, |s: PokemonSlot| protected_incoming(s)),
        EffectKind::TakeLessDamageNextTurn { amount } | EffectKind::NextTurnAllDamageReduction { amount }
        | EffectKind::NextTurnMetalDamageReduction { amount } => g1 == g0.map_slot(
            me,
            |s: PokemonSlot| reduction_incoming(s, amount as i8),
        ),
        EffectKind::DefenderAttacksDoLessDamage { amount } => g1 == g0.map_slot(
            them,
            |s: PokemonSlot| attack_bonus_incoming(s, (-(amount as i8)) as i8),
        ),
        EffectKind::OpponentNoSupporterNextTurn => g1 == g0.with_player(o, PlayerView { cant_play_supporter_incoming: true, ..g0.players[o] }),
        EffectKind::SupporterDamageAura { amount, names } => g1 == g0.with_player(
            a,
            PlayerView {
                attack_damage_bonus: aura_bonus(pv, amount as i8),
                attack_damage_bonus_names: if names@.len() > 0 {
                    names@.map_values(|n: String| n@)
                } else {
                    pv.attack_damage_bonus_names
                },
                ..pv
            },
        ),
        EffectKind::SupporterDamageAuraVsEx { amount } => g1 == g0.with_player(
            a,
            PlayerView { attack_damage_bonus: aura_bonus(pv, amount as i8), attack_damage_bonus_names: seq!["ex"@], ..pv },
        ),
        EffectKind::ReduceRetreatCost { amount } => g1 == g0.with_player(
            a,
            PlayerView { retreat_cost_modifier: (pv.retreat_cost_modifier - (amount as i8)) as i8, ..pv },
        ),
        EffectKind::CopyOpponentAttack => g1 == copy_outcome(g0, db, a),
        EffectKind::CoinFlipShuffleOpponentCard => {
            ||| g1 == g0
            ||| exists|x: GameView|
                #[trigger] random_moves(g0, x, o, Pile::Hand, Pile::Deck, 1) && x.reordered(g1, o, Pile::Deck) && g0.pile(o, Pile::Hand).len() > 0
        },
        EffectKind::MultiCoinShuffleOpponentCards { count } => {
            ||| g1 == g0
            ||| exists|heads: nat, x: GameView|
                1 <= heads <= count && #[trigger] random_moves(g0, x, o, Pile::Hand, Pile::Deck, heads) && (if x.pile(
                    o,
                    Pile::Deck,
                ).len() > 0 {
                    x.reordered(g1, o, Pile::Deck)
                } else {
                    g1 == x
                })
        },
        EffectKind::CantAttackNextTurn => g1 == g0.map_slot(them, |s: PokemonSlot| no_attack_incoming(s)),
        EffectKind::SelfCantAttackNextTurn | EffectKind::SelfCantUseSpecificAttack { .. } => g1 == g0.map_slot(
            me,
            |s: PokemonSlot| no_attack_incoming(s),
        ),
        EffectKind::CoinFlipSelfCantAttackNextTurn => exists|heads: bool| g1 == #[trigger] self_block_on_tails(g0, a, heads),
        EffectKind::SelfAttackBuffNextTurn { amount } => g1 == g0.map_slot(me, |s: PokemonSlot| attack_bonus_incoming(s, amount as i8)),
        EffectKind::TakeMoreDamageNextTurn { amount } => g1 == g0.map_slot(
            me,
            |s: PokemonSlot| reduction_incoming(s, (-(amount as i8)) as i8),
        ),
        EffectKind::OpponentNoItemsNextTurn => g1 == g0.with_player(o, PlayerView { cant_play_items_incoming: true, ..g0.players[o] }),
        EffectKind::OpponentNoEnergyNextTurn => g1 == g0.with_player(o, PlayerView { cant_attach_energy_incoming: true, ..g0.players[o] }),
        EffectKind::BigMalasada => g1 == g0.map_slot(me, |s: PokemonSlot| cured(healed(s, 20))),
        EffectKind::MythicalSlab => g1 == if top_is_psychic_pokemon(g0, a, db) { g0.draw_one(a) } else { g0 },
        EffectKind::BeastWallProtection => g1 == g0,
        EffectKind::RareCandyEvolve => g1 == match candy_card(ctx) {
            Some(evo) => candy_hand(
                g0.map_slot(extra_target(ctx), |s: PokemonSlot| evolved(s, evo, db.cards@[evo as int].hp)),
                ctx,
                evo,
            ),
            None => g0,
        },
        EffectKind::HpBonus { amount } => g1 == g0.map_slot(extra_target(ctx), |s: PokemonSlot| hp_raised(s, amount)),
        _ => false,
    }
}

fn apply_misc_effect(state: &mut GameState, db: &CardDb, effect: &EffectKind, ctx: &EffectContext)
    requires
        ctx.acting_player < 2,
        is_misc_effect(*effect),
        misc_pre(*effect, old(state)@, *ctx, *db),
    ensures
        misc_post(*effect, old(state)@, final(state)@, *ctx, *db),
{
    proof {
        reveal(misc_pre);
        reveal(misc_post);
    }
    match effect {
        EffectKind::CantRetreatNextTurn => misc_handlers::cant_retreat_next_turn(state, ctx),
        EffectKind::PreventDamageNextTurn => misc_handlers::prevent_damage_next_turn(state, ctx),
        EffectKind::TakeLessDamageNextTurn { amount } => misc_handlers::take_less_damage_next_turn(state, *amount as i8, ctx),
        EffectKind::DefenderAttacksDoLessDamage { amount } => misc_handlers::defender_attacks_do_less_damage(state, *amount as i8, ctx),
        EffectKind::OpponentNoSupporterNextTurn => misc_handlers::opponent_no_supporter_next_turn(state, ctx),
        EffectKind::SupporterDamageAura { amount, names } => misc_handlers::supporter_damage_aura(state, *amount as i8, names, ctx),
        EffectKind::SupporterDamageAuraVsEx { amount } => misc_handlers::supporter_damage_aura_vs_ex(state, *amount as i8, ctx),
        EffectKind::ReduceRetreatCost { amount } => misc_handlers::reduce_retreat_cost(state, *amount as i8, ctx),
        EffectKind::CopyOpponentAttack => misc_handlers::copy_opponent_attack(state, db, ctx),
        EffectKind::CoinFlipShuffleOpponentCard => misc_handlers::coin_flip_shuffle_opponent_card(state, ctx),
        EffectKind::MultiCoinShuffleOpponentCards { count } => misc_handlers::multi_coin_shuffle_opponent_cards(state, *count, ctx),
        EffectKind::CantAttackNextTurn => misc_handlers::cant_attack_next_turn(state, ctx),
        EffectKind::SelfCantAttackNextTurn => misc_handlers::self_cant_attack_next_turn(state, ctx),
        EffectKind::CoinFlipSelfCantAttackNextTurn => misc_handlers::coin_flip_self_cant_attack_next_turn(state, ctx),
        EffectKind::SelfCantUseSpecificAttack { .. } => misc_handlers::self_cant_use_specific_attack(state, ctx),
        EffectKind::SelfAttackBuffNextTurn { amount } => misc_handlers::self_attack_buff_next_turn(state, *amount as i8, ctx),
        EffectKind::TakeMoreDamageNextTurn { amount } => misc_handlers::take_more_damage_next_turn(state, *amount as i8, ctx),
        EffectKind::NextTurnAllDamageReduction { amount } => misc_handlers::next_turn_all_damage_reduction(state, *amount as i8, ctx),
        EffectKind::NextTurnMetalDamageReduction { amount } => misc_handlers::next_turn_metal_damage_reduction(state, *amount as i8, ctx),
        EffectKind::OpponentCostIncreaseNextTurn { .. } => misc_handlers::opponent_cost_increase_next_turn(state, ctx),
        EffectKind::OpponentNoItemsNextTurn => misc_handlers::opponent_no_items_next_turn(state, ctx),
        EffectKind::OpponentNoEnergyNextTurn => misc_handlers::opponent_no_energy_next_turn(state, ctx),
        EffectKind::BigMalasada => misc_handlers::big_malasada(state, ctx),
        EffectKind::MythicalSlab => misc_handlers::mythical_slab(state, db, ctx),
        EffectKind::BeastWallProtection => misc_handlers::beast_wall_protection(state, ctx),
        EffectKind::RareCandyEvolve => misc_handlers::rare_candy_evolve(state, db, ctx),
        EffectKind::HpBonus { amount } => misc_handlers::hp_bonus(state, *amount, ctx),
        _ => {},
    }
}


/// What a passive effect does when it is applied: blocking Supporters marks
/// the opponent, blocking healing marks both players; the rest are read
/// where they matter and change nothing here.
pub open spec fn passive_post(e: EffectKind, g0: GameView, g1: GameView, ctx: EffectContext) -> bool {
    let o = 1 - ctx.acting_player as int;
    if e is PassiveBlockSupporters {
        g1 == g0.with_player(
            o,
            PlayerView { cant_play_supporter_this_turn: true, cant_play_supporter_incoming: true, ..g0.players[o] },
        )
    } else if e is PassiveNoHealing {
        let h = g0.with_player(0, PlayerView { cant_heal_this_turn: true, ..g0.players[0] });
        g1 == h.with_player(1, PlayerView { cant_heal_this_turn: true, ..h.players[1] })
    } else {
        g1 == g0
    }
}

/// What applying `e` needs of the game and the context.
pub open spec fn effect_pre(e: EffectKind, g: GameView, ctx: EffectContext, db: CardDb) -> bool {
    match effect_family(e) {
        EffectFamily::Status => status_pre(e, g, ctx),
        EffectFamily::Draw => draw_pre(e, g, ctx, db),
        EffectFamily::Attach => attach_pre(e, ctx),
        EffectFamily::Energy => energy_pre(e, g, ctx),
        EffectFamily::Damage => damage_pre(e, g, ctx),
        EffectFamily::Misc => misc_pre(e, g, ctx, db),
        EffectFamily::Other => true,
    }
}

/// What applying `e` does: `g1` is a possible game after it, from `g0`.
pub open spec fn effect_post(e: EffectKind, g0: GameView, g1: GameView, ctx: EffectContext, db: CardDb) -> bool {
    match effect_family(e) {
        EffectFamily::Status => status_post(e, g0, g1, ctx),
        EffectFamily::Draw => draw_post(e, g0, g1, ctx, db),
        EffectFamily::Attach => attach_post(e, g0, g1, ctx, db),
        EffectFamily::Energy => energy_post(e, g0, g1, ctx, db),
        EffectFamily::Damage => damage_post(e, g0, g1, ctx),
        EffectFamily::Misc => misc_post(e, g0, g1, ctx, db),
        EffectFamily::Other => passive_post(e, g0, g1, ctx),
    }
}

/// Applies one effect to the game: each effect goes to its handler.
/// Damage modifiers are resolved by `compute_damage_modifier` and change
/// nothing here.
pub fn apply_effect(state: &mut GameState, db: &CardDb, effect: &EffectKind, ctx: &EffectContext)
    requires
        ctx.acting_player < 2,
        effect_pre(*effect, old(state)@, *ctx, *db),
    ensures
        effect_post(*effect, old(state)@, final(state)@, *ctx, *db),
{
    match family_of(effect) {
        EffectFamily::Status => apply_status_effect(state, effect, ctx),
        EffectFamily::Draw => apply_draw_effect(state, db, effect, ctx),
        EffectFamily::Attach => apply_attach_effect(state, db, effect, ctx),
        EffectFamily::Energy => apply_energy_effect(state, db, effect, ctx),
        EffectFamily::Damage => apply_damage_effect(state, effect, ctx),
        EffectFamily::Misc => apply_misc_effect(state, db, effect, ctx),
        EffectFamily::Other => apply_passive_effect(state, effect, ctx),
    }
}

fn apply_passive_effect(state: &mut GameState, effect: &EffectKind, ctx: &EffectContext)
    requires
        ctx.acting_player < 2,
    ensures
        passive_post(*effect, old(state)@, final(state)@, *ctx),
{
    if let EffectKind::PassiveBlockSupporters = effect {
        misc_handlers::passive_block_supporters(state, ctx);
    } else if let EffectKind::PassiveNoHealing = effect {
        forbid_healing(state, 0);
        forbid_healing(state, 1);
    }
}

/// Player `p` can't heal this turn.
fn forbid_healing(state: &mut GameState, p: usize)
    requires
        p < 2,
    ensures
        final(state)@ == old(state)@.with_player(p as int, PlayerView { cant_heal_this_turn: true, ..old(state)@.players[p as int] }),
{
    state.players[p].cant_heal_this_turn = true;
    proof {
        assert(state@.players =~= old(state)@.with_player(
            p as int,
            PlayerView { cant_heal_this_turn: true, ..old(state)@.players[p as int] },
        ).players);
    }
}


/// `gs` lists a game before each effect of the first `k` effects of `effs`
/// and after the last of them: each game is a possible outcome of the
/// effect before it.
pub open spec fn effects_path(effs: Seq<EffectKind>, gs: Seq<GameView>, k: int, ctx: EffectContext, db: CardDb) -> bool {
    &&& 0 <= k <= effs.len()
    &&& gs.len() == k + 1
    &&& forall|i: int| 0 <= i < k ==> #[trigger] effect_post(effs[i], gs[i], gs[i + 1], ctx, db)
}

/// Every effect of `effs` can be applied in turn from `g`, whatever the
/// effects before it led to.
pub open spec fn effects_ok(effs: Seq<EffectKind>, g: GameView, ctx: EffectContext, db: CardDb) -> bool {
    forall|gs: Seq<GameView>, k: int|
        #![trigger effects_path(effs, gs, k, ctx, db)]
        effects_path(effs, gs, k, ctx, db) && gs[0] == g && k < effs.len() ==> effect_pre(effs[k], gs[k], ctx, db)
}

/// `g1` is a possible game after the effects of `effs`, applied in order from `g0`.
pub open spec fn effects_run(effs: Seq<EffectKind>, g0: GameView, g1: GameView, ctx: EffectContext, db: CardDb) -> bool {
    exists|gs: Seq<GameView>|
        #[trigger] effects_path(effs, gs, effs.len() as int, ctx, db) && gs[0] == g0 && gs.last() == g1
}

/// Applies a list of effects to the game, in order.
pub fn apply_effects(state: &mut GameState, db: &CardDb, effects: &[EffectKind], ctx: &EffectContext)
    requires
        ctx.acting_player < 2,
        effects_ok(effects@, old(state)@, *ctx, *db),
    ensures
        effects_run(effects@, old(state)@, final(state)@, *ctx, *db),
{
    let n = effects.len();
    let mut i: usize = 0;
    let ghost mut gs: Seq<GameView> = seq![state@];
    while i < n
        invariant
            n == effects@.len(),
            i <= n,
            ctx.acting_player < 2,
            effects_ok(effects@, old(state)@, *ctx, *db),
            effects_path(effects@, gs, i as int, *ctx, *db),
            gs[0] == old(state)@,
            gs.last() == state@,
        decreases n - i,
    {
        assert(gs[i as int] == gs.last());
        assert(effect_pre(effects@[i as int], gs[i as int], *ctx, *db));
        apply_effect(state, db, &effects[i], ctx);
        proof {
            let ng = gs.push(state@);
            assert forall|j: int| 0 <= j < i + 1 implies #[trigger] effect_post(effects@[j], ng[j], ng[j + 1], *ctx, *db) by {
                if j < i {
                    assert(ng[j] == gs[j] && ng[j + 1] == gs[j + 1]);
                }
            }
            gs = ng;
        }
        i = i + 1;
    }
}

}
