//! The table of effect names: which names a handler string may use, and
//! the effect each stands for.
use vstd::prelude::*;
use crate::effects::EffectKind;
use crate::effects::parse::{Params, arg_i16, arg_names, arg_str, arg_u8, get_i16, get_names, get_str, get_u8, params_view};
use crate::text::{chars_eq, to_chars};

verus! {

/// Whether `name` spells `lit`.
fn is(name: &[char], lit: &str) -> (r: bool)
    ensures
        r == (name@ == lit@),
{
    let l = to_chars(lit);
    chars_eq(name, l.as_slice())
}

/// Names of the effect table, part 1.
pub open spec fn known_0(name: Seq<char>) -> bool {
    name == "apply_poison"@
        || name == "apply_burn"@
        || name == "apply_sleep"@
        || name == "apply_paralysis"@
        || name == "apply_confusion"@
        || name == "apply_random_status"@
        || name == "toxic_poison"@
        || name == "coin_flip_apply_paralysis"@
        || name == "coin_flip_apply_sleep"@
        || name == "self_confuse"@
        || name == "self_sleep"@
        || name == "coin_flip_attack_block_next_turn"@
        || name == "heal_self"@
        || name == "heal_target"@
        || name == "heal_active"@
        || name == "heal_all_own"@
        || name == "heal_grass_target"@
        || name == "heal_water_pokemon"@
        || name == "heal_stage2_target"@
        || name == "heal_and_cure_status"@
        || name == "heal_self_equal_to_damage_dealt"@
        || name == "heal_all_named_discard_energy"@
        || name == "heal_all_typed"@
        || name == "draw_cards"@
        || name == "draw_one_card"@
}

/// The effect that `name` stands for, part 1.
pub open spec fn parsed_0(e: EffectKind, name: Seq<char>, ps: Seq<(Seq<char>, Seq<char>)>) -> bool {
    if name == "apply_poison"@ {
        e == EffectKind::ApplyPoison
    } else if name == "apply_burn"@ {
        e == EffectKind::ApplyBurn
    } else if name == "apply_sleep"@ {
        e == EffectKind::ApplySleep
    } else if name == "apply_paralysis"@ {
        e == EffectKind::ApplyParalysis
    } else if name == "apply_confusion"@ {
        e == EffectKind::ApplyConfusion
    } else if name == "apply_random_status"@ {
        e == EffectKind::ApplyRandomStatus
    } else if name == "toxic_poison"@ {
        e == EffectKind::ToxicPoison
    } else if name == "coin_flip_apply_paralysis"@ {
        e == EffectKind::CoinFlipApplyParalysis
    } else if name == "coin_flip_apply_sleep"@ {
        e == EffectKind::CoinFlipApplySleep
    } else if name == "self_confuse"@ {
        e == EffectKind::SelfConfuse
    } else if name == "self_sleep"@ {
        e == EffectKind::SelfSleep
    } else if name == "coin_flip_attack_block_next_turn"@ {
        e == EffectKind::CoinFlipAttackBlockNextTurn
    } else if name == "heal_self"@ {
        e == (EffectKind::HealSelf { amount: arg_i16(ps, "amount"@, 0i16) })
    } else if name == "heal_target"@ {
        e == (EffectKind::HealTarget { amount: arg_i16(ps, "amount"@, 0i16) })
    } else if name == "heal_active"@ {
        e == (EffectKind::HealActive { amount: arg_i16(ps, "amount"@, 0i16) })
    } else if name == "heal_all_own"@ {
        e == (EffectKind::HealAllOwn { amount: arg_i16(ps, "amount"@, 0i16) })
    } else if name == "heal_grass_target"@ {
        e == (EffectKind::HealGrassTarget { amount: arg_i16(ps, "amount"@, 0i16) })
    } else if name == "heal_water_pokemon"@ {
        e == (EffectKind::HealWaterPokemon { amount: arg_i16(ps, "amount"@, 0i16) })
    } else if name == "heal_stage2_target"@ {
        e == (EffectKind::HealStage2Target { amount: arg_i16(ps, "amount"@, 0i16) })
    } else if name == "heal_and_cure_status"@ {
        e == (EffectKind::HealAndCureStatus { amount: arg_i16(ps, "amount"@, 0i16) })
    } else if name == "heal_self_equal_to_damage_dealt"@ {
        e == EffectKind::HealSelfEqualToDamageDealt
    } else if name == "heal_all_named_discard_energy"@ {
        (e matches EffectKind::HealAllNamedDiscardEnergy { name: b_name, amount: b_amount } && b_name@ == arg_str(ps, "name"@) && b_amount == arg_i16(ps, "amount"@, 0i16))
    } else if name == "heal_all_typed"@ {
        (e matches EffectKind::HealAllTyped { element: b_element, amount: b_amount } && b_element@ == arg_str(ps, "element"@) && b_amount == arg_i16(ps, "amount"@, 0i16))
    } else if name == "draw_cards"@ {
        e == (EffectKind::DrawCards { count: arg_u8(ps, "count"@, 2u8) })
    } else if name == "draw_one_card"@ {
        e == EffectKind::DrawOneCard
    } else {
        false
    }
}

fn parse_0(name: &[char], ps: &Params) -> (r: Option<EffectKind>)
    ensures
        r is Some <==> known_0(name@),
        r matches Some(e) ==> parsed_0(e, name@, params_view(*ps)),
{
    if is(name, "apply_poison") {
        Some(EffectKind::ApplyPoison)
    } else if is(name, "apply_burn") {
        Some(EffectKind::ApplyBurn)
    } else if is(name, "apply_sleep") {
        Some(EffectKind::ApplySleep)
    } else if is(name, "apply_paralysis") {
        Some(EffectKind::ApplyParalysis)
    } else if is(name, "apply_confusion") {
        Some(EffectKind::ApplyConfusion)
    } else if is(name, "apply_random_status") {
        Some(EffectKind::ApplyRandomStatus)
    } else if is(name, "toxic_poison") {
        Some(EffectKind::ToxicPoison)
    } else if is(name, "coin_flip_apply_paralysis") {
        Some(EffectKind::CoinFlipApplyParalysis)
    } else if is(name, "coin_flip_apply_sleep") {
        Some(EffectKind::CoinFlipApplySleep)
    } else if is(name, "self_confuse") {
        Some(EffectKind::SelfConfuse)
    } else if is(name, "self_sleep") {
        Some(EffectKind::SelfSleep)
    } else if is(name, "coin_flip_attack_block_next_turn") {
        Some(EffectKind::CoinFlipAttackBlockNextTurn)
    } else if is(name, "heal_self") {
        let b_amount = get_i16(ps, "amount", 0);
        Some(EffectKind::HealSelf { amount: b_amount })
    } else if is(name, "heal_target") {
        let b_amount = get_i16(ps, "amount", 0);
        Some(EffectKind::HealTarget { amount: b_amount })
    } else if is(name, "heal_active") {
        let b_amount = get_i16(ps, "amount", 0);
        Some(EffectKind::HealActive { amount: b_amount })
    } else if is(name, "heal_all_own") {
        let b_amount = get_i16(ps, "amount", 0);
        Some(EffectKind::HealAllOwn { amount: b_amount })
    } else if is(name, "heal_grass_target") {
        let b_amount = get_i16(ps, "amount", 0);
        Some(EffectKind::HealGrassTarget { amount: b_amount })
    } else if is(name, "heal_water_pokemon") {
        let b_amount = get_i16(ps, "amount", 0);
        Some(EffectKind::HealWaterPokemon { amount: b_amount })
    } else if is(name, "heal_stage2_target") {
        let b_amount = get_i16(ps, "amount", 0);
        Some(EffectKind::HealStage2Target { amount: b_amount })
    } else if is(name, "heal_and_cure_status") {
        let b_amount = get_i16(ps, "amount", 0);
        Some(EffectKind::HealAndCureStatus { amount: b_amount })
    } else if is(name, "heal_self_equal_to_damage_dealt") {
        Some(EffectKind::HealSelfEqualToDamageDealt)
    } else if is(name, "heal_all_named_discard_energy") {
        let b_name = get_str(ps, "name");
        let b_amount = get_i16(ps, "amount", 0);
        Some(EffectKind::HealAllNamedDiscardEnergy { name: b_name, amount: b_amount })
    } else if is(name, "heal_all_typed") {
        let b_element = get_str(ps, "element");
        let b_amount = get_i16(ps, "amount", 0);
        Some(EffectKind::HealAllTyped { element: b_element, amount: b_amount })
    } else if is(name, "draw_cards") {
        let b_count = get_u8(ps, "count", 2);
        Some(EffectKind::DrawCards { count: b_count })
    } else if is(name, "draw_one_card") {
        Some(EffectKind::DrawOneCard)
    } else {
        None
    }
}

/// Names of the effect table, part 2.
pub open spec fn known_1(name: Seq<char>) -> bool {
    name == "draw_basic_pokemon"@
        || name == "iono_hand_shuffle"@
        || name == "mars_hand_shuffle"@
        || name == "shuffle_hand_into_deck"@
        || name == "shuffle_hand_draw_opponent_count"@
        || name == "discard_to_draw"@
        || name == "opponent_shuffle_hand_draw"@
        || name == "search_deck_named_basic"@
        || name == "search_deck_random_pokemon"@
        || name == "search_deck_evolves_from"@
        || name == "search_deck_named"@
        || name == "search_deck_grass_pokemon"@
        || name == "search_deck_random_basic"@
        || name == "search_discard_random_basic"@
        || name == "look_top_of_deck"@
        || name == "reveal_opponent_hand"@
        || name == "look_opponent_hand"@
        || name == "reveal_opponent_supporters"@
        || name == "fishing_net"@
        || name == "pokemon_communication"@
        || name == "discard_random_card_opponent"@
        || name == "discard_random_tool_from_hand"@
        || name == "discard_random_item_from_hand"@
        || name == "discard_top_deck"@
        || name == "attach_energy_zone_self"@
}

/// The effect that `name` stands for, part 2.
pub open spec fn parsed_1(e: EffectKind, name: Seq<char>, ps: Seq<(Seq<char>, Seq<char>)>) -> bool {
    if name == "draw_basic_pokemon"@ {
        e == EffectKind::DrawBasicPokemon
    } else if name == "iono_hand_shuffle"@ {
        e == EffectKind::IonoHandShuffle
    } else if name == "mars_hand_shuffle"@ {
        e == EffectKind::MarsHandShuffle
    } else if name == "shuffle_hand_into_deck"@ {
        e == EffectKind::ShuffleHandIntoDeck
    } else if name == "shuffle_hand_draw_opponent_count"@ {
        e == EffectKind::ShuffleHandDrawOpponentCount
    } else if name == "discard_to_draw"@ {
        e == (EffectKind::DiscardToDraw { count: arg_u8(ps, "count"@, 1u8) })
    } else if name == "opponent_shuffle_hand_draw"@ {
        e == (EffectKind::OpponentShuffleHandDraw { count: arg_u8(ps, "count"@, 3u8) })
    } else if name == "search_deck_named_basic"@ {
        (e matches EffectKind::SearchDeckNamedBasic { name: b_name } && b_name@ == arg_str(ps, "name"@))
    } else if name == "search_deck_random_pokemon"@ {
        e == EffectKind::SearchDeckRandomPokemon
    } else if name == "search_deck_evolves_from"@ {
        (e matches EffectKind::SearchDeckEvolvesFrom { name: b_name } && b_name@ == arg_str(ps, "name"@))
    } else if name == "search_deck_named"@ {
        (e matches EffectKind::SearchDeckNamed { name: b_name } && b_name@ == arg_str(ps, "name"@))
    } else if name == "search_deck_grass_pokemon"@ {
        e == EffectKind::SearchDeckGrassPokemon
    } else if name == "search_deck_random_basic"@ {
        e == EffectKind::SearchDeckRandomBasic
    } else if name == "search_discard_random_basic"@ {
        e == EffectKind::SearchDiscardRandomBasic
    } else if name == "look_top_of_deck"@ {
        e == (EffectKind::LookTopOfDeck { count: arg_u8(ps, "count"@, 1u8) })
    } else if name == "reveal_opponent_hand"@ {
        e == EffectKind::RevealOpponentHand
    } else if name == "look_opponent_hand"@ {
        e == EffectKind::LookOpponentHand
    } else if name == "reveal_opponent_supporters"@ {
        e == EffectKind::RevealOpponentSupporters
    } else if name == "fishing_net"@ {
        e == EffectKind::FishingNet
    } else if name == "pokemon_communication"@ {
        e == EffectKind::PokemonCommunication
    } else if name == "discard_random_card_opponent"@ {
        e == EffectKind::DiscardRandomCardOpponent
    } else if name == "discard_random_tool_from_hand"@ {
        e == EffectKind::DiscardRandomToolFromHand
    } else if name == "discard_random_item_from_hand"@ {
        e == EffectKind::DiscardRandomItemFromHand
    } else if name == "discard_top_deck"@ {
        e == EffectKind::DiscardTopDeck
    } else if name == "attach_energy_zone_self"@ {
        e == EffectKind::AttachEnergyZoneSelf
    } else {
        false
    }
}

fn parse_1(name: &[char], ps: &Params) -> (r: Option<EffectKind>)
    ensures
        r is Some <==> known_1(name@),
        r matches Some(e) ==> parsed_1(e, name@, params_view(*ps)),
{
    if is(name, "draw_basic_pokemon") {
        Some(EffectKind::DrawBasicPokemon)
    } else if is(name, "iono_hand_shuffle") {
        Some(EffectKind::IonoHandShuffle)
    } else if is(name, "mars_hand_shuffle") {
        Some(EffectKind::MarsHandShuffle)
    } else if is(name, "shuffle_hand_into_deck") {
        Some(EffectKind::ShuffleHandIntoDeck)
    } else if is(name, "shuffle_hand_draw_opponent_count") {
        Some(EffectKind::ShuffleHandDrawOpponentCount)
    } else if is(name, "discard_to_draw") {
        let b_count = get_u8(ps, "count", 1);
        Some(EffectKind::DiscardToDraw { count: b_count })
    } else if is(name, "opponent_shuffle_hand_draw") {
        let b_count = get_u8(ps, "count", 3);
        Some(EffectKind::OpponentShuffleHandDraw { count: b_count })
    } else if is(name, "search_deck_named_basic") {
        let b_name = get_str(ps, "name");
        Some(EffectKind::SearchDeckNamedBasic { name: b_name })
    } else if is(name, "search_deck_random_pokemon") {
        Some(EffectKind::SearchDeckRandomPokemon)
    } else if is(name, "search_deck_evolves_from") {
        let b_name = get_str(ps, "name");
        Some(EffectKind::SearchDeckEvolvesFrom { name: b_name })
    } else if is(name, "search_deck_named") {
        let b_name = get_str(ps, "name");
        Some(EffectKind::SearchDeckNamed { name: b_name })
    } else if is(name, "search_deck_grass_pokemon") {
        Some(EffectKind::SearchDeckGrassPokemon)
    } else if is(name, "search_deck_random_basic") {
        Some(EffectKind::SearchDeckRandomBasic)
    } else if is(name, "search_discard_random_basic") {
        Some(EffectKind::SearchDiscardRandomBasic)
    } else if is(name, "look_top_of_deck") {
        let b_count = get_u8(ps, "count", 1);
        Some(EffectKind::LookTopOfDeck { count: b_count })
    } else if is(name, "reveal_opponent_hand") {
        Some(EffectKind::RevealOpponentHand)
    } else if is(name, "look_opponent_hand") {
        Some(EffectKind::LookOpponentHand)
    } else if is(name, "reveal_opponent_supporters") {
        Some(EffectKind::RevealOpponentSupporters)
    } else if is(name, "fishing_net") {
        Some(EffectKind::FishingNet)
    } else if is(name, "pokemon_communication") {
        Some(EffectKind::PokemonCommunication)
    } else if is(name, "discard_random_card_opponent") {
        Some(EffectKind::DiscardRandomCardOpponent)
    } else if is(name, "discard_random_tool_from_hand") {
        Some(EffectKind::DiscardRandomToolFromHand)
    } else if is(name, "discard_random_item_from_hand") {
        Some(EffectKind::DiscardRandomItemFromHand)
    } else if is(name, "discard_top_deck") {
        Some(EffectKind::DiscardTopDeck)
    } else if is(name, "attach_energy_zone_self") {
        Some(EffectKind::AttachEnergyZoneSelf)
    } else {
        None
    }
}

/// Names of the effect table, part 3.
pub open spec fn known_2(name: Seq<char>) -> bool {
    name == "attach_energy_zone_bench"@
        || name == "attach_energy_zone_bench_bracket"@
        || name == "attach_energy_zone_bench_any_bracket"@
        || name == "attach_energy_zone_self_bracket"@
        || name == "attach_energy_zone_named"@
        || name == "attach_energy_zone_to_grass"@
        || name == "attach_n_energy_zone_bench"@
        || name == "attach_water_two_bench"@
        || name == "attach_colorless_energy_zone_bench"@
        || name == "attach_energy_discard_named"@
        || name == "attach_energy_named_end_turn"@
        || name == "ability_attach_energy_end_turn"@
        || name == "coin_flip_until_tails_attach_energy"@
        || name == "multi_coin_attach_bench"@
        || name == "lusamine_attach"@
        || name == "first_turn_energy_attach"@
        || name == "discard_energy_self"@
        || name == "discard_n_energy_self"@
        || name == "discard_all_energy_self"@
        || name == "discard_all_typed_energy_self"@
        || name == "coin_flip_discard_random_energy_opponent"@
        || name == "discard_random_energy_opponent"@
        || name == "discard_random_energy_both_active"@
        || name == "discard_random_energy_all_pokemon"@
        || name == "coin_flip_until_tails_discard_energy"@
}

/// The effect that `name` stands for, part 3.
pub open spec fn parsed_2(e: EffectKind, name: Seq<char>, ps: Seq<(Seq<char>, Seq<char>)>) -> bool {
    if name == "attach_energy_zone_bench"@ {
        e == (EffectKind::AttachEnergyZoneBench { count: arg_u8(ps, "count"@, 1u8) })
    } else if name == "attach_energy_zone_bench_bracket"@ {
        e == (EffectKind::AttachEnergyZoneBenchBracket { count: arg_u8(ps, "count"@, 1u8) })
    } else if name == "attach_energy_zone_bench_any_bracket"@ {
        e == (EffectKind::AttachEnergyZoneBenchAnyBracket { count: arg_u8(ps, "count"@, 1u8) })
    } else if name == "attach_energy_zone_self_bracket"@ {
        e == EffectKind::AttachEnergyZoneSelfBracket
    } else if name == "attach_energy_zone_named"@ {
        (e matches EffectKind::AttachEnergyZoneNamed { name: b_name } && b_name@ == arg_str(ps, "name"@))
    } else if name == "attach_energy_zone_to_grass"@ {
        e == EffectKind::AttachEnergyZoneToGrass
    } else if name == "attach_n_energy_zone_bench"@ {
        e == (EffectKind::AttachNEnergyZoneBench { count: arg_u8(ps, "count"@, 1u8) })
    } else if name == "attach_water_two_bench"@ {
        e == EffectKind::AttachWaterTwoBench
    } else if name == "attach_colorless_energy_zone_bench"@ {
        e == EffectKind::AttachColorlessEnergyZoneBench
    } else if name == "attach_energy_discard_named"@ {
        (e matches EffectKind::AttachEnergyDiscardNamed { name: b_name } && b_name@ == arg_str(ps, "name"@))
    } else if name == "attach_energy_named_end_turn"@ {
        (e matches EffectKind::AttachEnergyNamedEndTurn { name: b_name } && b_name@ == arg_str(ps, "name"@))
    } else if name == "ability_attach_energy_end_turn"@ {
        e == EffectKind::AbilityAttachEnergyEndTurn
    } else if name == "coin_flip_until_tails_attach_energy"@ {
        e == EffectKind::CoinFlipUntilTailsAttachEnergy
    } else if name == "multi_coin_attach_bench"@ {
        e == (EffectKind::MultiCoinAttachBench { count: arg_u8(ps, "count"@, 3u8) })
    } else if name == "lusamine_attach"@ {
        e == EffectKind::LusamineAttach
    } else if name == "first_turn_energy_attach"@ {
        e == EffectKind::FirstTurnEnergyAttach
    } else if name == "discard_energy_self"@ {
        e == EffectKind::DiscardEnergySelf
    } else if name == "discard_n_energy_self"@ {
        e == (EffectKind::DiscardNEnergySelf { count: arg_u8(ps, "count"@, 1u8) })
    } else if name == "discard_all_energy_self"@ {
        e == EffectKind::DiscardAllEnergySelf
    } else if name == "discard_all_typed_energy_self"@ {
        (e matches EffectKind::DiscardAllTypedEnergySelf { element: b_element } && b_element@ == arg_str(ps, "element"@))
    } else if name == "coin_flip_discard_random_energy_opponent"@ {
        e == EffectKind::CoinFlipDiscardRandomEnergyOpponent
    } else if name == "discard_random_energy_opponent"@ {
        e == EffectKind::DiscardRandomEnergyOpponent
    } else if name == "discard_random_energy_both_active"@ {
        e == EffectKind::DiscardRandomEnergyBothActive
    } else if name == "discard_random_energy_all_pokemon"@ {
        e == EffectKind::DiscardRandomEnergyAllPokemon
    } else if name == "coin_flip_until_tails_discard_energy"@ {
        e == EffectKind::CoinFlipUntilTailsDiscardEnergy
    } else {
        false
    }
}

fn parse_2(name: &[char], ps: &Params) -> (r: Option<EffectKind>)
    ensures
        r is Some <==> known_2(name@),
        r matches Some(e) ==> parsed_2(e, name@, params_view(*ps)),
{
    if is(name, "attach_energy_zone_bench") {
        let b_count = get_u8(ps, "count", 1);
        Some(EffectKind::AttachEnergyZoneBench { count: b_count })
    } else if is(name, "attach_energy_zone_bench_bracket") {
        let b_count = get_u8(ps, "count", 1);
        Some(EffectKind::AttachEnergyZoneBenchBracket { count: b_count })
    } else if is(name, "attach_energy_zone_bench_any_bracket") {
        let b_count = get_u8(ps, "count", 1);
        Some(EffectKind::AttachEnergyZoneBenchAnyBracket { count: b_count })
    } else if is(name, "attach_energy_zone_self_bracket") {
        Some(EffectKind::AttachEnergyZoneSelfBracket)
    } else if is(name, "attach_energy_zone_named") {
        let b_name = get_str(ps, "name");
        Some(EffectKind::AttachEnergyZoneNamed { name: b_name })
    } else if is(name, "attach_energy_zone_to_grass") {
        Some(EffectKind::AttachEnergyZoneToGrass)
    } else if is(name, "attach_n_energy_zone_bench") {
        let b_count = get_u8(ps, "count", 1);
        Some(EffectKind::AttachNEnergyZoneBench { count: b_count })
    } else if is(name, "attach_water_two_bench") {
        Some(EffectKind::AttachWaterTwoBench)
    } else if is(name, "attach_colorless_energy_zone_bench") {
        Some(EffectKind::AttachColorlessEnergyZoneBench)
    } else if is(name, "attach_energy_discard_named") {
        let b_name = get_str(ps, "name");
        Some(EffectKind::AttachEnergyDiscardNamed { name: b_name })
    } else if is(name, "attach_energy_named_end_turn") {
        let b_name = get_str(ps, "name");
        Some(EffectKind::AttachEnergyNamedEndTurn { name: b_name })
    } else if is(name, "ability_attach_energy_end_turn") {
        Some(EffectKind::AbilityAttachEnergyEndTurn)
    } else if is(name, "coin_flip_until_tails_attach_energy") {
        Some(EffectKind::CoinFlipUntilTailsAttachEnergy)
    } else if is(name, "multi_coin_attach_bench") {
        let b_count = get_u8(ps, "count", 3);
        Some(EffectKind::MultiCoinAttachBench { count: b_count })
    } else if is(name, "lusamine_attach") {
        Some(EffectKind::LusamineAttach)
    } else if is(name, "first_turn_energy_attach") {
        Some(EffectKind::FirstTurnEnergyAttach)
    } else if is(name, "discard_energy_self") {
        Some(EffectKind::DiscardEnergySelf)
    } else if is(name, "discard_n_energy_self") {
        let b_count = get_u8(ps, "count", 1);
        Some(EffectKind::DiscardNEnergySelf { count: b_count })
    } else if is(name, "discard_all_energy_self") {
        Some(EffectKind::DiscardAllEnergySelf)
    } else if is(name, "discard_all_typed_energy_self") {
        let b_element = get_str(ps, "element");
        Some(EffectKind::DiscardAllTypedEnergySelf { element: b_element })
    } else if is(name, "coin_flip_discard_random_energy_opponent") {
        Some(EffectKind::CoinFlipDiscardRandomEnergyOpponent)
    } else if is(name, "discard_random_energy_opponent") {
        Some(EffectKind::DiscardRandomEnergyOpponent)
    } else if is(name, "discard_random_energy_both_active") {
        Some(EffectKind::DiscardRandomEnergyBothActive)
    } else if is(name, "discard_random_energy_all_pokemon") {
        Some(EffectKind::DiscardRandomEnergyAllPokemon)
    } else if is(name, "coin_flip_until_tails_discard_energy") {
        Some(EffectKind::CoinFlipUntilTailsDiscardEnergy)
    } else {
        None
    }
}

/// Names of the effect table, part 4.
pub open spec fn known_3(name: Seq<char>) -> bool {
    name == "move_bench_energy_to_active"@
        || name == "move_water_bench_to_active"@
        || name == "move_all_typed_energy_bench_to_active"@
        || name == "move_all_electric_to_active_named"@
        || name == "change_opponent_energy_type"@
        || name == "opponent_no_energy_next_turn"@
        || name == "reduce_attack_cost_named"@
        || name == "coin_flip_bonus_damage"@
        || name == "coin_flip_nothing"@
        || name == "both_coins_bonus"@
        || name == "multi_coin_damage"@
        || name == "flip_until_tails_damage"@
        || name == "coin_flip_bonus_or_self_damage"@
        || name == "multi_coin_per_energy_damage"@
        || name == "multi_coin_per_typed_energy_damage"@
        || name == "multi_coin_per_pokemon_damage"@
        || name == "flip_until_tails_bonus"@
        || name == "multi_coin_bonus"@
        || name == "bonus_per_bench"@
        || name == "bonus_per_bench_element"@
        || name == "bonus_per_bench_named"@
        || name == "bonus_per_opponent_energy"@
        || name == "bonus_if_extra_water_energy"@
        || name == "bonus_if_opponent_damaged"@
        || name == "bonus_if_self_damaged"@
}

/// The effect that `name` stands for, part 4.
pub open spec fn parsed_3(e: EffectKind, name: Seq<char>, ps: Seq<(Seq<char>, Seq<char>)>) -> bool {
    if name == "move_bench_energy_to_active"@ {
        e == EffectKind::MoveBenchEnergyToActive
    } else if name == "move_water_bench_to_active"@ {
        e == EffectKind::MoveWaterBenchToActive
    } else if name == "move_all_typed_energy_bench_to_active"@ {
        (e matches EffectKind::MoveAllTypedEnergyBenchToActive { element: b_element } && b_element@ == arg_str(ps, "element"@))
    } else if name == "move_all_electric_to_active_named"@ {
        (e matches EffectKind::MoveAllElectricToActiveNamed { name: b_name } && b_name@ == arg_str(ps, "name"@))
    } else if name == "change_opponent_energy_type"@ {
        (e matches EffectKind::ChangeOpponentEnergyType { from: b_from, to: b_to } && b_from@ == arg_str(ps, "from"@) && b_to@ == arg_str(ps, "to"@))
    } else if name == "opponent_no_energy_next_turn"@ {
        e == EffectKind::OpponentNoEnergyNextTurn
    } else if name == "reduce_attack_cost_named"@ {
        (e matches EffectKind::ReduceAttackCostNamed { name: b_name, amount: b_amount } && b_name@ == arg_str(ps, "name"@) && b_amount == arg_i16(ps, "amount"@, 1i16))
    } else if name == "coin_flip_bonus_damage"@ {
        e == (EffectKind::CoinFlipBonusDamage { amount: arg_i16(ps, "amount"@, 0i16) })
    } else if name == "coin_flip_nothing"@ {
        e == EffectKind::CoinFlipNothing
    } else if name == "both_coins_bonus"@ {
        e == (EffectKind::BothCoinsBonus { amount: arg_i16(ps, "amount"@, 0i16) })
    } else if name == "multi_coin_damage"@ {
        e == (EffectKind::MultiCoinDamage { count: arg_u8(ps, "count"@, 1u8), per: arg_i16(ps, "per"@, 0i16) })
    } else if name == "flip_until_tails_damage"@ {
        e == (EffectKind::FlipUntilTailsDamage { per: arg_i16(ps, "per"@, 0i16) })
    } else if name == "coin_flip_bonus_or_self_damage"@ {
        e == (EffectKind::CoinFlipBonusOrSelfDamage { bonus: arg_i16(ps, "bonus"@, 0i16), self_damage: arg_i16(ps, "self_damage"@, 0i16) })
    } else if name == "multi_coin_per_energy_damage"@ {
        e == (EffectKind::MultiCoinPerEnergyDamage { per: arg_i16(ps, "per"@, 0i16) })
    } else if name == "multi_coin_per_typed_energy_damage"@ {
        (e matches EffectKind::MultiCoinPerTypedEnergyDamage { per: b_per, energy_type: b_energy_type } && b_per == arg_i16(ps, "per"@, 0i16) && b_energy_type@ == arg_str(ps, "energy_type"@))
    } else if name == "multi_coin_per_pokemon_damage"@ {
        e == (EffectKind::MultiCoinPerPokemonDamage { per: arg_i16(ps, "per"@, 0i16) })
    } else if name == "flip_until_tails_bonus"@ {
        e == (EffectKind::FlipUntilTailsBonus { per: arg_i16(ps, "per"@, 0i16) })
    } else if name == "multi_coin_bonus"@ {
        e == (EffectKind::MultiCoinBonus { count: arg_u8(ps, "count"@, 1u8), per: arg_i16(ps, "per"@, 0i16) })
    } else if name == "bonus_per_bench"@ {
        e == (EffectKind::BonusPerBench { per: arg_i16(ps, "per"@, 0i16) })
    } else if name == "bonus_per_bench_element"@ {
        (e matches EffectKind::BonusPerBenchElement { per: b_per, element: b_element } && b_per == arg_i16(ps, "per"@, 0i16) && b_element@ == arg_str(ps, "element"@))
    } else if name == "bonus_per_bench_named"@ {
        (e matches EffectKind::BonusPerBenchNamed { per: b_per, name: b_name } && b_per == arg_i16(ps, "per"@, 0i16) && b_name@ == arg_str(ps, "name"@))
    } else if name == "bonus_per_opponent_energy"@ {
        e == (EffectKind::BonusPerOpponentEnergy { per: arg_i16(ps, "per"@, 0i16) })
    } else if name == "bonus_if_extra_water_energy"@ {
        e == (EffectKind::BonusIfExtraWaterEnergy { threshold: arg_i16(ps, "threshold"@, 2i16), bonus: arg_i16(ps, "bonus"@, 0i16) })
    } else if name == "bonus_if_opponent_damaged"@ {
        e == (EffectKind::BonusIfOpponentDamaged { bonus: arg_i16(ps, "bonus"@, 0i16) })
    } else if name == "bonus_if_self_damaged"@ {
        e == (EffectKind::BonusIfSelfDamaged { bonus: arg_i16(ps, "bonus"@, 0i16) })
    } else {
        false
    }
}

fn parse_3(name: &[char], ps: &Params) -> (r: Option<EffectKind>)
    ensures
        r is Some <==> known_3(name@),
        r matches Some(e) ==> parsed_3(e, name@, params_view(*ps)),
{
    if is(name, "move_bench_energy_to_active") {
        Some(EffectKind::MoveBenchEnergyToActive)
    } else if is(name, "move_water_bench_to_active") {
        Some(EffectKind::MoveWaterBenchToActive)
    } else if is(name, "move_all_typed_energy_bench_to_active") {
        let b_element = get_str(ps, "element");
        Some(EffectKind::MoveAllTypedEnergyBenchToActive { element: b_element })
    } else if is(name, "move_all_electric_to_active_named") {
        let b_name = get_str(ps, "name");
        Some(EffectKind::MoveAllElectricToActiveNamed { name: b_name })
    } else if is(name, "change_opponent_energy_type") {
        let b_from = get_str(ps, "from");
        let b_to = get_str(ps, "to");
        Some(EffectKind::ChangeOpponentEnergyType { from: b_from, to: b_to })
    } else if is(name, "opponent_no_energy_next_turn") {
        Some(EffectKind::OpponentNoEnergyNextTurn)
    } else if is(name, "reduce_attack_cost_named") {
        let b_name = get_str(ps, "name");
        let b_amount = get_i16(ps, "amount", 1);
        Some(EffectKind::ReduceAttackCostNamed { name: b_name, amount: b_amount })
    } else if is(name, "coin_flip_bonus_damage") {
        let b_amount = get_i16(ps, "amount", 0);
        Some(EffectKind::CoinFlipBonusDamage { amount: b_amount })
    } else if is(name, "coin_flip_nothing") {
        Some(EffectKind::CoinFlipNothing)
    } else if is(name, "both_coins_bonus") {
        let b_amount = get_i16(ps, "amount", 0);
        Some(EffectKind::BothCoinsBonus { amount: b_amount })
    } else if is(name, "multi_coin_damage") {
        let b_count = get_u8(ps, "count", 1);
        let b_per = get_i16(ps, "per", 0);
        Some(EffectKind::MultiCoinDamage { count: b_count, per: b_per })
    } else if is(name, "flip_until_tails_damage") {
        let b_per = get_i16(ps, "per", 0);
        Some(EffectKind::FlipUntilTailsDamage { per: b_per })
    } else if is(name, "coin_flip_bonus_or_self_damage") {
        let b_bonus = get_i16(ps, "bonus", 0);
        let b_self_damage = get_i16(ps, "self_damage", 0);
        Some(EffectKind::CoinFlipBonusOrSelfDamage { bonus: b_bonus, self_damage: b_self_damage })
    } else if is(name, "multi_coin_per_energy_damage") {
        let b_per = get_i16(ps, "per", 0);
        Some(EffectKind::MultiCoinPerEnergyDamage { per: b_per })
    } else if is(name, "multi_coin_per_typed_energy_damage") {
        let b_per = get_i16(ps, "per", 0);
        let b_energy_type = get_str(ps, "energy_type");
        Some(EffectKind::MultiCoinPerTypedEnergyDamage { per: b_per, energy_type: b_energy_type })
    } else if is(name, "multi_coin_per_pokemon_damage") {
        let b_per = get_i16(ps, "per", 0);
        Some(EffectKind::MultiCoinPerPokemonDamage { per: b_per })
    } else if is(name, "flip_until_tails_bonus") {
        let b_per = get_i16(ps, "per", 0);
        Some(EffectKind::FlipUntilTailsBonus { per: b_per })
    } else if is(name, "multi_coin_bonus") {
        let b_count = get_u8(ps, "count", 1);
        let b_per = get_i16(ps, "per", 0);
        Some(EffectKind::MultiCoinBonus { count: b_count, per: b_per })
    } else if is(name, "bonus_per_bench") {
        let b_per = get_i16(ps, "per", 0);
        Some(EffectKind::BonusPerBench { per: b_per })
    } else if is(name, "bonus_per_bench_element") {
        let b_per = get_i16(ps, "per", 0);
        let b_element = get_str(ps, "element");
        Some(EffectKind::BonusPerBenchElement { per: b_per, element: b_element })
    } else if is(name, "bonus_per_bench_named") {
        let b_per = get_i16(ps, "per", 0);
        let b_name = get_str(ps, "name");
        Some(EffectKind::BonusPerBenchNamed { per: b_per, name: b_name })
    } else if is(name, "bonus_per_opponent_energy") {
        let b_per = get_i16(ps, "per", 0);
        Some(EffectKind::BonusPerOpponentEnergy { per: b_per })
    } else if is(name, "bonus_if_extra_water_energy") {
        let b_threshold = get_i16(ps, "threshold", 2);
        let b_bonus = get_i16(ps, "bonus", 0);
        Some(EffectKind::BonusIfExtraWaterEnergy { threshold: b_threshold, bonus: b_bonus })
    } else if is(name, "bonus_if_opponent_damaged") {
        let b_bonus = get_i16(ps, "bonus", 0);
        Some(EffectKind::BonusIfOpponentDamaged { bonus: b_bonus })
    } else if is(name, "bonus_if_self_damaged") {
        let b_bonus = get_i16(ps, "bonus", 0);
        Some(EffectKind::BonusIfSelfDamaged { bonus: b_bonus })
    } else {
        None
    }
}

/// Names of the effect table, part 5.
pub open spec fn known_4(name: Seq<char>) -> bool {
    name == "bonus_if_opponent_poisoned"@
        || name == "bonus_per_opponent_bench"@
        || name == "bonus_if_tool_attached"@
        || name == "bonus_if_opponent_has_tool"@
        || name == "bonus_if_opponent_ex"@
        || name == "bonus_if_opponent_basic"@
        || name == "bonus_if_opponent_element"@
        || name == "bonus_if_opponent_has_ability"@
        || name == "bonus_if_bench_damaged"@
        || name == "bonus_if_ko_last_turn"@
        || name == "bonus_if_played_supporter"@
        || name == "bonus_if_just_promoted"@
        || name == "bonus_if_opponent_more_hp"@
        || name == "bonus_if_opponent_has_status"@
        || name == "bonus_equal_to_damage_taken"@
        || name == "bonus_if_extra_energy"@
        || name == "bonus_if_named_in_play"@
        || name == "halve_opponent_hp"@
        || name == "double_heads_instant_ko"@
        || name == "switch_opponent_active"@
        || name == "switch_self_to_bench"@
        || name == "switch_self_to_bench_typed"@
        || name == "switch_opponent_basic_to_active"@
        || name == "switch_opponent_damaged_to_active"@
        || name == "switch_ultra_beast"@
}

/// The effect that `name` stands for, part 5.
pub open spec fn parsed_4(e: EffectKind, name: Seq<char>, ps: Seq<(Seq<char>, Seq<char>)>) -> bool {
    if name == "bonus_if_opponent_poisoned"@ {
        e == (EffectKind::BonusIfOpponentPoisoned { bonus: arg_i16(ps, "bonus"@, 0i16) })
    } else if name == "bonus_per_opponent_bench"@ {
        e == (EffectKind::BonusPerOpponentBench { per: arg_i16(ps, "per"@, 0i16) })
    } else if name == "bonus_if_tool_attached"@ {
        e == (EffectKind::BonusIfToolAttached { bonus: arg_i16(ps, "bonus"@, 0i16) })
    } else if name == "bonus_if_opponent_has_tool"@ {
        e == (EffectKind::BonusIfOpponentHasTool { bonus: arg_i16(ps, "bonus"@, 0i16) })
    } else if name == "bonus_if_opponent_ex"@ {
        e == (EffectKind::BonusIfOpponentEx { bonus: arg_i16(ps, "bonus"@, 0i16) })
    } else if name == "bonus_if_opponent_basic"@ {
        e == (EffectKind::BonusIfOpponentBasic { bonus: arg_i16(ps, "bonus"@, 0i16) })
    } else if name == "bonus_if_opponent_element"@ {
        (e matches EffectKind::BonusIfOpponentElement { bonus: b_bonus, element: b_element } && b_bonus == arg_i16(ps, "bonus"@, 0i16) && b_element@ == arg_str(ps, "element"@))
    } else if name == "bonus_if_opponent_has_ability"@ {
        e == (EffectKind::BonusIfOpponentHasAbility { bonus: arg_i16(ps, "bonus"@, 0i16) })
    } else if name == "bonus_if_bench_damaged"@ {
        e == (EffectKind::BonusIfBenchDamaged { bonus: arg_i16(ps, "bonus"@, 0i16) })
    } else if name == "bonus_if_ko_last_turn"@ {
        e == (EffectKind::BonusIfKoLastTurn { bonus: arg_i16(ps, "bonus"@, 0i16) })
    } else if name == "bonus_if_played_supporter"@ {
        e == (EffectKind::BonusIfPlayedSupporter { bonus: arg_i16(ps, "bonus"@, 0i16) })
    } else if name == "bonus_if_just_promoted"@ {
        e == (EffectKind::BonusIfJustPromoted { bonus: arg_i16(ps, "bonus"@, 0i16) })
    } else if name == "bonus_if_opponent_more_hp"@ {
        e == (EffectKind::BonusIfOpponentMoreHp { bonus: arg_i16(ps, "bonus"@, 0i16) })
    } else if name == "bonus_if_opponent_has_status"@ {
        e == (EffectKind::BonusIfOpponentHasStatus { bonus: arg_i16(ps, "bonus"@, 0i16) })
    } else if name == "bonus_equal_to_damage_taken"@ {
        e == EffectKind::BonusEqualToDamageTaken
    } else if name == "bonus_if_extra_energy"@ {
        (e matches EffectKind::BonusIfExtraEnergy { threshold: b_threshold, bonus: b_bonus, energy_type: b_energy_type } && b_threshold == arg_i16(ps, "threshold"@, 2i16) && b_bonus == arg_i16(ps, "bonus"@, 0i16) && b_energy_type@ == arg_str(ps, "energy_type"@))
    } else if name == "bonus_if_named_in_play"@ {
        (e matches EffectKind::BonusIfNamedInPlay { bonus: b_bonus, names: b_names } && b_bonus == arg_i16(ps, "bonus"@, 0i16) && b_names@.map_values(|s: String| s@) == arg_names(ps, "names"@))
    } else if name == "halve_opponent_hp"@ {
        e == EffectKind::HalveOpponentHp
    } else if name == "double_heads_instant_ko"@ {
        e == EffectKind::DoubleHeadsInstantKo
    } else if name == "switch_opponent_active"@ {
        e == EffectKind::SwitchOpponentActive
    } else if name == "switch_self_to_bench"@ {
        e == EffectKind::SwitchSelfToBench
    } else if name == "switch_self_to_bench_typed"@ {
        (e matches EffectKind::SwitchSelfToBenchTyped { element: b_element } && b_element@ == arg_str(ps, "element"@))
    } else if name == "switch_opponent_basic_to_active"@ {
        e == EffectKind::SwitchOpponentBasicToActive
    } else if name == "switch_opponent_damaged_to_active"@ {
        e == EffectKind::SwitchOpponentDamagedToActive
    } else if name == "switch_ultra_beast"@ {
        e == EffectKind::SwitchUltraBeast
    } else {
        false
    }
}

fn parse_4(name: &[char], ps: &Params) -> (r: Option<EffectKind>)
    ensures
        r is Some <==> known_4(name@),
        r matches Some(e) ==> parsed_4(e, name@, params_view(*ps)),
{
    if is(name, "bonus_if_opponent_poisoned") {
        let b_bonus = get_i16(ps, "bonus", 0);
        Some(EffectKind::BonusIfOpponentPoisoned { bonus: b_bonus })
    } else if is(name, "bonus_per_opponent_bench") {
        let b_per = get_i16(ps, "per", 0);
        Some(EffectKind::BonusPerOpponentBench { per: b_per })
    } else if is(name, "bonus_if_tool_attached") {
        let b_bonus = get_i16(ps, "bonus", 0);
        Some(EffectKind::BonusIfToolAttached { bonus: b_bonus })
    } else if is(name, "bonus_if_opponent_has_tool") {
        let b_bonus = get_i16(ps, "bonus", 0);
        Some(EffectKind::BonusIfOpponentHasTool { bonus: b_bonus })
    } else if is(name, "bonus_if_opponent_ex") {
        let b_bonus = get_i16(ps, "bonus", 0);
        Some(EffectKind::BonusIfOpponentEx { bonus: b_bonus })
    } else if is(name, "bonus_if_opponent_basic") {
        let b_bonus = get_i16(ps, "bonus", 0);
        Some(EffectKind::BonusIfOpponentBasic { bonus: b_bonus })
    } else if is(name, "bonus_if_opponent_element") {
        let b_bonus = get_i16(ps, "bonus", 0);
        let b_element = get_str(ps, "element");
        Some(EffectKind::BonusIfOpponentElement { bonus: b_bonus, element: b_element })
    } else if is(name, "bonus_if_opponent_has_ability") {
        let b_bonus = get_i16(ps, "bonus", 0);
        Some(EffectKind::BonusIfOpponentHasAbility { bonus: b_bonus })
    } else if is(name, "bonus_if_bench_damaged") {
        let b_bonus = get_i16(ps, "bonus", 0);
        Some(EffectKind::BonusIfBenchDamaged { bonus: b_bonus })
    } else if is(name, "bonus_if_ko_last_turn") {
        let b_bonus = get_i16(ps, "bonus", 0);
        Some(EffectKind::BonusIfKoLastTurn { bonus: b_bonus })
    } else if is(name, "bonus_if_played_supporter") {
        let b_bonus = get_i16(ps, "bonus", 0);
        Some(EffectKind::BonusIfPlayedSupporter { bonus: b_bonus })
    } else if is(name, "bonus_if_just_promoted") {
        let b_bonus = get_i16(ps, "bonus", 0);
        Some(EffectKind::BonusIfJustPromoted { bonus: b_bonus })
    } else if is(name, "bonus_if_opponent_more_hp") {
        let b_bonus = get_i16(ps, "bonus", 0);
        Some(EffectKind::BonusIfOpponentMoreHp { bonus: b_bonus })
    } else if is(name, "bonus_if_opponent_has_status") {
        let b_bonus = get_i16(ps, "bonus", 0);
        Some(EffectKind::BonusIfOpponentHasStatus { bonus: b_bonus })
    } else if is(name, "bonus_equal_to_damage_taken") {
        Some(EffectKind::BonusEqualToDamageTaken)
    } else if is(name, "bonus_if_extra_energy") {
        let b_threshold = get_i16(ps, "threshold", 2);
        let b_bonus = get_i16(ps, "bonus", 0);
        let b_energy_type = get_str(ps, "energy_type");
        Some(EffectKind::BonusIfExtraEnergy { threshold: b_threshold, bonus: b_bonus, energy_type: b_energy_type })
    } else if is(name, "bonus_if_named_in_play") {
        let b_bonus = get_i16(ps, "bonus", 0);
        let b_names = get_names(ps, "names");
        Some(EffectKind::BonusIfNamedInPlay { bonus: b_bonus, names: b_names })
    } else if is(name, "halve_opponent_hp") {
        Some(EffectKind::HalveOpponentHp)
    } else if is(name, "double_heads_instant_ko") {
        Some(EffectKind::DoubleHeadsInstantKo)
    } else if is(name, "switch_opponent_active") {
        Some(EffectKind::SwitchOpponentActive)
    } else if is(name, "switch_self_to_bench") {
        Some(EffectKind::SwitchSelfToBench)
    } else if is(name, "switch_self_to_bench_typed") {
        let b_element = get_str(ps, "element");
        Some(EffectKind::SwitchSelfToBenchTyped { element: b_element })
    } else if is(name, "switch_opponent_basic_to_active") {
        Some(EffectKind::SwitchOpponentBasicToActive)
    } else if is(name, "switch_opponent_damaged_to_active") {
        Some(EffectKind::SwitchOpponentDamagedToActive)
    } else if is(name, "switch_ultra_beast") {
        Some(EffectKind::SwitchUltraBeast)
    } else {
        None
    }
}

/// Names of the effect table, part 6.
pub open spec fn known_5(name: Seq<char>) -> bool {
    name == "ability_bench_to_active"@
        || name == "coin_flip_bounce_opponent"@
        || name == "return_active_to_hand_named"@
        || name == "return_colorless_to_hand"@
        || name == "place_opponent_basic_from_discard"@
        || name == "shuffle_opponent_active_into_deck"@
        || name == "splash_bench_opponent"@
        || name == "splash_bench_own"@
        || name == "splash_all_opponent"@
        || name == "random_hit_one"@
        || name == "random_multi_hit"@
        || name == "self_damage"@
        || name == "self_damage_on_coin_flip_result"@
        || name == "discard_opponent_tools_before_damage"@
        || name == "discard_all_opponent_tools"@
        || name == "bench_hit_opponent"@
        || name == "move_damage_to_opponent"@
        || name == "cant_retreat_next_turn"@
        || name == "prevent_damage_next_turn"@
        || name == "take_less_damage_next_turn"@
        || name == "defender_attacks_do_less_damage"@
        || name == "opponent_no_supporter_next_turn"@
        || name == "supporter_damage_aura"@
        || name == "supporter_damage_aura_vs_ex"@
        || name == "reduce_retreat_cost"@
}

/// The effect that `name` stands for, part 6.
pub open spec fn parsed_5(e: EffectKind, name: Seq<char>, ps: Seq<(Seq<char>, Seq<char>)>) -> bool {
    if name == "ability_bench_to_active"@ {
        e == EffectKind::AbilityBenchToActive
    } else if name == "coin_flip_bounce_opponent"@ {
        e == EffectKind::CoinFlipBounceOpponent
    } else if name == "return_active_to_hand_named"@ {
        (e matches EffectKind::ReturnActiveToHandNamed { name: b_name } && b_name@ == arg_str(ps, "name"@))
    } else if name == "return_colorless_to_hand"@ {
        e == EffectKind::ReturnColorlessToHand
    } else if name == "place_opponent_basic_from_discard"@ {
        e == EffectKind::PlaceOpponentBasicFromDiscard
    } else if name == "shuffle_opponent_active_into_deck"@ {
        e == EffectKind::ShuffleOpponentActiveIntoDeck
    } else if name == "splash_bench_opponent"@ {
        e == (EffectKind::SplashBenchOpponent { amount: arg_i16(ps, "amount"@, 0i16) })
    } else if name == "splash_bench_own"@ {
        e == (EffectKind::SplashBenchOwn { amount: arg_i16(ps, "amount"@, 0i16) })
    } else if name == "splash_all_opponent"@ {
        e == (EffectKind::SplashAllOpponent { amount: arg_i16(ps, "amount"@, 0i16) })
    } else if name == "random_hit_one"@ {
        e == (EffectKind::RandomHitOne { amount: arg_i16(ps, "amount"@, 0i16) })
    } else if name == "random_multi_hit"@ {
        e == (EffectKind::RandomMultiHit { count: arg_u8(ps, "count"@, 1u8), amount: arg_i16(ps, "amount"@, 0i16) })
    } else if name == "self_damage"@ {
        e == (EffectKind::SelfDamage { amount: arg_i16(ps, "amount"@, 0i16) })
    } else if name == "self_damage_on_coin_flip_result"@ {
        e == (EffectKind::SelfDamageOnCoinFlipResult { amount: arg_i16(ps, "amount"@, 0i16) })
    } else if name == "discard_opponent_tools_before_damage"@ {
        e == EffectKind::DiscardOpponentToolsBeforeDamage
    } else if name == "discard_all_opponent_tools"@ {
        e == EffectKind::DiscardAllOpponentTools
    } else if name == "bench_hit_opponent"@ {
        e == (EffectKind::BenchHitOpponent { amount: arg_i16(ps, "amount"@, 0i16) })
    } else if name == "move_damage_to_opponent"@ {
        e == (EffectKind::MoveDamageToOpponent { amount: arg_i16(ps, "amount"@, 0i16) })
    } else if name == "cant_retreat_next_turn"@ {
        e == EffectKind::CantRetreatNextTurn
    } else if name == "prevent_damage_next_turn"@ {
        e == EffectKind::PreventDamageNextTurn
    } else if name == "take_less_damage_next_turn"@ {
        e == (EffectKind::TakeLessDamageNextTurn { amount: arg_i16(ps, "amount"@, 0i16) })
    } else if name == "defender_attacks_do_less_damage"@ {
        e == (EffectKind::DefenderAttacksDoLessDamage { amount: arg_i16(ps, "amount"@, 0i16) })
    } else if name == "opponent_no_supporter_next_turn"@ {
        e == EffectKind::OpponentNoSupporterNextTurn
    } else if name == "supporter_damage_aura"@ {
        (e matches EffectKind::SupporterDamageAura { amount: b_amount, names: b_names } && b_amount == arg_i16(ps, "amount"@, 0i16) && b_names@.map_values(|s: String| s@) == arg_names(ps, "names"@))
    } else if name == "supporter_damage_aura_vs_ex"@ {
        e == (EffectKind::SupporterDamageAuraVsEx { amount: arg_i16(ps, "amount"@, 0i16) })
    } else if name == "reduce_retreat_cost"@ {
        e == (EffectKind::ReduceRetreatCost { amount: arg_i16(ps, "amount"@, 1i16) })
    } else {
        false
    }
}

fn parse_5(name: &[char], ps: &Params) -> (r: Option<EffectKind>)
    ensures
        r is Some <==> known_5(name@),
        r matches Some(e) ==> parsed_5(e, name@, params_view(*ps)),
{
    if is(name, "ability_bench_to_active") {
        Some(EffectKind::AbilityBenchToActive)
    } else if is(name, "coin_flip_bounce_opponent") {
        Some(EffectKind::CoinFlipBounceOpponent)
    } else if is(name, "return_active_to_hand_named") {
        let b_name = get_str(ps, "name");
        Some(EffectKind::ReturnActiveToHandNamed { name: b_name })
    } else if is(name, "return_colorless_to_hand") {
        Some(EffectKind::ReturnColorlessToHand)
    } else if is(name, "place_opponent_basic_from_discard") {
        Some(EffectKind::PlaceOpponentBasicFromDiscard)
    } else if is(name, "shuffle_opponent_active_into_deck") {
        Some(EffectKind::ShuffleOpponentActiveIntoDeck)
    } else if is(name, "splash_bench_opponent") {
        let b_amount = get_i16(ps, "amount", 0);
        Some(EffectKind::SplashBenchOpponent { amount: b_amount })
    } else if is(name, "splash_bench_own") {
        let b_amount = get_i16(ps, "amount", 0);
        Some(EffectKind::SplashBenchOwn { amount: b_amount })
    } else if is(name, "splash_all_opponent") {
        let b_amount = get_i16(ps, "amount", 0);
        Some(EffectKind::SplashAllOpponent { amount: b_amount })
    } else if is(name, "random_hit_one") {
        let b_amount = get_i16(ps, "amount", 0);
        Some(EffectKind::RandomHitOne { amount: b_amount })
    } else if is(name, "random_multi_hit") {
        let b_count = get_u8(ps, "count", 1);
        let b_amount = get_i16(ps, "amount", 0);
        Some(EffectKind::RandomMultiHit { count: b_count, amount: b_amount })
    } else if is(name, "self_damage") {
        let b_amount = get_i16(ps, "amount", 0);
        Some(EffectKind::SelfDamage { amount: b_amount })
    } else if is(name, "self_damage_on_coin_flip_result") {
        let b_amount = get_i16(ps, "amount", 0);
        Some(EffectKind::SelfDamageOnCoinFlipResult { amount: b_amount })
    } else if is(name, "discard_opponent_tools_before_damage") {
        Some(EffectKind::DiscardOpponentToolsBeforeDamage)
    } else if is(name, "discard_all_opponent_tools") {
        Some(EffectKind::DiscardAllOpponentTools)
    } else if is(name, "bench_hit_opponent") {
        let b_amount = get_i16(ps, "amount", 0);
        Some(EffectKind::BenchHitOpponent { amount: b_amount })
    } else if is(name, "move_damage_to_opponent") {
        let b_amount = get_i16(ps, "amount", 0);
        Some(EffectKind::MoveDamageToOpponent { amount: b_amount })
    } else if is(name, "cant_retreat_next_turn") {
        Some(EffectKind::CantRetreatNextTurn)
    } else if is(name, "prevent_damage_next_turn") {
        Some(EffectKind::PreventDamageNextTurn)
    } else if is(name, "take_less_damage_next_turn") {
        let b_amount = get_i16(ps, "amount", 0);
        Some(EffectKind::TakeLessDamageNextTurn { amount: b_amount })
    } else if is(name, "defender_attacks_do_less_damage") {
        let b_amount = get_i16(ps, "amount", 0);
        Some(EffectKind::DefenderAttacksDoLessDamage { amount: b_amount })
    } else if is(name, "opponent_no_supporter_next_turn") {
        Some(EffectKind::OpponentNoSupporterNextTurn)
    } else if is(name, "supporter_damage_aura") {
        let b_amount = get_i16(ps, "amount", 0);
        let b_names = get_names(ps, "names");
        Some(EffectKind::SupporterDamageAura { amount: b_amount, names: b_names })
    } else if is(name, "supporter_damage_aura_vs_ex") {
        let b_amount = get_i16(ps, "amount", 0);
        Some(EffectKind::SupporterDamageAuraVsEx { amount: b_amount })
    } else if is(name, "reduce_retreat_cost") {
        let b_amount = get_i16(ps, "amount", 1);
        Some(EffectKind::ReduceRetreatCost { amount: b_amount })
    } else {
        None
    }
}

/// Names of the effect table, part 7.
pub open spec fn known_6(name: Seq<char>) -> bool {
    name == "copy_opponent_attack"@
        || name == "coin_flip_shuffle_opponent_card"@
        || name == "multi_coin_shuffle_opponent_cards"@
        || name == "cant_attack_next_turn"@
        || name == "self_cant_attack_next_turn"@
        || name == "coin_flip_self_cant_attack_next_turn"@
        || name == "self_cant_use_specific_attack"@
        || name == "self_attack_buff_next_turn"@
        || name == "take_more_damage_next_turn"@
        || name == "next_turn_all_damage_reduction"@
        || name == "next_turn_metal_damage_reduction"@
        || name == "opponent_cost_increase_next_turn"@
        || name == "opponent_no_items_next_turn"@
        || name == "big_malasada"@
        || name == "mythical_slab"@
        || name == "beast_wall_protection"@
        || name == "rare_candy_evolve"@
        || name == "hp_bonus"@
        || name == "passive_damage_reduction"@
        || name == "passive_retaliate"@
        || name == "passive_block_supporters"@
        || name == "passive_ditto_impostor"@
        || name == "passive_double_grass_energy"@
        || name == "passive_immune_status"@
        || name == "passive_ko_energy_transfer"@
}

/// The effect that `name` stands for, part 7.
pub open spec fn parsed_6(e: EffectKind, name: Seq<char>, ps: Seq<(Seq<char>, Seq<char>)>) -> bool {
    if name == "copy_opponent_attack"@ {
        e == EffectKind::CopyOpponentAttack
    } else if name == "coin_flip_shuffle_opponent_card"@ {
        e == EffectKind::CoinFlipShuffleOpponentCard
    } else if name == "multi_coin_shuffle_opponent_cards"@ {
        e == (EffectKind::MultiCoinShuffleOpponentCards { count: arg_u8(ps, "count"@, 3u8) })
    } else if name == "cant_attack_next_turn"@ {
        e == EffectKind::CantAttackNextTurn
    } else if name == "self_cant_attack_next_turn"@ {
        e == EffectKind::SelfCantAttackNextTurn
    } else if name == "coin_flip_self_cant_attack_next_turn"@ {
        e == EffectKind::CoinFlipSelfCantAttackNextTurn
    } else if name == "self_cant_use_specific_attack"@ {
        (e matches EffectKind::SelfCantUseSpecificAttack { name: b_name } && b_name@ == arg_str(ps, "name"@))
    } else if name == "self_attack_buff_next_turn"@ {
        e == (EffectKind::SelfAttackBuffNextTurn { amount: arg_i16(ps, "amount"@, 0i16) })
    } else if name == "take_more_damage_next_turn"@ {
        e == (EffectKind::TakeMoreDamageNextTurn { amount: arg_i16(ps, "amount"@, 0i16) })
    } else if name == "next_turn_all_damage_reduction"@ {
        e == (EffectKind::NextTurnAllDamageReduction { amount: arg_i16(ps, "amount"@, 0i16) })
    } else if name == "next_turn_metal_damage_reduction"@ {
        e == (EffectKind::NextTurnMetalDamageReduction { amount: arg_i16(ps, "amount"@, 0i16) })
    } else if name == "opponent_cost_increase_next_turn"@ {
        e == (EffectKind::OpponentCostIncreaseNextTurn { amount: arg_i16(ps, "amount"@, 0i16) })
    } else if name == "opponent_no_items_next_turn"@ {
        e == EffectKind::OpponentNoItemsNextTurn
    } else if name == "big_malasada"@ {
        e == EffectKind::BigMalasada
    } else if name == "mythical_slab"@ {
        e == EffectKind::MythicalSlab
    } else if name == "beast_wall_protection"@ {
        e == EffectKind::BeastWallProtection
    } else if name == "rare_candy_evolve"@ {
        e == EffectKind::RareCandyEvolve
    } else if name == "hp_bonus"@ {
        e == (EffectKind::HpBonus { amount: arg_i16(ps, "amount"@, 0i16) })
    } else if name == "passive_damage_reduction"@ {
        e == (EffectKind::PassiveDamageReduction { amount: arg_i16(ps, "amount"@, 0i16) })
    } else if name == "passive_retaliate"@ {
        e == (EffectKind::PassiveRetaliate { amount: arg_i16(ps, "amount"@, 0i16) })
    } else if name == "passive_block_supporters"@ {
        e == EffectKind::PassiveBlockSupporters
    } else if name == "passive_ditto_impostor"@ {
        e == (EffectKind::PassiveDittoImpostor { hp: arg_i16(ps, "hp"@, 0i16) })
    } else if name == "passive_double_grass_energy"@ {
        e == EffectKind::PassiveDoubleGrassEnergy
    } else if name == "passive_immune_status"@ {
        e == EffectKind::PassiveImmuneStatus
    } else if name == "passive_ko_energy_transfer"@ {
        e == EffectKind::PassiveKoEnergyTransfer
    } else {
        false
    }
}

fn parse_6(name: &[char], ps: &Params) -> (r: Option<EffectKind>)
    ensures
        r is Some <==> known_6(name@),
        r matches Some(e) ==> parsed_6(e, name@, params_view(*ps)),
{
    if is(name, "copy_opponent_attack") {
        Some(EffectKind::CopyOpponentAttack)
    } else if is(name, "coin_flip_shuffle_opponent_card") {
        Some(EffectKind::CoinFlipShuffleOpponentCard)
    } else if is(name, "multi_coin_shuffle_opponent_cards") {
        let b_count = get_u8(ps, "count", 3);
        Some(EffectKind::MultiCoinShuffleOpponentCards { count: b_count })
    } else if is(name, "cant_attack_next_turn") {
        Some(EffectKind::CantAttackNextTurn)
    } else if is(name, "self_cant_attack_next_turn") {
        Some(EffectKind::SelfCantAttackNextTurn)
    } else if is(name, "coin_flip_self_cant_attack_next_turn") {
        Some(EffectKind::CoinFlipSelfCantAttackNextTurn)
    } else if is(name, "self_cant_use_specific_attack") {
        let b_name = get_str(ps, "name");
        Some(EffectKind::SelfCantUseSpecificAttack { name: b_name })
    } else if is(name, "self_attack_buff_next_turn") {
        let b_amount = get_i16(ps, "amount", 0);
        Some(EffectKind::SelfAttackBuffNextTurn { amount: b_amount })
    } else if is(name, "take_more_damage_next_turn") {
        let b_amount = get_i16(ps, "amount", 0);
        Some(EffectKind::TakeMoreDamageNextTurn { amount: b_amount })
    } else if is(name, "next_turn_all_damage_reduction") {
        let b_amount = get_i16(ps, "amount", 0);
        Some(EffectKind::NextTurnAllDamageReduction { amount: b_amount })
    } else if is(name, "next_turn_metal_damage_reduction") {
        let b_amount = get_i16(ps, "amount", 0);
        Some(EffectKind::NextTurnMetalDamageReduction { amount: b_amount })
    } else if is(name, "opponent_cost_increase_next_turn") {
        let b_amount = get_i16(ps, "amount", 0);
        Some(EffectKind::OpponentCostIncreaseNextTurn { amount: b_amount })
    } else if is(name, "opponent_no_items_next_turn") {
        Some(EffectKind::OpponentNoItemsNextTurn)
    } else if is(name, "big_malasada") {
        Some(EffectKind::BigMalasada)
    } else if is(name, "mythical_slab") {
        Some(EffectKind::MythicalSlab)
    } else if is(name, "beast_wall_protection") {
        Some(EffectKind::BeastWallProtection)
    } else if is(name, "rare_candy_evolve") {
        Some(EffectKind::RareCandyEvolve)
    } else if is(name, "hp_bonus") {
        let b_amount = get_i16(ps, "amount", 0);
        Some(EffectKind::HpBonus { amount: b_amount })
    } else if is(name, "passive_damage_reduction") {
        let b_amount = get_i16(ps, "amount", 0);
        Some(EffectKind::PassiveDamageReduction { amount: b_amount })
    } else if is(name, "passive_retaliate") {
        let b_amount = get_i16(ps, "amount", 0);
        Some(EffectKind::PassiveRetaliate { amount: b_amount })
    } else if is(name, "passive_block_supporters") {
        Some(EffectKind::PassiveBlockSupporters)
    } else if is(name, "passive_ditto_impostor") {
        let b_hp = get_i16(ps, "hp", 0);
        Some(EffectKind::PassiveDittoImpostor { hp: b_hp })
    } else if is(name, "passive_double_grass_energy") {
        Some(EffectKind::PassiveDoubleGrassEnergy)
    } else if is(name, "passive_immune_status") {
        Some(EffectKind::PassiveImmuneStatus)
    } else if is(name, "passive_ko_energy_transfer") {
        Some(EffectKind::PassiveKoEnergyTransfer)
    } else {
        None
    }
}

/// Names of the effect table, part 8.
pub open spec fn known_7(name: Seq<char>) -> bool {
    name == "passive_survive_ko_coin_flip"@
        || name == "passive_type_damage_boost"@
        || name == "passive_type_damage_reduction"@
        || name == "passive_bench_retreat_reduction"@
        || name == "passive_block_evolution"@
        || name == "passive_checkup_damage"@
        || name == "passive_coin_flip_damage_reduction"@
        || name == "passive_dark_energy_ping"@
        || name == "passive_electrical_cord"@
        || name == "passive_energy_sleep"@
        || name == "passive_first_turn_no_retreat"@
        || name == "passive_free_retreat_with_energy"@
        || name == "passive_ko_retaliate"@
        || name == "passive_lum_berry"@
        || name == "passive_move_damage_to_self"@
        || name == "passive_named_no_retreat"@
        || name == "passive_no_healing"@
        || name == "passive_opponent_attack_cost_increase"@
        || name == "passive_opponent_damage_reduction"@
        || name == "passive_prevent_attack_effects"@
        || name == "passive_prevent_ex_damage"@
        || name == "passive_psychic_cleanse"@
        || name == "passive_retaliate_poison"@
        || name == "passive_arceus_cost_reduction"@
        || name == "passive_arceus_damage_reduction"@
}

/// The effect that `name` stands for, part 8.
pub open spec fn parsed_7(e: EffectKind, name: Seq<char>, ps: Seq<(Seq<char>, Seq<char>)>) -> bool {
    if name == "passive_survive_ko_coin_flip"@ {
        e == EffectKind::PassiveSurviveKoCoinFlip
    } else if name == "passive_type_damage_boost"@ {
        (e matches EffectKind::PassiveTypeDamageBoost { element: b_element, amount: b_amount } && b_element@ == arg_str(ps, "element"@) && b_amount == arg_i16(ps, "amount"@, 0i16))
    } else if name == "passive_type_damage_reduction"@ {
        (e matches EffectKind::PassiveTypeDamageReduction { element: b_element, amount: b_amount } && b_element@ == arg_str(ps, "element"@) && b_amount == arg_i16(ps, "amount"@, 0i16))
    } else if name == "passive_bench_retreat_reduction"@ {
        e == (EffectKind::PassiveBenchRetreatReduction { amount: arg_i16(ps, "amount"@, 0i16) })
    } else if name == "passive_block_evolution"@ {
        e == EffectKind::PassiveBlockEvolution
    } else if name == "passive_checkup_damage"@ {
        e == (EffectKind::PassiveCheckupDamage { amount: arg_i16(ps, "amount"@, 0i16) })
    } else if name == "passive_coin_flip_damage_reduction"@ {
        e == (EffectKind::PassiveCoinFlipDamageReduction { amount: arg_i16(ps, "amount"@, 0i16) })
    } else if name == "passive_dark_energy_ping"@ {
        e == (EffectKind::PassiveDarkEnergyPing { amount: arg_i16(ps, "amount"@, 0i16) })
    } else if name == "passive_electrical_cord"@ {
        e == EffectKind::PassiveElectricalCord
    } else if name == "passive_energy_sleep"@ {
        e == EffectKind::PassiveEnergySleep
    } else if name == "passive_first_turn_no_retreat"@ {
        e == EffectKind::PassiveFirstTurnNoRetreat
    } else if name == "passive_free_retreat_with_energy"@ {
        e == EffectKind::PassiveFreeRetreatWithEnergy
    } else if name == "passive_ko_retaliate"@ {
        e == (EffectKind::PassiveKoRetaliate { amount: arg_i16(ps, "amount"@, 0i16) })
    } else if name == "passive_lum_berry"@ {
        e == EffectKind::PassiveLumBerry
    } else if name == "passive_move_damage_to_self"@ {
        e == EffectKind::PassiveMoveDamageToSelf
    } else if name == "passive_named_no_retreat"@ {
        (e matches EffectKind::PassiveNamedNoRetreat { name: b_name } && b_name@ == arg_str(ps, "name"@))
    } else if name == "passive_no_healing"@ {
        e == EffectKind::PassiveNoHealing
    } else if name == "passive_opponent_attack_cost_increase"@ {
        e == (EffectKind::PassiveOpponentAttackCostIncrease { amount: arg_i16(ps, "amount"@, 0i16) })
    } else if name == "passive_opponent_damage_reduction"@ {
        e == (EffectKind::PassiveOpponentDamageReduction { amount: arg_i16(ps, "amount"@, 0i16) })
    } else if name == "passive_prevent_attack_effects"@ {
        e == EffectKind::PassivePreventAttackEffects
    } else if name == "passive_prevent_ex_damage"@ {
        e == EffectKind::PassivePreventExDamage
    } else if name == "passive_psychic_cleanse"@ {
        e == EffectKind::PassivePsychicCleanse
    } else if name == "passive_retaliate_poison"@ {
        e == EffectKind::PassiveRetaliatePoison
    } else if name == "passive_arceus_cost_reduction"@ {
        e == EffectKind::PassiveArceusCostReduction
    } else if name == "passive_arceus_damage_reduction"@ {
        e == (EffectKind::PassiveArceusDamageReduction { amount: arg_i16(ps, "amount"@, 0i16) })
    } else {
        false
    }
}

fn parse_7(name: &[char], ps: &Params) -> (r: Option<EffectKind>)
    ensures
        r is Some <==> known_7(name@),
        r matches Some(e) ==> parsed_7(e, name@, params_view(*ps)),
{
    if is(name, "passive_survive_ko_coin_flip") {
        Some(EffectKind::PassiveSurviveKoCoinFlip)
    } else if is(name, "passive_type_damage_boost") {
        let b_element = get_str(ps, "element");
        let b_amount = get_i16(ps, "amount", 0);
        Some(EffectKind::PassiveTypeDamageBoost { element: b_element, amount: b_amount })
    } else if is(name, "passive_type_damage_reduction") {
        let b_element = get_str(ps, "element");
        let b_amount = get_i16(ps, "amount", 0);
        Some(EffectKind::PassiveTypeDamageReduction { element: b_element, amount: b_amount })
    } else if is(name, "passive_bench_retreat_reduction") {
        let b_amount = get_i16(ps, "amount", 0);
        Some(EffectKind::PassiveBenchRetreatReduction { amount: b_amount })
    } else if is(name, "passive_block_evolution") {
        Some(EffectKind::PassiveBlockEvolution)
    } else if is(name, "passive_checkup_damage") {
        let b_amount = get_i16(ps, "amount", 0);
        Some(EffectKind::PassiveCheckupDamage { amount: b_amount })
    } else if is(name, "passive_coin_flip_damage_reduction") {
        let b_amount = get_i16(ps, "amount", 0);
        Some(EffectKind::PassiveCoinFlipDamageReduction { amount: b_amount })
    } else if is(name, "passive_dark_energy_ping") {
        let b_amount = get_i16(ps, "amount", 0);
        Some(EffectKind::PassiveDarkEnergyPing { amount: b_amount })
    } else if is(name, "passive_electrical_cord") {
        Some(EffectKind::PassiveElectricalCord)
    } else if is(name, "passive_energy_sleep") {
        Some(EffectKind::PassiveEnergySleep)
    } else if is(name, "passive_first_turn_no_retreat") {
        Some(EffectKind::PassiveFirstTurnNoRetreat)
    } else if is(name, "passive_free_retreat_with_energy") {
        Some(EffectKind::PassiveFreeRetreatWithEnergy)
    } else if is(name, "passive_ko_retaliate") {
        let b_amount = get_i16(ps, "amount", 0);
        Some(EffectKind::PassiveKoRetaliate { amount: b_amount })
    } else if is(name, "passive_lum_berry") {
        Some(EffectKind::PassiveLumBerry)
    } else if is(name, "passive_move_damage_to_self") {
        Some(EffectKind::PassiveMoveDamageToSelf)
    } else if is(name, "passive_named_no_retreat") {
        let b_name = get_str(ps, "name");
        Some(EffectKind::PassiveNamedNoRetreat { name: b_name })
    } else if is(name, "passive_no_healing") {
        Some(EffectKind::PassiveNoHealing)
    } else if is(name, "passive_opponent_attack_cost_increase") {
        let b_amount = get_i16(ps, "amount", 0);
        Some(EffectKind::PassiveOpponentAttackCostIncrease { amount: b_amount })
    } else if is(name, "passive_opponent_damage_reduction") {
        let b_amount = get_i16(ps, "amount", 0);
        Some(EffectKind::PassiveOpponentDamageReduction { amount: b_amount })
    } else if is(name, "passive_prevent_attack_effects") {
        Some(EffectKind::PassivePreventAttackEffects)
    } else if is(name, "passive_prevent_ex_damage") {
        Some(EffectKind::PassivePreventExDamage)
    } else if is(name, "passive_psychic_cleanse") {
        Some(EffectKind::PassivePsychicCleanse)
    } else if is(name, "passive_retaliate_poison") {
        Some(EffectKind::PassiveRetaliatePoison)
    } else if is(name, "passive_arceus_cost_reduction") {
        Some(EffectKind::PassiveArceusCostReduction)
    } else if is(name, "passive_arceus_damage_reduction") {
        let b_amount = get_i16(ps, "amount", 0);
        Some(EffectKind::PassiveArceusDamageReduction { amount: b_amount })
    } else {
        None
    }
}

/// Names of the effect table, part 9.
pub open spec fn known_8(name: Seq<char>) -> bool {
    name == "passive_arceus_no_retreat"@
        || name == "passive_beastite_damage"@
}

/// The effect that `name` stands for, part 9.
pub open spec fn parsed_8(e: EffectKind, name: Seq<char>, ps: Seq<(Seq<char>, Seq<char>)>) -> bool {
    if name == "passive_arceus_no_retreat"@ {
        e == EffectKind::PassiveArceusNoRetreat
    } else if name == "passive_beastite_damage"@ {
        e == (EffectKind::PassiveBeastiteDamage { amount: arg_i16(ps, "amount"@, 0i16) })
    } else {
        false
    }
}

fn parse_8(name: &[char], ps: &Params) -> (r: Option<EffectKind>)
    ensures
        r is Some <==> known_8(name@),
        r matches Some(e) ==> parsed_8(e, name@, params_view(*ps)),
{
    if is(name, "passive_arceus_no_retreat") {
        Some(EffectKind::PassiveArceusNoRetreat)
    } else if is(name, "passive_beastite_damage") {
        let b_amount = get_i16(ps, "amount", 0);
        Some(EffectKind::PassiveBeastiteDamage { amount: b_amount })
    } else {
        None
    }
}

/// The names a handler string may use.
pub open spec fn effect_known(name: Seq<char>) -> bool {
    known_0(name)
        || known_1(name)
        || known_2(name)
        || known_3(name)
        || known_4(name)
        || known_5(name)
        || known_6(name)
        || known_7(name)
        || known_8(name)
}

/// `e` is the effect that `name` stands for with parameters `ps`.
pub open spec fn effect_parsed(e: EffectKind, name: Seq<char>, ps: Seq<(Seq<char>, Seq<char>)>) -> bool {
    if known_0(name) {
        parsed_0(e, name, ps)
    } else if known_1(name) {
        parsed_1(e, name, ps)
    } else if known_2(name) {
        parsed_2(e, name, ps)
    } else if known_3(name) {
        parsed_3(e, name, ps)
    } else if known_4(name) {
        parsed_4(e, name, ps)
    } else if known_5(name) {
        parsed_5(e, name, ps)
    } else if known_6(name) {
        parsed_6(e, name, ps)
    } else if known_7(name) {
        parsed_7(e, name, ps)
    } else if known_8(name) {
        parsed_8(e, name, ps)
    } else {
        false
    }
}

/// The effect that `name` stands for, with parameters `ps`.
pub fn parse_named_effect(name: &[char], ps: &Params) -> (r: Option<EffectKind>)
    ensures
        r is Some <==> effect_known(name@),
        r matches Some(e) ==> effect_parsed(e, name@, params_view(*ps)),
{
    let r0 = parse_0(name, ps);
    if r0.is_some() {
        return r0;
    }
    let r1 = parse_1(name, ps);
    if r1.is_some() {
        return r1;
    }
    let r2 = parse_2(name, ps);
    if r2.is_some() {
        return r2;
    }
    let r3 = parse_3(name, ps);
    if r3.is_some() {
        return r3;
    }
    let r4 = parse_4(name, ps);
    if r4.is_some() {
        return r4;
    }
    let r5 = parse_5(name, ps);
    if r5.is_some() {
        return r5;
    }
    let r6 = parse_6(name, ps);
    if r6.is_some() {
        return r6;
    }
    let r7 = parse_7(name, ps);
    if r7.is_some() {
        return r7;
    }
    let r8 = parse_8(name, ps);
    if r8.is_some() {
        return r8;
    }
    None
}

}
