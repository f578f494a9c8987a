//! Card effects: the effect vocabulary, its parser, and the handlers that
//! apply each effect to a game.
use vstd::prelude::*;
use std::collections::HashMap;
use crate::actions::SlotRef;

pub mod status_handlers;
pub mod damage_mod_handlers;
pub mod search;
pub mod draw_handlers;
pub mod misc_handlers;
pub mod energy_handlers;
pub mod parse;
pub mod parse_names;
pub mod legality;
pub mod legal_parse;
pub mod dispatch;
pub mod damage_calc;
pub mod conservation;

pub use parse::parse_handler_string;


verus! {

/// The entries of an effect context's numeric side table, keyed by the
/// characters of each key.
pub uninterp spec fn extra_entries(m: HashMap<String, i32>) -> Map<Seq<char>, i32>;

/// `HashMap::new` for the side table of an effect context.
#[verifier::external_body]
pub(crate) fn empty_extra() -> (r: HashMap<String, i32>)
    ensures
        extra_entries(r).dom() == Set::<Seq<char>>::empty(),
{
    HashMap::new()
}

/// `HashMap::get` on the side table of an effect context, looked up by the
/// characters of `key`.
#[verifier::external_body]
pub(crate) fn extra_get(m: &HashMap<String, i32>, key: &str) -> (r: Option<i32>)
    ensures
        r == (if extra_entries(*m).contains_key(key@) { Some(extra_entries(*m)[key@]) } else { None }),
{
    m.get(key).copied()
}

/// Who is acting, and which slots an effect concerns.
#[derive(Clone, Debug)]
pub struct EffectContext {
    pub acting_player: usize,
    /// The slot that is the source of the effect (typically the attacking/acting Pokémon).
    pub source_ref: Option<SlotRef>,
    /// The slot that is the target of the effect.
    pub target_ref: Option<SlotRef>,
    /// A second target, for effects that pick two slots.
    pub extra_target_ref: Option<SlotRef>,
    pub extra: HashMap<String, i32>,
}

impl EffectContext {
    /// The side-table value under `key`.
    pub open spec fn extra_value(self, key: Seq<char>) -> Option<i32> {
        if extra_entries(self.extra).contains_key(key) {
            Some(extra_entries(self.extra)[key])
        } else {
            None
        }
    }

    pub fn new(acting_player: usize) -> (r: Self)
        ensures
            r.acting_player == acting_player,
            r.source_ref is None,
            r.target_ref is None,
            r.extra_target_ref is None,
            extra_entries(r.extra).dom() == Set::<Seq<char>>::empty(),
    {
        Self {
            acting_player,
            source_ref: None,
            target_ref: None,
            extra_target_ref: None,
            extra: empty_extra(),
        }
    }

    pub fn with_source(self, src: SlotRef) -> (r: Self)
        ensures
            r == (EffectContext { source_ref: Some(src), ..self }),
    {
        let mut s = self;
        s.source_ref = Some(src);
        s
    }

    pub fn with_target(self, tgt: SlotRef) -> (r: Self)
        ensures
            r == (EffectContext { target_ref: Some(tgt), ..self }),
    {
        let mut s = self;
        s.target_ref = Some(tgt);
        s
    }

    pub fn with_extra_target(self, tgt: SlotRef) -> (r: Self)
        ensures
            r == (EffectContext { extra_target_ref: Some(tgt), ..self }),
    {
        let mut s = self;
        s.extra_target_ref = Some(tgt);
        s
    }
}

/// Every effect a card's handler string can name.
#[derive(Clone, Debug, PartialEq)]
pub enum EffectKind {
    // --- Status effects (12) ---
    ApplyPoison,
    ApplyBurn,
    ApplySleep,
    ApplyParalysis,
    ApplyConfusion,
    ApplyRandomStatus,
    ToxicPoison,
    CoinFlipApplyParalysis,
    CoinFlipApplySleep,
    SelfConfuse,
    SelfSleep,
    CoinFlipAttackBlockNextTurn,

    // --- Heal effects ---
    HealSelf { amount: i16 },
    HealTarget { amount: i16 },
    HealActive { amount: i16 },
    HealAllOwn { amount: i16 },
    HealGrassTarget { amount: i16 },
    HealWaterPokemon { amount: i16 },
    HealStage2Target { amount: i16 },
    HealAndCureStatus { amount: i16 },
    HealSelfEqualToDamageDealt,
    HealAllNamedDiscardEnergy { name: String, amount: i16 },
    HealAllTyped { element: String, amount: i16 },

    // --- Draw effects ---
    DrawCards { count: u8 },
    DrawOneCard,
    DrawBasicPokemon,
    IonoHandShuffle,
    MarsHandShuffle,
    ShuffleHandIntoDeck,
    ShuffleHandDrawOpponentCount,
    DiscardToDraw { count: u8 },
    OpponentShuffleHandDraw { count: u8 },
    SearchDeckNamedBasic { name: String },
    SearchDeckRandomPokemon,
    SearchDeckEvolvesFrom { name: String },
    SearchDeckNamed { name: String },
    SearchDeckGrassPokemon,
    SearchDeckRandomBasic,
    SearchDiscardRandomBasic,
    LookTopOfDeck { count: u8 },
    RevealOpponentHand,
    LookOpponentHand,
    RevealOpponentSupporters,
    FishingNet,
    PokemonCommunication,
    DiscardRandomCardOpponent,
    DiscardRandomToolFromHand,
    DiscardRandomItemFromHand,
    DiscardTopDeck,

    // --- Energy effects ---
    AttachEnergyZoneSelf,
    AttachEnergyZoneBench { count: u8 },
    AttachEnergyZoneBenchBracket { count: u8 },
    AttachEnergyZoneBenchAnyBracket { count: u8 },
    AttachEnergyZoneSelfBracket,
    AttachEnergyZoneNamed { name: String },
    AttachEnergyZoneToGrass,
    AttachNEnergyZoneBench { count: u8 },
    AttachWaterTwoBench,
    AttachColorlessEnergyZoneBench,
    AttachEnergyDiscardNamed { name: String },
    AttachEnergyNamedEndTurn { name: String },
    AbilityAttachEnergyEndTurn,
    CoinFlipUntilTailsAttachEnergy,
    MultiCoinAttachBench { count: u8 },
    LusamineAttach,
    FirstTurnEnergyAttach,
    DiscardEnergySelf,
    DiscardNEnergySelf { count: u8 },
    DiscardAllEnergySelf,
    DiscardAllTypedEnergySelf { element: String },
    CoinFlipDiscardRandomEnergyOpponent,
    DiscardRandomEnergyOpponent,
    DiscardRandomEnergyBothActive,
    DiscardRandomEnergyAllPokemon,
    CoinFlipUntilTailsDiscardEnergy,
    MoveBenchEnergyToActive,
    MoveWaterBenchToActive,
    MoveAllTypedEnergyBenchToActive { element: String },
    MoveAllElectricToActiveNamed { name: String },
    ChangeOpponentEnergyType { from: String, to: String },
    OpponentNoEnergyNextTurn,
    ReduceAttackCostNamed { name: String, amount: i16 },

    // --- Damage modifier effects ---
    CoinFlipBonusDamage { amount: i16 },
    CoinFlipNothing,
    BothCoinsBonus { amount: i16 },
    MultiCoinDamage { count: u8, per: i16 },
    FlipUntilTailsDamage { per: i16 },
    CoinFlipBonusOrSelfDamage { bonus: i16, self_damage: i16 },
    MultiCoinPerEnergyDamage { per: i16 },
    MultiCoinPerTypedEnergyDamage { per: i16, energy_type: String },
    MultiCoinPerPokemonDamage { per: i16 },
    FlipUntilTailsBonus { per: i16 },
    MultiCoinBonus { count: u8, per: i16 },
    BonusPerBench { per: i16 },
    BonusPerBenchElement { per: i16, element: String },
    BonusPerBenchNamed { per: i16, name: String },
    BonusPerOpponentEnergy { per: i16 },
    BonusIfExtraWaterEnergy { threshold: i16, bonus: i16 },
    BonusIfOpponentDamaged { bonus: i16 },
    BonusIfSelfDamaged { bonus: i16 },
    BonusIfOpponentPoisoned { bonus: i16 },
    BonusPerOpponentBench { per: i16 },
    BonusIfToolAttached { bonus: i16 },
    BonusIfOpponentHasTool { bonus: i16 },
    BonusIfOpponentEx { bonus: i16 },
    BonusIfOpponentBasic { bonus: i16 },
    BonusIfOpponentElement { bonus: i16, element: String },
    BonusIfOpponentHasAbility { bonus: i16 },
    BonusIfBenchDamaged { bonus: i16 },
    BonusIfKoLastTurn { bonus: i16 },
    BonusIfPlayedSupporter { bonus: i16 },
    BonusIfJustPromoted { bonus: i16 },
    BonusIfOpponentMoreHp { bonus: i16 },
    BonusIfOpponentHasStatus { bonus: i16 },
    BonusEqualToDamageTaken,
    BonusIfExtraEnergy { threshold: i16, bonus: i16, energy_type: String },
    BonusIfNamedInPlay { bonus: i16, names: Vec<String> },
    HalveOpponentHp,
    DoubleHeadsInstantKo,

    // --- Movement effects ---
    SwitchOpponentActive,
    SwitchSelfToBench,
    SwitchSelfToBenchTyped { element: String },
    SwitchOpponentBasicToActive,
    SwitchOpponentDamagedToActive,
    SwitchUltraBeast,
    AbilityBenchToActive,
    CoinFlipBounceOpponent,
    ReturnActiveToHandNamed { name: String },
    ReturnColorlessToHand,
    PlaceOpponentBasicFromDiscard,
    ShuffleOpponentActiveIntoDeck,

    // --- Damage effects ---
    SplashBenchOpponent { amount: i16 },
    SplashBenchOwn { amount: i16 },
    SplashAllOpponent { amount: i16 },
    RandomHitOne { amount: i16 },
    RandomMultiHit { count: u8, amount: i16 },
    SelfDamage { amount: i16 },
    SelfDamageOnCoinFlipResult { amount: i16 },
    DiscardOpponentToolsBeforeDamage,
    DiscardAllOpponentTools,
    BenchHitOpponent { amount: i16 },
    MoveDamageToOpponent { amount: i16 },

    // --- Misc effects ---
    CantRetreatNextTurn,
    PreventDamageNextTurn,
    TakeLessDamageNextTurn { amount: i16 },
    DefenderAttacksDoLessDamage { amount: i16 },
    OpponentNoSupporterNextTurn,
    SupporterDamageAura { amount: i16, names: Vec<String> },
    SupporterDamageAuraVsEx { amount: i16 },
    ReduceRetreatCost { amount: i16 },
    CopyOpponentAttack,
    CoinFlipShuffleOpponentCard,
    MultiCoinShuffleOpponentCards { count: u8 },
    CantAttackNextTurn,
    SelfCantAttackNextTurn,
    CoinFlipSelfCantAttackNextTurn,
    SelfCantUseSpecificAttack { name: String },
    SelfAttackBuffNextTurn { amount: i16 },
    TakeMoreDamageNextTurn { amount: i16 },
    NextTurnAllDamageReduction { amount: i16 },
    NextTurnMetalDamageReduction { amount: i16 },
    OpponentCostIncreaseNextTurn { amount: i16 },
    OpponentNoItemsNextTurn,
    BigMalasada,
    MythicalSlab,
    BeastWallProtection,
    RareCandyEvolve,
    HpBonus { amount: i16 },

    // --- Passive ability effects ---
    PassiveDamageReduction { amount: i16 },
    PassiveRetaliate { amount: i16 },
    PassiveBlockSupporters,
    PassiveDittoImpostor { hp: i16 },
    PassiveDoubleGrassEnergy,
    PassiveImmuneStatus,
    PassiveKoEnergyTransfer,
    PassiveSurviveKoCoinFlip,
    PassiveTypeDamageBoost { element: String, amount: i16 },
    PassiveTypeDamageReduction { element: String, amount: i16 },
    PassiveBenchRetreatReduction { amount: i16 },
    PassiveBlockEvolution,
    PassiveCheckupDamage { amount: i16 },
    PassiveCoinFlipDamageReduction { amount: i16 },
    PassiveDarkEnergyPing { amount: i16 },
    PassiveElectricalCord,
    PassiveEnergySleep,
    PassiveFirstTurnNoRetreat,
    PassiveFreeRetreatWithEnergy,
    PassiveKoRetaliate { amount: i16 },
    PassiveLumBerry,
    PassiveMoveDamageToSelf,
    PassiveNamedNoRetreat { name: String },
    PassiveNoHealing,
    PassiveOpponentAttackCostIncrease { amount: i16 },
    PassiveOpponentDamageReduction { amount: i16 },
    PassivePreventAttackEffects,
    PassivePreventExDamage,
    PassivePsychicCleanse,
    PassiveRetaliatePoison,
    PassiveArceusCostReduction,
    PassiveArceusDamageReduction { amount: i16 },
    PassiveArceusNoRetreat,
    PassiveBeastiteDamage { amount: i16 },
}

}
