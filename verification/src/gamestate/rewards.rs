use vstd::prelude::*;

use crate::command::{AttributeType, ShopType};
use crate::error::{SFError, short_err};
use crate::gamestate::character::{Class, Mount};
use crate::gamestate::dungeons::LightDungeon;
use crate::gamestate::items::{PetItem, PotionType};
use crate::gamestate::short_error_in;
use crate::gamestate::tavern::Location;
use crate::gamestate::unlockables::HabitatType;
use crate::misc::{cget, csiget_u32, csiget_u64, ciget_u32, skip, soft_u32, soft_u64, i64_to_string, signed_decimal_text};

verus! {

/// The type of a task.
#[derive(Debug, Clone, Copy, PartialEq, Eq, Structural, Hash)]
pub enum TaskType {
    AddSocketToItem,
    BlacksmithDismantle,
    BuyHourGlasses,
    BuyOfferFromArenaManager,
    ClaimSoulsFromExtractor,
    CollectGoldFromPit,
    ConsumeThirstForAdventure,
    ConsumeThirstFromUnderworld,
    DefeatGambler,
    DrinkBeer,
    EarnMoneyCityGuard,
    EarnMoneyFromHoFFights,
    EarnMoneySellingItems,
    EnterDemonPortal,
    FeedPets,
    FightGuildHydra,
    FightGuildPortal,
    FightInDungeons,
    FightInPetHabitat,
    FightMonsterInLegendaryDungeon,
    FightOtherPets,
    FillMushroomsInAdventuromatic,
    FindGemInFortress,
    GainArcaneFromDismantle,
    GainEpic,
    GainHonorExpeditions,
    GainHonorFortress,
    GainHonorInArena,
    GainHonorInHoF,
    GainLegendaryFromLegendaryDungeon,
    GainMetalFromDismantle,
    GainSilver,
    GainSilverFromFightsInHoF,
    GainXP,
    GainXpFromAcademy,
    GainXpFromAdventuromatic,
    GainXpFromArenaFights,
    GainXpFromQuests,
    GetLuckyCoinsFromFlyingTube,
    GuildReadyFight,
    LureHeroesIntoUnderworld,
    PlayGameOfDice,
    RequestNewGoods,
    SacrificeRunes,
    SkipGameOfDiceWait,
    SkipQuest,
    SpendGoldInShop,
    SpendGoldOnUpgrades,
    SpinWheelOfFortune,
    ThrowEpicInToilet,
    ThrowItemInCauldron,
    ThrowItemInToilet,
    TravelTo(Location),
    Upgrade(AttributeType),
    UpgradeAnyAttribute,
    UpgradeArenaManager,
    UpgradeItemAttributes,
    WinFightsPlayerPet,
    WinFightsAgainst(Class),
    WinFightsBackToBack,
    WinFightsBareHands,
    WinFightsInArena,
    WinFightsInHoF,
    WinFightsNoChestplate,
    WinFightsNoEpicsLegendaries,
    WinFightsNoGear,
    LeaseMount,
    DefeatMonstersLightDungeon(LightDungeon),
    BuyWeaponInWeaponsShop,
    FightHigherRankedPlayer,
    AddFriend,
    ClaimNewCustomerPack,
    JoinOrCreateGuild,
    UpgradeAnyGuildSkill,
    CityGuardHours,
    DrinkPotion(PotionType),
    BuyFromShop(ShopType),
    FindFruitsOnExpedition,
    BrewPotions,
    CollectWood,
    CollectStone,
    CommandFortressBattle,
    FightHellevator,
    BuyHellevatorTreats,
    DefeatHellevatorFloors,
    EnterLegendaryDungeon,
    OpenLegendaryDungeonCrateChests,
    FeedPetType(HabitatType),
    SpendCardsHellevator,
    Unknown,
}

impl TaskType {
    /// The task type with the number the server uses for it.
    pub open spec fn spec_parse(num: i64) -> TaskType {
        match num {
            1 => TaskType::DrinkBeer,
            2 => TaskType::ConsumeThirstForAdventure,
            3 => TaskType::WinFightsInArena,
            4 => TaskType::SpinWheelOfFortune,
            5 => TaskType::FightGuildHydra,
            6 => TaskType::FightGuildPortal,
            7 => TaskType::FeedPets,
            8 => TaskType::FightOtherPets,
            9 => TaskType::BlacksmithDismantle,
            10 => TaskType::ThrowItemInToilet,
            11 => TaskType::PlayGameOfDice,
            12 => TaskType::LureHeroesIntoUnderworld,
            13 => TaskType::EnterDemonPortal,
            14 => TaskType::DefeatGambler,
            15 => TaskType::Upgrade(AttributeType::Strength),
            16 => TaskType::Upgrade(AttributeType::Dexterity),
            17 => TaskType::Upgrade(AttributeType::Intelligence),
            18 => TaskType::ConsumeThirstFromUnderworld,
            19 => TaskType::GuildReadyFight,
            20 => TaskType::FindGemInFortress,
            21 => TaskType::ThrowItemInCauldron,
            22 => TaskType::FightInPetHabitat,
            23 => TaskType::UpgradeArenaManager,
            24 => TaskType::SacrificeRunes,
            25 | 26 | 27 | 28 | 29 | 30 | 31 | 32 | 33 | 34 | 35 | 36 | 37 | 38 | 39 | 40 | 41 | 42 | 43 | 44 | 45 => match Location::spec_from_i64((num - 24) as i64) {
                Some(location) => TaskType::TravelTo(location),
                None => TaskType::Unknown,
            },
            46 => TaskType::ThrowEpicInToilet,
            47 => TaskType::BuyOfferFromArenaManager,
            48 => TaskType::WinFightsAgainst(Class::Warrior),
            49 => TaskType::WinFightsAgainst(Class::Mage),
            50 => TaskType::WinFightsAgainst(Class::Scout),
            51 => TaskType::WinFightsAgainst(Class::Assassin),
            52 => TaskType::WinFightsAgainst(Class::Druid),
            53 => TaskType::WinFightsAgainst(Class::Bard),
            54 => TaskType::WinFightsAgainst(Class::BattleMage),
            55 => TaskType::WinFightsAgainst(Class::Berserker),
            56 => TaskType::WinFightsAgainst(Class::DemonHunter),
            57 => TaskType::WinFightsBareHands,
            58 => TaskType::WinFightsPlayerPet,
            59 => TaskType::GetLuckyCoinsFromFlyingTube,
            60 => TaskType::Upgrade(AttributeType::Luck),
            61 => TaskType::GainHonorInArena,
            62 => TaskType::GainHonorInHoF,
            63 => TaskType::GainHonorFortress,
            64 => TaskType::GainHonorExpeditions,
            65 => TaskType::SpendGoldInShop,
            66 => TaskType::SpendGoldOnUpgrades,
            67 => TaskType::RequestNewGoods,
            68 => TaskType::BuyHourGlasses,
            69 => TaskType::SkipQuest,
            70 => TaskType::SkipGameOfDiceWait,
            71 => TaskType::WinFightsInHoF,
            72 => TaskType::WinFightsBackToBack,
            73 => TaskType::SpendCardsHellevator,
            74 => TaskType::GainSilverFromFightsInHoF,
            75 => TaskType::WinFightsNoChestplate,
            76 => TaskType::WinFightsNoGear,
            77 => TaskType::WinFightsNoEpicsLegendaries,
            78 => TaskType::EarnMoneyCityGuard,
            79 => TaskType::EarnMoneyFromHoFFights,
            80 => TaskType::EarnMoneySellingItems,
            81 => TaskType::CollectGoldFromPit,
            82 => TaskType::GainXpFromQuests,
            83 => TaskType::GainXpFromAcademy,
            84 => TaskType::GainXpFromArenaFights,
            85 => TaskType::GainXpFromAdventuromatic,
            86 => TaskType::GainArcaneFromDismantle,
            87 => TaskType::GainMetalFromDismantle,
            88 => TaskType::UpgradeItemAttributes,
            89 => TaskType::AddSocketToItem,
            90 => TaskType::ClaimSoulsFromExtractor,
            91 => TaskType::FillMushroomsInAdventuromatic,
            92 => TaskType::WinFightsAgainst(Class::Necromancer),
            93 => TaskType::GainLegendaryFromLegendaryDungeon,
            94 => TaskType::FightMonsterInLegendaryDungeon,
            95 => TaskType::FightInDungeons,
            96 => TaskType::UpgradeAnyAttribute,
            97 => TaskType::GainSilver,
            98 => TaskType::GainXP,
            99 => TaskType::GainEpic,
            100 => TaskType::BuyFromShop(ShopType::Magic),
            101 => TaskType::BuyFromShop(ShopType::Weapon),
            102 => TaskType::FindFruitsOnExpedition,
            103 => TaskType::BrewPotions,
            104 => TaskType::CollectWood,
            105 => TaskType::CollectStone,
            106 => TaskType::CommandFortressBattle,
            107 => TaskType::FightHellevator,
            108 => TaskType::BuyHellevatorTreats,
            109 => TaskType::DefeatHellevatorFloors,
            110 => TaskType::EnterLegendaryDungeon,
            111 => TaskType::OpenLegendaryDungeonCrateChests,
            112 => TaskType::FeedPetType(HabitatType::Shadow),
            113 => TaskType::FeedPetType(HabitatType::Light),
            114 => TaskType::FeedPetType(HabitatType::Earth),
            115 => TaskType::FeedPetType(HabitatType::Fire),
            116 => TaskType::FeedPetType(HabitatType::Water),
            117 => TaskType::DefeatMonstersLightDungeon(LightDungeon::TrainingCamp),
            118 => TaskType::ClaimNewCustomerPack,
            119 => TaskType::JoinOrCreateGuild,
            120 => TaskType::UpgradeAnyGuildSkill,
            121 => TaskType::AddFriend,
            122 => TaskType::DrinkPotion(PotionType::Constitution),
            123 => TaskType::DrinkPotion(PotionType::Strength),
            124 => TaskType::DrinkPotion(PotionType::Dexterity),
            125 => TaskType::DrinkPotion(PotionType::Intelligence),
            126 => TaskType::DrinkPotion(PotionType::EternalLife),
            127 => TaskType::LeaseMount,
            128 => TaskType::FightHigherRankedPlayer,
            129 => TaskType::CityGuardHours,
            130 => TaskType::BuyWeaponInWeaponsShop,
            131 => TaskType::Upgrade(AttributeType::Constitution),
            _ => TaskType::Unknown,
        }
    }

    /// The task type with the number the server uses for it; unknown
    /// numbers give `TaskType::Unknown`.
    pub fn parse(num: i64) -> (r: TaskType)
        ensures
            r == Self::spec_parse(num),
    {
        match num {
            1 => TaskType::DrinkBeer,
            2 => TaskType::ConsumeThirstForAdventure,
            3 => TaskType::WinFightsInArena,
            4 => TaskType::SpinWheelOfFortune,
            5 => TaskType::FightGuildHydra,
            6 => TaskType::FightGuildPortal,
            7 => TaskType::FeedPets,
            8 => TaskType::FightOtherPets,
            9 => TaskType::BlacksmithDismantle,
            10 => TaskType::ThrowItemInToilet,
            11 => TaskType::PlayGameOfDice,
            12 => TaskType::LureHeroesIntoUnderworld,
            13 => TaskType::EnterDemonPortal,
            14 => TaskType::DefeatGambler,
            15 => TaskType::Upgrade(AttributeType::Strength),
            16 => TaskType::Upgrade(AttributeType::Dexterity),
            17 => TaskType::Upgrade(AttributeType::Intelligence),
            18 => TaskType::ConsumeThirstFromUnderworld,
            19 => TaskType::GuildReadyFight,
            20 => TaskType::FindGemInFortress,
            21 => TaskType::ThrowItemInCauldron,
            22 => TaskType::FightInPetHabitat,
            23 => TaskType::UpgradeArenaManager,
            24 => TaskType::SacrificeRunes,
            25..=45 => match Location::from_i64(num - 24) {
                Some(location) => TaskType::TravelTo(location),
                None => TaskType::Unknown,
            },
            46 => TaskType::ThrowEpicInToilet,
            47 => TaskType::BuyOfferFromArenaManager,
            48 => TaskType::WinFightsAgainst(Class::Warrior),
            49 => TaskType::WinFightsAgainst(Class::Mage),
            50 => TaskType::WinFightsAgainst(Class::Scout),
            51 => TaskType::WinFightsAgainst(Class::Assassin),
            52 => TaskType::WinFightsAgainst(Class::Druid),
            53 => TaskType::WinFightsAgainst(Class::Bard),
            54 => TaskType::WinFightsAgainst(Class::BattleMage),
            55 => TaskType::WinFightsAgainst(Class::Berserker),
            56 => TaskType::WinFightsAgainst(Class::DemonHunter),
            57 => TaskType::WinFightsBareHands,
            58 => TaskType::WinFightsPlayerPet,
            59 => TaskType::GetLuckyCoinsFromFlyingTube,
            60 => TaskType::Upgrade(AttributeType::Luck),
            61 => TaskType::GainHonorInArena,
            62 => TaskType::GainHonorInHoF,
            63 => TaskType::GainHonorFortress,
            64 => TaskType::GainHonorExpeditions,
            65 => TaskType::SpendGoldInShop,
            66 => TaskType::SpendGoldOnUpgrades,
            67 => TaskType::RequestNewGoods,
            68 => TaskType::BuyHourGlasses,
            69 => TaskType::SkipQuest,
            70 => TaskType::SkipGameOfDiceWait,
            71 => TaskType::WinFightsInHoF,
            72 => TaskType::WinFightsBackToBack,
            73 => TaskType::SpendCardsHellevator,
            74 => TaskType::GainSilverFromFightsInHoF,
            75 => TaskType::WinFightsNoChestplate,
            76 => TaskType::WinFightsNoGear,
            77 => TaskType::WinFightsNoEpicsLegendaries,
            78 => TaskType::EarnMoneyCityGuard,
            79 => TaskType::EarnMoneyFromHoFFights,
            80 => TaskType::EarnMoneySellingItems,
            81 => TaskType::CollectGoldFromPit,
            82 => TaskType::GainXpFromQuests,
            83 => TaskType::GainXpFromAcademy,
            84 => TaskType::GainXpFromArenaFights,
            85 => TaskType::GainXpFromAdventuromatic,
            86 => TaskType::GainArcaneFromDismantle,
            87 => TaskType::GainMetalFromDismantle,
            88 => TaskType::UpgradeItemAttributes,
            89 => TaskType::AddSocketToItem,
            90 => TaskType::ClaimSoulsFromExtractor,
            91 => TaskType::FillMushroomsInAdventuromatic,
            92 => TaskType::WinFightsAgainst(Class::Necromancer),
            93 => TaskType::GainLegendaryFromLegendaryDungeon,
            94 => TaskType::FightMonsterInLegendaryDungeon,
            95 => TaskType::FightInDungeons,
            96 => TaskType::UpgradeAnyAttribute,
            97 => TaskType::GainSilver,
            98 => TaskType::GainXP,
            99 => TaskType::GainEpic,
            100 => TaskType::BuyFromShop(ShopType::Magic),
            101 => TaskType::BuyFromShop(ShopType::Weapon),
            102 => TaskType::FindFruitsOnExpedition,
            103 => TaskType::BrewPotions,
            104 => TaskType::CollectWood,
            105 => TaskType::CollectStone,
            106 => TaskType::CommandFortressBattle,
            107 => TaskType::FightHellevator,
            108 => TaskType::BuyHellevatorTreats,
            109 => TaskType::DefeatHellevatorFloors,
            110 => TaskType::EnterLegendaryDungeon,
            111 => TaskType::OpenLegendaryDungeonCrateChests,
            112 => TaskType::FeedPetType(HabitatType::Shadow),
            113 => TaskType::FeedPetType(HabitatType::Light),
            114 => TaskType::FeedPetType(HabitatType::Earth),
            115 => TaskType::FeedPetType(HabitatType::Fire),
            116 => TaskType::FeedPetType(HabitatType::Water),
            117 => TaskType::DefeatMonstersLightDungeon(LightDungeon::TrainingCamp),
            118 => TaskType::ClaimNewCustomerPack,
            119 => TaskType::JoinOrCreateGuild,
            120 => TaskType::UpgradeAnyGuildSkill,
            121 => TaskType::AddFriend,
            122 => TaskType::DrinkPotion(PotionType::Constitution),
            123 => TaskType::DrinkPotion(PotionType::Strength),
            124 => TaskType::DrinkPotion(PotionType::Dexterity),
            125 => TaskType::DrinkPotion(PotionType::Intelligence),
            126 => TaskType::DrinkPotion(PotionType::EternalLife),
            127 => TaskType::LeaseMount,
            128 => TaskType::FightHigherRankedPlayer,
            129 => TaskType::CityGuardHours,
            130 => TaskType::BuyWeaponInWeaponsShop,
            131 => TaskType::Upgrade(AttributeType::Constitution),
            _ => TaskType::Unknown,
        }
    }
}

/// Something to do to get a point reward.
#[derive(Debug, Clone, Copy, PartialEq, Eq, Structural)]
pub struct Task {
    /// The thing to do or to get
    pub typ: TaskType,
    /// The amount of times, or the amount of `typ` you have currently
    pub current: u64,
    /// The amount that `current` must reach
    pub target: u64,
    /// The points that completing it gives
    pub point_reward: u32,
}

impl Task {
    /// Whether the task is completed: its current amount reached its target.
    pub open spec fn spec_is_completed(self) -> bool {
        self.current >= self.target
    }

    /// Whether the task is completed: its current amount reached its target.
    pub fn is_completed(&self) -> (r: bool)
        ensures
            r == self.spec_is_completed(),
    {
        self.current >= self.target
    }

    /// Parses a task from four values: type, current amount, target amount
    /// and point reward.
    pub fn parse(data: &[i64]) -> (r: Result<Task, SFError>)
        ensures
            data@.len() >= 4 ==> r == Ok::<Task, SFError>(
                Task {
                    typ: TaskType::spec_parse(data@[0]),
                    current: soft_u64(data@[1], 0),
                    target: soft_u64(data@[2], u64::MAX),
                    point_reward: soft_u32(data@[3], 0),
                },
            ),
            data@.len() < 4 ==> r is Err,
    {
        let raw_typ = cget(data, 0, "task typ")?;
        let typ = TaskType::parse(raw_typ);
        Ok(Task {
            typ,
            current: csiget_u64(data, 1, "current ti", 0)?,
            target: csiget_u64(data, 2, "target ti", 18446744073709551615)?,
            point_reward: csiget_u32(data, 3, "reward ti", 0)?,
        })
    }
}

/// The type of a reward of a chest.
#[derive(Debug, Clone, Copy, PartialEq, Eq, Structural, Hash)]
pub enum RewardType {
    HellevatorPoints,
    HellevatorCards,
    Mushrooms,
    Silver,
    LuckyCoins,
    Wood,
    Stone,
    Arcane,
    Metal,
    Souls,
    Fruit(HabitatType),
    LegendaryGem,
    GoldFidget,
    SilverFidget,
    BronzeFidget,
    Gem,
    FruitBasket,
    XP,
    Egg,
    QuicksandGlass,
    Honor,
    Beer,
    Frame,
    Mount(Mount),
    Unknown,
}

impl RewardType {
    /// The reward type with the number the server uses for it.
    pub open spec fn spec_parse(val: i64) -> RewardType {
        match val {
            1 => RewardType::HellevatorPoints,
            2 => RewardType::HellevatorCards,
            3 => RewardType::Mushrooms,
            4 => RewardType::Silver,
            5 => RewardType::LuckyCoins,
            6 => RewardType::Wood,
            7 => RewardType::Stone,
            8 => RewardType::Arcane,
            9 => RewardType::Metal,
            10 => RewardType::Souls,
            11 => RewardType::Fruit(HabitatType::Shadow),
            12 => RewardType::Fruit(HabitatType::Light),
            13 => RewardType::Fruit(HabitatType::Earth),
            14 => RewardType::Fruit(HabitatType::Fire),
            15 => RewardType::Fruit(HabitatType::Water),
            16 => RewardType::LegendaryGem,
            17 => RewardType::GoldFidget,
            18 => RewardType::SilverFidget,
            19 => RewardType::BronzeFidget,
            20 | 21 | 22 => RewardType::Gem,
            23 => RewardType::FruitBasket,
            24 => RewardType::XP,
            25 => RewardType::Egg,
            26 => RewardType::QuicksandGlass,
            27 => RewardType::Honor,
            28 => RewardType::Beer,
            29 => RewardType::Frame,
            30 => RewardType::Mount(Mount::Cow),
            31 => RewardType::Mount(Mount::Horse),
            32 => RewardType::Mount(Mount::Tiger),
            33 => RewardType::Mount(Mount::Dragon),
            _ => RewardType::Unknown,
        }
    }

    /// The reward type with the number the server uses for it; unknown
    /// numbers give `RewardType::Unknown`.
    pub fn parse(val: i64) -> (r: RewardType)
        ensures
            r == Self::spec_parse(val),
    {
        match val {
            1 => RewardType::HellevatorPoints,
            2 => RewardType::HellevatorCards,
            3 => RewardType::Mushrooms,
            4 => RewardType::Silver,
            5 => RewardType::LuckyCoins,
            6 => RewardType::Wood,
            7 => RewardType::Stone,
            8 => RewardType::Arcane,
            9 => RewardType::Metal,
            10 => RewardType::Souls,
            11 => RewardType::Fruit(HabitatType::Shadow),
            12 => RewardType::Fruit(HabitatType::Light),
            13 => RewardType::Fruit(HabitatType::Earth),
            14 => RewardType::Fruit(HabitatType::Fire),
            15 => RewardType::Fruit(HabitatType::Water),
            16 => RewardType::LegendaryGem,
            17 => RewardType::GoldFidget,
            18 => RewardType::SilverFidget,
            19 => RewardType::BronzeFidget,
            20..=22 => RewardType::Gem,
            23 => RewardType::FruitBasket,
            24 => RewardType::XP,
            25 => RewardType::Egg,
            26 => RewardType::QuicksandGlass,
            27 => RewardType::Honor,
            28 => RewardType::Beer,
            29 => RewardType::Frame,
            30 => RewardType::Mount(Mount::Cow),
            31 => RewardType::Mount(Mount::Horse),
            32 => RewardType::Mount(Mount::Tiger),
            33 => RewardType::Mount(Mount::Dragon),
            _ => RewardType::Unknown,
        }
    }
}

/// The reward for opening a chest.
#[derive(Debug, Clone, Copy, PartialEq, Eq, Structural)]
pub struct Reward {
    /// The type of the thing you are getting
    pub typ: RewardType,
    /// The amount of `typ` you get
    pub amount: u64,
}

impl Reward {
    /// The reward that a (type, amount) pair describes.
    pub open spec fn spec_parse(d: Seq<i64>) -> Reward {
        Reward { typ: RewardType::spec_parse(d[0]), amount: soft_u64(d[1], 0) }
    }

    /// Parses a reward from a (type, amount) pair.
    pub fn parse(data: &[i64]) -> (r: Result<Reward, SFError>)
        ensures
            data@.len() >= 2 ==> r == Ok::<Reward, SFError>(Self::spec_parse(data@)),
            data@.len() < 2 ==> r is Err,
    {
        Ok(Reward {
            typ: RewardType::parse(cget(data, 0, "reward typ")?),
            amount: csiget_u64(data, 1, "reward amount", 0)?,
        })
    }
}

/// Something you can unlock by completing tasks.
#[derive(Debug, Clone)]
pub struct RewardChest {
    /// Whether or not this chest has been unlocked
    pub opened: bool,
    /// The amount of points required to open this chest
    pub required_points: u32,
    /// The things you will get for opening this chest
    pub rewards: Vec<Reward>,
}

impl Default for RewardChest {
    fn default() -> (r: Self)
        ensures
            !r.opened && r.required_points == 0 && r.rewards@.len() == 0,
    {
        RewardChest { opened: false, required_points: 0, rewards: Vec::new() }
    }
}

impl RewardChest {
    /// The number of values a chest description `d` takes: three, then two
    /// per reward.
    pub open spec fn spec_len(d: Seq<i64>) -> int {
        3 + 2 * d[2]
    }

    /// Whether `d` describes a chest completely: its header values fit and
    /// all of its rewards are there.
    pub open spec fn spec_valid(d: Seq<i64>) -> bool {
        d.len() >= 3 && 0 <= d[1] <= u32::MAX && 0 <= d[2] <= u32::MAX && d.len()
            >= Self::spec_len(d)
    }

    /// Parses a chest: whether it is opened, its required points, the
    /// number of its rewards, then the rewards as (type, amount) pairs.
    pub fn parse(data: &[i64]) -> (r: Result<RewardChest, SFError>)
        ensures
            Self::spec_valid(data@) <==> r is Ok,
            r matches Ok(c) ==> c.opened == (data@[0] != 0) && c.required_points == data@[1]
                && c.rewards@.len() == data@[2] && forall|i: int|
                0 <= i < data@[2] ==> #[trigger] c.rewards@[i] == Reward::spec_parse(
                    data@.subrange(3 + 2 * i, data@.len() as int),
                ),
    {
        let opened = cget(data, 0, "rchest opened")? != 0;
        let required_points = ciget_u32(data, 1, "reward chest required points")?;
        let reward_count = ciget_u32(data, 2, "reward chest count")?;
        let mut rewards: Vec<Reward> = Vec::new();
        let mut pos: u32 = 0;
        while pos < reward_count
            invariant
                pos <= reward_count,
                reward_count == data@[2],
                data@.len() >= 3,
                rewards@.len() == pos,
                forall|i: int|
                    0 <= i < pos ==> #[trigger] rewards@[i] == Reward::spec_parse(
                        data@.subrange(3 + 2 * i, data@.len() as int),
                    ),
                3 + 2 * pos <= data@.len(),
                0 <= data@[1] <= u32::MAX,
            decreases reward_count - pos,
        {
            let start: u64 = 3 + 2 * (pos as u64);
            if start > data.len() as u64 {
                return Err(SFError::TooShortResponse {
                    name: "rchest rewards",
                    pos: data.len(),
                    array: crate::misc::debug_list(data),
                });
            }
            let rest = skip(data, start as usize, "rchest rewards")?;
            assert(rest@ =~= data@.subrange(3 + 2 * pos, data@.len() as int));
            let reward = Reward::parse(rest)?;
            rewards.push(reward);
            pos = pos + 1;
        }
        Ok(RewardChest { opened, required_points, rewards })
    }
}

} // verus!

verus! {

/// The offsets and chests of the reward chests that follow each other in
/// `vals`, after `n` of them: a chest that can not be parsed is an empty one
/// and takes no values.
pub open spec fn chest_offset(vals: Seq<i64>, n: nat) -> int
    decreases n,
{
    if n == 0 {
        0
    } else {
        let prev = chest_offset(vals, (n - 1) as nat);
        if 0 <= prev <= vals.len() && RewardChest::spec_valid(vals.skip(prev)) {
            prev + RewardChest::spec_len(vals.skip(prev))
        } else {
            prev
        }
    }
}

/// Parses the three reward chests that follow each other in `vals`. A chest
/// that can not be parsed is an empty, closed one that requires no points.
pub fn parse_rewards(vals: &[i64]) -> (r: [RewardChest; 3])
    ensures
        forall|k: int|
            0 <= k < 3 ==> {
                let off = #[trigger] chest_offset(vals@, k as nat);
                let c = r@[k];
                if 0 <= off <= vals@.len() && RewardChest::spec_valid(vals@.skip(off)) {
                    let d = vals@.skip(off);
                    c.opened == (d[0] != 0) && c.required_points == d[1] && c.rewards@.len()
                        == d[2] && forall|i: int|
                        0 <= i < d[2] ==> #[trigger] c.rewards@[i] == Reward::spec_parse(
                            d.subrange(3 + 2 * i, d.len() as int),
                        )
                } else {
                    !c.opened && c.required_points == 0 && c.rewards@.len() == 0
                }
            },
{
    let (c0, s1) = next_chest(vals, 0, Ghost(0));
    let (c1, s2) = next_chest(vals, s1, Ghost(1));
    let (c2, _s3) = next_chest(vals, s2, Ghost(2));
    let r = [c0, c1, c2];
    assert(r@[0] == c0 && r@[1] == c1 && r@[2] == c2);
    r
}

/// Parses the chest at `start` and gives the start of the next one.
fn next_chest(vals: &[i64], start: usize, Ghost(n): Ghost<nat>) -> (r: (RewardChest, usize))
    requires
        start == chest_offset(vals@, n),
    ensures
        r.1 == chest_offset(vals@, n + 1),
        ({
            let off = chest_offset(vals@, n);
            let c = r.0;
            if 0 <= off <= vals@.len() && RewardChest::spec_valid(vals@.skip(off)) {
                let d = vals@.skip(off);
                c.opened == (d[0] != 0) && c.required_points == d[1] && c.rewards@.len() == d[2]
                    && forall|i: int|
                    0 <= i < d[2] ==> #[trigger] c.rewards@[i] == Reward::spec_parse(
                        d.subrange(3 + 2 * i, d.len() as int),
                    )
            } else {
                !c.opened && c.required_points == 0 && c.rewards@.len() == 0
            }
        }),
{
    if start > vals.len() {
        return (RewardChest::default(), start);
    }
    let rest = match skip(vals, start, "multi reward chest") {
        Ok(r) => r,
        Err(_) => return (RewardChest::default(), start),
    };
    match RewardChest::parse(rest) {
        Ok(chest) => {
            let consumed = 3 + chest.rewards.len() * 2;
            assert(start + consumed <= vals@.len());
            (chest, start + consumed)
        },
        Err(_) => (RewardChest::default(), start),
    }
}

/// The type of a reward of the wheel of fortune.
#[derive(Debug, Clone, Copy, PartialEq, Eq, Structural)]
pub enum WheelRewardType {
    Mushrooms,
    Stone,
    StoneXL,
    Wood,
    WoodXL,
    Experience,
    ExperienceXL,
    Silver,
    SilverXL,
    Arcane,
    Souls,
    Item,
    PetItem(PetItem),
    Unknown,
}

/// The thing you won from spinning the wheel.
#[derive(Debug, Clone, Copy, PartialEq, Eq, Structural)]
pub struct WheelReward {
    /// The type of the thing you have won
    pub typ: WheelRewardType,
    /// The amount of the type you have won
    pub amount: i64,
}

impl WheelReward {
    /// The reward that a (type, amount) pair describes, on an upgraded wheel
    /// or not; `None` where an upgraded wheel gives an unknown pet item.
    pub open spec fn spec_parse(raw_typ: i64, amount: i64, upgraded: bool) -> Option<WheelReward> {
        match raw_typ {
            0 => Some(WheelReward { typ: WheelRewardType::Mushrooms, amount }),
            1 => Some(
                WheelReward {
                    typ: if upgraded { WheelRewardType::Arcane } else { WheelRewardType::Wood },
                    amount,
                },
            ),
            2 => Some(WheelReward { typ: WheelRewardType::ExperienceXL, amount }),
            3 => if upgraded {
                match PetItem::spec_parse(amount) {
                    Some(p) => Some(WheelReward { typ: WheelRewardType::PetItem(p), amount: 1 }),
                    None => None,
                }
            } else {
                Some(WheelReward { typ: WheelRewardType::Stone, amount })
            },
            4 => Some(WheelReward { typ: WheelRewardType::SilverXL, amount }),
            5 => Some(WheelReward { typ: WheelRewardType::Item, amount: 1 }),
            6 => Some(WheelReward { typ: WheelRewardType::WoodXL, amount }),
            7 => Some(WheelReward { typ: WheelRewardType::Experience, amount }),
            8 => Some(WheelReward { typ: WheelRewardType::StoneXL, amount }),
            9 => Some(
                WheelReward {
                    typ: if upgraded { WheelRewardType::Souls } else { WheelRewardType::Silver },
                    amount,
                },
            ),
            _ => Some(WheelReward { typ: WheelRewardType::Unknown, amount }),
        }
    }

    /// Parses the result of a spin: its type and its amount.
    pub fn parse(data: &[i64], upgraded: bool) -> (r: Result<WheelReward, SFError>)
        ensures
            data@.len() < 2 ==> r is Err,
            data@.len() == 0 ==> (r matches Err(e) && short_error_in(e, "wheel reward typ"@, 0, data@)),
            data@.len() == 1 ==> (r matches Err(e) && short_error_in(
                e,
                "wheel reward amount"@,
                1,
                data@,
            )),
            data@.len() >= 2 ==> match Self::spec_parse(data@[0], data@[1], upgraded) {
                Some(w) => r == Ok::<WheelReward, SFError>(w),
                None => r is Err,
            },
    {
        let raw_typ = cget(data, 0, "wheel reward typ")?;
        let amount = cget(data, 1, "wheel reward amount")?;
        let w = match raw_typ {
            0 => WheelReward { typ: WheelRewardType::Mushrooms, amount },
            1 => WheelReward {
                typ: if upgraded { WheelRewardType::Arcane } else { WheelRewardType::Wood },
                amount,
            },
            2 => WheelReward { typ: WheelRewardType::ExperienceXL, amount },
            3 => {
                if upgraded {
                    match PetItem::parse(amount) {
                        Some(p) => WheelReward { typ: WheelRewardType::PetItem(p), amount: 1 },
                        None => {
                            return Err(
                                SFError::ParsingError("pet wheel reward type", i64_to_string(amount)),
                            )
                        },
                    }
                } else {
                    WheelReward { typ: WheelRewardType::Stone, amount }
                }
            },
            4 => WheelReward { typ: WheelRewardType::SilverXL, amount },
            5 => WheelReward { typ: WheelRewardType::Item, amount: 1 },
            6 => WheelReward { typ: WheelRewardType::WoodXL, amount },
            7 => WheelReward { typ: WheelRewardType::Experience, amount },
            8 => WheelReward { typ: WheelRewardType::StoneXL, amount },
            9 => WheelReward {
                typ: if upgraded { WheelRewardType::Souls } else { WheelRewardType::Silver },
                amount,
            },
            _ => WheelReward { typ: WheelRewardType::Unknown, amount },
        };
        Ok(w)
    }
}

/// The type of reward gainable by collecting the calendar.
#[derive(Debug, Clone, Copy, PartialEq, Eq, Structural)]
pub enum CalendarRewardType {
    Silver,
    Mushrooms,
    Experience,
    Wood,
    Stone,
    Souls,
    Arcane,
    Runes,
    Item,
    Attribute(AttributeType),
    Fruit(HabitatType),
    Level,
    Potion(PotionType),
    TenQuicksandGlasses,
    LevelUp,
    Unknown,
}

/// A possible reward on the calendar.
#[derive(Debug, Clone, Copy, PartialEq, Eq, Structural)]
pub struct CalendarReward {
    /// The type of this reward
    pub typ: CalendarRewardType,
    /// The amount of the type this reward yields
    pub amount: i64,
}

impl CalendarReward {
    /// The calendar reward type with the number the server uses for it.
    pub open spec fn spec_typ(typ: i64) -> CalendarRewardType {
        match typ {
            1 => CalendarRewardType::Silver,
            2 => CalendarRewardType::Mushrooms,
            3 => CalendarRewardType::Experience,
            4 => CalendarRewardType::Wood,
            5 => CalendarRewardType::Stone,
            6 => CalendarRewardType::Souls,
            7 => CalendarRewardType::Arcane,
            8 => CalendarRewardType::Runes,
            10 => CalendarRewardType::Item,
            11 => CalendarRewardType::Attribute(AttributeType::Strength),
            12 => CalendarRewardType::Attribute(AttributeType::Dexterity),
            13 => CalendarRewardType::Attribute(AttributeType::Intelligence),
            14 => CalendarRewardType::Attribute(AttributeType::Constitution),
            15 => CalendarRewardType::Attribute(AttributeType::Luck),
            16 | 17 | 18 | 19 | 20 => match HabitatType::spec_from_typ_id((typ - 15) as i64) {
                Some(h) => CalendarRewardType::Fruit(h),
                None => CalendarRewardType::Unknown,
            },
            21 => CalendarRewardType::LevelUp,
            22 => CalendarRewardType::Potion(PotionType::EternalLife),
            23 => CalendarRewardType::TenQuicksandGlasses,
            24 => CalendarRewardType::Potion(PotionType::Strength),
            25 => CalendarRewardType::Potion(PotionType::Dexterity),
            26 => CalendarRewardType::Potion(PotionType::Intelligence),
            27 => CalendarRewardType::Potion(PotionType::Constitution),
            28 => CalendarRewardType::Potion(PotionType::Luck),
            _ => CalendarRewardType::Unknown,
        }
    }

    /// Parses a calendar reward from a (type, amount) pair.
    pub fn parse(data: &[i64]) -> (r: Result<CalendarReward, SFError>)
        ensures
            data@.len() >= 2 ==> r == Ok::<CalendarReward, SFError>(
                CalendarReward { typ: Self::spec_typ(data@[0]), amount: data@[1] },
            ),
            data@.len() < 2 ==> r is Err,
    {
        let amount = cget(data, 1, "c reward amount")?;
        let typ = cget(data, 0, "c reward typ")?;
        let typ = match typ {
            1 => CalendarRewardType::Silver,
            2 => CalendarRewardType::Mushrooms,
            3 => CalendarRewardType::Experience,
            4 => CalendarRewardType::Wood,
            5 => CalendarRewardType::Stone,
            6 => CalendarRewardType::Souls,
            7 => CalendarRewardType::Arcane,
            8 => CalendarRewardType::Runes,
            10 => CalendarRewardType::Item,
            11 => CalendarRewardType::Attribute(AttributeType::Strength),
            12 => CalendarRewardType::Attribute(AttributeType::Dexterity),
            13 => CalendarRewardType::Attribute(AttributeType::Intelligence),
            14 => CalendarRewardType::Attribute(AttributeType::Constitution),
            15 => CalendarRewardType::Attribute(AttributeType::Luck),
            16..=20 => match HabitatType::from_typ_id(typ - 15) {
                Some(h) => CalendarRewardType::Fruit(h),
                None => CalendarRewardType::Unknown,
            },
            21 => CalendarRewardType::LevelUp,
            22 => CalendarRewardType::Potion(PotionType::EternalLife),
            23 => CalendarRewardType::TenQuicksandGlasses,
            24 => CalendarRewardType::Potion(PotionType::Strength),
            25 => CalendarRewardType::Potion(PotionType::Dexterity),
            26 => CalendarRewardType::Potion(PotionType::Intelligence),
            27 => CalendarRewardType::Potion(PotionType::Constitution),
            28 => CalendarRewardType::Potion(PotionType::Luck),
            _ => CalendarRewardType::Unknown,
        };
        Ok(CalendarReward { typ, amount })
    }
}

/// The theme of the event tasks.
#[derive(Debug, Clone, Copy, PartialEq, Eq, Structural, Hash)]
pub enum EventTaskTheme {
    Gambler,
    RankClimber,
    ShoppingSpree,
    TimeSkipper,
    RuffianReset,
    PartTimeNudist,
    Scrimper,
    Scholar,
    Maximizer,
    UnderworldFigure,
    EggHunt,
    SummerCollectifun,
    Walpurgis,
    Unknown,
}

impl EventTaskTheme {
    /// The theme with the number the server uses for it (2 to 14).
    pub open spec fn spec_from_i64(v: i64) -> Option<EventTaskTheme> {
        match v {
            2 => Some(EventTaskTheme::Gambler),
            3 => Some(EventTaskTheme::RankClimber),
            4 => Some(EventTaskTheme::ShoppingSpree),
            5 => Some(EventTaskTheme::TimeSkipper),
            6 => Some(EventTaskTheme::RuffianReset),
            7 => Some(EventTaskTheme::PartTimeNudist),
            8 => Some(EventTaskTheme::Scrimper),
            9 => Some(EventTaskTheme::Scholar),
            10 => Some(EventTaskTheme::Maximizer),
            11 => Some(EventTaskTheme::UnderworldFigure),
            12 => Some(EventTaskTheme::EggHunt),
            13 => Some(EventTaskTheme::SummerCollectifun),
            14 => Some(EventTaskTheme::Walpurgis),
            245 => Some(EventTaskTheme::Unknown),
            _ => None,
        }
    }

    /// The theme with the number the server uses for it.
    pub fn from_i64(v: i64) -> (r: Option<EventTaskTheme>)
        ensures
            r == Self::spec_from_i64(v),
    {
        match v {
            2 => Some(EventTaskTheme::Gambler),
            3 => Some(EventTaskTheme::RankClimber),
            4 => Some(EventTaskTheme::ShoppingSpree),
            5 => Some(EventTaskTheme::TimeSkipper),
            6 => Some(EventTaskTheme::RuffianReset),
            7 => Some(EventTaskTheme::PartTimeNudist),
            8 => Some(EventTaskTheme::Scrimper),
            9 => Some(EventTaskTheme::Scholar),
            10 => Some(EventTaskTheme::Maximizer),
            11 => Some(EventTaskTheme::UnderworldFigure),
            12 => Some(EventTaskTheme::EggHunt),
            13 => Some(EventTaskTheme::SummerCollectifun),
            14 => Some(EventTaskTheme::Walpurgis),
            245 => Some(EventTaskTheme::Unknown),
            _ => None,
        }
    }
}

/// The type of event that is currently happening on the server.
#[derive(Debug, Clone, Copy, PartialEq, Eq, Structural, Hash)]
pub enum Event {
    ExceptionalXPEvent,
    GloriousGoldGalore,
    TidyToiletTime,
    AssemblyOfAwesomeAnimals,
    FantasticFortressFestivity,
    DaysOfDoomedSouls,
    WitchesDance,
    SandsOfTimeSpecial,
    ForgeFrenzyFestival,
    EpicShoppingSpreeExtravaganza,
    EpicQuestExtravaganza,
    EpicGoodLuckExtravaganza,
    OneBeerTwoBeerFreeBeer,
    PieceworkParty,
    LuckyDay,
    CrazyMushroomHarvest,
    HolidaySale,
}

/// All events, in the order of their flag bits.
pub open spec fn all_events() -> Seq<Event> {
    seq![
        Event::ExceptionalXPEvent, Event::GloriousGoldGalore, Event::TidyToiletTime,
        Event::AssemblyOfAwesomeAnimals, Event::FantasticFortressFestivity,
        Event::DaysOfDoomedSouls, Event::WitchesDance, Event::SandsOfTimeSpecial,
        Event::ForgeFrenzyFestival, Event::EpicShoppingSpreeExtravaganza,
        Event::EpicQuestExtravaganza, Event::EpicGoodLuckExtravaganza,
        Event::OneBeerTwoBeerFreeBeer, Event::PieceworkParty, Event::LuckyDay,
        Event::CrazyMushroomHarvest, Event::HolidaySale,
    ]
}

fn all_events_exec() -> (r: [Event; 17])
    ensures
        r@ == all_events(),
{
    let r = [
        Event::ExceptionalXPEvent, Event::GloriousGoldGalore, Event::TidyToiletTime,
        Event::AssemblyOfAwesomeAnimals, Event::FantasticFortressFestivity,
        Event::DaysOfDoomedSouls, Event::WitchesDance, Event::SandsOfTimeSpecial,
        Event::ForgeFrenzyFestival, Event::EpicShoppingSpreeExtravaganza,
        Event::EpicQuestExtravaganza, Event::EpicGoodLuckExtravaganza,
        Event::OneBeerTwoBeerFreeBeer, Event::PieceworkParty, Event::LuckyDay,
        Event::CrazyMushroomHarvest, Event::HolidaySale,
    ];
    assert(r@ =~= all_events());
    r
}

/// The events whose flag bits among the first `n` are set in `flags`, in
/// the order of the bits.
pub open spec fn events_of(flags: i32, n: nat) -> Seq<Event>
    decreases n,
{
    if n == 0 {
        Seq::empty()
    } else {
        let prev = events_of(flags, (n - 1) as nat);
        if (flags & (1i32 << ((n - 1) as i32))) > 0 {
            prev.push(all_events()[n - 1])
        } else {
            prev
        }
    }
}

/// The events active in the tavern.
#[derive(Debug, Clone)]
pub struct Events {
    /// All of the events active in the tavern, each once
    pub active: Vec<Event>,
    /// The time at which all of the events end
    pub ends: Option<i64>,
}

impl Events {
    /// Sets the active events from their flag bits: bit `i` is the event at
    /// position `i`.
    pub fn set_active(&mut self, flags: i32)
        ensures
            final(self).active@ == events_of(flags, 17),
            final(self).ends == old(self).ends,
    {
        let all = all_events_exec();
        self.active.clear();
        let mut i: usize = 0;
        while i < 17
            invariant
                i <= 17,
                all@ == all_events(),
                self.active@ == events_of(flags, i as nat),
                self.ends == old(self).ends,
            decreases 17 - i,
        {
            if (flags & (1i32 << (i as i32))) > 0 {
                self.active.push(all[i]);
            }
            i = i + 1;
        }
    }
}

} // verus!

verus! {

/// The number of completed tasks among the first `n`.
pub open spec fn completed_count(t: Seq<Task>, n: int) -> nat
    decreases n,
{
    if n <= 0 {
        0
    } else {
        completed_count(t, n - 1) + if t[n - 1].spec_is_completed() { 1nat } else { 0nat }
    }
}

/// The points of the completed tasks among the first `n`.
pub open spec fn earned_sum(t: Seq<Task>, n: int) -> nat
    decreases n,
{
    if n <= 0 {
        0
    } else {
        earned_sum(t, n - 1) + if t[n - 1].spec_is_completed() {
            t[n - 1].point_reward as nat
        } else {
            0nat
        }
    }
}

/// The points of the first `n` tasks.
pub open spec fn total_sum(t: Seq<Task>, n: int) -> nat
    decreases n,
{
    if n <= 0 {
        0
    } else {
        total_sum(t, n - 1) + t[n - 1].point_reward as nat
    }
}

proof fn lemma_earned_le_total(t: Seq<Task>, n: int)
    requires
        0 <= n <= t.len(),
    ensures
        earned_sum(t, n) <= total_sum(t, n),
    decreases n,
{
    if n > 0 {
        lemma_earned_le_total(t, n - 1);
    }
}

proof fn lemma_sums_grow(t: Seq<Task>, i: int, n: int)
    requires
        0 <= i <= n <= t.len(),
    ensures
        earned_sum(t, i) <= earned_sum(t, n),
        total_sum(t, i) <= total_sum(t, n),
    decreases n - i,
{
    if i < n {
        lemma_sums_grow(t, i, n - 1);
    }
}

fn tasks_completed(tasks: &Vec<Task>) -> (r: usize)
    ensures
        r == completed_count(tasks@, tasks@.len() as int),
{
    let mut c: usize = 0;
    let mut i: usize = 0;
    while i < tasks.len()
        invariant
            i <= tasks@.len(),
            c == completed_count(tasks@, i as int),
            c <= i,
        decreases tasks@.len() - i,
    {
        if tasks[i].is_completed() {
            c = c + 1;
        }
        i = i + 1;
    }
    c
}

fn tasks_earned(tasks: &Vec<Task>) -> (r: u32)
    requires
        total_sum(tasks@, tasks@.len() as int) <= u32::MAX,
    ensures
        r == earned_sum(tasks@, tasks@.len() as int),
{
    let mut c: u32 = 0;
    let mut i: usize = 0;
    while i < tasks.len()
        invariant
            i <= tasks@.len(),
            c == earned_sum(tasks@, i as int),
            total_sum(tasks@, tasks@.len() as int) <= u32::MAX,
        decreases tasks@.len() - i,
    {
        proof {
            lemma_sums_grow(tasks@, i as int + 1, tasks@.len() as int);
            lemma_earned_le_total(tasks@, i as int + 1);
        }
        if tasks[i].is_completed() {
            c = c + tasks[i].point_reward;
        }
        i = i + 1;
    }
    c
}

fn tasks_total(tasks: &Vec<Task>) -> (r: u32)
    requires
        total_sum(tasks@, tasks@.len() as int) <= u32::MAX,
    ensures
        r == total_sum(tasks@, tasks@.len() as int),
{
    let mut c: u32 = 0;
    let mut i: usize = 0;
    while i < tasks.len()
        invariant
            i <= tasks@.len(),
            c == total_sum(tasks@, i as int),
            total_sum(tasks@, tasks@.len() as int) <= u32::MAX,
        decreases tasks@.len() - i,
    {
        proof {
            lemma_sums_grow(tasks@, i as int + 1, tasks@.len() as int);
        }
        c = c + tasks[i].point_reward;
        i = i + 1;
    }
    c
}

fn tasks_get_available(tasks: &Vec<Task>, task_type: TaskType) -> (r: Option<Task>)
    ensures
        r matches Some(t) ==> exists|i: int|
            0 <= i < tasks@.len() && #[trigger] tasks@[i] == t && t.typ == task_type
                && !t.spec_is_completed() && forall|k: int|
                0 <= k < i ==> !(#[trigger] tasks@[k].typ == task_type
                    && !tasks@[k].spec_is_completed()),
        r is None ==> forall|k: int|
            0 <= k < tasks@.len() ==> !(#[trigger] tasks@[k].typ == task_type
                && !tasks@[k].spec_is_completed()),
{
    let mut i: usize = 0;
    while i < tasks.len()
        invariant
            i <= tasks@.len(),
            forall|k: int|
                0 <= k < i ==> !(#[trigger] tasks@[k].typ == task_type
                    && !tasks@[k].spec_is_completed()),
        decreases tasks@.len() - i,
    {
        if tasks[i].typ == task_type && !tasks[i].is_completed() {
            return Some(tasks[i]);
        }
        i = i + 1;
    }
    None
}

fn tasks_uncompleted(tasks: &Vec<Task>) -> (r: Vec<Task>)
    ensures
        r@ == tasks@.filter(|t: Task| !t.spec_is_completed()),
{
    let mut r: Vec<Task> = Vec::new();
    let mut i: usize = 0;
    while i < tasks.len()
        invariant
            i <= tasks@.len(),
            r@ == tasks@.take(i as int).filter(|t: Task| !t.spec_is_completed()),
        decreases tasks@.len() - i,
    {
        let t = tasks[i];
        proof {
            reveal_with_fuel(Seq::<_>::filter, 1);
            assert(tasks@.take(i + 1).drop_last() =~= tasks@.take(i as int));
        }
        if !t.is_completed() {
            r.push(t);
        }
        i = i + 1;
    }
    assert(tasks@.take(tasks@.len() as int) =~= tasks@);
    r
}

fn chest_openable(tasks: &Vec<Task>, rewards: &[RewardChest; 3], index: usize) -> (r: bool)
    requires
        total_sum(tasks@, tasks@.len() as int) <= u32::MAX,
    ensures
        r == (index < 3 && !rewards@[index as int].opened && earned_sum(tasks@, tasks@.len() as int)
            >= rewards@[index as int].required_points),
{
    if index >= 3 {
        return false;
    }
    let chest = &rewards[index];
    if chest.opened {
        return false;
    }
    tasks_earned(tasks) >= chest.required_points
}

/// The tasks that reset every day.
#[derive(Debug, Clone)]
pub struct DailyTasks {
    /// The tasks you have to do
    pub tasks: Vec<Task>,
    /// The rewards available for completing tasks
    pub rewards: [RewardChest; 3],
}

/// The tasks that follow some event theme.
#[derive(Debug, Clone)]
pub struct EventTasks {
    /// The theme of the event tasks
    pub theme: EventTaskTheme,
    /// The time at which the event tasks have been set
    pub start: Option<i64>,
    /// The time at which the event tasks will reset
    pub end: Option<i64>,
    /// The actual tasks you have to complete
    pub tasks: Vec<Task>,
    /// The rewards available for completing tasks
    pub rewards: [RewardChest; 3],
}

impl DailyTasks {
    /// The amount of tasks you have completed.
    pub fn completed(&self) -> (r: usize)
        ensures
            r == completed_count(self.tasks@, self.tasks@.len() as int),
    {
        tasks_completed(&self.tasks)
    }

    /// The amount of points you have collected from completing tasks.
    pub fn earned_points(&self) -> (r: u32)
        requires
            total_sum(self.tasks@, self.tasks@.len() as int) <= u32::MAX,
        ensures
            r == earned_sum(self.tasks@, self.tasks@.len() as int),
    {
        tasks_earned(&self.tasks)
    }

    /// The amount of points available in total.
    pub fn total_points(&self) -> (r: u32)
        requires
            total_sum(self.tasks@, self.tasks@.len() as int) <= u32::MAX,
        ensures
            r == total_sum(self.tasks@, self.tasks@.len() as int),
    {
        tasks_total(&self.tasks)
    }

    /// The first task of the given type that is not completed, if any.
    pub fn get_available(&self, task_type: TaskType) -> (r: Option<Task>)
        ensures
            r matches Some(t) ==> self.tasks@.contains(t) && t.typ == task_type
                && !t.spec_is_completed(),
            r is None ==> forall|k: int|
                0 <= k < self.tasks@.len() ==> !(#[trigger] self.tasks@[k].typ == task_type
                    && !self.tasks@[k].spec_is_completed()),
    {
        tasks_get_available(&self.tasks, task_type)
    }

    /// All tasks that are not completed, in order.
    pub fn get_uncompleted(&self) -> (r: Vec<Task>)
        ensures
            r@ == self.tasks@.filter(|t: Task| !t.spec_is_completed()),
    {
        tasks_uncompleted(&self.tasks)
    }

    /// Whether the chest at the given index can be opened: it exists, is not
    /// opened yet, and enough points are earned.
    pub fn can_open_chest(&self, index: usize) -> (r: bool)
        requires
            total_sum(self.tasks@, self.tasks@.len() as int) <= u32::MAX,
        ensures
            r == (index < 3 && !self.rewards@[index as int].opened && earned_sum(
                self.tasks@,
                self.tasks@.len() as int,
            ) >= self.rewards@[index as int].required_points),
    {
        chest_openable(&self.tasks, &self.rewards, index)
    }
}

impl EventTasks {
    /// The amount of tasks you have completed.
    pub fn completed(&self) -> (r: usize)
        ensures
            r == completed_count(self.tasks@, self.tasks@.len() as int),
    {
        tasks_completed(&self.tasks)
    }

    /// The amount of points you have collected from completing tasks.
    pub fn earned_points(&self) -> (r: u32)
        requires
            total_sum(self.tasks@, self.tasks@.len() as int) <= u32::MAX,
        ensures
            r == earned_sum(self.tasks@, self.tasks@.len() as int),
    {
        tasks_earned(&self.tasks)
    }

    /// The amount of points available in total.
    pub fn total_points(&self) -> (r: u32)
        requires
            total_sum(self.tasks@, self.tasks@.len() as int) <= u32::MAX,
        ensures
            r == total_sum(self.tasks@, self.tasks@.len() as int),
    {
        tasks_total(&self.tasks)
    }

    /// The first task of the given type that is not completed, if any.
    pub fn get_available(&self, task_type: TaskType) -> (r: Option<Task>)
        ensures
            r matches Some(t) ==> self.tasks@.contains(t) && t.typ == task_type
                && !t.spec_is_completed(),
            r is None ==> forall|k: int|
                0 <= k < self.tasks@.len() ==> !(#[trigger] self.tasks@[k].typ == task_type
                    && !self.tasks@[k].spec_is_completed()),
    {
        tasks_get_available(&self.tasks, task_type)
    }

    /// All tasks that are not completed, in order.
    pub fn get_uncompleted(&self) -> (r: Vec<Task>)
        ensures
            r@ == self.tasks@.filter(|t: Task| !t.spec_is_completed()),
    {
        tasks_uncompleted(&self.tasks)
    }

    /// Whether the chest at the given index can be opened: it exists, is not
    /// opened yet, and enough points are earned.
    pub fn can_open_chest(&self, index: usize) -> (r: bool)
        requires
            total_sum(self.tasks@, self.tasks@.len() as int) <= u32::MAX,
        ensures
            r == (index < 3 && !self.rewards@[index as int].opened && earned_sum(
                self.tasks@,
                self.tasks@.len() as int,
            ) >= self.rewards@[index as int].required_points),
    {
        chest_openable(&self.tasks, &self.rewards, index)
    }
}

/// Dr. Abawuwu's wheel.
#[derive(Debug, Clone, Copy)]
pub struct Wheel {
    /// The amount of lucky coins you have to spin the wheel
    pub lucky_coins: u32,
    /// The amount of times you have spun the wheel today already
    pub spins_today: u8,
    /// The next time you can spin the wheel for free
    pub next_free_spin: Option<i64>,
    /// The result of spinning the wheel
    pub result: Option<WheelReward>,
}

/// The calendar, that grants rewards once a day.
#[derive(Debug, Clone)]
pub struct Calendar {
    /// The amount of times the calendar has been collected already
    pub collected: usize,
    /// The things you can get from the calendar
    pub rewards: Vec<CalendarReward>,
    /// The time at which the calendar door will be unlocked
    pub next_possible: Option<i64>,
}

/// The tasks you get from the goblin gleeman.
#[derive(Debug, Clone)]
pub struct Tasks {
    /// The tasks that update daily
    pub daily: DailyTasks,
    /// The tasks that follow some server wide theme
    pub event: EventTasks,
}

/// Everything that changes over time.
#[derive(Debug, Clone)]
pub struct TimedSpecials {
    /// All of the events active in the tavern
    pub events: Events,
    /// The stuff you can do for bonus rewards
    pub tasks: Tasks,
    /// Grants rewards once a day
    pub calendar: Calendar,
    /// Dr. Abawuwu's wheel
    pub wheel: Wheel,
}

} // verus!

verus! {

impl Default for EventTaskTheme {
    fn default() -> (r: Self)
        ensures
            r == EventTaskTheme::Unknown,
    {
        EventTaskTheme::Unknown
    }
}

impl Default for Events {
    fn default() -> (r: Self)
        ensures
            r.active@.len() == 0,
            r.ends is None,
    {
        Events { active: Vec::new(), ends: None }
    }
}

impl Default for DailyTasks {
    fn default() -> (r: Self)
        ensures
            r.tasks@.len() == 0,
    {
        DailyTasks {
            tasks: Vec::new(),
            rewards: [RewardChest::default(), RewardChest::default(), RewardChest::default()],
        }
    }
}

impl Default for EventTasks {
    fn default() -> (r: Self)
        ensures
            r.tasks@.len() == 0,
            r.theme == EventTaskTheme::Unknown,
            r.start is None,
            r.end is None,
    {
        EventTasks {
            theme: EventTaskTheme::default(),
            start: None,
            end: None,
            tasks: Vec::new(),
            rewards: [RewardChest::default(), RewardChest::default(), RewardChest::default()],
        }
    }
}

impl Default for Tasks {
    fn default() -> (r: Self)
        ensures
            r.daily.tasks@.len() == 0,
            r.event.tasks@.len() == 0,
    {
        Tasks { daily: DailyTasks::default(), event: EventTasks::default() }
    }
}

impl Default for Calendar {
    fn default() -> (r: Self)
        ensures
            r.collected == 0,
            r.rewards@.len() == 0,
            r.next_possible is None,
    {
        Calendar { collected: 0, rewards: Vec::new(), next_possible: None }
    }
}

impl Default for Wheel {
    fn default() -> (r: Self)
        ensures
            r == (Wheel { lucky_coins: 0, spins_today: 0, next_free_spin: None, result: None }),
    {
        Wheel { lucky_coins: 0, spins_today: 0, next_free_spin: None, result: None }
    }
}

impl Default for TimedSpecials {
    fn default() -> (r: Self)
        ensures
            r.events.active@.len() == 0,
            r.events.ends is None,
            r.calendar.rewards@.len() == 0,
            r.wheel.result is None,
    {
        TimedSpecials {
            events: Events::default(),
            tasks: Tasks::default(),
            calendar: Calendar::default(),
            wheel: Wheel::default(),
        }
    }
}

} // verus!
