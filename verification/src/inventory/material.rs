use vstd::prelude::*;

verus! {

/// Every kind of item or block an inventory slot can hold, across the supported
/// protocol versions.
#[derive(Clone, Copy, Debug, PartialEq, Eq, Structural)]
pub enum Material {
    Air,
    Stone,
    Grass,
    Dirt,
    Cobblestone,
    Wood,
    Sapling,
    Bedrock,
    Water,
    StationaryWater,
    Lava,
    StationaryLava,
    Sand,
    Gravel,
    GoldOre,
    IronOre,
    CoalOre,
    Log,
    Leaves,
    Sponge,
    Glass,
    LapisOre,
    LapisBlock,
    Dispenser,
    Sandstone,
    NoteBlock,
    BedBlock,
    PoweredRail,
    DetectorRail,
    PistonStickyBase,
    Web,
    LongGrass,
    DeadBush,
    PistonBase,
    PistonExtension,
    Wool,
    PistonMovingPiece,
    YellowFlower,
    RedRose,
    BrownMushroom,
    RedMushroom,
    GoldBlock,
    IronBlock,
    DoubleStep,
    Step,
    Brick,
    Tnt,
    Bookshelf,
    MossyCobblestone,
    Obsidian,
    Torch,
    Fire,
    MobSpawner,
    WoodStairs,
    Chest,
    RedstoneWire,
    DiamondOre,
    DiamondBlock,
    Workbench,
    Crops,
    Soil,
    Furnace,
    BurningFurnace,
    SignPost,
    WoodenDoor,
    Ladder,
    Rails,
    CobblestoneStairs,
    WallSign,
    Lever,
    StonePlate,
    IronDoorBlock,
    WoodPlate,
    RedstoneOre,
    GlowingRedstoneOre,
    RedstoneTorchOff,
    RedstoneTorchOn,
    StoneButton,
    Snow,
    Ice,
    SnowBlock,
    Cactus,
    Clay,
    SugarCaneBlock,
    Jukebox,
    Fence,
    Pumpkin,
    Netherrack,
    SoulSand,
    Glowstone,
    Portal,
    JackOLantern,
    CakeBlock,
    DiodeBlockOff,
    DiodeBlockOn,
    LockedChest,
    StainedGlass,
    TrapDoor,
    MonsterEggs,
    SmoothBrick,
    HugeMushroom1,
    HugeMushroom2,
    IronFence,
    ThinGlass,
    MelonBlock,
    PumpkinStem,
    MelonStem,
    Vine,
    FenceGate,
    BrickStairs,
    SmoothStairs,
    Mycel,
    WaterLily,
    NetherBrick,
    NetherFence,
    NetherBrickStairs,
    NetherWarts,
    EnchantmentTable,
    BrewingStand,
    Cauldron,
    EnderPortal,
    EnderPortalFrame,
    EnderStone,
    DragonEgg,
    RedstoneLampOff,
    RedstoneLampOn,
    WoodDoubleStep,
    WoodStep,
    Cocoa,
    SandstoneStairs,
    EmeraldOre,
    EnderChest,
    TripwireHook,
    Tripwire,
    EmeraldBlock,
    SpruceWoodStairs,
    BirchWoodStairs,
    JungleWoodStairs,
    Command,
    Beacon,
    CobbleWall,
    FlowerPot,
    Carrot,
    Potato,
    WoodButton,
    Skull,
    Anvil,
    TrappedChest,
    GoldPlate,
    IronPlate,
    RedstoneComparatorOff,
    RedstoneComparatorOn,
    DaylightDetector,
    RedstoneBlock,
    QuartzOre,
    Hopper,
    QuartzBlock,
    QuartzStairs,
    ActivatorRail,
    Dropper,
    StainedClay,
    StainedGlassPane,
    Leaves2,
    Log2,
    AcaciaStairs,
    DarkOakStairs,
    HayBlock,
    Carpet,
    HardClay,
    CoalBlock,
    PackedIce,
    DoublePlant,
    IronSpade,
    IronPickaxe,
    IronAxe,
    FlintAndSteel,
    Apple,
    Bow,
    Arrow,
    Coal,
    Diamond,
    IronIngot,
    GoldIngot,
    IronSword,
    WoodSword,
    WoodSpade,
    WoodPickaxe,
    WoodAxe,
    StoneSword,
    StoneSpade,
    StonePickaxe,
    StoneAxe,
    DiamondSword,
    DiamondSpade,
    DiamondPickaxe,
    DiamondAxe,
    Stick,
    Bowl,
    MushroomSoup,
    GoldSword,
    GoldSpade,
    GoldPickaxe,
    GoldAxe,
    String,
    Feather,
    Sulphur,
    WoodHoe,
    StoneHoe,
    IronHoe,
    DiamondHoe,
    GoldHoe,
    Seeds,
    Wheat,
    Bread,
    LeatherHelmet,
    LeatherChestplate,
    LeatherLeggings,
    LeatherBoots,
    ChainmailHelmet,
    ChainmailChestplate,
    ChainmailLeggings,
    ChainmailBoots,
    IronHelmet,
    IronChestplate,
    IronLeggings,
    IronBoots,
    DiamondHelmet,
    DiamondChestplate,
    DiamondLeggings,
    DiamondBoots,
    GoldHelmet,
    GoldChestplate,
    GoldLeggings,
    GoldBoots,
    Flint,
    Pork,
    GrilledPork,
    Painting,
    GoldenApple,
    Sign,
    WoodDoor,
    Bucket,
    WaterBucket,
    LavaBucket,
    Minecart,
    Saddle,
    IronDoor,
    Redstone,
    SnowBall,
    Boat,
    Leather,
    MilkBucket,
    ClayBrick,
    ClayBall,
    SugarCane,
    Paper,
    Book,
    SlimeBall,
    StorageMinecart,
    PoweredMinecart,
    Egg,
    Compass,
    FishingRod,
    Watch,
    GlowstoneDust,
    RawFish,
    CookedFish,
    InkSack,
    Bone,
    Sugar,
    Cake,
    Bed,
    Diode,
    Cookie,
    /// The map item of the old protocol tables, whose name is `Map`.
    LegacyMap,
    Shears,
    Melon,
    PumpkinSeeds,
    MelonSeeds,
    RawBeef,
    CookedBeef,
    RawChicken,
    CookedChicken,
    RottenFlesh,
    EnderPearl,
    BlazeRod,
    GhastTear,
    GoldNugget,
    NetherStalk,
    Potion,
    GlassBottle,
    SpiderEye,
    FermentedSpiderEye,
    BlazePowder,
    MagmaCream,
    BrewingStandItem,
    CauldronItem,
    EyeOfEnder,
    SpeckledMelon,
    MonsterEgg,
    ExpBottle,
    Fireball,
    BookAndQuill,
    WrittenBook,
    Emerald,
    ItemFrame,
    FlowerPotItem,
    CarrotItem,
    PotatoItem,
    BakedPotato,
    PoisonousPotato,
    EmptyMap,
    GoldenCarrot,
    SkullItem,
    CarrotStick,
    NetherStar,
    PumpkinPie,
    Firework,
    FireworkCharge,
    EnchantedBook,
    RedstoneComparator,
    NetherBrickItem,
    Quartz,
    ExplosiveMinecart,
    HopperMinecart,
    IronBarding,
    GoldBarding,
    DiamondBarding,
    Leash,
    NameTag,
    CommandMinecart,
    GoldRecord,
    GreenRecord,
    Record3,
    Record4,
    Record5,
    Record6,
    Record7,
    Record8,
    Record9,
    Record10,
    Record11,
    Record12,
    SlimeBlock,
    Barrier,
    IronTrapdoor,
    Prismarine,
    SeaLantern,
    StandingBanner,
    WallBanner,
    DaylightDetectorInverted,
    RedSandstone,
    RedSandstoneStairs,
    DoubleStoneSlab2,
    StoneSlab2,
    SpruceFenceGate,
    BirchFenceGate,
    JungleFenceGate,
    DarkOakFenceGate,
    AcaciaFenceGate,
    SpruceFence,
    BirchFence,
    JungleFence,
    DarkOakFence,
    AcaciaFence,
    SpruceDoor,
    BirchDoor,
    JungleDoor,
    AcaciaDoor,
    DarkOakDoor,
    PrismarineShard,
    PrismarineCrystals,
    Rabbit,
    CookedRabbit,
    RabbitStew,
    RabbitFoot,
    RabbitHide,
    ArmorStand,
    Mutton,
    CookedMutton,
    Banner,
    SpruceDoorItem,
    BirchDoorItem,
    JungleDoorItem,
    AcaciaDoorItem,
    DarkOakDoorItem,
    EndRod,
    ChorusPlant,
    ChorusFlower,
    PurpurBlock,
    PurpurPillar,
    PurpurStairs,
    PurpurDoubleSlab,
    PurpurSlab,
    EndBricks,
    BeetrootBlock,
    GrassPath,
    EndGateway,
    CommandRepeating,
    CommandChain,
    StructureBlock,
    EndCrystal,
    ChorusFruit,
    ChorusFruitPopped,
    Beetroot,
    BeetrootSeeds,
    BeetrootSoup,
    DragonsBreath,
    SplashPotion,
    SpectralArrow,
    TippedArrow,
    LingeringPotion,
    Shield,
    Elytra,
    BoatSpruce,
    BoatBirch,
    BoatJungle,
    BoatAcacia,
    BoatDarkOak,
    FrostedIce,
    Magma,
    NetherWartBlock,
    RedNetherBrick,
    BoneBlock,
    StructureVoid,
    Observer,
    WhiteShulkerBox,
    OrangeShulkerBox,
    MagentaShulkerBox,
    LightBlueShulkerBox,
    YellowShulkerBox,
    LimeShulkerBox,
    PinkShulkerBox,
    GrayShulkerBox,
    SilverShulkerBox,
    CyanShulkerBox,
    PurpleShulkerBox,
    BlueShulkerBox,
    BrownShulkerBox,
    GreenShulkerBox,
    RedShulkerBox,
    BlackShulkerBox,
    Totem,
    ShulkerShell,
    IronNugget,
    WhiteGlazedTerracotta,
    OrangeGlazedTerracotta,
    MagentaGlazedTerracotta,
    LightBlueGlazedTerracotta,
    YellowGlazedTerracotta,
    LimeGlazedTerracotta,
    PinkGlazedTerracotta,
    GrayGlazedTerracotta,
    SilverGlazedTerracotta,
    CyanGlazedTerracotta,
    PurpleGlazedTerracotta,
    BlueGlazedTerracotta,
    BrownGlazedTerracotta,
    GreenGlazedTerracotta,
    RedGlazedTerracotta,
    BlackGlazedTerracotta,
    Concrete,
    ConcretePowder,
    KnowledgeBook,
    AcaciaBoat,
    AcaciaButton,
    AcaciaLeaves,
    AcaciaLog,
    AcaciaPlanks,
    AcaciaPressurePlate,
    AcaciaSapling,
    AcaciaSlab,
    AcaciaTrapdoor,
    AcaciaWood,
    Allium,
    Andesite,
    AttachedMelonStem,
    AttachedPumpkinStem,
    AzureBluet,
    BatSpawnEgg,
    Beef,
    Beetroots,
    BirchBoat,
    BirchButton,
    BirchLeaves,
    BirchLog,
    BirchPlanks,
    BirchPressurePlate,
    BirchSapling,
    BirchSlab,
    BirchStairs,
    BirchTrapdoor,
    BirchWood,
    BlackBanner,
    BlackBed,
    BlackCarpet,
    BlackConcrete,
    BlackConcretePowder,
    BlackStainedGlass,
    BlackStainedGlassPane,
    BlackTerracotta,
    BlackWallBanner,
    BlackWool,
    BlazeSpawnEgg,
    BlueBanner,
    BlueBed,
    BlueCarpet,
    BlueConcrete,
    BlueConcretePowder,
    BlueIce,
    BlueOrchid,
    BlueStainedGlass,
    BlueStainedGlassPane,
    BlueTerracotta,
    BlueWallBanner,
    BlueWool,
    BoneMeal,
    BrainCoral,
    BrainCoralBlock,
    BrainCoralFan,
    BrainCoralWallFan,
    Bricks,
    BrickSlab,
    BrownBanner,
    BrownBed,
    BrownCarpet,
    BrownConcrete,
    BrownConcretePowder,
    BrownMushroomBlock,
    BrownStainedGlass,
    BrownStainedGlassPane,
    BrownTerracotta,
    BrownWallBanner,
    BrownWool,
    BubbleColumn,
    BubbleCoral,
    BubbleCoralBlock,
    BubbleCoralFan,
    BubbleCoralWallFan,
    CactusGreen,
    Carrots,
    CarrotOnAStick,
    CarvedPumpkin,
    CaveAir,
    CaveSpiderSpawnEgg,
    ChainCommandBlock,
    Charcoal,
    ChestMinecart,
    Chicken,
    ChickenSpawnEgg,
    ChippedAnvil,
    ChiseledQuartzBlock,
    ChiseledRedSandstone,
    ChiseledSandstone,
    ChiseledStoneBricks,
    Clock,
    CoarseDirt,
    CobblestoneSlab,
    CobblestoneWall,
    Cobweb,
    CocoaBeans,
    Cod,
    CodBucket,
    CodSpawnEgg,
    CommandBlock,
    CommandBlockMinecart,
    Comparator,
    Conduit,
    CookedCod,
    CookedPorkchop,
    CookedSalmon,
    CowSpawnEgg,
    CrackedStoneBricks,
    CraftingTable,
    CreeperHead,
    CreeperSpawnEgg,
    CreeperWallHead,
    CutRedSandstone,
    CutSandstone,
    CyanBanner,
    CyanBed,
    CyanCarpet,
    CyanConcrete,
    CyanConcretePowder,
    CyanDye,
    CyanStainedGlass,
    CyanStainedGlassPane,
    CyanTerracotta,
    CyanWallBanner,
    CyanWool,
    DamagedAnvil,
    Dandelion,
    DandelionYellow,
    DarkOakBoat,
    DarkOakButton,
    DarkOakLeaves,
    DarkOakLog,
    DarkOakPlanks,
    DarkOakPressurePlate,
    DarkOakSapling,
    DarkOakSlab,
    DarkOakTrapdoor,
    DarkOakWood,
    DarkPrismarine,
    DarkPrismarineSlab,
    DarkPrismarineStairs,
    DeadBrainCoralBlock,
    DeadBrainCoralFan,
    DeadBrainCoralWallFan,
    DeadBubbleCoralBlock,
    DeadBubbleCoralFan,
    DeadBubbleCoralWallFan,
    DeadFireCoralBlock,
    DeadFireCoralFan,
    DeadFireCoralWallFan,
    DeadHornCoralBlock,
    DeadHornCoralFan,
    DeadHornCoralWallFan,
    DeadTubeCoralBlock,
    DeadTubeCoralFan,
    DeadTubeCoralWallFan,
    DebugStick,
    DiamondHorseArmor,
    DiamondShovel,
    Diorite,
    DolphinSpawnEgg,
    DonkeySpawnEgg,
    DragonBreath,
    DragonHead,
    DragonWallHead,
    DriedKelp,
    DriedKelpBlock,
    DrownedSpawnEgg,
    ElderGuardianSpawnEgg,
    EnchantedGoldenApple,
    EnchantingTable,
    EndermanSpawnEgg,
    EndermiteSpawnEgg,
    EnderEye,
    EndPortal,
    EndPortalFrame,
    EndStone,
    EndStoneBricks,
    EvokerSpawnEgg,
    ExperienceBottle,
    Farmland,
    Fern,
    FilledMap,
    FireworkRocket,
    FireworkStar,
    FireCharge,
    FireCoral,
    FireCoralBlock,
    FireCoralFan,
    FireCoralWallFan,
    FurnaceMinecart,
    GhastSpawnEgg,
    GlassPane,
    GlisteringMelonSlice,
    GoldenAxe,
    GoldenBoots,
    GoldenChestplate,
    GoldenHelmet,
    GoldenHoe,
    GoldenHorseArmor,
    GoldenLeggings,
    GoldenPickaxe,
    GoldenShovel,
    GoldenSword,
    Granite,
    GrassBlock,
    GrayBanner,
    GrayBed,
    GrayCarpet,
    GrayConcrete,
    GrayConcretePowder,
    GrayDye,
    GrayStainedGlass,
    GrayStainedGlassPane,
    GrayTerracotta,
    GrayWallBanner,
    GrayWool,
    GreenBanner,
    GreenBed,
    GreenCarpet,
    GreenConcrete,
    GreenConcretePowder,
    GreenStainedGlass,
    GreenStainedGlassPane,
    GreenTerracotta,
    GreenWallBanner,
    GreenWool,
    GuardianSpawnEgg,
    Gunpowder,
    HeartOfTheSea,
    HeavyWeightedPressurePlate,
    HornCoral,
    HornCoralBlock,
    HornCoralFan,
    HornCoralWallFan,
    HorseSpawnEgg,
    HuskSpawnEgg,
    InfestedChiseledStoneBricks,
    InfestedCobblestone,
    InfestedCrackedStoneBricks,
    InfestedMossyStoneBricks,
    InfestedStone,
    InfestedStoneBricks,
    InkSac,
    IronBars,
    IronHorseArmor,
    IronShovel,
    JungleBoat,
    JungleButton,
    JungleLeaves,
    JungleLog,
    JunglePlanks,
    JunglePressurePlate,
    JungleSapling,
    JungleSlab,
    JungleStairs,
    JungleTrapdoor,
    JungleWood,
    Kelp,
    KelpPlant,
    LapisLazuli,
    LargeFern,
    Lead,
    LightBlueBanner,
    LightBlueBed,
    LightBlueCarpet,
    LightBlueConcrete,
    LightBlueConcretePowder,
    LightBlueDye,
    LightBlueStainedGlass,
    LightBlueStainedGlassPane,
    LightBlueTerracotta,
    LightBlueWallBanner,
    LightBlueWool,
    LightGrayBanner,
    LightGrayBed,
    LightGrayCarpet,
    LightGrayConcrete,
    LightGrayConcretePowder,
    LightGrayDye,
    LightGrayGlazedTerracotta,
    LightGrayShulkerBox,
    LightGrayStainedGlass,
    LightGrayStainedGlassPane,
    LightGrayTerracotta,
    LightGrayWallBanner,
    LightGrayWool,
    LightWeightedPressurePlate,
    Lilac,
    LilyPad,
    LimeBanner,
    LimeBed,
    LimeCarpet,
    LimeConcrete,
    LimeConcretePowder,
    LimeDye,
    LimeStainedGlass,
    LimeStainedGlassPane,
    LimeTerracotta,
    LimeWallBanner,
    LimeWool,
    LlamaSpawnEgg,
    MagentaBanner,
    MagentaBed,
    MagentaCarpet,
    MagentaConcrete,
    MagentaConcretePowder,
    MagentaDye,
    MagentaStainedGlass,
    MagentaStainedGlassPane,
    MagentaTerracotta,
    MagentaWallBanner,
    MagentaWool,
    MagmaBlock,
    MagmaCubeSpawnEgg,
    MelonSlice,
    MooshroomSpawnEgg,
    MossyCobblestoneWall,
    MossyStoneBricks,
    MovingPiston,
    MuleSpawnEgg,
    MushroomStem,
    MushroomStew,
    MusicDisc11,
    MusicDisc13,
    MusicDiscBlocks,
    MusicDiscCat,
    MusicDiscChirp,
    MusicDiscFar,
    MusicDiscMall,
    MusicDiscMellohi,
    MusicDiscStal,
    MusicDiscStrad,
    MusicDiscWait,
    MusicDiscWard,
    Mycelium,
    NautilusShell,
    NetherBricks,
    NetherBrickFence,
    NetherBrickSlab,
    NetherPortal,
    NetherQuartzOre,
    NetherWart,
    OakBoat,
    OakButton,
    OakDoor,
    OakFence,
    OakFenceGate,
    OakLeaves,
    OakLog,
    OakPlanks,
    OakPressurePlate,
    OakSapling,
    OakSlab,
    OakStairs,
    OakTrapdoor,
    OakWood,
    OcelotSpawnEgg,
    OrangeBanner,
    OrangeBed,
    OrangeCarpet,
    OrangeConcrete,
    OrangeConcretePowder,
    OrangeDye,
    OrangeStainedGlass,
    OrangeStainedGlassPane,
    OrangeTerracotta,
    OrangeTulip,
    OrangeWallBanner,
    OrangeWool,
    OxeyeDaisy,
    ParrotSpawnEgg,
    Peony,
    PetrifiedOakSlab,
    PhantomMembrane,
    PhantomSpawnEgg,
    PigSpawnEgg,
    PinkBanner,
    PinkBed,
    PinkCarpet,
    PinkConcrete,
    PinkConcretePowder,
    PinkDye,
    PinkStainedGlass,
    PinkStainedGlassPane,
    PinkTerracotta,
    PinkTulip,
    PinkWallBanner,
    PinkWool,
    Piston,
    PistonHead,
    PlayerHead,
    PlayerWallHead,
    Podzol,
    PolarBearSpawnEgg,
    PolishedAndesite,
    PolishedDiorite,
    PolishedGranite,
    PoppedChorusFruit,
    Poppy,
    Porkchop,
    Potatoes,
    PottedAcaciaSapling,
    PottedAllium,
    PottedAzureBluet,
    PottedBirchSapling,
    PottedBlueOrchid,
    PottedBrownMushroom,
    PottedCactus,
    PottedDandelion,
    PottedDarkOakSapling,
    PottedDeadBush,
    PottedFern,
    PottedJungleSapling,
    PottedOakSapling,
    PottedOrangeTulip,
    PottedOxeyeDaisy,
    PottedPinkTulip,
    PottedPoppy,
    PottedRedMushroom,
    PottedRedTulip,
    PottedSpruceSapling,
    PottedWhiteTulip,
    PrismarineBricks,
    PrismarineBrickSlab,
    PrismarineBrickStairs,
    PrismarineSlab,
    PrismarineStairs,
    Pufferfish,
    PufferfishBucket,
    PufferfishSpawnEgg,
    PurpleBanner,
    PurpleBed,
    PurpleCarpet,
    PurpleConcrete,
    PurpleConcretePowder,
    PurpleDye,
    PurpleStainedGlass,
    PurpleStainedGlassPane,
    PurpleTerracotta,
    PurpleWallBanner,
    PurpleWool,
    QuartzPillar,
    QuartzSlab,
    RabbitSpawnEgg,
    Rail,
    RedstoneLamp,
    RedstoneTorch,
    RedstoneWallTorch,
    RedBanner,
    RedBed,
    RedCarpet,
    RedConcrete,
    RedConcretePowder,
    RedMushroomBlock,
    RedNetherBricks,
    RedSand,
    RedSandstoneSlab,
    RedStainedGlass,
    RedStainedGlassPane,
    RedTerracotta,
    RedTulip,
    RedWallBanner,
    RedWool,
    Repeater,
    RepeatingCommandBlock,
    RoseBush,
    RoseRed,
    Salmon,
    SalmonBucket,
    SalmonSpawnEgg,
    SandstoneSlab,
    Scute,
    Seagrass,
    SeaPickle,
    SheepSpawnEgg,
    ShulkerBox,
    ShulkerSpawnEgg,
    SilverfishSpawnEgg,
    SkeletonHorseSpawnEgg,
    SkeletonSkull,
    SkeletonSpawnEgg,
    SkeletonWallSkull,
    SlimeSpawnEgg,
    SmoothQuartz,
    SmoothRedSandstone,
    SmoothSandstone,
    SmoothStone,
    Snowball,
    Spawner,
    SpiderSpawnEgg,
    SpruceBoat,
    SpruceButton,
    SpruceLeaves,
    SpruceLog,
    SprucePlanks,
    SprucePressurePlate,
    SpruceSapling,
    SpruceSlab,
    SpruceStairs,
    SpruceTrapdoor,
    SpruceWood,
    SquidSpawnEgg,
    StickyPiston,
    StoneBricks,
    StoneBrickSlab,
    StoneBrickStairs,
    StonePressurePlate,
    StoneShovel,
    StoneSlab,
    StraySpawnEgg,
    StrippedAcaciaLog,
    StrippedAcaciaWood,
    StrippedBirchLog,
    StrippedBirchWood,
    StrippedDarkOakLog,
    StrippedDarkOakWood,
    StrippedJungleLog,
    StrippedJungleWood,
    StrippedOakLog,
    StrippedOakWood,
    StrippedSpruceLog,
    StrippedSpruceWood,
    Sunflower,
    TallGrass,
    TallSeagrass,
    Terracotta,
    TntMinecart,
    TotemOfUndying,
    Trident,
    TropicalFish,
    TropicalFishBucket,
    TropicalFishSpawnEgg,
    TubeCoral,
    TubeCoralBlock,
    TubeCoralFan,
    TubeCoralWallFan,
    TurtleEgg,
    TurtleHelmet,
    TurtleSpawnEgg,
    VexSpawnEgg,
    VillagerSpawnEgg,
    VindicatorSpawnEgg,
    VoidAir,
    WallTorch,
    WetSponge,
    WheatSeeds,
    WhiteBanner,
    WhiteBed,
    WhiteCarpet,
    WhiteConcrete,
    WhiteConcretePowder,
    WhiteStainedGlass,
    WhiteStainedGlassPane,
    WhiteTerracotta,
    WhiteTulip,
    WhiteWallBanner,
    WhiteWool,
    WitchSpawnEgg,
    WitherSkeletonSkull,
    WitherSkeletonSpawnEgg,
    WitherSkeletonWallSkull,
    WolfSpawnEgg,
    WoodenAxe,
    WoodenHoe,
    WoodenPickaxe,
    WoodenShovel,
    WoodenSword,
    WritableBook,
    YellowBanner,
    YellowBed,
    YellowCarpet,
    YellowConcrete,
    YellowConcretePowder,
    YellowStainedGlass,
    YellowStainedGlassPane,
    YellowTerracotta,
    YellowWallBanner,
    YellowWool,
    ZombieHead,
    ZombieHorseSpawnEgg,
    ZombiePigmanSpawnEgg,
    ZombieSpawnEgg,
    ZombieVillagerSpawnEgg,
    ZombieWallHead,
    DeadBrainCoral,
    DeadBubbleCoral,
    DeadFireCoral,
    DeadHornCoral,
    DeadTubeCoral,
    AcaciaSign,
    AcaciaWallSign,
    AndesiteSlab,
    AndesiteStairs,
    AndesiteWall,
    Bamboo,
    BambooSapling,
    Barrel,
    Bell,
    BirchSign,
    BirchWallSign,
    BlackDye,
    BlastFurnace,
    BlueDye,
    BrickWall,
    BrownDye,
    Campfire,
    CartographyTable,
    CatSpawnEgg,
    Composter,
    Cornflower,
    CreeperBannerPattern,
    Crossbow,
    CutRedSandstoneSlab,
    CutSandstoneSlab,
    DarkOakSign,
    DarkOakWallSign,
    DioriteSlab,
    DioriteStairs,
    DioriteWall,
    EndStoneBrickSlab,
    EndStoneBrickStairs,
    EndStoneBrickWall,
    FletchingTable,
    FlowerBannerPattern,
    FoxSpawnEgg,
    GlobeBannerPattern,
    GraniteSlab,
    GraniteStairs,
    GraniteWall,
    GreenDye,
    Grindstone,
    Jigsaw,
    JungleSign,
    JungleWallSign,
    Lantern,
    LeatherHorseArmor,
    Lectern,
    LilyOfTheValley,
    Loom,
    MojangBannerPattern,
    MossyCobblestoneSlab,
    MossyCobblestoneStairs,
    MossyStoneBrickSlab,
    MossyStoneBrickStairs,
    MossyStoneBrickWall,
    NetherBrickWall,
    OakSign,
    OakWallSign,
    PandaSpawnEgg,
    PillagerSpawnEgg,
    PolishedAndesiteSlab,
    PolishedAndesiteStairs,
    PolishedDioriteSlab,
    PolishedDioriteStairs,
    PolishedGraniteSlab,
    PolishedGraniteStairs,
    PottedBamboo,
    PottedCornflower,
    PottedLilyOfTheValley,
    PottedWitherRose,
    PrismarineWall,
    RavagerSpawnEgg,
    RedDye,
    RedNetherBrickSlab,
    RedNetherBrickStairs,
    RedNetherBrickWall,
    RedSandstoneWall,
    SandstoneWall,
    Scaffolding,
    SkullBannerPattern,
    SmithingTable,
    Smoker,
    SmoothQuartzSlab,
    SmoothQuartzStairs,
    SmoothRedSandstoneSlab,
    SmoothRedSandstoneStairs,
    SmoothSandstoneSlab,
    SmoothSandstoneStairs,
    SmoothStoneSlab,
    SpruceSign,
    SpruceWallSign,
    Stonecutter,
    StoneBrickWall,
    StoneStairs,
    SuspiciousStew,
    SweetBerries,
    SweetBerryBush,
    TraderLlamaSpawnEgg,
    WanderingTraderSpawnEgg,
    WhiteDye,
    WitherRose,
    YellowDye,
    Beehive,
    BeeNest,
    BeeSpawnEgg,
    Honeycomb,
    HoneycombBlock,
    HoneyBlock,
    HoneyBottle,
    AncientDebris,
    Basalt,
    Blackstone,
    BlackstoneSlab,
    BlackstoneStairs,
    BlackstoneWall,
    Chain,
    ChiseledNetherBricks,
    ChiseledPolishedBlackstone,
    CrackedNetherBricks,
    CrackedPolishedBlackstoneBricks,
    CrimsonButton,
    CrimsonDoor,
    CrimsonFence,
    CrimsonFenceGate,
    CrimsonFungus,
    CrimsonHyphae,
    CrimsonNylium,
    CrimsonPlanks,
    CrimsonPressurePlate,
    CrimsonRoots,
    CrimsonSign,
    CrimsonSlab,
    CrimsonStairs,
    CrimsonStem,
    CrimsonTrapdoor,
    CrimsonWallSign,
    CryingObsidian,
    GildedBlackstone,
    HoglinSpawnEgg,
    Lodestone,
    MusicDiscPigstep,
    NetheriteAxe,
    NetheriteBlock,
    NetheriteBoots,
    NetheriteChestplate,
    NetheriteHelmet,
    NetheriteHoe,
    NetheriteIngot,
    NetheriteLeggings,
    NetheritePickaxe,
    NetheriteScrap,
    NetheriteShovel,
    NetheriteSword,
    NetherGoldOre,
    NetherSprouts,
    PiglinBannerPattern,
    PiglinSpawnEgg,
    PolishedBasalt,
    PolishedBlackstone,
    PolishedBlackstoneBricks,
    PolishedBlackstoneBrickSlab,
    PolishedBlackstoneBrickStairs,
    PolishedBlackstoneBrickWall,
    PolishedBlackstoneButton,
    PolishedBlackstonePressurePlate,
    PolishedBlackstoneSlab,
    PolishedBlackstoneStairs,
    PolishedBlackstoneWall,
    PottedCrimsonFungus,
    PottedCrimsonRoots,
    PottedWarpedFungus,
    PottedWarpedRoots,
    QuartzBricks,
    RespawnAnchor,
    Shroomlight,
    SoulCampfire,
    SoulFire,
    SoulLantern,
    SoulSoil,
    SoulTorch,
    SoulWallTorch,
    StriderSpawnEgg,
    StrippedCrimsonHyphae,
    StrippedCrimsonStem,
    StrippedWarpedHyphae,
    StrippedWarpedStem,
    Target,
    TwistingVines,
    TwistingVinesPlant,
    WarpedButton,
    WarpedDoor,
    WarpedFence,
    WarpedFenceGate,
    WarpedFungus,
    WarpedFungusOnAStick,
    WarpedHyphae,
    WarpedNylium,
    WarpedPlanks,
    WarpedPressurePlate,
    WarpedRoots,
    WarpedSign,
    WarpedSlab,
    WarpedStairs,
    WarpedStem,
    WarpedTrapdoor,
    WarpedWallSign,
    WarpedWartBlock,
    WeepingVines,
    WeepingVinesPlant,
    ZoglinSpawnEgg,
    ZombifiedPiglinSpawnEgg,
    PiglinBruteSpawnEgg,
    Deepslate,
    CobbledDeepslate,
    PolishedDeepslate,
    Calcite,
    Tuff,
    DripstoneBlock,
    RootedDirt,
    DeepslateCoalOre,
    DeepslateIronOre,
    CopperOre,
    DeepslateCopperOre,
    DeepslateGoldOre,
    DeepslateRedstoneOre,
    DeepslateEmeraldOre,
    DeepslateLapisOre,
    DeepslateDiamondOre,
    RawIronBlock,
    RawCopperBlock,
    RawGoldBlock,
    AmethystBlock,
    BuddingAmethyst,
    CopperBlock,
    ExposedCopper,
    WeatheredCopper,
    OxidizedCopper,
    CutCopper,
    ExposedCutCopper,
    WeatheredCutCopper,
    OxidizedCutCopper,
    CutCopperStairs,
    ExposedCutCopperStairs,
    WeatheredCutCopperStairs,
    OxidizedCutCopperStairs,
    CutCopperSlab,
    ExposedCutCopperSlab,
    WeatheredCutCopperSlab,
    OxidizedCutCopperSlab,
    WaxedCopperBlock,
    WaxedExposedCopper,
    WaxedWeatheredCopper,
    WaxedOxidizedCopper,
    WaxedCutCopper,
    WaxedExposedCutCopper,
    WaxedWeatheredCutCopper,
    WaxedOxidizedCutCopper,
    WaxedCutCopperStairs,
    WaxedExposedCutCopperStairs,
    WaxedWeatheredCutCopperStairs,
    WaxedOxidizedCutCopperStairs,
    WaxedCutCopperSlab,
    WaxedExposedCutCopperSlab,
    WaxedWeatheredCutCopperSlab,
    WaxedOxidizedCutCopperSlab,
    AzaleaLeaves,
    FloweringAzaleaLeaves,
    TintedGlass,
    Azalea,
    FloweringAzalea,
    SporeBlossom,
    MossCarpet,
    MossBlock,
    HangingRoots,
    BigDripleaf,
    SmallDripleaf,
    SmoothBasalt,
    InfestedDeepslate,
    DeepslateBricks,
    CrackedDeepslateBricks,
    DeepslateTiles,
    CrackedDeepslateTiles,
    ChiseledDeepslate,
    GlowLichen,
    CobbledDeepslateWall,
    PolishedDeepslateWall,
    DeepslateBrickWall,
    DeepslateTileWall,
    Light,
    DirtPath,
    CobbledDeepslateStairs,
    PolishedDeepslateStairs,
    DeepslateBrickStairs,
    DeepslateTileStairs,
    CobbledDeepslateSlab,
    PolishedDeepslateSlab,
    DeepslateBrickSlab,
    DeepslateTileSlab,
    LightningRod,
    SculkSensor,
    AmethystShard,
    RawIron,
    RawCopper,
    CopperIngot,
    RawGold,
    PowderSnowBucket,
    AxolotlBucket,
    Bundle,
    Spyglass,
    GlowInkSac,
    AxolotlSpawnEgg,
    GlowSquidSpawnEgg,
    GoatSpawnEgg,
    GlowItemFrame,
    GlowBerries,
    Candle,
    WhiteCandle,
    OrangeCandle,
    MagentaCandle,
    LightBlueCandle,
    YellowCandle,
    LimeCandle,
    PinkCandle,
    GrayCandle,
    LightGrayCandle,
    CyanCandle,
    PurpleCandle,
    BlueCandle,
    BrownCandle,
    GreenCandle,
    RedCandle,
    BlackCandle,
    SmallAmethystBud,
    MediumAmethystBud,
    LargeAmethystBud,
    AmethystCluster,
    PointedDripstone,
    WaterCauldron,
    LavaCauldron,
    PowderSnowCauldron,
    CandleCake,
    WhiteCandleCake,
    OrangeCandleCake,
    MagentaCandleCake,
    LightBlueCandleCake,
    YellowCandleCake,
    LimeCandleCake,
    PinkCandleCake,
    GrayCandleCake,
    LightGrayCandleCake,
    CyanCandleCake,
    PurpleCandleCake,
    BlueCandleCake,
    BrownCandleCake,
    GreenCandleCake,
    RedCandleCake,
    BlackCandleCake,
    PowderSnow,
    CaveVines,
    CaveVinesPlant,
    BigDripleafStem,
    PottedAzaleaBush,
    PottedFloweringAzaleaBush,
}

impl Default for Material {
    /// An empty slot's material: air.
    fn default() -> (m: Material)
        ensures
            m == Material::Air,
    {
        Material::Air
    }
}

/// Which block of the name table holds `m` (the table is split into blocks of
/// 38 materials).
pub open spec fn material_block(m: Material) -> int {
    match m {
        Material::Air
        | Material::Stone
        | Material::Grass
        | Material::Dirt
        | Material::Cobblestone
        | Material::Wood
        | Material::Sapling
        | Material::Bedrock
        | Material::Water
        | Material::StationaryWater
        | Material::Lava
        | Material::StationaryLava
        | Material::Sand
        | Material::Gravel
        | Material::GoldOre
        | Material::IronOre
        | Material::CoalOre
        | Material::Log
        | Material::Leaves
        | Material::Sponge
        | Material::Glass
        | Material::LapisOre
        | Material::LapisBlock
        | Material::Dispenser
        | Material::Sandstone
        | Material::NoteBlock
        | Material::BedBlock
        | Material::PoweredRail
        | Material::DetectorRail
        | Material::PistonStickyBase
        | Material::Web
        | Material::LongGrass
        | Material::DeadBush
        | Material::PistonBase
        | Material::PistonExtension
        | Material::Wool
        | Material::PistonMovingPiece
        | Material::YellowFlower => 0,
        Material::RedRose
        | Material::BrownMushroom
        | Material::RedMushroom
        | Material::GoldBlock
        | Material::IronBlock
        | Material::DoubleStep
        | Material::Step
        | Material::Brick
        | Material::Tnt
        | Material::Bookshelf
        | Material::MossyCobblestone
        | Material::Obsidian
        | Material::Torch
        | Material::Fire
        | Material::MobSpawner
        | Material::WoodStairs
        | Material::Chest
        | Material::RedstoneWire
        | Material::DiamondOre
        | Material::DiamondBlock
        | Material::Workbench
        | Material::Crops
        | Material::Soil
        | Material::Furnace
        | Material::BurningFurnace
        | Material::SignPost
        | Material::WoodenDoor
        | Material::Ladder
        | Material::Rails
        | Material::CobblestoneStairs
        | Material::WallSign
        | Material::Lever
        | Material::StonePlate
        | Material::IronDoorBlock
        | Material::WoodPlate
        | Material::RedstoneOre
        | Material::GlowingRedstoneOre
        | Material::RedstoneTorchOff => 1,
        Material::RedstoneTorchOn
        | Material::StoneButton
        | Material::Snow
        | Material::Ice
        | Material::SnowBlock
        | Material::Cactus
        | Material::Clay
        | Material::SugarCaneBlock
        | Material::Jukebox
        | Material::Fence
        | Material::Pumpkin
        | Material::Netherrack
        | Material::SoulSand
        | Material::Glowstone
        | Material::Portal
        | Material::JackOLantern
        | Material::CakeBlock
        | Material::DiodeBlockOff
        | Material::DiodeBlockOn
        | Material::LockedChest
        | Material::StainedGlass
        | Material::TrapDoor
        | Material::MonsterEggs
        | Material::SmoothBrick
        | Material::HugeMushroom1
        | Material::HugeMushroom2
        | Material::IronFence
        | Material::ThinGlass
        | Material::MelonBlock
        | Material::PumpkinStem
        | Material::MelonStem
        | Material::Vine
        | Material::FenceGate
        | Material::BrickStairs
        | Material::SmoothStairs
        | Material::Mycel
        | Material::WaterLily
        | Material::NetherBrick => 2,
        Material::NetherFence
        | Material::NetherBrickStairs
        | Material::NetherWarts
        | Material::EnchantmentTable
        | Material::BrewingStand
        | Material::Cauldron
        | Material::EnderPortal
        | Material::EnderPortalFrame
        | Material::EnderStone
        | Material::DragonEgg
        | Material::RedstoneLampOff
        | Material::RedstoneLampOn
        | Material::WoodDoubleStep
        | Material::WoodStep
        | Material::Cocoa
        | Material::SandstoneStairs
        | Material::EmeraldOre
        | Material::EnderChest
        | Material::TripwireHook
        | Material::Tripwire
        | Material::EmeraldBlock
        | Material::SpruceWoodStairs
        | Material::BirchWoodStairs
        | Material::JungleWoodStairs
        | Material::Command
        | Material::Beacon
        | Material::CobbleWall
        | Material::FlowerPot
        | Material::Carrot
        | Material::Potato
        | Material::WoodButton
        | Material::Skull
        | Material::Anvil
        | Material::TrappedChest
        | Material::GoldPlate
        | Material::IronPlate
        | Material::RedstoneComparatorOff
        | Material::RedstoneComparatorOn => 3,
        Material::DaylightDetector
        | Material::RedstoneBlock
        | Material::QuartzOre
        | Material::Hopper
        | Material::QuartzBlock
        | Material::QuartzStairs
        | Material::ActivatorRail
        | Material::Dropper
        | Material::StainedClay
        | Material::StainedGlassPane
        | Material::Leaves2
        | Material::Log2
        | Material::AcaciaStairs
        | Material::DarkOakStairs
        | Material::HayBlock
        | Material::Carpet
        | Material::HardClay
        | Material::CoalBlock
        | Material::PackedIce
        | Material::DoublePlant
        | Material::IronSpade
        | Material::IronPickaxe
        | Material::IronAxe
        | Material::FlintAndSteel
        | Material::Apple
        | Material::Bow
        | Material::Arrow
        | Material::Coal
        | Material::Diamond
        | Material::IronIngot
        | Material::GoldIngot
        | Material::IronSword
        | Material::WoodSword
        | Material::WoodSpade
        | Material::WoodPickaxe
        | Material::WoodAxe
        | Material::StoneSword
        | Material::StoneSpade => 4,
        Material::StonePickaxe
        | Material::StoneAxe
        | Material::DiamondSword
        | Material::DiamondSpade
        | Material::DiamondPickaxe
        | Material::DiamondAxe
        | Material::Stick
        | Material::Bowl
        | Material::MushroomSoup
        | Material::GoldSword
        | Material::GoldSpade
        | Material::GoldPickaxe
        | Material::GoldAxe
        | Material::String
        | Material::Feather
        | Material::Sulphur
        | Material::WoodHoe
        | Material::StoneHoe
        | Material::IronHoe
        | Material::DiamondHoe
        | Material::GoldHoe
        | Material::Seeds
        | Material::Wheat
        | Material::Bread
        | Material::LeatherHelmet
        | Material::LeatherChestplate
        | Material::LeatherLeggings
        | Material::LeatherBoots
        | Material::ChainmailHelmet
        | Material::ChainmailChestplate
        | Material::ChainmailLeggings
        | Material::ChainmailBoots
        | Material::IronHelmet
        | Material::IronChestplate
        | Material::IronLeggings
        | Material::IronBoots
        | Material::DiamondHelmet
        | Material::DiamondChestplate => 5,
        Material::DiamondLeggings
        | Material::DiamondBoots
        | Material::GoldHelmet
        | Material::GoldChestplate
        | Material::GoldLeggings
        | Material::GoldBoots
        | Material::Flint
        | Material::Pork
        | Material::GrilledPork
        | Material::Painting
        | Material::GoldenApple
        | Material::Sign
        | Material::WoodDoor
        | Material::Bucket
        | Material::WaterBucket
        | Material::LavaBucket
        | Material::Minecart
        | Material::Saddle
        | Material::IronDoor
        | Material::Redstone
        | Material::SnowBall
        | Material::Boat
        | Material::Leather
        | Material::MilkBucket
        | Material::ClayBrick
        | Material::ClayBall
        | Material::SugarCane
        | Material::Paper
        | Material::Book
        | Material::SlimeBall
        | Material::StorageMinecart
        | Material::PoweredMinecart
        | Material::Egg
        | Material::Compass
        | Material::FishingRod
        | Material::Watch
        | Material::GlowstoneDust
        | Material::RawFish => 6,
        Material::CookedFish
        | Material::InkSack
        | Material::Bone
        | Material::Sugar
        | Material::Cake
        | Material::Bed
        | Material::Diode
        | Material::Cookie
        | Material::LegacyMap
        | Material::Shears
        | Material::Melon
        | Material::PumpkinSeeds
        | Material::MelonSeeds
        | Material::RawBeef
        | Material::CookedBeef
        | Material::RawChicken
        | Material::CookedChicken
        | Material::RottenFlesh
        | Material::EnderPearl
        | Material::BlazeRod
        | Material::GhastTear
        | Material::GoldNugget
        | Material::NetherStalk
        | Material::Potion
        | Material::GlassBottle
        | Material::SpiderEye
        | Material::FermentedSpiderEye
        | Material::BlazePowder
        | Material::MagmaCream
        | Material::BrewingStandItem
        | Material::CauldronItem
        | Material::EyeOfEnder
        | Material::SpeckledMelon
        | Material::MonsterEgg
        | Material::ExpBottle
        | Material::Fireball
        | Material::BookAndQuill
        | Material::WrittenBook => 7,
        Material::Emerald
        | Material::ItemFrame
        | Material::FlowerPotItem
        | Material::CarrotItem
        | Material::PotatoItem
        | Material::BakedPotato
        | Material::PoisonousPotato
        | Material::EmptyMap
        | Material::GoldenCarrot
        | Material::SkullItem
        | Material::CarrotStick
        | Material::NetherStar
        | Material::PumpkinPie
        | Material::Firework
        | Material::FireworkCharge
        | Material::EnchantedBook
        | Material::RedstoneComparator
        | Material::NetherBrickItem
        | Material::Quartz
        | Material::ExplosiveMinecart
        | Material::HopperMinecart
        | Material::IronBarding
        | Material::GoldBarding
        | Material::DiamondBarding
        | Material::Leash
        | Material::NameTag
        | Material::CommandMinecart
        | Material::GoldRecord
        | Material::GreenRecord
        | Material::Record3
        | Material::Record4
        | Material::Record5
        | Material::Record6
        | Material::Record7
        | Material::Record8
        | Material::Record9
        | Material::Record10
        | Material::Record11 => 8,
        Material::Record12
        | Material::SlimeBlock
        | Material::Barrier
        | Material::IronTrapdoor
        | Material::Prismarine
        | Material::SeaLantern
        | Material::StandingBanner
        | Material::WallBanner
        | Material::DaylightDetectorInverted
        | Material::RedSandstone
        | Material::RedSandstoneStairs
        | Material::DoubleStoneSlab2
        | Material::StoneSlab2
        | Material::SpruceFenceGate
        | Material::BirchFenceGate
        | Material::JungleFenceGate
        | Material::DarkOakFenceGate
        | Material::AcaciaFenceGate
        | Material::SpruceFence
        | Material::BirchFence
        | Material::JungleFence
        | Material::DarkOakFence
        | Material::AcaciaFence
        | Material::SpruceDoor
        | Material::BirchDoor
        | Material::JungleDoor
        | Material::AcaciaDoor
        | Material::DarkOakDoor
        | Material::PrismarineShard
        | Material::PrismarineCrystals
        | Material::Rabbit
        | Material::CookedRabbit
        | Material::RabbitStew
        | Material::RabbitFoot
        | Material::RabbitHide
        | Material::ArmorStand
        | Material::Mutton
        | Material::CookedMutton => 9,
        Material::Banner
        | Material::SpruceDoorItem
        | Material::BirchDoorItem
        | Material::JungleDoorItem
        | Material::AcaciaDoorItem
        | Material::DarkOakDoorItem
        | Material::EndRod
        | Material::ChorusPlant
        | Material::ChorusFlower
        | Material::PurpurBlock
        | Material::PurpurPillar
        | Material::PurpurStairs
        | Material::PurpurDoubleSlab
        | Material::PurpurSlab
        | Material::EndBricks
        | Material::BeetrootBlock
        | Material::GrassPath
        | Material::EndGateway
        | Material::CommandRepeating
        | Material::CommandChain
        | Material::StructureBlock
        | Material::EndCrystal
        | Material::ChorusFruit
        | Material::ChorusFruitPopped
        | Material::Beetroot
        | Material::BeetrootSeeds
        | Material::BeetrootSoup
        | Material::DragonsBreath
        | Material::SplashPotion
        | Material::SpectralArrow
        | Material::TippedArrow
        | Material::LingeringPotion
        | Material::Shield
        | Material::Elytra
        | Material::BoatSpruce
        | Material::BoatBirch
        | Material::BoatJungle
        | Material::BoatAcacia => 10,
        Material::BoatDarkOak
        | Material::FrostedIce
        | Material::Magma
        | Material::NetherWartBlock
        | Material::RedNetherBrick
        | Material::BoneBlock
        | Material::StructureVoid
        | Material::Observer
        | Material::WhiteShulkerBox
        | Material::OrangeShulkerBox
        | Material::MagentaShulkerBox
        | Material::LightBlueShulkerBox
        | Material::YellowShulkerBox
        | Material::LimeShulkerBox
        | Material::PinkShulkerBox
        | Material::GrayShulkerBox
        | Material::SilverShulkerBox
        | Material::CyanShulkerBox
        | Material::PurpleShulkerBox
        | Material::BlueShulkerBox
        | Material::BrownShulkerBox
        | Material::GreenShulkerBox
        | Material::RedShulkerBox
        | Material::BlackShulkerBox
        | Material::Totem
        | Material::ShulkerShell
        | Material::IronNugget
        | Material::WhiteGlazedTerracotta
        | Material::OrangeGlazedTerracotta
        | Material::MagentaGlazedTerracotta
        | Material::LightBlueGlazedTerracotta
        | Material::YellowGlazedTerracotta
        | Material::LimeGlazedTerracotta
        | Material::PinkGlazedTerracotta
        | Material::GrayGlazedTerracotta
        | Material::SilverGlazedTerracotta
        | Material::CyanGlazedTerracotta
        | Material::PurpleGlazedTerracotta => 11,
        Material::BlueGlazedTerracotta
        | Material::BrownGlazedTerracotta
        | Material::GreenGlazedTerracotta
        | Material::RedGlazedTerracotta
        | Material::BlackGlazedTerracotta
        | Material::Concrete
        | Material::ConcretePowder
        | Material::KnowledgeBook
        | Material::AcaciaBoat
        | Material::AcaciaButton
        | Material::AcaciaLeaves
        | Material::AcaciaLog
        | Material::AcaciaPlanks
        | Material::AcaciaPressurePlate
        | Material::AcaciaSapling
        | Material::AcaciaSlab
        | Material::AcaciaTrapdoor
        | Material::AcaciaWood
        | Material::Allium
        | Material::Andesite
        | Material::AttachedMelonStem
        | Material::AttachedPumpkinStem
        | Material::AzureBluet
        | Material::BatSpawnEgg
        | Material::Beef
        | Material::Beetroots
        | Material::BirchBoat
        | Material::BirchButton
        | Material::BirchLeaves
        | Material::BirchLog
        | Material::BirchPlanks
        | Material::BirchPressurePlate
        | Material::BirchSapling
        | Material::BirchSlab
        | Material::BirchStairs
        | Material::BirchTrapdoor
        | Material::BirchWood
        | Material::BlackBanner => 12,
        Material::BlackBed
        | Material::BlackCarpet
        | Material::BlackConcrete
        | Material::BlackConcretePowder
        | Material::BlackStainedGlass
        | Material::BlackStainedGlassPane
        | Material::BlackTerracotta
        | Material::BlackWallBanner
        | Material::BlackWool
        | Material::BlazeSpawnEgg
        | Material::BlueBanner
        | Material::BlueBed
        | Material::BlueCarpet
        | Material::BlueConcrete
        | Material::BlueConcretePowder
        | Material::BlueIce
        | Material::BlueOrchid
        | Material::BlueStainedGlass
        | Material::BlueStainedGlassPane
        | Material::BlueTerracotta
        | Material::BlueWallBanner
        | Material::BlueWool
        | Material::BoneMeal
        | Material::BrainCoral
        | Material::BrainCoralBlock
        | Material::BrainCoralFan
        | Material::BrainCoralWallFan
        | Material::Bricks
        | Material::BrickSlab
        | Material::BrownBanner
        | Material::BrownBed
        | Material::BrownCarpet
        | Material::BrownConcrete
        | Material::BrownConcretePowder
        | Material::BrownMushroomBlock
        | Material::BrownStainedGlass
        | Material::BrownStainedGlassPane
        | Material::BrownTerracotta => 13,
        Material::BrownWallBanner
        | Material::BrownWool
        | Material::BubbleColumn
        | Material::BubbleCoral
        | Material::BubbleCoralBlock
        | Material::BubbleCoralFan
        | Material::BubbleCoralWallFan
        | Material::CactusGreen
        | Material::Carrots
        | Material::CarrotOnAStick
        | Material::CarvedPumpkin
        | Material::CaveAir
        | Material::CaveSpiderSpawnEgg
        | Material::ChainCommandBlock
        | Material::Charcoal
        | Material::ChestMinecart
        | Material::Chicken
        | Material::ChickenSpawnEgg
        | Material::ChippedAnvil
        | Material::ChiseledQuartzBlock
        | Material::ChiseledRedSandstone
        | Material::ChiseledSandstone
        | Material::ChiseledStoneBricks
        | Material::Clock
        | Material::CoarseDirt
        | Material::CobblestoneSlab
        | Material::CobblestoneWall
        | Material::Cobweb
        | Material::CocoaBeans
        | Material::Cod
        | Material::CodBucket
        | Material::CodSpawnEgg
        | Material::CommandBlock
        | Material::CommandBlockMinecart
        | Material::Comparator
        | Material::Conduit
        | Material::CookedCod
        | Material::CookedPorkchop => 14,
        Material::CookedSalmon
        | Material::CowSpawnEgg
        | Material::CrackedStoneBricks
        | Material::CraftingTable
        | Material::CreeperHead
        | Material::CreeperSpawnEgg
        | Material::CreeperWallHead
        | Material::CutRedSandstone
        | Material::CutSandstone
        | Material::CyanBanner
        | Material::CyanBed
        | Material::CyanCarpet
        | Material::CyanConcrete
        | Material::CyanConcretePowder
        | Material::CyanDye
        | Material::CyanStainedGlass
        | Material::CyanStainedGlassPane
        | Material::CyanTerracotta
        | Material::CyanWallBanner
        | Material::CyanWool
        | Material::DamagedAnvil
        | Material::Dandelion
        | Material::DandelionYellow
        | Material::DarkOakBoat
        | Material::DarkOakButton
        | Material::DarkOakLeaves
        | Material::DarkOakLog
        | Material::DarkOakPlanks
        | Material::DarkOakPressurePlate
        | Material::DarkOakSapling
        | Material::DarkOakSlab
        | Material::DarkOakTrapdoor
        | Material::DarkOakWood
        | Material::DarkPrismarine
        | Material::DarkPrismarineSlab
        | Material::DarkPrismarineStairs
        | Material::DeadBrainCoralBlock
        | Material::DeadBrainCoralFan => 15,
        Material::DeadBrainCoralWallFan
        | Material::DeadBubbleCoralBlock
        | Material::DeadBubbleCoralFan
        | Material::DeadBubbleCoralWallFan
        | Material::DeadFireCoralBlock
        | Material::DeadFireCoralFan
        | Material::DeadFireCoralWallFan
        | Material::DeadHornCoralBlock
        | Material::DeadHornCoralFan
        | Material::DeadHornCoralWallFan
        | Material::DeadTubeCoralBlock
        | Material::DeadTubeCoralFan
        | Material::DeadTubeCoralWallFan
        | Material::DebugStick
        | Material::DiamondHorseArmor
        | Material::DiamondShovel
        | Material::Diorite
        | Material::DolphinSpawnEgg
        | Material::DonkeySpawnEgg
        | Material::DragonBreath
        | Material::DragonHead
        | Material::DragonWallHead
        | Material::DriedKelp
        | Material::DriedKelpBlock
        | Material::DrownedSpawnEgg
        | Material::ElderGuardianSpawnEgg
        | Material::EnchantedGoldenApple
        | Material::EnchantingTable
        | Material::EndermanSpawnEgg
        | Material::EndermiteSpawnEgg
        | Material::EnderEye
        | Material::EndPortal
        | Material::EndPortalFrame
        | Material::EndStone
        | Material::EndStoneBricks
        | Material::EvokerSpawnEgg
        | Material::ExperienceBottle
        | Material::Farmland => 16,
        Material::Fern
        | Material::FilledMap
        | Material::FireworkRocket
        | Material::FireworkStar
        | Material::FireCharge
        | Material::FireCoral
        | Material::FireCoralBlock
        | Material::FireCoralFan
        | Material::FireCoralWallFan
        | Material::FurnaceMinecart
        | Material::GhastSpawnEgg
        | Material::GlassPane
        | Material::GlisteringMelonSlice
        | Material::GoldenAxe
        | Material::GoldenBoots
        | Material::GoldenChestplate
        | Material::GoldenHelmet
        | Material::GoldenHoe
        | Material::GoldenHorseArmor
        | Material::GoldenLeggings
        | Material::GoldenPickaxe
        | Material::GoldenShovel
        | Material::GoldenSword
        | Material::Granite
        | Material::GrassBlock
        | Material::GrayBanner
        | Material::GrayBed
        | Material::GrayCarpet
        | Material::GrayConcrete
        | Material::GrayConcretePowder
        | Material::GrayDye
        | Material::GrayStainedGlass
        | Material::GrayStainedGlassPane
        | Material::GrayTerracotta
        | Material::GrayWallBanner
        | Material::GrayWool
        | Material::GreenBanner
        | Material::GreenBed => 17,
        Material::GreenCarpet
        | Material::GreenConcrete
        | Material::GreenConcretePowder
        | Material::GreenStainedGlass
        | Material::GreenStainedGlassPane
        | Material::GreenTerracotta
        | Material::GreenWallBanner
        | Material::GreenWool
        | Material::GuardianSpawnEgg
        | Material::Gunpowder
        | Material::HeartOfTheSea
        | Material::HeavyWeightedPressurePlate
        | Material::HornCoral
        | Material::HornCoralBlock
        | Material::HornCoralFan
        | Material::HornCoralWallFan
        | Material::HorseSpawnEgg
        | Material::HuskSpawnEgg
        | Material::InfestedChiseledStoneBricks
        | Material::InfestedCobblestone
        | Material::InfestedCrackedStoneBricks
        | Material::InfestedMossyStoneBricks
        | Material::InfestedStone
        | Material::InfestedStoneBricks
        | Material::InkSac
        | Material::IronBars
        | Material::IronHorseArmor
        | Material::IronShovel
        | Material::JungleBoat
        | Material::JungleButton
        | Material::JungleLeaves
        | Material::JungleLog
        | Material::JunglePlanks
        | Material::JunglePressurePlate
        | Material::JungleSapling
        | Material::JungleSlab
        | Material::JungleStairs
        | Material::JungleTrapdoor => 18,
        Material::JungleWood
        | Material::Kelp
        | Material::KelpPlant
        | Material::LapisLazuli
        | Material::LargeFern
        | Material::Lead
        | Material::LightBlueBanner
        | Material::LightBlueBed
        | Material::LightBlueCarpet
        | Material::LightBlueConcrete
        | Material::LightBlueConcretePowder
        | Material::LightBlueDye
        | Material::LightBlueStainedGlass
        | Material::LightBlueStainedGlassPane
        | Material::LightBlueTerracotta
        | Material::LightBlueWallBanner
        | Material::LightBlueWool
        | Material::LightGrayBanner
        | Material::LightGrayBed
        | Material::LightGrayCarpet
        | Material::LightGrayConcrete
        | Material::LightGrayConcretePowder
        | Material::LightGrayDye
        | Material::LightGrayGlazedTerracotta
        | Material::LightGrayShulkerBox
        | Material::LightGrayStainedGlass
        | Material::LightGrayStainedGlassPane
        | Material::LightGrayTerracotta
        | Material::LightGrayWallBanner
        | Material::LightGrayWool
        | Material::LightWeightedPressurePlate
        | Material::Lilac
        | Material::LilyPad
        | Material::LimeBanner
        | Material::LimeBed
        | Material::LimeCarpet
        | Material::LimeConcrete
        | Material::LimeConcretePowder => 19,
        Material::LimeDye
        | Material::LimeStainedGlass
        | Material::LimeStainedGlassPane
        | Material::LimeTerracotta
        | Material::LimeWallBanner
        | Material::LimeWool
        | Material::LlamaSpawnEgg
        | Material::MagentaBanner
        | Material::MagentaBed
        | Material::MagentaCarpet
        | Material::MagentaConcrete
        | Material::MagentaConcretePowder
        | Material::MagentaDye
        | Material::MagentaStainedGlass
        | Material::MagentaStainedGlassPane
        | Material::MagentaTerracotta
        | Material::MagentaWallBanner
        | Material::MagentaWool
        | Material::MagmaBlock
        | Material::MagmaCubeSpawnEgg
        | Material::MelonSlice
        | Material::MooshroomSpawnEgg
        | Material::MossyCobblestoneWall
        | Material::MossyStoneBricks
        | Material::MovingPiston
        | Material::MuleSpawnEgg
        | Material::MushroomStem
        | Material::MushroomStew
        | Material::MusicDisc11
        | Material::MusicDisc13
        | Material::MusicDiscBlocks
        | Material::MusicDiscCat
        | Material::MusicDiscChirp
        | Material::MusicDiscFar
        | Material::MusicDiscMall
        | Material::MusicDiscMellohi
        | Material::MusicDiscStal
        | Material::MusicDiscStrad => 20,
        Material::MusicDiscWait
        | Material::MusicDiscWard
        | Material::Mycelium
        | Material::NautilusShell
        | Material::NetherBricks
        | Material::NetherBrickFence
        | Material::NetherBrickSlab
        | Material::NetherPortal
        | Material::NetherQuartzOre
        | Material::NetherWart
        | Material::OakBoat
        | Material::OakButton
        | Material::OakDoor
        | Material::OakFence
        | Material::OakFenceGate
        | Material::OakLeaves
        | Material::OakLog
        | Material::OakPlanks
        | Material::OakPressurePlate
        | Material::OakSapling
        | Material::OakSlab
        | Material::OakStairs
        | Material::OakTrapdoor
        | Material::OakWood
        | Material::OcelotSpawnEgg
        | Material::OrangeBanner
        | Material::OrangeBed
        | Material::OrangeCarpet
        | Material::OrangeConcrete
        | Material::OrangeConcretePowder
        | Material::OrangeDye
        | Material::OrangeStainedGlass
        | Material::OrangeStainedGlassPane
        | Material::OrangeTerracotta
        | Material::OrangeTulip
        | Material::OrangeWallBanner
        | Material::OrangeWool
        | Material::OxeyeDaisy => 21,
        Material::ParrotSpawnEgg
        | Material::Peony
        | Material::PetrifiedOakSlab
        | Material::PhantomMembrane
        | Material::PhantomSpawnEgg
        | Material::PigSpawnEgg
        | Material::PinkBanner
        | Material::PinkBed
        | Material::PinkCarpet
        | Material::PinkConcrete
        | Material::PinkConcretePowder
        | Material::PinkDye
        | Material::PinkStainedGlass
        | Material::PinkStainedGlassPane
        | Material::PinkTerracotta
        | Material::PinkTulip
        | Material::PinkWallBanner
        | Material::PinkWool
        | Material::Piston
        | Material::PistonHead
        | Material::PlayerHead
        | Material::PlayerWallHead
        | Material::Podzol
        | Material::PolarBearSpawnEgg
        | Material::PolishedAndesite
        | Material::PolishedDiorite
        | Material::PolishedGranite
        | Material::PoppedChorusFruit
        | Material::Poppy
        | Material::Porkchop
        | Material::Potatoes
        | Material::PottedAcaciaSapling
        | Material::PottedAllium
        | Material::PottedAzureBluet
        | Material::PottedBirchSapling
        | Material::PottedBlueOrchid
        | Material::PottedBrownMushroom
        | Material::PottedCactus => 22,
        Material::PottedDandelion
        | Material::PottedDarkOakSapling
        | Material::PottedDeadBush
        | Material::PottedFern
        | Material::PottedJungleSapling
        | Material::PottedOakSapling
        | Material::PottedOrangeTulip
        | Material::PottedOxeyeDaisy
        | Material::PottedPinkTulip
        | Material::PottedPoppy
        | Material::PottedRedMushroom
        | Material::PottedRedTulip
        | Material::PottedSpruceSapling
        | Material::PottedWhiteTulip
        | Material::PrismarineBricks
        | Material::PrismarineBrickSlab
        | Material::PrismarineBrickStairs
        | Material::PrismarineSlab
        | Material::PrismarineStairs
        | Material::Pufferfish
        | Material::PufferfishBucket
        | Material::PufferfishSpawnEgg
        | Material::PurpleBanner
        | Material::PurpleBed
        | Material::PurpleCarpet
        | Material::PurpleConcrete
        | Material::PurpleConcretePowder
        | Material::PurpleDye
        | Material::PurpleStainedGlass
        | Material::PurpleStainedGlassPane
        | Material::PurpleTerracotta
        | Material::PurpleWallBanner
        | Material::PurpleWool
        | Material::QuartzPillar
        | Material::QuartzSlab
        | Material::RabbitSpawnEgg
        | Material::Rail
        | Material::RedstoneLamp => 23,
        Material::RedstoneTorch
        | Material::RedstoneWallTorch
        | Material::RedBanner
        | Material::RedBed
        | Material::RedCarpet
        | Material::RedConcrete
        | Material::RedConcretePowder
        | Material::RedMushroomBlock
        | Material::RedNetherBricks
        | Material::RedSand
        | Material::RedSandstoneSlab
        | Material::RedStainedGlass
        | Material::RedStainedGlassPane
        | Material::RedTerracotta
        | Material::RedTulip
        | Material::RedWallBanner
        | Material::RedWool
        | Material::Repeater
        | Material::RepeatingCommandBlock
        | Material::RoseBush
        | Material::RoseRed
        | Material::Salmon
        | Material::SalmonBucket
        | Material::SalmonSpawnEgg
        | Material::SandstoneSlab
        | Material::Scute
        | Material::Seagrass
        | Material::SeaPickle
        | Material::SheepSpawnEgg
        | Material::ShulkerBox
        | Material::ShulkerSpawnEgg
        | Material::SilverfishSpawnEgg
        | Material::SkeletonHorseSpawnEgg
        | Material::SkeletonSkull
        | Material::SkeletonSpawnEgg
        | Material::SkeletonWallSkull
        | Material::SlimeSpawnEgg
        | Material::SmoothQuartz => 24,
        Material::SmoothRedSandstone
        | Material::SmoothSandstone
        | Material::SmoothStone
        | Material::Snowball
        | Material::Spawner
        | Material::SpiderSpawnEgg
        | Material::SpruceBoat
        | Material::SpruceButton
        | Material::SpruceLeaves
        | Material::SpruceLog
        | Material::SprucePlanks
        | Material::SprucePressurePlate
        | Material::SpruceSapling
        | Material::SpruceSlab
        | Material::SpruceStairs
        | Material::SpruceTrapdoor
        | Material::SpruceWood
        | Material::SquidSpawnEgg
        | Material::StickyPiston
        | Material::StoneBricks
        | Material::StoneBrickSlab
        | Material::StoneBrickStairs
        | Material::StonePressurePlate
        | Material::StoneShovel
        | Material::StoneSlab
        | Material::StraySpawnEgg
        | Material::StrippedAcaciaLog
        | Material::StrippedAcaciaWood
        | Material::StrippedBirchLog
        | Material::StrippedBirchWood
        | Material::StrippedDarkOakLog
        | Material::StrippedDarkOakWood
        | Material::StrippedJungleLog
        | Material::StrippedJungleWood
        | Material::StrippedOakLog
        | Material::StrippedOakWood
        | Material::StrippedSpruceLog
        | Material::StrippedSpruceWood => 25,
        Material::Sunflower
        | Material::TallGrass
        | Material::TallSeagrass
        | Material::Terracotta
        | Material::TntMinecart
        | Material::TotemOfUndying
        | Material::Trident
        | Material::TropicalFish
        | Material::TropicalFishBucket
        | Material::TropicalFishSpawnEgg
        | Material::TubeCoral
        | Material::TubeCoralBlock
        | Material::TubeCoralFan
        | Material::TubeCoralWallFan
        | Material::TurtleEgg
        | Material::TurtleHelmet
        | Material::TurtleSpawnEgg
        | Material::VexSpawnEgg
        | Material::VillagerSpawnEgg
        | Material::VindicatorSpawnEgg
        | Material::VoidAir
        | Material::WallTorch
        | Material::WetSponge
        | Material::WheatSeeds
        | Material::WhiteBanner
        | Material::WhiteBed
        | Material::WhiteCarpet
        | Material::WhiteConcrete
        | Material::WhiteConcretePowder
        | Material::WhiteStainedGlass
        | Material::WhiteStainedGlassPane
        | Material::WhiteTerracotta
        | Material::WhiteTulip
        | Material::WhiteWallBanner
        | Material::WhiteWool
        | Material::WitchSpawnEgg
        | Material::WitherSkeletonSkull
        | Material::WitherSkeletonSpawnEgg => 26,
        Material::WitherSkeletonWallSkull
        | Material::WolfSpawnEgg
        | Material::WoodenAxe
        | Material::WoodenHoe
        | Material::WoodenPickaxe
        | Material::WoodenShovel
        | Material::WoodenSword
        | Material::WritableBook
        | Material::YellowBanner
        | Material::YellowBed
        | Material::YellowCarpet
        | Material::YellowConcrete
        | Material::YellowConcretePowder
        | Material::YellowStainedGlass
        | Material::YellowStainedGlassPane
        | Material::YellowTerracotta
        | Material::YellowWallBanner
        | Material::YellowWool
        | Material::ZombieHead
        | Material::ZombieHorseSpawnEgg
        | Material::ZombiePigmanSpawnEgg
        | Material::ZombieSpawnEgg
        | Material::ZombieVillagerSpawnEgg
        | Material::ZombieWallHead
        | Material::DeadBrainCoral
        | Material::DeadBubbleCoral
        | Material::DeadFireCoral
        | Material::DeadHornCoral
        | Material::DeadTubeCoral
        | Material::AcaciaSign
        | Material::AcaciaWallSign
        | Material::AndesiteSlab
        | Material::AndesiteStairs
        | Material::AndesiteWall
        | Material::Bamboo
        | Material::BambooSapling
        | Material::Barrel
        | Material::Bell => 27,
        Material::BirchSign
        | Material::BirchWallSign
        | Material::BlackDye
        | Material::BlastFurnace
        | Material::BlueDye
        | Material::BrickWall
        | Material::BrownDye
        | Material::Campfire
        | Material::CartographyTable
        | Material::CatSpawnEgg
        | Material::Composter
        | Material::Cornflower
        | Material::CreeperBannerPattern
        | Material::Crossbow
        | Material::CutRedSandstoneSlab
        | Material::CutSandstoneSlab
        | Material::DarkOakSign
        | Material::DarkOakWallSign
        | Material::DioriteSlab
        | Material::DioriteStairs
        | Material::DioriteWall
        | Material::EndStoneBrickSlab
        | Material::EndStoneBrickStairs
        | Material::EndStoneBrickWall
        | Material::FletchingTable
        | Material::FlowerBannerPattern
        | Material::FoxSpawnEgg
        | Material::GlobeBannerPattern
        | Material::GraniteSlab
        | Material::GraniteStairs
        | Material::GraniteWall
        | Material::GreenDye
        | Material::Grindstone
        | Material::Jigsaw
        | Material::JungleSign
        | Material::JungleWallSign
        | Material::Lantern
        | Material::LeatherHorseArmor => 28,
        Material::Lectern
        | Material::LilyOfTheValley
        | Material::Loom
        | Material::MojangBannerPattern
        | Material::MossyCobblestoneSlab
        | Material::MossyCobblestoneStairs
        | Material::MossyStoneBrickSlab
        | Material::MossyStoneBrickStairs
        | Material::MossyStoneBrickWall
        | Material::NetherBrickWall
        | Material::OakSign
        | Material::OakWallSign
        | Material::PandaSpawnEgg
        | Material::PillagerSpawnEgg
        | Material::PolishedAndesiteSlab
        | Material::PolishedAndesiteStairs
        | Material::PolishedDioriteSlab
        | Material::PolishedDioriteStairs
        | Material::PolishedGraniteSlab
        | Material::PolishedGraniteStairs
        | Material::PottedBamboo
        | Material::PottedCornflower
        | Material::PottedLilyOfTheValley
        | Material::PottedWitherRose
        | Material::PrismarineWall
        | Material::RavagerSpawnEgg
        | Material::RedDye
        | Material::RedNetherBrickSlab
        | Material::RedNetherBrickStairs
        | Material::RedNetherBrickWall
        | Material::RedSandstoneWall
        | Material::SandstoneWall
        | Material::Scaffolding
        | Material::SkullBannerPattern
        | Material::SmithingTable
        | Material::Smoker
        | Material::SmoothQuartzSlab
        | Material::SmoothQuartzStairs => 29,
        Material::SmoothRedSandstoneSlab
        | Material::SmoothRedSandstoneStairs
        | Material::SmoothSandstoneSlab
        | Material::SmoothSandstoneStairs
        | Material::SmoothStoneSlab
        | Material::SpruceSign
        | Material::SpruceWallSign
        | Material::Stonecutter
        | Material::StoneBrickWall
        | Material::StoneStairs
        | Material::SuspiciousStew
        | Material::SweetBerries
        | Material::SweetBerryBush
        | Material::TraderLlamaSpawnEgg
        | Material::WanderingTraderSpawnEgg
        | Material::WhiteDye
        | Material::WitherRose
        | Material::YellowDye
        | Material::Beehive
        | Material::BeeNest
        | Material::BeeSpawnEgg
        | Material::Honeycomb
        | Material::HoneycombBlock
        | Material::HoneyBlock
        | Material::HoneyBottle
        | Material::AncientDebris
        | Material::Basalt
        | Material::Blackstone
        | Material::BlackstoneSlab
        | Material::BlackstoneStairs
        | Material::BlackstoneWall
        | Material::Chain
        | Material::ChiseledNetherBricks
        | Material::ChiseledPolishedBlackstone
        | Material::CrackedNetherBricks
        | Material::CrackedPolishedBlackstoneBricks
        | Material::CrimsonButton
        | Material::CrimsonDoor => 30,
        Material::CrimsonFence
        | Material::CrimsonFenceGate
        | Material::CrimsonFungus
        | Material::CrimsonHyphae
        | Material::CrimsonNylium
        | Material::CrimsonPlanks
        | Material::CrimsonPressurePlate
        | Material::CrimsonRoots
        | Material::CrimsonSign
        | Material::CrimsonSlab
        | Material::CrimsonStairs
        | Material::CrimsonStem
        | Material::CrimsonTrapdoor
        | Material::CrimsonWallSign
        | Material::CryingObsidian
        | Material::GildedBlackstone
        | Material::HoglinSpawnEgg
        | Material::Lodestone
        | Material::MusicDiscPigstep
        | Material::NetheriteAxe
        | Material::NetheriteBlock
        | Material::NetheriteBoots
        | Material::NetheriteChestplate
        | Material::NetheriteHelmet
        | Material::NetheriteHoe
        | Material::NetheriteIngot
        | Material::NetheriteLeggings
        | Material::NetheritePickaxe
        | Material::NetheriteScrap
        | Material::NetheriteShovel
        | Material::NetheriteSword
        | Material::NetherGoldOre
        | Material::NetherSprouts
        | Material::PiglinBannerPattern
        | Material::PiglinSpawnEgg
        | Material::PolishedBasalt
        | Material::PolishedBlackstone
        | Material::PolishedBlackstoneBricks => 31,
        Material::PolishedBlackstoneBrickSlab
        | Material::PolishedBlackstoneBrickStairs
        | Material::PolishedBlackstoneBrickWall
        | Material::PolishedBlackstoneButton
        | Material::PolishedBlackstonePressurePlate
        | Material::PolishedBlackstoneSlab
        | Material::PolishedBlackstoneStairs
        | Material::PolishedBlackstoneWall
        | Material::PottedCrimsonFungus
        | Material::PottedCrimsonRoots
        | Material::PottedWarpedFungus
        | Material::PottedWarpedRoots
        | Material::QuartzBricks
        | Material::RespawnAnchor
        | Material::Shroomlight
        | Material::SoulCampfire
        | Material::SoulFire
        | Material::SoulLantern
        | Material::SoulSoil
        | Material::SoulTorch
        | Material::SoulWallTorch
        | Material::StriderSpawnEgg
        | Material::StrippedCrimsonHyphae
        | Material::StrippedCrimsonStem
        | Material::StrippedWarpedHyphae
        | Material::StrippedWarpedStem
        | Material::Target
        | Material::TwistingVines
        | Material::TwistingVinesPlant
        | Material::WarpedButton
        | Material::WarpedDoor
        | Material::WarpedFence
        | Material::WarpedFenceGate
        | Material::WarpedFungus
        | Material::WarpedFungusOnAStick
        | Material::WarpedHyphae
        | Material::WarpedNylium
        | Material::WarpedPlanks => 32,
        Material::WarpedPressurePlate
        | Material::WarpedRoots
        | Material::WarpedSign
        | Material::WarpedSlab
        | Material::WarpedStairs
        | Material::WarpedStem
        | Material::WarpedTrapdoor
        | Material::WarpedWallSign
        | Material::WarpedWartBlock
        | Material::WeepingVines
        | Material::WeepingVinesPlant
        | Material::ZoglinSpawnEgg
        | Material::ZombifiedPiglinSpawnEgg
        | Material::PiglinBruteSpawnEgg
        | Material::Deepslate
        | Material::CobbledDeepslate
        | Material::PolishedDeepslate
        | Material::Calcite
        | Material::Tuff
        | Material::DripstoneBlock
        | Material::RootedDirt
        | Material::DeepslateCoalOre
        | Material::DeepslateIronOre
        | Material::CopperOre
        | Material::DeepslateCopperOre
        | Material::DeepslateGoldOre
        | Material::DeepslateRedstoneOre
        | Material::DeepslateEmeraldOre
        | Material::DeepslateLapisOre
        | Material::DeepslateDiamondOre
        | Material::RawIronBlock
        | Material::RawCopperBlock
        | Material::RawGoldBlock
        | Material::AmethystBlock
        | Material::BuddingAmethyst
        | Material::CopperBlock
        | Material::ExposedCopper
        | Material::WeatheredCopper => 33,
        Material::OxidizedCopper
        | Material::CutCopper
        | Material::ExposedCutCopper
        | Material::WeatheredCutCopper
        | Material::OxidizedCutCopper
        | Material::CutCopperStairs
        | Material::ExposedCutCopperStairs
        | Material::WeatheredCutCopperStairs
        | Material::OxidizedCutCopperStairs
        | Material::CutCopperSlab
        | Material::ExposedCutCopperSlab
        | Material::WeatheredCutCopperSlab
        | Material::OxidizedCutCopperSlab
        | Material::WaxedCopperBlock
        | Material::WaxedExposedCopper
        | Material::WaxedWeatheredCopper
        | Material::WaxedOxidizedCopper
        | Material::WaxedCutCopper
        | Material::WaxedExposedCutCopper
        | Material::WaxedWeatheredCutCopper
        | Material::WaxedOxidizedCutCopper
        | Material::WaxedCutCopperStairs
        | Material::WaxedExposedCutCopperStairs
        | Material::WaxedWeatheredCutCopperStairs
        | Material::WaxedOxidizedCutCopperStairs
        | Material::WaxedCutCopperSlab
        | Material::WaxedExposedCutCopperSlab
        | Material::WaxedWeatheredCutCopperSlab
        | Material::WaxedOxidizedCutCopperSlab
        | Material::AzaleaLeaves
        | Material::FloweringAzaleaLeaves
        | Material::TintedGlass
        | Material::Azalea
        | Material::FloweringAzalea
        | Material::SporeBlossom
        | Material::MossCarpet
        | Material::MossBlock
        | Material::HangingRoots => 34,
        Material::BigDripleaf
        | Material::SmallDripleaf
        | Material::SmoothBasalt
        | Material::InfestedDeepslate
        | Material::DeepslateBricks
        | Material::CrackedDeepslateBricks
        | Material::DeepslateTiles
        | Material::CrackedDeepslateTiles
        | Material::ChiseledDeepslate
        | Material::GlowLichen
        | Material::CobbledDeepslateWall
        | Material::PolishedDeepslateWall
        | Material::DeepslateBrickWall
        | Material::DeepslateTileWall
        | Material::Light
        | Material::DirtPath
        | Material::CobbledDeepslateStairs
        | Material::PolishedDeepslateStairs
        | Material::DeepslateBrickStairs
        | Material::DeepslateTileStairs
        | Material::CobbledDeepslateSlab
        | Material::PolishedDeepslateSlab
        | Material::DeepslateBrickSlab
        | Material::DeepslateTileSlab
        | Material::LightningRod
        | Material::SculkSensor
        | Material::AmethystShard
        | Material::RawIron
        | Material::RawCopper
        | Material::CopperIngot
        | Material::RawGold
        | Material::PowderSnowBucket
        | Material::AxolotlBucket
        | Material::Bundle
        | Material::Spyglass
        | Material::GlowInkSac
        | Material::AxolotlSpawnEgg
        | Material::GlowSquidSpawnEgg => 35,
        Material::GoatSpawnEgg
        | Material::GlowItemFrame
        | Material::GlowBerries
        | Material::Candle
        | Material::WhiteCandle
        | Material::OrangeCandle
        | Material::MagentaCandle
        | Material::LightBlueCandle
        | Material::YellowCandle
        | Material::LimeCandle
        | Material::PinkCandle
        | Material::GrayCandle
        | Material::LightGrayCandle
        | Material::CyanCandle
        | Material::PurpleCandle
        | Material::BlueCandle
        | Material::BrownCandle
        | Material::GreenCandle
        | Material::RedCandle
        | Material::BlackCandle
        | Material::SmallAmethystBud
        | Material::MediumAmethystBud
        | Material::LargeAmethystBud
        | Material::AmethystCluster
        | Material::PointedDripstone
        | Material::WaterCauldron
        | Material::LavaCauldron
        | Material::PowderSnowCauldron
        | Material::CandleCake
        | Material::WhiteCandleCake
        | Material::OrangeCandleCake
        | Material::MagentaCandleCake
        | Material::LightBlueCandleCake
        | Material::YellowCandleCake
        | Material::LimeCandleCake
        | Material::PinkCandleCake
        | Material::GrayCandleCake
        | Material::LightGrayCandleCake => 36,
        Material::CyanCandleCake
        | Material::PurpleCandleCake
        | Material::BlueCandleCake
        | Material::BrownCandleCake
        | Material::GreenCandleCake
        | Material::RedCandleCake
        | Material::BlackCandleCake
        | Material::PowderSnow
        | Material::CaveVines
        | Material::CaveVinesPlant
        | Material::BigDripleafStem
        | Material::PottedAzaleaBush
        | Material::PottedFloweringAzaleaBush => 37,
    }
}

/// The name of a material: its variant name, as `{:?}` prints it (`Map` for
/// `LegacyMap`).
pub open spec fn material_name(m: Material) -> Seq<char> {
    match m {
        Material::Air
        | Material::Stone
        | Material::Grass
        | Material::Dirt
        | Material::Cobblestone
        | Material::Wood
        | Material::Sapling
        | Material::Bedrock
        | Material::Water
        | Material::StationaryWater
        | Material::Lava
        | Material::StationaryLava
        | Material::Sand
        | Material::Gravel
        | Material::GoldOre
        | Material::IronOre
        | Material::CoalOre
        | Material::Log
        | Material::Leaves
        | Material::Sponge
        | Material::Glass
        | Material::LapisOre
        | Material::LapisBlock
        | Material::Dispenser
        | Material::Sandstone
        | Material::NoteBlock
        | Material::BedBlock
        | Material::PoweredRail
        | Material::DetectorRail
        | Material::PistonStickyBase
        | Material::Web
        | Material::LongGrass
        | Material::DeadBush
        | Material::PistonBase
        | Material::PistonExtension
        | Material::Wool
        | Material::PistonMovingPiece
        | Material::YellowFlower => material_name_0(m),
        Material::RedRose
        | Material::BrownMushroom
        | Material::RedMushroom
        | Material::GoldBlock
        | Material::IronBlock
        | Material::DoubleStep
        | Material::Step
        | Material::Brick
        | Material::Tnt
        | Material::Bookshelf
        | Material::MossyCobblestone
        | Material::Obsidian
        | Material::Torch
        | Material::Fire
        | Material::MobSpawner
        | Material::WoodStairs
        | Material::Chest
        | Material::RedstoneWire
        | Material::DiamondOre
        | Material::DiamondBlock
        | Material::Workbench
        | Material::Crops
        | Material::Soil
        | Material::Furnace
        | Material::BurningFurnace
        | Material::SignPost
        | Material::WoodenDoor
        | Material::Ladder
        | Material::Rails
        | Material::CobblestoneStairs
        | Material::WallSign
        | Material::Lever
        | Material::StonePlate
        | Material::IronDoorBlock
        | Material::WoodPlate
        | Material::RedstoneOre
        | Material::GlowingRedstoneOre
        | Material::RedstoneTorchOff => material_name_1(m),
        Material::RedstoneTorchOn
        | Material::StoneButton
        | Material::Snow
        | Material::Ice
        | Material::SnowBlock
        | Material::Cactus
        | Material::Clay
        | Material::SugarCaneBlock
        | Material::Jukebox
        | Material::Fence
        | Material::Pumpkin
        | Material::Netherrack
        | Material::SoulSand
        | Material::Glowstone
        | Material::Portal
        | Material::JackOLantern
        | Material::CakeBlock
        | Material::DiodeBlockOff
        | Material::DiodeBlockOn
        | Material::LockedChest
        | Material::StainedGlass
        | Material::TrapDoor
        | Material::MonsterEggs
        | Material::SmoothBrick
        | Material::HugeMushroom1
        | Material::HugeMushroom2
        | Material::IronFence
        | Material::ThinGlass
        | Material::MelonBlock
        | Material::PumpkinStem
        | Material::MelonStem
        | Material::Vine
        | Material::FenceGate
        | Material::BrickStairs
        | Material::SmoothStairs
        | Material::Mycel
        | Material::WaterLily
        | Material::NetherBrick => material_name_2(m),
        Material::NetherFence
        | Material::NetherBrickStairs
        | Material::NetherWarts
        | Material::EnchantmentTable
        | Material::BrewingStand
        | Material::Cauldron
        | Material::EnderPortal
        | Material::EnderPortalFrame
        | Material::EnderStone
        | Material::DragonEgg
        | Material::RedstoneLampOff
        | Material::RedstoneLampOn
        | Material::WoodDoubleStep
        | Material::WoodStep
        | Material::Cocoa
        | Material::SandstoneStairs
        | Material::EmeraldOre
        | Material::EnderChest
        | Material::TripwireHook
        | Material::Tripwire
        | Material::EmeraldBlock
        | Material::SpruceWoodStairs
        | Material::BirchWoodStairs
        | Material::JungleWoodStairs
        | Material::Command
        | Material::Beacon
        | Material::CobbleWall
        | Material::FlowerPot
        | Material::Carrot
        | Material::Potato
        | Material::WoodButton
        | Material::Skull
        | Material::Anvil
        | Material::TrappedChest
        | Material::GoldPlate
        | Material::IronPlate
        | Material::RedstoneComparatorOff
        | Material::RedstoneComparatorOn => material_name_3(m),
        Material::DaylightDetector
        | Material::RedstoneBlock
        | Material::QuartzOre
        | Material::Hopper
        | Material::QuartzBlock
        | Material::QuartzStairs
        | Material::ActivatorRail
        | Material::Dropper
        | Material::StainedClay
        | Material::StainedGlassPane
        | Material::Leaves2
        | Material::Log2
        | Material::AcaciaStairs
        | Material::DarkOakStairs
        | Material::HayBlock
        | Material::Carpet
        | Material::HardClay
        | Material::CoalBlock
        | Material::PackedIce
        | Material::DoublePlant
        | Material::IronSpade
        | Material::IronPickaxe
        | Material::IronAxe
        | Material::FlintAndSteel
        | Material::Apple
        | Material::Bow
        | Material::Arrow
        | Material::Coal
        | Material::Diamond
        | Material::IronIngot
        | Material::GoldIngot
        | Material::IronSword
        | Material::WoodSword
        | Material::WoodSpade
        | Material::WoodPickaxe
        | Material::WoodAxe
        | Material::StoneSword
        | Material::StoneSpade => material_name_4(m),
        Material::StonePickaxe
        | Material::StoneAxe
        | Material::DiamondSword
        | Material::DiamondSpade
        | Material::DiamondPickaxe
        | Material::DiamondAxe
        | Material::Stick
        | Material::Bowl
        | Material::MushroomSoup
        | Material::GoldSword
        | Material::GoldSpade
        | Material::GoldPickaxe
        | Material::GoldAxe
        | Material::String
        | Material::Feather
        | Material::Sulphur
        | Material::WoodHoe
        | Material::StoneHoe
        | Material::IronHoe
        | Material::DiamondHoe
        | Material::GoldHoe
        | Material::Seeds
        | Material::Wheat
        | Material::Bread
        | Material::LeatherHelmet
        | Material::LeatherChestplate
        | Material::LeatherLeggings
        | Material::LeatherBoots
        | Material::ChainmailHelmet
        | Material::ChainmailChestplate
        | Material::ChainmailLeggings
        | Material::ChainmailBoots
        | Material::IronHelmet
        | Material::IronChestplate
        | Material::IronLeggings
        | Material::IronBoots
        | Material::DiamondHelmet
        | Material::DiamondChestplate => material_name_5(m),
        Material::DiamondLeggings
        | Material::DiamondBoots
        | Material::GoldHelmet
        | Material::GoldChestplate
        | Material::GoldLeggings
        | Material::GoldBoots
        | Material::Flint
        | Material::Pork
        | Material::GrilledPork
        | Material::Painting
        | Material::GoldenApple
        | Material::Sign
        | Material::WoodDoor
        | Material::Bucket
        | Material::WaterBucket
        | Material::LavaBucket
        | Material::Minecart
        | Material::Saddle
        | Material::IronDoor
        | Material::Redstone
        | Material::SnowBall
        | Material::Boat
        | Material::Leather
        | Material::MilkBucket
        | Material::ClayBrick
        | Material::ClayBall
        | Material::SugarCane
        | Material::Paper
        | Material::Book
        | Material::SlimeBall
        | Material::StorageMinecart
        | Material::PoweredMinecart
        | Material::Egg
        | Material::Compass
        | Material::FishingRod
        | Material::Watch
        | Material::GlowstoneDust
        | Material::RawFish => material_name_6(m),
        Material::CookedFish
        | Material::InkSack
        | Material::Bone
        | Material::Sugar
        | Material::Cake
        | Material::Bed
        | Material::Diode
        | Material::Cookie
        | Material::LegacyMap
        | Material::Shears
        | Material::Melon
        | Material::PumpkinSeeds
        | Material::MelonSeeds
        | Material::RawBeef
        | Material::CookedBeef
        | Material::RawChicken
        | Material::CookedChicken
        | Material::RottenFlesh
        | Material::EnderPearl
        | Material::BlazeRod
        | Material::GhastTear
        | Material::GoldNugget
        | Material::NetherStalk
        | Material::Potion
        | Material::GlassBottle
        | Material::SpiderEye
        | Material::FermentedSpiderEye
        | Material::BlazePowder
        | Material::MagmaCream
        | Material::BrewingStandItem
        | Material::CauldronItem
        | Material::EyeOfEnder
        | Material::SpeckledMelon
        | Material::MonsterEgg
        | Material::ExpBottle
        | Material::Fireball
        | Material::BookAndQuill
        | Material::WrittenBook => material_name_7(m),
        Material::Emerald
        | Material::ItemFrame
        | Material::FlowerPotItem
        | Material::CarrotItem
        | Material::PotatoItem
        | Material::BakedPotato
        | Material::PoisonousPotato
        | Material::EmptyMap
        | Material::GoldenCarrot
        | Material::SkullItem
        | Material::CarrotStick
        | Material::NetherStar
        | Material::PumpkinPie
        | Material::Firework
        | Material::FireworkCharge
        | Material::EnchantedBook
        | Material::RedstoneComparator
        | Material::NetherBrickItem
        | Material::Quartz
        | Material::ExplosiveMinecart
        | Material::HopperMinecart
        | Material::IronBarding
        | Material::GoldBarding
        | Material::DiamondBarding
        | Material::Leash
        | Material::NameTag
        | Material::CommandMinecart
        | Material::GoldRecord
        | Material::GreenRecord
        | Material::Record3
        | Material::Record4
        | Material::Record5
        | Material::Record6
        | Material::Record7
        | Material::Record8
        | Material::Record9
        | Material::Record10
        | Material::Record11 => material_name_8(m),
        Material::Record12
        | Material::SlimeBlock
        | Material::Barrier
        | Material::IronTrapdoor
        | Material::Prismarine
        | Material::SeaLantern
        | Material::StandingBanner
        | Material::WallBanner
        | Material::DaylightDetectorInverted
        | Material::RedSandstone
        | Material::RedSandstoneStairs
        | Material::DoubleStoneSlab2
        | Material::StoneSlab2
        | Material::SpruceFenceGate
        | Material::BirchFenceGate
        | Material::JungleFenceGate
        | Material::DarkOakFenceGate
        | Material::AcaciaFenceGate
        | Material::SpruceFence
        | Material::BirchFence
        | Material::JungleFence
        | Material::DarkOakFence
        | Material::AcaciaFence
        | Material::SpruceDoor
        | Material::BirchDoor
        | Material::JungleDoor
        | Material::AcaciaDoor
        | Material::DarkOakDoor
        | Material::PrismarineShard
        | Material::PrismarineCrystals
        | Material::Rabbit
        | Material::CookedRabbit
        | Material::RabbitStew
        | Material::RabbitFoot
        | Material::RabbitHide
        | Material::ArmorStand
        | Material::Mutton
        | Material::CookedMutton => material_name_9(m),
        Material::Banner
        | Material::SpruceDoorItem
        | Material::BirchDoorItem
        | Material::JungleDoorItem
        | Material::AcaciaDoorItem
        | Material::DarkOakDoorItem
        | Material::EndRod
        | Material::ChorusPlant
        | Material::ChorusFlower
        | Material::PurpurBlock
        | Material::PurpurPillar
        | Material::PurpurStairs
        | Material::PurpurDoubleSlab
        | Material::PurpurSlab
        | Material::EndBricks
        | Material::BeetrootBlock
        | Material::GrassPath
        | Material::EndGateway
        | Material::CommandRepeating
        | Material::CommandChain
        | Material::StructureBlock
        | Material::EndCrystal
        | Material::ChorusFruit
        | Material::ChorusFruitPopped
        | Material::Beetroot
        | Material::BeetrootSeeds
        | Material::BeetrootSoup
        | Material::DragonsBreath
        | Material::SplashPotion
        | Material::SpectralArrow
        | Material::TippedArrow
        | Material::LingeringPotion
        | Material::Shield
        | Material::Elytra
        | Material::BoatSpruce
        | Material::BoatBirch
        | Material::BoatJungle
        | Material::BoatAcacia => material_name_10(m),
        Material::BoatDarkOak
        | Material::FrostedIce
        | Material::Magma
        | Material::NetherWartBlock
        | Material::RedNetherBrick
        | Material::BoneBlock
        | Material::StructureVoid
        | Material::Observer
        | Material::WhiteShulkerBox
        | Material::OrangeShulkerBox
        | Material::MagentaShulkerBox
        | Material::LightBlueShulkerBox
        | Material::YellowShulkerBox
        | Material::LimeShulkerBox
        | Material::PinkShulkerBox
        | Material::GrayShulkerBox
        | Material::SilverShulkerBox
        | Material::CyanShulkerBox
        | Material::PurpleShulkerBox
        | Material::BlueShulkerBox
        | Material::BrownShulkerBox
        | Material::GreenShulkerBox
        | Material::RedShulkerBox
        | Material::BlackShulkerBox
        | Material::Totem
        | Material::ShulkerShell
        | Material::IronNugget
        | Material::WhiteGlazedTerracotta
        | Material::OrangeGlazedTerracotta
        | Material::MagentaGlazedTerracotta
        | Material::LightBlueGlazedTerracotta
        | Material::YellowGlazedTerracotta
        | Material::LimeGlazedTerracotta
        | Material::PinkGlazedTerracotta
        | Material::GrayGlazedTerracotta
        | Material::SilverGlazedTerracotta
        | Material::CyanGlazedTerracotta
        | Material::PurpleGlazedTerracotta => material_name_11(m),
        Material::BlueGlazedTerracotta
        | Material::BrownGlazedTerracotta
        | Material::GreenGlazedTerracotta
        | Material::RedGlazedTerracotta
        | Material::BlackGlazedTerracotta
        | Material::Concrete
        | Material::ConcretePowder
        | Material::KnowledgeBook
        | Material::AcaciaBoat
        | Material::AcaciaButton
        | Material::AcaciaLeaves
        | Material::AcaciaLog
        | Material::AcaciaPlanks
        | Material::AcaciaPressurePlate
        | Material::AcaciaSapling
        | Material::AcaciaSlab
        | Material::AcaciaTrapdoor
        | Material::AcaciaWood
        | Material::Allium
        | Material::Andesite
        | Material::AttachedMelonStem
        | Material::AttachedPumpkinStem
        | Material::AzureBluet
        | Material::BatSpawnEgg
        | Material::Beef
        | Material::Beetroots
        | Material::BirchBoat
        | Material::BirchButton
        | Material::BirchLeaves
        | Material::BirchLog
        | Material::BirchPlanks
        | Material::BirchPressurePlate
        | Material::BirchSapling
        | Material::BirchSlab
        | Material::BirchStairs
        | Material::BirchTrapdoor
        | Material::BirchWood
        | Material::BlackBanner => material_name_12(m),
        Material::BlackBed
        | Material::BlackCarpet
        | Material::BlackConcrete
        | Material::BlackConcretePowder
        | Material::BlackStainedGlass
        | Material::BlackStainedGlassPane
        | Material::BlackTerracotta
        | Material::BlackWallBanner
        | Material::BlackWool
        | Material::BlazeSpawnEgg
        | Material::BlueBanner
        | Material::BlueBed
        | Material::BlueCarpet
        | Material::BlueConcrete
        | Material::BlueConcretePowder
        | Material::BlueIce
        | Material::BlueOrchid
        | Material::BlueStainedGlass
        | Material::BlueStainedGlassPane
        | Material::BlueTerracotta
        | Material::BlueWallBanner
        | Material::BlueWool
        | Material::BoneMeal
        | Material::BrainCoral
        | Material::BrainCoralBlock
        | Material::BrainCoralFan
        | Material::BrainCoralWallFan
        | Material::Bricks
        | Material::BrickSlab
        | Material::BrownBanner
        | Material::BrownBed
        | Material::BrownCarpet
        | Material::BrownConcrete
        | Material::BrownConcretePowder
        | Material::BrownMushroomBlock
        | Material::BrownStainedGlass
        | Material::BrownStainedGlassPane
        | Material::BrownTerracotta => material_name_13(m),
        Material::BrownWallBanner
        | Material::BrownWool
        | Material::BubbleColumn
        | Material::BubbleCoral
        | Material::BubbleCoralBlock
        | Material::BubbleCoralFan
        | Material::BubbleCoralWallFan
        | Material::CactusGreen
        | Material::Carrots
        | Material::CarrotOnAStick
        | Material::CarvedPumpkin
        | Material::CaveAir
        | Material::CaveSpiderSpawnEgg
        | Material::ChainCommandBlock
        | Material::Charcoal
        | Material::ChestMinecart
        | Material::Chicken
        | Material::ChickenSpawnEgg
        | Material::ChippedAnvil
        | Material::ChiseledQuartzBlock
        | Material::ChiseledRedSandstone
        | Material::ChiseledSandstone
        | Material::ChiseledStoneBricks
        | Material::Clock
        | Material::CoarseDirt
        | Material::CobblestoneSlab
        | Material::CobblestoneWall
        | Material::Cobweb
        | Material::CocoaBeans
        | Material::Cod
        | Material::CodBucket
        | Material::CodSpawnEgg
        | Material::CommandBlock
        | Material::CommandBlockMinecart
        | Material::Comparator
        | Material::Conduit
        | Material::CookedCod
        | Material::CookedPorkchop => material_name_14(m),
        Material::CookedSalmon
        | Material::CowSpawnEgg
        | Material::CrackedStoneBricks
        | Material::CraftingTable
        | Material::CreeperHead
        | Material::CreeperSpawnEgg
        | Material::CreeperWallHead
        | Material::CutRedSandstone
        | Material::CutSandstone
        | Material::CyanBanner
        | Material::CyanBed
        | Material::CyanCarpet
        | Material::CyanConcrete
        | Material::CyanConcretePowder
        | Material::CyanDye
        | Material::CyanStainedGlass
        | Material::CyanStainedGlassPane
        | Material::CyanTerracotta
        | Material::CyanWallBanner
        | Material::CyanWool
        | Material::DamagedAnvil
        | Material::Dandelion
        | Material::DandelionYellow
        | Material::DarkOakBoat
        | Material::DarkOakButton
        | Material::DarkOakLeaves
        | Material::DarkOakLog
        | Material::DarkOakPlanks
        | Material::DarkOakPressurePlate
        | Material::DarkOakSapling
        | Material::DarkOakSlab
        | Material::DarkOakTrapdoor
        | Material::DarkOakWood
        | Material::DarkPrismarine
        | Material::DarkPrismarineSlab
        | Material::DarkPrismarineStairs
        | Material::DeadBrainCoralBlock
        | Material::DeadBrainCoralFan => material_name_15(m),
        Material::DeadBrainCoralWallFan
        | Material::DeadBubbleCoralBlock
        | Material::DeadBubbleCoralFan
        | Material::DeadBubbleCoralWallFan
        | Material::DeadFireCoralBlock
        | Material::DeadFireCoralFan
        | Material::DeadFireCoralWallFan
        | Material::DeadHornCoralBlock
        | Material::DeadHornCoralFan
        | Material::DeadHornCoralWallFan
        | Material::DeadTubeCoralBlock
        | Material::DeadTubeCoralFan
        | Material::DeadTubeCoralWallFan
        | Material::DebugStick
        | Material::DiamondHorseArmor
        | Material::DiamondShovel
        | Material::Diorite
        | Material::DolphinSpawnEgg
        | Material::DonkeySpawnEgg
        | Material::DragonBreath
        | Material::DragonHead
        | Material::DragonWallHead
        | Material::DriedKelp
        | Material::DriedKelpBlock
        | Material::DrownedSpawnEgg
        | Material::ElderGuardianSpawnEgg
        | Material::EnchantedGoldenApple
        | Material::EnchantingTable
        | Material::EndermanSpawnEgg
        | Material::EndermiteSpawnEgg
        | Material::EnderEye
        | Material::EndPortal
        | Material::EndPortalFrame
        | Material::EndStone
        | Material::EndStoneBricks
        | Material::EvokerSpawnEgg
        | Material::ExperienceBottle
        | Material::Farmland => material_name_16(m),
        Material::Fern
        | Material::FilledMap
        | Material::FireworkRocket
        | Material::FireworkStar
        | Material::FireCharge
        | Material::FireCoral
        | Material::FireCoralBlock
        | Material::FireCoralFan
        | Material::FireCoralWallFan
        | Material::FurnaceMinecart
        | Material::GhastSpawnEgg
        | Material::GlassPane
        | Material::GlisteringMelonSlice
        | Material::GoldenAxe
        | Material::GoldenBoots
        | Material::GoldenChestplate
        | Material::GoldenHelmet
        | Material::GoldenHoe
        | Material::GoldenHorseArmor
        | Material::GoldenLeggings
        | Material::GoldenPickaxe
        | Material::GoldenShovel
        | Material::GoldenSword
        | Material::Granite
        | Material::GrassBlock
        | Material::GrayBanner
        | Material::GrayBed
        | Material::GrayCarpet
        | Material::GrayConcrete
        | Material::GrayConcretePowder
        | Material::GrayDye
        | Material::GrayStainedGlass
        | Material::GrayStainedGlassPane
        | Material::GrayTerracotta
        | Material::GrayWallBanner
        | Material::GrayWool
        | Material::GreenBanner
        | Material::GreenBed => material_name_17(m),
        Material::GreenCarpet
        | Material::GreenConcrete
        | Material::GreenConcretePowder
        | Material::GreenStainedGlass
        | Material::GreenStainedGlassPane
        | Material::GreenTerracotta
        | Material::GreenWallBanner
        | Material::GreenWool
        | Material::GuardianSpawnEgg
        | Material::Gunpowder
        | Material::HeartOfTheSea
        | Material::HeavyWeightedPressurePlate
        | Material::HornCoral
        | Material::HornCoralBlock
        | Material::HornCoralFan
        | Material::HornCoralWallFan
        | Material::HorseSpawnEgg
        | Material::HuskSpawnEgg
        | Material::InfestedChiseledStoneBricks
        | Material::InfestedCobblestone
        | Material::InfestedCrackedStoneBricks
        | Material::InfestedMossyStoneBricks
        | Material::InfestedStone
        | Material::InfestedStoneBricks
        | Material::InkSac
        | Material::IronBars
        | Material::IronHorseArmor
        | Material::IronShovel
        | Material::JungleBoat
        | Material::JungleButton
        | Material::JungleLeaves
        | Material::JungleLog
        | Material::JunglePlanks
        | Material::JunglePressurePlate
        | Material::JungleSapling
        | Material::JungleSlab
        | Material::JungleStairs
        | Material::JungleTrapdoor => material_name_18(m),
        Material::JungleWood
        | Material::Kelp
        | Material::KelpPlant
        | Material::LapisLazuli
        | Material::LargeFern
        | Material::Lead
        | Material::LightBlueBanner
        | Material::LightBlueBed
        | Material::LightBlueCarpet
        | Material::LightBlueConcrete
        | Material::LightBlueConcretePowder
        | Material::LightBlueDye
        | Material::LightBlueStainedGlass
        | Material::LightBlueStainedGlassPane
        | Material::LightBlueTerracotta
        | Material::LightBlueWallBanner
        | Material::LightBlueWool
        | Material::LightGrayBanner
        | Material::LightGrayBed
        | Material::LightGrayCarpet
        | Material::LightGrayConcrete
        | Material::LightGrayConcretePowder
        | Material::LightGrayDye
        | Material::LightGrayGlazedTerracotta
        | Material::LightGrayShulkerBox
        | Material::LightGrayStainedGlass
        | Material::LightGrayStainedGlassPane
        | Material::LightGrayTerracotta
        | Material::LightGrayWallBanner
        | Material::LightGrayWool
        | Material::LightWeightedPressurePlate
        | Material::Lilac
        | Material::LilyPad
        | Material::LimeBanner
        | Material::LimeBed
        | Material::LimeCarpet
        | Material::LimeConcrete
        | Material::LimeConcretePowder => material_name_19(m),
        Material::LimeDye
        | Material::LimeStainedGlass
        | Material::LimeStainedGlassPane
        | Material::LimeTerracotta
        | Material::LimeWallBanner
        | Material::LimeWool
        | Material::LlamaSpawnEgg
        | Material::MagentaBanner
        | Material::MagentaBed
        | Material::MagentaCarpet
        | Material::MagentaConcrete
        | Material::MagentaConcretePowder
        | Material::MagentaDye
        | Material::MagentaStainedGlass
        | Material::MagentaStainedGlassPane
        | Material::MagentaTerracotta
        | Material::MagentaWallBanner
        | Material::MagentaWool
        | Material::MagmaBlock
        | Material::MagmaCubeSpawnEgg
        | Material::MelonSlice
        | Material::MooshroomSpawnEgg
        | Material::MossyCobblestoneWall
        | Material::MossyStoneBricks
        | Material::MovingPiston
        | Material::MuleSpawnEgg
        | Material::MushroomStem
        | Material::MushroomStew
        | Material::MusicDisc11
        | Material::MusicDisc13
        | Material::MusicDiscBlocks
        | Material::MusicDiscCat
        | Material::MusicDiscChirp
        | Material::MusicDiscFar
        | Material::MusicDiscMall
        | Material::MusicDiscMellohi
        | Material::MusicDiscStal
        | Material::MusicDiscStrad => material_name_20(m),
        Material::MusicDiscWait
        | Material::MusicDiscWard
        | Material::Mycelium
        | Material::NautilusShell
        | Material::NetherBricks
        | Material::NetherBrickFence
        | Material::NetherBrickSlab
        | Material::NetherPortal
        | Material::NetherQuartzOre
        | Material::NetherWart
        | Material::OakBoat
        | Material::OakButton
        | Material::OakDoor
        | Material::OakFence
        | Material::OakFenceGate
        | Material::OakLeaves
        | Material::OakLog
        | Material::OakPlanks
        | Material::OakPressurePlate
        | Material::OakSapling
        | Material::OakSlab
        | Material::OakStairs
        | Material::OakTrapdoor
        | Material::OakWood
        | Material::OcelotSpawnEgg
        | Material::OrangeBanner
        | Material::OrangeBed
        | Material::OrangeCarpet
        | Material::OrangeConcrete
        | Material::OrangeConcretePowder
        | Material::OrangeDye
        | Material::OrangeStainedGlass
        | Material::OrangeStainedGlassPane
        | Material::OrangeTerracotta
        | Material::OrangeTulip
        | Material::OrangeWallBanner
        | Material::OrangeWool
        | Material::OxeyeDaisy => material_name_21(m),
        Material::ParrotSpawnEgg
        | Material::Peony
        | Material::PetrifiedOakSlab
        | Material::PhantomMembrane
        | Material::PhantomSpawnEgg
        | Material::PigSpawnEgg
        | Material::PinkBanner
        | Material::PinkBed
        | Material::PinkCarpet
        | Material::PinkConcrete
        | Material::PinkConcretePowder
        | Material::PinkDye
        | Material::PinkStainedGlass
        | Material::PinkStainedGlassPane
        | Material::PinkTerracotta
        | Material::PinkTulip
        | Material::PinkWallBanner
        | Material::PinkWool
        | Material::Piston
        | Material::PistonHead
        | Material::PlayerHead
        | Material::PlayerWallHead
        | Material::Podzol
        | Material::PolarBearSpawnEgg
        | Material::PolishedAndesite
        | Material::PolishedDiorite
        | Material::PolishedGranite
        | Material::PoppedChorusFruit
        | Material::Poppy
        | Material::Porkchop
        | Material::Potatoes
        | Material::PottedAcaciaSapling
        | Material::PottedAllium
        | Material::PottedAzureBluet
        | Material::PottedBirchSapling
        | Material::PottedBlueOrchid
        | Material::PottedBrownMushroom
        | Material::PottedCactus => material_name_22(m),
        Material::PottedDandelion
        | Material::PottedDarkOakSapling
        | Material::PottedDeadBush
        | Material::PottedFern
        | Material::PottedJungleSapling
        | Material::PottedOakSapling
        | Material::PottedOrangeTulip
        | Material::PottedOxeyeDaisy
        | Material::PottedPinkTulip
        | Material::PottedPoppy
        | Material::PottedRedMushroom
        | Material::PottedRedTulip
        | Material::PottedSpruceSapling
        | Material::PottedWhiteTulip
        | Material::PrismarineBricks
        | Material::PrismarineBrickSlab
        | Material::PrismarineBrickStairs
        | Material::PrismarineSlab
        | Material::PrismarineStairs
        | Material::Pufferfish
        | Material::PufferfishBucket
        | Material::PufferfishSpawnEgg
        | Material::PurpleBanner
        | Material::PurpleBed
        | Material::PurpleCarpet
        | Material::PurpleConcrete
        | Material::PurpleConcretePowder
        | Material::PurpleDye
        | Material::PurpleStainedGlass
        | Material::PurpleStainedGlassPane
        | Material::PurpleTerracotta
        | Material::PurpleWallBanner
        | Material::PurpleWool
        | Material::QuartzPillar
        | Material::QuartzSlab
        | Material::RabbitSpawnEgg
        | Material::Rail
        | Material::RedstoneLamp => material_name_23(m),
        Material::RedstoneTorch
        | Material::RedstoneWallTorch
        | Material::RedBanner
        | Material::RedBed
        | Material::RedCarpet
        | Material::RedConcrete
        | Material::RedConcretePowder
        | Material::RedMushroomBlock
        | Material::RedNetherBricks
        | Material::RedSand
        | Material::RedSandstoneSlab
        | Material::RedStainedGlass
        | Material::RedStainedGlassPane
        | Material::RedTerracotta
        | Material::RedTulip
        | Material::RedWallBanner
        | Material::RedWool
        | Material::Repeater
        | Material::RepeatingCommandBlock
        | Material::RoseBush
        | Material::RoseRed
        | Material::Salmon
        | Material::SalmonBucket
        | Material::SalmonSpawnEgg
        | Material::SandstoneSlab
        | Material::Scute
        | Material::Seagrass
        | Material::SeaPickle
        | Material::SheepSpawnEgg
        | Material::ShulkerBox
        | Material::ShulkerSpawnEgg
        | Material::SilverfishSpawnEgg
        | Material::SkeletonHorseSpawnEgg
        | Material::SkeletonSkull
        | Material::SkeletonSpawnEgg
        | Material::SkeletonWallSkull
        | Material::SlimeSpawnEgg
        | Material::SmoothQuartz => material_name_24(m),
        Material::SmoothRedSandstone
        | Material::SmoothSandstone
        | Material::SmoothStone
        | Material::Snowball
        | Material::Spawner
        | Material::SpiderSpawnEgg
        | Material::SpruceBoat
        | Material::SpruceButton
        | Material::SpruceLeaves
        | Material::SpruceLog
        | Material::SprucePlanks
        | Material::SprucePressurePlate
        | Material::SpruceSapling
        | Material::SpruceSlab
        | Material::SpruceStairs
        | Material::SpruceTrapdoor
        | Material::SpruceWood
        | Material::SquidSpawnEgg
        | Material::StickyPiston
        | Material::StoneBricks
        | Material::StoneBrickSlab
        | Material::StoneBrickStairs
        | Material::StonePressurePlate
        | Material::StoneShovel
        | Material::StoneSlab
        | Material::StraySpawnEgg
        | Material::StrippedAcaciaLog
        | Material::StrippedAcaciaWood
        | Material::StrippedBirchLog
        | Material::StrippedBirchWood
        | Material::StrippedDarkOakLog
        | Material::StrippedDarkOakWood
        | Material::StrippedJungleLog
        | Material::StrippedJungleWood
        | Material::StrippedOakLog
        | Material::StrippedOakWood
        | Material::StrippedSpruceLog
        | Material::StrippedSpruceWood => material_name_25(m),
        Material::Sunflower
        | Material::TallGrass
        | Material::TallSeagrass
        | Material::Terracotta
        | Material::TntMinecart
        | Material::TotemOfUndying
        | Material::Trident
        | Material::TropicalFish
        | Material::TropicalFishBucket
        | Material::TropicalFishSpawnEgg
        | Material::TubeCoral
        | Material::TubeCoralBlock
        | Material::TubeCoralFan
        | Material::TubeCoralWallFan
        | Material::TurtleEgg
        | Material::TurtleHelmet
        | Material::TurtleSpawnEgg
        | Material::VexSpawnEgg
        | Material::VillagerSpawnEgg
        | Material::VindicatorSpawnEgg
        | Material::VoidAir
        | Material::WallTorch
        | Material::WetSponge
        | Material::WheatSeeds
        | Material::WhiteBanner
        | Material::WhiteBed
        | Material::WhiteCarpet
        | Material::WhiteConcrete
        | Material::WhiteConcretePowder
        | Material::WhiteStainedGlass
        | Material::WhiteStainedGlassPane
        | Material::WhiteTerracotta
        | Material::WhiteTulip
        | Material::WhiteWallBanner
        | Material::WhiteWool
        | Material::WitchSpawnEgg
        | Material::WitherSkeletonSkull
        | Material::WitherSkeletonSpawnEgg => material_name_26(m),
        Material::WitherSkeletonWallSkull
        | Material::WolfSpawnEgg
        | Material::WoodenAxe
        | Material::WoodenHoe
        | Material::WoodenPickaxe
        | Material::WoodenShovel
        | Material::WoodenSword
        | Material::WritableBook
        | Material::YellowBanner
        | Material::YellowBed
        | Material::YellowCarpet
        | Material::YellowConcrete
        | Material::YellowConcretePowder
        | Material::YellowStainedGlass
        | Material::YellowStainedGlassPane
        | Material::YellowTerracotta
        | Material::YellowWallBanner
        | Material::YellowWool
        | Material::ZombieHead
        | Material::ZombieHorseSpawnEgg
        | Material::ZombiePigmanSpawnEgg
        | Material::ZombieSpawnEgg
        | Material::ZombieVillagerSpawnEgg
        | Material::ZombieWallHead
        | Material::DeadBrainCoral
        | Material::DeadBubbleCoral
        | Material::DeadFireCoral
        | Material::DeadHornCoral
        | Material::DeadTubeCoral
        | Material::AcaciaSign
        | Material::AcaciaWallSign
        | Material::AndesiteSlab
        | Material::AndesiteStairs
        | Material::AndesiteWall
        | Material::Bamboo
        | Material::BambooSapling
        | Material::Barrel
        | Material::Bell => material_name_27(m),
        Material::BirchSign
        | Material::BirchWallSign
        | Material::BlackDye
        | Material::BlastFurnace
        | Material::BlueDye
        | Material::BrickWall
        | Material::BrownDye
        | Material::Campfire
        | Material::CartographyTable
        | Material::CatSpawnEgg
        | Material::Composter
        | Material::Cornflower
        | Material::CreeperBannerPattern
        | Material::Crossbow
        | Material::CutRedSandstoneSlab
        | Material::CutSandstoneSlab
        | Material::DarkOakSign
        | Material::DarkOakWallSign
        | Material::DioriteSlab
        | Material::DioriteStairs
        | Material::DioriteWall
        | Material::EndStoneBrickSlab
        | Material::EndStoneBrickStairs
        | Material::EndStoneBrickWall
        | Material::FletchingTable
        | Material::FlowerBannerPattern
        | Material::FoxSpawnEgg
        | Material::GlobeBannerPattern
        | Material::GraniteSlab
        | Material::GraniteStairs
        | Material::GraniteWall
        | Material::GreenDye
        | Material::Grindstone
        | Material::Jigsaw
        | Material::JungleSign
        | Material::JungleWallSign
        | Material::Lantern
        | Material::LeatherHorseArmor => material_name_28(m),
        Material::Lectern
        | Material::LilyOfTheValley
        | Material::Loom
        | Material::MojangBannerPattern
        | Material::MossyCobblestoneSlab
        | Material::MossyCobblestoneStairs
        | Material::MossyStoneBrickSlab
        | Material::MossyStoneBrickStairs
        | Material::MossyStoneBrickWall
        | Material::NetherBrickWall
        | Material::OakSign
        | Material::OakWallSign
        | Material::PandaSpawnEgg
        | Material::PillagerSpawnEgg
        | Material::PolishedAndesiteSlab
        | Material::PolishedAndesiteStairs
        | Material::PolishedDioriteSlab
        | Material::PolishedDioriteStairs
        | Material::PolishedGraniteSlab
        | Material::PolishedGraniteStairs
        | Material::PottedBamboo
        | Material::PottedCornflower
        | Material::PottedLilyOfTheValley
        | Material::PottedWitherRose
        | Material::PrismarineWall
        | Material::RavagerSpawnEgg
        | Material::RedDye
        | Material::RedNetherBrickSlab
        | Material::RedNetherBrickStairs
        | Material::RedNetherBrickWall
        | Material::RedSandstoneWall
        | Material::SandstoneWall
        | Material::Scaffolding
        | Material::SkullBannerPattern
        | Material::SmithingTable
        | Material::Smoker
        | Material::SmoothQuartzSlab
        | Material::SmoothQuartzStairs => material_name_29(m),
        Material::SmoothRedSandstoneSlab
        | Material::SmoothRedSandstoneStairs
        | Material::SmoothSandstoneSlab
        | Material::SmoothSandstoneStairs
        | Material::SmoothStoneSlab
        | Material::SpruceSign
        | Material::SpruceWallSign
        | Material::Stonecutter
        | Material::StoneBrickWall
        | Material::StoneStairs
        | Material::SuspiciousStew
        | Material::SweetBerries
        | Material::SweetBerryBush
        | Material::TraderLlamaSpawnEgg
        | Material::WanderingTraderSpawnEgg
        | Material::WhiteDye
        | Material::WitherRose
        | Material::YellowDye
        | Material::Beehive
        | Material::BeeNest
        | Material::BeeSpawnEgg
        | Material::Honeycomb
        | Material::HoneycombBlock
        | Material::HoneyBlock
        | Material::HoneyBottle
        | Material::AncientDebris
        | Material::Basalt
        | Material::Blackstone
        | Material::BlackstoneSlab
        | Material::BlackstoneStairs
        | Material::BlackstoneWall
        | Material::Chain
        | Material::ChiseledNetherBricks
        | Material::ChiseledPolishedBlackstone
        | Material::CrackedNetherBricks
        | Material::CrackedPolishedBlackstoneBricks
        | Material::CrimsonButton
        | Material::CrimsonDoor => material_name_30(m),
        Material::CrimsonFence
        | Material::CrimsonFenceGate
        | Material::CrimsonFungus
        | Material::CrimsonHyphae
        | Material::CrimsonNylium
        | Material::CrimsonPlanks
        | Material::CrimsonPressurePlate
        | Material::CrimsonRoots
        | Material::CrimsonSign
        | Material::CrimsonSlab
        | Material::CrimsonStairs
        | Material::CrimsonStem
        | Material::CrimsonTrapdoor
        | Material::CrimsonWallSign
        | Material::CryingObsidian
        | Material::GildedBlackstone
        | Material::HoglinSpawnEgg
        | Material::Lodestone
        | Material::MusicDiscPigstep
        | Material::NetheriteAxe
        | Material::NetheriteBlock
        | Material::NetheriteBoots
        | Material::NetheriteChestplate
        | Material::NetheriteHelmet
        | Material::NetheriteHoe
        | Material::NetheriteIngot
        | Material::NetheriteLeggings
        | Material::NetheritePickaxe
        | Material::NetheriteScrap
        | Material::NetheriteShovel
        | Material::NetheriteSword
        | Material::NetherGoldOre
        | Material::NetherSprouts
        | Material::PiglinBannerPattern
        | Material::PiglinSpawnEgg
        | Material::PolishedBasalt
        | Material::PolishedBlackstone
        | Material::PolishedBlackstoneBricks => material_name_31(m),
        Material::PolishedBlackstoneBrickSlab
        | Material::PolishedBlackstoneBrickStairs
        | Material::PolishedBlackstoneBrickWall
        | Material::PolishedBlackstoneButton
        | Material::PolishedBlackstonePressurePlate
        | Material::PolishedBlackstoneSlab
        | Material::PolishedBlackstoneStairs
        | Material::PolishedBlackstoneWall
        | Material::PottedCrimsonFungus
        | Material::PottedCrimsonRoots
        | Material::PottedWarpedFungus
        | Material::PottedWarpedRoots
        | Material::QuartzBricks
        | Material::RespawnAnchor
        | Material::Shroomlight
        | Material::SoulCampfire
        | Material::SoulFire
        | Material::SoulLantern
        | Material::SoulSoil
        | Material::SoulTorch
        | Material::SoulWallTorch
        | Material::StriderSpawnEgg
        | Material::StrippedCrimsonHyphae
        | Material::StrippedCrimsonStem
        | Material::StrippedWarpedHyphae
        | Material::StrippedWarpedStem
        | Material::Target
        | Material::TwistingVines
        | Material::TwistingVinesPlant
        | Material::WarpedButton
        | Material::WarpedDoor
        | Material::WarpedFence
        | Material::WarpedFenceGate
        | Material::WarpedFungus
        | Material::WarpedFungusOnAStick
        | Material::WarpedHyphae
        | Material::WarpedNylium
        | Material::WarpedPlanks => material_name_32(m),
        Material::WarpedPressurePlate
        | Material::WarpedRoots
        | Material::WarpedSign
        | Material::WarpedSlab
        | Material::WarpedStairs
        | Material::WarpedStem
        | Material::WarpedTrapdoor
        | Material::WarpedWallSign
        | Material::WarpedWartBlock
        | Material::WeepingVines
        | Material::WeepingVinesPlant
        | Material::ZoglinSpawnEgg
        | Material::ZombifiedPiglinSpawnEgg
        | Material::PiglinBruteSpawnEgg
        | Material::Deepslate
        | Material::CobbledDeepslate
        | Material::PolishedDeepslate
        | Material::Calcite
        | Material::Tuff
        | Material::DripstoneBlock
        | Material::RootedDirt
        | Material::DeepslateCoalOre
        | Material::DeepslateIronOre
        | Material::CopperOre
        | Material::DeepslateCopperOre
        | Material::DeepslateGoldOre
        | Material::DeepslateRedstoneOre
        | Material::DeepslateEmeraldOre
        | Material::DeepslateLapisOre
        | Material::DeepslateDiamondOre
        | Material::RawIronBlock
        | Material::RawCopperBlock
        | Material::RawGoldBlock
        | Material::AmethystBlock
        | Material::BuddingAmethyst
        | Material::CopperBlock
        | Material::ExposedCopper
        | Material::WeatheredCopper => material_name_33(m),
        Material::OxidizedCopper
        | Material::CutCopper
        | Material::ExposedCutCopper
        | Material::WeatheredCutCopper
        | Material::OxidizedCutCopper
        | Material::CutCopperStairs
        | Material::ExposedCutCopperStairs
        | Material::WeatheredCutCopperStairs
        | Material::OxidizedCutCopperStairs
        | Material::CutCopperSlab
        | Material::ExposedCutCopperSlab
        | Material::WeatheredCutCopperSlab
        | Material::OxidizedCutCopperSlab
        | Material::WaxedCopperBlock
        | Material::WaxedExposedCopper
        | Material::WaxedWeatheredCopper
        | Material::WaxedOxidizedCopper
        | Material::WaxedCutCopper
        | Material::WaxedExposedCutCopper
        | Material::WaxedWeatheredCutCopper
        | Material::WaxedOxidizedCutCopper
        | Material::WaxedCutCopperStairs
        | Material::WaxedExposedCutCopperStairs
        | Material::WaxedWeatheredCutCopperStairs
        | Material::WaxedOxidizedCutCopperStairs
        | Material::WaxedCutCopperSlab
        | Material::WaxedExposedCutCopperSlab
        | Material::WaxedWeatheredCutCopperSlab
        | Material::WaxedOxidizedCutCopperSlab
        | Material::AzaleaLeaves
        | Material::FloweringAzaleaLeaves
        | Material::TintedGlass
        | Material::Azalea
        | Material::FloweringAzalea
        | Material::SporeBlossom
        | Material::MossCarpet
        | Material::MossBlock
        | Material::HangingRoots => material_name_34(m),
        Material::BigDripleaf
        | Material::SmallDripleaf
        | Material::SmoothBasalt
        | Material::InfestedDeepslate
        | Material::DeepslateBricks
        | Material::CrackedDeepslateBricks
        | Material::DeepslateTiles
        | Material::CrackedDeepslateTiles
        | Material::ChiseledDeepslate
        | Material::GlowLichen
        | Material::CobbledDeepslateWall
        | Material::PolishedDeepslateWall
        | Material::DeepslateBrickWall
        | Material::DeepslateTileWall
        | Material::Light
        | Material::DirtPath
        | Material::CobbledDeepslateStairs
        | Material::PolishedDeepslateStairs
        | Material::DeepslateBrickStairs
        | Material::DeepslateTileStairs
        | Material::CobbledDeepslateSlab
        | Material::PolishedDeepslateSlab
        | Material::DeepslateBrickSlab
        | Material::DeepslateTileSlab
        | Material::LightningRod
        | Material::SculkSensor
        | Material::AmethystShard
        | Material::RawIron
        | Material::RawCopper
        | Material::CopperIngot
        | Material::RawGold
        | Material::PowderSnowBucket
        | Material::AxolotlBucket
        | Material::Bundle
        | Material::Spyglass
        | Material::GlowInkSac
        | Material::AxolotlSpawnEgg
        | Material::GlowSquidSpawnEgg => material_name_35(m),
        Material::GoatSpawnEgg
        | Material::GlowItemFrame
        | Material::GlowBerries
        | Material::Candle
        | Material::WhiteCandle
        | Material::OrangeCandle
        | Material::MagentaCandle
        | Material::LightBlueCandle
        | Material::YellowCandle
        | Material::LimeCandle
        | Material::PinkCandle
        | Material::GrayCandle
        | Material::LightGrayCandle
        | Material::CyanCandle
        | Material::PurpleCandle
        | Material::BlueCandle
        | Material::BrownCandle
        | Material::GreenCandle
        | Material::RedCandle
        | Material::BlackCandle
        | Material::SmallAmethystBud
        | Material::MediumAmethystBud
        | Material::LargeAmethystBud
        | Material::AmethystCluster
        | Material::PointedDripstone
        | Material::WaterCauldron
        | Material::LavaCauldron
        | Material::PowderSnowCauldron
        | Material::CandleCake
        | Material::WhiteCandleCake
        | Material::OrangeCandleCake
        | Material::MagentaCandleCake
        | Material::LightBlueCandleCake
        | Material::YellowCandleCake
        | Material::LimeCandleCake
        | Material::PinkCandleCake
        | Material::GrayCandleCake
        | Material::LightGrayCandleCake => material_name_36(m),
        Material::CyanCandleCake
        | Material::PurpleCandleCake
        | Material::BlueCandleCake
        | Material::BrownCandleCake
        | Material::GreenCandleCake
        | Material::RedCandleCake
        | Material::BlackCandleCake
        | Material::PowderSnow
        | Material::CaveVines
        | Material::CaveVinesPlant
        | Material::BigDripleafStem
        | Material::PottedAzaleaBush
        | Material::PottedFloweringAzaleaBush => material_name_37(m),
    }
}

pub open spec fn material_name_0(m: Material) -> Seq<char> {
    match m {
        Material::Air => "Air"@,
        Material::Stone => "Stone"@,
        Material::Grass => "Grass"@,
        Material::Dirt => "Dirt"@,
        Material::Cobblestone => "Cobblestone"@,
        Material::Wood => "Wood"@,
        Material::Sapling => "Sapling"@,
        Material::Bedrock => "Bedrock"@,
        Material::Water => "Water"@,
        Material::StationaryWater => "StationaryWater"@,
        Material::Lava => "Lava"@,
        Material::StationaryLava => "StationaryLava"@,
        Material::Sand => "Sand"@,
        Material::Gravel => "Gravel"@,
        Material::GoldOre => "GoldOre"@,
        Material::IronOre => "IronOre"@,
        Material::CoalOre => "CoalOre"@,
        Material::Log => "Log"@,
        Material::Leaves => "Leaves"@,
        Material::Sponge => "Sponge"@,
        Material::Glass => "Glass"@,
        Material::LapisOre => "LapisOre"@,
        Material::LapisBlock => "LapisBlock"@,
        Material::Dispenser => "Dispenser"@,
        Material::Sandstone => "Sandstone"@,
        Material::NoteBlock => "NoteBlock"@,
        Material::BedBlock => "BedBlock"@,
        Material::PoweredRail => "PoweredRail"@,
        Material::DetectorRail => "DetectorRail"@,
        Material::PistonStickyBase => "PistonStickyBase"@,
        Material::Web => "Web"@,
        Material::LongGrass => "LongGrass"@,
        Material::DeadBush => "DeadBush"@,
        Material::PistonBase => "PistonBase"@,
        Material::PistonExtension => "PistonExtension"@,
        Material::Wool => "Wool"@,
        Material::PistonMovingPiece => "PistonMovingPiece"@,
        Material::YellowFlower => "YellowFlower"@,
        _ => Seq::empty(),
    }
}

pub open spec fn material_name_1(m: Material) -> Seq<char> {
    match m {
        Material::RedRose => "RedRose"@,
        Material::BrownMushroom => "BrownMushroom"@,
        Material::RedMushroom => "RedMushroom"@,
        Material::GoldBlock => "GoldBlock"@,
        Material::IronBlock => "IronBlock"@,
        Material::DoubleStep => "DoubleStep"@,
        Material::Step => "Step"@,
        Material::Brick => "Brick"@,
        Material::Tnt => "Tnt"@,
        Material::Bookshelf => "Bookshelf"@,
        Material::MossyCobblestone => "MossyCobblestone"@,
        Material::Obsidian => "Obsidian"@,
        Material::Torch => "Torch"@,
        Material::Fire => "Fire"@,
        Material::MobSpawner => "MobSpawner"@,
        Material::WoodStairs => "WoodStairs"@,
        Material::Chest => "Chest"@,
        Material::RedstoneWire => "RedstoneWire"@,
        Material::DiamondOre => "DiamondOre"@,
        Material::DiamondBlock => "DiamondBlock"@,
        Material::Workbench => "Workbench"@,
        Material::Crops => "Crops"@,
        Material::Soil => "Soil"@,
        Material::Furnace => "Furnace"@,
        Material::BurningFurnace => "BurningFurnace"@,
        Material::SignPost => "SignPost"@,
        Material::WoodenDoor => "WoodenDoor"@,
        Material::Ladder => "Ladder"@,
        Material::Rails => "Rails"@,
        Material::CobblestoneStairs => "CobblestoneStairs"@,
        Material::WallSign => "WallSign"@,
        Material::Lever => "Lever"@,
        Material::StonePlate => "StonePlate"@,
        Material::IronDoorBlock => "IronDoorBlock"@,
        Material::WoodPlate => "WoodPlate"@,
        Material::RedstoneOre => "RedstoneOre"@,
        Material::GlowingRedstoneOre => "GlowingRedstoneOre"@,
        Material::RedstoneTorchOff => "RedstoneTorchOff"@,
        _ => Seq::empty(),
    }
}

pub open spec fn material_name_2(m: Material) -> Seq<char> {
    match m {
        Material::RedstoneTorchOn => "RedstoneTorchOn"@,
        Material::StoneButton => "StoneButton"@,
        Material::Snow => "Snow"@,
        Material::Ice => "Ice"@,
        Material::SnowBlock => "SnowBlock"@,
        Material::Cactus => "Cactus"@,
        Material::Clay => "Clay"@,
        Material::SugarCaneBlock => "SugarCaneBlock"@,
        Material::Jukebox => "Jukebox"@,
        Material::Fence => "Fence"@,
        Material::Pumpkin => "Pumpkin"@,
        Material::Netherrack => "Netherrack"@,
        Material::SoulSand => "SoulSand"@,
        Material::Glowstone => "Glowstone"@,
        Material::Portal => "Portal"@,
        Material::JackOLantern => "JackOLantern"@,
        Material::CakeBlock => "CakeBlock"@,
        Material::DiodeBlockOff => "DiodeBlockOff"@,
        Material::DiodeBlockOn => "DiodeBlockOn"@,
        Material::LockedChest => "LockedChest"@,
        Material::StainedGlass => "StainedGlass"@,
        Material::TrapDoor => "TrapDoor"@,
        Material::MonsterEggs => "MonsterEggs"@,
        Material::SmoothBrick => "SmoothBrick"@,
        Material::HugeMushroom1 => "HugeMushroom1"@,
        Material::HugeMushroom2 => "HugeMushroom2"@,
        Material::IronFence => "IronFence"@,
        Material::ThinGlass => "ThinGlass"@,
        Material::MelonBlock => "MelonBlock"@,
        Material::PumpkinStem => "PumpkinStem"@,
        Material::MelonStem => "MelonStem"@,
        Material::Vine => "Vine"@,
        Material::FenceGate => "FenceGate"@,
        Material::BrickStairs => "BrickStairs"@,
        Material::SmoothStairs => "SmoothStairs"@,
        Material::Mycel => "Mycel"@,
        Material::WaterLily => "WaterLily"@,
        Material::NetherBrick => "NetherBrick"@,
        _ => Seq::empty(),
    }
}

pub open spec fn material_name_3(m: Material) -> Seq<char> {
    match m {
        Material::NetherFence => "NetherFence"@,
        Material::NetherBrickStairs => "NetherBrickStairs"@,
        Material::NetherWarts => "NetherWarts"@,
        Material::EnchantmentTable => "EnchantmentTable"@,
        Material::BrewingStand => "BrewingStand"@,
        Material::Cauldron => "Cauldron"@,
        Material::EnderPortal => "EnderPortal"@,
        Material::EnderPortalFrame => "EnderPortalFrame"@,
        Material::EnderStone => "EnderStone"@,
        Material::DragonEgg => "DragonEgg"@,
        Material::RedstoneLampOff => "RedstoneLampOff"@,
        Material::RedstoneLampOn => "RedstoneLampOn"@,
        Material::WoodDoubleStep => "WoodDoubleStep"@,
        Material::WoodStep => "WoodStep"@,
        Material::Cocoa => "Cocoa"@,
        Material::SandstoneStairs => "SandstoneStairs"@,
        Material::EmeraldOre => "EmeraldOre"@,
        Material::EnderChest => "EnderChest"@,
        Material::TripwireHook => "TripwireHook"@,
        Material::Tripwire => "Tripwire"@,
        Material::EmeraldBlock => "EmeraldBlock"@,
        Material::SpruceWoodStairs => "SpruceWoodStairs"@,
        Material::BirchWoodStairs => "BirchWoodStairs"@,
        Material::JungleWoodStairs => "JungleWoodStairs"@,
        Material::Command => "Command"@,
        Material::Beacon => "Beacon"@,
        Material::CobbleWall => "CobbleWall"@,
        Material::FlowerPot => "FlowerPot"@,
        Material::Carrot => "Carrot"@,
        Material::Potato => "Potato"@,
        Material::WoodButton => "WoodButton"@,
        Material::Skull => "Skull"@,
        Material::Anvil => "Anvil"@,
        Material::TrappedChest => "TrappedChest"@,
        Material::GoldPlate => "GoldPlate"@,
        Material::IronPlate => "IronPlate"@,
        Material::RedstoneComparatorOff => "RedstoneComparatorOff"@,
        Material::RedstoneComparatorOn => "RedstoneComparatorOn"@,
        _ => Seq::empty(),
    }
}

pub open spec fn material_name_4(m: Material) -> Seq<char> {
    match m {
        Material::DaylightDetector => "DaylightDetector"@,
        Material::RedstoneBlock => "RedstoneBlock"@,
        Material::QuartzOre => "QuartzOre"@,
        Material::Hopper => "Hopper"@,
        Material::QuartzBlock => "QuartzBlock"@,
        Material::QuartzStairs => "QuartzStairs"@,
        Material::ActivatorRail => "ActivatorRail"@,
        Material::Dropper => "Dropper"@,
        Material::StainedClay => "StainedClay"@,
        Material::StainedGlassPane => "StainedGlassPane"@,
        Material::Leaves2 => "Leaves2"@,
        Material::Log2 => "Log2"@,
        Material::AcaciaStairs => "AcaciaStairs"@,
        Material::DarkOakStairs => "DarkOakStairs"@,
        Material::HayBlock => "HayBlock"@,
        Material::Carpet => "Carpet"@,
        Material::HardClay => "HardClay"@,
        Material::CoalBlock => "CoalBlock"@,
        Material::PackedIce => "PackedIce"@,
        Material::DoublePlant => "DoublePlant"@,
        Material::IronSpade => "IronSpade"@,
        Material::IronPickaxe => "IronPickaxe"@,
        Material::IronAxe => "IronAxe"@,
        Material::FlintAndSteel => "FlintAndSteel"@,
        Material::Apple => "Apple"@,
        Material::Bow => "Bow"@,
        Material::Arrow => "Arrow"@,
        Material::Coal => "Coal"@,
        Material::Diamond => "Diamond"@,
        Material::IronIngot => "IronIngot"@,
        Material::GoldIngot => "GoldIngot"@,
        Material::IronSword => "IronSword"@,
        Material::WoodSword => "WoodSword"@,
        Material::WoodSpade => "WoodSpade"@,
        Material::WoodPickaxe => "WoodPickaxe"@,
        Material::WoodAxe => "WoodAxe"@,
        Material::StoneSword => "StoneSword"@,
        Material::StoneSpade => "StoneSpade"@,
        _ => Seq::empty(),
    }
}

pub open spec fn material_name_5(m: Material) -> Seq<char> {
    match m {
        Material::StonePickaxe => "StonePickaxe"@,
        Material::StoneAxe => "StoneAxe"@,
        Material::DiamondSword => "DiamondSword"@,
        Material::DiamondSpade => "DiamondSpade"@,
        Material::DiamondPickaxe => "DiamondPickaxe"@,
        Material::DiamondAxe => "DiamondAxe"@,
        Material::Stick => "Stick"@,
        Material::Bowl => "Bowl"@,
        Material::MushroomSoup => "MushroomSoup"@,
        Material::GoldSword => "GoldSword"@,
        Material::GoldSpade => "GoldSpade"@,
        Material::GoldPickaxe => "GoldPickaxe"@,
        Material::GoldAxe => "GoldAxe"@,
        Material::String => "String"@,
        Material::Feather => "Feather"@,
        Material::Sulphur => "Sulphur"@,
        Material::WoodHoe => "WoodHoe"@,
        Material::StoneHoe => "StoneHoe"@,
        Material::IronHoe => "IronHoe"@,
        Material::DiamondHoe => "DiamondHoe"@,
        Material::GoldHoe => "GoldHoe"@,
        Material::Seeds => "Seeds"@,
        Material::Wheat => "Wheat"@,
        Material::Bread => "Bread"@,
        Material::LeatherHelmet => "LeatherHelmet"@,
        Material::LeatherChestplate => "LeatherChestplate"@,
        Material::LeatherLeggings => "LeatherLeggings"@,
        Material::LeatherBoots => "LeatherBoots"@,
        Material::ChainmailHelmet => "ChainmailHelmet"@,
        Material::ChainmailChestplate => "ChainmailChestplate"@,
        Material::ChainmailLeggings => "ChainmailLeggings"@,
        Material::ChainmailBoots => "ChainmailBoots"@,
        Material::IronHelmet => "IronHelmet"@,
        Material::IronChestplate => "IronChestplate"@,
        Material::IronLeggings => "IronLeggings"@,
        Material::IronBoots => "IronBoots"@,
        Material::DiamondHelmet => "DiamondHelmet"@,
        Material::DiamondChestplate => "DiamondChestplate"@,
        _ => Seq::empty(),
    }
}

pub open spec fn material_name_6(m: Material) -> Seq<char> {
    match m {
        Material::DiamondLeggings => "DiamondLeggings"@,
        Material::DiamondBoots => "DiamondBoots"@,
        Material::GoldHelmet => "GoldHelmet"@,
        Material::GoldChestplate => "GoldChestplate"@,
        Material::GoldLeggings => "GoldLeggings"@,
        Material::GoldBoots => "GoldBoots"@,
        Material::Flint => "Flint"@,
        Material::Pork => "Pork"@,
        Material::GrilledPork => "GrilledPork"@,
        Material::Painting => "Painting"@,
        Material::GoldenApple => "GoldenApple"@,
        Material::Sign => "Sign"@,
        Material::WoodDoor => "WoodDoor"@,
        Material::Bucket => "Bucket"@,
        Material::WaterBucket => "WaterBucket"@,
        Material::LavaBucket => "LavaBucket"@,
        Material::Minecart => "Minecart"@,
        Material::Saddle => "Saddle"@,
        Material::IronDoor => "IronDoor"@,
        Material::Redstone => "Redstone"@,
        Material::SnowBall => "SnowBall"@,
        Material::Boat => "Boat"@,
        Material::Leather => "Leather"@,
        Material::MilkBucket => "MilkBucket"@,
        Material::ClayBrick => "ClayBrick"@,
        Material::ClayBall => "ClayBall"@,
        Material::SugarCane => "SugarCane"@,
        Material::Paper => "Paper"@,
        Material::Book => "Book"@,
        Material::SlimeBall => "SlimeBall"@,
        Material::StorageMinecart => "StorageMinecart"@,
        Material::PoweredMinecart => "PoweredMinecart"@,
        Material::Egg => "Egg"@,
        Material::Compass => "Compass"@,
        Material::FishingRod => "FishingRod"@,
        Material::Watch => "Watch"@,
        Material::GlowstoneDust => "GlowstoneDust"@,
        Material::RawFish => "RawFish"@,
        _ => Seq::empty(),
    }
}

pub open spec fn material_name_7(m: Material) -> Seq<char> {
    match m {
        Material::CookedFish => "CookedFish"@,
        Material::InkSack => "InkSack"@,
        Material::Bone => "Bone"@,
        Material::Sugar => "Sugar"@,
        Material::Cake => "Cake"@,
        Material::Bed => "Bed"@,
        Material::Diode => "Diode"@,
        Material::Cookie => "Cookie"@,
        Material::LegacyMap => "Map"@,
        Material::Shears => "Shears"@,
        Material::Melon => "Melon"@,
        Material::PumpkinSeeds => "PumpkinSeeds"@,
        Material::MelonSeeds => "MelonSeeds"@,
        Material::RawBeef => "RawBeef"@,
        Material::CookedBeef => "CookedBeef"@,
        Material::RawChicken => "RawChicken"@,
        Material::CookedChicken => "CookedChicken"@,
        Material::RottenFlesh => "RottenFlesh"@,
        Material::EnderPearl => "EnderPearl"@,
        Material::BlazeRod => "BlazeRod"@,
        Material::GhastTear => "GhastTear"@,
        Material::GoldNugget => "GoldNugget"@,
        Material::NetherStalk => "NetherStalk"@,
        Material::Potion => "Potion"@,
        Material::GlassBottle => "GlassBottle"@,
        Material::SpiderEye => "SpiderEye"@,
        Material::FermentedSpiderEye => "FermentedSpiderEye"@,
        Material::BlazePowder => "BlazePowder"@,
        Material::MagmaCream => "MagmaCream"@,
        Material::BrewingStandItem => "BrewingStandItem"@,
        Material::CauldronItem => "CauldronItem"@,
        Material::EyeOfEnder => "EyeOfEnder"@,
        Material::SpeckledMelon => "SpeckledMelon"@,
        Material::MonsterEgg => "MonsterEgg"@,
        Material::ExpBottle => "ExpBottle"@,
        Material::Fireball => "Fireball"@,
        Material::BookAndQuill => "BookAndQuill"@,
        Material::WrittenBook => "WrittenBook"@,
        _ => Seq::empty(),
    }
}

pub open spec fn material_name_8(m: Material) -> Seq<char> {
    match m {
        Material::Emerald => "Emerald"@,
        Material::ItemFrame => "ItemFrame"@,
        Material::FlowerPotItem => "FlowerPotItem"@,
        Material::CarrotItem => "CarrotItem"@,
        Material::PotatoItem => "PotatoItem"@,
        Material::BakedPotato => "BakedPotato"@,
        Material::PoisonousPotato => "PoisonousPotato"@,
        Material::EmptyMap => "EmptyMap"@,
        Material::GoldenCarrot => "GoldenCarrot"@,
        Material::SkullItem => "SkullItem"@,
        Material::CarrotStick => "CarrotStick"@,
        Material::NetherStar => "NetherStar"@,
        Material::PumpkinPie => "PumpkinPie"@,
        Material::Firework => "Firework"@,
        Material::FireworkCharge => "FireworkCharge"@,
        Material::EnchantedBook => "EnchantedBook"@,
        Material::RedstoneComparator => "RedstoneComparator"@,
        Material::NetherBrickItem => "NetherBrickItem"@,
        Material::Quartz => "Quartz"@,
        Material::ExplosiveMinecart => "ExplosiveMinecart"@,
        Material::HopperMinecart => "HopperMinecart"@,
        Material::IronBarding => "IronBarding"@,
        Material::GoldBarding => "GoldBarding"@,
        Material::DiamondBarding => "DiamondBarding"@,
        Material::Leash => "Leash"@,
        Material::NameTag => "NameTag"@,
        Material::CommandMinecart => "CommandMinecart"@,
        Material::GoldRecord => "GoldRecord"@,
        Material::GreenRecord => "GreenRecord"@,
        Material::Record3 => "Record3"@,
        Material::Record4 => "Record4"@,
        Material::Record5 => "Record5"@,
        Material::Record6 => "Record6"@,
        Material::Record7 => "Record7"@,
        Material::Record8 => "Record8"@,
        Material::Record9 => "Record9"@,
        Material::Record10 => "Record10"@,
        Material::Record11 => "Record11"@,
        _ => Seq::empty(),
    }
}

pub open spec fn material_name_9(m: Material) -> Seq<char> {
    match m {
        Material::Record12 => "Record12"@,
        Material::SlimeBlock => "SlimeBlock"@,
        Material::Barrier => "Barrier"@,
        Material::IronTrapdoor => "IronTrapdoor"@,
        Material::Prismarine => "Prismarine"@,
        Material::SeaLantern => "SeaLantern"@,
        Material::StandingBanner => "StandingBanner"@,
        Material::WallBanner => "WallBanner"@,
        Material::DaylightDetectorInverted => "DaylightDetectorInverted"@,
        Material::RedSandstone => "RedSandstone"@,
        Material::RedSandstoneStairs => "RedSandstoneStairs"@,
        Material::DoubleStoneSlab2 => "DoubleStoneSlab2"@,
        Material::StoneSlab2 => "StoneSlab2"@,
        Material::SpruceFenceGate => "SpruceFenceGate"@,
        Material::BirchFenceGate => "BirchFenceGate"@,
        Material::JungleFenceGate => "JungleFenceGate"@,
        Material::DarkOakFenceGate => "DarkOakFenceGate"@,
        Material::AcaciaFenceGate => "AcaciaFenceGate"@,
        Material::SpruceFence => "SpruceFence"@,
        Material::BirchFence => "BirchFence"@,
        Material::JungleFence => "JungleFence"@,
        Material::DarkOakFence => "DarkOakFence"@,
        Material::AcaciaFence => "AcaciaFence"@,
        Material::SpruceDoor => "SpruceDoor"@,
        Material::BirchDoor => "BirchDoor"@,
        Material::JungleDoor => "JungleDoor"@,
        Material::AcaciaDoor => "AcaciaDoor"@,
        Material::DarkOakDoor => "DarkOakDoor"@,
        Material::PrismarineShard => "PrismarineShard"@,
        Material::PrismarineCrystals => "PrismarineCrystals"@,
        Material::Rabbit => "Rabbit"@,
        Material::CookedRabbit => "CookedRabbit"@,
        Material::RabbitStew => "RabbitStew"@,
        Material::RabbitFoot => "RabbitFoot"@,
        Material::RabbitHide => "RabbitHide"@,
        Material::ArmorStand => "ArmorStand"@,
        Material::Mutton => "Mutton"@,
        Material::CookedMutton => "CookedMutton"@,
        _ => Seq::empty(),
    }
}

pub open spec fn material_name_10(m: Material) -> Seq<char> {
    match m {
        Material::Banner => "Banner"@,
        Material::SpruceDoorItem => "SpruceDoorItem"@,
        Material::BirchDoorItem => "BirchDoorItem"@,
        Material::JungleDoorItem => "JungleDoorItem"@,
        Material::AcaciaDoorItem => "AcaciaDoorItem"@,
        Material::DarkOakDoorItem => "DarkOakDoorItem"@,
        Material::EndRod => "EndRod"@,
        Material::ChorusPlant => "ChorusPlant"@,
        Material::ChorusFlower => "ChorusFlower"@,
        Material::PurpurBlock => "PurpurBlock"@,
        Material::PurpurPillar => "PurpurPillar"@,
        Material::PurpurStairs => "PurpurStairs"@,
        Material::PurpurDoubleSlab => "PurpurDoubleSlab"@,
        Material::PurpurSlab => "PurpurSlab"@,
        Material::EndBricks => "EndBricks"@,
        Material::BeetrootBlock => "BeetrootBlock"@,
        Material::GrassPath => "GrassPath"@,
        Material::EndGateway => "EndGateway"@,
        Material::CommandRepeating => "CommandRepeating"@,
        Material::CommandChain => "CommandChain"@,
        Material::StructureBlock => "StructureBlock"@,
        Material::EndCrystal => "EndCrystal"@,
        Material::ChorusFruit => "ChorusFruit"@,
        Material::ChorusFruitPopped => "ChorusFruitPopped"@,
        Material::Beetroot => "Beetroot"@,
        Material::BeetrootSeeds => "BeetrootSeeds"@,
        Material::BeetrootSoup => "BeetrootSoup"@,
        Material::DragonsBreath => "DragonsBreath"@,
        Material::SplashPotion => "SplashPotion"@,
        Material::SpectralArrow => "SpectralArrow"@,
        Material::TippedArrow => "TippedArrow"@,
        Material::LingeringPotion => "LingeringPotion"@,
        Material::Shield => "Shield"@,
        Material::Elytra => "Elytra"@,
        Material::BoatSpruce => "BoatSpruce"@,
        Material::BoatBirch => "BoatBirch"@,
        Material::BoatJungle => "BoatJungle"@,
        Material::BoatAcacia => "BoatAcacia"@,
        _ => Seq::empty(),
    }
}

pub open spec fn material_name_11(m: Material) -> Seq<char> {
    match m {
        Material::BoatDarkOak => "BoatDarkOak"@,
        Material::FrostedIce => "FrostedIce"@,
        Material::Magma => "Magma"@,
        Material::NetherWartBlock => "NetherWartBlock"@,
        Material::RedNetherBrick => "RedNetherBrick"@,
        Material::BoneBlock => "BoneBlock"@,
        Material::StructureVoid => "StructureVoid"@,
        Material::Observer => "Observer"@,
        Material::WhiteShulkerBox => "WhiteShulkerBox"@,
        Material::OrangeShulkerBox => "OrangeShulkerBox"@,
        Material::MagentaShulkerBox => "MagentaShulkerBox"@,
        Material::LightBlueShulkerBox => "LightBlueShulkerBox"@,
        Material::YellowShulkerBox => "YellowShulkerBox"@,
        Material::LimeShulkerBox => "LimeShulkerBox"@,
        Material::PinkShulkerBox => "PinkShulkerBox"@,
        Material::GrayShulkerBox => "GrayShulkerBox"@,
        Material::SilverShulkerBox => "SilverShulkerBox"@,
        Material::CyanShulkerBox => "CyanShulkerBox"@,
        Material::PurpleShulkerBox => "PurpleShulkerBox"@,
        Material::BlueShulkerBox => "BlueShulkerBox"@,
        Material::BrownShulkerBox => "BrownShulkerBox"@,
        Material::GreenShulkerBox => "GreenShulkerBox"@,
        Material::RedShulkerBox => "RedShulkerBox"@,
        Material::BlackShulkerBox => "BlackShulkerBox"@,
        Material::Totem => "Totem"@,
        Material::ShulkerShell => "ShulkerShell"@,
        Material::IronNugget => "IronNugget"@,
        Material::WhiteGlazedTerracotta => "WhiteGlazedTerracotta"@,
        Material::OrangeGlazedTerracotta => "OrangeGlazedTerracotta"@,
        Material::MagentaGlazedTerracotta => "MagentaGlazedTerracotta"@,
        Material::LightBlueGlazedTerracotta => "LightBlueGlazedTerracotta"@,
        Material::YellowGlazedTerracotta => "YellowGlazedTerracotta"@,
        Material::LimeGlazedTerracotta => "LimeGlazedTerracotta"@,
        Material::PinkGlazedTerracotta => "PinkGlazedTerracotta"@,
        Material::GrayGlazedTerracotta => "GrayGlazedTerracotta"@,
        Material::SilverGlazedTerracotta => "SilverGlazedTerracotta"@,
        Material::CyanGlazedTerracotta => "CyanGlazedTerracotta"@,
        Material::PurpleGlazedTerracotta => "PurpleGlazedTerracotta"@,
        _ => Seq::empty(),
    }
}

pub open spec fn material_name_12(m: Material) -> Seq<char> {
    match m {
        Material::BlueGlazedTerracotta => "BlueGlazedTerracotta"@,
        Material::BrownGlazedTerracotta => "BrownGlazedTerracotta"@,
        Material::GreenGlazedTerracotta => "GreenGlazedTerracotta"@,
        Material::RedGlazedTerracotta => "RedGlazedTerracotta"@,
        Material::BlackGlazedTerracotta => "BlackGlazedTerracotta"@,
        Material::Concrete => "Concrete"@,
        Material::ConcretePowder => "ConcretePowder"@,
        Material::KnowledgeBook => "KnowledgeBook"@,
        Material::AcaciaBoat => "AcaciaBoat"@,
        Material::AcaciaButton => "AcaciaButton"@,
        Material::AcaciaLeaves => "AcaciaLeaves"@,
        Material::AcaciaLog => "AcaciaLog"@,
        Material::AcaciaPlanks => "AcaciaPlanks"@,
        Material::AcaciaPressurePlate => "AcaciaPressurePlate"@,
        Material::AcaciaSapling => "AcaciaSapling"@,
        Material::AcaciaSlab => "AcaciaSlab"@,
        Material::AcaciaTrapdoor => "AcaciaTrapdoor"@,
        Material::AcaciaWood => "AcaciaWood"@,
        Material::Allium => "Allium"@,
        Material::Andesite => "Andesite"@,
        Material::AttachedMelonStem => "AttachedMelonStem"@,
        Material::AttachedPumpkinStem => "AttachedPumpkinStem"@,
        Material::AzureBluet => "AzureBluet"@,
        Material::BatSpawnEgg => "BatSpawnEgg"@,
        Material::Beef => "Beef"@,
        Material::Beetroots => "Beetroots"@,
        Material::BirchBoat => "BirchBoat"@,
        Material::BirchButton => "BirchButton"@,
        Material::BirchLeaves => "BirchLeaves"@,
        Material::BirchLog => "BirchLog"@,
        Material::BirchPlanks => "BirchPlanks"@,
        Material::BirchPressurePlate => "BirchPressurePlate"@,
        Material::BirchSapling => "BirchSapling"@,
        Material::BirchSlab => "BirchSlab"@,
        Material::BirchStairs => "BirchStairs"@,
        Material::BirchTrapdoor => "BirchTrapdoor"@,
        Material::BirchWood => "BirchWood"@,
        Material::BlackBanner => "BlackBanner"@,
        _ => Seq::empty(),
    }
}

pub open spec fn material_name_13(m: Material) -> Seq<char> {
    match m {
        Material::BlackBed => "BlackBed"@,
        Material::BlackCarpet => "BlackCarpet"@,
        Material::BlackConcrete => "BlackConcrete"@,
        Material::BlackConcretePowder => "BlackConcretePowder"@,
        Material::BlackStainedGlass => "BlackStainedGlass"@,
        Material::BlackStainedGlassPane => "BlackStainedGlassPane"@,
        Material::BlackTerracotta => "BlackTerracotta"@,
        Material::BlackWallBanner => "BlackWallBanner"@,
        Material::BlackWool => "BlackWool"@,
        Material::BlazeSpawnEgg => "BlazeSpawnEgg"@,
        Material::BlueBanner => "BlueBanner"@,
        Material::BlueBed => "BlueBed"@,
        Material::BlueCarpet => "BlueCarpet"@,
        Material::BlueConcrete => "BlueConcrete"@,
        Material::BlueConcretePowder => "BlueConcretePowder"@,
        Material::BlueIce => "BlueIce"@,
        Material::BlueOrchid => "BlueOrchid"@,
        Material::BlueStainedGlass => "BlueStainedGlass"@,
        Material::BlueStainedGlassPane => "BlueStainedGlassPane"@,
        Material::BlueTerracotta => "BlueTerracotta"@,
        Material::BlueWallBanner => "BlueWallBanner"@,
        Material::BlueWool => "BlueWool"@,
        Material::BoneMeal => "BoneMeal"@,
        Material::BrainCoral => "BrainCoral"@,
        Material::BrainCoralBlock => "BrainCoralBlock"@,
        Material::BrainCoralFan => "BrainCoralFan"@,
        Material::BrainCoralWallFan => "BrainCoralWallFan"@,
        Material::Bricks => "Bricks"@,
        Material::BrickSlab => "BrickSlab"@,
        Material::BrownBanner => "BrownBanner"@,
        Material::BrownBed => "BrownBed"@,
        Material::BrownCarpet => "BrownCarpet"@,
        Material::BrownConcrete => "BrownConcrete"@,
        Material::BrownConcretePowder => "BrownConcretePowder"@,
        Material::BrownMushroomBlock => "BrownMushroomBlock"@,
        Material::BrownStainedGlass => "BrownStainedGlass"@,
        Material::BrownStainedGlassPane => "BrownStainedGlassPane"@,
        Material::BrownTerracotta => "BrownTerracotta"@,
        _ => Seq::empty(),
    }
}

pub open spec fn material_name_14(m: Material) -> Seq<char> {
    match m {
        Material::BrownWallBanner => "BrownWallBanner"@,
        Material::BrownWool => "BrownWool"@,
        Material::BubbleColumn => "BubbleColumn"@,
        Material::BubbleCoral => "BubbleCoral"@,
        Material::BubbleCoralBlock => "BubbleCoralBlock"@,
        Material::BubbleCoralFan => "BubbleCoralFan"@,
        Material::BubbleCoralWallFan => "BubbleCoralWallFan"@,
        Material::CactusGreen => "CactusGreen"@,
        Material::Carrots => "Carrots"@,
        Material::CarrotOnAStick => "CarrotOnAStick"@,
        Material::CarvedPumpkin => "CarvedPumpkin"@,
        Material::CaveAir => "CaveAir"@,
        Material::CaveSpiderSpawnEgg => "CaveSpiderSpawnEgg"@,
        Material::ChainCommandBlock => "ChainCommandBlock"@,
        Material::Charcoal => "Charcoal"@,
        Material::ChestMinecart => "ChestMinecart"@,
        Material::Chicken => "Chicken"@,
        Material::ChickenSpawnEgg => "ChickenSpawnEgg"@,
        Material::ChippedAnvil => "ChippedAnvil"@,
        Material::ChiseledQuartzBlock => "ChiseledQuartzBlock"@,
        Material::ChiseledRedSandstone => "ChiseledRedSandstone"@,
        Material::ChiseledSandstone => "ChiseledSandstone"@,
        Material::ChiseledStoneBricks => "ChiseledStoneBricks"@,
        Material::Clock => "Clock"@,
        Material::CoarseDirt => "CoarseDirt"@,
        Material::CobblestoneSlab => "CobblestoneSlab"@,
        Material::CobblestoneWall => "CobblestoneWall"@,
        Material::Cobweb => "Cobweb"@,
        Material::CocoaBeans => "CocoaBeans"@,
        Material::Cod => "Cod"@,
        Material::CodBucket => "CodBucket"@,
        Material::CodSpawnEgg => "CodSpawnEgg"@,
        Material::CommandBlock => "CommandBlock"@,
        Material::CommandBlockMinecart => "CommandBlockMinecart"@,
        Material::Comparator => "Comparator"@,
        Material::Conduit => "Conduit"@,
        Material::CookedCod => "CookedCod"@,
        Material::CookedPorkchop => "CookedPorkchop"@,
        _ => Seq::empty(),
    }
}

pub open spec fn material_name_15(m: Material) -> Seq<char> {
    match m {
        Material::CookedSalmon => "CookedSalmon"@,
        Material::CowSpawnEgg => "CowSpawnEgg"@,
        Material::CrackedStoneBricks => "CrackedStoneBricks"@,
        Material::CraftingTable => "CraftingTable"@,
        Material::CreeperHead => "CreeperHead"@,
        Material::CreeperSpawnEgg => "CreeperSpawnEgg"@,
        Material::CreeperWallHead => "CreeperWallHead"@,
        Material::CutRedSandstone => "CutRedSandstone"@,
        Material::CutSandstone => "CutSandstone"@,
        Material::CyanBanner => "CyanBanner"@,
        Material::CyanBed => "CyanBed"@,
        Material::CyanCarpet => "CyanCarpet"@,
        Material::CyanConcrete => "CyanConcrete"@,
        Material::CyanConcretePowder => "CyanConcretePowder"@,
        Material::CyanDye => "CyanDye"@,
        Material::CyanStainedGlass => "CyanStainedGlass"@,
        Material::CyanStainedGlassPane => "CyanStainedGlassPane"@,
        Material::CyanTerracotta => "CyanTerracotta"@,
        Material::CyanWallBanner => "CyanWallBanner"@,
        Material::CyanWool => "CyanWool"@,
        Material::DamagedAnvil => "DamagedAnvil"@,
        Material::Dandelion => "Dandelion"@,
        Material::DandelionYellow => "DandelionYellow"@,
        Material::DarkOakBoat => "DarkOakBoat"@,
        Material::DarkOakButton => "DarkOakButton"@,
        Material::DarkOakLeaves => "DarkOakLeaves"@,
        Material::DarkOakLog => "DarkOakLog"@,
        Material::DarkOakPlanks => "DarkOakPlanks"@,
        Material::DarkOakPressurePlate => "DarkOakPressurePlate"@,
        Material::DarkOakSapling => "DarkOakSapling"@,
        Material::DarkOakSlab => "DarkOakSlab"@,
        Material::DarkOakTrapdoor => "DarkOakTrapdoor"@,
        Material::DarkOakWood => "DarkOakWood"@,
        Material::DarkPrismarine => "DarkPrismarine"@,
        Material::DarkPrismarineSlab => "DarkPrismarineSlab"@,
        Material::DarkPrismarineStairs => "DarkPrismarineStairs"@,
        Material::DeadBrainCoralBlock => "DeadBrainCoralBlock"@,
        Material::DeadBrainCoralFan => "DeadBrainCoralFan"@,
        _ => Seq::empty(),
    }
}

pub open spec fn material_name_16(m: Material) -> Seq<char> {
    match m {
        Material::DeadBrainCoralWallFan => "DeadBrainCoralWallFan"@,
        Material::DeadBubbleCoralBlock => "DeadBubbleCoralBlock"@,
        Material::DeadBubbleCoralFan => "DeadBubbleCoralFan"@,
        Material::DeadBubbleCoralWallFan => "DeadBubbleCoralWallFan"@,
        Material::DeadFireCoralBlock => "DeadFireCoralBlock"@,
        Material::DeadFireCoralFan => "DeadFireCoralFan"@,
        Material::DeadFireCoralWallFan => "DeadFireCoralWallFan"@,
        Material::DeadHornCoralBlock => "DeadHornCoralBlock"@,
        Material::DeadHornCoralFan => "DeadHornCoralFan"@,
        Material::DeadHornCoralWallFan => "DeadHornCoralWallFan"@,
        Material::DeadTubeCoralBlock => "DeadTubeCoralBlock"@,
        Material::DeadTubeCoralFan => "DeadTubeCoralFan"@,
        Material::DeadTubeCoralWallFan => "DeadTubeCoralWallFan"@,
        Material::DebugStick => "DebugStick"@,
        Material::DiamondHorseArmor => "DiamondHorseArmor"@,
        Material::DiamondShovel => "DiamondShovel"@,
        Material::Diorite => "Diorite"@,
        Material::DolphinSpawnEgg => "DolphinSpawnEgg"@,
        Material::DonkeySpawnEgg => "DonkeySpawnEgg"@,
        Material::DragonBreath => "DragonBreath"@,
        Material::DragonHead => "DragonHead"@,
        Material::DragonWallHead => "DragonWallHead"@,
        Material::DriedKelp => "DriedKelp"@,
        Material::DriedKelpBlock => "DriedKelpBlock"@,
        Material::DrownedSpawnEgg => "DrownedSpawnEgg"@,
        Material::ElderGuardianSpawnEgg => "ElderGuardianSpawnEgg"@,
        Material::EnchantedGoldenApple => "EnchantedGoldenApple"@,
        Material::EnchantingTable => "EnchantingTable"@,
        Material::EndermanSpawnEgg => "EndermanSpawnEgg"@,
        Material::EndermiteSpawnEgg => "EndermiteSpawnEgg"@,
        Material::EnderEye => "EnderEye"@,
        Material::EndPortal => "EndPortal"@,
        Material::EndPortalFrame => "EndPortalFrame"@,
        Material::EndStone => "EndStone"@,
        Material::EndStoneBricks => "EndStoneBricks"@,
        Material::EvokerSpawnEgg => "EvokerSpawnEgg"@,
        Material::ExperienceBottle => "ExperienceBottle"@,
        Material::Farmland => "Farmland"@,
        _ => Seq::empty(),
    }
}

pub open spec fn material_name_17(m: Material) -> Seq<char> {
    match m {
        Material::Fern => "Fern"@,
        Material::FilledMap => "FilledMap"@,
        Material::FireworkRocket => "FireworkRocket"@,
        Material::FireworkStar => "FireworkStar"@,
        Material::FireCharge => "FireCharge"@,
        Material::FireCoral => "FireCoral"@,
        Material::FireCoralBlock => "FireCoralBlock"@,
        Material::FireCoralFan => "FireCoralFan"@,
        Material::FireCoralWallFan => "FireCoralWallFan"@,
        Material::FurnaceMinecart => "FurnaceMinecart"@,
        Material::GhastSpawnEgg => "GhastSpawnEgg"@,
        Material::GlassPane => "GlassPane"@,
        Material::GlisteringMelonSlice => "GlisteringMelonSlice"@,
        Material::GoldenAxe => "GoldenAxe"@,
        Material::GoldenBoots => "GoldenBoots"@,
        Material::GoldenChestplate => "GoldenChestplate"@,
        Material::GoldenHelmet => "GoldenHelmet"@,
        Material::GoldenHoe => "GoldenHoe"@,
        Material::GoldenHorseArmor => "GoldenHorseArmor"@,
        Material::GoldenLeggings => "GoldenLeggings"@,
        Material::GoldenPickaxe => "GoldenPickaxe"@,
        Material::GoldenShovel => "GoldenShovel"@,
        Material::GoldenSword => "GoldenSword"@,
        Material::Granite => "Granite"@,
        Material::GrassBlock => "GrassBlock"@,
        Material::GrayBanner => "GrayBanner"@,
        Material::GrayBed => "GrayBed"@,
        Material::GrayCarpet => "GrayCarpet"@,
        Material::GrayConcrete => "GrayConcrete"@,
        Material::GrayConcretePowder => "GrayConcretePowder"@,
        Material::GrayDye => "GrayDye"@,
        Material::GrayStainedGlass => "GrayStainedGlass"@,
        Material::GrayStainedGlassPane => "GrayStainedGlassPane"@,
        Material::GrayTerracotta => "GrayTerracotta"@,
        Material::GrayWallBanner => "GrayWallBanner"@,
        Material::GrayWool => "GrayWool"@,
        Material::GreenBanner => "GreenBanner"@,
        Material::GreenBed => "GreenBed"@,
        _ => Seq::empty(),
    }
}

pub open spec fn material_name_18(m: Material) -> Seq<char> {
    match m {
        Material::GreenCarpet => "GreenCarpet"@,
        Material::GreenConcrete => "GreenConcrete"@,
        Material::GreenConcretePowder => "GreenConcretePowder"@,
        Material::GreenStainedGlass => "GreenStainedGlass"@,
        Material::GreenStainedGlassPane => "GreenStainedGlassPane"@,
        Material::GreenTerracotta => "GreenTerracotta"@,
        Material::GreenWallBanner => "GreenWallBanner"@,
        Material::GreenWool => "GreenWool"@,
        Material::GuardianSpawnEgg => "GuardianSpawnEgg"@,
        Material::Gunpowder => "Gunpowder"@,
        Material::HeartOfTheSea => "HeartOfTheSea"@,
        Material::HeavyWeightedPressurePlate => "HeavyWeightedPressurePlate"@,
        Material::HornCoral => "HornCoral"@,
        Material::HornCoralBlock => "HornCoralBlock"@,
        Material::HornCoralFan => "HornCoralFan"@,
        Material::HornCoralWallFan => "HornCoralWallFan"@,
        Material::HorseSpawnEgg => "HorseSpawnEgg"@,
        Material::HuskSpawnEgg => "HuskSpawnEgg"@,
        Material::InfestedChiseledStoneBricks => "InfestedChiseledStoneBricks"@,
        Material::InfestedCobblestone => "InfestedCobblestone"@,
        Material::InfestedCrackedStoneBricks => "InfestedCrackedStoneBricks"@,
        Material::InfestedMossyStoneBricks => "InfestedMossyStoneBricks"@,
        Material::InfestedStone => "InfestedStone"@,
        Material::InfestedStoneBricks => "InfestedStoneBricks"@,
        Material::InkSac => "InkSac"@,
        Material::IronBars => "IronBars"@,
        Material::IronHorseArmor => "IronHorseArmor"@,
        Material::IronShovel => "IronShovel"@,
        Material::JungleBoat => "JungleBoat"@,
        Material::JungleButton => "JungleButton"@,
        Material::JungleLeaves => "JungleLeaves"@,
        Material::JungleLog => "JungleLog"@,
        Material::JunglePlanks => "JunglePlanks"@,
        Material::JunglePressurePlate => "JunglePressurePlate"@,
        Material::JungleSapling => "JungleSapling"@,
        Material::JungleSlab => "JungleSlab"@,
        Material::JungleStairs => "JungleStairs"@,
        Material::JungleTrapdoor => "JungleTrapdoor"@,
        _ => Seq::empty(),
    }
}

pub open spec fn material_name_19(m: Material) -> Seq<char> {
    match m {
        Material::JungleWood => "JungleWood"@,
        Material::Kelp => "Kelp"@,
        Material::KelpPlant => "KelpPlant"@,
        Material::LapisLazuli => "LapisLazuli"@,
        Material::LargeFern => "LargeFern"@,
        Material::Lead => "Lead"@,
        Material::LightBlueBanner => "LightBlueBanner"@,
        Material::LightBlueBed => "LightBlueBed"@,
        Material::LightBlueCarpet => "LightBlueCarpet"@,
        Material::LightBlueConcrete => "LightBlueConcrete"@,
        Material::LightBlueConcretePowder => "LightBlueConcretePowder"@,
        Material::LightBlueDye => "LightBlueDye"@,
        Material::LightBlueStainedGlass => "LightBlueStainedGlass"@,
        Material::LightBlueStainedGlassPane => "LightBlueStainedGlassPane"@,
        Material::LightBlueTerracotta => "LightBlueTerracotta"@,
        Material::LightBlueWallBanner => "LightBlueWallBanner"@,
        Material::LightBlueWool => "LightBlueWool"@,
        Material::LightGrayBanner => "LightGrayBanner"@,
        Material::LightGrayBed => "LightGrayBed"@,
        Material::LightGrayCarpet => "LightGrayCarpet"@,
        Material::LightGrayConcrete => "LightGrayConcrete"@,
        Material::LightGrayConcretePowder => "LightGrayConcretePowder"@,
        Material::LightGrayDye => "LightGrayDye"@,
        Material::LightGrayGlazedTerracotta => "LightGrayGlazedTerracotta"@,
        Material::LightGrayShulkerBox => "LightGrayShulkerBox"@,
        Material::LightGrayStainedGlass => "LightGrayStainedGlass"@,
        Material::LightGrayStainedGlassPane => "LightGrayStainedGlassPane"@,
        Material::LightGrayTerracotta => "LightGrayTerracotta"@,
        Material::LightGrayWallBanner => "LightGrayWallBanner"@,
        Material::LightGrayWool => "LightGrayWool"@,
        Material::LightWeightedPressurePlate => "LightWeightedPressurePlate"@,
        Material::Lilac => "Lilac"@,
        Material::LilyPad => "LilyPad"@,
        Material::LimeBanner => "LimeBanner"@,
        Material::LimeBed => "LimeBed"@,
        Material::LimeCarpet => "LimeCarpet"@,
        Material::LimeConcrete => "LimeConcrete"@,
        Material::LimeConcretePowder => "LimeConcretePowder"@,
        _ => Seq::empty(),
    }
}

pub open spec fn material_name_20(m: Material) -> Seq<char> {
    match m {
        Material::LimeDye => "LimeDye"@,
        Material::LimeStainedGlass => "LimeStainedGlass"@,
        Material::LimeStainedGlassPane => "LimeStainedGlassPane"@,
        Material::LimeTerracotta => "LimeTerracotta"@,
        Material::LimeWallBanner => "LimeWallBanner"@,
        Material::LimeWool => "LimeWool"@,
        Material::LlamaSpawnEgg => "LlamaSpawnEgg"@,
        Material::MagentaBanner => "MagentaBanner"@,
        Material::MagentaBed => "MagentaBed"@,
        Material::MagentaCarpet => "MagentaCarpet"@,
        Material::MagentaConcrete => "MagentaConcrete"@,
        Material::MagentaConcretePowder => "MagentaConcretePowder"@,
        Material::MagentaDye => "MagentaDye"@,
        Material::MagentaStainedGlass => "MagentaStainedGlass"@,
        Material::MagentaStainedGlassPane => "MagentaStainedGlassPane"@,
        Material::MagentaTerracotta => "MagentaTerracotta"@,
        Material::MagentaWallBanner => "MagentaWallBanner"@,
        Material::MagentaWool => "MagentaWool"@,
        Material::MagmaBlock => "MagmaBlock"@,
        Material::MagmaCubeSpawnEgg => "MagmaCubeSpawnEgg"@,
        Material::MelonSlice => "MelonSlice"@,
        Material::MooshroomSpawnEgg => "MooshroomSpawnEgg"@,
        Material::MossyCobblestoneWall => "MossyCobblestoneWall"@,
        Material::MossyStoneBricks => "MossyStoneBricks"@,
        Material::MovingPiston => "MovingPiston"@,
        Material::MuleSpawnEgg => "MuleSpawnEgg"@,
        Material::MushroomStem => "MushroomStem"@,
        Material::MushroomStew => "MushroomStew"@,
        Material::MusicDisc11 => "MusicDisc11"@,
        Material::MusicDisc13 => "MusicDisc13"@,
        Material::MusicDiscBlocks => "MusicDiscBlocks"@,
        Material::MusicDiscCat => "MusicDiscCat"@,
        Material::MusicDiscChirp => "MusicDiscChirp"@,
        Material::MusicDiscFar => "MusicDiscFar"@,
        Material::MusicDiscMall => "MusicDiscMall"@,
        Material::MusicDiscMellohi => "MusicDiscMellohi"@,
        Material::MusicDiscStal => "MusicDiscStal"@,
        Material::MusicDiscStrad => "MusicDiscStrad"@,
        _ => Seq::empty(),
    }
}

pub open spec fn material_name_21(m: Material) -> Seq<char> {
    match m {
        Material::MusicDiscWait => "MusicDiscWait"@,
        Material::MusicDiscWard => "MusicDiscWard"@,
        Material::Mycelium => "Mycelium"@,
        Material::NautilusShell => "NautilusShell"@,
        Material::NetherBricks => "NetherBricks"@,
        Material::NetherBrickFence => "NetherBrickFence"@,
        Material::NetherBrickSlab => "NetherBrickSlab"@,
        Material::NetherPortal => "NetherPortal"@,
        Material::NetherQuartzOre => "NetherQuartzOre"@,
        Material::NetherWart => "NetherWart"@,
        Material::OakBoat => "OakBoat"@,
        Material::OakButton => "OakButton"@,
        Material::OakDoor => "OakDoor"@,
        Material::OakFence => "OakFence"@,
        Material::OakFenceGate => "OakFenceGate"@,
        Material::OakLeaves => "OakLeaves"@,
        Material::OakLog => "OakLog"@,
        Material::OakPlanks => "OakPlanks"@,
        Material::OakPressurePlate => "OakPressurePlate"@,
        Material::OakSapling => "OakSapling"@,
        Material::OakSlab => "OakSlab"@,
        Material::OakStairs => "OakStairs"@,
        Material::OakTrapdoor => "OakTrapdoor"@,
        Material::OakWood => "OakWood"@,
        Material::OcelotSpawnEgg => "OcelotSpawnEgg"@,
        Material::OrangeBanner => "OrangeBanner"@,
        Material::OrangeBed => "OrangeBed"@,
        Material::OrangeCarpet => "OrangeCarpet"@,
        Material::OrangeConcrete => "OrangeConcrete"@,
        Material::OrangeConcretePowder => "OrangeConcretePowder"@,
        Material::OrangeDye => "OrangeDye"@,
        Material::OrangeStainedGlass => "OrangeStainedGlass"@,
        Material::OrangeStainedGlassPane => "OrangeStainedGlassPane"@,
        Material::OrangeTerracotta => "OrangeTerracotta"@,
        Material::OrangeTulip => "OrangeTulip"@,
        Material::OrangeWallBanner => "OrangeWallBanner"@,
        Material::OrangeWool => "OrangeWool"@,
        Material::OxeyeDaisy => "OxeyeDaisy"@,
        _ => Seq::empty(),
    }
}

pub open spec fn material_name_22(m: Material) -> Seq<char> {
    match m {
        Material::ParrotSpawnEgg => "ParrotSpawnEgg"@,
        Material::Peony => "Peony"@,
        Material::PetrifiedOakSlab => "PetrifiedOakSlab"@,
        Material::PhantomMembrane => "PhantomMembrane"@,
        Material::PhantomSpawnEgg => "PhantomSpawnEgg"@,
        Material::PigSpawnEgg => "PigSpawnEgg"@,
        Material::PinkBanner => "PinkBanner"@,
        Material::PinkBed => "PinkBed"@,
        Material::PinkCarpet => "PinkCarpet"@,
        Material::PinkConcrete => "PinkConcrete"@,
        Material::PinkConcretePowder => "PinkConcretePowder"@,
        Material::PinkDye => "PinkDye"@,
        Material::PinkStainedGlass => "PinkStainedGlass"@,
        Material::PinkStainedGlassPane => "PinkStainedGlassPane"@,
        Material::PinkTerracotta => "PinkTerracotta"@,
        Material::PinkTulip => "PinkTulip"@,
        Material::PinkWallBanner => "PinkWallBanner"@,
        Material::PinkWool => "PinkWool"@,
        Material::Piston => "Piston"@,
        Material::PistonHead => "PistonHead"@,
        Material::PlayerHead => "PlayerHead"@,
        Material::PlayerWallHead => "PlayerWallHead"@,
        Material::Podzol => "Podzol"@,
        Material::PolarBearSpawnEgg => "PolarBearSpawnEgg"@,
        Material::PolishedAndesite => "PolishedAndesite"@,
        Material::PolishedDiorite => "PolishedDiorite"@,
        Material::PolishedGranite => "PolishedGranite"@,
        Material::PoppedChorusFruit => "PoppedChorusFruit"@,
        Material::Poppy => "Poppy"@,
        Material::Porkchop => "Porkchop"@,
        Material::Potatoes => "Potatoes"@,
        Material::PottedAcaciaSapling => "PottedAcaciaSapling"@,
        Material::PottedAllium => "PottedAllium"@,
        Material::PottedAzureBluet => "PottedAzureBluet"@,
        Material::PottedBirchSapling => "PottedBirchSapling"@,
        Material::PottedBlueOrchid => "PottedBlueOrchid"@,
        Material::PottedBrownMushroom => "PottedBrownMushroom"@,
        Material::PottedCactus => "PottedCactus"@,
        _ => Seq::empty(),
    }
}

pub open spec fn material_name_23(m: Material) -> Seq<char> {
    match m {
        Material::PottedDandelion => "PottedDandelion"@,
        Material::PottedDarkOakSapling => "PottedDarkOakSapling"@,
        Material::PottedDeadBush => "PottedDeadBush"@,
        Material::PottedFern => "PottedFern"@,
        Material::PottedJungleSapling => "PottedJungleSapling"@,
        Material::PottedOakSapling => "PottedOakSapling"@,
        Material::PottedOrangeTulip => "PottedOrangeTulip"@,
        Material::PottedOxeyeDaisy => "PottedOxeyeDaisy"@,
        Material::PottedPinkTulip => "PottedPinkTulip"@,
        Material::PottedPoppy => "PottedPoppy"@,
        Material::PottedRedMushroom => "PottedRedMushroom"@,
        Material::PottedRedTulip => "PottedRedTulip"@,
        Material::PottedSpruceSapling => "PottedSpruceSapling"@,
        Material::PottedWhiteTulip => "PottedWhiteTulip"@,
        Material::PrismarineBricks => "PrismarineBricks"@,
        Material::PrismarineBrickSlab => "PrismarineBrickSlab"@,
        Material::PrismarineBrickStairs => "PrismarineBrickStairs"@,
        Material::PrismarineSlab => "PrismarineSlab"@,
        Material::PrismarineStairs => "PrismarineStairs"@,
        Material::Pufferfish => "Pufferfish"@,
        Material::PufferfishBucket => "PufferfishBucket"@,
        Material::PufferfishSpawnEgg => "PufferfishSpawnEgg"@,
        Material::PurpleBanner => "PurpleBanner"@,
        Material::PurpleBed => "PurpleBed"@,
        Material::PurpleCarpet => "PurpleCarpet"@,
        Material::PurpleConcrete => "PurpleConcrete"@,
        Material::PurpleConcretePowder => "PurpleConcretePowder"@,
        Material::PurpleDye => "PurpleDye"@,
        Material::PurpleStainedGlass => "PurpleStainedGlass"@,
        Material::PurpleStainedGlassPane => "PurpleStainedGlassPane"@,
        Material::PurpleTerracotta => "PurpleTerracotta"@,
        Material::PurpleWallBanner => "PurpleWallBanner"@,
        Material::PurpleWool => "PurpleWool"@,
        Material::QuartzPillar => "QuartzPillar"@,
        Material::QuartzSlab => "QuartzSlab"@,
        Material::RabbitSpawnEgg => "RabbitSpawnEgg"@,
        Material::Rail => "Rail"@,
        Material::RedstoneLamp => "RedstoneLamp"@,
        _ => Seq::empty(),
    }
}

pub open spec fn material_name_24(m: Material) -> Seq<char> {
    match m {
        Material::RedstoneTorch => "RedstoneTorch"@,
        Material::RedstoneWallTorch => "RedstoneWallTorch"@,
        Material::RedBanner => "RedBanner"@,
        Material::RedBed => "RedBed"@,
        Material::RedCarpet => "RedCarpet"@,
        Material::RedConcrete => "RedConcrete"@,
        Material::RedConcretePowder => "RedConcretePowder"@,
        Material::RedMushroomBlock => "RedMushroomBlock"@,
        Material::RedNetherBricks => "RedNetherBricks"@,
        Material::RedSand => "RedSand"@,
        Material::RedSandstoneSlab => "RedSandstoneSlab"@,
        Material::RedStainedGlass => "RedStainedGlass"@,
        Material::RedStainedGlassPane => "RedStainedGlassPane"@,
        Material::RedTerracotta => "RedTerracotta"@,
        Material::RedTulip => "RedTulip"@,
        Material::RedWallBanner => "RedWallBanner"@,
        Material::RedWool => "RedWool"@,
        Material::Repeater => "Repeater"@,
        Material::RepeatingCommandBlock => "RepeatingCommandBlock"@,
        Material::RoseBush => "RoseBush"@,
        Material::RoseRed => "RoseRed"@,
        Material::Salmon => "Salmon"@,
        Material::SalmonBucket => "SalmonBucket"@,
        Material::SalmonSpawnEgg => "SalmonSpawnEgg"@,
        Material::SandstoneSlab => "SandstoneSlab"@,
        Material::Scute => "Scute"@,
        Material::Seagrass => "Seagrass"@,
        Material::SeaPickle => "SeaPickle"@,
        Material::SheepSpawnEgg => "SheepSpawnEgg"@,
        Material::ShulkerBox => "ShulkerBox"@,
        Material::ShulkerSpawnEgg => "ShulkerSpawnEgg"@,
        Material::SilverfishSpawnEgg => "SilverfishSpawnEgg"@,
        Material::SkeletonHorseSpawnEgg => "SkeletonHorseSpawnEgg"@,
        Material::SkeletonSkull => "SkeletonSkull"@,
        Material::SkeletonSpawnEgg => "SkeletonSpawnEgg"@,
        Material::SkeletonWallSkull => "SkeletonWallSkull"@,
        Material::SlimeSpawnEgg => "SlimeSpawnEgg"@,
        Material::SmoothQuartz => "SmoothQuartz"@,
        _ => Seq::empty(),
    }
}

pub open spec fn material_name_25(m: Material) -> Seq<char> {
    match m {
        Material::SmoothRedSandstone => "SmoothRedSandstone"@,
        Material::SmoothSandstone => "SmoothSandstone"@,
        Material::SmoothStone => "SmoothStone"@,
        Material::Snowball => "Snowball"@,
        Material::Spawner => "Spawner"@,
        Material::SpiderSpawnEgg => "SpiderSpawnEgg"@,
        Material::SpruceBoat => "SpruceBoat"@,
        Material::SpruceButton => "SpruceButton"@,
        Material::SpruceLeaves => "SpruceLeaves"@,
        Material::SpruceLog => "SpruceLog"@,
        Material::SprucePlanks => "SprucePlanks"@,
        Material::SprucePressurePlate => "SprucePressurePlate"@,
        Material::SpruceSapling => "SpruceSapling"@,
        Material::SpruceSlab => "SpruceSlab"@,
        Material::SpruceStairs => "SpruceStairs"@,
        Material::SpruceTrapdoor => "SpruceTrapdoor"@,
        Material::SpruceWood => "SpruceWood"@,
        Material::SquidSpawnEgg => "SquidSpawnEgg"@,
        Material::StickyPiston => "StickyPiston"@,
        Material::StoneBricks => "StoneBricks"@,
        Material::StoneBrickSlab => "StoneBrickSlab"@,
        Material::StoneBrickStairs => "StoneBrickStairs"@,
        Material::StonePressurePlate => "StonePressurePlate"@,
        Material::StoneShovel => "StoneShovel"@,
        Material::StoneSlab => "StoneSlab"@,
        Material::StraySpawnEgg => "StraySpawnEgg"@,
        Material::StrippedAcaciaLog => "StrippedAcaciaLog"@,
        Material::StrippedAcaciaWood => "StrippedAcaciaWood"@,
        Material::StrippedBirchLog => "StrippedBirchLog"@,
        Material::StrippedBirchWood => "StrippedBirchWood"@,
        Material::StrippedDarkOakLog => "StrippedDarkOakLog"@,
        Material::StrippedDarkOakWood => "StrippedDarkOakWood"@,
        Material::StrippedJungleLog => "StrippedJungleLog"@,
        Material::StrippedJungleWood => "StrippedJungleWood"@,
        Material::StrippedOakLog => "StrippedOakLog"@,
        Material::StrippedOakWood => "StrippedOakWood"@,
        Material::StrippedSpruceLog => "StrippedSpruceLog"@,
        Material::StrippedSpruceWood => "StrippedSpruceWood"@,
        _ => Seq::empty(),
    }
}

pub open spec fn material_name_26(m: Material) -> Seq<char> {
    match m {
        Material::Sunflower => "Sunflower"@,
        Material::TallGrass => "TallGrass"@,
        Material::TallSeagrass => "TallSeagrass"@,
        Material::Terracotta => "Terracotta"@,
        Material::TntMinecart => "TntMinecart"@,
        Material::TotemOfUndying => "TotemOfUndying"@,
        Material::Trident => "Trident"@,
        Material::TropicalFish => "TropicalFish"@,
        Material::TropicalFishBucket => "TropicalFishBucket"@,
        Material::TropicalFishSpawnEgg => "TropicalFishSpawnEgg"@,
        Material::TubeCoral => "TubeCoral"@,
        Material::TubeCoralBlock => "TubeCoralBlock"@,
        Material::TubeCoralFan => "TubeCoralFan"@,
        Material::TubeCoralWallFan => "TubeCoralWallFan"@,
        Material::TurtleEgg => "TurtleEgg"@,
        Material::TurtleHelmet => "TurtleHelmet"@,
        Material::TurtleSpawnEgg => "TurtleSpawnEgg"@,
        Material::VexSpawnEgg => "VexSpawnEgg"@,
        Material::VillagerSpawnEgg => "VillagerSpawnEgg"@,
        Material::VindicatorSpawnEgg => "VindicatorSpawnEgg"@,
        Material::VoidAir => "VoidAir"@,
        Material::WallTorch => "WallTorch"@,
        Material::WetSponge => "WetSponge"@,
        Material::WheatSeeds => "WheatSeeds"@,
        Material::WhiteBanner => "WhiteBanner"@,
        Material::WhiteBed => "WhiteBed"@,
        Material::WhiteCarpet => "WhiteCarpet"@,
        Material::WhiteConcrete => "WhiteConcrete"@,
        Material::WhiteConcretePowder => "WhiteConcretePowder"@,
        Material::WhiteStainedGlass => "WhiteStainedGlass"@,
        Material::WhiteStainedGlassPane => "WhiteStainedGlassPane"@,
        Material::WhiteTerracotta => "WhiteTerracotta"@,
        Material::WhiteTulip => "WhiteTulip"@,
        Material::WhiteWallBanner => "WhiteWallBanner"@,
        Material::WhiteWool => "WhiteWool"@,
        Material::WitchSpawnEgg => "WitchSpawnEgg"@,
        Material::WitherSkeletonSkull => "WitherSkeletonSkull"@,
        Material::WitherSkeletonSpawnEgg => "WitherSkeletonSpawnEgg"@,
        _ => Seq::empty(),
    }
}

pub open spec fn material_name_27(m: Material) -> Seq<char> {
    match m {
        Material::WitherSkeletonWallSkull => "WitherSkeletonWallSkull"@,
        Material::WolfSpawnEgg => "WolfSpawnEgg"@,
        Material::WoodenAxe => "WoodenAxe"@,
        Material::WoodenHoe => "WoodenHoe"@,
        Material::WoodenPickaxe => "WoodenPickaxe"@,
        Material::WoodenShovel => "WoodenShovel"@,
        Material::WoodenSword => "WoodenSword"@,
        Material::WritableBook => "WritableBook"@,
        Material::YellowBanner => "YellowBanner"@,
        Material::YellowBed => "YellowBed"@,
        Material::YellowCarpet => "YellowCarpet"@,
        Material::YellowConcrete => "YellowConcrete"@,
        Material::YellowConcretePowder => "YellowConcretePowder"@,
        Material::YellowStainedGlass => "YellowStainedGlass"@,
        Material::YellowStainedGlassPane => "YellowStainedGlassPane"@,
        Material::YellowTerracotta => "YellowTerracotta"@,
        Material::YellowWallBanner => "YellowWallBanner"@,
        Material::YellowWool => "YellowWool"@,
        Material::ZombieHead => "ZombieHead"@,
        Material::ZombieHorseSpawnEgg => "ZombieHorseSpawnEgg"@,
        Material::ZombiePigmanSpawnEgg => "ZombiePigmanSpawnEgg"@,
        Material::ZombieSpawnEgg => "ZombieSpawnEgg"@,
        Material::ZombieVillagerSpawnEgg => "ZombieVillagerSpawnEgg"@,
        Material::ZombieWallHead => "ZombieWallHead"@,
        Material::DeadBrainCoral => "DeadBrainCoral"@,
        Material::DeadBubbleCoral => "DeadBubbleCoral"@,
        Material::DeadFireCoral => "DeadFireCoral"@,
        Material::DeadHornCoral => "DeadHornCoral"@,
        Material::DeadTubeCoral => "DeadTubeCoral"@,
        Material::AcaciaSign => "AcaciaSign"@,
        Material::AcaciaWallSign => "AcaciaWallSign"@,
        Material::AndesiteSlab => "AndesiteSlab"@,
        Material::AndesiteStairs => "AndesiteStairs"@,
        Material::AndesiteWall => "AndesiteWall"@,
        Material::Bamboo => "Bamboo"@,
        Material::BambooSapling => "BambooSapling"@,
        Material::Barrel => "Barrel"@,
        Material::Bell => "Bell"@,
        _ => Seq::empty(),
    }
}

pub open spec fn material_name_28(m: Material) -> Seq<char> {
    match m {
        Material::BirchSign => "BirchSign"@,
        Material::BirchWallSign => "BirchWallSign"@,
        Material::BlackDye => "BlackDye"@,
        Material::BlastFurnace => "BlastFurnace"@,
        Material::BlueDye => "BlueDye"@,
        Material::BrickWall => "BrickWall"@,
        Material::BrownDye => "BrownDye"@,
        Material::Campfire => "Campfire"@,
        Material::CartographyTable => "CartographyTable"@,
        Material::CatSpawnEgg => "CatSpawnEgg"@,
        Material::Composter => "Composter"@,
        Material::Cornflower => "Cornflower"@,
        Material::CreeperBannerPattern => "CreeperBannerPattern"@,
        Material::Crossbow => "Crossbow"@,
        Material::CutRedSandstoneSlab => "CutRedSandstoneSlab"@,
        Material::CutSandstoneSlab => "CutSandstoneSlab"@,
        Material::DarkOakSign => "DarkOakSign"@,
        Material::DarkOakWallSign => "DarkOakWallSign"@,
        Material::DioriteSlab => "DioriteSlab"@,
        Material::DioriteStairs => "DioriteStairs"@,
        Material::DioriteWall => "DioriteWall"@,
        Material::EndStoneBrickSlab => "EndStoneBrickSlab"@,
        Material::EndStoneBrickStairs => "EndStoneBrickStairs"@,
        Material::EndStoneBrickWall => "EndStoneBrickWall"@,
        Material::FletchingTable => "FletchingTable"@,
        Material::FlowerBannerPattern => "FlowerBannerPattern"@,
        Material::FoxSpawnEgg => "FoxSpawnEgg"@,
        Material::GlobeBannerPattern => "GlobeBannerPattern"@,
        Material::GraniteSlab => "GraniteSlab"@,
        Material::GraniteStairs => "GraniteStairs"@,
        Material::GraniteWall => "GraniteWall"@,
        Material::GreenDye => "GreenDye"@,
        Material::Grindstone => "Grindstone"@,
        Material::Jigsaw => "Jigsaw"@,
        Material::JungleSign => "JungleSign"@,
        Material::JungleWallSign => "JungleWallSign"@,
        Material::Lantern => "Lantern"@,
        Material::LeatherHorseArmor => "LeatherHorseArmor"@,
        _ => Seq::empty(),
    }
}

pub open spec fn material_name_29(m: Material) -> Seq<char> {
    match m {
        Material::Lectern => "Lectern"@,
        Material::LilyOfTheValley => "LilyOfTheValley"@,
        Material::Loom => "Loom"@,
        Material::MojangBannerPattern => "MojangBannerPattern"@,
        Material::MossyCobblestoneSlab => "MossyCobblestoneSlab"@,
        Material::MossyCobblestoneStairs => "MossyCobblestoneStairs"@,
        Material::MossyStoneBrickSlab => "MossyStoneBrickSlab"@,
        Material::MossyStoneBrickStairs => "MossyStoneBrickStairs"@,
        Material::MossyStoneBrickWall => "MossyStoneBrickWall"@,
        Material::NetherBrickWall => "NetherBrickWall"@,
        Material::OakSign => "OakSign"@,
        Material::OakWallSign => "OakWallSign"@,
        Material::PandaSpawnEgg => "PandaSpawnEgg"@,
        Material::PillagerSpawnEgg => "PillagerSpawnEgg"@,
        Material::PolishedAndesiteSlab => "PolishedAndesiteSlab"@,
        Material::PolishedAndesiteStairs => "PolishedAndesiteStairs"@,
        Material::PolishedDioriteSlab => "PolishedDioriteSlab"@,
        Material::PolishedDioriteStairs => "PolishedDioriteStairs"@,
        Material::PolishedGraniteSlab => "PolishedGraniteSlab"@,
        Material::PolishedGraniteStairs => "PolishedGraniteStairs"@,
        Material::PottedBamboo => "PottedBamboo"@,
        Material::PottedCornflower => "PottedCornflower"@,
        Material::PottedLilyOfTheValley => "PottedLilyOfTheValley"@,
        Material::PottedWitherRose => "PottedWitherRose"@,
        Material::PrismarineWall => "PrismarineWall"@,
        Material::RavagerSpawnEgg => "RavagerSpawnEgg"@,
        Material::RedDye => "RedDye"@,
        Material::RedNetherBrickSlab => "RedNetherBrickSlab"@,
        Material::RedNetherBrickStairs => "RedNetherBrickStairs"@,
        Material::RedNetherBrickWall => "RedNetherBrickWall"@,
        Material::RedSandstoneWall => "RedSandstoneWall"@,
        Material::SandstoneWall => "SandstoneWall"@,
        Material::Scaffolding => "Scaffolding"@,
        Material::SkullBannerPattern => "SkullBannerPattern"@,
        Material::SmithingTable => "SmithingTable"@,
        Material::Smoker => "Smoker"@,
        Material::SmoothQuartzSlab => "SmoothQuartzSlab"@,
        Material::SmoothQuartzStairs => "SmoothQuartzStairs"@,
        _ => Seq::empty(),
    }
}

pub open spec fn material_name_30(m: Material) -> Seq<char> {
    match m {
        Material::SmoothRedSandstoneSlab => "SmoothRedSandstoneSlab"@,
        Material::SmoothRedSandstoneStairs => "SmoothRedSandstoneStairs"@,
        Material::SmoothSandstoneSlab => "SmoothSandstoneSlab"@,
        Material::SmoothSandstoneStairs => "SmoothSandstoneStairs"@,
        Material::SmoothStoneSlab => "SmoothStoneSlab"@,
        Material::SpruceSign => "SpruceSign"@,
        Material::SpruceWallSign => "SpruceWallSign"@,
        Material::Stonecutter => "Stonecutter"@,
        Material::StoneBrickWall => "StoneBrickWall"@,
        Material::StoneStairs => "StoneStairs"@,
        Material::SuspiciousStew => "SuspiciousStew"@,
        Material::SweetBerries => "SweetBerries"@,
        Material::SweetBerryBush => "SweetBerryBush"@,
        Material::TraderLlamaSpawnEgg => "TraderLlamaSpawnEgg"@,
        Material::WanderingTraderSpawnEgg => "WanderingTraderSpawnEgg"@,
        Material::WhiteDye => "WhiteDye"@,
        Material::WitherRose => "WitherRose"@,
        Material::YellowDye => "YellowDye"@,
        Material::Beehive => "Beehive"@,
        Material::BeeNest => "BeeNest"@,
        Material::BeeSpawnEgg => "BeeSpawnEgg"@,
        Material::Honeycomb => "Honeycomb"@,
        Material::HoneycombBlock => "HoneycombBlock"@,
        Material::HoneyBlock => "HoneyBlock"@,
        Material::HoneyBottle => "HoneyBottle"@,
        Material::AncientDebris => "AncientDebris"@,
        Material::Basalt => "Basalt"@,
        Material::Blackstone => "Blackstone"@,
        Material::BlackstoneSlab => "BlackstoneSlab"@,
        Material::BlackstoneStairs => "BlackstoneStairs"@,
        Material::BlackstoneWall => "BlackstoneWall"@,
        Material::Chain => "Chain"@,
        Material::ChiseledNetherBricks => "ChiseledNetherBricks"@,
        Material::ChiseledPolishedBlackstone => "ChiseledPolishedBlackstone"@,
        Material::CrackedNetherBricks => "CrackedNetherBricks"@,
        Material::CrackedPolishedBlackstoneBricks => "CrackedPolishedBlackstoneBricks"@,
        Material::CrimsonButton => "CrimsonButton"@,
        Material::CrimsonDoor => "CrimsonDoor"@,
        _ => Seq::empty(),
    }
}

pub open spec fn material_name_31(m: Material) -> Seq<char> {
    match m {
        Material::CrimsonFence => "CrimsonFence"@,
        Material::CrimsonFenceGate => "CrimsonFenceGate"@,
        Material::CrimsonFungus => "CrimsonFungus"@,
        Material::CrimsonHyphae => "CrimsonHyphae"@,
        Material::CrimsonNylium => "CrimsonNylium"@,
        Material::CrimsonPlanks => "CrimsonPlanks"@,
        Material::CrimsonPressurePlate => "CrimsonPressurePlate"@,
        Material::CrimsonRoots => "CrimsonRoots"@,
        Material::CrimsonSign => "CrimsonSign"@,
        Material::CrimsonSlab => "CrimsonSlab"@,
        Material::CrimsonStairs => "CrimsonStairs"@,
        Material::CrimsonStem => "CrimsonStem"@,
        Material::CrimsonTrapdoor => "CrimsonTrapdoor"@,
        Material::CrimsonWallSign => "CrimsonWallSign"@,
        Material::CryingObsidian => "CryingObsidian"@,
        Material::GildedBlackstone => "GildedBlackstone"@,
        Material::HoglinSpawnEgg => "HoglinSpawnEgg"@,
        Material::Lodestone => "Lodestone"@,
        Material::MusicDiscPigstep => "MusicDiscPigstep"@,
        Material::NetheriteAxe => "NetheriteAxe"@,
        Material::NetheriteBlock => "NetheriteBlock"@,
        Material::NetheriteBoots => "NetheriteBoots"@,
        Material::NetheriteChestplate => "NetheriteChestplate"@,
        Material::NetheriteHelmet => "NetheriteHelmet"@,
        Material::NetheriteHoe => "NetheriteHoe"@,
        Material::NetheriteIngot => "NetheriteIngot"@,
        Material::NetheriteLeggings => "NetheriteLeggings"@,
        Material::NetheritePickaxe => "NetheritePickaxe"@,
        Material::NetheriteScrap => "NetheriteScrap"@,
        Material::NetheriteShovel => "NetheriteShovel"@,
        Material::NetheriteSword => "NetheriteSword"@,
        Material::NetherGoldOre => "NetherGoldOre"@,
        Material::NetherSprouts => "NetherSprouts"@,
        Material::PiglinBannerPattern => "PiglinBannerPattern"@,
        Material::PiglinSpawnEgg => "PiglinSpawnEgg"@,
        Material::PolishedBasalt => "PolishedBasalt"@,
        Material::PolishedBlackstone => "PolishedBlackstone"@,
        Material::PolishedBlackstoneBricks => "PolishedBlackstoneBricks"@,
        _ => Seq::empty(),
    }
}

pub open spec fn material_name_32(m: Material) -> Seq<char> {
    match m {
        Material::PolishedBlackstoneBrickSlab => "PolishedBlackstoneBrickSlab"@,
        Material::PolishedBlackstoneBrickStairs => "PolishedBlackstoneBrickStairs"@,
        Material::PolishedBlackstoneBrickWall => "PolishedBlackstoneBrickWall"@,
        Material::PolishedBlackstoneButton => "PolishedBlackstoneButton"@,
        Material::PolishedBlackstonePressurePlate => "PolishedBlackstonePressurePlate"@,
        Material::PolishedBlackstoneSlab => "PolishedBlackstoneSlab"@,
        Material::PolishedBlackstoneStairs => "PolishedBlackstoneStairs"@,
        Material::PolishedBlackstoneWall => "PolishedBlackstoneWall"@,
        Material::PottedCrimsonFungus => "PottedCrimsonFungus"@,
        Material::PottedCrimsonRoots => "PottedCrimsonRoots"@,
        Material::PottedWarpedFungus => "PottedWarpedFungus"@,
        Material::PottedWarpedRoots => "PottedWarpedRoots"@,
        Material::QuartzBricks => "QuartzBricks"@,
        Material::RespawnAnchor => "RespawnAnchor"@,
        Material::Shroomlight => "Shroomlight"@,
        Material::SoulCampfire => "SoulCampfire"@,
        Material::SoulFire => "SoulFire"@,
        Material::SoulLantern => "SoulLantern"@,
        Material::SoulSoil => "SoulSoil"@,
        Material::SoulTorch => "SoulTorch"@,
        Material::SoulWallTorch => "SoulWallTorch"@,
        Material::StriderSpawnEgg => "StriderSpawnEgg"@,
        Material::StrippedCrimsonHyphae => "StrippedCrimsonHyphae"@,
        Material::StrippedCrimsonStem => "StrippedCrimsonStem"@,
        Material::StrippedWarpedHyphae => "StrippedWarpedHyphae"@,
        Material::StrippedWarpedStem => "StrippedWarpedStem"@,
        Material::Target => "Target"@,
        Material::TwistingVines => "TwistingVines"@,
        Material::TwistingVinesPlant => "TwistingVinesPlant"@,
        Material::WarpedButton => "WarpedButton"@,
        Material::WarpedDoor => "WarpedDoor"@,
        Material::WarpedFence => "WarpedFence"@,
        Material::WarpedFenceGate => "WarpedFenceGate"@,
        Material::WarpedFungus => "WarpedFungus"@,
        Material::WarpedFungusOnAStick => "WarpedFungusOnAStick"@,
        Material::WarpedHyphae => "WarpedHyphae"@,
        Material::WarpedNylium => "WarpedNylium"@,
        Material::WarpedPlanks => "WarpedPlanks"@,
        _ => Seq::empty(),
    }
}

pub open spec fn material_name_33(m: Material) -> Seq<char> {
    match m {
        Material::WarpedPressurePlate => "WarpedPressurePlate"@,
        Material::WarpedRoots => "WarpedRoots"@,
        Material::WarpedSign => "WarpedSign"@,
        Material::WarpedSlab => "WarpedSlab"@,
        Material::WarpedStairs => "WarpedStairs"@,
        Material::WarpedStem => "WarpedStem"@,
        Material::WarpedTrapdoor => "WarpedTrapdoor"@,
        Material::WarpedWallSign => "WarpedWallSign"@,
        Material::WarpedWartBlock => "WarpedWartBlock"@,
        Material::WeepingVines => "WeepingVines"@,
        Material::WeepingVinesPlant => "WeepingVinesPlant"@,
        Material::ZoglinSpawnEgg => "ZoglinSpawnEgg"@,
        Material::ZombifiedPiglinSpawnEgg => "ZombifiedPiglinSpawnEgg"@,
        Material::PiglinBruteSpawnEgg => "PiglinBruteSpawnEgg"@,
        Material::Deepslate => "Deepslate"@,
        Material::CobbledDeepslate => "CobbledDeepslate"@,
        Material::PolishedDeepslate => "PolishedDeepslate"@,
        Material::Calcite => "Calcite"@,
        Material::Tuff => "Tuff"@,
        Material::DripstoneBlock => "DripstoneBlock"@,
        Material::RootedDirt => "RootedDirt"@,
        Material::DeepslateCoalOre => "DeepslateCoalOre"@,
        Material::DeepslateIronOre => "DeepslateIronOre"@,
        Material::CopperOre => "CopperOre"@,
        Material::DeepslateCopperOre => "DeepslateCopperOre"@,
        Material::DeepslateGoldOre => "DeepslateGoldOre"@,
        Material::DeepslateRedstoneOre => "DeepslateRedstoneOre"@,
        Material::DeepslateEmeraldOre => "DeepslateEmeraldOre"@,
        Material::DeepslateLapisOre => "DeepslateLapisOre"@,
        Material::DeepslateDiamondOre => "DeepslateDiamondOre"@,
        Material::RawIronBlock => "RawIronBlock"@,
        Material::RawCopperBlock => "RawCopperBlock"@,
        Material::RawGoldBlock => "RawGoldBlock"@,
        Material::AmethystBlock => "AmethystBlock"@,
        Material::BuddingAmethyst => "BuddingAmethyst"@,
        Material::CopperBlock => "CopperBlock"@,
        Material::ExposedCopper => "ExposedCopper"@,
        Material::WeatheredCopper => "WeatheredCopper"@,
        _ => Seq::empty(),
    }
}

pub open spec fn material_name_34(m: Material) -> Seq<char> {
    match m {
        Material::OxidizedCopper => "OxidizedCopper"@,
        Material::CutCopper => "CutCopper"@,
        Material::ExposedCutCopper => "ExposedCutCopper"@,
        Material::WeatheredCutCopper => "WeatheredCutCopper"@,
        Material::OxidizedCutCopper => "OxidizedCutCopper"@,
        Material::CutCopperStairs => "CutCopperStairs"@,
        Material::ExposedCutCopperStairs => "ExposedCutCopperStairs"@,
        Material::WeatheredCutCopperStairs => "WeatheredCutCopperStairs"@,
        Material::OxidizedCutCopperStairs => "OxidizedCutCopperStairs"@,
        Material::CutCopperSlab => "CutCopperSlab"@,
        Material::ExposedCutCopperSlab => "ExposedCutCopperSlab"@,
        Material::WeatheredCutCopperSlab => "WeatheredCutCopperSlab"@,
        Material::OxidizedCutCopperSlab => "OxidizedCutCopperSlab"@,
        Material::WaxedCopperBlock => "WaxedCopperBlock"@,
        Material::WaxedExposedCopper => "WaxedExposedCopper"@,
        Material::WaxedWeatheredCopper => "WaxedWeatheredCopper"@,
        Material::WaxedOxidizedCopper => "WaxedOxidizedCopper"@,
        Material::WaxedCutCopper => "WaxedCutCopper"@,
        Material::WaxedExposedCutCopper => "WaxedExposedCutCopper"@,
        Material::WaxedWeatheredCutCopper => "WaxedWeatheredCutCopper"@,
        Material::WaxedOxidizedCutCopper => "WaxedOxidizedCutCopper"@,
        Material::WaxedCutCopperStairs => "WaxedCutCopperStairs"@,
        Material::WaxedExposedCutCopperStairs => "WaxedExposedCutCopperStairs"@,
        Material::WaxedWeatheredCutCopperStairs => "WaxedWeatheredCutCopperStairs"@,
        Material::WaxedOxidizedCutCopperStairs => "WaxedOxidizedCutCopperStairs"@,
        Material::WaxedCutCopperSlab => "WaxedCutCopperSlab"@,
        Material::WaxedExposedCutCopperSlab => "WaxedExposedCutCopperSlab"@,
        Material::WaxedWeatheredCutCopperSlab => "WaxedWeatheredCutCopperSlab"@,
        Material::WaxedOxidizedCutCopperSlab => "WaxedOxidizedCutCopperSlab"@,
        Material::AzaleaLeaves => "AzaleaLeaves"@,
        Material::FloweringAzaleaLeaves => "FloweringAzaleaLeaves"@,
        Material::TintedGlass => "TintedGlass"@,
        Material::Azalea => "Azalea"@,
        Material::FloweringAzalea => "FloweringAzalea"@,
        Material::SporeBlossom => "SporeBlossom"@,
        Material::MossCarpet => "MossCarpet"@,
        Material::MossBlock => "MossBlock"@,
        Material::HangingRoots => "HangingRoots"@,
        _ => Seq::empty(),
    }
}

pub open spec fn material_name_35(m: Material) -> Seq<char> {
    match m {
        Material::BigDripleaf => "BigDripleaf"@,
        Material::SmallDripleaf => "SmallDripleaf"@,
        Material::SmoothBasalt => "SmoothBasalt"@,
        Material::InfestedDeepslate => "InfestedDeepslate"@,
        Material::DeepslateBricks => "DeepslateBricks"@,
        Material::CrackedDeepslateBricks => "CrackedDeepslateBricks"@,
        Material::DeepslateTiles => "DeepslateTiles"@,
        Material::CrackedDeepslateTiles => "CrackedDeepslateTiles"@,
        Material::ChiseledDeepslate => "ChiseledDeepslate"@,
        Material::GlowLichen => "GlowLichen"@,
        Material::CobbledDeepslateWall => "CobbledDeepslateWall"@,
        Material::PolishedDeepslateWall => "PolishedDeepslateWall"@,
        Material::DeepslateBrickWall => "DeepslateBrickWall"@,
        Material::DeepslateTileWall => "DeepslateTileWall"@,
        Material::Light => "Light"@,
        Material::DirtPath => "DirtPath"@,
        Material::CobbledDeepslateStairs => "CobbledDeepslateStairs"@,
        Material::PolishedDeepslateStairs => "PolishedDeepslateStairs"@,
        Material::DeepslateBrickStairs => "DeepslateBrickStairs"@,
        Material::DeepslateTileStairs => "DeepslateTileStairs"@,
        Material::CobbledDeepslateSlab => "CobbledDeepslateSlab"@,
        Material::PolishedDeepslateSlab => "PolishedDeepslateSlab"@,
        Material::DeepslateBrickSlab => "DeepslateBrickSlab"@,
        Material::DeepslateTileSlab => "DeepslateTileSlab"@,
        Material::LightningRod => "LightningRod"@,
        Material::SculkSensor => "SculkSensor"@,
        Material::AmethystShard => "AmethystShard"@,
        Material::RawIron => "RawIron"@,
        Material::RawCopper => "RawCopper"@,
        Material::CopperIngot => "CopperIngot"@,
        Material::RawGold => "RawGold"@,
        Material::PowderSnowBucket => "PowderSnowBucket"@,
        Material::AxolotlBucket => "AxolotlBucket"@,
        Material::Bundle => "Bundle"@,
        Material::Spyglass => "Spyglass"@,
        Material::GlowInkSac => "GlowInkSac"@,
        Material::AxolotlSpawnEgg => "AxolotlSpawnEgg"@,
        Material::GlowSquidSpawnEgg => "GlowSquidSpawnEgg"@,
        _ => Seq::empty(),
    }
}

pub open spec fn material_name_36(m: Material) -> Seq<char> {
    match m {
        Material::GoatSpawnEgg => "GoatSpawnEgg"@,
        Material::GlowItemFrame => "GlowItemFrame"@,
        Material::GlowBerries => "GlowBerries"@,
        Material::Candle => "Candle"@,
        Material::WhiteCandle => "WhiteCandle"@,
        Material::OrangeCandle => "OrangeCandle"@,
        Material::MagentaCandle => "MagentaCandle"@,
        Material::LightBlueCandle => "LightBlueCandle"@,
        Material::YellowCandle => "YellowCandle"@,
        Material::LimeCandle => "LimeCandle"@,
        Material::PinkCandle => "PinkCandle"@,
        Material::GrayCandle => "GrayCandle"@,
        Material::LightGrayCandle => "LightGrayCandle"@,
        Material::CyanCandle => "CyanCandle"@,
        Material::PurpleCandle => "PurpleCandle"@,
        Material::BlueCandle => "BlueCandle"@,
        Material::BrownCandle => "BrownCandle"@,
        Material::GreenCandle => "GreenCandle"@,
        Material::RedCandle => "RedCandle"@,
        Material::BlackCandle => "BlackCandle"@,
        Material::SmallAmethystBud => "SmallAmethystBud"@,
        Material::MediumAmethystBud => "MediumAmethystBud"@,
        Material::LargeAmethystBud => "LargeAmethystBud"@,
        Material::AmethystCluster => "AmethystCluster"@,
        Material::PointedDripstone => "PointedDripstone"@,
        Material::WaterCauldron => "WaterCauldron"@,
        Material::LavaCauldron => "LavaCauldron"@,
        Material::PowderSnowCauldron => "PowderSnowCauldron"@,
        Material::CandleCake => "CandleCake"@,
        Material::WhiteCandleCake => "WhiteCandleCake"@,
        Material::OrangeCandleCake => "OrangeCandleCake"@,
        Material::MagentaCandleCake => "MagentaCandleCake"@,
        Material::LightBlueCandleCake => "LightBlueCandleCake"@,
        Material::YellowCandleCake => "YellowCandleCake"@,
        Material::LimeCandleCake => "LimeCandleCake"@,
        Material::PinkCandleCake => "PinkCandleCake"@,
        Material::GrayCandleCake => "GrayCandleCake"@,
        Material::LightGrayCandleCake => "LightGrayCandleCake"@,
        _ => Seq::empty(),
    }
}

pub open spec fn material_name_37(m: Material) -> Seq<char> {
    match m {
        Material::CyanCandleCake => "CyanCandleCake"@,
        Material::PurpleCandleCake => "PurpleCandleCake"@,
        Material::BlueCandleCake => "BlueCandleCake"@,
        Material::BrownCandleCake => "BrownCandleCake"@,
        Material::GreenCandleCake => "GreenCandleCake"@,
        Material::RedCandleCake => "RedCandleCake"@,
        Material::BlackCandleCake => "BlackCandleCake"@,
        Material::PowderSnow => "PowderSnow"@,
        Material::CaveVines => "CaveVines"@,
        Material::CaveVinesPlant => "CaveVinesPlant"@,
        Material::BigDripleafStem => "BigDripleafStem"@,
        Material::PottedAzaleaBush => "PottedAzaleaBush"@,
        Material::PottedFloweringAzaleaBush => "PottedFloweringAzaleaBush"@,
        _ => Seq::empty(),
    }
}

fn name_in_block_0(m: Material) -> (s: String)
    requires
        material_block(m) == 0,
    ensures
        s@ == material_name(m),
{
    match m {
        Material::Air => String::from_str("Air"),
        Material::Stone => String::from_str("Stone"),
        Material::Grass => String::from_str("Grass"),
        Material::Dirt => String::from_str("Dirt"),
        Material::Cobblestone => String::from_str("Cobblestone"),
        Material::Wood => String::from_str("Wood"),
        Material::Sapling => String::from_str("Sapling"),
        Material::Bedrock => String::from_str("Bedrock"),
        Material::Water => String::from_str("Water"),
        Material::StationaryWater => String::from_str("StationaryWater"),
        Material::Lava => String::from_str("Lava"),
        Material::StationaryLava => String::from_str("StationaryLava"),
        Material::Sand => String::from_str("Sand"),
        Material::Gravel => String::from_str("Gravel"),
        Material::GoldOre => String::from_str("GoldOre"),
        Material::IronOre => String::from_str("IronOre"),
        Material::CoalOre => String::from_str("CoalOre"),
        Material::Log => String::from_str("Log"),
        Material::Leaves => String::from_str("Leaves"),
        Material::Sponge => String::from_str("Sponge"),
        Material::Glass => String::from_str("Glass"),
        Material::LapisOre => String::from_str("LapisOre"),
        Material::LapisBlock => String::from_str("LapisBlock"),
        Material::Dispenser => String::from_str("Dispenser"),
        Material::Sandstone => String::from_str("Sandstone"),
        Material::NoteBlock => String::from_str("NoteBlock"),
        Material::BedBlock => String::from_str("BedBlock"),
        Material::PoweredRail => String::from_str("PoweredRail"),
        Material::DetectorRail => String::from_str("DetectorRail"),
        Material::PistonStickyBase => String::from_str("PistonStickyBase"),
        Material::Web => String::from_str("Web"),
        Material::LongGrass => String::from_str("LongGrass"),
        Material::DeadBush => String::from_str("DeadBush"),
        Material::PistonBase => String::from_str("PistonBase"),
        Material::PistonExtension => String::from_str("PistonExtension"),
        Material::Wool => String::from_str("Wool"),
        Material::PistonMovingPiece => String::from_str("PistonMovingPiece"),
        Material::YellowFlower => String::from_str("YellowFlower"),
        _ => {
            proof {
                assert(false);
            }
            String::new()
        },
    }
}

fn name_in_block_1(m: Material) -> (s: String)
    requires
        material_block(m) == 1,
    ensures
        s@ == material_name(m),
{
    match m {
        Material::RedRose => String::from_str("RedRose"),
        Material::BrownMushroom => String::from_str("BrownMushroom"),
        Material::RedMushroom => String::from_str("RedMushroom"),
        Material::GoldBlock => String::from_str("GoldBlock"),
        Material::IronBlock => String::from_str("IronBlock"),
        Material::DoubleStep => String::from_str("DoubleStep"),
        Material::Step => String::from_str("Step"),
        Material::Brick => String::from_str("Brick"),
        Material::Tnt => String::from_str("Tnt"),
        Material::Bookshelf => String::from_str("Bookshelf"),
        Material::MossyCobblestone => String::from_str("MossyCobblestone"),
        Material::Obsidian => String::from_str("Obsidian"),
        Material::Torch => String::from_str("Torch"),
        Material::Fire => String::from_str("Fire"),
        Material::MobSpawner => String::from_str("MobSpawner"),
        Material::WoodStairs => String::from_str("WoodStairs"),
        Material::Chest => String::from_str("Chest"),
        Material::RedstoneWire => String::from_str("RedstoneWire"),
        Material::DiamondOre => String::from_str("DiamondOre"),
        Material::DiamondBlock => String::from_str("DiamondBlock"),
        Material::Workbench => String::from_str("Workbench"),
        Material::Crops => String::from_str("Crops"),
        Material::Soil => String::from_str("Soil"),
        Material::Furnace => String::from_str("Furnace"),
        Material::BurningFurnace => String::from_str("BurningFurnace"),
        Material::SignPost => String::from_str("SignPost"),
        Material::WoodenDoor => String::from_str("WoodenDoor"),
        Material::Ladder => String::from_str("Ladder"),
        Material::Rails => String::from_str("Rails"),
        Material::CobblestoneStairs => String::from_str("CobblestoneStairs"),
        Material::WallSign => String::from_str("WallSign"),
        Material::Lever => String::from_str("Lever"),
        Material::StonePlate => String::from_str("StonePlate"),
        Material::IronDoorBlock => String::from_str("IronDoorBlock"),
        Material::WoodPlate => String::from_str("WoodPlate"),
        Material::RedstoneOre => String::from_str("RedstoneOre"),
        Material::GlowingRedstoneOre => String::from_str("GlowingRedstoneOre"),
        Material::RedstoneTorchOff => String::from_str("RedstoneTorchOff"),
        _ => {
            proof {
                assert(false);
            }
            String::new()
        },
    }
}

fn name_in_block_2(m: Material) -> (s: String)
    requires
        material_block(m) == 2,
    ensures
        s@ == material_name(m),
{
    match m {
        Material::RedstoneTorchOn => String::from_str("RedstoneTorchOn"),
        Material::StoneButton => String::from_str("StoneButton"),
        Material::Snow => String::from_str("Snow"),
        Material::Ice => String::from_str("Ice"),
        Material::SnowBlock => String::from_str("SnowBlock"),
        Material::Cactus => String::from_str("Cactus"),
        Material::Clay => String::from_str("Clay"),
        Material::SugarCaneBlock => String::from_str("SugarCaneBlock"),
        Material::Jukebox => String::from_str("Jukebox"),
        Material::Fence => String::from_str("Fence"),
        Material::Pumpkin => String::from_str("Pumpkin"),
        Material::Netherrack => String::from_str("Netherrack"),
        Material::SoulSand => String::from_str("SoulSand"),
        Material::Glowstone => String::from_str("Glowstone"),
        Material::Portal => String::from_str("Portal"),
        Material::JackOLantern => String::from_str("JackOLantern"),
        Material::CakeBlock => String::from_str("CakeBlock"),
        Material::DiodeBlockOff => String::from_str("DiodeBlockOff"),
        Material::DiodeBlockOn => String::from_str("DiodeBlockOn"),
        Material::LockedChest => String::from_str("LockedChest"),
        Material::StainedGlass => String::from_str("StainedGlass"),
        Material::TrapDoor => String::from_str("TrapDoor"),
        Material::MonsterEggs => String::from_str("MonsterEggs"),
        Material::SmoothBrick => String::from_str("SmoothBrick"),
        Material::HugeMushroom1 => String::from_str("HugeMushroom1"),
        Material::HugeMushroom2 => String::from_str("HugeMushroom2"),
        Material::IronFence => String::from_str("IronFence"),
        Material::ThinGlass => String::from_str("ThinGlass"),
        Material::MelonBlock => String::from_str("MelonBlock"),
        Material::PumpkinStem => String::from_str("PumpkinStem"),
        Material::MelonStem => String::from_str("MelonStem"),
        Material::Vine => String::from_str("Vine"),
        Material::FenceGate => String::from_str("FenceGate"),
        Material::BrickStairs => String::from_str("BrickStairs"),
        Material::SmoothStairs => String::from_str("SmoothStairs"),
        Material::Mycel => String::from_str("Mycel"),
        Material::WaterLily => String::from_str("WaterLily"),
        Material::NetherBrick => String::from_str("NetherBrick"),
        _ => {
            proof {
                assert(false);
            }
            String::new()
        },
    }
}

fn name_in_block_3(m: Material) -> (s: String)
    requires
        material_block(m) == 3,
    ensures
        s@ == material_name(m),
{
    match m {
        Material::NetherFence => String::from_str("NetherFence"),
        Material::NetherBrickStairs => String::from_str("NetherBrickStairs"),
        Material::NetherWarts => String::from_str("NetherWarts"),
        Material::EnchantmentTable => String::from_str("EnchantmentTable"),
        Material::BrewingStand => String::from_str("BrewingStand"),
        Material::Cauldron => String::from_str("Cauldron"),
        Material::EnderPortal => String::from_str("EnderPortal"),
        Material::EnderPortalFrame => String::from_str("EnderPortalFrame"),
        Material::EnderStone => String::from_str("EnderStone"),
        Material::DragonEgg => String::from_str("DragonEgg"),
        Material::RedstoneLampOff => String::from_str("RedstoneLampOff"),
        Material::RedstoneLampOn => String::from_str("RedstoneLampOn"),
        Material::WoodDoubleStep => String::from_str("WoodDoubleStep"),
        Material::WoodStep => String::from_str("WoodStep"),
        Material::Cocoa => String::from_str("Cocoa"),
        Material::SandstoneStairs => String::from_str("SandstoneStairs"),
        Material::EmeraldOre => String::from_str("EmeraldOre"),
        Material::EnderChest => String::from_str("EnderChest"),
        Material::TripwireHook => String::from_str("TripwireHook"),
        Material::Tripwire => String::from_str("Tripwire"),
        Material::EmeraldBlock => String::from_str("EmeraldBlock"),
        Material::SpruceWoodStairs => String::from_str("SpruceWoodStairs"),
        Material::BirchWoodStairs => String::from_str("BirchWoodStairs"),
        Material::JungleWoodStairs => String::from_str("JungleWoodStairs"),
        Material::Command => String::from_str("Command"),
        Material::Beacon => String::from_str("Beacon"),
        Material::CobbleWall => String::from_str("CobbleWall"),
        Material::FlowerPot => String::from_str("FlowerPot"),
        Material::Carrot => String::from_str("Carrot"),
        Material::Potato => String::from_str("Potato"),
        Material::WoodButton => String::from_str("WoodButton"),
        Material::Skull => String::from_str("Skull"),
        Material::Anvil => String::from_str("Anvil"),
        Material::TrappedChest => String::from_str("TrappedChest"),
        Material::GoldPlate => String::from_str("GoldPlate"),
        Material::IronPlate => String::from_str("IronPlate"),
        Material::RedstoneComparatorOff => String::from_str("RedstoneComparatorOff"),
        Material::RedstoneComparatorOn => String::from_str("RedstoneComparatorOn"),
        _ => {
            proof {
                assert(false);
            }
            String::new()
        },
    }
}

fn name_in_block_4(m: Material) -> (s: String)
    requires
        material_block(m) == 4,
    ensures
        s@ == material_name(m),
{
    match m {
        Material::DaylightDetector => String::from_str("DaylightDetector"),
        Material::RedstoneBlock => String::from_str("RedstoneBlock"),
        Material::QuartzOre => String::from_str("QuartzOre"),
        Material::Hopper => String::from_str("Hopper"),
        Material::QuartzBlock => String::from_str("QuartzBlock"),
        Material::QuartzStairs => String::from_str("QuartzStairs"),
        Material::ActivatorRail => String::from_str("ActivatorRail"),
        Material::Dropper => String::from_str("Dropper"),
        Material::StainedClay => String::from_str("StainedClay"),
        Material::StainedGlassPane => String::from_str("StainedGlassPane"),
        Material::Leaves2 => String::from_str("Leaves2"),
        Material::Log2 => String::from_str("Log2"),
        Material::AcaciaStairs => String::from_str("AcaciaStairs"),
        Material::DarkOakStairs => String::from_str("DarkOakStairs"),
        Material::HayBlock => String::from_str("HayBlock"),
        Material::Carpet => String::from_str("Carpet"),
        Material::HardClay => String::from_str("HardClay"),
        Material::CoalBlock => String::from_str("CoalBlock"),
        Material::PackedIce => String::from_str("PackedIce"),
        Material::DoublePlant => String::from_str("DoublePlant"),
        Material::IronSpade => String::from_str("IronSpade"),
        Material::IronPickaxe => String::from_str("IronPickaxe"),
        Material::IronAxe => String::from_str("IronAxe"),
        Material::FlintAndSteel => String::from_str("FlintAndSteel"),
        Material::Apple => String::from_str("Apple"),
        Material::Bow => String::from_str("Bow"),
        Material::Arrow => String::from_str("Arrow"),
        Material::Coal => String::from_str("Coal"),
        Material::Diamond => String::from_str("Diamond"),
        Material::IronIngot => String::from_str("IronIngot"),
        Material::GoldIngot => String::from_str("GoldIngot"),
        Material::IronSword => String::from_str("IronSword"),
        Material::WoodSword => String::from_str("WoodSword"),
        Material::WoodSpade => String::from_str("WoodSpade"),
        Material::WoodPickaxe => String::from_str("WoodPickaxe"),
        Material::WoodAxe => String::from_str("WoodAxe"),
        Material::StoneSword => String::from_str("StoneSword"),
        Material::StoneSpade => String::from_str("StoneSpade"),
        _ => {
            proof {
                assert(false);
            }
            String::new()
        },
    }
}

fn name_in_block_5(m: Material) -> (s: String)
    requires
        material_block(m) == 5,
    ensures
        s@ == material_name(m),
{
    match m {
        Material::StonePickaxe => String::from_str("StonePickaxe"),
        Material::StoneAxe => String::from_str("StoneAxe"),
        Material::DiamondSword => String::from_str("DiamondSword"),
        Material::DiamondSpade => String::from_str("DiamondSpade"),
        Material::DiamondPickaxe => String::from_str("DiamondPickaxe"),
        Material::DiamondAxe => String::from_str("DiamondAxe"),
        Material::Stick => String::from_str("Stick"),
        Material::Bowl => String::from_str("Bowl"),
        Material::MushroomSoup => String::from_str("MushroomSoup"),
        Material::GoldSword => String::from_str("GoldSword"),
        Material::GoldSpade => String::from_str("GoldSpade"),
        Material::GoldPickaxe => String::from_str("GoldPickaxe"),
        Material::GoldAxe => String::from_str("GoldAxe"),
        Material::String => String::from_str("String"),
        Material::Feather => String::from_str("Feather"),
        Material::Sulphur => String::from_str("Sulphur"),
        Material::WoodHoe => String::from_str("WoodHoe"),
        Material::StoneHoe => String::from_str("StoneHoe"),
        Material::IronHoe => String::from_str("IronHoe"),
        Material::DiamondHoe => String::from_str("DiamondHoe"),
        Material::GoldHoe => String::from_str("GoldHoe"),
        Material::Seeds => String::from_str("Seeds"),
        Material::Wheat => String::from_str("Wheat"),
        Material::Bread => String::from_str("Bread"),
        Material::LeatherHelmet => String::from_str("LeatherHelmet"),
        Material::LeatherChestplate => String::from_str("LeatherChestplate"),
        Material::LeatherLeggings => String::from_str("LeatherLeggings"),
        Material::LeatherBoots => String::from_str("LeatherBoots"),
        Material::ChainmailHelmet => String::from_str("ChainmailHelmet"),
        Material::ChainmailChestplate => String::from_str("ChainmailChestplate"),
        Material::ChainmailLeggings => String::from_str("ChainmailLeggings"),
        Material::ChainmailBoots => String::from_str("ChainmailBoots"),
        Material::IronHelmet => String::from_str("IronHelmet"),
        Material::IronChestplate => String::from_str("IronChestplate"),
        Material::IronLeggings => String::from_str("IronLeggings"),
        Material::IronBoots => String::from_str("IronBoots"),
        Material::DiamondHelmet => String::from_str("DiamondHelmet"),
        Material::DiamondChestplate => String::from_str("DiamondChestplate"),
        _ => {
            proof {
                assert(false);
            }
            String::new()
        },
    }
}

fn name_in_block_6(m: Material) -> (s: String)
    requires
        material_block(m) == 6,
    ensures
        s@ == material_name(m),
{
    match m {
        Material::DiamondLeggings => String::from_str("DiamondLeggings"),
        Material::DiamondBoots => String::from_str("DiamondBoots"),
        Material::GoldHelmet => String::from_str("GoldHelmet"),
        Material::GoldChestplate => String::from_str("GoldChestplate"),
        Material::GoldLeggings => String::from_str("GoldLeggings"),
        Material::GoldBoots => String::from_str("GoldBoots"),
        Material::Flint => String::from_str("Flint"),
        Material::Pork => String::from_str("Pork"),
        Material::GrilledPork => String::from_str("GrilledPork"),
        Material::Painting => String::from_str("Painting"),
        Material::GoldenApple => String::from_str("GoldenApple"),
        Material::Sign => String::from_str("Sign"),
        Material::WoodDoor => String::from_str("WoodDoor"),
        Material::Bucket => String::from_str("Bucket"),
        Material::WaterBucket => String::from_str("WaterBucket"),
        Material::LavaBucket => String::from_str("LavaBucket"),
        Material::Minecart => String::from_str("Minecart"),
        Material::Saddle => String::from_str("Saddle"),
        Material::IronDoor => String::from_str("IronDoor"),
        Material::Redstone => String::from_str("Redstone"),
        Material::SnowBall => String::from_str("SnowBall"),
        Material::Boat => String::from_str("Boat"),
        Material::Leather => String::from_str("Leather"),
        Material::MilkBucket => String::from_str("MilkBucket"),
        Material::ClayBrick => String::from_str("ClayBrick"),
        Material::ClayBall => String::from_str("ClayBall"),
        Material::SugarCane => String::from_str("SugarCane"),
        Material::Paper => String::from_str("Paper"),
        Material::Book => String::from_str("Book"),
        Material::SlimeBall => String::from_str("SlimeBall"),
        Material::StorageMinecart => String::from_str("StorageMinecart"),
        Material::PoweredMinecart => String::from_str("PoweredMinecart"),
        Material::Egg => String::from_str("Egg"),
        Material::Compass => String::from_str("Compass"),
        Material::FishingRod => String::from_str("FishingRod"),
        Material::Watch => String::from_str("Watch"),
        Material::GlowstoneDust => String::from_str("GlowstoneDust"),
        Material::RawFish => String::from_str("RawFish"),
        _ => {
            proof {
                assert(false);
            }
            String::new()
        },
    }
}

fn name_in_block_7(m: Material) -> (s: String)
    requires
        material_block(m) == 7,
    ensures
        s@ == material_name(m),
{
    match m {
        Material::CookedFish => String::from_str("CookedFish"),
        Material::InkSack => String::from_str("InkSack"),
        Material::Bone => String::from_str("Bone"),
        Material::Sugar => String::from_str("Sugar"),
        Material::Cake => String::from_str("Cake"),
        Material::Bed => String::from_str("Bed"),
        Material::Diode => String::from_str("Diode"),
        Material::Cookie => String::from_str("Cookie"),
        Material::LegacyMap => String::from_str("Map"),
        Material::Shears => String::from_str("Shears"),
        Material::Melon => String::from_str("Melon"),
        Material::PumpkinSeeds => String::from_str("PumpkinSeeds"),
        Material::MelonSeeds => String::from_str("MelonSeeds"),
        Material::RawBeef => String::from_str("RawBeef"),
        Material::CookedBeef => String::from_str("CookedBeef"),
        Material::RawChicken => String::from_str("RawChicken"),
        Material::CookedChicken => String::from_str("CookedChicken"),
        Material::RottenFlesh => String::from_str("RottenFlesh"),
        Material::EnderPearl => String::from_str("EnderPearl"),
        Material::BlazeRod => String::from_str("BlazeRod"),
        Material::GhastTear => String::from_str("GhastTear"),
        Material::GoldNugget => String::from_str("GoldNugget"),
        Material::NetherStalk => String::from_str("NetherStalk"),
        Material::Potion => String::from_str("Potion"),
        Material::GlassBottle => String::from_str("GlassBottle"),
        Material::SpiderEye => String::from_str("SpiderEye"),
        Material::FermentedSpiderEye => String::from_str("FermentedSpiderEye"),
        Material::BlazePowder => String::from_str("BlazePowder"),
        Material::MagmaCream => String::from_str("MagmaCream"),
        Material::BrewingStandItem => String::from_str("BrewingStandItem"),
        Material::CauldronItem => String::from_str("CauldronItem"),
        Material::EyeOfEnder => String::from_str("EyeOfEnder"),
        Material::SpeckledMelon => String::from_str("SpeckledMelon"),
        Material::MonsterEgg => String::from_str("MonsterEgg"),
        Material::ExpBottle => String::from_str("ExpBottle"),
        Material::Fireball => String::from_str("Fireball"),
        Material::BookAndQuill => String::from_str("BookAndQuill"),
        Material::WrittenBook => String::from_str("WrittenBook"),
        _ => {
            proof {
                assert(false);
            }
            String::new()
        },
    }
}

fn name_in_block_8(m: Material) -> (s: String)
    requires
        material_block(m) == 8,
    ensures
        s@ == material_name(m),
{
    match m {
        Material::Emerald => String::from_str("Emerald"),
        Material::ItemFrame => String::from_str("ItemFrame"),
        Material::FlowerPotItem => String::from_str("FlowerPotItem"),
        Material::CarrotItem => String::from_str("CarrotItem"),
        Material::PotatoItem => String::from_str("PotatoItem"),
        Material::BakedPotato => String::from_str("BakedPotato"),
        Material::PoisonousPotato => String::from_str("PoisonousPotato"),
        Material::EmptyMap => String::from_str("EmptyMap"),
        Material::GoldenCarrot => String::from_str("GoldenCarrot"),
        Material::SkullItem => String::from_str("SkullItem"),
        Material::CarrotStick => String::from_str("CarrotStick"),
        Material::NetherStar => String::from_str("NetherStar"),
        Material::PumpkinPie => String::from_str("PumpkinPie"),
        Material::Firework => String::from_str("Firework"),
        Material::FireworkCharge => String::from_str("FireworkCharge"),
        Material::EnchantedBook => String::from_str("EnchantedBook"),
        Material::RedstoneComparator => String::from_str("RedstoneComparator"),
        Material::NetherBrickItem => String::from_str("NetherBrickItem"),
        Material::Quartz => String::from_str("Quartz"),
        Material::ExplosiveMinecart => String::from_str("ExplosiveMinecart"),
        Material::HopperMinecart => String::from_str("HopperMinecart"),
        Material::IronBarding => String::from_str("IronBarding"),
        Material::GoldBarding => String::from_str("GoldBarding"),
        Material::DiamondBarding => String::from_str("DiamondBarding"),
        Material::Leash => String::from_str("Leash"),
        Material::NameTag => String::from_str("NameTag"),
        Material::CommandMinecart => String::from_str("CommandMinecart"),
        Material::GoldRecord => String::from_str("GoldRecord"),
        Material::GreenRecord => String::from_str("GreenRecord"),
        Material::Record3 => String::from_str("Record3"),
        Material::Record4 => String::from_str("Record4"),
        Material::Record5 => String::from_str("Record5"),
        Material::Record6 => String::from_str("Record6"),
        Material::Record7 => String::from_str("Record7"),
        Material::Record8 => String::from_str("Record8"),
        Material::Record9 => String::from_str("Record9"),
        Material::Record10 => String::from_str("Record10"),
        Material::Record11 => String::from_str("Record11"),
        _ => {
            proof {
                assert(false);
            }
            String::new()
        },
    }
}

fn name_in_block_9(m: Material) -> (s: String)
    requires
        material_block(m) == 9,
    ensures
        s@ == material_name(m),
{
    match m {
        Material::Record12 => String::from_str("Record12"),
        Material::SlimeBlock => String::from_str("SlimeBlock"),
        Material::Barrier => String::from_str("Barrier"),
        Material::IronTrapdoor => String::from_str("IronTrapdoor"),
        Material::Prismarine => String::from_str("Prismarine"),
        Material::SeaLantern => String::from_str("SeaLantern"),
        Material::StandingBanner => String::from_str("StandingBanner"),
        Material::WallBanner => String::from_str("WallBanner"),
        Material::DaylightDetectorInverted => String::from_str("DaylightDetectorInverted"),
        Material::RedSandstone => String::from_str("RedSandstone"),
        Material::RedSandstoneStairs => String::from_str("RedSandstoneStairs"),
        Material::DoubleStoneSlab2 => String::from_str("DoubleStoneSlab2"),
        Material::StoneSlab2 => String::from_str("StoneSlab2"),
        Material::SpruceFenceGate => String::from_str("SpruceFenceGate"),
        Material::BirchFenceGate => String::from_str("BirchFenceGate"),
        Material::JungleFenceGate => String::from_str("JungleFenceGate"),
        Material::DarkOakFenceGate => String::from_str("DarkOakFenceGate"),
        Material::AcaciaFenceGate => String::from_str("AcaciaFenceGate"),
        Material::SpruceFence => String::from_str("SpruceFence"),
        Material::BirchFence => String::from_str("BirchFence"),
        Material::JungleFence => String::from_str("JungleFence"),
        Material::DarkOakFence => String::from_str("DarkOakFence"),
        Material::AcaciaFence => String::from_str("AcaciaFence"),
        Material::SpruceDoor => String::from_str("SpruceDoor"),
        Material::BirchDoor => String::from_str("BirchDoor"),
        Material::JungleDoor => String::from_str("JungleDoor"),
        Material::AcaciaDoor => String::from_str("AcaciaDoor"),
        Material::DarkOakDoor => String::from_str("DarkOakDoor"),
        Material::PrismarineShard => String::from_str("PrismarineShard"),
        Material::PrismarineCrystals => String::from_str("PrismarineCrystals"),
        Material::Rabbit => String::from_str("Rabbit"),
        Material::CookedRabbit => String::from_str("CookedRabbit"),
        Material::RabbitStew => String::from_str("RabbitStew"),
        Material::RabbitFoot => String::from_str("RabbitFoot"),
        Material::RabbitHide => String::from_str("RabbitHide"),
        Material::ArmorStand => String::from_str("ArmorStand"),
        Material::Mutton => String::from_str("Mutton"),
        Material::CookedMutton => String::from_str("CookedMutton"),
        _ => {
            proof {
                assert(false);
            }
            String::new()
        },
    }
}

fn name_in_block_10(m: Material) -> (s: String)
    requires
        material_block(m) == 10,
    ensures
        s@ == material_name(m),
{
    match m {
        Material::Banner => String::from_str("Banner"),
        Material::SpruceDoorItem => String::from_str("SpruceDoorItem"),
        Material::BirchDoorItem => String::from_str("BirchDoorItem"),
        Material::JungleDoorItem => String::from_str("JungleDoorItem"),
        Material::AcaciaDoorItem => String::from_str("AcaciaDoorItem"),
        Material::DarkOakDoorItem => String::from_str("DarkOakDoorItem"),
        Material::EndRod => String::from_str("EndRod"),
        Material::ChorusPlant => String::from_str("ChorusPlant"),
        Material::ChorusFlower => String::from_str("ChorusFlower"),
        Material::PurpurBlock => String::from_str("PurpurBlock"),
        Material::PurpurPillar => String::from_str("PurpurPillar"),
        Material::PurpurStairs => String::from_str("PurpurStairs"),
        Material::PurpurDoubleSlab => String::from_str("PurpurDoubleSlab"),
        Material::PurpurSlab => String::from_str("PurpurSlab"),
        Material::EndBricks => String::from_str("EndBricks"),
        Material::BeetrootBlock => String::from_str("BeetrootBlock"),
        Material::GrassPath => String::from_str("GrassPath"),
        Material::EndGateway => String::from_str("EndGateway"),
        Material::CommandRepeating => String::from_str("CommandRepeating"),
        Material::CommandChain => String::from_str("CommandChain"),
        Material::StructureBlock => String::from_str("StructureBlock"),
        Material::EndCrystal => String::from_str("EndCrystal"),
        Material::ChorusFruit => String::from_str("ChorusFruit"),
        Material::ChorusFruitPopped => String::from_str("ChorusFruitPopped"),
        Material::Beetroot => String::from_str("Beetroot"),
        Material::BeetrootSeeds => String::from_str("BeetrootSeeds"),
        Material::BeetrootSoup => String::from_str("BeetrootSoup"),
        Material::DragonsBreath => String::from_str("DragonsBreath"),
        Material::SplashPotion => String::from_str("SplashPotion"),
        Material::SpectralArrow => String::from_str("SpectralArrow"),
        Material::TippedArrow => String::from_str("TippedArrow"),
        Material::LingeringPotion => String::from_str("LingeringPotion"),
        Material::Shield => String::from_str("Shield"),
        Material::Elytra => String::from_str("Elytra"),
        Material::BoatSpruce => String::from_str("BoatSpruce"),
        Material::BoatBirch => String::from_str("BoatBirch"),
        Material::BoatJungle => String::from_str("BoatJungle"),
        Material::BoatAcacia => String::from_str("BoatAcacia"),
        _ => {
            proof {
                assert(false);
            }
            String::new()
        },
    }
}

fn name_in_block_11(m: Material) -> (s: String)
    requires
        material_block(m) == 11,
    ensures
        s@ == material_name(m),
{
    match m {
        Material::BoatDarkOak => String::from_str("BoatDarkOak"),
        Material::FrostedIce => String::from_str("FrostedIce"),
        Material::Magma => String::from_str("Magma"),
        Material::NetherWartBlock => String::from_str("NetherWartBlock"),
        Material::RedNetherBrick => String::from_str("RedNetherBrick"),
        Material::BoneBlock => String::from_str("BoneBlock"),
        Material::StructureVoid => String::from_str("StructureVoid"),
        Material::Observer => String::from_str("Observer"),
        Material::WhiteShulkerBox => String::from_str("WhiteShulkerBox"),
        Material::OrangeShulkerBox => String::from_str("OrangeShulkerBox"),
        Material::MagentaShulkerBox => String::from_str("MagentaShulkerBox"),
        Material::LightBlueShulkerBox => String::from_str("LightBlueShulkerBox"),
        Material::YellowShulkerBox => String::from_str("YellowShulkerBox"),
        Material::LimeShulkerBox => String::from_str("LimeShulkerBox"),
        Material::PinkShulkerBox => String::from_str("PinkShulkerBox"),
        Material::GrayShulkerBox => String::from_str("GrayShulkerBox"),
        Material::SilverShulkerBox => String::from_str("SilverShulkerBox"),
        Material::CyanShulkerBox => String::from_str("CyanShulkerBox"),
        Material::PurpleShulkerBox => String::from_str("PurpleShulkerBox"),
        Material::BlueShulkerBox => String::from_str("BlueShulkerBox"),
        Material::BrownShulkerBox => String::from_str("BrownShulkerBox"),
        Material::GreenShulkerBox => String::from_str("GreenShulkerBox"),
        Material::RedShulkerBox => String::from_str("RedShulkerBox"),
        Material::BlackShulkerBox => String::from_str("BlackShulkerBox"),
        Material::Totem => String::from_str("Totem"),
        Material::ShulkerShell => String::from_str("ShulkerShell"),
        Material::IronNugget => String::from_str("IronNugget"),
        Material::WhiteGlazedTerracotta => String::from_str("WhiteGlazedTerracotta"),
        Material::OrangeGlazedTerracotta => String::from_str("OrangeGlazedTerracotta"),
        Material::MagentaGlazedTerracotta => String::from_str("MagentaGlazedTerracotta"),
        Material::LightBlueGlazedTerracotta => String::from_str("LightBlueGlazedTerracotta"),
        Material::YellowGlazedTerracotta => String::from_str("YellowGlazedTerracotta"),
        Material::LimeGlazedTerracotta => String::from_str("LimeGlazedTerracotta"),
        Material::PinkGlazedTerracotta => String::from_str("PinkGlazedTerracotta"),
        Material::GrayGlazedTerracotta => String::from_str("GrayGlazedTerracotta"),
        Material::SilverGlazedTerracotta => String::from_str("SilverGlazedTerracotta"),
        Material::CyanGlazedTerracotta => String::from_str("CyanGlazedTerracotta"),
        Material::PurpleGlazedTerracotta => String::from_str("PurpleGlazedTerracotta"),
        _ => {
            proof {
                assert(false);
            }
            String::new()
        },
    }
}

fn name_in_block_12(m: Material) -> (s: String)
    requires
        material_block(m) == 12,
    ensures
        s@ == material_name(m),
{
    match m {
        Material::BlueGlazedTerracotta => String::from_str("BlueGlazedTerracotta"),
        Material::BrownGlazedTerracotta => String::from_str("BrownGlazedTerracotta"),
        Material::GreenGlazedTerracotta => String::from_str("GreenGlazedTerracotta"),
        Material::RedGlazedTerracotta => String::from_str("RedGlazedTerracotta"),
        Material::BlackGlazedTerracotta => String::from_str("BlackGlazedTerracotta"),
        Material::Concrete => String::from_str("Concrete"),
        Material::ConcretePowder => String::from_str("ConcretePowder"),
        Material::KnowledgeBook => String::from_str("KnowledgeBook"),
        Material::AcaciaBoat => String::from_str("AcaciaBoat"),
        Material::AcaciaButton => String::from_str("AcaciaButton"),
        Material::AcaciaLeaves => String::from_str("AcaciaLeaves"),
        Material::AcaciaLog => String::from_str("AcaciaLog"),
        Material::AcaciaPlanks => String::from_str("AcaciaPlanks"),
        Material::AcaciaPressurePlate => String::from_str("AcaciaPressurePlate"),
        Material::AcaciaSapling => String::from_str("AcaciaSapling"),
        Material::AcaciaSlab => String::from_str("AcaciaSlab"),
        Material::AcaciaTrapdoor => String::from_str("AcaciaTrapdoor"),
        Material::AcaciaWood => String::from_str("AcaciaWood"),
        Material::Allium => String::from_str("Allium"),
        Material::Andesite => String::from_str("Andesite"),
        Material::AttachedMelonStem => String::from_str("AttachedMelonStem"),
        Material::AttachedPumpkinStem => String::from_str("AttachedPumpkinStem"),
        Material::AzureBluet => String::from_str("AzureBluet"),
        Material::BatSpawnEgg => String::from_str("BatSpawnEgg"),
        Material::Beef => String::from_str("Beef"),
        Material::Beetroots => String::from_str("Beetroots"),
        Material::BirchBoat => String::from_str("BirchBoat"),
        Material::BirchButton => String::from_str("BirchButton"),
        Material::BirchLeaves => String::from_str("BirchLeaves"),
        Material::BirchLog => String::from_str("BirchLog"),
        Material::BirchPlanks => String::from_str("BirchPlanks"),
        Material::BirchPressurePlate => String::from_str("BirchPressurePlate"),
        Material::BirchSapling => String::from_str("BirchSapling"),
        Material::BirchSlab => String::from_str("BirchSlab"),
        Material::BirchStairs => String::from_str("BirchStairs"),
        Material::BirchTrapdoor => String::from_str("BirchTrapdoor"),
        Material::BirchWood => String::from_str("BirchWood"),
        Material::BlackBanner => String::from_str("BlackBanner"),
        _ => {
            proof {
                assert(false);
            }
            String::new()
        },
    }
}

fn name_in_block_13(m: Material) -> (s: String)
    requires
        material_block(m) == 13,
    ensures
        s@ == material_name(m),
{
    match m {
        Material::BlackBed => String::from_str("BlackBed"),
        Material::BlackCarpet => String::from_str("BlackCarpet"),
        Material::BlackConcrete => String::from_str("BlackConcrete"),
        Material::BlackConcretePowder => String::from_str("BlackConcretePowder"),
        Material::BlackStainedGlass => String::from_str("BlackStainedGlass"),
        Material::BlackStainedGlassPane => String::from_str("BlackStainedGlassPane"),
        Material::BlackTerracotta => String::from_str("BlackTerracotta"),
        Material::BlackWallBanner => String::from_str("BlackWallBanner"),
        Material::BlackWool => String::from_str("BlackWool"),
        Material::BlazeSpawnEgg => String::from_str("BlazeSpawnEgg"),
        Material::BlueBanner => String::from_str("BlueBanner"),
        Material::BlueBed => String::from_str("BlueBed"),
        Material::BlueCarpet => String::from_str("BlueCarpet"),
        Material::BlueConcrete => String::from_str("BlueConcrete"),
        Material::BlueConcretePowder => String::from_str("BlueConcretePowder"),
        Material::BlueIce => String::from_str("BlueIce"),
        Material::BlueOrchid => String::from_str("BlueOrchid"),
        Material::BlueStainedGlass => String::from_str("BlueStainedGlass"),
        Material::BlueStainedGlassPane => String::from_str("BlueStainedGlassPane"),
        Material::BlueTerracotta => String::from_str("BlueTerracotta"),
        Material::BlueWallBanner => String::from_str("BlueWallBanner"),
        Material::BlueWool => String::from_str("BlueWool"),
        Material::BoneMeal => String::from_str("BoneMeal"),
        Material::BrainCoral => String::from_str("BrainCoral"),
        Material::BrainCoralBlock => String::from_str("BrainCoralBlock"),
        Material::BrainCoralFan => String::from_str("BrainCoralFan"),
        Material::BrainCoralWallFan => String::from_str("BrainCoralWallFan"),
        Material::Bricks => String::from_str("Bricks"),
        Material::BrickSlab => String::from_str("BrickSlab"),
        Material::BrownBanner => String::from_str("BrownBanner"),
        Material::BrownBed => String::from_str("BrownBed"),
        Material::BrownCarpet => String::from_str("BrownCarpet"),
        Material::BrownConcrete => String::from_str("BrownConcrete"),
        Material::BrownConcretePowder => String::from_str("BrownConcretePowder"),
        Material::BrownMushroomBlock => String::from_str("BrownMushroomBlock"),
        Material::BrownStainedGlass => String::from_str("BrownStainedGlass"),
        Material::BrownStainedGlassPane => String::from_str("BrownStainedGlassPane"),
        Material::BrownTerracotta => String::from_str("BrownTerracotta"),
        _ => {
            proof {
                assert(false);
            }
            String::new()
        },
    }
}

fn name_in_block_14(m: Material) -> (s: String)
    requires
        material_block(m) == 14,
    ensures
        s@ == material_name(m),
{
    match m {
        Material::BrownWallBanner => String::from_str("BrownWallBanner"),
        Material::BrownWool => String::from_str("BrownWool"),
        Material::BubbleColumn => String::from_str("BubbleColumn"),
        Material::BubbleCoral => String::from_str("BubbleCoral"),
        Material::BubbleCoralBlock => String::from_str("BubbleCoralBlock"),
        Material::BubbleCoralFan => String::from_str("BubbleCoralFan"),
        Material::BubbleCoralWallFan => String::from_str("BubbleCoralWallFan"),
        Material::CactusGreen => String::from_str("CactusGreen"),
        Material::Carrots => String::from_str("Carrots"),
        Material::CarrotOnAStick => String::from_str("CarrotOnAStick"),
        Material::CarvedPumpkin => String::from_str("CarvedPumpkin"),
        Material::CaveAir => String::from_str("CaveAir"),
        Material::CaveSpiderSpawnEgg => String::from_str("CaveSpiderSpawnEgg"),
        Material::ChainCommandBlock => String::from_str("ChainCommandBlock"),
        Material::Charcoal => String::from_str("Charcoal"),
        Material::ChestMinecart => String::from_str("ChestMinecart"),
        Material::Chicken => String::from_str("Chicken"),
        Material::ChickenSpawnEgg => String::from_str("ChickenSpawnEgg"),
        Material::ChippedAnvil => String::from_str("ChippedAnvil"),
        Material::ChiseledQuartzBlock => String::from_str("ChiseledQuartzBlock"),
        Material::ChiseledRedSandstone => String::from_str("ChiseledRedSandstone"),
        Material::ChiseledSandstone => String::from_str("ChiseledSandstone"),
        Material::ChiseledStoneBricks => String::from_str("ChiseledStoneBricks"),
        Material::Clock => String::from_str("Clock"),
        Material::CoarseDirt => String::from_str("CoarseDirt"),
        Material::CobblestoneSlab => String::from_str("CobblestoneSlab"),
        Material::CobblestoneWall => String::from_str("CobblestoneWall"),
        Material::Cobweb => String::from_str("Cobweb"),
        Material::CocoaBeans => String::from_str("CocoaBeans"),
        Material::Cod => String::from_str("Cod"),
        Material::CodBucket => String::from_str("CodBucket"),
        Material::CodSpawnEgg => String::from_str("CodSpawnEgg"),
        Material::CommandBlock => String::from_str("CommandBlock"),
        Material::CommandBlockMinecart => String::from_str("CommandBlockMinecart"),
        Material::Comparator => String::from_str("Comparator"),
        Material::Conduit => String::from_str("Conduit"),
        Material::CookedCod => String::from_str("CookedCod"),
        Material::CookedPorkchop => String::from_str("CookedPorkchop"),
        _ => {
            proof {
                assert(false);
            }
            String::new()
        },
    }
}

fn name_in_block_15(m: Material) -> (s: String)
    requires
        material_block(m) == 15,
    ensures
        s@ == material_name(m),
{
    match m {
        Material::CookedSalmon => String::from_str("CookedSalmon"),
        Material::CowSpawnEgg => String::from_str("CowSpawnEgg"),
        Material::CrackedStoneBricks => String::from_str("CrackedStoneBricks"),
        Material::CraftingTable => String::from_str("CraftingTable"),
        Material::CreeperHead => String::from_str("CreeperHead"),
        Material::CreeperSpawnEgg => String::from_str("CreeperSpawnEgg"),
        Material::CreeperWallHead => String::from_str("CreeperWallHead"),
        Material::CutRedSandstone => String::from_str("CutRedSandstone"),
        Material::CutSandstone => String::from_str("CutSandstone"),
        Material::CyanBanner => String::from_str("CyanBanner"),
        Material::CyanBed => String::from_str("CyanBed"),
        Material::CyanCarpet => String::from_str("CyanCarpet"),
        Material::CyanConcrete => String::from_str("CyanConcrete"),
        Material::CyanConcretePowder => String::from_str("CyanConcretePowder"),
        Material::CyanDye => String::from_str("CyanDye"),
        Material::CyanStainedGlass => String::from_str("CyanStainedGlass"),
        Material::CyanStainedGlassPane => String::from_str("CyanStainedGlassPane"),
        Material::CyanTerracotta => String::from_str("CyanTerracotta"),
        Material::CyanWallBanner => String::from_str("CyanWallBanner"),
        Material::CyanWool => String::from_str("CyanWool"),
        Material::DamagedAnvil => String::from_str("DamagedAnvil"),
        Material::Dandelion => String::from_str("Dandelion"),
        Material::DandelionYellow => String::from_str("DandelionYellow"),
        Material::DarkOakBoat => String::from_str("DarkOakBoat"),
        Material::DarkOakButton => String::from_str("DarkOakButton"),
        Material::DarkOakLeaves => String::from_str("DarkOakLeaves"),
        Material::DarkOakLog => String::from_str("DarkOakLog"),
        Material::DarkOakPlanks => String::from_str("DarkOakPlanks"),
        Material::DarkOakPressurePlate => String::from_str("DarkOakPressurePlate"),
        Material::DarkOakSapling => String::from_str("DarkOakSapling"),
        Material::DarkOakSlab => String::from_str("DarkOakSlab"),
        Material::DarkOakTrapdoor => String::from_str("DarkOakTrapdoor"),
        Material::DarkOakWood => String::from_str("DarkOakWood"),
        Material::DarkPrismarine => String::from_str("DarkPrismarine"),
        Material::DarkPrismarineSlab => String::from_str("DarkPrismarineSlab"),
        Material::DarkPrismarineStairs => String::from_str("DarkPrismarineStairs"),
        Material::DeadBrainCoralBlock => String::from_str("DeadBrainCoralBlock"),
        Material::DeadBrainCoralFan => String::from_str("DeadBrainCoralFan"),
        _ => {
            proof {
                assert(false);
            }
            String::new()
        },
    }
}

fn name_in_block_16(m: Material) -> (s: String)
    requires
        material_block(m) == 16,
    ensures
        s@ == material_name(m),
{
    match m {
        Material::DeadBrainCoralWallFan => String::from_str("DeadBrainCoralWallFan"),
        Material::DeadBubbleCoralBlock => String::from_str("DeadBubbleCoralBlock"),
        Material::DeadBubbleCoralFan => String::from_str("DeadBubbleCoralFan"),
        Material::DeadBubbleCoralWallFan => String::from_str("DeadBubbleCoralWallFan"),
        Material::DeadFireCoralBlock => String::from_str("DeadFireCoralBlock"),
        Material::DeadFireCoralFan => String::from_str("DeadFireCoralFan"),
        Material::DeadFireCoralWallFan => String::from_str("DeadFireCoralWallFan"),
        Material::DeadHornCoralBlock => String::from_str("DeadHornCoralBlock"),
        Material::DeadHornCoralFan => String::from_str("DeadHornCoralFan"),
        Material::DeadHornCoralWallFan => String::from_str("DeadHornCoralWallFan"),
        Material::DeadTubeCoralBlock => String::from_str("DeadTubeCoralBlock"),
        Material::DeadTubeCoralFan => String::from_str("DeadTubeCoralFan"),
        Material::DeadTubeCoralWallFan => String::from_str("DeadTubeCoralWallFan"),
        Material::DebugStick => String::from_str("DebugStick"),
        Material::DiamondHorseArmor => String::from_str("DiamondHorseArmor"),
        Material::DiamondShovel => String::from_str("DiamondShovel"),
        Material::Diorite => String::from_str("Diorite"),
        Material::DolphinSpawnEgg => String::from_str("DolphinSpawnEgg"),
        Material::DonkeySpawnEgg => String::from_str("DonkeySpawnEgg"),
        Material::DragonBreath => String::from_str("DragonBreath"),
        Material::DragonHead => String::from_str("DragonHead"),
        Material::DragonWallHead => String::from_str("DragonWallHead"),
        Material::DriedKelp => String::from_str("DriedKelp"),
        Material::DriedKelpBlock => String::from_str("DriedKelpBlock"),
        Material::DrownedSpawnEgg => String::from_str("DrownedSpawnEgg"),
        Material::ElderGuardianSpawnEgg => String::from_str("ElderGuardianSpawnEgg"),
        Material::EnchantedGoldenApple => String::from_str("EnchantedGoldenApple"),
        Material::EnchantingTable => String::from_str("EnchantingTable"),
        Material::EndermanSpawnEgg => String::from_str("EndermanSpawnEgg"),
        Material::EndermiteSpawnEgg => String::from_str("EndermiteSpawnEgg"),
        Material::EnderEye => String::from_str("EnderEye"),
        Material::EndPortal => String::from_str("EndPortal"),
        Material::EndPortalFrame => String::from_str("EndPortalFrame"),
        Material::EndStone => String::from_str("EndStone"),
        Material::EndStoneBricks => String::from_str("EndStoneBricks"),
        Material::EvokerSpawnEgg => String::from_str("EvokerSpawnEgg"),
        Material::ExperienceBottle => String::from_str("ExperienceBottle"),
        Material::Farmland => String::from_str("Farmland"),
        _ => {
            proof {
                assert(false);
            }
            String::new()
        },
    }
}

fn name_in_block_17(m: Material) -> (s: String)
    requires
        material_block(m) == 17,
    ensures
        s@ == material_name(m),
{
    match m {
        Material::Fern => String::from_str("Fern"),
        Material::FilledMap => String::from_str("FilledMap"),
        Material::FireworkRocket => String::from_str("FireworkRocket"),
        Material::FireworkStar => String::from_str("FireworkStar"),
        Material::FireCharge => String::from_str("FireCharge"),
        Material::FireCoral => String::from_str("FireCoral"),
        Material::FireCoralBlock => String::from_str("FireCoralBlock"),
        Material::FireCoralFan => String::from_str("FireCoralFan"),
        Material::FireCoralWallFan => String::from_str("FireCoralWallFan"),
        Material::FurnaceMinecart => String::from_str("FurnaceMinecart"),
        Material::GhastSpawnEgg => String::from_str("GhastSpawnEgg"),
        Material::GlassPane => String::from_str("GlassPane"),
        Material::GlisteringMelonSlice => String::from_str("GlisteringMelonSlice"),
        Material::GoldenAxe => String::from_str("GoldenAxe"),
        Material::GoldenBoots => String::from_str("GoldenBoots"),
        Material::GoldenChestplate => String::from_str("GoldenChestplate"),
        Material::GoldenHelmet => String::from_str("GoldenHelmet"),
        Material::GoldenHoe => String::from_str("GoldenHoe"),
        Material::GoldenHorseArmor => String::from_str("GoldenHorseArmor"),
        Material::GoldenLeggings => String::from_str("GoldenLeggings"),
        Material::GoldenPickaxe => String::from_str("GoldenPickaxe"),
        Material::GoldenShovel => String::from_str("GoldenShovel"),
        Material::GoldenSword => String::from_str("GoldenSword"),
        Material::Granite => String::from_str("Granite"),
        Material::GrassBlock => String::from_str("GrassBlock"),
        Material::GrayBanner => String::from_str("GrayBanner"),
        Material::GrayBed => String::from_str("GrayBed"),
        Material::GrayCarpet => String::from_str("GrayCarpet"),
        Material::GrayConcrete => String::from_str("GrayConcrete"),
        Material::GrayConcretePowder => String::from_str("GrayConcretePowder"),
        Material::GrayDye => String::from_str("GrayDye"),
        Material::GrayStainedGlass => String::from_str("GrayStainedGlass"),
        Material::GrayStainedGlassPane => String::from_str("GrayStainedGlassPane"),
        Material::GrayTerracotta => String::from_str("GrayTerracotta"),
        Material::GrayWallBanner => String::from_str("GrayWallBanner"),
        Material::GrayWool => String::from_str("GrayWool"),
        Material::GreenBanner => String::from_str("GreenBanner"),
        Material::GreenBed => String::from_str("GreenBed"),
        _ => {
            proof {
                assert(false);
            }
            String::new()
        },
    }
}

fn name_in_block_18(m: Material) -> (s: String)
    requires
        material_block(m) == 18,
    ensures
        s@ == material_name(m),
{
    match m {
        Material::GreenCarpet => String::from_str("GreenCarpet"),
        Material::GreenConcrete => String::from_str("GreenConcrete"),
        Material::GreenConcretePowder => String::from_str("GreenConcretePowder"),
        Material::GreenStainedGlass => String::from_str("GreenStainedGlass"),
        Material::GreenStainedGlassPane => String::from_str("GreenStainedGlassPane"),
        Material::GreenTerracotta => String::from_str("GreenTerracotta"),
        Material::GreenWallBanner => String::from_str("GreenWallBanner"),
        Material::GreenWool => String::from_str("GreenWool"),
        Material::GuardianSpawnEgg => String::from_str("GuardianSpawnEgg"),
        Material::Gunpowder => String::from_str("Gunpowder"),
        Material::HeartOfTheSea => String::from_str("HeartOfTheSea"),
        Material::HeavyWeightedPressurePlate => String::from_str("HeavyWeightedPressurePlate"),
        Material::HornCoral => String::from_str("HornCoral"),
        Material::HornCoralBlock => String::from_str("HornCoralBlock"),
        Material::HornCoralFan => String::from_str("HornCoralFan"),
        Material::HornCoralWallFan => String::from_str("HornCoralWallFan"),
        Material::HorseSpawnEgg => String::from_str("HorseSpawnEgg"),
        Material::HuskSpawnEgg => String::from_str("HuskSpawnEgg"),
        Material::InfestedChiseledStoneBricks => String::from_str("InfestedChiseledStoneBricks"),
        Material::InfestedCobblestone => String::from_str("InfestedCobblestone"),
        Material::InfestedCrackedStoneBricks => String::from_str("InfestedCrackedStoneBricks"),
        Material::InfestedMossyStoneBricks => String::from_str("InfestedMossyStoneBricks"),
        Material::InfestedStone => String::from_str("InfestedStone"),
        Material::InfestedStoneBricks => String::from_str("InfestedStoneBricks"),
        Material::InkSac => String::from_str("InkSac"),
        Material::IronBars => String::from_str("IronBars"),
        Material::IronHorseArmor => String::from_str("IronHorseArmor"),
        Material::IronShovel => String::from_str("IronShovel"),
        Material::JungleBoat => String::from_str("JungleBoat"),
        Material::JungleButton => String::from_str("JungleButton"),
        Material::JungleLeaves => String::from_str("JungleLeaves"),
        Material::JungleLog => String::from_str("JungleLog"),
        Material::JunglePlanks => String::from_str("JunglePlanks"),
        Material::JunglePressurePlate => String::from_str("JunglePressurePlate"),
        Material::JungleSapling => String::from_str("JungleSapling"),
        Material::JungleSlab => String::from_str("JungleSlab"),
        Material::JungleStairs => String::from_str("JungleStairs"),
        Material::JungleTrapdoor => String::from_str("JungleTrapdoor"),
        _ => {
            proof {
                assert(false);
            }
            String::new()
        },
    }
}

fn name_in_block_19(m: Material) -> (s: String)
    requires
        material_block(m) == 19,
    ensures
        s@ == material_name(m),
{
    match m {
        Material::JungleWood => String::from_str("JungleWood"),
        Material::Kelp => String::from_str("Kelp"),
        Material::KelpPlant => String::from_str("KelpPlant"),
        Material::LapisLazuli => String::from_str("LapisLazuli"),
        Material::LargeFern => String::from_str("LargeFern"),
        Material::Lead => String::from_str("Lead"),
        Material::LightBlueBanner => String::from_str("LightBlueBanner"),
        Material::LightBlueBed => String::from_str("LightBlueBed"),
        Material::LightBlueCarpet => String::from_str("LightBlueCarpet"),
        Material::LightBlueConcrete => String::from_str("LightBlueConcrete"),
        Material::LightBlueConcretePowder => String::from_str("LightBlueConcretePowder"),
        Material::LightBlueDye => String::from_str("LightBlueDye"),
        Material::LightBlueStainedGlass => String::from_str("LightBlueStainedGlass"),
        Material::LightBlueStainedGlassPane => String::from_str("LightBlueStainedGlassPane"),
        Material::LightBlueTerracotta => String::from_str("LightBlueTerracotta"),
        Material::LightBlueWallBanner => String::from_str("LightBlueWallBanner"),
        Material::LightBlueWool => String::from_str("LightBlueWool"),
        Material::LightGrayBanner => String::from_str("LightGrayBanner"),
        Material::LightGrayBed => String::from_str("LightGrayBed"),
        Material::LightGrayCarpet => String::from_str("LightGrayCarpet"),
        Material::LightGrayConcrete => String::from_str("LightGrayConcrete"),
        Material::LightGrayConcretePowder => String::from_str("LightGrayConcretePowder"),
        Material::LightGrayDye => String::from_str("LightGrayDye"),
        Material::LightGrayGlazedTerracotta => String::from_str("LightGrayGlazedTerracotta"),
        Material::LightGrayShulkerBox => String::from_str("LightGrayShulkerBox"),
        Material::LightGrayStainedGlass => String::from_str("LightGrayStainedGlass"),
        Material::LightGrayStainedGlassPane => String::from_str("LightGrayStainedGlassPane"),
        Material::LightGrayTerracotta => String::from_str("LightGrayTerracotta"),
        Material::LightGrayWallBanner => String::from_str("LightGrayWallBanner"),
        Material::LightGrayWool => String::from_str("LightGrayWool"),
        Material::LightWeightedPressurePlate => String::from_str("LightWeightedPressurePlate"),
        Material::Lilac => String::from_str("Lilac"),
        Material::LilyPad => String::from_str("LilyPad"),
        Material::LimeBanner => String::from_str("LimeBanner"),
        Material::LimeBed => String::from_str("LimeBed"),
        Material::LimeCarpet => String::from_str("LimeCarpet"),
        Material::LimeConcrete => String::from_str("LimeConcrete"),
        Material::LimeConcretePowder => String::from_str("LimeConcretePowder"),
        _ => {
            proof {
                assert(false);
            }
            String::new()
        },
    }
}

fn name_in_block_20(m: Material) -> (s: String)
    requires
        material_block(m) == 20,
    ensures
        s@ == material_name(m),
{
    match m {
        Material::LimeDye => String::from_str("LimeDye"),
        Material::LimeStainedGlass => String::from_str("LimeStainedGlass"),
        Material::LimeStainedGlassPane => String::from_str("LimeStainedGlassPane"),
        Material::LimeTerracotta => String::from_str("LimeTerracotta"),
        Material::LimeWallBanner => String::from_str("LimeWallBanner"),
        Material::LimeWool => String::from_str("LimeWool"),
        Material::LlamaSpawnEgg => String::from_str("LlamaSpawnEgg"),
        Material::MagentaBanner => String::from_str("MagentaBanner"),
        Material::MagentaBed => String::from_str("MagentaBed"),
        Material::MagentaCarpet => String::from_str("MagentaCarpet"),
        Material::MagentaConcrete => String::from_str("MagentaConcrete"),
        Material::MagentaConcretePowder => String::from_str("MagentaConcretePowder"),
        Material::MagentaDye => String::from_str("MagentaDye"),
        Material::MagentaStainedGlass => String::from_str("MagentaStainedGlass"),
        Material::MagentaStainedGlassPane => String::from_str("MagentaStainedGlassPane"),
        Material::MagentaTerracotta => String::from_str("MagentaTerracotta"),
        Material::MagentaWallBanner => String::from_str("MagentaWallBanner"),
        Material::MagentaWool => String::from_str("MagentaWool"),
        Material::MagmaBlock => String::from_str("MagmaBlock"),
        Material::MagmaCubeSpawnEgg => String::from_str("MagmaCubeSpawnEgg"),
        Material::MelonSlice => String::from_str("MelonSlice"),
        Material::MooshroomSpawnEgg => String::from_str("MooshroomSpawnEgg"),
        Material::MossyCobblestoneWall => String::from_str("MossyCobblestoneWall"),
        Material::MossyStoneBricks => String::from_str("MossyStoneBricks"),
        Material::MovingPiston => String::from_str("MovingPiston"),
        Material::MuleSpawnEgg => String::from_str("MuleSpawnEgg"),
        Material::MushroomStem => String::from_str("MushroomStem"),
        Material::MushroomStew => String::from_str("MushroomStew"),
        Material::MusicDisc11 => String::from_str("MusicDisc11"),
        Material::MusicDisc13 => String::from_str("MusicDisc13"),
        Material::MusicDiscBlocks => String::from_str("MusicDiscBlocks"),
        Material::MusicDiscCat => String::from_str("MusicDiscCat"),
        Material::MusicDiscChirp => String::from_str("MusicDiscChirp"),
        Material::MusicDiscFar => String::from_str("MusicDiscFar"),
        Material::MusicDiscMall => String::from_str("MusicDiscMall"),
        Material::MusicDiscMellohi => String::from_str("MusicDiscMellohi"),
        Material::MusicDiscStal => String::from_str("MusicDiscStal"),
        Material::MusicDiscStrad => String::from_str("MusicDiscStrad"),
        _ => {
            proof {
                assert(false);
            }
            String::new()
        },
    }
}

fn name_in_block_21(m: Material) -> (s: String)
    requires
        material_block(m) == 21,
    ensures
        s@ == material_name(m),
{
    match m {
        Material::MusicDiscWait => String::from_str("MusicDiscWait"),
        Material::MusicDiscWard => String::from_str("MusicDiscWard"),
        Material::Mycelium => String::from_str("Mycelium"),
        Material::NautilusShell => String::from_str("NautilusShell"),
        Material::NetherBricks => String::from_str("NetherBricks"),
        Material::NetherBrickFence => String::from_str("NetherBrickFence"),
        Material::NetherBrickSlab => String::from_str("NetherBrickSlab"),
        Material::NetherPortal => String::from_str("NetherPortal"),
        Material::NetherQuartzOre => String::from_str("NetherQuartzOre"),
        Material::NetherWart => String::from_str("NetherWart"),
        Material::OakBoat => String::from_str("OakBoat"),
        Material::OakButton => String::from_str("OakButton"),
        Material::OakDoor => String::from_str("OakDoor"),
        Material::OakFence => String::from_str("OakFence"),
        Material::OakFenceGate => String::from_str("OakFenceGate"),
        Material::OakLeaves => String::from_str("OakLeaves"),
        Material::OakLog => String::from_str("OakLog"),
        Material::OakPlanks => String::from_str("OakPlanks"),
        Material::OakPressurePlate => String::from_str("OakPressurePlate"),
        Material::OakSapling => String::from_str("OakSapling"),
        Material::OakSlab => String::from_str("OakSlab"),
        Material::OakStairs => String::from_str("OakStairs"),
        Material::OakTrapdoor => String::from_str("OakTrapdoor"),
        Material::OakWood => String::from_str("OakWood"),
        Material::OcelotSpawnEgg => String::from_str("OcelotSpawnEgg"),
        Material::OrangeBanner => String::from_str("OrangeBanner"),
        Material::OrangeBed => String::from_str("OrangeBed"),
        Material::OrangeCarpet => String::from_str("OrangeCarpet"),
        Material::OrangeConcrete => String::from_str("OrangeConcrete"),
        Material::OrangeConcretePowder => String::from_str("OrangeConcretePowder"),
        Material::OrangeDye => String::from_str("OrangeDye"),
        Material::OrangeStainedGlass => String::from_str("OrangeStainedGlass"),
        Material::OrangeStainedGlassPane => String::from_str("OrangeStainedGlassPane"),
        Material::OrangeTerracotta => String::from_str("OrangeTerracotta"),
        Material::OrangeTulip => String::from_str("OrangeTulip"),
        Material::OrangeWallBanner => String::from_str("OrangeWallBanner"),
        Material::OrangeWool => String::from_str("OrangeWool"),
        Material::OxeyeDaisy => String::from_str("OxeyeDaisy"),
        _ => {
            proof {
                assert(false);
            }
            String::new()
        },
    }
}

fn name_in_block_22(m: Material) -> (s: String)
    requires
        material_block(m) == 22,
    ensures
        s@ == material_name(m),
{
    match m {
        Material::ParrotSpawnEgg => String::from_str("ParrotSpawnEgg"),
        Material::Peony => String::from_str("Peony"),
        Material::PetrifiedOakSlab => String::from_str("PetrifiedOakSlab"),
        Material::PhantomMembrane => String::from_str("PhantomMembrane"),
        Material::PhantomSpawnEgg => String::from_str("PhantomSpawnEgg"),
        Material::PigSpawnEgg => String::from_str("PigSpawnEgg"),
        Material::PinkBanner => String::from_str("PinkBanner"),
        Material::PinkBed => String::from_str("PinkBed"),
        Material::PinkCarpet => String::from_str("PinkCarpet"),
        Material::PinkConcrete => String::from_str("PinkConcrete"),
        Material::PinkConcretePowder => String::from_str("PinkConcretePowder"),
        Material::PinkDye => String::from_str("PinkDye"),
        Material::PinkStainedGlass => String::from_str("PinkStainedGlass"),
        Material::PinkStainedGlassPane => String::from_str("PinkStainedGlassPane"),
        Material::PinkTerracotta => String::from_str("PinkTerracotta"),
        Material::PinkTulip => String::from_str("PinkTulip"),
        Material::PinkWallBanner => String::from_str("PinkWallBanner"),
        Material::PinkWool => String::from_str("PinkWool"),
        Material::Piston => String::from_str("Piston"),
        Material::PistonHead => String::from_str("PistonHead"),
        Material::PlayerHead => String::from_str("PlayerHead"),
        Material::PlayerWallHead => String::from_str("PlayerWallHead"),
        Material::Podzol => String::from_str("Podzol"),
        Material::PolarBearSpawnEgg => String::from_str("PolarBearSpawnEgg"),
        Material::PolishedAndesite => String::from_str("PolishedAndesite"),
        Material::PolishedDiorite => String::from_str("PolishedDiorite"),
        Material::PolishedGranite => String::from_str("PolishedGranite"),
        Material::PoppedChorusFruit => String::from_str("PoppedChorusFruit"),
        Material::Poppy => String::from_str("Poppy"),
        Material::Porkchop => String::from_str("Porkchop"),
        Material::Potatoes => String::from_str("Potatoes"),
        Material::PottedAcaciaSapling => String::from_str("PottedAcaciaSapling"),
        Material::PottedAllium => String::from_str("PottedAllium"),
        Material::PottedAzureBluet => String::from_str("PottedAzureBluet"),
        Material::PottedBirchSapling => String::from_str("PottedBirchSapling"),
        Material::PottedBlueOrchid => String::from_str("PottedBlueOrchid"),
        Material::PottedBrownMushroom => String::from_str("PottedBrownMushroom"),
        Material::PottedCactus => String::from_str("PottedCactus"),
        _ => {
            proof {
                assert(false);
            }
            String::new()
        },
    }
}

fn name_in_block_23(m: Material) -> (s: String)
    requires
        material_block(m) == 23,
    ensures
        s@ == material_name(m),
{
    match m {
        Material::PottedDandelion => String::from_str("PottedDandelion"),
        Material::PottedDarkOakSapling => String::from_str("PottedDarkOakSapling"),
        Material::PottedDeadBush => String::from_str("PottedDeadBush"),
        Material::PottedFern => String::from_str("PottedFern"),
        Material::PottedJungleSapling => String::from_str("PottedJungleSapling"),
        Material::PottedOakSapling => String::from_str("PottedOakSapling"),
        Material::PottedOrangeTulip => String::from_str("PottedOrangeTulip"),
        Material::PottedOxeyeDaisy => String::from_str("PottedOxeyeDaisy"),
        Material::PottedPinkTulip => String::from_str("PottedPinkTulip"),
        Material::PottedPoppy => String::from_str("PottedPoppy"),
        Material::PottedRedMushroom => String::from_str("PottedRedMushroom"),
        Material::PottedRedTulip => String::from_str("PottedRedTulip"),
        Material::PottedSpruceSapling => String::from_str("PottedSpruceSapling"),
        Material::PottedWhiteTulip => String::from_str("PottedWhiteTulip"),
        Material::PrismarineBricks => String::from_str("PrismarineBricks"),
        Material::PrismarineBrickSlab => String::from_str("PrismarineBrickSlab"),
        Material::PrismarineBrickStairs => String::from_str("PrismarineBrickStairs"),
        Material::PrismarineSlab => String::from_str("PrismarineSlab"),
        Material::PrismarineStairs => String::from_str("PrismarineStairs"),
        Material::Pufferfish => String::from_str("Pufferfish"),
        Material::PufferfishBucket => String::from_str("PufferfishBucket"),
        Material::PufferfishSpawnEgg => String::from_str("PufferfishSpawnEgg"),
        Material::PurpleBanner => String::from_str("PurpleBanner"),
        Material::PurpleBed => String::from_str("PurpleBed"),
        Material::PurpleCarpet => String::from_str("PurpleCarpet"),
        Material::PurpleConcrete => String::from_str("PurpleConcrete"),
        Material::PurpleConcretePowder => String::from_str("PurpleConcretePowder"),
        Material::PurpleDye => String::from_str("PurpleDye"),
        Material::PurpleStainedGlass => String::from_str("PurpleStainedGlass"),
        Material::PurpleStainedGlassPane => String::from_str("PurpleStainedGlassPane"),
        Material::PurpleTerracotta => String::from_str("PurpleTerracotta"),
        Material::PurpleWallBanner => String::from_str("PurpleWallBanner"),
        Material::PurpleWool => String::from_str("PurpleWool"),
        Material::QuartzPillar => String::from_str("QuartzPillar"),
        Material::QuartzSlab => String::from_str("QuartzSlab"),
        Material::RabbitSpawnEgg => String::from_str("RabbitSpawnEgg"),
        Material::Rail => String::from_str("Rail"),
        Material::RedstoneLamp => String::from_str("RedstoneLamp"),
        _ => {
            proof {
                assert(false);
            }
            String::new()
        },
    }
}

fn name_in_block_24(m: Material) -> (s: String)
    requires
        material_block(m) == 24,
    ensures
        s@ == material_name(m),
{
    match m {
        Material::RedstoneTorch => String::from_str("RedstoneTorch"),
        Material::RedstoneWallTorch => String::from_str("RedstoneWallTorch"),
        Material::RedBanner => String::from_str("RedBanner"),
        Material::RedBed => String::from_str("RedBed"),
        Material::RedCarpet => String::from_str("RedCarpet"),
        Material::RedConcrete => String::from_str("RedConcrete"),
        Material::RedConcretePowder => String::from_str("RedConcretePowder"),
        Material::RedMushroomBlock => String::from_str("RedMushroomBlock"),
        Material::RedNetherBricks => String::from_str("RedNetherBricks"),
        Material::RedSand => String::from_str("RedSand"),
        Material::RedSandstoneSlab => String::from_str("RedSandstoneSlab"),
        Material::RedStainedGlass => String::from_str("RedStainedGlass"),
        Material::RedStainedGlassPane => String::from_str("RedStainedGlassPane"),
        Material::RedTerracotta => String::from_str("RedTerracotta"),
        Material::RedTulip => String::from_str("RedTulip"),
        Material::RedWallBanner => String::from_str("RedWallBanner"),
        Material::RedWool => String::from_str("RedWool"),
        Material::Repeater => String::from_str("Repeater"),
        Material::RepeatingCommandBlock => String::from_str("RepeatingCommandBlock"),
        Material::RoseBush => String::from_str("RoseBush"),
        Material::RoseRed => String::from_str("RoseRed"),
        Material::Salmon => String::from_str("Salmon"),
        Material::SalmonBucket => String::from_str("SalmonBucket"),
        Material::SalmonSpawnEgg => String::from_str("SalmonSpawnEgg"),
        Material::SandstoneSlab => String::from_str("SandstoneSlab"),
        Material::Scute => String::from_str("Scute"),
        Material::Seagrass => String::from_str("Seagrass"),
        Material::SeaPickle => String::from_str("SeaPickle"),
        Material::SheepSpawnEgg => String::from_str("SheepSpawnEgg"),
        Material::ShulkerBox => String::from_str("ShulkerBox"),
        Material::ShulkerSpawnEgg => String::from_str("ShulkerSpawnEgg"),
        Material::SilverfishSpawnEgg => String::from_str("SilverfishSpawnEgg"),
        Material::SkeletonHorseSpawnEgg => String::from_str("SkeletonHorseSpawnEgg"),
        Material::SkeletonSkull => String::from_str("SkeletonSkull"),
        Material::SkeletonSpawnEgg => String::from_str("SkeletonSpawnEgg"),
        Material::SkeletonWallSkull => String::from_str("SkeletonWallSkull"),
        Material::SlimeSpawnEgg => String::from_str("SlimeSpawnEgg"),
        Material::SmoothQuartz => String::from_str("SmoothQuartz"),
        _ => {
            proof {
                assert(false);
            }
            String::new()
        },
    }
}

fn name_in_block_25(m: Material) -> (s: String)
    requires
        material_block(m) == 25,
    ensures
        s@ == material_name(m),
{
    match m {
        Material::SmoothRedSandstone => String::from_str("SmoothRedSandstone"),
        Material::SmoothSandstone => String::from_str("SmoothSandstone"),
        Material::SmoothStone => String::from_str("SmoothStone"),
        Material::Snowball => String::from_str("Snowball"),
        Material::Spawner => String::from_str("Spawner"),
        Material::SpiderSpawnEgg => String::from_str("SpiderSpawnEgg"),
        Material::SpruceBoat => String::from_str("SpruceBoat"),
        Material::SpruceButton => String::from_str("SpruceButton"),
        Material::SpruceLeaves => String::from_str("SpruceLeaves"),
        Material::SpruceLog => String::from_str("SpruceLog"),
        Material::SprucePlanks => String::from_str("SprucePlanks"),
        Material::SprucePressurePlate => String::from_str("SprucePressurePlate"),
        Material::SpruceSapling => String::from_str("SpruceSapling"),
        Material::SpruceSlab => String::from_str("SpruceSlab"),
        Material::SpruceStairs => String::from_str("SpruceStairs"),
        Material::SpruceTrapdoor => String::from_str("SpruceTrapdoor"),
        Material::SpruceWood => String::from_str("SpruceWood"),
        Material::SquidSpawnEgg => String::from_str("SquidSpawnEgg"),
        Material::StickyPiston => String::from_str("StickyPiston"),
        Material::StoneBricks => String::from_str("StoneBricks"),
        Material::StoneBrickSlab => String::from_str("StoneBrickSlab"),
        Material::StoneBrickStairs => String::from_str("StoneBrickStairs"),
        Material::StonePressurePlate => String::from_str("StonePressurePlate"),
        Material::StoneShovel => String::from_str("StoneShovel"),
        Material::StoneSlab => String::from_str("StoneSlab"),
        Material::StraySpawnEgg => String::from_str("StraySpawnEgg"),
        Material::StrippedAcaciaLog => String::from_str("StrippedAcaciaLog"),
        Material::StrippedAcaciaWood => String::from_str("StrippedAcaciaWood"),
        Material::StrippedBirchLog => String::from_str("StrippedBirchLog"),
        Material::StrippedBirchWood => String::from_str("StrippedBirchWood"),
        Material::StrippedDarkOakLog => String::from_str("StrippedDarkOakLog"),
        Material::StrippedDarkOakWood => String::from_str("StrippedDarkOakWood"),
        Material::StrippedJungleLog => String::from_str("StrippedJungleLog"),
        Material::StrippedJungleWood => String::from_str("StrippedJungleWood"),
        Material::StrippedOakLog => String::from_str("StrippedOakLog"),
        Material::StrippedOakWood => String::from_str("StrippedOakWood"),
        Material::StrippedSpruceLog => String::from_str("StrippedSpruceLog"),
        Material::StrippedSpruceWood => String::from_str("StrippedSpruceWood"),
        _ => {
            proof {
                assert(false);
            }
            String::new()
        },
    }
}

fn name_in_block_26(m: Material) -> (s: String)
    requires
        material_block(m) == 26,
    ensures
        s@ == material_name(m),
{
    match m {
        Material::Sunflower => String::from_str("Sunflower"),
        Material::TallGrass => String::from_str("TallGrass"),
        Material::TallSeagrass => String::from_str("TallSeagrass"),
        Material::Terracotta => String::from_str("Terracotta"),
        Material::TntMinecart => String::from_str("TntMinecart"),
        Material::TotemOfUndying => String::from_str("TotemOfUndying"),
        Material::Trident => String::from_str("Trident"),
        Material::TropicalFish => String::from_str("TropicalFish"),
        Material::TropicalFishBucket => String::from_str("TropicalFishBucket"),
        Material::TropicalFishSpawnEgg => String::from_str("TropicalFishSpawnEgg"),
        Material::TubeCoral => String::from_str("TubeCoral"),
        Material::TubeCoralBlock => String::from_str("TubeCoralBlock"),
        Material::TubeCoralFan => String::from_str("TubeCoralFan"),
        Material::TubeCoralWallFan => String::from_str("TubeCoralWallFan"),
        Material::TurtleEgg => String::from_str("TurtleEgg"),
        Material::TurtleHelmet => String::from_str("TurtleHelmet"),
        Material::TurtleSpawnEgg => String::from_str("TurtleSpawnEgg"),
        Material::VexSpawnEgg => String::from_str("VexSpawnEgg"),
        Material::VillagerSpawnEgg => String::from_str("VillagerSpawnEgg"),
        Material::VindicatorSpawnEgg => String::from_str("VindicatorSpawnEgg"),
        Material::VoidAir => String::from_str("VoidAir"),
        Material::WallTorch => String::from_str("WallTorch"),
        Material::WetSponge => String::from_str("WetSponge"),
        Material::WheatSeeds => String::from_str("WheatSeeds"),
        Material::WhiteBanner => String::from_str("WhiteBanner"),
        Material::WhiteBed => String::from_str("WhiteBed"),
        Material::WhiteCarpet => String::from_str("WhiteCarpet"),
        Material::WhiteConcrete => String::from_str("WhiteConcrete"),
        Material::WhiteConcretePowder => String::from_str("WhiteConcretePowder"),
        Material::WhiteStainedGlass => String::from_str("WhiteStainedGlass"),
        Material::WhiteStainedGlassPane => String::from_str("WhiteStainedGlassPane"),
        Material::WhiteTerracotta => String::from_str("WhiteTerracotta"),
        Material::WhiteTulip => String::from_str("WhiteTulip"),
        Material::WhiteWallBanner => String::from_str("WhiteWallBanner"),
        Material::WhiteWool => String::from_str("WhiteWool"),
        Material::WitchSpawnEgg => String::from_str("WitchSpawnEgg"),
        Material::WitherSkeletonSkull => String::from_str("WitherSkeletonSkull"),
        Material::WitherSkeletonSpawnEgg => String::from_str("WitherSkeletonSpawnEgg"),
        _ => {
            proof {
                assert(false);
            }
            String::new()
        },
    }
}

fn name_in_block_27(m: Material) -> (s: String)
    requires
        material_block(m) == 27,
    ensures
        s@ == material_name(m),
{
    match m {
        Material::WitherSkeletonWallSkull => String::from_str("WitherSkeletonWallSkull"),
        Material::WolfSpawnEgg => String::from_str("WolfSpawnEgg"),
        Material::WoodenAxe => String::from_str("WoodenAxe"),
        Material::WoodenHoe => String::from_str("WoodenHoe"),
        Material::WoodenPickaxe => String::from_str("WoodenPickaxe"),
        Material::WoodenShovel => String::from_str("WoodenShovel"),
        Material::WoodenSword => String::from_str("WoodenSword"),
        Material::WritableBook => String::from_str("WritableBook"),
        Material::YellowBanner => String::from_str("YellowBanner"),
        Material::YellowBed => String::from_str("YellowBed"),
        Material::YellowCarpet => String::from_str("YellowCarpet"),
        Material::YellowConcrete => String::from_str("YellowConcrete"),
        Material::YellowConcretePowder => String::from_str("YellowConcretePowder"),
        Material::YellowStainedGlass => String::from_str("YellowStainedGlass"),
        Material::YellowStainedGlassPane => String::from_str("YellowStainedGlassPane"),
        Material::YellowTerracotta => String::from_str("YellowTerracotta"),
        Material::YellowWallBanner => String::from_str("YellowWallBanner"),
        Material::YellowWool => String::from_str("YellowWool"),
        Material::ZombieHead => String::from_str("ZombieHead"),
        Material::ZombieHorseSpawnEgg => String::from_str("ZombieHorseSpawnEgg"),
        Material::ZombiePigmanSpawnEgg => String::from_str("ZombiePigmanSpawnEgg"),
        Material::ZombieSpawnEgg => String::from_str("ZombieSpawnEgg"),
        Material::ZombieVillagerSpawnEgg => String::from_str("ZombieVillagerSpawnEgg"),
        Material::ZombieWallHead => String::from_str("ZombieWallHead"),
        Material::DeadBrainCoral => String::from_str("DeadBrainCoral"),
        Material::DeadBubbleCoral => String::from_str("DeadBubbleCoral"),
        Material::DeadFireCoral => String::from_str("DeadFireCoral"),
        Material::DeadHornCoral => String::from_str("DeadHornCoral"),
        Material::DeadTubeCoral => String::from_str("DeadTubeCoral"),
        Material::AcaciaSign => String::from_str("AcaciaSign"),
        Material::AcaciaWallSign => String::from_str("AcaciaWallSign"),
        Material::AndesiteSlab => String::from_str("AndesiteSlab"),
        Material::AndesiteStairs => String::from_str("AndesiteStairs"),
        Material::AndesiteWall => String::from_str("AndesiteWall"),
        Material::Bamboo => String::from_str("Bamboo"),
        Material::BambooSapling => String::from_str("BambooSapling"),
        Material::Barrel => String::from_str("Barrel"),
        Material::Bell => String::from_str("Bell"),
        _ => {
            proof {
                assert(false);
            }
            String::new()
        },
    }
}

fn name_in_block_28(m: Material) -> (s: String)
    requires
        material_block(m) == 28,
    ensures
        s@ == material_name(m),
{
    match m {
        Material::BirchSign => String::from_str("BirchSign"),
        Material::BirchWallSign => String::from_str("BirchWallSign"),
        Material::BlackDye => String::from_str("BlackDye"),
        Material::BlastFurnace => String::from_str("BlastFurnace"),
        Material::BlueDye => String::from_str("BlueDye"),
        Material::BrickWall => String::from_str("BrickWall"),
        Material::BrownDye => String::from_str("BrownDye"),
        Material::Campfire => String::from_str("Campfire"),
        Material::CartographyTable => String::from_str("CartographyTable"),
        Material::CatSpawnEgg => String::from_str("CatSpawnEgg"),
        Material::Composter => String::from_str("Composter"),
        Material::Cornflower => String::from_str("Cornflower"),
        Material::CreeperBannerPattern => String::from_str("CreeperBannerPattern"),
        Material::Crossbow => String::from_str("Crossbow"),
        Material::CutRedSandstoneSlab => String::from_str("CutRedSandstoneSlab"),
        Material::CutSandstoneSlab => String::from_str("CutSandstoneSlab"),
        Material::DarkOakSign => String::from_str("DarkOakSign"),
        Material::DarkOakWallSign => String::from_str("DarkOakWallSign"),
        Material::DioriteSlab => String::from_str("DioriteSlab"),
        Material::DioriteStairs => String::from_str("DioriteStairs"),
        Material::DioriteWall => String::from_str("DioriteWall"),
        Material::EndStoneBrickSlab => String::from_str("EndStoneBrickSlab"),
        Material::EndStoneBrickStairs => String::from_str("EndStoneBrickStairs"),
        Material::EndStoneBrickWall => String::from_str("EndStoneBrickWall"),
        Material::FletchingTable => String::from_str("FletchingTable"),
        Material::FlowerBannerPattern => String::from_str("FlowerBannerPattern"),
        Material::FoxSpawnEgg => String::from_str("FoxSpawnEgg"),
        Material::GlobeBannerPattern => String::from_str("GlobeBannerPattern"),
        Material::GraniteSlab => String::from_str("GraniteSlab"),
        Material::GraniteStairs => String::from_str("GraniteStairs"),
        Material::GraniteWall => String::from_str("GraniteWall"),
        Material::GreenDye => String::from_str("GreenDye"),
        Material::Grindstone => String::from_str("Grindstone"),
        Material::Jigsaw => String::from_str("Jigsaw"),
        Material::JungleSign => String::from_str("JungleSign"),
        Material::JungleWallSign => String::from_str("JungleWallSign"),
        Material::Lantern => String::from_str("Lantern"),
        Material::LeatherHorseArmor => String::from_str("LeatherHorseArmor"),
        _ => {
            proof {
                assert(false);
            }
            String::new()
        },
    }
}

fn name_in_block_29(m: Material) -> (s: String)
    requires
        material_block(m) == 29,
    ensures
        s@ == material_name(m),
{
    match m {
        Material::Lectern => String::from_str("Lectern"),
        Material::LilyOfTheValley => String::from_str("LilyOfTheValley"),
        Material::Loom => String::from_str("Loom"),
        Material::MojangBannerPattern => String::from_str("MojangBannerPattern"),
        Material::MossyCobblestoneSlab => String::from_str("MossyCobblestoneSlab"),
        Material::MossyCobblestoneStairs => String::from_str("MossyCobblestoneStairs"),
        Material::MossyStoneBrickSlab => String::from_str("MossyStoneBrickSlab"),
        Material::MossyStoneBrickStairs => String::from_str("MossyStoneBrickStairs"),
        Material::MossyStoneBrickWall => String::from_str("MossyStoneBrickWall"),
        Material::NetherBrickWall => String::from_str("NetherBrickWall"),
        Material::OakSign => String::from_str("OakSign"),
        Material::OakWallSign => String::from_str("OakWallSign"),
        Material::PandaSpawnEgg => String::from_str("PandaSpawnEgg"),
        Material::PillagerSpawnEgg => String::from_str("PillagerSpawnEgg"),
        Material::PolishedAndesiteSlab => String::from_str("PolishedAndesiteSlab"),
        Material::PolishedAndesiteStairs => String::from_str("PolishedAndesiteStairs"),
        Material::PolishedDioriteSlab => String::from_str("PolishedDioriteSlab"),
        Material::PolishedDioriteStairs => String::from_str("PolishedDioriteStairs"),
        Material::PolishedGraniteSlab => String::from_str("PolishedGraniteSlab"),
        Material::PolishedGraniteStairs => String::from_str("PolishedGraniteStairs"),
        Material::PottedBamboo => String::from_str("PottedBamboo"),
        Material::PottedCornflower => String::from_str("PottedCornflower"),
        Material::PottedLilyOfTheValley => String::from_str("PottedLilyOfTheValley"),
        Material::PottedWitherRose => String::from_str("PottedWitherRose"),
        Material::PrismarineWall => String::from_str("PrismarineWall"),
        Material::RavagerSpawnEgg => String::from_str("RavagerSpawnEgg"),
        Material::RedDye => String::from_str("RedDye"),
        Material::RedNetherBrickSlab => String::from_str("RedNetherBrickSlab"),
        Material::RedNetherBrickStairs => String::from_str("RedNetherBrickStairs"),
        Material::RedNetherBrickWall => String::from_str("RedNetherBrickWall"),
        Material::RedSandstoneWall => String::from_str("RedSandstoneWall"),
        Material::SandstoneWall => String::from_str("SandstoneWall"),
        Material::Scaffolding => String::from_str("Scaffolding"),
        Material::SkullBannerPattern => String::from_str("SkullBannerPattern"),
        Material::SmithingTable => String::from_str("SmithingTable"),
        Material::Smoker => String::from_str("Smoker"),
        Material::SmoothQuartzSlab => String::from_str("SmoothQuartzSlab"),
        Material::SmoothQuartzStairs => String::from_str("SmoothQuartzStairs"),
        _ => {
            proof {
                assert(false);
            }
            String::new()
        },
    }
}

fn name_in_block_30(m: Material) -> (s: String)
    requires
        material_block(m) == 30,
    ensures
        s@ == material_name(m),
{
    match m {
        Material::SmoothRedSandstoneSlab => String::from_str("SmoothRedSandstoneSlab"),
        Material::SmoothRedSandstoneStairs => String::from_str("SmoothRedSandstoneStairs"),
        Material::SmoothSandstoneSlab => String::from_str("SmoothSandstoneSlab"),
        Material::SmoothSandstoneStairs => String::from_str("SmoothSandstoneStairs"),
        Material::SmoothStoneSlab => String::from_str("SmoothStoneSlab"),
        Material::SpruceSign => String::from_str("SpruceSign"),
        Material::SpruceWallSign => String::from_str("SpruceWallSign"),
        Material::Stonecutter => String::from_str("Stonecutter"),
        Material::StoneBrickWall => String::from_str("StoneBrickWall"),
        Material::StoneStairs => String::from_str("StoneStairs"),
        Material::SuspiciousStew => String::from_str("SuspiciousStew"),
        Material::SweetBerries => String::from_str("SweetBerries"),
        Material::SweetBerryBush => String::from_str("SweetBerryBush"),
        Material::TraderLlamaSpawnEgg => String::from_str("TraderLlamaSpawnEgg"),
        Material::WanderingTraderSpawnEgg => String::from_str("WanderingTraderSpawnEgg"),
        Material::WhiteDye => String::from_str("WhiteDye"),
        Material::WitherRose => String::from_str("WitherRose"),
        Material::YellowDye => String::from_str("YellowDye"),
        Material::Beehive => String::from_str("Beehive"),
        Material::BeeNest => String::from_str("BeeNest"),
        Material::BeeSpawnEgg => String::from_str("BeeSpawnEgg"),
        Material::Honeycomb => String::from_str("Honeycomb"),
        Material::HoneycombBlock => String::from_str("HoneycombBlock"),
        Material::HoneyBlock => String::from_str("HoneyBlock"),
        Material::HoneyBottle => String::from_str("HoneyBottle"),
        Material::AncientDebris => String::from_str("AncientDebris"),
        Material::Basalt => String::from_str("Basalt"),
        Material::Blackstone => String::from_str("Blackstone"),
        Material::BlackstoneSlab => String::from_str("BlackstoneSlab"),
        Material::BlackstoneStairs => String::from_str("BlackstoneStairs"),
        Material::BlackstoneWall => String::from_str("BlackstoneWall"),
        Material::Chain => String::from_str("Chain"),
        Material::ChiseledNetherBricks => String::from_str("ChiseledNetherBricks"),
        Material::ChiseledPolishedBlackstone => String::from_str("ChiseledPolishedBlackstone"),
        Material::CrackedNetherBricks => String::from_str("CrackedNetherBricks"),
        Material::CrackedPolishedBlackstoneBricks => String::from_str("CrackedPolishedBlackstoneBricks"),
        Material::CrimsonButton => String::from_str("CrimsonButton"),
        Material::CrimsonDoor => String::from_str("CrimsonDoor"),
        _ => {
            proof {
                assert(false);
            }
            String::new()
        },
    }
}

fn name_in_block_31(m: Material) -> (s: String)
    requires
        material_block(m) == 31,
    ensures
        s@ == material_name(m),
{
    match m {
        Material::CrimsonFence => String::from_str("CrimsonFence"),
        Material::CrimsonFenceGate => String::from_str("CrimsonFenceGate"),
        Material::CrimsonFungus => String::from_str("CrimsonFungus"),
        Material::CrimsonHyphae => String::from_str("CrimsonHyphae"),
        Material::CrimsonNylium => String::from_str("CrimsonNylium"),
        Material::CrimsonPlanks => String::from_str("CrimsonPlanks"),
        Material::CrimsonPressurePlate => String::from_str("CrimsonPressurePlate"),
        Material::CrimsonRoots => String::from_str("CrimsonRoots"),
        Material::CrimsonSign => String::from_str("CrimsonSign"),
        Material::CrimsonSlab => String::from_str("CrimsonSlab"),
        Material::CrimsonStairs => String::from_str("CrimsonStairs"),
        Material::CrimsonStem => String::from_str("CrimsonStem"),
        Material::CrimsonTrapdoor => String::from_str("CrimsonTrapdoor"),
        Material::CrimsonWallSign => String::from_str("CrimsonWallSign"),
        Material::CryingObsidian => String::from_str("CryingObsidian"),
        Material::GildedBlackstone => String::from_str("GildedBlackstone"),
        Material::HoglinSpawnEgg => String::from_str("HoglinSpawnEgg"),
        Material::Lodestone => String::from_str("Lodestone"),
        Material::MusicDiscPigstep => String::from_str("MusicDiscPigstep"),
        Material::NetheriteAxe => String::from_str("NetheriteAxe"),
        Material::NetheriteBlock => String::from_str("NetheriteBlock"),
        Material::NetheriteBoots => String::from_str("NetheriteBoots"),
        Material::NetheriteChestplate => String::from_str("NetheriteChestplate"),
        Material::NetheriteHelmet => String::from_str("NetheriteHelmet"),
        Material::NetheriteHoe => String::from_str("NetheriteHoe"),
        Material::NetheriteIngot => String::from_str("NetheriteIngot"),
        Material::NetheriteLeggings => String::from_str("NetheriteLeggings"),
        Material::NetheritePickaxe => String::from_str("NetheritePickaxe"),
        Material::NetheriteScrap => String::from_str("NetheriteScrap"),
        Material::NetheriteShovel => String::from_str("NetheriteShovel"),
        Material::NetheriteSword => String::from_str("NetheriteSword"),
        Material::NetherGoldOre => String::from_str("NetherGoldOre"),
        Material::NetherSprouts => String::from_str("NetherSprouts"),
        Material::PiglinBannerPattern => String::from_str("PiglinBannerPattern"),
        Material::PiglinSpawnEgg => String::from_str("PiglinSpawnEgg"),
        Material::PolishedBasalt => String::from_str("PolishedBasalt"),
        Material::PolishedBlackstone => String::from_str("PolishedBlackstone"),
        Material::PolishedBlackstoneBricks => String::from_str("PolishedBlackstoneBricks"),
        _ => {
            proof {
                assert(false);
            }
            String::new()
        },
    }
}

fn name_in_block_32(m: Material) -> (s: String)
    requires
        material_block(m) == 32,
    ensures
        s@ == material_name(m),
{
    match m {
        Material::PolishedBlackstoneBrickSlab => String::from_str("PolishedBlackstoneBrickSlab"),
        Material::PolishedBlackstoneBrickStairs => String::from_str("PolishedBlackstoneBrickStairs"),
        Material::PolishedBlackstoneBrickWall => String::from_str("PolishedBlackstoneBrickWall"),
        Material::PolishedBlackstoneButton => String::from_str("PolishedBlackstoneButton"),
        Material::PolishedBlackstonePressurePlate => String::from_str("PolishedBlackstonePressurePlate"),
        Material::PolishedBlackstoneSlab => String::from_str("PolishedBlackstoneSlab"),
        Material::PolishedBlackstoneStairs => String::from_str("PolishedBlackstoneStairs"),
        Material::PolishedBlackstoneWall => String::from_str("PolishedBlackstoneWall"),
        Material::PottedCrimsonFungus => String::from_str("PottedCrimsonFungus"),
        Material::PottedCrimsonRoots => String::from_str("PottedCrimsonRoots"),
        Material::PottedWarpedFungus => String::from_str("PottedWarpedFungus"),
        Material::PottedWarpedRoots => String::from_str("PottedWarpedRoots"),
        Material::QuartzBricks => String::from_str("QuartzBricks"),
        Material::RespawnAnchor => String::from_str("RespawnAnchor"),
        Material::Shroomlight => String::from_str("Shroomlight"),
        Material::SoulCampfire => String::from_str("SoulCampfire"),
        Material::SoulFire => String::from_str("SoulFire"),
        Material::SoulLantern => String::from_str("SoulLantern"),
        Material::SoulSoil => String::from_str("SoulSoil"),
        Material::SoulTorch => String::from_str("SoulTorch"),
        Material::SoulWallTorch => String::from_str("SoulWallTorch"),
        Material::StriderSpawnEgg => String::from_str("StriderSpawnEgg"),
        Material::StrippedCrimsonHyphae => String::from_str("StrippedCrimsonHyphae"),
        Material::StrippedCrimsonStem => String::from_str("StrippedCrimsonStem"),
        Material::StrippedWarpedHyphae => String::from_str("StrippedWarpedHyphae"),
        Material::StrippedWarpedStem => String::from_str("StrippedWarpedStem"),
        Material::Target => String::from_str("Target"),
        Material::TwistingVines => String::from_str("TwistingVines"),
        Material::TwistingVinesPlant => String::from_str("TwistingVinesPlant"),
        Material::WarpedButton => String::from_str("WarpedButton"),
        Material::WarpedDoor => String::from_str("WarpedDoor"),
        Material::WarpedFence => String::from_str("WarpedFence"),
        Material::WarpedFenceGate => String::from_str("WarpedFenceGate"),
        Material::WarpedFungus => String::from_str("WarpedFungus"),
        Material::WarpedFungusOnAStick => String::from_str("WarpedFungusOnAStick"),
        Material::WarpedHyphae => String::from_str("WarpedHyphae"),
        Material::WarpedNylium => String::from_str("WarpedNylium"),
        Material::WarpedPlanks => String::from_str("WarpedPlanks"),
        _ => {
            proof {
                assert(false);
            }
            String::new()
        },
    }
}

fn name_in_block_33(m: Material) -> (s: String)
    requires
        material_block(m) == 33,
    ensures
        s@ == material_name(m),
{
    match m {
        Material::WarpedPressurePlate => String::from_str("WarpedPressurePlate"),
        Material::WarpedRoots => String::from_str("WarpedRoots"),
        Material::WarpedSign => String::from_str("WarpedSign"),
        Material::WarpedSlab => String::from_str("WarpedSlab"),
        Material::WarpedStairs => String::from_str("WarpedStairs"),
        Material::WarpedStem => String::from_str("WarpedStem"),
        Material::WarpedTrapdoor => String::from_str("WarpedTrapdoor"),
        Material::WarpedWallSign => String::from_str("WarpedWallSign"),
        Material::WarpedWartBlock => String::from_str("WarpedWartBlock"),
        Material::WeepingVines => String::from_str("WeepingVines"),
        Material::WeepingVinesPlant => String::from_str("WeepingVinesPlant"),
        Material::ZoglinSpawnEgg => String::from_str("ZoglinSpawnEgg"),
        Material::ZombifiedPiglinSpawnEgg => String::from_str("ZombifiedPiglinSpawnEgg"),
        Material::PiglinBruteSpawnEgg => String::from_str("PiglinBruteSpawnEgg"),
        Material::Deepslate => String::from_str("Deepslate"),
        Material::CobbledDeepslate => String::from_str("CobbledDeepslate"),
        Material::PolishedDeepslate => String::from_str("PolishedDeepslate"),
        Material::Calcite => String::from_str("Calcite"),
        Material::Tuff => String::from_str("Tuff"),
        Material::DripstoneBlock => String::from_str("DripstoneBlock"),
        Material::RootedDirt => String::from_str("RootedDirt"),
        Material::DeepslateCoalOre => String::from_str("DeepslateCoalOre"),
        Material::DeepslateIronOre => String::from_str("DeepslateIronOre"),
        Material::CopperOre => String::from_str("CopperOre"),
        Material::DeepslateCopperOre => String::from_str("DeepslateCopperOre"),
        Material::DeepslateGoldOre => String::from_str("DeepslateGoldOre"),
        Material::DeepslateRedstoneOre => String::from_str("DeepslateRedstoneOre"),
        Material::DeepslateEmeraldOre => String::from_str("DeepslateEmeraldOre"),
        Material::DeepslateLapisOre => String::from_str("DeepslateLapisOre"),
        Material::DeepslateDiamondOre => String::from_str("DeepslateDiamondOre"),
        Material::RawIronBlock => String::from_str("RawIronBlock"),
        Material::RawCopperBlock => String::from_str("RawCopperBlock"),
        Material::RawGoldBlock => String::from_str("RawGoldBlock"),
        Material::AmethystBlock => String::from_str("AmethystBlock"),
        Material::BuddingAmethyst => String::from_str("BuddingAmethyst"),
        Material::CopperBlock => String::from_str("CopperBlock"),
        Material::ExposedCopper => String::from_str("ExposedCopper"),
        Material::WeatheredCopper => String::from_str("WeatheredCopper"),
        _ => {
            proof {
                assert(false);
            }
            String::new()
        },
    }
}

fn name_in_block_34(m: Material) -> (s: String)
    requires
        material_block(m) == 34,
    ensures
        s@ == material_name(m),
{
    match m {
        Material::OxidizedCopper => String::from_str("OxidizedCopper"),
        Material::CutCopper => String::from_str("CutCopper"),
        Material::ExposedCutCopper => String::from_str("ExposedCutCopper"),
        Material::WeatheredCutCopper => String::from_str("WeatheredCutCopper"),
        Material::OxidizedCutCopper => String::from_str("OxidizedCutCopper"),
        Material::CutCopperStairs => String::from_str("CutCopperStairs"),
        Material::ExposedCutCopperStairs => String::from_str("ExposedCutCopperStairs"),
        Material::WeatheredCutCopperStairs => String::from_str("WeatheredCutCopperStairs"),
        Material::OxidizedCutCopperStairs => String::from_str("OxidizedCutCopperStairs"),
        Material::CutCopperSlab => String::from_str("CutCopperSlab"),
        Material::ExposedCutCopperSlab => String::from_str("ExposedCutCopperSlab"),
        Material::WeatheredCutCopperSlab => String::from_str("WeatheredCutCopperSlab"),
        Material::OxidizedCutCopperSlab => String::from_str("OxidizedCutCopperSlab"),
        Material::WaxedCopperBlock => String::from_str("WaxedCopperBlock"),
        Material::WaxedExposedCopper => String::from_str("WaxedExposedCopper"),
        Material::WaxedWeatheredCopper => String::from_str("WaxedWeatheredCopper"),
        Material::WaxedOxidizedCopper => String::from_str("WaxedOxidizedCopper"),
        Material::WaxedCutCopper => String::from_str("WaxedCutCopper"),
        Material::WaxedExposedCutCopper => String::from_str("WaxedExposedCutCopper"),
        Material::WaxedWeatheredCutCopper => String::from_str("WaxedWeatheredCutCopper"),
        Material::WaxedOxidizedCutCopper => String::from_str("WaxedOxidizedCutCopper"),
        Material::WaxedCutCopperStairs => String::from_str("WaxedCutCopperStairs"),
        Material::WaxedExposedCutCopperStairs => String::from_str("WaxedExposedCutCopperStairs"),
        Material::WaxedWeatheredCutCopperStairs => String::from_str("WaxedWeatheredCutCopperStairs"),
        Material::WaxedOxidizedCutCopperStairs => String::from_str("WaxedOxidizedCutCopperStairs"),
        Material::WaxedCutCopperSlab => String::from_str("WaxedCutCopperSlab"),
        Material::WaxedExposedCutCopperSlab => String::from_str("WaxedExposedCutCopperSlab"),
        Material::WaxedWeatheredCutCopperSlab => String::from_str("WaxedWeatheredCutCopperSlab"),
        Material::WaxedOxidizedCutCopperSlab => String::from_str("WaxedOxidizedCutCopperSlab"),
        Material::AzaleaLeaves => String::from_str("AzaleaLeaves"),
        Material::FloweringAzaleaLeaves => String::from_str("FloweringAzaleaLeaves"),
        Material::TintedGlass => String::from_str("TintedGlass"),
        Material::Azalea => String::from_str("Azalea"),
        Material::FloweringAzalea => String::from_str("FloweringAzalea"),
        Material::SporeBlossom => String::from_str("SporeBlossom"),
        Material::MossCarpet => String::from_str("MossCarpet"),
        Material::MossBlock => String::from_str("MossBlock"),
        Material::HangingRoots => String::from_str("HangingRoots"),
        _ => {
            proof {
                assert(false);
            }
            String::new()
        },
    }
}

fn name_in_block_35(m: Material) -> (s: String)
    requires
        material_block(m) == 35,
    ensures
        s@ == material_name(m),
{
    match m {
        Material::BigDripleaf => String::from_str("BigDripleaf"),
        Material::SmallDripleaf => String::from_str("SmallDripleaf"),
        Material::SmoothBasalt => String::from_str("SmoothBasalt"),
        Material::InfestedDeepslate => String::from_str("InfestedDeepslate"),
        Material::DeepslateBricks => String::from_str("DeepslateBricks"),
        Material::CrackedDeepslateBricks => String::from_str("CrackedDeepslateBricks"),
        Material::DeepslateTiles => String::from_str("DeepslateTiles"),
        Material::CrackedDeepslateTiles => String::from_str("CrackedDeepslateTiles"),
        Material::ChiseledDeepslate => String::from_str("ChiseledDeepslate"),
        Material::GlowLichen => String::from_str("GlowLichen"),
        Material::CobbledDeepslateWall => String::from_str("CobbledDeepslateWall"),
        Material::PolishedDeepslateWall => String::from_str("PolishedDeepslateWall"),
        Material::DeepslateBrickWall => String::from_str("DeepslateBrickWall"),
        Material::DeepslateTileWall => String::from_str("DeepslateTileWall"),
        Material::Light => String::from_str("Light"),
        Material::DirtPath => String::from_str("DirtPath"),
        Material::CobbledDeepslateStairs => String::from_str("CobbledDeepslateStairs"),
        Material::PolishedDeepslateStairs => String::from_str("PolishedDeepslateStairs"),
        Material::DeepslateBrickStairs => String::from_str("DeepslateBrickStairs"),
        Material::DeepslateTileStairs => String::from_str("DeepslateTileStairs"),
        Material::CobbledDeepslateSlab => String::from_str("CobbledDeepslateSlab"),
        Material::PolishedDeepslateSlab => String::from_str("PolishedDeepslateSlab"),
        Material::DeepslateBrickSlab => String::from_str("DeepslateBrickSlab"),
        Material::DeepslateTileSlab => String::from_str("DeepslateTileSlab"),
        Material::LightningRod => String::from_str("LightningRod"),
        Material::SculkSensor => String::from_str("SculkSensor"),
        Material::AmethystShard => String::from_str("AmethystShard"),
        Material::RawIron => String::from_str("RawIron"),
        Material::RawCopper => String::from_str("RawCopper"),
        Material::CopperIngot => String::from_str("CopperIngot"),
        Material::RawGold => String::from_str("RawGold"),
        Material::PowderSnowBucket => String::from_str("PowderSnowBucket"),
        Material::AxolotlBucket => String::from_str("AxolotlBucket"),
        Material::Bundle => String::from_str("Bundle"),
        Material::Spyglass => String::from_str("Spyglass"),
        Material::GlowInkSac => String::from_str("GlowInkSac"),
        Material::AxolotlSpawnEgg => String::from_str("AxolotlSpawnEgg"),
        Material::GlowSquidSpawnEgg => String::from_str("GlowSquidSpawnEgg"),
        _ => {
            proof {
                assert(false);
            }
            String::new()
        },
    }
}

fn name_in_block_36(m: Material) -> (s: String)
    requires
        material_block(m) == 36,
    ensures
        s@ == material_name(m),
{
    match m {
        Material::GoatSpawnEgg => String::from_str("GoatSpawnEgg"),
        Material::GlowItemFrame => String::from_str("GlowItemFrame"),
        Material::GlowBerries => String::from_str("GlowBerries"),
        Material::Candle => String::from_str("Candle"),
        Material::WhiteCandle => String::from_str("WhiteCandle"),
        Material::OrangeCandle => String::from_str("OrangeCandle"),
        Material::MagentaCandle => String::from_str("MagentaCandle"),
        Material::LightBlueCandle => String::from_str("LightBlueCandle"),
        Material::YellowCandle => String::from_str("YellowCandle"),
        Material::LimeCandle => String::from_str("LimeCandle"),
        Material::PinkCandle => String::from_str("PinkCandle"),
        Material::GrayCandle => String::from_str("GrayCandle"),
        Material::LightGrayCandle => String::from_str("LightGrayCandle"),
        Material::CyanCandle => String::from_str("CyanCandle"),
        Material::PurpleCandle => String::from_str("PurpleCandle"),
        Material::BlueCandle => String::from_str("BlueCandle"),
        Material::BrownCandle => String::from_str("BrownCandle"),
        Material::GreenCandle => String::from_str("GreenCandle"),
        Material::RedCandle => String::from_str("RedCandle"),
        Material::BlackCandle => String::from_str("BlackCandle"),
        Material::SmallAmethystBud => String::from_str("SmallAmethystBud"),
        Material::MediumAmethystBud => String::from_str("MediumAmethystBud"),
        Material::LargeAmethystBud => String::from_str("LargeAmethystBud"),
        Material::AmethystCluster => String::from_str("AmethystCluster"),
        Material::PointedDripstone => String::from_str("PointedDripstone"),
        Material::WaterCauldron => String::from_str("WaterCauldron"),
        Material::LavaCauldron => String::from_str("LavaCauldron"),
        Material::PowderSnowCauldron => String::from_str("PowderSnowCauldron"),
        Material::CandleCake => String::from_str("CandleCake"),
        Material::WhiteCandleCake => String::from_str("WhiteCandleCake"),
        Material::OrangeCandleCake => String::from_str("OrangeCandleCake"),
        Material::MagentaCandleCake => String::from_str("MagentaCandleCake"),
        Material::LightBlueCandleCake => String::from_str("LightBlueCandleCake"),
        Material::YellowCandleCake => String::from_str("YellowCandleCake"),
        Material::LimeCandleCake => String::from_str("LimeCandleCake"),
        Material::PinkCandleCake => String::from_str("PinkCandleCake"),
        Material::GrayCandleCake => String::from_str("GrayCandleCake"),
        Material::LightGrayCandleCake => String::from_str("LightGrayCandleCake"),
        _ => {
            proof {
                assert(false);
            }
            String::new()
        },
    }
}

fn name_in_block_37(m: Material) -> (s: String)
    requires
        material_block(m) == 37,
    ensures
        s@ == material_name(m),
{
    match m {
        Material::CyanCandleCake => String::from_str("CyanCandleCake"),
        Material::PurpleCandleCake => String::from_str("PurpleCandleCake"),
        Material::BlueCandleCake => String::from_str("BlueCandleCake"),
        Material::BrownCandleCake => String::from_str("BrownCandleCake"),
        Material::GreenCandleCake => String::from_str("GreenCandleCake"),
        Material::RedCandleCake => String::from_str("RedCandleCake"),
        Material::BlackCandleCake => String::from_str("BlackCandleCake"),
        Material::PowderSnow => String::from_str("PowderSnow"),
        Material::CaveVines => String::from_str("CaveVines"),
        Material::CaveVinesPlant => String::from_str("CaveVinesPlant"),
        Material::BigDripleafStem => String::from_str("BigDripleafStem"),
        Material::PottedAzaleaBush => String::from_str("PottedAzaleaBush"),
        Material::PottedFloweringAzaleaBush => String::from_str("PottedFloweringAzaleaBush"),
        _ => {
            proof {
                assert(false);
            }
            String::new()
        },
    }
}

impl Material {
    /// The variant name of this material.
    pub fn name(&self) -> (s: String)
        ensures
            s@ == material_name(*self),
    {
        match self {
            Material::Air
            | Material::Stone
            | Material::Grass
            | Material::Dirt
            | Material::Cobblestone
            | Material::Wood
            | Material::Sapling
            | Material::Bedrock
            | Material::Water
            | Material::StationaryWater
            | Material::Lava
            | Material::StationaryLava
            | Material::Sand
            | Material::Gravel
            | Material::GoldOre
            | Material::IronOre
            | Material::CoalOre
            | Material::Log
            | Material::Leaves
            | Material::Sponge
            | Material::Glass
            | Material::LapisOre
            | Material::LapisBlock
            | Material::Dispenser
            | Material::Sandstone
            | Material::NoteBlock
            | Material::BedBlock
            | Material::PoweredRail
            | Material::DetectorRail
            | Material::PistonStickyBase
            | Material::Web
            | Material::LongGrass
            | Material::DeadBush
            | Material::PistonBase
            | Material::PistonExtension
            | Material::Wool
            | Material::PistonMovingPiece
            | Material::YellowFlower => name_in_block_0(*self),
            Material::RedRose
            | Material::BrownMushroom
            | Material::RedMushroom
            | Material::GoldBlock
            | Material::IronBlock
            | Material::DoubleStep
            | Material::Step
            | Material::Brick
            | Material::Tnt
            | Material::Bookshelf
            | Material::MossyCobblestone
            | Material::Obsidian
            | Material::Torch
            | Material::Fire
            | Material::MobSpawner
            | Material::WoodStairs
            | Material::Chest
            | Material::RedstoneWire
            | Material::DiamondOre
            | Material::DiamondBlock
            | Material::Workbench
            | Material::Crops
            | Material::Soil
            | Material::Furnace
            | Material::BurningFurnace
            | Material::SignPost
            | Material::WoodenDoor
            | Material::Ladder
            | Material::Rails
            | Material::CobblestoneStairs
            | Material::WallSign
            | Material::Lever
            | Material::StonePlate
            | Material::IronDoorBlock
            | Material::WoodPlate
            | Material::RedstoneOre
            | Material::GlowingRedstoneOre
            | Material::RedstoneTorchOff => name_in_block_1(*self),
            Material::RedstoneTorchOn
            | Material::StoneButton
            | Material::Snow
            | Material::Ice
            | Material::SnowBlock
            | Material::Cactus
            | Material::Clay
            | Material::SugarCaneBlock
            | Material::Jukebox
            | Material::Fence
            | Material::Pumpkin
            | Material::Netherrack
            | Material::SoulSand
            | Material::Glowstone
            | Material::Portal
            | Material::JackOLantern
            | Material::CakeBlock
            | Material::DiodeBlockOff
            | Material::DiodeBlockOn
            | Material::LockedChest
            | Material::StainedGlass
            | Material::TrapDoor
            | Material::MonsterEggs
            | Material::SmoothBrick
            | Material::HugeMushroom1
            | Material::HugeMushroom2
            | Material::IronFence
            | Material::ThinGlass
            | Material::MelonBlock
            | Material::PumpkinStem
            | Material::MelonStem
            | Material::Vine
            | Material::FenceGate
            | Material::BrickStairs
            | Material::SmoothStairs
            | Material::Mycel
            | Material::WaterLily
            | Material::NetherBrick => name_in_block_2(*self),
            Material::NetherFence
            | Material::NetherBrickStairs
            | Material::NetherWarts
            | Material::EnchantmentTable
            | Material::BrewingStand
            | Material::Cauldron
            | Material::EnderPortal
            | Material::EnderPortalFrame
            | Material::EnderStone
            | Material::DragonEgg
            | Material::RedstoneLampOff
            | Material::RedstoneLampOn
            | Material::WoodDoubleStep
            | Material::WoodStep
            | Material::Cocoa
            | Material::SandstoneStairs
            | Material::EmeraldOre
            | Material::EnderChest
            | Material::TripwireHook
            | Material::Tripwire
            | Material::EmeraldBlock
            | Material::SpruceWoodStairs
            | Material::BirchWoodStairs
            | Material::JungleWoodStairs
            | Material::Command
            | Material::Beacon
            | Material::CobbleWall
            | Material::FlowerPot
            | Material::Carrot
            | Material::Potato
            | Material::WoodButton
            | Material::Skull
            | Material::Anvil
            | Material::TrappedChest
            | Material::GoldPlate
            | Material::IronPlate
            | Material::RedstoneComparatorOff
            | Material::RedstoneComparatorOn => name_in_block_3(*self),
            Material::DaylightDetector
            | Material::RedstoneBlock
            | Material::QuartzOre
            | Material::Hopper
            | Material::QuartzBlock
            | Material::QuartzStairs
            | Material::ActivatorRail
            | Material::Dropper
            | Material::StainedClay
            | Material::StainedGlassPane
            | Material::Leaves2
            | Material::Log2
            | Material::AcaciaStairs
            | Material::DarkOakStairs
            | Material::HayBlock
            | Material::Carpet
            | Material::HardClay
            | Material::CoalBlock
            | Material::PackedIce
            | Material::DoublePlant
            | Material::IronSpade
            | Material::IronPickaxe
            | Material::IronAxe
            | Material::FlintAndSteel
            | Material::Apple
            | Material::Bow
            | Material::Arrow
            | Material::Coal
            | Material::Diamond
            | Material::IronIngot
            | Material::GoldIngot
            | Material::IronSword
            | Material::WoodSword
            | Material::WoodSpade
            | Material::WoodPickaxe
            | Material::WoodAxe
            | Material::StoneSword
            | Material::StoneSpade => name_in_block_4(*self),
            Material::StonePickaxe
            | Material::StoneAxe
            | Material::DiamondSword
            | Material::DiamondSpade
            | Material::DiamondPickaxe
            | Material::DiamondAxe
            | Material::Stick
            | Material::Bowl
            | Material::MushroomSoup
            | Material::GoldSword
            | Material::GoldSpade
            | Material::GoldPickaxe
            | Material::GoldAxe
            | Material::String
            | Material::Feather
            | Material::Sulphur
            | Material::WoodHoe
            | Material::StoneHoe
            | Material::IronHoe
            | Material::DiamondHoe
            | Material::GoldHoe
            | Material::Seeds
            | Material::Wheat
            | Material::Bread
            | Material::LeatherHelmet
            | Material::LeatherChestplate
            | Material::LeatherLeggings
            | Material::LeatherBoots
            | Material::ChainmailHelmet
            | Material::ChainmailChestplate
            | Material::ChainmailLeggings
            | Material::ChainmailBoots
            | Material::IronHelmet
            | Material::IronChestplate
            | Material::IronLeggings
            | Material::IronBoots
            | Material::DiamondHelmet
            | Material::DiamondChestplate => name_in_block_5(*self),
            Material::DiamondLeggings
            | Material::DiamondBoots
            | Material::GoldHelmet
            | Material::GoldChestplate
            | Material::GoldLeggings
            | Material::GoldBoots
            | Material::Flint
            | Material::Pork
            | Material::GrilledPork
            | Material::Painting
            | Material::GoldenApple
            | Material::Sign
            | Material::WoodDoor
            | Material::Bucket
            | Material::WaterBucket
            | Material::LavaBucket
            | Material::Minecart
            | Material::Saddle
            | Material::IronDoor
            | Material::Redstone
            | Material::SnowBall
            | Material::Boat
            | Material::Leather
            | Material::MilkBucket
            | Material::ClayBrick
            | Material::ClayBall
            | Material::SugarCane
            | Material::Paper
            | Material::Book
            | Material::SlimeBall
            | Material::StorageMinecart
            | Material::PoweredMinecart
            | Material::Egg
            | Material::Compass
            | Material::FishingRod
            | Material::Watch
            | Material::GlowstoneDust
            | Material::RawFish => name_in_block_6(*self),
            Material::CookedFish
            | Material::InkSack
            | Material::Bone
            | Material::Sugar
            | Material::Cake
            | Material::Bed
            | Material::Diode
            | Material::Cookie
            | Material::LegacyMap
            | Material::Shears
            | Material::Melon
            | Material::PumpkinSeeds
            | Material::MelonSeeds
            | Material::RawBeef
            | Material::CookedBeef
            | Material::RawChicken
            | Material::CookedChicken
            | Material::RottenFlesh
            | Material::EnderPearl
            | Material::BlazeRod
            | Material::GhastTear
            | Material::GoldNugget
            | Material::NetherStalk
            | Material::Potion
            | Material::GlassBottle
            | Material::SpiderEye
            | Material::FermentedSpiderEye
            | Material::BlazePowder
            | Material::MagmaCream
            | Material::BrewingStandItem
            | Material::CauldronItem
            | Material::EyeOfEnder
            | Material::SpeckledMelon
            | Material::MonsterEgg
            | Material::ExpBottle
            | Material::Fireball
            | Material::BookAndQuill
            | Material::WrittenBook => name_in_block_7(*self),
            Material::Emerald
            | Material::ItemFrame
            | Material::FlowerPotItem
            | Material::CarrotItem
            | Material::PotatoItem
            | Material::BakedPotato
            | Material::PoisonousPotato
            | Material::EmptyMap
            | Material::GoldenCarrot
            | Material::SkullItem
            | Material::CarrotStick
            | Material::NetherStar
            | Material::PumpkinPie
            | Material::Firework
            | Material::FireworkCharge
            | Material::EnchantedBook
            | Material::RedstoneComparator
            | Material::NetherBrickItem
            | Material::Quartz
            | Material::ExplosiveMinecart
            | Material::HopperMinecart
            | Material::IronBarding
            | Material::GoldBarding
            | Material::DiamondBarding
            | Material::Leash
            | Material::NameTag
            | Material::CommandMinecart
            | Material::GoldRecord
            | Material::GreenRecord
            | Material::Record3
            | Material::Record4
            | Material::Record5
            | Material::Record6
            | Material::Record7
            | Material::Record8
            | Material::Record9
            | Material::Record10
            | Material::Record11 => name_in_block_8(*self),
            Material::Record12
            | Material::SlimeBlock
            | Material::Barrier
            | Material::IronTrapdoor
            | Material::Prismarine
            | Material::SeaLantern
            | Material::StandingBanner
            | Material::WallBanner
            | Material::DaylightDetectorInverted
            | Material::RedSandstone
            | Material::RedSandstoneStairs
            | Material::DoubleStoneSlab2
            | Material::StoneSlab2
            | Material::SpruceFenceGate
            | Material::BirchFenceGate
            | Material::JungleFenceGate
            | Material::DarkOakFenceGate
            | Material::AcaciaFenceGate
            | Material::SpruceFence
            | Material::BirchFence
            | Material::JungleFence
            | Material::DarkOakFence
            | Material::AcaciaFence
            | Material::SpruceDoor
            | Material::BirchDoor
            | Material::JungleDoor
            | Material::AcaciaDoor
            | Material::DarkOakDoor
            | Material::PrismarineShard
            | Material::PrismarineCrystals
            | Material::Rabbit
            | Material::CookedRabbit
            | Material::RabbitStew
            | Material::RabbitFoot
            | Material::RabbitHide
            | Material::ArmorStand
            | Material::Mutton
            | Material::CookedMutton => name_in_block_9(*self),
            Material::Banner
            | Material::SpruceDoorItem
            | Material::BirchDoorItem
            | Material::JungleDoorItem
            | Material::AcaciaDoorItem
            | Material::DarkOakDoorItem
            | Material::EndRod
            | Material::ChorusPlant
            | Material::ChorusFlower
            | Material::PurpurBlock
            | Material::PurpurPillar
            | Material::PurpurStairs
            | Material::PurpurDoubleSlab
            | Material::PurpurSlab
            | Material::EndBricks
            | Material::BeetrootBlock
            | Material::GrassPath
            | Material::EndGateway
            | Material::CommandRepeating
            | Material::CommandChain
            | Material::StructureBlock
            | Material::EndCrystal
            | Material::ChorusFruit
            | Material::ChorusFruitPopped
            | Material::Beetroot
            | Material::BeetrootSeeds
            | Material::BeetrootSoup
            | Material::DragonsBreath
            | Material::SplashPotion
            | Material::SpectralArrow
            | Material::TippedArrow
            | Material::LingeringPotion
            | Material::Shield
            | Material::Elytra
            | Material::BoatSpruce
            | Material::BoatBirch
            | Material::BoatJungle
            | Material::BoatAcacia => name_in_block_10(*self),
            Material::BoatDarkOak
            | Material::FrostedIce
            | Material::Magma
            | Material::NetherWartBlock
            | Material::RedNetherBrick
            | Material::BoneBlock
            | Material::StructureVoid
            | Material::Observer
            | Material::WhiteShulkerBox
            | Material::OrangeShulkerBox
            | Material::MagentaShulkerBox
            | Material::LightBlueShulkerBox
            | Material::YellowShulkerBox
            | Material::LimeShulkerBox
            | Material::PinkShulkerBox
            | Material::GrayShulkerBox
            | Material::SilverShulkerBox
            | Material::CyanShulkerBox
            | Material::PurpleShulkerBox
            | Material::BlueShulkerBox
            | Material::BrownShulkerBox
            | Material::GreenShulkerBox
            | Material::RedShulkerBox
            | Material::BlackShulkerBox
            | Material::Totem
            | Material::ShulkerShell
            | Material::IronNugget
            | Material::WhiteGlazedTerracotta
            | Material::OrangeGlazedTerracotta
            | Material::MagentaGlazedTerracotta
            | Material::LightBlueGlazedTerracotta
            | Material::YellowGlazedTerracotta
            | Material::LimeGlazedTerracotta
            | Material::PinkGlazedTerracotta
            | Material::GrayGlazedTerracotta
            | Material::SilverGlazedTerracotta
            | Material::CyanGlazedTerracotta
            | Material::PurpleGlazedTerracotta => name_in_block_11(*self),
            Material::BlueGlazedTerracotta
            | Material::BrownGlazedTerracotta
            | Material::GreenGlazedTerracotta
            | Material::RedGlazedTerracotta
            | Material::BlackGlazedTerracotta
            | Material::Concrete
            | Material::ConcretePowder
            | Material::KnowledgeBook
            | Material::AcaciaBoat
            | Material::AcaciaButton
            | Material::AcaciaLeaves
            | Material::AcaciaLog
            | Material::AcaciaPlanks
            | Material::AcaciaPressurePlate
            | Material::AcaciaSapling
            | Material::AcaciaSlab
            | Material::AcaciaTrapdoor
            | Material::AcaciaWood
            | Material::Allium
            | Material::Andesite
            | Material::AttachedMelonStem
            | Material::AttachedPumpkinStem
            | Material::AzureBluet
            | Material::BatSpawnEgg
            | Material::Beef
            | Material::Beetroots
            | Material::BirchBoat
            | Material::BirchButton
            | Material::BirchLeaves
            | Material::BirchLog
            | Material::BirchPlanks
            | Material::BirchPressurePlate
            | Material::BirchSapling
            | Material::BirchSlab
            | Material::BirchStairs
            | Material::BirchTrapdoor
            | Material::BirchWood
            | Material::BlackBanner => name_in_block_12(*self),
            Material::BlackBed
            | Material::BlackCarpet
            | Material::BlackConcrete
            | Material::BlackConcretePowder
            | Material::BlackStainedGlass
            | Material::BlackStainedGlassPane
            | Material::BlackTerracotta
            | Material::BlackWallBanner
            | Material::BlackWool
            | Material::BlazeSpawnEgg
            | Material::BlueBanner
            | Material::BlueBed
            | Material::BlueCarpet
            | Material::BlueConcrete
            | Material::BlueConcretePowder
            | Material::BlueIce
            | Material::BlueOrchid
            | Material::BlueStainedGlass
            | Material::BlueStainedGlassPane
            | Material::BlueTerracotta
            | Material::BlueWallBanner
            | Material::BlueWool
            | Material::BoneMeal
            | Material::BrainCoral
            | Material::BrainCoralBlock
            | Material::BrainCoralFan
            | Material::BrainCoralWallFan
            | Material::Bricks
            | Material::BrickSlab
            | Material::BrownBanner
            | Material::BrownBed
            | Material::BrownCarpet
            | Material::BrownConcrete
            | Material::BrownConcretePowder
            | Material::BrownMushroomBlock
            | Material::BrownStainedGlass
            | Material::BrownStainedGlassPane
            | Material::BrownTerracotta => name_in_block_13(*self),
            Material::BrownWallBanner
            | Material::BrownWool
            | Material::BubbleColumn
            | Material::BubbleCoral
            | Material::BubbleCoralBlock
            | Material::BubbleCoralFan
            | Material::BubbleCoralWallFan
            | Material::CactusGreen
            | Material::Carrots
            | Material::CarrotOnAStick
            | Material::CarvedPumpkin
            | Material::CaveAir
            | Material::CaveSpiderSpawnEgg
            | Material::ChainCommandBlock
            | Material::Charcoal
            | Material::ChestMinecart
            | Material::Chicken
            | Material::ChickenSpawnEgg
            | Material::ChippedAnvil
            | Material::ChiseledQuartzBlock
            | Material::ChiseledRedSandstone
            | Material::ChiseledSandstone
            | Material::ChiseledStoneBricks
            | Material::Clock
            | Material::CoarseDirt
            | Material::CobblestoneSlab
            | Material::CobblestoneWall
            | Material::Cobweb
            | Material::CocoaBeans
            | Material::Cod
            | Material::CodBucket
            | Material::CodSpawnEgg
            | Material::CommandBlock
            | Material::CommandBlockMinecart
            | Material::Comparator
            | Material::Conduit
            | Material::CookedCod
            | Material::CookedPorkchop => name_in_block_14(*self),
            Material::CookedSalmon
            | Material::CowSpawnEgg
            | Material::CrackedStoneBricks
            | Material::CraftingTable
            | Material::CreeperHead
            | Material::CreeperSpawnEgg
            | Material::CreeperWallHead
            | Material::CutRedSandstone
            | Material::CutSandstone
            | Material::CyanBanner
            | Material::CyanBed
            | Material::CyanCarpet
            | Material::CyanConcrete
            | Material::CyanConcretePowder
            | Material::CyanDye
            | Material::CyanStainedGlass
            | Material::CyanStainedGlassPane
            | Material::CyanTerracotta
            | Material::CyanWallBanner
            | Material::CyanWool
            | Material::DamagedAnvil
            | Material::Dandelion
            | Material::DandelionYellow
            | Material::DarkOakBoat
            | Material::DarkOakButton
            | Material::DarkOakLeaves
            | Material::DarkOakLog
            | Material::DarkOakPlanks
            | Material::DarkOakPressurePlate
            | Material::DarkOakSapling
            | Material::DarkOakSlab
            | Material::DarkOakTrapdoor
            | Material::DarkOakWood
            | Material::DarkPrismarine
            | Material::DarkPrismarineSlab
            | Material::DarkPrismarineStairs
            | Material::DeadBrainCoralBlock
            | Material::DeadBrainCoralFan => name_in_block_15(*self),
            Material::DeadBrainCoralWallFan
            | Material::DeadBubbleCoralBlock
            | Material::DeadBubbleCoralFan
            | Material::DeadBubbleCoralWallFan
            | Material::DeadFireCoralBlock
            | Material::DeadFireCoralFan
            | Material::DeadFireCoralWallFan
            | Material::DeadHornCoralBlock
            | Material::DeadHornCoralFan
            | Material::DeadHornCoralWallFan
            | Material::DeadTubeCoralBlock
            | Material::DeadTubeCoralFan
            | Material::DeadTubeCoralWallFan
            | Material::DebugStick
            | Material::DiamondHorseArmor
            | Material::DiamondShovel
            | Material::Diorite
            | Material::DolphinSpawnEgg
            | Material::DonkeySpawnEgg
            | Material::DragonBreath
            | Material::DragonHead
            | Material::DragonWallHead
            | Material::DriedKelp
            | Material::DriedKelpBlock
            | Material::DrownedSpawnEgg
            | Material::ElderGuardianSpawnEgg
            | Material::EnchantedGoldenApple
            | Material::EnchantingTable
            | Material::EndermanSpawnEgg
            | Material::EndermiteSpawnEgg
            | Material::EnderEye
            | Material::EndPortal
            | Material::EndPortalFrame
            | Material::EndStone
            | Material::EndStoneBricks
            | Material::EvokerSpawnEgg
            | Material::ExperienceBottle
            | Material::Farmland => name_in_block_16(*self),
            Material::Fern
            | Material::FilledMap
            | Material::FireworkRocket
            | Material::FireworkStar
            | Material::FireCharge
            | Material::FireCoral
            | Material::FireCoralBlock
            | Material::FireCoralFan
            | Material::FireCoralWallFan
            | Material::FurnaceMinecart
            | Material::GhastSpawnEgg
            | Material::GlassPane
            | Material::GlisteringMelonSlice
            | Material::GoldenAxe
            | Material::GoldenBoots
            | Material::GoldenChestplate
            | Material::GoldenHelmet
            | Material::GoldenHoe
            | Material::GoldenHorseArmor
            | Material::GoldenLeggings
            | Material::GoldenPickaxe
            | Material::GoldenShovel
            | Material::GoldenSword
            | Material::Granite
            | Material::GrassBlock
            | Material::GrayBanner
            | Material::GrayBed
            | Material::GrayCarpet
            | Material::GrayConcrete
            | Material::GrayConcretePowder
            | Material::GrayDye
            | Material::GrayStainedGlass
            | Material::GrayStainedGlassPane
            | Material::GrayTerracotta
            | Material::GrayWallBanner
            | Material::GrayWool
            | Material::GreenBanner
            | Material::GreenBed => name_in_block_17(*self),
            Material::GreenCarpet
            | Material::GreenConcrete
            | Material::GreenConcretePowder
            | Material::GreenStainedGlass
            | Material::GreenStainedGlassPane
            | Material::GreenTerracotta
            | Material::GreenWallBanner
            | Material::GreenWool
            | Material::GuardianSpawnEgg
            | Material::Gunpowder
            | Material::HeartOfTheSea
            | Material::HeavyWeightedPressurePlate
            | Material::HornCoral
            | Material::HornCoralBlock
            | Material::HornCoralFan
            | Material::HornCoralWallFan
            | Material::HorseSpawnEgg
            | Material::HuskSpawnEgg
            | Material::InfestedChiseledStoneBricks
            | Material::InfestedCobblestone
            | Material::InfestedCrackedStoneBricks
            | Material::InfestedMossyStoneBricks
            | Material::InfestedStone
            | Material::InfestedStoneBricks
            | Material::InkSac
            | Material::IronBars
            | Material::IronHorseArmor
            | Material::IronShovel
            | Material::JungleBoat
            | Material::JungleButton
            | Material::JungleLeaves
            | Material::JungleLog
            | Material::JunglePlanks
            | Material::JunglePressurePlate
            | Material::JungleSapling
            | Material::JungleSlab
            | Material::JungleStairs
            | Material::JungleTrapdoor => name_in_block_18(*self),
            Material::JungleWood
            | Material::Kelp
            | Material::KelpPlant
            | Material::LapisLazuli
            | Material::LargeFern
            | Material::Lead
            | Material::LightBlueBanner
            | Material::LightBlueBed
            | Material::LightBlueCarpet
            | Material::LightBlueConcrete
            | Material::LightBlueConcretePowder
            | Material::LightBlueDye
            | Material::LightBlueStainedGlass
            | Material::LightBlueStainedGlassPane
            | Material::LightBlueTerracotta
            | Material::LightBlueWallBanner
            | Material::LightBlueWool
            | Material::LightGrayBanner
            | Material::LightGrayBed
            | Material::LightGrayCarpet
            | Material::LightGrayConcrete
            | Material::LightGrayConcretePowder
            | Material::LightGrayDye
            | Material::LightGrayGlazedTerracotta
            | Material::LightGrayShulkerBox
            | Material::LightGrayStainedGlass
            | Material::LightGrayStainedGlassPane
            | Material::LightGrayTerracotta
            | Material::LightGrayWallBanner
            | Material::LightGrayWool
            | Material::LightWeightedPressurePlate
            | Material::Lilac
            | Material::LilyPad
            | Material::LimeBanner
            | Material::LimeBed
            | Material::LimeCarpet
            | Material::LimeConcrete
            | Material::LimeConcretePowder => name_in_block_19(*self),
            Material::LimeDye
            | Material::LimeStainedGlass
            | Material::LimeStainedGlassPane
            | Material::LimeTerracotta
            | Material::LimeWallBanner
            | Material::LimeWool
            | Material::LlamaSpawnEgg
            | Material::MagentaBanner
            | Material::MagentaBed
            | Material::MagentaCarpet
            | Material::MagentaConcrete
            | Material::MagentaConcretePowder
            | Material::MagentaDye
            | Material::MagentaStainedGlass
            | Material::MagentaStainedGlassPane
            | Material::MagentaTerracotta
            | Material::MagentaWallBanner
            | Material::MagentaWool
            | Material::MagmaBlock
            | Material::MagmaCubeSpawnEgg
            | Material::MelonSlice
            | Material::MooshroomSpawnEgg
            | Material::MossyCobblestoneWall
            | Material::MossyStoneBricks
            | Material::MovingPiston
            | Material::MuleSpawnEgg
            | Material::MushroomStem
            | Material::MushroomStew
            | Material::MusicDisc11
            | Material::MusicDisc13
            | Material::MusicDiscBlocks
            | Material::MusicDiscCat
            | Material::MusicDiscChirp
            | Material::MusicDiscFar
            | Material::MusicDiscMall
            | Material::MusicDiscMellohi
            | Material::MusicDiscStal
            | Material::MusicDiscStrad => name_in_block_20(*self),
            Material::MusicDiscWait
            | Material::MusicDiscWard
            | Material::Mycelium
            | Material::NautilusShell
            | Material::NetherBricks
            | Material::NetherBrickFence
            | Material::NetherBrickSlab
            | Material::NetherPortal
            | Material::NetherQuartzOre
            | Material::NetherWart
            | Material::OakBoat
            | Material::OakButton
            | Material::OakDoor
            | Material::OakFence
            | Material::OakFenceGate
            | Material::OakLeaves
            | Material::OakLog
            | Material::OakPlanks
            | Material::OakPressurePlate
            | Material::OakSapling
            | Material::OakSlab
            | Material::OakStairs
            | Material::OakTrapdoor
            | Material::OakWood
            | Material::OcelotSpawnEgg
            | Material::OrangeBanner
            | Material::OrangeBed
            | Material::OrangeCarpet
            | Material::OrangeConcrete
            | Material::OrangeConcretePowder
            | Material::OrangeDye
            | Material::OrangeStainedGlass
            | Material::OrangeStainedGlassPane
            | Material::OrangeTerracotta
            | Material::OrangeTulip
            | Material::OrangeWallBanner
            | Material::OrangeWool
            | Material::OxeyeDaisy => name_in_block_21(*self),
            Material::ParrotSpawnEgg
            | Material::Peony
            | Material::PetrifiedOakSlab
            | Material::PhantomMembrane
            | Material::PhantomSpawnEgg
            | Material::PigSpawnEgg
            | Material::PinkBanner
            | Material::PinkBed
            | Material::PinkCarpet
            | Material::PinkConcrete
            | Material::PinkConcretePowder
            | Material::PinkDye
            | Material::PinkStainedGlass
            | Material::PinkStainedGlassPane
            | Material::PinkTerracotta
            | Material::PinkTulip
            | Material::PinkWallBanner
            | Material::PinkWool
            | Material::Piston
            | Material::PistonHead
            | Material::PlayerHead
            | Material::PlayerWallHead
            | Material::Podzol
            | Material::PolarBearSpawnEgg
            | Material::PolishedAndesite
            | Material::PolishedDiorite
            | Material::PolishedGranite
            | Material::PoppedChorusFruit
            | Material::Poppy
            | Material::Porkchop
            | Material::Potatoes
            | Material::PottedAcaciaSapling
            | Material::PottedAllium
            | Material::PottedAzureBluet
            | Material::PottedBirchSapling
            | Material::PottedBlueOrchid
            | Material::PottedBrownMushroom
            | Material::PottedCactus => name_in_block_22(*self),
            Material::PottedDandelion
            | Material::PottedDarkOakSapling
            | Material::PottedDeadBush
            | Material::PottedFern
            | Material::PottedJungleSapling
            | Material::PottedOakSapling
            | Material::PottedOrangeTulip
            | Material::PottedOxeyeDaisy
            | Material::PottedPinkTulip
            | Material::PottedPoppy
            | Material::PottedRedMushroom
            | Material::PottedRedTulip
            | Material::PottedSpruceSapling
            | Material::PottedWhiteTulip
            | Material::PrismarineBricks
            | Material::PrismarineBrickSlab
            | Material::PrismarineBrickStairs
            | Material::PrismarineSlab
            | Material::PrismarineStairs
            | Material::Pufferfish
            | Material::PufferfishBucket
            | Material::PufferfishSpawnEgg
            | Material::PurpleBanner
            | Material::PurpleBed
            | Material::PurpleCarpet
            | Material::PurpleConcrete
            | Material::PurpleConcretePowder
            | Material::PurpleDye
            | Material::PurpleStainedGlass
            | Material::PurpleStainedGlassPane
            | Material::PurpleTerracotta
            | Material::PurpleWallBanner
            | Material::PurpleWool
            | Material::QuartzPillar
            | Material::QuartzSlab
            | Material::RabbitSpawnEgg
            | Material::Rail
            | Material::RedstoneLamp => name_in_block_23(*self),
            Material::RedstoneTorch
            | Material::RedstoneWallTorch
            | Material::RedBanner
            | Material::RedBed
            | Material::RedCarpet
            | Material::RedConcrete
            | Material::RedConcretePowder
            | Material::RedMushroomBlock
            | Material::RedNetherBricks
            | Material::RedSand
            | Material::RedSandstoneSlab
            | Material::RedStainedGlass
            | Material::RedStainedGlassPane
            | Material::RedTerracotta
            | Material::RedTulip
            | Material::RedWallBanner
            | Material::RedWool
            | Material::Repeater
            | Material::RepeatingCommandBlock
            | Material::RoseBush
            | Material::RoseRed
            | Material::Salmon
            | Material::SalmonBucket
            | Material::SalmonSpawnEgg
            | Material::SandstoneSlab
            | Material::Scute
            | Material::Seagrass
            | Material::SeaPickle
            | Material::SheepSpawnEgg
            | Material::ShulkerBox
            | Material::ShulkerSpawnEgg
            | Material::SilverfishSpawnEgg
            | Material::SkeletonHorseSpawnEgg
            | Material::SkeletonSkull
            | Material::SkeletonSpawnEgg
            | Material::SkeletonWallSkull
            | Material::SlimeSpawnEgg
            | Material::SmoothQuartz => name_in_block_24(*self),
            Material::SmoothRedSandstone
            | Material::SmoothSandstone
            | Material::SmoothStone
            | Material::Snowball
            | Material::Spawner
            | Material::SpiderSpawnEgg
            | Material::SpruceBoat
            | Material::SpruceButton
            | Material::SpruceLeaves
            | Material::SpruceLog
            | Material::SprucePlanks
            | Material::SprucePressurePlate
            | Material::SpruceSapling
            | Material::SpruceSlab
            | Material::SpruceStairs
            | Material::SpruceTrapdoor
            | Material::SpruceWood
            | Material::SquidSpawnEgg
            | Material::StickyPiston
            | Material::StoneBricks
            | Material::StoneBrickSlab
            | Material::StoneBrickStairs
            | Material::StonePressurePlate
            | Material::StoneShovel
            | Material::StoneSlab
            | Material::StraySpawnEgg
            | Material::StrippedAcaciaLog
            | Material::StrippedAcaciaWood
            | Material::StrippedBirchLog
            | Material::StrippedBirchWood
            | Material::StrippedDarkOakLog
            | Material::StrippedDarkOakWood
            | Material::StrippedJungleLog
            | Material::StrippedJungleWood
            | Material::StrippedOakLog
            | Material::StrippedOakWood
            | Material::StrippedSpruceLog
            | Material::StrippedSpruceWood => name_in_block_25(*self),
            Material::Sunflower
            | Material::TallGrass
            | Material::TallSeagrass
            | Material::Terracotta
            | Material::TntMinecart
            | Material::TotemOfUndying
            | Material::Trident
            | Material::TropicalFish
            | Material::TropicalFishBucket
            | Material::TropicalFishSpawnEgg
            | Material::TubeCoral
            | Material::TubeCoralBlock
            | Material::TubeCoralFan
            | Material::TubeCoralWallFan
            | Material::TurtleEgg
            | Material::TurtleHelmet
            | Material::TurtleSpawnEgg
            | Material::VexSpawnEgg
            | Material::VillagerSpawnEgg
            | Material::VindicatorSpawnEgg
            | Material::VoidAir
            | Material::WallTorch
            | Material::WetSponge
            | Material::WheatSeeds
            | Material::WhiteBanner
            | Material::WhiteBed
            | Material::WhiteCarpet
            | Material::WhiteConcrete
            | Material::WhiteConcretePowder
            | Material::WhiteStainedGlass
            | Material::WhiteStainedGlassPane
            | Material::WhiteTerracotta
            | Material::WhiteTulip
            | Material::WhiteWallBanner
            | Material::WhiteWool
            | Material::WitchSpawnEgg
            | Material::WitherSkeletonSkull
            | Material::WitherSkeletonSpawnEgg => name_in_block_26(*self),
            Material::WitherSkeletonWallSkull
            | Material::WolfSpawnEgg
            | Material::WoodenAxe
            | Material::WoodenHoe
            | Material::WoodenPickaxe
            | Material::WoodenShovel
            | Material::WoodenSword
            | Material::WritableBook
            | Material::YellowBanner
            | Material::YellowBed
            | Material::YellowCarpet
            | Material::YellowConcrete
            | Material::YellowConcretePowder
            | Material::YellowStainedGlass
            | Material::YellowStainedGlassPane
            | Material::YellowTerracotta
            | Material::YellowWallBanner
            | Material::YellowWool
            | Material::ZombieHead
            | Material::ZombieHorseSpawnEgg
            | Material::ZombiePigmanSpawnEgg
            | Material::ZombieSpawnEgg
            | Material::ZombieVillagerSpawnEgg
            | Material::ZombieWallHead
            | Material::DeadBrainCoral
            | Material::DeadBubbleCoral
            | Material::DeadFireCoral
            | Material::DeadHornCoral
            | Material::DeadTubeCoral
            | Material::AcaciaSign
            | Material::AcaciaWallSign
            | Material::AndesiteSlab
            | Material::AndesiteStairs
            | Material::AndesiteWall
            | Material::Bamboo
            | Material::BambooSapling
            | Material::Barrel
            | Material::Bell => name_in_block_27(*self),
            Material::BirchSign
            | Material::BirchWallSign
            | Material::BlackDye
            | Material::BlastFurnace
            | Material::BlueDye
            | Material::BrickWall
            | Material::BrownDye
            | Material::Campfire
            | Material::CartographyTable
            | Material::CatSpawnEgg
            | Material::Composter
            | Material::Cornflower
            | Material::CreeperBannerPattern
            | Material::Crossbow
            | Material::CutRedSandstoneSlab
            | Material::CutSandstoneSlab
            | Material::DarkOakSign
            | Material::DarkOakWallSign
            | Material::DioriteSlab
            | Material::DioriteStairs
            | Material::DioriteWall
            | Material::EndStoneBrickSlab
            | Material::EndStoneBrickStairs
            | Material::EndStoneBrickWall
            | Material::FletchingTable
            | Material::FlowerBannerPattern
            | Material::FoxSpawnEgg
            | Material::GlobeBannerPattern
            | Material::GraniteSlab
            | Material::GraniteStairs
            | Material::GraniteWall
            | Material::GreenDye
            | Material::Grindstone
            | Material::Jigsaw
            | Material::JungleSign
            | Material::JungleWallSign
            | Material::Lantern
            | Material::LeatherHorseArmor => name_in_block_28(*self),
            Material::Lectern
            | Material::LilyOfTheValley
            | Material::Loom
            | Material::MojangBannerPattern
            | Material::MossyCobblestoneSlab
            | Material::MossyCobblestoneStairs
            | Material::MossyStoneBrickSlab
            | Material::MossyStoneBrickStairs
            | Material::MossyStoneBrickWall
            | Material::NetherBrickWall
            | Material::OakSign
            | Material::OakWallSign
            | Material::PandaSpawnEgg
            | Material::PillagerSpawnEgg
            | Material::PolishedAndesiteSlab
            | Material::PolishedAndesiteStairs
            | Material::PolishedDioriteSlab
            | Material::PolishedDioriteStairs
            | Material::PolishedGraniteSlab
            | Material::PolishedGraniteStairs
            | Material::PottedBamboo
            | Material::PottedCornflower
            | Material::PottedLilyOfTheValley
            | Material::PottedWitherRose
            | Material::PrismarineWall
            | Material::RavagerSpawnEgg
            | Material::RedDye
            | Material::RedNetherBrickSlab
            | Material::RedNetherBrickStairs
            | Material::RedNetherBrickWall
            | Material::RedSandstoneWall
            | Material::SandstoneWall
            | Material::Scaffolding
            | Material::SkullBannerPattern
            | Material::SmithingTable
            | Material::Smoker
            | Material::SmoothQuartzSlab
            | Material::SmoothQuartzStairs => name_in_block_29(*self),
            Material::SmoothRedSandstoneSlab
            | Material::SmoothRedSandstoneStairs
            | Material::SmoothSandstoneSlab
            | Material::SmoothSandstoneStairs
            | Material::SmoothStoneSlab
            | Material::SpruceSign
            | Material::SpruceWallSign
            | Material::Stonecutter
            | Material::StoneBrickWall
            | Material::StoneStairs
            | Material::SuspiciousStew
            | Material::SweetBerries
            | Material::SweetBerryBush
            | Material::TraderLlamaSpawnEgg
            | Material::WanderingTraderSpawnEgg
            | Material::WhiteDye
            | Material::WitherRose
            | Material::YellowDye
            | Material::Beehive
            | Material::BeeNest
            | Material::BeeSpawnEgg
            | Material::Honeycomb
            | Material::HoneycombBlock
            | Material::HoneyBlock
            | Material::HoneyBottle
            | Material::AncientDebris
            | Material::Basalt
            | Material::Blackstone
            | Material::BlackstoneSlab
            | Material::BlackstoneStairs
            | Material::BlackstoneWall
            | Material::Chain
            | Material::ChiseledNetherBricks
            | Material::ChiseledPolishedBlackstone
            | Material::CrackedNetherBricks
            | Material::CrackedPolishedBlackstoneBricks
            | Material::CrimsonButton
            | Material::CrimsonDoor => name_in_block_30(*self),
            Material::CrimsonFence
            | Material::CrimsonFenceGate
            | Material::CrimsonFungus
            | Material::CrimsonHyphae
            | Material::CrimsonNylium
            | Material::CrimsonPlanks
            | Material::CrimsonPressurePlate
            | Material::CrimsonRoots
            | Material::CrimsonSign
            | Material::CrimsonSlab
            | Material::CrimsonStairs
            | Material::CrimsonStem
            | Material::CrimsonTrapdoor
            | Material::CrimsonWallSign
            | Material::CryingObsidian
            | Material::GildedBlackstone
            | Material::HoglinSpawnEgg
            | Material::Lodestone
            | Material::MusicDiscPigstep
            | Material::NetheriteAxe
            | Material::NetheriteBlock
            | Material::NetheriteBoots
            | Material::NetheriteChestplate
            | Material::NetheriteHelmet
            | Material::NetheriteHoe
            | Material::NetheriteIngot
            | Material::NetheriteLeggings
            | Material::NetheritePickaxe
            | Material::NetheriteScrap
            | Material::NetheriteShovel
            | Material::NetheriteSword
            | Material::NetherGoldOre
            | Material::NetherSprouts
            | Material::PiglinBannerPattern
            | Material::PiglinSpawnEgg
            | Material::PolishedBasalt
            | Material::PolishedBlackstone
            | Material::PolishedBlackstoneBricks => name_in_block_31(*self),
            Material::PolishedBlackstoneBrickSlab
            | Material::PolishedBlackstoneBrickStairs
            | Material::PolishedBlackstoneBrickWall
            | Material::PolishedBlackstoneButton
            | Material::PolishedBlackstonePressurePlate
            | Material::PolishedBlackstoneSlab
            | Material::PolishedBlackstoneStairs
            | Material::PolishedBlackstoneWall
            | Material::PottedCrimsonFungus
            | Material::PottedCrimsonRoots
            | Material::PottedWarpedFungus
            | Material::PottedWarpedRoots
            | Material::QuartzBricks
            | Material::RespawnAnchor
            | Material::Shroomlight
            | Material::SoulCampfire
            | Material::SoulFire
            | Material::SoulLantern
            | Material::SoulSoil
            | Material::SoulTorch
            | Material::SoulWallTorch
            | Material::StriderSpawnEgg
            | Material::StrippedCrimsonHyphae
            | Material::StrippedCrimsonStem
            | Material::StrippedWarpedHyphae
            | Material::StrippedWarpedStem
            | Material::Target
            | Material::TwistingVines
            | Material::TwistingVinesPlant
            | Material::WarpedButton
            | Material::WarpedDoor
            | Material::WarpedFence
            | Material::WarpedFenceGate
            | Material::WarpedFungus
            | Material::WarpedFungusOnAStick
            | Material::WarpedHyphae
            | Material::WarpedNylium
            | Material::WarpedPlanks => name_in_block_32(*self),
            Material::WarpedPressurePlate
            | Material::WarpedRoots
            | Material::WarpedSign
            | Material::WarpedSlab
            | Material::WarpedStairs
            | Material::WarpedStem
            | Material::WarpedTrapdoor
            | Material::WarpedWallSign
            | Material::WarpedWartBlock
            | Material::WeepingVines
            | Material::WeepingVinesPlant
            | Material::ZoglinSpawnEgg
            | Material::ZombifiedPiglinSpawnEgg
            | Material::PiglinBruteSpawnEgg
            | Material::Deepslate
            | Material::CobbledDeepslate
            | Material::PolishedDeepslate
            | Material::Calcite
            | Material::Tuff
            | Material::DripstoneBlock
            | Material::RootedDirt
            | Material::DeepslateCoalOre
            | Material::DeepslateIronOre
            | Material::CopperOre
            | Material::DeepslateCopperOre
            | Material::DeepslateGoldOre
            | Material::DeepslateRedstoneOre
            | Material::DeepslateEmeraldOre
            | Material::DeepslateLapisOre
            | Material::DeepslateDiamondOre
            | Material::RawIronBlock
            | Material::RawCopperBlock
            | Material::RawGoldBlock
            | Material::AmethystBlock
            | Material::BuddingAmethyst
            | Material::CopperBlock
            | Material::ExposedCopper
            | Material::WeatheredCopper => name_in_block_33(*self),
            Material::OxidizedCopper
            | Material::CutCopper
            | Material::ExposedCutCopper
            | Material::WeatheredCutCopper
            | Material::OxidizedCutCopper
            | Material::CutCopperStairs
            | Material::ExposedCutCopperStairs
            | Material::WeatheredCutCopperStairs
            | Material::OxidizedCutCopperStairs
            | Material::CutCopperSlab
            | Material::ExposedCutCopperSlab
            | Material::WeatheredCutCopperSlab
            | Material::OxidizedCutCopperSlab
            | Material::WaxedCopperBlock
            | Material::WaxedExposedCopper
            | Material::WaxedWeatheredCopper
            | Material::WaxedOxidizedCopper
            | Material::WaxedCutCopper
            | Material::WaxedExposedCutCopper
            | Material::WaxedWeatheredCutCopper
            | Material::WaxedOxidizedCutCopper
            | Material::WaxedCutCopperStairs
            | Material::WaxedExposedCutCopperStairs
            | Material::WaxedWeatheredCutCopperStairs
            | Material::WaxedOxidizedCutCopperStairs
            | Material::WaxedCutCopperSlab
            | Material::WaxedExposedCutCopperSlab
            | Material::WaxedWeatheredCutCopperSlab
            | Material::WaxedOxidizedCutCopperSlab
            | Material::AzaleaLeaves
            | Material::FloweringAzaleaLeaves
            | Material::TintedGlass
            | Material::Azalea
            | Material::FloweringAzalea
            | Material::SporeBlossom
            | Material::MossCarpet
            | Material::MossBlock
            | Material::HangingRoots => name_in_block_34(*self),
            Material::BigDripleaf
            | Material::SmallDripleaf
            | Material::SmoothBasalt
            | Material::InfestedDeepslate
            | Material::DeepslateBricks
            | Material::CrackedDeepslateBricks
            | Material::DeepslateTiles
            | Material::CrackedDeepslateTiles
            | Material::ChiseledDeepslate
            | Material::GlowLichen
            | Material::CobbledDeepslateWall
            | Material::PolishedDeepslateWall
            | Material::DeepslateBrickWall
            | Material::DeepslateTileWall
            | Material::Light
            | Material::DirtPath
            | Material::CobbledDeepslateStairs
            | Material::PolishedDeepslateStairs
            | Material::DeepslateBrickStairs
            | Material::DeepslateTileStairs
            | Material::CobbledDeepslateSlab
            | Material::PolishedDeepslateSlab
            | Material::DeepslateBrickSlab
            | Material::DeepslateTileSlab
            | Material::LightningRod
            | Material::SculkSensor
            | Material::AmethystShard
            | Material::RawIron
            | Material::RawCopper
            | Material::CopperIngot
            | Material::RawGold
            | Material::PowderSnowBucket
            | Material::AxolotlBucket
            | Material::Bundle
            | Material::Spyglass
            | Material::GlowInkSac
            | Material::AxolotlSpawnEgg
            | Material::GlowSquidSpawnEgg => name_in_block_35(*self),
            Material::GoatSpawnEgg
            | Material::GlowItemFrame
            | Material::GlowBerries
            | Material::Candle
            | Material::WhiteCandle
            | Material::OrangeCandle
            | Material::MagentaCandle
            | Material::LightBlueCandle
            | Material::YellowCandle
            | Material::LimeCandle
            | Material::PinkCandle
            | Material::GrayCandle
            | Material::LightGrayCandle
            | Material::CyanCandle
            | Material::PurpleCandle
            | Material::BlueCandle
            | Material::BrownCandle
            | Material::GreenCandle
            | Material::RedCandle
            | Material::BlackCandle
            | Material::SmallAmethystBud
            | Material::MediumAmethystBud
            | Material::LargeAmethystBud
            | Material::AmethystCluster
            | Material::PointedDripstone
            | Material::WaterCauldron
            | Material::LavaCauldron
            | Material::PowderSnowCauldron
            | Material::CandleCake
            | Material::WhiteCandleCake
            | Material::OrangeCandleCake
            | Material::MagentaCandleCake
            | Material::LightBlueCandleCake
            | Material::YellowCandleCake
            | Material::LimeCandleCake
            | Material::PinkCandleCake
            | Material::GrayCandleCake
            | Material::LightGrayCandleCake => name_in_block_36(*self),
            Material::CyanCandleCake
            | Material::PurpleCandleCake
            | Material::BlueCandleCake
            | Material::BrownCandleCake
            | Material::GreenCandleCake
            | Material::RedCandleCake
            | Material::BlackCandleCake
            | Material::PowderSnow
            | Material::CaveVines
            | Material::CaveVinesPlant
            | Material::BigDripleafStem
            | Material::PottedAzaleaBush
            | Material::PottedFloweringAzaleaBush => name_in_block_37(*self),
        }
    }
}

} // verus!
