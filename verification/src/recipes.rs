//! The closed enumeration of recipes.

use crate::enumeration::Enumeration;
use vstd::prelude::*;

verus! {

/// A recipe identifier.  The definition of each recipe lives in the
/// recipe table.
#[derive(Clone, Copy, Debug, PartialEq, Eq, Structural)]
pub enum Recipe {
    IronSmelting,
    MagnetSmelting,
    CopperSmelting,
    StoneSmelting,
    Gear,
    Electromagnet,
    WindTurbine,
    TeslaTower,
    ElectromagneticMatrix,
    MatrixLab,
    Prism,
    PlasmaExciter,
    WirelessPowerTower,
    OilExtractor,
    OilRefinery,
    PlasmaRefining,
    GraphiteSmelting,
    EnergyMatrix,
    HydrogenFuelRod,
    Thruster,
    ReinforcedThruster,
    ChemicalPlant,
    Plastic,
    SulfuricAcidFromStone,
    OrganicCrystalFromPlastic,
    TitaniumCrystal,
    StructureMatrix,
    CasimirCrystalFromTitanium,
    CasimirCrystalFromOpticalGratingCrystal,
    TitaniumGlass,
    GrapheneFromGraphiteAndSulfuric,
    GrapheneFromFireIce,
    CarbonNanotubeFromGraphene,
    SiliconOreFromStone,
    CarbonNanotubeFromSpiniform,
    ParticleBroadband,
    CrystalSiliconFromIngot,
    PlaneFilter,
    MiniatureParticleCollider,
    DeuteriumInParticleCollider,
    DeuteronFuelRod,
    AnnihilationConstraintSphere,
    ArtificialStar,
    AntimatterFuelRod,
    AssemblingMachineMK1,
    AssemblingMachineMK2,
    AssemblingMachineMK3,
    MiningMachine,
    WaterPump,
    CircuitBoard,
    Processor,
    QuantumChip,
    MicrocrystallineComponent,
    OrganicCrystalFromWood,
    InformationMatrix,
    Smelter,
    GlassSmelting,
    XRayCracking,
    SiliconSmelting,
    DiamondFromGraphite,
    DiamondFromKimberlite,
    CrystalSiliconFromFractal,
    SteelSmelting,
    ThermalPowerStation,
    TitaniumSmelting,
    TitaniumAlloy,
    SolarPanel,
    PhotonCombinerFromPrism,
    PhotonCombinerFromCrystal,
    EMRailEjector,
    RayReceiver,
    SatelliteSubstation,
    DiracInversion,
    UniverseMatrix,
    Accumulator,
    EnergyExchanger,
    SpaceWarperFromLens,
    SpaceWarperFromMatrix,
    FrameMaterial,
    DysonSphereComponent,
    VerticalLaunchingSilo,
    SmallCarrierRocket,
    ConveyorMK1,
    SorterMK1,
    StorageMK1,
    Splitter,
    SorterMK2,
    ConveyorMK2,
    SorterMK3,
    StorageMK2,
    ConveyorMK3,
    PlanetaryLogisticsStation,
    LogisticsDrone,
    InterstellarLogisticsStation,
    LogisticsVessel,
    Motor,
    ElectromagneticTurbine,
    ParticleContainerFromEMTurbine,
    ParticleContainerFromUnipolar,
    GravitonLens,
    GravityMatrix,
    SuperMagneticRing,
    StrangeMatter,
    Fractionator,
    OrbitCollector,
    Foundation,
    StorageTank,
    DeuteriumFractionation,
    IronMining,
    CopperMining,
    SiliconMining,
    TitaniumMining,
    StoneMining,
    CoalMining,
    FireIceMining,
    DiamondMining,
    FractalSiliconMining,
    OrganicCrystalMining,
    OpticalGratingCrystalMining,
    SpiniformStalagmiteCrystalMining,
    UnipolarMagnetMining,
    OilExtraction,
    CriticalPhotonReceiving,
    WaterPumping,
    SulfuricAcidPumping,
    GasGiantCollection,
    IceGiantCollection,
}

impl Enumeration for Recipe {
    open spec fn count_spec() -> int {
        127
    }

    open spec fn index_spec(self) -> int {
        match self {
            Recipe::IronSmelting => 0,
            Recipe::MagnetSmelting => 1,
            Recipe::CopperSmelting => 2,
            Recipe::StoneSmelting => 3,
            Recipe::Gear => 4,
            Recipe::Electromagnet => 5,
            Recipe::WindTurbine => 6,
            Recipe::TeslaTower => 7,
            Recipe::ElectromagneticMatrix => 8,
            Recipe::MatrixLab => 9,
            Recipe::Prism => 10,
            Recipe::PlasmaExciter => 11,
            Recipe::WirelessPowerTower => 12,
            Recipe::OilExtractor => 13,
            Recipe::OilRefinery => 14,
            Recipe::PlasmaRefining => 15,
            Recipe::GraphiteSmelting => 16,
            Recipe::EnergyMatrix => 17,
            Recipe::HydrogenFuelRod => 18,
            Recipe::Thruster => 19,
            Recipe::ReinforcedThruster => 20,
            Recipe::ChemicalPlant => 21,
            Recipe::Plastic => 22,
            Recipe::SulfuricAcidFromStone => 23,
            Recipe::OrganicCrystalFromPlastic => 24,
            Recipe::TitaniumCrystal => 25,
            Recipe::StructureMatrix => 26,
            Recipe::CasimirCrystalFromTitanium => 27,
            Recipe::CasimirCrystalFromOpticalGratingCrystal => 28,
            Recipe::TitaniumGlass => 29,
            Recipe::GrapheneFromGraphiteAndSulfuric => 30,
            Recipe::GrapheneFromFireIce => 31,
            Recipe::CarbonNanotubeFromGraphene => 32,
            Recipe::SiliconOreFromStone => 33,
            Recipe::CarbonNanotubeFromSpiniform => 34,
            Recipe::ParticleBroadband => 35,
            Recipe::CrystalSiliconFromIngot => 36,
            Recipe::PlaneFilter => 37,
            Recipe::MiniatureParticleCollider => 38,
            Recipe::DeuteriumInParticleCollider => 39,
            Recipe::DeuteronFuelRod => 40,
            Recipe::AnnihilationConstraintSphere => 41,
            Recipe::ArtificialStar => 42,
            Recipe::AntimatterFuelRod => 43,
            Recipe::AssemblingMachineMK1 => 44,
            Recipe::AssemblingMachineMK2 => 45,
            Recipe::AssemblingMachineMK3 => 46,
            Recipe::MiningMachine => 47,
            Recipe::WaterPump => 48,
            Recipe::CircuitBoard => 49,
            Recipe::Processor => 50,
            Recipe::QuantumChip => 51,
            Recipe::MicrocrystallineComponent => 52,
            Recipe::OrganicCrystalFromWood => 53,
            Recipe::InformationMatrix => 54,
            Recipe::Smelter => 55,
            Recipe::GlassSmelting => 56,
            Recipe::XRayCracking => 57,
            Recipe::SiliconSmelting => 58,
            Recipe::DiamondFromGraphite => 59,
            Recipe::DiamondFromKimberlite => 60,
            Recipe::CrystalSiliconFromFractal => 61,
            Recipe::SteelSmelting => 62,
            Recipe::ThermalPowerStation => 63,
            Recipe::TitaniumSmelting => 64,
            Recipe::TitaniumAlloy => 65,
            Recipe::SolarPanel => 66,
            Recipe::PhotonCombinerFromPrism => 67,
            Recipe::PhotonCombinerFromCrystal => 68,
            Recipe::EMRailEjector => 69,
            Recipe::RayReceiver => 70,
            Recipe::SatelliteSubstation => 71,
            Recipe::DiracInversion => 72,
            Recipe::UniverseMatrix => 73,
            Recipe::Accumulator => 74,
            Recipe::EnergyExchanger => 75,
            Recipe::SpaceWarperFromLens => 76,
            Recipe::SpaceWarperFromMatrix => 77,
            Recipe::FrameMaterial => 78,
            Recipe::DysonSphereComponent => 79,
            Recipe::VerticalLaunchingSilo => 80,
            Recipe::SmallCarrierRocket => 81,
            Recipe::ConveyorMK1 => 82,
            Recipe::SorterMK1 => 83,
            Recipe::StorageMK1 => 84,
            Recipe::Splitter => 85,
            Recipe::SorterMK2 => 86,
            Recipe::ConveyorMK2 => 87,
            Recipe::SorterMK3 => 88,
            Recipe::StorageMK2 => 89,
            Recipe::ConveyorMK3 => 90,
            Recipe::PlanetaryLogisticsStation => 91,
            Recipe::LogisticsDrone => 92,
            Recipe::InterstellarLogisticsStation => 93,
            Recipe::LogisticsVessel => 94,
            Recipe::Motor => 95,
            Recipe::ElectromagneticTurbine => 96,
            Recipe::ParticleContainerFromEMTurbine => 97,
            Recipe::ParticleContainerFromUnipolar => 98,
            Recipe::GravitonLens => 99,
            Recipe::GravityMatrix => 100,
            Recipe::SuperMagneticRing => 101,
            Recipe::StrangeMatter => 102,
            Recipe::Fractionator => 103,
            Recipe::OrbitCollector => 104,
            Recipe::Foundation => 105,
            Recipe::StorageTank => 106,
            Recipe::DeuteriumFractionation => 107,
            Recipe::IronMining => 108,
            Recipe::CopperMining => 109,
            Recipe::SiliconMining => 110,
            Recipe::TitaniumMining => 111,
            Recipe::StoneMining => 112,
            Recipe::CoalMining => 113,
            Recipe::FireIceMining => 114,
            Recipe::DiamondMining => 115,
            Recipe::FractalSiliconMining => 116,
            Recipe::OrganicCrystalMining => 117,
            Recipe::OpticalGratingCrystalMining => 118,
            Recipe::SpiniformStalagmiteCrystalMining => 119,
            Recipe::UnipolarMagnetMining => 120,
            Recipe::OilExtraction => 121,
            Recipe::CriticalPhotonReceiving => 122,
            Recipe::WaterPumping => 123,
            Recipe::SulfuricAcidPumping => 124,
            Recipe::GasGiantCollection => 125,
            Recipe::IceGiantCollection => 126,
        }
    }

    open spec fn from_index_spec(i: int) -> Self {
        if i == 0 {
            Recipe::IronSmelting
        } else if i == 1 {
            Recipe::MagnetSmelting
        } else if i == 2 {
            Recipe::CopperSmelting
        } else if i == 3 {
            Recipe::StoneSmelting
        } else if i == 4 {
            Recipe::Gear
        } else if i == 5 {
            Recipe::Electromagnet
        } else if i == 6 {
            Recipe::WindTurbine
        } else if i == 7 {
            Recipe::TeslaTower
        } else if i == 8 {
            Recipe::ElectromagneticMatrix
        } else if i == 9 {
            Recipe::MatrixLab
        } else if i == 10 {
            Recipe::Prism
        } else if i == 11 {
            Recipe::PlasmaExciter
        } else if i == 12 {
            Recipe::WirelessPowerTower
        } else if i == 13 {
            Recipe::OilExtractor
        } else if i == 14 {
            Recipe::OilRefinery
        } else if i == 15 {
            Recipe::PlasmaRefining
        } else if i == 16 {
            Recipe::GraphiteSmelting
        } else if i == 17 {
            Recipe::EnergyMatrix
        } else if i == 18 {
            Recipe::HydrogenFuelRod
        } else if i == 19 {
            Recipe::Thruster
        } else if i == 20 {
            Recipe::ReinforcedThruster
        } else if i == 21 {
            Recipe::ChemicalPlant
        } else if i == 22 {
            Recipe::Plastic
        } else if i == 23 {
            Recipe::SulfuricAcidFromStone
        } else if i == 24 {
            Recipe::OrganicCrystalFromPlastic
        } else if i == 25 {
            Recipe::TitaniumCrystal
        } else if i == 26 {
            Recipe::StructureMatrix
        } else if i == 27 {
            Recipe::CasimirCrystalFromTitanium
        } else if i == 28 {
            Recipe::CasimirCrystalFromOpticalGratingCrystal
        } else if i == 29 {
            Recipe::TitaniumGlass
        } else if i == 30 {
            Recipe::GrapheneFromGraphiteAndSulfuric
        } else if i == 31 {
            Recipe::GrapheneFromFireIce
        } else if i == 32 {
            Recipe::CarbonNanotubeFromGraphene
        } else if i == 33 {
            Recipe::SiliconOreFromStone
        } else if i == 34 {
            Recipe::CarbonNanotubeFromSpiniform
        } else if i == 35 {
            Recipe::ParticleBroadband
        } else if i == 36 {
            Recipe::CrystalSiliconFromIngot
        } else if i == 37 {
            Recipe::PlaneFilter
        } else if i == 38 {
            Recipe::MiniatureParticleCollider
        } else if i == 39 {
            Recipe::DeuteriumInParticleCollider
        } else if i == 40 {
            Recipe::DeuteronFuelRod
        } else if i == 41 {
            Recipe::AnnihilationConstraintSphere
        } else if i == 42 {
            Recipe::ArtificialStar
        } else if i == 43 {
            Recipe::AntimatterFuelRod
        } else if i == 44 {
            Recipe::AssemblingMachineMK1
        } else if i == 45 {
            Recipe::AssemblingMachineMK2
        } else if i == 46 {
            Recipe::AssemblingMachineMK3
        } else if i == 47 {
            Recipe::MiningMachine
        } else if i == 48 {
            Recipe::WaterPump
        } else if i == 49 {
            Recipe::CircuitBoard
        } else if i == 50 {
            Recipe::Processor
        } else if i == 51 {
            Recipe::QuantumChip
        } else if i == 52 {
            Recipe::MicrocrystallineComponent
        } else if i == 53 {
            Recipe::OrganicCrystalFromWood
        } else if i == 54 {
            Recipe::InformationMatrix
        } else if i == 55 {
            Recipe::Smelter
        } else if i == 56 {
            Recipe::GlassSmelting
        } else if i == 57 {
            Recipe::XRayCracking
        } else if i == 58 {
            Recipe::SiliconSmelting
        } else if i == 59 {
            Recipe::DiamondFromGraphite
        } else if i == 60 {
            Recipe::DiamondFromKimberlite
        } else if i == 61 {
            Recipe::CrystalSiliconFromFractal
        } else if i == 62 {
            Recipe::SteelSmelting
        } else if i == 63 {
            Recipe::ThermalPowerStation
        } else if i == 64 {
            Recipe::TitaniumSmelting
        } else if i == 65 {
            Recipe::TitaniumAlloy
        } else if i == 66 {
            Recipe::SolarPanel
        } else if i == 67 {
            Recipe::PhotonCombinerFromPrism
        } else if i == 68 {
            Recipe::PhotonCombinerFromCrystal
        } else if i == 69 {
            Recipe::EMRailEjector
        } else if i == 70 {
            Recipe::RayReceiver
        } else if i == 71 {
            Recipe::SatelliteSubstation
        } else if i == 72 {
            Recipe::DiracInversion
        } else if i == 73 {
            Recipe::UniverseMatrix
        } else if i == 74 {
            Recipe::Accumulator
        } else if i == 75 {
            Recipe::EnergyExchanger
        } else if i == 76 {
            Recipe::SpaceWarperFromLens
        } else if i == 77 {
            Recipe::SpaceWarperFromMatrix
        } else if i == 78 {
            Recipe::FrameMaterial
        } else if i == 79 {
            Recipe::DysonSphereComponent
        } else if i == 80 {
            Recipe::VerticalLaunchingSilo
        } else if i == 81 {
            Recipe::SmallCarrierRocket
        } else if i == 82 {
            Recipe::ConveyorMK1
        } else if i == 83 {
            Recipe::SorterMK1
        } else if i == 84 {
            Recipe::StorageMK1
        } else if i == 85 {
            Recipe::Splitter
        } else if i == 86 {
            Recipe::SorterMK2
        } else if i == 87 {
            Recipe::ConveyorMK2
        } else if i == 88 {
            Recipe::SorterMK3
        } else if i == 89 {
            Recipe::StorageMK2
        } else if i == 90 {
            Recipe::ConveyorMK3
        } else if i == 91 {
            Recipe::PlanetaryLogisticsStation
        } else if i == 92 {
            Recipe::LogisticsDrone
        } else if i == 93 {
            Recipe::InterstellarLogisticsStation
        } else if i == 94 {
            Recipe::LogisticsVessel
        } else if i == 95 {
            Recipe::Motor
        } else if i == 96 {
            Recipe::ElectromagneticTurbine
        } else if i == 97 {
            Recipe::ParticleContainerFromEMTurbine
        } else if i == 98 {
            Recipe::ParticleContainerFromUnipolar
        } else if i == 99 {
            Recipe::GravitonLens
        } else if i == 100 {
            Recipe::GravityMatrix
        } else if i == 101 {
            Recipe::SuperMagneticRing
        } else if i == 102 {
            Recipe::StrangeMatter
        } else if i == 103 {
            Recipe::Fractionator
        } else if i == 104 {
            Recipe::OrbitCollector
        } else if i == 105 {
            Recipe::Foundation
        } else if i == 106 {
            Recipe::StorageTank
        } else if i == 107 {
            Recipe::DeuteriumFractionation
        } else if i == 108 {
            Recipe::IronMining
        } else if i == 109 {
            Recipe::CopperMining
        } else if i == 110 {
            Recipe::SiliconMining
        } else if i == 111 {
            Recipe::TitaniumMining
        } else if i == 112 {
            Recipe::StoneMining
        } else if i == 113 {
            Recipe::CoalMining
        } else if i == 114 {
            Recipe::FireIceMining
        } else if i == 115 {
            Recipe::DiamondMining
        } else if i == 116 {
            Recipe::FractalSiliconMining
        } else if i == 117 {
            Recipe::OrganicCrystalMining
        } else if i == 118 {
            Recipe::OpticalGratingCrystalMining
        } else if i == 119 {
            Recipe::SpiniformStalagmiteCrystalMining
        } else if i == 120 {
            Recipe::UnipolarMagnetMining
        } else if i == 121 {
            Recipe::OilExtraction
        } else if i == 122 {
            Recipe::CriticalPhotonReceiving
        } else if i == 123 {
            Recipe::WaterPumping
        } else if i == 124 {
            Recipe::SulfuricAcidPumping
        } else if i == 125 {
            Recipe::GasGiantCollection
        } else {
            Recipe::IceGiantCollection
        }
    }

    open spec fn name_spec(self) -> Seq<char> {
        match self {
            Recipe::IronSmelting => "IronSmelting"@,
            Recipe::MagnetSmelting => "MagnetSmelting"@,
            Recipe::CopperSmelting => "CopperSmelting"@,
            Recipe::StoneSmelting => "StoneSmelting"@,
            Recipe::Gear => "Gear"@,
            Recipe::Electromagnet => "Electromagnet"@,
            Recipe::WindTurbine => "WindTurbine"@,
            Recipe::TeslaTower => "TeslaTower"@,
            Recipe::ElectromagneticMatrix => "ElectromagneticMatrix"@,
            Recipe::MatrixLab => "MatrixLab"@,
            Recipe::Prism => "Prism"@,
            Recipe::PlasmaExciter => "PlasmaExciter"@,
            Recipe::WirelessPowerTower => "WirelessPowerTower"@,
            Recipe::OilExtractor => "OilExtractor"@,
            Recipe::OilRefinery => "OilRefinery"@,
            Recipe::PlasmaRefining => "PlasmaRefining"@,
            Recipe::GraphiteSmelting => "GraphiteSmelting"@,
            Recipe::EnergyMatrix => "EnergyMatrix"@,
            Recipe::HydrogenFuelRod => "HydrogenFuelRod"@,
            Recipe::Thruster => "Thruster"@,
            Recipe::ReinforcedThruster => "ReinforcedThruster"@,
            Recipe::ChemicalPlant => "ChemicalPlant"@,
            Recipe::Plastic => "Plastic"@,
            Recipe::SulfuricAcidFromStone => "SulfuricAcidFromStone"@,
            Recipe::OrganicCrystalFromPlastic => "OrganicCrystalFromPlastic"@,
            Recipe::TitaniumCrystal => "TitaniumCrystal"@,
            Recipe::StructureMatrix => "StructureMatrix"@,
            Recipe::CasimirCrystalFromTitanium => "CasimirCrystalFromTitanium"@,
            Recipe::CasimirCrystalFromOpticalGratingCrystal => "CasimirCrystalFromOpticalGratingCrystal"@,
            Recipe::TitaniumGlass => "TitaniumGlass"@,
            Recipe::GrapheneFromGraphiteAndSulfuric => "GrapheneFromGraphiteAndSulfuric"@,
            Recipe::GrapheneFromFireIce => "GrapheneFromFireIce"@,
            Recipe::CarbonNanotubeFromGraphene => "CarbonNanotubeFromGraphene"@,
            Recipe::SiliconOreFromStone => "SiliconOreFromStone"@,
            Recipe::CarbonNanotubeFromSpiniform => "CarbonNanotubeFromSpiniform"@,
            Recipe::ParticleBroadband => "ParticleBroadband"@,
            Recipe::CrystalSiliconFromIngot => "CrystalSiliconFromIngot"@,
            Recipe::PlaneFilter => "PlaneFilter"@,
            Recipe::MiniatureParticleCollider => "MiniatureParticleCollider"@,
            Recipe::DeuteriumInParticleCollider => "DeuteriumInParticleCollider"@,
            Recipe::DeuteronFuelRod => "DeuteronFuelRod"@,
            Recipe::AnnihilationConstraintSphere => "AnnihilationConstraintSphere"@,
            Recipe::ArtificialStar => "ArtificialStar"@,
            Recipe::AntimatterFuelRod => "AntimatterFuelRod"@,
            Recipe::AssemblingMachineMK1 => "AssemblingMachineMK1"@,
            Recipe::AssemblingMachineMK2 => "AssemblingMachineMK2"@,
            Recipe::AssemblingMachineMK3 => "AssemblingMachineMK3"@,
            Recipe::MiningMachine => "MiningMachine"@,
            Recipe::WaterPump => "WaterPump"@,
            Recipe::CircuitBoard => "CircuitBoard"@,
            Recipe::Processor => "Processor"@,
            Recipe::QuantumChip => "QuantumChip"@,
            Recipe::MicrocrystallineComponent => "MicrocrystallineComponent"@,
            Recipe::OrganicCrystalFromWood => "OrganicCrystalFromWood"@,
            Recipe::InformationMatrix => "InformationMatrix"@,
            Recipe::Smelter => "Smelter"@,
            Recipe::GlassSmelting => "GlassSmelting"@,
            Recipe::XRayCracking => "XRayCracking"@,
            Recipe::SiliconSmelting => "SiliconSmelting"@,
            Recipe::DiamondFromGraphite => "DiamondFromGraphite"@,
            Recipe::DiamondFromKimberlite => "DiamondFromKimberlite"@,
            Recipe::CrystalSiliconFromFractal => "CrystalSiliconFromFractal"@,
            Recipe::SteelSmelting => "SteelSmelting"@,
            Recipe::ThermalPowerStation => "ThermalPowerStation"@,
            Recipe::TitaniumSmelting => "TitaniumSmelting"@,
            Recipe::TitaniumAlloy => "TitaniumAlloy"@,
            Recipe::SolarPanel => "SolarPanel"@,
            Recipe::PhotonCombinerFromPrism => "PhotonCombinerFromPrism"@,
            Recipe::PhotonCombinerFromCrystal => "PhotonCombinerFromCrystal"@,
            Recipe::EMRailEjector => "EMRailEjector"@,
            Recipe::RayReceiver => "RayReceiver"@,
            Recipe::SatelliteSubstation => "SatelliteSubstation"@,
            Recipe::DiracInversion => "DiracInversion"@,
            Recipe::UniverseMatrix => "UniverseMatrix"@,
            Recipe::Accumulator => "Accumulator"@,
            Recipe::EnergyExchanger => "EnergyExchanger"@,
            Recipe::SpaceWarperFromLens => "SpaceWarperFromLens"@,
            Recipe::SpaceWarperFromMatrix => "SpaceWarperFromMatrix"@,
            Recipe::FrameMaterial => "FrameMaterial"@,
            Recipe::DysonSphereComponent => "DysonSphereComponent"@,
            Recipe::VerticalLaunchingSilo => "VerticalLaunchingSilo"@,
            Recipe::SmallCarrierRocket => "SmallCarrierRocket"@,
            Recipe::ConveyorMK1 => "ConveyorMK1"@,
            Recipe::SorterMK1 => "SorterMK1"@,
            Recipe::StorageMK1 => "StorageMK1"@,
            Recipe::Splitter => "Splitter"@,
            Recipe::SorterMK2 => "SorterMK2"@,
            Recipe::ConveyorMK2 => "ConveyorMK2"@,
            Recipe::SorterMK3 => "SorterMK3"@,
            Recipe::StorageMK2 => "StorageMK2"@,
            Recipe::ConveyorMK3 => "ConveyorMK3"@,
            Recipe::PlanetaryLogisticsStation => "PlanetaryLogisticsStation"@,
            Recipe::LogisticsDrone => "LogisticsDrone"@,
            Recipe::InterstellarLogisticsStation => "InterstellarLogisticsStation"@,
            Recipe::LogisticsVessel => "LogisticsVessel"@,
            Recipe::Motor => "Motor"@,
            Recipe::ElectromagneticTurbine => "ElectromagneticTurbine"@,
            Recipe::ParticleContainerFromEMTurbine => "ParticleContainerFromEMTurbine"@,
            Recipe::ParticleContainerFromUnipolar => "ParticleContainerFromUnipolar"@,
            Recipe::GravitonLens => "GravitonLens"@,
            Recipe::GravityMatrix => "GravityMatrix"@,
            Recipe::SuperMagneticRing => "SuperMagneticRing"@,
            Recipe::StrangeMatter => "StrangeMatter"@,
            Recipe::Fractionator => "Fractionator"@,
            Recipe::OrbitCollector => "OrbitCollector"@,
            Recipe::Foundation => "Foundation"@,
            Recipe::StorageTank => "StorageTank"@,
            Recipe::DeuteriumFractionation => "DeuteriumFractionation"@,
            Recipe::IronMining => "IronMining"@,
            Recipe::CopperMining => "CopperMining"@,
            Recipe::SiliconMining => "SiliconMining"@,
            Recipe::TitaniumMining => "TitaniumMining"@,
            Recipe::StoneMining => "StoneMining"@,
            Recipe::CoalMining => "CoalMining"@,
            Recipe::FireIceMining => "FireIceMining"@,
            Recipe::DiamondMining => "DiamondMining"@,
            Recipe::FractalSiliconMining => "FractalSiliconMining"@,
            Recipe::OrganicCrystalMining => "OrganicCrystalMining"@,
            Recipe::OpticalGratingCrystalMining => "OpticalGratingCrystalMining"@,
            Recipe::SpiniformStalagmiteCrystalMining => "SpiniformStalagmiteCrystalMining"@,
            Recipe::UnipolarMagnetMining => "UnipolarMagnetMining"@,
            Recipe::OilExtraction => "OilExtraction"@,
            Recipe::CriticalPhotonReceiving => "CriticalPhotonReceiving"@,
            Recipe::WaterPumping => "WaterPumping"@,
            Recipe::SulfuricAcidPumping => "SulfuricAcidPumping"@,
            Recipe::GasGiantCollection => "GasGiantCollection"@,
            Recipe::IceGiantCollection => "IceGiantCollection"@,
        }
    }

    proof fn lemma_count_positive() {
    }

    proof fn lemma_index_bounds(self) {
    }

    proof fn lemma_index_roundtrip(self) {
    }

    proof fn lemma_from_index_roundtrip(i: int) {
    }

    fn count() -> (n: usize) {
        127
    }

    fn index(self) -> (i: usize) {
        match self {
            Recipe::IronSmelting => 0,
            Recipe::MagnetSmelting => 1,
            Recipe::CopperSmelting => 2,
            Recipe::StoneSmelting => 3,
            Recipe::Gear => 4,
            Recipe::Electromagnet => 5,
            Recipe::WindTurbine => 6,
            Recipe::TeslaTower => 7,
            Recipe::ElectromagneticMatrix => 8,
            Recipe::MatrixLab => 9,
            Recipe::Prism => 10,
            Recipe::PlasmaExciter => 11,
            Recipe::WirelessPowerTower => 12,
            Recipe::OilExtractor => 13,
            Recipe::OilRefinery => 14,
            Recipe::PlasmaRefining => 15,
            Recipe::GraphiteSmelting => 16,
            Recipe::EnergyMatrix => 17,
            Recipe::HydrogenFuelRod => 18,
            Recipe::Thruster => 19,
            Recipe::ReinforcedThruster => 20,
            Recipe::ChemicalPlant => 21,
            Recipe::Plastic => 22,
            Recipe::SulfuricAcidFromStone => 23,
            Recipe::OrganicCrystalFromPlastic => 24,
            Recipe::TitaniumCrystal => 25,
            Recipe::StructureMatrix => 26,
            Recipe::CasimirCrystalFromTitanium => 27,
            Recipe::CasimirCrystalFromOpticalGratingCrystal => 28,
            Recipe::TitaniumGlass => 29,
            Recipe::GrapheneFromGraphiteAndSulfuric => 30,
            Recipe::GrapheneFromFireIce => 31,
            Recipe::CarbonNanotubeFromGraphene => 32,
            Recipe::SiliconOreFromStone => 33,
            Recipe::CarbonNanotubeFromSpiniform => 34,
            Recipe::ParticleBroadband => 35,
            Recipe::CrystalSiliconFromIngot => 36,
            Recipe::PlaneFilter => 37,
            Recipe::MiniatureParticleCollider => 38,
            Recipe::DeuteriumInParticleCollider => 39,
            Recipe::DeuteronFuelRod => 40,
            Recipe::AnnihilationConstraintSphere => 41,
            Recipe::ArtificialStar => 42,
            Recipe::AntimatterFuelRod => 43,
            Recipe::AssemblingMachineMK1 => 44,
            Recipe::AssemblingMachineMK2 => 45,
            Recipe::AssemblingMachineMK3 => 46,
            Recipe::MiningMachine => 47,
            Recipe::WaterPump => 48,
            Recipe::CircuitBoard => 49,
            Recipe::Processor => 50,
            Recipe::QuantumChip => 51,
            Recipe::MicrocrystallineComponent => 52,
            Recipe::OrganicCrystalFromWood => 53,
            Recipe::InformationMatrix => 54,
            Recipe::Smelter => 55,
            Recipe::GlassSmelting => 56,
            Recipe::XRayCracking => 57,
            Recipe::SiliconSmelting => 58,
            Recipe::DiamondFromGraphite => 59,
            Recipe::DiamondFromKimberlite => 60,
            Recipe::CrystalSiliconFromFractal => 61,
            Recipe::SteelSmelting => 62,
            Recipe::ThermalPowerStation => 63,
            Recipe::TitaniumSmelting => 64,
            Recipe::TitaniumAlloy => 65,
            Recipe::SolarPanel => 66,
            Recipe::PhotonCombinerFromPrism => 67,
            Recipe::PhotonCombinerFromCrystal => 68,
            Recipe::EMRailEjector => 69,
            Recipe::RayReceiver => 70,
            Recipe::SatelliteSubstation => 71,
            Recipe::DiracInversion => 72,
            Recipe::UniverseMatrix => 73,
            Recipe::Accumulator => 74,
            Recipe::EnergyExchanger => 75,
            Recipe::SpaceWarperFromLens => 76,
            Recipe::SpaceWarperFromMatrix => 77,
            Recipe::FrameMaterial => 78,
            Recipe::DysonSphereComponent => 79,
            Recipe::VerticalLaunchingSilo => 80,
            Recipe::SmallCarrierRocket => 81,
            Recipe::ConveyorMK1 => 82,
            Recipe::SorterMK1 => 83,
            Recipe::StorageMK1 => 84,
            Recipe::Splitter => 85,
            Recipe::SorterMK2 => 86,
            Recipe::ConveyorMK2 => 87,
            Recipe::SorterMK3 => 88,
            Recipe::StorageMK2 => 89,
            Recipe::ConveyorMK3 => 90,
            Recipe::PlanetaryLogisticsStation => 91,
            Recipe::LogisticsDrone => 92,
            Recipe::InterstellarLogisticsStation => 93,
            Recipe::LogisticsVessel => 94,
            Recipe::Motor => 95,
            Recipe::ElectromagneticTurbine => 96,
            Recipe::ParticleContainerFromEMTurbine => 97,
            Recipe::ParticleContainerFromUnipolar => 98,
            Recipe::GravitonLens => 99,
            Recipe::GravityMatrix => 100,
            Recipe::SuperMagneticRing => 101,
            Recipe::StrangeMatter => 102,
            Recipe::Fractionator => 103,
            Recipe::OrbitCollector => 104,
            Recipe::Foundation => 105,
            Recipe::StorageTank => 106,
            Recipe::DeuteriumFractionation => 107,
            Recipe::IronMining => 108,
            Recipe::CopperMining => 109,
            Recipe::SiliconMining => 110,
            Recipe::TitaniumMining => 111,
            Recipe::StoneMining => 112,
            Recipe::CoalMining => 113,
            Recipe::FireIceMining => 114,
            Recipe::DiamondMining => 115,
            Recipe::FractalSiliconMining => 116,
            Recipe::OrganicCrystalMining => 117,
            Recipe::OpticalGratingCrystalMining => 118,
            Recipe::SpiniformStalagmiteCrystalMining => 119,
            Recipe::UnipolarMagnetMining => 120,
            Recipe::OilExtraction => 121,
            Recipe::CriticalPhotonReceiving => 122,
            Recipe::WaterPumping => 123,
            Recipe::SulfuricAcidPumping => 124,
            Recipe::GasGiantCollection => 125,
            Recipe::IceGiantCollection => 126,
        }
    }

    fn from_index(i: usize) -> (e: Self) {
        match i {
            0 => Recipe::IronSmelting,
            1 => Recipe::MagnetSmelting,
            2 => Recipe::CopperSmelting,
            3 => Recipe::StoneSmelting,
            4 => Recipe::Gear,
            5 => Recipe::Electromagnet,
            6 => Recipe::WindTurbine,
            7 => Recipe::TeslaTower,
            8 => Recipe::ElectromagneticMatrix,
            9 => Recipe::MatrixLab,
            10 => Recipe::Prism,
            11 => Recipe::PlasmaExciter,
            12 => Recipe::WirelessPowerTower,
            13 => Recipe::OilExtractor,
            14 => Recipe::OilRefinery,
            15 => Recipe::PlasmaRefining,
            16 => Recipe::GraphiteSmelting,
            17 => Recipe::EnergyMatrix,
            18 => Recipe::HydrogenFuelRod,
            19 => Recipe::Thruster,
            20 => Recipe::ReinforcedThruster,
            21 => Recipe::ChemicalPlant,
            22 => Recipe::Plastic,
            23 => Recipe::SulfuricAcidFromStone,
            24 => Recipe::OrganicCrystalFromPlastic,
            25 => Recipe::TitaniumCrystal,
            26 => Recipe::StructureMatrix,
            27 => Recipe::CasimirCrystalFromTitanium,
            28 => Recipe::CasimirCrystalFromOpticalGratingCrystal,
            29 => Recipe::TitaniumGlass,
            30 => Recipe::GrapheneFromGraphiteAndSulfuric,
            31 => Recipe::GrapheneFromFireIce,
            32 => Recipe::CarbonNanotubeFromGraphene,
            33 => Recipe::SiliconOreFromStone,
            34 => Recipe::CarbonNanotubeFromSpiniform,
            35 => Recipe::ParticleBroadband,
            36 => Recipe::CrystalSiliconFromIngot,
            37 => Recipe::PlaneFilter,
            38 => Recipe::MiniatureParticleCollider,
            39 => Recipe::DeuteriumInParticleCollider,
            40 => Recipe::DeuteronFuelRod,
            41 => Recipe::AnnihilationConstraintSphere,
            42 => Recipe::ArtificialStar,
            43 => Recipe::AntimatterFuelRod,
            44 => Recipe::AssemblingMachineMK1,
            45 => Recipe::AssemblingMachineMK2,
            46 => Recipe::AssemblingMachineMK3,
            47 => Recipe::MiningMachine,
            48 => Recipe::WaterPump,
            49 => Recipe::CircuitBoard,
            50 => Recipe::Processor,
            51 => Recipe::QuantumChip,
            52 => Recipe::MicrocrystallineComponent,
            53 => Recipe::OrganicCrystalFromWood,
            54 => Recipe::InformationMatrix,
            55 => Recipe::Smelter,
            56 => Recipe::GlassSmelting,
            57 => Recipe::XRayCracking,
            58 => Recipe::SiliconSmelting,
            59 => Recipe::DiamondFromGraphite,
            60 => Recipe::DiamondFromKimberlite,
            61 => Recipe::CrystalSiliconFromFractal,
            62 => Recipe::SteelSmelting,
            63 => Recipe::ThermalPowerStation,
            64 => Recipe::TitaniumSmelting,
            65 => Recipe::TitaniumAlloy,
            66 => Recipe::SolarPanel,
            67 => Recipe::PhotonCombinerFromPrism,
            68 => Recipe::PhotonCombinerFromCrystal,
            69 => Recipe::EMRailEjector,
            70 => Recipe::RayReceiver,
            71 => Recipe::SatelliteSubstation,
            72 => Recipe::DiracInversion,
            73 => Recipe::UniverseMatrix,
            74 => Recipe::Accumulator,
            75 => Recipe::EnergyExchanger,
            76 => Recipe::SpaceWarperFromLens,
            77 => Recipe::SpaceWarperFromMatrix,
            78 => Recipe::FrameMaterial,
            79 => Recipe::DysonSphereComponent,
            80 => Recipe::VerticalLaunchingSilo,
            81 => Recipe::SmallCarrierRocket,
            82 => Recipe::ConveyorMK1,
            83 => Recipe::SorterMK1,
            84 => Recipe::StorageMK1,
            85 => Recipe::Splitter,
            86 => Recipe::SorterMK2,
            87 => Recipe::ConveyorMK2,
            88 => Recipe::SorterMK3,
            89 => Recipe::StorageMK2,
            90 => Recipe::ConveyorMK3,
            91 => Recipe::PlanetaryLogisticsStation,
            92 => Recipe::LogisticsDrone,
            93 => Recipe::InterstellarLogisticsStation,
            94 => Recipe::LogisticsVessel,
            95 => Recipe::Motor,
            96 => Recipe::ElectromagneticTurbine,
            97 => Recipe::ParticleContainerFromEMTurbine,
            98 => Recipe::ParticleContainerFromUnipolar,
            99 => Recipe::GravitonLens,
            100 => Recipe::GravityMatrix,
            101 => Recipe::SuperMagneticRing,
            102 => Recipe::StrangeMatter,
            103 => Recipe::Fractionator,
            104 => Recipe::OrbitCollector,
            105 => Recipe::Foundation,
            106 => Recipe::StorageTank,
            107 => Recipe::DeuteriumFractionation,
            108 => Recipe::IronMining,
            109 => Recipe::CopperMining,
            110 => Recipe::SiliconMining,
            111 => Recipe::TitaniumMining,
            112 => Recipe::StoneMining,
            113 => Recipe::CoalMining,
            114 => Recipe::FireIceMining,
            115 => Recipe::DiamondMining,
            116 => Recipe::FractalSiliconMining,
            117 => Recipe::OrganicCrystalMining,
            118 => Recipe::OpticalGratingCrystalMining,
            119 => Recipe::SpiniformStalagmiteCrystalMining,
            120 => Recipe::UnipolarMagnetMining,
            121 => Recipe::OilExtraction,
            122 => Recipe::CriticalPhotonReceiving,
            123 => Recipe::WaterPumping,
            124 => Recipe::SulfuricAcidPumping,
            125 => Recipe::GasGiantCollection,
            _ => Recipe::IceGiantCollection,
        }
    }

    fn name(self) -> (s: &'static str) {
        match self {
            Recipe::IronSmelting => "IronSmelting",
            Recipe::MagnetSmelting => "MagnetSmelting",
            Recipe::CopperSmelting => "CopperSmelting",
            Recipe::StoneSmelting => "StoneSmelting",
            Recipe::Gear => "Gear",
            Recipe::Electromagnet => "Electromagnet",
            Recipe::WindTurbine => "WindTurbine",
            Recipe::TeslaTower => "TeslaTower",
            Recipe::ElectromagneticMatrix => "ElectromagneticMatrix",
            Recipe::MatrixLab => "MatrixLab",
            Recipe::Prism => "Prism",
            Recipe::PlasmaExciter => "PlasmaExciter",
            Recipe::WirelessPowerTower => "WirelessPowerTower",
            Recipe::OilExtractor => "OilExtractor",
            Recipe::OilRefinery => "OilRefinery",
            Recipe::PlasmaRefining => "PlasmaRefining",
            Recipe::GraphiteSmelting => "GraphiteSmelting",
            Recipe::EnergyMatrix => "EnergyMatrix",
            Recipe::HydrogenFuelRod => "HydrogenFuelRod",
            Recipe::Thruster => "Thruster",
            Recipe::ReinforcedThruster => "ReinforcedThruster",
            Recipe::ChemicalPlant => "ChemicalPlant",
            Recipe::Plastic => "Plastic",
            Recipe::SulfuricAcidFromStone => "SulfuricAcidFromStone",
            Recipe::OrganicCrystalFromPlastic => "OrganicCrystalFromPlastic",
            Recipe::TitaniumCrystal => "TitaniumCrystal",
            Recipe::StructureMatrix => "StructureMatrix",
            Recipe::CasimirCrystalFromTitanium => "CasimirCrystalFromTitanium",
            Recipe::CasimirCrystalFromOpticalGratingCrystal => "CasimirCrystalFromOpticalGratingCrystal",
            Recipe::TitaniumGlass => "TitaniumGlass",
            Recipe::GrapheneFromGraphiteAndSulfuric => "GrapheneFromGraphiteAndSulfuric",
            Recipe::GrapheneFromFireIce => "GrapheneFromFireIce",
            Recipe::CarbonNanotubeFromGraphene => "CarbonNanotubeFromGraphene",
            Recipe::SiliconOreFromStone => "SiliconOreFromStone",
            Recipe::CarbonNanotubeFromSpiniform => "CarbonNanotubeFromSpiniform",
            Recipe::ParticleBroadband => "ParticleBroadband",
            Recipe::CrystalSiliconFromIngot => "CrystalSiliconFromIngot",
            Recipe::PlaneFilter => "PlaneFilter",
            Recipe::MiniatureParticleCollider => "MiniatureParticleCollider",
            Recipe::DeuteriumInParticleCollider => "DeuteriumInParticleCollider",
            Recipe::DeuteronFuelRod => "DeuteronFuelRod",
            Recipe::AnnihilationConstraintSphere => "AnnihilationConstraintSphere",
            Recipe::ArtificialStar => "ArtificialStar",
            Recipe::AntimatterFuelRod => "AntimatterFuelRod",
            Recipe::AssemblingMachineMK1 => "AssemblingMachineMK1",
            Recipe::AssemblingMachineMK2 => "AssemblingMachineMK2",
            Recipe::AssemblingMachineMK3 => "AssemblingMachineMK3",
            Recipe::MiningMachine => "MiningMachine",
            Recipe::WaterPump => "WaterPump",
            Recipe::CircuitBoard => "CircuitBoard",
            Recipe::Processor => "Processor",
            Recipe::QuantumChip => "QuantumChip",
            Recipe::MicrocrystallineComponent => "MicrocrystallineComponent",
            Recipe::OrganicCrystalFromWood => "OrganicCrystalFromWood",
            Recipe::InformationMatrix => "InformationMatrix",
            Recipe::Smelter => "Smelter",
            Recipe::GlassSmelting => "GlassSmelting",
            Recipe::XRayCracking => "XRayCracking",
            Recipe::SiliconSmelting => "SiliconSmelting",
            Recipe::DiamondFromGraphite => "DiamondFromGraphite",
            Recipe::DiamondFromKimberlite => "DiamondFromKimberlite",
            Recipe::CrystalSiliconFromFractal => "CrystalSiliconFromFractal",
            Recipe::SteelSmelting => "SteelSmelting",
            Recipe::ThermalPowerStation => "ThermalPowerStation",
            Recipe::TitaniumSmelting => "TitaniumSmelting",
            Recipe::TitaniumAlloy => "TitaniumAlloy",
            Recipe::SolarPanel => "SolarPanel",
            Recipe::PhotonCombinerFromPrism => "PhotonCombinerFromPrism",
            Recipe::PhotonCombinerFromCrystal => "PhotonCombinerFromCrystal",
            Recipe::EMRailEjector => "EMRailEjector",
            Recipe::RayReceiver => "RayReceiver",
            Recipe::SatelliteSubstation => "SatelliteSubstation",
            Recipe::DiracInversion => "DiracInversion",
            Recipe::UniverseMatrix => "UniverseMatrix",
            Recipe::Accumulator => "Accumulator",
            Recipe::EnergyExchanger => "EnergyExchanger",
            Recipe::SpaceWarperFromLens => "SpaceWarperFromLens",
            Recipe::SpaceWarperFromMatrix => "SpaceWarperFromMatrix",
            Recipe::FrameMaterial => "FrameMaterial",
            Recipe::DysonSphereComponent => "DysonSphereComponent",
            Recipe::VerticalLaunchingSilo => "VerticalLaunchingSilo",
            Recipe::SmallCarrierRocket => "SmallCarrierRocket",
            Recipe::ConveyorMK1 => "ConveyorMK1",
            Recipe::SorterMK1 => "SorterMK1",
            Recipe::StorageMK1 => "StorageMK1",
            Recipe::Splitter => "Splitter",
            Recipe::SorterMK2 => "SorterMK2",
            Recipe::ConveyorMK2 => "ConveyorMK2",
            Recipe::SorterMK3 => "SorterMK3",
            Recipe::StorageMK2 => "StorageMK2",
            Recipe::ConveyorMK3 => "ConveyorMK3",
            Recipe::PlanetaryLogisticsStation => "PlanetaryLogisticsStation",
            Recipe::LogisticsDrone => "LogisticsDrone",
            Recipe::InterstellarLogisticsStation => "InterstellarLogisticsStation",
            Recipe::LogisticsVessel => "LogisticsVessel",
            Recipe::Motor => "Motor",
            Recipe::ElectromagneticTurbine => "ElectromagneticTurbine",
            Recipe::ParticleContainerFromEMTurbine => "ParticleContainerFromEMTurbine",
            Recipe::ParticleContainerFromUnipolar => "ParticleContainerFromUnipolar",
            Recipe::GravitonLens => "GravitonLens",
            Recipe::GravityMatrix => "GravityMatrix",
            Recipe::SuperMagneticRing => "SuperMagneticRing",
            Recipe::StrangeMatter => "StrangeMatter",
            Recipe::Fractionator => "Fractionator",
            Recipe::OrbitCollector => "OrbitCollector",
            Recipe::Foundation => "Foundation",
            Recipe::StorageTank => "StorageTank",
            Recipe::DeuteriumFractionation => "DeuteriumFractionation",
            Recipe::IronMining => "IronMining",
            Recipe::CopperMining => "CopperMining",
            Recipe::SiliconMining => "SiliconMining",
            Recipe::TitaniumMining => "TitaniumMining",
            Recipe::StoneMining => "StoneMining",
            Recipe::CoalMining => "CoalMining",
            Recipe::FireIceMining => "FireIceMining",
            Recipe::DiamondMining => "DiamondMining",
            Recipe::FractalSiliconMining => "FractalSiliconMining",
            Recipe::OrganicCrystalMining => "OrganicCrystalMining",
            Recipe::OpticalGratingCrystalMining => "OpticalGratingCrystalMining",
            Recipe::SpiniformStalagmiteCrystalMining => "SpiniformStalagmiteCrystalMining",
            Recipe::UnipolarMagnetMining => "UnipolarMagnetMining",
            Recipe::OilExtraction => "OilExtraction",
            Recipe::CriticalPhotonReceiving => "CriticalPhotonReceiving",
            Recipe::WaterPumping => "WaterPumping",
            Recipe::SulfuricAcidPumping => "SulfuricAcidPumping",
            Recipe::GasGiantCollection => "GasGiantCollection",
            Recipe::IceGiantCollection => "IceGiantCollection",
        }
    }
}

} // verus!
