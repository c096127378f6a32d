//! The closed enumeration of items, and the item-stack value.

use crate::enumeration::Enumeration;
use vstd::prelude::*;

verus! {

/// An item identifier.  No attributes beyond identity.
#[derive(Clone, Copy, Debug, PartialEq, Eq, Structural)]
pub enum Item {
    IronOre,
    CopperOre,
    StoneOre,
    CoalOre,
    SiliconOre,
    TitaniumOre,
    Water,
    CrudeOil,
    Hydrogen,
    Deuterium,
    Antimatter,
    Kimberlite,
    IronIngot,
    CopperIngot,
    StoneBrick,
    EnergeticGraphite,
    HighPuritySilicon,
    TitaniumIngot,
    SulfuricAcid,
    RefinedOil,
    HydrogenFuelRod,
    DeuteronFuelRod,
    AntimatterFuelRod,
    FractalSilicon,
    Magnet,
    Electromagnet,
    Glass,
    Diamond,
    CrystalSilicon,
    TitaniumAlloy,
    FireIce,
    Plastic,
    OrganicCrystal,
    Graphene,
    Thruster,
    OpticalGratingCrystal,
    Steel,
    CircuitBoard,
    Prism,
    Motor,
    MicrocrystallineComponent,
    CasimirCrystal,
    StrangeMatter,
    TitaniumCrystal,
    CarbonNanotube,
    ReinforcedThruster,
    SpiniformStalagmiteCrystal,
    Gear,
    PlasmaExciter,
    PhotonCombiner,
    ElectromagneticTurbine,
    Processor,
    AnnihilationConstraintSphere,
    TitaniumGlass,
    ParticleBroadband,
    LogisticsDrone,
    UnipolarMagnet,
    Foundation,
    CriticalPhoton,
    ParticleContainer,
    SuperMagneticRing,
    GravitonLens,
    SpaceWarper,
    PlaneFilter,
    QuantumChip,
    LogisticsVessel,
    Log,
    ElectromagneticMatrix,
    EnergyMatrix,
    StructureMatrix,
    InformationMatrix,
    GravityMatrix,
    UniverseMatrix,
    SolarSail,
    FrameMaterial,
    DysonSphereComponent,
    SmallCarrierRocket,
    PlantFuel,
    TeslaTower,
    WirelessPowerTower,
    SatelliteSubstation,
    WindTurbine,
    ThermalPowerStation,
    SolarPanel,
    MiniFusionPowerStation,
    Accumulator,
    FullAccumulator,
    EnergyExchanger,
    RayReceiver,
    ArtificialStar,
    ConveyorMK1,
    ConveyorMK2,
    ConveyorMK3,
    Splitter,
    StorageMK1,
    StorageMK2,
    PlanetaryLogisticsStation,
    InterstellarLogisticsStation,
    OrbitCollector,
    EMRailEjector,
    SorterMK1,
    SorterMK2,
    SorterMK3,
    MiningMachine,
    OilExtractor,
    OilRefinery,
    MiniatureParticleCollider,
    MatrixLab,
    VerticalLaunchingSilo,
    AssemblingMachineMK1,
    AssemblingMachineMK2,
    AssemblingMachineMK3,
    Smelter,
    ChemicalPlant,
    Fractionator,
    WaterPump,
    StorageTank,
}

/// A pair of an item and a count.
///
/// The count is held in hundredths of an item, so that the expected yield of
/// a probabilistic recipe (such as deuterium fractionation, which yields one
/// hundredth of a deuterium per invocation) is represented exactly.  A count
/// of zero is permitted and means "possible but never in this invocation".
#[derive(Clone, Copy, Debug, PartialEq, Eq, Structural)]
pub struct ItemStack {
    pub item: Item,
    pub count_centi: u64,
}

impl Enumeration for Item {
    open spec fn count_spec() -> int {
        117
    }

    open spec fn index_spec(self) -> int {
        match self {
            Item::IronOre => 0,
            Item::CopperOre => 1,
            Item::StoneOre => 2,
            Item::CoalOre => 3,
            Item::SiliconOre => 4,
            Item::TitaniumOre => 5,
            Item::Water => 6,
            Item::CrudeOil => 7,
            Item::Hydrogen => 8,
            Item::Deuterium => 9,
            Item::Antimatter => 10,
            Item::Kimberlite => 11,
            Item::IronIngot => 12,
            Item::CopperIngot => 13,
            Item::StoneBrick => 14,
            Item::EnergeticGraphite => 15,
            Item::HighPuritySilicon => 16,
            Item::TitaniumIngot => 17,
            Item::SulfuricAcid => 18,
            Item::RefinedOil => 19,
            Item::HydrogenFuelRod => 20,
            Item::DeuteronFuelRod => 21,
            Item::AntimatterFuelRod => 22,
            Item::FractalSilicon => 23,
            Item::Magnet => 24,
            Item::Electromagnet => 25,
            Item::Glass => 26,
            Item::Diamond => 27,
            Item::CrystalSilicon => 28,
            Item::TitaniumAlloy => 29,
            Item::FireIce => 30,
            Item::Plastic => 31,
            Item::OrganicCrystal => 32,
            Item::Graphene => 33,
            Item::Thruster => 34,
            Item::OpticalGratingCrystal => 35,
            Item::Steel => 36,
            Item::CircuitBoard => 37,
            Item::Prism => 38,
            Item::Motor => 39,
            Item::MicrocrystallineComponent => 40,
            Item::CasimirCrystal => 41,
            Item::StrangeMatter => 42,
            Item::TitaniumCrystal => 43,
            Item::CarbonNanotube => 44,
            Item::ReinforcedThruster => 45,
            Item::SpiniformStalagmiteCrystal => 46,
            Item::Gear => 47,
            Item::PlasmaExciter => 48,
            Item::PhotonCombiner => 49,
            Item::ElectromagneticTurbine => 50,
            Item::Processor => 51,
            Item::AnnihilationConstraintSphere => 52,
            Item::TitaniumGlass => 53,
            Item::ParticleBroadband => 54,
            Item::LogisticsDrone => 55,
            Item::UnipolarMagnet => 56,
            Item::Foundation => 57,
            Item::CriticalPhoton => 58,
            Item::ParticleContainer => 59,
            Item::SuperMagneticRing => 60,
            Item::GravitonLens => 61,
            Item::SpaceWarper => 62,
            Item::PlaneFilter => 63,
            Item::QuantumChip => 64,
            Item::LogisticsVessel => 65,
            Item::Log => 66,
            Item::ElectromagneticMatrix => 67,
            Item::EnergyMatrix => 68,
            Item::StructureMatrix => 69,
            Item::InformationMatrix => 70,
            Item::GravityMatrix => 71,
            Item::UniverseMatrix => 72,
            Item::SolarSail => 73,
            Item::FrameMaterial => 74,
            Item::DysonSphereComponent => 75,
            Item::SmallCarrierRocket => 76,
            Item::PlantFuel => 77,
            Item::TeslaTower => 78,
            Item::WirelessPowerTower => 79,
            Item::SatelliteSubstation => 80,
            Item::WindTurbine => 81,
            Item::ThermalPowerStation => 82,
            Item::SolarPanel => 83,
            Item::MiniFusionPowerStation => 84,
            Item::Accumulator => 85,
            Item::FullAccumulator => 86,
            Item::EnergyExchanger => 87,
            Item::RayReceiver => 88,
            Item::ArtificialStar => 89,
            Item::ConveyorMK1 => 90,
            Item::ConveyorMK2 => 91,
            Item::ConveyorMK3 => 92,
            Item::Splitter => 93,
            Item::StorageMK1 => 94,
            Item::StorageMK2 => 95,
            Item::PlanetaryLogisticsStation => 96,
            Item::InterstellarLogisticsStation => 97,
            Item::OrbitCollector => 98,
            Item::EMRailEjector => 99,
            Item::SorterMK1 => 100,
            Item::SorterMK2 => 101,
            Item::SorterMK3 => 102,
            Item::MiningMachine => 103,
            Item::OilExtractor => 104,
            Item::OilRefinery => 105,
            Item::MiniatureParticleCollider => 106,
            Item::MatrixLab => 107,
            Item::VerticalLaunchingSilo => 108,
            Item::AssemblingMachineMK1 => 109,
            Item::AssemblingMachineMK2 => 110,
            Item::AssemblingMachineMK3 => 111,
            Item::Smelter => 112,
            Item::ChemicalPlant => 113,
            Item::Fractionator => 114,
            Item::WaterPump => 115,
            Item::StorageTank => 116,
        }
    }

    open spec fn from_index_spec(i: int) -> Self {
        if i == 0 {
            Item::IronOre
        } else if i == 1 {
            Item::CopperOre
        } else if i == 2 {
            Item::StoneOre
        } else if i == 3 {
            Item::CoalOre
        } else if i == 4 {
            Item::SiliconOre
        } else if i == 5 {
            Item::TitaniumOre
        } else if i == 6 {
            Item::Water
        } else if i == 7 {
            Item::CrudeOil
        } else if i == 8 {
            Item::Hydrogen
        } else if i == 9 {
            Item::Deuterium
        } else if i == 10 {
            Item::Antimatter
        } else if i == 11 {
            Item::Kimberlite
        } else if i == 12 {
            Item::IronIngot
        } else if i == 13 {
            Item::CopperIngot
        } else if i == 14 {
            Item::StoneBrick
        } else if i == 15 {
            Item::EnergeticGraphite
        } else if i == 16 {
            Item::HighPuritySilicon
        } else if i == 17 {
            Item::TitaniumIngot
        } else if i == 18 {
            Item::SulfuricAcid
        } else if i == 19 {
            Item::RefinedOil
        } else if i == 20 {
            Item::HydrogenFuelRod
        } else if i == 21 {
            Item::DeuteronFuelRod
        } else if i == 22 {
            Item::AntimatterFuelRod
        } else if i == 23 {
            Item::FractalSilicon
        } else if i == 24 {
            Item::Magnet
        } else if i == 25 {
            Item::Electromagnet
        } else if i == 26 {
            Item::Glass
        } else if i == 27 {
            Item::Diamond
        } else if i == 28 {
            Item::CrystalSilicon
        } else if i == 29 {
            Item::TitaniumAlloy
        } else if i == 30 {
            Item::FireIce
        } else if i == 31 {
            Item::Plastic
        } else if i == 32 {
            Item::OrganicCrystal
        } else if i == 33 {
            Item::Graphene
        } else if i == 34 {
            Item::Thruster
        } else if i == 35 {
            Item::OpticalGratingCrystal
        } else if i == 36 {
            Item::Steel
        } else if i == 37 {
            Item::CircuitBoard
        } else if i == 38 {
            Item::Prism
        } else if i == 39 {
            Item::Motor
        } else if i == 40 {
            Item::MicrocrystallineComponent
        } else if i == 41 {
            Item::CasimirCrystal
        } else if i == 42 {
            Item::StrangeMatter
        } else if i == 43 {
            Item::TitaniumCrystal
        } else if i == 44 {
            Item::CarbonNanotube
        } else if i == 45 {
            Item::ReinforcedThruster
        } else if i == 46 {
            Item::SpiniformStalagmiteCrystal
        } else if i == 47 {
            Item::Gear
        } else if i == 48 {
            Item::PlasmaExciter
        } else if i == 49 {
            Item::PhotonCombiner
        } else if i == 50 {
            Item::ElectromagneticTurbine
        } else if i == 51 {
            Item::Processor
        } else if i == 52 {
            Item::AnnihilationConstraintSphere
        } else if i == 53 {
            Item::TitaniumGlass
        } else if i == 54 {
            Item::ParticleBroadband
        } else if i == 55 {
            Item::LogisticsDrone
        } else if i == 56 {
            Item::UnipolarMagnet
        } else if i == 57 {
            Item::Foundation
        } else if i == 58 {
            Item::CriticalPhoton
        } else if i == 59 {
            Item::ParticleContainer
        } else if i == 60 {
            Item::SuperMagneticRing
        } else if i == 61 {
            Item::GravitonLens
        } else if i == 62 {
            Item::SpaceWarper
        } else if i == 63 {
            Item::PlaneFilter
        } else if i == 64 {
            Item::QuantumChip
        } else if i == 65 {
            Item::LogisticsVessel
        } else if i == 66 {
            Item::Log
        } else if i == 67 {
            Item::ElectromagneticMatrix
        } else if i == 68 {
            Item::EnergyMatrix
        } else if i == 69 {
            Item::StructureMatrix
        } else if i == 70 {
            Item::InformationMatrix
        } else if i == 71 {
            Item::GravityMatrix
        } else if i == 72 {
            Item::UniverseMatrix
        } else if i == 73 {
            Item::SolarSail
        } else if i == 74 {
            Item::FrameMaterial
        } else if i == 75 {
            Item::DysonSphereComponent
        } else if i == 76 {
            Item::SmallCarrierRocket
        } else if i == 77 {
            Item::PlantFuel
        } else if i == 78 {
            Item::TeslaTower
        } else if i == 79 {
            Item::WirelessPowerTower
        } else if i == 80 {
            Item::SatelliteSubstation
        } else if i == 81 {
            Item::WindTurbine
        } else if i == 82 {
            Item::ThermalPowerStation
        } else if i == 83 {
            Item::SolarPanel
        } else if i == 84 {
            Item::MiniFusionPowerStation
        } else if i == 85 {
            Item::Accumulator
        } else if i == 86 {
            Item::FullAccumulator
        } else if i == 87 {
            Item::EnergyExchanger
        } else if i == 88 {
            Item::RayReceiver
        } else if i == 89 {
            Item::ArtificialStar
        } else if i == 90 {
            Item::ConveyorMK1
        } else if i == 91 {
            Item::ConveyorMK2
        } else if i == 92 {
            Item::ConveyorMK3
        } else if i == 93 {
            Item::Splitter
        } else if i == 94 {
            Item::StorageMK1
        } else if i == 95 {
            Item::StorageMK2
        } else if i == 96 {
            Item::PlanetaryLogisticsStation
        } else if i == 97 {
            Item::InterstellarLogisticsStation
        } else if i == 98 {
            Item::OrbitCollector
        } else if i == 99 {
            Item::EMRailEjector
        } else if i == 100 {
            Item::SorterMK1
        } else if i == 101 {
            Item::SorterMK2
        } else if i == 102 {
            Item::SorterMK3
        } else if i == 103 {
            Item::MiningMachine
        } else if i == 104 {
            Item::OilExtractor
        } else if i == 105 {
            Item::OilRefinery
        } else if i == 106 {
            Item::MiniatureParticleCollider
        } else if i == 107 {
            Item::MatrixLab
        } else if i == 108 {
            Item::VerticalLaunchingSilo
        } else if i == 109 {
            Item::AssemblingMachineMK1
        } else if i == 110 {
            Item::AssemblingMachineMK2
        } else if i == 111 {
            Item::AssemblingMachineMK3
        } else if i == 112 {
            Item::Smelter
        } else if i == 113 {
            Item::ChemicalPlant
        } else if i == 114 {
            Item::Fractionator
        } else if i == 115 {
            Item::WaterPump
        } else {
            Item::StorageTank
        }
    }

    open spec fn name_spec(self) -> Seq<char> {
        match self {
            Item::IronOre => "IronOre"@,
            Item::CopperOre => "CopperOre"@,
            Item::StoneOre => "StoneOre"@,
            Item::CoalOre => "CoalOre"@,
            Item::SiliconOre => "SiliconOre"@,
            Item::TitaniumOre => "TitaniumOre"@,
            Item::Water => "Water"@,
            Item::CrudeOil => "CrudeOil"@,
            Item::Hydrogen => "Hydrogen"@,
            Item::Deuterium => "Deuterium"@,
            Item::Antimatter => "Antimatter"@,
            Item::Kimberlite => "Kimberlite"@,
            Item::IronIngot => "IronIngot"@,
            Item::CopperIngot => "CopperIngot"@,
            Item::StoneBrick => "StoneBrick"@,
            Item::EnergeticGraphite => "EnergeticGraphite"@,
            Item::HighPuritySilicon => "HighPuritySilicon"@,
            Item::TitaniumIngot => "TitaniumIngot"@,
            Item::SulfuricAcid => "SulfuricAcid"@,
            Item::RefinedOil => "RefinedOil"@,
            Item::HydrogenFuelRod => "HydrogenFuelRod"@,
            Item::DeuteronFuelRod => "DeuteronFuelRod"@,
            Item::AntimatterFuelRod => "AntimatterFuelRod"@,
            Item::FractalSilicon => "FractalSilicon"@,
            Item::Magnet => "Magnet"@,
            Item::Electromagnet => "Electromagnet"@,
            Item::Glass => "Glass"@,
            Item::Diamond => "Diamond"@,
            Item::CrystalSilicon => "CrystalSilicon"@,
            Item::TitaniumAlloy => "TitaniumAlloy"@,
            Item::FireIce => "FireIce"@,
            Item::Plastic => "Plastic"@,
            Item::OrganicCrystal => "OrganicCrystal"@,
            Item::Graphene => "Graphene"@,
            Item::Thruster => "Thruster"@,
            Item::OpticalGratingCrystal => "OpticalGratingCrystal"@,
            Item::Steel => "Steel"@,
            Item::CircuitBoard => "CircuitBoard"@,
            Item::Prism => "Prism"@,
            Item::Motor => "Motor"@,
            Item::MicrocrystallineComponent => "MicrocrystallineComponent"@,
            Item::CasimirCrystal => "CasimirCrystal"@,
            Item::StrangeMatter => "StrangeMatter"@,
            Item::TitaniumCrystal => "TitaniumCrystal"@,
            Item::CarbonNanotube => "CarbonNanotube"@,
            Item::ReinforcedThruster => "ReinforcedThruster"@,
            Item::SpiniformStalagmiteCrystal => "SpiniformStalagmiteCrystal"@,
            Item::Gear => "Gear"@,
            Item::PlasmaExciter => "PlasmaExciter"@,
            Item::PhotonCombiner => "PhotonCombiner"@,
            Item::ElectromagneticTurbine => "ElectromagneticTurbine"@,
            Item::Processor => "Processor"@,
            Item::AnnihilationConstraintSphere => "AnnihilationConstraintSphere"@,
            Item::TitaniumGlass => "TitaniumGlass"@,
            Item::ParticleBroadband => "ParticleBroadband"@,
            Item::LogisticsDrone => "LogisticsDrone"@,
            Item::UnipolarMagnet => "UnipolarMagnet"@,
            Item::Foundation => "Foundation"@,
            Item::CriticalPhoton => "CriticalPhoton"@,
            Item::ParticleContainer => "ParticleContainer"@,
            Item::SuperMagneticRing => "SuperMagneticRing"@,
            Item::GravitonLens => "GravitonLens"@,
            Item::SpaceWarper => "SpaceWarper"@,
            Item::PlaneFilter => "PlaneFilter"@,
            Item::QuantumChip => "QuantumChip"@,
            Item::LogisticsVessel => "LogisticsVessel"@,
            Item::Log => "Log"@,
            Item::ElectromagneticMatrix => "ElectromagneticMatrix"@,
            Item::EnergyMatrix => "EnergyMatrix"@,
            Item::StructureMatrix => "StructureMatrix"@,
            Item::InformationMatrix => "InformationMatrix"@,
            Item::GravityMatrix => "GravityMatrix"@,
            Item::UniverseMatrix => "UniverseMatrix"@,
            Item::SolarSail => "SolarSail"@,
            Item::FrameMaterial => "FrameMaterial"@,
            Item::DysonSphereComponent => "DysonSphereComponent"@,
            Item::SmallCarrierRocket => "SmallCarrierRocket"@,
            Item::PlantFuel => "PlantFuel"@,
            Item::TeslaTower => "TeslaTower"@,
            Item::WirelessPowerTower => "WirelessPowerTower"@,
            Item::SatelliteSubstation => "SatelliteSubstation"@,
            Item::WindTurbine => "WindTurbine"@,
            Item::ThermalPowerStation => "ThermalPowerStation"@,
            Item::SolarPanel => "SolarPanel"@,
            Item::MiniFusionPowerStation => "MiniFusionPowerStation"@,
            Item::Accumulator => "Accumulator"@,
            Item::FullAccumulator => "FullAccumulator"@,
            Item::EnergyExchanger => "EnergyExchanger"@,
            Item::RayReceiver => "RayReceiver"@,
            Item::ArtificialStar => "ArtificialStar"@,
            Item::ConveyorMK1 => "ConveyorMK1"@,
            Item::ConveyorMK2 => "ConveyorMK2"@,
            Item::ConveyorMK3 => "ConveyorMK3"@,
            Item::Splitter => "Splitter"@,
            Item::StorageMK1 => "StorageMK1"@,
            Item::StorageMK2 => "StorageMK2"@,
            Item::PlanetaryLogisticsStation => "PlanetaryLogisticsStation"@,
            Item::InterstellarLogisticsStation => "InterstellarLogisticsStation"@,
            Item::OrbitCollector => "OrbitCollector"@,
            Item::EMRailEjector => "EMRailEjector"@,
            Item::SorterMK1 => "SorterMK1"@,
            Item::SorterMK2 => "SorterMK2"@,
            Item::SorterMK3 => "SorterMK3"@,
            Item::MiningMachine => "MiningMachine"@,
            Item::OilExtractor => "OilExtractor"@,
            Item::OilRefinery => "OilRefinery"@,
            Item::MiniatureParticleCollider => "MiniatureParticleCollider"@,
            Item::MatrixLab => "MatrixLab"@,
            Item::VerticalLaunchingSilo => "VerticalLaunchingSilo"@,
            Item::AssemblingMachineMK1 => "AssemblingMachineMK1"@,
            Item::AssemblingMachineMK2 => "AssemblingMachineMK2"@,
            Item::AssemblingMachineMK3 => "AssemblingMachineMK3"@,
            Item::Smelter => "Smelter"@,
            Item::ChemicalPlant => "ChemicalPlant"@,
            Item::Fractionator => "Fractionator"@,
            Item::WaterPump => "WaterPump"@,
            Item::StorageTank => "StorageTank"@,
        }
    }

    proof fn lemma_count_positive() {
    }

    proof fn lemma_index_bounds(self) {
    }

    proof fn lemma_index_roundtrip(self) {
    }

    proof fn lemma_from_index_roundtrip(i: int) {
    }

    fn count() -> (n: usize) {
        117
    }

    fn index(self) -> (i: usize) {
        match self {
            Item::IronOre => 0,
            Item::CopperOre => 1,
            Item::StoneOre => 2,
            Item::CoalOre => 3,
            Item::SiliconOre => 4,
            Item::TitaniumOre => 5,
            Item::Water => 6,
            Item::CrudeOil => 7,
            Item::Hydrogen => 8,
            Item::Deuterium => 9,
            Item::Antimatter => 10,
            Item::Kimberlite => 11,
            Item::IronIngot => 12,
            Item::CopperIngot => 13,
            Item::StoneBrick => 14,
            Item::EnergeticGraphite => 15,
            Item::HighPuritySilicon => 16,
            Item::TitaniumIngot => 17,
            Item::SulfuricAcid => 18,
            Item::RefinedOil => 19,
            Item::HydrogenFuelRod => 20,
            Item::DeuteronFuelRod => 21,
            Item::AntimatterFuelRod => 22,
            Item::FractalSilicon => 23,
            Item::Magnet => 24,
            Item::Electromagnet => 25,
            Item::Glass => 26,
            Item::Diamond => 27,
            Item::CrystalSilicon => 28,
            Item::TitaniumAlloy => 29,
            Item::FireIce => 30,
            Item::Plastic => 31,
            Item::OrganicCrystal => 32,
            Item::Graphene => 33,
            Item::Thruster => 34,
            Item::OpticalGratingCrystal => 35,
            Item::Steel => 36,
            Item::CircuitBoard => 37,
            Item::Prism => 38,
            Item::Motor => 39,
            Item::MicrocrystallineComponent => 40,
            Item::CasimirCrystal => 41,
            Item::StrangeMatter => 42,
            Item::TitaniumCrystal => 43,
            Item::CarbonNanotube => 44,
            Item::ReinforcedThruster => 45,
            Item::SpiniformStalagmiteCrystal => 46,
            Item::Gear => 47,
            Item::PlasmaExciter => 48,
            Item::PhotonCombiner => 49,
            Item::ElectromagneticTurbine => 50,
            Item::Processor => 51,
            Item::AnnihilationConstraintSphere => 52,
            Item::TitaniumGlass => 53,
            Item::ParticleBroadband => 54,
            Item::LogisticsDrone => 55,
            Item::UnipolarMagnet => 56,
            Item::Foundation => 57,
            Item::CriticalPhoton => 58,
            Item::ParticleContainer => 59,
            Item::SuperMagneticRing => 60,
            Item::GravitonLens => 61,
            Item::SpaceWarper => 62,
            Item::PlaneFilter => 63,
            Item::QuantumChip => 64,
            Item::LogisticsVessel => 65,
            Item::Log => 66,
            Item::ElectromagneticMatrix => 67,
            Item::EnergyMatrix => 68,
            Item::StructureMatrix => 69,
            Item::InformationMatrix => 70,
            Item::GravityMatrix => 71,
            Item::UniverseMatrix => 72,
            Item::SolarSail => 73,
            Item::FrameMaterial => 74,
            Item::DysonSphereComponent => 75,
            Item::SmallCarrierRocket => 76,
            Item::PlantFuel => 77,
            Item::TeslaTower => 78,
            Item::WirelessPowerTower => 79,
            Item::SatelliteSubstation => 80,
            Item::WindTurbine => 81,
            Item::ThermalPowerStation => 82,
            Item::SolarPanel => 83,
            Item::MiniFusionPowerStation => 84,
            Item::Accumulator => 85,
            Item::FullAccumulator => 86,
            Item::EnergyExchanger => 87,
            Item::RayReceiver => 88,
            Item::ArtificialStar => 89,
            Item::ConveyorMK1 => 90,
            Item::ConveyorMK2 => 91,
            Item::ConveyorMK3 => 92,
            Item::Splitter => 93,
            Item::StorageMK1 => 94,
            Item::StorageMK2 => 95,
            Item::PlanetaryLogisticsStation => 96,
            Item::InterstellarLogisticsStation => 97,
            Item::OrbitCollector => 98,
            Item::EMRailEjector => 99,
            Item::SorterMK1 => 100,
            Item::SorterMK2 => 101,
            Item::SorterMK3 => 102,
            Item::MiningMachine => 103,
            Item::OilExtractor => 104,
            Item::OilRefinery => 105,
            Item::MiniatureParticleCollider => 106,
            Item::MatrixLab => 107,
            Item::VerticalLaunchingSilo => 108,
            Item::AssemblingMachineMK1 => 109,
            Item::AssemblingMachineMK2 => 110,
            Item::AssemblingMachineMK3 => 111,
            Item::Smelter => 112,
            Item::ChemicalPlant => 113,
            Item::Fractionator => 114,
            Item::WaterPump => 115,
            Item::StorageTank => 116,
        }
    }

    fn from_index(i: usize) -> (e: Self) {
        match i {
            0 => Item::IronOre,
            1 => Item::CopperOre,
            2 => Item::StoneOre,
            3 => Item::CoalOre,
            4 => Item::SiliconOre,
            5 => Item::TitaniumOre,
            6 => Item::Water,
            7 => Item::CrudeOil,
            8 => Item::Hydrogen,
            9 => Item::Deuterium,
            10 => Item::Antimatter,
            11 => Item::Kimberlite,
            12 => Item::IronIngot,
            13 => Item::CopperIngot,
            14 => Item::StoneBrick,
            15 => Item::EnergeticGraphite,
            16 => Item::HighPuritySilicon,
            17 => Item::TitaniumIngot,
            18 => Item::SulfuricAcid,
            19 => Item::RefinedOil,
            20 => Item::HydrogenFuelRod,
            21 => Item::DeuteronFuelRod,
            22 => Item::AntimatterFuelRod,
            23 => Item::FractalSilicon,
            24 => Item::Magnet,
            25 => Item::Electromagnet,
            26 => Item::Glass,
            27 => Item::Diamond,
            28 => Item::CrystalSilicon,
            29 => Item::TitaniumAlloy,
            30 => Item::FireIce,
            31 => Item::Plastic,
            32 => Item::OrganicCrystal,
            33 => Item::Graphene,
            34 => Item::Thruster,
            35 => Item::OpticalGratingCrystal,
            36 => Item::Steel,
            37 => Item::CircuitBoard,
            38 => Item::Prism,
            39 => Item::Motor,
            40 => Item::MicrocrystallineComponent,
            41 => Item::CasimirCrystal,
            42 => Item::StrangeMatter,
            43 => Item::TitaniumCrystal,
            44 => Item::CarbonNanotube,
            45 => Item::ReinforcedThruster,
            46 => Item::SpiniformStalagmiteCrystal,
            47 => Item::Gear,
            48 => Item::PlasmaExciter,
            49 => Item::PhotonCombiner,
            50 => Item::ElectromagneticTurbine,
            51 => Item::Processor,
            52 => Item::AnnihilationConstraintSphere,
            53 => Item::TitaniumGlass,
            54 => Item::ParticleBroadband,
            55 => Item::LogisticsDrone,
            56 => Item::UnipolarMagnet,
            57 => Item::Foundation,
            58 => Item::CriticalPhoton,
            59 => Item::ParticleContainer,
            60 => Item::SuperMagneticRing,
            61 => Item::GravitonLens,
            62 => Item::SpaceWarper,
            63 => Item::PlaneFilter,
            64 => Item::QuantumChip,
            65 => Item::LogisticsVessel,
            66 => Item::Log,
            67 => Item::ElectromagneticMatrix,
            68 => Item::EnergyMatrix,
            69 => Item::StructureMatrix,
            70 => Item::InformationMatrix,
            71 => Item::GravityMatrix,
            72 => Item::UniverseMatrix,
            73 => Item::SolarSail,
            74 => Item::FrameMaterial,
            75 => Item::DysonSphereComponent,
            76 => Item::SmallCarrierRocket,
            77 => Item::PlantFuel,
            78 => Item::TeslaTower,
            79 => Item::WirelessPowerTower,
            80 => Item::SatelliteSubstation,
            81 => Item::WindTurbine,
            82 => Item::ThermalPowerStation,
            83 => Item::SolarPanel,
            84 => Item::MiniFusionPowerStation,
            85 => Item::Accumulator,
            86 => Item::FullAccumulator,
            87 => Item::EnergyExchanger,
            88 => Item::RayReceiver,
            89 => Item::ArtificialStar,
            90 => Item::ConveyorMK1,
            91 => Item::ConveyorMK2,
            92 => Item::ConveyorMK3,
            93 => Item::Splitter,
            94 => Item::StorageMK1,
            95 => Item::StorageMK2,
            96 => Item::PlanetaryLogisticsStation,
            97 => Item::InterstellarLogisticsStation,
            98 => Item::OrbitCollector,
            99 => Item::EMRailEjector,
            100 => Item::SorterMK1,
            101 => Item::SorterMK2,
            102 => Item::SorterMK3,
            103 => Item::MiningMachine,
            104 => Item::OilExtractor,
            105 => Item::OilRefinery,
            106 => Item::MiniatureParticleCollider,
            107 => Item::MatrixLab,
            108 => Item::VerticalLaunchingSilo,
            109 => Item::AssemblingMachineMK1,
            110 => Item::AssemblingMachineMK2,
            111 => Item::AssemblingMachineMK3,
            112 => Item::Smelter,
            113 => Item::ChemicalPlant,
            114 => Item::Fractionator,
            115 => Item::WaterPump,
            _ => Item::StorageTank,
        }
    }

    fn name(self) -> (s: &'static str) {
        match self {
            Item::IronOre => "IronOre",
            Item::CopperOre => "CopperOre",
            Item::StoneOre => "StoneOre",
            Item::CoalOre => "CoalOre",
            Item::SiliconOre => "SiliconOre",
            Item::TitaniumOre => "TitaniumOre",
            Item::Water => "Water",
            Item::CrudeOil => "CrudeOil",
            Item::Hydrogen => "Hydrogen",
            Item::Deuterium => "Deuterium",
            Item::Antimatter => "Antimatter",
            Item::Kimberlite => "Kimberlite",
            Item::IronIngot => "IronIngot",
            Item::CopperIngot => "CopperIngot",
            Item::StoneBrick => "StoneBrick",
            Item::EnergeticGraphite => "EnergeticGraphite",
            Item::HighPuritySilicon => "HighPuritySilicon",
            Item::TitaniumIngot => "TitaniumIngot",
            Item::SulfuricAcid => "SulfuricAcid",
            Item::RefinedOil => "RefinedOil",
            Item::HydrogenFuelRod => "HydrogenFuelRod",
            Item::DeuteronFuelRod => "DeuteronFuelRod",
            Item::AntimatterFuelRod => "AntimatterFuelRod",
            Item::FractalSilicon => "FractalSilicon",
            Item::Magnet => "Magnet",
            Item::Electromagnet => "Electromagnet",
            Item::Glass => "Glass",
            Item::Diamond => "Diamond",
            Item::CrystalSilicon => "CrystalSilicon",
            Item::TitaniumAlloy => "TitaniumAlloy",
            Item::FireIce => "FireIce",
            Item::Plastic => "Plastic",
            Item::OrganicCrystal => "OrganicCrystal",
            Item::Graphene => "Graphene",
            Item::Thruster => "Thruster",
            Item::OpticalGratingCrystal => "OpticalGratingCrystal",
            Item::Steel => "Steel",
            Item::CircuitBoard => "CircuitBoard",
            Item::Prism => "Prism",
            Item::Motor => "Motor",
            Item::MicrocrystallineComponent => "MicrocrystallineComponent",
            Item::CasimirCrystal => "CasimirCrystal",
            Item::StrangeMatter => "StrangeMatter",
            Item::TitaniumCrystal => "TitaniumCrystal",
            Item::CarbonNanotube => "CarbonNanotube",
            Item::ReinforcedThruster => "ReinforcedThruster",
            Item::SpiniformStalagmiteCrystal => "SpiniformStalagmiteCrystal",
            Item::Gear => "Gear",
            Item::PlasmaExciter => "PlasmaExciter",
            Item::PhotonCombiner => "PhotonCombiner",
            Item::ElectromagneticTurbine => "ElectromagneticTurbine",
            Item::Processor => "Processor",
            Item::AnnihilationConstraintSphere => "AnnihilationConstraintSphere",
            Item::TitaniumGlass => "TitaniumGlass",
            Item::ParticleBroadband => "ParticleBroadband",
            Item::LogisticsDrone => "LogisticsDrone",
            Item::UnipolarMagnet => "UnipolarMagnet",
            Item::Foundation => "Foundation",
            Item::CriticalPhoton => "CriticalPhoton",
            Item::ParticleContainer => "ParticleContainer",
            Item::SuperMagneticRing => "SuperMagneticRing",
            Item::GravitonLens => "GravitonLens",
            Item::SpaceWarper => "SpaceWarper",
            Item::PlaneFilter => "PlaneFilter",
            Item::QuantumChip => "QuantumChip",
            Item::LogisticsVessel => "LogisticsVessel",
            Item::Log => "Log",
            Item::ElectromagneticMatrix => "ElectromagneticMatrix",
            Item::EnergyMatrix => "EnergyMatrix",
            Item::StructureMatrix => "StructureMatrix",
            Item::InformationMatrix => "InformationMatrix",
            Item::GravityMatrix => "GravityMatrix",
            Item::UniverseMatrix => "UniverseMatrix",
            Item::SolarSail => "SolarSail",
            Item::FrameMaterial => "FrameMaterial",
            Item::DysonSphereComponent => "DysonSphereComponent",
            Item::SmallCarrierRocket => "SmallCarrierRocket",
            Item::PlantFuel => "PlantFuel",
            Item::TeslaTower => "TeslaTower",
            Item::WirelessPowerTower => "WirelessPowerTower",
            Item::SatelliteSubstation => "SatelliteSubstation",
            Item::WindTurbine => "WindTurbine",
            Item::ThermalPowerStation => "ThermalPowerStation",
            Item::SolarPanel => "SolarPanel",
            Item::MiniFusionPowerStation => "MiniFusionPowerStation",
            Item::Accumulator => "Accumulator",
            Item::FullAccumulator => "FullAccumulator",
            Item::EnergyExchanger => "EnergyExchanger",
            Item::RayReceiver => "RayReceiver",
            Item::ArtificialStar => "ArtificialStar",
            Item::ConveyorMK1 => "ConveyorMK1",
            Item::ConveyorMK2 => "ConveyorMK2",
            Item::ConveyorMK3 => "ConveyorMK3",
            Item::Splitter => "Splitter",
            Item::StorageMK1 => "StorageMK1",
            Item::StorageMK2 => "StorageMK2",
            Item::PlanetaryLogisticsStation => "PlanetaryLogisticsStation",
            Item::InterstellarLogisticsStation => "InterstellarLogisticsStation",
            Item::OrbitCollector => "OrbitCollector",
            Item::EMRailEjector => "EMRailEjector",
            Item::SorterMK1 => "SorterMK1",
            Item::SorterMK2 => "SorterMK2",
            Item::SorterMK3 => "SorterMK3",
            Item::MiningMachine => "MiningMachine",
            Item::OilExtractor => "OilExtractor",
            Item::OilRefinery => "OilRefinery",
            Item::MiniatureParticleCollider => "MiniatureParticleCollider",
            Item::MatrixLab => "MatrixLab",
            Item::VerticalLaunchingSilo => "VerticalLaunchingSilo",
            Item::AssemblingMachineMK1 => "AssemblingMachineMK1",
            Item::AssemblingMachineMK2 => "AssemblingMachineMK2",
            Item::AssemblingMachineMK3 => "AssemblingMachineMK3",
            Item::Smelter => "Smelter",
            Item::ChemicalPlant => "ChemicalPlant",
            Item::Fractionator => "Fractionator",
            Item::WaterPump => "WaterPump",
            Item::StorageTank => "StorageTank",
        }
    }
}

} // verus!
