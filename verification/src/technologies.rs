//! The closed enumeration of technologies, and the prerequisite table.

use crate::enumeration::Enumeration;
use vstd::prelude::*;

verus! {

/// A technology identifier.  The first-declared member is the root of
/// the research tree: the default technology, with no prerequisites.
#[derive(Clone, Copy, Debug, PartialEq, Eq, Structural)]
pub enum Technology {
    DysonSphereProgram,
    Electromagnetism,
    BasicLogisticsSystem,
    AutomaticMetallurgy,
    ElectromagneticMatrix,
    BasicAssemblingProcesses,
    FluidStorageEncapsulation,
    HighEfficiencyPlasmaControl,
    ElectromagneticDrive,
    ImprovedLogisticsSystem,
    SteelSmelting,
    SmeltingPurification,
    ThermalPower,
    PlasmaExtractRefining,
    AccelerantMK1,
    EnvironmentModification,
    CrystalSmelting,
    SolarCollection,
    SemiconductorMaterial,
    DeuteriumFractionation,
    BasicChemicalEngineering,
    EnergyMatrix,
    MagneticLevitationTechnology,
    HighEfficiencyLogisticsSystem,
    TitaniumSmelting,
    EnergyStorage,
    PhotonFrequencyConversion,
    Processor,
    AppliedSuperconductor,
    PolymerChemicalEngineering,
    XRayCracking,
    HydrogenFuelRod,
    SuperMagneticFieldGenerator,
    PlanetaryLogisticsSystem,
    SolarSailOrbitSystem,
    HighSpeedAssemblingProcesses,
    HighStrengthCrystal,
    Thruster,
    AccelerantMK2,
    MagneticParticleTrap,
    HighStrengthTitaniumAlloy,
    HighStrengthLightweightStructure,
    RayReceiver,
    MiniFusionPowerGeneration,
    HighStrengthMaterial,
    StructureMatrix,
    ReinforcedThruster,
    InterstellarLogisticsSystem,
    InterstellarPowerTransmission,
    ParticleControlTechnology,
    HighStrengthGlass,
    CasimirCrystal,
    MiniatureParticleCollider,
    AccelerantMK3,
    SatellitePowerDistributionSystem,
    GasGiantsExplotiation,
    InformationMatrix,
    WaveFunctionInterference,
    StrangeMatter,
    VerticalLaunchingSilo,
    QuantumChip,
    GravitationalWaveRefraction,
    DysonSphereStressSystem,
    PlanetaryIonosphereUtilization,
    QuantumPrintingTechnology,
    GravityMatrix,
    DiracInversionMechanism,
    ControlledAnnihilationReaction,
    ArtificialStar,
    UniverseMatrix,
    MissionCompleted,
}

fn tvec1(t0: Technology) -> (v: Vec<Technology>)
    ensures
        v@ == seq![t0],
{
    let mut v: Vec<Technology> = Vec::new();
    v.push(t0);
    proof {
        assert(v@ =~= seq![t0]);
    }
    v
}

fn tvec2(t0: Technology, t1: Technology) -> (v: Vec<Technology>)
    ensures
        v@ == seq![t0, t1],
{
    let mut v: Vec<Technology> = Vec::new();
    v.push(t0);
    v.push(t1);
    proof {
        assert(v@ =~= seq![t0, t1]);
    }
    v
}

impl Technology {
    /// The ordered list of technologies that must be researched immediately
    /// before this one, as declared.  The root technology has an empty list.
    pub open spec fn prereqs_spec(self) -> Seq<Technology> {
        match self {
            Technology::DysonSphereProgram => Seq::empty(),
            Technology::Electromagnetism => seq![Technology::DysonSphereProgram],
            Technology::BasicLogisticsSystem => seq![Technology::Electromagnetism],
            Technology::AutomaticMetallurgy => seq![Technology::Electromagnetism],
            Technology::ElectromagneticMatrix => seq![Technology::Electromagnetism],
            Technology::BasicAssemblingProcesses => seq![Technology::Electromagnetism],
            Technology::FluidStorageEncapsulation => seq![Technology::Electromagnetism],
            Technology::HighEfficiencyPlasmaControl => seq![Technology::Electromagnetism],
            Technology::ElectromagneticDrive => seq![Technology::Electromagnetism],
            Technology::ImprovedLogisticsSystem => seq![Technology::BasicLogisticsSystem],
            Technology::SteelSmelting => seq![Technology::AutomaticMetallurgy],
            Technology::SmeltingPurification => seq![Technology::AutomaticMetallurgy],
            Technology::ThermalPower => seq![Technology::BasicAssemblingProcesses],
            Technology::PlasmaExtractRefining => seq![Technology::FluidStorageEncapsulation, Technology::HighEfficiencyPlasmaControl],
            Technology::AccelerantMK1 => seq![Technology::HighEfficiencyPlasmaControl],
            Technology::EnvironmentModification => seq![Technology::SteelSmelting],
            Technology::CrystalSmelting => seq![Technology::SmeltingPurification],
            Technology::SolarCollection => seq![Technology::SmeltingPurification, Technology::ElectromagneticMatrix],
            Technology::SemiconductorMaterial => seq![Technology::BasicAssemblingProcesses],
            Technology::DeuteriumFractionation => seq![Technology::ThermalPower],
            Technology::BasicChemicalEngineering => seq![Technology::FluidStorageEncapsulation, Technology::PlasmaExtractRefining],
            Technology::EnergyMatrix => seq![Technology::PlasmaExtractRefining],
            Technology::MagneticLevitationTechnology => seq![Technology::ElectromagneticDrive],
            Technology::HighEfficiencyLogisticsSystem => seq![Technology::ImprovedLogisticsSystem],
            Technology::TitaniumSmelting => seq![Technology::SteelSmelting],
            Technology::EnergyStorage => seq![Technology::CrystalSmelting],
            Technology::PhotonFrequencyConversion => seq![Technology::SolarCollection],
            Technology::Processor => seq![Technology::SemiconductorMaterial],
            Technology::AppliedSuperconductor => seq![Technology::BasicChemicalEngineering],
            Technology::PolymerChemicalEngineering => seq![Technology::BasicChemicalEngineering],
            Technology::XRayCracking => seq![Technology::BasicChemicalEngineering, Technology::PlasmaExtractRefining],
            Technology::HydrogenFuelRod => seq![Technology::EnergyMatrix],
            Technology::SuperMagneticFieldGenerator => seq![Technology::MagneticLevitationTechnology],
            Technology::PlanetaryLogisticsSystem => seq![Technology::HighEfficiencyLogisticsSystem],
            Technology::SolarSailOrbitSystem => seq![Technology::PhotonFrequencyConversion],
            Technology::HighSpeedAssemblingProcesses => seq![Technology::BasicAssemblingProcesses, Technology::Processor],
            Technology::HighStrengthCrystal => seq![Technology::PolymerChemicalEngineering],
            Technology::Thruster => seq![Technology::HydrogenFuelRod],
            Technology::AccelerantMK2 => seq![Technology::AccelerantMK1],
            Technology::MagneticParticleTrap => seq![Technology::MagneticLevitationTechnology],
            Technology::HighStrengthTitaniumAlloy => seq![Technology::TitaniumSmelting],
            Technology::HighStrengthLightweightStructure => seq![Technology::SolarSailOrbitSystem],
            Technology::RayReceiver => seq![Technology::SolarSailOrbitSystem],
            Technology::MiniFusionPowerGeneration => seq![Technology::DeuteriumFractionation],
            Technology::HighStrengthMaterial => seq![Technology::AppliedSuperconductor],
            Technology::StructureMatrix => seq![Technology::HighStrengthCrystal],
            Technology::ReinforcedThruster => seq![Technology::Thruster],
            Technology::InterstellarLogisticsSystem => seq![Technology::PlanetaryLogisticsSystem, Technology::HighStrengthTitaniumAlloy],
            Technology::InterstellarPowerTransmission => seq![Technology::EnergyStorage, Technology::HighStrengthTitaniumAlloy],
            Technology::ParticleControlTechnology => seq![Technology::HighStrengthMaterial],
            Technology::HighStrengthGlass => seq![Technology::HighStrengthMaterial],
            Technology::CasimirCrystal => seq![Technology::StructureMatrix],
            Technology::MiniatureParticleCollider => seq![Technology::MiniatureParticleCollider],
            Technology::AccelerantMK3 => seq![Technology::AccelerantMK2],
            Technology::SatellitePowerDistributionSystem => seq![Technology::SuperMagneticFieldGenerator],
            Technology::GasGiantsExplotiation => seq![Technology::InterstellarLogisticsSystem, Technology::InterstellarPowerTransmission],
            Technology::InformationMatrix => seq![Technology::Processor, Technology::ParticleControlTechnology],
            Technology::WaveFunctionInterference => seq![Technology::HighStrengthGlass, Technology::CasimirCrystal],
            Technology::StrangeMatter => seq![Technology::MiniatureParticleCollider],
            Technology::VerticalLaunchingSilo => seq![Technology::HighStrengthLightweightStructure],
            Technology::QuantumChip => seq![Technology::InformationMatrix, Technology::WaveFunctionInterference],
            Technology::GravitationalWaveRefraction => seq![Technology::StrangeMatter],
            Technology::DysonSphereStressSystem => seq![Technology::VerticalLaunchingSilo],
            Technology::PlanetaryIonosphereUtilization => seq![Technology::RayReceiver],
            Technology::QuantumPrintingTechnology => seq![Technology::QuantumChip, Technology::GravitationalWaveRefraction],
            Technology::GravityMatrix => seq![Technology::QuantumChip, Technology::GravitationalWaveRefraction],
            Technology::DiracInversionMechanism => seq![Technology::PlanetaryIonosphereUtilization],
            Technology::ControlledAnnihilationReaction => seq![Technology::DiracInversionMechanism],
            Technology::ArtificialStar => seq![Technology::ControlledAnnihilationReaction],
            Technology::UniverseMatrix => seq![Technology::DiracInversionMechanism],
            Technology::MissionCompleted => seq![Technology::UniverseMatrix],
        }
    }

    /// Get all the technologies that must be researched immediately before this one.
    pub fn prerequisites(self) -> (r: Vec<Technology>)
        ensures
            r@ == self.prereqs_spec(),
    {
        match self {
            Technology::DysonSphereProgram => Vec::new(),
            Technology::Electromagnetism => tvec1(Technology::DysonSphereProgram),
            Technology::BasicLogisticsSystem => tvec1(Technology::Electromagnetism),
            Technology::AutomaticMetallurgy => tvec1(Technology::Electromagnetism),
            Technology::ElectromagneticMatrix => tvec1(Technology::Electromagnetism),
            Technology::BasicAssemblingProcesses => tvec1(Technology::Electromagnetism),
            Technology::FluidStorageEncapsulation => tvec1(Technology::Electromagnetism),
            Technology::HighEfficiencyPlasmaControl => tvec1(Technology::Electromagnetism),
            Technology::ElectromagneticDrive => tvec1(Technology::Electromagnetism),
            Technology::ImprovedLogisticsSystem => tvec1(Technology::BasicLogisticsSystem),
            Technology::SteelSmelting => tvec1(Technology::AutomaticMetallurgy),
            Technology::SmeltingPurification => tvec1(Technology::AutomaticMetallurgy),
            Technology::ThermalPower => tvec1(Technology::BasicAssemblingProcesses),
            Technology::PlasmaExtractRefining => tvec2(Technology::FluidStorageEncapsulation, Technology::HighEfficiencyPlasmaControl),
            Technology::AccelerantMK1 => tvec1(Technology::HighEfficiencyPlasmaControl),
            Technology::EnvironmentModification => tvec1(Technology::SteelSmelting),
            Technology::CrystalSmelting => tvec1(Technology::SmeltingPurification),
            Technology::SolarCollection => tvec2(Technology::SmeltingPurification, Technology::ElectromagneticMatrix),
            Technology::SemiconductorMaterial => tvec1(Technology::BasicAssemblingProcesses),
            Technology::DeuteriumFractionation => tvec1(Technology::ThermalPower),
            Technology::BasicChemicalEngineering => tvec2(Technology::FluidStorageEncapsulation, Technology::PlasmaExtractRefining),
            Technology::EnergyMatrix => tvec1(Technology::PlasmaExtractRefining),
            Technology::MagneticLevitationTechnology => tvec1(Technology::ElectromagneticDrive),
            Technology::HighEfficiencyLogisticsSystem => tvec1(Technology::ImprovedLogisticsSystem),
            Technology::TitaniumSmelting => tvec1(Technology::SteelSmelting),
            Technology::EnergyStorage => tvec1(Technology::CrystalSmelting),
            Technology::PhotonFrequencyConversion => tvec1(Technology::SolarCollection),
            Technology::Processor => tvec1(Technology::SemiconductorMaterial),
            Technology::AppliedSuperconductor => tvec1(Technology::BasicChemicalEngineering),
            Technology::PolymerChemicalEngineering => tvec1(Technology::BasicChemicalEngineering),
            Technology::XRayCracking => tvec2(Technology::BasicChemicalEngineering, Technology::PlasmaExtractRefining),
            Technology::HydrogenFuelRod => tvec1(Technology::EnergyMatrix),
            Technology::SuperMagneticFieldGenerator => tvec1(Technology::MagneticLevitationTechnology),
            Technology::PlanetaryLogisticsSystem => tvec1(Technology::HighEfficiencyLogisticsSystem),
            Technology::SolarSailOrbitSystem => tvec1(Technology::PhotonFrequencyConversion),
            Technology::HighSpeedAssemblingProcesses => tvec2(Technology::BasicAssemblingProcesses, Technology::Processor),
            Technology::HighStrengthCrystal => tvec1(Technology::PolymerChemicalEngineering),
            Technology::Thruster => tvec1(Technology::HydrogenFuelRod),
            Technology::AccelerantMK2 => tvec1(Technology::AccelerantMK1),
            Technology::MagneticParticleTrap => tvec1(Technology::MagneticLevitationTechnology),
            Technology::HighStrengthTitaniumAlloy => tvec1(Technology::TitaniumSmelting),
            Technology::HighStrengthLightweightStructure => tvec1(Technology::SolarSailOrbitSystem),
            Technology::RayReceiver => tvec1(Technology::SolarSailOrbitSystem),
            Technology::MiniFusionPowerGeneration => tvec1(Technology::DeuteriumFractionation),
            Technology::HighStrengthMaterial => tvec1(Technology::AppliedSuperconductor),
            Technology::StructureMatrix => tvec1(Technology::HighStrengthCrystal),
            Technology::ReinforcedThruster => tvec1(Technology::Thruster),
            Technology::InterstellarLogisticsSystem => tvec2(Technology::PlanetaryLogisticsSystem, Technology::HighStrengthTitaniumAlloy),
            Technology::InterstellarPowerTransmission => tvec2(Technology::EnergyStorage, Technology::HighStrengthTitaniumAlloy),
            Technology::ParticleControlTechnology => tvec1(Technology::HighStrengthMaterial),
            Technology::HighStrengthGlass => tvec1(Technology::HighStrengthMaterial),
            Technology::CasimirCrystal => tvec1(Technology::StructureMatrix),
            Technology::MiniatureParticleCollider => tvec1(Technology::MiniatureParticleCollider),
            Technology::AccelerantMK3 => tvec1(Technology::AccelerantMK2),
            Technology::SatellitePowerDistributionSystem => tvec1(Technology::SuperMagneticFieldGenerator),
            Technology::GasGiantsExplotiation => tvec2(Technology::InterstellarLogisticsSystem, Technology::InterstellarPowerTransmission),
            Technology::InformationMatrix => tvec2(Technology::Processor, Technology::ParticleControlTechnology),
            Technology::WaveFunctionInterference => tvec2(Technology::HighStrengthGlass, Technology::CasimirCrystal),
            Technology::StrangeMatter => tvec1(Technology::MiniatureParticleCollider),
            Technology::VerticalLaunchingSilo => tvec1(Technology::HighStrengthLightweightStructure),
            Technology::QuantumChip => tvec2(Technology::InformationMatrix, Technology::WaveFunctionInterference),
            Technology::GravitationalWaveRefraction => tvec1(Technology::StrangeMatter),
            Technology::DysonSphereStressSystem => tvec1(Technology::VerticalLaunchingSilo),
            Technology::PlanetaryIonosphereUtilization => tvec1(Technology::RayReceiver),
            Technology::QuantumPrintingTechnology => tvec2(Technology::QuantumChip, Technology::GravitationalWaveRefraction),
            Technology::GravityMatrix => tvec2(Technology::QuantumChip, Technology::GravitationalWaveRefraction),
            Technology::DiracInversionMechanism => tvec1(Technology::PlanetaryIonosphereUtilization),
            Technology::ControlledAnnihilationReaction => tvec1(Technology::DiracInversionMechanism),
            Technology::ArtificialStar => tvec1(Technology::ControlledAnnihilationReaction),
            Technology::UniverseMatrix => tvec1(Technology::DiracInversionMechanism),
            Technology::MissionCompleted => tvec1(Technology::UniverseMatrix),
        }
    }
}

impl Enumeration for Technology {
    open spec fn count_spec() -> int {
        71
    }

    open spec fn index_spec(self) -> int {
        match self {
            Technology::DysonSphereProgram => 0,
            Technology::Electromagnetism => 1,
            Technology::BasicLogisticsSystem => 2,
            Technology::AutomaticMetallurgy => 3,
            Technology::ElectromagneticMatrix => 4,
            Technology::BasicAssemblingProcesses => 5,
            Technology::FluidStorageEncapsulation => 6,
            Technology::HighEfficiencyPlasmaControl => 7,
            Technology::ElectromagneticDrive => 8,
            Technology::ImprovedLogisticsSystem => 9,
            Technology::SteelSmelting => 10,
            Technology::SmeltingPurification => 11,
            Technology::ThermalPower => 12,
            Technology::PlasmaExtractRefining => 13,
            Technology::AccelerantMK1 => 14,
            Technology::EnvironmentModification => 15,
            Technology::CrystalSmelting => 16,
            Technology::SolarCollection => 17,
            Technology::SemiconductorMaterial => 18,
            Technology::DeuteriumFractionation => 19,
            Technology::BasicChemicalEngineering => 20,
            Technology::EnergyMatrix => 21,
            Technology::MagneticLevitationTechnology => 22,
            Technology::HighEfficiencyLogisticsSystem => 23,
            Technology::TitaniumSmelting => 24,
            Technology::EnergyStorage => 25,
            Technology::PhotonFrequencyConversion => 26,
            Technology::Processor => 27,
            Technology::AppliedSuperconductor => 28,
            Technology::PolymerChemicalEngineering => 29,
            Technology::XRayCracking => 30,
            Technology::HydrogenFuelRod => 31,
            Technology::SuperMagneticFieldGenerator => 32,
            Technology::PlanetaryLogisticsSystem => 33,
            Technology::SolarSailOrbitSystem => 34,
            Technology::HighSpeedAssemblingProcesses => 35,
            Technology::HighStrengthCrystal => 36,
            Technology::Thruster => 37,
            Technology::AccelerantMK2 => 38,
            Technology::MagneticParticleTrap => 39,
            Technology::HighStrengthTitaniumAlloy => 40,
            Technology::HighStrengthLightweightStructure => 41,
            Technology::RayReceiver => 42,
            Technology::MiniFusionPowerGeneration => 43,
            Technology::HighStrengthMaterial => 44,
            Technology::StructureMatrix => 45,
            Technology::ReinforcedThruster => 46,
            Technology::InterstellarLogisticsSystem => 47,
            Technology::InterstellarPowerTransmission => 48,
            Technology::ParticleControlTechnology => 49,
            Technology::HighStrengthGlass => 50,
            Technology::CasimirCrystal => 51,
            Technology::MiniatureParticleCollider => 52,
            Technology::AccelerantMK3 => 53,
            Technology::SatellitePowerDistributionSystem => 54,
            Technology::GasGiantsExplotiation => 55,
            Technology::InformationMatrix => 56,
            Technology::WaveFunctionInterference => 57,
            Technology::StrangeMatter => 58,
            Technology::VerticalLaunchingSilo => 59,
            Technology::QuantumChip => 60,
            Technology::GravitationalWaveRefraction => 61,
            Technology::DysonSphereStressSystem => 62,
            Technology::PlanetaryIonosphereUtilization => 63,
            Technology::QuantumPrintingTechnology => 64,
            Technology::GravityMatrix => 65,
            Technology::DiracInversionMechanism => 66,
            Technology::ControlledAnnihilationReaction => 67,
            Technology::ArtificialStar => 68,
            Technology::UniverseMatrix => 69,
            Technology::MissionCompleted => 70,
        }
    }

    open spec fn from_index_spec(i: int) -> Self {
        if i == 0 {
            Technology::DysonSphereProgram
        } else if i == 1 {
            Technology::Electromagnetism
        } else if i == 2 {
            Technology::BasicLogisticsSystem
        } else if i == 3 {
            Technology::AutomaticMetallurgy
        } else if i == 4 {
            Technology::ElectromagneticMatrix
        } else if i == 5 {
            Technology::BasicAssemblingProcesses
        } else if i == 6 {
            Technology::FluidStorageEncapsulation
        } else if i == 7 {
            Technology::HighEfficiencyPlasmaControl
        } else if i == 8 {
            Technology::ElectromagneticDrive
        } else if i == 9 {
            Technology::ImprovedLogisticsSystem
        } else if i == 10 {
            Technology::SteelSmelting
        } else if i == 11 {
            Technology::SmeltingPurification
        } else if i == 12 {
            Technology::ThermalPower
        } else if i == 13 {
            Technology::PlasmaExtractRefining
        } else if i == 14 {
            Technology::AccelerantMK1
        } else if i == 15 {
            Technology::EnvironmentModification
        } else if i == 16 {
            Technology::CrystalSmelting
        } else if i == 17 {
            Technology::SolarCollection
        } else if i == 18 {
            Technology::SemiconductorMaterial
        } else if i == 19 {
            Technology::DeuteriumFractionation
        } else if i == 20 {
            Technology::BasicChemicalEngineering
        } else if i == 21 {
            Technology::EnergyMatrix
        } else if i == 22 {
            Technology::MagneticLevitationTechnology
        } else if i == 23 {
            Technology::HighEfficiencyLogisticsSystem
        } else if i == 24 {
            Technology::TitaniumSmelting
        } else if i == 25 {
            Technology::EnergyStorage
        } else if i == 26 {
            Technology::PhotonFrequencyConversion
        } else if i == 27 {
            Technology::Processor
        } else if i == 28 {
            Technology::AppliedSuperconductor
        } else if i == 29 {
            Technology::PolymerChemicalEngineering
        } else if i == 30 {
            Technology::XRayCracking
        } else if i == 31 {
            Technology::HydrogenFuelRod
        } else if i == 32 {
            Technology::SuperMagneticFieldGenerator
        } else if i == 33 {
            Technology::PlanetaryLogisticsSystem
        } else if i == 34 {
            Technology::SolarSailOrbitSystem
        } else if i == 35 {
            Technology::HighSpeedAssemblingProcesses
        } else if i == 36 {
            Technology::HighStrengthCrystal
        } else if i == 37 {
            Technology::Thruster
        } else if i == 38 {
            Technology::AccelerantMK2
        } else if i == 39 {
            Technology::MagneticParticleTrap
        } else if i == 40 {
            Technology::HighStrengthTitaniumAlloy
        } else if i == 41 {
            Technology::HighStrengthLightweightStructure
        } else if i == 42 {
            Technology::RayReceiver
        } else if i == 43 {
            Technology::MiniFusionPowerGeneration
        } else if i == 44 {
            Technology::HighStrengthMaterial
        } else if i == 45 {
            Technology::StructureMatrix
        } else if i == 46 {
            Technology::ReinforcedThruster
        } else if i == 47 {
            Technology::InterstellarLogisticsSystem
        } else if i == 48 {
            Technology::InterstellarPowerTransmission
        } else if i == 49 {
            Technology::ParticleControlTechnology
        } else if i == 50 {
            Technology::HighStrengthGlass
        } else if i == 51 {
            Technology::CasimirCrystal
        } else if i == 52 {
            Technology::MiniatureParticleCollider
        } else if i == 53 {
            Technology::AccelerantMK3
        } else if i == 54 {
            Technology::SatellitePowerDistributionSystem
        } else if i == 55 {
            Technology::GasGiantsExplotiation
        } else if i == 56 {
            Technology::InformationMatrix
        } else if i == 57 {
            Technology::WaveFunctionInterference
        } else if i == 58 {
            Technology::StrangeMatter
        } else if i == 59 {
            Technology::VerticalLaunchingSilo
        } else if i == 60 {
            Technology::QuantumChip
        } else if i == 61 {
            Technology::GravitationalWaveRefraction
        } else if i == 62 {
            Technology::DysonSphereStressSystem
        } else if i == 63 {
            Technology::PlanetaryIonosphereUtilization
        } else if i == 64 {
            Technology::QuantumPrintingTechnology
        } else if i == 65 {
            Technology::GravityMatrix
        } else if i == 66 {
            Technology::DiracInversionMechanism
        } else if i == 67 {
            Technology::ControlledAnnihilationReaction
        } else if i == 68 {
            Technology::ArtificialStar
        } else if i == 69 {
            Technology::UniverseMatrix
        } else {
            Technology::MissionCompleted
        }
    }

    open spec fn name_spec(self) -> Seq<char> {
        match self {
            Technology::DysonSphereProgram => "DysonSphereProgram"@,
            Technology::Electromagnetism => "Electromagnetism"@,
            Technology::BasicLogisticsSystem => "BasicLogisticsSystem"@,
            Technology::AutomaticMetallurgy => "AutomaticMetallurgy"@,
            Technology::ElectromagneticMatrix => "ElectromagneticMatrix"@,
            Technology::BasicAssemblingProcesses => "BasicAssemblingProcesses"@,
            Technology::FluidStorageEncapsulation => "FluidStorageEncapsulation"@,
            Technology::HighEfficiencyPlasmaControl => "HighEfficiencyPlasmaControl"@,
            Technology::ElectromagneticDrive => "ElectromagneticDrive"@,
            Technology::ImprovedLogisticsSystem => "ImprovedLogisticsSystem"@,
            Technology::SteelSmelting => "SteelSmelting"@,
            Technology::SmeltingPurification => "SmeltingPurification"@,
            Technology::ThermalPower => "ThermalPower"@,
            Technology::PlasmaExtractRefining => "PlasmaExtractRefining"@,
            Technology::AccelerantMK1 => "AccelerantMK1"@,
            Technology::EnvironmentModification => "EnvironmentModification"@,
            Technology::CrystalSmelting => "CrystalSmelting"@,
            Technology::SolarCollection => "SolarCollection"@,
            Technology::SemiconductorMaterial => "SemiconductorMaterial"@,
            Technology::DeuteriumFractionation => "DeuteriumFractionation"@,
            Technology::BasicChemicalEngineering => "BasicChemicalEngineering"@,
            Technology::EnergyMatrix => "EnergyMatrix"@,
            Technology::MagneticLevitationTechnology => "MagneticLevitationTechnology"@,
            Technology::HighEfficiencyLogisticsSystem => "HighEfficiencyLogisticsSystem"@,
            Technology::TitaniumSmelting => "TitaniumSmelting"@,
            Technology::EnergyStorage => "EnergyStorage"@,
            Technology::PhotonFrequencyConversion => "PhotonFrequencyConversion"@,
            Technology::Processor => "Processor"@,
            Technology::AppliedSuperconductor => "AppliedSuperconductor"@,
            Technology::PolymerChemicalEngineering => "PolymerChemicalEngineering"@,
            Technology::XRayCracking => "XRayCracking"@,
            Technology::HydrogenFuelRod => "HydrogenFuelRod"@,
            Technology::SuperMagneticFieldGenerator => "SuperMagneticFieldGenerator"@,
            Technology::PlanetaryLogisticsSystem => "PlanetaryLogisticsSystem"@,
            Technology::SolarSailOrbitSystem => "SolarSailOrbitSystem"@,
            Technology::HighSpeedAssemblingProcesses => "HighSpeedAssemblingProcesses"@,
            Technology::HighStrengthCrystal => "HighStrengthCrystal"@,
            Technology::Thruster => "Thruster"@,
            Technology::AccelerantMK2 => "AccelerantMK2"@,
            Technology::MagneticParticleTrap => "MagneticParticleTrap"@,
            Technology::HighStrengthTitaniumAlloy => "HighStrengthTitaniumAlloy"@,
            Technology::HighStrengthLightweightStructure => "HighStrengthLightweightStructure"@,
            Technology::RayReceiver => "RayReceiver"@,
            Technology::MiniFusionPowerGeneration => "MiniFusionPowerGeneration"@,
            Technology::HighStrengthMaterial => "HighStrengthMaterial"@,
            Technology::StructureMatrix => "StructureMatrix"@,
            Technology::ReinforcedThruster => "ReinforcedThruster"@,
            Technology::InterstellarLogisticsSystem => "InterstellarLogisticsSystem"@,
            Technology::InterstellarPowerTransmission => "InterstellarPowerTransmission"@,
            Technology::ParticleControlTechnology => "ParticleControlTechnology"@,
            Technology::HighStrengthGlass => "HighStrengthGlass"@,
            Technology::CasimirCrystal => "CasimirCrystal"@,
            Technology::MiniatureParticleCollider => "MiniatureParticleCollider"@,
            Technology::AccelerantMK3 => "AccelerantMK3"@,
            Technology::SatellitePowerDistributionSystem => "SatellitePowerDistributionSystem"@,
            Technology::GasGiantsExplotiation => "GasGiantsExplotiation"@,
            Technology::InformationMatrix => "InformationMatrix"@,
            Technology::WaveFunctionInterference => "WaveFunctionInterference"@,
            Technology::StrangeMatter => "StrangeMatter"@,
            Technology::VerticalLaunchingSilo => "VerticalLaunchingSilo"@,
            Technology::QuantumChip => "QuantumChip"@,
            Technology::GravitationalWaveRefraction => "GravitationalWaveRefraction"@,
            Technology::DysonSphereStressSystem => "DysonSphereStressSystem"@,
            Technology::PlanetaryIonosphereUtilization => "PlanetaryIonosphereUtilization"@,
            Technology::QuantumPrintingTechnology => "QuantumPrintingTechnology"@,
            Technology::GravityMatrix => "GravityMatrix"@,
            Technology::DiracInversionMechanism => "DiracInversionMechanism"@,
            Technology::ControlledAnnihilationReaction => "ControlledAnnihilationReaction"@,
            Technology::ArtificialStar => "ArtificialStar"@,
            Technology::UniverseMatrix => "UniverseMatrix"@,
            Technology::MissionCompleted => "MissionCompleted"@,
        }
    }

    proof fn lemma_count_positive() {
    }

    proof fn lemma_index_bounds(self) {
    }

    proof fn lemma_index_roundtrip(self) {
    }

    proof fn lemma_from_index_roundtrip(i: int) {
    }

    fn count() -> (n: usize) {
        71
    }

    fn index(self) -> (i: usize) {
        match self {
            Technology::DysonSphereProgram => 0,
            Technology::Electromagnetism => 1,
            Technology::BasicLogisticsSystem => 2,
            Technology::AutomaticMetallurgy => 3,
            Technology::ElectromagneticMatrix => 4,
            Technology::BasicAssemblingProcesses => 5,
            Technology::FluidStorageEncapsulation => 6,
            Technology::HighEfficiencyPlasmaControl => 7,
            Technology::ElectromagneticDrive => 8,
            Technology::ImprovedLogisticsSystem => 9,
            Technology::SteelSmelting => 10,
            Technology::SmeltingPurification => 11,
            Technology::ThermalPower => 12,
            Technology::PlasmaExtractRefining => 13,
            Technology::AccelerantMK1 => 14,
            Technology::EnvironmentModification => 15,
            Technology::CrystalSmelting => 16,
            Technology::SolarCollection => 17,
            Technology::SemiconductorMaterial => 18,
            Technology::DeuteriumFractionation => 19,
            Technology::BasicChemicalEngineering => 20,
            Technology::EnergyMatrix => 21,
            Technology::MagneticLevitationTechnology => 22,
            Technology::HighEfficiencyLogisticsSystem => 23,
            Technology::TitaniumSmelting => 24,
            Technology::EnergyStorage => 25,
            Technology::PhotonFrequencyConversion => 26,
            Technology::Processor => 27,
            Technology::AppliedSuperconductor => 28,
            Technology::PolymerChemicalEngineering => 29,
            Technology::XRayCracking => 30,
            Technology::HydrogenFuelRod => 31,
            Technology::SuperMagneticFieldGenerator => 32,
            Technology::PlanetaryLogisticsSystem => 33,
            Technology::SolarSailOrbitSystem => 34,
            Technology::HighSpeedAssemblingProcesses => 35,
            Technology::HighStrengthCrystal => 36,
            Technology::Thruster => 37,
            Technology::AccelerantMK2 => 38,
            Technology::MagneticParticleTrap => 39,
            Technology::HighStrengthTitaniumAlloy => 40,
            Technology::HighStrengthLightweightStructure => 41,
            Technology::RayReceiver => 42,
            Technology::MiniFusionPowerGeneration => 43,
            Technology::HighStrengthMaterial => 44,
            Technology::StructureMatrix => 45,
            Technology::ReinforcedThruster => 46,
            Technology::InterstellarLogisticsSystem => 47,
            Technology::InterstellarPowerTransmission => 48,
            Technology::ParticleControlTechnology => 49,
            Technology::HighStrengthGlass => 50,
            Technology::CasimirCrystal => 51,
            Technology::MiniatureParticleCollider => 52,
            Technology::AccelerantMK3 => 53,
            Technology::SatellitePowerDistributionSystem => 54,
            Technology::GasGiantsExplotiation => 55,
            Technology::InformationMatrix => 56,
            Technology::WaveFunctionInterference => 57,
            Technology::StrangeMatter => 58,
            Technology::VerticalLaunchingSilo => 59,
            Technology::QuantumChip => 60,
            Technology::GravitationalWaveRefraction => 61,
            Technology::DysonSphereStressSystem => 62,
            Technology::PlanetaryIonosphereUtilization => 63,
            Technology::QuantumPrintingTechnology => 64,
            Technology::GravityMatrix => 65,
            Technology::DiracInversionMechanism => 66,
            Technology::ControlledAnnihilationReaction => 67,
            Technology::ArtificialStar => 68,
            Technology::UniverseMatrix => 69,
            Technology::MissionCompleted => 70,
        }
    }

    fn from_index(i: usize) -> (e: Self) {
        match i {
            0 => Technology::DysonSphereProgram,
            1 => Technology::Electromagnetism,
            2 => Technology::BasicLogisticsSystem,
            3 => Technology::AutomaticMetallurgy,
            4 => Technology::ElectromagneticMatrix,
            5 => Technology::BasicAssemblingProcesses,
            6 => Technology::FluidStorageEncapsulation,
            7 => Technology::HighEfficiencyPlasmaControl,
            8 => Technology::ElectromagneticDrive,
            9 => Technology::ImprovedLogisticsSystem,
            10 => Technology::SteelSmelting,
            11 => Technology::SmeltingPurification,
            12 => Technology::ThermalPower,
            13 => Technology::PlasmaExtractRefining,
            14 => Technology::AccelerantMK1,
            15 => Technology::EnvironmentModification,
            16 => Technology::CrystalSmelting,
            17 => Technology::SolarCollection,
            18 => Technology::SemiconductorMaterial,
            19 => Technology::DeuteriumFractionation,
            20 => Technology::BasicChemicalEngineering,
            21 => Technology::EnergyMatrix,
            22 => Technology::MagneticLevitationTechnology,
            23 => Technology::HighEfficiencyLogisticsSystem,
            24 => Technology::TitaniumSmelting,
            25 => Technology::EnergyStorage,
            26 => Technology::PhotonFrequencyConversion,
            27 => Technology::Processor,
            28 => Technology::AppliedSuperconductor,
            29 => Technology::PolymerChemicalEngineering,
            30 => Technology::XRayCracking,
            31 => Technology::HydrogenFuelRod,
            32 => Technology::SuperMagneticFieldGenerator,
            33 => Technology::PlanetaryLogisticsSystem,
            34 => Technology::SolarSailOrbitSystem,
            35 => Technology::HighSpeedAssemblingProcesses,
            36 => Technology::HighStrengthCrystal,
            37 => Technology::Thruster,
            38 => Technology::AccelerantMK2,
            39 => Technology::MagneticParticleTrap,
            40 => Technology::HighStrengthTitaniumAlloy,
            41 => Technology::HighStrengthLightweightStructure,
            42 => Technology::RayReceiver,
            43 => Technology::MiniFusionPowerGeneration,
            44 => Technology::HighStrengthMaterial,
            45 => Technology::StructureMatrix,
            46 => Technology::ReinforcedThruster,
            47 => Technology::InterstellarLogisticsSystem,
            48 => Technology::InterstellarPowerTransmission,
            49 => Technology::ParticleControlTechnology,
            50 => Technology::HighStrengthGlass,
            51 => Technology::CasimirCrystal,
            52 => Technology::MiniatureParticleCollider,
            53 => Technology::AccelerantMK3,
            54 => Technology::SatellitePowerDistributionSystem,
            55 => Technology::GasGiantsExplotiation,
            56 => Technology::InformationMatrix,
            57 => Technology::WaveFunctionInterference,
            58 => Technology::StrangeMatter,
            59 => Technology::VerticalLaunchingSilo,
            60 => Technology::QuantumChip,
            61 => Technology::GravitationalWaveRefraction,
            62 => Technology::DysonSphereStressSystem,
            63 => Technology::PlanetaryIonosphereUtilization,
            64 => Technology::QuantumPrintingTechnology,
            65 => Technology::GravityMatrix,
            66 => Technology::DiracInversionMechanism,
            67 => Technology::ControlledAnnihilationReaction,
            68 => Technology::ArtificialStar,
            69 => Technology::UniverseMatrix,
            _ => Technology::MissionCompleted,
        }
    }

    fn name(self) -> (s: &'static str) {
        match self {
            Technology::DysonSphereProgram => "DysonSphereProgram",
            Technology::Electromagnetism => "Electromagnetism",
            Technology::BasicLogisticsSystem => "BasicLogisticsSystem",
            Technology::AutomaticMetallurgy => "AutomaticMetallurgy",
            Technology::ElectromagneticMatrix => "ElectromagneticMatrix",
            Technology::BasicAssemblingProcesses => "BasicAssemblingProcesses",
            Technology::FluidStorageEncapsulation => "FluidStorageEncapsulation",
            Technology::HighEfficiencyPlasmaControl => "HighEfficiencyPlasmaControl",
            Technology::ElectromagneticDrive => "ElectromagneticDrive",
            Technology::ImprovedLogisticsSystem => "ImprovedLogisticsSystem",
            Technology::SteelSmelting => "SteelSmelting",
            Technology::SmeltingPurification => "SmeltingPurification",
            Technology::ThermalPower => "ThermalPower",
            Technology::PlasmaExtractRefining => "PlasmaExtractRefining",
            Technology::AccelerantMK1 => "AccelerantMK1",
            Technology::EnvironmentModification => "EnvironmentModification",
            Technology::CrystalSmelting => "CrystalSmelting",
            Technology::SolarCollection => "SolarCollection",
            Technology::SemiconductorMaterial => "SemiconductorMaterial",
            Technology::DeuteriumFractionation => "DeuteriumFractionation",
            Technology::BasicChemicalEngineering => "BasicChemicalEngineering",
            Technology::EnergyMatrix => "EnergyMatrix",
            Technology::MagneticLevitationTechnology => "MagneticLevitationTechnology",
            Technology::HighEfficiencyLogisticsSystem => "HighEfficiencyLogisticsSystem",
            Technology::TitaniumSmelting => "TitaniumSmelting",
            Technology::EnergyStorage => "EnergyStorage",
            Technology::PhotonFrequencyConversion => "PhotonFrequencyConversion",
            Technology::Processor => "Processor",
            Technology::AppliedSuperconductor => "AppliedSuperconductor",
            Technology::PolymerChemicalEngineering => "PolymerChemicalEngineering",
            Technology::XRayCracking => "XRayCracking",
            Technology::HydrogenFuelRod => "HydrogenFuelRod",
            Technology::SuperMagneticFieldGenerator => "SuperMagneticFieldGenerator",
            Technology::PlanetaryLogisticsSystem => "PlanetaryLogisticsSystem",
            Technology::SolarSailOrbitSystem => "SolarSailOrbitSystem",
            Technology::HighSpeedAssemblingProcesses => "HighSpeedAssemblingProcesses",
            Technology::HighStrengthCrystal => "HighStrengthCrystal",
            Technology::Thruster => "Thruster",
            Technology::AccelerantMK2 => "AccelerantMK2",
            Technology::MagneticParticleTrap => "MagneticParticleTrap",
            Technology::HighStrengthTitaniumAlloy => "HighStrengthTitaniumAlloy",
            Technology::HighStrengthLightweightStructure => "HighStrengthLightweightStructure",
            Technology::RayReceiver => "RayReceiver",
            Technology::MiniFusionPowerGeneration => "MiniFusionPowerGeneration",
            Technology::HighStrengthMaterial => "HighStrengthMaterial",
            Technology::StructureMatrix => "StructureMatrix",
            Technology::ReinforcedThruster => "ReinforcedThruster",
            Technology::InterstellarLogisticsSystem => "InterstellarLogisticsSystem",
            Technology::InterstellarPowerTransmission => "InterstellarPowerTransmission",
            Technology::ParticleControlTechnology => "ParticleControlTechnology",
            Technology::HighStrengthGlass => "HighStrengthGlass",
            Technology::CasimirCrystal => "CasimirCrystal",
            Technology::MiniatureParticleCollider => "MiniatureParticleCollider",
            Technology::AccelerantMK3 => "AccelerantMK3",
            Technology::SatellitePowerDistributionSystem => "SatellitePowerDistributionSystem",
            Technology::GasGiantsExplotiation => "GasGiantsExplotiation",
            Technology::InformationMatrix => "InformationMatrix",
            Technology::WaveFunctionInterference => "WaveFunctionInterference",
            Technology::StrangeMatter => "StrangeMatter",
            Technology::VerticalLaunchingSilo => "VerticalLaunchingSilo",
            Technology::QuantumChip => "QuantumChip",
            Technology::GravitationalWaveRefraction => "GravitationalWaveRefraction",
            Technology::DysonSphereStressSystem => "DysonSphereStressSystem",
            Technology::PlanetaryIonosphereUtilization => "PlanetaryIonosphereUtilization",
            Technology::QuantumPrintingTechnology => "QuantumPrintingTechnology",
            Technology::GravityMatrix => "GravityMatrix",
            Technology::DiracInversionMechanism => "DiracInversionMechanism",
            Technology::ControlledAnnihilationReaction => "ControlledAnnihilationReaction",
            Technology::ArtificialStar => "ArtificialStar",
            Technology::UniverseMatrix => "UniverseMatrix",
            Technology::MissionCompleted => "MissionCompleted",
        }
    }
}

impl Default for Technology {
    /// The root technology is the default.
    fn default() -> (r: Self)
        ensures
            r == Technology::DysonSphereProgram,
    {
        Technology::DysonSphereProgram
    }
}

} // verus!
