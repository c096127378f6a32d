//! The closed enumeration of producers: anything that makes items.

use crate::enumeration::Enumeration;
use vstd::prelude::*;

verus! {

/// Anything that makes items.
#[derive(Clone, Copy, Debug, PartialEq, Eq, Structural)]
pub enum Producer {
    AssemblingMachine,
    Smelter,
    OilRefinery,
    ChemicalPlant,
    Fractionator,
    MatrixLab,
    MiniatureParticleCollider,
    MiningMachine,
    OilExtractor,
    RayReceiver,
    WaterPump,
    OrbitCollector,
}

impl Enumeration for Producer {
    open spec fn count_spec() -> int {
        12
    }

    open spec fn index_spec(self) -> int {
        match self {
            Producer::AssemblingMachine => 0,
            Producer::Smelter => 1,
            Producer::OilRefinery => 2,
            Producer::ChemicalPlant => 3,
            Producer::Fractionator => 4,
            Producer::MatrixLab => 5,
            Producer::MiniatureParticleCollider => 6,
            Producer::MiningMachine => 7,
            Producer::OilExtractor => 8,
            Producer::RayReceiver => 9,
            Producer::WaterPump => 10,
            Producer::OrbitCollector => 11,
        }
    }

    open spec fn from_index_spec(i: int) -> Self {
        if i == 0 {
            Producer::AssemblingMachine
        } else if i == 1 {
            Producer::Smelter
        } else if i == 2 {
            Producer::OilRefinery
        } else if i == 3 {
            Producer::ChemicalPlant
        } else if i == 4 {
            Producer::Fractionator
        } else if i == 5 {
            Producer::MatrixLab
        } else if i == 6 {
            Producer::MiniatureParticleCollider
        } else if i == 7 {
            Producer::MiningMachine
        } else if i == 8 {
            Producer::OilExtractor
        } else if i == 9 {
            Producer::RayReceiver
        } else if i == 10 {
            Producer::WaterPump
        } else {
            Producer::OrbitCollector
        }
    }

    open spec fn name_spec(self) -> Seq<char> {
        match self {
            Producer::AssemblingMachine => "AssemblingMachine"@,
            Producer::Smelter => "Smelter"@,
            Producer::OilRefinery => "OilRefinery"@,
            Producer::ChemicalPlant => "ChemicalPlant"@,
            Producer::Fractionator => "Fractionator"@,
            Producer::MatrixLab => "MatrixLab"@,
            Producer::MiniatureParticleCollider => "MiniatureParticleCollider"@,
            Producer::MiningMachine => "MiningMachine"@,
            Producer::OilExtractor => "OilExtractor"@,
            Producer::RayReceiver => "RayReceiver"@,
            Producer::WaterPump => "WaterPump"@,
            Producer::OrbitCollector => "OrbitCollector"@,
        }
    }

    proof fn lemma_count_positive() {
    }

    proof fn lemma_index_bounds(self) {
    }

    proof fn lemma_index_roundtrip(self) {
    }

    proof fn lemma_from_index_roundtrip(i: int) {
    }

    fn count() -> (n: usize) {
        12
    }

    fn index(self) -> (i: usize) {
        match self {
            Producer::AssemblingMachine => 0,
            Producer::Smelter => 1,
            Producer::OilRefinery => 2,
            Producer::ChemicalPlant => 3,
            Producer::Fractionator => 4,
            Producer::MatrixLab => 5,
            Producer::MiniatureParticleCollider => 6,
            Producer::MiningMachine => 7,
            Producer::OilExtractor => 8,
            Producer::RayReceiver => 9,
            Producer::WaterPump => 10,
            Producer::OrbitCollector => 11,
        }
    }

    fn from_index(i: usize) -> (e: Self) {
        match i {
            0 => Producer::AssemblingMachine,
            1 => Producer::Smelter,
            2 => Producer::OilRefinery,
            3 => Producer::ChemicalPlant,
            4 => Producer::Fractionator,
            5 => Producer::MatrixLab,
            6 => Producer::MiniatureParticleCollider,
            7 => Producer::MiningMachine,
            8 => Producer::OilExtractor,
            9 => Producer::RayReceiver,
            10 => Producer::WaterPump,
            _ => Producer::OrbitCollector,
        }
    }

    fn name(self) -> (s: &'static str) {
        match self {
            Producer::AssemblingMachine => "AssemblingMachine",
            Producer::Smelter => "Smelter",
            Producer::OilRefinery => "OilRefinery",
            Producer::ChemicalPlant => "ChemicalPlant",
            Producer::Fractionator => "Fractionator",
            Producer::MatrixLab => "MatrixLab",
            Producer::MiniatureParticleCollider => "MiniatureParticleCollider",
            Producer::MiningMachine => "MiningMachine",
            Producer::OilExtractor => "OilExtractor",
            Producer::RayReceiver => "RayReceiver",
            Producer::WaterPump => "WaterPump",
            Producer::OrbitCollector => "OrbitCollector",
        }
    }
}

} // verus!
