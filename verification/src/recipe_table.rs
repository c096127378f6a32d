//! The recipe table: a total mapping from each recipe identifier to its
//! definition, as declared.
//!
//! The table is literal data; its mathematical model is the spec-level table
//! [`recipe_model`], and the executable table is proved to match it entry by
//! entry.  Counts and times are held in hundredths (see
//! [`crate::items::ItemStack`]).

use crate::generator::RecipeEntry;
use crate::items::{Item, ItemStack};
use crate::producers::Producer;
use crate::recipes::Recipe;
use crate::technologies::Technology;
use vstd::prelude::*;

verus! {

/// The mathematical model of one recipe definition: what the recipe consumes
/// and yields (ordered as declared, in hundredths of an item), how long it
/// takes (in hundredths of a second), where it is made, whether it can be
/// crafted by hand, and which technology unlocks it.
#[verifier::ext_equal]
pub struct RecipeModel {
    pub recipe: Recipe,
    pub ingredients: Seq<ItemStack>,
    pub time_centi: int,
    pub results: Seq<ItemStack>,
    pub made_in: Producer,
    pub handcraftable: bool,
    pub unlocked_by: Technology,
}

/// A stack of `count_centi` hundredths of `item`.
pub open spec fn stack(item: Item, count_centi: u64) -> ItemStack {
    ItemStack { item, count_centi }
}

/// Build a stack of `count_centi` hundredths of `item`.  Whole items are
/// multiples of one hundred; a fractional expected yield such as one
/// hundredth of a deuterium is simply `1`.
fn is_centi(item: Item, count_centi: u64) -> (s: ItemStack)
    ensures
        s == stack(item, count_centi),
{
    ItemStack { item, count_centi }
}

fn stacks0() -> (v: Vec<ItemStack>)
    ensures
        v@ == Seq::<ItemStack>::empty(),
{
    let v: Vec<ItemStack> = Vec::new();
    proof {
        assert(v@ =~= Seq::<ItemStack>::empty());
    }
    v
}

fn stacks1(s0: ItemStack) -> (v: Vec<ItemStack>)
    ensures
        v@ == seq![s0],
{
    let mut v: Vec<ItemStack> = Vec::new();
    v.push(s0);
    proof {
        assert(v@ =~= seq![s0]);
    }
    v
}

fn stacks2(s0: ItemStack, s1: ItemStack) -> (v: Vec<ItemStack>)
    ensures
        v@ == seq![s0, s1],
{
    let mut v: Vec<ItemStack> = Vec::new();
    v.push(s0);
    v.push(s1);
    proof {
        assert(v@ =~= seq![s0, s1]);
    }
    v
}

fn stacks3(s0: ItemStack, s1: ItemStack, s2: ItemStack) -> (v: Vec<ItemStack>)
    ensures
        v@ == seq![s0, s1, s2],
{
    let mut v: Vec<ItemStack> = Vec::new();
    v.push(s0);
    v.push(s1);
    v.push(s2);
    proof {
        assert(v@ =~= seq![s0, s1, s2]);
    }
    v
}

fn stacks4(s0: ItemStack, s1: ItemStack, s2: ItemStack, s3: ItemStack) -> (v: Vec<ItemStack>)
    ensures
        v@ == seq![s0, s1, s2, s3],
{
    let mut v: Vec<ItemStack> = Vec::new();
    v.push(s0);
    v.push(s1);
    v.push(s2);
    v.push(s3);
    proof {
        assert(v@ =~= seq![s0, s1, s2, s3]);
    }
    v
}

fn stacks5(s0: ItemStack, s1: ItemStack, s2: ItemStack, s3: ItemStack, s4: ItemStack) -> (v: Vec<ItemStack>)
    ensures
        v@ == seq![s0, s1, s2, s3, s4],
{
    let mut v: Vec<ItemStack> = Vec::new();
    v.push(s0);
    v.push(s1);
    v.push(s2);
    v.push(s3);
    v.push(s4);
    proof {
        assert(v@ =~= seq![s0, s1, s2, s3, s4]);
    }
    v
}

fn stacks6(s0: ItemStack, s1: ItemStack, s2: ItemStack, s3: ItemStack, s4: ItemStack, s5: ItemStack) -> (v: Vec<ItemStack>)
    ensures
        v@ == seq![s0, s1, s2, s3, s4, s5],
{
    let mut v: Vec<ItemStack> = Vec::new();
    v.push(s0);
    v.push(s1);
    v.push(s2);
    v.push(s3);
    v.push(s4);
    v.push(s5);
    proof {
        assert(v@ =~= seq![s0, s1, s2, s3, s4, s5]);
    }
    v
}

/// The recipe table itself, as a total function on the recipe enumeration.
pub open spec fn recipe_model(recipe: Recipe) -> RecipeModel {
    match recipe {
        Recipe::IronSmelting => RecipeModel {
            recipe,
            ingredients: seq![stack(Item::IronOre, 100)],
            time_centi: 100,
            results: seq![stack(Item::IronIngot, 100)],
            made_in: Producer::Smelter,
            handcraftable: true,
            unlocked_by: Technology::DysonSphereProgram,
        },
        Recipe::MagnetSmelting => RecipeModel {
            recipe,
            ingredients: seq![stack(Item::IronOre, 100)],
            time_centi: 150,
            results: seq![stack(Item::Magnet, 100)],
            made_in: Producer::Smelter,
            handcraftable: true,
            unlocked_by: Technology::DysonSphereProgram,
        },
        Recipe::CopperSmelting => RecipeModel {
            recipe,
            ingredients: seq![stack(Item::CopperOre, 100)],
            time_centi: 100,
            results: seq![stack(Item::CopperIngot, 100)],
            made_in: Producer::Smelter,
            handcraftable: true,
            unlocked_by: Technology::DysonSphereProgram,
        },
        Recipe::StoneSmelting => RecipeModel {
            recipe,
            ingredients: seq![stack(Item::StoneOre, 100)],
            time_centi: 100,
            results: seq![stack(Item::StoneBrick, 100)],
            made_in: Producer::Smelter,
            handcraftable: true,
            unlocked_by: Technology::DysonSphereProgram,
        },
        Recipe::Gear => RecipeModel {
            recipe,
            ingredients: seq![stack(Item::IronIngot, 100)],
            time_centi: 100,
            results: seq![stack(Item::Gear, 100)],
            made_in: Producer::AssemblingMachine,
            handcraftable: true,
            unlocked_by: Technology::DysonSphereProgram,
        },
        Recipe::Electromagnet => RecipeModel {
            recipe,
            ingredients: seq![stack(Item::Magnet, 200), stack(Item::CopperIngot, 100)],
            time_centi: 100,
            results: seq![stack(Item::Electromagnet, 200)],
            made_in: Producer::AssemblingMachine,
            handcraftable: true,
            unlocked_by: Technology::DysonSphereProgram,
        },
        Recipe::WindTurbine => RecipeModel {
            recipe,
            ingredients: seq![stack(Item::IronIngot, 600), stack(Item::Gear, 100), stack(Item::Electromagnet, 300)],
            time_centi: 400,
            results: seq![stack(Item::WindTurbine, 100)],
            made_in: Producer::AssemblingMachine,
            handcraftable: true,
            unlocked_by: Technology::DysonSphereProgram,
        },
        Recipe::TeslaTower => RecipeModel {
            recipe,
            ingredients: seq![stack(Item::IronIngot, 200), stack(Item::Electromagnet, 100)],
            time_centi: 100,
            results: seq![stack(Item::TeslaTower, 100)],
            made_in: Producer::AssemblingMachine,
            handcraftable: true,
            unlocked_by: Technology::DysonSphereProgram,
        },
        Recipe::ElectromagneticMatrix => RecipeModel {
            recipe,
            ingredients: seq![stack(Item::Electromagnet, 100), stack(Item::CircuitBoard, 100)],
            time_centi: 300,
            results: seq![stack(Item::ElectromagneticMatrix, 100)],
            made_in: Producer::MatrixLab,
            handcraftable: true,
            unlocked_by: Technology::DysonSphereProgram,
        },
        Recipe::MatrixLab => RecipeModel {
            recipe,
            ingredients: seq![stack(Item::IronIngot, 800), stack(Item::Glass, 400), stack(Item::CircuitBoard, 400), stack(Item::Electromagnet, 400)],
            time_centi: 300,
            results: seq![stack(Item::MatrixLab, 100)],
            made_in: Producer::AssemblingMachine,
            handcraftable: true,
            unlocked_by: Technology::DysonSphereProgram,
        },
        Recipe::Prism => RecipeModel {
            recipe,
            ingredients: seq![stack(Item::Glass, 300)],
            time_centi: 200,
            results: seq![stack(Item::Prism, 200)],
            made_in: Producer::AssemblingMachine,
            handcraftable: true,
            unlocked_by: Technology::DysonSphereProgram,
        },
        Recipe::PlasmaExciter => RecipeModel {
            recipe,
            ingredients: seq![stack(Item::Electromagnet, 400), stack(Item::Prism, 200)],
            time_centi: 200,
            results: seq![stack(Item::PlasmaExciter, 100)],
            made_in: Producer::AssemblingMachine,
            handcraftable: true,
            unlocked_by: Technology::DysonSphereProgram,
        },
        Recipe::WirelessPowerTower => RecipeModel {
            recipe,
            ingredients: seq![stack(Item::TeslaTower, 100), stack(Item::PlasmaExciter, 300)],
            time_centi: 300,
            results: seq![stack(Item::WirelessPowerTower, 100)],
            made_in: Producer::AssemblingMachine,
            handcraftable: true,
            unlocked_by: Technology::DysonSphereProgram,
        },
        Recipe::OilExtractor => RecipeModel {
            recipe,
            ingredients: seq![stack(Item::Steel, 1200), stack(Item::StoneBrick, 1200), stack(Item::CircuitBoard, 600), stack(Item::PlasmaExciter, 400)],
            time_centi: 800,
            results: seq![stack(Item::OilExtractor, 100)],
            made_in: Producer::AssemblingMachine,
            handcraftable: true,
            unlocked_by: Technology::DysonSphereProgram,
        },
        Recipe::OilRefinery => RecipeModel {
            recipe,
            ingredients: seq![stack(Item::Steel, 1000), stack(Item::StoneBrick, 1000), stack(Item::CircuitBoard, 600), stack(Item::PlasmaExciter, 600)],
            time_centi: 600,
            results: seq![stack(Item::OilRefinery, 100)],
            made_in: Producer::AssemblingMachine,
            handcraftable: true,
            unlocked_by: Technology::DysonSphereProgram,
        },
        Recipe::PlasmaRefining => RecipeModel {
            recipe,
            ingredients: seq![stack(Item::CrudeOil, 200)],
            time_centi: 400,
            results: seq![stack(Item::Hydrogen, 100), stack(Item::RefinedOil, 200)],
            made_in: Producer::OilRefinery,
            handcraftable: true,
            unlocked_by: Technology::DysonSphereProgram,
        },
        Recipe::GraphiteSmelting => RecipeModel {
            recipe,
            ingredients: seq![stack(Item::CoalOre, 200)],
            time_centi: 200,
            results: seq![stack(Item::EnergeticGraphite, 100)],
            made_in: Producer::Smelter,
            handcraftable: true,
            unlocked_by: Technology::DysonSphereProgram,
        },
        Recipe::EnergyMatrix => RecipeModel {
            recipe,
            ingredients: seq![stack(Item::EnergeticGraphite, 200), stack(Item::Hydrogen, 200)],
            time_centi: 600,
            results: seq![stack(Item::EnergyMatrix, 100)],
            made_in: Producer::MatrixLab,
            handcraftable: true,
            unlocked_by: Technology::DysonSphereProgram,
        },
        Recipe::HydrogenFuelRod => RecipeModel {
            recipe,
            ingredients: seq![stack(Item::TitaniumIngot, 100), stack(Item::Hydrogen, 500)],
            time_centi: 300,
            results: seq![stack(Item::HydrogenFuelRod, 100)],
            made_in: Producer::AssemblingMachine,
            handcraftable: true,
            unlocked_by: Technology::DysonSphereProgram,
        },
        Recipe::Thruster => RecipeModel {
            recipe,
            ingredients: seq![stack(Item::Steel, 200), stack(Item::CopperIngot, 300)],
            time_centi: 400,
            results: seq![stack(Item::Thruster, 100)],
            made_in: Producer::AssemblingMachine,
            handcraftable: true,
            unlocked_by: Technology::DysonSphereProgram,
        },
        Recipe::ReinforcedThruster => RecipeModel {
            recipe,
            ingredients: seq![stack(Item::TitaniumAlloy, 500), stack(Item::ElectromagneticTurbine, 500)],
            time_centi: 600,
            results: seq![stack(Item::ReinforcedThruster, 100)],
            made_in: Producer::AssemblingMachine,
            handcraftable: true,
            unlocked_by: Technology::DysonSphereProgram,
        },
        Recipe::ChemicalPlant => RecipeModel {
            recipe,
            ingredients: seq![stack(Item::Steel, 800), stack(Item::StoneBrick, 800), stack(Item::Glass, 800), stack(Item::CircuitBoard, 200)],
            time_centi: 500,
            results: seq![stack(Item::ChemicalPlant, 100)],
            made_in: Producer::AssemblingMachine,
            handcraftable: true,
            unlocked_by: Technology::DysonSphereProgram,
        },
        Recipe::Plastic => RecipeModel {
            recipe,
            ingredients: seq![stack(Item::RefinedOil, 200), stack(Item::EnergeticGraphite, 100)],
            time_centi: 300,
            results: seq![stack(Item::Plastic, 100)],
            made_in: Producer::ChemicalPlant,
            handcraftable: true,
            unlocked_by: Technology::DysonSphereProgram,
        },
        Recipe::SulfuricAcidFromStone => RecipeModel {
            recipe,
            ingredients: seq![stack(Item::RefinedOil, 600), stack(Item::StoneOre, 800), stack(Item::Water, 400)],
            time_centi: 600,
            results: seq![stack(Item::SulfuricAcid, 400)],
            made_in: Producer::ChemicalPlant,
            handcraftable: true,
            unlocked_by: Technology::DysonSphereProgram,
        },
        Recipe::OrganicCrystalFromPlastic => RecipeModel {
            recipe,
            ingredients: seq![stack(Item::Plastic, 200), stack(Item::RefinedOil, 100), stack(Item::Water, 100)],
            time_centi: 600,
            results: seq![stack(Item::OrganicCrystal, 100)],
            made_in: Producer::ChemicalPlant,
            handcraftable: true,
            unlocked_by: Technology::DysonSphereProgram,
        },
        Recipe::TitaniumCrystal => RecipeModel {
            recipe,
            ingredients: seq![stack(Item::OrganicCrystal, 100), stack(Item::TitaniumIngot, 300)],
            time_centi: 400,
            results: seq![stack(Item::TitaniumCrystal, 100)],
            made_in: Producer::AssemblingMachine,
            handcraftable: true,
            unlocked_by: Technology::DysonSphereProgram,
        },
        Recipe::StructureMatrix => RecipeModel {
            recipe,
            ingredients: seq![stack(Item::Diamond, 100), stack(Item::TitaniumCrystal, 100)],
            time_centi: 800,
            results: seq![stack(Item::StructureMatrix, 100)],
            made_in: Producer::MatrixLab,
            handcraftable: true,
            unlocked_by: Technology::DysonSphereProgram,
        },
        Recipe::CasimirCrystalFromTitanium => RecipeModel {
            recipe,
            ingredients: seq![stack(Item::TitaniumCrystal, 100), stack(Item::Graphene, 200), stack(Item::Hydrogen, 1200)],
            time_centi: 400,
            results: seq![stack(Item::CasimirCrystal, 100)],
            made_in: Producer::AssemblingMachine,
            handcraftable: true,
            unlocked_by: Technology::DysonSphereProgram,
        },
        Recipe::CasimirCrystalFromOpticalGratingCrystal => RecipeModel {
            recipe,
            ingredients: seq![stack(Item::OpticalGratingCrystal, 600), stack(Item::Graphene, 200), stack(Item::Hydrogen, 1200)],
            time_centi: 400,
            results: seq![stack(Item::CasimirCrystal, 100)],
            made_in: Producer::AssemblingMachine,
            handcraftable: true,
            unlocked_by: Technology::DysonSphereProgram,
        },
        Recipe::TitaniumGlass => RecipeModel {
            recipe,
            ingredients: seq![stack(Item::Glass, 200), stack(Item::TitaniumIngot, 200), stack(Item::Water, 200)],
            time_centi: 500,
            results: seq![stack(Item::TitaniumGlass, 200)],
            made_in: Producer::AssemblingMachine,
            handcraftable: true,
            unlocked_by: Technology::DysonSphereProgram,
        },
        Recipe::GrapheneFromGraphiteAndSulfuric => RecipeModel {
            recipe,
            ingredients: seq![stack(Item::EnergeticGraphite, 300), stack(Item::SulfuricAcid, 100)],
            time_centi: 300,
            results: seq![stack(Item::Graphene, 200)],
            made_in: Producer::ChemicalPlant,
            handcraftable: true,
            unlocked_by: Technology::DysonSphereProgram,
        },
        Recipe::GrapheneFromFireIce => RecipeModel {
            recipe,
            ingredients: seq![stack(Item::FireIce, 200)],
            time_centi: 200,
            results: seq![stack(Item::Graphene, 200), stack(Item::Hydrogen, 100)],
            made_in: Producer::ChemicalPlant,
            handcraftable: true,
            unlocked_by: Technology::DysonSphereProgram,
        },
        Recipe::CarbonNanotubeFromGraphene => RecipeModel {
            recipe,
            ingredients: seq![stack(Item::Graphene, 300), stack(Item::TitaniumIngot, 100)],
            time_centi: 400,
            results: seq![stack(Item::CarbonNanotube, 200)],
            made_in: Producer::ChemicalPlant,
            handcraftable: true,
            unlocked_by: Technology::DysonSphereProgram,
        },
        Recipe::SiliconOreFromStone => RecipeModel {
            recipe,
            ingredients: seq![stack(Item::StoneOre, 1000)],
            time_centi: 1000,
            results: seq![stack(Item::SiliconOre, 100)],
            made_in: Producer::Smelter,
            handcraftable: true,
            unlocked_by: Technology::DysonSphereProgram,
        },
        Recipe::CarbonNanotubeFromSpiniform => RecipeModel {
            recipe,
            ingredients: seq![stack(Item::SpiniformStalagmiteCrystal, 200)],
            time_centi: 400,
            results: seq![stack(Item::CarbonNanotube, 200)],
            made_in: Producer::ChemicalPlant,
            handcraftable: true,
            unlocked_by: Technology::DysonSphereProgram,
        },
        Recipe::ParticleBroadband => RecipeModel {
            recipe,
            ingredients: seq![stack(Item::CarbonNanotube, 200), stack(Item::CrystalSilicon, 200), stack(Item::Plastic, 100)],
            time_centi: 800,
            results: seq![stack(Item::ParticleBroadband, 100)],
            made_in: Producer::AssemblingMachine,
            handcraftable: true,
            unlocked_by: Technology::DysonSphereProgram,
        },
        Recipe::CrystalSiliconFromIngot => RecipeModel {
            recipe,
            ingredients: seq![stack(Item::HighPuritySilicon, 100)],
            time_centi: 200,
            results: seq![stack(Item::CrystalSilicon, 100)],
            made_in: Producer::Smelter,
            handcraftable: true,
            unlocked_by: Technology::DysonSphereProgram,
        },
        Recipe::PlaneFilter => RecipeModel {
            recipe,
            ingredients: seq![stack(Item::CasimirCrystal, 100), stack(Item::TitaniumGlass, 200)],
            time_centi: 1200,
            results: seq![stack(Item::PlaneFilter, 100)],
            made_in: Producer::AssemblingMachine,
            handcraftable: true,
            unlocked_by: Technology::DysonSphereProgram,
        },
        Recipe::MiniatureParticleCollider => RecipeModel {
            recipe,
            ingredients: seq![stack(Item::TitaniumAlloy, 2000), stack(Item::FrameMaterial, 2000), stack(Item::SuperMagneticRing, 5000), stack(Item::Graphene, 1000), stack(Item::Processor, 800)],
            time_centi: 1500,
            results: seq![stack(Item::MiniatureParticleCollider, 100)],
            made_in: Producer::AssemblingMachine,
            handcraftable: true,
            unlocked_by: Technology::DysonSphereProgram,
        },
        Recipe::DeuteriumInParticleCollider => RecipeModel {
            recipe,
            ingredients: seq![stack(Item::Hydrogen, 1000)],
            time_centi: 500,
            results: seq![stack(Item::Deuterium, 500)],
            made_in: Producer::MiniatureParticleCollider,
            handcraftable: true,
            unlocked_by: Technology::DysonSphereProgram,
        },
        Recipe::DeuteronFuelRod => RecipeModel {
            recipe,
            ingredients: seq![stack(Item::TitaniumAlloy, 100), stack(Item::Deuterium, 1000), stack(Item::SuperMagneticRing, 100)],
            time_centi: 600,
            results: seq![stack(Item::DeuteronFuelRod, 100)],
            made_in: Producer::AssemblingMachine,
            handcraftable: true,
            unlocked_by: Technology::DysonSphereProgram,
        },
        Recipe::AnnihilationConstraintSphere => RecipeModel {
            recipe,
            ingredients: seq![stack(Item::ParticleContainer, 100), stack(Item::Processor, 100)],
            time_centi: 2000,
            results: seq![stack(Item::AnnihilationConstraintSphere, 100)],
            made_in: Producer::AssemblingMachine,
            handcraftable: true,
            unlocked_by: Technology::DysonSphereProgram,
        },
        Recipe::ArtificialStar => RecipeModel {
            recipe,
            ingredients: seq![stack(Item::TitaniumAlloy, 2000), stack(Item::FrameMaterial, 2000), stack(Item::AnnihilationConstraintSphere, 1000), stack(Item::QuantumChip, 1000)],
            time_centi: 3000,
            results: seq![stack(Item::ArtificialStar, 100)],
            made_in: Producer::AssemblingMachine,
            handcraftable: true,
            unlocked_by: Technology::DysonSphereProgram,
        },
        Recipe::AntimatterFuelRod => RecipeModel {
            recipe,
            ingredients: seq![stack(Item::Antimatter, 1000), stack(Item::Hydrogen, 1000), stack(Item::AnnihilationConstraintSphere, 100), stack(Item::TitaniumAlloy, 100)],
            time_centi: 1200,
            results: seq![stack(Item::AntimatterFuelRod, 100)],
            made_in: Producer::AssemblingMachine,
            handcraftable: true,
            unlocked_by: Technology::DysonSphereProgram,
        },
        Recipe::AssemblingMachineMK1 => RecipeModel {
            recipe,
            ingredients: seq![stack(Item::IronIngot, 400), stack(Item::Gear, 800), stack(Item::CircuitBoard, 400)],
            time_centi: 200,
            results: seq![stack(Item::AssemblingMachineMK1, 100)],
            made_in: Producer::AssemblingMachine,
            handcraftable: true,
            unlocked_by: Technology::DysonSphereProgram,
        },
        Recipe::AssemblingMachineMK2 => RecipeModel {
            recipe,
            ingredients: seq![stack(Item::AssemblingMachineMK1, 100), stack(Item::Graphene, 800), stack(Item::Processor, 400)],
            time_centi: 300,
            results: seq![stack(Item::AssemblingMachineMK2, 100)],
            made_in: Producer::AssemblingMachine,
            handcraftable: true,
            unlocked_by: Technology::DysonSphereProgram,
        },
        Recipe::AssemblingMachineMK3 => RecipeModel {
            recipe,
            ingredients: seq![stack(Item::AssemblingMachineMK2, 100), stack(Item::ParticleBroadband, 800), stack(Item::QuantumChip, 200)],
            time_centi: 400,
            results: seq![stack(Item::AssemblingMachineMK3, 100)],
            made_in: Producer::AssemblingMachine,
            handcraftable: true,
            unlocked_by: Technology::DysonSphereProgram,
        },
        Recipe::MiningMachine => RecipeModel {
            recipe,
            ingredients: seq![stack(Item::IronIngot, 400), stack(Item::CircuitBoard, 200), stack(Item::Electromagnet, 200), stack(Item::Gear, 200)],
            time_centi: 300,
            results: seq![stack(Item::MiningMachine, 100)],
            made_in: Producer::AssemblingMachine,
            handcraftable: true,
            unlocked_by: Technology::DysonSphereProgram,
        },
        Recipe::WaterPump => RecipeModel {
            recipe,
            ingredients: seq![stack(Item::IronIngot, 800), stack(Item::StoneBrick, 400), stack(Item::Motor, 400), stack(Item::CircuitBoard, 200)],
            time_centi: 400,
            results: seq![stack(Item::WaterPump, 100)],
            made_in: Producer::AssemblingMachine,
            handcraftable: true,
            unlocked_by: Technology::DysonSphereProgram,
        },
        Recipe::CircuitBoard => RecipeModel {
            recipe,
            ingredients: seq![stack(Item::IronIngot, 200), stack(Item::CopperIngot, 100)],
            time_centi: 100,
            results: seq![stack(Item::CircuitBoard, 200)],
            made_in: Producer::AssemblingMachine,
            handcraftable: true,
            unlocked_by: Technology::DysonSphereProgram,
        },
        Recipe::Processor => RecipeModel {
            recipe,
            ingredients: seq![stack(Item::CircuitBoard, 200), stack(Item::MicrocrystallineComponent, 200)],
            time_centi: 300,
            results: seq![stack(Item::Processor, 100)],
            made_in: Producer::AssemblingMachine,
            handcraftable: true,
            unlocked_by: Technology::DysonSphereProgram,
        },
        Recipe::QuantumChip => RecipeModel {
            recipe,
            ingredients: seq![stack(Item::Processor, 200), stack(Item::PlaneFilter, 200)],
            time_centi: 600,
            results: seq![stack(Item::QuantumChip, 100)],
            made_in: Producer::AssemblingMachine,
            handcraftable: true,
            unlocked_by: Technology::DysonSphereProgram,
        },
        Recipe::MicrocrystallineComponent => RecipeModel {
            recipe,
            ingredients: seq![stack(Item::HighPuritySilicon, 200), stack(Item::CopperIngot, 100)],
            time_centi: 200,
            results: seq![stack(Item::MicrocrystallineComponent, 100)],
            made_in: Producer::AssemblingMachine,
            handcraftable: true,
            unlocked_by: Technology::DysonSphereProgram,
        },
        Recipe::OrganicCrystalFromWood => RecipeModel {
            recipe,
            ingredients: seq![stack(Item::Log, 2000), stack(Item::PlantFuel, 3000), stack(Item::Water, 1000)],
            time_centi: 600,
            results: seq![stack(Item::OrganicCrystal, 100)],
            made_in: Producer::AssemblingMachine,
            handcraftable: true,
            unlocked_by: Technology::DysonSphereProgram,
        },
        Recipe::InformationMatrix => RecipeModel {
            recipe,
            ingredients: seq![stack(Item::Processor, 200), stack(Item::ParticleBroadband, 100)],
            time_centi: 1000,
            results: seq![stack(Item::InformationMatrix, 100)],
            made_in: Producer::MatrixLab,
            handcraftable: true,
            unlocked_by: Technology::DysonSphereProgram,
        },
        Recipe::Smelter => RecipeModel {
            recipe,
            ingredients: seq![stack(Item::IronIngot, 400), stack(Item::StoneBrick, 200), stack(Item::CircuitBoard, 400), stack(Item::Electromagnet, 200)],
            time_centi: 300,
            results: seq![stack(Item::Smelter, 100)],
            made_in: Producer::AssemblingMachine,
            handcraftable: true,
            unlocked_by: Technology::DysonSphereProgram,
        },
        Recipe::GlassSmelting => RecipeModel {
            recipe,
            ingredients: seq![stack(Item::StoneOre, 200)],
            time_centi: 200,
            results: seq![stack(Item::Glass, 100)],
            made_in: Producer::Smelter,
            handcraftable: true,
            unlocked_by: Technology::DysonSphereProgram,
        },
        Recipe::XRayCracking => RecipeModel {
            recipe,
            ingredients: seq![stack(Item::RefinedOil, 100), stack(Item::Hydrogen, 200)],
            time_centi: 400,
            results: seq![stack(Item::Hydrogen, 300), stack(Item::EnergeticGraphite, 100)],
            made_in: Producer::OilRefinery,
            handcraftable: true,
            unlocked_by: Technology::DysonSphereProgram,
        },
        Recipe::SiliconSmelting => RecipeModel {
            recipe,
            ingredients: seq![stack(Item::SiliconOre, 200)],
            time_centi: 200,
            results: seq![stack(Item::HighPuritySilicon, 100)],
            made_in: Producer::Smelter,
            handcraftable: true,
            unlocked_by: Technology::DysonSphereProgram,
        },
        Recipe::DiamondFromGraphite => RecipeModel {
            recipe,
            ingredients: seq![stack(Item::EnergeticGraphite, 100)],
            time_centi: 200,
            results: seq![stack(Item::Diamond, 100)],
            made_in: Producer::Smelter,
            handcraftable: true,
            unlocked_by: Technology::DysonSphereProgram,
        },
        Recipe::DiamondFromKimberlite => RecipeModel {
            recipe,
            ingredients: seq![stack(Item::Kimberlite, 100)],
            time_centi: 200,
            results: seq![stack(Item::Diamond, 100)],
            made_in: Producer::Smelter,
            handcraftable: true,
            unlocked_by: Technology::DysonSphereProgram,
        },
        Recipe::CrystalSiliconFromFractal => RecipeModel {
            recipe,
            ingredients: seq![stack(Item::FractalSilicon, 100)],
            time_centi: 400,
            results: seq![stack(Item::CrystalSilicon, 100)],
            made_in: Producer::AssemblingMachine,
            handcraftable: true,
            unlocked_by: Technology::DysonSphereProgram,
        },
        Recipe::SteelSmelting => RecipeModel {
            recipe,
            ingredients: seq![stack(Item::IronIngot, 300)],
            time_centi: 300,
            results: seq![stack(Item::Steel, 100)],
            made_in: Producer::Smelter,
            handcraftable: true,
            unlocked_by: Technology::DysonSphereProgram,
        },
        Recipe::ThermalPowerStation => RecipeModel {
            recipe,
            ingredients: seq![stack(Item::IronIngot, 1000), stack(Item::StoneBrick, 400), stack(Item::Gear, 400), stack(Item::Electromagnet, 400)],
            time_centi: 500,
            results: seq![stack(Item::ThermalPowerStation, 100)],
            made_in: Producer::AssemblingMachine,
            handcraftable: true,
            unlocked_by: Technology::DysonSphereProgram,
        },
        Recipe::TitaniumSmelting => RecipeModel {
            recipe,
            ingredients: seq![stack(Item::TitaniumOre, 200)],
            time_centi: 200,
            results: seq![stack(Item::TitaniumIngot, 100)],
            made_in: Producer::Smelter,
            handcraftable: true,
            unlocked_by: Technology::DysonSphereProgram,
        },
        Recipe::TitaniumAlloy => RecipeModel {
            recipe,
            ingredients: seq![stack(Item::TitaniumIngot, 400), stack(Item::Steel, 400), stack(Item::SulfuricAcid, 800)],
            time_centi: 1200,
            results: seq![stack(Item::TitaniumAlloy, 400)],
            made_in: Producer::Smelter,
            handcraftable: true,
            unlocked_by: Technology::DysonSphereProgram,
        },
        Recipe::SolarPanel => RecipeModel {
            recipe,
            ingredients: seq![stack(Item::CopperIngot, 600), stack(Item::HighPuritySilicon, 600), stack(Item::CircuitBoard, 400)],
            time_centi: 500,
            results: seq![stack(Item::SolarPanel, 100)],
            made_in: Producer::AssemblingMachine,
            handcraftable: true,
            unlocked_by: Technology::DysonSphereProgram,
        },
        Recipe::PhotonCombinerFromPrism => RecipeModel {
            recipe,
            ingredients: seq![stack(Item::Prism, 200), stack(Item::CircuitBoard, 100)],
            time_centi: 300,
            results: seq![stack(Item::PhotonCombiner, 100)],
            made_in: Producer::AssemblingMachine,
            handcraftable: true,
            unlocked_by: Technology::DysonSphereProgram,
        },
        Recipe::PhotonCombinerFromCrystal => RecipeModel {
            recipe,
            ingredients: seq![stack(Item::OpticalGratingCrystal, 100), stack(Item::CircuitBoard, 100)],
            time_centi: 300,
            results: seq![stack(Item::PhotonCombiner, 100)],
            made_in: Producer::AssemblingMachine,
            handcraftable: true,
            unlocked_by: Technology::DysonSphereProgram,
        },
        Recipe::EMRailEjector => RecipeModel {
            recipe,
            ingredients: seq![stack(Item::Steel, 2000), stack(Item::Gear, 2000), stack(Item::Processor, 500), stack(Item::SuperMagneticRing, 1000)],
            time_centi: 600,
            results: seq![stack(Item::EMRailEjector, 100)],
            made_in: Producer::AssemblingMachine,
            handcraftable: true,
            unlocked_by: Technology::DysonSphereProgram,
        },
        Recipe::RayReceiver => RecipeModel {
            recipe,
            ingredients: seq![stack(Item::Steel, 2000), stack(Item::HighPuritySilicon, 2000), stack(Item::PhotonCombiner, 1000), stack(Item::Processor, 500), stack(Item::SuperMagneticRing, 2000)],
            time_centi: 800,
            results: seq![stack(Item::RayReceiver, 100)],
            made_in: Producer::AssemblingMachine,
            handcraftable: true,
            unlocked_by: Technology::DysonSphereProgram,
        },
        Recipe::SatelliteSubstation => RecipeModel {
            recipe,
            ingredients: seq![stack(Item::WirelessPowerTower, 100), stack(Item::SuperMagneticRing, 1000), stack(Item::FrameMaterial, 200)],
            time_centi: 500,
            results: seq![stack(Item::SatelliteSubstation, 100)],
            made_in: Producer::AssemblingMachine,
            handcraftable: true,
            unlocked_by: Technology::DysonSphereProgram,
        },
        Recipe::DiracInversion => RecipeModel {
            recipe,
            ingredients: seq![stack(Item::CriticalPhoton, 200)],
            time_centi: 200,
            results: seq![stack(Item::Antimatter, 200), stack(Item::Hydrogen, 200)],
            made_in: Producer::MiniatureParticleCollider,
            handcraftable: true,
            unlocked_by: Technology::DysonSphereProgram,
        },
        Recipe::UniverseMatrix => RecipeModel {
            recipe,
            ingredients: seq![stack(Item::ElectromagneticMatrix, 100), stack(Item::EnergyMatrix, 100), stack(Item::StructureMatrix, 100), stack(Item::InformationMatrix, 100), stack(Item::GravityMatrix, 100), stack(Item::Antimatter, 100)],
            time_centi: 1500,
            results: seq![stack(Item::UniverseMatrix, 100)],
            made_in: Producer::MatrixLab,
            handcraftable: true,
            unlocked_by: Technology::DysonSphereProgram,
        },
        Recipe::Accumulator => RecipeModel {
            recipe,
            ingredients: seq![stack(Item::IronIngot, 600), stack(Item::SuperMagneticRing, 600), stack(Item::CrystalSilicon, 400)],
            time_centi: 500,
            results: seq![stack(Item::Accumulator, 100)],
            made_in: Producer::AssemblingMachine,
            handcraftable: true,
            unlocked_by: Technology::DysonSphereProgram,
        },
        Recipe::EnergyExchanger => RecipeModel {
            recipe,
            ingredients: seq![stack(Item::TitaniumAlloy, 4000), stack(Item::Steel, 4000), stack(Item::Processor, 4000), stack(Item::ParticleContainer, 800)],
            time_centi: 1500,
            results: seq![stack(Item::EnergyExchanger, 100)],
            made_in: Producer::AssemblingMachine,
            handcraftable: true,
            unlocked_by: Technology::DysonSphereProgram,
        },
        Recipe::SpaceWarperFromLens => RecipeModel {
            recipe,
            ingredients: seq![stack(Item::GravitonLens, 100)],
            time_centi: 1000,
            results: seq![stack(Item::SpaceWarper, 100)],
            made_in: Producer::AssemblingMachine,
            handcraftable: true,
            unlocked_by: Technology::DysonSphereProgram,
        },
        Recipe::SpaceWarperFromMatrix => RecipeModel {
            recipe,
            ingredients: seq![stack(Item::GravityMatrix, 100)],
            time_centi: 1000,
            results: seq![stack(Item::SpaceWarper, 800)],
            made_in: Producer::AssemblingMachine,
            handcraftable: true,
            unlocked_by: Technology::DysonSphereProgram,
        },
        Recipe::FrameMaterial => RecipeModel {
            recipe,
            ingredients: seq![stack(Item::CarbonNanotube, 400), stack(Item::TitaniumAlloy, 100), stack(Item::HighPuritySilicon, 100)],
            time_centi: 600,
            results: seq![stack(Item::FrameMaterial, 100)],
            made_in: Producer::AssemblingMachine,
            handcraftable: true,
            unlocked_by: Technology::DysonSphereProgram,
        },
        Recipe::DysonSphereComponent => RecipeModel {
            recipe,
            ingredients: seq![stack(Item::FrameMaterial, 300), stack(Item::SolarPanel, 300), stack(Item::Processor, 300)],
            time_centi: 800,
            results: seq![stack(Item::DysonSphereComponent, 100)],
            made_in: Producer::AssemblingMachine,
            handcraftable: true,
            unlocked_by: Technology::DysonSphereProgram,
        },
        Recipe::VerticalLaunchingSilo => RecipeModel {
            recipe,
            ingredients: seq![stack(Item::TitaniumAlloy, 8000), stack(Item::FrameMaterial, 3000), stack(Item::GravitonLens, 2000), stack(Item::QuantumChip, 1000)],
            time_centi: 3000,
            results: seq![stack(Item::VerticalLaunchingSilo, 100)],
            made_in: Producer::AssemblingMachine,
            handcraftable: true,
            unlocked_by: Technology::DysonSphereProgram,
        },
        Recipe::SmallCarrierRocket => RecipeModel {
            recipe,
            ingredients: seq![stack(Item::DysonSphereComponent, 200), stack(Item::DeuteronFuelRod, 200), stack(Item::QuantumChip, 200)],
            time_centi: 600,
            results: seq![stack(Item::SmallCarrierRocket, 100)],
            made_in: Producer::AssemblingMachine,
            handcraftable: true,
            unlocked_by: Technology::DysonSphereProgram,
        },
        Recipe::ConveyorMK1 => RecipeModel {
            recipe,
            ingredients: seq![stack(Item::IronIngot, 200), stack(Item::Gear, 100)],
            time_centi: 100,
            results: seq![stack(Item::ConveyorMK1, 300)],
            made_in: Producer::AssemblingMachine,
            handcraftable: true,
            unlocked_by: Technology::DysonSphereProgram,
        },
        Recipe::SorterMK1 => RecipeModel {
            recipe,
            ingredients: seq![stack(Item::IronIngot, 100), stack(Item::CircuitBoard, 100)],
            time_centi: 100,
            results: seq![stack(Item::SorterMK1, 100)],
            made_in: Producer::AssemblingMachine,
            handcraftable: true,
            unlocked_by: Technology::DysonSphereProgram,
        },
        Recipe::StorageMK1 => RecipeModel {
            recipe,
            ingredients: seq![stack(Item::IronIngot, 400), stack(Item::StoneBrick, 400)],
            time_centi: 200,
            results: seq![stack(Item::StorageMK1, 100)],
            made_in: Producer::AssemblingMachine,
            handcraftable: true,
            unlocked_by: Technology::DysonSphereProgram,
        },
        Recipe::Splitter => RecipeModel {
            recipe,
            ingredients: seq![stack(Item::IronIngot, 300), stack(Item::Gear, 200), stack(Item::CircuitBoard, 100)],
            time_centi: 200,
            results: seq![stack(Item::Splitter, 100)],
            made_in: Producer::AssemblingMachine,
            handcraftable: true,
            unlocked_by: Technology::DysonSphereProgram,
        },
        Recipe::SorterMK2 => RecipeModel {
            recipe,
            ingredients: seq![stack(Item::SorterMK1, 200), stack(Item::Motor, 100)],
            time_centi: 100,
            results: seq![stack(Item::SorterMK2, 200)],
            made_in: Producer::AssemblingMachine,
            handcraftable: true,
            unlocked_by: Technology::DysonSphereProgram,
        },
        Recipe::ConveyorMK2 => RecipeModel {
            recipe,
            ingredients: seq![stack(Item::ConveyorMK1, 300), stack(Item::ElectromagneticTurbine, 100)],
            time_centi: 100,
            results: seq![stack(Item::ConveyorMK2, 300)],
            made_in: Producer::AssemblingMachine,
            handcraftable: true,
            unlocked_by: Technology::DysonSphereProgram,
        },
        Recipe::SorterMK3 => RecipeModel {
            recipe,
            ingredients: seq![stack(Item::SorterMK2, 200), stack(Item::ElectromagneticTurbine, 100)],
            time_centi: 100,
            results: seq![stack(Item::SorterMK3, 200)],
            made_in: Producer::AssemblingMachine,
            handcraftable: true,
            unlocked_by: Technology::DysonSphereProgram,
        },
        Recipe::StorageMK2 => RecipeModel {
            recipe,
            ingredients: seq![stack(Item::Steel, 800), stack(Item::StoneBrick, 800)],
            time_centi: 400,
            results: seq![stack(Item::StorageMK2, 100)],
            made_in: Producer::AssemblingMachine,
            handcraftable: true,
            unlocked_by: Technology::DysonSphereProgram,
        },
        Recipe::ConveyorMK3 => RecipeModel {
            recipe,
            ingredients: seq![stack(Item::ConveyorMK2, 300), stack(Item::SuperMagneticRing, 100), stack(Item::Graphene, 100)],
            time_centi: 100,
            results: seq![stack(Item::ConveyorMK3, 300)],
            made_in: Producer::AssemblingMachine,
            handcraftable: true,
            unlocked_by: Technology::DysonSphereProgram,
        },
        Recipe::PlanetaryLogisticsStation => RecipeModel {
            recipe,
            ingredients: seq![stack(Item::Steel, 4000), stack(Item::TitaniumIngot, 4000), stack(Item::Processor, 4000), stack(Item::ParticleContainer, 2000)],
            time_centi: 2000,
            results: seq![stack(Item::PlanetaryLogisticsStation, 100)],
            made_in: Producer::AssemblingMachine,
            handcraftable: true,
            unlocked_by: Technology::DysonSphereProgram,
        },
        Recipe::LogisticsDrone => RecipeModel {
            recipe,
            ingredients: seq![stack(Item::IronIngot, 500), stack(Item::Processor, 200), stack(Item::Thruster, 200)],
            time_centi: 400,
            results: seq![stack(Item::LogisticsDrone, 100)],
            made_in: Producer::AssemblingMachine,
            handcraftable: true,
            unlocked_by: Technology::DysonSphereProgram,
        },
        Recipe::InterstellarLogisticsStation => RecipeModel {
            recipe,
            ingredients: seq![stack(Item::PlanetaryLogisticsStation, 100), stack(Item::TitaniumAlloy, 4000), stack(Item::ParticleContainer, 2000)],
            time_centi: 3000,
            results: seq![stack(Item::InterstellarLogisticsStation, 100)],
            made_in: Producer::AssemblingMachine,
            handcraftable: true,
            unlocked_by: Technology::DysonSphereProgram,
        },
        Recipe::LogisticsVessel => RecipeModel {
            recipe,
            ingredients: seq![stack(Item::TitaniumAlloy, 1000), stack(Item::Processor, 1000), stack(Item::ReinforcedThruster, 200)],
            time_centi: 600,
            results: seq![stack(Item::LogisticsVessel, 100)],
            made_in: Producer::AssemblingMachine,
            handcraftable: true,
            unlocked_by: Technology::DysonSphereProgram,
        },
        Recipe::Motor => RecipeModel {
            recipe,
            ingredients: seq![stack(Item::IronIngot, 200), stack(Item::Gear, 100), stack(Item::Electromagnet, 100)],
            time_centi: 200,
            results: seq![stack(Item::Motor, 100)],
            made_in: Producer::AssemblingMachine,
            handcraftable: true,
            unlocked_by: Technology::DysonSphereProgram,
        },
        Recipe::ElectromagneticTurbine => RecipeModel {
            recipe,
            ingredients: seq![stack(Item::Motor, 200), stack(Item::Electromagnet, 200)],
            time_centi: 200,
            results: seq![stack(Item::ElectromagneticTurbine, 100)],
            made_in: Producer::AssemblingMachine,
            handcraftable: true,
            unlocked_by: Technology::DysonSphereProgram,
        },
        Recipe::ParticleContainerFromEMTurbine => RecipeModel {
            recipe,
            ingredients: seq![stack(Item::ElectromagneticTurbine, 200), stack(Item::CopperIngot, 200), stack(Item::Graphene, 200)],
            time_centi: 400,
            results: seq![stack(Item::ParticleContainer, 100)],
            made_in: Producer::AssemblingMachine,
            handcraftable: true,
            unlocked_by: Technology::DysonSphereProgram,
        },
        Recipe::ParticleContainerFromUnipolar => RecipeModel {
            recipe,
            ingredients: seq![stack(Item::UnipolarMagnet, 1000), stack(Item::CopperIngot, 200)],
            time_centi: 400,
            results: seq![stack(Item::ParticleContainer, 100)],
            made_in: Producer::AssemblingMachine,
            handcraftable: true,
            unlocked_by: Technology::DysonSphereProgram,
        },
        Recipe::GravitonLens => RecipeModel {
            recipe,
            ingredients: seq![stack(Item::Diamond, 400), stack(Item::StrangeMatter, 100)],
            time_centi: 600,
            results: seq![stack(Item::GravitonLens, 100)],
            made_in: Producer::AssemblingMachine,
            handcraftable: true,
            unlocked_by: Technology::DysonSphereProgram,
        },
        Recipe::GravityMatrix => RecipeModel {
            recipe,
            ingredients: seq![stack(Item::GravitonLens, 100), stack(Item::QuantumChip, 100)],
            time_centi: 2400,
            results: seq![stack(Item::GravityMatrix, 200)],
            made_in: Producer::MatrixLab,
            handcraftable: true,
            unlocked_by: Technology::DysonSphereProgram,
        },
        Recipe::SuperMagneticRing => RecipeModel {
            recipe,
            ingredients: seq![stack(Item::ElectromagneticTurbine, 200), stack(Item::Magnet, 300), stack(Item::EnergeticGraphite, 100)],
            time_centi: 300,
            results: seq![stack(Item::SuperMagneticRing, 100)],
            made_in: Producer::AssemblingMachine,
            handcraftable: true,
            unlocked_by: Technology::DysonSphereProgram,
        },
        Recipe::StrangeMatter => RecipeModel {
            recipe,
            ingredients: seq![stack(Item::ParticleContainer, 200), stack(Item::IronIngot, 200), stack(Item::Deuterium, 1000)],
            time_centi: 800,
            results: seq![stack(Item::StrangeMatter, 100)],
            made_in: Producer::MiniatureParticleCollider,
            handcraftable: true,
            unlocked_by: Technology::DysonSphereProgram,
        },
        Recipe::Fractionator => RecipeModel {
            recipe,
            ingredients: seq![stack(Item::Steel, 800), stack(Item::StoneBrick, 400), stack(Item::Glass, 400), stack(Item::Processor, 100)],
            time_centi: 300,
            results: seq![stack(Item::Fractionator, 100)],
            made_in: Producer::AssemblingMachine,
            handcraftable: true,
            unlocked_by: Technology::DysonSphereProgram,
        },
        Recipe::OrbitCollector => RecipeModel {
            recipe,
            ingredients: seq![stack(Item::InterstellarLogisticsStation, 100), stack(Item::SuperMagneticRing, 5000), stack(Item::ReinforcedThruster, 2000), stack(Item::FullAccumulator, 2000)],
            time_centi: 3000,
            results: seq![stack(Item::OrbitCollector, 100)],
            made_in: Producer::AssemblingMachine,
            handcraftable: true,
            unlocked_by: Technology::DysonSphereProgram,
        },
        Recipe::Foundation => RecipeModel {
            recipe,
            ingredients: seq![stack(Item::StoneBrick, 300), stack(Item::Steel, 100)],
            time_centi: 100,
            results: seq![stack(Item::Foundation, 100)],
            made_in: Producer::AssemblingMachine,
            handcraftable: true,
            unlocked_by: Technology::DysonSphereProgram,
        },
        Recipe::StorageTank => RecipeModel {
            recipe,
            ingredients: seq![stack(Item::IronIngot, 800), stack(Item::StoneBrick, 400), stack(Item::Glass, 400)],
            time_centi: 200,
            results: seq![stack(Item::StorageTank, 100)],
            made_in: Producer::AssemblingMachine,
            handcraftable: true,
            unlocked_by: Technology::DysonSphereProgram,
        },
        Recipe::DeuteriumFractionation => RecipeModel {
            recipe,
            ingredients: seq![stack(Item::Hydrogen, 100)],
            time_centi: 100,
            results: seq![stack(Item::Deuterium, 1), stack(Item::Hydrogen, 99)],
            made_in: Producer::Fractionator,
            handcraftable: true,
            unlocked_by: Technology::DysonSphereProgram,
        },
        Recipe::IronMining => RecipeModel {
            recipe,
            ingredients: Seq::empty(),
            time_centi: 200,
            results: seq![stack(Item::IronOre, 100)],
            made_in: Producer::MiningMachine,
            handcraftable: true,
            unlocked_by: Technology::DysonSphereProgram,
        },
        Recipe::CopperMining => RecipeModel {
            recipe,
            ingredients: Seq::empty(),
            time_centi: 200,
            results: seq![stack(Item::CopperOre, 100)],
            made_in: Producer::MiningMachine,
            handcraftable: true,
            unlocked_by: Technology::DysonSphereProgram,
        },
        Recipe::SiliconMining => RecipeModel {
            recipe,
            ingredients: Seq::empty(),
            time_centi: 200,
            results: seq![stack(Item::SiliconOre, 100)],
            made_in: Producer::MiningMachine,
            handcraftable: true,
            unlocked_by: Technology::DysonSphereProgram,
        },
        Recipe::TitaniumMining => RecipeModel {
            recipe,
            ingredients: Seq::empty(),
            time_centi: 200,
            results: seq![stack(Item::TitaniumOre, 100)],
            made_in: Producer::MiningMachine,
            handcraftable: true,
            unlocked_by: Technology::DysonSphereProgram,
        },
        Recipe::StoneMining => RecipeModel {
            recipe,
            ingredients: Seq::empty(),
            time_centi: 200,
            results: seq![stack(Item::StoneOre, 100)],
            made_in: Producer::MiningMachine,
            handcraftable: true,
            unlocked_by: Technology::DysonSphereProgram,
        },
        Recipe::CoalMining => RecipeModel {
            recipe,
            ingredients: Seq::empty(),
            time_centi: 200,
            results: seq![stack(Item::CoalOre, 100)],
            made_in: Producer::MiningMachine,
            handcraftable: true,
            unlocked_by: Technology::DysonSphereProgram,
        },
        Recipe::FireIceMining => RecipeModel {
            recipe,
            ingredients: Seq::empty(),
            time_centi: 200,
            results: seq![stack(Item::FireIce, 100)],
            made_in: Producer::MiningMachine,
            handcraftable: true,
            unlocked_by: Technology::DysonSphereProgram,
        },
        Recipe::DiamondMining => RecipeModel {
            recipe,
            ingredients: Seq::empty(),
            time_centi: 200,
            results: seq![stack(Item::Kimberlite, 100)],
            made_in: Producer::MiningMachine,
            handcraftable: true,
            unlocked_by: Technology::DysonSphereProgram,
        },
        Recipe::FractalSiliconMining => RecipeModel {
            recipe,
            ingredients: Seq::empty(),
            time_centi: 200,
            results: seq![stack(Item::FractalSilicon, 100)],
            made_in: Producer::MiningMachine,
            handcraftable: true,
            unlocked_by: Technology::DysonSphereProgram,
        },
        Recipe::OrganicCrystalMining => RecipeModel {
            recipe,
            ingredients: Seq::empty(),
            time_centi: 200,
            results: seq![stack(Item::OrganicCrystal, 100)],
            made_in: Producer::MiningMachine,
            handcraftable: true,
            unlocked_by: Technology::DysonSphereProgram,
        },
        Recipe::OpticalGratingCrystalMining => RecipeModel {
            recipe,
            ingredients: Seq::empty(),
            time_centi: 200,
            results: seq![stack(Item::OpticalGratingCrystal, 100)],
            made_in: Producer::MiningMachine,
            handcraftable: true,
            unlocked_by: Technology::DysonSphereProgram,
        },
        Recipe::SpiniformStalagmiteCrystalMining => RecipeModel {
            recipe,
            ingredients: Seq::empty(),
            time_centi: 200,
            results: seq![stack(Item::SpiniformStalagmiteCrystal, 100)],
            made_in: Producer::MiningMachine,
            handcraftable: true,
            unlocked_by: Technology::DysonSphereProgram,
        },
        Recipe::UnipolarMagnetMining => RecipeModel {
            recipe,
            ingredients: Seq::empty(),
            time_centi: 200,
            results: seq![stack(Item::UnipolarMagnet, 100)],
            made_in: Producer::MiningMachine,
            handcraftable: true,
            unlocked_by: Technology::DysonSphereProgram,
        },
        Recipe::OilExtraction => RecipeModel {
            recipe,
            ingredients: Seq::empty(),
            time_centi: 100,
            results: seq![stack(Item::CrudeOil, 100)],
            made_in: Producer::OilExtractor,
            handcraftable: true,
            unlocked_by: Technology::DysonSphereProgram,
        },
        Recipe::CriticalPhotonReceiving => RecipeModel {
            recipe,
            ingredients: Seq::empty(),
            time_centi: 100,
            results: seq![stack(Item::CriticalPhoton, 100)],
            made_in: Producer::RayReceiver,
            handcraftable: true,
            unlocked_by: Technology::DysonSphereProgram,
        },
        Recipe::WaterPumping => RecipeModel {
            recipe,
            ingredients: Seq::empty(),
            time_centi: 120,
            results: seq![stack(Item::Water, 100)],
            made_in: Producer::WaterPump,
            handcraftable: true,
            unlocked_by: Technology::DysonSphereProgram,
        },
        Recipe::SulfuricAcidPumping => RecipeModel {
            recipe,
            ingredients: Seq::empty(),
            time_centi: 120,
            results: seq![stack(Item::SulfuricAcid, 100)],
            made_in: Producer::WaterPump,
            handcraftable: true,
            unlocked_by: Technology::DysonSphereProgram,
        },
        Recipe::GasGiantCollection => RecipeModel {
            recipe,
            ingredients: Seq::empty(),
            time_centi: 800,
            results: seq![stack(Item::Hydrogen, 400), stack(Item::Deuterium, 0)],
            made_in: Producer::OrbitCollector,
            handcraftable: true,
            unlocked_by: Technology::DysonSphereProgram,
        },
        Recipe::IceGiantCollection => RecipeModel {
            recipe,
            ingredients: Seq::empty(),
            time_centi: 800,
            results: seq![stack(Item::FireIce, 200), stack(Item::Hydrogen, 100)],
            made_in: Producer::OrbitCollector,
            handcraftable: true,
            unlocked_by: Technology::DysonSphereProgram,
        },
    }
}

/// The executable recipe table: the definition of one recipe, equal to its
/// mathematical model.
pub fn recipe_definition(recipe: Recipe) -> (e: RecipeEntry)
    ensures
        e@ == recipe_model(recipe),
{
    match recipe {
        Recipe::IronSmelting => RecipeEntry {
            recipe,
            ingredients: stacks1(is_centi(Item::IronOre, 100)),
            time_centi: 100,
            results: stacks1(is_centi(Item::IronIngot, 100)),
            made_in: Producer::Smelter,
            handcraftable: true,
            unlocked_by: Technology::DysonSphereProgram,
        },
        Recipe::MagnetSmelting => RecipeEntry {
            recipe,
            ingredients: stacks1(is_centi(Item::IronOre, 100)),
            time_centi: 150,
            results: stacks1(is_centi(Item::Magnet, 100)),
            made_in: Producer::Smelter,
            handcraftable: true,
            unlocked_by: Technology::DysonSphereProgram,
        },
        Recipe::CopperSmelting => RecipeEntry {
            recipe,
            ingredients: stacks1(is_centi(Item::CopperOre, 100)),
            time_centi: 100,
            results: stacks1(is_centi(Item::CopperIngot, 100)),
            made_in: Producer::Smelter,
            handcraftable: true,
            unlocked_by: Technology::DysonSphereProgram,
        },
        Recipe::StoneSmelting => RecipeEntry {
            recipe,
            ingredients: stacks1(is_centi(Item::StoneOre, 100)),
            time_centi: 100,
            results: stacks1(is_centi(Item::StoneBrick, 100)),
            made_in: Producer::Smelter,
            handcraftable: true,
            unlocked_by: Technology::DysonSphereProgram,
        },
        Recipe::Gear => RecipeEntry {
            recipe,
            ingredients: stacks1(is_centi(Item::IronIngot, 100)),
            time_centi: 100,
            results: stacks1(is_centi(Item::Gear, 100)),
            made_in: Producer::AssemblingMachine,
            handcraftable: true,
            unlocked_by: Technology::DysonSphereProgram,
        },
        Recipe::Electromagnet => RecipeEntry {
            recipe,
            ingredients: stacks2(is_centi(Item::Magnet, 200), is_centi(Item::CopperIngot, 100)),
            time_centi: 100,
            results: stacks1(is_centi(Item::Electromagnet, 200)),
            made_in: Producer::AssemblingMachine,
            handcraftable: true,
            unlocked_by: Technology::DysonSphereProgram,
        },
        Recipe::WindTurbine => RecipeEntry {
            recipe,
            ingredients: stacks3(is_centi(Item::IronIngot, 600), is_centi(Item::Gear, 100), is_centi(Item::Electromagnet, 300)),
            time_centi: 400,
            results: stacks1(is_centi(Item::WindTurbine, 100)),
            made_in: Producer::AssemblingMachine,
            handcraftable: true,
            unlocked_by: Technology::DysonSphereProgram,
        },
        Recipe::TeslaTower => RecipeEntry {
            recipe,
            ingredients: stacks2(is_centi(Item::IronIngot, 200), is_centi(Item::Electromagnet, 100)),
            time_centi: 100,
            results: stacks1(is_centi(Item::TeslaTower, 100)),
            made_in: Producer::AssemblingMachine,
            handcraftable: true,
            unlocked_by: Technology::DysonSphereProgram,
        },
        Recipe::ElectromagneticMatrix => RecipeEntry {
            recipe,
            ingredients: stacks2(is_centi(Item::Electromagnet, 100), is_centi(Item::CircuitBoard, 100)),
            time_centi: 300,
            results: stacks1(is_centi(Item::ElectromagneticMatrix, 100)),
            made_in: Producer::MatrixLab,
            handcraftable: true,
            unlocked_by: Technology::DysonSphereProgram,
        },
        Recipe::MatrixLab => RecipeEntry {
            recipe,
            ingredients: stacks4(is_centi(Item::IronIngot, 800), is_centi(Item::Glass, 400), is_centi(Item::CircuitBoard, 400), is_centi(Item::Electromagnet, 400)),
            time_centi: 300,
            results: stacks1(is_centi(Item::MatrixLab, 100)),
            made_in: Producer::AssemblingMachine,
            handcraftable: true,
            unlocked_by: Technology::DysonSphereProgram,
        },
        Recipe::Prism => RecipeEntry {
            recipe,
            ingredients: stacks1(is_centi(Item::Glass, 300)),
            time_centi: 200,
            results: stacks1(is_centi(Item::Prism, 200)),
            made_in: Producer::AssemblingMachine,
            handcraftable: true,
            unlocked_by: Technology::DysonSphereProgram,
        },
        Recipe::PlasmaExciter => RecipeEntry {
            recipe,
            ingredients: stacks2(is_centi(Item::Electromagnet, 400), is_centi(Item::Prism, 200)),
            time_centi: 200,
            results: stacks1(is_centi(Item::PlasmaExciter, 100)),
            made_in: Producer::AssemblingMachine,
            handcraftable: true,
            unlocked_by: Technology::DysonSphereProgram,
        },
        Recipe::WirelessPowerTower => RecipeEntry {
            recipe,
            ingredients: stacks2(is_centi(Item::TeslaTower, 100), is_centi(Item::PlasmaExciter, 300)),
            time_centi: 300,
            results: stacks1(is_centi(Item::WirelessPowerTower, 100)),
            made_in: Producer::AssemblingMachine,
            handcraftable: true,
            unlocked_by: Technology::DysonSphereProgram,
        },
        Recipe::OilExtractor => RecipeEntry {
            recipe,
            ingredients: stacks4(is_centi(Item::Steel, 1200), is_centi(Item::StoneBrick, 1200), is_centi(Item::CircuitBoard, 600), is_centi(Item::PlasmaExciter, 400)),
            time_centi: 800,
            results: stacks1(is_centi(Item::OilExtractor, 100)),
            made_in: Producer::AssemblingMachine,
            handcraftable: true,
            unlocked_by: Technology::DysonSphereProgram,
        },
        Recipe::OilRefinery => RecipeEntry {
            recipe,
            ingredients: stacks4(is_centi(Item::Steel, 1000), is_centi(Item::StoneBrick, 1000), is_centi(Item::CircuitBoard, 600), is_centi(Item::PlasmaExciter, 600)),
            time_centi: 600,
            results: stacks1(is_centi(Item::OilRefinery, 100)),
            made_in: Producer::AssemblingMachine,
            handcraftable: true,
            unlocked_by: Technology::DysonSphereProgram,
        },
        Recipe::PlasmaRefining => RecipeEntry {
            recipe,
            ingredients: stacks1(is_centi(Item::CrudeOil, 200)),
            time_centi: 400,
            results: stacks2(is_centi(Item::Hydrogen, 100), is_centi(Item::RefinedOil, 200)),
            made_in: Producer::OilRefinery,
            handcraftable: true,
            unlocked_by: Technology::DysonSphereProgram,
        },
        Recipe::GraphiteSmelting => RecipeEntry {
            recipe,
            ingredients: stacks1(is_centi(Item::CoalOre, 200)),
            time_centi: 200,
            results: stacks1(is_centi(Item::EnergeticGraphite, 100)),
            made_in: Producer::Smelter,
            handcraftable: true,
            unlocked_by: Technology::DysonSphereProgram,
        },
        Recipe::EnergyMatrix => RecipeEntry {
            recipe,
            ingredients: stacks2(is_centi(Item::EnergeticGraphite, 200), is_centi(Item::Hydrogen, 200)),
            time_centi: 600,
            results: stacks1(is_centi(Item::EnergyMatrix, 100)),
            made_in: Producer::MatrixLab,
            handcraftable: true,
            unlocked_by: Technology::DysonSphereProgram,
        },
        Recipe::HydrogenFuelRod => RecipeEntry {
            recipe,
            ingredients: stacks2(is_centi(Item::TitaniumIngot, 100), is_centi(Item::Hydrogen, 500)),
            time_centi: 300,
            results: stacks1(is_centi(Item::HydrogenFuelRod, 100)),
            made_in: Producer::AssemblingMachine,
            handcraftable: true,
            unlocked_by: Technology::DysonSphereProgram,
        },
        Recipe::Thruster => RecipeEntry {
            recipe,
            ingredients: stacks2(is_centi(Item::Steel, 200), is_centi(Item::CopperIngot, 300)),
            time_centi: 400,
            results: stacks1(is_centi(Item::Thruster, 100)),
            made_in: Producer::AssemblingMachine,
            handcraftable: true,
            unlocked_by: Technology::DysonSphereProgram,
        },
        Recipe::ReinforcedThruster => RecipeEntry {
            recipe,
            ingredients: stacks2(is_centi(Item::TitaniumAlloy, 500), is_centi(Item::ElectromagneticTurbine, 500)),
            time_centi: 600,
            results: stacks1(is_centi(Item::ReinforcedThruster, 100)),
            made_in: Producer::AssemblingMachine,
            handcraftable: true,
            unlocked_by: Technology::DysonSphereProgram,
        },
        Recipe::ChemicalPlant => RecipeEntry {
            recipe,
            ingredients: stacks4(is_centi(Item::Steel, 800), is_centi(Item::StoneBrick, 800), is_centi(Item::Glass, 800), is_centi(Item::CircuitBoard, 200)),
            time_centi: 500,
            results: stacks1(is_centi(Item::ChemicalPlant, 100)),
            made_in: Producer::AssemblingMachine,
            handcraftable: true,
            unlocked_by: Technology::DysonSphereProgram,
        },
        Recipe::Plastic => RecipeEntry {
            recipe,
            ingredients: stacks2(is_centi(Item::RefinedOil, 200), is_centi(Item::EnergeticGraphite, 100)),
            time_centi: 300,
            results: stacks1(is_centi(Item::Plastic, 100)),
            made_in: Producer::ChemicalPlant,
            handcraftable: true,
            unlocked_by: Technology::DysonSphereProgram,
        },
        Recipe::SulfuricAcidFromStone => RecipeEntry {
            recipe,
            ingredients: stacks3(is_centi(Item::RefinedOil, 600), is_centi(Item::StoneOre, 800), is_centi(Item::Water, 400)),
            time_centi: 600,
            results: stacks1(is_centi(Item::SulfuricAcid, 400)),
            made_in: Producer::ChemicalPlant,
            handcraftable: true,
            unlocked_by: Technology::DysonSphereProgram,
        },
        Recipe::OrganicCrystalFromPlastic => RecipeEntry {
            recipe,
            ingredients: stacks3(is_centi(Item::Plastic, 200), is_centi(Item::RefinedOil, 100), is_centi(Item::Water, 100)),
            time_centi: 600,
            results: stacks1(is_centi(Item::OrganicCrystal, 100)),
            made_in: Producer::ChemicalPlant,
            handcraftable: true,
            unlocked_by: Technology::DysonSphereProgram,
        },
        Recipe::TitaniumCrystal => RecipeEntry {
            recipe,
            ingredients: stacks2(is_centi(Item::OrganicCrystal, 100), is_centi(Item::TitaniumIngot, 300)),
            time_centi: 400,
            results: stacks1(is_centi(Item::TitaniumCrystal, 100)),
            made_in: Producer::AssemblingMachine,
            handcraftable: true,
            unlocked_by: Technology::DysonSphereProgram,
        },
        Recipe::StructureMatrix => RecipeEntry {
            recipe,
            ingredients: stacks2(is_centi(Item::Diamond, 100), is_centi(Item::TitaniumCrystal, 100)),
            time_centi: 800,
            results: stacks1(is_centi(Item::StructureMatrix, 100)),
            made_in: Producer::MatrixLab,
            handcraftable: true,
            unlocked_by: Technology::DysonSphereProgram,
        },
        Recipe::CasimirCrystalFromTitanium => RecipeEntry {
            recipe,
            ingredients: stacks3(is_centi(Item::TitaniumCrystal, 100), is_centi(Item::Graphene, 200), is_centi(Item::Hydrogen, 1200)),
            time_centi: 400,
            results: stacks1(is_centi(Item::CasimirCrystal, 100)),
            made_in: Producer::AssemblingMachine,
            handcraftable: true,
            unlocked_by: Technology::DysonSphereProgram,
        },
        Recipe::CasimirCrystalFromOpticalGratingCrystal => RecipeEntry {
            recipe,
            ingredients: stacks3(is_centi(Item::OpticalGratingCrystal, 600), is_centi(Item::Graphene, 200), is_centi(Item::Hydrogen, 1200)),
            time_centi: 400,
            results: stacks1(is_centi(Item::CasimirCrystal, 100)),
            made_in: Producer::AssemblingMachine,
            handcraftable: true,
            unlocked_by: Technology::DysonSphereProgram,
        },
        Recipe::TitaniumGlass => RecipeEntry {
            recipe,
            ingredients: stacks3(is_centi(Item::Glass, 200), is_centi(Item::TitaniumIngot, 200), is_centi(Item::Water, 200)),
            time_centi: 500,
            results: stacks1(is_centi(Item::TitaniumGlass, 200)),
            made_in: Producer::AssemblingMachine,
            handcraftable: true,
            unlocked_by: Technology::DysonSphereProgram,
        },
        Recipe::GrapheneFromGraphiteAndSulfuric => RecipeEntry {
            recipe,
            ingredients: stacks2(is_centi(Item::EnergeticGraphite, 300), is_centi(Item::SulfuricAcid, 100)),
            time_centi: 300,
            results: stacks1(is_centi(Item::Graphene, 200)),
            made_in: Producer::ChemicalPlant,
            handcraftable: true,
            unlocked_by: Technology::DysonSphereProgram,
        },
        Recipe::GrapheneFromFireIce => RecipeEntry {
            recipe,
            ingredients: stacks1(is_centi(Item::FireIce, 200)),
            time_centi: 200,
            results: stacks2(is_centi(Item::Graphene, 200), is_centi(Item::Hydrogen, 100)),
            made_in: Producer::ChemicalPlant,
            handcraftable: true,
            unlocked_by: Technology::DysonSphereProgram,
        },
        Recipe::CarbonNanotubeFromGraphene => RecipeEntry {
            recipe,
            ingredients: stacks2(is_centi(Item::Graphene, 300), is_centi(Item::TitaniumIngot, 100)),
            time_centi: 400,
            results: stacks1(is_centi(Item::CarbonNanotube, 200)),
            made_in: Producer::ChemicalPlant,
            handcraftable: true,
            unlocked_by: Technology::DysonSphereProgram,
        },
        Recipe::SiliconOreFromStone => RecipeEntry {
            recipe,
            ingredients: stacks1(is_centi(Item::StoneOre, 1000)),
            time_centi: 1000,
            results: stacks1(is_centi(Item::SiliconOre, 100)),
            made_in: Producer::Smelter,
            handcraftable: true,
            unlocked_by: Technology::DysonSphereProgram,
        },
        Recipe::CarbonNanotubeFromSpiniform => RecipeEntry {
            recipe,
            ingredients: stacks1(is_centi(Item::SpiniformStalagmiteCrystal, 200)),
            time_centi: 400,
            results: stacks1(is_centi(Item::CarbonNanotube, 200)),
            made_in: Producer::ChemicalPlant,
            handcraftable: true,
            unlocked_by: Technology::DysonSphereProgram,
        },
        Recipe::ParticleBroadband => RecipeEntry {
            recipe,
            ingredients: stacks3(is_centi(Item::CarbonNanotube, 200), is_centi(Item::CrystalSilicon, 200), is_centi(Item::Plastic, 100)),
            time_centi: 800,
            results: stacks1(is_centi(Item::ParticleBroadband, 100)),
            made_in: Producer::AssemblingMachine,
            handcraftable: true,
            unlocked_by: Technology::DysonSphereProgram,
        },
        Recipe::CrystalSiliconFromIngot => RecipeEntry {
            recipe,
            ingredients: stacks1(is_centi(Item::HighPuritySilicon, 100)),
            time_centi: 200,
            results: stacks1(is_centi(Item::CrystalSilicon, 100)),
            made_in: Producer::Smelter,
            handcraftable: true,
            unlocked_by: Technology::DysonSphereProgram,
        },
        Recipe::PlaneFilter => RecipeEntry {
            recipe,
            ingredients: stacks2(is_centi(Item::CasimirCrystal, 100), is_centi(Item::TitaniumGlass, 200)),
            time_centi: 1200,
            results: stacks1(is_centi(Item::PlaneFilter, 100)),
            made_in: Producer::AssemblingMachine,
            handcraftable: true,
            unlocked_by: Technology::DysonSphereProgram,
        },
        Recipe::MiniatureParticleCollider => RecipeEntry {
            recipe,
            ingredients: stacks5(is_centi(Item::TitaniumAlloy, 2000), is_centi(Item::FrameMaterial, 2000), is_centi(Item::SuperMagneticRing, 5000), is_centi(Item::Graphene, 1000), is_centi(Item::Processor, 800)),
            time_centi: 1500,
            results: stacks1(is_centi(Item::MiniatureParticleCollider, 100)),
            made_in: Producer::AssemblingMachine,
            handcraftable: true,
            unlocked_by: Technology::DysonSphereProgram,
        },
        Recipe::DeuteriumInParticleCollider => RecipeEntry {
            recipe,
            ingredients: stacks1(is_centi(Item::Hydrogen, 1000)),
            time_centi: 500,
            results: stacks1(is_centi(Item::Deuterium, 500)),
            made_in: Producer::MiniatureParticleCollider,
            handcraftable: true,
            unlocked_by: Technology::DysonSphereProgram,
        },
        Recipe::DeuteronFuelRod => RecipeEntry {
            recipe,
            ingredients: stacks3(is_centi(Item::TitaniumAlloy, 100), is_centi(Item::Deuterium, 1000), is_centi(Item::SuperMagneticRing, 100)),
            time_centi: 600,
            results: stacks1(is_centi(Item::DeuteronFuelRod, 100)),
            made_in: Producer::AssemblingMachine,
            handcraftable: true,
            unlocked_by: Technology::DysonSphereProgram,
        },
        Recipe::AnnihilationConstraintSphere => RecipeEntry {
            recipe,
            ingredients: stacks2(is_centi(Item::ParticleContainer, 100), is_centi(Item::Processor, 100)),
            time_centi: 2000,
            results: stacks1(is_centi(Item::AnnihilationConstraintSphere, 100)),
            made_in: Producer::AssemblingMachine,
            handcraftable: true,
            unlocked_by: Technology::DysonSphereProgram,
        },
        Recipe::ArtificialStar => RecipeEntry {
            recipe,
            ingredients: stacks4(is_centi(Item::TitaniumAlloy, 2000), is_centi(Item::FrameMaterial, 2000), is_centi(Item::AnnihilationConstraintSphere, 1000), is_centi(Item::QuantumChip, 1000)),
            time_centi: 3000,
            results: stacks1(is_centi(Item::ArtificialStar, 100)),
            made_in: Producer::AssemblingMachine,
            handcraftable: true,
            unlocked_by: Technology::DysonSphereProgram,
        },
        Recipe::AntimatterFuelRod => RecipeEntry {
            recipe,
            ingredients: stacks4(is_centi(Item::Antimatter, 1000), is_centi(Item::Hydrogen, 1000), is_centi(Item::AnnihilationConstraintSphere, 100), is_centi(Item::TitaniumAlloy, 100)),
            time_centi: 1200,
            results: stacks1(is_centi(Item::AntimatterFuelRod, 100)),
            made_in: Producer::AssemblingMachine,
            handcraftable: true,
            unlocked_by: Technology::DysonSphereProgram,
        },
        Recipe::AssemblingMachineMK1 => RecipeEntry {
            recipe,
            ingredients: stacks3(is_centi(Item::IronIngot, 400), is_centi(Item::Gear, 800), is_centi(Item::CircuitBoard, 400)),
            time_centi: 200,
            results: stacks1(is_centi(Item::AssemblingMachineMK1, 100)),
            made_in: Producer::AssemblingMachine,
            handcraftable: true,
            unlocked_by: Technology::DysonSphereProgram,
        },
        Recipe::AssemblingMachineMK2 => RecipeEntry {
            recipe,
            ingredients: stacks3(is_centi(Item::AssemblingMachineMK1, 100), is_centi(Item::Graphene, 800), is_centi(Item::Processor, 400)),
            time_centi: 300,
            results: stacks1(is_centi(Item::AssemblingMachineMK2, 100)),
            made_in: Producer::AssemblingMachine,
            handcraftable: true,
            unlocked_by: Technology::DysonSphereProgram,
        },
        Recipe::AssemblingMachineMK3 => RecipeEntry {
            recipe,
            ingredients: stacks3(is_centi(Item::AssemblingMachineMK2, 100), is_centi(Item::ParticleBroadband, 800), is_centi(Item::QuantumChip, 200)),
            time_centi: 400,
            results: stacks1(is_centi(Item::AssemblingMachineMK3, 100)),
            made_in: Producer::AssemblingMachine,
            handcraftable: true,
            unlocked_by: Technology::DysonSphereProgram,
        },
        Recipe::MiningMachine => RecipeEntry {
            recipe,
            ingredients: stacks4(is_centi(Item::IronIngot, 400), is_centi(Item::CircuitBoard, 200), is_centi(Item::Electromagnet, 200), is_centi(Item::Gear, 200)),
            time_centi: 300,
            results: stacks1(is_centi(Item::MiningMachine, 100)),
            made_in: Producer::AssemblingMachine,
            handcraftable: true,
            unlocked_by: Technology::DysonSphereProgram,
        },
        Recipe::WaterPump => RecipeEntry {
            recipe,
            ingredients: stacks4(is_centi(Item::IronIngot, 800), is_centi(Item::StoneBrick, 400), is_centi(Item::Motor, 400), is_centi(Item::CircuitBoard, 200)),
            time_centi: 400,
            results: stacks1(is_centi(Item::WaterPump, 100)),
            made_in: Producer::AssemblingMachine,
            handcraftable: true,
            unlocked_by: Technology::DysonSphereProgram,
        },
        Recipe::CircuitBoard => RecipeEntry {
            recipe,
            ingredients: stacks2(is_centi(Item::IronIngot, 200), is_centi(Item::CopperIngot, 100)),
            time_centi: 100,
            results: stacks1(is_centi(Item::CircuitBoard, 200)),
            made_in: Producer::AssemblingMachine,
            handcraftable: true,
            unlocked_by: Technology::DysonSphereProgram,
        },
        Recipe::Processor => RecipeEntry {
            recipe,
            ingredients: stacks2(is_centi(Item::CircuitBoard, 200), is_centi(Item::MicrocrystallineComponent, 200)),
            time_centi: 300,
            results: stacks1(is_centi(Item::Processor, 100)),
            made_in: Producer::AssemblingMachine,
            handcraftable: true,
            unlocked_by: Technology::DysonSphereProgram,
        },
        Recipe::QuantumChip => RecipeEntry {
            recipe,
            ingredients: stacks2(is_centi(Item::Processor, 200), is_centi(Item::PlaneFilter, 200)),
            time_centi: 600,
            results: stacks1(is_centi(Item::QuantumChip, 100)),
            made_in: Producer::AssemblingMachine,
            handcraftable: true,
            unlocked_by: Technology::DysonSphereProgram,
        },
        Recipe::MicrocrystallineComponent => RecipeEntry {
            recipe,
            ingredients: stacks2(is_centi(Item::HighPuritySilicon, 200), is_centi(Item::CopperIngot, 100)),
            time_centi: 200,
            results: stacks1(is_centi(Item::MicrocrystallineComponent, 100)),
            made_in: Producer::AssemblingMachine,
            handcraftable: true,
            unlocked_by: Technology::DysonSphereProgram,
        },
        Recipe::OrganicCrystalFromWood => RecipeEntry {
            recipe,
            ingredients: stacks3(is_centi(Item::Log, 2000), is_centi(Item::PlantFuel, 3000), is_centi(Item::Water, 1000)),
            time_centi: 600,
            results: stacks1(is_centi(Item::OrganicCrystal, 100)),
            made_in: Producer::AssemblingMachine,
            handcraftable: true,
            unlocked_by: Technology::DysonSphereProgram,
        },
        Recipe::InformationMatrix => RecipeEntry {
            recipe,
            ingredients: stacks2(is_centi(Item::Processor, 200), is_centi(Item::ParticleBroadband, 100)),
            time_centi: 1000,
            results: stacks1(is_centi(Item::InformationMatrix, 100)),
            made_in: Producer::MatrixLab,
            handcraftable: true,
            unlocked_by: Technology::DysonSphereProgram,
        },
        Recipe::Smelter => RecipeEntry {
            recipe,
            ingredients: stacks4(is_centi(Item::IronIngot, 400), is_centi(Item::StoneBrick, 200), is_centi(Item::CircuitBoard, 400), is_centi(Item::Electromagnet, 200)),
            time_centi: 300,
            results: stacks1(is_centi(Item::Smelter, 100)),
            made_in: Producer::AssemblingMachine,
            handcraftable: true,
            unlocked_by: Technology::DysonSphereProgram,
        },
        Recipe::GlassSmelting => RecipeEntry {
            recipe,
            ingredients: stacks1(is_centi(Item::StoneOre, 200)),
            time_centi: 200,
            results: stacks1(is_centi(Item::Glass, 100)),
            made_in: Producer::Smelter,
            handcraftable: true,
            unlocked_by: Technology::DysonSphereProgram,
        },
        Recipe::XRayCracking => RecipeEntry {
            recipe,
            ingredients: stacks2(is_centi(Item::RefinedOil, 100), is_centi(Item::Hydrogen, 200)),
            time_centi: 400,
            results: stacks2(is_centi(Item::Hydrogen, 300), is_centi(Item::EnergeticGraphite, 100)),
            made_in: Producer::OilRefinery,
            handcraftable: true,
            unlocked_by: Technology::DysonSphereProgram,
        },
        Recipe::SiliconSmelting => RecipeEntry {
            recipe,
            ingredients: stacks1(is_centi(Item::SiliconOre, 200)),
            time_centi: 200,
            results: stacks1(is_centi(Item::HighPuritySilicon, 100)),
            made_in: Producer::Smelter,
            handcraftable: true,
            unlocked_by: Technology::DysonSphereProgram,
        },
        Recipe::DiamondFromGraphite => RecipeEntry {
            recipe,
            ingredients: stacks1(is_centi(Item::EnergeticGraphite, 100)),
            time_centi: 200,
            results: stacks1(is_centi(Item::Diamond, 100)),
            made_in: Producer::Smelter,
            handcraftable: true,
            unlocked_by: Technology::DysonSphereProgram,
        },
        Recipe::DiamondFromKimberlite => RecipeEntry {
            recipe,
            ingredients: stacks1(is_centi(Item::Kimberlite, 100)),
            time_centi: 200,
            results: stacks1(is_centi(Item::Diamond, 100)),
            made_in: Producer::Smelter,
            handcraftable: true,
            unlocked_by: Technology::DysonSphereProgram,
        },
        Recipe::CrystalSiliconFromFractal => RecipeEntry {
            recipe,
            ingredients: stacks1(is_centi(Item::FractalSilicon, 100)),
            time_centi: 400,
            results: stacks1(is_centi(Item::CrystalSilicon, 100)),
            made_in: Producer::AssemblingMachine,
            handcraftable: true,
            unlocked_by: Technology::DysonSphereProgram,
        },
        Recipe::SteelSmelting => RecipeEntry {
            recipe,
            ingredients: stacks1(is_centi(Item::IronIngot, 300)),
            time_centi: 300,
            results: stacks1(is_centi(Item::Steel, 100)),
            made_in: Producer::Smelter,
            handcraftable: true,
            unlocked_by: Technology::DysonSphereProgram,
        },
        Recipe::ThermalPowerStation => RecipeEntry {
            recipe,
            ingredients: stacks4(is_centi(Item::IronIngot, 1000), is_centi(Item::StoneBrick, 400), is_centi(Item::Gear, 400), is_centi(Item::Electromagnet, 400)),
            time_centi: 500,
            results: stacks1(is_centi(Item::ThermalPowerStation, 100)),
            made_in: Producer::AssemblingMachine,
            handcraftable: true,
            unlocked_by: Technology::DysonSphereProgram,
        },
        Recipe::TitaniumSmelting => RecipeEntry {
            recipe,
            ingredients: stacks1(is_centi(Item::TitaniumOre, 200)),
            time_centi: 200,
            results: stacks1(is_centi(Item::TitaniumIngot, 100)),
            made_in: Producer::Smelter,
            handcraftable: true,
            unlocked_by: Technology::DysonSphereProgram,
        },
        Recipe::TitaniumAlloy => RecipeEntry {
            recipe,
            ingredients: stacks3(is_centi(Item::TitaniumIngot, 400), is_centi(Item::Steel, 400), is_centi(Item::SulfuricAcid, 800)),
            time_centi: 1200,
            results: stacks1(is_centi(Item::TitaniumAlloy, 400)),
            made_in: Producer::Smelter,
            handcraftable: true,
            unlocked_by: Technology::DysonSphereProgram,
        },
        Recipe::SolarPanel => RecipeEntry {
            recipe,
            ingredients: stacks3(is_centi(Item::CopperIngot, 600), is_centi(Item::HighPuritySilicon, 600), is_centi(Item::CircuitBoard, 400)),
            time_centi: 500,
            results: stacks1(is_centi(Item::SolarPanel, 100)),
            made_in: Producer::AssemblingMachine,
            handcraftable: true,
            unlocked_by: Technology::DysonSphereProgram,
        },
        Recipe::PhotonCombinerFromPrism => RecipeEntry {
            recipe,
            ingredients: stacks2(is_centi(Item::Prism, 200), is_centi(Item::CircuitBoard, 100)),
            time_centi: 300,
            results: stacks1(is_centi(Item::PhotonCombiner, 100)),
            made_in: Producer::AssemblingMachine,
            handcraftable: true,
            unlocked_by: Technology::DysonSphereProgram,
        },
        Recipe::PhotonCombinerFromCrystal => RecipeEntry {
            recipe,
            ingredients: stacks2(is_centi(Item::OpticalGratingCrystal, 100), is_centi(Item::CircuitBoard, 100)),
            time_centi: 300,
            results: stacks1(is_centi(Item::PhotonCombiner, 100)),
            made_in: Producer::AssemblingMachine,
            handcraftable: true,
            unlocked_by: Technology::DysonSphereProgram,
        },
        Recipe::EMRailEjector => RecipeEntry {
            recipe,
            ingredients: stacks4(is_centi(Item::Steel, 2000), is_centi(Item::Gear, 2000), is_centi(Item::Processor, 500), is_centi(Item::SuperMagneticRing, 1000)),
            time_centi: 600,
            results: stacks1(is_centi(Item::EMRailEjector, 100)),
            made_in: Producer::AssemblingMachine,
            handcraftable: true,
            unlocked_by: Technology::DysonSphereProgram,
        },
        Recipe::RayReceiver => RecipeEntry {
            recipe,
            ingredients: stacks5(is_centi(Item::Steel, 2000), is_centi(Item::HighPuritySilicon, 2000), is_centi(Item::PhotonCombiner, 1000), is_centi(Item::Processor, 500), is_centi(Item::SuperMagneticRing, 2000)),
            time_centi: 800,
            results: stacks1(is_centi(Item::RayReceiver, 100)),
            made_in: Producer::AssemblingMachine,
            handcraftable: true,
            unlocked_by: Technology::DysonSphereProgram,
        },
        Recipe::SatelliteSubstation => RecipeEntry {
            recipe,
            ingredients: stacks3(is_centi(Item::WirelessPowerTower, 100), is_centi(Item::SuperMagneticRing, 1000), is_centi(Item::FrameMaterial, 200)),
            time_centi: 500,
            results: stacks1(is_centi(Item::SatelliteSubstation, 100)),
            made_in: Producer::AssemblingMachine,
            handcraftable: true,
            unlocked_by: Technology::DysonSphereProgram,
        },
        Recipe::DiracInversion => RecipeEntry {
            recipe,
            ingredients: stacks1(is_centi(Item::CriticalPhoton, 200)),
            time_centi: 200,
            results: stacks2(is_centi(Item::Antimatter, 200), is_centi(Item::Hydrogen, 200)),
            made_in: Producer::MiniatureParticleCollider,
            handcraftable: true,
            unlocked_by: Technology::DysonSphereProgram,
        },
        Recipe::UniverseMatrix => RecipeEntry {
            recipe,
            ingredients: stacks6(is_centi(Item::ElectromagneticMatrix, 100), is_centi(Item::EnergyMatrix, 100), is_centi(Item::StructureMatrix, 100), is_centi(Item::InformationMatrix, 100), is_centi(Item::GravityMatrix, 100), is_centi(Item::Antimatter, 100)),
            time_centi: 1500,
            results: stacks1(is_centi(Item::UniverseMatrix, 100)),
            made_in: Producer::MatrixLab,
            handcraftable: true,
            unlocked_by: Technology::DysonSphereProgram,
        },
        Recipe::Accumulator => RecipeEntry {
            recipe,
            ingredients: stacks3(is_centi(Item::IronIngot, 600), is_centi(Item::SuperMagneticRing, 600), is_centi(Item::CrystalSilicon, 400)),
            time_centi: 500,
            results: stacks1(is_centi(Item::Accumulator, 100)),
            made_in: Producer::AssemblingMachine,
            handcraftable: true,
            unlocked_by: Technology::DysonSphereProgram,
        },
        Recipe::EnergyExchanger => RecipeEntry {
            recipe,
            ingredients: stacks4(is_centi(Item::TitaniumAlloy, 4000), is_centi(Item::Steel, 4000), is_centi(Item::Processor, 4000), is_centi(Item::ParticleContainer, 800)),
            time_centi: 1500,
            results: stacks1(is_centi(Item::EnergyExchanger, 100)),
            made_in: Producer::AssemblingMachine,
            handcraftable: true,
            unlocked_by: Technology::DysonSphereProgram,
        },
        Recipe::SpaceWarperFromLens => RecipeEntry {
            recipe,
            ingredients: stacks1(is_centi(Item::GravitonLens, 100)),
            time_centi: 1000,
            results: stacks1(is_centi(Item::SpaceWarper, 100)),
            made_in: Producer::AssemblingMachine,
            handcraftable: true,
            unlocked_by: Technology::DysonSphereProgram,
        },
        Recipe::SpaceWarperFromMatrix => RecipeEntry {
            recipe,
            ingredients: stacks1(is_centi(Item::GravityMatrix, 100)),
            time_centi: 1000,
            results: stacks1(is_centi(Item::SpaceWarper, 800)),
            made_in: Producer::AssemblingMachine,
            handcraftable: true,
            unlocked_by: Technology::DysonSphereProgram,
        },
        Recipe::FrameMaterial => RecipeEntry {
            recipe,
            ingredients: stacks3(is_centi(Item::CarbonNanotube, 400), is_centi(Item::TitaniumAlloy, 100), is_centi(Item::HighPuritySilicon, 100)),
            time_centi: 600,
            results: stacks1(is_centi(Item::FrameMaterial, 100)),
            made_in: Producer::AssemblingMachine,
            handcraftable: true,
            unlocked_by: Technology::DysonSphereProgram,
        },
        Recipe::DysonSphereComponent => RecipeEntry {
            recipe,
            ingredients: stacks3(is_centi(Item::FrameMaterial, 300), is_centi(Item::SolarPanel, 300), is_centi(Item::Processor, 300)),
            time_centi: 800,
            results: stacks1(is_centi(Item::DysonSphereComponent, 100)),
            made_in: Producer::AssemblingMachine,
            handcraftable: true,
            unlocked_by: Technology::DysonSphereProgram,
        },
        Recipe::VerticalLaunchingSilo => RecipeEntry {
            recipe,
            ingredients: stacks4(is_centi(Item::TitaniumAlloy, 8000), is_centi(Item::FrameMaterial, 3000), is_centi(Item::GravitonLens, 2000), is_centi(Item::QuantumChip, 1000)),
            time_centi: 3000,
            results: stacks1(is_centi(Item::VerticalLaunchingSilo, 100)),
            made_in: Producer::AssemblingMachine,
            handcraftable: true,
            unlocked_by: Technology::DysonSphereProgram,
        },
        Recipe::SmallCarrierRocket => RecipeEntry {
            recipe,
            ingredients: stacks3(is_centi(Item::DysonSphereComponent, 200), is_centi(Item::DeuteronFuelRod, 200), is_centi(Item::QuantumChip, 200)),
            time_centi: 600,
            results: stacks1(is_centi(Item::SmallCarrierRocket, 100)),
            made_in: Producer::AssemblingMachine,
            handcraftable: true,
            unlocked_by: Technology::DysonSphereProgram,
        },
        Recipe::ConveyorMK1 => RecipeEntry {
            recipe,
            ingredients: stacks2(is_centi(Item::IronIngot, 200), is_centi(Item::Gear, 100)),
            time_centi: 100,
            results: stacks1(is_centi(Item::ConveyorMK1, 300)),
            made_in: Producer::AssemblingMachine,
            handcraftable: true,
            unlocked_by: Technology::DysonSphereProgram,
        },
        Recipe::SorterMK1 => RecipeEntry {
            recipe,
            ingredients: stacks2(is_centi(Item::IronIngot, 100), is_centi(Item::CircuitBoard, 100)),
            time_centi: 100,
            results: stacks1(is_centi(Item::SorterMK1, 100)),
            made_in: Producer::AssemblingMachine,
            handcraftable: true,
            unlocked_by: Technology::DysonSphereProgram,
        },
        Recipe::StorageMK1 => RecipeEntry {
            recipe,
            ingredients: stacks2(is_centi(Item::IronIngot, 400), is_centi(Item::StoneBrick, 400)),
            time_centi: 200,
            results: stacks1(is_centi(Item::StorageMK1, 100)),
            made_in: Producer::AssemblingMachine,
            handcraftable: true,
            unlocked_by: Technology::DysonSphereProgram,
        },
        Recipe::Splitter => RecipeEntry {
            recipe,
            ingredients: stacks3(is_centi(Item::IronIngot, 300), is_centi(Item::Gear, 200), is_centi(Item::CircuitBoard, 100)),
            time_centi: 200,
            results: stacks1(is_centi(Item::Splitter, 100)),
            made_in: Producer::AssemblingMachine,
            handcraftable: true,
            unlocked_by: Technology::DysonSphereProgram,
        },
        Recipe::SorterMK2 => RecipeEntry {
            recipe,
            ingredients: stacks2(is_centi(Item::SorterMK1, 200), is_centi(Item::Motor, 100)),
            time_centi: 100,
            results: stacks1(is_centi(Item::SorterMK2, 200)),
            made_in: Producer::AssemblingMachine,
            handcraftable: true,
            unlocked_by: Technology::DysonSphereProgram,
        },
        Recipe::ConveyorMK2 => RecipeEntry {
            recipe,
            ingredients: stacks2(is_centi(Item::ConveyorMK1, 300), is_centi(Item::ElectromagneticTurbine, 100)),
            time_centi: 100,
            results: stacks1(is_centi(Item::ConveyorMK2, 300)),
            made_in: Producer::AssemblingMachine,
            handcraftable: true,
            unlocked_by: Technology::DysonSphereProgram,
        },
        Recipe::SorterMK3 => RecipeEntry {
            recipe,
            ingredients: stacks2(is_centi(Item::SorterMK2, 200), is_centi(Item::ElectromagneticTurbine, 100)),
            time_centi: 100,
            results: stacks1(is_centi(Item::SorterMK3, 200)),
            made_in: Producer::AssemblingMachine,
            handcraftable: true,
            unlocked_by: Technology::DysonSphereProgram,
        },
        Recipe::StorageMK2 => RecipeEntry {
            recipe,
            ingredients: stacks2(is_centi(Item::Steel, 800), is_centi(Item::StoneBrick, 800)),
            time_centi: 400,
            results: stacks1(is_centi(Item::StorageMK2, 100)),
            made_in: Producer::AssemblingMachine,
            handcraftable: true,
            unlocked_by: Technology::DysonSphereProgram,
        },
        Recipe::ConveyorMK3 => RecipeEntry {
            recipe,
            ingredients: stacks3(is_centi(Item::ConveyorMK2, 300), is_centi(Item::SuperMagneticRing, 100), is_centi(Item::Graphene, 100)),
            time_centi: 100,
            results: stacks1(is_centi(Item::ConveyorMK3, 300)),
            made_in: Producer::AssemblingMachine,
            handcraftable: true,
            unlocked_by: Technology::DysonSphereProgram,
        },
        Recipe::PlanetaryLogisticsStation => RecipeEntry {
            recipe,
            ingredients: stacks4(is_centi(Item::Steel, 4000), is_centi(Item::TitaniumIngot, 4000), is_centi(Item::Processor, 4000), is_centi(Item::ParticleContainer, 2000)),
            time_centi: 2000,
            results: stacks1(is_centi(Item::PlanetaryLogisticsStation, 100)),
            made_in: Producer::AssemblingMachine,
            handcraftable: true,
            unlocked_by: Technology::DysonSphereProgram,
        },
        Recipe::LogisticsDrone => RecipeEntry {
            recipe,
            ingredients: stacks3(is_centi(Item::IronIngot, 500), is_centi(Item::Processor, 200), is_centi(Item::Thruster, 200)),
            time_centi: 400,
            results: stacks1(is_centi(Item::LogisticsDrone, 100)),
            made_in: Producer::AssemblingMachine,
            handcraftable: true,
            unlocked_by: Technology::DysonSphereProgram,
        },
        Recipe::InterstellarLogisticsStation => RecipeEntry {
            recipe,
            ingredients: stacks3(is_centi(Item::PlanetaryLogisticsStation, 100), is_centi(Item::TitaniumAlloy, 4000), is_centi(Item::ParticleContainer, 2000)),
            time_centi: 3000,
            results: stacks1(is_centi(Item::InterstellarLogisticsStation, 100)),
            made_in: Producer::AssemblingMachine,
            handcraftable: true,
            unlocked_by: Technology::DysonSphereProgram,
        },
        Recipe::LogisticsVessel => RecipeEntry {
            recipe,
            ingredients: stacks3(is_centi(Item::TitaniumAlloy, 1000), is_centi(Item::Processor, 1000), is_centi(Item::ReinforcedThruster, 200)),
            time_centi: 600,
            results: stacks1(is_centi(Item::LogisticsVessel, 100)),
            made_in: Producer::AssemblingMachine,
            handcraftable: true,
            unlocked_by: Technology::DysonSphereProgram,
        },
        Recipe::Motor => RecipeEntry {
            recipe,
            ingredients: stacks3(is_centi(Item::IronIngot, 200), is_centi(Item::Gear, 100), is_centi(Item::Electromagnet, 100)),
            time_centi: 200,
            results: stacks1(is_centi(Item::Motor, 100)),
            made_in: Producer::AssemblingMachine,
            handcraftable: true,
            unlocked_by: Technology::DysonSphereProgram,
        },
        Recipe::ElectromagneticTurbine => RecipeEntry {
            recipe,
            ingredients: stacks2(is_centi(Item::Motor, 200), is_centi(Item::Electromagnet, 200)),
            time_centi: 200,
            results: stacks1(is_centi(Item::ElectromagneticTurbine, 100)),
            made_in: Producer::AssemblingMachine,
            handcraftable: true,
            unlocked_by: Technology::DysonSphereProgram,
        },
        Recipe::ParticleContainerFromEMTurbine => RecipeEntry {
            recipe,
            ingredients: stacks3(is_centi(Item::ElectromagneticTurbine, 200), is_centi(Item::CopperIngot, 200), is_centi(Item::Graphene, 200)),
            time_centi: 400,
            results: stacks1(is_centi(Item::ParticleContainer, 100)),
            made_in: Producer::AssemblingMachine,
            handcraftable: true,
            unlocked_by: Technology::DysonSphereProgram,
        },
        Recipe::ParticleContainerFromUnipolar => RecipeEntry {
            recipe,
            ingredients: stacks2(is_centi(Item::UnipolarMagnet, 1000), is_centi(Item::CopperIngot, 200)),
            time_centi: 400,
            results: stacks1(is_centi(Item::ParticleContainer, 100)),
            made_in: Producer::AssemblingMachine,
            handcraftable: true,
            unlocked_by: Technology::DysonSphereProgram,
        },
        Recipe::GravitonLens => RecipeEntry {
            recipe,
            ingredients: stacks2(is_centi(Item::Diamond, 400), is_centi(Item::StrangeMatter, 100)),
            time_centi: 600,
            results: stacks1(is_centi(Item::GravitonLens, 100)),
            made_in: Producer::AssemblingMachine,
            handcraftable: true,
            unlocked_by: Technology::DysonSphereProgram,
        },
        Recipe::GravityMatrix => RecipeEntry {
            recipe,
            ingredients: stacks2(is_centi(Item::GravitonLens, 100), is_centi(Item::QuantumChip, 100)),
            time_centi: 2400,
            results: stacks1(is_centi(Item::GravityMatrix, 200)),
            made_in: Producer::MatrixLab,
            handcraftable: true,
            unlocked_by: Technology::DysonSphereProgram,
        },
        Recipe::SuperMagneticRing => RecipeEntry {
            recipe,
            ingredients: stacks3(is_centi(Item::ElectromagneticTurbine, 200), is_centi(Item::Magnet, 300), is_centi(Item::EnergeticGraphite, 100)),
            time_centi: 300,
            results: stacks1(is_centi(Item::SuperMagneticRing, 100)),
            made_in: Producer::AssemblingMachine,
            handcraftable: true,
            unlocked_by: Technology::DysonSphereProgram,
        },
        Recipe::StrangeMatter => RecipeEntry {
            recipe,
            ingredients: stacks3(is_centi(Item::ParticleContainer, 200), is_centi(Item::IronIngot, 200), is_centi(Item::Deuterium, 1000)),
            time_centi: 800,
            results: stacks1(is_centi(Item::StrangeMatter, 100)),
            made_in: Producer::MiniatureParticleCollider,
            handcraftable: true,
            unlocked_by: Technology::DysonSphereProgram,
        },
        Recipe::Fractionator => RecipeEntry {
            recipe,
            ingredients: stacks4(is_centi(Item::Steel, 800), is_centi(Item::StoneBrick, 400), is_centi(Item::Glass, 400), is_centi(Item::Processor, 100)),
            time_centi: 300,
            results: stacks1(is_centi(Item::Fractionator, 100)),
            made_in: Producer::AssemblingMachine,
            handcraftable: true,
            unlocked_by: Technology::DysonSphereProgram,
        },
        Recipe::OrbitCollector => RecipeEntry {
            recipe,
            ingredients: stacks4(is_centi(Item::InterstellarLogisticsStation, 100), is_centi(Item::SuperMagneticRing, 5000), is_centi(Item::ReinforcedThruster, 2000), is_centi(Item::FullAccumulator, 2000)),
            time_centi: 3000,
            results: stacks1(is_centi(Item::OrbitCollector, 100)),
            made_in: Producer::AssemblingMachine,
            handcraftable: true,
            unlocked_by: Technology::DysonSphereProgram,
        },
        Recipe::Foundation => RecipeEntry {
            recipe,
            ingredients: stacks2(is_centi(Item::StoneBrick, 300), is_centi(Item::Steel, 100)),
            time_centi: 100,
            results: stacks1(is_centi(Item::Foundation, 100)),
            made_in: Producer::AssemblingMachine,
            handcraftable: true,
            unlocked_by: Technology::DysonSphereProgram,
        },
        Recipe::StorageTank => RecipeEntry {
            recipe,
            ingredients: stacks3(is_centi(Item::IronIngot, 800), is_centi(Item::StoneBrick, 400), is_centi(Item::Glass, 400)),
            time_centi: 200,
            results: stacks1(is_centi(Item::StorageTank, 100)),
            made_in: Producer::AssemblingMachine,
            handcraftable: true,
            unlocked_by: Technology::DysonSphereProgram,
        },
        Recipe::DeuteriumFractionation => RecipeEntry {
            recipe,
            ingredients: stacks1(is_centi(Item::Hydrogen, 100)),
            time_centi: 100,
            results: stacks2(is_centi(Item::Deuterium, 1), is_centi(Item::Hydrogen, 99)),
            made_in: Producer::Fractionator,
            handcraftable: true,
            unlocked_by: Technology::DysonSphereProgram,
        },
        Recipe::IronMining => RecipeEntry {
            recipe,
            ingredients: stacks0(),
            time_centi: 200,
            results: stacks1(is_centi(Item::IronOre, 100)),
            made_in: Producer::MiningMachine,
            handcraftable: true,
            unlocked_by: Technology::DysonSphereProgram,
        },
        Recipe::CopperMining => RecipeEntry {
            recipe,
            ingredients: stacks0(),
            time_centi: 200,
            results: stacks1(is_centi(Item::CopperOre, 100)),
            made_in: Producer::MiningMachine,
            handcraftable: true,
            unlocked_by: Technology::DysonSphereProgram,
        },
        Recipe::SiliconMining => RecipeEntry {
            recipe,
            ingredients: stacks0(),
            time_centi: 200,
            results: stacks1(is_centi(Item::SiliconOre, 100)),
            made_in: Producer::MiningMachine,
            handcraftable: true,
            unlocked_by: Technology::DysonSphereProgram,
        },
        Recipe::TitaniumMining => RecipeEntry {
            recipe,
            ingredients: stacks0(),
            time_centi: 200,
            results: stacks1(is_centi(Item::TitaniumOre, 100)),
            made_in: Producer::MiningMachine,
            handcraftable: true,
            unlocked_by: Technology::DysonSphereProgram,
        },
        Recipe::StoneMining => RecipeEntry {
            recipe,
            ingredients: stacks0(),
            time_centi: 200,
            results: stacks1(is_centi(Item::StoneOre, 100)),
            made_in: Producer::MiningMachine,
            handcraftable: true,
            unlocked_by: Technology::DysonSphereProgram,
        },
        Recipe::CoalMining => RecipeEntry {
            recipe,
            ingredients: stacks0(),
            time_centi: 200,
            results: stacks1(is_centi(Item::CoalOre, 100)),
            made_in: Producer::MiningMachine,
            handcraftable: true,
            unlocked_by: Technology::DysonSphereProgram,
        },
        Recipe::FireIceMining => RecipeEntry {
            recipe,
            ingredients: stacks0(),
            time_centi: 200,
            results: stacks1(is_centi(Item::FireIce, 100)),
            made_in: Producer::MiningMachine,
            handcraftable: true,
            unlocked_by: Technology::DysonSphereProgram,
        },
        Recipe::DiamondMining => RecipeEntry {
            recipe,
            ingredients: stacks0(),
            time_centi: 200,
            results: stacks1(is_centi(Item::Kimberlite, 100)),
            made_in: Producer::MiningMachine,
            handcraftable: true,
            unlocked_by: Technology::DysonSphereProgram,
        },
        Recipe::FractalSiliconMining => RecipeEntry {
            recipe,
            ingredients: stacks0(),
            time_centi: 200,
            results: stacks1(is_centi(Item::FractalSilicon, 100)),
            made_in: Producer::MiningMachine,
            handcraftable: true,
            unlocked_by: Technology::DysonSphereProgram,
        },
        Recipe::OrganicCrystalMining => RecipeEntry {
            recipe,
            ingredients: stacks0(),
            time_centi: 200,
            results: stacks1(is_centi(Item::OrganicCrystal, 100)),
            made_in: Producer::MiningMachine,
            handcraftable: true,
            unlocked_by: Technology::DysonSphereProgram,
        },
        Recipe::OpticalGratingCrystalMining => RecipeEntry {
            recipe,
            ingredients: stacks0(),
            time_centi: 200,
            results: stacks1(is_centi(Item::OpticalGratingCrystal, 100)),
            made_in: Producer::MiningMachine,
            handcraftable: true,
            unlocked_by: Technology::DysonSphereProgram,
        },
        Recipe::SpiniformStalagmiteCrystalMining => RecipeEntry {
            recipe,
            ingredients: stacks0(),
            time_centi: 200,
            results: stacks1(is_centi(Item::SpiniformStalagmiteCrystal, 100)),
            made_in: Producer::MiningMachine,
            handcraftable: true,
            unlocked_by: Technology::DysonSphereProgram,
        },
        Recipe::UnipolarMagnetMining => RecipeEntry {
            recipe,
            ingredients: stacks0(),
            time_centi: 200,
            results: stacks1(is_centi(Item::UnipolarMagnet, 100)),
            made_in: Producer::MiningMachine,
            handcraftable: true,
            unlocked_by: Technology::DysonSphereProgram,
        },
        Recipe::OilExtraction => RecipeEntry {
            recipe,
            ingredients: stacks0(),
            time_centi: 100,
            results: stacks1(is_centi(Item::CrudeOil, 100)),
            made_in: Producer::OilExtractor,
            handcraftable: true,
            unlocked_by: Technology::DysonSphereProgram,
        },
        Recipe::CriticalPhotonReceiving => RecipeEntry {
            recipe,
            ingredients: stacks0(),
            time_centi: 100,
            results: stacks1(is_centi(Item::CriticalPhoton, 100)),
            made_in: Producer::RayReceiver,
            handcraftable: true,
            unlocked_by: Technology::DysonSphereProgram,
        },
        Recipe::WaterPumping => RecipeEntry {
            recipe,
            ingredients: stacks0(),
            time_centi: 120,
            results: stacks1(is_centi(Item::Water, 100)),
            made_in: Producer::WaterPump,
            handcraftable: true,
            unlocked_by: Technology::DysonSphereProgram,
        },
        Recipe::SulfuricAcidPumping => RecipeEntry {
            recipe,
            ingredients: stacks0(),
            time_centi: 120,
            results: stacks1(is_centi(Item::SulfuricAcid, 100)),
            made_in: Producer::WaterPump,
            handcraftable: true,
            unlocked_by: Technology::DysonSphereProgram,
        },
        Recipe::GasGiantCollection => RecipeEntry {
            recipe,
            ingredients: stacks0(),
            time_centi: 800,
            results: stacks2(is_centi(Item::Hydrogen, 400), is_centi(Item::Deuterium, 0)),
            made_in: Producer::OrbitCollector,
            handcraftable: true,
            unlocked_by: Technology::DysonSphereProgram,
        },
        Recipe::IceGiantCollection => RecipeEntry {
            recipe,
            ingredients: stacks0(),
            time_centi: 800,
            results: stacks2(is_centi(Item::FireIce, 200), is_centi(Item::Hydrogen, 100)),
            made_in: Producer::OrbitCollector,
            handcraftable: true,
            unlocked_by: Technology::DysonSphereProgram,
        },
    }
}

} // verus!
