//! End-to-end scenarios over the compiled data, and exhaustive runtime
//! checks of the cross-linker's quantified properties.

use generator::enumeration::Enumeration;
use generator::generator::AllDSPInfo;
use generator::items::{Item, ItemStack};
use generator::producers::Producer;
use generator::recipes::Recipe;
use generator::technologies::Technology;

fn occurrences(list: &Vec<Recipe>, r: Recipe) -> usize {
    list.iter().filter(|x| **x == r).count()
}

#[test]
fn s1_iron_smelting() {
    let info = AllDSPInfo::generate();
    let entry = info.recipes.get(Recipe::IronSmelting);
    assert_eq!(entry.recipe, Recipe::IronSmelting);
    assert_eq!(entry.ingredients, vec![ItemStack { item: Item::IronOre, count_centi: 100 }]);
    assert_eq!(entry.time_centi, 100);
    assert_eq!(entry.results, vec![ItemStack { item: Item::IronIngot, count_centi: 100 }]);
    assert_eq!(entry.made_in, Producer::Smelter);
    assert!(entry.handcraftable);
    assert_eq!(entry.unlocked_by, Technology::DysonSphereProgram);
    assert!(info.production_methods.get(Item::IronIngot).contains(&Recipe::IronSmelting));
    assert!(info.consumption_methods.get(Item::IronOre).contains(&Recipe::IronSmelting));
}

#[test]
fn s2_dual_production_paths() {
    let info = AllDSPInfo::generate();
    assert_eq!(
        info.production_methods.get(Item::Diamond),
        &vec![Recipe::DiamondFromGraphite, Recipe::DiamondFromKimberlite]
    );
}

#[test]
fn s3_self_consuming_recipe() {
    let info = AllDSPInfo::generate();
    assert!(
        info.consumption_methods.get(Item::Hydrogen).contains(&Recipe::DeuteriumFractionation)
    );
    assert!(
        info.production_methods.get(Item::Hydrogen).contains(&Recipe::DeuteriumFractionation)
    );
    let entry = info.recipes.get(Recipe::DeuteriumFractionation);
    assert_eq!(
        entry.results,
        vec![
            ItemStack { item: Item::Deuterium, count_centi: 1 },
            ItemStack { item: Item::Hydrogen, count_centi: 99 },
        ]
    );
}

#[test]
fn s4_reverse_edges() {
    let info = AllDSPInfo::generate();
    assert!(
        info.tech_tree.get(Technology::DysonSphereProgram).postreqs.contains(
            &Technology::Electromagnetism
        )
    );
    assert_eq!(
        info.tech_tree.get(Technology::Electromagnetism).prereqs,
        vec![Technology::DysonSphereProgram]
    );
}

#[test]
fn s5_multi_prerequisite_fan_in() {
    let info = AllDSPInfo::generate();
    assert_eq!(
        info.tech_tree.get(Technology::PlasmaExtractRefining).prereqs,
        vec![
            Technology::FluidStorageEncapsulation,
            Technology::HighEfficiencyPlasmaControl,
        ]
    );
    assert!(
        info.tech_tree.get(Technology::FluidStorageEncapsulation).postreqs.contains(
            &Technology::PlasmaExtractRefining
        )
    );
    assert!(
        info.tech_tree.get(Technology::HighEfficiencyPlasmaControl).postreqs.contains(
            &Technology::PlasmaExtractRefining
        )
    );
}

#[test]
fn s6_zero_count_production_is_still_production() {
    let info = AllDSPInfo::generate();
    assert!(info.production_methods.get(Item::Deuterium).contains(&Recipe::GasGiantCollection));
    let entry = info.recipes.get(Recipe::GasGiantCollection);
    assert_eq!(entry.results[1], ItemStack { item: Item::Deuterium, count_centi: 0 });
}

#[test]
fn totality_of_all_mappings() {
    let info = AllDSPInfo::generate();
    assert_eq!(info.tech_tree.len(), Technology::count());
    assert_eq!(info.recipes.len(), Recipe::count());
    assert_eq!(info.production_methods.len(), Item::count());
    assert_eq!(info.consumption_methods.len(), Item::count());
    for i in 0..Technology::count() {
        let t = Technology::from_index(i);
        assert_eq!(info.tech_tree.get(t).tech, t);
        assert_eq!(t.index(), i);
    }
    for i in 0..Recipe::count() {
        let r = Recipe::from_index(i);
        assert_eq!(info.recipes.get(r).recipe, r);
        assert_eq!(r.index(), i);
    }
    for i in 0..Item::count() {
        assert_eq!(Item::from_index(i).index(), i);
    }
    for i in 0..Producer::count() {
        assert_eq!(Producer::from_index(i).index(), i);
    }
}

#[test]
fn names_are_pairwise_distinct() {
    let mut names = std::collections::HashSet::new();
    for i in 0..Technology::count() {
        assert!(names.insert(Technology::from_index(i).name()));
    }
    names.clear();
    for i in 0..Recipe::count() {
        assert!(names.insert(Recipe::from_index(i).name()));
    }
    names.clear();
    for i in 0..Item::count() {
        assert!(names.insert(Item::from_index(i).name()));
    }
    names.clear();
    for i in 0..Producer::count() {
        assert!(names.insert(Producer::from_index(i).name()));
    }
}

#[test]
fn edge_symmetry_exhaustive() {
    let info = AllDSPInfo::generate();
    for a_i in 0..Technology::count() {
        let a = Technology::from_index(a_i);
        for b_i in 0..Technology::count() {
            let b = Technology::from_index(b_i);
            let forward = info.tech_tree.get(a).prereqs.contains(&b);
            let backward = info.tech_tree.get(b).postreqs.contains(&a);
            assert_eq!(forward, backward, "asymmetry between {} and {}", a.name(), b.name());
        }
    }
}

#[test]
fn postreqs_follow_declaration_order() {
    let info = AllDSPInfo::generate();
    for t_i in 0..Technology::count() {
        let t = Technology::from_index(t_i);
        let posts = &info.tech_tree.get(t).postreqs;
        for w in posts.windows(2) {
            assert!(w[0].index() < w[1].index());
        }
    }
}

#[test]
fn usage_indices_sound_and_counting_exhaustive() {
    let info = AllDSPInfo::generate();
    for i_i in 0..Item::count() {
        let item = Item::from_index(i_i);
        let prods = info.production_methods.get(item);
        let cons = info.consumption_methods.get(item);
        for r_i in 0..Recipe::count() {
            let r = Recipe::from_index(r_i);
            let entry = info.recipes.get(r);
            let result_matches = entry.results.iter().filter(|s| s.item == item).count();
            let ingredient_matches = entry.ingredients.iter().filter(|s| s.item == item).count();
            assert_eq!(occurrences(prods, r), result_matches);
            assert_eq!(occurrences(cons, r), ingredient_matches);
        }
        for w in prods.windows(2) {
            assert!(w[0].index() <= w[1].index());
        }
    }
}

#[test]
fn unlocking_technology_is_a_declared_member() {
    let info = AllDSPInfo::generate();
    let mut tech_names = Vec::new();
    for i in 0..Technology::count() {
        tech_names.push(Technology::from_index(i).name());
    }
    for r_i in 0..Recipe::count() {
        let r = Recipe::from_index(r_i);
        assert!(tech_names.contains(&info.recipes.get(r).unlocked_by.name()));
    }
}

#[test]
fn root_technology_is_default_with_no_prerequisites() {
    assert_eq!(Technology::default(), Technology::DysonSphereProgram);
    assert!(Technology::DysonSphereProgram.prerequisites().is_empty());
}

#[test]
fn declared_self_loop_is_linked_not_rejected() {
    // The prerequisite table declares a technology as its own prerequisite;
    // the cross-linker must not assume acyclicity and simply links the edge
    // in both directions.
    let info = AllDSPInfo::generate();
    let entry = info.tech_tree.get(Technology::MiniatureParticleCollider);
    assert!(entry.prereqs.contains(&Technology::MiniatureParticleCollider));
    assert!(entry.postreqs.contains(&Technology::MiniatureParticleCollider));
}

#[test]
fn mining_recipes_consume_nothing() {
    let info = AllDSPInfo::generate();
    let entry = info.recipes.get(Recipe::IronMining);
    assert!(entry.ingredients.is_empty());
    assert_eq!(entry.results, vec![ItemStack { item: Item::IronOre, count_centi: 100 }]);
}
