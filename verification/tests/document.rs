//! The emitted artifacts: the JSON document and the type declarations.

use generator::decls::generate_declarations;
use generator::enumeration::Enumeration;
use generator::generator::AllDSPInfo;
use generator::items::Item;
use generator::recipes::Recipe;
use generator::technologies::Technology;

fn compiled_document() -> serde_json::Value {
    let info = AllDSPInfo::generate();
    let text = info.to_json();
    serde_json::from_str(&text).expect("the emitted document is valid JSON")
}

#[test]
fn output_is_byte_identical_between_compilations() {
    let first = AllDSPInfo::generate().to_json();
    let second = AllDSPInfo::generate().to_json();
    assert_eq!(first, second);
    assert_eq!(generate_declarations(), generate_declarations());
}

#[test]
fn document_has_exactly_the_four_top_level_keys() {
    let doc = compiled_document();
    let obj = doc.as_object().unwrap();
    assert_eq!(obj.len(), 4);
    assert!(obj.contains_key("tech_tree"));
    assert!(obj.contains_key("recipes"));
    assert!(obj.contains_key("production_methods"));
    assert!(obj.contains_key("consumption_methods"));
}

#[test]
fn mapping_keys_are_exactly_the_enumerators() {
    let doc = compiled_document();
    let tech_tree = doc["tech_tree"].as_object().unwrap();
    assert_eq!(tech_tree.len(), Technology::count());
    for i in 0..Technology::count() {
        assert!(tech_tree.contains_key(Technology::from_index(i).name()));
    }
    let recipes = doc["recipes"].as_object().unwrap();
    assert_eq!(recipes.len(), Recipe::count());
    for i in 0..Recipe::count() {
        assert!(recipes.contains_key(Recipe::from_index(i).name()));
    }
    for key in ["production_methods", "consumption_methods"] {
        let map = doc[key].as_object().unwrap();
        assert_eq!(map.len(), Item::count());
        for i in 0..Item::count() {
            assert!(map.contains_key(Item::from_index(i).name()));
        }
    }
}

#[test]
fn recipe_values_have_the_declared_shape() {
    let doc = compiled_document();
    let entry = &doc["recipes"]["IronSmelting"];
    let obj = entry.as_object().unwrap();
    assert_eq!(obj.len(), 7);
    assert_eq!(entry["recipe"], serde_json::Value::String("IronSmelting".to_string()));
    assert_eq!(entry["time"].as_f64().unwrap(), 1.0);
    assert_eq!(entry["made_in"], serde_json::Value::String("Smelter".to_string()));
    assert_eq!(entry["handcraftable"], serde_json::Value::Bool(true));
    assert_eq!(
        entry["unlocked_by"],
        serde_json::Value::String("DysonSphereProgram".to_string())
    );
    let results = entry["results"].as_array().unwrap();
    assert_eq!(results.len(), 1);
    assert_eq!(results[0]["item"], serde_json::Value::String("IronIngot".to_string()));
    assert_eq!(results[0]["count"].as_f64().unwrap(), 1.0);
    let ingredients = entry["ingredients"].as_array().unwrap();
    assert_eq!(ingredients[0]["item"], serde_json::Value::String("IronOre".to_string()));
}

#[test]
fn fractional_counts_render_with_two_decimals() {
    let doc = compiled_document();
    let results = doc["recipes"]["DeuteriumFractionation"]["results"].as_array().unwrap();
    assert_eq!(results[0]["item"], serde_json::Value::String("Deuterium".to_string()));
    assert!((results[0]["count"].as_f64().unwrap() - 0.01).abs() < 1e-12);
    assert_eq!(results[1]["item"], serde_json::Value::String("Hydrogen".to_string()));
    assert!((results[1]["count"].as_f64().unwrap() - 0.99).abs() < 1e-12);
    let info = AllDSPInfo::generate();
    let text = info.to_json();
    assert!(text.contains("{\"item\": \"Deuterium\", \"count\": 0.01}"));
    assert!(text.contains("{\"item\": \"Hydrogen\", \"count\": 0.99}"));
}

#[test]
fn tenth_second_times_render_with_one_decimal() {
    let doc = compiled_document();
    assert!((doc["recipes"]["WaterPumping"]["time"].as_f64().unwrap() - 1.2).abs() < 1e-12);
    let info = AllDSPInfo::generate();
    let text = info.to_json();
    assert!(text.contains("\"time\": 1.2,"));
}

#[test]
fn whole_counts_render_without_a_fractional_part() {
    let info = AllDSPInfo::generate();
    let text = info.to_json();
    assert!(text.contains("{\"item\": \"IronIngot\", \"count\": 1}"));
    assert!(text.contains("{\"item\": \"Hydrogen\", \"count\": 4}"));
}

#[test]
fn zero_count_renders_as_zero() {
    let doc = compiled_document();
    let results = doc["recipes"]["GasGiantCollection"]["results"].as_array().unwrap();
    assert_eq!(results[1]["count"].as_f64().unwrap(), 0.0);
    let info = AllDSPInfo::generate();
    assert!(info.to_json().contains("{\"item\": \"Deuterium\", \"count\": 0}"));
}

#[test]
fn tech_tree_values_have_the_declared_shape() {
    let doc = compiled_document();
    let entry = &doc["tech_tree"]["PlasmaExtractRefining"];
    let obj = entry.as_object().unwrap();
    assert_eq!(obj.len(), 3);
    assert_eq!(entry["tech"], serde_json::Value::String("PlasmaExtractRefining".to_string()));
    let prereqs: Vec<&str> =
        entry["prereqs"].as_array().unwrap().iter().map(|v| v.as_str().unwrap()).collect();
    assert_eq!(prereqs, vec!["FluidStorageEncapsulation", "HighEfficiencyPlasmaControl"]);
    let posts = &doc["tech_tree"]["DysonSphereProgram"]["postreqs"];
    let posts: Vec<&str> = posts.as_array().unwrap().iter().map(|v| v.as_str().unwrap()).collect();
    assert!(posts.contains(&"Electromagnetism"));
}

#[test]
fn production_methods_serialise_as_name_arrays() {
    let doc = compiled_document();
    let diamond: Vec<&str> = doc["production_methods"]["Diamond"]
        .as_array()
        .unwrap()
        .iter()
        .map(|v| v.as_str().unwrap())
        .collect();
    assert_eq!(diamond, vec!["DiamondFromGraphite", "DiamondFromKimberlite"]);
    let unused = doc["production_methods"]["UniverseMatrix"].as_array().unwrap();
    assert_eq!(unused.len(), 1);
    let consumed_nothing = doc["consumption_methods"]["UniverseMatrix"].as_array().unwrap();
    assert_eq!(consumed_nothing.len(), 0);
}

#[test]
fn every_json_recipe_name_is_a_union_member() {
    let decls = generate_declarations();
    for i in 0..Recipe::count() {
        let quoted = format!("\"{}\"", Recipe::from_index(i).name());
        assert!(decls.contains(&quoted));
    }
    for i in 0..Item::count() {
        let quoted = format!("\"{}\"", Item::from_index(i).name());
        assert!(decls.contains(&quoted));
    }
}

#[test]
fn declarations_declare_the_document_shape() {
    let decls = generate_declarations();
    assert!(decls.contains("export type Item = "));
    assert!(decls.contains("export type Producer = "));
    assert!(decls.contains("export type Technology = "));
    assert!(decls.contains("export type Recipe = "));
    assert!(decls.contains("export interface ItemStack { item: Item; count: number; }"));
    assert!(decls.contains(
        "export interface TechnologyEntry { tech: Technology; prereqs: Technology[]; postreqs: Technology[]; }"
    ));
    assert!(decls.contains("export interface RecipeEntry { recipe: Recipe;"));
    assert!(decls.contains("tech_tree: { [K in Technology]: TechnologyEntry };"));
    assert!(decls.contains("production_methods: { [K in Item]: Recipe[] };"));
}

#[test]
fn union_types_follow_declaration_order() {
    let decls = generate_declarations();
    let item_line = decls
        .lines()
        .find(|l| l.starts_with("export type Item = "))
        .unwrap();
    let first = format!("\"{}\"", Item::from_index(0).name());
    let second = format!("\"{}\"", Item::from_index(1).name());
    let pos_first = item_line.find(&first).unwrap();
    let pos_second = item_line.find(&second).unwrap();
    assert!(pos_first < pos_second);
    assert!(item_line.ends_with(";"));
}
