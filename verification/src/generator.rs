//! The cross-linker: derives the complete navigable structure from the flat
//! enumerations and the two relational tables.
//!
//! From the prerequisite table it builds the technology tree with both
//! forward and reverse edges; from the recipe table it builds the two
//! per-item inverted indices ("which recipes produce this item", "which
//! recipes consume this item").  All computation is a single pure pass;
//! ordering is deterministic and defined by declaration order.

use crate::enumeration::Enumeration;
use crate::items::{Item, ItemStack};
use crate::recipe_table::{recipe_definition, recipe_model, RecipeModel};
use crate::recipes::Recipe;
use crate::schenum_map::SchemingEnumMap;
use crate::technologies::Technology;
use vstd::prelude::*;

verus! {

/// One technology with its forward and reverse edges.
pub struct TechnologyEntry {
    pub tech: Technology,
    /// All technology that this immediately depends on
    pub prereqs: Vec<Technology>,
    /// All technology immediately depending on this
    pub postreqs: Vec<Technology>,
}

/// The mathematical model of a technology entry.
#[verifier::ext_equal]
pub struct TechnologyModel {
    pub tech: Technology,
    pub prereqs: Seq<Technology>,
    pub postreqs: Seq<Technology>,
}

impl View for TechnologyEntry {
    type V = TechnologyModel;

    open spec fn view(&self) -> TechnologyModel {
        TechnologyModel { tech: self.tech, prereqs: self.prereqs@, postreqs: self.postreqs@ }
    }
}

/// The technologies among the first `n` declared that list `p` as an
/// immediate prerequisite, in declaration order.
pub open spec fn postreqs_upto(p: Technology, n: int) -> Seq<Technology>
    decreases n,
{
    if n <= 0 {
        Seq::empty()
    } else {
        let t = Technology::from_index_spec(n - 1);
        postreqs_upto(p, n - 1) + if t.prereqs_spec().contains(p) {
            seq![t]
        } else {
            Seq::empty()
        }
    }
}

/// All technologies that list `p` as an immediate prerequisite, in
/// declaration order.
pub open spec fn postreqs_spec(p: Technology) -> Seq<Technology> {
    postreqs_upto(p, Technology::count_spec())
}

/// The technology-tree entry a technology must map to: the technology
/// itself, its declared prerequisites, and its derived postrequisites.
pub open spec fn tech_model(t: Technology) -> TechnologyModel {
    TechnologyModel { tech: t, prereqs: t.prereqs_spec(), postreqs: postreqs_spec(t) }
}

/// Whether a list of technologies contains `t`.
fn tech_list_contains(v: &Vec<Technology>, t: Technology) -> (b: bool)
    ensures
        b == v@.contains(t),
{
    let mut i: usize = 0;
    while i < v.len()
        invariant
            i <= v@.len(),
            forall|l: int| 0 <= l < i as int ==> v@[l] != t,
        decreases v@.len() - i,
    {
        if v[i] == t {
            proof {
                assert(v@.contains(t));
            }
            return true;
        }
        i = i + 1;
    }
    false
}

impl TechnologyEntry {
    /// Build the technology tree: for every technology, its declared
    /// prerequisites and the derived reverse edges, both in declaration
    /// order.
    #[verifier::loop_isolation(false)]
    pub fn generate_all() -> (m: SchemingEnumMap<Technology, TechnologyEntry>)
        ensures
            m.wf(),
            forall|i: int|
                0 <= i < Technology::count_spec() ==> (#[trigger] m@[i])@ == tech_model(
                    Technology::from_index_spec(i),
                ),
    {
        let t_count = Technology::count();
        let mut entries: Vec<TechnologyEntry> = Vec::new();
        let mut j: usize = 0;
        while j < t_count
            invariant
                j <= t_count,
                entries@.len() == j as int,
                forall|l: int|
                    0 <= l < j as int ==> (#[trigger] entries@[l])@ == tech_model(
                        Technology::from_index_spec(l),
                    ),
            decreases t_count - j,
        {
            let p = Technology::from_index(j);
            let mut posts: Vec<Technology> = Vec::new();
            proof {
                assert(posts@ =~= postreqs_upto(p, 0));
            }
            let mut k: usize = 0;
            while k < t_count
                invariant
                    k <= t_count,
                    posts@ == postreqs_upto(p, k as int),
                decreases t_count - k,
            {
                let t = Technology::from_index(k);
                let pr = t.prerequisites();
                if tech_list_contains(&pr, p) {
                    posts.push(t);
                }
                proof {
                    assert(posts@ =~= postreqs_upto(p, k as int + 1));
                }
                k = k + 1;
            }
            let entry = TechnologyEntry { tech: p, prereqs: p.prerequisites(), postreqs: posts };
            entries.push(entry);
            j = j + 1;
        }
        SchemingEnumMap::from_entries(entries)
    }
}

/// One recipe definition: what it consumes and yields (ordered as declared),
/// how long it takes, where it is made, whether it can be crafted by hand,
/// and which technology unlocks it.  Counts and times are in hundredths (see
/// [`crate::items::ItemStack`]).
pub struct RecipeEntry {
    pub recipe: Recipe,
    pub ingredients: Vec<ItemStack>,
    /// Time in hundredths of a second to make it
    pub time_centi: u64,
    pub results: Vec<ItemStack>,
    pub made_in: crate::producers::Producer,
    pub handcraftable: bool,
    pub unlocked_by: Technology,
}

impl View for RecipeEntry {
    type V = RecipeModel;

    open spec fn view(&self) -> RecipeModel {
        RecipeModel {
            recipe: self.recipe,
            ingredients: self.ingredients@,
            time_centi: self.time_centi as int,
            results: self.results@,
            made_in: self.made_in,
            handcraftable: self.handcraftable,
            unlocked_by: self.unlocked_by,
        }
    }
}

/// The whole recipe table as a sequence of models, in declaration order.
pub open spec fn table_models() -> Seq<RecipeModel> {
    Seq::new(Recipe::count_spec() as nat, |i: int| recipe_model(Recipe::from_index_spec(i)))
}

impl RecipeEntry {
    /// Build the full recipe table: every recipe identifier mapped to its
    /// definition.
    #[verifier::loop_isolation(false)]
    pub fn generate_all() -> (m: SchemingEnumMap<Recipe, RecipeEntry>)
        ensures
            m.wf(),
            forall|i: int|
                0 <= i < Recipe::count_spec() ==> (#[trigger] m@[i])@ == recipe_model(
                    Recipe::from_index_spec(i),
                ),
    {
        let r_count = Recipe::count();
        let mut entries: Vec<RecipeEntry> = Vec::new();
        let mut i: usize = 0;
        while i < r_count
            invariant
                i <= r_count,
                entries@.len() == i as int,
                forall|l: int|
                    0 <= l < i as int ==> (#[trigger] entries@[l])@ == recipe_model(
                        Recipe::from_index_spec(l),
                    ),
            decreases r_count - i,
        {
            entries.push(recipe_definition(Recipe::from_index(i)));
            i = i + 1;
        }
        SchemingEnumMap::from_entries(entries)
    }
}

/// The views of a sequence of recipe entries.
pub open spec fn models_of(entries: Seq<RecipeEntry>) -> Seq<RecipeModel> {
    Seq::new(entries.len(), |i: int| entries[i]@)
}

/// The contribution of one recipe `r` to an item's index, from the first `k`
/// stacks of one of its stack lists: one occurrence of `r` per stack naming
/// the item.
pub open spec fn stacks_contrib(r: Recipe, stacks: Seq<ItemStack>, item: Item, k: int) -> Seq<
    Recipe,
>
    decreases k,
{
    if k <= 0 {
        Seq::empty()
    } else {
        stacks_contrib(r, stacks, item, k - 1) + if stacks[k - 1].item == item {
            seq![r]
        } else {
            Seq::empty()
        }
    }
}

/// The production index of `item` over the first `n` recipes: every recipe
/// whose results name the item, in declaration order, once per naming stack.
pub open spec fn production_upto(models: Seq<RecipeModel>, item: Item, n: int) -> Seq<Recipe>
    decreases n,
{
    if n <= 0 {
        Seq::empty()
    } else {
        production_upto(models, item, n - 1) + stacks_contrib(
            Recipe::from_index_spec(n - 1),
            models[n - 1].results,
            item,
            models[n - 1].results.len() as int,
        )
    }
}

/// The full production index of `item`.
pub open spec fn production_spec(models: Seq<RecipeModel>, item: Item) -> Seq<Recipe> {
    production_upto(models, item, models.len() as int)
}

/// The consumption index of `item` over the first `n` recipes: every recipe
/// whose ingredients name the item, in declaration order, once per naming
/// stack.
pub open spec fn consumption_upto(models: Seq<RecipeModel>, item: Item, n: int) -> Seq<Recipe>
    decreases n,
{
    if n <= 0 {
        Seq::empty()
    } else {
        consumption_upto(models, item, n - 1) + stacks_contrib(
            Recipe::from_index_spec(n - 1),
            models[n - 1].ingredients,
            item,
            models[n - 1].ingredients.len() as int,
        )
    }
}

/// The full consumption index of `item`.
pub open spec fn consumption_spec(models: Seq<RecipeModel>, item: Item) -> Seq<Recipe> {
    consumption_upto(models, item, models.len() as int)
}

/// Generate all the ways to produce and consume items.
///
/// Returns `(producers, consumers)`: for every item, the recipes whose
/// results (respectively ingredients) name it, in recipe declaration order,
/// once per naming stack.
#[verifier::loop_isolation(false)]
pub fn generate_usages(recipes: &SchemingEnumMap<Recipe, RecipeEntry>) -> (maps: (
    SchemingEnumMap<Item, Vec<Recipe>>,
    SchemingEnumMap<Item, Vec<Recipe>>,
))
    requires
        recipes.wf(),
    ensures
        maps.0.wf(),
        maps.1.wf(),
        forall|j: int|
            0 <= j < Item::count_spec() ==> (#[trigger] maps.0@[j])@ == production_spec(
                models_of(recipes@),
                Item::from_index_spec(j),
            ),
        forall|j: int|
            0 <= j < Item::count_spec() ==> (#[trigger] maps.1@[j])@ == consumption_spec(
                models_of(recipes@),
                Item::from_index_spec(j),
            ),
{
    let i_count = Item::count();
    let r_count = Recipe::count();
    let ghost models = models_of(recipes@);
    let mut prods: Vec<Vec<Recipe>> = Vec::new();
    let mut cons: Vec<Vec<Recipe>> = Vec::new();
    let mut j: usize = 0;
    while j < i_count
        invariant
            j <= i_count,
            prods@.len() == j as int,
            cons@.len() == j as int,
            forall|l: int|
                0 <= l < j as int ==> (#[trigger] prods@[l])@ == production_spec(
                    models,
                    Item::from_index_spec(l),
                ),
            forall|l: int|
                0 <= l < j as int ==> (#[trigger] cons@[l])@ == consumption_spec(
                    models,
                    Item::from_index_spec(l),
                ),
        decreases i_count - j,
    {
        let item = Item::from_index(j);
        let mut p_list: Vec<Recipe> = Vec::new();
        let mut c_list: Vec<Recipe> = Vec::new();
        proof {
            assert(p_list@ =~= production_upto(models, item, 0));
            assert(c_list@ =~= consumption_upto(models, item, 0));
        }
        let mut i: usize = 0;
        while i < r_count
            invariant
                i <= r_count,
                p_list@ == production_upto(models, item, i as int),
                c_list@ == consumption_upto(models, item, i as int),
            decreases r_count - i,
        {
            let r = Recipe::from_index(i);
            let entry = recipes.at_index(i);
            proof {
                assert(models[i as int] == entry@);
            }
            let mut s: usize = 0;
            proof {
                assert(p_list@ =~= production_upto(models, item, i as int) + stacks_contrib(
                    r,
                    models[i as int].results,
                    item,
                    0,
                ));
            }
            while s < entry.results.len()
                invariant
                    s <= entry.results@.len(),
                    p_list@ == production_upto(models, item, i as int) + stacks_contrib(
                        r,
                        models[i as int].results,
                        item,
                        s as int,
                    ),
                decreases entry.results@.len() - s,
            {
                if entry.results[s].item == item {
                    p_list.push(r);
                }
                proof {
                    assert(p_list@ =~= production_upto(models, item, i as int) + stacks_contrib(
                        r,
                        models[i as int].results,
                        item,
                        s as int + 1,
                    ));
                }
                s = s + 1;
            }
            let mut g: usize = 0;
            proof {
                assert(c_list@ =~= consumption_upto(models, item, i as int) + stacks_contrib(
                    r,
                    models[i as int].ingredients,
                    item,
                    0,
                ));
            }
            while g < entry.ingredients.len()
                invariant
                    g <= entry.ingredients@.len(),
                    c_list@ == consumption_upto(models, item, i as int) + stacks_contrib(
                        r,
                        models[i as int].ingredients,
                        item,
                        g as int,
                    ),
                decreases entry.ingredients@.len() - g,
            {
                if entry.ingredients[g].item == item {
                    c_list.push(r);
                }
                proof {
                    assert(c_list@ =~= consumption_upto(models, item, i as int) + stacks_contrib(
                        r,
                        models[i as int].ingredients,
                        item,
                        g as int + 1,
                    ));
                }
                g = g + 1;
            }
            proof {
                assert(p_list@ =~= production_upto(models, item, i as int + 1));
                assert(c_list@ =~= consumption_upto(models, item, i as int + 1));
            }
            i = i + 1;
        }
        prods.push(p_list);
        cons.push(c_list);
        j = j + 1;
    }
    (SchemingEnumMap::from_entries(prods), SchemingEnumMap::from_entries(cons))
}

/// The composite document: the four total mappings the front-end consumes.
pub struct AllDSPInfo {
    pub tech_tree: SchemingEnumMap<Technology, TechnologyEntry>,
    pub recipes: SchemingEnumMap<Recipe, RecipeEntry>,
    pub production_methods: SchemingEnumMap<Item, Vec<Recipe>>,
    pub consumption_methods: SchemingEnumMap<Item, Vec<Recipe>>,
}

impl AllDSPInfo {
    /// What `generate` promises: all four mappings are total, and each entry
    /// equals its mathematical model - the technology tree entry with its
    /// derived reverse edges, the recipe definition from the table, and the
    /// two inverted indices over the table.
    pub open spec fn is_generated(self) -> bool {
        &&& self.tech_tree.wf()
        &&& self.recipes.wf()
        &&& self.production_methods.wf()
        &&& self.consumption_methods.wf()
        &&& forall|i: int|
            0 <= i < Technology::count_spec() ==> (#[trigger] self.tech_tree@[i])@ == tech_model(
                Technology::from_index_spec(i),
            )
        &&& forall|i: int|
            0 <= i < Recipe::count_spec() ==> (#[trigger] self.recipes@[i])@ == recipe_model(
                Recipe::from_index_spec(i),
            )
        &&& forall|j: int|
            0 <= j < Item::count_spec() ==> (#[trigger] self.production_methods@[j])@
                == production_spec(table_models(), Item::from_index_spec(j))
        &&& forall|j: int|
            0 <= j < Item::count_spec() ==> (#[trigger] self.consumption_methods@[j])@
                == consumption_spec(table_models(), Item::from_index_spec(j))
    }

    /// Generate all the information!
    pub fn generate() -> (info: Self)
        ensures
            info.is_generated(),
    {
        let recipes = RecipeEntry::generate_all();
        let (production_methods, consumption_methods) = generate_usages(&recipes);
        proof {
            assert(models_of(recipes@) =~= table_models());
        }
        AllDSPInfo {
            tech_tree: TechnologyEntry::generate_all(),
            recipes,
            production_methods,
            consumption_methods,
        }
    }
}

} // verus!
