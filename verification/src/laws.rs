//! The quantified laws of the cross-linked structure.
//!
//! Edge symmetry of the technology tree, soundness (with multiplicity) of
//! the two per-item inverted indices, and the unlocking-closure property of
//! the recipe table.  Totality of enumeration-keyed mappings is stated in
//! [`crate::enumeration::lemma_enumeration_totality`].

use crate::enumeration::Enumeration;
use crate::generator::{
    consumption_spec, consumption_upto, postreqs_upto, production_spec, production_upto,
    stacks_contrib, tech_model,
};
use crate::items::{Item, ItemStack};
use crate::recipe_table::{recipe_model, RecipeModel};
use crate::recipes::Recipe;
use crate::technologies::Technology;
use vstd::prelude::*;

verus! {

/// Membership in a concatenation is membership in either part.
proof fn lemma_contains_concat<T>(s1: Seq<T>, s2: Seq<T>, x: T)
    ensures
        (s1 + s2).contains(x) <==> s1.contains(x) || s2.contains(x),
{
    if s1.contains(x) {
        let i = choose|i: int| 0 <= i < s1.len() && s1[i] == x;
        assert((s1 + s2)[i] == x);
    }
    if s2.contains(x) {
        let i = choose|i: int| 0 <= i < s2.len() && s2[i] == x;
        assert((s1 + s2)[s1.len() + i] == x);
    }
    if (s1 + s2).contains(x) {
        let i = choose|i: int| 0 <= i < (s1 + s2).len() && (s1 + s2)[i] == x;
        if i < s1.len() {
            assert(s1[i] == x);
        } else {
            assert(s2[i - s1.len()] == x);
        }
    }
}

/// How many times a list contains `b` as an immediate prerequisite decides
/// nothing here; membership does: the technologies among the first `n`
/// declared whose prerequisites list `b` are exactly those collected by
/// `postreqs_upto`.
proof fn lemma_postreqs_upto_contains(a: Technology, b: Technology, n: int)
    requires
        0 <= n <= Technology::count_spec(),
    ensures
        postreqs_upto(b, n).contains(a) <==> (a.index_spec() < n && a.prereqs_spec().contains(b)),
    decreases n,
{
    a.lemma_index_bounds();
    a.lemma_index_roundtrip();
    if n > 0 {
        lemma_postreqs_upto_contains(a, b, n - 1);
        let t = Technology::from_index_spec(n - 1);
        Technology::lemma_from_index_roundtrip(n - 1);
        let inc: Seq<Technology> = if t.prereqs_spec().contains(b) {
            seq![t]
        } else {
            Seq::empty()
        };
        lemma_contains_concat(postreqs_upto(b, n - 1), inc, a);
        if inc.contains(a) {
            assert(inc[0] == t);
            assert(a == t);
        }
        if a == t && a.prereqs_spec().contains(b) {
            assert(inc[0] == a);
            assert(inc.contains(a));
        }
    }
}

/// Edge symmetry of the technology tree: `b` is an immediate prerequisite
/// of `a` exactly when `a` is a postrequisite of `b`.
pub proof fn lemma_edge_symmetry(a: Technology, b: Technology)
    ensures
        tech_model(a).prereqs.contains(b) <==> tech_model(b).postreqs.contains(a),
{
    a.lemma_index_bounds();
    lemma_postreqs_upto_contains(a, b, Technology::count_spec());
}

/// How many times a sequence of recipes mentions `r`.
pub open spec fn occurrences(s: Seq<Recipe>, r: Recipe) -> int
    decreases s.len(),
{
    if s.len() == 0 {
        0
    } else {
        occurrences(s.drop_last(), r) + if s.last() == r {
            1int
        } else {
            0int
        }
    }
}

/// How many of the first `k` stacks name `item`.
pub open spec fn match_count(stacks: Seq<ItemStack>, item: Item, k: int) -> int
    decreases k,
{
    if k <= 0 {
        0
    } else {
        match_count(stacks, item, k - 1) + if stacks[k - 1].item == item {
            1int
        } else {
            0int
        }
    }
}

/// Occurrence counts add over concatenation.
proof fn lemma_occ_concat(s1: Seq<Recipe>, s2: Seq<Recipe>, r: Recipe)
    ensures
        occurrences(s1 + s2, r) == occurrences(s1, r) + occurrences(s2, r),
    decreases s2.len(),
{
    if s2.len() == 0 {
        assert(s1 + s2 =~= s1);
    } else {
        lemma_occ_concat(s1, s2.drop_last(), r);
        assert((s1 + s2).drop_last() =~= s1 + s2.drop_last());
        assert((s1 + s2).last() == s2.last());
    }
}

/// Occurrence count of a one-element sequence.
proof fn lemma_occ_singleton(x: Recipe, r: Recipe)
    ensures
        occurrences(seq![x], r) == if x == r {
            1int
        } else {
            0int
        },
{
    assert(seq![x].drop_last() =~= Seq::<Recipe>::empty());
    assert(occurrences(Seq::<Recipe>::empty(), r) == 0);
    assert(seq![x].last() == x);
}

/// A sequence contains `r` exactly when it mentions it a positive number of
/// times.
proof fn lemma_occ_contains(s: Seq<Recipe>, r: Recipe)
    ensures
        occurrences(s, r) >= 0,
        s.contains(r) <==> occurrences(s, r) > 0,
    decreases s.len(),
{
    if s.len() > 0 {
        lemma_occ_contains(s.drop_last(), r);
        if s.contains(r) {
            let i = choose|i: int| 0 <= i < s.len() && s[i] == r;
            if i < s.len() - 1 {
                assert(s.drop_last()[i] == r);
            }
        }
        if s.drop_last().contains(r) {
            let i = choose|i: int| 0 <= i < s.drop_last().len() && s.drop_last()[i] == r;
            assert(s[i] == r);
        }
        if s.last() == r {
            assert(s[s.len() - 1] == r);
        }
    }
}

/// A positive match count means a stack among the first `k` names the item.
proof fn lemma_match_count_exists(stacks: Seq<ItemStack>, item: Item, k: int)
    ensures
        match_count(stacks, item, k) >= 0,
        match_count(stacks, item, k) > 0 <==> exists|s: int|
            0 <= s < k && stacks[s].item == item,
    decreases k,
{
    if k > 0 {
        lemma_match_count_exists(stacks, item, k - 1);
    }
}

/// One recipe's contribution to an item's index mentions only that recipe,
/// once per stack naming the item.
proof fn lemma_contrib_occ(r0: Recipe, stacks: Seq<ItemStack>, item: Item, k: int, r: Recipe)
    ensures
        occurrences(stacks_contrib(r0, stacks, item, k), r) == if r == r0 {
            match_count(stacks, item, k)
        } else {
            0int
        },
    decreases k,
{
    if k > 0 {
        lemma_contrib_occ(r0, stacks, item, k - 1, r);
        let inc: Seq<Recipe> = if stacks[k - 1].item == item {
            seq![r0]
        } else {
            Seq::empty()
        };
        lemma_occ_concat(stacks_contrib(r0, stacks, item, k - 1), inc, r);
        lemma_occ_singleton(r0, r);
    }
}

/// The production index over the first `n` recipes mentions `r` exactly as
/// often as `r`'s result stacks name the item - and not at all while `r` has
/// not been reached.
proof fn lemma_production_occ(models: Seq<RecipeModel>, item: Item, r: Recipe, n: int)
    requires
        0 <= n <= models.len(),
        models.len() <= Recipe::count_spec(),
    ensures
        occurrences(production_upto(models, item, n), r) == if r.index_spec() < n {
            match_count(
                models[r.index_spec()].results,
                item,
                models[r.index_spec()].results.len() as int,
            )
        } else {
            0int
        },
    decreases n,
{
    r.lemma_index_bounds();
    r.lemma_index_roundtrip();
    if n > 0 {
        lemma_production_occ(models, item, r, n - 1);
        let r0 = Recipe::from_index_spec(n - 1);
        Recipe::lemma_from_index_roundtrip(n - 1);
        lemma_occ_concat(
            production_upto(models, item, n - 1),
            stacks_contrib(r0, models[n - 1].results, item, models[n - 1].results.len() as int),
            r,
        );
        lemma_contrib_occ(r0, models[n - 1].results, item, models[n - 1].results.len() as int, r);
    }
}

/// The consumption index over the first `n` recipes, likewise over the
/// ingredient stacks.
proof fn lemma_consumption_occ(models: Seq<RecipeModel>, item: Item, r: Recipe, n: int)
    requires
        0 <= n <= models.len(),
        models.len() <= Recipe::count_spec(),
    ensures
        occurrences(consumption_upto(models, item, n), r) == if r.index_spec() < n {
            match_count(
                models[r.index_spec()].ingredients,
                item,
                models[r.index_spec()].ingredients.len() as int,
            )
        } else {
            0int
        },
    decreases n,
{
    r.lemma_index_bounds();
    r.lemma_index_roundtrip();
    if n > 0 {
        lemma_consumption_occ(models, item, r, n - 1);
        let r0 = Recipe::from_index_spec(n - 1);
        Recipe::lemma_from_index_roundtrip(n - 1);
        lemma_occ_concat(
            consumption_upto(models, item, n - 1),
            stacks_contrib(
                r0,
                models[n - 1].ingredients,
                item,
                models[n - 1].ingredients.len() as int,
            ),
            r,
        );
        lemma_contrib_occ(
            r0,
            models[n - 1].ingredients,
            item,
            models[n - 1].ingredients.len() as int,
            r,
        );
    }
}

/// Production soundness: a recipe appears in an item's production index
/// exactly when one of its result stacks names the item, and exactly as
/// often as its result stacks name it.
pub proof fn lemma_production_sound(models: Seq<RecipeModel>, item: Item, r: Recipe)
    requires
        models.len() == Recipe::count_spec(),
    ensures
        occurrences(production_spec(models, item), r) == match_count(
            models[r.index_spec()].results,
            item,
            models[r.index_spec()].results.len() as int,
        ),
        production_spec(models, item).contains(r) <==> exists|s: int|
            0 <= s < models[r.index_spec()].results.len() && models[r.index_spec()].results[s].item
                == item,
{
    r.lemma_index_bounds();
    lemma_production_occ(models, item, r, models.len() as int);
    lemma_occ_contains(production_spec(models, item), r);
    lemma_match_count_exists(
        models[r.index_spec()].results,
        item,
        models[r.index_spec()].results.len() as int,
    );
}

/// Consumption soundness: a recipe appears in an item's consumption index
/// exactly when one of its ingredient stacks names the item, and exactly as
/// often as its ingredient stacks name it.
pub proof fn lemma_consumption_sound(models: Seq<RecipeModel>, item: Item, r: Recipe)
    requires
        models.len() == Recipe::count_spec(),
    ensures
        occurrences(consumption_spec(models, item), r) == match_count(
            models[r.index_spec()].ingredients,
            item,
            models[r.index_spec()].ingredients.len() as int,
        ),
        consumption_spec(models, item).contains(r) <==> exists|s: int|
            0 <= s < models[r.index_spec()].ingredients.len()
                && models[r.index_spec()].ingredients[s].item == item,
{
    r.lemma_index_bounds();
    lemma_consumption_occ(models, item, r, models.len() as int);
    lemma_occ_contains(consumption_spec(models, item), r);
    lemma_match_count_exists(
        models[r.index_spec()].ingredients,
        item,
        models[r.index_spec()].ingredients.len() as int,
    );
}

/// Unlocking closure: every recipe's unlocking technology is a member of
/// the technology enumeration - its declaration index is in range, so it
/// serialises as one of the declared technology names.
pub proof fn lemma_unlocking_closure(r: Recipe)
    ensures
        0 <= recipe_model(r).unlocked_by.index_spec() < Technology::count_spec(),
{
    recipe_model(r).unlocked_by.lemma_index_bounds();
}

} // verus!
