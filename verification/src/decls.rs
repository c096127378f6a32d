//! The type-declaration output: a machine-readable description of the
//! document's shape, emitted directly.
//!
//! Every enumeration becomes a closed union of string literals; every total
//! mapping becomes a mapped object type with one required property per
//! enumerator and no others; the value shapes mirror the serialised JSON
//! one for one.  The emitted text equals a spec-level text function, so the
//! declarations and the JSON keys are drawn from the same name sequence.

use crate::enumeration::Enumeration;
use crate::items::Item;
use crate::json::quoted;
use crate::producers::Producer;
use crate::recipes::Recipe;
use crate::technologies::Technology;
use vstd::prelude::*;

verus! {

/// The union of the first `n` members' quoted names, separated by " | ".
pub open spec fn enum_union<K: Enumeration>(n: int) -> Seq<char>
    decreases n,
{
    if n <= 0 {
        Seq::empty()
    } else if n == 1 {
        quoted(K::from_index_spec(0).name_spec())
    } else {
        enum_union::<K>(n - 1) + " | "@ + quoted(K::from_index_spec(n - 1).name_spec())
    }
}

/// Append the full union of an enumeration's quoted member names.
#[verifier::loop_isolation(false)]
fn write_enum_union<K: Enumeration>(out: &mut String)
    ensures
        final(out)@ == old(out)@ + enum_union::<K>(K::count_spec()),
{
    let ghost base = out@;
    let n = K::count();
    let mut i: usize = 0;
    while i < n
        invariant
            i <= n,
            out@ == base + enum_union::<K>(i as int),
        decreases n - i,
    {
        if i > 0 {
            out.append(" | ");
        }
        out.append("\"");
        let k = K::from_index(i);
        out.append(k.name());
        out.append("\"");
        proof {
            assert(out@ =~= base + enum_union::<K>(i as int + 1));
        }
        i = i + 1;
    }
}

/// The whole type-declaration text: the four enumeration unions, the three
/// record shapes, and the composite document with its four total mappings.
pub open spec fn declarations_spec() -> Seq<char> {
    "export type Item = "@ + enum_union::<Item>(Item::count_spec()) + ";\n"@
        + "export type Producer = "@ + enum_union::<Producer>(Producer::count_spec()) + ";\n"@
        + "export type Technology = "@ + enum_union::<Technology>(Technology::count_spec()) + ";\n"@
        + "export type Recipe = "@ + enum_union::<Recipe>(Recipe::count_spec()) + ";\n"@
        + "export interface ItemStack { item: Item; count: number; }\n"@
        + "export interface TechnologyEntry { tech: Technology; prereqs: Technology[]; postreqs: Technology[]; }\n"@
        + "export interface RecipeEntry { recipe: Recipe; ingredients: ItemStack[]; time: number; results: ItemStack[]; made_in: Producer; handcraftable: boolean; unlocked_by: Technology; }\n"@
        + "export interface AllDSPInfo { tech_tree: { [K in Technology]: TechnologyEntry }; recipes: { [K in Recipe]: RecipeEntry }; production_methods: { [K in Item]: Recipe[] }; consumption_methods: { [K in Item]: Recipe[] }; }\n"@
}

/// Emit the type declarations for the compiled document.
pub fn generate_declarations() -> (s: String)
    ensures
        s@ == declarations_spec(),
{
    let mut out = String::new();
    out.append("export type Item = ");
    write_enum_union::<Item>(&mut out);
    out.append(";\n");
    out.append("export type Producer = ");
    write_enum_union::<Producer>(&mut out);
    out.append(";\n");
    out.append("export type Technology = ");
    write_enum_union::<Technology>(&mut out);
    out.append(";\n");
    out.append("export type Recipe = ");
    write_enum_union::<Recipe>(&mut out);
    out.append(";\n");
    out.append("export interface ItemStack { item: Item; count: number; }\n");
    out.append(
        "export interface TechnologyEntry { tech: Technology; prereqs: Technology[]; postreqs: Technology[]; }\n",
    );
    out.append(
        "export interface RecipeEntry { recipe: Recipe; ingredients: ItemStack[]; time: number; results: ItemStack[]; made_in: Producer; handcraftable: boolean; unlocked_by: Technology; }\n",
    );
    out.append(
        "export interface AllDSPInfo { tech_tree: { [K in Technology]: TechnologyEntry }; recipes: { [K in Recipe]: RecipeEntry }; production_methods: { [K in Item]: Recipe[] }; consumption_methods: { [K in Item]: Recipe[] }; }\n",
    );
    proof {
        assert(out@ =~= declarations_spec());
    }
    out
}

/// The names of an enumeration's members, in declaration order: the keys of
/// every serialised total mapping over it, and the members of its emitted
/// union type.
pub open spec fn key_names<K: Enumeration>() -> Seq<Seq<char>> {
    Seq::new(K::count_spec() as nat, |i: int| K::from_index_spec(i).name_spec())
}

/// Schema conformance of the key sets: the name sequence that keys every
/// serialised total mapping lists every member's name - the same sequence,
/// in the same order, from which the union types are emitted.
pub proof fn lemma_declared_names_total<K: Enumeration>()
    ensures
        key_names::<K>().len() == K::count_spec(),
        forall|e: K| key_names::<K>().contains(#[trigger] e.name_spec()),
{
    K::lemma_count_positive();
    assert forall|e: K| key_names::<K>().contains(#[trigger] e.name_spec()) by {
        e.lemma_index_bounds();
        e.lemma_index_roundtrip();
        assert(key_names::<K>()[e.index_spec()] == e.name_spec());
    }
}

} // verus!
