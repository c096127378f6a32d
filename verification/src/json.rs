//! Serialisation of the compiled document to JSON text.
//!
//! Every emitting function's output equals a spec-level text function of its
//! input, so the emitted document is pinned character by character: property
//! keys are exactly the enumerators' declared names in declaration order,
//! and numbers in hundredths render as decimals with at most two fractional
//! digits (so `1` stays `1`, and one hundredth renders as `0.01`).

use crate::enumeration::Enumeration;
use crate::generator::{AllDSPInfo, RecipeEntry, TechnologyEntry};
use crate::items::ItemStack;
use crate::recipe_table::RecipeModel;
use crate::recipes::Recipe;
use crate::schenum_map::SchemingEnumMap;
use crate::technologies::Technology;
use vstd::prelude::*;

verus! {

/// The character of one decimal digit.
pub open spec fn digit_char(d: int) -> char {
    if d == 0 {
        '0'
    } else if d == 1 {
        '1'
    } else if d == 2 {
        '2'
    } else if d == 3 {
        '3'
    } else if d == 4 {
        '4'
    } else if d == 5 {
        '5'
    } else if d == 6 {
        '6'
    } else if d == 7 {
        '7'
    } else if d == 8 {
        '8'
    } else {
        '9'
    }
}

/// The decimal rendering of a non-negative integer, most significant digit
/// first, without leading zeroes (a lone zero renders as "0").
pub open spec fn dec_spec(n: int) -> Seq<char>
    decreases n,
{
    if n < 10 {
        seq![digit_char(n)]
    } else {
        dec_spec(n / 10).push(digit_char(n % 10))
    }
}

/// The decimal rendering of a count held in hundredths: the whole part,
/// then a fractional part only if it is non-zero, with trailing zeroes
/// dropped (120 renders as "1.2", 1 as "0.01", 100 as "1").
pub open spec fn centi_spec(c: int) -> Seq<char> {
    let whole = c / 100;
    let frac = c % 100;
    if frac == 0 {
        dec_spec(whole)
    } else if frac % 10 == 0 {
        dec_spec(whole) + "."@ + seq![digit_char(frac / 10)]
    } else {
        dec_spec(whole) + "."@ + seq![digit_char(frac / 10), digit_char(frac % 10)]
    }
}

/// A name between double quotes.
pub open spec fn quoted(name: Seq<char>) -> Seq<char> {
    "\""@ + name + "\""@
}

/// A JSON boolean.
pub open spec fn bool_json(b: bool) -> Seq<char> {
    if b {
        "true"@
    } else {
        "false"@
    }
}

/// One decimal digit as text.
fn digit_str(d: u64) -> (s: &'static str)
    requires
        d < 10,
    ensures
        s@ == seq![digit_char(d as int)],
{
    match d {
        0 => {
            proof {
                reveal_strlit("0");
                assert("0"@ =~= seq![digit_char(0)]);
            }
            "0"
        },
        1 => {
            proof {
                reveal_strlit("1");
                assert("1"@ =~= seq![digit_char(1)]);
            }
            "1"
        },
        2 => {
            proof {
                reveal_strlit("2");
                assert("2"@ =~= seq![digit_char(2)]);
            }
            "2"
        },
        3 => {
            proof {
                reveal_strlit("3");
                assert("3"@ =~= seq![digit_char(3)]);
            }
            "3"
        },
        4 => {
            proof {
                reveal_strlit("4");
                assert("4"@ =~= seq![digit_char(4)]);
            }
            "4"
        },
        5 => {
            proof {
                reveal_strlit("5");
                assert("5"@ =~= seq![digit_char(5)]);
            }
            "5"
        },
        6 => {
            proof {
                reveal_strlit("6");
                assert("6"@ =~= seq![digit_char(6)]);
            }
            "6"
        },
        7 => {
            proof {
                reveal_strlit("7");
                assert("7"@ =~= seq![digit_char(7)]);
            }
            "7"
        },
        8 => {
            proof {
                reveal_strlit("8");
                assert("8"@ =~= seq![digit_char(8)]);
            }
            "8"
        },
        _ => {
            proof {
                reveal_strlit("9");
                assert("9"@ =~= seq![digit_char(9)]);
            }
            "9"
        },
    }
}

/// Append the decimal rendering of `n`.
fn write_dec(n: u64, out: &mut String)
    ensures
        final(out)@ == old(out)@ + dec_spec(n as int),
    decreases n,
{
    if n < 10 {
        out.append(digit_str(n));
    } else {
        write_dec(n / 10, out);
        out.append(digit_str(n % 10));
        proof {
            assert(out@ =~= old(out)@ + dec_spec(n as int));
        }
    }
}

/// Append the decimal rendering of a count in hundredths.
fn write_centi(c: u64, out: &mut String)
    ensures
        final(out)@ == old(out)@ + centi_spec(c as int),
{
    let whole = c / 100;
    let frac = c % 100;
    write_dec(whole, out);
    if frac != 0 {
        out.append(".");
        out.append(digit_str(frac / 10));
        if frac % 10 != 0 {
            out.append(digit_str(frac % 10));
        }
    }
    proof {
        assert(out@ =~= old(out)@ + centi_spec(c as int));
    }
}

/// Append a JSON boolean.
fn write_bool(b: bool, out: &mut String)
    ensures
        final(out)@ == old(out)@ + bool_json(b),
{
    if b {
        out.append("true");
    } else {
        out.append("false");
    }
}

/// A value that serialises to JSON text equal to a spec-level text function
/// of itself.
pub trait ToJson {
    /// The JSON text of this value.
    spec fn json_spec(self) -> Seq<char>;

    /// Append the JSON text of this value.
    fn write_json(&self, out: &mut String)
        ensures
            final(out)@ == old(out)@ + self.json_spec(),
    ;
}

/// The JSON object of one item stack.
pub open spec fn stack_json(s: ItemStack) -> Seq<char> {
    "{\"item\": "@ + quoted(s.item.name_spec()) + ", \"count\": "@ + centi_spec(
        s.count_centi as int,
    ) + "}"@
}

/// The first `k` stacks, comma-separated.
pub open spec fn stacks_json(stacks: Seq<ItemStack>, k: int) -> Seq<char>
    decreases k,
{
    if k <= 0 {
        Seq::empty()
    } else if k == 1 {
        stack_json(stacks[0])
    } else {
        stacks_json(stacks, k - 1) + ", "@ + stack_json(stacks[k - 1])
    }
}

/// A JSON array of item stacks.
pub open spec fn stack_list_json(stacks: Seq<ItemStack>) -> Seq<char> {
    "["@ + stacks_json(stacks, stacks.len() as int) + "]"@
}

/// Append one item stack.
fn write_stack(s: &ItemStack, out: &mut String)
    ensures
        final(out)@ == old(out)@ + stack_json(*s),
{
    out.append("{\"item\": ");
    out.append("\"");
    out.append(s.item.name());
    out.append("\"");
    out.append(", \"count\": ");
    write_centi(s.count_centi, out);
    out.append("}");
    proof {
        assert(out@ =~= old(out)@ + stack_json(*s));
    }
}

/// Append a JSON array of item stacks.
#[verifier::loop_isolation(false)]
fn write_stack_list(stacks: &Vec<ItemStack>, out: &mut String)
    ensures
        final(out)@ == old(out)@ + stack_list_json(stacks@),
{
    out.append("[");
    let ghost base = out@;
    let mut i: usize = 0;
    while i < stacks.len()
        invariant
            i <= stacks@.len(),
            out@ == base + stacks_json(stacks@, i as int),
        decreases stacks@.len() - i,
    {
        if i > 0 {
            out.append(", ");
        }
        write_stack(&stacks[i], out);
        proof {
            assert(out@ =~= base + stacks_json(stacks@, i as int + 1));
        }
        i = i + 1;
    }
    out.append("]");
    proof {
        assert(out@ =~= old(out)@ + stack_list_json(stacks@));
    }
}

/// The first `k` technology names, quoted and comma-separated.
pub open spec fn tech_names_json(ts: Seq<Technology>, k: int) -> Seq<char>
    decreases k,
{
    if k <= 0 {
        Seq::empty()
    } else if k == 1 {
        quoted(ts[0].name_spec())
    } else {
        tech_names_json(ts, k - 1) + ", "@ + quoted(ts[k - 1].name_spec())
    }
}

/// A JSON array of technology names.
pub open spec fn tech_list_json(ts: Seq<Technology>) -> Seq<char> {
    "["@ + tech_names_json(ts, ts.len() as int) + "]"@
}

/// Append a JSON array of technology names.
#[verifier::loop_isolation(false)]
fn write_tech_list(ts: &Vec<Technology>, out: &mut String)
    ensures
        final(out)@ == old(out)@ + tech_list_json(ts@),
{
    out.append("[");
    let ghost base = out@;
    let mut i: usize = 0;
    while i < ts.len()
        invariant
            i <= ts@.len(),
            out@ == base + tech_names_json(ts@, i as int),
        decreases ts@.len() - i,
    {
        if i > 0 {
            out.append(", ");
        }
        out.append("\"");
        out.append(ts[i].name());
        out.append("\"");
        proof {
            assert(out@ =~= base + tech_names_json(ts@, i as int + 1));
        }
        i = i + 1;
    }
    out.append("]");
    proof {
        assert(out@ =~= old(out)@ + tech_list_json(ts@));
    }
}

/// The first `k` recipe names, quoted and comma-separated.
pub open spec fn recipe_names_json(rs: Seq<Recipe>, k: int) -> Seq<char>
    decreases k,
{
    if k <= 0 {
        Seq::empty()
    } else if k == 1 {
        quoted(rs[0].name_spec())
    } else {
        recipe_names_json(rs, k - 1) + ", "@ + quoted(rs[k - 1].name_spec())
    }
}

/// A JSON array of recipe names.
pub open spec fn recipe_list_json(rs: Seq<Recipe>) -> Seq<char> {
    "["@ + recipe_names_json(rs, rs.len() as int) + "]"@
}

impl ToJson for Vec<Recipe> {
    /// A list of recipes serialises as the array of their names.
    open spec fn json_spec(self) -> Seq<char> {
        recipe_list_json(self@)
    }

    #[verifier::loop_isolation(false)]
    fn write_json(&self, out: &mut String) {
        out.append("[");
        let ghost base = out@;
        let mut i: usize = 0;
        while i < self.len()
            invariant
                i <= self@.len(),
                out@ == base + recipe_names_json(self@, i as int),
            decreases self@.len() - i,
        {
            if i > 0 {
                out.append(", ");
            }
            out.append("\"");
            out.append(self[i].name());
            out.append("\"");
            proof {
                assert(out@ =~= base + recipe_names_json(self@, i as int + 1));
            }
            i = i + 1;
        }
        out.append("]");
        proof {
            assert(out@ =~= old(out)@ + recipe_list_json(self@));
        }
    }
}

/// The JSON object of one technology entry.
pub open spec fn tech_entry_json(m: crate::generator::TechnologyModel) -> Seq<char> {
    "{\"tech\": "@ + quoted(m.tech.name_spec()) + ", \"prereqs\": "@ + tech_list_json(m.prereqs)
        + ", \"postreqs\": "@ + tech_list_json(m.postreqs) + "}"@
}

impl ToJson for TechnologyEntry {
    /// A technology entry serialises from its view alone.
    open spec fn json_spec(self) -> Seq<char> {
        tech_entry_json(self@)
    }

    fn write_json(&self, out: &mut String) {
        out.append("{\"tech\": ");
        out.append("\"");
        out.append(self.tech.name());
        out.append("\"");
        out.append(", \"prereqs\": ");
        write_tech_list(&self.prereqs, out);
        out.append(", \"postreqs\": ");
        write_tech_list(&self.postreqs, out);
        out.append("}");
        proof {
            assert(out@ =~= old(out)@ + tech_entry_json(self@));
        }
    }
}

/// The JSON object of one recipe entry.
pub open spec fn recipe_entry_json(m: RecipeModel) -> Seq<char> {
    "{\"recipe\": "@ + quoted(m.recipe.name_spec()) + ", \"ingredients\": "@ + stack_list_json(
        m.ingredients,
    ) + ", \"time\": "@ + centi_spec(m.time_centi) + ", \"results\": "@ + stack_list_json(m.results)
        + ", \"made_in\": "@ + quoted(m.made_in.name_spec()) + ", \"handcraftable\": "@ + bool_json(
        m.handcraftable,
    ) + ", \"unlocked_by\": "@ + quoted(m.unlocked_by.name_spec()) + "}"@
}

impl ToJson for RecipeEntry {
    /// A recipe entry serialises from its view alone.
    open spec fn json_spec(self) -> Seq<char> {
        recipe_entry_json(self@)
    }

    #[verifier::rlimit(60)]
    fn write_json(&self, out: &mut String) {
        out.append("{\"recipe\": ");
        out.append("\"");
        out.append(self.recipe.name());
        out.append("\"");
        out.append(", \"ingredients\": ");
        write_stack_list(&self.ingredients, out);
        out.append(", \"time\": ");
        write_centi(self.time_centi, out);
        out.append(", \"results\": ");
        write_stack_list(&self.results, out);
        out.append(", \"made_in\": ");
        out.append("\"");
        out.append(self.made_in.name());
        out.append("\"");
        out.append(", \"handcraftable\": ");
        write_bool(self.handcraftable, out);
        out.append(", \"unlocked_by\": ");
        out.append("\"");
        out.append(self.unlocked_by.name());
        out.append("\"");
        out.append("}");
        proof {
            assert(out@ =~= old(out)@ + recipe_entry_json(self@));
        }
    }
}

/// The first `n` entries of a total mapping's JSON object: one line per
/// member of the key enumeration, keyed by its declared name, in
/// declaration order.
pub open spec fn map_entries_json<K: Enumeration, V: ToJson>(vals: Seq<V>, n: int) -> Seq<char>
    decreases n,
{
    if n <= 0 {
        Seq::empty()
    } else {
        let entry = "    "@ + quoted(K::from_index_spec(n - 1).name_spec()) + ": "@ + vals[n
            - 1].json_spec();
        if n == 1 {
            entry
        } else {
            map_entries_json::<K, V>(vals, n - 1) + ",\n"@ + entry
        }
    }
}

/// The JSON object of a total mapping: exactly one property per member of
/// the key enumeration, in declaration order.
pub open spec fn map_json<K: Enumeration, V: ToJson>(vals: Seq<V>) -> Seq<char> {
    "{\n"@ + map_entries_json::<K, V>(vals, vals.len() as int) + "\n  }"@
}

/// Append the JSON object of a total mapping.
#[verifier::loop_isolation(false)]
fn write_map_json<K: Enumeration, V: ToJson>(m: &SchemingEnumMap<K, V>, out: &mut String)
    requires
        m.wf(),
    ensures
        final(out)@ == old(out)@ + map_json::<K, V>(m@),
{
    out.append("{\n");
    let ghost base = out@;
    let n = K::count();
    let mut i: usize = 0;
    while i < n
        invariant
            i <= n,
            out@ == base + map_entries_json::<K, V>(m@, i as int),
        decreases n - i,
    {
        if i > 0 {
            out.append(",\n");
        }
        out.append("    ");
        out.append("\"");
        let k = K::from_index(i);
        out.append(k.name());
        out.append("\"");
        out.append(": ");
        m.at_index(i).write_json(out);
        proof {
            assert(out@ =~= base + map_entries_json::<K, V>(m@, i as int + 1));
        }
        i = i + 1;
    }
    out.append("\n  }");
    proof {
        assert(out@ =~= old(out)@ + map_json::<K, V>(m@));
    }
}

/// The JSON text of the whole compiled document: a single object whose four
/// top-level keys are the four total mappings.
pub open spec fn document_json(info: AllDSPInfo) -> Seq<char> {
    "{\n  \"tech_tree\": "@ + map_json::<Technology, TechnologyEntry>(info.tech_tree@)
        + ",\n  \"recipes\": "@ + map_json::<Recipe, RecipeEntry>(info.recipes@)
        + ",\n  \"production_methods\": "@ + map_json::<crate::items::Item, Vec<Recipe>>(
        info.production_methods@,
    ) + ",\n  \"consumption_methods\": "@ + map_json::<crate::items::Item, Vec<Recipe>>(
        info.consumption_methods@,
    ) + "\n}"@
}

impl AllDSPInfo {
    /// Serialise the compiled document, pretty-printed for human
    /// inspection.  The output equals the spec-level text of the document,
    /// character by character.
    pub fn to_json(&self) -> (s: String)
        requires
            self.tech_tree.wf(),
            self.recipes.wf(),
            self.production_methods.wf(),
            self.consumption_methods.wf(),
        ensures
            s@ == document_json(*self),
    {
        let mut out = String::new();
        out.append("{\n  \"tech_tree\": ");
        write_map_json(&self.tech_tree, &mut out);
        out.append(",\n  \"recipes\": ");
        write_map_json(&self.recipes, &mut out);
        out.append(",\n  \"production_methods\": ");
        write_map_json(&self.production_methods, &mut out);
        out.append(",\n  \"consumption_methods\": ");
        write_map_json(&self.consumption_methods, &mut out);
        out.append("\n}");
        proof {
            assert(out@ =~= document_json(*self));
        }
        out
    }
}

/// Entry texts agree when the values' texts agree pointwise.
proof fn lemma_map_entries_json_congruent<K: Enumeration, V: ToJson>(
    s1: Seq<V>,
    s2: Seq<V>,
    n: int,
)
    requires
        forall|i: int| 0 <= i < n ==> (#[trigger] s1[i]).json_spec() == s2[i].json_spec(),
    ensures
        map_entries_json::<K, V>(s1, n) == map_entries_json::<K, V>(s2, n),
    decreases n,
{
    if n > 0 {
        lemma_map_entries_json_congruent::<K, V>(s1, s2, n - 1);
    }
}

/// Ordering determinism: two compilations yield character-identical JSON.
/// Any two documents satisfying the generator's postcondition serialise to
/// the same text, because every mapping entry is pinned to its mathematical
/// model and the text is a function of those models alone.
pub proof fn lemma_document_deterministic(a: AllDSPInfo, b: AllDSPInfo)
    requires
        a.is_generated(),
        b.is_generated(),
    ensures
        document_json(a) == document_json(b),
{
    assert forall|i: int| 0 <= i < Technology::count_spec() implies (
    #[trigger] a.tech_tree@[i]).json_spec() == b.tech_tree@[i].json_spec() by {
        assert(a.tech_tree@[i]@ == b.tech_tree@[i]@);
    }
    lemma_map_entries_json_congruent::<Technology, TechnologyEntry>(
        a.tech_tree@,
        b.tech_tree@,
        Technology::count_spec(),
    );
    assert forall|i: int| 0 <= i < Recipe::count_spec() implies (
    #[trigger] a.recipes@[i]).json_spec() == b.recipes@[i].json_spec() by {
        assert(a.recipes@[i]@ == b.recipes@[i]@);
    }
    lemma_map_entries_json_congruent::<Recipe, RecipeEntry>(
        a.recipes@,
        b.recipes@,
        Recipe::count_spec(),
    );
    assert forall|j: int| 0 <= j < crate::items::Item::count_spec() implies (
    #[trigger] a.production_methods@[j]).json_spec() == b.production_methods@[j].json_spec() by {
        assert(a.production_methods@[j]@ == b.production_methods@[j]@);
    }
    lemma_map_entries_json_congruent::<crate::items::Item, Vec<Recipe>>(
        a.production_methods@,
        b.production_methods@,
        crate::items::Item::count_spec(),
    );
    assert forall|j: int| 0 <= j < crate::items::Item::count_spec() implies (
    #[trigger] a.consumption_methods@[j]).json_spec() == b.consumption_methods@[j].json_spec() by {
        assert(a.consumption_methods@[j]@ == b.consumption_methods@[j]@);
    }
    lemma_map_entries_json_congruent::<crate::items::Item, Vec<Recipe>>(
        a.consumption_methods@,
        b.consumption_methods@,
        crate::items::Item::count_spec(),
    );
}

} // verus!
