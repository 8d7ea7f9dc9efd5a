//! Message catalogs.
//!
//! A catalog arrives as a tree of nested objects whose leaves are
//! texts; [`flatten_value`] turns it into dotted keys, so that
//! `{"tor": {"connected": "ok"}}` yields the entry
//! `("tor.connected", "ok")`. A store holds the flattened catalog of
//! the selected language plus the default-language catalog as
//! fallback; [`I18nStore::get`] looks a key up in that order and
//! falls back to the key itself, and [`I18nStore::get_with_args`]
//! fills the positional `{0}`, `{1}`, … arguments in.

use crate::text::dec_chars;
use crate::text::replace_chars;
use crate::text::replace_str;
use crate::text::u64_to_dec;
use vstd::prelude::*;

verus! {

broadcast use vstd::std_specs::vec::axiom_vec_index_decreases;

/// A parsed catalog tree: texts at the leaves, nested objects above
/// them, and a marker for anything else a catalog file may hold
/// (numbers, lists), which carries no message.
pub enum JsonNode {
    Text(String),
    Object(Vec<(String, JsonNode)>),
    Other,
}

/// The dotted key of a child: the key itself at top level, otherwise
/// the parent's key, a dot, and the child's.
pub open spec fn child_prefix(prefix: Seq<char>, key: Seq<char>) -> Seq<char> {
    if prefix.len() == 0 {
        key
    } else {
        prefix + "."@ + key
    }
}

/// The flattened entries of a catalog tree, in traversal order: a
/// text leaf yields one entry under its dotted key, an object yields
/// its children's entries in order, anything else yields none.
pub open spec fn flatten_spec(n: JsonNode, prefix: Seq<char>) -> Seq<(Seq<char>, Seq<char>)>
    decreases n, 0int,
{
    match n {
        JsonNode::Text(s) => seq![(prefix, s@)],
        JsonNode::Object(entries) => flatten_entries(entries, 0, prefix),
        JsonNode::Other => Seq::<(Seq<char>, Seq<char>)>::empty(),
    }
}

/// The flattened entries of an object's children from position `i`
/// on.
pub open spec fn flatten_entries(
    entries: Vec<(String, JsonNode)>,
    i: int,
    prefix: Seq<char>,
) -> Seq<(Seq<char>, Seq<char>)>
    decreases entries, entries@.len() - i, 1int,
{
    if i < 0 || i >= entries@.len() {
        Seq::<(Seq<char>, Seq<char>)>::empty()
    } else {
        flatten_spec(entries@[i].1, child_prefix(prefix, entries@[i].0@)) + flatten_entries(
            entries,
            i + 1,
            prefix,
        )
    }
}

/// The views of a vector of key/value pairs.
pub open spec fn entry_views(v: Seq<(String, String)>) -> Seq<(Seq<char>, Seq<char>)> {
    v.map_values(|p: (String, String)| (p.0@, p.1@))
}

/// Flattens a catalog tree under `prefix`, appending the entries to
/// `out` in traversal order.
pub fn flatten_value(n: &JsonNode, prefix: &str, out: &mut Vec<(String, String)>)
    ensures
        entry_views(final(out)@) == entry_views(old(out)@) + flatten_spec(*n, prefix@),
    decreases *n, 0int,
{
    match n {
        JsonNode::Text(s) => {
            out.push((prefix.to_owned(), s.clone()));
            proof {
                assert(entry_views(out@) =~= entry_views(old(out)@) + flatten_spec(*n, prefix@));
            }
        },
        JsonNode::Other => {
            proof {
                assert(entry_views(out@) =~= entry_views(old(out)@) + flatten_spec(*n, prefix@));
            }
        },
        JsonNode::Object(entries) => {
            flatten_object(entries, 0, prefix, out);
        },
    }
}

/// Flattens an object's children from position `j` on, appending
/// their entries to `out`.
fn flatten_object(entries: &Vec<(String, JsonNode)>, j: usize, prefix: &str, out: &mut Vec<
    (String, String),
>)
    requires
        j <= entries@.len(),
    ensures
        entry_views(final(out)@) == entry_views(old(out)@) + flatten_entries(
            *entries,
            j as int,
            prefix@,
        ),
    decreases *entries, entries@.len() - j, 1int,
{
    if j == entries.len() {
        proof {
            assert(entry_views(out@) =~= entry_views(old(out)@) + flatten_entries(
                *entries,
                j as int,
                prefix@,
            ));
        }
        return ;
    }
    let key = &entries[j].0;
    let child_pref: String = if prefix.unicode_len() == 0 {
        key.clone()
    } else {
        String::from_str(prefix).concat(".").concat(key.as_str())
    };
    proof {
        assert(child_pref@ == child_prefix(prefix@, key@));
    }
    let ghost first = out@;
    flatten_value(&entries[j].1, child_pref.as_str(), out);
    flatten_object(entries, j + 1, prefix, out);
    proof {
        assert(entry_views(out@) =~= entry_views(first) + flatten_entries(
            *entries,
            j as int,
            prefix@,
        ));
    }
}

/// Flattens a whole catalog tree into dotted-key entries.
pub fn flatten_json(n: &JsonNode) -> (r: Vec<(String, String)>)
    ensures
        entry_views(r@) == flatten_spec(*n, Seq::<char>::empty()),
{
    let mut out: Vec<(String, String)> = Vec::new();
    proof {
        reveal_strlit("");
        assert(""@ =~= Seq::<char>::empty());
        assert(entry_views(Seq::<(String, String)>::empty()) =~= Seq::<(
            Seq<char>,
            Seq<char>,
        )>::empty());
    }
    flatten_value(n, "", &mut out);
    out
}

/// What a key resolves to among flattened entries: the value of its
/// last matching entry — a later entry for the same key overrides an
/// earlier one — or nothing.
pub open spec fn lookup(entries: Seq<(Seq<char>, Seq<char>)>, key: Seq<char>) -> Option<Seq<char>>
    decreases entries.len(),
{
    if entries.len() == 0 {
        None
    } else if entries.last().0 == key {
        Some(entries.last().1)
    } else {
        lookup(entries.drop_last(), key)
    }
}

/// The view of an optional text.
pub open spec fn option_view(o: Option<String>) -> Option<Seq<char>> {
    match o {
        Some(s) => Some(s@),
        None => None,
    }
}

/// Finds the value of `key` among the entries, later entries taking
/// precedence.
fn lookup_entries(entries: &Vec<(String, String)>, key: &String) -> (r: Option<String>)
    ensures
        option_view(r) == lookup(entry_views(entries@), key@),
{
    let ghost all = entry_views(entries@);
    let mut idx: usize = entries.len();
    proof {
        assert(all.take(idx as int) =~= all);
    }
    while idx > 0
        invariant
            idx <= entries@.len(),
            all == entry_views(entries@),
            lookup(all, key@) == lookup(all.take(idx as int), key@),
        decreases idx,
    {
        idx = idx - 1;
        if entries[idx].0 == *key {
            proof {
                assert(all.take(idx + 1).last() == all[idx as int]);
                assert(lookup(all.take(idx + 1), key@) == Some(all[idx as int].1));
            }
            return Some(entries[idx].1.clone());
        }
        proof {
            assert(all.take(idx + 1).last() == all[idx as int]);
            assert(all.take(idx + 1).drop_last() =~= all.take(idx as int));
        }
    }
    proof {
        assert(all.take(0).len() == 0);
    }
    None
}

/// What [`I18nStore::get`] returns: the selected language's text for
/// the key, else the fallback language's, else the key itself.
pub open spec fn get_spec(
    current: Seq<(Seq<char>, Seq<char>)>,
    fallback: Seq<(Seq<char>, Seq<char>)>,
    key: Seq<char>,
) -> Seq<char> {
    match lookup(current, key) {
        Some(v) => v,
        None => match lookup(fallback, key) {
            Some(v) => v,
            None => key,
        },
    }
}

/// The positional placeholder pattern for argument `i`: `{i}`.
pub open spec fn placeholder(i: int) -> Seq<char> {
    "{"@ + dec_chars(i) + "}"@
}

/// Builds the placeholder pattern for argument `i`.
pub fn placeholder_string(i: u64) -> (r: String)
    ensures
        r@ == placeholder(i as int),
{
    String::from_str("{").concat(u64_to_dec(i).as_str()).concat("}")
}

/// The views of the arguments.
pub open spec fn arg_views(args: Seq<&str>) -> Seq<Seq<char>> {
    args.map_values(|a: &str| a@)
}

/// The template after the first `k` arguments were substituted, one
/// replacement pass per argument, in order.
pub open spec fn subst_upto(t: Seq<char>, args: Seq<Seq<char>>, k: int) -> Seq<char>
    decreases k,
{
    if k <= 0 {
        t
    } else {
        replace_chars(subst_upto(t, args, k - 1), placeholder(k - 1), args[k - 1])
    }
}

/// The template with all arguments substituted.
pub open spec fn subst_all(t: Seq<char>, args: Seq<Seq<char>>) -> Seq<char> {
    subst_upto(t, args, args.len() as int)
}

/// The flattened catalogs of the selected language and of the
/// fallback language.
pub struct I18nStore {
    /// Entries of the selected language.
    pub current: Vec<(String, String)>,
    /// Entries of the fallback language.
    pub fallback: Vec<(String, String)>,
}

/// The catalog tree a language tag selects: `fr` and `es` name their
/// catalogs, every other tag gets the default.
pub open spec fn chosen_catalog(
    language: Seq<char>,
    en: JsonNode,
    fr: JsonNode,
    es: JsonNode,
) -> JsonNode {
    if language == "fr"@ {
        fr
    } else if language == "es"@ {
        es
    } else {
        en
    }
}

/// Builds the store for a language: the selected catalog flattened,
/// with the default catalog flattened as fallback.
pub fn init(language: &str, en: &JsonNode, fr: &JsonNode, es: &JsonNode) -> (store: I18nStore)
    ensures
        entry_views(store.current@) == flatten_spec(
            chosen_catalog(language@, *en, *fr, *es),
            Seq::<char>::empty(),
        ),
        entry_views(store.fallback@) == flatten_spec(*en, Seq::<char>::empty()),
{
    let lang = language.to_owned();
    let chosen: &JsonNode = if lang == String::from_str("fr") {
        fr
    } else if lang == String::from_str("es") {
        es
    } else {
        en
    };
    I18nStore { current: flatten_json(chosen), fallback: flatten_json(en) }
}

/// Resolves a dotted key: the selected language's text, else the
/// fallback's, else the key itself.
pub fn get(store: &I18nStore, key: &str) -> (r: String)
    ensures
        r@ == get_spec(entry_views(store.current@), entry_views(store.fallback@), key@),
{
    let k = key.to_owned();
    match lookup_entries(&store.current, &k) {
        Some(v) => v,
        None => match lookup_entries(&store.fallback, &k) {
            Some(v) => v,
            None => k,
        },
    }
}

/// Resolves a dotted key and substitutes the positional arguments:
/// one replacement pass per argument, `{0}` first.
pub fn get_with_args(store: &I18nStore, key: &str, args: &[&str]) -> (r: String)
    ensures
        r@ == subst_all(
            get_spec(entry_views(store.current@), entry_views(store.fallback@), key@),
            arg_views(args@),
        ),
{
    let ghost template = get_spec(entry_views(store.current@), entry_views(store.fallback@), key@);
    let mut r = get(store, key);
    let mut i: usize = 0;
    while i < args.len()
        invariant
            i <= args@.len(),
            r@ == subst_upto(template, arg_views(args@), i as int),
        decreases args@.len() - i,
    {
        let pat = placeholder_string(i as u64);
        r = replace_str(r.as_str(), pat.as_str(), args[i]);
        i = i + 1;
    }
    r
}

} // verus!
