//! Parsing of the kernel tool's JSON listings.  `prog show -j` and
//! `map show -j` both yield an array of objects carrying a `name` and a
//! numeric `id`; the orchestrator resolves a program or map to its id by
//! name.  The JSON parse itself is done by an outside library behind one
//! trusted wrapper; everything downstream of the parse is verified.

use crate::text::str_eq;
use vstd::prelude::*;

verus! {

/// One element of a kernel object listing: its name and, when the listing
/// carries one, its numeric id.
pub struct IdEntry {
    pub name: String,
    pub id: Option<u64>,
}

/// What a listing text parses to: `None` for malformed or non-array
/// input, otherwise the name/id pair of each array element in order.
/// The parse is a pure function of the text.
pub uninterp spec fn id_entries_of(s: Seq<char>) -> Option<Seq<(Seq<char>, Option<u64>)>>;

/// The view of a parsed listing.
pub open spec fn id_entries_view(v: Seq<IdEntry>) -> Seq<(Seq<char>, Option<u64>)> {
    v.map_values(|e: IdEntry| (e.name@, e.id))
}

/// Relies on `serde_json::from_str` and `serde_json::Value`'s accessors
/// (`as_array`, string indexing, `as_str`, `as_u64`): the parse of a
/// listing is a function of the text alone; a non-array or malformed text
/// yields `None`, and each array element contributes its `name` field
/// (empty when absent) and its `id` field (absent when not a number).
#[verifier::external_body]
pub fn parse_id_entries(s: &str) -> (r: Option<Vec<IdEntry>>)
    ensures
        match r {
            Some(v) => id_entries_of(s@) == Some(id_entries_view(v@)),
            None => id_entries_of(s@) is None,
        },
{
    let value: serde_json::Value = serde_json::from_str(s).ok()?;
    let arr = value.as_array()?;
    Some(
        arr.iter().map(
            |m| IdEntry {
                name: m["name"].as_str().unwrap_or("").to_string(),
                id: m["id"].as_u64(),
            },
        ).collect(),
    )
}

/// The id of the first listed object with the given name: `None` when no
/// object has the name, `Some(None)` when one has but carries no numeric
/// id, `Some(Some(id))` otherwise.
pub open spec fn spec_find_id(es: Seq<(Seq<char>, Option<u64>)>, name: Seq<char>) -> Option<
    Option<u64>,
>
    decreases es.len(),
{
    if es.len() == 0 {
        None
    } else if es[0].0 == name {
        Some(es[0].1)
    } else {
        spec_find_id(es.drop_first(), name)
    }
}

/// Resolves an object name to its id in a parsed listing.
pub fn find_id_by_name(entries: &Vec<IdEntry>, name: &str) -> (r: Option<Option<u64>>)
    ensures
        r == spec_find_id(id_entries_view(entries@), name@),
{
    let ghost ev = id_entries_view(entries@);
    let mut i: usize = 0;
    proof {
        assert(ev.skip(0) =~= ev);
    }
    while i < entries.len()
        invariant
            i <= entries@.len(),
            ev == id_entries_view(entries@),
            spec_find_id(ev, name@) == spec_find_id(ev.skip(i as int), name@),
        decreases entries@.len() - i,
    {
        proof {
            assert(ev.skip(i as int)[0] == (entries@[i as int].name@, entries@[i as int].id));
            assert(ev.skip(i as int).drop_first() =~= ev.skip(i as int + 1));
        }
        if str_eq(entries[i].name.as_str(), name) {
            return match &entries[i].id {
                Some(id) => Some(Some(*id)),
                None => Some(None),
            };
        }
        i = i + 1;
    }
    None
}

} // verus!
