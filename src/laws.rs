//! Properties of the lookups between Windows names and IANA identifiers,
//! and of the table digest.

use vstd::prelude::*;
use crate::dataset::{dataset_of, fingerprint, utc_row};
use crate::text::{first_where, lemma_first_where};
use crate::tz::is_known_tz;
use crate::windows::{iana_of, lists, lookup, reverse, selects, valid_row, valid_rows, WindowsTzView};

verus! {

/// In a valid table, an IANA identifier that some row lists leads to the
/// first such row, and converting that row back yields its first candidate.
pub proof fn lemma_round_trip(t: Seq<WindowsTzView>, name: Seq<char>)
    requires
        valid_rows(t),
        exists|i: int| 0 <= i < t.len() && (#[trigger] t[i]).iana.contains(name),
    ensures
        reverse(t, name) matches Some(w) && w.iana.contains(name) && iana_of(w) == Some(w.iana[0]),
{
    lemma_first_where(t, lists(name));
    let i = choose|i: int| 0 <= i < t.len() && (#[trigger] t[i]).iana.contains(name);
    assert(lists(name)(t[i]));
    if let Some(k) = first_where(t, lists(name)) {
        assert(valid_row(t[k]));
        assert(is_known_tz(t[k].iana[0]));
    }
}

/// Lookup without a territory yields the first row with the key name, and
/// nothing only when no row has it: the same table always gives the same
/// row, whatever was looked up before.
pub proof fn lemma_lookup_first(t: Seq<WindowsTzView>, zone: Seq<char>)
    ensures
        match lookup(t, zone, None) {
            Some(w) => exists|i: int|
                0 <= i < t.len() && t[i] == w && w.zone == zone && forall|j: int| 0 <= j < i ==> (#[trigger] t[j]).zone != zone,
            None => forall|j: int| 0 <= j < t.len() ==> (#[trigger] t[j]).zone != zone,
        },
{
    let p = selects(zone, None);
    lemma_first_where(t, p);
    if let Some(i) = first_where(t, p) {
        assert(forall|j: int| 0 <= j < i ==> !p(#[trigger] t[j]));
        assert forall|j: int| 0 <= j < i implies (#[trigger] t[j]).zone != zone by {
            assert(!p(t[j]));
        }
    } else {
        assert forall|j: int| 0 <= j < t.len() implies (#[trigger] t[j]).zone != zone by {
            assert(!p(t[j]));
        }
    }
}

/// Lookup with a territory finds a row only when one matches both the key
/// name and the territory exactly; a row with the name alone is not enough.
pub proof fn lemma_territory_exact(t: Seq<WindowsTzView>, zone: Seq<char>, territory: Seq<char>)
    ensures
        lookup(t, zone, Some(territory)) is None <==> forall|i: int|
            0 <= i < t.len() ==> !((#[trigger] t[i]).zone == zone && t[i].territory == Some(territory)),
        lookup(t, zone, Some(territory)) matches Some(w) ==> w.zone == zone && w.territory == Some(territory),
{
    let p = selects(zone, Some(territory));
    lemma_first_where(t, p);
    if first_where(t, p) is None {
        assert forall|i: int| 0 <= i < t.len() implies !((#[trigger] t[i]).zone == zone && t[i].territory == Some(territory)) by {
            assert(!p(t[i]));
        }
    }
}

/// Reverse lookup finds nothing exactly when no row lists the identifier.
pub proof fn lemma_unknown(t: Seq<WindowsTzView>, name: Seq<char>)
    ensures
        reverse(t, name) is None <==> forall|i: int| 0 <= i < t.len() ==> !(#[trigger] t[i]).iana.contains(name),
{
    let p = lists(name);
    lemma_first_where(t, p);
    if first_where(t, p) is None {
        assert forall|i: int| 0 <= i < t.len() implies !(#[trigger] t[i]).iana.contains(name) by {
            assert(!p(t[i]));
        }
    }
}

/// Every table read from a document lists, in each row, at least one
/// candidate, all of them names of the timezone database, and ends with the
/// universal-time row.
pub proof fn lemma_dataset_valid(doc: Seq<char>)
    requires
        dataset_of(doc) is Ok,
    ensures
        valid_rows(dataset_of(doc)->Ok_0.zones),
        dataset_of(doc)->Ok_0.zones.len() > 0,
        dataset_of(doc)->Ok_0.zones.last() == utc_row(),
{
}

/// The digest of a table covers its version strings and every row, in
/// order, and identical documents give identical digests.
pub proof fn lemma_hash_stable(a: Seq<char>, b: Seq<char>)
    requires
        a == b,
        dataset_of(a) is Ok,
    ensures
        dataset_of(b) is Ok,
        dataset_of(a)->Ok_0.hash == dataset_of(b)->Ok_0.hash,
        dataset_of(a)->Ok_0.hash == fingerprint(
            dataset_of(a)->Ok_0.version.0,
            dataset_of(a)->Ok_0.version.1,
            dataset_of(a)->Ok_0.zones,
        ),
{
}

} // verus!
