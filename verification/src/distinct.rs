//! Dropping what was seen before.

use crate::model::{snapshot, texts, FuelModel, ModelValue};
use itertools::Itertools;
use vstd::prelude::*;

verus! {

/// The texts of `items` without repetitions: each text stands where it
/// first occurs, and later occurrences are dropped. Texts are the same
/// only if they agree character for character.
pub open spec fn first_occurrences(items: Seq<Seq<char>>) -> Seq<Seq<char>>
    decreases items.len(),
{
    if items.len() == 0 {
        items
    } else {
        let before = first_occurrences(items.drop_last());
        if items.drop_last().contains(items.last()) {
            before
        } else {
            before.push(items.last())
        }
    }
}

/// The owner of each model of a catalog, in order.
pub open spec fn owners_of(catalog: Seq<ModelValue>) -> Seq<Seq<char>> {
    catalog.map_values(|model: ModelValue| model.owner)
}

/// The tags of all models of a catalog: those of the first model in
/// their order, then those of the second, and so on.
pub open spec fn tags_of(catalog: Seq<ModelValue>) -> Seq<Seq<char>> {
    catalog.map_values(|model: ModelValue| model.tags).flatten()
}

/// The texts that a list of borrowed strings holds, in order.
pub open spec fn borrowed_texts(list: Seq<&String>) -> Seq<Seq<char>> {
    list.map_values(|text: &String| text@)
}

/// `Itertools::unique_by` of itertools, keyed by the owner, and each model
/// that it lets through turned into a copy of its owner. It lets an item
/// through when no earlier item had the same key, and keeps the order.
#[verifier::external_body]
pub(crate) fn unique_owners(models: &Vec<FuelModel>) -> (owners: Vec<String>)
    ensures
        texts(owners@) == first_occurrences(owners_of(snapshot(models@))),
{
    models.iter().unique_by(|model| &model.owner).map(|model| model.owner.clone()).collect()
}

/// `Itertools::unique` of itertools, and each string that it lets through
/// copied. It lets an item through when no earlier item was equal to it,
/// and keeps the order.
#[verifier::external_body]
pub(crate) fn unique_texts(items: Vec<&String>) -> (distinct: Vec<String>)
    ensures
        texts(distinct@) == first_occurrences(borrowed_texts(items@)),
{
    items.into_iter().unique().cloned().collect()
}

/// The first occurrences hold every text of the list, and none twice.
pub proof fn first_occurrences_are_distinct(items: Seq<Seq<char>>)
    ensures
        first_occurrences(items).no_duplicates(),
        forall|text: Seq<char>| first_occurrences(items).contains(text) <==> items.contains(text),
    decreases items.len(),
{
    if items.len() > 0 {
        let front = items.drop_last();
        let last = items.last();
        let before = first_occurrences(front);
        let kept = first_occurrences(items);
        first_occurrences_are_distinct(front);
        assert forall|text: Seq<char>| kept.contains(text) <==> items.contains(text) by {
            if kept.contains(text) {
                let at = choose|at: int| 0 <= at < kept.len() && kept[at] == text;
                if at < before.len() {
                    assert(front.contains(text));
                }
            }
            if items.contains(text) {
                let at = choose|at: int| 0 <= at < items.len() && items[at] == text;
                if at < front.len() {
                    assert(front[at] == text);
                    assert(front.contains(text));
                    let found = choose|found: int|
                        0 <= found < before.len() && before[found] == text;
                    assert(kept[found] == text);
                } else if !front.contains(last) {
                    assert(kept[kept.len() - 1] == text);
                }
            }
        }
    }
}

} // verus!
