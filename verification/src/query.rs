//! Questions asked of a catalog.
//!
//! Every question reads a catalog and changes nothing. The three that
//! select models read the catalog handed to them, or the one the client
//! holds where none is handed over; the two listings read the client's
//! own. Where there is no catalog to read there is no answer, which is
//! not an error.

use crate::client::{held, FuelClient};
use crate::distinct::{
    borrowed_texts, first_occurrences, first_occurrences_are_distinct, owners_of, tags_of,
    unique_owners, unique_texts,
};
use crate::model::{snapshot, texts, FuelModel, ModelValue};
use crate::order::{caseless, is_caseless_listing, lists_in_order, sorted_caselessly};
use std::cmp::Ordering;
use vstd::prelude::*;

verus! {

/// The test "is owned by `owner`": the owner is this very text.
pub open spec fn has_owner(owner: Seq<char>) -> spec_fn(ModelValue) -> bool {
    |model: ModelValue| model.owner == owner
}

/// The test "is private" or "is public", as `private` says.
pub open spec fn has_privacy(private: bool) -> spec_fn(ModelValue) -> bool {
    |model: ModelValue| model.private == private
}

/// The test "carries `tag`": one of the tags is this very text.
pub open spec fn has_tag(tag: Seq<char>) -> spec_fn(ModelValue) -> bool {
    |model: ModelValue| model.tags.contains(tag)
}

/// The models of `catalog` that pass `test`, in the order of `catalog`.
pub open spec fn selection(catalog: Seq<ModelValue>, test: spec_fn(ModelValue) -> bool) -> Seq<
    ModelValue,
> {
    catalog.filter(test)
}

/// The catalog that a question reads: the one given, else the one held.
pub open spec fn queried(given: Option<&Vec<FuelModel>>, held: Option<Vec<FuelModel>>) -> Option<
    Seq<ModelValue>,
> {
    match given {
        Some(models) => Some(snapshot(models@)),
        None => match held {
            Some(models) => Some(snapshot(models@)),
            None => None,
        },
    }
}

/// The answer to a selecting question: the selection from the catalog
/// read, and none where there is no catalog.
pub open spec fn answer(catalog: Option<Seq<ModelValue>>, test: spec_fn(ModelValue) -> bool)
    -> Option<Seq<ModelValue>> {
    match catalog {
        Some(models) => Some(selection(models, test)),
        None => None,
    }
}

/// Whether `part` is made of items of `whole` taken at `places`, which
/// rise from each item to the next.
pub open spec fn taken_at<A>(part: Seq<A>, whole: Seq<A>, places: Seq<int>) -> bool {
    &&& places.len() == part.len()
    &&& forall|k: int|
        0 <= k < part.len() ==> 0 <= #[trigger] places[k] < whole.len() && part[k]
            == whole[places[k]]
    &&& forall|j: int, k: int|
        0 <= j < k < part.len() ==> #[trigger] places[j] < #[trigger] places[k]
}

/// Whether the items of `part` stand in `whole`, in the same order.
pub open spec fn keeps_order<A>(part: Seq<A>, whole: Seq<A>) -> bool {
    exists|places: Seq<int>| taken_at(part, whole, places)
}

/// Whether `listing` lists the owners of `catalog`: each owner once, in
/// ascending order without regard to case, and owners that differ only
/// in case in the order in which they first occur in the catalog.
pub open spec fn lists_owners(listing: Seq<Seq<char>>, catalog: Seq<ModelValue>) -> bool {
    is_caseless_listing(listing, first_occurrences(owners_of(catalog)))
}

/// Whether `listing` lists the tags of `catalog`: each tag once, in
/// ascending order without regard to case, and tags that differ only in
/// case in the order in which they first occur in the catalog.
pub open spec fn lists_tags(listing: Seq<Seq<char>>, catalog: Seq<ModelValue>) -> bool {
    is_caseless_listing(listing, first_occurrences(tags_of(catalog)))
}

enum Criterion {
    Owner(String),
    Private(bool),
    Tag(String),
}

impl Criterion {
    spec fn test(self) -> spec_fn(ModelValue) -> bool {
        match self {
            Criterion::Owner(owner) => has_owner(owner@),
            Criterion::Private(private) => has_privacy(private),
            Criterion::Tag(tag) => has_tag(tag@),
        }
    }

    fn admits(&self, model: &FuelModel) -> (yes: bool)
        ensures
            yes == (self.test())(model@),
    {
        match self {
            Criterion::Owner(owner) => model.owner == *owner,
            Criterion::Private(private) => model.private == *private,
            Criterion::Tag(tag) => holds_text(&model.tags, tag),
        }
    }
}

fn holds_text(list: &Vec<String>, text: &String) -> (found: bool)
    ensures
        found == texts(list@).contains(text@),
{
    let mut at: usize = 0;
    while at < list.len()
        invariant
            at <= list.len(),
            forall|k: int| 0 <= k < at ==> texts(list@)[k] != text@,
        decreases list.len() - at,
    {
        if list[at] == *text {
            assert(texts(list@)[at as int] == text@);
            return true;
        }
        at += 1;
    }
    false
}

fn select(catalog: &Vec<FuelModel>, criterion: &Criterion) -> (found: Vec<FuelModel>)
    ensures
        snapshot(found@) == selection(snapshot(catalog@), criterion.test()),
{
    let ghost whole = snapshot(catalog@);
    let ghost test = criterion.test();
    let mut found: Vec<FuelModel> = Vec::new();
    let mut at: usize = 0;
    proof {
        reveal(Seq::filter);
    }
    while at < catalog.len()
        invariant
            at <= catalog.len(),
            whole == snapshot(catalog@),
            test == criterion.test(),
            snapshot(found@) == whole.take(at as int).filter(test),
        decreases catalog.len() - at,
    {
        let model = &catalog[at];
        proof {
            assert(whole.take(at + 1) =~= whole.take(at as int).push(model@));
            whole.take(at as int).lemma_filter_push(model@, test);
        }
        if criterion.admits(model) {
            found.push(model.clone());
        }
        at += 1;
    }
    assert(whole.take(at as int) =~= whole);
    found
}

fn all_tags(models: &Vec<FuelModel>) -> (tags: Vec<&String>)
    ensures
        borrowed_texts(tags@) == tags_of(snapshot(models@)),
{
    let ghost lists = snapshot(models@).map_values(|model: ModelValue| model.tags);
    let mut tags: Vec<&String> = Vec::new();
    let mut at: usize = 0;
    while at < models.len()
        invariant
            at <= models.len(),
            lists == snapshot(models@).map_values(|model: ModelValue| model.tags),
            borrowed_texts(tags@) == lists.take(at as int).flatten(),
        decreases models.len() - at,
    {
        let own = &models[at].tags;
        let ghost before = borrowed_texts(tags@);
        let mut inner: usize = 0;
        while inner < own.len()
            invariant
                inner <= own.len(),
                borrowed_texts(tags@) == before + texts(own@).take(inner as int),
            decreases own.len() - inner,
        {
            let ghost so_far = borrowed_texts(tags@);
            tags.push(&own[inner]);
            assert(borrowed_texts(tags@) =~= so_far.push(own@[inner as int]@));
            inner += 1;
        }
        proof {
            assert(lists.take(at + 1) =~= lists.take(at as int).push(lists[at as int]));
            lists.take(at as int).lemma_flatten_push(lists[at as int]);
        }
        at += 1;
    }
    assert(lists.take(at as int) =~= lists);
    tags
}

impl FuelClient {
    /// The models whose owner is exactly `owner`.
    pub fn models_by_owner(&self, models: Option<&Vec<FuelModel>>, owner: &str) -> (found: Option<
        Vec<FuelModel>,
    >)
        ensures
            held(found) == answer(queried(models, self.models), has_owner(owner@)),
    {
        self.models_where(models, Criterion::Owner(owner.to_owned()))
    }

    /// The private models, or the public ones, as `private` says.
    pub fn models_by_private(&self, models: Option<&Vec<FuelModel>>, private: bool) -> (found:
        Option<Vec<FuelModel>>)
        ensures
            held(found) == answer(queried(models, self.models), has_privacy(private)),
    {
        self.models_where(models, Criterion::Private(private))
    }

    /// The models that carry exactly the tag `tag`.
    pub fn models_by_tag(&self, models: Option<&Vec<FuelModel>>, tag: &str) -> (found: Option<
        Vec<FuelModel>,
    >)
        ensures
            held(found) == answer(queried(models, self.models), has_tag(tag@)),
    {
        self.models_where(models, Criterion::Tag(tag.to_owned()))
    }

    fn models_where(&self, models: Option<&Vec<FuelModel>>, criterion: Criterion) -> (found: Option<
        Vec<FuelModel>,
    >)
        ensures
            held(found) == answer(queried(models, self.models), criterion.test()),
    {
        match models {
            Some(given) => Some(select(given, &criterion)),
            None => match &self.models {
                Some(own) => Some(select(own, &criterion)),
                None => None,
            },
        }
    }

    /// The owners of the models held, as [`distinct_owners`] lists them.
    pub fn get_owners(&self) -> (listing: Option<Vec<String>>)
        ensures
            match self.models {
                Some(models) => listing matches Some(list) && lists_owners(
                    texts(list@),
                    snapshot(models@),
                ),
                None => listing is None,
            },
    {
        match &self.models {
            Some(models) => Some(distinct_owners(models)),
            None => None,
        }
    }

    /// The tags of the models held, as [`distinct_tags`] lists them.
    pub fn get_tags(&self) -> (listing: Option<Vec<String>>)
        ensures
            match self.models {
                Some(models) => listing matches Some(list) && lists_tags(
                    texts(list@),
                    snapshot(models@),
                ),
                None => listing is None,
            },
    {
        match &self.models {
            Some(models) => Some(distinct_tags(models)),
            None => None,
        }
    }
}

/// The owners of a catalog: each owner once, in ascending order without
/// regard to case, and owners that differ only in case in the order in
/// which they first occur.
pub fn distinct_owners(models: &Vec<FuelModel>) -> (listing: Vec<String>)
    ensures
        lists_owners(texts(listing@), snapshot(models@)),
{
    sorted_caselessly(unique_owners(models))
}

/// The tags of a catalog, those of all its models taken together: each
/// tag once, in ascending order without regard to case, and tags that
/// differ only in case in the order in which they first occur.
pub fn distinct_tags(models: &Vec<FuelModel>) -> (listing: Vec<String>)
    ensures
        lists_tags(texts(listing@), snapshot(models@)),
{
    sorted_caselessly(unique_texts(all_tags(models)))
}

/// A selection never reorders: the models that pass the test stand in
/// the selection as they stand in the catalog.
pub proof fn selection_keeps_order(catalog: Seq<ModelValue>, test: spec_fn(ModelValue) -> bool)
    ensures
        keeps_order(selection(catalog, test), catalog),
{
    let places = selection_places(catalog, test);
    assert(taken_at(selection(catalog, test), catalog, places));
}

proof fn selection_places(catalog: Seq<ModelValue>, test: spec_fn(ModelValue) -> bool) -> (places:
    Seq<int>)
    ensures
        taken_at(selection(catalog, test), catalog, places),
    decreases catalog.len(),
{
    reveal(Seq::filter);
    if catalog.len() == 0 {
        Seq::empty()
    } else {
        let front = catalog.drop_last();
        let before = selection_places(front, test);
        if test(catalog.last()) {
            before.push(catalog.len() - 1)
        } else {
            before
        }
    }
}

/// A listing of owners or of tags holds no text twice, ascends without
/// regard to case, and holds exactly the texts that occur among `items`,
/// the owners or the tags of the catalog.
pub proof fn listing_is_distinct_and_ascending(listing: Seq<Seq<char>>, items: Seq<Seq<char>>)
    requires
        is_caseless_listing(listing, first_occurrences(items)),
    ensures
        listing.no_duplicates(),
        forall|j: int, k: int|
            0 <= j < k < listing.len() ==> caseless(listing[j], listing[k]) != Ordering::Greater,
        forall|text: Seq<char>| listing.contains(text) <==> items.contains(text),
{
    let kept = first_occurrences(items);
    let places = choose|places: Seq<int>| lists_in_order(listing, kept, places);
    first_occurrences_are_distinct(items);
    assert forall|text: Seq<char>| listing.contains(text) <==> items.contains(text) by {
        if listing.contains(text) {
            let at = choose|at: int| 0 <= at < listing.len() && listing[at] == text;
            assert(kept[places[at]] == text);
        }
        if items.contains(text) {
            let from = choose|from: int| 0 <= from < kept.len() && kept[from] == text;
            assert(places.contains(from));
            let at = choose|at: int| 0 <= at < places.len() && places[at] == from;
            assert(listing[at] == text);
        }
    }
}

/// Where no two of the texts listed differ only in case, the listing
/// ascends strictly: no entry is the equal of another even when case is
/// disregarded.
pub proof fn listing_without_case_twins_is_strict(listing: Seq<Seq<char>>, items: Seq<Seq<char>>)
    requires
        is_caseless_listing(listing, first_occurrences(items)),
        forall|a: Seq<char>, b: Seq<char>|
            items.contains(a) && items.contains(b) && a != b ==> caseless(a, b) != Ordering::Equal,
    ensures
        forall|j: int, k: int|
            0 <= j < k < listing.len() ==> caseless(listing[j], listing[k]) == Ordering::Less,
{
    listing_is_distinct_and_ascending(listing, items);
}

} // verus!
