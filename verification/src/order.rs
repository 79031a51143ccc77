//! Listing texts without regard to case.
//!
//! Two texts are compared by their lower-case forms, and those in the
//! order of the dictionary. Texts that differ only in case are equals in
//! this order; a listing keeps such texts in the order in which it got
//! them.

use crate::model::texts;
use crate::text::{char_precedes, lex_less};
use itertools::Itertools;
use std::cmp::Ordering;
use vstd::prelude::*;
use vstd::std_specs::iter::IteratorSpec;

verus! {

/// The lower-case form of a text, as `str::to_lowercase` of std gives it:
/// the Unicode lower-case mapping, which may change the number of
/// characters and depends on nothing but the text.
pub uninterp spec fn lowercased(text: Seq<char>) -> Seq<char>;

/// How `a` stands to `b` in the order of the dictionary.
pub open spec fn lex_order(a: Seq<char>, b: Seq<char>) -> Ordering {
    if a == b {
        Ordering::Equal
    } else if lex_less(a, b) {
        Ordering::Less
    } else {
        Ordering::Greater
    }
}

/// How `a` stands to `b` when case is disregarded.
pub open spec fn caseless(a: Seq<char>, b: Seq<char>) -> Ordering {
    lex_order(lowercased(a), lowercased(b))
}

/// Whether `places` names every position below `count` exactly once.
pub open spec fn is_rearrangement(places: Seq<int>, count: nat) -> bool {
    &&& places.len() == count
    &&& places.no_duplicates()
    &&& forall|k: int| 0 <= k < count ==> 0 <= #[trigger] places[k] < count
    &&& forall|p: int| 0 <= p < count ==> places.contains(p)
}

/// Whether `listing` is `items` put in order without regard to case by
/// taking `listing[k]` from `items[places[k]]`: nothing is lost or added,
/// no text stands before one that is less, and texts that are equals
/// stand as they stood in `items`.
pub open spec fn lists_in_order(listing: Seq<Seq<char>>, items: Seq<Seq<char>>, places: Seq<int>)
    -> bool {
    &&& is_rearrangement(places, items.len())
    &&& listing.len() == items.len()
    &&& forall|k: int| 0 <= k < listing.len() ==> #[trigger] listing[k] == items[places[k]]
    &&& forall|j: int, k: int|
        0 <= j < k < listing.len() ==> caseless(#[trigger] listing[j], #[trigger] listing[k])
            != Ordering::Greater
    &&& forall|j: int, k: int|
        0 <= j < k < listing.len() && caseless(listing[j], listing[k]) == Ordering::Equal
            ==> #[trigger] places[j] < #[trigger] places[k]
}

/// Whether `listing` is the stable case-insensitive sort of `items`.
pub open spec fn is_caseless_listing(listing: Seq<Seq<char>>, items: Seq<Seq<char>>) -> bool {
    exists|places: Seq<int>| lists_in_order(listing, items, places)
}

/// `str::to_lowercase` of std. The result is named, not described: the
/// contract says only that it is the lower-case form of the argument.
#[verifier::external_body]
fn lowercase(text: &String) -> (lowered: String)
    ensures
        lowered@ == lowercased(text@),
{
    text.to_lowercase()
}

/// Compares two strings in the order of the dictionary, character by
/// character.
pub fn dictionary_order(a: &String, b: &String) -> (order: Ordering)
    ensures
        order == lex_order(a@, b@),
{
    let mut left = a.as_str().chars();
    let mut right = b.as_str().chars();
    loop
        invariant
            left.obeys_prophetic_iter_laws(),
            right.obeys_prophetic_iter_laws(),
            left.decrease() is Some,
            lex_order(a@, b@) == lex_order(left.remaining(), right.remaining()),
        decreases left.decrease()->0,
    {
        let ghost left_before = left.remaining();
        let ghost right_before = right.remaining();
        let x = left.next();
        let y = right.next();
        match (x, y) {
            (None, None) => {
                assert(left_before =~= right_before);
                return Ordering::Equal;
            },
            (None, Some(_)) => {
                return Ordering::Less;
            },
            (Some(_), None) => {
                return Ordering::Greater;
            },
            (Some(mine), Some(theirs)) => {
                if mine != theirs {
                    return if char_precedes(mine, theirs) {
                        Ordering::Less
                    } else {
                        Ordering::Greater
                    };
                }
                assert(left_before == right_before <==> left.remaining() == right.remaining()) by {
                    if left.remaining() == right.remaining() {
                        assert(left_before =~= seq![mine] + left.remaining());
                        assert(right_before =~= seq![theirs] + right.remaining());
                    }
                }
            },
        }
    }
}

/// Compares two strings without regard to case: their lower-case forms
/// in the order of the dictionary.
pub fn caseless_order(a: &String, b: &String) -> (order: Ordering)
    ensures
        order == caseless(a@, b@),
{
    let lower_a = lowercase(a);
    let lower_b = lowercase(b);
    dictionary_order(&lower_a, &lower_b)
}

/// `Itertools::sorted_by` of itertools, with [`caseless_order`] as the
/// comparison. It collects the items and sorts them with the stable
/// `slice::sort_by`: the result holds the same items, ascending, equals
/// in their given order. The comparison is a total order on the
/// lower-case forms, which is what `sort_by` asks of it.
#[verifier::external_body]
pub(crate) fn sorted_caselessly(items: Vec<String>) -> (listing: Vec<String>)
    ensures
        is_caseless_listing(texts(listing@), texts(items@)),
{
    items.into_iter().sorted_by(|a, b| caseless_order(a, b)).collect()
}

/// Of two texts, at most one comes before the other.
pub proof fn lex_less_is_one_way(a: Seq<char>, b: Seq<char>)
    ensures
        !(lex_less(a, b) && lex_less(b, a)),
    decreases a.len(),
{
    if a.len() > 0 && b.len() > 0 && a[0] == b[0] {
        lex_less_is_one_way(a.drop_first(), b.drop_first());
    }
}

proof fn places_agree(
    items: Seq<Seq<char>>,
    one: Seq<Seq<char>>,
    one_places: Seq<int>,
    other: Seq<Seq<char>>,
    other_places: Seq<int>,
    upto: int,
)
    requires
        lists_in_order(one, items, one_places),
        lists_in_order(other, items, other_places),
        0 <= upto <= items.len(),
    ensures
        forall|k: int| 0 <= k < upto ==> one_places[k] == other_places[k],
    decreases upto,
{
    if upto > 0 {
        let k = upto - 1;
        places_agree(items, one, one_places, other, other_places, k);
        let mine = one_places[k];
        let theirs = other_places[k];
        // Each of the two places occurs in the other listing, and not
        // before `k`, where the listings agree. If both occurred after
        // `k`, each of the two texts would stand before the other.
        assert(other_places.contains(mine));
        assert(one_places.contains(theirs));
        lex_less_is_one_way(lowercased(items[mine]), lowercased(items[theirs]));
    }
}

/// A list of texts has one listing and no other: being ascending, with
/// equals in their given order, settles the place of every text.
pub proof fn listing_is_unique(one: Seq<Seq<char>>, other: Seq<Seq<char>>, items: Seq<Seq<char>>)
    requires
        is_caseless_listing(one, items),
        is_caseless_listing(other, items),
    ensures
        one == other,
{
    let one_places = choose|places: Seq<int>| lists_in_order(one, items, places);
    let other_places = choose|places: Seq<int>| lists_in_order(other, items, places);
    places_agree(items, one, one_places, other, other_places, items.len() as int);
}

} // verus!
