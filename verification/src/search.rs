//! Search results and their ranking.
//!
//! The vector index reports each hit with its distance from the query vector;
//! a smaller distance means a more similar listing. Results are ranked by
//! ascending distance, and hits at the same distance by ascending listing id,
//! so that the same hits always come out in the same order.

use vstd::prelude::*;
use vstd::seq_lib::{to_multiset_build, to_multiset_contains, to_multiset_insert};
use crate::error::StoreError;
use crate::db::Database;
use crate::listing::{listing_of_row, row_fits_listing, ListingDetails, ListingDetailsView};
use crate::value::{Real, Row, SqlValue, SqlValueView};

verus! {

/// Column of a hit's row that holds the distance, after the listing's columns.
pub const DISTANCE_COLUMN: usize = 13;

/// A listing found by a similarity search, with its distance from the query.
#[derive(Clone, Debug, PartialEq)]
pub struct SearchResult {
    pub listing_details: ListingDetails,
    pub distance: Real,
}

/// What a `SearchResult` holds.
pub struct SearchResultView {
    pub listing_details: ListingDetailsView,
    pub distance: Real,
}

impl View for SearchResult {
    type V = SearchResultView;

    open spec fn view(&self) -> SearchResultView {
        SearchResultView { listing_details: self.listing_details@, distance: self.distance }
    }
}

impl DeepView for SearchResult {
    type V = SearchResultView;

    open spec fn deep_view(&self) -> SearchResultView {
        self.view()
    }
}

/// Whether `a` must come after `b`: it is at a greater distance, or at the same
/// distance with a greater listing id.
pub open spec fn farther(a: SearchResultView, b: SearchResultView) -> bool {
    a.distance.ordinal() > b.distance.ordinal() || (a.distance.ordinal() == b.distance.ordinal()
        && a.listing_details.id > b.listing_details.id)
}

/// Whether no result comes before one that it must come after.
pub open spec fn is_ranked(results: Seq<SearchResultView>) -> bool {
    forall|i: int, j: int|
        #![trigger results[i], results[j]]
        0 <= i < j < results.len() ==> !farther(results[i], results[j])
}

/// Whether a row is a hit: a listing's columns followed by a distance.
pub open spec fn row_fits_hit(row: Seq<SqlValueView>) -> bool {
    &&& row_fits_listing(row)
    &&& row.len() > DISTANCE_COLUMN
    &&& row[DISTANCE_COLUMN as int] is Real
}

/// The search result that a hit's row stands for.
pub open spec fn hit_of_row(row: Seq<SqlValueView>) -> SearchResultView {
    SearchResultView {
        listing_details: listing_of_row(row),
        distance: row[DISTANCE_COLUMN as int]->Real_0,
    }
}

/// Whether every row is a hit.
pub open spec fn rows_fit_hits(rows: Seq<Seq<SqlValueView>>) -> bool {
    forall|i: int| 0 <= i < rows.len() ==> row_fits_hit(#[trigger] rows[i])
}

/// The hits that the rows stand for, in the order of the rows.
pub open spec fn hits_of_rows(rows: Seq<Seq<SqlValueView>>) -> Seq<SearchResultView> {
    Seq::new(rows.len(), |i: int| hit_of_row(rows[i]))
}

/// Where `hit` goes into `ranked`: behind the last result that it need not
/// come before.
pub open spec fn place_of(ranked: Seq<SearchResultView>, hit: SearchResultView) -> int
    decreases ranked.len(),
{
    if ranked.len() > 0 && farther(ranked.last(), hit) {
        place_of(ranked.drop_last(), hit)
    } else {
        ranked.len() as int
    }
}

/// The hits in ranked order. Hits that need not come one before the other keep
/// the order in which they were reported.
pub open spec fn ranking(hits: Seq<SearchResultView>) -> Seq<SearchResultView>
    decreases hits.len(),
{
    if hits.len() == 0 {
        Seq::empty()
    } else {
        let before = ranking(hits.drop_last());
        before.insert(place_of(before, hits.last()), hits.last())
    }
}

/// The first `limit` results, or all of them where there are fewer.
pub open spec fn at_most(results: Seq<SearchResultView>, limit: u64) -> Seq<SearchResultView> {
    if limit < results.len() {
        results.take(limit as int)
    } else {
        results
    }
}

/// Maps a hit's row to a search result.
///
/// The row holds the listing's columns and then the distance, which must be a
/// real; any other row is reported as corrupt.
pub fn map_row_to_hit(row: &Row) -> (mapped: Result<SearchResult, StoreError>)
    ensures
        mapped is Ok <==> row_fits_hit(row.deep_view()),
        mapped matches Ok(hit) ==> hit@ == hit_of_row(row.deep_view()),
        mapped matches Err(e) ==> e == StoreError::DataCorruption,
{
    if row.len() <= DISTANCE_COLUMN {
        return Err(StoreError::DataCorruption);
    }
    assert(row.deep_view()[DISTANCE_COLUMN as int] == row@[DISTANCE_COLUMN as int]@);
    let distance = match &row[DISTANCE_COLUMN] {
        SqlValue::Real(r) => *r,
        _ => { return Err(StoreError::DataCorruption); },
    };
    let listing_details = Database::map_row_to_listing(row)?;
    Ok(SearchResult { listing_details, distance })
}

/// Decides whether `a` must come after `b`.
fn is_farther(a: &SearchResult, b: &SearchResult) -> (after: bool)
    ensures
        after == farther(a@, b@),
{
    let place_a = a.distance.to_ordinal();
    let place_b = b.distance.to_ordinal();
    place_a > place_b || (place_a == place_b && a.listing_details.id > b.listing_details.id)
}

/// The place of a hit lies within the ranked results; no result from there on
/// may come before the hit, and the result just before it need not come after.
pub proof fn lemma_place_of(ranked: Seq<SearchResultView>, hit: SearchResultView)
    ensures
        0 <= place_of(ranked, hit) <= ranked.len(),
        forall|k: int| place_of(ranked, hit) <= k < ranked.len() ==> farther(ranked[k], hit),
        place_of(ranked, hit) > 0 ==> !farther(ranked[place_of(ranked, hit) - 1], hit),
    decreases ranked.len(),
{
    if ranked.len() > 0 && farther(ranked.last(), hit) {
        let shorter = ranked.drop_last();
        lemma_place_of(shorter, hit);
        assert forall|k: int| place_of(ranked, hit) <= k < ranked.len() implies farther(
            ranked[k],
            hit,
        ) by {
            if k < shorter.len() {
                assert(ranked[k] == shorter[k]);
            }
        }
        if place_of(ranked, hit) > 0 {
            assert(ranked[place_of(ranked, hit) - 1] == shorter[place_of(shorter, hit) - 1]);
        }
    }
}

/// Ranking keeps every hit: as many results as hits, and each hit as often as
/// it was reported.
pub proof fn lemma_ranking_keeps_hits(hits: Seq<SearchResultView>)
    ensures
        ranking(hits).len() == hits.len(),
        ranking(hits).to_multiset() == hits.to_multiset(),
    decreases hits.len(),
{
    if hits.len() == 0 {
        assert(hits =~= Seq::empty());
    } else {
        let before = ranking(hits.drop_last());
        lemma_ranking_keeps_hits(hits.drop_last());
        lemma_place_of(before, hits.last());
        let place = place_of(before, hits.last());
        before.insert_ensures(place, hits.last());
        to_multiset_insert(before, place, hits.last());
        assert(hits =~= hits.drop_last().push(hits.last()));
        to_multiset_build(hits.drop_last(), hits.last());
    }
}

/// Putting a hit at its place into results that are in order leaves them in
/// order.
proof fn lemma_insert_keeps_rank(before: Seq<SearchResultView>, hit: SearchResultView)
    requires
        is_ranked(before),
    ensures
        is_ranked(before.insert(place_of(before, hit), hit)),
{
    lemma_place_of(before, hit);
    let place = place_of(before, hit);
    let after = before.insert(place, hit);
    before.insert_ensures(place, hit);
    assert forall|i: int, j: int| 0 <= i < j < after.len() implies !farther(
        #[trigger] after[i],
        #[trigger] after[j],
    ) by {
        if j < place {
            assert(after[i] == before[i] && after[j] == before[j]);
            assert(!farther(before[i], before[j]));
        } else if j == place {
            assert(after[i] == before[i] && after[j] == hit);
            assert(!farther(before[place - 1], hit));
            if i < place - 1 {
                assert(!farther(before[i], before[place - 1]));
            }
        } else if i < place {
            assert(after[i] == before[i] && after[j] == before[j - 1]);
            assert(!farther(before[i], before[j - 1]));
        } else if i == place {
            assert(after[i] == hit && after[j] == before[j - 1]);
            assert(farther(before[j - 1], hit));
        } else {
            assert(after[i] == before[i - 1] && after[j] == before[j - 1]);
            assert(!farther(before[i - 1], before[j - 1]));
        }
    }
}

/// Ranked results are in order: by ascending distance, and at the same
/// distance by ascending listing id.
pub proof fn lemma_ranking_is_ranked(hits: Seq<SearchResultView>)
    ensures
        is_ranked(ranking(hits)),
    decreases hits.len(),
{
    if hits.len() > 0 {
        lemma_ranking_is_ranked(hits.drop_last());
        lemma_insert_keeps_rank(ranking(hits.drop_last()), hits.last());
    }
}

/// Cutting ranked results off at a limit leaves the smaller of the limit and
/// the number of hits, still in order.
pub proof fn lemma_at_most(hits: Seq<SearchResultView>, limit: u64)
    ensures
        at_most(ranking(hits), limit).len() == if limit < hits.len() {
            limit as nat
        } else {
            hits.len()
        },
        is_ranked(at_most(ranking(hits), limit)),
{
    lemma_ranking_keeps_hits(hits);
    lemma_ranking_is_ranked(hits);
}

/// The first of the ranked results is a hit that need not come after any other.
pub proof fn lemma_closest_first(hits: Seq<SearchResultView>, k: int)
    requires
        0 <= k < hits.len(),
    ensures
        hits.contains(ranking(hits)[0]),
        !farther(ranking(hits)[0], hits[k]),
{
    lemma_ranking_keeps_hits(hits);
    lemma_ranking_is_ranked(hits);
    let ranked = ranking(hits);
    assert(ranked.contains(ranked[0]));
    assert(hits.contains(hits[k]));
    to_multiset_contains(ranked, ranked[0]);
    to_multiset_contains(hits, ranked[0]);
    to_multiset_contains(ranked, hits[k]);
    to_multiset_contains(hits, hits[k]);
    let j = choose|j: int| 0 <= j < ranked.len() && ranked[j] == hits[k];
    if j > 0 {
        assert(!farther(ranked[0], ranked[j]));
    }
}

/// Where no distance is negative and some hit is at distance zero, the first
/// of the ranked results is at distance zero.
pub proof fn lemma_zero_distance_first(hits: Seq<SearchResultView>, k: int)
    requires
        0 <= k < hits.len(),
        hits[k].distance.bits == 0,
        forall|j: int| 0 <= j < hits.len() ==> (#[trigger] hits[j]).distance.ordinal() >= 0,
    ensures
        ranking(hits)[0].distance.bits == 0,
        ranking(hits)[0].listing_details.id <= hits[k].listing_details.id,
{
    lemma_closest_first(hits, k);
    let first = ranking(hits)[0];
    let j = choose|j: int| 0 <= j < hits.len() && hits[j] == first;
    assert(hits[j].distance.ordinal() >= 0);
}

/// Ranks the hits of an index query and keeps the `limit` closest.
///
/// Every row must be a hit; if one is not, the whole answer is reported as
/// corrupt.
pub fn rank_hits(rows: &Vec<Row>, limit: u64) -> (ranked: Result<Vec<SearchResult>, StoreError>)
    ensures
        ranked is Ok <==> rows_fit_hits(rows.deep_view()),
        ranked matches Ok(results) ==> results.deep_view() == at_most(
            ranking(hits_of_rows(rows.deep_view())),
            limit,
        ),
        ranked matches Err(e) ==> e == StoreError::DataCorruption,
{
    let ghost all = hits_of_rows(rows.deep_view());
    let mut results: Vec<SearchResult> = Vec::new();
    let mut i: usize = 0;
    assert(all.take(0) =~= Seq::empty());
    assert(results.deep_view() =~= ranking(all.take(0)));
    while i < rows.len()
        invariant
            i <= rows@.len(),
            all == hits_of_rows(rows.deep_view()),
            forall|k: int| 0 <= k < i ==> row_fits_hit(#[trigger] rows.deep_view()[k]),
            results.deep_view() == ranking(all.take(i as int)),
        decreases rows@.len() - i,
    {
        assert(rows.deep_view()[i as int] == rows@[i as int].deep_view());
        let hit = match map_row_to_hit(&rows[i]) {
            Ok(hit) => hit,
            Err(e) => {
                assert(!row_fits_hit(rows.deep_view()[i as int]));
                return Err(e);
            },
        };
        let ghost before = results.deep_view();
        let mut place: usize = results.len();
        assert(before.take(place as int) =~= before);
        while place > 0 && is_farther(&results[place - 1], &hit)
            invariant
                place <= results@.len(),
                before == results.deep_view(),
                place_of(before, hit@) == place_of(before.take(place as int), hit@),
            decreases place,
        {
            assert(before.take(place as int).last() == results@[place - 1]@);
            assert(before.take(place as int).drop_last() =~= before.take(place - 1));
            place = place - 1;
        }
        proof {
            if place > 0 {
                assert(before.take(place as int).last() == results@[place - 1]@);
            }
            assert(place_of(before, hit@) == place);
            assert(all.take(i + 1).drop_last() =~= all.take(i as int));
            assert(all.take(i + 1).last() == hit@);
        }
        results.insert(place, hit);
        assert(results.deep_view() =~= before.insert(place as int, hit@));
        i = i + 1;
    }
    assert(all.take(i as int) =~= all);
    assert(rows_fit_hits(rows.deep_view()));
    let ghost sorted = results.deep_view();
    if limit < results.len() as u64 {
        results.truncate(limit as usize);
        assert(results.deep_view() =~= sorted.take(limit as int));
    }
    Ok(results)
}

} // verus!
