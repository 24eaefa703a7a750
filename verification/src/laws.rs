//! What holds of the operations on the catalog, from their first step to
//! their result.
//!
//! The store is not part of this crate. Where a law speaks of what the store
//! holds, it says in its premises what the store replies.

use vstd::prelude::*;
use crate::db::Database;
use crate::embedding::{blob_fits, decode_words, encode_words, lemma_encode_decode};
use crate::error::StoreError;
use crate::listing::{
    listing_column_name, listing_of_row, row_fits_listing, ListingDetailsView, LISTING_COLUMNS,
};
use crate::search::{
    at_most, hits_of_rows, is_ranked, lemma_at_most, lemma_ranking_keeps_hits, ranking,
    rows_fit_hits,
};
use crate::session::{
    at_most_count, find_listing, limit_parameter, search_step, AnswerView, ProgressView, ReplyView,
    Session,
};
use crate::statement::StatementView;
use crate::value::SqlValueView;

verus! {

/// The step after `step` when the store has replied: the next step of the
/// session that asked, and `step` itself where the operation had ended.
pub open spec fn after_reply(step: ProgressView, reply: ReplyView) -> ProgressView {
    match step {
        ProgressView::Ask { statement, session } => session.next(reply),
        ProgressView::Done(result) => step,
    }
}

/// Whether every row of a table is a listing.
pub open spec fn rows_are_listings(rows: Seq<Seq<SqlValueView>>) -> bool {
    forall|k: int| 0 <= k < rows.len() ==> row_fits_listing(#[trigger] rows[k])
}

/// Whether the table of listings has a row with this id.
pub open spec fn has_listing(catalog: Seq<Seq<SqlValueView>>, id: int) -> bool {
    exists|k: int| 0 <= k < catalog.len() && listing_of_row(#[trigger] catalog[k]).id == id
}

/// The rows of the table of listings that have this id, in the order of the
/// table: what a store replies when it is asked for the listing with this id.
pub open spec fn rows_with_id(catalog: Seq<Seq<SqlValueView>>, id: i64) -> Seq<
    Seq<SqlValueView>,
> {
    catalog.filter(|row: Seq<SqlValueView>| listing_of_row(row).id == id)
}

/// A listing that was found has the id that was asked for.
pub proof fn lemma_found_listing_has_id(rows: Seq<Seq<SqlValueView>>, id: i64, from: int)
    ensures
        find_listing(rows, id, from) matches Ok(listing) ==> listing.id == id,
    decreases rows.len() - from,
{
    if 0 <= from < rows.len() && row_fits_listing(rows[from]) && listing_of_row(rows[from]).id
        != id {
        lemma_found_listing_has_id(rows, id, from + 1);
    }
}

/// Where the rows up to row `at` are listings and row `at` is the first with
/// the id that was asked for, that row is found.
pub proof fn lemma_present_listing_is_found(
    rows: Seq<Seq<SqlValueView>>,
    id: i64,
    from: int,
    at: int,
)
    requires
        0 <= from <= at < rows.len(),
        forall|k: int| from <= k <= at ==> row_fits_listing(#[trigger] rows[k]),
        forall|k: int| from <= k < at ==> listing_of_row(#[trigger] rows[k]).id != id,
        listing_of_row(rows[at]).id == id,
    ensures
        find_listing(rows, id, from) == Ok::<ListingDetailsView, StoreError>(
            listing_of_row(rows[at]),
        ),
    decreases at - from,
{
    if from < at {
        assert(row_fits_listing(rows[from]));
        assert(listing_of_row(rows[from]).id != id);
        lemma_present_listing_is_found(rows, id, from + 1, at);
    } else {
        assert(row_fits_listing(rows[at]));
    }
}

/// Where the rows are listings and none has the id that was asked for, the
/// listing is reported as not found.
pub proof fn lemma_absent_listing_is_not_found(rows: Seq<Seq<SqlValueView>>, id: i64, from: int)
    requires
        0 <= from,
        forall|k: int| from <= k < rows.len() ==> row_fits_listing(#[trigger] rows[k]),
        forall|k: int| from <= k < rows.len() ==> listing_of_row(#[trigger] rows[k]).id != id,
    ensures
        find_listing(rows, id, from) == Err::<ListingDetailsView, StoreError>(StoreError::NotFound),
    decreases rows.len() - from,
{
    if from < rows.len() {
        assert(row_fits_listing(rows[from]));
        assert(listing_of_row(rows[from]).id != id);
        lemma_absent_listing_is_not_found(rows, id, from + 1);
    }
}

/// `get_listing_by_id` on a store whose table of listings is `catalog`: for an
/// id that the table has, the result is a record of the table with exactly
/// this id; for an id that it lacks, the result is `NotFound`.
pub proof fn lemma_listing_by_id(catalog: Seq<Seq<SqlValueView>>, id: u64)
    requires
        rows_are_listings(catalog),
    ensures
        ({
            let reply = ReplyView::Rows(rows_with_id(catalog, id as i64));
            let outcome = after_reply(Database::listing_step(id), reply);
            &&& has_listing(catalog, id as int) ==> {
                &&& outcome matches ProgressView::Done(Ok(AnswerView::Listing(listing)))
                &&& listing.id == id
                &&& exists|k: int|
                    0 <= k < catalog.len() && listing == listing_of_row(#[trigger] catalog[k])
            }
            &&& !has_listing(catalog, id as int) ==> outcome == ProgressView::Done(
                Err(StoreError::NotFound),
            )
        }),
{
    if id <= i64::MAX {
        let wanted = id as i64;
        let pred = |row: Seq<SqlValueView>| listing_of_row(row).id == wanted;
        let rows = catalog.filter(pred);
        assert forall|k: int| 0 <= k < rows.len() implies row_fits_listing(#[trigger] rows[k])
            && listing_of_row(rows[k]).id == wanted by {
            catalog.lemma_filter_pred(pred, k);
            assert(rows.contains(rows[k]));
            catalog.lemma_filter_contains_rev(pred, rows[k]);
            let at = choose|at: int| 0 <= at < catalog.len() && catalog[at] == rows[k];
            assert(row_fits_listing(catalog[at]));
        }
        if has_listing(catalog, id as int) {
            let k = choose|k: int|
                0 <= k < catalog.len() && listing_of_row(#[trigger] catalog[k]).id == id;
            catalog.lemma_filter_contains(pred, k);
            assert(rows.len() > 0);
            assert(row_fits_listing(rows[0]));
            lemma_present_listing_is_found(rows, wanted, 0, 0);
            assert(rows.contains(rows[0]));
            catalog.lemma_filter_contains_rev(pred, rows[0]);
            let at = choose|at: int| 0 <= at < catalog.len() && catalog[at] == rows[0];
            assert(listing_of_row(rows[0]) == listing_of_row(catalog[at]));
        } else {
            assert(rows.len() == 0) by {
                if rows.len() > 0 {
                    assert(rows.contains(rows[0]));
                    catalog.lemma_filter_contains_rev(pred, rows[0]);
                    let at = choose|at: int| 0 <= at < catalog.len() && catalog[at] == rows[0];
                    assert(listing_of_row(catalog[at]).id == id);
                    assert(has_listing(catalog, id as int));
                }
            }
        }
    } else {
        assert forall|k: int| 0 <= k < catalog.len() implies listing_of_row(
            #[trigger] catalog[k],
        ).id != id by {}
    }
}

/// `get_listings` on a store that has `available` listings and replies with as
/// many of them as the limit allows: the result holds exactly the smaller of
/// the limit and `available` records, those of the rows in their order. A
/// limit that is not positive yields none.
pub proof fn lemma_listings(limit: i64, rows: Seq<Seq<SqlValueView>>, available: nat)
    requires
        rows_are_listings(rows),
        rows.len() == at_most_count(limit as int, available),
    ensures
        ({
            let outcome = after_reply(Database::listings_step(limit), ReplyView::Rows(rows));
            &&& outcome matches ProgressView::Done(Ok(AnswerView::Listings(listings)))
            &&& listings.len() == at_most_count(limit as int, available)
            &&& forall|k: int| 0 <= k < listings.len() ==> listings[k] == listing_of_row(rows[k])
        }),
{
    if limit <= 0 {
        assert(rows =~= Seq::empty());
    }
}

/// A search on an index that has `indexed` entries and reports the closest of
/// them, as many as the limit that it was given allows: the result holds
/// exactly the smaller of the limit and `indexed` results, closest first, and
/// they are the hits that the index reported. The number of entries is one
/// that the store can count to.
pub proof fn lemma_search_results(
    words: Seq<u32>,
    limit: u64,
    hits: Seq<Seq<SqlValueView>>,
    indexed: nat,
)
    requires
        indexed <= i64::MAX,
        rows_fit_hits(hits),
        hits.len() == at_most_count(limit_parameter(limit) as int, indexed),
    ensures
        ({
            let outcome = after_reply(search_step(words, limit), ReplyView::Rows(hits));
            &&& outcome matches ProgressView::Done(Ok(AnswerView::Similar(results)))
            &&& results == at_most(ranking(hits_of_rows(hits)), limit)
            &&& results.len() == at_most_count(limit as int, indexed)
            &&& is_ranked(results)
            &&& results.to_multiset() == hits_of_rows(hits).to_multiset()
        }),
{
    lemma_at_most(hits_of_rows(hits), limit);
    lemma_ranking_keeps_hits(hits_of_rows(hits));
    if limit == 0 {
        assert(hits_of_rows(hits) =~= Seq::empty());
    }
}

/// `get_similar_to_listing` on a store that holds `blob` as the embedding of
/// the reference listing: a well-formed blob is put to the index unchanged,
/// with the limit; a blob of a wrong length ends the operation with
/// `DataCorruption`.
pub proof fn lemma_similar_to_listing(database: Database, id: u64, limit: u64, blob: Seq<u8>)
    requires
        id <= i64::MAX,
    ensures
        ({
            let resolve = Session::SimilarResolve { dimension: database.dimension, limit };
            let reply = ReplyView::Rows(seq![seq![SqlValueView::Blob(blob)]]);
            &&& database.similar_to_listing_step(id, limit) == (ProgressView::Ask {
                statement: StatementView::Embedding { listing_id: id as i64 },
                session: resolve,
            })
            &&& blob_fits(blob, database.dimension) ==> resolve.next(reply) == search_step(
                decode_words(blob),
                limit,
            )
            &&& blob_fits(blob, database.dimension) && limit > 0 ==> resolve.next(reply)
                == (ProgressView::Ask {
                statement: StatementView::Nearest {
                    embedding: blob,
                    limit: limit_parameter(limit),
                },
                session: Session::SimilarRank { limit },
            })
            &&& !blob_fits(blob, database.dimension) ==> resolve.next(reply) == ProgressView::Done(
                Err(StoreError::DataCorruption),
            )
            &&& resolve.next(ReplyView::Rows(Seq::empty())) == ProgressView::Done(
                Err(StoreError::NotFound),
            )
        }),
{
    if blob_fits(blob, database.dimension) {
        lemma_encode_decode(blob);
    }
}

/// `get_similar_to_embedding` with a vector of the catalog's dimension puts
/// the blob of the vector to the index, with the limit; the index then answers
/// as `lemma_search_results` says.
pub proof fn lemma_similar_to_embedding(database: Database, embedding: Seq<u32>, limit: u64)
    ensures
        embedding.len() == database.dimension ==> database.similar_to_embedding_step(
            embedding,
            limit,
        ) == search_step(embedding, limit),
        limit > 0 ==> search_step(embedding, limit) == (ProgressView::Ask {
            statement: StatementView::Nearest {
                embedding: encode_words(embedding),
                limit: limit_parameter(limit),
            },
            session: Session::SimilarRank { limit },
        }),
        limit == 0 ==> search_step(embedding, limit) == ProgressView::Done(
            Ok(AnswerView::Similar(Seq::empty())),
        ),
        embedding.len() != database.dimension ==> database.similar_to_embedding_step(
            embedding,
            limit,
        ) == ProgressView::Done(Err(StoreError::InvalidArgument)),
{
}

/// `get_embedding` on a store that holds `blob` for the listing: a blob whose
/// length is not a multiple of four, or not that of the catalog's dimension,
/// ends the operation with `DataCorruption`; any other blob yields its vector,
/// which has the catalog's dimension. A store that holds no blob for the
/// listing ends the operation with `NotFound`.
pub proof fn lemma_embedding(database: Database, id: i64, blob: Seq<u8>)
    ensures
        ({
            let first = database.embedding_step(id);
            let reply = ReplyView::Rows(seq![seq![SqlValueView::Blob(blob)]]);
            &&& first matches ProgressView::Ask { statement, session }
            &&& statement == StatementView::Embedding { listing_id: id }
            &&& (blob.len() % 4 != 0 || blob.len() != 4 * database.dimension) ==> after_reply(
                first,
                reply,
            ) == ProgressView::Done(Err(StoreError::DataCorruption))
            &&& blob_fits(blob, database.dimension) ==> after_reply(first, reply)
                == ProgressView::Done(Ok(AnswerView::Embedding(decode_words(blob))))
                && decode_words(blob).len() == database.dimension
            &&& after_reply(first, ReplyView::Rows(Seq::empty())) == ProgressView::Done(
                Err(StoreError::NotFound),
            )
        }),
{
}

/// A store that cannot answer ends every operation: with `StartupFatal`
/// before serving begins, with `StorageUnavailable` afterwards.
pub proof fn lemma_unavailable_store(session: Session)
    ensures
        session is Startup ==> session.next(ReplyView::Unavailable) == ProgressView::Done(
            Err(StoreError::StartupFatal),
        ),
        !(session is Startup) ==> session.next(ReplyView::Unavailable) == ProgressView::Done(
            Err(StoreError::StorageUnavailable),
        ),
{
}

/// `startup` lets serving begin exactly where the table of listings has the
/// thirteen columns of a listing under their names and in their order; with
/// any other table it ends with `StartupFatal`.
pub proof fn lemma_startup(names: Seq<Seq<char>>)
    ensures
        ({
            let rows = Seq::new(names.len(), |i: int| seq![SqlValueView::Text(names[i])]);
            let outcome = after_reply(Database::startup_step(), ReplyView::Rows(rows));
            let fitting = names.len() == LISTING_COLUMNS && forall|i: int|
                0 <= i < names.len() ==> #[trigger] names[i] == listing_column_name(i);
            &&& fitting ==> outcome == ProgressView::Done(Ok(AnswerView::Ready))
            &&& !fitting ==> outcome == ProgressView::Done(Err(StoreError::StartupFatal))
        }),
{
    let rows = Seq::new(names.len(), |i: int| seq![SqlValueView::Text(names[i])]);
    let fitting = names.len() == LISTING_COLUMNS && forall|i: int|
        0 <= i < names.len() ==> #[trigger] names[i] == listing_column_name(i);
    if fitting {
        assert forall|i: int| 0 <= i < rows.len() implies (#[trigger] rows[i]).len() > 0
            && rows[i][0] == SqlValueView::Text(listing_column_name(i)) by {
            assert(names[i] == listing_column_name(i));
        }
    } else if names.len() == LISTING_COLUMNS {
        let i = choose|i: int| 0 <= i < names.len() && names[i] != listing_column_name(i);
        assert(rows[i][0] == SqlValueView::Text(names[i]));
    }
}

} // verus!
