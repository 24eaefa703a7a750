//! The course of one operation on the catalog.
//!
//! An operation is carried out in steps. Each step either names a statement
//! that the caller is to run against the store, or ends the operation with its
//! result. The caller hands back what the store replied and receives the next
//! step. Nothing is kept between operations, and a step depends on nothing but
//! the session and the reply.

use vstd::prelude::*;
use vstd::string::StringExecFns;
use crate::db::Database;
use crate::embedding::{decode_embedding, decode_spec, encode_embedding, encode_words};
use crate::error::StoreError;
use crate::listing::{
    listing_column, listing_column_name, listing_of_row, row_fits_listing, ListingDetails,
    ListingDetailsView, LISTING_COLUMNS,
};
use crate::search::{
    at_most, hits_of_rows, rank_hits, ranking, rows_fit_hits, SearchResult, SearchResultView,
};
use crate::statement::{Statement, StatementView};
use crate::value::{Row, SqlValue, SqlValueView};

verus! {

/// What the store handed back for a statement.
#[derive(Debug, PartialEq)]
pub enum Reply {
    /// The rows of the result set, in the order in which the store gave them.
    Rows(Vec<Row>),
    /// No connection could be had, or the store failed while answering.
    Unavailable,
}

/// What a `Reply` holds.
pub enum ReplyView {
    Rows(Seq<Seq<SqlValueView>>),
    Unavailable,
}

impl View for Reply {
    type V = ReplyView;

    open spec fn view(&self) -> ReplyView {
        match *self {
            Reply::Rows(rows) => ReplyView::Rows(rows.deep_view()),
            Reply::Unavailable => ReplyView::Unavailable,
        }
    }
}

/// The result of an operation that succeeded.
#[derive(Debug, PartialEq)]
pub enum Answer {
    /// The store has the layout that the catalog is read by.
    Ready,
    Listings(Vec<ListingDetails>),
    Listing(ListingDetails),
    Embedding(Vec<u32>),
    Similar(Vec<SearchResult>),
}

/// What an `Answer` holds.
pub enum AnswerView {
    Ready,
    Listings(Seq<ListingDetailsView>),
    Listing(ListingDetailsView),
    Embedding(Seq<u32>),
    Similar(Seq<SearchResultView>),
}

impl View for Answer {
    type V = AnswerView;

    open spec fn view(&self) -> AnswerView {
        match *self {
            Answer::Ready => AnswerView::Ready,
            Answer::Listings(listings) => AnswerView::Listings(listings.deep_view()),
            Answer::Listing(listing) => AnswerView::Listing(listing@),
            Answer::Embedding(words) => AnswerView::Embedding(words@),
            Answer::Similar(results) => AnswerView::Similar(results.deep_view()),
        }
    }
}

/// An operation that waits for the store's reply to its statement.
#[allow(inconsistent_fields)]
#[derive(Clone, Copy, Debug, PartialEq, Eq, Structural)]
pub enum Session {
    /// Waits for the names of the columns of the table of listings, before
    /// serving begins.
    Startup,
    /// Waits for up to `limit` listings.
    Listings { limit: i64 },
    /// Waits for the listing with this id.
    ListingById { id: i64 },
    /// Waits for a stored embedding of `dimension` values.
    Embedding { dimension: u32 },
    /// First stage of a search by listing: waits for the embedding of the
    /// reference listing.
    SimilarResolve { dimension: u32, limit: u64 },
    /// Last stage of a search: waits for the hits of the index.
    SimilarRank { limit: u64 },
}

/// One step of an operation.
#[derive(Debug, PartialEq)]
pub enum Progress {
    /// The caller is to run `statement` and to resume `session` with the reply.
    Ask { statement: Statement, session: Session },
    /// The operation has ended.
    Done(Result<Answer, StoreError>),
}

/// What a `Progress` holds.
pub enum ProgressView {
    Ask { statement: StatementView, session: Session },
    Done(Result<AnswerView, StoreError>),
}

impl View for Progress {
    type V = ProgressView;

    open spec fn view(&self) -> ProgressView {
        match *self {
            Progress::Ask { statement, session } => ProgressView::Ask {
                statement: statement@,
                session,
            },
            Progress::Done(Ok(answer)) => ProgressView::Done(Ok(answer@)),
            Progress::Done(Err(e)) => ProgressView::Done(Err(e)),
        }
    }
}

/// Whether the rows name the columns of the table of listings: one row for
/// each column, in the order of the columns, with the name in its first column.
pub open spec fn rows_name_listing_columns(rows: Seq<Seq<SqlValueView>>) -> bool {
    &&& rows.len() == LISTING_COLUMNS
    &&& forall|i: int|
        0 <= i < rows.len() ==> (#[trigger] rows[i]).len() > 0 && rows[i][0]
            == SqlValueView::Text(listing_column_name(i))
}

/// What a reply to `Statement::ListingColumns` means for the start of the
/// service: a table of another layout is fatal, since records would be read
/// from the wrong columns.
pub open spec fn startup_answer(rows: Seq<Seq<SqlValueView>>) -> Result<(), StoreError> {
    if rows_name_listing_columns(rows) {
        Ok(())
    } else {
        Err(StoreError::StartupFatal)
    }
}

/// The smaller of a limit and a number of rows; nothing for a limit that is
/// not positive.
pub open spec fn at_most_count(limit: int, available: nat) -> nat {
    if limit <= 0 {
        0
    } else if limit < available {
        limit as nat
    } else {
        available
    }
}

/// The listings that a reply to `Statement::Listings` stands for: the first
/// `limit` rows, each mapped to its record.
pub open spec fn listings_answer(rows: Seq<Seq<SqlValueView>>, limit: i64) -> Result<
    Seq<ListingDetailsView>,
    StoreError,
> {
    let count = at_most_count(limit as int, rows.len());
    if forall|i: int| 0 <= i < count ==> row_fits_listing(#[trigger] rows[i]) {
        Ok(Seq::new(count, |i: int| listing_of_row(rows[i])))
    } else {
        Err(StoreError::DataCorruption)
    }
}

/// The first row from `from` on that is the listing with this id. A row that
/// is no listing ends the search.
pub open spec fn find_listing(rows: Seq<Seq<SqlValueView>>, id: i64, from: int) -> Result<
    ListingDetailsView,
    StoreError,
>
    decreases rows.len() - from,
{
    if from < 0 || from >= rows.len() {
        Err(StoreError::NotFound)
    } else if !row_fits_listing(rows[from]) {
        Err(StoreError::DataCorruption)
    } else if listing_of_row(rows[from]).id == id {
        Ok(listing_of_row(rows[from]))
    } else {
        find_listing(rows, id, from + 1)
    }
}

/// The listing that a reply to `Statement::ListingById` stands for.
pub open spec fn listing_answer(rows: Seq<Seq<SqlValueView>>, id: i64) -> Result<
    ListingDetailsView,
    StoreError,
> {
    find_listing(rows, id, 0)
}

/// The vector that a reply to `Statement::Embedding` stands for: the blob in
/// the first column of the first row, decoded.
pub open spec fn embedding_answer(rows: Seq<Seq<SqlValueView>>, dimension: u32) -> Result<
    Seq<u32>,
    StoreError,
> {
    if rows.len() == 0 {
        Err(StoreError::NotFound)
    } else if rows[0].len() == 0 {
        Err(StoreError::DataCorruption)
    } else {
        match rows[0][0] {
            SqlValueView::Blob(blob) => decode_spec(blob, dimension),
            _ => Err(StoreError::DataCorruption),
        }
    }
}

/// The results that a reply to `Statement::Nearest` stands for: the hits in
/// ranked order, cut off at `limit`.
pub open spec fn similar_answer(rows: Seq<Seq<SqlValueView>>, limit: u64) -> Result<
    Seq<SearchResultView>,
    StoreError,
> {
    if rows_fit_hits(rows) {
        Ok(at_most(ranking(hits_of_rows(rows)), limit))
    } else {
        Err(StoreError::DataCorruption)
    }
}

/// The limit as the store takes it: a signed number, the largest one for any
/// limit beyond it.
pub open spec fn limit_parameter(limit: u64) -> i64 {
    if limit > i64::MAX {
        i64::MAX
    } else {
        limit as i64
    }
}

/// The step that opens a search for the `limit` listings closest to a vector.
pub open spec fn search_step(words: Seq<u32>, limit: u64) -> ProgressView {
    if limit == 0 {
        ProgressView::Done(Ok(AnswerView::Similar(Seq::empty())))
    } else {
        ProgressView::Ask {
            statement: StatementView::Nearest {
                embedding: encode_words(words),
                limit: limit_parameter(limit),
            },
            session: Session::SimilarRank { limit },
        }
    }
}

impl Session {
    /// The failure that a store which cannot answer means to the session:
    /// before serving begins it is fatal to the start.
    pub open spec fn unavailable(self) -> StoreError {
        if self is Startup {
            StoreError::StartupFatal
        } else {
            StoreError::StorageUnavailable
        }
    }

    /// The step that follows when the store's reply is `reply`.
    pub open spec fn next(self, reply: ReplyView) -> ProgressView {
        match reply {
            ReplyView::Unavailable => ProgressView::Done(Err(self.unavailable())),
            ReplyView::Rows(rows) => match self {
                Session::Startup => match startup_answer(rows) {
                    Ok(_) => ProgressView::Done(Ok(AnswerView::Ready)),
                    Err(e) => ProgressView::Done(Err(e)),
                },
                Session::Listings { limit } => match listings_answer(rows, limit) {
                    Ok(listings) => ProgressView::Done(Ok(AnswerView::Listings(listings))),
                    Err(e) => ProgressView::Done(Err(e)),
                },
                Session::ListingById { id } => match listing_answer(rows, id) {
                    Ok(listing) => ProgressView::Done(Ok(AnswerView::Listing(listing))),
                    Err(e) => ProgressView::Done(Err(e)),
                },
                Session::Embedding { dimension } => match embedding_answer(rows, dimension) {
                    Ok(words) => ProgressView::Done(Ok(AnswerView::Embedding(words))),
                    Err(e) => ProgressView::Done(Err(e)),
                },
                Session::SimilarResolve { dimension, limit } => match embedding_answer(
                    rows,
                    dimension,
                ) {
                    Ok(words) => search_step(words, limit),
                    Err(e) => ProgressView::Done(Err(e)),
                },
                Session::SimilarRank { limit } => match similar_answer(rows, limit) {
                    Ok(results) => ProgressView::Done(Ok(AnswerView::Similar(results))),
                    Err(e) => ProgressView::Done(Err(e)),
                },
            },
        }
    }

    /// Takes the store's reply and gives the next step of the operation.
    pub fn resume(self, reply: Reply) -> (progress: Progress)
        ensures
            progress@ == self.next(reply@),
    {
        let rows = match reply {
            Reply::Unavailable => {
                return match self {
                    Session::Startup => Progress::Done(Err(StoreError::StartupFatal)),
                    _ => Progress::Done(Err(StoreError::StorageUnavailable)),
                };
            },
            Reply::Rows(rows) => rows,
        };
        match self {
            Session::Startup => match startup_from_rows(&rows) {
                Ok(_) => Progress::Done(Ok(Answer::Ready)),
                Err(e) => Progress::Done(Err(e)),
            },
            Session::Listings { limit } => match listings_from_rows(&rows, limit) {
                Ok(listings) => Progress::Done(Ok(Answer::Listings(listings))),
                Err(e) => Progress::Done(Err(e)),
            },
            Session::ListingById { id } => match listing_from_rows(&rows, id) {
                Ok(listing) => Progress::Done(Ok(Answer::Listing(listing))),
                Err(e) => Progress::Done(Err(e)),
            },
            Session::Embedding { dimension } => match embedding_from_rows(&rows, dimension) {
                Ok(words) => Progress::Done(Ok(Answer::Embedding(words))),
                Err(e) => Progress::Done(Err(e)),
            },
            Session::SimilarResolve { dimension, limit } => match embedding_from_rows(
                &rows,
                dimension,
            ) {
                Ok(words) => begin_search(&words, limit),
                Err(e) => Progress::Done(Err(e)),
            },
            Session::SimilarRank { limit } => match rank_hits(&rows, limit) {
                Ok(results) => Progress::Done(Ok(Answer::Similar(results))),
                Err(e) => Progress::Done(Err(e)),
            },
        }
    }
}

/// Opens a search for the `limit` listings closest to a vector. With a limit
/// of zero there is nothing to ask the index for.
pub fn begin_search(words: &Vec<u32>, limit: u64) -> (progress: Progress)
    ensures
        progress@ == search_step(words@, limit),
{
    if limit == 0 {
        let none: Vec<SearchResult> = Vec::new();
        assert(none.deep_view() =~= Seq::empty());
        Progress::Done(Ok(Answer::Similar(none)))
    } else {
        let bound: i64 = if limit > i64::MAX as u64 {
            i64::MAX
        } else {
            limit as i64
        };
        Progress::Ask {
            statement: Statement::Nearest { embedding: encode_embedding(words), limit: bound },
            session: Session::SimilarRank { limit },
        }
    }
}

/// Reads the reply to the question for the columns of the table of listings.
///
/// The table must have the thirteen columns of a listing under their names and
/// in their order. Anything else is fatal to the start of the service.
pub fn startup_from_rows(rows: &Vec<Row>) -> (answer: Result<(), StoreError>)
    ensures
        answer == startup_answer(rows.deep_view()),
{
    let ghost all = rows.deep_view();
    if rows.len() != LISTING_COLUMNS {
        return Err(StoreError::StartupFatal);
    }
    let mut i: usize = 0;
    while i < LISTING_COLUMNS
        invariant
            all == rows.deep_view(),
            rows@.len() == LISTING_COLUMNS,
            i <= LISTING_COLUMNS,
            forall|k: int|
                0 <= k < i ==> (#[trigger] all[k]).len() > 0 && all[k][0] == SqlValueView::Text(
                    listing_column_name(k),
                ),
        decreases LISTING_COLUMNS - i,
    {
        let row = &rows[i];
        assert(all[i as int] == row.deep_view());
        if row.len() == 0 {
            return Err(StoreError::StartupFatal);
        }
        assert(row.deep_view()[0] == row@[0]@);
        let expected = String::from_str(listing_column(i));
        let named = match &row[0] {
            SqlValue::Text(name) => *name == expected,
            _ => false,
        };
        if !named {
            return Err(StoreError::StartupFatal);
        }
        i = i + 1;
    }
    Ok(())
}

/// Reads the reply to a request for up to `limit` listings.
///
/// Rows beyond the limit are not read. A row among the first `limit` that is
/// no listing makes the whole answer corrupt.
pub fn listings_from_rows(rows: &Vec<Row>, limit: i64) -> (answer: Result<
    Vec<ListingDetails>,
    StoreError,
>)
    ensures
        match listings_answer(rows.deep_view(), limit) {
            Ok(listings) => answer matches Ok(found) && found.deep_view() == listings,
            Err(e) => answer matches Err(failure) && failure == e,
        },
{
    let ghost all = rows.deep_view();
    let mut found: Vec<ListingDetails> = Vec::new();
    let count: usize = if limit <= 0 {
        0
    } else if (limit as u64) < rows.len() as u64 {
        limit as usize
    } else {
        rows.len()
    };
    let mut i: usize = 0;
    while i < count
        invariant
            all == rows.deep_view(),
            count == at_most_count(limit as int, rows@.len()),
            i <= count <= rows@.len(),
            found@.len() == i,
            forall|k: int| 0 <= k < i ==> row_fits_listing(#[trigger] all[k]),
            forall|k: int| 0 <= k < i ==> found@[k]@ == listing_of_row(all[k]),
        decreases count - i,
    {
        assert(all[i as int] == rows@[i as int].deep_view());
        match Database::map_row_to_listing(&rows[i]) {
            Ok(listing) => {
                found.push(listing);
            },
            Err(e) => {
                assert(!row_fits_listing(all[i as int]));
                return Err(e);
            },
        }
        i = i + 1;
    }
    assert(found.deep_view() =~= Seq::new(count as nat, |k: int| listing_of_row(all[k])));
    Ok(found)
}

/// Reads the reply to a request for the listing with this id.
///
/// The result is the first row that is this listing. Rows are read in order; a
/// row before it that is no listing makes the answer corrupt. If the rows run
/// out, the listing does not exist.
pub fn listing_from_rows(rows: &Vec<Row>, id: i64) -> (answer: Result<ListingDetails, StoreError>)
    ensures
        match listing_answer(rows.deep_view(), id) {
            Ok(listing) => answer matches Ok(found) && found@ == listing,
            Err(e) => answer matches Err(failure) && failure == e,
        },
{
    let ghost all = rows.deep_view();
    let mut i: usize = 0;
    while i < rows.len()
        invariant
            all == rows.deep_view(),
            i <= rows@.len(),
            find_listing(all, id, 0) == find_listing(all, id, i as int),
        decreases rows@.len() - i,
    {
        assert(all[i as int] == rows@[i as int].deep_view());
        match Database::map_row_to_listing(&rows[i]) {
            Ok(listing) => {
                if listing.id == id {
                    return Ok(listing);
                }
            },
            Err(e) => {
                return Err(e);
            },
        }
        i = i + 1;
    }
    Err(StoreError::NotFound)
}

/// Reads the reply to a request for a stored embedding of `dimension` values.
///
/// No row means that the listing has no embedding. The first row must hold the
/// blob in its first column, and the blob must have the length of `dimension`
/// values; otherwise what is stored is corrupt.
pub fn embedding_from_rows(rows: &Vec<Row>, dimension: u32) -> (answer: Result<
    Vec<u32>,
    StoreError,
>)
    ensures
        match embedding_answer(rows.deep_view(), dimension) {
            Ok(words) => answer matches Ok(found) && found@ == words,
            Err(e) => answer matches Err(failure) && failure == e,
        },
{
    if rows.len() == 0 {
        return Err(StoreError::NotFound);
    }
    let row = &rows[0];
    assert(rows.deep_view()[0] == row.deep_view());
    if row.len() == 0 {
        return Err(StoreError::DataCorruption);
    }
    assert(row.deep_view()[0] == row@[0]@);
    match &row[0] {
        SqlValue::Blob(blob) => decode_embedding(blob, dimension),
        _ => Err(StoreError::DataCorruption),
    }
}

} // verus!
