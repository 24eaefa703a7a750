//! The statements that are put to the store.
//!
//! A statement is a fixed text with numbered parameters and the values bound to
//! them. The texts name the tables of the catalog: `listings`, `embeddings` and
//! the vector index `embeddings_index`, whose entries are keyed by the row of
//! the embedding that they index.

use vstd::prelude::*;
use crate::value::{SqlValue, SqlValueView};

verus! {

/// A question to the store, with the values of its parameters.
#[derive(Debug, PartialEq)]
pub enum Statement {
    /// The names of the columns of the table of listings, in their order.
    ListingColumns,
    /// The first `limit` listings, in the store's own order.
    Listings { limit: i64 },
    /// The listing with this id.
    ListingById { id: i64 },
    /// The stored embedding of the listing with this id.
    Embedding { listing_id: i64 },
    /// The `limit` listings whose embeddings are closest to `embedding`, each
    /// followed by its distance.
    Nearest { embedding: Vec<u8>, limit: i64 },
}

/// What a `Statement` holds, with the blob as a sequence of bytes.
pub enum StatementView {
    ListingColumns,
    Listings { limit: i64 },
    ListingById { id: i64 },
    Embedding { listing_id: i64 },
    Nearest { embedding: Seq<u8>, limit: i64 },
}

impl View for Statement {
    type V = StatementView;

    open spec fn view(&self) -> StatementView {
        match *self {
            Statement::ListingColumns => StatementView::ListingColumns,
            Statement::Listings { limit } => StatementView::Listings { limit },
            Statement::ListingById { id } => StatementView::ListingById { id },
            Statement::Embedding { listing_id } => StatementView::Embedding { listing_id },
            Statement::Nearest { embedding, limit } => StatementView::Nearest {
                embedding: embedding@,
                limit,
            },
        }
    }
}

impl DeepView for Statement {
    type V = StatementView;

    open spec fn deep_view(&self) -> StatementView {
        self.view()
    }
}

impl StatementView {
    /// The text of the statement.
    pub open spec fn sql(self) -> Seq<char> {
        match self {
            StatementView::ListingColumns =>
                "SELECT name FROM pragma_table_info('listings') ORDER BY cid"@,
            StatementView::Listings { .. } => "SELECT * FROM listings LIMIT ?1"@,
            StatementView::ListingById { .. } => "SELECT * FROM listings WHERE id = ?1"@,
            StatementView::Embedding { .. } =>
                "SELECT embedding FROM embeddings WHERE listing_id = ?1"@,
            StatementView::Nearest { .. } =>
                "WITH search_results AS ( \
                 SELECT listing_id, distance FROM embeddings_index \
                 WHERE embedding MATCH ?1 ORDER BY distance LIMIT ?2 \
                 ) SELECT l.*, sr.distance FROM search_results sr, embeddings e, listings l \
                 WHERE sr.listing_id == e.rowid AND e.listing_id == l.id"@,
        }
    }

    /// The values bound to the parameters, the first parameter first.
    pub open spec fn parameters(self) -> Seq<SqlValueView> {
        match self {
            StatementView::ListingColumns => Seq::empty(),
            StatementView::Listings { limit } => seq![SqlValueView::Integer(limit)],
            StatementView::ListingById { id } => seq![SqlValueView::Integer(id)],
            StatementView::Embedding { listing_id } => seq![SqlValueView::Integer(listing_id)],
            StatementView::Nearest { embedding, limit } => seq![
                SqlValueView::Blob(embedding),
                SqlValueView::Integer(limit),
            ],
        }
    }
}

impl Statement {
    /// The text of the statement.
    pub fn sql(&self) -> (text: &'static str)
        ensures
            text@ == self@.sql(),
    {
        match self {
            Statement::ListingColumns =>
                "SELECT name FROM pragma_table_info('listings') ORDER BY cid",
            Statement::Listings { .. } => "SELECT * FROM listings LIMIT ?1",
            Statement::ListingById { .. } => "SELECT * FROM listings WHERE id = ?1",
            Statement::Embedding { .. } => "SELECT embedding FROM embeddings WHERE listing_id = ?1",
            Statement::Nearest { .. } =>
                "WITH search_results AS ( \
                 SELECT listing_id, distance FROM embeddings_index \
                 WHERE embedding MATCH ?1 ORDER BY distance LIMIT ?2 \
                 ) SELECT l.*, sr.distance FROM search_results sr, embeddings e, listings l \
                 WHERE sr.listing_id == e.rowid AND e.listing_id == l.id",
        }
    }

    /// The values bound to the parameters, the first parameter first.
    pub fn into_parameters(self) -> (values: Vec<SqlValue>)
        ensures
            values.deep_view() == self@.parameters(),
    {
        let mut values: Vec<SqlValue> = Vec::new();
        match self {
            Statement::ListingColumns => {},
            Statement::Listings { limit } => {
                values.push(SqlValue::Integer(limit));
            },
            Statement::ListingById { id } => {
                values.push(SqlValue::Integer(id));
            },
            Statement::Embedding { listing_id } => {
                values.push(SqlValue::Integer(listing_id));
            },
            Statement::Nearest { embedding, limit } => {
                values.push(SqlValue::Blob(embedding));
                values.push(SqlValue::Integer(limit));
            },
        }
        assert(values.deep_view() =~= self@.parameters());
        values
    }
}

} // verus!
