//! The catalog and the operations on it.
//!
//! Every operation starts with a step: a statement for the store, or at once
//! the result where the store has nothing to add. The steps that follow are
//! those of the `session` module.

use vstd::prelude::*;
use crate::embedding::EMBEDDING_DIMENSION;
use crate::error::StoreError;
use crate::listing::ListingDetails;
use crate::session::{
    begin_search, search_step, Answer, AnswerView, Progress, ProgressView, Session,
};
use crate::statement::{Statement, StatementView};

verus! {

/// Where a catalog is kept.
#[derive(Clone, Debug, PartialEq)]
pub enum Target {
    /// In the file at this path.
    File(String),
    /// In memory, for as long as the process runs.
    Memory,
}

/// Connections that the pool keeps for each hardware thread where no size was
/// asked for.
pub const CONNECTIONS_PER_THREAD: u32 = 2;

/// The size of the pool where none was asked for: a small multiple of the
/// hardware threads, at least one connection, and no more than the type holds.
pub open spec fn default_pool_size(threads: u32) -> u32 {
    if threads == 0 {
        CONNECTIONS_PER_THREAD
    } else if threads * CONNECTIONS_PER_THREAD > u32::MAX {
        u32::MAX
    } else {
        (threads * CONNECTIONS_PER_THREAD) as u32
    }
}

/// The size of the pool of connections, given the size that was asked for, if
/// any, and the number of hardware threads.
pub open spec fn pool_size_spec(requested: Option<u32>, threads: u32) -> Result<u32, StoreError> {
    match requested {
        Some(size) => if size == 0 {
            Err(StoreError::InvalidArgument)
        } else {
            Ok(size)
        },
        None => Ok(default_pool_size(threads)),
    }
}

/// Decides how many connections the pool keeps. A pool is never empty: a size
/// of zero is refused.
pub fn pool_size(requested: Option<u32>, threads: u32) -> (size: Result<u32, StoreError>)
    ensures
        size == pool_size_spec(requested, threads),
        size matches Ok(connections) ==> connections >= 1,
{
    match requested {
        Some(size) => if size == 0 {
            Err(StoreError::InvalidArgument)
        } else {
            Ok(size)
        },
        None => if threads == 0 {
            Ok(CONNECTIONS_PER_THREAD)
        } else if threads > u32::MAX / CONNECTIONS_PER_THREAD {
            Ok(u32::MAX)
        } else {
            Ok(threads * CONNECTIONS_PER_THREAD)
        },
    }
}

/// A catalog of listings with their embeddings.
#[derive(Clone, Debug, PartialEq)]
pub struct Database {
    /// Where the catalog is kept.
    pub target: Target,
    /// Number of values in every embedding of this catalog.
    pub dimension: u32,
}

impl Database {
    /// The catalog in the file at `path`.
    pub fn in_file(path: &str) -> (database: Database)
        ensures
            database.target matches Target::File(kept) && kept@ == path@,
            database.dimension == EMBEDDING_DIMENSION,
    {
        Database { target: Target::File(path.to_owned()), dimension: EMBEDDING_DIMENSION }
    }

    /// A catalog that is kept in memory.
    pub fn in_memory() -> (database: Database)
        ensures
            database.target is Memory,
            database.dimension == EMBEDDING_DIMENSION,
    {
        Database { target: Target::Memory, dimension: EMBEDDING_DIMENSION }
    }

    /// The first step of `startup`.
    pub open spec fn startup_step() -> ProgressView {
        ProgressView::Ask { statement: StatementView::ListingColumns, session: Session::Startup }
    }

    /// The first step of `get_listings`.
    pub open spec fn listings_step(limit: i64) -> ProgressView {
        if limit <= 0 {
            ProgressView::Done(Ok(AnswerView::Listings(Seq::empty())))
        } else {
            ProgressView::Ask {
                statement: StatementView::Listings { limit },
                session: Session::Listings { limit },
            }
        }
    }

    /// The first step of `get_listing_by_id`.
    pub open spec fn listing_step(id: u64) -> ProgressView {
        if id > i64::MAX {
            ProgressView::Done(Err(StoreError::NotFound))
        } else {
            ProgressView::Ask {
                statement: StatementView::ListingById { id: id as i64 },
                session: Session::ListingById { id: id as i64 },
            }
        }
    }

    /// The first step of `get_embedding`.
    pub open spec fn embedding_step(self, id: i64) -> ProgressView {
        ProgressView::Ask {
            statement: StatementView::Embedding { listing_id: id },
            session: Session::Embedding { dimension: self.dimension },
        }
    }

    /// The first step of `get_similar_to_listing`.
    pub open spec fn similar_to_listing_step(self, id: u64, limit: u64) -> ProgressView {
        if id > i64::MAX {
            ProgressView::Done(Err(StoreError::NotFound))
        } else {
            ProgressView::Ask {
                statement: StatementView::Embedding { listing_id: id as i64 },
                session: Session::SimilarResolve { dimension: self.dimension, limit },
            }
        }
    }

    /// The first step of `get_similar_to_embedding`.
    pub open spec fn similar_to_embedding_step(self, embedding: Seq<u32>, limit: u64)
        -> ProgressView {
        if embedding.len() != self.dimension {
            ProgressView::Done(Err(StoreError::InvalidArgument))
        } else {
            search_step(embedding, limit)
        }
    }

    /// Checks, before serving begins, that the store has the layout by which
    /// the catalog is read.
    pub fn startup(&self) -> (progress: Progress)
        ensures
            progress@ == Database::startup_step(),
    {
        Progress::Ask { statement: Statement::ListingColumns, session: Session::Startup }
    }

    /// Up to `limit` listings, in the store's own order.
    ///
    /// A limit that is not positive yields no listing, and the store is not
    /// asked.
    pub fn get_listings(&self, limit: i64) -> (progress: Progress)
        ensures
            progress@ == Database::listings_step(limit),
    {
        if limit <= 0 {
            let none: Vec<ListingDetails> = Vec::new();
            assert(none.deep_view() =~= Seq::empty());
            Progress::Done(Ok(Answer::Listings(none)))
        } else {
            Progress::Ask {
                statement: Statement::Listings { limit },
                session: Session::Listings { limit },
            }
        }
    }

    /// The listing with this id.
    ///
    /// Ids of listings are signed; an id beyond their range belongs to no
    /// listing, and the store is not asked.
    pub fn get_listing_by_id(&self, id: u64) -> (progress: Progress)
        ensures
            progress@ == Database::listing_step(id),
    {
        if id > i64::MAX as u64 {
            Progress::Done(Err(StoreError::NotFound))
        } else {
            Progress::Ask {
                statement: Statement::ListingById { id: id as i64 },
                session: Session::ListingById { id: id as i64 },
            }
        }
    }

    /// The embedding of the listing with this id, as the bit patterns of its
    /// values.
    pub fn get_embedding(&self, id: i64) -> (progress: Progress)
        ensures
            progress@ == self.embedding_step(id),
    {
        Progress::Ask {
            statement: Statement::Embedding { listing_id: id },
            session: Session::Embedding { dimension: self.dimension },
        }
    }

    /// The `limit` listings most similar to the listing with this id.
    ///
    /// The embedding of the reference listing is resolved first; the index is
    /// then asked for the entries closest to it. The reference listing is not
    /// left out of the results.
    pub fn get_similar_to_listing(&self, id: u64, limit: u64) -> (progress: Progress)
        ensures
            progress@ == self.similar_to_listing_step(id, limit),
    {
        if id > i64::MAX as u64 {
            Progress::Done(Err(StoreError::NotFound))
        } else {
            Progress::Ask {
                statement: Statement::Embedding { listing_id: id as i64 },
                session: Session::SimilarResolve { dimension: self.dimension, limit },
            }
        }
    }

    /// The `limit` listings most similar to a vector, given by the bit patterns
    /// of its values.
    ///
    /// A vector of another dimension than the catalog's is refused.
    pub fn get_similar_to_embedding(&self, embedding: &Vec<u32>, limit: u64) -> (progress: Progress)
        ensures
            progress@ == self.similar_to_embedding_step(embedding@, limit),
    {
        if embedding.len() as u64 != self.dimension as u64 {
            Progress::Done(Err(StoreError::InvalidArgument))
        } else {
            begin_search(embedding, limit)
        }
    }
}

} // verus!
