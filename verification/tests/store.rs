use bnb_sim::db::Database;
use bnb_sim::embedding::decode_embedding;
use bnb_sim::error::StoreError;
use bnb_sim::listing::{ListingDetails, Number};
use bnb_sim::search::SearchResult;
use bnb_sim::session::{Answer, Progress, Reply};
use bnb_sim::statement::Statement;
use bnb_sim::value::{Real, SqlValue};
use rusqlite::functions::FunctionFlags;
use rusqlite::types::{Value, ValueRef};
use rusqlite::{params_from_iter, Connection};

const DIMENSION: usize = 768;

fn vector_of(id: i64) -> Vec<f32> {
    let mut state = (id as u32).wrapping_mul(2_654_435_761).wrapping_add(12345);
    let mut values = Vec::with_capacity(DIMENSION);
    for _ in 0..DIMENSION {
        state = state.wrapping_mul(1_664_525).wrapping_add(1_013_904_223);
        values.push((state >> 8) as f32 / 16_777_216.0 - 0.5);
    }
    values
}

fn blob_of(values: &[f32]) -> Vec<u8> {
    let mut blob = Vec::with_capacity(4 * values.len());
    for v in values {
        blob.extend_from_slice(&v.to_le_bytes());
    }
    blob
}

fn floats_of(blob: &[u8]) -> Vec<f32> {
    blob.chunks_exact(4).map(|c| f32::from_le_bytes([c[0], c[1], c[2], c[3]])).collect()
}

fn cosine_distance(a: &[f32], b: &[f32]) -> f64 {
    let mut dot = 0.0f64;
    let mut aa = 0.0f64;
    let mut bb = 0.0f64;
    for (x, y) in a.iter().zip(b) {
        dot += *x as f64 * *y as f64;
        aa += *x as f64 * *x as f64;
        bb += *y as f64 * *y as f64;
    }
    1.0 - dot / (aa.sqrt() * bb.sqrt())
}

fn catalog_ids(count: usize) -> Vec<i64> {
    let mut ids = vec![2595, 12937];
    let mut k = 0;
    while ids.len() < count {
        ids.push(1000 + 61 * k);
        k += 1;
    }
    ids.truncate(count);
    ids
}

fn empty_catalog() -> Connection {
    let conn = Connection::open_in_memory().unwrap();
    conn.execute_batch(
        "CREATE TABLE listings (id INTEGER PRIMARY KEY, name TEXT, description TEXT, \
         neighborhood_overview TEXT, neighbourhood_cleansed TEXT, property_type TEXT, \
         room_type TEXT, accommodates INTEGER, bathrooms_text TEXT, bedrooms REAL, beds REAL, \
         amenities TEXT, price TEXT); \
         CREATE TABLE embeddings (listing_id INTEGER, embedding BLOB); \
         CREATE TABLE embeddings_index (listing_id INTEGER PRIMARY KEY, embedding BLOB, \
         distance REAL);",
    )
    .unwrap();
    conn.create_scalar_function(
        "match",
        2,
        FunctionFlags::SQLITE_UTF8 | FunctionFlags::SQLITE_DETERMINISTIC,
        |_| Ok(true),
    )
    .unwrap();
    conn
}

fn add_listing(conn: &Connection, id: i64) {
    conn.execute(
        "INSERT INTO listings VALUES (?1, ?2, ?3, NULL, 'Midtown', 'Entire rental unit', \
         'Entire home/apt', ?4, '1 bath', ?5, ?6, '[]', '$200.00')",
        (id, format!("listing {id}"), format!("description of {id}"), id % 5 + 1, 1.5f64, id % 3),
    )
    .unwrap();
}

fn add_embedding(conn: &Connection, id: i64, blob: Vec<u8>) {
    conn.execute("INSERT INTO embeddings (listing_id, embedding) VALUES (?1, ?2)", (id, blob))
        .unwrap();
    conn.execute(
        "INSERT INTO embeddings_index (listing_id, embedding) \
         SELECT rowid, embedding FROM embeddings WHERE listing_id = ?1",
        [id],
    )
    .unwrap();
}

fn catalog(count: usize) -> Connection {
    let conn = empty_catalog();
    for id in catalog_ids(count) {
        add_listing(&conn, id);
        add_embedding(&conn, id, blob_of(&vector_of(id)));
    }
    conn
}

fn to_store(value: SqlValue) -> Value {
    match value {
        SqlValue::Null => Value::Null,
        SqlValue::Integer(i) => Value::Integer(i),
        SqlValue::Real(r) => Value::Real(f64::from_bits(r.bits)),
        SqlValue::Text(s) => Value::Text(s),
        SqlValue::Blob(b) => Value::Blob(b),
    }
}

/// A column as the library takes it. Text that is not valid UTF-8 is handed
/// on as the bytes that it is.
fn from_store(value: ValueRef<'_>) -> SqlValue {
    match value {
        ValueRef::Null => SqlValue::Null,
        ValueRef::Integer(i) => SqlValue::Integer(i),
        ValueRef::Real(f) => SqlValue::Real(Real { bits: f.to_bits() }),
        ValueRef::Text(bytes) => match std::str::from_utf8(bytes) {
            Ok(text) => SqlValue::Text(text.to_string()),
            Err(_) => SqlValue::Blob(bytes.to_vec()),
        },
        ValueRef::Blob(bytes) => SqlValue::Blob(bytes.to_vec()),
    }
}

fn measure_distances(conn: &Connection, query: &[u8]) {
    let query = floats_of(query);
    let mut entries = conn.prepare("SELECT listing_id, embedding FROM embeddings_index").unwrap();
    let mut rows = entries.query([]).unwrap();
    let mut distances = Vec::new();
    while let Some(row) = rows.next().unwrap() {
        let key: i64 = row.get(0).unwrap();
        let blob: Vec<u8> = row.get(1).unwrap();
        distances.push((key, cosine_distance(&query, &floats_of(&blob))));
    }
    for (key, distance) in distances {
        conn.execute(
            "UPDATE embeddings_index SET distance = ?2 WHERE listing_id = ?1",
            (key, distance),
        )
        .unwrap();
    }
}

fn ask(conn: &Connection, statement: Statement) -> Reply {
    if let Statement::Nearest { embedding, .. } = &statement {
        measure_distances(conn, embedding);
    }
    let mut prepared = match conn.prepare(statement.sql()) {
        Ok(prepared) => prepared,
        Err(_) => return Reply::Unavailable,
    };
    let columns = prepared.column_count();
    let values: Vec<Value> = statement.into_parameters().into_iter().map(to_store).collect();
    let mut rows = match prepared.query(params_from_iter(values)) {
        Ok(rows) => rows,
        Err(_) => return Reply::Unavailable,
    };
    let mut found = Vec::new();
    loop {
        match rows.next() {
            Ok(Some(row)) => {
                let mut columns_of_row = Vec::with_capacity(columns);
                for i in 0..columns {
                    match row.get_ref(i) {
                        Ok(value) => columns_of_row.push(from_store(value)),
                        Err(_) => return Reply::Unavailable,
                    }
                }
                found.push(columns_of_row);
            },
            Ok(None) => return Reply::Rows(found),
            Err(_) => return Reply::Unavailable,
        }
    }
}

fn run(conn: &Connection, first: Progress) -> Result<Answer, StoreError> {
    let mut progress = first;
    loop {
        match progress {
            Progress::Ask { statement, session } => {
                progress = session.resume(ask(conn, statement));
            },
            Progress::Done(result) => return result,
        }
    }
}

fn get_listings(conn: &Connection, limit: i64) -> Result<Vec<ListingDetails>, StoreError> {
    match run(conn, Database::in_memory().get_listings(limit))? {
        Answer::Listings(listings) => Ok(listings),
        other => panic!("unexpected answer {other:?}"),
    }
}

fn get_listing_by_id(conn: &Connection, id: u64) -> Result<ListingDetails, StoreError> {
    match run(conn, Database::in_memory().get_listing_by_id(id))? {
        Answer::Listing(listing) => Ok(listing),
        other => panic!("unexpected answer {other:?}"),
    }
}

fn get_embedding(conn: &Connection, id: i64) -> Result<Vec<u32>, StoreError> {
    match run(conn, Database::in_memory().get_embedding(id))? {
        Answer::Embedding(words) => Ok(words),
        other => panic!("unexpected answer {other:?}"),
    }
}

fn get_similar_to_listing(
    conn: &Connection,
    id: u64,
    limit: u64,
) -> Result<Vec<SearchResult>, StoreError> {
    match run(conn, Database::in_memory().get_similar_to_listing(id, limit))? {
        Answer::Similar(results) => Ok(results),
        other => panic!("unexpected answer {other:?}"),
    }
}

fn get_similar_to_embedding(
    conn: &Connection,
    embedding: &Vec<u32>,
    limit: u64,
) -> Result<Vec<SearchResult>, StoreError> {
    match run(conn, Database::in_memory().get_similar_to_embedding(embedding, limit))? {
        Answer::Similar(results) => Ok(results),
        other => panic!("unexpected answer {other:?}"),
    }
}

fn score(result: &SearchResult) -> f64 {
    1.0 - f64::from_bits(result.distance.bits)
}

#[test]
fn test_get_listing() {
    let conn = catalog(200);
    let listing = get_listings(&conn, 100).unwrap();
    assert_eq!(listing.len(), 100);
}

#[test]
fn test_get_listing_by_id() {
    let conn = catalog(200);
    let listing = get_listing_by_id(&conn, 2595).unwrap();
    assert_eq!(listing.id, 2595);
}

#[test]
fn test_get_embedding() {
    let conn = catalog(200);
    let embedding = get_embedding(&conn, 2595).unwrap();
    let listings = get_similar_to_embedding(&conn, &embedding, 10).unwrap();
    for l in listings {
        println!("{:?} -> {:?}", score(&l), l.listing_details.name);
    }
}

#[test]
fn test_get_similar_to_listing() {
    let conn = catalog(200);
    let listing = get_similar_to_listing(&conn, 12937, 123).unwrap();
    assert_eq!(listing.len(), 123);
}

#[test]
fn stored_embedding_comes_back_bit_for_bit() {
    let conn = catalog(5);
    let embedding = get_embedding(&conn, 2595).unwrap();
    assert_eq!(embedding.len(), DIMENSION);
    let expected: Vec<u32> = vector_of(2595).iter().map(|v| v.to_bits()).collect();
    assert_eq!(embedding, expected);
}

#[test]
fn own_embedding_is_the_closest() {
    let conn = catalog(200);
    let embedding = get_embedding(&conn, 2595).unwrap();
    let results = get_similar_to_embedding(&conn, &embedding, 10).unwrap();
    assert_eq!(results.len(), 10);
    assert_eq!(results[0].listing_details.id, 2595);
    assert!((score(&results[0]) - 1.0).abs() < 1e-6);
    assert!(f64::from_bits(results[0].distance.bits).abs() < 1e-6);
    for pair in results.windows(2) {
        assert!(score(&pair[0]) >= score(&pair[1]));
    }
}

#[test]
fn similar_to_listing_puts_the_listing_first() {
    let conn = catalog(50);
    let results = get_similar_to_listing(&conn, 12937, 5).unwrap();
    assert_eq!(results.len(), 5);
    assert_eq!(results[0].listing_details.id, 12937);
    assert_eq!(results[0].listing_details.name, Some("listing 12937".to_string()));
    for pair in results.windows(2) {
        assert!(score(&pair[0]) >= score(&pair[1]));
    }
}

#[test]
fn similar_results_are_as_many_as_indexed_when_fewer_than_the_limit() {
    let conn = catalog(7);
    assert_eq!(get_similar_to_listing(&conn, 2595, 123).unwrap().len(), 7);
    assert_eq!(get_similar_to_listing(&conn, 2595, 7).unwrap().len(), 7);
    assert_eq!(get_similar_to_listing(&conn, 2595, 6).unwrap().len(), 6);
    assert_eq!(get_similar_to_listing(&conn, 2595, 1).unwrap().len(), 1);
    assert_eq!(get_similar_to_listing(&conn, 2595, 0).unwrap().len(), 0);
}

#[test]
fn repeated_searches_give_the_same_results() {
    let conn = catalog(40);
    let first = get_similar_to_listing(&conn, 2595, 20).unwrap();
    let other = get_similar_to_listing(&conn, 12937, 20).unwrap();
    let again = get_similar_to_listing(&conn, 2595, 20).unwrap();
    assert_eq!(first, again);
    assert_eq!(first[0].listing_details.id, 2595);
    assert_eq!(other[0].listing_details.id, 12937);
}

#[test]
fn get_listings_returns_what_the_catalog_has() {
    let conn = catalog(30);
    assert_eq!(get_listings(&conn, 100).unwrap().len(), 30);
    assert_eq!(get_listings(&conn, 30).unwrap().len(), 30);
    assert_eq!(get_listings(&conn, 29).unwrap().len(), 29);
    assert_eq!(get_listings(&conn, 0).unwrap().len(), 0);
    assert_eq!(get_listings(&conn, -1).unwrap().len(), 0);
    assert_eq!(get_listings(&empty_catalog(), 100).unwrap().len(), 0);
}

#[test]
fn listing_columns_arrive_in_their_fields() {
    let conn = catalog(3);
    let listing = get_listing_by_id(&conn, 12937).unwrap();
    assert_eq!(
        listing,
        ListingDetails {
            id: 12937,
            name: Some("listing 12937".to_string()),
            description: Some("description of 12937".to_string()),
            neighborhood_overview: None,
            neighbourhood_cleansed: Some("Midtown".to_string()),
            property_type: Some("Entire rental unit".to_string()),
            room_type: Some("Entire home/apt".to_string()),
            accommodates: Some(3),
            bathrooms_text: Some("1 bath".to_string()),
            bedrooms: Some(Number::Real(Real { bits: 1.5f64.to_bits() })),
            beds: Some(Number::Real(Real { bits: 1.0f64.to_bits() })),
            amenities: Some("[]".to_string()),
            price: Some("$200.00".to_string()),
        }
    );
}

#[test]
fn every_listing_of_the_catalog_is_found_by_its_id() {
    let conn = catalog(60);
    for id in catalog_ids(60) {
        assert_eq!(get_listing_by_id(&conn, id as u64).unwrap().id, id);
    }
}

#[test]
fn listing_that_does_not_exist_is_not_found() {
    let conn = catalog(10);
    assert_eq!(get_listing_by_id(&conn, 0), Err(StoreError::NotFound));
    assert_eq!(get_listing_by_id(&conn, 2596), Err(StoreError::NotFound));
    assert_eq!(get_listing_by_id(&conn, u64::MAX), Err(StoreError::NotFound));
    assert_eq!(get_listing_by_id(&empty_catalog(), 2595), Err(StoreError::NotFound));
}

#[test]
fn listing_without_embedding_is_not_found() {
    let conn = catalog(10);
    add_listing(&conn, 77);
    assert_eq!(get_listing_by_id(&conn, 77).unwrap().id, 77);
    assert_eq!(get_embedding(&conn, 77), Err(StoreError::NotFound));
    assert_eq!(get_similar_to_listing(&conn, 77, 5), Err(StoreError::NotFound));
    assert_eq!(get_similar_to_listing(&conn, 0, 5), Err(StoreError::NotFound));
}

#[test]
fn stored_blob_of_a_wrong_length_is_corruption() {
    let conn = empty_catalog();
    add_listing(&conn, 1);
    add_listing(&conn, 2);
    add_listing(&conn, 3);
    conn.execute("INSERT INTO embeddings VALUES (1, ?1)", [vec![0u8; 4 * DIMENSION + 1]]).unwrap();
    conn.execute("INSERT INTO embeddings VALUES (2, ?1)", [vec![0u8; 4 * DIMENSION - 4]]).unwrap();
    conn.execute("INSERT INTO embeddings VALUES (3, ?1)", [vec![0u8; 4 * DIMENSION]]).unwrap();
    assert_eq!(get_embedding(&conn, 1), Err(StoreError::DataCorruption));
    assert_eq!(get_embedding(&conn, 2), Err(StoreError::DataCorruption));
    assert_eq!(get_embedding(&conn, 3), Ok(vec![0u32; DIMENSION]));
    assert_eq!(get_similar_to_listing(&conn, 1, 5), Err(StoreError::DataCorruption));
    assert_eq!(decode_embedding(&vec![0u8; 4 * DIMENSION + 1], 768), Err(StoreError::DataCorruption));
}

#[test]
fn vector_of_another_dimension_is_refused_before_the_store() {
    let conn = catalog(3);
    assert_eq!(
        get_similar_to_embedding(&conn, &vec![0u32; DIMENSION - 1], 5),
        Err(StoreError::InvalidArgument)
    );
    assert_eq!(
        get_similar_to_embedding(&conn, &vec![0u32; DIMENSION + 1], 5),
        Err(StoreError::InvalidArgument)
    );
}

#[test]
fn store_without_its_tables_is_unavailable() {
    let conn = Connection::open_in_memory().unwrap();
    assert_eq!(get_listings(&conn, 5), Err(StoreError::StorageUnavailable));
    assert_eq!(get_listing_by_id(&conn, 5), Err(StoreError::StorageUnavailable));
    assert_eq!(get_embedding(&conn, 5), Err(StoreError::StorageUnavailable));
    assert_eq!(get_similar_to_listing(&conn, 5, 5), Err(StoreError::StorageUnavailable));
}

#[test]
fn text_that_is_not_utf8_is_corruption() {
    let conn = catalog(3);
    conn.execute("UPDATE listings SET name = CAST(x'ff' AS TEXT) WHERE id = 2595", []).unwrap();
    assert_eq!(get_listing_by_id(&conn, 2595), Err(StoreError::DataCorruption));
    assert_eq!(get_listing_by_id(&conn, 12937).unwrap().id, 12937);
}

#[test]
fn absent_and_ill_typed_columns_are_told_apart() {
    let conn = catalog(3);
    conn.execute("UPDATE listings SET accommodates = NULL, beds = NULL WHERE id = 2595", [])
        .unwrap();
    conn.execute("INSERT INTO listings (id, bedrooms) VALUES (9, 'three')", []).unwrap();
    let listing = get_listing_by_id(&conn, 2595).unwrap();
    assert_eq!(listing.accommodates, None);
    assert_eq!(listing.beds, None);
    assert_eq!(listing.bedrooms, Some(Number::Real(Real { bits: 1.5f64.to_bits() })));
    assert_eq!(get_listing_by_id(&conn, 9), Err(StoreError::DataCorruption));
}

#[test]
fn startup_accepts_the_catalog() {
    assert_eq!(run(&catalog(3), Database::in_memory().startup()), Ok(Answer::Ready));
    assert_eq!(run(&empty_catalog(), Database::in_memory().startup()), Ok(Answer::Ready));
}

#[test]
fn startup_refuses_a_store_of_another_layout() {
    let conn = Connection::open_in_memory().unwrap();
    assert_eq!(run(&conn, Database::in_memory().startup()), Err(StoreError::StartupFatal));
    conn.execute_batch(
        "CREATE TABLE listings (id INTEGER PRIMARY KEY, name TEXT, description TEXT, \
         neighborhood_overview TEXT, neighbourhood_cleansed TEXT, property_type TEXT, \
         room_type TEXT, accommodates INTEGER, bathrooms_text TEXT, beds REAL, bedrooms REAL, \
         amenities TEXT, price TEXT);",
    )
    .unwrap();
    assert_eq!(run(&conn, Database::in_memory().startup()), Err(StoreError::StartupFatal));
}

#[test]
fn interleaved_searches_give_what_sequential_ones_give() {
    let conn = catalog(40);
    let database = Database::in_memory();
    let alone_a = get_similar_to_listing(&conn, 2595, 8).unwrap();
    let alone_b = get_similar_to_listing(&conn, 12937, 8).unwrap();

    let mut a = database.get_similar_to_listing(2595, 8);
    let mut b = database.get_similar_to_listing(12937, 8);
    let mut turn = 0;
    loop {
        let step = if turn % 2 == 0 { &mut a } else { &mut b };
        turn += 1;
        match std::mem::replace(step, Progress::Done(Err(StoreError::StorageUnavailable))) {
            Progress::Ask { statement, session } => *step = session.resume(ask(&conn, statement)),
            done => *step = done,
        }
        if matches!(a, Progress::Done(_)) && matches!(b, Progress::Done(_)) {
            break;
        }
    }
    assert_eq!(a, Progress::Done(Ok(Answer::Similar(alone_a))));
    assert_eq!(b, Progress::Done(Ok(Answer::Similar(alone_b))));
}
