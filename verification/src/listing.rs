//! The listing record and the mapping of a row to it.
//!
//! The mapping is positional: each field is read from a fixed column, in the
//! order in which the table of listings declares its columns.

use vstd::prelude::*;
use crate::db::Database;
use crate::error::StoreError;
use crate::value::{Real, Row, SqlValue, SqlValueView};

verus! {

/// Number of columns that a row of the table of listings has.
pub const LISTING_COLUMNS: usize = 13;

/// The name of column `index` of the table of listings. The order of the
/// columns is part of the layout of the catalog: a record is read from a row
/// by position.
pub open spec fn listing_column_name(index: int) -> Seq<char> {
    if index == 0 {
        "id"@
    } else if index == 1 {
        "name"@
    } else if index == 2 {
        "description"@
    } else if index == 3 {
        "neighborhood_overview"@
    } else if index == 4 {
        "neighbourhood_cleansed"@
    } else if index == 5 {
        "property_type"@
    } else if index == 6 {
        "room_type"@
    } else if index == 7 {
        "accommodates"@
    } else if index == 8 {
        "bathrooms_text"@
    } else if index == 9 {
        "bedrooms"@
    } else if index == 10 {
        "beds"@
    } else if index == 11 {
        "amenities"@
    } else {
        "price"@
    }
}

/// The name of column `index` of the table of listings.
pub fn listing_column(index: usize) -> (name: &'static str)
    ensures
        name@ == listing_column_name(index as int),
{
    if index == 0 {
        "id"
    } else if index == 1 {
        "name"
    } else if index == 2 {
        "description"
    } else if index == 3 {
        "neighborhood_overview"
    } else if index == 4 {
        "neighbourhood_cleansed"
    } else if index == 5 {
        "property_type"
    } else if index == 6 {
        "room_type"
    } else if index == 7 {
        "accommodates"
    } else if index == 8 {
        "bathrooms_text"
    } else if index == 9 {
        "bedrooms"
    } else if index == 10 {
        "beds"
    } else if index == 11 {
        "amenities"
    } else {
        "price"
    }
}

/// A numeric column that may hold a whole number or a fraction.
#[derive(Clone, Copy, Debug, PartialEq, Eq, Structural)]
pub enum Number {
    Integer(i64),
    Real(Real),
}

impl Number {
    /// The number as a 32-bit whole number: rounded toward zero and held to
    /// the bounds of the type.
    pub open spec fn truncated(self) -> int {
        match self {
            Number::Integer(i) => if i > i32::MAX {
                i32::MAX as int
            } else if i < i32::MIN {
                i32::MIN as int
            } else {
                i as int
            },
            Number::Real(r) => r.truncated(),
        }
    }

    /// Converts the number to a 32-bit whole number.
    pub fn to_i32(&self) -> (whole: i32)
        ensures
            whole == self.truncated(),
    {
        match self {
            Number::Integer(i) => if *i > i32::MAX as i64 {
                i32::MAX
            } else if *i < i32::MIN as i64 {
                i32::MIN
            } else {
                *i as i32
            },
            Number::Real(r) => r.to_i32(),
        }
    }
}

/// One listing of the catalog. Everything but the id may be absent.
#[derive(Clone, Debug, PartialEq)]
pub struct ListingDetails {
    pub id: i64,
    pub name: Option<String>,
    pub description: Option<String>,
    pub neighborhood_overview: Option<String>,
    pub neighbourhood_cleansed: Option<String>,
    pub property_type: Option<String>,
    pub room_type: Option<String>,
    pub accommodates: Option<i64>,
    pub bathrooms_text: Option<String>,
    pub bedrooms: Option<Number>,
    pub beds: Option<Number>,
    pub amenities: Option<String>,
    pub price: Option<String>,
}

/// What a `ListingDetails` holds, with text as sequences of characters.
pub struct ListingDetailsView {
    pub id: i64,
    pub name: Option<Seq<char>>,
    pub description: Option<Seq<char>>,
    pub neighborhood_overview: Option<Seq<char>>,
    pub neighbourhood_cleansed: Option<Seq<char>>,
    pub property_type: Option<Seq<char>>,
    pub room_type: Option<Seq<char>>,
    pub accommodates: Option<i64>,
    pub bathrooms_text: Option<Seq<char>>,
    pub bedrooms: Option<Number>,
    pub beds: Option<Number>,
    pub amenities: Option<Seq<char>>,
    pub price: Option<Seq<char>>,
}

/// The characters of a text that may be absent.
pub open spec fn text_view(text: Option<String>) -> Option<Seq<char>> {
    match text {
        Some(s) => Some(s@),
        None => None,
    }
}

impl View for ListingDetails {
    type V = ListingDetailsView;

    open spec fn view(&self) -> ListingDetailsView {
        ListingDetailsView {
            id: self.id,
            name: text_view(self.name),
            description: text_view(self.description),
            neighborhood_overview: text_view(self.neighborhood_overview),
            neighbourhood_cleansed: text_view(self.neighbourhood_cleansed),
            property_type: text_view(self.property_type),
            room_type: text_view(self.room_type),
            accommodates: self.accommodates,
            bathrooms_text: text_view(self.bathrooms_text),
            bedrooms: self.bedrooms,
            beds: self.beds,
            amenities: text_view(self.amenities),
            price: text_view(self.price),
        }
    }
}

impl DeepView for ListingDetails {
    type V = ListingDetailsView;

    open spec fn deep_view(&self) -> ListingDetailsView {
        self.view()
    }
}

/// A column read as a whole number that must be present.
pub open spec fn as_integer(value: SqlValueView) -> Option<i64> {
    match value {
        SqlValueView::Integer(i) => Some(i),
        _ => None,
    }
}

/// A column read as a whole number that may be absent.
pub open spec fn as_optional_integer(value: SqlValueView) -> Option<Option<i64>> {
    match value {
        SqlValueView::Null => Some(None),
        SqlValueView::Integer(i) => Some(Some(i)),
        _ => None,
    }
}

/// A column read as a text that may be absent.
pub open spec fn as_optional_text(value: SqlValueView) -> Option<Option<Seq<char>>> {
    match value {
        SqlValueView::Null => Some(None),
        SqlValueView::Text(s) => Some(Some(s)),
        _ => None,
    }
}

/// A column read as a number that may be absent.
pub open spec fn as_optional_number(value: SqlValueView) -> Option<Option<Number>> {
    match value {
        SqlValueView::Null => Some(None),
        SqlValueView::Integer(i) => Some(Some(Number::Integer(i))),
        SqlValueView::Real(r) => Some(Some(Number::Real(r))),
        _ => None,
    }
}

/// Whether every one of the first thirteen columns holds a value of a storage
/// class that its field accepts.
pub open spec fn row_fits_listing(row: Seq<SqlValueView>) -> bool {
    &&& row.len() >= LISTING_COLUMNS
    &&& as_integer(row[0]) is Some
    &&& as_optional_text(row[1]) is Some
    &&& as_optional_text(row[2]) is Some
    &&& as_optional_text(row[3]) is Some
    &&& as_optional_text(row[4]) is Some
    &&& as_optional_text(row[5]) is Some
    &&& as_optional_text(row[6]) is Some
    &&& as_optional_integer(row[7]) is Some
    &&& as_optional_text(row[8]) is Some
    &&& as_optional_number(row[9]) is Some
    &&& as_optional_number(row[10]) is Some
    &&& as_optional_text(row[11]) is Some
    &&& as_optional_text(row[12]) is Some
}

/// The listing that a fitting row stands for.
pub open spec fn listing_of_row(row: Seq<SqlValueView>) -> ListingDetailsView {
    ListingDetailsView {
        id: as_integer(row[0])->0,
        name: as_optional_text(row[1])->0,
        description: as_optional_text(row[2])->0,
        neighborhood_overview: as_optional_text(row[3])->0,
        neighbourhood_cleansed: as_optional_text(row[4])->0,
        property_type: as_optional_text(row[5])->0,
        room_type: as_optional_text(row[6])->0,
        accommodates: as_optional_integer(row[7])->0,
        bathrooms_text: as_optional_text(row[8])->0,
        bedrooms: as_optional_number(row[9])->0,
        beds: as_optional_number(row[10])->0,
        amenities: as_optional_text(row[11])->0,
        price: as_optional_text(row[12])->0,
    }
}

/// Reads column `index` as a whole number that must be present.
fn integer_at(row: &Row, index: usize) -> (read: Result<i64, StoreError>)
    requires
        index < row@.len(),
    ensures
        read is Ok <==> as_integer(row@[index as int]@) is Some,
        read matches Ok(i) ==> Some(i) == as_integer(row@[index as int]@),
        read matches Err(e) ==> e == StoreError::DataCorruption,
{
    match &row[index] {
        SqlValue::Integer(i) => Ok(*i),
        _ => Err(StoreError::DataCorruption),
    }
}

/// Reads column `index` as a whole number that may be absent.
fn optional_integer_at(row: &Row, index: usize) -> (read: Result<Option<i64>, StoreError>)
    requires
        index < row@.len(),
    ensures
        read is Ok <==> as_optional_integer(row@[index as int]@) is Some,
        read matches Ok(i) ==> Some(i) == as_optional_integer(row@[index as int]@),
        read matches Err(e) ==> e == StoreError::DataCorruption,
{
    match &row[index] {
        SqlValue::Null => Ok(None),
        SqlValue::Integer(i) => Ok(Some(*i)),
        _ => Err(StoreError::DataCorruption),
    }
}

/// Reads column `index` as a text that may be absent.
fn optional_text_at(row: &Row, index: usize) -> (read: Result<Option<String>, StoreError>)
    requires
        index < row@.len(),
    ensures
        read is Ok <==> as_optional_text(row@[index as int]@) is Some,
        read matches Ok(t) ==> Some(text_view(t)) == as_optional_text(row@[index as int]@),
        read matches Err(e) ==> e == StoreError::DataCorruption,
{
    match &row[index] {
        SqlValue::Null => Ok(None),
        SqlValue::Text(s) => Ok(Some(s.clone())),
        _ => Err(StoreError::DataCorruption),
    }
}

/// Reads column `index` as a number that may be absent.
fn optional_number_at(row: &Row, index: usize) -> (read: Result<Option<Number>, StoreError>)
    requires
        index < row@.len(),
    ensures
        read is Ok <==> as_optional_number(row@[index as int]@) is Some,
        read matches Ok(n) ==> Some(n) == as_optional_number(row@[index as int]@),
        read matches Err(e) ==> e == StoreError::DataCorruption,
{
    match &row[index] {
        SqlValue::Null => Ok(None),
        SqlValue::Integer(i) => Ok(Some(Number::Integer(*i))),
        SqlValue::Real(r) => Ok(Some(Number::Real(*r))),
        _ => Err(StoreError::DataCorruption),
    }
}

impl Database {
    /// Maps a row of the table of listings to its record.
    ///
    /// The row may have more columns than the table; they are not read. A row that
    /// is too short, or that holds in one of the thirteen columns a value that the
    /// field cannot take, is reported as corrupt.
    pub fn map_row_to_listing(row: &Row) -> (mapped: Result<ListingDetails, StoreError>)
        ensures
            mapped is Ok <==> row_fits_listing(row.deep_view()),
            mapped matches Ok(listing) ==> listing@ == listing_of_row(row.deep_view()),
            mapped matches Err(e) ==> e == StoreError::DataCorruption,
    {
        if row.len() < LISTING_COLUMNS {
            return Err(StoreError::DataCorruption);
        }
        proof {
            let view = row.deep_view();
            assert forall|k: int| 0 <= k < row@.len() implies view[k] == row@[k]@ by {}
        }
        let id = integer_at(row, 0)?;
        let name = optional_text_at(row, 1)?;
        let description = optional_text_at(row, 2)?;
        let neighborhood_overview = optional_text_at(row, 3)?;
        let neighbourhood_cleansed = optional_text_at(row, 4)?;
        let property_type = optional_text_at(row, 5)?;
        let room_type = optional_text_at(row, 6)?;
        let accommodates = optional_integer_at(row, 7)?;
        let bathrooms_text = optional_text_at(row, 8)?;
        let bedrooms = optional_number_at(row, 9)?;
        let beds = optional_number_at(row, 10)?;
        let amenities = optional_text_at(row, 11)?;
        let price = optional_text_at(row, 12)?;
        Ok(
            ListingDetails {
                id,
                name,
                description,
                neighborhood_overview,
                neighbourhood_cleansed,
                property_type,
                room_type,
                accommodates,
                bathrooms_text,
                bedrooms,
                beds,
                amenities,
                price,
            },
        )
    }
}

} // verus!
