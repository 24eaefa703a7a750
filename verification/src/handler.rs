//! What is sent to clients, and what is made of their requests.
//!
//! A client sees a listing in a short form. A failure reaches a client in one
//! of two shapes only: the item does not exist, or the service failed; what
//! went wrong inside is not told.

use vstd::prelude::*;
use vstd::string::StringExecFns;
use crate::error::StoreError;
use crate::listing::{text_view, ListingDetails, Number};
use crate::search::SearchResult;
use crate::value::Real;

verus! {

/// The parameters of a similarity search as a client sends them.
#[derive(Clone, Copy, Debug, PartialEq, Eq, Structural)]
pub struct SearchListing {
    /// Id of the listing to which similar ones are sought.
    pub similar_to: i64,
    /// Largest number of results to return.
    pub max_results: i64,
}

/// A listing as a client sees it.
#[derive(Clone, Debug, PartialEq)]
pub struct Listing {
    pub id: i64,
    pub name: Option<String>,
    pub description: Option<String>,
    /// Number of bedrooms, without a fractional part.
    pub bedrooms: Option<i32>,
    pub price: Option<String>,
    /// Distance from the query of the search that found the listing; absent
    /// where the listing was asked for by its id.
    pub distance: Option<Real>,
}

/// What a `Listing` holds, with text as sequences of characters.
pub struct ListingView {
    pub id: i64,
    pub name: Option<Seq<char>>,
    pub description: Option<Seq<char>>,
    pub bedrooms: Option<i32>,
    pub price: Option<Seq<char>>,
    pub distance: Option<Real>,
}

impl View for Listing {
    type V = ListingView;

    open spec fn view(&self) -> ListingView {
        ListingView {
            id: self.id,
            name: text_view(self.name),
            description: text_view(self.description),
            bedrooms: self.bedrooms,
            price: text_view(self.price),
            distance: self.distance,
        }
    }
}

impl DeepView for Listing {
    type V = ListingView;

    open spec fn deep_view(&self) -> ListingView {
        self.view()
    }
}

/// The failure that a client is told of.
#[derive(Clone, Debug, PartialEq)]
pub enum ErrorResponse {
    /// The item does not exist; the text names what was asked for.
    NotFound(String),
    /// The service failed.
    ServerError,
}

/// What an `ErrorResponse` holds.
pub enum ErrorResponseView {
    NotFound(Seq<char>),
    ServerError,
}

impl View for ErrorResponse {
    type V = ErrorResponseView;

    open spec fn view(&self) -> ErrorResponseView {
        match *self {
            ErrorResponse::NotFound(what) => ErrorResponseView::NotFound(what@),
            ErrorResponse::ServerError => ErrorResponseView::ServerError,
        }
    }
}

/// The number of bedrooms as a client sees it.
pub open spec fn whole_bedrooms(bedrooms: Option<Number>) -> Option<i32> {
    match bedrooms {
        Some(n) => Some(n.truncated() as i32),
        None => None,
    }
}

/// The short form of a listing that was asked for by its id: it has no
/// distance.
pub open spec fn short_form(details: ListingDetails) -> Listing {
    Listing {
        id: details.id,
        name: details.name,
        description: details.description,
        bedrooms: whole_bedrooms(details.bedrooms),
        price: details.price,
        distance: None,
    }
}

/// The short form of a listing that a search found, with its distance.
pub open spec fn short_form_of_result(result: SearchResult) -> Listing {
    Listing {
        id: result.listing_details.id,
        name: result.listing_details.name,
        description: result.listing_details.description,
        bedrooms: whole_bedrooms(result.listing_details.bedrooms),
        price: result.listing_details.price,
        distance: Some(result.distance),
    }
}

impl vstd::std_specs::convert::FromSpecImpl<ListingDetails> for Listing {
    open spec fn obeys_from_spec() -> bool {
        true
    }

    open spec fn from_spec(value: ListingDetails) -> Listing {
        short_form(value)
    }
}

impl From<ListingDetails> for Listing {
    /// The short form of a listing that was asked for by its id.
    fn from(value: ListingDetails) -> (listing: Listing) {
        let bedrooms = match value.bedrooms {
            Some(n) => Some(n.to_i32()),
            None => None,
        };
        Listing {
            id: value.id,
            name: value.name,
            description: value.description,
            bedrooms,
            price: value.price,
            distance: None,
        }
    }
}

impl vstd::std_specs::convert::FromSpecImpl<SearchResult> for Listing {
    open spec fn obeys_from_spec() -> bool {
        true
    }

    open spec fn from_spec(value: SearchResult) -> Listing {
        short_form_of_result(value)
    }
}

impl From<SearchResult> for Listing {
    /// The short form of a listing that a search found.
    fn from(value: SearchResult) -> (listing: Listing) {
        let bedrooms = match value.listing_details.bedrooms {
            Some(n) => Some(n.to_i32()),
            None => None,
        };
        Listing {
            id: value.listing_details.id,
            name: value.listing_details.name,
            description: value.listing_details.description,
            bedrooms,
            price: value.listing_details.price,
            distance: Some(value.distance),
        }
    }
}

/// The character of a decimal digit.
pub open spec fn digit_char(digit: int) -> char {
    if digit == 0 {
        '0'
    } else if digit == 1 {
        '1'
    } else if digit == 2 {
        '2'
    } else if digit == 3 {
        '3'
    } else if digit == 4 {
        '4'
    } else if digit == 5 {
        '5'
    } else if digit == 6 {
        '6'
    } else if digit == 7 {
        '7'
    } else if digit == 8 {
        '8'
    } else {
        '9'
    }
}

/// A natural number in decimal, without leading zeros.
pub open spec fn decimal(n: nat) -> Seq<char>
    decreases n,
{
    if n < 10 {
        seq![digit_char(n as int)]
    } else {
        decimal(n / 10).push(digit_char((n % 10) as int))
    }
}

/// The digit that a character stands for.
pub open spec fn digit_value(c: char) -> int {
    if c == '0' {
        0
    } else if c == '1' {
        1
    } else if c == '2' {
        2
    } else if c == '3' {
        3
    } else if c == '4' {
        4
    } else if c == '5' {
        5
    } else if c == '6' {
        6
    } else if c == '7' {
        7
    } else if c == '8' {
        8
    } else {
        9
    }
}

/// The number that a text of decimal digits stands for.
pub open spec fn number_of(digits: Seq<char>) -> int
    decreases digits.len(),
{
    if digits.len() == 0 {
        0
    } else {
        10 * number_of(digits.drop_last()) + digit_value(digits.last())
    }
}

/// A number written in decimal reads back as itself, and is written without
/// a leading zero unless it is zero.
pub proof fn lemma_decimal_reads_back(n: nat)
    ensures
        number_of(decimal(n)) == n,
        decimal(n).len() >= 1,
        n > 0 ==> decimal(n)[0] != '0',
    decreases n,
{
    if n < 10 {
        let text = decimal(n);
        assert(text.drop_last() =~= Seq::empty());
        assert(number_of(text.drop_last()) == 0);
    } else {
        lemma_decimal_reads_back(n / 10);
        let text = decimal(n);
        assert(text.drop_last() =~= decimal(n / 10));
        assert(text[0] == decimal(n / 10)[0]);
    }
}

/// A whole number in decimal, with a minus sign where it is negative.
pub open spec fn signed_decimal(i: int) -> Seq<char> {
    if i < 0 {
        seq!['-'] + decimal((-i) as nat)
    } else {
        decimal(i as nat)
    }
}

/// The text that names a listing by its id.
pub open spec fn id_label(id: i64) -> Seq<char> {
    seq!['i', 'd', ' ', '=', ' '] + signed_decimal(id as int)
}

/// The text of one decimal digit.
fn digit_text(digit: u64) -> (text: &'static str)
    requires
        digit < 10,
    ensures
        text@ == seq![digit_char(digit as int)],
{
    proof {
        reveal_strlit("0");
        reveal_strlit("1");
        reveal_strlit("2");
        reveal_strlit("3");
        reveal_strlit("4");
        reveal_strlit("5");
        reveal_strlit("6");
        reveal_strlit("7");
        reveal_strlit("8");
        reveal_strlit("9");
    }
    let text = if digit == 0 {
        "0"
    } else if digit == 1 {
        "1"
    } else if digit == 2 {
        "2"
    } else if digit == 3 {
        "3"
    } else if digit == 4 {
        "4"
    } else if digit == 5 {
        "5"
    } else if digit == 6 {
        "6"
    } else if digit == 7 {
        "7"
    } else if digit == 8 {
        "8"
    } else {
        "9"
    };
    assert(text@ =~= seq![digit_char(digit as int)]);
    text
}

/// Writes a natural number in decimal behind what `text` holds.
fn append_decimal(text: &mut String, n: u64)
    ensures
        final(text)@ == old(text)@ + decimal(n as nat),
    decreases n,
{
    if n >= 10 {
        append_decimal(text, n / 10);
    }
    text.append(digit_text(n % 10));
    proof {
        if n >= 10 {
            assert(final(text)@ =~= old(text)@ + decimal(n as nat));
        } else {
            assert(final(text)@ =~= old(text)@ + decimal(n as nat));
        }
    }
}

/// The text that names a listing by its id: `id = ` and the id in decimal.
pub fn label_of_id(id: i64) -> (label: String)
    ensures
        label@ == id_label(id),
{
    proof {
        reveal_strlit("id = ");
        reveal_strlit("id = -");
    }
    if id < 0 {
        let mut label = String::from_str("id = -");
        let magnitude: u64 = (-(id + 1)) as u64 + 1;
        append_decimal(&mut label, magnitude);
        assert(label@ =~= id_label(id));
        label
    } else {
        let mut label = String::from_str("id = ");
        append_decimal(&mut label, id as u64);
        assert(label@ =~= id_label(id));
        label
    }
}

/// What a client is told of a failure that concerns the listing with this id.
pub open spec fn failure_response(id: i64, failure: StoreError) -> ErrorResponseView {
    if failure == StoreError::NotFound {
        ErrorResponseView::NotFound(id_label(id))
    } else {
        ErrorResponseView::ServerError
    }
}

impl ErrorResponse {
    /// The response to a failure that concerns the listing with this id. That
    /// the listing does not exist is told as such; every other failure is told
    /// as a failure of the service, without its cause.
    pub fn of_failure(id: i64, failure: StoreError) -> (response: ErrorResponse)
        ensures
            response@ == failure_response(id, failure),
    {
        match failure {
            StoreError::NotFound => ErrorResponse::NotFound(label_of_id(id)),
            _ => ErrorResponse::ServerError,
        }
    }

    /// The status code under which the response is sent.
    pub fn status(&self) -> (code: u16)
        ensures
            code == if self is NotFound {
                404u16
            } else {
                500u16
            },
    {
        match self {
            ErrorResponse::NotFound(_) => 404,
            ErrorResponse::ServerError => 500,
        }
    }
}

/// The id under which the store knows the listing that a client named. Ids of
/// listings are not negative, so a negative id names no listing.
pub fn listing_id(id: i64) -> (known: Result<u64, StoreError>)
    ensures
        id >= 0 ==> known == Ok::<u64, StoreError>(id as u64),
        id < 0 ==> known == Err::<u64, StoreError>(StoreError::NotFound),
{
    if id < 0 {
        Err(StoreError::NotFound)
    } else {
        Ok(id as u64)
    }
}

impl SearchListing {
    /// What the parameters ask of the catalog: the id of the reference listing
    /// and the limit.
    pub open spec fn arguments_spec(self) -> Result<(u64, u64), StoreError> {
        if self.similar_to < 0 {
            Err(StoreError::NotFound)
        } else if self.max_results <= 0 {
            Err(StoreError::InvalidArgument)
        } else {
            Ok((self.similar_to as u64, self.max_results as u64))
        }
    }

    /// Checks the parameters of a search. A negative id names no listing; a
    /// limit that is not positive is refused.
    pub fn arguments(&self) -> (checked: Result<(u64, u64), StoreError>)
        ensures
            checked == self.arguments_spec(),
    {
        if self.similar_to < 0 {
            Err(StoreError::NotFound)
        } else if self.max_results <= 0 {
            Err(StoreError::InvalidArgument)
        } else {
            Ok((self.similar_to as u64, self.max_results as u64))
        }
    }
}

/// The response to a request for the listing with this id, given what the
/// catalog made of it.
pub fn get_listing(id: i64, outcome: Result<ListingDetails, StoreError>) -> (response: Result<
    Listing,
    ErrorResponse,
>)
    ensures
        match outcome {
            Ok(details) => response matches Ok(listing) && listing == short_form(details),
            Err(failure) => response matches Err(told) && told@ == failure_response(id, failure),
        },
{
    match outcome {
        Ok(details) => Ok(Listing::from(details)),
        Err(failure) => Err(ErrorResponse::of_failure(id, failure)),
    }
}

/// The listings of search results in their short form, in the same order.
pub open spec fn short_forms(results: Seq<SearchResult>) -> Seq<Listing> {
    Seq::new(results.len(), |i: int| short_form_of_result(results[i]))
}

/// The response to a search, given what the catalog made of it.
pub fn search_similar(
    query: &SearchListing,
    outcome: Result<Vec<SearchResult>, StoreError>,
) -> (response: Result<Vec<Listing>, ErrorResponse>)
    ensures
        match outcome {
            Ok(results) => response matches Ok(listings) && listings@ == short_forms(results@),
            Err(failure) => response matches Err(told) && told@ == failure_response(
                query.similar_to,
                failure,
            ),
        },
{
    match outcome {
        Ok(results) => {
            let ghost all = results@;
            let mut listings: Vec<Listing> = Vec::new();
            for result in rest: results
                invariant
                    rest.seq() == all,
                    listings@.len() == rest.index(),
                    forall|k: int|
                        0 <= k < listings@.len() ==> listings@[k] == short_form_of_result(all[k]),
            {
                listings.push(Listing::from(result));
            }
            assert(listings@ =~= short_forms(all));
            Ok(listings)
        },
        Err(failure) => Err(ErrorResponse::of_failure(query.similar_to, failure)),
    }
}

} // verus!
