use bnb_sim::error::StoreError;
use bnb_sim::handler::{
    get_listing, label_of_id, listing_id, search_similar, ErrorResponse, Listing, SearchListing,
};
use bnb_sim::listing::{ListingDetails, Number};
use bnb_sim::search::SearchResult;
use bnb_sim::value::Real;

fn details(id: i64, bedrooms: Option<Number>) -> ListingDetails {
    ListingDetails {
        id,
        name: Some("Apartment at UWS".to_string()),
        description: Some("Beautiful apartment with a view of the Hudson River".to_string()),
        neighborhood_overview: Some("Quiet".to_string()),
        neighbourhood_cleansed: Some("Upper West Side".to_string()),
        property_type: Some("Entire rental unit".to_string()),
        room_type: Some("Entire home/apt".to_string()),
        accommodates: Some(4),
        bathrooms_text: Some("1 bath".to_string()),
        bedrooms,
        beds: Some(Number::Integer(2)),
        amenities: Some("[]".to_string()),
        price: Some("$200.00".to_string()),
    }
}

fn as_real(value: f64) -> Real {
    Real { bits: value.to_bits() }
}

#[test]
fn label_names_the_id() {
    assert_eq!(label_of_id(1), "id = 1");
    assert_eq!(label_of_id(0), "id = 0");
    assert_eq!(label_of_id(9), "id = 9");
    assert_eq!(label_of_id(10), "id = 10");
    assert_eq!(label_of_id(2595), "id = 2595");
    assert_eq!(label_of_id(-1), "id = -1");
    assert_eq!(label_of_id(-120), "id = -120");
    assert_eq!(label_of_id(i64::MAX), "id = 9223372036854775807");
    assert_eq!(label_of_id(i64::MIN), "id = -9223372036854775808");
}

#[test]
fn label_agrees_with_format() {
    let mut id: i64 = 1;
    for step in 0..62 {
        for candidate in [id, -id, id - 1, id + step] {
            assert_eq!(label_of_id(candidate), format!("id = {candidate}"));
        }
        id *= 2;
    }
}

#[test]
fn short_form_keeps_five_fields() {
    let listing = Listing::from(details(1, Some(Number::Real(as_real(2.0)))));
    assert_eq!(
        listing,
        Listing {
            id: 1,
            name: Some("Apartment at UWS".to_string()),
            description: Some("Beautiful apartment with a view of the Hudson River".to_string()),
            bedrooms: Some(2),
            price: Some("$200.00".to_string()),
            distance: None,
        }
    );
}

#[test]
fn short_form_drops_the_fraction_of_bedrooms() {
    assert_eq!(Listing::from(details(1, Some(Number::Real(as_real(2.9))))).bedrooms, Some(2));
    assert_eq!(Listing::from(details(1, Some(Number::Real(as_real(0.5))))).bedrooms, Some(0));
    assert_eq!(Listing::from(details(1, Some(Number::Integer(3)))).bedrooms, Some(3));
    assert_eq!(Listing::from(details(1, Some(Number::Real(as_real(f64::NAN))))).bedrooms, Some(0));
    assert_eq!(Listing::from(details(1, None)).bedrooms, None);
}

#[test]
fn short_form_of_a_result_has_its_distance() {
    let result = SearchResult {
        listing_details: details(39282, Some(Number::Integer(1))),
        distance: as_real(0.02),
    };
    let listing = Listing::from(result);
    assert_eq!(listing.id, 39282);
    assert_eq!(listing.bedrooms, Some(1));
    assert_eq!(listing.distance, Some(as_real(0.02)));
    let score = 1.0 - f64::from_bits(listing.distance.unwrap().bits);
    assert_eq!(score as f32, 0.98);
}

#[test]
fn found_listing_is_sent_in_short_form() {
    let response = get_listing(1, Ok(details(1, None)));
    assert_eq!(response, Ok(Listing::from(details(1, None))));
}

#[test]
fn missing_listing_is_told_as_not_found() {
    let response = get_listing(0, Err(StoreError::NotFound));
    assert_eq!(response, Err(ErrorResponse::NotFound("id = 0".to_string())));
    assert_eq!(response.unwrap_err().status(), 404);
    let response = get_listing(1, Err(StoreError::NotFound));
    assert_eq!(response, Err(ErrorResponse::NotFound(String::from("id = 1"))));
}

#[test]
fn other_failures_are_told_without_their_cause() {
    for failure in [
        StoreError::InvalidArgument,
        StoreError::DataCorruption,
        StoreError::StorageUnavailable,
        StoreError::StartupFatal,
    ] {
        let response = get_listing(5, Err(failure));
        assert_eq!(response, Err(ErrorResponse::ServerError));
        assert_eq!(response.unwrap_err().status(), 500);
        assert_eq!(ErrorResponse::of_failure(5, failure), ErrorResponse::ServerError);
    }
    assert_eq!(
        ErrorResponse::of_failure(-3, StoreError::NotFound),
        ErrorResponse::NotFound("id = -3".to_string())
    );
}

#[test]
fn negative_id_names_no_listing() {
    assert_eq!(listing_id(-1), Err(StoreError::NotFound));
    assert_eq!(listing_id(i64::MIN), Err(StoreError::NotFound));
    assert_eq!(listing_id(0), Ok(0));
    assert_eq!(listing_id(2595), Ok(2595));
    assert_eq!(listing_id(i64::MAX), Ok(i64::MAX as u64));
}

#[test]
fn search_parameters_are_checked() {
    let query = SearchListing { similar_to: 39282, max_results: 5 };
    assert_eq!(query.arguments(), Ok((39282, 5)));
    let query = SearchListing { similar_to: 0, max_results: 1 };
    assert_eq!(query.arguments(), Ok((0, 1)));
    let query = SearchListing { similar_to: -1, max_results: 5 };
    assert_eq!(query.arguments(), Err(StoreError::NotFound));
    let query = SearchListing { similar_to: 39282, max_results: 0 };
    assert_eq!(query.arguments(), Err(StoreError::InvalidArgument));
    let query = SearchListing { similar_to: 39282, max_results: -5 };
    assert_eq!(query.arguments(), Err(StoreError::InvalidArgument));
    let query = SearchListing { similar_to: -1, max_results: 0 };
    assert_eq!(query.arguments(), Err(StoreError::NotFound));
    let query = SearchListing { similar_to: i64::MAX, max_results: i64::MAX };
    assert_eq!(query.arguments(), Ok((i64::MAX as u64, i64::MAX as u64)));
}

#[test]
fn search_results_are_sent_in_their_order() {
    let query = SearchListing { similar_to: 3, max_results: 5 };
    let results = vec![
        SearchResult { listing_details: details(3, None), distance: as_real(0.0) },
        SearchResult { listing_details: details(8, Some(Number::Integer(2))), distance: as_real(0.25) },
        SearchResult { listing_details: details(5, None), distance: as_real(0.5) },
    ];
    let listings = search_similar(&query, Ok(results.clone())).unwrap();
    assert_eq!(listings.len(), 3);
    for (listing, result) in listings.iter().zip(results) {
        assert_eq!(*listing, Listing::from(result));
    }
    assert_eq!(listings[0].id, 3);
    assert_eq!(listings[1].id, 8);
    assert_eq!(listings[1].bedrooms, Some(2));
    assert_eq!(listings[2].distance, Some(as_real(0.5)));
    assert_eq!(search_similar(&query, Ok(Vec::new())), Ok(Vec::new()));
}

#[test]
fn failed_search_is_told_by_its_kind() {
    let query = SearchListing { similar_to: 77, max_results: 5 };
    assert_eq!(
        search_similar(&query, Err(StoreError::NotFound)),
        Err(ErrorResponse::NotFound("id = 77".to_string()))
    );
    assert_eq!(
        search_similar(&query, Err(StoreError::StorageUnavailable)),
        Err(ErrorResponse::ServerError)
    );
    assert_eq!(
        search_similar(&query, Err(StoreError::InvalidArgument)),
        Err(ErrorResponse::ServerError)
    );
}
