use steam_rev_query::error::RevApiError;
use steam_rev_query::options::{Filter, PurchaseType, ReviewType};
use steam_rev_query::query::ReviewApi;

fn pairs(api: &ReviewApi) -> Vec<(String, String)> {
    api.query_pairs()
}

fn value_of(api: &ReviewApi, key: &str) -> Option<String> {
    pairs(api).into_iter().find(|(k, _)| k == key).map(|(_, v)| v)
}

#[test]
fn build_with_cursor() {
    let mut steam = ReviewApi::new(1235140);
    steam
        .review_type(ReviewType::All)
        .filter(Filter::Updated)
        .expect("Unexpected: Setting Filter::Recent.")
        .change_cursor("lol!meow@cats$")
        .expect("Unexpected: Filter is All for some reason?")
        .review_type(ReviewType::All)
        .purchase_type(PurchaseType::All);
    let _built_api = steam.build().expect("You broke build(), Josh.");
}

#[test]
fn cursor_default_filter() {
    let _built_api = ReviewApi::new(21690)
        .change_cursor("koolfakecursor")
        .expect("Unexpected: Filter is All for some reason?")
        .build()
        .expect("Yay build() is broken now!");
}

#[test]
fn cursor_filter_all() {
    let _built_api = ReviewApi::new(584400)
        .change_cursor("dontpanikherepls")
        .expect("Unexpected: Filter is All before I set it to All!!")
        .filter(Filter::All)
        .expect_err("Setting filter to All with a cursor didn't return an error.");
}

#[test]
fn days_range_correct() {
    let _built_api = ReviewApi::new(311690)
        .filter(Filter::All)
        .expect("Unexpected: Changing the Filter right after constructing shouldn't raise an error.")
        .day_range(365)
        .expect("Filter is set to All yet day_range() failed.")
        .build()
        .expect("I broke build().");
}

#[test]
fn new_query_pages_by_recency_from_the_start() {
    let api = ReviewApi::new(9160);
    assert_eq!(api.current_appid(), 9160);
    assert!(api.paging_ok());
    assert_eq!(
        pairs(&api),
        vec![
            ("json".to_string(), "1".to_string()),
            ("language".to_string(), "english".to_string()),
            ("filter".to_string(), "recent".to_string()),
            ("cursor".to_string(), "*".to_string()),
        ]
    );
}

#[test]
fn complete_sweep_is_legal_at_the_initial_cursor() {
    let mut api = ReviewApi::new(10);
    assert!(api.filter(Filter::All).is_ok());
    assert!(!api.paging_ok());
    assert_eq!(value_of(&api, "filter").as_deref(), Some("all"));
}

#[test]
fn complete_sweep_refused_mid_pagination_and_query_unchanged() {
    let mut api = ReviewApi::new(10);
    api.change_cursor("abc").unwrap();
    let err = api.filter(Filter::All).unwrap_err();
    assert_eq!(err, RevApiError::InvalidFilterCursor);
    assert_eq!(value_of(&api, "filter").as_deref(), Some("recent"));
    assert_eq!(value_of(&api, "cursor").as_deref(), Some("abc"));
}

#[test]
fn ordered_filter_refused_while_day_range_set() {
    let mut api = ReviewApi::new(10);
    api.filter(Filter::All).unwrap().day_range(7).unwrap();
    assert_eq!(api.filter(Filter::Recent).unwrap_err(), RevApiError::InvalidFilterDayRange);
    assert_eq!(api.filter(Filter::Updated).unwrap_err(), RevApiError::InvalidFilterDayRange);
    assert!(api.filter(Filter::All).is_ok());
    assert_eq!(value_of(&api, "day_range").as_deref(), Some("7"));
}

#[test]
fn day_range_refused_under_ordered_filters() {
    let mut api = ReviewApi::new(10);
    assert_eq!(api.day_range(3).unwrap_err(), RevApiError::InvalidFilterDayRange);
    api.filter(Filter::Updated).unwrap();
    assert_eq!(api.day_range(3).unwrap_err(), RevApiError::InvalidFilterDayRange);
    assert_eq!(value_of(&api, "day_range"), None);
}

#[test]
fn cursor_refused_under_complete_sweep() {
    let mut api = ReviewApi::new(10);
    api.filter(Filter::All).unwrap();
    assert_eq!(api.change_cursor("next").unwrap_err(), RevApiError::InvalidFilterCursor);
    assert_eq!(value_of(&api, "cursor").as_deref(), Some("*"));
}

#[test]
fn changing_appid_resets_cursor() {
    let mut api = ReviewApi::new(10);
    api.change_cursor("page2").unwrap();
    api.appid(20);
    assert_eq!(api.current_appid(), 20);
    assert_eq!(value_of(&api, "cursor").as_deref(), Some("*"));
    assert!(api.filter(Filter::All).is_ok());
}

#[test]
fn optional_parameters_in_order() {
    let mut api = ReviewApi::new(1);
    api.filter(Filter::All)
        .unwrap()
        .day_range(4294967295)
        .unwrap()
        .num_per_page(100)
        .review_type(ReviewType::Negative)
        .purchase_type(PurchaseType::NonSteamPurchase);
    let keys: Vec<String> = pairs(&api).into_iter().map(|(k, _)| k).collect();
    assert_eq!(
        keys,
        vec!["json", "language", "filter", "cursor", "day_range", "review_type", "purchase_type", "num_per_page"]
    );
    assert_eq!(value_of(&api, "day_range").as_deref(), Some("4294967295"));
    assert_eq!(value_of(&api, "num_per_page").as_deref(), Some("100"));
    assert_eq!(value_of(&api, "review_type").as_deref(), Some("negative"));
    assert_eq!(value_of(&api, "purchase_type").as_deref(), Some("non_steam_purchase"));
}

#[test]
fn num_per_page_zero_is_written_as_zero() {
    let mut api = ReviewApi::new(0);
    api.num_per_page(0);
    assert_eq!(value_of(&api, "num_per_page").as_deref(), Some("0"));
}

#[test]
fn build_carries_endpoint_and_parameters() {
    let mut api = ReviewApi::new(9160);
    api.num_per_page(100).change_cursor("AoJ4+c3x").unwrap();
    let url = api.build().unwrap();
    assert_eq!(url.path(), "/appreviews/9160");
    assert_eq!(url.host_str(), Some("store.steampowered.com"));
    let query: Vec<(String, String)> = url.query_pairs().into_owned().collect();
    assert!(query.contains(&("cursor".to_string(), "AoJ4+c3x".to_string())));
    assert!(query.contains(&("num_per_page".to_string(), "100".to_string())));
    assert!(query.contains(&("filter".to_string(), "recent".to_string())));
    assert!(query.contains(&("json".to_string(), "1".to_string())));
}

#[test]
fn error_messages() {
    assert_eq!(
        RevApiError::InvalidFilterCursor.message(),
        "Cursors (for pagination) are only valid for Filter::Recent or Filter::Updated"
    );
    assert_eq!(
        RevApiError::InvalidFilterDayRange.message(),
        "Day ranges are only allowed for Filter::All. You may need to manually call ReviewApi::filter."
    );
}
