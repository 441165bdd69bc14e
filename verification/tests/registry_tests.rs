use craters::registry::{
    category_query, crate_info_url, crates_url, keyword_query, search_query, CrateInfo, CrateListing, Crates,
    PAGE_SIZE,
};

#[test]
fn crate_info_url_appends_name() {
    assert_eq!(crates_url(), "https://crates.io/api/v1/crates");
    assert_eq!(crate_info_url("serde"), "https://crates.io/api/v1/crates/serde");
    assert_eq!(crate_info_url(""), "https://crates.io/api/v1/crates/");
}

#[test]
fn listing_sort_params() {
    assert_eq!(CrateListing::New.sort_param(), "new");
    assert_eq!(CrateListing::MostDownloaded.sort_param(), "downloads");
    assert_eq!(CrateListing::RecentUpdates.sort_param(), "recent-updates");
    assert_eq!(
        CrateListing::RecentUpdates.query_params(),
        vec![("sort".to_string(), "recent-updates".to_string())]
    );
}

#[test]
fn search_queries() {
    let q = search_query("serde");
    assert_eq!(q.search.as_deref(), Some("serde"));
    assert_eq!(q.category, None);
    assert_eq!(q.page_size, 10);
    let c = category_query("command-line-utilities");
    assert_eq!(c.search, None);
    assert_eq!(c.category.as_deref(), Some("command-line-utilities"));
    assert_eq!(c.page_size, PAGE_SIZE);
    let k = keyword_query("async");
    assert_eq!(k.search.as_deref(), Some("async"));
    assert_eq!(k.category, None);
    assert_eq!(k.page_size, 10);
}

#[test]
fn crate_info_default_is_empty() {
    let info = CrateInfo::default();
    assert_eq!(info.name, "");
    assert_eq!(info.downloads, 0);
    assert!(!info.yanked);
    assert!(info.keywords.is_none());
    assert_eq!(info.links.owners, "");
    let listing = Crates { crates: vec![CrateInfo { name: "test-crate".to_string(), ..CrateInfo::default() }] };
    let crates = listing.into_crates();
    assert_eq!(crates.len(), 1);
    assert_eq!(crates[0].name, "test-crate");
}
