use vstd::prelude::*;

verus! {

/// The crates endpoint of the crates.io API.
pub open spec fn crates_url_spec() -> Seq<char> {
    "https://crates.io/api/v1/crates"@
}

/// The crates endpoint of the crates.io API.
pub fn crates_url() -> (r: &'static str)
    ensures
        r@ == crates_url_spec(),
{
    "https://crates.io/api/v1/crates"
}

/// The address a crate's details are requested from: the crate's own endpoint
/// under the crates endpoint.
pub fn crate_info_url(crate_name: &str) -> (r: String)
    ensures
        r@ == crates_url_spec() + "/"@ + crate_name@,
{
    String::from_str(crates_url()).concat("/").concat(crate_name)
}

/// An ordering of the crate list the API can return.
#[derive(Debug, Clone, Copy, PartialEq, Eq, Structural, Hash)]
pub enum CrateListing {
    /// Newest crates first.
    New,
    /// Most downloaded crates first.
    MostDownloaded,
    /// Most recently updated crates first.
    RecentUpdates,
}

/// The value of the `sort` parameter for a listing.
pub open spec fn sort_value(listing: CrateListing) -> Seq<char> {
    match listing {
        CrateListing::New => "new"@,
        CrateListing::MostDownloaded => "downloads"@,
        CrateListing::RecentUpdates => "recent-updates"@,
    }
}

impl CrateListing {
    /// The value of the `sort` parameter for this listing.
    pub fn sort_param(self) -> (r: &'static str)
        ensures
            r@ == sort_value(self),
    {
        match self {
            CrateListing::New => "new",
            CrateListing::MostDownloaded => "downloads",
            CrateListing::RecentUpdates => "recent-updates",
        }
    }

    /// The query parameters of the request for this listing: only `sort`.
    pub fn query_params(self) -> (r: Vec<(String, String)>)
        ensures
            r@.len() == 1,
            r@[0].0@ == "sort"@,
            r@[0].1@ == sort_value(self),
    {
        let mut r: Vec<(String, String)> = Vec::new();
        r.push((String::from_str("sort"), String::from_str(self.sort_param())));
        r
    }
}

/// The number of crates a search asks for.
pub const PAGE_SIZE: u64 = 10;

/// A crate search: an optional text, an optional category and a page size.
#[derive(Debug, Clone)]
pub struct SearchQuery {
    pub search: Option<String>,
    pub category: Option<String>,
    pub page_size: u64,
}

/// The text of an optional string.
pub open spec fn opt_text(s: Option<String>) -> Option<Seq<char>> {
    match s {
        Some(t) => Some(t@),
        None => None,
    }
}

/// A query as its search text, category and page size.
pub open spec fn query_view(q: SearchQuery) -> (Option<Seq<char>>, Option<Seq<char>>, u64) {
    (opt_text(q.search), opt_text(q.category), q.page_size)
}

/// A text search for `word`: no category, one page of `PAGE_SIZE` crates.
pub open spec fn text_search(word: Seq<char>) -> (Option<Seq<char>>, Option<Seq<char>>, u64) {
    (Some(word), None, PAGE_SIZE as u64)
}

/// A search for crates matching `search`, one page of `PAGE_SIZE` crates.
pub fn search_query(search: &str) -> (r: SearchQuery)
    ensures
        query_view(r) == text_search(search@),
{
    SearchQuery { search: Some(String::from_str(search)), category: None, page_size: PAGE_SIZE }
}

/// The crates of a category, one page of `PAGE_SIZE` crates.
pub fn category_query(category: &str) -> (r: SearchQuery)
    ensures
        query_view(r) == (None::<Seq<char>>, Some(category@), PAGE_SIZE),
{
    SearchQuery { search: None, category: Some(String::from_str(category)), page_size: PAGE_SIZE }
}

/// A search by keyword: the same text search as [`search_query`] asks for
/// the keyword, not a filter on the crates' keywords.
pub fn keyword_query(keyword: &str) -> (r: SearchQuery)
    ensures
        query_view(r) == text_search(keyword@),
{
    search_query(keyword)
}

/// The links of a crate listing entry.
#[derive(Debug, Clone)]
pub struct Links {
    pub version_downloads: String,
    pub versions: String,
    pub owners: String,
    pub owner_team: String,
    pub owner_user: String,
    pub reverse_dependencies: String,
}

impl Default for Links {
    fn default() -> (r: Links)
        ensures
            r.version_downloads@ == Seq::<char>::empty(),
            r.versions@ == Seq::<char>::empty(),
            r.owners@ == Seq::<char>::empty(),
            r.owner_team@ == Seq::<char>::empty(),
            r.owner_user@ == Seq::<char>::empty(),
            r.reverse_dependencies@ == Seq::<char>::empty(),
    {
        Links {
            version_downloads: String::new(),
            versions: String::new(),
            owners: String::new(),
            owner_team: String::new(),
            owner_user: String::new(),
            reverse_dependencies: String::new(),
        }
    }
}

/// One crate of a crate listing.
#[derive(Debug, Clone)]
pub struct CrateInfo {
    pub id: String,
    pub name: String,
    pub versions: Option<Vec<String>>,
    pub keywords: Option<Vec<String>>,
    pub categories: Option<Vec<String>>,
    pub updated_at: String,
    pub created_at: String,
    pub downloads: u32,
    pub recent_downloads: u32,
    pub default_version: String,
    pub num_versions: u32,
    pub yanked: bool,
    pub max_version: String,
    pub newest_version: String,
    pub max_stable_version: String,
    pub description: String,
    pub homepage: Option<String>,
    pub documentation: Option<String>,
    pub repository: Option<String>,
    pub links: Links,
}

impl Default for CrateInfo {
    fn default() -> (r: CrateInfo)
        ensures
            r.id@ == Seq::<char>::empty(),
            r.name@ == Seq::<char>::empty(),
            r.versions is None,
            r.keywords is None,
            r.categories is None,
            r.updated_at@ == Seq::<char>::empty(),
            r.created_at@ == Seq::<char>::empty(),
            r.downloads == 0,
            r.recent_downloads == 0,
            r.default_version@ == Seq::<char>::empty(),
            r.num_versions == 0,
            !r.yanked,
            r.max_version@ == Seq::<char>::empty(),
            r.newest_version@ == Seq::<char>::empty(),
            r.max_stable_version@ == Seq::<char>::empty(),
            r.description@ == Seq::<char>::empty(),
            r.homepage is None,
            r.documentation is None,
            r.repository is None,
            r.links.version_downloads@ == Seq::<char>::empty(),
            r.links.versions@ == Seq::<char>::empty(),
            r.links.owners@ == Seq::<char>::empty(),
            r.links.owner_team@ == Seq::<char>::empty(),
            r.links.owner_user@ == Seq::<char>::empty(),
            r.links.reverse_dependencies@ == Seq::<char>::empty(),
    {
        CrateInfo {
            id: String::new(),
            name: String::new(),
            versions: None,
            keywords: None,
            categories: None,
            updated_at: String::new(),
            created_at: String::new(),
            downloads: 0,
            recent_downloads: 0,
            default_version: String::new(),
            num_versions: 0,
            yanked: false,
            max_version: String::new(),
            newest_version: String::new(),
            max_stable_version: String::new(),
            description: String::new(),
            homepage: None,
            documentation: None,
            repository: None,
            links: Links::default(),
        }
    }
}

/// A crate listing as the API returns it.
#[derive(Debug, Clone)]
pub struct Crates {
    pub crates: Vec<CrateInfo>,
}

impl Crates {
    /// The crates of the listing, in the order the API gave them.
    pub fn into_crates(self) -> (r: Vec<CrateInfo>)
        ensures
            r@ == self.crates@,
    {
        self.crates
    }
}

} // verus!
