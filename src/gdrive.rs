//! The Google Drive release source: the parts that decide what to download.
//! Fetching the page and reading its hidden form fields is the caller's work.
use vstd::prelude::*;
use crate::version::{File, Release, Version};

verus! {

/// The download endpoint of Google Drive.
pub const DOWNLOAD_ENDPOINT: &'static str = "https://drive.usercontent.google.com/download";

/// The name given to the single file a Google Drive source provides.
pub const DOWNLOAD_NAME: &'static str = "yuzu_gdrive_test.zip";

/// The text of the URL made of `base` with the query `pairs` appended, as the
/// URL parser writes it.
pub uninterp spec fn url_with_query(base: Seq<char>, pairs: Seq<(Seq<char>, Seq<char>)>) -> Seq<char>;

/// The pairs as character sequences.
pub open spec fn pairs_view(pairs: Seq<(String, String)>) -> Seq<(Seq<char>, Seq<char>)> {
    pairs.map_values(|p: (String, String)| (p.0@, p.1@))
}

/// Relies on `url::Url::parse_with_params`: it parses `base` and appends the
/// pairs as a query; it fails only when `base` is no absolute URL, which the
/// download endpoint is. The text is the URL's serialisation (`Url::to_string`).
#[verifier::external_body]
fn query_url(base: &str, pairs: &Vec<(String, String)>) -> (r: Option<String>)
    ensures
        r matches Some(u) ==> u@ == url_with_query(base@, pairs_view(pairs@)),
        base@ == DOWNLOAD_ENDPOINT@ ==> r is Some,
{
    match url::Url::parse_with_params(base, pairs.iter()) {
        Ok(u) => Some(u.to_string()),
        Err(_) => None,
    }
}

/// The Google Drive release source.
pub struct GDriveReleases {}

/// Why a Google Drive download page gave no releases.
#[derive(Clone, Debug)]
pub enum GDriveError {
    /// The page could not be turned into a download URL.
    Url(String),
    /// Google Drive refused the request (status 403): it is rate limiting.
    RateLimited,
    /// Any other status than 200 or 403.
    BadStatus(u16),
}

/// What the status of the download page decides: 200 goes on, 403 means
/// rate limiting, anything else is a bad status.
pub open spec fn status_refusal(status: u16) -> Option<GDriveError> {
    if status == 200 {
        None
    } else if status == 403 {
        Some(GDriveError::RateLimited)
    } else {
        Some(GDriveError::BadStatus(status))
    }
}

/// The query of a download: the file id first, then the hidden form fields
/// of the download page, in page order.
pub open spec fn download_query(file_id: Seq<char>, hidden: Seq<(String, String)>) -> Seq<(Seq<char>, Seq<char>)> {
    seq![("id"@, file_id)] + pairs_view(hidden)
}

/// The releases a Google Drive file stands for: one release of version 1
/// with one file, which does not require authorization, at `url`.
pub open spec fn releases_at(url: Seq<char>, rs: Seq<Release>) -> bool {
    &&& rs.len() == 1
    &&& rs[0].name@ == DOWNLOAD_NAME@
    &&& rs[0].version == Version::Number(1)
    &&& rs[0].files@.len() == 1
    &&& rs[0].files@[0].name@ == DOWNLOAD_NAME@
    &&& rs[0].files@[0].url@ == url
    &&& !rs[0].files@[0].requires_authorization
}

impl GDriveReleases {
    pub fn new() -> (r: Self) {
        GDriveReleases {  }
    }

    /// The query pairs of a download of `file_id`, given the hidden form
    /// fields of its download page.
    pub fn download_params(file_id: &String, hidden: &Vec<(String, String)>) -> (r: Vec<(String, String)>)
        ensures
            pairs_view(r@) == download_query(file_id@, hidden@),
    {
        let mut params: Vec<(String, String)> = Vec::new();
        params.push(("id".to_string(), file_id.clone()));
        let mut i: usize = 0;
        while i < hidden.len()
            invariant
                i <= hidden@.len(),
                pairs_view(params@) == download_query(file_id@, hidden@.take(i as int)),
            decreases hidden@.len() - i,
        {
            let pair = &hidden[i];
            let ghost before = params@;
            params.push((pair.0.clone(), pair.1.clone()));
            assert(params@ == before.push(hidden@[i as int]));
            assert(pairs_view(params@) =~= pairs_view(before).push((hidden@[i as int].0@, hidden@[i as int].1@)));
            assert(hidden@.take(i + 1) =~= hidden@.take(i as int).push(hidden@[i as int]));
            assert(pairs_view(hidden@.take(i + 1)) =~= pairs_view(hidden@.take(i as int)).push((hidden@[i as int].0@, hidden@[i as int].1@)));
            assert(pairs_view(params@) =~= download_query(file_id@, hidden@.take(i + 1)));
            i = i + 1;
        }
        assert(hidden@.take(i as int) =~= hidden@);
        proof {
            reveal_strlit("id");
        }
        params
    }

    /// The releases of the file `file_id`: a single release whose file is
    /// the download URL made of the file id and the page's hidden fields.
    pub fn releases_for(file_id: &String, hidden: &Vec<(String, String)>) -> (r: Result<Vec<Release>, String>)
        ensures
            r is Ok,
            r matches Ok(rs) ==> releases_at(
                url_with_query(DOWNLOAD_ENDPOINT@, download_query(file_id@, hidden@)),
                rs@,
            ),
    {
        let params = GDriveReleases::download_params(file_id, hidden);
        match query_url(DOWNLOAD_ENDPOINT, &params) {
            None => Err("Unable to generate get URL".to_string()),
            Some(url) => Ok(GDriveReleases::releases_at_url(url)),
        }
    }

    /// The releases behind a download page that answered with `status` and
    /// whose download form holds the `hidden` fields: on status 200 the single
    /// release at the download URL, else the refusal the status stands for.
    pub fn releases_from_page(file_id: &String, status: u16, hidden: &Vec<(String, String)>) -> (r: Result<Vec<Release>, GDriveError>)
        ensures
            match status_refusal(status) {
                None => r matches Ok(rs) && releases_at(
                    url_with_query(DOWNLOAD_ENDPOINT@, download_query(file_id@, hidden@)),
                    rs@,
                ),
                Some(e) => r == Err::<Vec<Release>, GDriveError>(e),
            },
    {
        if status == 403 {
            return Err(GDriveError::RateLimited);
        }
        if status != 200 {
            return Err(GDriveError::BadStatus(status));
        }
        match GDriveReleases::releases_for(file_id, hidden) {
            Ok(rs) => Ok(rs),
            Err(m) => Err(GDriveError::Url(m)),
        }
    }

    /// The single release of a download at `url`.
    pub fn releases_at_url(url: String) -> (r: Vec<Release>)
        ensures
            releases_at(url@, r@),
    {
        let ghost url_view = url@;
        let mut files: Vec<File> = Vec::new();
        files.push(File { name: DOWNLOAD_NAME.to_string(), url, requires_authorization: false });
        let mut results: Vec<Release> = Vec::new();
        results.push(Release { name: DOWNLOAD_NAME.to_string(), version: Version::new_number(1), files });
        results
    }
}

} // verus!
