//! Building search-result URLs from a static site table and a user's
//! search term. The URL syntax itself (parsing, percent-encoding and
//! serialisation) is the `url` crate's work, behind trusted wrappers.

use vstd::prelude::*;
use crate::text::{trim, trimmed};

verus! {

/// One entry of the site table: the base URL, the query or path prefix the
/// term is appended to, whether the term goes into the path (as for a wiki)
/// rather than the query string, and the author header shown on the reply
/// (site name, page URL, icon URL).
pub struct SiteEntry {
    pub base: String,
    pub query_prefix: String,
    pub path_mode: bool,
    pub author_name: String,
    pub author_url: String,
    pub author_icon: String,
}

/// Whether `url::Url::parse` accepts `base`: a function of the base alone.
pub uninterp spec fn url_parse_ok(base: Seq<char>) -> bool;

/// What `url::Url::parse` followed by `Url::set_query` serialises to, for
/// a given base and query string.
pub uninterp spec fn url_query_of(base: Seq<char>, query: Seq<char>) -> Seq<char>;

/// What `url::Url::parse` followed by `Url::set_path` serialises to, for a
/// given base and path string.
pub uninterp spec fn url_path_of(base: Seq<char>, path: Seq<char>) -> Seq<char>;

/// Relies on url::Url::parse, Url::set_query and the Url-to-String
/// conversion: parsing succeeds as a function of `base` alone, set_query
/// never fails, and the serialisation depends on the two inputs alone.
#[verifier::external_body]
fn url_with_query(base: &str, query: &str) -> (r: Option<String>)
    ensures
        r is Some <==> url_parse_ok(base@),
        r matches Some(u) ==> u@ == url_query_of(base@, query@),
{
    match url::Url::parse(base) {
        Ok(mut u) => {
            u.set_query(Some(query));
            Some(String::from(u))
        },
        Err(_) => None,
    }
}

/// Relies on url::Url::parse, Url::set_path and the Url-to-String
/// conversion: parsing succeeds as a function of `base` alone, set_path
/// never fails, and the serialisation depends on the two inputs alone.
#[verifier::external_body]
fn url_with_path(base: &str, path: &str) -> (r: Option<String>)
    ensures
        r is Some <==> url_parse_ok(base@),
        r matches Some(u) ==> u@ == url_path_of(base@, path@),
{
    match url::Url::parse(base) {
        Ok(mut u) => {
            u.set_path(path);
            Some(String::from(u))
        },
        Err(_) => None,
    }
}

/// The outcome of building a search reply.
pub enum SearchOutcome {
    /// The trimmed term was empty: nothing to search for.
    EmptyTerm,
    /// The site entry was absent, or no URL could be built from its base.
    SiteMissing,
    /// The search-result URL to show.
    Built { url: String },
}

/// Wraps what the URL builder handed back: a built string becomes the
/// reply, and a failure degrades to the same outcome as a missing site.
pub fn outcome_of_built(built: Option<String>) -> (r: SearchOutcome)
    ensures
        match built {
            Some(u) => r matches SearchOutcome::Built { url } && url@ == u@,
            None => r is SiteMissing,
        },
{
    match built {
        Some(u) => SearchOutcome::Built { url: u },
        None => SearchOutcome::SiteMissing,
    }
}

/// Builds the search reply for one site and one raw argument string: the
/// term is the trimmed arguments; an empty term is rejected; otherwise the
/// term is appended to the site's prefix and serialised into the site's
/// URL, in the path or the query as the entry says.
pub fn get_search_embed(site: Option<&SiteEntry>, raw_term: &str) -> (r: SearchOutcome)
    ensures
        ({
            let t = trimmed(raw_term@);
            if t.len() == 0 {
                r is EmptyTerm
            } else {
                match site {
                    None => r is SiteMissing,
                    Some(s) => {
                        let expect = if s.path_mode {
                            url_path_of(s.base@, s.query_prefix@ + t)
                        } else {
                            url_query_of(s.base@, s.query_prefix@ + t)
                        };
                        if url_parse_ok(s.base@) {
                            r matches SearchOutcome::Built { url } && url@ == expect
                        } else {
                            r is SiteMissing
                        }
                    },
                }
            }
        }),
{
    let term = trim(raw_term);
    if term.unicode_len() == 0 {
        return SearchOutcome::EmptyTerm;
    }
    match site {
        None => SearchOutcome::SiteMissing,
        Some(s) => {
            let mut rest = s.query_prefix.clone();
            rest.append(term);
            let built = if s.path_mode {
                url_with_path(s.base.as_str(), rest.as_str())
            } else {
                url_with_query(s.base.as_str(), rest.as_str())
            };
            outcome_of_built(built)
        },
    }
}

/// The static site table, in a fixed order: web search, image search,
/// dictionary (path mode), and slang dictionary, each with the author
/// header its replies carry.
pub fn set_sites() -> (r: Vec<SiteEntry>)
    ensures
        r@.len() == 4,
        r@[0].base@ == "https://www.google.com/search"@ && r@[0].query_prefix@ == "q="@
            && !r@[0].path_mode,
        r@[1].base@ == "https://www.google.com/search"@ && r@[1].query_prefix@ == "tbm=isch&q="@
            && !r@[1].path_mode,
        r@[2].base@ == "https://en.wiktionary.org"@ && r@[2].query_prefix@ == "wiki/"@
            && r@[2].path_mode,
        r@[3].base@ == "https://www.urbandictionary.com/define.php"@ && r@[3].query_prefix@
            == "term="@ && !r@[3].path_mode,
        r@[0].author_name@ == "Google"@ && r@[0].author_url@ == "https://www.google.com/"@
            && r@[0].author_icon@
            == "https://upload.wikimedia.org/wikipedia/commons/thumb/5/53/Google_%22G%22_Logo.svg/500px-Google_%22G%22_Logo.svg.png"@,
        r@[1].author_name@ == "Google Images"@ && r@[1].author_url@
            == "https://images.google.com/"@ && r@[1].author_icon@
            == "https://upload.wikimedia.org/wikipedia/commons/thumb/5/53/Google_%22G%22_Logo.svg/500px-Google_%22G%22_Logo.svg.png"@,
        r@[2].author_name@ == "Wiktionary"@ && r@[2].author_url@ == "https://en.wiktionary.org/"@
            && r@[2].author_icon@
            == "https://upload.wikimedia.org/wikipedia/commons/0/07/Wiktsister_en.png"@,
        r@[3].author_name@ == "Urban Dictionary"@ && r@[3].author_url@
            == "https://www.urbandictionary.com/"@ && r@[3].author_icon@
            == "https://static.wikia.nocookie.net/logopedia/images/0/0b/UDFavicon.png"@,
{
    let mut v: Vec<SiteEntry> = Vec::new();
    v.push(
        SiteEntry {
            base: String::from_str("https://www.google.com/search"),
            query_prefix: String::from_str("q="),
            path_mode: false,
            author_name: String::from_str("Google"),
            author_url: String::from_str("https://www.google.com/"),
            author_icon: String::from_str(
                "https://upload.wikimedia.org/wikipedia/commons/thumb/5/53/Google_%22G%22_Logo.svg/500px-Google_%22G%22_Logo.svg.png",
            ),
        },
    );
    v.push(
        SiteEntry {
            base: String::from_str("https://www.google.com/search"),
            query_prefix: String::from_str("tbm=isch&q="),
            path_mode: false,
            author_name: String::from_str("Google Images"),
            author_url: String::from_str("https://images.google.com/"),
            author_icon: String::from_str(
                "https://upload.wikimedia.org/wikipedia/commons/thumb/5/53/Google_%22G%22_Logo.svg/500px-Google_%22G%22_Logo.svg.png",
            ),
        },
    );
    v.push(
        SiteEntry {
            base: String::from_str("https://en.wiktionary.org"),
            query_prefix: String::from_str("wiki/"),
            path_mode: true,
            author_name: String::from_str("Wiktionary"),
            author_url: String::from_str("https://en.wiktionary.org/"),
            author_icon: String::from_str(
                "https://upload.wikimedia.org/wikipedia/commons/0/07/Wiktsister_en.png",
            ),
        },
    );
    v.push(
        SiteEntry {
            base: String::from_str("https://www.urbandictionary.com/define.php"),
            query_prefix: String::from_str("term="),
            path_mode: false,
            author_name: String::from_str("Urban Dictionary"),
            author_url: String::from_str("https://www.urbandictionary.com/"),
            author_icon: String::from_str(
                "https://static.wikia.nocookie.net/logopedia/images/0/0b/UDFavicon.png",
            ),
        },
    );
    v
}

} // verus!
