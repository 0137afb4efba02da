//! Where the arrays of a scene are found: in a file or behind a URL, and
//! under which names in the archive.
use vstd::prelude::*;
use regex::Regex;

verus! {

/// Where a dataset is read from.
#[derive(Clone, Copy, Debug, PartialEq, Eq, Structural)]
pub enum DatasetSource {
    /// Fetched over HTTP or HTTPS.
    Url,
    /// Opened as a file.
    FilePath,
}

/// Whether `pattern`, read as a regular expression of the `regex` crate,
/// matches somewhere in `haystack`; `None` where `pattern` is not a regular
/// expression that the crate compiles.
pub uninterp spec fn regex_search(pattern: Seq<char>, haystack: Seq<char>) -> Option<bool>;

/// Calls `regex::Regex::new` on the pattern and `Regex::is_match` on the
/// haystack. Trusted: that what comes back depends on the two strings alone.
#[verifier::external_body]
fn search(pattern: &str, haystack: &str) -> (found: Option<bool>)
    ensures
        found == regex_search(pattern@, haystack@),
{
    match Regex::new(pattern) {
        Ok(regex) => Some(regex.is_match(haystack)),
        Err(_) => None,
    }
}

/// Calls `npyz::npz::file_name_from_array_name`. Trusted: that the file
/// name is the array's name followed by `.npy`.
#[verifier::external_body]
fn file_name_from_array_name(name: &str) -> (file_name: String)
    ensures
        file_name@ == name@ + ".npy"@,
{
    npyz::npz::file_name_from_array_name(name)
}

/// The source that a search for a URL scheme stands for: a URL where one
/// was found, a file path where none was found or none could be looked for.
pub open spec fn spec_source(found: Option<bool>) -> DatasetSource {
    if found == Some(true) {
        DatasetSource::Url
    } else {
        DatasetSource::FilePath
    }
}

impl DatasetSource {
    /// The pattern whose match makes a text a URL.
    pub fn url_pattern() -> (pattern: &'static str)
        ensures
            pattern@ == "https?://"@,
    {
        "https?://"
    }

    /// The source that the outcome of a search for [`Self::url_pattern`]
    /// stands for.
    pub fn from_search(found: Option<bool>) -> (source: DatasetSource)
        ensures
            source == spec_source(found),
    {
        match found {
            Some(true) => DatasetSource::Url,
            _ => DatasetSource::FilePath,
        }
    }

    /// Whether `file_path_or_url` names a file or a URL: it is a URL where
    /// `http://` or `https://` occurs in it.
    pub fn of(file_path_or_url: &str) -> (source: DatasetSource)
        ensures
            source == spec_source(regex_search("https?://"@, file_path_or_url@)),
    {
        DatasetSource::from_search(search(DatasetSource::url_pattern(), file_path_or_url))
    }
}

/// The names under which an archive holds the focal length, the images and
/// the poses of a scene, in this order.
pub fn array_file_names() -> (names: Vec<String>)
    ensures
        names@.len() == 3,
        names@[0]@ == "focal"@ + ".npy"@,
        names@[1]@ == "images"@ + ".npy"@,
        names@[2]@ == "poses"@ + ".npy"@,
{
    let mut names: Vec<String> = Vec::new();
    names.push(file_name_from_array_name("focal"));
    names.push(file_name_from_array_name("images"));
    names.push(file_name_from_array_name("poses"));
    names
}

} // verus!
