//! URIs, as the texts that serialize them.
//!
//! What a URL is, and how a reference is resolved against one, is the
//! business of the `url` crate. The library holds a URI as the text that
//! the crate serializes it to, and states what the crate computes by name.
use vstd::prelude::*;

use crate::text::starts_with;

verus! {

/// `url::ParseError`, why a text is no URL; carried through as it is.
#[verifier::external_type_specification]
#[verifier::external_body]
pub struct ExParseError(url::ParseError);

/// The serialization of the URL that `url::Url::parse` reads from a text;
/// `None` where it reads none.
pub uninterp spec fn url_parse(text: Seq<char>) -> Option<Seq<char>>;

/// The serialization of the URL that `url::Url::join` resolves a reference
/// to, against the URL that `base` serializes; `None` where it fails.
pub uninterp spec fn url_join(base: Seq<char>, reference: Seq<char>) -> Option<Seq<char>>;

/// The serialization of the URL that `url::Url::from_file_path` makes of a
/// path; `None` where it makes none.
pub uninterp spec fn url_from_file_path(path: Seq<char>) -> Option<Seq<char>>;

/// The serialization of the URL that `url::Url::from_directory_path` makes
/// of a path; `None` where it makes none.
pub uninterp spec fn url_from_directory_path(path: Seq<char>) -> Option<Seq<char>>;

/// The path that `url::Url::to_file_path` gives for the URL that a text
/// serializes; `None` where it gives none, or one that is no text.
pub uninterp spec fn url_to_file_path(url: Seq<char>) -> Option<Seq<char>>;

/// Calls `url::Url::parse` and hands back the serialization of the URL.
#[verifier::external_body]
fn parse_url(input: &str) -> (result: Result<String, url::ParseError>)
    ensures
        result is Ok <==> url_parse(input@) is Some,
        result matches Ok(text) ==> url_parse(input@) == Some(text@),
{
    url::Url::parse(input).map(String::from)
}

/// Calls `url::Url::join` on the URL that `base` serializes, read back
/// with `url::Url::parse`, and hands back the serialization of the result.
#[verifier::external_body]
fn join_url(base: &str, reference: &str) -> (result: Result<String, url::ParseError>)
    ensures
        result is Ok <==> url_join(base@, reference@) is Some,
        result matches Ok(text) ==> url_join(base@, reference@) == Some(text@),
{
    url::Url::parse(base)?.join(reference).map(String::from)
}

/// Calls `url::Url::from_file_path` and hands back the serialization of the
/// URL.
#[verifier::external_body]
fn file_url(path: &str) -> (result: Option<String>)
    ensures
        result is Some <==> url_from_file_path(path@) is Some,
        result matches Some(text) ==> url_from_file_path(path@) == Some(text@),
{
    url::Url::from_file_path(path).ok().map(String::from)
}

/// Calls `url::Url::from_directory_path` and hands back the serialization
/// of the URL.
#[verifier::external_body]
fn directory_url(path: &str) -> (result: Option<String>)
    ensures
        result is Some <==> url_from_directory_path(path@) is Some,
        result matches Some(text) ==> url_from_directory_path(path@) == Some(text@),
{
    url::Url::from_directory_path(path).ok().map(String::from)
}

/// Calls `url::Url::to_file_path` on the URL that `url` serializes, read
/// back with `url::Url::parse`, and hands back the path as text.
#[verifier::external_body]
fn file_path(url: &str) -> (result: Option<String>)
    ensures
        result is Some <==> url_to_file_path(url@) is Some,
        result matches Some(path) ==> url_to_file_path(url@) == Some(path@),
{
    let path = url::Url::parse(url).ok()?.to_file_path().ok()?;
    path.into_os_string().into_string().ok()
}

/// A URI: the text that serializes a URL.
#[derive(Clone, Debug, PartialEq, Eq)]
pub struct Uri {
    text: String,
}

impl View for Uri {
    type V = Seq<char>;

    closed spec fn view(&self) -> Seq<char> {
        self.text@
    }
}

/// Whether a serialized URI has a scheme: the scheme is what stands before
/// the first colon.
pub open spec fn has_scheme(uri: Seq<char>, scheme: Seq<char>) -> bool {
    (scheme + ":"@).is_prefix_of(uri)
}

/// Whether a text is the serialization of the URL that it is read as.
pub open spec fn is_serialized(text: Seq<char>) -> bool {
    url_parse(text) == Some(text)
}

impl Uri {
    /// Reads a URI from a text.
    pub fn parse(input: &str) -> (result: Result<Uri, url::ParseError>)
        ensures
            result is Ok <==> url_parse(input@) is Some,
            result matches Ok(uri) ==> url_parse(input@) == Some(uri@),
    {
        match parse_url(input) {
            Ok(text) => Ok(Uri { text }),
            Err(error) => Err(error),
        }
    }

    /// Resolves a reference against this URI.
    pub fn join(&self, reference: &str) -> (result: Result<Uri, url::ParseError>)
        ensures
            result is Ok <==> url_join(self@, reference@) is Some,
            result matches Ok(uri) ==> url_join(self@, reference@) == Some(uri@),
    {
        match join_url(self.text.as_str(), reference) {
            Ok(text) => Ok(Uri { text }),
            Err(error) => Err(error),
        }
    }

    /// The `file` URI of the file at an absolute path.
    pub fn from_file_path(path: &str) -> (result: Option<Uri>)
        ensures
            result is Some <==> url_from_file_path(path@) is Some,
            result matches Some(uri) ==> url_from_file_path(path@) == Some(uri@),
    {
        match file_url(path) {
            Some(text) => Some(Uri { text }),
            None => None,
        }
    }

    /// The `file` URI of the directory at an absolute path; it ends with a
    /// slash.
    pub fn from_directory_path(path: &str) -> (result: Option<Uri>)
        ensures
            result is Some <==> url_from_directory_path(path@) is Some,
            result matches Some(uri) ==> url_from_directory_path(path@) == Some(uri@),
    {
        match directory_url(path) {
            Some(text) => Some(Uri { text }),
            None => None,
        }
    }

    /// The path of the file that this URI names.
    pub fn to_file_path(&self) -> (result: Option<String>)
        ensures
            result is Some <==> url_to_file_path(self@) is Some,
            result matches Some(path) ==> url_to_file_path(self@) == Some(path@),
    {
        file_path(self.text.as_str())
    }

    /// A copy of this URI.
    pub fn duplicate(&self) -> (copy: Uri)
        ensures
            copy@ == self@,
    {
        Uri { text: self.text.clone() }
    }

    /// The text of this URI.
    pub fn as_str(&self) -> (text: &str)
        ensures
            text@ == self@,
    {
        self.text.as_str()
    }

    /// The text of this URI.
    pub fn into_string(self) -> (text: String)
        ensures
            text@ == self@,
    {
        self.text
    }

    /// Whether this URI has the scheme.
    pub fn has_scheme(&self, scheme: &str) -> (found: bool)
        ensures
            found == has_scheme(self@, scheme@),
    {
        let prefix = crate::text::concat(scheme, ":");
        starts_with(self.text.as_str(), prefix.as_str())
    }
}

} // verus!
