//! The data of the server-rendered pages.

use vstd::prelude::*;
use crate::strings::{concat, concat3, decimal, decimal_string, owned};

verus! {

broadcast use vstd::string::group_string_axioms;

/// The version of the server.
pub open spec fn server_version() -> Seq<char> {
    "0.1.0"@
}

/// Main page.
#[derive(Debug)]
pub struct IndexTemplate {
    pub title: String,
    pub version: String,
    pub dev_mode: bool,
}

/// Repository page.
#[derive(Debug)]
pub struct RepositoryTemplate {
    pub title: String,
    pub repository: String,
    pub session_id: String,
    pub is_indexed: bool,
}

/// Wiki page.
#[derive(Debug)]
pub struct WikiTemplate {
    pub title: String,
    pub wiki: WikiData,
    pub session_id: String,
}

/// Chat page.
#[derive(Debug)]
pub struct ChatTemplate {
    pub title: String,
    pub repository: String,
    pub session_id: String,
}

/// Error page.
#[derive(Debug)]
pub struct ErrorTemplate {
    pub title: String,
    pub error_code: u16,
    pub error_message: String,
}

/// A wiki, as the pages show it.
#[derive(Debug)]
pub struct WikiData {
    pub id: String,
    pub title: String,
    pub description: String,
    pub pages: Vec<WikiPageData>,
    pub sections: Vec<WikiSectionData>,
}

/// A wiki page, as the pages show it.
#[derive(Debug)]
pub struct WikiPageData {
    pub id: String,
    pub title: String,
    pub description: String,
    pub content: String,
    pub importance: String,
    pub reading_time: u32,
}

/// A wiki section, as the pages show it.
#[derive(Debug)]
pub struct WikiSectionData {
    pub id: String,
    pub title: String,
    pub description: String,
    pub pages: Vec<String>,
}

impl IndexTemplate {
    /// The main page.
    pub fn new(dev_mode: bool) -> (t: Self)
        ensures
            t.title@ == "Wikify - AI-Powered Repository Documentation"@,
            t.version@ == server_version(),
            t.dev_mode == dev_mode,
    {
        IndexTemplate {
            title: owned("Wikify - AI-Powered Repository Documentation"),
            version: owned("0.1.0"),
            dev_mode,
        }
    }
}

impl RepositoryTemplate {
    /// The page of `repository`, titled after it.
    pub fn new(repository: String, session_id: String, is_indexed: bool) -> (t: Self)
        ensures
            t.title@ == "Wikify - "@ + repository@,
            t.repository == repository,
            t.session_id == session_id,
            t.is_indexed == is_indexed,
    {
        let title = concat("Wikify - ", repository.as_str());
        RepositoryTemplate { title, repository, session_id, is_indexed }
    }
}

impl WikiTemplate {
    /// The page of `wiki`, titled after it.
    pub fn new(wiki: WikiData, session_id: String) -> (t: Self)
        ensures
            t.title@ == "Wikify - "@ + wiki.title@,
            t.wiki == wiki,
            t.session_id == session_id,
    {
        let title = concat("Wikify - ", wiki.title.as_str());
        WikiTemplate { title, wiki, session_id }
    }
}

impl ChatTemplate {
    /// The chat page of `repository`, titled after it.
    pub fn new(repository: String, session_id: String) -> (t: Self)
        ensures
            t.title@ == "Wikify Chat - "@ + repository@,
            t.repository == repository,
            t.session_id == session_id,
    {
        let title = concat("Wikify Chat - ", repository.as_str());
        ChatTemplate { title, repository, session_id }
    }
}

impl ErrorTemplate {
    /// The page of an error, titled after its code.
    pub fn new(error_code: u16, error_message: String) -> (t: Self)
        ensures
            t.title@ == "Error "@ + decimal(error_code as nat) + " - Wikify"@,
            t.error_code == error_code,
            t.error_message == error_message,
    {
        let code = decimal_string(error_code as u64);
        let title = concat3("Error ", code.as_str(), " - Wikify");
        ErrorTemplate { title, error_code, error_message }
    }
}

} // verus!
