use vstd::prelude::*;

use crate::text::{decimal, u16_decimal};

verus! {

pub const NOT_SIGNED_IN: &'static str = "401 Unauthorized: Please login to view comments";
pub const INVALID_REPO_FORMAT: &'static str = "Invalid repo format";
pub const REPOSITORY_ID_MISSING: &'static str = "Could not find repository ID";
pub const CATEGORIES_MISSING: &'static str = "Could not find categories";
pub const CATEGORY_PREFIX: &'static str = "Category '";
pub const CATEGORY_SUFFIX: &'static str = "' not found";
pub const API_ERROR_PREFIX: &'static str = "GitHub API Error: ";
pub const STATUS_OPEN: &'static str = "GitHub API Error (";
pub const STATUS_CLOSE: &'static str = "): ";
pub const SPACE: &'static str = " ";
pub const NO_DATA: &'static str = "No data in response";
pub const DISCUSSION_NOT_FOUND: &'static str = "DISCUSSION_NOT_FOUND";

/// Why a request could not be made, or why its reply could not be used.
#[derive(Debug)]
pub enum KommentError {
    /// Comments are only loaded for a signed-in viewer.
    NotSignedIn,
    /// The configured repository is not of the form `owner/name`.
    InvalidRepoFormat,
    /// The repository reply carries no repository id.
    RepositoryIdMissing,
    /// The repository reply carries no list of discussion categories.
    CategoriesMissing,
    /// No discussion category has this name.
    CategoryNotFound(String),
    /// The server answered with a failing status and a JSON `message`.
    StatusMessage(u16, String),
    /// The server answered with a failing status and this body.
    StatusBody(u16, String),
    /// The GraphQL reply reports an error with this message.
    Api(String),
    /// The GraphQL reply has no `data`.
    NoData,
    /// The reply holds no discussion.
    DiscussionNotFound,
}

impl KommentError {
    /// The text shown to the user for this error.
    pub open spec fn message_text(&self) -> Seq<char> {
        match self {
            KommentError::NotSignedIn => NOT_SIGNED_IN@,
            KommentError::InvalidRepoFormat => INVALID_REPO_FORMAT@,
            KommentError::RepositoryIdMissing => REPOSITORY_ID_MISSING@,
            KommentError::CategoriesMissing => CATEGORIES_MISSING@,
            KommentError::CategoryNotFound(name) => CATEGORY_PREFIX@ + name@ + CATEGORY_SUFFIX@,
            KommentError::StatusMessage(status, message) => STATUS_OPEN@ + decimal(
                *status as nat,
            ) + STATUS_CLOSE@ + message@,
            KommentError::StatusBody(status, body) => API_ERROR_PREFIX@ + decimal(*status as nat)
                + SPACE@ + body@,
            KommentError::Api(message) => API_ERROR_PREFIX@ + message@,
            KommentError::NoData => NO_DATA@,
            KommentError::DiscussionNotFound => DISCUSSION_NOT_FOUND@,
        }
    }

    /// The text shown to the user for this error.
    pub fn message(&self) -> (m: String)
        ensures
            m@ == self.message_text(),
    {
        let mut m = String::new();
        match self {
            KommentError::NotSignedIn => m.append(NOT_SIGNED_IN),
            KommentError::InvalidRepoFormat => m.append(INVALID_REPO_FORMAT),
            KommentError::RepositoryIdMissing => m.append(REPOSITORY_ID_MISSING),
            KommentError::CategoriesMissing => m.append(CATEGORIES_MISSING),
            KommentError::CategoryNotFound(name) => {
                m.append(CATEGORY_PREFIX);
                m.append(name.as_str());
                m.append(CATEGORY_SUFFIX);
            },
            KommentError::StatusMessage(status, message) => {
                let digits = u16_decimal(*status);
                m.append(STATUS_OPEN);
                m.append(digits.as_str());
                m.append(STATUS_CLOSE);
                m.append(message.as_str());
            },
            KommentError::StatusBody(status, body) => {
                let digits = u16_decimal(*status);
                m.append(API_ERROR_PREFIX);
                m.append(digits.as_str());
                m.append(SPACE);
                m.append(body.as_str());
            },
            KommentError::Api(message) => {
                m.append(API_ERROR_PREFIX);
                m.append(message.as_str());
            },
            KommentError::NoData => m.append(NO_DATA),
            KommentError::DiscussionNotFound => m.append(DISCUSSION_NOT_FOUND),
        }
        m
    }
}

} // verus!
