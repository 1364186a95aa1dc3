//! Stateless field-level checks run by every mutating operation.
//!
//! Each check has a spec-level twin (`*_check`) that pins down exactly which
//! error, if any, a given text draws; the executable functions return
//! precisely that outcome. All length limits are byte counts of the UTF-8
//! encoding.

use vstd::prelude::*;
use vstd::string::StrSliceExecFns;

use crate::constant::{
    MAX_BIO_LENGTH, MAX_CATEGORY_LENGTH, MAX_CONTENT_LENGTH, MAX_KEYWORDS_LENGTH,
    MAX_TITLE_LENGTH, MAX_URL_LENGTH, MAX_USERNAME_LENGTH,
};
use crate::error::CaterpillarError;
use crate::text::{
    alphanumeric, byte_len, char_is_alphanumeric, has_prefix, starts_with_chars,
};

verus! {

/// Whether a character may appear in a username: alphanumeric, `_` or `-`.
pub open spec fn valid_username_char(c: char) -> bool {
    alphanumeric(c) || c == '_' || c == '-'
}

/// Whether every character of the username is allowed.
pub open spec fn well_formed_username(s: Seq<char>) -> bool {
    forall|i: int| 0 <= i < s.len() ==> valid_username_char(s[i])
}

/// The outcome of username validation.
pub open spec fn username_check(s: Seq<char>) -> Result<(), CaterpillarError> {
    if byte_len(s) > MAX_USERNAME_LENGTH {
        Err(CaterpillarError::UsernameTooLong)
    } else if s.len() == 0 {
        Err(CaterpillarError::UsernameEmpty)
    } else if !well_formed_username(s) {
        Err(CaterpillarError::InvalidUsernameFormat)
    } else {
        Ok(())
    }
}

/// The outcome of bio validation; an empty bio is allowed.
pub open spec fn bio_check(s: Seq<char>) -> Result<(), CaterpillarError> {
    if byte_len(s) > MAX_BIO_LENGTH {
        Err(CaterpillarError::BioTooLong)
    } else {
        Ok(())
    }
}

/// The outcome of title validation.
pub open spec fn title_check(s: Seq<char>) -> Result<(), CaterpillarError> {
    if byte_len(s) > MAX_TITLE_LENGTH {
        Err(CaterpillarError::TitleTooLong)
    } else if s.len() == 0 {
        Err(CaterpillarError::TitleEmpty)
    } else {
        Ok(())
    }
}

/// The outcome of content validation.
pub open spec fn content_check(s: Seq<char>) -> Result<(), CaterpillarError> {
    if byte_len(s) > MAX_CONTENT_LENGTH {
        Err(CaterpillarError::ContentTooLong)
    } else if s.len() == 0 {
        Err(CaterpillarError::ContentEmpty)
    } else {
        Ok(())
    }
}

/// The outcome of URL validation; an empty URL means "no cover image" and
/// is allowed.
pub open spec fn url_check(s: Seq<char>) -> Result<(), CaterpillarError> {
    if s.len() == 0 {
        Ok(())
    } else if byte_len(s) > MAX_URL_LENGTH {
        Err(CaterpillarError::UrlTooLong)
    } else if !(has_prefix(s, "http://"@) || has_prefix(s, "https://"@)) {
        Err(CaterpillarError::InvalidUrlFormat)
    } else {
        Ok(())
    }
}

/// The outcome of category validation.
pub open spec fn category_check(s: Seq<char>) -> Result<(), CaterpillarError> {
    if byte_len(s) > MAX_CATEGORY_LENGTH {
        Err(CaterpillarError::CategoryTooLong)
    } else if s.len() == 0 {
        Err(CaterpillarError::CategoryEmpty)
    } else {
        Ok(())
    }
}

/// The outcome of keywords validation; empty keywords are allowed.
pub open spec fn keywords_check(s: Seq<char>) -> Result<(), CaterpillarError> {
    if byte_len(s) > MAX_KEYWORDS_LENGTH {
        Err(CaterpillarError::KeywordsTooLong)
    } else {
        Ok(())
    }
}

/// Whether every character of the username is allowed.
fn all_username_chars(s: &str) -> (r: bool)
    ensures
        r == well_formed_username(s@),
{
    let n = s.unicode_len();
    let mut i: usize = 0;
    while i < n
        invariant
            0 <= i <= n,
            n == s@.len(),
            forall|j: int| 0 <= j < i ==> valid_username_char(s@[j]),
        decreases n - i,
    {
        let c = s.get_char(i);
        if !(char_is_alphanumeric(c) || c == '_' || c == '-') {
            return false;
        }
        i += 1;
    }
    true
}

/// Rejects a username that is empty, longer than 50 bytes, or holds a
/// character other than alphanumeric, `_` and `-`.
pub fn validate_username(username: &str) -> (r: Result<(), CaterpillarError>)
    ensures
        r == username_check(username@),
{
    if username.as_bytes().len() > MAX_USERNAME_LENGTH {
        return Err(CaterpillarError::UsernameTooLong);
    }
    if username.is_empty() {
        return Err(CaterpillarError::UsernameEmpty);
    }
    if !all_username_chars(username) {
        return Err(CaterpillarError::InvalidUsernameFormat);
    }
    Ok(())
}

/// Rejects a bio longer than 500 bytes; an empty bio is allowed.
pub fn validate_bio(bio: &str) -> (r: Result<(), CaterpillarError>)
    ensures
        r == bio_check(bio@),
{
    if bio.as_bytes().len() > MAX_BIO_LENGTH {
        return Err(CaterpillarError::BioTooLong);
    }
    Ok(())
}

/// Rejects a title that is empty or longer than 200 bytes.
pub fn validate_title(title: &str) -> (r: Result<(), CaterpillarError>)
    ensures
        r == title_check(title@),
{
    if title.as_bytes().len() > MAX_TITLE_LENGTH {
        return Err(CaterpillarError::TitleTooLong);
    }
    if title.is_empty() {
        return Err(CaterpillarError::TitleEmpty);
    }
    Ok(())
}

/// Rejects content that is empty or longer than 10000 bytes.
pub fn validate_content(content: &str) -> (r: Result<(), CaterpillarError>)
    ensures
        r == content_check(content@),
{
    if content.as_bytes().len() > MAX_CONTENT_LENGTH {
        return Err(CaterpillarError::ContentTooLong);
    }
    if content.is_empty() {
        return Err(CaterpillarError::ContentEmpty);
    }
    Ok(())
}

/// Accepts an empty URL ("no cover image"); otherwise rejects one longer
/// than 200 bytes or one that does not start with `http://` or `https://`.
pub fn validate_url(url: &str) -> (r: Result<(), CaterpillarError>)
    ensures
        r == url_check(url@),
{
    if url.is_empty() {
        return Ok(());
    }
    if url.as_bytes().len() > MAX_URL_LENGTH {
        return Err(CaterpillarError::UrlTooLong);
    }
    if !starts_with_chars(url, "http://") && !starts_with_chars(url, "https://") {
        return Err(CaterpillarError::InvalidUrlFormat);
    }
    Ok(())
}

/// Rejects a category that is empty or longer than 50 bytes.
pub fn validate_category(category: &str) -> (r: Result<(), CaterpillarError>)
    ensures
        r == category_check(category@),
{
    if category.as_bytes().len() > MAX_CATEGORY_LENGTH {
        return Err(CaterpillarError::CategoryTooLong);
    }
    if category.is_empty() {
        return Err(CaterpillarError::CategoryEmpty);
    }
    Ok(())
}

/// Rejects keywords longer than 200 bytes; empty keywords are allowed.
pub fn validate_keywords(keywords: &str) -> (r: Result<(), CaterpillarError>)
    ensures
        r == keywords_check(keywords@),
{
    if keywords.as_bytes().len() > MAX_KEYWORDS_LENGTH {
        return Err(CaterpillarError::KeywordsTooLong);
    }
    Ok(())
}

} // verus!
