//! The word count of the document: where it is asked for, and how it is read
//! out of what the document service answers.

use vstd::prelude::*;
use vstd::string::StringExecFns;

verus! {

/// What the address of a document's word count starts with, before the
/// document's identifier.
pub const ADDRESS_HEAD: &'static str = "https://www.overleaf.com/project/";

/// What the address of a document's word count ends with, after the
/// document's identifier.
pub const ADDRESS_TAIL: &'static str = "/wordcount";

/// The name of the session cookie, with the equals sign.
pub const COOKIE_HEAD: &'static str = "overleaf_session2=";

/// The member of the answer that holds the counts.
pub const COUNTS_KEY: &'static str = "texcount";

/// The member of the counts that holds the count of the words of the text.
pub const WORDS_KEY: &'static str = "textWords";

/// The only status with which an answer is read.
pub const STATUS_OK: u16 = 200;

/// Why an answer of the document service gave no count.
#[derive(Clone, Copy, Debug, PartialEq, Eq, Structural)]
pub enum FetchError {
    /// The answer came with this status, which is not 200.
    Status(u16),
    /// The answer's body is not a JSON document.
    Malformed,
    /// The body has no word count: the member is missing, or it is not a
    /// non-negative integer that fits a count, which has 32 bits.
    NoWordCount,
}

/// `serde_json::Error`, the error of `serde_json::from_slice`. Nothing is
/// known of what it holds.
#[verifier::external_type_specification]
#[verifier::external_body]
pub struct ExJsonError(serde_json::Error);

/// What `serde_json` finds in the JSON document `body` under the key `outer`
/// and, in what is there, under the key `inner`, read as a `u64`:
/// nothing at all where `body` is no JSON document; otherwise the number
/// where there is a non-negative integer in that place that fits, and no
/// number where there is not.
pub uninterp spec fn json_member_u64(body: Seq<u8>, outer: Seq<char>, inner: Seq<char>) -> Option<
    Option<u64>,
>;

/// `serde_json::from_slice` to a `serde_json::Value`, that value indexed by
/// `outer` and then by `inner`, and `Value::as_u64` of what is there.
/// Trusted: the result is `json_member_u64` of the arguments, with the error
/// of `from_slice` where that is nothing at all.
#[verifier::external_body]
fn member_u64(body: &[u8], outer: &str, inner: &str) -> (found: Result<
    Option<u64>,
    serde_json::Error,
>)
    ensures
        match found {
            Ok(number) => json_member_u64(body@, outer@, inner@) == Some(number),
            Err(_) => json_member_u64(body@, outer@, inner@) is None,
        },
{
    let document: serde_json::Value = serde_json::from_slice(body)?;
    Ok(document[outer][inner].as_u64())
}

/// The address at which the word count of the document `document` is asked
/// for.
pub fn word_count_address(document: &str) -> (address: String)
    ensures
        address@ == ADDRESS_HEAD@ + document@ + ADDRESS_TAIL@,
{
    let mut address = String::from_str(ADDRESS_HEAD);
    address.append(document);
    address.append(ADDRESS_TAIL);
    address
}

/// The cookie that carries the session key `session`.
pub fn session_cookie(session: &str) -> (cookie: String)
    ensures
        cookie@ == COOKIE_HEAD@ + session@,
{
    let mut cookie = String::from_str(COOKIE_HEAD);
    cookie.append(session);
    cookie
}

/// The count that an answer gives, by its status and by what was found in
/// its body: an error unless the status is 200, the body a JSON document and
/// a number that fits a count in the place of the word count; then that
/// number, as it is.
pub open spec fn reading(status: u16, found: Option<Option<u64>>) -> Result<u32, FetchError> {
    if status != STATUS_OK {
        Err(FetchError::Status(status))
    } else {
        match found {
            None => Err(FetchError::Malformed),
            Some(None) => Err(FetchError::NoWordCount),
            Some(Some(number)) => if number <= u32::MAX {
                Ok(number as u32)
            } else {
                Err(FetchError::NoWordCount)
            },
        }
    }
}

/// A count is read if and only if the status is 200 and the number found is
/// that count: no count is ever made up, and a number too large for a count
/// is an error.
pub proof fn lemma_count_is_the_number_found(status: u16, found: Option<Option<u64>>, count: u32)
    ensures
        reading(status, found) == Ok::<u32, FetchError>(count) <==> status == STATUS_OK && found
            == Some(Some(count as u64)),
        reading(status, found) is Err <==> status != STATUS_OK || !(found matches Some(
            Some(number),
        ) && number <= u32::MAX),
{
}

/// The count that an answer gives, by its status and by what was found in
/// its body.
pub fn read_count(status: u16, found: Option<Option<u64>>) -> (count: Result<u32, FetchError>)
    ensures
        count == reading(status, found),
{
    if status != STATUS_OK {
        return Err(FetchError::Status(status));
    }
    match found {
        None => Err(FetchError::Malformed),
        Some(None) => Err(FetchError::NoWordCount),
        Some(Some(number)) => {
            if number <= u32::MAX as u64 {
                Ok(number as u32)
            } else {
                Err(FetchError::NoWordCount)
            }
        },
    }
}

/// The word count in an answer of the document service with the status
/// `status` and the body `body`.
pub fn word_count_from_response(status: u16, body: &[u8]) -> (count: Result<u32, FetchError>)
    ensures
        count == reading(status, json_member_u64(body@, COUNTS_KEY@, WORDS_KEY@)),
{
    if status != STATUS_OK {
        return Err(FetchError::Status(status));
    }
    let found = match member_u64(body, COUNTS_KEY, WORDS_KEY) {
        Ok(number) => Some(number),
        Err(_) => None,
    };
    read_count(status, found)
}

} // verus!
