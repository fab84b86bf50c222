//! Queue items, their identifiers and their resource locators.
use crate::text::digit_char;
use vstd::prelude::*;

verus! {

/// One media entry of the play queue.
///
/// An item is made once and never changed. Its identifier tells it apart
/// from every other entry, for removal and for presenting it to a user.
#[derive(Debug, PartialEq, Eq)]
pub struct QueueItem {
    /// Name shown to users.
    pub display_name: String,
    /// Resource locator, in URL form.
    pub uri: String,
    /// Unique identifier, as the 128 bits of a UUID.
    pub id: u128,
    /// Whether a completion callback was registered with the item.
    pub has_callback: bool,
}

impl Clone for QueueItem {
    fn clone(&self) -> (r: Self)
        ensures
            r == *self,
    {
        QueueItem {
            display_name: self.display_name.clone(),
            uri: self.uri.clone(),
            id: self.id,
            has_callback: self.has_callback,
        }
    }
}

/// Whether `id` carries the version and variant marks of a random UUID.
pub open spec fn is_random_id(id: u128) -> bool {
    id & 0xF000_C000_0000_0000_0000u128 == 0x4000_8000_0000_0000_0000u128
}

/// Draws a fresh identifier with `uuid::Uuid::new_v4` and returns its 128
/// bits, most significant byte first (`Uuid::as_u128`).
///
/// Trusted: the value is random, so the contract states only what holds of
/// every version 4 UUID, namely its version nibble (4) and its variant bits
/// (binary 10). The crate panics where the operating system has no random
/// bytes to give; no argument decides that, so no precondition can rule it
/// out.
#[verifier::external_body]
fn fresh_id() -> (id: u128)
    ensures
        is_random_id(id),
{
    uuid::Uuid::new_v4().as_u128()
}

/// The serialization of the `file` URL that `url::Url::from_file_path` makes
/// of a path, or `None` where it refuses the path.
pub uninterp spec fn file_url_text(path: Seq<char>) -> Option<Seq<char>>;

/// The serialization of the URL that `url::Url::parse` reads from a text, or
/// `None` where the text is no URL.
pub uninterp spec fn parsed_url_text(text: Seq<char>) -> Option<Seq<char>>;

/// Converts a filesystem path to a `file` URL with
/// `url::Url::from_file_path` and returns the URL's serialization.
///
/// Trusted: the result is the one that [`file_url_text`] names; the
/// conversion depends on the path alone and refuses a path that is not
/// absolute.
#[verifier::external_body]
fn file_url(path: &str) -> (r: Option<String>)
    ensures
        r is Some <==> file_url_text(path@) is Some,
        r is Some ==> r->Some_0@ == file_url_text(path@)->Some_0,
{
    match url::Url::from_file_path(path) {
        Ok(url) => Some(String::from(url)),
        Err(_) => None,
    }
}

/// Parses a text with `url::Url::parse` and returns the URL's serialization.
///
/// Trusted: the result is the one that [`parsed_url_text`] names; parsing
/// depends on the text alone.
#[verifier::external_body]
fn parse_url(text: &str) -> (r: Option<String>)
    ensures
        r is Some <==> parsed_url_text(text@) is Some,
        r is Some ==> r->Some_0@ == parsed_url_text(text@)->Some_0,
{
    match url::Url::parse(text) {
        Ok(url) => Some(String::from(url)),
        Err(_) => None,
    }
}

/// Whether a locator is taken as a path of the local filesystem: it is
/// where it begins with `/`.
pub open spec fn names_local_path(uri: Seq<char>) -> bool {
    uri.len() > 0 && uri[0] == '/'
}

/// The URL form of a locator that a user gave: a local path is turned into
/// a `file` URL first; every text must then read as a URL.
pub open spec fn locator_text(uri: Seq<char>) -> Option<Seq<char>> {
    if names_local_path(uri) {
        match file_url_text(uri) {
            Some(url) => parsed_url_text(url),
            None => None,
        }
    } else {
        parsed_url_text(uri)
    }
}

/// Tells whether a locator is taken as a path of the local filesystem.
pub fn is_local_path(uri: &str) -> (r: bool)
    ensures
        r == names_local_path(uri@),
{
    !uri.is_empty() && uri.get_char(0) == '/'
}

/// Brings a locator into URL form, or returns `None` where it is malformed.
pub fn normalize_locator(uri: &str) -> (r: Option<String>)
    ensures
        r is Some <==> locator_text(uri@) is Some,
        r is Some ==> r->Some_0@ == locator_text(uri@)->Some_0,
{
    if is_local_path(uri) {
        match file_url(uri) {
            Some(url) => parse_url(url.as_str()),
            None => None,
        }
    } else {
        parse_url(uri)
    }
}

/// The character that writes a hexadecimal digit, in lower case.
pub open spec fn hex_char(digit: nat) -> char {
    if digit < 10 {
        digit_char(digit)
    } else if digit == 10 {
        'a'
    } else if digit == 11 {
        'b'
    } else if digit == 12 {
        'c'
    } else if digit == 13 {
        'd'
    } else if digit == 14 {
        'e'
    } else {
        'f'
    }
}

/// The hexadecimal digit of `id` at position `k`, counted from the most
/// significant, which is at 0.
pub open spec fn hex_digit(id: u128, k: int) -> nat {
    ((id >> ((4 * (31 - k)) as u128)) & 0xf) as nat
}

/// The number of hyphens that stand before position `i` of a hyphenated
/// UUID.
pub open spec fn hyphens_before(i: int) -> int {
    if i < 8 {
        0
    } else if i < 13 {
        1
    } else if i < 18 {
        2
    } else if i < 23 {
        3
    } else {
        4
    }
}

/// The UUID with the bits `id`, written in hyphenated form: 32 hexadecimal
/// digits in lower case, in groups of 8, 4, 4, 4 and 12.
pub open spec fn uuid_text(id: u128) -> Seq<char> {
    Seq::new(
        36,
        |i: int|
            if i == 8 || i == 13 || i == 18 || i == 23 {
                '-'
            } else {
                hex_char(hex_digit(id, i - hyphens_before(i)))
            },
    )
}

/// The bits of the UUID that `uuid::Uuid::parse_str` reads from a text, or
/// `None` where the text writes no UUID.
pub uninterp spec fn parsed_uuid(text: Seq<char>) -> Option<u128>;

/// Writes an identifier as a UUID with `uuid::Uuid::from_u128` and the
/// UUID's `to_string`.
///
/// Trusted: the text is the hyphenated lower-case form, and it is one of
/// the forms that the crate's parser reads back.
#[verifier::external_body]
fn format_id(id: u128) -> (text: String)
    ensures
        text@ == uuid_text(id),
        parsed_uuid(text@) == Some(id),
{
    uuid::Uuid::from_u128(id).to_string()
}

/// Reads an identifier with `uuid::Uuid::parse_str`.
///
/// Trusted: the result is the one that [`parsed_uuid`] names; parsing
/// depends on the text alone.
#[verifier::external_body]
fn parse_id(text: &str) -> (id: Option<u128>)
    ensures
        id == parsed_uuid(text@),
{
    match uuid::Uuid::parse_str(text) {
        Ok(id) => Some(id.as_u128()),
        Err(_) => None,
    }
}

/// Reads the identifier of a queue item from its text.
pub fn parse_item_id(text: &str) -> (id: Option<u128>)
    ensures
        id == parsed_uuid(text@),
{
    parse_id(text)
}

impl QueueItem {
    /// Makes an item with a fresh random identifier.
    pub fn new(display_name: String, uri: String, has_callback: bool) -> (item: QueueItem)
        ensures
            item.display_name == display_name,
            item.uri == uri,
            item.has_callback == has_callback,
            is_random_id(item.id),
    {
        QueueItem::with_id(display_name, uri, fresh_id(), has_callback)
    }

    /// Makes an item with the given identifier.
    pub fn with_id(display_name: String, uri: String, id: u128, has_callback: bool) -> (item:
        QueueItem)
        ensures
            item == (QueueItem { display_name, uri, id, has_callback }),
    {
        QueueItem { display_name, uri, id, has_callback }
    }

    /// Name shown to users.
    pub fn name(&self) -> (r: String)
        ensures
            r == self.display_name,
    {
        self.display_name.clone()
    }

    /// Resource locator, in URL form.
    pub fn uri(&self) -> (r: String)
        ensures
            r == self.uri,
    {
        self.uri.clone()
    }

    /// Unique identifier.
    pub fn id(&self) -> (r: u128)
        ensures
            r == self.id,
    {
        self.id
    }

    /// The identifier written as a UUID, which [`parse_item_id`] reads back.
    pub fn id_text(&self) -> (text: String)
        ensures
            text@ == uuid_text(self.id),
            parsed_uuid(text@) == Some(self.id),
    {
        format_id(self.id)
    }
}

} // verus!
