//! The address of the store.

use crate::text::optional_string;
use vstd::prelude::*;

verus! {

/// The form in which the `url` crate writes the absolute URL that `text` is, or `None`
/// where `text` is no absolute URL.
pub uninterp spec fn url_serialization(text: Seq<char>) -> Option<Seq<char>>;

/// Calls `url::Url::parse` and hands back the serialization that the parsed URL holds
/// (`Url::as_str`), or nothing where the parser refuses the text. Nothing is claimed of
/// the result but that it depends on the text alone.
#[verifier::external_body]
fn parse_url(text: &str) -> (serialization: Option<String>)
    ensures
        optional_string(serialization) == url_serialization(text@),
{
    match url::Url::parse(text) {
        Ok(url) => Some(url.as_str().to_string()),
        Err(_) => None,
    }
}

/// The address at which to connect to the store: the URL that `clickhouse_url` is, as the
/// `url` crate writes it, or `None` where `clickhouse_url` is no absolute URL and there is
/// nothing to connect to.
pub fn get_clickhouse(clickhouse_url: &str) -> (address: Option<String>)
    ensures
        optional_string(address) == url_serialization(clickhouse_url@),
{
    parse_url(clickhouse_url)
}

} // verus!
