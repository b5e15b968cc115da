//! Catalog lookup: builds the query payload for a package and extracts the
//! archive download URL from the catalog's JSON response.
//!
//! The network round trip itself is performed by the embedding application;
//! this module owns everything that can be computed from plain values: the
//! payload text, and the navigation of the parsed response down to the URL
//! field, including the lenient fallback to an empty URL when the expected
//! nested keys are absent.

use vstd::prelude::*;
use vstd::string::*;

verus! {

#[verifier::external_type_specification]
#[verifier::external_body]
pub struct ExValue(serde_json::Value);

/// Whether serde_json parses the bytes as JSON.
pub uninterp spec fn json_parses(body: Seq<u8>) -> bool;

/// The text of the parse error that serde_json reports for bytes it does
/// not parse.
pub uninterp spec fn json_parse_err(body: Seq<u8>) -> Seq<char>;

/// The value that serde_json parses the bytes to, where it parses them.
pub uninterp spec fn json_value_of(body: Seq<u8>) -> serde_json::Value;

/// Whether the value is a JSON object.
pub uninterp spec fn json_is_object_spec(v: serde_json::Value) -> bool;

/// The value under the key, where `v` is a JSON object that has it.
pub uninterp spec fn json_field_of(v: serde_json::Value, key: Seq<char>) -> Option<
    serde_json::Value,
>;

/// The string content of the value, where it is a JSON string.
pub uninterp spec fn json_str_of(v: serde_json::Value) -> Option<Seq<char>>;

/// Relies on serde_json::from_slice: parses the bytes as JSON into a
/// `Value`, or reports the parse error as text. Whether the bytes parse,
/// the parsed value and the error text are each a function of the bytes
/// alone.
#[verifier::external_body]
fn parse_json(body: &[u8]) -> (r: Result<serde_json::Value, String>)
    ensures
        match r {
            Ok(v) => json_parses(body@) && v == json_value_of(body@),
            Err(m) => !json_parses(body@) && m@ == json_parse_err(body@),
        },
{
    serde_json::from_slice::<serde_json::Value>(body).map_err(|e| e.to_string())
}

/// Relies on serde_json::Value::is_object: whether the value is a JSON
/// object, a function of the value alone.
#[verifier::external_body]
fn json_is_object(v: &serde_json::Value) -> (r: bool)
    ensures
        r == json_is_object_spec(*v),
{
    v.is_object()
}

/// Relies on serde_json::Value::get with a string index: the value under
/// the key, if `v` is an object that has it; a function of the value and
/// the key alone.
#[verifier::external_body]
fn json_get<'a>(v: &'a serde_json::Value, key: &str) -> (r: Option<&'a serde_json::Value>)
    ensures
        match r {
            Some(f) => json_field_of(*v, key@) == Some(*f),
            None => json_field_of(*v, key@) is None,
        },
{
    v.get(key)
}

/// Relies on serde_json::Value::as_str: the string content, if the value
/// is a JSON string; a function of the value alone.
#[verifier::external_body]
fn json_as_str(v: &serde_json::Value) -> (r: Option<String>)
    ensures
        match r {
            Some(s) => json_str_of(*v) == Some(s@),
            None => json_str_of(*v) is None,
        },
{
    v.as_str().map(String::from)
}

/// The catalog query payload: the provider's request template with the
/// package name appended verbatim.
pub fn build_payload(template: &str, package_name: &str) -> (r: String)
    ensures
        r@ == template@ + package_name@,
{
    String::from_str(template).concat(package_name)
}

/// The fixed catalog endpoint that the lookup payload is posted to.
pub open spec fn catalog_endpoint_spec() -> Seq<char> {
    "http://stores1.hispace.hicloud.com/hwmarket/api/tlsApis"@
}

/// The fixed catalog endpoint that the lookup payload is posted to.
pub fn catalog_endpoint() -> (r: String)
    ensures
        r@ == catalog_endpoint_spec(),
{
    String::from_str("http://stores1.hispace.hicloud.com/hwmarket/api/tlsApis")
}

/// The URL that a lookup result degrades to: the found field verbatim, or
/// the empty string when the expected nested keys were absent.
pub fn url_or_empty(found: Option<String>) -> (r: String)
    ensures
        match found {
            Some(u) => r@ == u@,
            None => r@ == Seq::<char>::empty(),
        },
{
    match found {
        Some(u) => u,
        None => {
            let empty = String::from_str("");
            proof {
                reveal_strlit("");
                assert(empty@ =~= Seq::<char>::empty());
            }
            empty
        },
    }
}

/// The failure text for a response that parses as JSON but not as an
/// object.
pub open spec fn not_object_msg() -> Seq<char> {
    "lookup response is not a JSON object"@
}

/// The URL that a parsed catalog response yields: the string under the
/// nested keys `rpkInfo` then `url`, or the empty string when either key
/// is absent or the field under them is not a JSON string.
pub open spec fn looked_up_url(body: Seq<u8>) -> Seq<char> {
    match json_field_of(json_value_of(body), "rpkInfo"@) {
        Some(info) => match json_field_of(info, "url"@) {
            Some(u) => match json_str_of(u) {
                Some(s) => s,
                None => Seq::empty(),
            },
            None => Seq::empty(),
        },
        None => Seq::empty(),
    }
}

/// Extracts the download URL from a catalog response body. The extraction
/// succeeds exactly when the body parses as a JSON object; unparseable
/// bytes fail with serde_json's own message, a non-object root with a
/// fixed one. On success the URL is the string under the nested keys
/// `rpkInfo` then `url`, degrading to the empty string when those keys
/// are absent or the field is not a string.
pub fn extract_download_url(body: &[u8]) -> (r: Result<String, String>)
    ensures
        r is Ok <==> json_parses(body@) && json_is_object_spec(json_value_of(body@)),
        r matches Ok(u) ==> u@ == looked_up_url(body@),
        r matches Err(m) ==> m@ == (if json_parses(body@) {
            not_object_msg()
        } else {
            json_parse_err(body@)
        }),
{
    match parse_json(body) {
        Err(e) => Err(e),
        Ok(v) => {
            if !json_is_object(&v) {
                Err(String::from_str("lookup response is not a JSON object"))
            } else {
                let found = match json_get(&v, "rpkInfo") {
                    None => None,
                    Some(info) => match json_get(info, "url") {
                        None => None,
                        Some(u) => json_as_str(u),
                    },
                };
                Ok(url_or_empty(found))
            }
        },
    }
}

} // verus!
