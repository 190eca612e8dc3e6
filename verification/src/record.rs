//! The lookup result record and its decoding from a response body.
//!
//! Every attribute is optional: it is present exactly when the selector asked
//! for it and the service had data for it. The wire uses camelCase keys, and
//! the AS descriptor arrives under the key `as`, a reserved word here, so the
//! field is called `as_field`.

use vstd::prelude::*;
use crate::json::doc_bool;
use crate::json::doc_i64;
use crate::json::doc_num;
use crate::json::doc_str;
use crate::json::json_bool_member;
use crate::json::json_i64_member;
use crate::json::json_num_member;
use crate::json::json_str_member;
use crate::json::opt_str_view;

verus! {

/// The data that will be received after making a request.
///
/// Latitude and longitude are kept as the decimal text of the number the
/// service sent, unconverted, so the record carries them without loss.
#[derive(Clone, Debug)]
pub struct IpData {
    /// Continent name
    pub continent: Option<String>,
    /// Two-letter continent code
    pub continent_code: Option<String>,
    /// Country name
    pub country: Option<String>,
    /// Two-letter country code (ISO 3166-1 alpha-2)
    pub country_code: Option<String>,
    /// Region/state short code (FIPS or ISO)
    pub region: Option<String>,
    /// Region/state
    pub region_name: Option<String>,
    /// City
    pub city: Option<String>,
    /// District (subdivision of city)
    pub district: Option<String>,
    /// Zip code
    pub zip: Option<String>,
    /// Latitude, as the decimal text the service sent
    pub lat: Option<String>,
    /// Longitude, as the decimal text the service sent
    pub lon: Option<String>,
    /// Timezone (tz)
    pub timezone: Option<String>,
    /// Timezone UTC DST offset in seconds
    pub offset: Option<i32>,
    /// National currency
    pub currency: Option<String>,
    /// ISP name
    pub isp: Option<String>,
    /// Organization name
    pub org: Option<String>,
    /// AS number and organization, separated by space (RIR); sent under the
    /// wire key `as`
    pub as_field: Option<String>,
    /// AS name (RIR)
    pub asname: Option<String>,
    /// Reverse DNS of the IP
    pub reverse: Option<String>,
    /// Mobile (cellular) connection
    pub mobile: Option<bool>,
    /// Proxy, VPN or Tor exit address
    pub proxy: Option<bool>,
    /// Hosting, colocated or data center
    pub hosting: Option<bool>,
    /// IP/Domain used for the query
    pub query: Option<String>,
}

/// A number member narrowed to `i32`: present exactly when the wire member
/// is an integer that fits.
pub open spec fn opt_i32_of(o: Option<i64>) -> Option<i32> {
    match o {
        Some(v) => if i32::MIN <= v <= i32::MAX {
            Some(v as i32)
        } else {
            None
        },
        None => None,
    }
}

/// Each attribute of `r` equals the like-named member of the JSON object
/// `body` parses to, absent members decoding to absent attributes.
pub open spec fn record_matches(r: IpData, body: Seq<char>) -> bool {
    &&& opt_str_view(r.continent) == doc_str(body, "continent"@)
    &&& opt_str_view(r.continent_code) == doc_str(body, "continentCode"@)
    &&& opt_str_view(r.country) == doc_str(body, "country"@)
    &&& opt_str_view(r.country_code) == doc_str(body, "countryCode"@)
    &&& opt_str_view(r.region) == doc_str(body, "region"@)
    &&& opt_str_view(r.region_name) == doc_str(body, "regionName"@)
    &&& opt_str_view(r.city) == doc_str(body, "city"@)
    &&& opt_str_view(r.district) == doc_str(body, "district"@)
    &&& opt_str_view(r.zip) == doc_str(body, "zip"@)
    &&& opt_str_view(r.lat) == doc_num(body, "lat"@)
    &&& opt_str_view(r.lon) == doc_num(body, "lon"@)
    &&& opt_str_view(r.timezone) == doc_str(body, "timezone"@)
    &&& r.offset == opt_i32_of(doc_i64(body, "offset"@))
    &&& opt_str_view(r.currency) == doc_str(body, "currency"@)
    &&& opt_str_view(r.isp) == doc_str(body, "isp"@)
    &&& opt_str_view(r.org) == doc_str(body, "org"@)
    &&& opt_str_view(r.as_field) == doc_str(body, "as"@)
    &&& opt_str_view(r.asname) == doc_str(body, "asname"@)
    &&& opt_str_view(r.reverse) == doc_str(body, "reverse"@)
    &&& r.mobile == doc_bool(body, "mobile"@)
    &&& r.proxy == doc_bool(body, "proxy"@)
    &&& r.hosting == doc_bool(body, "hosting"@)
    &&& opt_str_view(r.query) == doc_str(body, "query"@)
}

/// An `i64` member narrowed to `i32`.
fn i32_member(body: &str, key: &str) -> (r: Option<i32>)
    ensures
        r == opt_i32_of(doc_i64(body@, key@)),
{
    match json_i64_member(body, key) {
        Some(v) => if i32::MIN as i64 <= v && v <= i32::MAX as i64 {
            Some(v as i32)
        } else {
            None
        },
        None => None,
    }
}

/// Decode one record from a body text, attribute by attribute.
pub(crate) fn decode_record(body: &str) -> (r: IpData)
    ensures
        record_matches(r, body@),
{
    IpData {
        continent: json_str_member(body, "continent"),
        continent_code: json_str_member(body, "continentCode"),
        country: json_str_member(body, "country"),
        country_code: json_str_member(body, "countryCode"),
        region: json_str_member(body, "region"),
        region_name: json_str_member(body, "regionName"),
        city: json_str_member(body, "city"),
        district: json_str_member(body, "district"),
        zip: json_str_member(body, "zip"),
        lat: json_num_member(body, "lat"),
        lon: json_num_member(body, "lon"),
        timezone: json_str_member(body, "timezone"),
        offset: i32_member(body, "offset"),
        currency: json_str_member(body, "currency"),
        isp: json_str_member(body, "isp"),
        org: json_str_member(body, "org"),
        as_field: json_str_member(body, "as"),
        asname: json_str_member(body, "asname"),
        reverse: json_str_member(body, "reverse"),
        mobile: json_bool_member(body, "mobile"),
        proxy: json_bool_member(body, "proxy"),
        hosting: json_bool_member(body, "hosting"),
        query: json_str_member(body, "query"),
    }
}

} // verus!
