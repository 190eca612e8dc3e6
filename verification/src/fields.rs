//! The optional response attributes and their wire weights.
//!
//! The upstream service assigns every requestable attribute a fixed
//! power-of-two weight; a request names the attributes it wants as the sum of
//! their weights. The weights are sparse and never reused, so a mask decodes
//! uniquely into a set of attributes.

use vstd::prelude::*;

verus! {

/// One optional attribute of a lookup result that a caller may request.
#[derive(Clone, Copy, Debug, PartialEq, Eq, Structural)]
pub enum FieldTag {
    /// Continent name
    Continent,
    /// Two-letter continent code
    ContinentCode,
    /// Country name
    Country,
    /// Two-letter country code
    CountryCode,
    /// Region/state short code
    Region,
    /// Region/state name
    RegionName,
    /// City
    City,
    /// District (subdivision of city)
    District,
    /// Zip code
    Zip,
    /// Latitude
    Lat,
    /// Longitude
    Lon,
    /// Timezone
    Timezone,
    /// Timezone UTC offset in seconds
    Offset,
    /// National currency
    Currency,
    /// ISP name
    Isp,
    /// Organization name
    Org,
    /// AS number and organization
    AsField,
    /// AS name
    Asname,
    /// Reverse DNS of the IP
    Reverse,
    /// Mobile (cellular) connection flag
    Mobile,
    /// Proxy, VPN or Tor exit flag
    Proxy,
    /// Hosting, colocated or data center flag
    Hosting,
    /// Echo of the queried IP/domain
    Query,
}

/// Weight of the hidden status/message member. Every request carries it, so
/// that an in-band error message can be read from the response body.
pub const MESSAGE_WEIGHT: u32 = 32768;

/// The bit position the upstream service assigns to each attribute's weight.
pub open spec fn spec_tag_shift(t: FieldTag) -> u32 {
    match t {
        FieldTag::Country => 0,
        FieldTag::CountryCode => 1,
        FieldTag::Region => 2,
        FieldTag::RegionName => 3,
        FieldTag::City => 4,
        FieldTag::Zip => 5,
        FieldTag::Lat => 6,
        FieldTag::Lon => 7,
        FieldTag::Timezone => 8,
        FieldTag::Isp => 9,
        FieldTag::Org => 10,
        FieldTag::AsField => 11,
        FieldTag::Reverse => 12,
        FieldTag::Query => 13,
        FieldTag::Mobile => 16,
        FieldTag::Proxy => 17,
        FieldTag::District => 19,
        FieldTag::Continent => 20,
        FieldTag::ContinentCode => 21,
        FieldTag::Asname => 22,
        FieldTag::Currency => 23,
        FieldTag::Hosting => 24,
        FieldTag::Offset => 25,
    }
}

/// The power-of-two wire weight of an attribute.
pub open spec fn spec_tag_weight(t: FieldTag) -> u32 {
    1u32 << spec_tag_shift(t)
}

/// Every weight bit lies inside a `u32` and none collides with the hidden
/// status/message bit.
pub proof fn lemma_tag_shift_range(t: FieldTag)
    ensures
        spec_tag_shift(t) < 32,
        spec_tag_shift(t) != 15,
{
}

/// Distinct attributes have distinct bit positions, so a mask decodes
/// uniquely into a set of attributes.
pub proof fn lemma_tag_shift_injective(t: FieldTag, u: FieldTag)
    requires
        spec_tag_shift(t) == spec_tag_shift(u),
    ensures
        t == u,
{
}

/// Executable form of `spec_tag_weight`.
pub fn tag_weight(t: FieldTag) -> (w: u32)
    ensures
        w == spec_tag_weight(t),
{
    match t {
        FieldTag::Country => 1u32 << 0,
        FieldTag::CountryCode => 1u32 << 1,
        FieldTag::Region => 1u32 << 2,
        FieldTag::RegionName => 1u32 << 3,
        FieldTag::City => 1u32 << 4,
        FieldTag::Zip => 1u32 << 5,
        FieldTag::Lat => 1u32 << 6,
        FieldTag::Lon => 1u32 << 7,
        FieldTag::Timezone => 1u32 << 8,
        FieldTag::Isp => 1u32 << 9,
        FieldTag::Org => 1u32 << 10,
        FieldTag::AsField => 1u32 << 11,
        FieldTag::Reverse => 1u32 << 12,
        FieldTag::Query => 1u32 << 13,
        FieldTag::Mobile => 1u32 << 16,
        FieldTag::Proxy => 1u32 << 17,
        FieldTag::District => 1u32 << 19,
        FieldTag::Continent => 1u32 << 20,
        FieldTag::ContinentCode => 1u32 << 21,
        FieldTag::Asname => 1u32 << 22,
        FieldTag::Currency => 1u32 << 23,
        FieldTag::Hosting => 1u32 << 24,
        FieldTag::Offset => 1u32 << 25,
    }
}

/// Setting one single-bit weight leaves every other bit as it was and turns
/// exactly the chosen bit on.
proof fn lemma_set_bit(m: u32, i: u32, j: u32)
    requires
        i < 32,
        j < 32,
    ensures
        ((m | (1u32 << i)) & (1u32 << j) != 0) == ((m & (1u32 << j) != 0) || i == j),
{
    assert(((m | (1u32 << i)) & (1u32 << j) != 0) == ((m & (1u32 << j) != 0) || i == j))
        by (bit_vector)
        requires
            i < 32,
            j < 32,
    ;
}

/// Clearing one single-bit weight leaves every other bit as it was and turns
/// exactly the chosen bit off.
proof fn lemma_clear_bit(m: u32, i: u32, j: u32)
    requires
        i < 32,
        j < 32,
    ensures
        ((m & !(1u32 << i)) & (1u32 << j) != 0) == ((m & (1u32 << j) != 0) && i != j),
{
    assert(((m & !(1u32 << i)) & (1u32 << j) != 0) == ((m & (1u32 << j) != 0) && i != j))
        by (bit_vector)
        requires
            i < 32,
            j < 32,
    ;
}

/// Adding a tag's weight to a mask selects that tag and no other.
pub proof fn lemma_weight_or(m: u32, t: FieldTag, u: FieldTag)
    ensures
        ((m | spec_tag_weight(t)) & spec_tag_weight(u) != 0) == ((m & spec_tag_weight(u) != 0)
            || t == u),
{
    lemma_tag_shift_range(t);
    lemma_tag_shift_range(u);
    lemma_set_bit(m, spec_tag_shift(t), spec_tag_shift(u));
    if spec_tag_shift(t) == spec_tag_shift(u) {
        lemma_tag_shift_injective(t, u);
    }
}

/// Removing a tag's weight from a mask deselects that tag and no other.
pub proof fn lemma_weight_clear(m: u32, t: FieldTag, u: FieldTag)
    ensures
        ((m & !spec_tag_weight(t)) & spec_tag_weight(u) != 0) == ((m & spec_tag_weight(u) != 0)
            && t != u),
{
    lemma_tag_shift_range(t);
    lemma_tag_shift_range(u);
    lemma_clear_bit(m, spec_tag_shift(t), spec_tag_shift(u));
    if spec_tag_shift(t) == spec_tag_shift(u) {
        lemma_tag_shift_injective(t, u);
    }
}

/// No attribute weight collides with the hidden status/message weight.
pub proof fn lemma_message_weight_distinct(t: FieldTag)
    ensures
        MESSAGE_WEIGHT & spec_tag_weight(t) == 0,
{
    lemma_tag_shift_range(t);
    let i = spec_tag_shift(t);
    assert(32768u32 & (1u32 << i) == 0) by (bit_vector)
        requires
            i < 32,
            i != 15,
    ;
}

/// Adding or removing an attribute weight never touches the hidden
/// status/message bit.
pub proof fn lemma_weight_vs_message(m: u32, t: FieldTag)
    ensures
        ((m | spec_tag_weight(t)) & MESSAGE_WEIGHT != 0) == (m & MESSAGE_WEIGHT != 0),
        ((m & !spec_tag_weight(t)) & MESSAGE_WEIGHT != 0) == (m & MESSAGE_WEIGHT != 0),
{
    lemma_tag_shift_range(t);
    assert(MESSAGE_WEIGHT == 1u32 << 15) by (bit_vector);
    lemma_set_bit(m, spec_tag_shift(t), 15);
    lemma_clear_bit(m, spec_tag_shift(t), 15);
}

} // verus!
