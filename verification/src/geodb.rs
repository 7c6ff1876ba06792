//! The trusted boundary to the binary geo-database engine (the geoip2
//! crate). Each query wrapper makes one pass over the engine — validate
//! the database image, search it for the address — and hands back plain
//! values of this library. The engine itself is opaque: nothing is
//! claimed of what a well-formed database maps an address to; the
//! verified pipeline takes the outcome as an argument and is proved for
//! every value of it. The engine is also partial — on some malformed
//! images it aborts instead of returning its error — so each outcome
//! name is `Option`-valued, `None` marking the images outside the
//! decoder's domain, and each wrapper requires membership; the process
//! edge guards the call where membership cannot be known.

use vstd::prelude::*;
use crate::addr::IpAddress;
use crate::model::{AsnRecord, GeoDbFault, GeoRecord, Location, Subdivision};

verus! {

#[verifier::external_type_specification]
#[verifier::external_body]
pub struct ExGeoCity<'a>(geoip2::City<'a>);

#[verifier::external_type_specification]
#[verifier::external_body]
pub struct ExGeoAsn<'a>(geoip2::ASN<'a>);

#[verifier::external_type_specification]
#[verifier::external_body]
pub struct ExIpAddr(core::net::IpAddr);

/// Relies on core::net::Ipv4Addr::new / Ipv6Addr::new: builds the std
/// address value carrying the same octets or segments.
#[verifier::external_body]
fn std_address(address: &IpAddress) -> (r: core::net::IpAddr) {
    match *address {
        IpAddress::V4 { a, b, c, d } => core::net::IpAddr::V4(core::net::Ipv4Addr::new(a, b, c, d)),
        IpAddress::V6 { s0, s1, s2, s3, s4, s5, s6, s7 } => core::net::IpAddr::V6(
            core::net::Ipv6Addr::new(s0, s1, s2, s3, s4, s5, s6, s7),
        ),
    }
}

/// Relies on geoip2's City model: localized city names live in
/// city.names as (language, name) pairs, handed out by Map::iter.
#[verifier::external_body]
fn city_names_of<'a>(entry: &geoip2::City<'a>) -> (r: Option<Vec<(String, String)>>) {
    entry.city.as_ref().and_then(|c| c.names.as_ref()).map(
        |m| m.iter().map(|p| (p.0.to_string(), p.1.to_string())).collect(),
    )
}

/// Relies on geoip2's City model: subdivisions are ordered most-general
/// first, each with an optional iso code.
#[verifier::external_body]
fn subdivisions_of<'a>(entry: &geoip2::City<'a>) -> (r: Option<Vec<Subdivision>>) {
    entry.subdivisions.as_ref().map(
        |v| v.iter().map(|s| Subdivision { iso_code: s.iso_code.map(|t| t.to_string()) }).collect(),
    )
}

/// Relies on geoip2's City model: the country sub-record's iso code.
#[verifier::external_body]
fn country_iso_of<'a>(entry: &geoip2::City<'a>) -> (r: Option<String>) {
    entry.country.as_ref().and_then(|c| c.iso_code).map(|t| t.to_string())
}

/// Relies on geoip2's City model: the location sub-record. Coordinates
/// are rendered to decimal text here, at the boundary, so the verified
/// logic handles only plain values.
#[verifier::external_body]
fn location_of<'a>(entry: &geoip2::City<'a>) -> (r: Option<Location>) {
    entry.location.as_ref().map(
        |l| Location {
            latitude: l.latitude.map(|v| format!("{v}")),
            longitude: l.longitude.map(|v| format!("{v}")),
            time_zone: l.time_zone.map(|t| t.to_string()),
        },
    )
}

/// Relies on geoip2's City model: the postal sub-record's code.
#[verifier::external_body]
fn postal_of<'a>(entry: &geoip2::City<'a>) -> (r: Option<String>) {
    entry.postal.as_ref().and_then(|p| p.code).map(|t| t.to_string())
}

/// Relies on geoip2's ASN model: the AS number and organization fields.
#[verifier::external_body]
fn asn_fields_of<'a>(entry: &geoip2::ASN<'a>) -> (r: AsnRecord) {
    AsnRecord {
        number: entry.autonomous_system_number,
        organization: entry.autonomous_system_organization.map(|t| t.to_string()),
    }
}

/// What the City query yields on a given image and address, where the
/// engine runs to completion. The engine is a pure decoder — the outcome
/// depends on those two arguments alone — so the completed outcome only
/// gets a name: nothing states what it is on given values. `None` marks
/// the (image, address) pairs outside the decoder's domain: geoip2
/// follows decode offsets without bounds checks, so a truncated or
/// crafted image can make it abort instead of returning its error, and
/// the crate offers no total validator to test membership ahead of the
/// call. Callers that cannot establish membership must guard the call at
/// the process edge.
pub uninterp spec fn city_query_of(db: Seq<u8>, address: IpAddress) -> Option<
    Result<Option<GeoRecord>, GeoDbFault>,
>;

/// What the ASN query yields on a given image and address, where the
/// engine runs to completion; `None` marks the pairs outside the
/// decoder's domain, as for the City query.
pub uninterp spec fn asn_query_of(db: Seq<u8>, address: IpAddress) -> Option<
    Result<Option<AsnRecord>, GeoDbFault>,
>;

/// Queries the City database image for one address. Relies on
/// geoip2::Reader::<City>::from_bytes, which fails exactly when the image
/// does not validate structurally as a City database, and on
/// Reader::lookup, which reports NotFound exactly when the database holds
/// no entry for the address: that is a data gap, reported as `Ok(None)`,
/// never a failure. Any other lookup failure means a corrupt database.
/// Both are deterministic decoders of the image. The precondition
/// confines the call to the decoder's domain: outside it geoip2 indexes
/// a malformed image out of bounds and aborts instead of returning.
#[verifier::external_body]
pub(crate) fn city_db_query(db: &Vec<u8>, address: &IpAddress) -> (r: Result<
    Option<GeoRecord>,
    GeoDbFault,
>)
    requires
        city_query_of(db@, *address) is Some,
    ensures
        Some(r) == city_query_of(db@, *address),
{
    let reader = match geoip2::Reader::<geoip2::City>::from_bytes(db) {
        Ok(reader) => reader,
        Err(_) => return Err(GeoDbFault::Malformed),
    };
    match reader.lookup(std_address(address)) {
        Ok(entry) => Ok(Some(GeoRecord {
            city_names: city_names_of(&entry),
            subdivisions: subdivisions_of(&entry),
            country_iso: country_iso_of(&entry),
            location: location_of(&entry),
            postal: postal_of(&entry),
        })),
        Err(geoip2::Error::NotFound) => Ok(None),
        Err(_) => Err(GeoDbFault::Malformed),
    }
}

/// Queries the ASN database image for one address; same reliance,
/// outcome meaning and domain precondition as for the City database.
#[verifier::external_body]
pub(crate) fn asn_db_query(db: &Vec<u8>, address: &IpAddress) -> (r: Result<
    Option<AsnRecord>,
    GeoDbFault,
>)
    requires
        asn_query_of(db@, *address) is Some,
    ensures
        Some(r) == asn_query_of(db@, *address),
{
    let reader = match geoip2::Reader::<geoip2::ASN>::from_bytes(db) {
        Ok(reader) => reader,
        Err(_) => return Err(GeoDbFault::Malformed),
    };
    match reader.lookup(std_address(address)) {
        Ok(entry) => Ok(Some(asn_fields_of(&entry))),
        Err(geoip2::Error::NotFound) => Ok(None),
        Err(_) => Err(GeoDbFault::Malformed),
    }
}

} // verus!
