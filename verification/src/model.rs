//! The data model: the request, the two lookup records, the output
//! record and the error taxonomy, each with a mathematical view.

use vstd::prelude::*;
use crate::addr::IpAddress;

verus! {

/// Which end of the subdivision list is authoritative for the region code.
#[derive(Clone, Copy, PartialEq, Eq, Structural, Debug)]
pub enum SubdivisionPolicy {
    First,
    Last,
}

/// Which of the two databases an error speaks of.
#[derive(Clone, Copy, PartialEq, Eq, Structural, Debug)]
pub enum DbKind {
    Asn,
    City,
}

/// A fatal lookup failure: a database that cannot be read under either
/// filename variant, or one that fails structural validation.
#[derive(Clone, Copy, PartialEq, Eq, Structural, Debug)]
pub enum LookupError {
    DatabaseUnavailable(DbKind),
    MalformedDatabase(DbKind),
}

/// What a single database query can report short of success: the image
/// does not validate as a geo-database of the expected kind.
#[derive(Clone, Copy, PartialEq, Eq, Structural, Debug)]
pub enum GeoDbFault {
    Malformed,
}

/// The view of an `Option<String>`: the character sequence, if present.
pub open spec fn opt_view(o: Option<String>) -> Option<Seq<char>> {
    match o {
        Some(s) => Some(s@),
        None => None,
    }
}

/// The validated, immutable input to the pipeline.
#[derive(Debug)]
pub struct Request {
    /// The address to resolve.
    pub address: IpAddress,
    /// Its textual form, used verbatim as the `ip` field of the output.
    pub address_text: String,
    /// IETF language code used to pick a localized city name.
    pub language: String,
    /// Which subdivision yields the region code.
    pub subdivision_policy: SubdivisionPolicy,
}

pub struct RequestView {
    pub address: IpAddress,
    pub address_text: Seq<char>,
    pub language: Seq<char>,
    pub subdivision_policy: SubdivisionPolicy,
}

impl View for Request {
    type V = RequestView;

    open spec fn view(&self) -> RequestView {
        RequestView {
            address: self.address,
            address_text: self.address_text@,
            language: self.language@,
            subdivision_policy: self.subdivision_policy,
        }
    }
}

/// The ASN/organization record of one address: either, both, or neither
/// field may be present in the source data.
#[derive(Debug)]
pub struct AsnRecord {
    pub number: Option<u32>,
    pub organization: Option<String>,
}

pub struct AsnView {
    pub number: Option<u32>,
    pub organization: Option<Seq<char>>,
}

impl View for AsnRecord {
    type V = AsnView;

    open spec fn view(&self) -> AsnView {
        AsnView { number: self.number, organization: opt_view(self.organization) }
    }
}

impl AsnRecord {
    /// The record of an address the ASN database does not know: both
    /// fields absent.
    pub fn absent() -> (r: AsnRecord)
        ensures
            r@ == (AsnView { number: None, organization: None }),
    {
        AsnRecord { number: None, organization: None }
    }
}

/// One administrative subdivision, most-general first in source order.
#[derive(Debug)]
pub struct Subdivision {
    pub iso_code: Option<String>,
}

impl View for Subdivision {
    type V = Option<Seq<char>>;

    open spec fn view(&self) -> Option<Seq<char>> {
        opt_view(self.iso_code)
    }
}

/// The location sub-record; each coordinate may be missing on its own.
/// Coordinates are carried as their decimal text, exactly as the source
/// database rendered them.
#[derive(Debug)]
pub struct Location {
    pub latitude: Option<String>,
    pub longitude: Option<String>,
    pub time_zone: Option<String>,
}

pub struct LocationView {
    pub latitude: Option<Seq<char>>,
    pub longitude: Option<Seq<char>>,
    pub time_zone: Option<Seq<char>>,
}

impl View for Location {
    type V = LocationView;

    open spec fn view(&self) -> LocationView {
        LocationView {
            latitude: opt_view(self.latitude),
            longitude: opt_view(self.longitude),
            time_zone: opt_view(self.time_zone),
        }
    }
}

/// The city/location record of one address; every sub-record is
/// independently present or absent.
#[derive(Debug)]
pub struct GeoRecord {
    /// Localized city names as (language code, name) pairs, keys unique.
    pub city_names: Option<Vec<(String, String)>>,
    pub subdivisions: Option<Vec<Subdivision>>,
    pub country_iso: Option<String>,
    pub location: Option<Location>,
    pub postal: Option<String>,
}

pub struct GeoView {
    pub city_names: Option<Seq<(Seq<char>, Seq<char>)>>,
    pub subdivisions: Option<Seq<Option<Seq<char>>>>,
    pub country_iso: Option<Seq<char>>,
    pub location: Option<LocationView>,
    pub postal: Option<Seq<char>>,
}

impl View for GeoRecord {
    type V = GeoView;

    open spec fn view(&self) -> GeoView {
        GeoView {
            city_names: match self.city_names {
                Some(names) => Some(names@.map_values(|p: (String, String)| (p.0@, p.1@))),
                None => None,
            },
            subdivisions: match self.subdivisions {
                Some(subs) => Some(subs@.map_values(|s: Subdivision| s@)),
                None => None,
            },
            country_iso: opt_view(self.country_iso),
            location: match self.location {
                Some(loc) => Some(loc@),
                None => None,
            },
            postal: opt_view(self.postal),
        }
    }
}

impl GeoRecord {
    /// The record of an address the City database does not know: every
    /// sub-record absent.
    pub fn absent() -> (r: GeoRecord)
        ensures
            r@ == (GeoView {
                city_names: None,
                subdivisions: None,
                country_iso: None,
                location: None,
                postal: None,
            }),
    {
        GeoRecord {
            city_names: None,
            subdivisions: None,
            country_iso: None,
            location: None,
            postal: None,
        }
    }
}

/// The short-circuit output for a non-routable address.
#[derive(Debug)]
pub struct IpBogon {
    pub ip: String,
    pub bogon: bool,
}

impl Default for IpBogon {
    /// An empty bogon record: no address text yet, flag set.
    fn default() -> (r: Self)
        ensures
            r.ip@ == Seq::<char>::empty(),
            r.bogon,
    {
        IpBogon { ip: String::new(), bogon: true }
    }
}

/// The resolved-shape output record. Every field but `ip` is optional and
/// is omitted from the serialized form when absent; no field is ever
/// synthesized. Coordinates are decimal text, converted back to numbers
/// only at the serialization edge.
#[derive(Debug)]
pub struct OutputRecord {
    pub ip: String,
    pub hostname: Option<String>,
    pub city: Option<String>,
    pub region_iso: Option<String>,
    pub country_iso: Option<String>,
    pub latitude: Option<String>,
    pub longitude: Option<String>,
    pub map_link: Option<String>,
    pub org: Option<String>,
    pub postal: Option<String>,
    pub timezone: Option<String>,
}

#[verifier::ext_equal]
pub struct OutputView {
    pub ip: Seq<char>,
    pub hostname: Option<Seq<char>>,
    pub city: Option<Seq<char>>,
    pub region_iso: Option<Seq<char>>,
    pub country_iso: Option<Seq<char>>,
    pub latitude: Option<Seq<char>>,
    pub longitude: Option<Seq<char>>,
    pub map_link: Option<Seq<char>>,
    pub org: Option<Seq<char>>,
    pub postal: Option<Seq<char>>,
    pub timezone: Option<Seq<char>>,
}

impl View for OutputRecord {
    type V = OutputView;

    open spec fn view(&self) -> OutputView {
        OutputView {
            ip: self.ip@,
            hostname: opt_view(self.hostname),
            city: opt_view(self.city),
            region_iso: opt_view(self.region_iso),
            country_iso: opt_view(self.country_iso),
            latitude: opt_view(self.latitude),
            longitude: opt_view(self.longitude),
            map_link: opt_view(self.map_link),
            org: opt_view(self.org),
            postal: opt_view(self.postal),
            timezone: opt_view(self.timezone),
        }
    }
}

} // verus!
