//! Record merger: combines the ASN record, the geo record and the
//! optional hostname into one output record under the field-selection
//! policy. Merging never fails; every data gap becomes an absent field.

use vstd::prelude::*;
use vstd::string::StringExecFns;
use crate::model::{
    AsnRecord, AsnView, GeoRecord, GeoView, OutputRecord, OutputView, Request, RequestView,
    SubdivisionPolicy, opt_view,
};
use crate::text::{dec_digits, u32_dec_string};

verus! {

/// The first name paired with this exact language key, if any.
pub open spec fn spec_lookup_name(names: Seq<(Seq<char>, Seq<char>)>, lang: Seq<char>) -> Option<
    Seq<char>,
>
    decreases names.len(),
{
    if names.len() == 0 {
        None
    } else if names[0].0 == lang {
        Some(names[0].1)
    } else {
        spec_lookup_name(names.drop_first(), lang)
    }
}

/// The city field: the requested language's name, absent when the name
/// mapping is absent or lacks that exact key. A missing key is a data
/// gap, never a failure and never another language's name.
pub open spec fn spec_city(geo: GeoView, lang: Seq<char>) -> Option<Seq<char>> {
    match geo.city_names {
        Some(names) => spec_lookup_name(names, lang),
        None => None,
    }
}

/// The region field: the iso code of the first or last subdivision, per
/// policy; absent when the list is absent or empty, or that subdivision
/// carries no code.
pub open spec fn spec_region(geo: GeoView, policy: SubdivisionPolicy) -> Option<Seq<char>> {
    match geo.subdivisions {
        Some(subs) => if subs.len() == 0 {
            None
        } else {
            match policy {
                SubdivisionPolicy::First => subs[0],
                SubdivisionPolicy::Last => subs[subs.len() - 1],
            }
        },
        None => None,
    }
}

/// The coordinate pair (latitude, longitude): present only when both are.
pub open spec fn spec_coords(geo: GeoView) -> Option<(Seq<char>, Seq<char>)> {
    match geo.location {
        Some(loc) => match (loc.latitude, loc.longitude) {
            (Some(la), Some(lo)) => Some((la, lo)),
            _ => None,
        },
        None => None,
    }
}

/// The map-viewer deep link: longitude first, then latitude, matching the
/// upstream map service's convention.
pub open spec fn spec_map_link(latitude: Seq<char>, longitude: Seq<char>) -> Seq<char> {
    "https://openstreetmap.org/#map=11/"@ + longitude + "/"@ + latitude
}

/// The organization field: "AS{number} {organization}", either half alone
/// when the other is absent, absent when both are.
pub open spec fn spec_org(asn: AsnView) -> Option<Seq<char>> {
    match (asn.number, asn.organization) {
        (Some(n), Some(o)) => Some("AS"@ + dec_digits(n as nat) + " "@ + o),
        (Some(n), None) => Some("AS"@ + dec_digits(n as nat)),
        (None, Some(o)) => Some(o),
        (None, None) => None,
    }
}

/// The timezone field: the location's zone name, wherever a location
/// sub-record exists (independent of the coordinates).
pub open spec fn spec_timezone(geo: GeoView) -> Option<Seq<char>> {
    match geo.location {
        Some(loc) => loc.time_zone,
        None => None,
    }
}

/// The whole merge: what every field of the output record is, as a
/// function of the two lookup records, the hostname and the request.
pub open spec fn spec_merge(
    asn: AsnView,
    geo: GeoView,
    hostname: Option<Seq<char>>,
    req: RequestView,
) -> OutputView {
    OutputView {
        ip: req.address_text,
        hostname: hostname,
        city: spec_city(geo, req.language),
        region_iso: spec_region(geo, req.subdivision_policy),
        country_iso: geo.country_iso,
        latitude: match spec_coords(geo) {
            Some(p) => Some(p.0),
            None => None,
        },
        longitude: match spec_coords(geo) {
            Some(p) => Some(p.1),
            None => None,
        },
        map_link: match spec_coords(geo) {
            Some(p) => Some(spec_map_link(p.0, p.1)),
            None => None,
        },
        org: spec_org(asn),
        postal: geo.postal,
        timezone: spec_timezone(geo),
    }
}

/// Skipping past non-matching keys keeps the lookup result.
proof fn lemma_lookup_skip(names: Seq<(Seq<char>, Seq<char>)>, lang: Seq<char>, i: int)
    requires
        0 <= i <= names.len(),
        forall|j: int| 0 <= j < i ==> names[j].0 != lang,
    ensures
        spec_lookup_name(names, lang) == spec_lookup_name(names.skip(i), lang),
    decreases i,
{
    if i > 0 {
        assert(names.len() > 0);
        assert(names[0].0 != lang);
        lemma_lookup_skip(names.drop_first(), lang, i - 1);
        assert(names.drop_first().skip(i - 1) =~= names.skip(i));
    } else {
        assert(names.skip(0) =~= names);
    }
}

/// The localized city name for this language, if the mapping has it.
pub fn get_some_city(geo: &GeoRecord, lang_code: &String) -> (r: Option<String>)
    ensures
        opt_view(r) == spec_city(geo@, lang_code@),
{
    match &geo.city_names {
        None => None,
        Some(names) => {
            let ghost views = names@.map_values(|p: (String, String)| (p.0@, p.1@));
            proof {
                assert(geo@.city_names == Some(views));
            }
            let mut i: usize = 0;
            while i < names.len()
                invariant
                    0 <= i <= names.len(),
                    views == names@.map_values(|p: (String, String)| (p.0@, p.1@)),
                    geo@.city_names == Some(views),
                    forall|j: int| 0 <= j < i ==> views[j].0 != lang_code@,
                decreases names.len() - i,
            {
                if names[i].0 == *lang_code {
                    proof {
                        lemma_lookup_skip(views, lang_code@, i as int);
                        assert(views[i as int] == (names@[i as int].0@, names@[i as int].1@));
                        assert(views.skip(i as int)[0] == views[i as int]);
                        assert(views.skip(i as int).len() > 0);
                    }
                    return Some(names[i].1.clone());
                }
                proof {
                    assert(views[i as int].0 == names@[i as int].0@);
                }
                i = i + 1;
            }
            proof {
                lemma_lookup_skip(views, lang_code@, names@.len() as int);
                assert(views.skip(names@.len() as int) =~= Seq::<(Seq<char>, Seq<char>)>::empty());
            }
            None
        },
    }
}

/// The region iso code selected by the subdivision policy.
pub fn get_some_region_iso(geo: &GeoRecord, policy: SubdivisionPolicy) -> (r: Option<String>)
    ensures
        opt_view(r) == spec_region(geo@, policy),
{
    match &geo.subdivisions {
        None => None,
        Some(subs) => {
            if subs.len() == 0 {
                None
            } else {
                let idx: usize = match policy {
                    SubdivisionPolicy::First => 0,
                    SubdivisionPolicy::Last => subs.len() - 1,
                };
                match &subs[idx].iso_code {
                    Some(code) => Some(code.clone()),
                    None => None,
                }
            }
        },
    }
}

/// The country iso code, passed through verbatim.
pub fn get_some_country_iso(geo: &GeoRecord) -> (r: Option<String>)
    ensures
        opt_view(r) == geo@.country_iso,
{
    match &geo.country_iso {
        Some(code) => Some(code.clone()),
        None => None,
    }
}

/// The coordinate pair (latitude, longitude): both or neither.
pub fn get_some_loc(geo: &GeoRecord) -> (r: Option<(String, String)>)
    ensures
        match r {
            Some(p) => spec_coords(geo@) matches Some(q) && p.0@ == q.0 && p.1@ == q.1,
            None => spec_coords(geo@) is None,
        },
{
    match &geo.location {
        None => None,
        Some(loc) => match (&loc.latitude, &loc.longitude) {
            (Some(la), Some(lo)) => Some((la.clone(), lo.clone())),
            _ => None,
        },
    }
}

/// The map-viewer link for a coordinate pair.
pub fn osm_link(latitude: &String, longitude: &String) -> (r: String)
    ensures
        r@ == spec_map_link(latitude@, longitude@),
{
    let mut s = String::from_str("https://openstreetmap.org/#map=11/");
    s.append(longitude.as_str());
    s.append("/");
    s.append(latitude.as_str());
    s
}

/// The organization text combined from the two optional ASN fields.
pub fn get_some_org(asn: &AsnRecord) -> (r: Option<String>)
    ensures
        opt_view(r) == spec_org(asn@),
{
    match (&asn.number, &asn.organization) {
        (Some(n), Some(o)) => {
            let mut s = String::from_str("AS");
            let digits = u32_dec_string(*n);
            s.append(digits.as_str());
            s.append(" ");
            s.append(o.as_str());
            Some(s)
        },
        (Some(n), None) => {
            let mut s = String::from_str("AS");
            let digits = u32_dec_string(*n);
            s.append(digits.as_str());
            Some(s)
        },
        (None, Some(o)) => Some(o.clone()),
        (None, None) => None,
    }
}

/// The postal code, passed through verbatim.
pub fn get_some_postal(geo: &GeoRecord) -> (r: Option<String>)
    ensures
        opt_view(r) == geo@.postal,
{
    match &geo.postal {
        Some(code) => Some(code.clone()),
        None => None,
    }
}

/// The time zone name, passed through verbatim.
pub fn get_some_tz(geo: &GeoRecord) -> (r: Option<String>)
    ensures
        opt_view(r) == spec_timezone(geo@),
{
    match &geo.location {
        Some(loc) => match &loc.time_zone {
            Some(zone) => Some(zone.clone()),
            None => None,
        },
        None => None,
    }
}

/// Merges the lookup results into the output record. No error path: every
/// input is already an optional value, and every gap stays a gap.
pub fn merge(asn: &AsnRecord, geo: &GeoRecord, hostname: Option<String>, req: &Request) -> (r:
    OutputRecord)
    ensures
        r@ == spec_merge(asn@, geo@, opt_view(hostname), req@),
{
    let coords = get_some_loc(geo);
    let (latitude, longitude, map_link) = match coords {
        Some((la, lo)) => {
            let link = osm_link(&la, &lo);
            (Some(la), Some(lo), Some(link))
        },
        None => (None, None, None),
    };
    let r = OutputRecord {
        ip: req.address_text.clone(),
        hostname,
        city: get_some_city(geo, &req.language),
        region_iso: get_some_region_iso(geo, req.subdivision_policy),
        country_iso: get_some_country_iso(geo),
        latitude,
        longitude,
        map_link,
        org: get_some_org(asn),
        postal: get_some_postal(geo),
        timezone: get_some_tz(geo),
    };
    proof {
        assert(r@ =~= spec_merge(asn@, geo@, opt_view(hostname), req@));
    }
    r
}

} // verus!
