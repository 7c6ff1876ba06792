//! Pipeline orchestrator: classify, then either short-circuit to the
//! bogon record or select the database images, query both sources and
//! merge. Owns the single error-surfacing point.

use vstd::prelude::*;
use crate::addr::{IpAddress, is_global};
use crate::geodb;
use crate::geodb::{asn_query_of, city_query_of};
use crate::merge::{merge, spec_merge, spec_lookup_name};
use crate::model::{
    AsnRecord, AsnView, DbKind, GeoDbFault, GeoRecord, GeoView, IpBogon, LookupError, OutputRecord,
    Request, RequestView, opt_view,
};

verus! {

/// What the classifier decided: emit the bogon record and stop, or go on
/// to the database lookups.
pub enum PipelineStep {
    Bogon(IpBogon),
    NeedDatabases,
}

/// The short-circuit decision. The bogon path is taken exactly for
/// non-routable addresses, before any database or DNS work: a caller
/// that obeys this step performs no I/O for them.
pub fn begin(req: &Request) -> (step: PipelineStep)
    ensures
        !is_global(req.address) ==> (step matches PipelineStep::Bogon(b) && b.ip@
            == req.address_text@ && b.bogon),
        is_global(req.address) ==> step is NeedDatabases,
{
    if !crate::addr::classify(&req.address) {
        let mut record = IpBogon::default();
        record.ip = req.address_text.clone();
        PipelineStep::Bogon(record)
    } else {
        PipelineStep::NeedDatabases
    }
}

/// The view of an optional database image.
pub open spec fn opt_bytes(o: Option<Vec<u8>>) -> Option<Seq<u8>> {
    match o {
        Some(b) => Some(b@),
        None => None,
    }
}

/// The filename-fallback policy: the commercial image when it could be
/// read, else the lite image, else nothing. Existence-based, never
/// content-based.
pub open spec fn spec_select(primary: Option<Seq<u8>>, lite: Option<Seq<u8>>) -> Option<Seq<u8>> {
    if primary is Some {
        primary
    } else {
        lite
    }
}

/// Selects which database image to use, preferring the commercial one.
pub fn select_database(primary: Option<Vec<u8>>, lite: Option<Vec<u8>>) -> (r: Option<Vec<u8>>)
    ensures
        opt_bytes(r) == spec_select(opt_bytes(primary), opt_bytes(lite)),
{
    match primary {
        Some(image) => Some(image),
        None => lite,
    }
}

/// The view of the ASN query outcome's payload: an absent entry is an
/// empty record.
pub open spec fn asn_or_absent(a: Option<AsnRecord>) -> AsnView {
    match a {
        Some(rec) => rec@,
        None => AsnView { number: None, organization: None },
    }
}

/// The view of the City query outcome's payload: an absent entry is an
/// empty record.
pub open spec fn geo_or_absent(g: Option<GeoRecord>) -> GeoView {
    match g {
        Some(rec) => rec@,
        None => GeoView {
            city_names: None,
            subdivisions: None,
            country_iso: None,
            location: None,
            postal: None,
        },
    }
}

/// What querying both selected images and merging yields, as one
/// formula over the named query outcomes: a corrupt database is fatal
/// (City reported first), an absent entry is an empty record, and
/// success is exactly the merge of what came back. Meaningful where both
/// images lie in the decoder's domain.
pub open spec fn spec_query_pipeline(
    req: RequestView,
    city_db: Seq<u8>,
    asn_db: Seq<u8>,
    hostname: Option<Seq<char>>,
) -> Result<crate::model::OutputView, LookupError>
    recommends
        city_query_of(city_db, req.address) is Some,
        asn_query_of(asn_db, req.address) is Some,
{
    match city_query_of(city_db, req.address)->Some_0 {
        Err(_) => Err(LookupError::MalformedDatabase(DbKind::City)),
        Ok(geo_entry) => match asn_query_of(asn_db, req.address)->Some_0 {
            Err(_) => Err(LookupError::MalformedDatabase(DbKind::Asn)),
            Ok(asn_entry) => Ok(
                spec_merge(asn_or_absent(asn_entry), geo_or_absent(geo_entry), hostname, req),
            ),
        },
    }
}

/// Whether an executable result is exactly what a spec-level outcome
/// says: the same error, or a record with the stated view.
pub open spec fn outcome_matches(
    r: Result<OutputRecord, LookupError>,
    stated: Result<crate::model::OutputView, LookupError>,
) -> bool {
    match stated {
        Err(e) => r == Err::<OutputRecord, LookupError>(e),
        Ok(v) => r matches Ok(rec) && rec@ == v,
    }
}

/// Turns the two query outcomes into the pipeline's result: a corrupt
/// database is fatal (City reported first), an absent entry is an empty
/// record, and success is exactly the merge of what came back.
pub fn interpret_outcomes(
    req: &Request,
    city_outcome: Result<Option<GeoRecord>, GeoDbFault>,
    asn_outcome: Result<Option<AsnRecord>, GeoDbFault>,
    hostname: Option<String>,
) -> (r: Result<OutputRecord, LookupError>)
    ensures
        city_outcome is Err ==> r == Err::<OutputRecord, LookupError>(
            LookupError::MalformedDatabase(DbKind::City),
        ),
        city_outcome is Ok && asn_outcome is Err ==> r == Err::<OutputRecord, LookupError>(
            LookupError::MalformedDatabase(DbKind::Asn),
        ),
        city_outcome matches Ok(g) ==> asn_outcome matches Ok(a) ==> (r matches Ok(rec) && rec@
            == spec_merge(asn_or_absent(a), geo_or_absent(g), opt_view(hostname), req@)),
{
    let geo_entry = match city_outcome {
        Ok(entry) => entry,
        Err(_) => return Err(LookupError::MalformedDatabase(DbKind::City)),
    };
    let asn_entry = match asn_outcome {
        Ok(entry) => entry,
        Err(_) => return Err(LookupError::MalformedDatabase(DbKind::Asn)),
    };
    let geo = match geo_entry {
        Some(rec) => rec,
        None => GeoRecord::absent(),
    };
    let asn = match asn_entry {
        Some(rec) => rec,
        None => AsnRecord::absent(),
    };
    Ok(merge(&asn, &geo, hostname, req))
}

/// Resolves a routable address against the four candidate database
/// images (commercial and lite, per database) plus the optional reverse
/// DNS result. Availability of both databases is checked before either
/// is queried; a database missing under both filenames, or one that
/// fails validation, is fatal and yields no record. The selected images
/// must lie in the decoder's domain (`city_query_of` / `asn_query_of`
/// not `None`): outside it the engine aborts rather than returning, and
/// no in-process test of membership exists, so an unverified caller
/// guards this call at the process edge and reports the abort as the
/// malformed-database failure.
pub fn resolve(
    req: &Request,
    city_primary: Option<Vec<u8>>,
    city_lite: Option<Vec<u8>>,
    asn_primary: Option<Vec<u8>>,
    asn_lite: Option<Vec<u8>>,
    hostname: Option<String>,
) -> (r: Result<OutputRecord, LookupError>)
    requires
        is_global(req.address),
        spec_select(opt_bytes(city_primary), opt_bytes(city_lite)) matches Some(city_image)
            ==> city_query_of(city_image, req.address) is Some,
        spec_select(opt_bytes(asn_primary), opt_bytes(asn_lite)) matches Some(asn_image)
            ==> asn_query_of(asn_image, req.address) is Some,
    ensures
        (city_primary is None && city_lite is None) <==> r == Err::<OutputRecord, LookupError>(
            LookupError::DatabaseUnavailable(DbKind::City),
        ),
        ((city_primary is Some || city_lite is Some) && asn_primary is None && asn_lite is None)
            <==> r == Err::<OutputRecord, LookupError>(
            LookupError::DatabaseUnavailable(DbKind::Asn),
        ),
        spec_select(opt_bytes(city_primary), opt_bytes(city_lite)) matches Some(city_db)
            ==> spec_select(opt_bytes(asn_primary), opt_bytes(asn_lite)) matches Some(asn_db)
            ==> outcome_matches(
            r,
            spec_query_pipeline(req@, city_db, asn_db, opt_view(hostname)),
        ),
        r matches Ok(rec) ==> rec.ip@ == req.address_text@ && opt_view(rec.hostname) == opt_view(
            hostname,
        ),
{
    let ghost city_choice = spec_select(opt_bytes(city_primary), opt_bytes(city_lite));
    let ghost asn_choice = spec_select(opt_bytes(asn_primary), opt_bytes(asn_lite));
    let city_db = match select_database(city_primary, city_lite) {
        Some(image) => image,
        None => return Err(LookupError::DatabaseUnavailable(DbKind::City)),
    };
    let asn_db = match select_database(asn_primary, asn_lite) {
        Some(image) => image,
        None => return Err(LookupError::DatabaseUnavailable(DbKind::Asn)),
    };
    proof {
        assert(city_choice == Some(city_db@));
        assert(asn_choice == Some(asn_db@));
    }
    let city_outcome = geodb::city_db_query(&city_db, &req.address);
    let asn_outcome = geodb::asn_db_query(&asn_db, &req.address);
    let r = interpret_outcomes(req, city_outcome, asn_outcome, hostname);
    proof {
        assert(city_outcome == city_query_of(city_db@, req.address)->Some_0);
        assert(asn_outcome == asn_query_of(asn_db@, req.address)->Some_0);
    }
    r
}

/// Law: a field of the resolved record is present only when its source
/// data was; nothing is synthesized. The city name additionally demands
/// the requested language key; coordinates demand each other; the
/// organization demands at least one ASN field.
pub proof fn lemma_no_fabricated_fields(
    asn: AsnView,
    geo: GeoView,
    hostname: Option<Seq<char>>,
    req: RequestView,
)
    ensures
        spec_merge(asn, geo, hostname, req).hostname == hostname,
        spec_merge(asn, geo, hostname, req).city matches Some(name) ==> (geo.city_names
            matches Some(names) && exists|j: int|
            0 <= j < names.len() && names[j].0 == req.language && names[j].1 == name),
        spec_merge(asn, geo, hostname, req).region_iso is Some ==> (geo.subdivisions matches Some(
            subs,
        ) && subs.len() > 0),
        spec_merge(asn, geo, hostname, req).country_iso == geo.country_iso,
        spec_merge(asn, geo, hostname, req).latitude is Some ==> (geo.location matches Some(loc)
            && loc.latitude is Some && loc.longitude is Some),
        spec_merge(asn, geo, hostname, req).longitude is Some ==> (geo.location matches Some(loc)
            && loc.latitude is Some && loc.longitude is Some),
        spec_merge(asn, geo, hostname, req).map_link is Some ==> (geo.location matches Some(loc)
            && loc.latitude is Some && loc.longitude is Some),
        spec_merge(asn, geo, hostname, req).org is Some ==> asn.number is Some
            || asn.organization is Some,
        spec_merge(asn, geo, hostname, req).postal == geo.postal,
        spec_merge(asn, geo, hostname, req).timezone is Some ==> (geo.location matches Some(loc)
            && loc.time_zone is Some),
{
    if spec_merge(asn, geo, hostname, req).city is Some {
        assert(geo.city_names is Some);
        lemma_city_name_needs_language_key(geo.city_names->Some_0, req.language);
    }
}

/// Law: the requested language's key must be in the name mapping for a
/// city name to appear, and the name is that key's value — never a
/// substitute from another language.
pub proof fn lemma_city_name_needs_language_key(names: Seq<(Seq<char>, Seq<char>)>, lang: Seq<
    char,
>)
    ensures
        spec_lookup_name(names, lang) matches Some(name) ==> (exists|j: int|
            0 <= j < names.len() && names[j].0 == lang && names[j].1 == name),
    decreases names.len(),
{
    if names.len() > 0 && names[0].0 != lang {
        lemma_city_name_needs_language_key(names.drop_first(), lang);
        if spec_lookup_name(names, lang) is Some {
            let name = spec_lookup_name(names, lang)->Some_0;
            let j = choose|j: int|
                0 <= j < names.drop_first().len() && names.drop_first()[j].0 == lang
                    && names.drop_first()[j].1 == name;
            assert(names[j + 1].0 == lang && names[j + 1].1 == name);
        }
    }
}

/// Law: coordinates and the map link are emitted as a trio or not at
/// all; one missing coordinate suppresses all three.
pub proof fn lemma_coordinate_pairing(
    asn: AsnView,
    geo: GeoView,
    hostname: Option<Seq<char>>,
    req: RequestView,
)
    ensures
        spec_merge(asn, geo, hostname, req).latitude is Some <==> spec_merge(
            asn,
            geo,
            hostname,
            req,
        ).longitude is Some,
        spec_merge(asn, geo, hostname, req).latitude is Some <==> spec_merge(
            asn,
            geo,
            hostname,
            req,
        ).map_link is Some,
        (geo.location matches Some(loc) && (loc.latitude is None || loc.longitude is None))
            ==> spec_merge(asn, geo, hostname, req).latitude is None && spec_merge(
            asn,
            geo,
            hostname,
            req,
        ).longitude is None && spec_merge(asn, geo, hostname, req).map_link is None,
{
}

/// Law: resolution is idempotent. Two results that both meet the
/// pipeline's contract for the same request, the same database images
/// and the same hostname answer agree exactly: the same error, or
/// records equal in every field. Serialization downstream is a function
/// of the record, so repeated invocations reproduce the output verbatim.
pub proof fn lemma_resolution_idempotent(
    first: Result<OutputRecord, LookupError>,
    second: Result<OutputRecord, LookupError>,
    req: RequestView,
    city_db: Seq<u8>,
    asn_db: Seq<u8>,
    hostname: Option<Seq<char>>,
)
    requires
        outcome_matches(first, spec_query_pipeline(req, city_db, asn_db, hostname)),
        outcome_matches(second, spec_query_pipeline(req, city_db, asn_db, hostname)),
    ensures
        first is Ok <==> second is Ok,
        first is Ok ==> first->Ok_0@ == second->Ok_0@,
        first is Err ==> first == second,
{
}

} // verus!
