use ipwhere::addr::IpAddress;
use ipwhere::model::{
    AsnRecord, DbKind, GeoDbFault, GeoRecord, LookupError, Request, SubdivisionPolicy,
};
use ipwhere::pipeline::{begin, interpret_outcomes, resolve, select_database, PipelineStep};
use ipwhere::text::join_language_codes;

fn request(address: IpAddress, text: &str) -> Request {
    Request {
        address,
        address_text: String::from(text),
        language: String::from("en"),
        subdivision_policy: SubdivisionPolicy::First,
    }
}

#[test]
fn bogon_short_circuit() {
    let req = request(IpAddress::V4 { a: 127, b: 0, c: 0, d: 1 }, "127.0.0.1");
    match begin(&req) {
        PipelineStep::Bogon(record) => {
            assert_eq!(record.ip, "127.0.0.1");
            assert!(record.bogon);
        },
        PipelineStep::NeedDatabases => panic!("loopback must short-circuit"),
    }
}

#[test]
fn bogon_short_circuit_private_v4() {
    let req = request(IpAddress::V4 { a: 10, b: 0, c: 0, d: 5 }, "10.0.0.5");
    match begin(&req) {
        PipelineStep::Bogon(record) => {
            assert_eq!(record.ip, "10.0.0.5");
            assert!(record.bogon);
        },
        PipelineStep::NeedDatabases => panic!("private range must short-circuit"),
    }
}

#[test]
fn bogon_short_circuit_link_local_v6() {
    let req = request(
        IpAddress::V6 { s0: 0xfe80, s1: 0, s2: 0, s3: 0, s4: 0, s5: 0, s6: 0, s7: 1 },
        "fe80::1",
    );
    match begin(&req) {
        PipelineStep::Bogon(record) => {
            assert_eq!(record.ip, "fe80::1");
            assert!(record.bogon);
        },
        PipelineStep::NeedDatabases => panic!("link-local must short-circuit"),
    }
}

#[test]
fn routable_address_proceeds() {
    let req = request(IpAddress::V4 { a: 8, b: 8, c: 8, d: 8 }, "8.8.8.8");
    assert!(matches!(begin(&req), PipelineStep::NeedDatabases));
}

#[test]
fn select_prefers_commercial_image() {
    assert_eq!(select_database(Some(vec![1u8]), Some(vec![2u8])), Some(vec![1u8]));
    assert_eq!(select_database(None, Some(vec![2u8])), Some(vec![2u8]));
    assert_eq!(select_database(Some(vec![1u8]), None), Some(vec![1u8]));
    assert_eq!(select_database(None, None), None);
}

#[test]
fn missing_city_database_is_fatal() {
    let req = request(IpAddress::V4 { a: 8, b: 8, c: 8, d: 8 }, "8.8.8.8");
    let r = resolve(&req, None, None, Some(vec![0u8; 32]), None, None);
    assert_eq!(r.unwrap_err(), LookupError::DatabaseUnavailable(DbKind::City));
}

#[test]
fn missing_asn_database_is_fatal() {
    let req = request(IpAddress::V4 { a: 8, b: 8, c: 8, d: 8 }, "8.8.8.8");
    let r = resolve(&req, Some(vec![0u8; 32]), None, None, None, None);
    assert_eq!(r.unwrap_err(), LookupError::DatabaseUnavailable(DbKind::Asn));
}

#[test]
fn garbage_city_database_is_malformed() {
    let req = request(IpAddress::V4 { a: 8, b: 8, c: 8, d: 8 }, "8.8.8.8");
    let r = resolve(&req, Some(vec![0u8; 64]), None, Some(vec![0u8; 64]), None, None);
    assert_eq!(r.unwrap_err(), LookupError::MalformedDatabase(DbKind::City));
}

#[test]
fn absent_entries_merge_to_bare_record() {
    let req = request(IpAddress::V4 { a: 8, b: 8, c: 8, d: 8 }, "8.8.8.8");
    let out = interpret_outcomes(&req, Ok(None), Ok(None), None).unwrap();
    assert_eq!(out.ip, "8.8.8.8");
    assert_eq!(out.hostname, None);
    assert_eq!(out.city, None);
    assert_eq!(out.org, None);
}

#[test]
fn malformed_outcomes_are_fatal_city_first() {
    let req = request(IpAddress::V4 { a: 8, b: 8, c: 8, d: 8 }, "8.8.8.8");
    let r = interpret_outcomes(&req, Err(GeoDbFault::Malformed), Err(GeoDbFault::Malformed), None);
    assert_eq!(r.unwrap_err(), LookupError::MalformedDatabase(DbKind::City));
    let r2 = interpret_outcomes(
        &req,
        Ok(Some(GeoRecord {
            city_names: None,
            subdivisions: None,
            country_iso: None,
            location: None,
            postal: None,
        })),
        Err(GeoDbFault::Malformed),
        None,
    );
    assert_eq!(r2.unwrap_err(), LookupError::MalformedDatabase(DbKind::Asn));
}

#[test]
fn successful_outcome_carries_hostname() {
    let req = request(IpAddress::V4 { a: 8, b: 8, c: 8, d: 8 }, "8.8.8.8");
    let asn = AsnRecord { number: Some(15169), organization: None };
    let out = interpret_outcomes(&req, Ok(None), Ok(Some(asn)), Some(String::from("dns.google")))
        .unwrap();
    assert_eq!(out.hostname, Some(String::from("dns.google")));
    assert_eq!(out.org, Some(String::from("AS15169")));
}

#[test]
fn language_codes_join_without_trailing_comma() {
    assert_eq!(
        join_language_codes(&vec![
            String::from("de"),
            String::from("en"),
            String::from("fr"),
        ]),
        "de, en, fr"
    );
    assert_eq!(join_language_codes(&vec![String::from("en")]), "en");
    assert_eq!(join_language_codes(&vec![]), "");
}
