use atlas_rs::ip::IpAddress;
use atlas_rs::maxmind_db::{reader_from_bytes, MaxmindDB, MaxmindDBInner, UpdatePlan};
use atlas_rs::maxmind_db::DbError;
use atlas_rs::schemas::LookupResult;
use atlas_rs::services::lookup::{handle_lookup, lookup_response, validate_request, RequestError};

// --- a minimal, valid MaxMind database built in memory ---

fn ctrl(t: u8, size: usize) -> Vec<u8> {
    assert!(size < 285);
    let (bits, extra) = if size < 29 {
        (size as u8, None)
    } else {
        (29u8, Some((size - 29) as u8))
    };
    let mut v = Vec::new();
    if t <= 7 {
        v.push((t << 5) | bits);
    } else {
        v.push(bits);
        v.push(t - 7);
    }
    if let Some(e) = extra {
        v.push(e);
    }
    v
}

fn mm_str(s: &str) -> Vec<u8> {
    let mut v = ctrl(2, s.len());
    v.extend_from_slice(s.as_bytes());
    v
}

fn be_min(x: u64) -> Vec<u8> {
    let mut out = Vec::new();
    let mut x = x;
    while x > 0 {
        out.insert(0, (x & 0xFF) as u8);
        x >>= 8;
    }
    out
}

fn mm_u16(x: u16) -> Vec<u8> {
    let b = be_min(x as u64);
    let mut v = ctrl(5, b.len());
    v.extend_from_slice(&b);
    v
}

fn mm_u32(x: u32) -> Vec<u8> {
    let b = be_min(x as u64);
    let mut v = ctrl(6, b.len());
    v.extend_from_slice(&b);
    v
}

fn mm_u64(x: u64) -> Vec<u8> {
    let b = be_min(x);
    let mut v = ctrl(9, b.len());
    v.extend_from_slice(&b);
    v
}

fn mm_map(pairs: Vec<(&str, Vec<u8>)>) -> Vec<u8> {
    let mut v = ctrl(7, pairs.len());
    for (k, val) in pairs {
        v.extend_from_slice(&mm_str(k));
        v.extend_from_slice(&val);
    }
    v
}

fn mm_array(items: Vec<Vec<u8>>) -> Vec<u8> {
    let mut v = ctrl(11, items.len());
    for it in items {
        v.extend_from_slice(&it);
    }
    v
}

/// One IPv4 database with a single address mapping to one record.
fn build_db(epoch: u64, ip: [u8; 4], record: Vec<u8>) -> Vec<u8> {
    let node_count: usize = 32;
    let not_found = node_count as u32;
    let data_ptr = (node_count + 16) as u32;
    let mut tree = Vec::new();
    let ip_val = u32::from_be_bytes(ip);
    for i in 0..node_count {
        let bit = (ip_val >> (31 - i)) & 1;
        let next = if i == node_count - 1 { data_ptr } else { (i + 1) as u32 };
        let (left, right) = if bit == 1 { (not_found, next) } else { (next, not_found) };
        tree.extend_from_slice(&left.to_be_bytes()[1..4]);
        tree.extend_from_slice(&right.to_be_bytes()[1..4]);
    }
    let mut buf = tree;
    buf.extend_from_slice(&[0u8; 16]);
    buf.extend_from_slice(&record);
    buf.extend_from_slice(b"\xab\xcd\xefMaxMind.com");
    let metadata = mm_map(vec![
        ("binary_format_major_version", mm_u16(2)),
        ("binary_format_minor_version", mm_u16(0)),
        ("build_epoch", mm_u64(epoch)),
        ("database_type", mm_str("GeoIP2-City")),
        ("description", mm_map(vec![])),
        ("ip_version", mm_u16(4)),
        ("languages", mm_array(vec![])),
        ("node_count", mm_u32(32)),
        ("record_size", mm_u16(24)),
    ]);
    buf.extend_from_slice(&metadata);
    buf
}

fn city_record(geoname_id: u32, name: &str) -> Vec<u8> {
    mm_map(vec![(
        "city",
        mm_map(vec![
            ("geoname_id", mm_u32(geoname_id)),
            ("names", mm_map(vec![("en", mm_str(name))])),
        ]),
    )])
}

fn test_inner(epoch: u64) -> MaxmindDBInner {
    let buf = build_db(epoch, [214, 78, 120, 1], city_record(5391811, "San Diego"));
    let reader = reader_from_bytes(buf).expect("the crafted database must open");
    MaxmindDBInner::new(
        reader,
        "GeoIP2-City.mmdb".to_string(),
        "tests-data/GeoIP2-City-Test_20231110".to_string(),
    )
}

fn find_result<'a>(
    results: &'a [(IpAddress, Option<LookupResult>)],
    ip: IpAddress,
) -> &'a Option<LookupResult> {
    &results.iter().find(|(k, _)| *k == ip).expect("address missing from results").1
}

#[test]
fn test_lookup_endpoint() {
    let db = test_inner(1700000000);
    let resp = handle_lookup(&db, "city", "214.78.120.1").expect("the request is valid");
    assert_eq!(resp.database_build_epoch, db.build_epoch());
    let rec = find_result(&resp.results, IpAddress::v4(214, 78, 120, 1));
    match rec {
        Some(LookupResult::City(city)) => {
            let part = city.city.as_ref().expect("the record has a city part");
            assert_eq!(part.geoname_id, Some(5391811));
            let names = part.names.as_ref().expect("the city part has names");
            assert_eq!(names.get("en").map(String::as_str), Some("San Diego"));
        },
        _ => panic!("expected a city record"),
    }
}

#[test]
fn test_multiple_ips() {
    let db = test_inner(1700000000);
    let (kind, ips) =
        validate_request("city", "214.78.120.1,214.78.120.2,4.2.2.4").expect("valid batch");
    let resp = lookup_response(&db, &kind, &ips);
    assert_eq!(resp.results.len(), 3);
    assert!(matches!(find_result(&resp.results, IpAddress::v4(214, 78, 120, 1)), Some(_)));
    assert!(find_result(&resp.results, IpAddress::v4(214, 78, 120, 2)).is_none());
    assert!(find_result(&resp.results, IpAddress::v4(4, 2, 2, 4)).is_none());
}

#[test]
fn test_non_existing_ip() {
    let db = test_inner(1700000000);
    let (kind, ips) = validate_request("city", "1.1.1.1").expect("valid request");
    let resp = lookup_response(&db, &kind, &ips);
    assert!(find_result(&resp.results, IpAddress::v4(1, 1, 1, 1)).is_none());
}

#[test]
fn test_special_ip() {
    let err = validate_request("city", "192.168.1.1").unwrap_err();
    assert_eq!(err.code(), "SPECIAL_IP");
    match err {
        RequestError::SpecialIp(t) => assert_eq!(t, "192.168.1.1"),
        _ => panic!("expected the special-address refusal"),
    }
}

#[test]
fn test_invalid_ip() {
    let err = validate_request("city", "192.168.1.").unwrap_err();
    assert_eq!(err.code(), "INVALID_IP");
    match err {
        RequestError::InvalidIp(t) => assert_eq!(t, "192.168.1."),
        _ => panic!("expected the invalid-address refusal"),
    }
}

#[test]
fn test_rejects_too_many_ips() {
    let ip_addresses =
        (1..=51).map(|i| format!("1.1.1.{i}")).collect::<Vec<_>>().join(",");
    let err = validate_request("city", &ip_addresses).unwrap_err();
    assert_eq!(err.code(), "TOO_MANY_IPS");
    assert!(matches!(err, RequestError::TooManyIps));
}

#[test]
fn test_unknown_lookup_type() {
    let err = validate_request("postal_code", "4.2.2.4").unwrap_err();
    assert_eq!(err.code(), "INVALID_LOOKUP_TYPE");
    assert!(matches!(err, RequestError::InvalidLookupType));
}

#[test]
fn test_invalid_beats_batch_size() {
    let mut ips: Vec<String> = (1..=51).map(|i| format!("1.1.1.{i}")).collect();
    ips[10] = "not-an-ip".to_string();
    let err = validate_request("city", &ips.join(",")).unwrap_err();
    assert_eq!(err.code(), "INVALID_IP");
}

#[test]
fn test_connection_type_lookup() {
    let record = mm_map(vec![("connection_type", mm_str("Cable/DSL"))]);
    let buf = build_db(1700000000, [4, 2, 2, 4], record);
    let reader = reader_from_bytes(buf).expect("the crafted database must open");
    let db = MaxmindDBInner::new(reader, "f".to_string(), "p".to_string());
    let (kind, ips) = validate_request("connection_type", "4.2.2.4").expect("valid request");
    let resp = lookup_response(&db, &kind, &ips);
    match find_result(&resp.results, IpAddress::v4(4, 2, 2, 4)) {
        Some(LookupResult::ConnectionType(ct)) => {
            assert_eq!(ct.connection_type.as_deref(), Some("Cable/DSL"));
        },
        _ => panic!("expected a connection-type record"),
    }
}

#[test]
fn test_asn_lookup() {
    let record = mm_map(vec![
        ("autonomous_system_number", mm_u32(3356)),
        ("autonomous_system_organization", mm_str("Level 3")),
    ]);
    let buf = build_db(1700000000, [4, 2, 2, 4], record);
    let reader = reader_from_bytes(buf).expect("the crafted database must open");
    let db = MaxmindDBInner::new(reader, "f".to_string(), "p".to_string());
    let (kind, ips) = validate_request("asn", "4.2.2.4").expect("valid request");
    let resp = lookup_response(&db, &kind, &ips);
    match find_result(&resp.results, IpAddress::v4(4, 2, 2, 4)) {
        Some(LookupResult::Asn(asn)) => {
            assert_eq!(asn.autonomous_system_number, Some(3356));
            assert_eq!(asn.autonomous_system_organization.as_deref(), Some("Level 3"));
        },
        _ => panic!("expected an autonomous-system record"),
    }
}

#[test]
fn test_country_lookup() {
    let record = mm_map(vec![(
        "country",
        mm_map(vec![
            ("iso_code", mm_str("US")),
            ("names", mm_map(vec![("en", mm_str("United States"))])),
        ]),
    )]);
    let buf = build_db(1700000000, [214, 78, 120, 1], record);
    let reader = reader_from_bytes(buf).expect("the crafted database must open");
    let db = MaxmindDBInner::new(reader, "f".to_string(), "p".to_string());
    let (kind, ips) = validate_request("country", "214.78.120.1").expect("valid request");
    let resp = lookup_response(&db, &kind, &ips);
    match find_result(&resp.results, IpAddress::v4(214, 78, 120, 1)) {
        Some(LookupResult::Country(c)) => {
            let part = c.country.as_ref().expect("the record has a country part");
            assert_eq!(part.iso_code.as_deref(), Some("US"));
            let names = part.names.as_ref().expect("the country part has names");
            assert_eq!(names.get("en").map(String::as_str), Some("United States"));
        },
        _ => panic!("expected a country record"),
    }
}

#[test]
fn test_other_shapes_round_trip() {
    let anon = mm_map(vec![("is_anonymous", ctrl(14, 1))]);
    let buf = build_db(1700000000, [4, 2, 2, 4], anon);
    let reader = reader_from_bytes(buf).expect("the crafted database must open");
    let db = MaxmindDBInner::new(reader, "f".to_string(), "p".to_string());
    let (kind, ips) = validate_request("anonymous_ip", "4.2.2.4").expect("valid request");
    match find_result(&lookup_response(&db, &kind, &ips).results, IpAddress::v4(4, 2, 2, 4)) {
        Some(LookupResult::AnonymousIp(a)) => assert_eq!(a.is_anonymous, Some(true)),
        _ => panic!("expected an anonymity record"),
    }

    let di = mm_map(vec![
        ("average_income", mm_u32(32000)),
        ("population_density", mm_u32(1250)),
    ]);
    let buf = build_db(1700000000, [4, 2, 2, 4], di);
    let reader = reader_from_bytes(buf).expect("the crafted database must open");
    let db = MaxmindDBInner::new(reader, "f".to_string(), "p".to_string());
    let (kind, ips) = validate_request("density_income", "4.2.2.4").expect("valid request");
    match find_result(&lookup_response(&db, &kind, &ips).results, IpAddress::v4(4, 2, 2, 4)) {
        Some(LookupResult::DensityIncome(d)) => {
            assert_eq!(d.average_income, Some(32000));
            assert_eq!(d.population_density, Some(1250));
        },
        _ => panic!("expected a density-and-income record"),
    }

    let isp = mm_map(vec![
        ("autonomous_system_number", mm_u32(701)),
        ("isp", mm_str("Verizon")),
        ("organization", mm_str("Verizon Business")),
    ]);
    let buf = build_db(1700000000, [4, 2, 2, 4], isp);
    let reader = reader_from_bytes(buf).expect("the crafted database must open");
    let db = MaxmindDBInner::new(reader, "f".to_string(), "p".to_string());
    let (kind, ips) = validate_request("isp", "4.2.2.4").expect("valid request");
    match find_result(&lookup_response(&db, &kind, &ips).results, IpAddress::v4(4, 2, 2, 4)) {
        Some(LookupResult::Isp(i)) => {
            assert_eq!(i.autonomous_system_number, Some(701));
            assert_eq!(i.isp.as_deref(), Some("Verizon"));
            assert_eq!(i.organization.as_deref(), Some("Verizon Business"));
        },
        _ => panic!("expected a provider record"),
    }

    let ent = mm_map(vec![(
        "city",
        mm_map(vec![
            ("geoname_id", mm_u32(2643743)),
            ("names", mm_map(vec![("en", mm_str("London"))])),
        ]),
    )]);
    let buf = build_db(1700000000, [4, 2, 2, 4], ent);
    let reader = reader_from_bytes(buf).expect("the crafted database must open");
    let db = MaxmindDBInner::new(reader, "f".to_string(), "p".to_string());
    let (kind, ips) = validate_request("enterprise", "4.2.2.4").expect("valid request");
    match find_result(&lookup_response(&db, &kind, &ips).results, IpAddress::v4(4, 2, 2, 4)) {
        Some(LookupResult::Enterprise(e)) => {
            let part = e.city.as_ref().expect("the record has a city part");
            assert_eq!(part.geoname_id, Some(2643743));
        },
        _ => panic!("expected an enterprise record"),
    }
}

#[test]
fn test_invalid_database_is_refused() {
    match reader_from_bytes(vec![1, 2, 3, 4]) {
        Err(DbError::InvalidDatabase(_)) => {},
        Err(other) => panic!("unexpected failure class: {other:?}"),
        Ok(_) => panic!("garbage must not open as a database"),
    }
}

#[test]
fn test_update_inner_db_monotonic() {
    let mut manager = MaxmindDB::new(
        test_inner(1700000000),
        "GeoIP2-City".to_string(),
        "tests-data".to_string(),
    );
    // an older candidate is refused, the handle and epoch stay
    let older = test_inner(1600000000);
    assert!(manager.update_inner_db(older).is_none());
    assert_eq!(manager.build_epoch(), 1700000000);
    // a newer candidate is installed and the stale directory comes back
    let newer = test_inner(1800000000);
    let stale = manager.update_inner_db(newer);
    assert_eq!(stale.as_deref(), Some("tests-data/GeoIP2-City-Test_20231110"));
    assert_eq!(manager.build_epoch(), 1800000000);
}

#[test]
fn test_update_plan_min_age() {
    let manager = MaxmindDB::new(
        test_inner(1700000000),
        "GeoIP2-City".to_string(),
        "tests-data".to_string(),
    );
    // before the minimum age has elapsed nothing is fetched
    assert!(matches!(manager.update_plan(86400, 1700000010), UpdatePlan::TooNew));
    assert_eq!(manager.build_epoch(), 1700000000);
    // exactly at the boundary the update may proceed
    assert!(matches!(manager.update_plan(86400, 1700000000 + 86400), UpdatePlan::Fetch));
    assert!(matches!(manager.update_plan(86400, 1800000000), UpdatePlan::Fetch));
}
