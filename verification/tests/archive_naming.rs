use atlas_rs::download_utils::{
    archive_dir_name, content_disposition_filename, extracted_dir_from_listing, join_path,
    resolve_download_url, AlreadyDownloaded,
};
use atlas_rs::maxmind_db::db_file_paths;

#[test]
fn reads_filename_from_content_disposition() {
    assert_eq!(
        content_disposition_filename(
            "attachment; filename=\"GeoLite2-City_20231110.tar.gz\""
        )
        .as_deref(),
        Some("GeoLite2-City_20231110.tar.gz")
    );
    assert_eq!(
        content_disposition_filename("attachment; filename=plain.tar.gz").as_deref(),
        Some("plain.tar.gz")
    );
    assert_eq!(
        content_disposition_filename("filename=x; filename=y").as_deref(),
        Some("x")
    );
    assert_eq!(content_disposition_filename("attachment"), None);
    assert_eq!(content_disposition_filename(""), None);
    assert_eq!(content_disposition_filename("attachment; name=\"f\""), None);
}

#[test]
fn names_the_versioned_directory() {
    assert_eq!(archive_dir_name("GeoLite2-City_20231110.tar.gz"), "GeoLite2-City_20231110");
    assert_eq!(archive_dir_name("plain"), "plain");
    assert_eq!(archive_dir_name("a.tar.gz.tar.gz"), "a");
    assert!(format!("{:?}", AlreadyDownloaded).contains("AlreadyDownloaded"));
}

#[test]
fn reads_the_extraction_listing() {
    assert_eq!(
        extracted_dir_from_listing("x GeoIP2-City_20231110/GeoIP2-City.mmdb\n").as_deref(),
        Some("GeoIP2-City_20231110/GeoIP2-City.mmdb")
    );
    assert_eq!(extracted_dir_from_listing("x\n"), None);
    assert_eq!(extracted_dir_from_listing(""), None);
}

#[test]
fn fills_the_variant_into_the_url() {
    assert_eq!(
        resolve_download_url(
            "https://download.maxmind.com/geoip/databases/{VARIANT}/download?suffix=tar.gz",
            "GeoLite2-City"
        ),
        "https://download.maxmind.com/geoip/databases/GeoLite2-City/download?suffix=tar.gz"
    );
    assert_eq!(resolve_download_url("{VARIANT}/{VARIANT}", "x"), "x/x");
    assert_eq!(resolve_download_url("no placeholder", "x"), "no placeholder");
}

#[test]
fn joins_paths() {
    assert_eq!(join_path("/opt/atlas/db", "GeoLite2-City_20231110"), "/opt/atlas/db/GeoLite2-City_20231110");
    assert_eq!(join_path("/opt/atlas/db/", "x"), "/opt/atlas/db/x");
    let (full, filename) = db_file_paths("/opt/atlas/db/GeoLite2-City_20231110", "GeoLite2-City");
    assert_eq!(filename, "GeoLite2-City.mmdb");
    assert_eq!(full, "/opt/atlas/db/GeoLite2-City_20231110/GeoLite2-City.mmdb");
}
