use fintrack_shim::resolver::db_candidate_path;
use fintrack_shim::resolver::marker_candidate_path;
use fintrack_shim::resolver::resolve_portable_db_path;

#[test]
fn db_candidate_is_under_the_resource_dir() {
    assert_eq!(db_candidate_path("/opt/app/resources"), "/opt/app/resources/finanzas.db");
}

#[test]
fn marker_candidate_is_under_the_resource_dir() {
    assert_eq!(
        marker_candidate_path("/opt/app/resources"),
        "/opt/app/resources/fintrack.portable"
    );
}

#[test]
fn candidates_under_an_empty_dir() {
    assert_eq!(db_candidate_path(""), "/finanzas.db");
    assert_eq!(marker_candidate_path(""), "/fintrack.portable");
}

#[test]
fn neither_file_yields_absence() {
    assert_eq!(resolve_portable_db_path(Some("/opt/app/resources"), false, false), None);
}

#[test]
fn marker_alone_yields_the_db_path() {
    assert_eq!(
        resolve_portable_db_path(Some("/opt/app/resources"), true, false),
        Some("/opt/app/resources/finanzas.db".to_string())
    );
}

#[test]
fn db_file_alone_yields_its_path() {
    assert_eq!(
        resolve_portable_db_path(Some("/opt/app/resources"), false, true),
        Some("/opt/app/resources/finanzas.db".to_string())
    );
}

#[test]
fn both_files_yield_the_db_path() {
    assert_eq!(
        resolve_portable_db_path(Some("/opt/app/resources"), true, true),
        Some("/opt/app/resources/finanzas.db".to_string())
    );
}

#[test]
fn missing_resource_dir_yields_absence() {
    assert_eq!(resolve_portable_db_path(None, true, true), None);
    assert_eq!(resolve_portable_db_path(None, false, false), None);
}

#[test]
fn check_order_does_not_matter() {
    let dir = "/data";
    assert_eq!(
        resolve_portable_db_path(Some(dir), true, false),
        resolve_portable_db_path(Some(dir), false, true)
    );
    assert_eq!(
        resolve_portable_db_path(Some(dir), false, false),
        resolve_portable_db_path(Some(dir), false, false)
    );
}
