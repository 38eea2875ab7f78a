use sarasara::fetch::{feed_fetch_step, program_json_path, program_json_url, FeedFetchStep};
use sarasara::urls::UrlParts;

#[test]
fn ok_status_parses_body() {
    assert!(matches!(feed_fetch_step(200), FeedFetchStep::ParseBody));
}

#[test]
fn not_found_status_skips_body() {
    assert!(matches!(feed_fetch_step(404), FeedFetchStep::NotFound));
    assert!(matches!(feed_fetch_step(500), FeedFetchStep::NotFound));
    assert!(matches!(feed_fetch_step(301), FeedFetchStep::NotFound));
}

#[test]
fn program_path_is_built() {
    assert_eq!(program_json_path("lastoriadelgiorno"), "programmi/lastoriadelgiorno.json");
}

#[test]
fn program_url_is_absolutized() {
    let base = UrlParts {
        origin: "https://www.raiplaysound.it".to_string(),
        path: "/".to_string(),
    };
    assert_eq!(
        program_json_url(&base, "lastoriadelgiorno"),
        "https://www.raiplaysound.it/programmi/lastoriadelgiorno.json"
    );
}
