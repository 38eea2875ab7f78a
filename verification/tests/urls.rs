use sarasara::urls::{concat_url_path_with_slash, make_audio_url, make_url, UrlParts};

fn parts(origin: &str, path: &str) -> UrlParts {
    UrlParts { origin: origin.to_string(), path: path.to_string() }
}

#[test]
fn absolutize_replaces_path() {
    let base = parts("https://host", "/a/b");
    assert_eq!(make_url(&base, "/c/d"), "https://host/c/d");
}

#[test]
fn absolutize_adds_missing_leading_slash() {
    let base = parts("https://host", "/a/b");
    assert_eq!(make_url(&base, "c/d"), "https://host/c/d");
}

#[test]
fn absolutize_empty_path() {
    let base = parts("https://host", "/a/b");
    assert_eq!(make_url(&base, ""), "https://host/");
}

#[test]
fn join_path_trailing_and_leading_slash() {
    let r = concat_url_path_with_slash(&parts("https://host", "/base/"), "/audio");
    assert_eq!(r.origin, "https://host");
    assert_eq!(r.path, "/base/audio");
}

#[test]
fn join_path_no_slashes() {
    let r = concat_url_path_with_slash(&parts("https://host", "/base"), "audio");
    assert_eq!(r.path, "/base/audio");
}

#[test]
fn join_path_leading_slash_only() {
    let r = concat_url_path_with_slash(&parts("https://host", "/base"), "/audio");
    assert_eq!(r.path, "/base/audio");
}

#[test]
fn join_path_trailing_slash_only() {
    let r = concat_url_path_with_slash(&parts("https://host", "/base/"), "audio");
    assert_eq!(r.path, "/base/audio");
}

#[test]
fn join_path_root_base() {
    let r = concat_url_path_with_slash(&parts("https://host", "/"), "/audio");
    assert_eq!(r.path, "/audio");
}

#[test]
fn audio_url_attaches_raw_query() {
    let base = parts("https://pod.example", "/");
    assert_eq!(
        make_audio_url(&base, "https://cdn.example/ep1.mp3"),
        "https://pod.example/audio?url=https://cdn.example/ep1.mp3"
    );
}

#[test]
fn audio_url_keeps_reserved_characters_verbatim() {
    let base = parts("https://pod.example", "/base");
    assert_eq!(
        make_audio_url(&base, "https://cdn.example/a.mp3?x=1&y=2"),
        "https://pod.example/base/audio?url=https://cdn.example/a.mp3?x=1&y=2"
    );
}
