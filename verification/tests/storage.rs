use bunny_api::edge_storage::{
    delete_request, download_request, list_request, upload_request, zone_path, Endpoint, Storage,
};
use bunny_api::error::{Error, ErrorKind, UrlError};
use bunny_api::request::{Method, Operation, Pair, Payload, Verdict};
use bunny_api::web_url::Url;
use bunny_api::EdgeStorageClient;
use bytes::Bytes;

fn client() -> EdgeStorageClient {
    EdgeStorageClient::new("storage_zone_api_key", Endpoint::Frankfurt, "MyZone").unwrap()
}

fn storage() -> Storage {
    client().storage
}

#[test]
fn zone_path_is_between_slashes() {
    assert_eq!(zone_path("MyZone"), "/MyZone/");
    assert_eq!(zone_path(""), "//");
    assert_eq!(zone_path("a/b"), "/a/b/");
    assert_eq!(zone_path("z\u{f4}ne"), "/z\u{f4}ne/");
}

#[test]
fn client_points_at_the_zone_root() {
    let client = client();
    assert_eq!(client.storage.root().as_str(), "https://storage.bunnycdn.com/MyZone/");
    assert_eq!(client.key.as_str(), "storage_zone_api_key");
    assert_eq!(
        client.default_headers(),
        vec![
            Pair::new("AccessKey", "storage_zone_api_key"),
            Pair::new("accept", "application/json")
        ]
    );
}

#[test]
fn client_with_custom_endpoint() {
    let endpoint = Endpoint::Custom("http://localhost:9000/ignored/base".to_string());
    let client = EdgeStorageClient::new("key", endpoint, "zone").unwrap();
    assert_eq!(client.storage.root().as_str(), "http://localhost:9000/zone/");
}

#[test]
fn storage_client_refuses_a_key_outside_ascii() {
    let r = EdgeStorageClient::new("cl\u{e9}", Endpoint::Frankfurt, "MyZone");
    assert!(matches!(r, Err(Error::InvalidHeader)));
}

#[test]
fn client_refuses_the_key_before_the_endpoint() {
    let endpoint = Endpoint::Custom("not a url".to_string());
    let r = EdgeStorageClient::new("line\nbreak", endpoint, "MyZone");
    assert!(matches!(r, Err(Error::InvalidHeader)));
}

#[test]
fn client_refuses_an_endpoint_without_scheme() {
    let endpoint = Endpoint::Custom("storage.example.com".to_string());
    let r = EdgeStorageClient::new("key", endpoint, "MyZone");
    assert!(matches!(r, Err(Error::ParseError(_))));
}

#[test]
fn client_refuses_a_zone_that_does_not_resolve() {
    let r = EdgeStorageClient::new("key", Endpoint::Frankfurt, "");
    assert!(matches!(r, Err(Error::ParseError(_))));
    let endpoint = Endpoint::Custom("mailto:someone@example.net".to_string());
    let r = EdgeStorageClient::new("key", endpoint, "MyZone");
    assert!(matches!(r, Err(Error::ParseError(_))));
}

#[test]
fn list_targets_the_path_below_the_zone() {
    let request = client().list("/images/").unwrap();
    assert_eq!(request.url, "https://storage.bunnycdn.com/MyZone/images/");
    assert_eq!(request.operation, Operation::List);
    assert_eq!(request.method, Method::Get);
    assert!(request.headers.is_empty());
    assert_eq!(request.body, None);
}

#[test]
fn init_then_list_targets_the_path_below_the_zone() {
    let mut storage = EdgeStorageClient::new("key", Endpoint::London, "Other").unwrap().storage;
    storage.init(Endpoint::Frankfurt, "MyZone").unwrap();
    let request = storage.list("/images/").unwrap();
    assert_eq!(request.url, "https://storage.bunnycdn.com/MyZone/images/");
    let base = Endpoint::Frankfurt.try_into().unwrap();
    assert_eq!(request.url, format!("{}MyZone/images/", base.as_str()));
}

#[test]
fn path_is_relative_to_the_zone_with_or_without_slashes() {
    let storage = storage();
    let expected = "https://storage.bunnycdn.com/MyZone/images/file.png";
    assert_eq!(storage.object("images/file.png").unwrap().as_str(), expected);
    assert_eq!(storage.object("/images/file.png").unwrap().as_str(), expected);
    assert_eq!(storage.object("//images/file.png").unwrap().as_str(), expected);
    assert_eq!(storage.object("").unwrap().as_str(), "https://storage.bunnycdn.com/MyZone/");
    assert_eq!(storage.object("/").unwrap().as_str(), "https://storage.bunnycdn.com/MyZone/");
}

#[test]
fn path_is_written_as_the_url_parser_writes_it() {
    let storage = storage();
    assert_eq!(
        storage.object("/my files/\u{e9}t\u{e9}.png").unwrap().as_str(),
        "https://storage.bunnycdn.com/MyZone/my%20files/%C3%A9t%C3%A9.png"
    );
}

#[test]
fn init_retargets_the_storage() {
    let mut storage = storage();
    assert!(storage.init(Endpoint::Sydney, "Backup").is_ok());
    assert_eq!(storage.root().as_str(), "https://syd.storage.bunnycdn.com/Backup/");
    let request = storage.delete("/old.txt").unwrap();
    assert_eq!(request.url, "https://syd.storage.bunnycdn.com/Backup/old.txt");
}

#[test]
fn failed_init_leaves_the_storage_as_it_was() {
    let mut storage = storage();
    let before = storage.clone();
    let r = storage.init(Endpoint::Custom("no scheme here".to_string()), "Backup");
    assert!(matches!(r, Err(Error::ParseError(_))));
    assert_eq!(storage, before);
    let r = storage.init(Endpoint::Frankfurt, "");
    assert!(matches!(r, Err(Error::ParseError(_))));
    assert_eq!(storage, before);
    assert_eq!(storage.root().as_str(), "https://storage.bunnycdn.com/MyZone/");
}

#[test]
fn upload_request_carries_the_bytes() {
    let file = Bytes::from_static(b"\x89PNG\r\n");
    let request = client().upload("/images/file.png", file.clone()).unwrap();
    assert_eq!(request.operation, Operation::Upload);
    assert_eq!(request.method, Method::Put);
    assert_eq!(request.url, "https://storage.bunnycdn.com/MyZone/images/file.png");
    assert_eq!(request.headers, vec![Pair::new("Content-Type", "application/octet-stream")]);
    assert_eq!(request.body, Some(file));
}

#[test]
fn download_request_takes_any_content() {
    let request = client().download("/images/file.png").unwrap();
    assert_eq!(request.operation, Operation::Download);
    assert_eq!(request.method, Method::Get);
    assert_eq!(request.url, "https://storage.bunnycdn.com/MyZone/images/file.png");
    assert_eq!(request.headers, vec![Pair::new("accept", "*/*")]);
    assert_eq!(request.body, None);
}

#[test]
fn delete_request_has_no_headers_of_its_own() {
    let request = client().delete("/images/file.png").unwrap();
    assert_eq!(request.operation, Operation::Delete);
    assert_eq!(request.method, Method::Delete);
    assert_eq!(request.url, "https://storage.bunnycdn.com/MyZone/images/file.png");
    assert!(request.headers.is_empty());
    assert_eq!(request.body, None);
}

#[test]
fn storage_and_client_build_the_same_requests() {
    let client = client();
    let file = Bytes::from_static(b"abc");
    assert_eq!(
        client.upload("/a", file.clone()).unwrap(),
        client.storage.upload("/a", file).unwrap()
    );
    assert_eq!(client.download("/a").unwrap(), client.storage.download("/a").unwrap());
    assert_eq!(client.delete("/a").unwrap(), client.storage.delete("/a").unwrap());
    assert_eq!(client.list("/a/").unwrap(), client.storage.list("/a/").unwrap());
}

#[test]
fn requests_for_a_given_url() {
    let url = Url::parse("https://storage.bunnycdn.com/MyZone/a.bin").unwrap();
    let file = Bytes::from_static(b"abc");
    let upload = upload_request(&url, file.clone());
    assert_eq!(upload, storage().upload("a.bin", file).unwrap());
    assert_eq!(download_request(&url), storage().download("a.bin").unwrap());
    assert_eq!(delete_request(&url), storage().delete("a.bin").unwrap());
    assert_eq!(list_request(&url), storage().list("a.bin").unwrap());
    assert_eq!(list_request(&url).url, url.as_str());
}

fn leaves_the_zone(path: &str) -> bool {
    let storage = storage();
    let refused = matches!(storage.object(path), Err(Error::ParseError(UrlError::OutsideZone)));
    let file = Bytes::from_static(b"abc");
    assert_eq!(
        refused,
        matches!(storage.upload(path, file), Err(Error::ParseError(UrlError::OutsideZone)))
    );
    assert_eq!(
        refused,
        matches!(storage.download(path), Err(Error::ParseError(UrlError::OutsideZone)))
    );
    assert_eq!(
        refused,
        matches!(storage.delete(path), Err(Error::ParseError(UrlError::OutsideZone)))
    );
    assert_eq!(
        refused,
        matches!(client().list(path), Err(Error::ParseError(UrlError::OutsideZone)))
    );
    refused
}

#[test]
fn path_with_a_scheme_of_its_own_is_refused() {
    assert!(leaves_the_zone("https://other.example/x"));
    assert!(leaves_the_zone("http://storage.bunnycdn.com/MyZone/x"));
    assert!(leaves_the_zone("https://storage.bunnycdn.com/Other/x"));
    assert!(leaves_the_zone("https://storage.bunnycdn.com/MyZoneX/x"));
    assert!(leaves_the_zone("https://storage.bunnycdn.com:444/MyZone/x"));
    assert!(leaves_the_zone("mailto:someone@example.net"));
    assert!(leaves_the_zone("data:text/plain,x"));
}

#[test]
fn path_that_climbs_above_the_root_is_refused() {
    assert!(leaves_the_zone(".."));
    assert!(leaves_the_zone("../"));
    assert!(leaves_the_zone("../x"));
    assert!(leaves_the_zone("/../x"));
    assert!(leaves_the_zone("a/../../x"));
    assert!(leaves_the_zone("../MyZoneX/x"));
    assert!(leaves_the_zone("%2e%2e/x"));
    assert!(leaves_the_zone("a/%2E%2E/%2e./x"));
}

#[test]
fn path_that_begins_with_a_backslash_is_refused() {
    assert!(leaves_the_zone("\\x"));
    assert!(leaves_the_zone("\\/x"));
    assert!(leaves_the_zone("\\\\other.example\\x"));
    assert!(leaves_the_zone("/\\other.example/x"));
}

#[test]
fn path_with_a_blank_before_a_slash_is_refused() {
    assert!(leaves_the_zone(" /x"));
    assert!(leaves_the_zone("\t/x"));
    assert!(leaves_the_zone("\n/x"));
    assert!(leaves_the_zone(" //other.example/x"));
    assert!(leaves_the_zone("\t\n//other.example/x"));
}

#[test]
fn path_that_stays_in_the_zone_is_taken() {
    let storage = storage();
    let root = "https://storage.bunnycdn.com/MyZone/";
    let cases = [
        ("a/../b", "b"),
        ("a/./b/", "a/b/"),
        ("a/b/../../c", "c"),
        ("./x", "x"),
        ("x?y=1#z", "x?y=1#z"),
        ("a\\b", "a/b"),
        (" x ", "x"),
        ("https://storage.bunnycdn.com/MyZone/x", "x"),
        ("HTTPS://STORAGE.BUNNYCDN.COM/MyZone/x", "x"),
        ("https://storage.bunnycdn.com:443/MyZone/x", "x"),
    ];
    for (path, below) in cases {
        assert!(!leaves_the_zone(path));
        let url = storage.object(path).unwrap();
        assert_eq!(url.as_str(), format!("{}{}", root, below));
        assert!(url.is_under(storage.root()));
    }
}

#[test]
fn every_request_stays_in_the_zone() {
    let storage = storage();
    let paths = [
        "", "/", "x", "/x", "//x", "a/b/c", "../x", "..", "https://other.example/x", "\\x",
        " /x", "a/../b", "a/../../b", "//other.example/x", "///other.example/x", "?q", "#f",
        "https://storage.bunnycdn.com/MyZone/x", "%2e%2e/%2e%2e/x", "x/../../MyZone/y",
    ];
    for path in paths {
        if let Ok(request) = storage.list(path) {
            assert!(request.url.starts_with("https://storage.bunnycdn.com/MyZone/"), "{}", path);
        }
        if let Ok(request) = storage.upload(path, Bytes::new()) {
            assert!(request.url.starts_with("https://storage.bunnycdn.com/MyZone/"), "{}", path);
        }
        if let Ok(request) = storage.download(path) {
            assert!(request.url.starts_with("https://storage.bunnycdn.com/MyZone/"), "{}", path);
        }
        if let Ok(request) = storage.delete(path) {
            assert!(request.url.starts_with("https://storage.bunnycdn.com/MyZone/"), "{}", path);
        }
    }
}

#[test]
fn confine_lets_through_what_lies_in_the_zone() {
    let storage = storage();
    let inside = Url::parse("https://storage.bunnycdn.com/MyZone/a/b").unwrap();
    assert_eq!(storage.confine(inside.clone()).unwrap(), inside);
    let root = storage.root().clone();
    assert_eq!(storage.confine(root.clone()).unwrap(), root);
    for text in [
        "https://storage.bunnycdn.com/",
        "https://storage.bunnycdn.com/MyZone",
        "https://storage.bunnycdn.com/Other/a",
        "https://uk.storage.bunnycdn.com/MyZone/a",
        "http://storage.bunnycdn.com/MyZone/a",
    ] {
        let outside = Url::parse(text).unwrap();
        assert!(matches!(
            storage.confine(outside),
            Err(Error::ParseError(UrlError::OutsideZone))
        ));
    }
}

#[test]
fn path_that_does_not_resolve_is_a_parse_error() {
    let storage = storage();
    assert!(matches!(storage.object("https://"), Err(Error::ParseError(UrlError::Parser(_)))));
    assert!(!leaves_the_zone("https://"));
    assert!(matches!(storage.object("https://"), Err(Error::ParseError(_))));
    assert!(matches!(storage.list("https://"), Err(Error::ParseError(_))));
    assert!(matches!(storage.download("https://"), Err(Error::ParseError(_))));
    assert!(matches!(storage.delete("https://"), Err(Error::ParseError(_))));
    assert!(matches!(
        storage.upload("https://", Bytes::new()),
        Err(Error::ParseError(_))
    ));
    assert!(matches!(client().list("http://[::1"), Err(Error::ParseError(_))));
}

#[test]
fn download_answers_404_with_not_found() {
    let request = client().download("/missing.png").unwrap();
    assert_eq!(request.operation.verdict(404), Verdict::Reject(ErrorKind::NotFound));
    assert!(matches!(
        ErrorKind::NotFound.into_error("Object Not Found".to_string()),
        Error::NotFound(text) if text == "Object Not Found"
    ));
    assert_eq!(request.operation.verdict(400), Verdict::Accept(Payload::Raw));
    assert_eq!(request.operation.verdict(200), Verdict::Accept(Payload::Raw));
    assert_eq!(request.operation.verdict(500), Verdict::Accept(Payload::Raw));
}

#[test]
fn upload_delete_and_list_answer_400_with_bad_request() {
    let client = client();
    let requests = vec![
        client.upload("/a", Bytes::from_static(b"abc")).unwrap(),
        client.delete("/a").unwrap(),
        client.list("/a/").unwrap(),
    ];
    for request in requests {
        assert_eq!(request.operation.verdict(400), Verdict::Reject(ErrorKind::BadRequest));
        assert!(matches!(request.operation.verdict(404), Verdict::Accept(_)));
        assert!(matches!(request.operation.verdict(500), Verdict::Accept(_)));
    }
    assert!(matches!(
        ErrorKind::BadRequest.into_error("bad".to_string()),
        Error::BadRequest(text) if text == "bad"
    ));
}

#[test]
fn storage_operations_answer_401_with_authentication() {
    for operation in [Operation::Upload, Operation::Download, Operation::Delete, Operation::List] {
        assert_eq!(operation.verdict(401), Verdict::Reject(ErrorKind::Authentication));
    }
}

#[test]
fn accepted_storage_responses_say_what_the_body_holds() {
    assert_eq!(Operation::Upload.verdict(201), Verdict::Accept(Payload::Nothing));
    assert_eq!(Operation::Delete.verdict(200), Verdict::Accept(Payload::Nothing));
    assert_eq!(Operation::Download.verdict(200), Verdict::Accept(Payload::Raw));
    assert_eq!(Operation::List.verdict(200), Verdict::Accept(Payload::Json));
}
