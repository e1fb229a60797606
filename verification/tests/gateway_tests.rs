use netreport::captive::{captive_portal_plan, evaluate_captive_response, CaptiveCheckPlan};
use netreport::client::Client;
use netreport::config::Config;
use netreport::gateway::{GetParams, Handler};
use netreport::headers::Headers;
use netreport::relay::{RelayMap, RelayNode, RelayRegion};
use netreport::response::ResponseFormat;

fn empty_config() -> Config {
    Config {
        writeable: false,
        fetch: false,
        cache: false,
        headers: Headers::new(),
        port: "9050".to_string(),
    }
}

fn params(format: &str, filename: &str, download: &str) -> GetParams {
    GetParams {
        format: if format.is_empty() { None } else { Some(format.to_string()) },
        filename: if filename.is_empty() { None } else { Some(filename.to_string()) },
        download: if download.is_empty() { None } else { Some(download.to_string()) },
    }
}

#[test]
fn response_format_parses_known_formats() {
    assert_eq!(Handler::response_format("raw").unwrap(), ResponseFormat::Raw);
    assert_eq!(Handler::response_format("car").unwrap(), ResponseFormat::Car);
    assert_eq!(Handler::response_format("html").unwrap(), ResponseFormat::HTML);
    assert_eq!(Handler::response_format("").unwrap(), ResponseFormat::FS);
    assert_eq!(Handler::response_format("json").unwrap_err(), "format not supported".to_string());
}

#[test]
fn format_headers_values() {
    let raw = Handler::format_headers(&ResponseFormat::Raw);
    assert_eq!(raw.get("Content-Type").unwrap(), "application/vnd.ipld.raw");
    assert_eq!(raw.get("X-Content-Type-Options").unwrap(), "nosniff");
    let car = Handler::format_headers(&ResponseFormat::Car);
    assert_eq!(car.get("Content-Type").unwrap(), "application/vnd.ipld.car; version=1");
    let html = Handler::format_headers(&ResponseFormat::HTML);
    assert_eq!(html.get("Content-Type").unwrap(), "text/html");
    assert_eq!(html.len(), 1);
    let fs = Handler::format_headers(&ResponseFormat::FS);
    assert_eq!(fs.get("Content-Type").unwrap(), "application/vnd.ipld.raw");
}

#[test]
fn user_headers_override_base() {
    let mut base = Headers::new();
    base.insert("Content-Type".to_string(), "text/html".to_string());
    base.insert("X-Kept".to_string(), "yes".to_string());
    let mut user = Headers::new();
    user.insert("Content-Type".to_string(), "text/plain".to_string());
    user.insert("Access-Control-Allow-Origin".to_string(), "*".to_string());
    let merged = Handler::add_user_headers(&base, &user);
    assert_eq!(merged.get("Content-Type").unwrap(), "text/plain");
    assert_eq!(merged.get("X-Kept").unwrap(), "yes");
    assert_eq!(merged.get("Access-Control-Allow-Origin").unwrap(), "*");
}

#[test]
fn content_type_guess_by_extension() {
    let headers = Headers::new();
    let typed = Handler::add_content_type_headers(&headers, "notes.txt");
    assert_eq!(typed.get("Content-Type").unwrap(), "text/plain");
    let fallback = Handler::add_content_type_headers(&headers, "blob.unknownext");
    assert_eq!(fallback.get("Content-Type").unwrap(), "application/octet-stream");
}

#[test]
fn filename_from_content_path() {
    assert_eq!(Handler::get_filename("/foo/bar/baz.png"), "baz.png");
    assert_eq!(Handler::get_filename("baz.png"), "baz.png");
    assert_eq!(Handler::get_filename("/foo/bar//"), "bar");
    assert_eq!(Handler::get_filename(""), "");
    assert_eq!(Handler::get_filename("///"), "");
}

#[test]
fn content_disposition_headers() {
    let headers = Headers::new();
    let set = Handler::set_content_disposition_headers(&headers, "a.bin", "attachment");
    assert_eq!(set.get("Content-Disposition").unwrap(), "attachment; filename=a.bin");
    let (name, with) = Handler::add_content_disposition_headers(&headers, "file.txt", "/x/y", true);
    assert_eq!(name, "file.txt");
    assert_eq!(with.get("Content-Disposition").unwrap(), "attachment; filename=file.txt");
    let (name2, with2) =
        Handler::add_content_disposition_headers(&headers, "file.txt", "/x/y", false);
    assert_eq!(name2, "file.txt");
    assert_eq!(with2.get("Content-Disposition").unwrap(), "inline; filename=file.txt");
    let (name3, with3) = Handler::add_content_disposition_headers(&headers, "", "/x/y.dat", false);
    assert_eq!(name3, "y.dat");
    assert!(with3.get("Content-Disposition").is_none());
}

#[test]
fn get_ipfs_html_response() {
    let config = empty_config();
    let client = Client::new();
    let resp = Handler::get_ipfs(&config, &client, "abc", "", params("html", "", "")).unwrap();
    assert_eq!(resp.status_code, 200);
    assert_eq!(resp.body, "<p>abc</p>");
    assert_eq!(resp.headers.get("Content-Type").unwrap(), "text/html");
    assert_eq!(resp.headers.get("X-Ipfs-Path").unwrap(), "/ipfs/abc");
}

#[test]
fn get_ipfs_raw_response() {
    let mut config = empty_config();
    config.headers.insert("Access-Control-Allow-Origin".to_string(), "*".to_string());
    let client = Client::new();
    let resp =
        Handler::get_ipfs(&config, &client, "abc", "/sub", params("raw", "", "")).unwrap();
    assert_eq!(resp.status_code, 200);
    assert_eq!(resp.body, "/ipfs/abc/sub");
    assert_eq!(resp.headers.get("Content-Disposition").unwrap(), "attachment; filename=abc.bin");
    assert_eq!(resp.headers.get("Access-Control-Allow-Origin").unwrap(), "*");
}

#[test]
fn get_ipfs_car_response() {
    let config = empty_config();
    let client = Client::new();
    let resp = Handler::get_ipfs(&config, &client, "abc", "", params("car", "", "")).unwrap();
    assert_eq!(resp.headers.get("Content-Disposition").unwrap(), "attachment; filename=abc.car");
    assert_eq!(
        resp.headers.get("Content-Type").unwrap(),
        "application/vnd.ipld.car; version=1"
    );
}

#[test]
fn get_ipfs_fs_response_guesses_type() {
    let config = empty_config();
    let client = Client::new();
    let resp = Handler::get_ipfs(&config, &client, "abc", "/docs/readme.txt", params("", "", ""))
        .unwrap();
    assert_eq!(resp.status_code, 200);
    assert_eq!(resp.body, "/ipfs/abc/docs/readme.txt");
    assert_eq!(resp.headers.get("Content-Type").unwrap(), "text/plain");
    assert!(resp.headers.get("Content-Disposition").is_none());
}

#[test]
fn get_ipfs_unknown_format_is_an_error() {
    let config = empty_config();
    let client = Client::new();
    let err = Handler::get_ipfs(&config, &client, "abc", "", params("json", "", "")).unwrap_err();
    assert_eq!(err.status_code, 400);
    assert_eq!(err.message, "format not supported");
}

#[test]
fn client_echoes_path() {
    let client = Client::new();
    assert_eq!(client.get_file("/ipfs/abc").unwrap(), "/ipfs/abc");
}

fn captive_map(host: &str) -> RelayMap {
    RelayMap {
        regions: vec![RelayRegion {
            region_id: 1,
            avoid: false,
            nodes: vec![RelayNode {
                name: "n1".to_string(),
                region_id: 1,
                host: host.to_string(),
            }],
        }],
    }
}

#[test]
fn captive_plan_no_eligible_region() {
    // No region qualifies: one is marked avoided, one has no nodes.
    let map = RelayMap {
        regions: vec![
            RelayRegion {
                region_id: 1,
                avoid: true,
                nodes: vec![RelayNode {
                    name: "n1".to_string(),
                    region_id: 1,
                    host: "h1".to_string(),
                }],
            },
            RelayRegion { region_id: 2, avoid: false, nodes: vec![] },
        ],
    };
    match captive_portal_plan(&map, None) {
        CaptiveCheckPlan::Resolved(found) => assert!(!found),
        CaptiveCheckPlan::Request { .. } => panic!("no region should qualify"),
    }
}

#[test]
fn captive_plan_invalid_host_resolves_without_request() {
    let map = captive_map("derp.host.invalid");
    match captive_portal_plan(&map, Some(1)) {
        CaptiveCheckPlan::Resolved(found) => assert!(!found),
        CaptiveCheckPlan::Request { .. } => panic!("an .invalid host must not be contacted"),
    }
}

#[test]
fn captive_plan_request_strings() {
    let map = captive_map("derp1.example.com");
    match captive_portal_plan(&map, Some(1)) {
        CaptiveCheckPlan::Request { host, url, challenge, expected } => {
            assert_eq!(host, "derp1.example.com");
            assert_eq!(url, "http://derp1.example.com/generate_204");
            assert_eq!(challenge, "ts_derp1.example.com");
            assert_eq!(expected, "response ts_derp1.example.com");
        },
        CaptiveCheckPlan::Resolved(_) => panic!("the region qualifies"),
    }
}

#[test]
fn captive_plan_random_pick_uses_eligible_region() {
    let map = captive_map("derp1.example.com");
    // No preferred region: the random pick must still land on the only
    // eligible one.
    match captive_portal_plan(&map, None) {
        CaptiveCheckPlan::Request { host, .. } => assert_eq!(host, "derp1.example.com"),
        CaptiveCheckPlan::Resolved(_) => panic!("one region qualifies"),
    }
}

#[test]
fn captive_response_evaluation() {
    let host = "derp1.example.com";
    assert!(!evaluate_captive_response(204, Some("response ts_derp1.example.com"), host));
    assert!(evaluate_captive_response(200, Some("response ts_derp1.example.com"), host));
    assert!(evaluate_captive_response(204, Some("response ts_other"), host));
    assert!(evaluate_captive_response(204, None, host));
}

#[test]
fn captive_plan_falls_back_when_preferred_is_unusable() {
    // The preferred region exists but has no nodes; the pick falls back to
    // the one eligible region.
    let map = RelayMap {
        regions: vec![
            RelayRegion { region_id: 9, avoid: false, nodes: vec![] },
            RelayRegion {
                region_id: 1,
                avoid: false,
                nodes: vec![RelayNode {
                    name: "n1".to_string(),
                    region_id: 1,
                    host: "derp1.example.com".to_string(),
                }],
            },
        ],
    };
    match captive_portal_plan(&map, Some(9)) {
        CaptiveCheckPlan::Request { host, .. } => assert_eq!(host, "derp1.example.com"),
        CaptiveCheckPlan::Resolved(_) => panic!("an eligible region exists"),
    }
    // A preferred region the map does not know falls back the same way.
    match captive_portal_plan(&map, Some(77)) {
        CaptiveCheckPlan::Request { host, .. } => assert_eq!(host, "derp1.example.com"),
        CaptiveCheckPlan::Resolved(_) => panic!("an eligible region exists"),
    }
}
