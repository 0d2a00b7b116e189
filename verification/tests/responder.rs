use rocket::fs::FileServer;
use rocket::http::Status;
use rocket::local::blocking::Client;
use staticserve::listing::{dir_list_html, FileEntry};
use staticserve::server::StaticFileServer;
use walkdir::WalkDir;

// The static responder is rocket's file server mounted on the configured
// root; dispatching against a local instance exercises the routing contract
// without binding the port.

#[test]
fn responder_serves_file_bytes_and_404s_missing_paths() {
    let server = StaticFileServer::new("tests".to_string());
    let rocket = rocket::build().mount("/", FileServer::from(server.root()));
    let client = Client::untracked(rocket).expect("local instance");

    let ok = client.get("/responder.rs").dispatch();
    assert_eq!(ok.status(), Status::Ok);
    let body = ok.into_string().expect("text body");
    // The fetched bytes are this very file's content, unchanged.
    assert!(body.contains("responder_serves_file_bytes_and_404s_missing_paths"));

    let missing = client.get("/missing.txt").dispatch();
    assert_eq!(missing.status(), Status::NotFound);
}

#[test]
fn responder_rejects_path_traversal() {
    let server = StaticFileServer::new("tests".to_string());
    let rocket = rocket::build().mount("/", FileServer::from(server.root()));
    let client = Client::untracked(rocket).expect("local instance");

    let escape = client.get("/../Cargo.toml").dispatch();
    assert_ne!(escape.status(), Status::Ok);
}

#[test]
fn every_listing_link_round_trips() {
    // Build the listing for a real directory from a real walk, then request
    // each produced href path against the running responder: every link of
    // the listing must resolve to its file.
    let root = "tests";
    let mut entries = Vec::new();
    for entry in WalkDir::new(root).follow_links(false).into_iter().filter_map(|e| e.ok()) {
        let is_file = entry.metadata().map(|m| m.is_file()).unwrap_or(false);
        if let Some(path) = entry.path().to_str() {
            entries.push(FileEntry { path: path.to_string(), is_file });
        }
    }
    let page = dir_list_html(root, &entries);

    let rocket = rocket::build().mount("/", FileServer::from(root));
    let client = Client::untracked(rocket).expect("local instance");

    let mut links = 0;
    for part in page.split("<a href=\"http://127.0.0.1:9234/").skip(1) {
        let rel = &part[..part.find('"').expect("closing quote")];
        assert!(!rel.contains('\\'), "href must use forward slashes: {rel}");
        let resp = client.get(format!("/{rel}")).dispatch();
        assert_eq!(resp.status(), Status::Ok, "link {rel} did not resolve");
        links += 1;
    }
    // This directory holds at least the test files themselves.
    assert!(links >= 3);
}

#[test]
fn root_without_index_has_no_static_answer() {
    // With no index.html under the root and no listing mounted, the root
    // path resolves to nothing.
    let server = StaticFileServer::new("tests".to_string());
    let rocket = rocket::build().mount("/", FileServer::from(server.root()));
    let client = Client::untracked(rocket).expect("local instance");

    let root = client.get("/").dispatch();
    assert_eq!(root.status(), Status::NotFound);
}
