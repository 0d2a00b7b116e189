use staticserve::listing::{dir_list_html, find_index, FileEntry};
use staticserve::server::{Model, StaticFileServer};

fn names(v: &[&str]) -> Vec<String> {
    v.iter().map(|s| s.to_string()).collect()
}

#[test]
fn index_found_at_top_level() {
    assert!(find_index(&names(&["a.txt", "index.html", "b.txt"])));
    assert!(find_index(&names(&["index.html"])));
}

#[test]
fn index_absent() {
    assert!(!find_index(&names(&[])));
    assert!(!find_index(&names(&["a.txt", "sub"])));
    // Case-sensitive, whole-name matches only: no extension-based matching.
    assert!(!find_index(&names(&["Index.html", "index.htm", "xindex.html", "index.html.bak"])));
}

#[test]
fn nested_index_does_not_count() {
    // The decision looks at the immediate entries alone: a directory named
    // `sub` that holds its own index.html shows up here only as `sub`.
    assert!(!find_index(&names(&["a.txt", "sub"])));
}

fn entry(path: &str, is_file: bool) -> FileEntry {
    FileEntry { path: path.to_string(), is_file }
}

#[test]
fn listing_two_files() {
    // The walk of /tmp/site met the root itself, a.txt, the sub directory
    // and sub/b.txt; only the two regular files are listed.
    let entries = vec![
        entry("/tmp/site", false),
        entry("/tmp/site/a.txt", true),
        entry("/tmp/site/sub", false),
        entry("/tmp/site/sub/b.txt", true),
    ];
    let page = dir_list_html("/tmp/site", &entries);
    assert_eq!(
        page,
        "<pre>\n\
         <a href=\"http://127.0.0.1:9234/a.txt\">a.txt</a>\n\
         <a href=\"http://127.0.0.1:9234/sub/b.txt\">sub/b.txt</a>\n\
         </pre>\n"
    );
}

#[test]
fn listing_counts_only_regular_files() {
    // Directories and symbolic links carry is_file == false and are never
    // listed; one hyperlink appears per regular file.
    let entries = vec![
        entry("/srv/d", false),
        entry("/srv/d/link", false),
        entry("/srv/d/one", true),
        entry("/srv/d/sub", false),
        entry("/srv/d/sub/two", true),
        entry("/srv/d/sub/three", true),
    ];
    let page = dir_list_html("/srv/d", &entries);
    assert_eq!(page.matches("<a href=").count(), 3);
}

#[test]
fn listing_empty_walk() {
    let page = dir_list_html("/tmp/empty", &Vec::new());
    assert_eq!(page, "<pre>\n</pre>\n");
}

#[test]
fn listing_skips_entries_outside_root() {
    // A relative path from /tmp/site to an unrelated relative path cannot be
    // computed (absolute against relative), so the entry is skipped.
    let entries = vec![entry("stray.txt", true), entry("/tmp/site/kept.txt", true)];
    let page = dir_list_html("/tmp/site", &entries);
    assert_eq!(page, "<pre>\n<a href=\"http://127.0.0.1:9234/kept.txt\">kept.txt</a>\n</pre>\n");
}

#[test]
fn model_serves_what_it_was_built_with() {
    let m = Model::new("<pre>\n</pre>\n".to_string());
    assert_eq!(m.get(), "<pre>\n</pre>\n");
}

#[test]
fn server_keeps_its_root() {
    let s = StaticFileServer::new("/tmp/site".to_string());
    assert_eq!(s.root(), "/tmp/site");
}
