//! The served directory and the precomputed listing page.

use vstd::prelude::*;

verus! {

/// Holds the listing page once it has been built. The page is immutable for
/// the lifetime of one server run, so request handlers may read it freely.
pub struct Model {
    dir_list_html: String,
}

impl Model {
    /// The page this model serves at the root path.
    pub closed spec fn page(&self) -> Seq<char> {
        self.dir_list_html@
    }

    pub fn new(html: String) -> (m: Model)
        ensures
            m.page() == html@,
    {
        Model { dir_list_html: html }
    }

    /// A copy of the page, handed to a request handler.
    pub fn get(&self) -> (r: String)
        ensures
            r@ == self.page(),
    {
        self.dir_list_html.clone()
    }
}

/// One server configuration: the directory to publish.
pub struct StaticFileServer {
    root: String,
}

impl StaticFileServer {
    /// The directory this server publishes.
    pub closed spec fn root_path(&self) -> Seq<char> {
        self.root@
    }

    pub fn new(path: String) -> (s: Self)
        ensures
            s.root_path() == path@,
    {
        StaticFileServer { root: path }
    }

    /// The root path, for the shell that mounts the file responder on it.
    pub fn root(&self) -> (r: &str)
        ensures
            r@ == self.root_path(),
    {
        self.root.as_str()
    }
}

} // verus!
