//! Deciding whether a directory has a natural index page, and building the
//! synthetic listing page when it has none.

use vstd::prelude::*;
use vstd::string::StringExecFns;

verus! {

/// Whether some entry name is literally `index.html`. Case-sensitive, whole
/// name only; the names are a directory's immediate entries, so an
/// `index.html` deeper in the tree never counts.
pub open spec fn contains_index(names: Seq<String>) -> bool {
    exists|i: int| 0 <= i < names.len() && names[i]@ == "index.html"@
}

/// Does the directory whose immediate entry names are `names` carry a
/// natural index page? True iff some entry is named exactly `index.html`.
pub fn find_index(names: &Vec<String>) -> (r: bool)
    ensures
        r == contains_index(names@),
{
    let needle: String = "index.html".to_owned();
    let mut j: usize = 0;
    while j < names.len()
        invariant
            0 <= j <= names.len(),
            needle@ == "index.html"@,
            forall|i: int| 0 <= i < j ==> names[i]@ != "index.html"@,
        decreases names.len() - j,
    {
        if names[j] == needle {
            return true;
        }
        j += 1;
    }
    false
}

/// One entry met by the recursive, symlink-non-following walk of the served
/// root: its full path and whether its own metadata (not a followed link's)
/// marks it as a regular file. Directories and symbolic links carry `false`.
pub struct FileEntry {
    pub path: String,
    pub is_file: bool,
}

/// The relative path from the directory `base` to `path`, as
/// `pathdiff::diff_paths` computes it from the two paths' components alone,
/// rendered as a string; `None` when no relative path exists or the rendering
/// is not valid text.
pub uninterp spec fn rel_path_of(path: Seq<char>, base: Seq<char>) -> Option<Seq<char>>;

/// Relies on `pathdiff::diff_paths`: the relative path from `base` to `path`,
/// a pure function of the two paths' components (it never touches the
/// filesystem).
#[verifier::external_body]
fn diff_paths(path: &str, base: &str) -> (r: Option<String>)
    ensures
        r is Some <==> rel_path_of(path@, base@) is Some,
        r is Some ==> r.unwrap()@ == rel_path_of(path@, base@).unwrap(),
{
    pathdiff::diff_paths(path, base).and_then(|p| p.into_os_string().into_string().ok())
}

/// One line of the listing page: a hyperlink to the file at the relative
/// path `rel` under the server's base URL, labelled with that same path.
pub open spec fn link_line(rel: Seq<char>) -> Seq<char> {
    "<a href=\"http://127.0.0.1:9234/"@ + rel + "\">"@ + rel + "</a>\n"@
}

/// The listing's body: one `link_line` per relative path, in walk order.
pub open spec fn listing_lines(rels: Seq<Seq<char>>) -> Seq<char>
    decreases rels.len(),
{
    if rels.len() == 0 {
        Seq::empty()
    } else {
        link_line(rels.first()) + listing_lines(rels.drop_first())
    }
}

/// The whole listing page: the body wrapped in a `<pre>` block.
pub open spec fn listing_page(rels: Seq<Seq<char>>) -> Seq<char> {
    "<pre>\n"@ + listing_lines(rels) + "</pre>\n"@
}

/// The relative paths the listing shows for the walk `entries` under `root`:
/// regular files only, in walk order; an entry whose relative path cannot be
/// computed is skipped rather than failing the whole listing.
pub open spec fn listed_rels(entries: Seq<FileEntry>, root: Seq<char>) -> Seq<Seq<char>>
    decreases entries.len(),
{
    if entries.len() == 0 {
        Seq::empty()
    } else {
        let head =
            if entries.first().is_file && rel_path_of(entries.first().path@, root) is Some {
            seq![rel_path_of(entries.first().path@, root).unwrap()]
        } else {
            Seq::empty()
        };
        head + listed_rels(entries.drop_first(), root)
    }
}

proof fn lemma_listing_lines_snoc(rels: Seq<Seq<char>>, rel: Seq<char>)
    ensures
        listing_lines(rels.push(rel)) == listing_lines(rels) + link_line(rel),
    decreases rels.len(),
{
    if rels.len() == 0 {
        assert(rels.push(rel).drop_first() =~= rels);
        assert(rels.push(rel).first() == rel);
        assert(listing_lines(rels.push(rel)) =~= listing_lines(rels) + link_line(rel));
    } else {
        let p = rels.push(rel);
        assert(p.len() == rels.len() + 1);
        assert(p.first() == rels.first());
        assert(p.drop_first() =~= rels.drop_first().push(rel));
        lemma_listing_lines_snoc(rels.drop_first(), rel);
        assert(listing_lines(p) == link_line(rels.first()) + (listing_lines(rels.drop_first())
            + link_line(rel)));
        assert(listing_lines(p) =~= listing_lines(rels) + link_line(rel));
    }
}

proof fn lemma_listed_rels_snoc(entries: Seq<FileEntry>, e: FileEntry, root: Seq<char>)
    ensures
        listed_rels(entries.push(e), root) == listed_rels(entries, root) + (
        if e.is_file && rel_path_of(e.path@, root) is Some {
            seq![rel_path_of(e.path@, root).unwrap()]
        } else {
            Seq::<Seq<char>>::empty()
        }),
    decreases entries.len(),
{
    if entries.len() == 0 {
        assert(entries.push(e).drop_first() =~= entries);
        assert(entries.push(e).first() == e);
        assert(listed_rels(entries.push(e), root) =~= listed_rels(entries, root) + (
        if e.is_file && rel_path_of(e.path@, root) is Some {
            seq![rel_path_of(e.path@, root).unwrap()]
        } else {
            Seq::<Seq<char>>::empty()
        }));
    } else {
        let p = entries.push(e);
        let tail = (if e.is_file && rel_path_of(e.path@, root) is Some {
            seq![rel_path_of(e.path@, root).unwrap()]
        } else {
            Seq::<Seq<char>>::empty()
        });
        let head = (if entries.first().is_file && rel_path_of(entries.first().path@, root) is Some {
            seq![rel_path_of(entries.first().path@, root).unwrap()]
        } else {
            Seq::<Seq<char>>::empty()
        });
        assert(p.len() == entries.len() + 1);
        assert(p.first() == entries.first());
        assert(p.drop_first() =~= entries.drop_first().push(e));
        lemma_listed_rels_snoc(entries.drop_first(), e, root);
        assert(listed_rels(p, root) == head + (listed_rels(entries.drop_first(), root) + tail));
        assert(listed_rels(p, root) =~= listed_rels(entries, root) + tail);
    }
}

/// How many of the walk's entries are regular files.
pub open spec fn file_count(entries: Seq<FileEntry>) -> nat
    decreases entries.len(),
{
    if entries.len() == 0 {
        0
    } else {
        (if entries.first().is_file {
            1nat
        } else {
            0nat
        }) + file_count(entries.drop_first())
    }
}

/// For a walk that met N regular files — at any depth, links not followed —
/// whose relative paths all resolve, the listing shows exactly N hyperlinks,
/// one per regular file; directories and symbolic links contribute none.
pub proof fn lemma_listing_counts_files(entries: Seq<FileEntry>, root: Seq<char>)
    requires
        forall|i: int|
            0 <= i < entries.len() && (#[trigger] entries[i]).is_file ==> rel_path_of(
                entries[i].path@,
                root,
            ) is Some,
    ensures
        listed_rels(entries, root).len() == file_count(entries),
    decreases entries.len(),
{
    if entries.len() > 0 {
        assert(entries[0] == entries.first());
        assert(forall|i: int|
            0 <= i < entries.drop_first().len() && (#[trigger] entries.drop_first()[i]).is_file
                ==> rel_path_of(entries.drop_first()[i].path@, root) is Some) by {
            assert(forall|i: int|
                0 <= i < entries.drop_first().len() ==> #[trigger] entries.drop_first()[i]
                    == entries[i + 1]);
        }
        lemma_listing_counts_files(entries.drop_first(), root);
    }
}

/// A walk that met no regular file yields an empty listing: symbolic links
/// and directories are never listed as entries.
pub proof fn lemma_listing_skips_non_files(entries: Seq<FileEntry>, root: Seq<char>)
    requires
        forall|i: int| 0 <= i < entries.len() ==> !(#[trigger] entries[i]).is_file,
    ensures
        listed_rels(entries, root) == Seq::<Seq<char>>::empty(),
    decreases entries.len(),
{
    if entries.len() > 0 {
        assert(entries[0] == entries.first());
        assert(forall|i: int|
            0 <= i < entries.drop_first().len() ==> #[trigger] entries.drop_first()[i] == entries[i
                + 1]);
        lemma_listing_skips_non_files(entries.drop_first(), root);
        assert(listed_rels(entries, root) =~= Seq::<Seq<char>>::empty());
    }
}

/// Every hyperlink of the listing names its target through the loopback base
/// URL: the line for the relative path `rel` opens with
/// `<a href="http://127.0.0.1:9234/` and the href carries `rel` verbatim —
/// the forward-slash relative path is the URL's path, unchanged.
pub proof fn lemma_link_href(rel: Seq<char>)
    ensures
        link_line(rel).subrange(0, 31) == "<a href=\"http://127.0.0.1:9234/"@,
        link_line(rel).subrange(31, 31 + rel.len() as int) == rel,
{
    reveal_strlit("<a href=\"http://127.0.0.1:9234/");
    assert(link_line(rel).subrange(0, 31) =~= "<a href=\"http://127.0.0.1:9234/"@);
    assert(link_line(rel).subrange(31, 31 + rel.len() as int) =~= rel);
}

/// Build the synthetic listing page for the directory `root`, whose walk
/// produced `entries`: a `<pre>` block with one absolute-URL hyperlink per
/// regular file, the href being the file's path relative to `root`. Entries
/// that are not regular files, and files whose relative path cannot be
/// computed, are skipped silently.
pub fn dir_list_html(root: &str, entries: &Vec<FileEntry>) -> (r: String)
    ensures
        r@ == listing_page(listed_rels(entries@, root@)),
{
    let mut body: String = "<pre>\n".to_owned();
    let mut j: usize = 0;
    while j < entries.len()
        invariant
            0 <= j <= entries.len(),
            body@ == "<pre>\n"@ + listing_lines(listed_rels(entries@.take(j as int), root@)),
        decreases entries.len() - j,
    {
        let e = &entries[j];
        if e.is_file {
            if let Some(rel) = diff_paths(e.path.as_str(), root) {
                body.append("<a href=\"http://127.0.0.1:9234/");
                body.append(rel.as_str());
                body.append("\">");
                body.append(rel.as_str());
                body.append("</a>\n");
                proof {
                    assert(body@ =~= "<pre>\n"@ + listing_lines(
                        listed_rels(entries@.take(j as int), root@),
                    ) + link_line(rel@));
                }
            }
        }
        proof {
            let taken = entries@.take(j as int);
            assert(entries@.take(j + 1) =~= taken.push(entries@[j as int]));
            lemma_listed_rels_snoc(taken, entries@[j as int], root@);
            if entries@[j as int].is_file && rel_path_of(entries@[j as int].path@, root@) is Some {
                lemma_listing_lines_snoc(
                    listed_rels(taken, root@),
                    rel_path_of(entries@[j as int].path@, root@).unwrap(),
                );
                assert(listed_rels(entries@.take(j + 1), root@) =~= listed_rels(
                    taken,
                    root@,
                ).push(rel_path_of(entries@[j as int].path@, root@).unwrap()));
            } else {
                assert(listed_rels(entries@.take(j + 1), root@) =~= listed_rels(taken, root@));
            }
            assert(body@ =~= "<pre>\n"@ + listing_lines(
                listed_rels(entries@.take(j + 1), root@),
            ));
        }
        j += 1;
    }
    proof {
        assert(entries@.take(entries@.len() as int) =~= entries@);
    }
    body.append("</pre>\n");
    proof {
        assert(body@ =~= listing_page(listed_rels(entries@, root@)));
    }
    body
}

} // verus!

