use vstd::prelude::*;
use vstd::string::StringExecFns;
use vstd::utf8::{decode_utf8, valid_utf8};

use crate::bookinfo::BookInfo;
use crate::content::utf8_to_string;

verus! {

/// The error taxonomy of the reader core.
#[derive(Debug, Clone, Copy, PartialEq, Eq, Structural)]
pub enum EpubError {
    /// The table of contents names a path that no spine entry provides, or
    /// the spine names a resource the container does not hold: the document
    /// cannot be opened.
    MalformedContainer,
    /// A resource's bytes are not valid UTF-8.
    ContentDecodeError,
    /// A page holds no body element.
    MalformedMarkupError,
    /// A navigation target at or beyond the catalog's length.
    ChapterOutOfRange,
    /// A command arrived while no document is open.
    NoOpenDocument,
    /// Advance or retreat at the catalog's boundary.
    NoMorePages,
}

/// One entry of the raw resource table handed over by the container parser:
/// the manifest identifier, the resource's path inside the archive, and its
/// media type.
#[derive(Debug)]
pub struct RawResource {
    pub name: String,
    pub path: String,
    pub mime: String,
}

/// One entry of the flattened table of contents: the path of the resource the
/// entry points into, and its human-facing label, kept verbatim (empty labels
/// included).
#[derive(Debug)]
pub struct TocEntry {
    pub content: String,
    pub label: String,
}

impl Clone for RawResource {
    fn clone(&self) -> (r: Self)
        ensures
            r == *self,
    {
        RawResource { name: self.name.clone(), path: self.path.clone(), mime: self.mime.clone() }
    }
}

impl Clone for TocEntry {
    fn clone(&self) -> (r: Self)
        ensures
            r == *self,
    {
        TocEntry { content: self.content.clone(), label: self.label.clone() }
    }
}

/// Index of the first manifest entry whose identifier equals `id`, or -1 when
/// there is none.
pub open spec fn find_by_name(manifest: Seq<RawResource>, id: Seq<char>) -> int
    decreases manifest.len(),
{
    if manifest.len() == 0 {
        -1
    } else {
        let prefix = find_by_name(manifest.drop_last(), id);
        if prefix >= 0 {
            prefix
        } else if manifest.last().name@ == id {
            manifest.len() - 1
        } else {
            -1
        }
    }
}

/// Index of the last spine entry whose path equals `p`, or -1 when there is
/// none. The last occurrence wins, mirroring how repeated inserts into a
/// path-keyed map leave the latest index in place.
pub open spec fn last_index_of_path(paths: Seq<Seq<char>>, p: Seq<char>) -> int
    decreases paths.len(),
{
    if paths.len() == 0 {
        -1
    } else if paths.last() == p {
        paths.len() - 1
    } else {
        last_index_of_path(paths.drop_last(), p)
    }
}

pub proof fn lemma_last_index_of_path_props(paths: Seq<Seq<char>>, p: Seq<char>)
    ensures
        -1 <= last_index_of_path(paths, p) < paths.len(),
        last_index_of_path(paths, p) >= 0 ==> paths[last_index_of_path(paths, p)] == p,
        last_index_of_path(paths, p) == -1 ==> forall|k: int|
            0 <= k < paths.len() ==> paths[k] != p,
    decreases paths.len(),
{
    if paths.len() > 0 {
        lemma_last_index_of_path_props(paths.drop_last(), p);
        assert(forall|k: int| 0 <= k < paths.len() - 1 ==> paths[k] == paths.drop_last()[k]);
    }
}

/// Every spine identifier names some manifest entry.
pub open spec fn spine_resolvable(spine: Seq<String>, manifest: Seq<RawResource>) -> bool {
    forall|i: int| 0 <= i < spine.len() ==> find_by_name(manifest, spine[i]@) >= 0
}

/// The spine-ordered resource paths: entry i is the path of the manifest
/// entry named by the i-th spine identifier. Meaningful only when the spine
/// is resolvable.
pub open spec fn spec_spine_paths(spine: Seq<String>, manifest: Seq<RawResource>) -> Seq<
    Seq<char>,
> {
    Seq::new(spine.len(), |i: int| manifest[find_by_name(manifest, spine[i]@)].path@)
}

/// Every catalog entry's path occurs among the spine paths.
pub open spec fn catalog_bindable(paths: Seq<Seq<char>>, catalog: Seq<TocEntry>) -> bool {
    forall|i: int| 0 <= i < catalog.len() ==> last_index_of_path(paths, catalog[i].content@) >= 0
}

/// `m` is the resource binding of `catalog` over the spine paths: one
/// resource index per chapter index, each the last spine position carrying
/// the chapter's path.
pub open spec fn binding_ok(paths: Seq<Seq<char>>, catalog: Seq<TocEntry>, m: Seq<usize>) -> bool {
    &&& m.len() == catalog.len()
    &&& forall|i: int| 0 <= i < m.len() ==> m[i] == last_index_of_path(paths, catalog[i].content@)
}

/// A TOC/spine pair from which a document can be opened: the spine resolves
/// against the manifest and every TOC path is bound to a spine position.
pub open spec fn openable(
    spine: Seq<String>,
    manifest: Seq<RawResource>,
    toc: Seq<TocEntry>,
) -> bool {
    &&& spine_resolvable(spine, manifest)
    &&& catalog_bindable(spec_spine_paths(spine, manifest), toc)
}

/// Derives the spine-ordered resource path table from the raw spine and the
/// raw resource table: entry i is the path of the resource the i-th spine
/// identifier names. Fails with `MalformedContainer` exactly when some spine
/// identifier names no resource.
pub fn build_resource_index(spine: &Vec<String>, manifest: &Vec<RawResource>) -> (r: Result<
    Vec<String>,
    EpubError,
>)
    ensures
        (r is Ok) == spine_resolvable(spine@, manifest@),
        r matches Ok(paths) ==> paths.deep_view() == spec_spine_paths(spine@, manifest@),
        r matches Err(e) ==> e == EpubError::MalformedContainer,
{
    let mut paths: Vec<String> = Vec::new();
    let mut i: usize = 0;
    while i < spine.len()
        invariant
            i <= spine@.len(),
            paths@.len() == i,
            forall|k: int| 0 <= k < i ==> find_by_name(manifest@, spine@[k]@) >= 0,
            forall|k: int|
                0 <= k < i ==> paths@[k]@ == manifest@[find_by_name(
                    manifest@,
                    spine@[k]@,
                )].path@,
        decreases spine@.len() - i,
    {
        let mut found: Option<usize> = None;
        let mut j: usize = 0;
        while j < manifest.len()
            invariant
                j <= manifest@.len(),
                i < spine@.len(),
                match found {
                    None => find_by_name(manifest@.take(j as int), spine@[i as int]@) == -1,
                    Some(f) => f < j && find_by_name(manifest@.take(j as int), spine@[i as int]@)
                        == f,
                },
            decreases manifest@.len() - j,
        {
            proof {
                assert(manifest@.take(j + 1).drop_last() =~= manifest@.take(j as int));
                assert(manifest@.take(j + 1).last() == manifest@[j as int]);
            }
            if found.is_none() && manifest[j].name == spine[i] {
                found = Some(j);
            }
            j += 1;
        }
        proof {
            assert(manifest@.take(manifest@.len() as int) =~= manifest@);
        }
        match found {
            None => {
                return Err(EpubError::MalformedContainer);
            },
            Some(f) => {
                paths.push(manifest[f].path.clone());
            },
        }
        i += 1;
    }
    proof {
        assert(paths.deep_view() =~= spec_spine_paths(spine@, manifest@));
    }
    Ok(paths)
}

/// Builds the resource binding: for each catalog entry, the last spine
/// position whose path equals the entry's content path. Fails with
/// `MalformedContainer` exactly when some catalog path occurs in no spine
/// entry.
pub fn init_resources_mapping(spine_paths: &Vec<String>, catalog: &Vec<TocEntry>) -> (r: Result<
    Vec<usize>,
    EpubError,
>)
    ensures
        (r is Ok) == catalog_bindable(spine_paths.deep_view(), catalog@),
        r matches Ok(m) ==> binding_ok(spine_paths.deep_view(), catalog@, m@),
        r matches Err(e) ==> e == EpubError::MalformedContainer,
{
    let ghost paths: Seq<Seq<char>> = spine_paths.deep_view();
    let mut mapping: Vec<usize> = Vec::new();
    let mut i: usize = 0;
    while i < catalog.len()
        invariant
            i <= catalog@.len(),
            mapping@.len() == i,
            paths == spine_paths.deep_view(),
            forall|k: int| 0 <= k < i ==> last_index_of_path(paths, catalog@[k].content@) >= 0,
            forall|k: int|
                0 <= k < i ==> mapping@[k] == last_index_of_path(paths, catalog@[k].content@),
        decreases catalog@.len() - i,
    {
        let mut found: Option<usize> = None;
        let mut j: usize = 0;
        while j < spine_paths.len()
            invariant
                j <= spine_paths@.len(),
                paths == spine_paths.deep_view(),
                i < catalog@.len(),
                match found {
                    None => last_index_of_path(paths.take(j as int), catalog@[i as int].content@)
                        == -1,
                    Some(f) => f < j && last_index_of_path(
                        paths.take(j as int),
                        catalog@[i as int].content@,
                    ) == f,
                },
            decreases spine_paths@.len() - j,
        {
            proof {
                assert(paths.take(j + 1).drop_last() =~= paths.take(j as int));
                assert(paths.take(j + 1).last() == paths[j as int]);
            }
            if spine_paths[j] == catalog[i].content {
                found = Some(j);
            }
            j += 1;
        }
        proof {
            assert(paths.take(paths.len() as int) =~= paths);
        }
        match found {
            None => {
                return Err(EpubError::MalformedContainer);
            },
            Some(f) => {
                mapping.push(f);
            },
        }
        i += 1;
    }
    Ok(mapping)
}

/// An open document: the book's record, the chapter catalog in TOC order, the
/// spine-ordered resource paths, the chapter-to-spine binding, the full raw
/// resource table, and the navigation cursor.
#[derive(Debug)]
pub struct Epub {
    pub info: BookInfo,
    pub catalog: Vec<TocEntry>,
    pub spine_paths: Vec<String>,
    pub resources_mapping: Vec<usize>,
    pub resources: Vec<RawResource>,
    pub current_page: usize,
}

/// Whether a next chapter exists for the cursor to advance to.
pub open spec fn can_advance(e: Epub) -> bool {
    e.current_page + 1 < e.catalog@.len()
}

/// The spine index of the resource bound to the current chapter.
pub open spec fn chapter_resource(e: Epub) -> usize {
    e.resources_mapping@[e.current_page as int]
}

/// The two documents agree on everything but the cursor.
pub open spec fn same_doc(pre: Epub, post: Epub) -> bool {
    &&& post.info == pre.info
    &&& post.catalog == pre.catalog
    &&& post.spine_paths == pre.spine_paths
    &&& post.resources_mapping == pre.resources_mapping
    &&& post.resources == pre.resources
}

/// Jumping to chapter `num`: the move happens exactly when `num` is below the
/// catalog's length; otherwise the document is untouched.
pub open spec fn jump_rel(pre: Epub, num: usize, post: Epub, moved: bool) -> bool {
    &&& moved == (num < pre.catalog@.len())
    &&& if moved {
        same_doc(pre, post) && post.current_page == num
    } else {
        post == pre
    }
}

/// Advancing one chapter: the move happens exactly when a next chapter
/// exists; otherwise the document is untouched.
pub open spec fn next_rel(pre: Epub, post: Epub, moved: bool) -> bool {
    &&& moved == (pre.current_page + 1 < pre.catalog@.len())
    &&& if moved {
        same_doc(pre, post) && post.current_page == pre.current_page + 1
    } else {
        post == pre
    }
}

/// Retreating one chapter: the move happens exactly when the cursor is not at
/// chapter 0; otherwise the document is untouched. The guard makes an
/// underflowing decrement impossible.
pub open spec fn prev_rel(pre: Epub, post: Epub, moved: bool) -> bool {
    &&& moved == (pre.current_page > 0)
    &&& if moved {
        same_doc(pre, post) && post.current_page == pre.current_page - 1
    } else {
        post == pre
    }
}

impl Epub {
    /// Structural soundness of an open document: the binding is total over
    /// the catalog, every bound index points into the spine, and the cursor
    /// is in bounds (pinned to 0 when the catalog is empty).
    pub open spec fn wf(self) -> bool {
        &&& self.resources_mapping@.len() == self.catalog@.len()
        &&& forall|i: int|
            0 <= i < self.resources_mapping@.len() ==> self.resources_mapping@[i]
                < self.spine_paths@.len()
        &&& if self.catalog@.len() == 0 {
            self.current_page == 0
        } else {
            self.current_page < self.catalog@.len()
        }
    }

    /// The document `Epub::new` builds from the given raw parts: cursor at
    /// chapter 0, catalog in TOC order, and the binding over the spine paths.
    pub open spec fn built_from(
        self,
        info: BookInfo,
        spine: Seq<String>,
        manifest: Seq<RawResource>,
        toc: Seq<TocEntry>,
    ) -> bool {
        &&& self.info == info
        &&& self.catalog@ == toc
        &&& self.resources@ == manifest
        &&& self.spine_paths.deep_view() == spec_spine_paths(spine, manifest)
        &&& binding_ok(spec_spine_paths(spine, manifest), toc, self.resources_mapping@)
        &&& self.current_page == 0
    }

    /// Opens a document from the raw parts the container parser hands over.
    /// Succeeds exactly on openable TOC/spine pairs; a spine identifier or a
    /// TOC path that resolves nowhere is a fatal `MalformedContainer`.
    pub fn new(
        info: BookInfo,
        spine: Vec<String>,
        manifest: Vec<RawResource>,
        toc: Vec<TocEntry>,
    ) -> (r: Result<Epub, EpubError>)
        ensures
            (r is Ok) == openable(spine@, manifest@, toc@),
            r matches Ok(e) ==> e.wf() && e.built_from(info, spine@, manifest@, toc@),
            r matches Err(e) ==> e == EpubError::MalformedContainer,
    {
        let spine_paths = match build_resource_index(&spine, &manifest) {
            Ok(paths) => paths,
            Err(e) => {
                return Err(e);
            },
        };
        let mapping = match init_resources_mapping(&spine_paths, &toc) {
            Ok(m) => m,
            Err(e) => {
                return Err(e);
            },
        };
        proof {
            assert forall|i: int| 0 <= i < mapping@.len() implies mapping@[i]
                < spine_paths@.len() by {
                lemma_last_index_of_path_props(spine_paths.deep_view(), toc@[i].content@);
            }
        }
        Ok(
            Epub {
                info,
                catalog: toc,
                spine_paths,
                resources_mapping: mapping,
                resources: manifest,
                current_page: 0,
            },
        )
    }

    /// The chapter labels, in catalog order.
    pub fn get_catalog(&self) -> (labels: Vec<String>)
        ensures
            labels@.len() == self.catalog@.len(),
            forall|i: int| 0 <= i < labels@.len() ==> labels@[i]@ == self.catalog@[i].label@,
    {
        let mut labels: Vec<String> = Vec::new();
        let mut i: usize = 0;
        while i < self.catalog.len()
            invariant
                i <= self.catalog@.len(),
                labels@.len() == i,
                forall|k: int| 0 <= k < i ==> labels@[k]@ == self.catalog@[k].label@,
            decreases self.catalog@.len() - i,
        {
            labels.push(self.catalog[i].label.clone());
            i += 1;
        }
        labels
    }

    /// Moves to the next chapter; at the last chapter (or with an empty
    /// catalog) reports failure and stays put.
    pub fn go_next(&mut self) -> (moved: bool)
        requires
            old(self).wf(),
        ensures
            final(self).wf(),
            next_rel(*old(self), *final(self), moved),
    {
        // Binding the length brings the cursor's usize bound into scope for
        // the increment's overflow check.
        let len = self.catalog.len();
        proof {
            assert(self.current_page == 0 || self.current_page < len);
        }
        self.set_current_page(self.current_page + 1)
    }

    /// Moves to the previous chapter; at chapter 0 reports failure and stays
    /// put, never attempting the underflowing decrement.
    pub fn go_prev(&mut self) -> (moved: bool)
        requires
            old(self).wf(),
        ensures
            final(self).wf(),
            prev_rel(*old(self), *final(self), moved),
    {
        if self.current_page == 0 {
            return false;
        }
        self.set_current_page(self.current_page - 1)
    }

    /// Jumps to the given chapter if it lies inside the catalog; otherwise
    /// reports failure and stays put.
    pub fn set_current_page(&mut self, num: usize) -> (moved: bool)
        requires
            old(self).wf(),
        ensures
            final(self).wf(),
            jump_rel(*old(self), num, *final(self), moved),
    {
        if num < self.catalog.len() {
            self.current_page = num;
            true
        } else {
            false
        }
    }

    /// The spine index of the resource bound to the current chapter, or None
    /// when the catalog is empty and no chapter exists.
    pub fn current_resource_index(&self) -> (r: Option<usize>)
        requires
            self.wf(),
        ensures
            (r is Some) == (self.catalog@.len() > 0),
            r matches Some(k) ==> k == self.resources_mapping@[self.current_page as int],
    {
        if self.catalog.len() == 0 {
            None
        } else {
            Some(self.resources_mapping[self.current_page])
        }
    }
}

/// The resource binding is a total, deterministic function of its inputs:
/// it holds exactly one resource index for every chapter index, every bound
/// index points into the spine, and any two bindings of the same spine paths
/// and catalog agree. The catalog's length constrains only the binding's
/// length, never the spine's, so the two tables may differ in size freely.
pub proof fn lemma_binding_total_deterministic(
    paths: Seq<Seq<char>>,
    catalog: Seq<TocEntry>,
    m1: Seq<usize>,
    m2: Seq<usize>,
)
    requires
        binding_ok(paths, catalog, m1),
        binding_ok(paths, catalog, m2),
    ensures
        m1.len() == catalog.len(),
        forall|i: int| 0 <= i < m1.len() ==> m1[i] < paths.len(),
        m1 =~= m2,
{
    assert forall|i: int| 0 <= i < m1.len() implies m1[i] < paths.len() by {
        lemma_last_index_of_path_props(paths, catalog[i].content@);
    }
}

/// Jumping to a chapter inside the catalog moves the cursor there, and a
/// second jump to the cursor's own value is idempotent: the cursor still
/// ends at `k` and the document is unchanged by the second jump.
pub proof fn lemma_jump_idempotent(
    e0: Epub,
    e1: Epub,
    e2: Epub,
    k: usize,
    moved1: bool,
    moved2: bool,
)
    requires
        k < e0.catalog@.len(),
        jump_rel(e0, k, e1, moved1),
        jump_rel(e1, e1.current_page, e2, moved2),
    ensures
        moved1,
        moved2,
        e1.current_page == k,
        e2.current_page == k,
        e2 == e1,
{
}

/// A jump at or beyond the catalog's length reports failure and leaves the
/// document exactly as it was.
pub proof fn lemma_jump_out_of_range(e0: Epub, e1: Epub, k: usize, moved: bool)
    requires
        k >= e0.catalog@.len(),
        jump_rel(e0, k, e1, moved),
    ensures
        !moved,
        e1 == e0,
{
}

/// Retreating with the cursor at chapter 0 reports failure and leaves the
/// document exactly as it was: the underflowing decrement is never taken.
pub proof fn lemma_retreat_at_zero(e0: Epub, e1: Epub, moved: bool)
    requires
        e0.current_page == 0,
        prev_rel(e0, e1, moved),
    ensures
        !moved,
        e1 == e0,
{
}

/// No navigation step leaves the document ill-formed: each of the three
/// transition relations keeps the cursor inside the catalog (or at 0 over an
/// empty catalog), so no operation ever yields a negative or wrapped-around
/// chapter index.
pub proof fn lemma_nav_preserves_wf(pre: Epub, post: Epub, num: usize, moved: bool)
    requires
        pre.wf(),
        jump_rel(pre, num, post, moved) || next_rel(pre, post, moved) || prev_rel(
            pre,
            post,
            moved,
        ),
    ensures
        post.wf(),
{
}

/// Walking the whole catalog: advancing once per chapter from chapter 0
/// succeeds at every step and visits chapter i at step i, ending at the last
/// chapter; one further advance reports failure and leaves the document
/// exactly at the last chapter.
pub proof fn lemma_advance_reaches_end(
    states: Seq<Epub>,
    moves: Seq<bool>,
    extra: Epub,
    extra_moved: bool,
)
    requires
        states.len() >= 1,
        states.len() == states[0].catalog@.len(),
        states[0].current_page == 0,
        moves.len() == states.len() - 1,
        forall|i: int| 0 <= i < moves.len() ==> next_rel(states[i], states[i + 1], moves[i]),
        next_rel(states.last(), extra, extra_moved),
    ensures
        forall|i: int| 0 <= i < states.len() ==> #[trigger] states[i].current_page == i,
        states.last().current_page == states[0].catalog@.len() - 1,
        forall|i: int| 0 <= i < moves.len() ==> #[trigger] moves[i],
        !extra_moved,
        extra == states.last(),
{
    assert forall|i: int| 0 <= i < states.len() implies #[trigger] states[i].current_page
        == i by {
        lemma_advance_prefix(states, moves, i);
    }
    assert forall|i: int| 0 <= i < moves.len() implies #[trigger] moves[i] by {
        lemma_advance_prefix(states, moves, i);
        assert(next_rel(states[i], states[i + 1], moves[i]));
    }
    lemma_advance_prefix(states, moves, states.len() - 1);
}

/// Advancing step by step from chapter 0 visits chapter `i` at step `i` and
/// never changes the catalog.
proof fn lemma_advance_prefix(states: Seq<Epub>, moves: Seq<bool>, i: int)
    requires
        states.len() >= 1,
        states.len() == states[0].catalog@.len(),
        states[0].current_page == 0,
        moves.len() == states.len() - 1,
        forall|k: int| 0 <= k < moves.len() ==> next_rel(states[k], states[k + 1], moves[k]),
        0 <= i < states.len(),
    ensures
        states[i].current_page == i,
        states[i].catalog@ == states[0].catalog@,
    decreases i,
{
    if i > 0 {
        lemma_advance_prefix(states, moves, i - 1);
        assert(next_rel(states[i - 1], states[i], moves[i - 1]));
    }
}

/// The synthesized stylesheet key: the resource's manifest name with a .css
/// suffix.
pub open spec fn css_name(name: Seq<char>) -> Seq<char> {
    name + ".css"@
}

/// What extracting every stylesheet yields, resource by resource in table
/// order: for each entry with media type text/css, its synthesized name and
/// either its decoded text or the per-resource decode failure. Other entries
/// contribute nothing.
pub open spec fn stylesheet_list(resources: Seq<RawResource>, contents: Seq<Seq<u8>>) -> Seq<
    (Seq<char>, Result<Seq<char>, EpubError>),
>
    decreases resources.len(),
{
    if resources.len() == 0 {
        Seq::empty()
    } else {
        let prefix = stylesheet_list(resources.drop_last(), contents.drop_last());
        if resources.last().mime@ == "text/css"@ {
            prefix.push(
                (
                    css_name(resources.last().name@),
                    if valid_utf8(contents.last()) {
                        Ok(decode_utf8(contents.last()))
                    } else {
                        Err(EpubError::ContentDecodeError)
                    },
                ),
            )
        } else {
            prefix
        }
    }
}

/// The exec entry agrees with the spec entry: same key, and the same decoded
/// text or the same per-resource failure.
pub open spec fn stylesheet_entry_matches(
    e: (String, Result<String, EpubError>),
    s: (Seq<char>, Result<Seq<char>, EpubError>),
) -> bool {
    &&& e.0@ == s.0
    &&& match (e.1, s.1) {
        (Ok(a), Ok(b)) => a@ == b,
        (Err(a), Err(b)) => a == b,
        _ => false,
    }
}

impl Epub {
    /// Extracts every stylesheet of the full resource table (not only
    /// catalog-bound resources): entries with media type text/css, keyed by
    /// resource name + ".css", each decoded on its own so that one malformed
    /// stylesheet fails alone. `contents` holds the raw bytes of each
    /// resource, aligned with the table.
    pub fn get_css(&self, contents: &Vec<Vec<u8>>) -> (r: Vec<(String, Result<String, EpubError>)>)
        requires
            contents@.len() == self.resources@.len(),
        ensures
            r@.len() == stylesheet_list(self.resources@, contents.deep_view()).len(),
            forall|k: int|
                0 <= k < r@.len() ==> stylesheet_entry_matches(
                    #[trigger] r@[k],
                    stylesheet_list(self.resources@, contents.deep_view())[k],
                ),
    {
        let ghost cd: Seq<Seq<u8>> = contents.deep_view();
        let css_key: String = String::from_str("text/css");
        let mut out: Vec<(String, Result<String, EpubError>)> = Vec::new();
        let mut i: usize = 0;
        while i < self.resources.len()
            invariant
                i <= self.resources@.len(),
                contents@.len() == self.resources@.len(),
                cd == contents.deep_view(),
                css_key@ == "text/css"@,
                out@.len() == stylesheet_list(
                    self.resources@.take(i as int),
                    cd.take(i as int),
                ).len(),
                forall|k: int|
                    0 <= k < out@.len() ==> stylesheet_entry_matches(
                        #[trigger] out@[k],
                        stylesheet_list(self.resources@.take(i as int), cd.take(i as int))[k],
                    ),
            decreases self.resources@.len() - i,
        {
            proof {
                assert(self.resources@.take(i + 1).drop_last() =~= self.resources@.take(i as int));
                assert(cd.take(i + 1).drop_last() =~= cd.take(i as int));
                assert(self.resources@.take(i + 1).last() == self.resources@[i as int]);
                assert(cd.take(i + 1).last() == cd[i as int]);
                assert(cd[i as int] == contents@[i as int]@);
            }
            if self.resources[i].mime == css_key {
                let key = self.resources[i].name.clone().concat(".css");
                let content = match utf8_to_string(&contents[i]) {
                    Some(text) => Ok(text),
                    None => Err(EpubError::ContentDecodeError),
                };
                out.push((key, content));
            }
            i += 1;
        }
        proof {
            assert(self.resources@.take(self.resources@.len() as int) =~= self.resources@);
            assert(cd.take(cd.len() as int) =~= cd);
        }
        out
    }
}

} // verus!

