use vstd::prelude::*;
use crate::error::BundleError;
use vstd::string::StrSliceExecFns;
use vstd::string::StringExecFns;

verus! {

/// A path component with every backslash turned into a forward slash.
pub open spec fn slashed(c: Seq<char>) -> Seq<char> {
    c.map_values(|ch: char| if ch == '\\' { '/' } else { ch })
}

/// The name of an archive entry: the components joined by `/`.
pub open spec fn joined(cs: Seq<Seq<char>>) -> Seq<char>
    decreases cs.len(),
{
    if cs.len() == 0 {
        Seq::empty()
    } else if cs.len() == 1 {
        slashed(cs[0])
    } else {
        joined(cs.drop_last()) + seq!['/'] + slashed(cs.last())
    }
}

/// The components of a relative path, as text.
pub open spec fn components(v: Seq<String>) -> Seq<Seq<char>> {
    v.map_values(|s: String| s@)
}

/// Appends `c` to `out`, with backslashes turned into forward slashes.
fn push_slashed(out: &mut String, c: &str)
    ensures
        final(out)@ == old(out)@ + slashed(c@),
{
    let n = c.unicode_len();
    let mut i: usize = 0;
    while i < n
        invariant
            n == c@.len(),
            i <= n,
            out@ == old(out)@ + slashed(c@.take(i as int)),
        decreases n - i,
    {
        let ch = c.get_char(i);
        if ch == '\\' {
            proof {
                reveal_strlit("/");
            }
            out.append("/");
        } else {
            let one = c.substring_char(i, i + 1);
            assert(one@ =~= seq![ch]);
            out.append(one);
        }
        assert(slashed(c@.take(i + 1)) =~= slashed(c@.take(i as int)) + seq![
            if ch == '\\' { '/' } else { ch },
        ]);
        i = i + 1;
    }
    assert(c@.take(n as int) =~= c@);
}

/// The archive name of a relative path: forward slashes whatever the host writes.
pub fn entry_name(path: &Vec<String>) -> (r: String)
    ensures
        r@ == joined(components(path@)),
{
    let mut out = String::new();
    let mut i: usize = 0;
    while i < path.len()
        invariant
            i <= path@.len(),
            out@ == joined(components(path@.take(i as int))),
        decreases path@.len() - i,
    {
        proof {
            reveal_strlit("/");
        }
        if i > 0 {
            out.append("/");
        }
        push_slashed(&mut out, path[i].as_str());
        let ghost cs = components(path@.take(i + 1));
        assert(cs.drop_last() =~= components(path@.take(i as int)));
        assert(cs.len() == i + 1 && cs.last() == path@[i as int]@);
        if i == 0 {
            assert(components(path@.take(0)) =~= Seq::<Seq<char>>::empty());
        }
        i = i + 1;
    }
    assert(path@.take(path@.len() as int) =~= path@);
    out
}

/// The components of an archive entry name, split at `/`; the empty name has none.
pub open spec fn split_name(s: Seq<char>) -> Seq<Seq<char>> {
    if s.len() == 0 {
        Seq::empty()
    } else {
        split_pieces(s)
    }
}

/// The pieces of `s` between separators, the empty ones included.
pub open spec fn split_pieces(s: Seq<char>) -> Seq<Seq<char>>
    decreases s.len(),
{
    if s.len() == 0 {
        seq![Seq::empty()]
    } else if s.last() == '/' {
        split_pieces(s.drop_last()).push(Seq::empty())
    } else {
        let r = split_pieces(s.drop_last());
        r.update(r.len() - 1, r.last().push(s.last()))
    }
}

/// A path component that survives naming unchanged: not empty, no separator
/// of either kind.
pub open spec fn clean_component(c: Seq<char>) -> bool {
    c.len() > 0 && forall|i: int| 0 <= i < c.len() ==> c[i] != '/' && c[i] != '\\'
}

proof fn lemma_split_pieces_len(s: Seq<char>)
    ensures
        split_pieces(s).len() >= 1,
    decreases s.len(),
{
    if s.len() > 0 {
        lemma_split_pieces_len(s.drop_last());
    }
}

proof fn lemma_split_tail(a: Seq<char>, b: Seq<char>)
    requires
        forall|i: int| 0 <= i < b.len() ==> b[i] != '/',
    ensures
        split_pieces(a + b) == {
            let r = split_pieces(a);
            r.update(r.len() - 1, r.last() + b)
        },
    decreases b.len(),
{
    lemma_split_pieces_len(a);
    if b.len() == 0 {
        assert(a + b =~= a);
        let r = split_pieces(a);
        assert(r.last() + b =~= r.last());
        assert(r.update(r.len() - 1, r.last()) =~= r);
    } else {
        let b0 = b.drop_last();
        lemma_split_tail(a, b0);
        assert((a + b).drop_last() =~= a + b0);
        assert((a + b).last() == b.last());
        let r = split_pieces(a);
        let r0 = r.update(r.len() - 1, r.last() + b0);
        assert(r0.last() == r.last() + b0);
        assert((r.last() + b0).push(b.last()) =~= r.last() + b);
        assert(r0.update(r0.len() - 1, r0.last().push(b.last())) =~= r.update(
            r.len() - 1,
            r.last() + b,
        ));
    }
}

proof fn lemma_slashed_clean(c: Seq<char>)
    requires
        clean_component(c),
    ensures
        slashed(c) == c,
{
    assert(slashed(c) =~= c);
}

/// Splitting an entry name at `/` gives back the path it was made from, when
/// every component is non-empty and holds no separator: packing keeps the
/// relative paths of the tree, so extraction can restore them.
pub proof fn lemma_entry_name_splits_back(cs: Seq<Seq<char>>)
    requires
        forall|i: int| 0 <= i < cs.len() ==> clean_component(#[trigger] cs[i]),
    ensures
        split_name(joined(cs)) == cs,
    decreases cs.len(),
{
    if cs.len() == 1 {
        lemma_slashed_clean(cs[0]);
        lemma_split_tail(Seq::empty(), cs[0]);
        assert(Seq::<char>::empty() + cs[0] =~= cs[0]);
        assert(split_pieces(Seq::<char>::empty()).update(0, Seq::<char>::empty() + cs[0]) =~= cs);
    } else if cs.len() > 1 {
        let init = cs.drop_last();
        lemma_entry_name_splits_back(init);
        lemma_slashed_clean(cs.last());
        let a = joined(init) + seq!['/'];
        lemma_split_tail(a, cs.last());
        assert(joined(cs) == a + cs.last());
        assert(a.drop_last() =~= joined(init));
        assert(joined(init).len() > 0) by {
            if init.len() == 1 {
                lemma_slashed_clean(init[0]);
            }
        }
        assert(split_pieces(a) == split_pieces(joined(init)).push(Seq::empty()));
        let r = split_pieces(a);
        assert(Seq::<char>::empty() + cs.last() =~= cs.last());
        assert(r.update(r.len() - 1, r.last() + cs.last()) =~= cs);
    }
}

/// One entry of the working tree, as a walk of it found it.
#[derive(Debug, Clone)]
pub struct WalkEntry {
    /// The path relative to the walked root, or `None` where it is not valid text.
    pub path: Option<Vec<String>>,
    pub is_dir: bool,
}

/// One entry to write to the output archive.
#[derive(Debug, Clone)]
pub struct PackEntry {
    pub name: String,
    pub is_dir: bool,
    /// The index of the walk entry it comes from.
    pub source: usize,
}

impl PackEntry {
    pub open spec fn view(&self) -> (Seq<char>, bool, int) {
        (self.name@, self.is_dir, self.source as int)
    }
}

/// Some entry of the walk has a path that is not text.
pub open spec fn has_untextual(es: Seq<WalkEntry>) -> bool {
    exists|i: int| 0 <= i < es.len() && (#[trigger] es[i]).path is None
}

/// The directory entries among the first `n` of the walk, the root excluded.
pub open spec fn dir_plan(es: Seq<WalkEntry>, n: int) -> Seq<(Seq<char>, bool, int)>
    decreases n,
{
    if n <= 0 {
        Seq::empty()
    } else {
        dir_plan(es, n - 1) + match es[n - 1].path {
            Some(p) => if es[n - 1].is_dir && joined(components(p@)).len() > 0 {
                seq![(joined(components(p@)), true, n - 1)]
            } else {
                Seq::empty()
            },
            None => Seq::empty(),
        }
    }
}

/// The file entries among the first `n` of the walk.
pub open spec fn file_plan(es: Seq<WalkEntry>, n: int) -> Seq<(Seq<char>, bool, int)>
    decreases n,
{
    if n <= 0 {
        Seq::empty()
    } else {
        file_plan(es, n - 1) + match es[n - 1].path {
            Some(p) => if !es[n - 1].is_dir {
                seq![(joined(components(p@)), false, n - 1)]
            } else {
                Seq::empty()
            },
            None => Seq::empty(),
        }
    }
}

/// All directories first, then all files, each in walk order.
pub open spec fn pack_plan(es: Seq<WalkEntry>) -> Seq<(Seq<char>, bool, int)> {
    dir_plan(es, es.len() as int) + file_plan(es, es.len() as int)
}

pub open spec fn pack_views(r: Seq<PackEntry>) -> Seq<(Seq<char>, bool, int)> {
    r.map_values(|e: PackEntry| e.view())
}

/// Orders the walked tree for the archive: directories first, then files;
/// the root is left out, and a path that is not text fails the whole plan.
pub fn plan_packing(entries: &Vec<WalkEntry>) -> (r: Result<Vec<PackEntry>, BundleError>)
    ensures
        r is Err <==> has_untextual(entries@),
        r matches Err(e) ==> e == BundleError::InvalidPathEncoding,
        r matches Ok(v) ==> pack_views(v@) == pack_plan(entries@),
{
    let n = entries.len();
    let mut k: usize = 0;
    while k < n
        invariant
            n == entries@.len(),
            k <= n,
            forall|j: int| 0 <= j < k ==> (#[trigger] entries@[j]).path is Some,
        decreases n - k,
    {
        if entries[k].path.is_none() {
            return Err(BundleError::InvalidPathEncoding);
        }
        k = k + 1;
    }
    let mut out: Vec<PackEntry> = Vec::new();
    let mut i: usize = 0;
    while i < n
        invariant
            n == entries@.len(),
            i <= n,
            pack_views(out@) == dir_plan(entries@, i as int),
        decreases n - i,
    {
        let e = &entries[i];
        let ghost before = out@;
        if let Some(p) = &e.path {
            if e.is_dir {
                let name = entry_name(p);
                if name.as_str().unicode_len() > 0 {
                    out.push(PackEntry { name, is_dir: true, source: i });
                }
            }
        }
        assert(pack_views(out@) =~= pack_views(before) + (pack_views(out@).skip(
            before.len() as int,
        )));
        i = i + 1;
        assert(pack_views(out@) =~= dir_plan(entries@, i as int));
    }
    let mut i: usize = 0;
    while i < n
        invariant
            n == entries@.len(),
            i <= n,
            pack_views(out@) == dir_plan(entries@, n as int) + file_plan(entries@, i as int),
        decreases n - i,
    {
        let e = &entries[i];
        let ghost before = out@;
        if let Some(p) = &e.path {
            if !e.is_dir {
                let name = entry_name(p);
                out.push(PackEntry { name, is_dir: false, source: i });
            }
        }
        assert(pack_views(out@) =~= pack_views(before) + (pack_views(out@).skip(
            before.len() as int,
        )));
        i = i + 1;
        assert(pack_views(out@) =~= dir_plan(entries@, n as int) + file_plan(entries@, i as int));
    }
    Ok(out)
}

/// One entry read from an archive.
#[derive(Debug, Clone)]
pub struct ArchiveItem {
    /// The entry's path, or `None` where it does not stay inside the destination.
    pub path: Option<Vec<String>>,
    pub is_dir: bool,
}

/// What extracting one entry does on disk.
#[derive(Debug, Clone)]
pub struct ExtractStep {
    /// The directory created, with all its ancestors.
    pub dir: Vec<String>,
    /// The file then written, for a file entry.
    pub file: Option<Vec<String>>,
    /// The index of the archive entry it comes from.
    pub source: usize,
}

pub open spec fn parent_of(cs: Seq<Seq<char>>) -> Seq<Seq<char>> {
    if cs.len() == 0 {
        cs
    } else {
        cs.drop_last()
    }
}

impl ExtractStep {
    pub open spec fn view(&self) -> (Seq<Seq<char>>, Option<Seq<Seq<char>>>, int) {
        (
            components(self.dir@),
            match self.file {
                Some(f) => Some(components(f@)),
                None => None,
            },
            self.source as int,
        )
    }
}

/// The steps for the first `n` entries: a directory entry creates its
/// directory, a file entry creates its parent and writes the file, and an
/// entry without a safe path is passed over.
pub open spec fn extract_plan(prefix: Seq<Seq<char>>, items: Seq<ArchiveItem>, n: int) -> Seq<
    (Seq<Seq<char>>, Option<Seq<Seq<char>>>, int),
>
    decreases n,
{
    if n <= 0 {
        Seq::empty()
    } else {
        extract_plan(prefix, items, n - 1) + match items[n - 1].path {
            Some(p) => if items[n - 1].is_dir {
                seq![(prefix + components(p@), None, n - 1)]
            } else {
                seq![
                    (
                        prefix + parent_of(components(p@)),
                        Some(prefix + components(p@)),
                        n - 1,
                    ),
                ]
            },
            None => Seq::empty(),
        }
    }
}

pub open spec fn step_views(r: Seq<ExtractStep>) -> Seq<
    (Seq<Seq<char>>, Option<Seq<Seq<char>>>, int),
> {
    r.map_values(|e: ExtractStep| e.view())
}

/// `a` followed by the first `m` components of `b`.
fn join_paths(a: &Vec<String>, b: &Vec<String>, m: usize) -> (r: Vec<String>)
    requires
        m <= b@.len(),
    ensures
        components(r@) == components(a@) + components(b@.take(m as int)),
{
    let mut r: Vec<String> = Vec::new();
    let mut i: usize = 0;
    while i < a.len()
        invariant
            i <= a@.len(),
            components(r@) == components(a@.take(i as int)),
        decreases a@.len() - i,
    {
        let ghost before = r@;
        let c = a[i].clone();
        assert(c@ == a@[i as int]@);
        r.push(c);
        assert(r@ == before.push(c));
        assert(components(r@) =~= components(before).push(c@));
        assert(a@.take(i + 1) =~= a@.take(i as int).push(a@[i as int]));
        i = i + 1;
        assert(components(r@) =~= components(a@.take(i as int)));
    }
    assert(a@.take(a@.len() as int) =~= a@);
    let mut j: usize = 0;
    while j < m
        invariant
            m <= b@.len(),
            j <= m,
            components(r@) == components(a@) + components(b@.take(j as int)),
        decreases m - j,
    {
        let ghost before = r@;
        let c = b[j].clone();
        assert(c@ == b@[j as int]@);
        r.push(c);
        assert(components(r@) =~= components(before).push(c@));
        assert(b@.take(j + 1) =~= b@.take(j as int).push(b@[j as int]));
        assert(components(b@.take(j + 1)) =~= components(b@.take(j as int)).push(c@));
        j = j + 1;
        assert(components(r@) =~= components(a@) + components(b@.take(j as int)));
    }
    r
}

/// Plans the extraction of an archive's entries under `prefix`.
pub fn plan_extraction(prefix: &Vec<String>, items: &Vec<ArchiveItem>) -> (r: Vec<ExtractStep>)
    ensures
        step_views(r@) == extract_plan(components(prefix@), items@, items@.len() as int),
{
    let mut out: Vec<ExtractStep> = Vec::new();
    let mut i: usize = 0;
    while i < items.len()
        invariant
            i <= items@.len(),
            step_views(out@) == extract_plan(components(prefix@), items@, i as int),
        decreases items@.len() - i,
    {
        let ghost before = out@;
        if let Some(p) = &items[i].path {
            assert(p@.take(p@.len() as int) =~= p@);
            let full = join_paths(prefix, p, p.len());
            if items[i].is_dir {
                out.push(ExtractStep { dir: full, file: None, source: i });
            } else {
                let up = if p.len() == 0 { 0 } else { p.len() - 1 };
                let dir = join_paths(prefix, p, up);
                assert(components(p@.take(up as int)) =~= parent_of(components(p@)));
                out.push(ExtractStep { dir, file: Some(full), source: i });
            }
        }
        assert(step_views(out@) =~= step_views(before) + (step_views(out@).skip(
            before.len() as int,
        )));
        i = i + 1;
        assert(step_views(out@) =~= extract_plan(components(prefix@), items@, i as int));
    }
    out
}

} // verus!
