//! Asset management: loaders chosen by file extension, loaded assets kept
//! by their ids.
use crate::error::EngineError;
use crate::table::NamedTable;
use std::path::PathBuf;
use vstd::prelude::*;

verus! {

#[verifier::external_type_specification]
#[verifier::external_body]
pub struct ExPathBuf(PathBuf);

/// `PathBuf::clone`: the copy is the same path.
pub assume_specification[ <PathBuf as Clone>::clone ](p: &PathBuf) -> (r: PathBuf)
    ensures
        r == *p,
;

/// `root.join(relative)` (`std::path::Path::join`).
///
/// Nothing is claimed of the result: how the two parts are joined depends on
/// the platform's path separator.
#[verifier::external_body]
fn join_path(root: &PathBuf, relative: &str) -> PathBuf {
    root.join(relative)
}

/// The extension of `root.join(relative)` (`std::path::Path::join`, then
/// `Path::extension`), as a `String` when it is valid UTF-8
/// (`OsStr::to_str`), else `None`.
///
/// What is claimed follows `Path::extension`'s documentation ("the portion
/// of the file name after the final `.`"; none when the file name has no
/// `.`), for a `relative` that is `plain_relative`: not rooted, with no
/// `\` or `:` (so no platform reads a root or a prefix in it), and whose
/// last `/`-separated part is a file name (not empty, `.` or `..`). Such a
/// file name is the last component of the joined path on every platform,
/// so a `.` in it after its first character gives the text after its last
/// `.`, and a `relative` with no `.` at all gives no extension. Nothing is
/// claimed of other paths.
#[verifier::external_body]
fn path_extension(root: &PathBuf, relative: &str) -> (r: Option<String>)
    ensures
        match r {
            Some(e) => plain_relative(relative@) && last_index_of(file_name_of(relative@), '.') > 0 ==> e@
                == file_name_of(relative@).subrange(
                last_index_of(file_name_of(relative@), '.') + 1,
                file_name_of(relative@).len() as int,
            ),
            None => !(plain_relative(relative@) && last_index_of(file_name_of(relative@), '.') > 0),
        },
        r is Some ==> !(plain_relative(relative@) && !relative@.contains('.')),
{
    match root.join(relative).extension() {
        Some(ext) => match ext.to_str() {
            Some(s) => Some(s.to_string()),
            None => None,
        },
        None => None,
    }
}

/// The position of the last `c` in `s`, or -1 when there is none.
pub open spec fn last_index_of(s: Seq<char>, c: char) -> int
    decreases s.len(),
{
    if s.len() == 0 {
        -1
    } else if s.last() == c {
        s.len() - 1
    } else {
        last_index_of(s.drop_last(), c)
    }
}

/// The last `/`-separated part of a relative path.
pub open spec fn file_name_of(relative: Seq<char>) -> Seq<char> {
    relative.subrange(last_index_of(relative, '/') + 1, relative.len() as int)
}

/// A relative path whose meaning no platform reads differently: not
/// rooted, with no `\\` or `:`, ending in a file name (not empty, `.` or
/// `..`).
pub open spec fn plain_relative(relative: Seq<char>) -> bool {
    &&& relative.len() > 0
    &&& relative[0] != '/'
    &&& !relative.contains('\\')
    &&& !relative.contains(':')
    &&& file_name_of(relative) != Seq::<char>::empty()
    &&& file_name_of(relative) != seq!['.']
    &&& file_name_of(relative) != seq!['.', '.']
}

/// The extension under which a loader is looked up for `relative`, where
/// its text settles it: the text after the last `.` of its file name when
/// that `.` is not the file name's first character; "unknown" when the path
/// has no `.` at all.
pub open spec fn lookup_extension(relative: Seq<char>) -> Option<Seq<char>> {
    let f = file_name_of(relative);
    let k = last_index_of(f, '.');
    if !plain_relative(relative) {
        None
    } else if k > 0 {
        Some(f.subrange(k + 1, f.len() as int))
    } else if !relative.contains('.') {
        Some("unknown"@)
    } else {
        None
    }
}

/// A path made from a string (`PathBuf::from`).
///
/// Nothing is claimed of the result beyond its existence: a `PathBuf` is
/// opaque here.
#[verifier::external_body]
pub(crate) fn path_from(s: &str) -> PathBuf {
    PathBuf::from(s)
}

/// Unique identifier for an asset: the path it was loaded from.
#[derive(Debug, Clone, PartialEq, Eq, Hash)]
pub struct AssetId(pub String);

impl AssetId {
    /// Create a new asset ID from a path.
    pub fn new(path: &str) -> (id: AssetId)
        ensures
            id.0@ == path@,
    {
        AssetId(path.to_string())
    }

    /// The identifier as text.
    pub fn as_str(&self) -> (s: &str)
        ensures
            s@ == self.0@,
    {
        self.0.as_str()
    }
}

/// A loadable asset, which knows its own id.
pub trait Asset {
    /// The asset's id.
    fn id(&self) -> &AssetId;
}

/// Loads assets of one kind of file.
pub trait AssetLoader<A> {
    /// Load the asset at `path`.
    fn load(&self, path: &PathBuf) -> Result<A, EngineError>;
}

/// `id` is what `Asset::id` gives for `a`.
pub open spec fn is_own_id<A: Asset>(a: A, id: AssetId) -> bool {
    call_ensures(<A as Asset>::id, (&a,), &id)
}

/// Every asset is held under its own id.
pub open spec fn held_under_own_ids<A: Asset>(assets: Map<Seq<char>, A>) -> bool {
    forall|k: Seq<char>| #[trigger] assets.contains_key(k) ==> exists|i: AssetId| i.0@ == k && is_own_id(assets[k], i)
}

/// The outcome of keeping the result of a load: a loaded asset is kept under
/// its own id (replacing any asset under that id) and that id is handed
/// back; an error is handed back and nothing changes.
pub open spec fn kept<A: Asset>(
    before: Map<Seq<char>, A>,
    after: Map<Seq<char>, A>,
    loaded: Result<A, EngineError>,
    r: Result<AssetId, EngineError>,
) -> bool {
    match loaded {
        Ok(a) => r matches Ok(id) && is_own_id(a, id) && after == before.insert(id.0@, a),
        Err(e) => r == Err::<AssetId, EngineError>(e) && after == before,
    }
}

/// The outcome of loading the file at `path` with the loader registered for
/// `extension`: without such a loader, `AssetNotFound` and nothing changes;
/// else that loader is asked for `path`, and what it gives is kept as
/// `kept` says.
pub open spec fn load_outcome<A: Asset, L: AssetLoader<A>>(
    loaders: Map<Seq<char>, L>,
    before: Map<Seq<char>, A>,
    after: Map<Seq<char>, A>,
    path: PathBuf,
    extension: Seq<char>,
    r: Result<AssetId, EngineError>,
) -> bool {
    if loaders.contains_key(extension) {
        exists|loaded: Result<A, EngineError>|
            call_ensures(<L as AssetLoader<A>>::load, (&loaders[extension], &path), loaded)
            && kept(before, after, loaded, r)
    } else {
        r == Err::<AssetId, EngineError>(EngineError::AssetNotFound) && after == before
    }
}

/// Central asset manager.
pub struct AssetManager<A, L> {
    assets: NamedTable<A>,
    loaders: NamedTable<L>,
    asset_root: PathBuf,
}

impl<A: Asset, L: AssetLoader<A>> AssetManager<A, L> {
    /// The internal tables are well formed.
    pub closed spec fn wf(&self) -> bool {
        &&& self.assets.wf()
        &&& self.loaders.wf()
        &&& held_under_own_ids(self.assets@)
    }

    /// Loaded assets, by id.
    pub closed spec fn assets(&self) -> Map<Seq<char>, A> {
        self.assets@
    }

    /// Registered loaders, by file extension.
    pub closed spec fn loaders(&self) -> Map<Seq<char>, L> {
        self.loaders@
    }

    /// The root asset directory.
    pub closed spec fn root(&self) -> PathBuf {
        self.asset_root
    }

    /// Create a new asset manager with a root asset directory.
    pub fn new(asset_root: PathBuf) -> (m: Self)
        ensures
            m.wf(),
            m.assets() == Map::<Seq<char>, A>::empty(),
            m.loaders() == Map::<Seq<char>, L>::empty(),
            m.root() == asset_root,
    {
        AssetManager { assets: NamedTable::new(), loaders: NamedTable::new(), asset_root }
    }

    /// Register an asset loader for a file extension, replacing any loader
    /// registered for it before.
    pub fn register_loader(&mut self, extension: String, loader: L)
        requires
            old(self).wf(),
        ensures
            final(self).wf(),
            final(self).loaders() == old(self).loaders().insert(extension@, loader),
            final(self).assets() == old(self).assets(),
            final(self).root() == old(self).root(),
    {
        self.loaders.insert(extension.as_str(), loader);
    }

    /// Load an asset from `relative_path` under the root directory, with the
    /// loader registered for its file extension ("unknown" when it has none).
    ///
    /// The result is that of loading with the loader registered for some
    /// extension; for a plain relative path whose text settles it, that is
    /// `lookup_extension` of the path (the text after the last `.` of its
    /// file name, or "unknown"); else the platform's `Path::join` and
    /// `Path::extension` say which. With no loader registered at all, the
    /// asset is not found.
    pub fn load_asset(&mut self, relative_path: &str) -> (r: Result<AssetId, EngineError>)
        requires
            old(self).wf(),
        ensures
            final(self).wf(),
            final(self).loaders() == old(self).loaders(),
            final(self).root() == old(self).root(),
            match r {
                Ok(id) => final(self).assets().contains_key(id.0@)
                    && final(self).assets().remove(id.0@) == old(self).assets().remove(id.0@),
                Err(_) => final(self).assets() == old(self).assets(),
            },
            exists|path: PathBuf, extension: Seq<char>|
                load_outcome(old(self).loaders(), old(self).assets(), final(self).assets(), path, extension, r),
            lookup_extension(relative_path@) matches Some(extension) ==> exists|path: PathBuf|
                load_outcome(old(self).loaders(), old(self).assets(), final(self).assets(), path, extension, r),
            old(self).loaders() == Map::<Seq<char>, L>::empty() ==> r == Err::<AssetId, EngineError>(
                EngineError::AssetNotFound,
            ),
    {
        let full_path = join_path(&self.asset_root, relative_path);
        let extension = path_extension(&self.asset_root, relative_path);
        let r = self.load_asset_from(&full_path, extension);
        assert(load_outcome(old(self).loaders(), old(self).assets(), self.assets(), full_path, effective_extension(extension), r));
        proof {
            if lookup_extension(relative_path@) is Some {
                assert(lookup_extension(relative_path@) == Some(effective_extension(extension)));
                let ext = lookup_extension(relative_path@)->0;
                assert(load_outcome(old(self).loaders(), old(self).assets(), self.assets(), full_path, ext, r));
            }
        }
        r
    }

    /// Load the asset at `full_path`, whose file extension is `extension`,
    /// with the loader registered for that extension ("unknown" when there
    /// is none). Without such a loader the result is `AssetNotFound`; else
    /// the loader is asked for the file at `full_path`, and what it gives is
    /// kept as `keep_loaded` keeps it (what a loader gives is the loader's
    /// own to say).
    pub fn load_asset_from(&mut self, full_path: &PathBuf, extension: Option<String>) -> (r: Result<AssetId, EngineError>)
        requires
            old(self).wf(),
        ensures
            final(self).wf(),
            final(self).loaders() == old(self).loaders(),
            final(self).root() == old(self).root(),
            load_outcome(old(self).loaders(), old(self).assets(), final(self).assets(), *full_path, effective_extension(extension), r),
    {
        let ext = match extension {
            Some(e) => e,
            None => "unknown".to_string(),
        };
        let loader = match self.loaders.get(ext.as_str()) {
            Some(l) => l,
            None => return Err(EngineError::AssetNotFound),
        };
        let loaded = loader.load(full_path);
        let ghost outcome = loaded;
        assert(call_ensures(<L as AssetLoader<A>>::load, (&old(self).loaders()[ext@], full_path), outcome));
        let r = self.keep_loaded(loaded);
        assert(kept(old(self).assets(), self.assets(), outcome, r));
        r
    }

    /// Keep the result of a load: a loaded asset is kept under its id
    /// (`Asset::id`), replacing any asset under that id, and the id is handed
    /// back; an error is handed back and nothing changes.
    pub fn keep_loaded(&mut self, loaded: Result<A, EngineError>) -> (r: Result<AssetId, EngineError>)
        requires
            old(self).wf(),
        ensures
            final(self).wf(),
            final(self).loaders() == old(self).loaders(),
            final(self).root() == old(self).root(),
            kept(old(self).assets(), final(self).assets(), loaded, r),
    {
        match loaded {
            Ok(asset) => {
                let own = asset.id();
                let id = AssetId(own.0.clone());
                assert(is_own_id(asset, id));
                let ghost before = self.assets@;
                self.assets.insert(id.as_str(), asset);
                proof {
                    assert forall|k: Seq<char>| #[trigger] self.assets@.contains_key(k) implies exists|i: AssetId|
                        i.0@ == k && is_own_id(self.assets@[k], i) by {
                        if k == id.0@ {
                            assert(id.0@ == k && is_own_id(self.assets@[k], id));
                        } else {
                            assert(before.contains_key(k));
                            let i = choose|i: AssetId| i.0@ == k && is_own_id(before[k], i);
                            assert(self.assets@[k] == before[k]);
                            assert(i.0@ == k && is_own_id(self.assets@[k], i));
                        }
                    }
                }
                Ok(id)
            },
            Err(e) => Err(e),
        }
    }

    /// Get a loaded asset by ID.
    pub fn get_asset(&self, id: &AssetId) -> (r: Option<&A>)
        requires
            self.wf(),
        ensures
            match r {
                Some(a) => self.assets().contains_key(id.0@) && self.assets()[id.0@] == *a
                    && exists|own: AssetId| own.0@ == id.0@ && is_own_id(*a, own),
                None => !self.assets().contains_key(id.0@),
            },
    {
        self.assets.get(id.as_str())
    }

    /// Check if an asset is loaded.
    pub fn has_asset(&self, id: &AssetId) -> (r: bool)
        requires
            self.wf(),
        ensures
            r == self.assets().contains_key(id.0@),
    {
        self.assets.get(id.as_str()).is_some()
    }

    /// Unload an asset; `true` when it was loaded.
    pub fn unload_asset(&mut self, id: &AssetId) -> (r: bool)
        requires
            old(self).wf(),
        ensures
            final(self).wf(),
            r == old(self).assets().contains_key(id.0@),
            final(self).assets() == old(self).assets().remove(id.0@),
            final(self).loaders() == old(self).loaders(),
            final(self).root() == old(self).root(),
    {
        let ghost before = self.assets@;
        let r = self.assets.remove(id.as_str()).is_some();
        proof {
            assert forall|k: Seq<char>| #[trigger] self.assets@.contains_key(k) implies exists|i: AssetId|
                i.0@ == k && is_own_id(self.assets@[k], i) by {
                assert(before.contains_key(k));
                let i = choose|i: AssetId| i.0@ == k && is_own_id(before[k], i);
                assert(self.assets@[k] == before[k]);
                assert(i.0@ == k && is_own_id(self.assets@[k], i));
            }
        }
        r
    }

    /// Get the root asset directory.
    pub fn asset_root(&self) -> (r: &PathBuf)
        ensures
            *r == self.root(),
    {
        &self.asset_root
    }
}

/// The extension under which a loader is looked up: the path's extension,
/// or "unknown" when it has none.
pub open spec fn effective_extension(extension: Option<String>) -> Seq<char> {
    match extension {
        Some(e) => e@,
        None => "unknown"@,
    }
}

/// Over any run of calls, each of which keeps the root directory (as every
/// method of `AssetManager` does), the root stays the one the manager was
/// made with.
pub proof fn law_root_constant<A: Asset, L: AssetLoader<A>>(history: Seq<AssetManager<A, L>>)
    requires
        forall|i: int| 0 <= i < history.len() - 1 ==> #[trigger] history[i + 1].root() == history[i].root(),
    ensures
        forall|i: int| 0 <= i < history.len() ==> #[trigger] history[i].root() == history[0].root(),
    decreases history.len(),
{
    if history.len() > 1 {
        let prefix = history.drop_last();
        assert forall|i: int| 0 <= i < prefix.len() - 1 implies #[trigger] prefix[i + 1].root() == prefix[i].root() by {
            assert(history[i + 1].root() == history[i].root());
        }
        law_root_constant(prefix);
        assert forall|i: int| 0 <= i < history.len() implies #[trigger] history[i].root() == history[0].root() by {
            if i < history.len() - 1 {
                assert(prefix[i].root() == prefix[0].root());
            } else {
                let j = i - 1;
                assert(history[j + 1].root() == history[j].root());
                assert(j + 1 == i);
                assert(prefix[j].root() == prefix[0].root());
            }
        }
    }
}

/// The last `c` of a text lies within it, or is -1.
proof fn lemma_last_index_bounds(s: Seq<char>, c: char)
    ensures
        -1 <= last_index_of(s, c) < s.len(),
    decreases s.len(),
{
    if s.len() > 0 {
        lemma_last_index_bounds(s.drop_last(), c);
    }
}

/// A text without `c` has no last `c`.
proof fn lemma_last_index_absent(s: Seq<char>, c: char)
    requires
        !s.contains(c),
    ensures
        last_index_of(s, c) == -1,
    decreases s.len(),
{
    if s.len() > 0 {
        assert(s.drop_last().contains(c) ==> s.contains(c)) by {
            if s.drop_last().contains(c) {
                let j = choose|j: int| 0 <= j < s.drop_last().len() && s.drop_last()[j] == c;
                assert(s[j] == c);
            }
        }
        assert(s[s.len() - 1] == s.last());
        lemma_last_index_absent(s.drop_last(), c);
    }
}

/// Appending text without `c` keeps the last `c` where it was.
proof fn lemma_last_index_append(a: Seq<char>, b: Seq<char>, c: char)
    requires
        !b.contains(c),
    ensures
        last_index_of(a + b, c) == last_index_of(a, c),
    decreases b.len(),
{
    if b.len() > 0 {
        assert((a + b).drop_last() =~= a + b.drop_last());
        assert((a + b).last() == b.last());
        assert(b[b.len() - 1] == b.last());
        assert(!b.drop_last().contains(c)) by {
            if b.drop_last().contains(c) {
                let j = choose|j: int| 0 <= j < b.drop_last().len() && b.drop_last()[j] == c;
                assert(b[j] == c);
            }
        }
        lemma_last_index_append(a, b.drop_last(), c);
    }
}

/// A loader is looked up by the text after the last `.` of the file name:
/// for `dir/stem.ext`, where the extension holds no `.` (the stem may), it
/// is `ext`.
pub proof fn law_extension_is_after_last_dot(dir: Seq<char>, stem: Seq<char>, ext: Seq<char>)
    requires
        dir.len() == 0 || dir.last() == '/',
        stem.len() > 0,
        !stem.contains('/'),
        !ext.contains('/'),
        !ext.contains('.'),
        plain_relative(dir + stem + seq!['.'] + ext),
    ensures
        lookup_extension(dir + stem + seq!['.'] + ext) == Some(ext),
{
    let rel = dir + stem + seq!['.'] + ext;
    let tail = stem + seq!['.'] + ext;
    assert(rel =~= dir + tail);
    assert(!tail.contains('/')) by {
        if tail.contains('/') {
            let j = choose|j: int| 0 <= j < tail.len() && tail[j] == '/';
            if j < stem.len() {
                assert(stem[j] == '/');
            } else if j > stem.len() {
                assert(ext[j - stem.len() - 1] == '/');
            }
        }
    }
    lemma_last_index_append(dir, tail, '/');
    if dir.len() > 0 {
        assert(dir[dir.len() - 1] == dir.last());
        assert(last_index_of(dir, '/') == dir.len() - 1);
    }
    assert(file_name_of(rel) =~= tail);
    let dotted = stem.push('.');
    assert(tail =~= dotted + ext);
    assert(last_index_of(dotted, '.') == stem.len());
    lemma_last_index_append(dotted, ext, '.');
    assert(tail.subrange((stem.len() + 1) as int, tail.len() as int) =~= ext);
}

/// A path with no `.` at all is looked up under "unknown".
pub proof fn law_no_dot_is_unknown(relative: Seq<char>)
    requires
        plain_relative(relative),
        !relative.contains('.'),
    ensures
        lookup_extension(relative) == Some("unknown"@),
{
    let f = file_name_of(relative);
    lemma_last_index_bounds(relative, '/');
    assert(!f.contains('.')) by {
        if f.contains('.') {
            let j = choose|j: int| 0 <= j < f.len() && f[j] == '.';
            let k = last_index_of(relative, '/') + 1 + j;
            assert(relative[k] == '.');
            assert(relative.contains('.'));
        }
    }
    lemma_last_index_absent(f, '.');
}

} // verus!
