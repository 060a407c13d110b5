//! Texture bookkeeping: loaded textures by handle and by name, so that a
//! name is loaded once.
//!
//! The catalog decides whether a load is needed, decodes the image file's
//! bytes, and decides which handle a texture gets; reading the file and
//! creating the GPU texture happen outside.
use crate::table::NamedTable;
use std::collections::HashMap;
use vstd::prelude::*;

verus! {

/// What decoding `bytes` as an image gives: width, height and RGBA8 pixels
/// (four bytes per pixel, row by row), or the error's text. The format is
/// the one `image::ImageFormat::from_path` picks for `path`.
pub uninterp spec fn decoded_rgba(bytes: Seq<u8>, path: Seq<char>) -> Result<(u32, u32, Seq<u8>), Seq<char>>;

/// Decode an image file's bytes to RGBA8 with the `image` crate, as
/// `image::open` does after reading the file: the format is the one
/// `ImageFormat::from_path` picks for the path (its error when it picks
/// none), the bytes are decoded in that format
/// (`load_from_memory_with_format`) and converted (`to_rgba8`).
///
/// The contract claims only that the result, or the error's text
/// (`Display` of `ImageError`), is `decoded_rgba` of the arguments.
#[verifier::external_body]
fn decode_rgba(bytes: &[u8], path: &str) -> (r: Result<(u32, u32, Vec<u8>), String>)
    ensures
        match r {
            Ok((w, h, px)) => decoded_rgba(bytes@, path@) == Ok::<(u32, u32, Seq<u8>), Seq<char>>((w, h, px@)),
            Err(e) => decoded_rgba(bytes@, path@) == Err::<(u32, u32, Seq<u8>), Seq<char>>(e@),
        },
{
    let decoded = match image::ImageFormat::from_path(path) {
        Ok(format) => image::load_from_memory_with_format(bytes, format),
        Err(e) => Err(e),
    };
    match decoded {
        Ok(img) => {
            let rgba = img.to_rgba8();
            Ok((rgba.width(), rgba.height(), rgba.into_raw()))
        },
        Err(e) => Err(e.to_string()),
    }
}

/// What a texture load comes to before any GPU work.
#[derive(Debug, Clone)]
pub enum TextureLoad {
    /// A texture is already loaded under the name: its handle.
    Cached(u32),
    /// The image, decoded: to be uploaded and kept with `insert_loaded`.
    Decoded { width: u32, height: u32, pixels: Vec<u8> },
    /// The load failed, with this message.
    Failed(String),
}

/// The message of a failed load of the image at `path`.
pub open spec fn failure_message(path: Seq<char>, error: Seq<char>) -> Seq<char> {
    "Failed to load image "@ + path + ": "@ + error
}

/// `r` is the load that the decoding outcome `decoded` of the image at
/// `path` comes to.
pub open spec fn load_of(path: Seq<char>, decoded: Result<(u32, u32, Seq<u8>), Seq<char>>, r: TextureLoad) -> bool {
    match decoded {
        Ok((w, h, px)) => r matches TextureLoad::Decoded { width, height, pixels }
            && width == w && height == h && pixels@ == px,
        Err(e) => r matches TextureLoad::Failed(m) && m@ == failure_message(path, e),
    }
}

/// The load that decoding the image at `path` comes to: the decoded image,
/// or a failure whose message names the path and the error.
pub fn texture_load_from(path: &str, decoded: Result<(u32, u32, Vec<u8>), String>) -> (r: TextureLoad)
    ensures
        load_of(
            path@,
            match decoded {
                Ok((w, h, px)) => Ok((w, h, px@)),
                Err(e) => Err(e@),
            },
            r,
        ),
{
    match decoded {
        Ok((width, height, pixels)) => TextureLoad::Decoded { width, height, pixels },
        Err(e) => {
            let mut m = "Failed to load image ".to_string();
            m.append(path);
            m.append(": ");
            m.append(e.as_str());
            TextureLoad::Failed(m)
        },
    }
}

/// Textures by handle, each with its name, and handles by name.
pub struct TextureCatalog<T> {
    textures: HashMap<u32, (String, T)>,
    name_to_handle: NamedTable<u32>,
    next_handle: u32,
}

impl<T> TextureCatalog<T> {
    /// Names and handles correspond one to one, and every handle is below
    /// the next one to be handed out.
    pub closed spec fn wf(&self) -> bool {
        &&& self.name_to_handle.wf()
        &&& forall|n: Seq<char>| #[trigger] self.name_to_handle@.contains_key(n) ==> {
            let h = self.name_to_handle@[n];
            self.textures@.contains_key(h) && self.textures@[h].0@ == n
        }
        &&& forall|h: u32| #[trigger] self.textures@.contains_key(h) ==> {
            &&& self.name_to_handle@.contains_key(self.textures@[h].0@)
            &&& self.name_to_handle@[self.textures@[h].0@] == h
            &&& h < self.next_handle
        }
    }

    /// The textures, by handle.
    pub closed spec fn textures(&self) -> Map<u32, T> {
        Map::new(|h: u32| self.textures@.contains_key(h), |h: u32| self.textures@[h].1)
    }

    /// The names of the textures, by handle.
    pub closed spec fn texture_names(&self) -> Map<u32, Seq<char>> {
        Map::new(|h: u32| self.textures@.contains_key(h), |h: u32| self.textures@[h].0@)
    }

    /// The handles, by name.
    pub closed spec fn handles(&self) -> Map<Seq<char>, u32> {
        self.name_to_handle@
    }

    /// The handle the next texture gets.
    pub closed spec fn next(&self) -> u32 {
        self.next_handle
    }

    /// A catalog holds finitely many textures.
    pub proof fn lemma_textures_finite(&self)
        ensures
            self.textures().dom().finite(),
    {
        assert(self.textures().dom() =~= self.textures@.dom());
        vstd::std_specs::hash::axiom_hashmap_view_finite_dom(self.textures);
    }

    /// An empty catalog; the first texture gets handle 0.
    pub fn new() -> (c: Self)
        ensures
            c.wf(),
            c.textures() == Map::<u32, T>::empty(),
            c.handles() == Map::<Seq<char>, u32>::empty(),
            c.next() == 0,
            c.textures().dom().finite(),
    {
        let c = TextureCatalog { textures: HashMap::new(), name_to_handle: NamedTable::new(), next_handle: 0 };
        assert(c.textures() =~= Map::<u32, T>::empty());
        c
    }

    /// The handle of the texture loaded under `name`, if any.
    pub fn get_by_name(&self, name: &str) -> (r: Option<u32>)
        requires
            self.wf(),
        ensures
            match r {
                Some(h) => self.handles().contains_key(name@) && self.handles()[name@] == h
                    && self.textures().contains_key(h) && self.texture_names()[h] == name@,
                None => !self.handles().contains_key(name@),
            },
    {
        match self.name_to_handle.get(name) {
            Some(h) => Some(*h),
            None => None,
        }
    }

    /// Decide a texture load of the image at `path` under `name`, given the
    /// file's bytes as read (or the read error's text): a name already
    /// loaded gives its handle, and nothing is decoded; else the bytes are
    /// decoded, and the load comes to the decoded image or a failure.
    pub fn prepare_load(&self, name: &str, path: &str, read: Result<Vec<u8>, String>) -> (r: TextureLoad)
        requires
            self.wf(),
        ensures
            self.handles().contains_key(name@) ==> r == TextureLoad::Cached(self.handles()[name@]),
            !self.handles().contains_key(name@) ==> match read {
                Ok(bytes) => load_of(path@, decoded_rgba(bytes@, path@), r),
                Err(e) => load_of(path@, Err(e@), r),
            },
    {
        if let Some(h) = self.get_by_name(name) {
            return TextureLoad::Cached(h);
        }
        match read {
            Ok(bytes) => {
                let decoded = decode_rgba(bytes.as_slice(), path);
                let ghost outcome = decoded_rgba(bytes@, path@);
                let r = texture_load_from(path, decoded);
                assert(load_of(path@, outcome, r));
                r
            },
            Err(e) => texture_load_from(path, Err(e)),
        }
    }

    /// The handle the next kept texture will get.
    pub fn next_handle(&self) -> (h: u32)
        ensures
            h == self.next(),
    {
        self.next_handle
    }

    /// Keep a texture newly loaded under `name` (which no texture has yet),
    /// under the next handle, and hand the handle back.
    pub fn insert_loaded(&mut self, name: &str, data: T) -> (h: u32)
        requires
            old(self).wf(),
            !old(self).handles().contains_key(name@),
            old(self).next() < u32::MAX,
        ensures
            final(self).wf(),
            h == old(self).next(),
            !old(self).textures().contains_key(h),
            final(self).next() == old(self).next() + 1,
            final(self).textures() == old(self).textures().insert(h, data),
            final(self).texture_names() == old(self).texture_names().insert(h, name@),
            final(self).handles() == old(self).handles().insert(name@, h),
            final(self).textures().dom().finite(),
            final(self).textures().len() == old(self).textures().len() + 1,
    {
        let handle = self.next_handle;
        self.next_handle = self.next_handle + 1;
        let ghost old_textures = self.textures@;
        self.textures.insert(handle, (name.to_string(), data));
        self.name_to_handle.insert(name, handle);
        proof {
            assert(!old_textures.contains_key(handle));
            assert forall|n: Seq<char>| #[trigger] self.name_to_handle@.contains_key(n) implies ({
                let h = self.name_to_handle@[n];
                self.textures@.contains_key(h) && self.textures@[h].0@ == n
            }) by {
                if n != name@ {
                    let h = old(self).name_to_handle@[n];
                    assert(old_textures.contains_key(h));
                    assert(h != handle);
                }
            }
            assert forall|h: u32| #[trigger] self.textures@.contains_key(h) implies ({
                &&& self.name_to_handle@.contains_key(self.textures@[h].0@)
                &&& self.name_to_handle@[self.textures@[h].0@] == h
                &&& h < self.next_handle
            }) by {
                if h != handle {
                    assert(old_textures.contains_key(h));
                    assert(old_textures[h].0@ != name@);
                }
            }
            assert(self.textures() =~= old(self).textures().insert(handle, data));
            assert(self.texture_names() =~= old(self).texture_names().insert(handle, name@));
            old(self).lemma_textures_finite();
            self.lemma_textures_finite();
        }
        handle
    }

    /// The texture under a handle.
    pub fn get_texture(&self, handle: u32) -> (r: Option<&T>)
        ensures
            match r {
                Some(t) => self.textures().contains_key(handle) && self.textures()[handle] == *t,
                None => !self.textures().contains_key(handle),
            },
    {
        match self.textures.get(&handle) {
            Some(entry) => Some(&entry.1),
            None => None,
        }
    }

    /// Remove the texture under a handle, and its name, handing back the
    /// name and the texture.
    pub fn remove_texture(&mut self, handle: u32) -> (r: Option<(String, T)>)
        requires
            old(self).wf(),
        ensures
            final(self).wf(),
            final(self).next() == old(self).next(),
            final(self).textures() == old(self).textures().remove(handle),
            final(self).texture_names() == old(self).texture_names().remove(handle),
            final(self).textures().dom().finite(),
            match r {
                Some(entry) => {
                    &&& old(self).textures().contains_key(handle)
                    &&& old(self).textures()[handle] == entry.1
                    &&& old(self).texture_names()[handle] == entry.0@
                    &&& final(self).handles() == old(self).handles().remove(entry.0@)
                },
                None => !old(self).textures().contains_key(handle) && final(self).handles() == old(self).handles(),
            },
    {
        let ghost old_textures = self.textures@;
        match self.textures.remove(&handle) {
            Some(entry) => {
                self.name_to_handle.remove(entry.0.as_str());
                proof {
                    assert forall|n: Seq<char>| #[trigger] self.name_to_handle@.contains_key(n) implies ({
                        let h = self.name_to_handle@[n];
                        self.textures@.contains_key(h) && self.textures@[h].0@ == n
                    }) by {
                        let h = old(self).name_to_handle@[n];
                        assert(old_textures.contains_key(h));
                        if h == handle {
                            assert(n == entry.0@);
                        }
                    }
                    assert forall|h: u32| #[trigger] self.textures@.contains_key(h) implies ({
                        &&& self.name_to_handle@.contains_key(self.textures@[h].0@)
                        &&& self.name_to_handle@[self.textures@[h].0@] == h
                        &&& h < self.next_handle
                    }) by {
                        assert(old_textures.contains_key(h));
                        assert(old_textures[h].0@ != entry.0@);
                    }
                    assert(self.textures() =~= old(self).textures().remove(handle));
                    assert(self.texture_names() =~= old(self).texture_names().remove(handle));
                    self.lemma_textures_finite();
                }
                Some(entry)
            },
            None => {
                assert(self.textures() =~= old(self).textures().remove(handle));
                assert(self.texture_names() =~= old(self).texture_names().remove(handle));
                proof {
                    self.lemma_textures_finite();
                }
                None
            },
        }
    }

    /// The textures with their names, by handle.
    pub closed spec fn entries(&self) -> Map<u32, (String, T)> {
        self.textures@
    }

    /// The textures loaded, each with its name, each once, in no particular
    /// order.
    pub fn iter(&self) -> (r: std::collections::hash_map::Values<'_, u32, (String, T)>)
        ensures
            vstd::std_specs::iter::IteratorSpec::remaining(&r).unref().to_set() == self.entries().values(),
            vstd::std_specs::iter::IteratorSpec::remaining(&r).len() == self.entries().len(),
            self.entries().dom() == self.textures().dom(),
            forall|h: u32| #[trigger] self.entries().contains_key(h) ==> self.entries()[h].1 == self.textures()[h]
                && self.entries()[h].0@ == self.texture_names()[h],
    {
        self.textures.values()
    }

    /// The number of textures loaded.
    pub fn len(&self) -> (n: usize)
        ensures
            n == self.textures().len(),
    {
        proof {
            assert(self.textures().dom() =~= self.textures@.dom());
        }
        self.textures.len()
    }

    /// Is no texture loaded?
    pub fn is_empty(&self) -> (r: bool)
        ensures
            r == (self.textures().len() == 0),
    {
        proof {
            assert(self.textures().dom() =~= self.textures@.dom());
        }
        self.textures.is_empty()
    }

    /// Remove every texture and name; handles already handed out are not
    /// handed out again.
    pub fn clear(&mut self)
        requires
            old(self).wf(),
        ensures
            final(self).wf(),
            final(self).textures() == Map::<u32, T>::empty(),
            final(self).handles() == Map::<Seq<char>, u32>::empty(),
            final(self).next() == old(self).next(),
            final(self).textures().dom().finite(),
    {
        self.textures.clear();
        self.name_to_handle.clear();
        assert(self.textures() =~= Map::<u32, T>::empty());
    }
}

} // verus!
