//! Asset browser panel state: the project's assets and the selected one.
use crate::asset::path_from;
use std::path::PathBuf;
use vstd::prelude::*;

verus! {

/// Messages the asset browser panel handles.
#[derive(Debug, Clone)]
pub enum Message {
    AssetSelected(String),
    RefreshAssets,
}

/// An asset listed in the browser.
#[derive(Debug, Clone)]
pub struct Asset {
    pub name: String,
    pub path: PathBuf,
    pub asset_type: AssetType,
}

/// The kinds of assets the browser shows.
#[derive(Debug, Clone, Copy, PartialEq, Eq, Structural)]
pub enum AssetType {
    Mesh,
    Material,
    Texture,
    Shader,
    Script,
    Other,
}

impl AssetType {
    /// The icon shown beside an asset of this type.
    pub open spec fn spec_icon(self) -> Seq<char> {
        match self {
            AssetType::Mesh => "📦"@,
            AssetType::Material => "🎨"@,
            AssetType::Texture => "🖼️"@,
            AssetType::Shader => "✨"@,
            AssetType::Script => "📜"@,
            AssetType::Other => "📄"@,
        }
    }

    /// The icon shown beside an asset of this type.
    pub fn icon(&self) -> (r: &str)
        ensures
            r@ == self.spec_icon(),
    {
        match self {
            AssetType::Mesh => "📦",
            AssetType::Material => "🎨",
            AssetType::Texture => "🖼️",
            AssetType::Shader => "✨",
            AssetType::Script => "📜",
            AssetType::Other => "📄",
        }
    }
}

/// The asset browser panel.
pub struct AssetBrowser {
    assets: Vec<Asset>,
    selected: Option<String>,
    asset_path: PathBuf,
}

impl Default for AssetBrowser {
    fn default() -> (b: Self)
        ensures
            b.assets() == Seq::<Asset>::empty(),
            b.selected() is None,
    {
        AssetBrowser { assets: Vec::new(), selected: None, asset_path: path_from("assets") }
    }
}

impl AssetBrowser {
    /// The assets listed, in order of addition.
    pub closed spec fn assets(&self) -> Seq<Asset> {
        self.assets@
    }

    /// The name of the selected asset, if any.
    pub closed spec fn selected(&self) -> Option<Seq<char>> {
        match self.selected {
            Some(s) => Some(s@),
            None => None,
        }
    }

    /// The directory the browser shows.
    pub closed spec fn path(&self) -> PathBuf {
        self.asset_path
    }

    /// Create a browser of the assets under `asset_path`.
    pub fn new(asset_path: PathBuf) -> (b: Self)
        ensures
            b.assets() == Seq::<Asset>::empty(),
            b.selected() is None,
            b.path() == asset_path,
    {
        let mut browser = AssetBrowser { assets: Vec::new(), selected: None, asset_path };
        browser.refresh_assets();
        browser
    }

    /// Handle a message: select an asset by name, or refresh the list.
    pub fn update(&mut self, message: Message)
        ensures
            final(self).assets() == old(self).assets(),
            final(self).path() == old(self).path(),
            match message {
                Message::AssetSelected(name) => final(self).selected() == Some(name@),
                Message::RefreshAssets => final(self).selected() == old(self).selected(),
            },
    {
        match message {
            Message::AssetSelected(name) => {
                self.selected = Some(name);
            },
            Message::RefreshAssets => {
                self.refresh_assets();
            },
        }
    }

    /// Rescan the asset directory; the assets are those added by hand, so
    /// the list stays as it is.
    fn refresh_assets(&mut self)
        ensures
            final(self).assets() == old(self).assets(),
            final(self).selected() == old(self).selected(),
            final(self).path() == old(self).path(),
    {
    }

    /// Add an asset at the end of the list.
    pub fn add_asset(&mut self, name: String, path: PathBuf, asset_type: AssetType)
        ensures
            final(self).assets().len() == old(self).assets().len() + 1,
            final(self).assets().drop_last() == old(self).assets(),
            final(self).assets().last().name@ == name@,
            final(self).assets().last().path == path,
            final(self).assets().last().asset_type == asset_type,
            final(self).selected() == old(self).selected(),
            final(self).path() == old(self).path(),
    {
        self.assets.push(Asset { name, path, asset_type });
        assert(self.assets@.drop_last() =~= old(self).assets@);
    }

    /// The selected asset: the first asset that bears the selected name.
    pub fn selected_asset(&self) -> (r: Option<&Asset>)
        ensures
            match r {
                None => match self.selected() {
                    None => true,
                    Some(name) => forall|j: int| 0 <= j < self.assets().len() ==> self.assets()[j].name@ != name,
                },
                Some(a) => match self.selected() {
                    None => false,
                    Some(name) => exists|i: int| 0 <= i < self.assets().len() && self.assets()[i] == *a
                        && a.name@ == name
                        && forall|j: int| 0 <= j < i ==> self.assets()[j].name@ != name,
                },
            },
    {
        match &self.selected {
            None => None,
            Some(name) => {
                let mut i: usize = 0;
                while i < self.assets.len()
                    invariant
                        i <= self.assets@.len(),
                        self.selected() == Some(name@),
                        forall|j: int| 0 <= j < i ==> self.assets@[j].name@ != name@,
                    decreases self.assets@.len() - i,
                {
                    if self.assets[i].name == *name {
                        let found = &self.assets[i];
                        proof {
                            assert(self.assets()[i as int] == *found);
                            assert(self.selected() == Some(name@));
                            assert(found.name@ == name@);
                            assert(forall|j: int| 0 <= j < i ==> self.assets()[j].name@ != name@);
                        }
                        return Some(found);
                    }
                    i = i + 1;
                }
                None
            },
        }
    }

    /// The assets listed, in order of addition.
    pub fn listed_assets(&self) -> (r: &[Asset])
        ensures
            r@ == self.assets(),
    {
        self.assets.as_slice()
    }

    /// The number of assets listed.
    pub fn asset_count(&self) -> (n: usize)
        ensures
            n == self.assets().len(),
    {
        self.assets.len()
    }
}

} // verus!
