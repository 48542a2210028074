use vstd::prelude::*;

verus! {

/// One downloadable file of a release.
#[derive(Clone, Debug)]
pub struct Asset {
    pub name: String,
    pub download_url: String,
}

/// A published release: its version and its assets, in the order given.
#[derive(Clone, Debug)]
pub struct Release {
    pub version: String,
    pub assets: Vec<Asset>,
}

/// An asset seen as character sequences.
pub struct AssetView {
    pub name: Seq<char>,
    pub download_url: Seq<char>,
}

/// A release seen as character sequences.
pub struct ReleaseView {
    pub version: Seq<char>,
    pub assets: Seq<AssetView>,
}

impl View for Asset {
    type V = AssetView;

    open spec fn view(&self) -> AssetView {
        AssetView { name: self.name@, download_url: self.download_url@ }
    }
}

impl View for Release {
    type V = ReleaseView;

    open spec fn view(&self) -> ReleaseView {
        ReleaseView { version: self.version@, assets: self.assets@.map_values(|a: Asset| a@) }
    }
}

/// `i` is the position of the first asset named exactly `name`.
pub open spec fn is_first_named(assets: Seq<AssetView>, name: Seq<char>, i: int) -> bool {
    &&& 0 <= i < assets.len()
    &&& assets[i].name == name
    &&& forall|j: int| 0 <= j < i ==> assets[j].name != name
}

/// Some asset is named exactly `name`.
pub open spec fn has_asset_named(assets: Seq<AssetView>, name: Seq<char>) -> bool {
    exists|i: int| 0 <= i < assets.len() && assets[i].name == name
}

/// The position of the first asset named exactly `name`, where there is one.
pub open spec fn first_asset_named(assets: Seq<AssetView>, name: Seq<char>) -> int {
    choose|i: int| is_first_named(assets, name, i)
}

/// There is one first asset of a name, where there is any.
pub proof fn lemma_first_named_unique(assets: Seq<AssetView>, name: Seq<char>, i: int)
    requires
        is_first_named(assets, name, i),
    ensures
        has_asset_named(assets, name),
        first_asset_named(assets, name) == i,
{
    assert(is_first_named(assets, name, first_asset_named(assets, name)));
}

/// Finds the first asset whose name equals `name` exactly (case-sensitive).
pub fn find_asset(assets: &Vec<Asset>, name: &String) -> (r: Option<usize>)
    ensures
        match r {
            Some(i) => is_first_named(assets@.map_values(|a: Asset| a@), name@, i as int),
            None => !has_asset_named(assets@.map_values(|a: Asset| a@), name@),
        },
{
    let ghost views = assets@.map_values(|a: Asset| a@);
    let mut i: usize = 0;
    while i < assets.len()
        invariant
            i <= assets.len(),
            views == assets@.map_values(|a: Asset| a@),
            forall|j: int| 0 <= j < i ==> views[j].name != name@,
        decreases assets.len() - i,
    {
        if assets[i].name == *name {
            return Some(i);
        }
        i = i + 1;
    }
    None
}

} // verus!
