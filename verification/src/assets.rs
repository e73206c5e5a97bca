use vstd::prelude::*;

verus! {

/// The stages of asset loading.
#[derive(Clone, Copy, Debug, PartialEq, Eq, Structural)]
pub enum AssetState {
    Loading,
    Extracting,
    Ready,
}

impl Default for AssetState {
    fn default() -> (s: Self)
        ensures
            s == AssetState::Loading,
    {
        AssetState::Loading
    }
}

/// Where the loading of one asset stands.
#[derive(Clone, Copy, Debug, PartialEq, Eq, Structural)]
pub enum LoadStatus {
    NotLoaded,
    Loading,
    Loaded,
    Failed,
}

/// Every asset is known and loaded.
pub open spec fn all_loaded(statuses: Seq<Option<LoadStatus>>) -> bool {
    forall|i: int| 0 <= i < statuses.len() ==> #[trigger] statuses[i] == Some(LoadStatus::Loaded)
}

/// Loading moves on to extraction once every asset that was asked for is
/// loaded; `None` stands for an asset the server does not know.
pub fn check_load_state(statuses: &Vec<Option<LoadStatus>>) -> (s: Option<AssetState>)
    ensures
        s == (if all_loaded(statuses@) {
            Some(AssetState::Extracting)
        } else {
            None::<AssetState>
        }),
{
    let mut i: usize = 0;
    while i < statuses.len()
        invariant
            i <= statuses@.len(),
            forall|j: int| 0 <= j < i ==> #[trigger] statuses@[j] == Some(LoadStatus::Loaded),
        decreases statuses@.len() - i,
    {
        match statuses[i] {
            Some(LoadStatus::Loaded) => {},
            _ => {
                return None;
            },
        }
        i = i + 1;
    }
    Some(AssetState::Extracting)
}

/// Extraction is done, and the assets are ready, once the scene file can be
/// read; until then extraction waits.
pub fn extract_assets(scene_available: bool) -> (s: Option<AssetState>)
    ensures
        s == (if scene_available {
            Some(AssetState::Ready)
        } else {
            None::<AssetState>
        }),
{
    if scene_available {
        Some(AssetState::Ready)
    } else {
        None
    }
}

} // verus!
