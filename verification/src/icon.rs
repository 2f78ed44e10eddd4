//! Choice of the tray icon.
//!
//! The icon is first looked for in a file beside the application. If it
//! cannot be read or decoded there, the image bundled with the program is
//! used. If that fails too, there is no icon, and startup must not go on.

use vstd::prelude::*;

verus! {

/// Where a tray icon can come from.
#[derive(Clone, Copy, Debug, PartialEq, Eq, Structural)]
pub enum IconSource {
    /// The image file beside the application.
    ExternalFile,
    /// The image bundled with the program.
    BundledResource,
}

/// How far the search for a tray icon has come.
#[derive(Clone, Copy, Debug, PartialEq, Eq, Structural)]
pub enum IconSearch {
    /// The host is to load the icon from this source and report the outcome.
    Attempt { source: IconSource },
    /// The icon from this source is in use.
    Loaded { source: IconSource },
    /// No source gave an icon: startup fails.
    Failed,
}

/// The state that follows `search` once the attempt it asks for has been made:
/// `loaded` says whether the source gave an icon. A search that has ended stays
/// as it is.
pub open spec fn icon_search_after(search: IconSearch, loaded: bool) -> IconSearch {
    match search {
        IconSearch::Attempt { source } => if loaded {
            IconSearch::Loaded { source }
        } else {
            match source {
                IconSource::ExternalFile => IconSearch::Attempt {
                    source: IconSource::BundledResource,
                },
                IconSource::BundledResource => IconSearch::Failed,
            }
        },
        _ => search,
    }
}

/// Where the search ends, given for each source whether it gives an icon. The
/// bundled resource is tried only after the external file has failed.
pub open spec fn icon_search_result(external_loads: bool, bundled_loads: bool) -> IconSearch {
    let first = icon_search_after(
        IconSearch::Attempt { source: IconSource::ExternalFile },
        external_loads,
    );
    if first is Attempt {
        icon_search_after(first, bundled_loads)
    } else {
        first
    }
}

impl IconSearch {
    /// The start of the search: the external file is tried first.
    pub fn start() -> (search: IconSearch)
        ensures
            search == (IconSearch::Attempt { source: IconSource::ExternalFile }),
    {
        IconSearch::Attempt { source: IconSource::ExternalFile }
    }

    /// Takes in the outcome of the attempt that this state asked for.
    pub fn advance(self, loaded: bool) -> (next: IconSearch)
        ensures
            next == icon_search_after(self, loaded),
    {
        match self {
            IconSearch::Attempt { source } => {
                if loaded {
                    IconSearch::Loaded { source }
                } else {
                    match source {
                        IconSource::ExternalFile => IconSearch::Attempt {
                            source: IconSource::BundledResource,
                        },
                        IconSource::BundledResource => IconSearch::Failed,
                    }
                }
            },
            _ => self,
        }
    }
}

/// The search ends after at most two attempts. It takes the external file
/// when that loads, the bundled resource when only that loads, and fails
/// exactly when neither loads.
pub proof fn icon_search_falls_back_once(external_loads: bool, bundled_loads: bool)
    ensures
        !(icon_search_result(external_loads, bundled_loads) is Attempt),
        external_loads ==> icon_search_result(external_loads, bundled_loads) == (IconSearch::Loaded {
            source: IconSource::ExternalFile,
        }),
        !external_loads && bundled_loads ==> icon_search_result(external_loads, bundled_loads) == (
        IconSearch::Loaded { source: IconSource::BundledResource }),
        icon_search_result(external_loads, bundled_loads) is Failed <==> !external_loads
            && !bundled_loads,
{
}

} // verus!
