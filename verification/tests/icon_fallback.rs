use chill_overlay::icon::{IconSearch, IconSource};

fn search(external_loads: bool, bundled_loads: bool) -> (IconSearch, Vec<IconSource>) {
    let mut tried = Vec::new();
    let mut state = IconSearch::start();
    while let IconSearch::Attempt { source } = state {
        tried.push(source);
        let loaded = match source {
            IconSource::ExternalFile => external_loads,
            IconSource::BundledResource => bundled_loads,
        };
        state = state.advance(loaded);
    }
    (state, tried)
}

#[test]
fn the_external_file_is_tried_first() {
    assert_eq!(IconSearch::start(), IconSearch::Attempt { source: IconSource::ExternalFile });
}

#[test]
fn a_loading_external_file_is_used() {
    let (end, tried) = search(true, true);
    assert_eq!(end, IconSearch::Loaded { source: IconSource::ExternalFile });
    assert_eq!(tried, vec![IconSource::ExternalFile]);
    let (end, tried) = search(true, false);
    assert_eq!(end, IconSearch::Loaded { source: IconSource::ExternalFile });
    assert_eq!(tried, vec![IconSource::ExternalFile]);
}

#[test]
fn a_failing_external_file_falls_back_to_the_bundled_resource() {
    let (end, tried) = search(false, true);
    assert_eq!(end, IconSearch::Loaded { source: IconSource::BundledResource });
    assert_eq!(tried, vec![IconSource::ExternalFile, IconSource::BundledResource]);
}

#[test]
fn two_failures_are_fatal() {
    let (end, tried) = search(false, false);
    assert_eq!(end, IconSearch::Failed);
    assert_eq!(tried, vec![IconSource::ExternalFile, IconSource::BundledResource]);
}

#[test]
fn each_step_follows_the_attempt() {
    let external = IconSearch::Attempt { source: IconSource::ExternalFile };
    let bundled = IconSearch::Attempt { source: IconSource::BundledResource };
    assert_eq!(external.advance(true), IconSearch::Loaded { source: IconSource::ExternalFile });
    assert_eq!(external.advance(false), bundled);
    assert_eq!(bundled.advance(true), IconSearch::Loaded { source: IconSource::BundledResource });
    assert_eq!(bundled.advance(false), IconSearch::Failed);
}

#[test]
fn a_finished_search_stays_as_it_is() {
    let loaded = IconSearch::Loaded { source: IconSource::BundledResource };
    assert_eq!(loaded.advance(true), loaded);
    assert_eq!(loaded.advance(false), loaded);
    assert_eq!(IconSearch::Failed.advance(true), IconSearch::Failed);
    assert_eq!(IconSearch::Failed.advance(false), IconSearch::Failed);
}
