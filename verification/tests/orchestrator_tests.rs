use dbmgr::orchestrator::down_plan;
use dbmgr::orchestrator::reset_plan;
use dbmgr::orchestrator::up_plan;
use dbmgr::orchestrator::Step;

#[test]
fn up_starts_relational_before_cache() {
    assert_eq!(up_plan(), vec![Step::StartRelational, Step::StartCache]);
}

#[test]
fn down_stops_relational_before_cache() {
    assert_eq!(down_plan(), vec![Step::StopRelational, Step::StopCache]);
}

#[test]
fn reset_stops_wipes_and_rebuilds_in_order() {
    // Both services are stopped first, both directories wiped next
    // (emptying them), and only then is the pair re-initialized and
    // restarted (repopulating them).
    assert_eq!(
        reset_plan(),
        vec![
            Step::StopRelational,
            Step::StopCache,
            Step::WipeRelationalData,
            Step::WipeCacheDir,
            Step::InitializeRelational,
            Step::StartRelational,
            Step::StartCache,
        ]
    );
}
