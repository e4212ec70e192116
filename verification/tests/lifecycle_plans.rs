use secret_box::{
    align_region, construction_plan, expose_plan, release_plan, teardown_plan, PlatformAction,
    Protection, Region,
};

fn sample_region() -> Region {
    align_region(4096, 100, 4096)
}

#[test]
fn test_construction_plan_excludes_pins_then_denies() {
    let r = sample_region();
    let p = construction_plan(r);
    assert_eq!(p.len(), 3);
    assert_eq!(p[0], PlatformAction::ExcludeFromDumps(r));
    assert_eq!(p[1], PlatformAction::Pin(r));
    assert_eq!(p[2], PlatformAction::SetProtection(r, Protection::NoAccess));
}

#[test]
fn test_teardown_plan_wipes_once_before_unpin() {
    let r = sample_region();
    let p = teardown_plan(r);
    assert_eq!(p.len(), 4);
    assert_eq!(p[0], PlatformAction::SetProtection(r, Protection::ReadWrite));
    assert_eq!(p[1], PlatformAction::WipeSecret(r));
    assert_eq!(p[2], PlatformAction::Unpin(r));
    assert_eq!(p[3], PlatformAction::IncludeInDumps(r));
    let wipes = p
        .iter()
        .filter(|a| matches!(a, PlatformAction::WipeSecret(_)))
        .count();
    assert_eq!(wipes, 1);
}

#[test]
fn test_expose_plan_raises_to_requested_level() {
    let r = sample_region();
    let p = expose_plan(r, Protection::ReadOnly);
    assert_eq!(p.len(), 1);
    assert_eq!(p[0], PlatformAction::SetProtection(r, Protection::ReadOnly));

    let p = expose_plan(r, Protection::ReadWrite);
    assert_eq!(p.len(), 1);
    assert_eq!(p[0], PlatformAction::SetProtection(r, Protection::ReadWrite));
}

#[test]
fn test_release_plan_denies_again() {
    let r = sample_region();
    let p = release_plan(r);
    assert_eq!(p.len(), 1);
    assert_eq!(p[0], PlatformAction::SetProtection(r, Protection::NoAccess));
}
