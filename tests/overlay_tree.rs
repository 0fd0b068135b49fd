use overlay_mount::child::{concat_path, plan_child, relative_path, ChildPlan, EntryKind};
use overlay_mount::guard::AutoMountExt4;
use overlay_mount::options::{lowerdir_option, OverlayOptions};
use overlay_mount::snapshot::{child_mounts, is_nested};
use overlay_mount::strategy::{fallback_plan, first_strategy, next_strategy, MountStrategy};
use overlay_mount::tree::{BuildAction, BuildPhase, TreeBuild};

fn strings(v: &[&str]) -> Vec<String> {
    v.iter().map(|s| s.to_string()).collect()
}

#[test]
fn root_lowerdir_lists_modules_then_stock() {
    let roots = strings(&["/data/m1", "/data/m2"]);
    assert_eq!(lowerdir_option(&roots, "/system"), "/data/m1:/data/m2:/system");
}

#[test]
fn lowerdir_with_no_module_is_the_lowest_alone() {
    assert_eq!(lowerdir_option(&Vec::new(), "/system"), "/system");
}

#[test]
fn vendor_child_gets_nested_overlay_of_first_module() {
    let roots = strings(&["/data/m1", "/data/m2"]);
    let kinds = vec![EntryKind::Directory, EntryKind::Absent];
    let rel = relative_path("/system/vendor", "/system").unwrap();
    assert_eq!(rel, "/vendor");
    match plan_child(&roots, &rel, &kinds, true) {
        ChildPlan::Overlay(dirs) => {
            assert_eq!(dirs, strings(&["/data/m1/vendor"]));
            assert_eq!(lowerdir_option(&dirs, "/system/vendor"), "/data/m1/vendor:/system/vendor");
        }
        other => panic!("unexpected plan {:?}", other),
    }
}

#[test]
fn plain_file_masks_vendor_child() {
    let roots = strings(&["/data/m1", "/data/m2"]);
    let kinds = vec![EntryKind::Directory, EntryKind::Other];
    assert!(matches!(plan_child(&roots, "/vendor", &kinds, true), ChildPlan::Leave));
    let kinds = vec![EntryKind::Other, EntryKind::Absent];
    assert!(matches!(plan_child(&roots, "/vendor", &kinds, true), ChildPlan::Leave));
}

#[test]
fn untouched_child_is_bound_back() {
    let roots = strings(&["/data/m1", "/data/m2"]);
    let kinds = vec![EntryKind::Absent, EntryKind::Absent];
    assert!(matches!(plan_child(&roots, "/odm", &kinds, true), ChildPlan::Bind));
    assert!(matches!(plan_child(&Vec::new(), "/odm", &Vec::new(), false), ChildPlan::Bind));
}

#[test]
fn non_directory_stock_child_is_left_alone() {
    let roots = strings(&["/data/m1"]);
    let kinds = vec![EntryKind::Directory];
    assert!(matches!(plan_child(&roots, "/vendor", &kinds, false), ChildPlan::Leave));
}

#[test]
fn overlay_keeps_module_priority_order() {
    let roots = strings(&["/data/a", "/data/b", "/data/c"]);
    let kinds = vec![EntryKind::Directory, EntryKind::Absent, EntryKind::Directory];
    match plan_child(&roots, "/product", &kinds, true) {
        ChildPlan::Overlay(dirs) => assert_eq!(dirs, strings(&["/data/a/product", "/data/c/product"])),
        other => panic!("unexpected plan {:?}", other),
    }
}

#[test]
fn snapshot_keeps_children_sorted_and_once() {
    let table = strings(&[
        "/",
        "/system/vendor",
        "/system",
        "/data",
        "/system/odm",
        "/system/vendor",
        "/system/",
        "/system_ext",
    ]);
    assert_eq!(child_mounts(&table, "/system"), strings(&["/system/odm", "/system/vendor"]));
    assert!(child_mounts(&Vec::new(), "/system").is_empty());
}

#[test]
fn nested_is_a_textual_prefix_below_root() {
    assert!(is_nested("/system/vendor", "/system"));
    assert!(!is_nested("/system", "/system"));
    assert!(!is_nested("/system//", "/system"));
    assert!(!is_nested("/", "/system"));
    assert!(!is_nested("/system_ext", "/system"));
    assert!(!is_nested("/vendor_dlkm", "/vendor"));
    assert!(is_nested("/system/vendor", "/system/"));
    assert!(is_nested("/system", "/"));
}

#[test]
fn relative_path_needs_the_root_prefix() {
    assert_eq!(relative_path("/system/vendor/lib", "/system").unwrap(), "/vendor/lib");
    assert!(relative_path("/vendor", "/system").is_none());
    assert_eq!(concat_path(".", "/vendor"), "./vendor");
}

#[test]
fn writable_overlay_needs_both_upper_and_work() {
    let roots = strings(&["/data/m1"]);
    let o = OverlayOptions::new(
        "APatch",
        &roots,
        "/system",
        Some("/up".to_string()),
        Some("/wk".to_string()),
    );
    assert!(o.is_writable());
    let settings = o.settings();
    assert_eq!(settings.len(), 4);
    assert_eq!(settings[3], ("source".to_string(), "APatch".to_string()));
    assert_eq!(settings[0], ("lowerdir".to_string(), "/data/m1:/system".to_string()));
    assert_eq!(settings[1], ("upperdir".to_string(), "/up".to_string()));
    assert_eq!(settings[2], ("workdir".to_string(), "/wk".to_string()));
    assert_eq!(o.legacy_data(), "lowerdir=/data/m1:/system,upperdir=/up,workdir=/wk");

    let o = OverlayOptions::new("APatch", &roots, "/system", Some("/up".to_string()), None);
    assert!(!o.is_writable());
    assert_eq!(o.settings().len(), 2);
    assert_eq!(o.legacy_data(), "lowerdir=/data/m1:/system");
}

#[test]
fn legacy_data_carries_the_context_settings() {
    let roots = strings(&["/a", "/b"]);
    let o = OverlayOptions::new("ovl", &roots, "/c", Some("/u".to_string()), Some("/w".to_string()));
    let mut settings = o.settings();
    let source = settings.pop().unwrap();
    assert_eq!(source, ("source".to_string(), o.source.clone()));
    assert_eq!(o.source, "ovl");
    let joined: Vec<String> = settings.iter().map(|(k, v)| format!("{k}={v}")).collect();
    assert_eq!(o.legacy_data(), joined.join(","));
}

#[test]
fn failed_child_unmounts_root_then_fails() {
    let mut b = TreeBuild::new(strings(&["/system/odm", "/system/vendor"]));
    assert_eq!(b.next_action(), BuildAction::MountRoot);
    b.record(true);
    assert_eq!(b.next_action(), BuildAction::Child(0));
    b.record(true);
    assert_eq!(b.next_action(), BuildAction::Child(1));
    b.record(false);
    assert_eq!(b.next_action(), BuildAction::UnmountRoot);
    b.record(true);
    assert_eq!(b.next_action(), BuildAction::Fail);
    assert!(b.is_done());
    assert_eq!(b.phase, BuildPhase::Failed);
}

#[test]
fn build_succeeds_after_every_child() {
    let mut b = TreeBuild::new(strings(&["/system/vendor"]));
    b.record(true);
    b.record(true);
    assert_eq!(b.next_action(), BuildAction::Succeed);
    b.record(true);
    assert!(b.is_done());
    assert_eq!(b.phase, BuildPhase::Finished);
}

#[test]
fn failed_root_mount_aborts_without_revert() {
    let mut b = TreeBuild::new(strings(&["/system/vendor"]));
    b.record(false);
    assert_eq!(b.next_action(), BuildAction::Fail);
}

#[test]
fn failed_revert_keeps_root_recorded_as_mounted() {
    let mut b = TreeBuild::new(strings(&["/system/vendor"]));
    b.record(true);
    b.record(false);
    assert_eq!(b.next_action(), BuildAction::UnmountRoot);
    b.record(false);
    assert_eq!(b.phase, BuildPhase::RevertFailed);
    assert_eq!(b.next_action(), BuildAction::Fail);
    assert!(b.is_done());
}

#[test]
fn context_mount_falls_back_to_legacy_once() {
    assert_eq!(first_strategy(), MountStrategy::Context);
    assert_eq!(next_strategy(MountStrategy::Context), Some(MountStrategy::Legacy));
    assert_eq!(next_strategy(MountStrategy::Legacy), None);
}

#[test]
fn failed_nested_overlay_falls_back_to_bind() {
    let plan = ChildPlan::Overlay(strings(&["/data/m1/vendor"]));
    assert!(matches!(fallback_plan(&plan), Some(ChildPlan::Bind)));
    assert!(fallback_plan(&ChildPlan::Bind).is_none());
}

#[test]
fn guard_releases_at_most_once() {
    let mut g = AutoMountExt4::mounted("/mnt/img", true);
    assert_eq!(g.target(), "/mnt/img");
    assert!(g.auto_umount());
    assert!(g.end_scope());
    assert!(!g.end_scope());
    let mut g = AutoMountExt4::mounted("/mnt/img", false);
    assert!(!g.end_scope());
}

#[test]
fn explicit_release_prevents_unmount_at_scope_end() {
    let mut g = AutoMountExt4::mounted("/mnt/img", true);
    assert!(g.release());
    assert!(!g.release());
    assert!(!g.end_scope());
    assert_eq!(g.target(), "/mnt/img");
}
