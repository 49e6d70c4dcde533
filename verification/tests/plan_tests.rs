use sandbox::config::Mount;
use sandbox::config::MountOptions;
use sandbox::decimal::u64_to_decimal;
use sandbox::plan::plan_mounts;
use sandbox::plan::MountStep;

#[test]
fn no_mounts_still_mounts_proc() {
    let steps = plan_mounts(&Vec::new());
    assert_eq!(steps, vec![MountStep::MountProc]);
}

#[test]
fn a_read_only_mount_expands_to_four_steps() {
    let mounts = vec![Mount::new(
        String::from("/usr"),
        String::from("usr"),
        MountOptions::default(),
    )];
    let steps = plan_mounts(&mounts);
    assert_eq!(
        steps,
        vec![
            MountStep::PrepareDestination { destination: String::from("usr") },
            MountStep::Bind { source: String::from("/usr"), destination: String::from("usr") },
            MountStep::RemountReadOnly { destination: String::from("usr") },
            MountStep::SetFlags {
                destination: String::from("usr"),
                no_dev: true,
                no_exec: true,
                no_suid: true,
            },
            MountStep::MountProc,
        ]
    );
}

#[test]
fn a_writable_dev_exec_mount_skips_the_remount() {
    let mut options = MountOptions::default();
    options.set_read_only(false);
    options.set_dev(true);
    options.set_exec(true);
    let mounts = vec![Mount::new(String::from("/dev"), String::from("dev"), options)];
    let steps = plan_mounts(&mounts);
    assert_eq!(
        steps,
        vec![
            MountStep::PrepareDestination { destination: String::from("dev") },
            MountStep::Bind { source: String::from("/dev"), destination: String::from("dev") },
            MountStep::SetFlags {
                destination: String::from("dev"),
                no_dev: false,
                no_exec: false,
                no_suid: true,
            },
            MountStep::MountProc,
        ]
    );
}

#[test]
fn mounts_are_planned_in_the_order_given() {
    let mut writable = MountOptions::default();
    writable.set_read_only(false);
    let mounts = vec![
        Mount::new(String::from("/usr"), String::from("usr"), MountOptions::default()),
        Mount::new(String::from("/tmp/scratch"), String::from("tmp"), writable),
    ];
    let steps = plan_mounts(&mounts);
    assert_eq!(steps.len(), 4 + 3 + 1);
    assert_eq!(
        steps[0],
        MountStep::PrepareDestination { destination: String::from("usr") }
    );
    assert_eq!(
        steps[4],
        MountStep::PrepareDestination { destination: String::from("tmp") }
    );
    assert_eq!(
        steps[5],
        MountStep::Bind {
            source: String::from("/tmp/scratch"),
            destination: String::from("tmp"),
        }
    );
    assert_eq!(steps[7], MountStep::MountProc);
}

#[test]
fn decimal_rendering_has_no_leading_zeros() {
    assert_eq!(u64_to_decimal(0), "0");
    assert_eq!(u64_to_decimal(9), "9");
    assert_eq!(u64_to_decimal(10), "10");
    assert_eq!(u64_to_decimal(12345), "12345");
    assert_eq!(u64_to_decimal(u64::MAX), "18446744073709551615");
}
