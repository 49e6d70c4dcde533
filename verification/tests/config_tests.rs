use sandbox::config::ClearUsage;
use sandbox::config::Config;
use sandbox::config::ControllerPath;
use sandbox::config::Environment;
use sandbox::config::Interactive;
use sandbox::config::Limits;
use sandbox::config::Mount;
use sandbox::config::MountOptions;
use sandbox::config::ShareNet;
use sandbox::config::SpaceUsage;
use sandbox::config::SwapRedirects;
use sandbox::config::TimeSpan;

#[test]
fn space_usage_decimal_constructors() {
    assert_eq!(SpaceUsage::from_bytes(123).as_bytes(), 123);
    assert_eq!(SpaceUsage::from_kilobytes(3).as_bytes(), 3_000);
    assert_eq!(SpaceUsage::from_megabytes(2).as_bytes(), 2_000_000);
    assert_eq!(SpaceUsage::from_gigabytes(5).as_bytes(), 5_000_000_000);
}

#[test]
fn space_usage_binary_constructors() {
    assert_eq!(SpaceUsage::from_kibibytes(7).as_bytes(), 7 * 1024);
    assert_eq!(SpaceUsage::from_mebibytes(3).as_bytes(), 3 * 1024 * 1024);
    assert_eq!(SpaceUsage::from_gibibytes(2).as_bytes(), 2 * 1024 * 1024 * 1024);
}

#[test]
fn space_usage_as_kilobytes_rounds_down() {
    assert_eq!(SpaceUsage::from_bytes(2500).as_kilobytes(), 2);
    assert_eq!(SpaceUsage::from_bytes(999).as_kilobytes(), 0);
}

#[test]
fn space_usage_orders_on_raw_bytes() {
    assert!(SpaceUsage::from_bytes(1) < SpaceUsage::from_bytes(2));
    assert_eq!(SpaceUsage::from_kilobytes(1), SpaceUsage::from_bytes(1000));
    assert!(SpaceUsage::from_kilobytes(1) < SpaceUsage::from_kibibytes(1));
}

#[test]
fn display_picks_binary_units() {
    assert_eq!(SpaceUsage::from_bytes(1073741824).display_string(), "1 gibibytes");
    assert_eq!(SpaceUsage::from_bytes(5 * 1048576).display_string(), "5 mebibytes");
    assert_eq!(SpaceUsage::from_bytes(2048).display_string(), "2 kibibytes");
}

#[test]
fn display_picks_decimal_units() {
    assert_eq!(SpaceUsage::from_bytes(1_000_000_000).display_string(), "1 gigabytes");
    assert_eq!(SpaceUsage::from_bytes(3_000_000).display_string(), "3 megabytes");
    assert_eq!(SpaceUsage::from_bytes(5_000).display_string(), "5 kilobytes");
    assert_eq!(SpaceUsage::from_bytes(123).display_string(), "123 bytes");
}

#[test]
fn display_prefers_binary_over_decimal() {
    // 1024000 divides by both 1024 and 1000; the binary unit wins.
    assert_eq!(SpaceUsage::from_bytes(1_024_000).display_string(), "1000 kibibytes");
}

#[test]
fn display_of_zero_uses_the_largest_unit() {
    assert_eq!(SpaceUsage::from_bytes(0).display_string(), "0 gibibytes");
}

#[test]
fn time_span_constructors() {
    assert_eq!(TimeSpan::from_nanoseconds(17).as_nanoseconds(), 17);
    assert_eq!(TimeSpan::from_milliseconds(100).as_nanoseconds(), 100_000_000);
    assert_eq!(TimeSpan::from_seconds(2).as_nanoseconds(), 2_000_000_000);
    assert!(TimeSpan::from_milliseconds(1) < TimeSpan::from_seconds(1));
}

#[test]
fn limits_keeps_every_cap() {
    let limits = Limits::new(
        Some(TimeSpan::from_seconds(10)),
        Some(TimeSpan::from_seconds(5)),
        Some(SpaceUsage::from_mebibytes(64)),
        Some(SpaceUsage::from_mebibytes(8)),
        Some(16),
    );
    assert_eq!(limits.wall_time(), Some(TimeSpan::from_seconds(10)));
    assert_eq!(limits.user_time(), Some(TimeSpan::from_seconds(5)));
    assert_eq!(limits.memory(), Some(SpaceUsage::from_mebibytes(64)));
    assert_eq!(limits.stack(), Some(SpaceUsage::from_mebibytes(8)));
    assert_eq!(limits.pids(), Some(16));
}

#[test]
fn limits_default_enforces_nothing() {
    let limits = Limits::default();
    assert_eq!(limits.wall_time(), None);
    assert_eq!(limits.user_time(), None);
    assert_eq!(limits.memory(), None);
    assert_eq!(limits.stack(), None);
    assert_eq!(limits.pids(), None);
}

#[test]
fn controller_path_keeps_each_controller() {
    let paths = ControllerPath::new(
        Some(String::from("/sys/fs/cgroup/cpuacct")),
        None,
        Some(String::from("/sys/fs/cgroup/pids")),
    );
    assert_eq!(paths.cpuacct(), Some(&String::from("/sys/fs/cgroup/cpuacct")));
    assert_eq!(paths.memory(), None);
    assert_eq!(paths.pids(), Some(&String::from("/sys/fs/cgroup/pids")));
    let absent = ControllerPath::default();
    assert_eq!(absent.cpuacct(), None);
    assert_eq!(absent.memory(), None);
    assert_eq!(absent.pids(), None);
}

#[test]
fn mount_options_default_is_locked_down() {
    let options = MountOptions::default();
    assert!(options.read_only());
    assert!(!options.dev());
    assert!(!options.exec_allowed());
}

#[test]
fn mount_options_setters_change_one_flag_each() {
    let mut options = MountOptions::default();
    options.set_read_only(false);
    assert!(!options.read_only());
    assert!(!options.dev());
    assert!(!options.exec_allowed());
    options.set_dev(true);
    assert!(options.dev());
    assert!(!options.exec_allowed());
    options.set_exec(true);
    assert!(options.exec_allowed());
    assert!(!options.read_only());
}

#[test]
fn mount_keeps_its_triple() {
    let mount = Mount::new(
        String::from("/usr"),
        String::from("usr"),
        MountOptions::default(),
    );
    assert_eq!(mount.source(), "/usr");
    assert_eq!(mount.destination(), "usr");
    assert_eq!(mount.mount_options(), MountOptions::default());
}

#[test]
fn enum_defaults_match_the_documented_choices() {
    assert_eq!(ShareNet::default(), ShareNet::Unshare);
    assert_eq!(SwapRedirects::default(), SwapRedirects::No);
    assert_eq!(ClearUsage::default(), ClearUsage::Yes);
    assert_eq!(Interactive::default(), Interactive::No);
    assert_eq!(Environment::default(), Environment::EnvList(Vec::new()));
}

#[test]
fn config_keeps_every_field() {
    let config = Config::new(
        String::from("/bin/hello_world"),
        vec![String::from("24"), String::from("0"), String::from("17")],
        Some(String::from("/srv/jail")),
        ShareNet::Share,
        Some(String::from("input")),
        Some(String::from("output")),
        None,
        Limits::new(Some(TimeSpan::from_milliseconds(100)), None, None, None, None),
        Some(String::from("run-1")),
        ControllerPath::default(),
        vec![Mount::new(
            String::from("/usr"),
            String::from("usr"),
            MountOptions::default(),
        )],
        SwapRedirects::Yes,
        ClearUsage::No,
        Interactive::Yes,
        Environment::Forward,
    );
    assert_eq!(config.command(), "/bin/hello_world");
    assert_eq!(config.args().len(), 3);
    assert_eq!(config.args()[2], "17");
    assert_eq!(config.new_root(), Some(&String::from("/srv/jail")));
    assert_eq!(config.share_net(), ShareNet::Share);
    assert_eq!(config.redirect_stdin(), Some(&String::from("input")));
    assert_eq!(config.redirect_stdout(), Some(&String::from("output")));
    assert_eq!(config.redirect_stderr(), None);
    assert_eq!(config.limits().wall_time(), Some(TimeSpan::from_milliseconds(100)));
    assert_eq!(config.instance_name(), Some(&String::from("run-1")));
    assert_eq!(config.controller_path(), &ControllerPath::default());
    assert_eq!(config.mounts().len(), 1);
    assert_eq!(config.mounts()[0].destination(), "usr");
    assert_eq!(config.swap_redirects(), SwapRedirects::Yes);
    assert_eq!(config.clear_usage(), ClearUsage::No);
    assert_eq!(config.interactive(), Interactive::Yes);
    assert_eq!(config.environment(), &Environment::Forward);
}
