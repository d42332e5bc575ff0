use ion_core::util::text::decimal;
use ion_core::util::{
    Directory, DirectoryAction, DirectoryError, DirectoryReport, DirectoryRole, DirectoryStatus,
    Version,
};

#[test]
fn version_to_string() {
    assert_eq!(Version { major: 1, minor: 2, patch: 3 }.to_string(), "1.2.3");
    assert_eq!(Version::new().to_string(), "0.0.0");
    assert_eq!(Version { major: 10, minor: 0, patch: 907 }.to_string(), "10.0.907");
    assert_eq!(Version { major: -1, minor: 20, patch: -300 }.to_string(), "-1.20.-300");
    assert_eq!(
        Version { major: i32::MAX, minor: i32::MIN, patch: 0 }.to_string(),
        "2147483647.-2147483648.0"
    );
}

#[test]
fn version_defaults_to_zero() {
    assert_eq!(Version::new(), Version { major: 0, minor: 0, patch: 0 });
    assert_eq!(Version::default(), Version::new());
}

#[test]
fn version_order() {
    let v = |major, minor, patch| Version { major, minor, patch };
    assert!(v(1, 9, 9).is_older_than(&v(2, 0, 0)));
    assert!(v(1, 2, 9).is_older_than(&v(1, 3, 0)));
    assert!(v(1, 2, 3).is_older_than(&v(1, 2, 4)));
    assert!(!v(1, 2, 3).is_older_than(&v(1, 2, 3)));
    assert!(!v(2, 0, 0).is_older_than(&v(1, 9, 9)));
    assert!(!v(1, 3, 0).is_older_than(&v(1, 2, 9)));
    let versions = [v(0, 0, 0), v(0, 0, 1), v(0, 1, 0), v(1, 0, 0), v(1, 2, 3), v(-1, 5, 5)];
    for a in versions {
        for b in versions {
            assert_eq!(a < b, a.is_older_than(&b));
        }
    }
}

#[test]
fn decimal_notation() {
    assert_eq!(decimal(0), "0");
    assert_eq!(decimal(7), "7");
    assert_eq!(decimal(10), "10");
    assert_eq!(decimal(1234567890), "1234567890");
    assert_eq!(decimal(-5), "-5");
    assert_eq!(decimal(i32::MIN), "-2147483648");
    for n in [-1000, -99, -10, -9, 9, 99, 100, 101, 4096, 65535] {
        assert_eq!(decimal(n), format!("{}", n));
    }
}

#[test]
fn fixed_directories() {
    assert_eq!(Directory::get_resource_directory(), "res/");
    assert_eq!(Directory::get_binary_directory(), "bin/");
    assert_eq!(Directory::get_plugin_directory(), "bin/plugins/");
    assert_eq!(Directory::get_config_directory(), "config/");
}

#[test]
fn persistent_directories() {
    assert_eq!(
        Directory::get_persistent_data_directory("/home/kay", "ionProject", "ionSandbox"),
        "/home/kay/.ionProject/ionSandbox/"
    );
    assert_eq!(
        Directory::get_persistent_config_directory("/home/kay", "ionProject", "ionSandbox"),
        "/home/kay/.ionProject/ionSandbox/config/"
    );
    assert_eq!(Directory::get_persistent_data_directory("", "", ""), "/.//");
}

#[test]
fn directory_of_each_role() {
    let get = |role| Directory::get_directory(role, "/h", "dev", "app");
    assert_eq!(get(DirectoryRole::Resource), "res/");
    assert_eq!(get(DirectoryRole::Binary), "bin/");
    assert_eq!(get(DirectoryRole::Plugin), "bin/plugins/");
    assert_eq!(get(DirectoryRole::Config), "config/");
    assert_eq!(get(DirectoryRole::PersistentData), "/h/.dev/app/");
    assert_eq!(get(DirectoryRole::PersistentConfig), "/h/.dev/app/config/");
}

#[test]
fn required_directories_are_the_read_only_ones() {
    assert!(DirectoryRole::Resource.is_required());
    assert!(DirectoryRole::Binary.is_required());
    assert!(DirectoryRole::Plugin.is_required());
    assert!(DirectoryRole::Config.is_required());
    assert!(!DirectoryRole::PersistentData.is_required());
    assert!(!DirectoryRole::PersistentConfig.is_required());
}

#[test]
fn plan_for_a_directory() {
    assert_eq!(Directory::plan(DirectoryRole::Resource, true), DirectoryAction::Proceed);
    assert_eq!(Directory::plan(DirectoryRole::Resource, false), DirectoryAction::Abort);
    assert_eq!(Directory::plan(DirectoryRole::Config, false), DirectoryAction::Abort);
    assert_eq!(Directory::plan(DirectoryRole::PersistentData, true), DirectoryAction::Proceed);
    assert_eq!(Directory::plan(DirectoryRole::PersistentData, false), DirectoryAction::Create);
    assert_eq!(Directory::plan(DirectoryRole::PersistentConfig, false), DirectoryAction::Create);
}

#[test]
fn check_passes_when_every_directory_serves() {
    assert_eq!(Directory::check(&DirectoryReport::all_present()), Ok(()));
    let mut report = DirectoryReport::all_present();
    report.persistent_data = DirectoryStatus::Created;
    report.persistent_config = DirectoryStatus::Created;
    assert_eq!(Directory::check(&report), Ok(()));
}

#[test]
fn check_names_the_first_directory_that_fails() {
    let failed = |role| Err(DirectoryError { role });
    let mut report = DirectoryReport::all_present();
    report.persistent_config = DirectoryStatus::Missing;
    assert_eq!(Directory::check(&report), failed(DirectoryRole::PersistentConfig));
    report.persistent_data = DirectoryStatus::Missing;
    assert_eq!(Directory::check(&report), failed(DirectoryRole::PersistentData));
    report.config = DirectoryStatus::Missing;
    assert_eq!(Directory::check(&report), failed(DirectoryRole::Config));
    report.plugin = DirectoryStatus::Created;
    assert_eq!(Directory::check(&report), failed(DirectoryRole::Plugin));
    report.binary = DirectoryStatus::Missing;
    assert_eq!(Directory::check(&report), failed(DirectoryRole::Binary));
    report.resource = DirectoryStatus::Missing;
    assert_eq!(Directory::check(&report), failed(DirectoryRole::Resource));
}

#[test]
fn status_against_role() {
    assert!(DirectoryStatus::Present.allows(DirectoryRole::Resource));
    assert!(!DirectoryStatus::Created.allows(DirectoryRole::Resource));
    assert!(!DirectoryStatus::Missing.allows(DirectoryRole::Resource));
    assert!(DirectoryStatus::Present.allows(DirectoryRole::PersistentData));
    assert!(DirectoryStatus::Created.allows(DirectoryRole::PersistentData));
    assert!(!DirectoryStatus::Missing.allows(DirectoryRole::PersistentData));
}

#[test]
fn fatal_exit_status_is_not_zero() {
    let error = DirectoryError { role: DirectoryRole::Resource };
    assert_eq!(error.exit_status(), 1);
    assert_ne!(error.exit_status(), 0);
}

#[test]
fn directories_are_looked_at_in_order_until_one_fails() {
    assert_eq!(
        Directory::roles(),
        [
            DirectoryRole::Resource,
            DirectoryRole::Binary,
            DirectoryRole::Plugin,
            DirectoryRole::Config,
            DirectoryRole::PersistentData,
            DirectoryRole::PersistentConfig,
        ]
    );
    let mut report = DirectoryReport::none_present();
    assert_eq!(Directory::check(&report), Err(DirectoryError { role: DirectoryRole::Resource }));
    assert!(report.record(DirectoryRole::Resource, DirectoryStatus::Present));
    assert!(report.record(DirectoryRole::Binary, DirectoryStatus::Present));
    assert!(!report.record(DirectoryRole::Plugin, DirectoryStatus::Missing));
    assert_eq!(report.resource, DirectoryStatus::Present);
    assert_eq!(report.binary, DirectoryStatus::Present);
    assert_eq!(report.persistent_data, DirectoryStatus::Missing);
    assert_eq!(Directory::check(&report), Err(DirectoryError { role: DirectoryRole::Plugin }));
    assert!(!report.record(DirectoryRole::Plugin, DirectoryStatus::Created));
    assert!(report.record(DirectoryRole::Plugin, DirectoryStatus::Present));
    assert!(report.record(DirectoryRole::Config, DirectoryStatus::Present));
    assert!(report.record(DirectoryRole::PersistentData, DirectoryStatus::Created));
    assert!(report.record(DirectoryRole::PersistentConfig, DirectoryStatus::Present));
    assert_eq!(Directory::check(&report), Ok(()));
}
