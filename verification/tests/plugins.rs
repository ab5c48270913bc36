use app_bootstrap::plugin::registry;
use app_bootstrap::{assemble, assemble_accumulating, Builder, Platform, Plugin};

const ALL_PLATFORMS: [Platform; 6] = [
    Platform::MacOs,
    Platform::Linux,
    Platform::Windows,
    Platform::Android,
    Platform::Ios,
    Platform::Other,
];

const ALL_PLUGINS: [Plugin; 4] = [Plugin::OsInfo, Plugin::Process, Plugin::Opener, Plugin::Updater];

#[test]
fn desktop_family_is_macos_linux_windows() {
    assert!(Platform::MacOs.is_desktop());
    assert!(Platform::Linux.is_desktop());
    assert!(Platform::Windows.is_desktop());
    assert!(!Platform::Android.is_desktop());
    assert!(!Platform::Ios.is_desktop());
    assert!(!Platform::Other.is_desktop());
}

#[test]
fn updater_is_available_on_desktop_only() {
    for platform in ALL_PLATFORMS {
        assert!(Plugin::OsInfo.is_available_on(platform));
        assert!(Plugin::Process.is_available_on(platform));
        assert!(Plugin::Opener.is_available_on(platform));
        assert_eq!(Plugin::Updater.is_available_on(platform), platform.is_desktop());
    }
    assert!(Plugin::Updater.is_available_on(Platform::Linux));
    assert!(!Plugin::Updater.is_available_on(Platform::Android));
}

#[test]
fn registry_lists_the_four_plugins_in_order() {
    assert_eq!(registry(), ALL_PLUGINS.to_vec());
}

#[test]
fn new_builder_is_empty() {
    assert!(Builder::new().plugins().is_empty());
    assert!(Builder::default().plugins().is_empty());
}

#[test]
fn chained_registration_keeps_order() {
    let builder = Builder::new().plugin(Plugin::Opener).plugin(Plugin::OsInfo);
    assert_eq!(builder.plugins(), &vec![Plugin::Opener, Plugin::OsInfo]);
    let builder = builder.plugin(Plugin::Process);
    assert_eq!(builder.plugins(), &vec![Plugin::Opener, Plugin::OsInfo, Plugin::Process]);
}

#[test]
fn registration_in_place_keeps_order() {
    let mut builder = Builder::new();
    builder.register(Plugin::Process);
    assert_eq!(builder.plugins(), &vec![Plugin::Process]);
    builder.register(Plugin::Updater);
    builder.register(Plugin::OsInfo);
    assert_eq!(builder.plugins(), &vec![Plugin::Process, Plugin::Updater, Plugin::OsInfo]);
}

#[test]
fn registering_twice_keeps_both() {
    let mut builder = Builder::new().plugin(Plugin::Opener);
    builder.register(Plugin::Opener);
    assert_eq!(builder.plugins(), &vec![Plugin::Opener, Plugin::Opener]);
}

#[test]
fn desktop_gets_exactly_four_plugins() {
    for platform in [Platform::MacOs, Platform::Linux, Platform::Windows] {
        let builder = assemble(platform);
        assert_eq!(
            builder.plugins(),
            &vec![Plugin::OsInfo, Plugin::Process, Plugin::Opener, Plugin::Updater]
        );
    }
}

#[test]
fn other_targets_get_exactly_three_plugins() {
    for platform in [Platform::Android, Platform::Ios, Platform::Other] {
        let builder = assemble(platform);
        assert_eq!(builder.plugins(), &vec![Plugin::OsInfo, Plugin::Process, Plugin::Opener]);
        assert!(!builder.plugins().contains(&Plugin::Updater));
    }
}

#[test]
fn both_assemblies_agree_on_every_platform() {
    for platform in ALL_PLATFORMS {
        assert_eq!(assemble(platform).plugins(), assemble_accumulating(platform).plugins());
    }
}

#[test]
fn accumulating_assembly_on_windows_and_ios() {
    assert_eq!(
        assemble_accumulating(Platform::Windows).plugins(),
        &vec![Plugin::OsInfo, Plugin::Process, Plugin::Opener, Plugin::Updater]
    );
    assert_eq!(
        assemble_accumulating(Platform::Ios).plugins(),
        &vec![Plugin::OsInfo, Plugin::Process, Plugin::Opener]
    );
}

#[test]
fn assembled_plugins_are_those_available() {
    for platform in ALL_PLATFORMS {
        let builder = assemble(platform);
        for plugin in ALL_PLUGINS {
            let times = builder.plugins().iter().filter(|p| **p == plugin).count();
            assert_eq!(times, if plugin.is_available_on(platform) { 1 } else { 0 });
        }
    }
}

#[test]
fn non_desktop_set_is_desktop_set_without_updater() {
    for desktop in [Platform::MacOs, Platform::Linux, Platform::Windows] {
        for other in [Platform::Android, Platform::Ios, Platform::Other] {
            let full = assemble(desktop);
            let part = assemble(other);
            assert_eq!(part.plugins().len() + 1, full.plugins().len());
            assert_eq!(part.plugins()[..], full.plugins()[..3]);
            assert_eq!(full.plugins()[3], Plugin::Updater);
        }
    }
}
