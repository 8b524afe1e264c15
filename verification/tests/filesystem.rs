use josephine::check::Severity;
use josephine::checks::filesystem::{
    build_result, find_readonly_mounts, has_ro_option, unavailable, FilesystemCheck,
};
use josephine::config::FilesystemCheckConfig;
use josephine::i18n::Lang;

fn config() -> FilesystemCheckConfig {
    FilesystemCheckConfig::default()
}

const ONE_READONLY: &str = "\
sysfs /sys sysfs rw,nosuid,nodev,noexec,relatime 0 0
proc /proc proc rw,nosuid,nodev,noexec,relatime 0 0
tmpfs /run tmpfs rw,nosuid,nodev,size=1633080k,mode=755 0 0
/dev/sda1 / ext4 rw,relatime 0 0
/dev/sda2 /home ext4 ro,relatime 0 0
/dev/loop0 /snap/core20/1970 squashfs ro,nodev,relatime 0 0
";

const ALL_READWRITE: &str = "\
sysfs /sys sysfs rw,nosuid,nodev,noexec,relatime 0 0
proc /proc proc rw,nosuid,nodev,noexec,relatime 0 0
tmpfs /run tmpfs rw,nosuid,nodev,size=1633080k,mode=755 0 0
/dev/sda1 / ext4 rw,relatime 0 0
/dev/sda2 /home ext4 rw,relatime 0 0
/dev/loop0 /snap/core20/1970 squashfs ro,nodev,relatime 0 0
";

const SNAP_ONLY: &str = "\
sysfs /sys sysfs rw,nosuid,nodev,noexec,relatime 0 0
proc /proc proc rw,nosuid,nodev,noexec,relatime 0 0
/dev/loop0 /snap/core20/1970 squashfs ro,nodev,relatime 0 0
";

const USB_READONLY: &str = "\
/dev/sdb1 /run/media/alice/USB vfat ro,relatime,fmask=0022,dmask=0022 0 0
";

const NIXOS_MOUNTS: &str = "\
sysfs /sys sysfs rw,nosuid,nodev,noexec,relatime 0 0
proc /proc proc rw,nosuid,nodev,noexec,relatime 0 0
/dev/sda1 / ext4 rw,relatime 0 0
/dev/sda1 /nix/store ext4 ro,relatime 0 0
";

#[test]
fn flags_a_real_readonly_remount() {
    let flagged = find_readonly_mounts(ONE_READONLY, &[]);
    assert_eq!(flagged, vec!["/home".to_string()]);
}

#[test]
fn all_read_write_flags_nothing() {
    let flagged = find_readonly_mounts(ALL_READWRITE, &[]);
    assert!(flagged.is_empty());
}

#[test]
fn readonly_squashfs_snap_is_not_flagged() {
    let flagged = find_readonly_mounts(SNAP_ONLY, &[]);
    assert!(flagged.is_empty());
}

#[test]
fn readonly_usb_under_run_media_is_flagged() {
    let flagged = find_readonly_mounts(USB_READONLY, &[]);
    assert_eq!(flagged, vec!["/run/media/alice/USB".to_string()]);
}

#[test]
fn one_readonly_mount_is_critical() {
    let result = build_result(Lang::En, &find_readonly_mounts(ONE_READONLY, &[]), &config());
    assert_eq!(result.worst_severity(), Severity::Critique);
    assert_eq!(result.status_value.as_deref(), Some("1 read-only: “/home”"));
}

#[test]
fn all_writable_is_info() {
    let result = build_result(Lang::En, &find_readonly_mounts(ALL_READWRITE, &[]), &config());
    assert_eq!(result.worst_severity(), Severity::Info);
    assert_eq!(result.status_value.as_deref(), Some("all read-write"));
}

#[test]
fn nix_store_readonly_is_not_flagged_by_default() {
    let flagged = find_readonly_mounts(NIXOS_MOUNTS, &config().ignore_mounts);
    assert!(flagged.is_empty(), "flagged: {flagged:?}");
}

#[test]
fn nix_store_is_flagged_without_the_allowlist() {
    let flagged = find_readonly_mounts(NIXOS_MOUNTS, &[]);
    assert_eq!(flagged, vec!["/nix/store".to_string()]);
}

#[test]
fn a_real_remount_surfaces_even_next_to_the_ignored_nix_store() {
    let mounts = format!("{NIXOS_MOUNTS}/dev/sda2 /home ext4 ro,relatime 0 0\n");
    let flagged = find_readonly_mounts(&mounts, &config().ignore_mounts);
    assert_eq!(flagged, vec!["/home".to_string()]);
}

#[test]
fn custom_ignore_mount_is_honoured() {
    let mounts = "/dev/sda3 /data ext4 ro,relatime 0 0\n";
    let ignore = vec!["/data".to_string()];
    assert!(find_readonly_mounts(mounts, &ignore).is_empty());
    assert_eq!(find_readonly_mounts(mounts, &[]), vec!["/data".to_string()]);
}

#[test]
fn default_config_ignores_the_nix_store() {
    assert!(config().ignore_mounts.iter().any(|m| m == "/nix/store"));
}

// ---------------------------------------------------------------------------

#[test]
fn ro_must_be_a_whole_option() {
    assert!(has_ro_option("ro,relatime"));
    assert!(has_ro_option("relatime,ro"));
    assert!(!has_ro_option("rw,errors=remount-ro"));
    assert!(!has_ro_option("rw,nosuid"));
    assert!(!has_ro_option(""));
}

#[test]
fn two_readonly_mounts_are_counted_and_listed() {
    let mounts = "/dev/sda2 /home ext4 ro 0 0\n/dev/sdb1 /data xfs ro,noatime 0 0\n";
    let flagged = find_readonly_mounts(mounts, &[]);
    assert_eq!(flagged, vec!["/home".to_string(), "/data".to_string()]);
    let result = build_result(Lang::En, &flagged, &config());
    assert_eq!(result.metrics[0].value, 200);
    assert_eq!(result.metrics[0].name, "readonly_mounts");
    assert_eq!(result.worst_severity(), Severity::Critique);
    assert_eq!(result.details.len(), 2);
}

#[test]
fn short_lines_are_skipped() {
    assert!(find_readonly_mounts("/dev/sda2 /home\n\n", &[]).is_empty());
}

#[test]
fn unreadable_mount_table_is_unavailable() {
    let check = FilesystemCheck::new(config());
    let result = check.evaluate(Lang::En, None);
    assert_eq!(result.status_value.as_deref(), Some("Unavailable"));
    assert!(result.metrics.is_empty());
    assert_eq!(result.worst_severity(), Severity::Info);
    let fr = unavailable(Lang::Fr);
    assert_eq!(fr.status_value.as_deref(), Some("Indisponible"));
    assert_eq!(check.name(), "filesystem");
}

#[test]
fn evaluate_applies_the_configured_allowlist() {
    let check = FilesystemCheck::new(config());
    let result = check.evaluate(Lang::En, Some(NIXOS_MOUNTS));
    assert_eq!(result.worst_severity(), Severity::Info);
    assert_eq!(result.status_value.as_deref(), Some("all read-write"));
}
