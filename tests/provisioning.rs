use zfs_disk::fstab::purge_data_disks;
use zfs_disk::commands::decimal_numeral;
use zfs_disk::commands::{
    disk_size_call, free_space_call, install_mkdir_dir, install_mount_dir, install_xfs, install_zfs,
    install_zfs_create, install_zfs_pool, inventory_call, swap_listing_call, system_listing_call, ToolCall,
};
use zfs_disk::error::DiskError;
use zfs_disk::fstab::{add_disk_to_fstab, fstab_entry, remove_disk_from_fstab};
use zfs_disk::provision::{first_stage, stage_failure, zfs, Progress, Stage};
use zfs_disk::relocation::{relocation_call, set_docker_disk, state_after_failure, RelocationNext, RelocationStep, ServiceState};
use zfs_disk::volume::{disk_size, get_zfs_free_space, volume_size};

fn strings(items: &[&str]) -> Vec<String> {
    items.iter().map(|s| s.to_string()).collect()
}

fn parts(call: &ToolCall) -> (String, Vec<String>) {
    (call.program.clone(), call.args.clone())
}

#[test]
fn volume_is_ninety_three_percent_rounded_down() {
    assert_eq!(volume_size(1_000_000), 930_000);
    assert_eq!(volume_size(99), 92);
    assert_eq!(volume_size(0), 0);
    assert_eq!(volume_size(u64::MAX), ((u64::MAX as u128) * 93 / 100) as u64);
}

#[test]
fn free_space_parsing() {
    assert_eq!(get_zfs_free_space("1000000\n"), Ok(1_000_000));
    assert!(matches!(get_zfs_free_space("none\n"), Err(DiskError::Parse(_))));
    assert!(matches!(get_zfs_free_space(""), Err(DiskError::Parse(_))));
}

#[test]
fn disk_size_reads_first_line() {
    assert_eq!(disk_size("500107862016\n1024\n"), Ok(500_107_862_016));
    assert_eq!(disk_size("  2048  \n"), Ok(2048));
    assert!(matches!(disk_size(""), Err(DiskError::Parse(_))));
}

#[test]
fn carve_command_uses_volume_size() {
    let call = install_zfs_create(1_000_000);
    assert_eq!(parts(&call), ("zfs".to_string(), strings(&["create", "-V", "930000", "disk/data"])));
}

#[test]
fn pool_command_lists_data_disks() {
    let disks = strings(&["/dev/sdb", "/dev/sdc"]);
    let call = install_zfs_pool(&disks);
    assert_eq!(parts(&call), ("zpool".to_string(), strings(&["create", "disk", "-f", "/dev/sdb", "/dev/sdc"])));
}

#[test]
fn fixed_commands() {
    assert_eq!(parts(&install_xfs()), ("mkfs.xfs".to_string(), strings(&["-f", "/dev/zd0"])));
    assert_eq!(parts(&install_mkdir_dir()), ("mkdir".to_string(), strings(&["-p", "/root/data"])));
    assert_eq!(
        parts(&install_mount_dir()),
        ("mount".to_string(), strings(&["-t", "xfs", "-o", "defaults,prjquota", "/dev/zd0", "/root/data"]))
    );
    assert_eq!(parts(&system_listing_call()), ("lsblk".to_string(), strings(&["-o", "NAME,TYPE,MOUNTPOINT"])));
    assert_eq!(parts(&swap_listing_call()), ("lsblk".to_string(), strings(&["-f"])));
    assert_eq!(parts(&inventory_call()), ("lsblk".to_string(), strings(&["-dpno", "NAME"])));
    assert_eq!(
        parts(&free_space_call("disk")),
        ("zpool".to_string(), strings(&["list", "-H", "-o", "free", "-p", "disk"]))
    );
    assert_eq!(
        parts(&disk_size_call("/dev/sda")),
        ("lsblk".to_string(), strings(&["-b", "-o", "SIZE", "--noheadings", "/dev/sda"]))
    );
}

#[test]
fn tool_install_only_when_missing() {
    assert!(install_zfs(true).is_none());
    let call = install_zfs(false).unwrap();
    assert_eq!(parts(&call), ("apt".to_string(), strings(&["install", "-y", "zfsutils-linux"])));
}

#[test]
fn mount_entry_text() {
    assert_eq!(fstab_entry("zd0"), "/dev/zd0 /root/data xfs defaults,prjquota 0 0");
}

#[test]
fn purge_then_persist_leaves_one_entry() {
    let table = strings(&[
        "UUID=1111 / ext4 defaults 0 1",
        "/dev/zd0 /old xfs defaults 0 0",
        "/dev/zd0 /other xfs defaults 0 0",
    ]);
    let purged = remove_disk_from_fstab(&table, "zd0");
    let table = add_disk_to_fstab(&purged, "zd0");
    assert_eq!(table.iter().filter(|l| l.contains("zd0")).count(), 1);
    assert_eq!(table, strings(&["UUID=1111 / ext4 defaults 0 1", "/dev/zd0 /root/data xfs defaults,prjquota 0 0"]));
}

#[test]
fn purge_of_absent_device_is_noop() {
    let table = strings(&["UUID=1111 / ext4 defaults 0 1", "/dev/sdb1 /mnt ext4 defaults 0 2"]);
    assert_eq!(remove_disk_from_fstab(&table, "zd0"), table);
}

#[test]
fn end_to_end_mount_table_has_one_volume_entry() {
    let table = strings(&["/dev/sdb1 /mnt ext4 defaults 0 2", "UUID=1111 / ext4 defaults 0 1"]);
    let table = remove_disk_from_fstab(&table, "/dev/sdb");
    let table = remove_disk_from_fstab(&table, "/dev/sdc");
    let table = remove_disk_from_fstab(&table, "zd0");
    let table = add_disk_to_fstab(&table, "zd0");
    let entries: Vec<&String> = table.iter().filter(|l| l.contains("zd0")).collect();
    assert_eq!(entries.len(), 1);
    assert!(entries[0].contains(" /root/data "));
    assert_eq!(table.len(), 2);
}

#[test]
fn stop_failure_attempts_nothing_more() {
    let next = set_docker_disk(RelocationStep::StopService, Err("unit not found".to_string()));
    assert_eq!(next, RelocationNext::Failed(RelocationStep::StopService, DiskError::Command("unit not found".to_string())));
    assert_eq!(state_after_failure(RelocationStep::StopService), ServiceState::Running);
}

#[test]
fn link_failure_after_move_skips_restart() {
    let next = set_docker_disk(RelocationStep::StopService, Ok(()));
    assert_eq!(next, RelocationNext::Run(RelocationStep::MoveData));
    let next = set_docker_disk(RelocationStep::MoveData, Ok(()));
    assert_eq!(next, RelocationNext::Run(RelocationStep::LinkData));
    let next = set_docker_disk(RelocationStep::LinkData, Err("ln: failed".to_string()));
    assert_eq!(next, RelocationNext::Failed(RelocationStep::LinkData, DiskError::Command("ln: failed".to_string())));
    assert_eq!(state_after_failure(RelocationStep::LinkData), ServiceState::Moved);
}

#[test]
fn relocation_runs_in_order() {
    let mut step = RelocationStep::StopService;
    let mut seen = vec![step];
    loop {
        match set_docker_disk(step, Ok(())) {
            RelocationNext::Run(next) => {
                step = next;
                seen.push(step);
            }
            RelocationNext::Done => break,
            RelocationNext::Failed(_, _) => panic!("no step failed"),
        }
    }
    assert_eq!(
        seen,
        vec![RelocationStep::StopService, RelocationStep::MoveData, RelocationStep::LinkData, RelocationStep::StartService]
    );
    assert_eq!(
        parts(&relocation_call(RelocationStep::LinkData)),
        ("ln".to_string(), strings(&["-s", "/root/data/docker", "/var/lib/docker"]))
    );
    assert_eq!(parts(&relocation_call(RelocationStep::StopService)), ("systemctl".to_string(), strings(&["stop", "docker"])));
}

#[test]
fn provisioning_runs_every_stage_once() {
    let mut stage = first_stage();
    let mut count = 1;
    loop {
        match zfs(stage, Ok(())) {
            Progress::Next(next) => {
                stage = next;
                count += 1;
            }
            Progress::Finished => break,
            Progress::Aborted(_, _) => panic!("no stage failed"),
        }
    }
    assert_eq!(count, 9);
    assert_eq!(stage, Stage::RelocateService);
}

#[test]
fn provisioning_aborts_on_first_failure() {
    let err = stage_failure(Stage::CarveVolume, "out of space".to_string());
    assert_eq!(err, DiskError::Carve("out of space".to_string()));
    assert_eq!(zfs(Stage::CarveVolume, Err(err)), Progress::Aborted(Stage::CarveVolume, DiskError::Carve("out of space".to_string())));
    assert_eq!(stage_failure(Stage::CreatePool, "busy".to_string()), DiskError::PoolCreation("busy".to_string()));
    assert_eq!(stage_failure(Stage::MountVolume, "bad".to_string()), DiskError::Command("bad".to_string()));
}

#[test]
fn disk_size_accepts_plus_sign_and_unicode_space() {
    assert_eq!(disk_size("+5\n"), Ok(5));
    assert_eq!(disk_size("\u{a0}2048\u{a0}\n"), Ok(2048));
    assert_eq!(get_zfs_free_space("+1000000\n"), Ok(1_000_000));
}

#[test]
fn decimal_numerals() {
    assert_eq!(decimal_numeral(0), "0");
    assert_eq!(decimal_numeral(930_000), "930000");
    assert_eq!(decimal_numeral(u64::MAX), u64::MAX.to_string());
}

#[test]
fn purge_of_data_disks_keeps_other_lines_in_order() {
    let table = strings(&[
        "UUID=1111 / ext4 defaults 0 1\r",
        "/dev/sdb1 /mnt/b ext4 defaults 0 2",
        "# comment",
        "/dev/sdc /mnt/c xfs defaults 0 0",
        "",
    ]);
    let disks = strings(&["/dev/sdb", "/dev/sdc"]);
    assert_eq!(
        purge_data_disks(&table, &disks),
        strings(&["UUID=1111 / ext4 defaults 0 1\r", "# comment", ""])
    );
    assert_eq!(purge_data_disks(&table, &Vec::new()), table);
}
