use zfs_disk::text::{join_newlines, split_newlines};
use zfs_disk::disks::{find_swap_disk, find_system_disk, list_data_disk, list_disk, swap_disk_from, system_disk_from};
use zfs_disk::error::DiskError;
use zfs_disk::text::{contains_str, parse_u64, split_lines};

const SYSTEM_LISTING: &str = "NAME   TYPE MOUNTPOINT\nsda    disk \n├─sda1 part /\n└─sda2 part [SWAP]\nsdb    disk \nsdc    disk \n";

fn strings(items: &[&str]) -> Vec<String> {
    items.iter().map(|s| s.to_string()).collect()
}

#[test]
fn test_find_system_disk() {
    let disk = find_system_disk(SYSTEM_LISTING).unwrap();
    assert_eq!(disk, "sda");
}

#[test]
fn system_disk_missing_when_no_disk_line() {
    assert_eq!(find_system_disk(""), Err(DiskError::NotFound));
    assert_eq!(find_system_disk("NAME TYPE MOUNTPOINT\nloop0 loop /snap\n"), Err(DiskError::NotFound));
}

#[test]
fn system_disk_skips_names_not_followed_by_space() {
    let names = strings(&["vda", "vdb"]);
    assert_eq!(system_disk_from("vda\tdisk\nvdb disk\n", &names), Ok("vdb".to_string()));
    assert_eq!(system_disk_from("vda\tdisk\n", &names), Err(DiskError::NotFound));
}

#[test]
fn swap_disk_is_first_swap_line() {
    let listing = "NAME FSTYPE LABEL UUID MOUNTPOINT\nsda\n├─sda1 ext4 root 1111 /\nsdb2 swap 2222 [SWAP]\nsdc1 swap 3333\n";
    assert_eq!(find_swap_disk(listing), Ok("sdb2".to_string()));
}

#[test]
fn swap_disk_missing_without_swap_line() {
    assert_eq!(find_swap_disk("NAME FSTYPE\nsda1 ext4\n"), Err(DiskError::NotFound));
    assert_eq!(find_swap_disk(""), Err(DiskError::NotFound));
    assert_eq!(swap_disk_from(None), Err(DiskError::NotFound));
    assert_eq!(swap_disk_from(Some("sdb".to_string())), Ok("sdb".to_string()));
}

#[test]
fn inventory_lines() {
    assert_eq!(list_disk("/dev/sda\n/dev/sdb\r\n/dev/sdc\n"), strings(&["/dev/sda", "/dev/sdb", "/dev/sdc"]));
    assert_eq!(list_disk(""), Vec::<String>::new());
    assert_eq!(list_disk("/dev/sda"), strings(&["/dev/sda"]));
}

#[test]
fn data_disks_end_to_end_inventory() {
    let disks = list_disk("/dev/sda\n/dev/sdb\n/dev/sdc\n");
    let data = list_data_disk(&disks, &Ok("sda".to_string()), &Err(DiskError::NotFound));
    assert_eq!(data, strings(&["/dev/sdb", "/dev/sdc"]));
}

#[test]
fn data_disks_exclude_system_and_swap_by_substring() {
    let disks = strings(&["/dev/sda", "/dev/sda1", "/dev/sdb", "/dev/sdc"]);
    let data = list_data_disk(&disks, &Ok("sda".to_string()), &Ok("sdb".to_string()));
    assert_eq!(data, strings(&["/dev/sdc"]));
    for d in &data {
        assert!(!d.contains("sda") && !d.contains("sdb"));
    }
}

#[test]
fn data_disks_follow_naming() {
    let disks = strings(&["/dev/loop0", "/dev/sr0", "/dev/nvme0n1", "/dev/xvda", "/dev/hdb", "/dev/zd0"]);
    let data = list_data_disk(&disks, &Err(DiskError::NotFound), &Err(DiskError::NotFound));
    assert_eq!(data, strings(&["/dev/nvme0n1", "/dev/xvda", "/dev/hdb"]));
}

#[test]
fn data_disks_without_system_disk_use_stand_in() {
    let disks = strings(&["/dev/sda", "/dev/sdb", "/dev/vdc"]);
    let data = list_data_disk(&disks, &Err(DiskError::NotFound), &Ok("vdc".to_string()));
    assert_eq!(data, strings(&["/dev/sda", "/dev/sdb"]));
    let named = strings(&["/dev/no_system_disk_sdx"]);
    assert_eq!(list_data_disk(&named, &Err(DiskError::NotFound), &Err(DiskError::NotFound)), Vec::<String>::new());
}

#[test]
fn substring_search() {
    assert!(contains_str("/dev/sda", "sda"));
    assert!(contains_str("abc", ""));
    assert!(!contains_str("", "a"));
    assert!(!contains_str("/dev/sd", "sda"));
    assert!(contains_str("nvme0n1", "nvme"));
}

#[test]
fn line_splitting() {
    assert_eq!(split_lines("a\n\nb\r\nc\r"), strings(&["a", "", "b", "c\r"]));
    assert_eq!(split_lines("\n"), strings(&[""]));
}

#[test]
fn number_parsing() {
    assert_eq!(parse_u64("  42\n"), Some(42));
    assert_eq!(parse_u64("18446744073709551615"), Some(u64::MAX));
    assert_eq!(parse_u64("18446744073709551616"), None);
    assert_eq!(parse_u64(""), None);
    assert_eq!(parse_u64(" \t"), None);
    assert_eq!(parse_u64("12a"), None);
    assert_eq!(parse_u64("-1"), None);
}

#[test]
fn number_parsing_follows_std() {
    assert_eq!(parse_u64("+5\n"), Some(5));
    assert_eq!(parse_u64("\u{a0}7\u{3000}"), Some(7));
    assert_eq!(parse_u64("+"), None);
    assert_eq!(parse_u64("++5"), None);
    assert_eq!(parse_u64(" + 5"), None);
    for text in ["+5", "  12 ", "\u{2003}9", "+18446744073709551615", "x", "", "+"] {
        assert_eq!(parse_u64(text), text.trim().parse::<u64>().ok());
    }
}

#[test]
fn newline_split_and_join_keep_text() {
    let text = "a\r\n\nb\n";
    let pieces = split_newlines(text);
    assert_eq!(pieces, strings(&["a\r", "", "b", ""]));
    assert_eq!(join_newlines(&pieces), text);
    assert_eq!(split_newlines(""), strings(&[""]));
    assert_eq!(join_newlines(&split_newlines("x")), "x");
}
