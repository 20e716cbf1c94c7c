use nux::commands::install::disk::{Disk, DiskSettings, EfiFilesystem, Filesystem, LuksFilesystem, Partition};
use nux::commands::install::zfs::{create_dataset, zfs_properties_string, ZfsRoot, ZfsSettings};
use nux::disk::zfs::{ZfsDataset, ZfsPool};
use nux::properties::Properties;

fn props(kv: &[(&str, &str)]) -> Properties {
    let mut p = Properties::new();
    for (k, v) in kv {
        p.insert(k.to_string(), v.to_string());
    }
    p
}

fn lines(v: &[&str]) -> Vec<String> {
    v.iter().map(|s| s.to_string()).collect()
}

#[test]
fn boot_disk_lines() {
    let s = DiskSettings { boot_size: "512M".to_string(), device: "/dev/sda".to_string() };
    let d = s.get_disk();
    assert_eq!(d.partitions.len(), 1);
    assert_eq!(d.format_cmd(), "sgdisk -Z -n 0:0:512M -t -0:ef00 -c 0:efiboot /dev/sda");
    assert_eq!(
        d.cmds(),
        lines(&[
            "mkfs.fat -F 32 /dev/disk/by-partlabel/efiboot",
            "mkdir /mnt/efi",
            "mount /dev/disk/by-partlabel/efiboot /mnt/efi",
        ])
    );
}

#[test]
fn format_line_of_two_partitions_and_of_none() {
    let d = Disk::new("/dev/sdb")
        .add_partition(Partition::new().size("1G").code("ef00").label("a"))
        .add_partition(Partition::new().size("0").code("8300").label("b"));
    assert_eq!(d.format_cmd(), "sgdisk -Z -n 0:0:1G -t -0:ef00 -c 0:a -n 0:0:0 -t -0:8300 -c 0:b /dev/sdb");
    assert_eq!(Disk::new("/dev/sdc").format_cmd(), "sgdisk -Z  /dev/sdc");
    assert!(d.cmds().is_empty());
}

#[test]
fn properties_string() {
    assert_eq!(zfs_properties_string("O", &None), "");
    assert_eq!(zfs_properties_string("o", &Some(props(&[]))), "");
    assert_eq!(zfs_properties_string("O", &Some(props(&[("compression", "lz4"), ("xattr", "sa")]))), "-O compression=lz4 -O xattr=sa");
}

#[test]
fn zpool_line_with_and_without_properties() {
    let z = ZfsSettings {
        pool: ZfsPool { ashift: 12, name: "rpool".to_string() },
        root: ZfsRoot { properties: Some(props(&[("compression", "lz4")])) },
        datasets: vec![],
    };
    assert_eq!(z.zpool_cmd("/dev/x"), "zpool create -o ashift=12 -O mountpoint=none -O compression=lz4 rpool /dev/x");
    let z = ZfsSettings { pool: ZfsPool { ashift: 12, name: "rpool".to_string() }, root: ZfsRoot { properties: None }, datasets: vec![] };
    assert_eq!(z.zpool_cmd("/dev/x"), "zpool create -o ashift=12 -O mountpoint=none  rpool /dev/x");
}

#[test]
fn dataset_lines() {
    let d = ZfsDataset { name: "home".to_string(), mount: "/mnt/home".to_string(), properties: None };
    assert_eq!(
        create_dataset("rpool", &d),
        lines(&["zfs create rpool/home -o mountpoint=legacy ", "mkdir -p /mnt/home", "mount -t zfs rpool/home /mnt/home"])
    );
    let d = ZfsDataset { name: "nix".to_string(), mount: "/mnt/nix".to_string(), properties: Some(props(&[("atime", "off")])) };
    assert_eq!(create_dataset("rpool", &d)[0], "zfs create rpool/nix -o mountpoint=legacy -o atime=off");
}

#[test]
fn encrypted_zfs_partition_lines() {
    let z = ZfsSettings {
        pool: ZfsPool { ashift: 12, name: "rpool".to_string() },
        root: ZfsRoot { properties: None },
        datasets: vec![ZfsDataset { name: "root".to_string(), mount: "/mnt".to_string(), properties: None }],
    };
    let p = Partition::new().label("zfsroot").code("8300").size("0").filesystem(Filesystem::Luks(LuksFilesystem {
        passphrase: "pw".to_string(),
        filesystem: Box::new(Filesystem::Zfs(z)),
    }));
    assert_eq!(
        p.cmds(),
        lines(&[
            "echo pw | cryptsetup luksFormat /dev/disk/by-partlabel//dev/disk/by-partlabel/zfsroot",
            "echo pw | cryptsetup open /dev/disk/by-partlabel//dev/disk/by-partlabel/zfsroot decrypted-zfsroot",
            "zpool create -o ashift=12 -O mountpoint=none  rpool /dev/mapper/decrypted-zfsroot",
            "zfs create rpool/root -o mountpoint=legacy ",
            "mkdir -p /mnt",
            "mount -t zfs rpool/root /mnt",
        ])
    );
}

#[test]
fn efi_lines_use_label_not_device() {
    let e = EfiFilesystem { mount: "/boot".to_string() };
    assert_eq!(
        e.cmds("/dev/ignored", "esp"),
        lines(&["mkfs.fat -F 32 /dev/disk/by-partlabel/esp", "mkdir /mnt/boot", "mount /dev/disk/by-partlabel/esp /mnt/boot"])
    );
}

#[test]
fn both_renderings_have_one_entry_per_step() {
    let make = || ZfsSettings {
        pool: ZfsPool { ashift: 12, name: "rpool".to_string() },
        root: ZfsRoot { properties: None },
        datasets: vec![
            ZfsDataset { name: "a".to_string(), mount: "/mnt".to_string(), properties: None },
            ZfsDataset { name: "b".to_string(), mount: "/mnt/b".to_string(), properties: None },
        ],
    };
    let lines = Filesystem::Luks(LuksFilesystem { passphrase: "pw".to_string(), filesystem: Box::new(Filesystem::Zfs(make())) })
        .cmds("/dev/x", "p");
    let z = nux::disk::zfs::ZfsSettings {
        pool: ZfsPool { ashift: 12, name: "rpool".to_string() },
        properties: None,
        datasets: vec![
            ZfsDataset { name: "a".to_string(), mount: "/mnt".to_string(), properties: None },
            ZfsDataset { name: "b".to_string(), mount: "/mnt/b".to_string(), properties: None },
        ],
    };
    let cmds = nux::disk::Filesystem::Luks(nux::disk::LuksFilesystem {
        passphrase: "pw".to_string(),
        filesystem: Box::new(nux::disk::Filesystem::Zfs(z)),
    })
    .cmds("/dev/x", "p");
    assert_eq!(lines.len(), cmds.len());
    assert_eq!(lines.len(), 2 + 1 + 3 * 2);
}
