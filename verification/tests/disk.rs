use nux::commands::install::install_cmds;
use nux::disk::duct_util::Expr;
use nux::disk::zfs::{create_dataset, ZfsDataset, ZfsPool, ZfsSettings};
use nux::disk::{Disk, DiskSettings, EfiFilesystem, Filesystem, LuksFilesystem, Partition};
use nux::properties::Properties;

fn ex(program: &str, args: &[&str]) -> Expr {
    Expr {
        program: program.to_string(),
        args: args.iter().map(|s| s.to_string()).collect(),
        stdin: None,
        wait_ms: None,
    }
}

fn props(kv: &[(&str, &str)]) -> Properties {
    let mut p = Properties::new();
    for (k, v) in kv {
        p.insert(k.to_string(), v.to_string());
    }
    p
}

fn settings() -> DiskSettings {
    DiskSettings {
        boot_size: "512M".to_string(),
        device: "/dev/vda".to_string(),
        properties: Some(props(&[("compression", "lz4")])),
        pool: ZfsPool { ashift: 12, name: "rpool".to_string() },
        datasets: vec![
            ZfsDataset { name: "root".to_string(), mount: "/mnt".to_string(), properties: None },
            ZfsDataset {
                name: "home".to_string(),
                mount: "/mnt/home".to_string(),
                properties: Some(props(&[("atime", "off")])),
            },
        ],
    }
}

fn with_stdin(mut e: Expr, s: &str) -> Expr {
    e.stdin = Some(s.to_string());
    e
}

fn with_wait(mut e: Expr, ms: u64) -> Expr {
    e.wait_ms = Some(ms);
    e
}

#[test]
fn install_plan_for_two_datasets() {
    let cmds = install_cmds(&settings());
    let expected = vec![
        ex("sgdisk", &["-Z", "-n", "0:0:512M", "-t", "0:ef00", "-c", "0:efiboot", "-n", "0:0:0", "-t", "0:8300", "-c", "0:zfsroot", "/dev/vda"]),
        ex("mkfs.fat", &["-F", "32", "/dev/disk/by-partlabel/efiboot"]),
        ex("mkdir", &["/mnt/efi"]),
        ex("mount", &["/dev/disk/by-partlabel/efiboot", "/mnt/efi"]),
        with_stdin(ex("cryptsetup", &["luksFormat", "/dev/disk/by-partlabel/zfsroot"]), "jimminy"),
        with_stdin(ex("cryptsetup", &["open", "/dev/disk/by-partlabel/zfsroot", "decrypted-zfsroot"]), "jimminy"),
        ex("zpool", &["create", "-o", "ashift=12", "-O", "mountpoint=none", "-o", "compression=lz4", "rpool", "/dev/mapper/decrypted-zfsroot"]),
        ex("zfs", &["create", "rpool/root", "-o", "mountpoint=legacy"]),
        ex("mkdir", &["-p", "/mnt"]),
        with_wait(ex("mount", &["-t", "zfs", "rpool/root", "/mnt"]), 500),
        ex("zfs", &["create", "rpool/home", "-o", "mountpoint=legacy", "-o", "atime=off"]),
        ex("mkdir", &["-p", "/mnt/home"]),
        with_wait(ex("mount", &["-t", "zfs", "rpool/home", "/mnt/home"]), 500),
        ex("nixos-generate-config", &["--root", "/mnt"]),
    ];
    assert_eq!(cmds, expected);
}

#[test]
fn install_plan_length_is_eight_plus_three_per_dataset() {
    let mut s = settings();
    assert_eq!(install_cmds(&s).len(), 8 + 3 * 2);
    s.datasets = vec![];
    assert_eq!(install_cmds(&s).len(), 8);
}

#[test]
fn only_cryptsetup_reads_stdin_in_the_plan() {
    for c in install_cmds(&settings()) {
        if c.stdin.is_some() {
            assert_eq!(c.program, "cryptsetup");
        }
    }
}

#[test]
fn get_disk_has_boot_and_root_partitions() {
    let disk = settings().get_disk();
    assert_eq!(disk.device, "/dev/vda");
    assert_eq!(disk.partitions.len(), 2);
    let boot = &disk.partitions[0];
    assert_eq!(boot.size.as_deref(), Some("512M"));
    assert_eq!(boot.code.as_deref(), Some("ef00"));
    assert_eq!(boot.label.as_deref(), Some("efiboot"));
    match &boot.filesystem {
        Some(Filesystem::Efi(e)) => assert_eq!(e.mount, "/efi"),
        _ => panic!("boot partition is not EFI"),
    }
    let root = &disk.partitions[1];
    assert_eq!(root.size.as_deref(), Some("0"));
    assert_eq!(root.code.as_deref(), Some("8300"));
    assert_eq!(root.label.as_deref(), Some("zfsroot"));
    match &root.filesystem {
        Some(Filesystem::Luks(l)) => {
            assert_eq!(l.passphrase, "jimminy");
            match &*l.filesystem {
                Filesystem::Zfs(z) => {
                    assert_eq!(z.pool.name, "rpool");
                    assert_eq!(z.pool.ashift, 12);
                    assert_eq!(z.datasets.len(), 2);
                }
                _ => panic!("container does not hold ZFS"),
            }
        }
        _ => panic!("root partition is not encrypted"),
    }
}

#[test]
fn disk_without_partitions_only_wipes() {
    let d = Disk::new("/dev/sdb");
    assert_eq!(d.cmds(), vec![ex("sgdisk", &["-Z", "/dev/sdb"])]);
}

#[test]
fn partition_without_filesystem_sets_up_nothing() {
    let p = Partition::new().size("1G").code("8300").label("data");
    assert!(p.cmds().is_empty());
    assert_eq!(
        p.sgdisk_opts(),
        vec!["-n", "0:0:1G", "-t", "0:8300", "-c", "0:data"].iter().map(|s| s.to_string()).collect::<Vec<_>>()
    );
    let d = Disk::new("/dev/sdb").add_partition(p);
    assert_eq!(d.cmds(), vec![ex("sgdisk", &["-Z", "-n", "0:0:1G", "-t", "0:8300", "-c", "0:data", "/dev/sdb"])]);
}

#[test]
fn builder_setters_set_one_field() {
    let p = Partition::new();
    assert!(p.size.is_none() && p.code.is_none() && p.label.is_none() && p.filesystem.is_none());
    let p = p.label("x");
    assert_eq!(p.label.as_deref(), Some("x"));
    assert!(p.size.is_none() && p.code.is_none());
    let p = p.code("ef00").size("1M");
    assert_eq!(p.code.as_deref(), Some("ef00"));
    assert_eq!(p.size.as_deref(), Some("1M"));
    let p = p.filesystem(Filesystem::Efi(EfiFilesystem { mount: "/boot".to_string() }));
    assert!(p.filesystem.is_some());
}

#[test]
fn efi_commands_use_device_and_mount() {
    let e = EfiFilesystem { mount: "/boot".to_string() };
    assert_eq!(
        e.cmds("/dev/sda1", "ignored"),
        vec![
            ex("mkfs.fat", &["-F", "32", "/dev/sda1"]),
            ex("mkdir", &["/mnt/boot"]),
            ex("mount", &["/dev/sda1", "/mnt/boot"]),
        ]
    );
}

#[test]
fn nested_containers_open_inside_each_other() {
    let inner = LuksFilesystem {
        passphrase: "two".to_string(),
        filesystem: Box::new(Filesystem::Efi(EfiFilesystem { mount: "/x".to_string() })),
    };
    let outer = Filesystem::Luks(LuksFilesystem { passphrase: "one".to_string(), filesystem: Box::new(Filesystem::Luks(inner)) });
    let cmds = outer.cmds("/dev/sda2", "p");
    assert_eq!(
        cmds,
        vec![
            with_stdin(ex("cryptsetup", &["luksFormat", "/dev/sda2"]), "one"),
            with_stdin(ex("cryptsetup", &["open", "/dev/sda2", "decrypted-p"]), "one"),
            with_stdin(ex("cryptsetup", &["luksFormat", "/dev/mapper/decrypted-p"]), "two"),
            with_stdin(ex("cryptsetup", &["open", "/dev/mapper/decrypted-p", "decrypted-decrypted-p"]), "two"),
            ex("mkfs.fat", &["-F", "32", "/dev/mapper/decrypted-decrypted-p"]),
            ex("mkdir", &["/mnt/x"]),
            ex("mount", &["/dev/mapper/decrypted-decrypted-p", "/mnt/x"]),
        ]
    );
}

#[test]
fn zpool_with_negative_ashift_and_no_properties() {
    let z = ZfsSettings { pool: ZfsPool { ashift: -3, name: "p".to_string() }, properties: None, datasets: vec![] };
    assert_eq!(
        z.zpool_cmd("/dev/x"),
        ex("zpool", &["create", "-o", "ashift=-3", "-O", "mountpoint=none", "p", "/dev/x"])
    );
    assert!(z.dataset_cmds().is_empty());
}

#[test]
fn pool_properties_keep_their_order() {
    let z = ZfsSettings {
        pool: ZfsPool { ashift: 9, name: "tank".to_string() },
        properties: Some(props(&[("b", "2"), ("a", "1")])),
        datasets: vec![],
    };
    assert_eq!(
        z.zpool_cmd("d"),
        ex("zpool", &["create", "-o", "ashift=9", "-O", "mountpoint=none", "-o", "b=2", "-o", "a=1", "tank", "d"])
    );
}

#[test]
fn dataset_is_created_then_mounted_after_its_mount_point() {
    let d = ZfsDataset { name: "nix".to_string(), mount: "/mnt/nix".to_string(), properties: Some(props(&[("atime", "off")])) };
    assert_eq!(
        create_dataset("rpool", &d),
        vec![
            ex("zfs", &["create", "rpool/nix", "-o", "mountpoint=legacy", "-o", "atime=off"]),
            ex("mkdir", &["-p", "/mnt/nix"]),
            with_wait(ex("mount", &["-t", "zfs", "rpool/nix", "/mnt/nix"]), 500),
        ]
    );
}
