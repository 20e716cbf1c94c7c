//! The disk layout of an installation, written out as shell command lines.

use vstd::prelude::*;

use super::zfs::{datasets_lines, zpool_line, ZfsSettings};
use crate::disk::{option_text, DiskView, FilesystemView, PartitionView};
use crate::text::{cat, join, join_spec};

verus! {

/// The settings of the disk: the size of the boot partition and the device.
#[derive(Debug)]
pub struct DiskSettings {
    pub boot_size: String,
    pub device: String,
}

/// A disk: its device and its partitions, in order.
#[derive(Debug)]
pub struct Disk {
    pub device: String,
    pub partitions: Vec<Partition>,
}

/// What a partition holds.
#[derive(Debug)]
pub enum Filesystem {
    Efi(EfiFilesystem),
    Luks(LuksFilesystem),
    Zfs(ZfsSettings),
}

/// An EFI system partition mounted below `/mnt` at `mount`.
#[derive(Debug)]
pub struct EfiFilesystem {
    pub mount: String,
}

/// An encrypted container holding another filesystem.
#[derive(Debug)]
pub struct LuksFilesystem {
    pub passphrase: String,
    pub filesystem: Box<Filesystem>,
}

/// A partition: size, type code and label for `sgdisk`, and what it holds.
#[derive(Debug)]
pub struct Partition {
    pub size: Option<String>,
    pub code: Option<String>,
    pub label: Option<String>,
    pub filesystem: Option<Filesystem>,
}

/// The content of a filesystem description.
pub open spec fn filesystem_view(fs: Filesystem) -> FilesystemView
    decreases fs,
{
    match fs {
        Filesystem::Efi(e) => FilesystemView::Efi { mount: e.mount@ },
        Filesystem::Luks(l) => FilesystemView::Luks {
            passphrase: l.passphrase@,
            filesystem: Box::new(filesystem_view(*l.filesystem)),
        },
        Filesystem::Zfs(z) => FilesystemView::Zfs(z@),
    }
}

/// The content of an optional filesystem description.
pub open spec fn option_filesystem_view(fs: Option<Filesystem>) -> Option<FilesystemView> {
    match fs {
        Some(f) => Some(filesystem_view(f)),
        None => None,
    }
}

impl View for Filesystem {
    type V = FilesystemView;

    open spec fn view(&self) -> FilesystemView {
        filesystem_view(*self)
    }
}

impl View for Partition {
    type V = PartitionView;

    open spec fn view(&self) -> PartitionView {
        PartitionView {
            size: option_text(self.size),
            code: option_text(self.code),
            label: option_text(self.label),
            filesystem: option_filesystem_view(self.filesystem),
        }
    }
}

impl DeepView for Partition {
    type V = PartitionView;

    open spec fn deep_view(&self) -> PartitionView {
        self@
    }
}

impl View for Disk {
    type V = DiskView;

    open spec fn view(&self) -> DiskView {
        DiskView { device: self.device@, partitions: self.partitions.deep_view() }
    }
}

/// Format the EFI partition labelled `label` as FAT32, make its mount point
/// below `/mnt`, and mount it there.
pub open spec fn efi_lines(mount: Seq<char>, label: Seq<char>) -> Seq<Seq<char>> {
    seq![
        "mkfs.fat -F 32 /dev/disk/by-partlabel/"@ + label,
        "mkdir /mnt"@ + mount,
        "mount /dev/disk/by-partlabel/"@ + label + " /mnt"@ + mount,
    ]
}

/// Format `device` as an encrypted container and open it, the passphrase
/// piped in by `echo`.
pub open spec fn luks_lines(passphrase: Seq<char>, device: Seq<char>, label: Seq<char>) -> Seq<Seq<char>> {
    seq![
        "echo "@ + passphrase + " | cryptsetup luksFormat /dev/disk/by-partlabel/"@ + device,
        "echo "@ + passphrase + " | cryptsetup open /dev/disk/by-partlabel/"@ + device + " decrypted-"@ + label,
    ]
}

/// The command lines that set up `fs` on `device`, whose partition is
/// labelled `label`.
pub open spec fn filesystem_lines(fs: FilesystemView, device: Seq<char>, label: Seq<char>) -> Seq<Seq<char>>
    decreases fs,
{
    match fs {
        FilesystemView::Efi { mount } => efi_lines(mount, label),
        FilesystemView::Luks { passphrase, filesystem } => luks_lines(passphrase, device, label)
            + filesystem_lines(*filesystem, "/dev/mapper/decrypted-"@ + label, "decrypted-"@ + label),
        FilesystemView::Zfs(z) => seq![zpool_line(z, device)] + datasets_lines(z),
    }
}

/// The command lines that open the container and set up what it holds.
pub open spec fn luks_setup_lines(passphrase: Seq<char>, inner: FilesystemView, device: Seq<char>, label: Seq<char>) -> Seq<Seq<char>> {
    luks_lines(passphrase, device, label)
        + filesystem_lines(inner, "/dev/mapper/decrypted-"@ + label, "decrypted-"@ + label)
}

/// The `sgdisk` options that create the partition.
pub open spec fn sgdisk_line(p: PartitionView) -> Seq<char> {
    "-n 0:0:"@ + p.size.unwrap() + " -t -0:"@ + p.code.unwrap() + " -c 0:"@ + p.label.unwrap()
}

/// The command lines that set up what the partition holds.
pub open spec fn partition_lines(p: PartitionView) -> Seq<Seq<char>> {
    match p.filesystem {
        Some(fs) => filesystem_lines(fs, "/dev/disk/by-partlabel/"@ + p.label.unwrap(), p.label.unwrap()),
        None => Seq::empty(),
    }
}

/// The command line that wipes the partition table and creates all partitions.
pub open spec fn format_line(d: DiskView) -> Seq<char> {
    "sgdisk -Z "@ + join_spec(d.partitions.map_values(|p: PartitionView| sgdisk_line(p)), " "@)
        + " "@ + d.device
}

/// The command lines that set up the partitions, partition by partition in order.
pub open spec fn disk_lines(d: DiskView) -> Seq<Seq<char>> {
    d.partitions.map_values(|p: PartitionView| partition_lines(p)).flatten()
}

/// The disk that the settings describe: one EFI boot partition of the
/// configured size.
pub open spec fn planned_boot_disk(boot_size: Seq<char>, device: Seq<char>) -> DiskView {
    DiskView {
        device,
        partitions: seq![
            PartitionView {
                size: Some(boot_size),
                code: Some("ef00"@),
                label: Some("efiboot"@),
                filesystem: Some(FilesystemView::Efi { mount: "/efi"@ }),
            },
        ],
    }
}

impl DiskSettings {
    /// The disk that these settings describe (see `planned_boot_disk`).
    pub fn get_disk(&self) -> (res: Disk)
        ensures
            res@ == planned_boot_disk(self.boot_size@, self.device@),
    {
        let res = Disk::new(self.device.as_str()).add_partition(
            Partition::new()
                .size(self.boot_size.as_str())
                .code("ef00")
                .label("efiboot")
                .filesystem(Filesystem::Efi(EfiFilesystem { mount: "/efi".to_owned() })),
        );
        assert(res@.partitions =~= planned_boot_disk(self.boot_size@, self.device@).partitions);
        res
    }
}

impl Disk {
    /// A disk on `device` with no partitions yet.
    pub fn new(device: &str) -> (res: Disk)
        ensures
            res@ == (DiskView { device: device@, partitions: Seq::empty() }),
    {
        let res = Disk { device: device.to_owned(), partitions: Vec::new() };
        assert(res.partitions.deep_view() =~= Seq::<PartitionView>::empty());
        res
    }

    /// The command line that wipes the partition table of the disk and
    /// creates all its partitions in order.
    pub fn format_cmd(&self) -> (res: String)
        requires
            self@.is_complete(),
        ensures
            res@ == format_line(self@),
    {
        let ghost opts = self@.partitions.map_values(|p: PartitionView| sgdisk_line(p));
        let mut items: Vec<String> = Vec::new();
        let n = self.partitions.len();
        let mut i: usize = 0;
        while i < n
            invariant
                n == self.partitions.len(),
                i <= n,
                self@.is_complete(),
                opts == self@.partitions.map_values(|p: PartitionView| sgdisk_line(p)),
                items.deep_view() == opts.take(i as int),
            decreases n - i,
        {
            assert(self@.partitions[i as int].is_complete());
            let item = self.partitions[i].sgdisk_opts();
            let ghost before = items.deep_view();
            items.push(item);
            assert(items.deep_view() =~= before.push(opts[i as int]));
            assert(items.deep_view() =~= opts.take(i + 1));
            i = i + 1;
        }
        assert(opts.take(n as int) =~= opts);
        let mut s = "sgdisk -Z ".to_owned();
        s.append(join(&items, " ").as_str());
        s.append(" ");
        s.append(self.device.as_str());
        s
    }

    /// The command lines that set up the partitions, in order.
    pub fn cmds(&self) -> (res: Vec<String>)
        requires
            forall|i: int| 0 <= i < self@.partitions.len() ==> (#[trigger] self@.partitions[i]).can_set_up(),
        ensures
            res.deep_view() == disk_lines(self@),
    {
        let ghost per = self@.partitions.map_values(|p: PartitionView| partition_lines(p));
        let mut res: Vec<String> = Vec::new();
        let n = self.partitions.len();
        let mut i: usize = 0;
        assert(res.deep_view() =~= per.take(0).flatten());
        while i < n
            invariant
                n == self.partitions.len(),
                i <= n,
                forall|i: int| 0 <= i < self@.partitions.len() ==> (#[trigger] self@.partitions[i]).can_set_up(),
                per == self@.partitions.map_values(|p: PartitionView| partition_lines(p)),
                res.deep_view() == per.take(i as int).flatten(),
            decreases n - i,
        {
            assert(self@.partitions[i as int].can_set_up());
            let mut more = self.partitions[i].cmds();
            let ghost before = res.deep_view();
            let ghost added = more.deep_view();
            res.append(&mut more);
            proof {
                assert(res.deep_view() =~= before + added);
                assert(per.take(i + 1) =~= per.take(i as int).push(per[i as int]));
                per.take(i as int).lemma_flatten_push(per[i as int]);
            }
            i = i + 1;
        }
        assert(per.take(n as int) =~= per);
        res
    }

    /// The disk with `partition` added after its other partitions.
    pub fn add_partition(self, partition: Partition) -> (res: Disk)
        ensures
            res@ == (DiskView { device: self@.device, partitions: self@.partitions.push(partition@) }),
    {
        let mut d = self;
        let ghost before = d.partitions.deep_view();
        d.partitions.push(partition);
        assert(d.partitions.deep_view() =~= before.push(partition@));
        d
    }
}

impl Filesystem {
    /// The command lines that set up the filesystem on `device`, whose
    /// partition is labelled `label`.
    pub fn cmds(&self, device: &str, label: &str) -> (res: Vec<String>)
        ensures
            res.deep_view() == filesystem_lines(self@, device@, label@),
        decreases self,
    {
        match self {
            Filesystem::Efi(efi) => efi.cmds(device, label),
            Filesystem::Luks(luks) => luks.cmds(device, label),
            Filesystem::Zfs(zfsfs) => {
                let mut cmds: Vec<String> = Vec::new();
                cmds.push(zfsfs.zpool_cmd(device));
                let mut more = zfsfs.dataset_cmds();
                let ghost before = cmds.deep_view();
                let ghost added = more.deep_view();
                cmds.append(&mut more);
                assert(cmds.deep_view() =~= before + added);
                cmds
            },
        }
    }
}

impl EfiFilesystem {
    /// Format the partition labelled `label` as FAT32, make the mount point
    /// below `/mnt`, mount it.
    pub fn cmds(&self, _device: &str, label: &str) -> (res: Vec<String>)
        ensures
            res.deep_view() == efi_lines(self.mount@, label@),
    {
        let format = cat("mkfs.fat -F 32 /dev/disk/by-partlabel/", label);
        let mkdir = cat("mkdir /mnt", self.mount.as_str());
        let mut mount = cat("mount /dev/disk/by-partlabel/", label);
        mount.append(" /mnt");
        mount.append(self.mount.as_str());
        let res = vec![format, mkdir, mount];
        assert(res.deep_view() =~= efi_lines(self.mount@, label@));
        res
    }
}

impl LuksFilesystem {
    /// Format `device` as an encrypted container and open it, then set up
    /// the filesystem it holds on the opened device.
    pub fn cmds(&self, device: &str, label: &str) -> (res: Vec<String>)
        ensures
            res.deep_view() == luks_setup_lines(self.passphrase@, filesystem_view(*self.filesystem), device@, label@),
        decreases self,
    {
        let mut format = cat("echo ", self.passphrase.as_str());
        format.append(" | cryptsetup luksFormat /dev/disk/by-partlabel/");
        format.append(device);
        let mut open = cat("echo ", self.passphrase.as_str());
        open.append(" | cryptsetup open /dev/disk/by-partlabel/");
        open.append(device);
        open.append(" decrypted-");
        open.append(label);
        let mut a = vec![format, open];
        let ghost head = luks_lines(self.passphrase@, device@, label@);
        assert(a.deep_view() =~= head);
        let path = cat("/dev/mapper/decrypted-", label);
        let name = cat("decrypted-", label);
        let mut inner = self.filesystem.cmds(path.as_str(), name.as_str());
        let ghost added = inner.deep_view();
        a.append(&mut inner);
        assert(a.deep_view() =~= head + added);
        a
    }
}

impl Partition {
    /// A partition with nothing set yet.
    pub fn new() -> (res: Partition)
        ensures
            res@ == (PartitionView { size: None, code: None, label: None, filesystem: None }),
    {
        Partition { size: None, code: None, label: None, filesystem: None }
    }

    /// The partition labelled `label`.
    pub fn label(self, label: &str) -> (res: Partition)
        ensures
            res@ == (PartitionView { label: Some(label@), ..self@ }),
    {
        Partition { label: Some(label.to_owned()), ..self }
    }

    /// The partition with type code `code`.
    pub fn code(self, code: &str) -> (res: Partition)
        ensures
            res@ == (PartitionView { code: Some(code@), ..self@ }),
    {
        Partition { code: Some(code.to_owned()), ..self }
    }

    /// The partition of size `size`.
    pub fn size(self, size: &str) -> (res: Partition)
        ensures
            res@ == (PartitionView { size: Some(size@), ..self@ }),
    {
        Partition { size: Some(size.to_owned()), ..self }
    }

    /// The partition holding `filesystem`.
    pub fn filesystem(self, filesystem: Filesystem) -> (res: Partition)
        ensures
            res@ == (PartitionView { filesystem: Some(filesystem@), ..self@ }),
    {
        Partition { filesystem: Some(filesystem), ..self }
    }

    /// The `sgdisk` options that create this partition.
    pub fn sgdisk_opts(&self) -> (res: String)
        requires
            self@.is_complete(),
        ensures
            res@ == sgdisk_line(self@),
    {
        let size = match &self.size { Some(s) => s, None => { assert(false); return String::new(); } };
        let code = match &self.code { Some(s) => s, None => { assert(false); return String::new(); } };
        let label = match &self.label { Some(s) => s, None => { assert(false); return String::new(); } };
        let mut s = cat("-n 0:0:", size.as_str());
        s.append(" -t -0:");
        s.append(code.as_str());
        s.append(" -c 0:");
        s.append(label.as_str());
        s
    }

    /// The command lines that set up what this partition holds, on the
    /// device of its label; none when it holds nothing.
    pub fn cmds(&self) -> (res: Vec<String>)
        requires
            self@.can_set_up(),
        ensures
            res.deep_view() == partition_lines(self@),
    {
        match &self.filesystem {
            Some(fs) => {
                let label = match &self.label { Some(l) => l, None => { assert(false); return Vec::new(); } };
                let device = cat("/dev/disk/by-partlabel/", label.as_str());
                fs.cmds(device.as_str(), label.as_str())
            },
            None => {
                let res: Vec<String> = Vec::new();
                assert(res.deep_view() =~= Seq::<Seq<char>>::empty());
                res
            },
        }
    }
}

} // verus!
