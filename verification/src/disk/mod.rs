//! The disk layout of an installation and the commands that prepare it.

pub mod duct_util;
pub mod zfs;

use vstd::prelude::*;

use crate::disk::duct_util::{run, Cmd, Expr, ExprView};
use crate::disk::zfs::{
    datasets_setup, duplicate_datasets, zpool_create, ZfsDataset, ZfsDatasetView, ZfsPool,
    ZfsPoolView, ZfsSettings, ZfsSettingsView,
};
use crate::properties::{duplicate_option, option_view, Properties};
use crate::text::cat;

verus! {

/// The settings read from the disk configuration: the size of the boot
/// partition, the device, and the ZFS pool, its properties and datasets.
#[derive(Debug)]
pub struct DiskSettings {
    pub boot_size: String,
    pub device: String,
    pub properties: Option<Properties>,
    pub pool: ZfsPool,
    pub datasets: Vec<ZfsDataset>,
}

/// A disk: its device and its partitions, in order.
#[derive(Debug)]
pub struct Disk {
    pub device: String,
    pub partitions: Vec<Partition>,
}

/// What a partition holds.
#[derive(Debug)]
pub enum Filesystem {
    Efi(EfiFilesystem),
    Luks(LuksFilesystem),
    Zfs(ZfsSettings),
}

/// An EFI system partition mounted below `/mnt` at `mount`.
#[derive(Debug)]
pub struct EfiFilesystem {
    pub mount: String,
}

/// An encrypted container holding another filesystem.
#[derive(Debug)]
pub struct LuksFilesystem {
    pub passphrase: String,
    pub filesystem: Box<Filesystem>,
}

/// A partition: size, type code and label for `sgdisk`, and what it holds.
#[derive(Debug)]
pub struct Partition {
    pub size: Option<String>,
    pub code: Option<String>,
    pub label: Option<String>,
    pub filesystem: Option<Filesystem>,
}

/// The content of the disk settings.
#[verifier::ext_equal]
pub struct DiskSettingsView {
    pub boot_size: Seq<char>,
    pub device: Seq<char>,
    pub properties: Option<Seq<(Seq<char>, Seq<char>)>>,
    pub pool: ZfsPoolView,
    pub datasets: Seq<ZfsDatasetView>,
}

/// The content of a filesystem description.
pub enum FilesystemView {
    Efi { mount: Seq<char> },
    Luks { passphrase: Seq<char>, filesystem: Box<FilesystemView> },
    Zfs(ZfsSettingsView),
}

/// The content of a partition description.
#[verifier::ext_equal]
pub struct PartitionView {
    pub size: Option<Seq<char>>,
    pub code: Option<Seq<char>>,
    pub label: Option<Seq<char>>,
    pub filesystem: Option<FilesystemView>,
}

/// The content of a disk description.
#[verifier::ext_equal]
pub struct DiskView {
    pub device: Seq<char>,
    pub partitions: Seq<PartitionView>,
}

/// The text of an optional string.
pub open spec fn option_text(s: Option<String>) -> Option<Seq<char>> {
    match s {
        Some(t) => Some(t@),
        None => None,
    }
}

/// The content of a filesystem description.
pub open spec fn filesystem_view(fs: Filesystem) -> FilesystemView
    decreases fs,
{
    match fs {
        Filesystem::Efi(e) => FilesystemView::Efi { mount: e.mount@ },
        Filesystem::Luks(l) => FilesystemView::Luks {
            passphrase: l.passphrase@,
            filesystem: Box::new(filesystem_view(*l.filesystem)),
        },
        Filesystem::Zfs(z) => FilesystemView::Zfs(z@),
    }
}

/// The content of an optional filesystem description.
pub open spec fn option_filesystem_view(fs: Option<Filesystem>) -> Option<FilesystemView> {
    match fs {
        Some(f) => Some(filesystem_view(f)),
        None => None,
    }
}

impl View for DiskSettings {
    type V = DiskSettingsView;

    open spec fn view(&self) -> DiskSettingsView {
        DiskSettingsView {
            boot_size: self.boot_size@,
            device: self.device@,
            properties: option_view(self.properties),
            pool: self.pool@,
            datasets: self.datasets.deep_view(),
        }
    }
}

impl View for Filesystem {
    type V = FilesystemView;

    open spec fn view(&self) -> FilesystemView {
        filesystem_view(*self)
    }
}

impl View for Partition {
    type V = PartitionView;

    open spec fn view(&self) -> PartitionView {
        PartitionView {
            size: option_text(self.size),
            code: option_text(self.code),
            label: option_text(self.label),
            filesystem: option_filesystem_view(self.filesystem),
        }
    }
}

impl DeepView for Partition {
    type V = PartitionView;

    open spec fn deep_view(&self) -> PartitionView {
        self@
    }
}

impl View for Disk {
    type V = DiskView;

    open spec fn view(&self) -> DiskView {
        DiskView { device: self.device@, partitions: self.partitions.deep_view() }
    }
}

/// The device node of the partition labelled `label`.
pub open spec fn partlabel_path(label: Seq<char>) -> Seq<char> {
    "/dev/disk/by-partlabel/"@ + label
}

/// The name under which the container on the partition labelled `label` is opened.
pub open spec fn decrypted_name(label: Seq<char>) -> Seq<char> {
    "decrypted-"@ + label
}

/// The device node of the opened container of the partition labelled `label`.
pub open spec fn decrypted_path(label: Seq<char>) -> Seq<char> {
    "/dev/mapper/decrypted-"@ + label
}

/// Format the EFI partition `device` as FAT32, make its mount point below
/// `/mnt`, and mount it there.
pub open spec fn efi_setup(mount: Seq<char>, device: Seq<char>) -> Seq<ExprView> {
    let target = "/mnt"@ + mount;
    seq![
        run("mkfs.fat"@, seq!["-F"@, "32"@, device]),
        run("mkdir"@, seq![target]),
        run("mount"@, seq![device, target]),
    ]
}

/// Format `device` as an encrypted container and open it, both fed the
/// passphrase on standard input.
pub open spec fn luks_open(passphrase: Seq<char>, device: Seq<char>, label: Seq<char>) -> Seq<ExprView> {
    seq![
        run("cryptsetup"@, seq!["luksFormat"@, device]).with_stdin(passphrase),
        run("cryptsetup"@, seq!["open"@, device, decrypted_name(label)]).with_stdin(passphrase),
    ]
}

/// The commands that set up `fs` on `device`, whose partition is labelled `label`.
pub open spec fn filesystem_setup(fs: FilesystemView, device: Seq<char>, label: Seq<char>) -> Seq<ExprView>
    decreases fs,
{
    match fs {
        FilesystemView::Efi { mount } => efi_setup(mount, device),
        FilesystemView::Luks { passphrase, filesystem } => luks_open(passphrase, device, label)
            + filesystem_setup(*filesystem, decrypted_path(label), decrypted_name(label)),
        FilesystemView::Zfs(z) => seq![zpool_create(z, device)] + datasets_setup(z),
    }
}

/// The commands that set up what the container holds, after opening it.
pub open spec fn luks_setup(passphrase: Seq<char>, inner: FilesystemView, device: Seq<char>, label: Seq<char>) -> Seq<ExprView> {
    luks_open(passphrase, device, label) + filesystem_setup(inner, decrypted_path(label), decrypted_name(label))
}

impl PartitionView {
    /// Size, type code and label are all given.
    pub open spec fn is_complete(self) -> bool {
        self.size is Some && self.code is Some && self.label is Some
    }

    /// A partition that holds a filesystem has a label.
    pub open spec fn can_set_up(self) -> bool {
        self.filesystem is Some ==> self.label is Some
    }

    /// The `sgdisk` arguments that create the partition.
    pub open spec fn sgdisk_words(self) -> Seq<Seq<char>> {
        seq![
            "-n"@, "0:0:"@ + self.size.unwrap(),
            "-t"@, "0:"@ + self.code.unwrap(),
            "-c"@, "0:"@ + self.label.unwrap(),
        ]
    }

    /// The commands that set up what the partition holds.
    pub open spec fn setup(self) -> Seq<ExprView> {
        match self.filesystem {
            Some(fs) => filesystem_setup(fs, partlabel_path(self.label.unwrap()), self.label.unwrap()),
            None => Seq::empty(),
        }
    }
}

impl DiskView {
    /// Every partition is complete.
    pub open spec fn is_complete(self) -> bool {
        forall|i: int| 0 <= i < self.partitions.len() ==> (#[trigger] self.partitions[i]).is_complete()
    }

    /// The command that wipes the partition table and creates all partitions.
    pub open spec fn format_command(self) -> ExprView {
        run(
            "sgdisk"@,
            seq!["-Z"@] + self.partitions.map_values(|p: PartitionView| p.sgdisk_words()).flatten()
                + seq![self.device],
        )
    }

    /// The commands that set up the partitions, partition by partition in order.
    pub open spec fn partitions_setup(self) -> Seq<ExprView> {
        self.partitions.map_values(|p: PartitionView| p.setup()).flatten()
    }

    /// Formatting, then the set-up of each partition.
    pub open spec fn setup(self) -> Seq<ExprView> {
        seq![self.format_command()] + self.partitions_setup()
    }
}

/// The disk that the settings describe: an EFI boot partition of the
/// configured size, then an encrypted partition filling the rest of the disk
/// that holds the ZFS pool with its datasets.
pub open spec fn planned_disk(s: DiskSettingsView) -> DiskView {
    DiskView {
        device: s.device,
        partitions: seq![
            PartitionView {
                size: Some(s.boot_size),
                code: Some("ef00"@),
                label: Some("efiboot"@),
                filesystem: Some(FilesystemView::Efi { mount: "/efi"@ }),
            },
            PartitionView {
                size: Some("0"@),
                code: Some("8300"@),
                label: Some("zfsroot"@),
                filesystem: Some(FilesystemView::Luks {
                    passphrase: "jimminy"@,
                    filesystem: Box::new(FilesystemView::Zfs(ZfsSettingsView {
                        pool: s.pool,
                        properties: s.properties,
                        datasets: s.datasets,
                    })),
                }),
            },
        ],
    }
}

impl DiskSettings {
    /// The disk that these settings describe (see `planned_disk`).
    pub fn get_disk(&self) -> (res: Disk)
        ensures
            res@ == planned_disk(self@),
    {
        let zfs = ZfsSettings {
            pool: self.pool.duplicate(),
            properties: duplicate_option(&self.properties),
            datasets: duplicate_datasets(&self.datasets),
        };
        let ghost zfs_view = zfs@;
        assert(filesystem_view(Filesystem::Zfs(zfs)) == FilesystemView::Zfs(zfs_view));
        let res = Disk::new(self.device.as_str())
            .add_partition(
                Partition::new()
                    .size(self.boot_size.as_str())
                    .code("ef00")
                    .label("efiboot")
                    .filesystem(Filesystem::Efi(EfiFilesystem { mount: "/efi".to_owned() })),
            )
            .add_partition(
                Partition::new()
                    .label("zfsroot")
                    .code("8300")
                    .size("0")
                    .filesystem(Filesystem::Luks(LuksFilesystem {
                        passphrase: "jimminy".to_owned(),
                        filesystem: Box::new(Filesystem::Zfs(zfs)),
                    })),
            );
        assert(res@.partitions =~= planned_disk(self@).partitions);
        res
    }
}

impl Disk {
    /// A disk on `device` with no partitions yet.
    pub fn new(device: &str) -> (res: Disk)
        ensures
            res@ == (DiskView { device: device@, partitions: Seq::empty() }),
    {
        let res = Disk { device: device.to_owned(), partitions: Vec::new() };
        assert(res.partitions.deep_view() =~= Seq::<PartitionView>::empty());
        res
    }

    /// The command that wipes the partition table of the disk and creates
    /// all its partitions in order.
    pub fn format_cmd(&self) -> (res: Expr)
        requires
            self@.is_complete(),
        ensures
            res@ == self@.format_command(),
    {
        let ghost per = self@.partitions.map_values(|p: PartitionView| p.sgdisk_words());
        let mut opts: Vec<String> = Vec::new();
        let n = self.partitions.len();
        let mut i: usize = 0;
        assert(opts.deep_view() =~= per.take(0).flatten());
        while i < n
            invariant
                n == self.partitions.len(),
                i <= n,
                self@.is_complete(),
                per == self@.partitions.map_values(|p: PartitionView| p.sgdisk_words()),
                opts.deep_view() == per.take(i as int).flatten(),
            decreases n - i,
        {
            assert(self@.partitions[i as int].is_complete());
            let mut more = self.partitions[i].sgdisk_opts();
            let ghost before = opts.deep_view();
            let ghost added = more.deep_view();
            opts.append(&mut more);
            proof {
                assert(opts.deep_view() =~= before + added);
                assert(per.take(i + 1) =~= per.take(i as int).push(per[i as int]));
                per.take(i as int).lemma_flatten_push(per[i as int]);
            }
            i = i + 1;
        }
        assert(per.take(n as int) =~= per);
        let res = Cmd::new("sgdisk").arg("-Z").args(&opts).arg(self.device.as_str()).to_expr();
        assert(res@.args =~= self@.format_command().args);
        res
    }

    /// All commands that prepare the disk: formatting first, then the set-up
    /// of each partition in order.
    pub fn cmds(&self) -> (res: Vec<Expr>)
        requires
            self@.is_complete(),
        ensures
            res.deep_view() == self@.setup(),
    {
        let ghost per = self@.partitions.map_values(|p: PartitionView| p.setup());
        let mut cmds: Vec<Expr> = Vec::new();
        cmds.push(self.format_cmd());
        let n = self.partitions.len();
        let mut i: usize = 0;
        assert(cmds.deep_view() =~= seq![self@.format_command()] + per.take(0).flatten());
        while i < n
            invariant
                n == self.partitions.len(),
                i <= n,
                self@.is_complete(),
                per == self@.partitions.map_values(|p: PartitionView| p.setup()),
                cmds.deep_view() == seq![self@.format_command()] + per.take(i as int).flatten(),
            decreases n - i,
        {
            assert(self@.partitions[i as int].is_complete());
            let mut more = self.partitions[i].cmds();
            let ghost before = cmds.deep_view();
            let ghost added = more.deep_view();
            cmds.append(&mut more);
            proof {
                assert(per.take(i + 1) =~= per.take(i as int).push(per[i as int]));
                per.take(i as int).lemma_flatten_push(per[i as int]);
                assert(cmds.deep_view() =~= before + added);
            }
            i = i + 1;
        }
        assert(per.take(n as int) =~= per);
        cmds
    }

    /// The disk with `partition` added after its other partitions.
    pub fn add_partition(self, partition: Partition) -> (res: Disk)
        ensures
            res@ == (DiskView { device: self@.device, partitions: self@.partitions.push(partition@) }),
    {
        let mut d = self;
        let ghost before = d.partitions.deep_view();
        d.partitions.push(partition);
        assert(d.partitions.deep_view() =~= before.push(partition@));
        d
    }
}

impl Filesystem {
    /// The commands that set up the filesystem on `device`, whose partition
    /// is labelled `label`.
    pub fn cmds(&self, device: &str, label: &str) -> (res: Vec<Expr>)
        ensures
            res.deep_view() == filesystem_setup(self@, device@, label@),
        decreases self,
    {
        match self {
            Filesystem::Efi(efi) => efi.cmds(device, label),
            Filesystem::Luks(luks) => luks.cmds(device, label),
            Filesystem::Zfs(zfsfs) => {
                let mut cmds: Vec<Expr> = Vec::new();
                cmds.push(zfsfs.zpool_cmd(device));
                let mut more = zfsfs.dataset_cmds();
                let ghost before = cmds.deep_view();
                let ghost added = more.deep_view();
                cmds.append(&mut more);
                assert(cmds.deep_view() =~= before + added);
                cmds
            },
        }
    }
}

impl EfiFilesystem {
    /// Format `device` as FAT32, make the mount point below `/mnt`, mount it.
    pub fn cmds(&self, device: &str, _label: &str) -> (res: Vec<Expr>)
        ensures
            res.deep_view() == efi_setup(self.mount@, device@),
    {
        let mount = cat("/mnt", self.mount.as_str());
        let format = Cmd::new("mkfs.fat").opt("-F", "32").arg(device).to_expr();
        let mkdir = Cmd::new("mkdir").arg(mount.as_str()).to_expr();
        let mnt = Cmd::new("mount").arg(device).arg(mount.as_str()).to_expr();
        let ghost spec = efi_setup(self.mount@, device@);
        assert(format@.args =~= spec[0].args);
        assert(mkdir@.args =~= spec[1].args);
        assert(mnt@.args =~= spec[2].args);
        let res = vec![format, mkdir, mnt];
        assert(res.deep_view() =~= spec);
        res
    }
}

impl LuksFilesystem {
    /// Format `device` as an encrypted container, open it, then set up the
    /// filesystem it holds on the opened device.
    pub fn cmds(&self, device: &str, label: &str) -> (res: Vec<Expr>)
        ensures
            res.deep_view() == luks_setup(self.passphrase@, filesystem_view(*self.filesystem), device@, label@),
        decreases self,
    {
        let name = cat("decrypted-", label);
        let format = Cmd::new("cryptsetup")
            .arg("luksFormat")
            .arg(device)
            .to_expr()
            .input(self.passphrase.as_str());
        let open = Cmd::new("cryptsetup")
            .arg("open")
            .arg(device)
            .arg(name.as_str())
            .to_expr()
            .input(self.passphrase.as_str());
        let ghost head = luks_open(self.passphrase@, device@, label@);
        assert(format@.args =~= head[0].args);
        assert(open@.args =~= head[1].args);
        let mut a = vec![format, open];
        assert(a.deep_view() =~= head);
        let path = cat("/dev/mapper/decrypted-", label);
        let mut inner = self.filesystem.cmds(path.as_str(), name.as_str());
        let ghost added = inner.deep_view();
        a.append(&mut inner);
        assert(a.deep_view() =~= head + added);
        a
    }
}

impl Partition {
    /// A partition with nothing set yet.
    pub fn new() -> (res: Partition)
        ensures
            res@ == (PartitionView { size: None, code: None, label: None, filesystem: None }),
    {
        Partition { size: None, code: None, label: None, filesystem: None }
    }

    /// The partition labelled `label`.
    pub fn label(self, label: &str) -> (res: Partition)
        ensures
            res@ == (PartitionView { label: Some(label@), ..self@ }),
    {
        Partition { label: Some(label.to_owned()), ..self }
    }

    /// The partition with type code `code`.
    pub fn code(self, code: &str) -> (res: Partition)
        ensures
            res@ == (PartitionView { code: Some(code@), ..self@ }),
    {
        Partition { code: Some(code.to_owned()), ..self }
    }

    /// The partition of size `size`.
    pub fn size(self, size: &str) -> (res: Partition)
        ensures
            res@ == (PartitionView { size: Some(size@), ..self@ }),
    {
        Partition { size: Some(size.to_owned()), ..self }
    }

    /// The partition holding `filesystem`.
    pub fn filesystem(self, filesystem: Filesystem) -> (res: Partition)
        ensures
            res@ == (PartitionView { filesystem: Some(filesystem@), ..self@ }),
    {
        Partition { filesystem: Some(filesystem), ..self }
    }

    /// The `sgdisk` arguments that create this partition: number and start
    /// left to `sgdisk`, then size, type code and label.
    pub fn sgdisk_opts(&self) -> (res: Vec<String>)
        requires
            self@.is_complete(),
        ensures
            res.deep_view() == self@.sgdisk_words(),
    {
        let size = match &self.size { Some(s) => s, None => { assert(false); return Vec::new(); } };
        let code = match &self.code { Some(s) => s, None => { assert(false); return Vec::new(); } };
        let label = match &self.label { Some(s) => s, None => { assert(false); return Vec::new(); } };
        let res = vec![
            "-n".to_owned(),
            cat("0:0:", size.as_str()),
            "-t".to_owned(),
            cat("0:", code.as_str()),
            "-c".to_owned(),
            cat("0:", label.as_str()),
        ];
        assert(res.deep_view() =~= self@.sgdisk_words());
        res
    }

    /// The commands that set up what this partition holds, on the device of
    /// its label; none when it holds nothing.
    pub fn cmds(&self) -> (res: Vec<Expr>)
        requires
            self@.can_set_up(),
        ensures
            res.deep_view() == self@.setup(),
    {
        match &self.filesystem {
            Some(fs) => {
                let label = match &self.label { Some(l) => l, None => { assert(false); return Vec::new(); } };
                let device = cat("/dev/disk/by-partlabel/", label.as_str());
                fs.cmds(device.as_str(), label.as_str())
            },
            None => {
                let res: Vec<Expr> = Vec::new();
                assert(res.deep_view() =~= Seq::<ExprView>::empty());
                res
            },
        }
    }
}

} // verus!
