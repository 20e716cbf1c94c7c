//! Properties of the installation plan as a whole.

use vstd::prelude::*;

use crate::commands::install::{generate_config, install_plan};
use crate::disk::duct_util::{run, ExprView};
use crate::disk::zfs::{
    dataset_path, dataset_setup, datasets_setup, property_words, zpool_create, ZfsDatasetView,
    ZfsSettingsView, MOUNT_WAIT_MS,
};
use crate::commands::install::disk::{disk_lines, filesystem_lines, partition_lines};
use crate::commands::install::zfs::{dataset_lines, datasets_lines};
use crate::disk::{
    DiskView, PartitionView, decrypted_name, decrypted_path, efi_setup, filesystem_setup, luks_open, partlabel_path,
    planned_disk, DiskSettingsView, FilesystemView, luks_setup,
};

verus! {

/// Flattening sequences of equal length `k`: the length is the product, and
/// element `r` of part `i` lands at `i * k + r`.
pub proof fn lemma_flatten_uniform<A>(s: Seq<Seq<A>>, k: int)
    requires
        k >= 0,
        forall|i: int| 0 <= i < s.len() ==> #[trigger] s[i].len() == k,
    ensures
        s.flatten().len() == s.len() * k,
        forall|i: int, r: int| 0 <= i < s.len() && 0 <= r < k ==> s.flatten()[i * k + r] == #[trigger] s[i][r],
    decreases s.len(),
{
    if s.len() > 0 {
        let rest = s.drop_first();
        lemma_flatten_uniform(rest, k);
        assert(s.flatten() == s.first() + rest.flatten());
        assert((s.len() - 1) * k + k == s.len() * k) by (nonlinear_arith);
        assert forall|i: int, r: int| 0 <= i < s.len() && 0 <= r < k implies s.flatten()[i * k + r] == #[trigger] s[i][r] by {
            if i > 0 {
                assert(rest[i - 1] == s[i]);
                assert((i - 1) * k + r + k == i * k + r) by (nonlinear_arith);
                assert(0 <= (i - 1) * k + r < rest.len() * k) by (nonlinear_arith)
                    requires 1 <= i < s.len(), k >= 0, 0 <= r < k, rest.len() == s.len() - 1;
                assert(rest.flatten()[(i - 1) * k + r] == rest[i - 1][r]);
                assert(s.flatten()[i * k + r] == rest.flatten()[(i - 1) * k + r]);
            } else {
                assert(s[0] == s.first());
                assert(s.flatten()[r] == s.first()[r]);
            }
        }
    }
}

/// Flattening keeps a property that every element of every part has.
pub proof fn lemma_flatten_all<A>(s: Seq<Seq<A>>, p: spec_fn(A) -> bool)
    requires
        forall|i: int, j: int| 0 <= i < s.len() && 0 <= j < s[i].len() ==> p(#[trigger] s[i][j]),
    ensures
        forall|k: int| 0 <= k < s.flatten().len() ==> p(#[trigger] s.flatten()[k]),
    decreases s.len(),
{
    if s.len() > 0 {
        let rest = s.drop_first();
        assert forall|i: int, j: int| 0 <= i < rest.len() && 0 <= j < rest[i].len() implies p(#[trigger] rest[i][j]) by {
            assert(rest[i] == s[i + 1]);
        }
        lemma_flatten_all(rest, p);
        assert(s.flatten() == s.first() + rest.flatten());
        assert forall|k: int| 0 <= k < s.flatten().len() implies p(#[trigger] s.flatten()[k]) by {
            if k < s.first().len() {
                assert(s.flatten()[k] == s[0][k]);
            } else {
                assert(s.flatten()[k] == rest.flatten()[k - s.first().len()]);
            }
        }
    }
}

/// A command reads its standard input only if it is `cryptsetup`.
pub open spec fn stdin_only_for_cryptsetup(c: ExprView) -> bool {
    c.stdin is Some ==> c.program == "cryptsetup"@
}

/// Setting up datasets feeds nothing to any standard input.
proof fn lemma_datasets_no_stdin(z: ZfsSettingsView)
    ensures
        forall|k: int| 0 <= k < datasets_setup(z).len() ==> (#[trigger] datasets_setup(z)[k]).stdin is None,
{
    let per = z.datasets.map_values(|d: ZfsDatasetView| dataset_setup(z.pool.name, d));
    let p = |c: ExprView| c.stdin is None;
    assert forall|i: int, j: int| 0 <= i < per.len() && 0 <= j < per[i].len() implies p(#[trigger] per[i][j]) by {
        assert(per[i] == dataset_setup(z.pool.name, z.datasets[i]));
    }
    lemma_flatten_all(per, p);
}

/// Only `cryptsetup` is ever fed standard input (the passphrase) while a
/// filesystem is set up: every other command gets its input from its
/// arguments alone.
pub proof fn law_stdin_only_for_cryptsetup(fs: FilesystemView, device: Seq<char>, label: Seq<char>)
    ensures
        forall|k: int| 0 <= k < filesystem_setup(fs, device, label).len()
            ==> stdin_only_for_cryptsetup(#[trigger] filesystem_setup(fs, device, label)[k]),
    decreases fs,
{
    let cmds = filesystem_setup(fs, device, label);
    match fs {
        FilesystemView::Efi { mount } => {},
        FilesystemView::Luks { passphrase, filesystem } => {
            law_stdin_only_for_cryptsetup(*filesystem, decrypted_path(label), decrypted_name(label));
            let head = luks_open(passphrase, device, label);
            let tail = filesystem_setup(*filesystem, decrypted_path(label), decrypted_name(label));
            assert forall|k: int| 0 <= k < cmds.len() implies stdin_only_for_cryptsetup(#[trigger] cmds[k]) by {
                if k >= 2 {
                    assert(cmds[k] == tail[k - 2]);
                }
            }
        },
        FilesystemView::Zfs(z) => {
            lemma_datasets_no_stdin(z);
            assert forall|k: int| 0 <= k < cmds.len() implies stdin_only_for_cryptsetup(#[trigger] cmds[k]) by {
                if k >= 1 {
                    assert(cmds[k] == datasets_setup(z)[k - 1]);
                }
            }
        },
    }
}

/// Each dataset takes three consecutive commands, in the order of the
/// datasets: create it (unmounted by ZFS itself), make its mount point,
/// then mount it after the wait.
pub proof fn law_dataset_steps(z: ZfsSettingsView, j: int)
    requires
        0 <= j < z.datasets.len(),
    ensures
        datasets_setup(z).len() == 3 * z.datasets.len(),
        datasets_setup(z)[3 * j] == run(
            "zfs"@,
            seq!["create"@, dataset_path(z.pool.name, z.datasets[j].name), "-o"@, "mountpoint=legacy"@]
                + property_words("-o"@, z.datasets[j].properties),
        ),
        datasets_setup(z)[3 * j + 1] == run("mkdir"@, seq!["-p"@, z.datasets[j].mount]),
        datasets_setup(z)[3 * j + 2] == run(
            "mount"@,
            seq!["-t"@, "zfs"@, dataset_path(z.pool.name, z.datasets[j].name), z.datasets[j].mount],
        ).with_wait(MOUNT_WAIT_MS),
{
    let per = z.datasets.map_values(|d: ZfsDatasetView| dataset_setup(z.pool.name, d));
    assert forall|i: int| 0 <= i < per.len() implies #[trigger] per[i].len() == 3 by {
        assert(per[i] == dataset_setup(z.pool.name, z.datasets[i]));
    }
    lemma_flatten_uniform(per, 3);
    assert(per[j] == dataset_setup(z.pool.name, z.datasets[j]));
    assert(per.flatten()[j * 3 + 0] == per[j][0]);
    assert(per.flatten()[j * 3 + 1] == per[j][1]);
    assert(per.flatten()[j * 3 + 2] == per[j][2]);
}

/// What `install` runs, whatever the settings: the partitioning of the
/// configured device (an EFI boot partition of the configured size, then a
/// root partition over the rest), the EFI set-up on `/mnt/efi`, the
/// encryption of the root partition, the pool on the opened container, three
/// commands per dataset, and last the generation of the NixOS configuration.
pub proof fn law_install_plan_layout(s: DiskSettingsView)
    ensures
        install_plan(s).len() == 8 + 3 * s.datasets.len(),
        install_plan(s)[0] == run(
            "sgdisk"@,
            seq![
                "-Z"@,
                "-n"@, "0:0:"@ + s.boot_size, "-t"@, "0:"@ + "ef00"@, "-c"@, "0:"@ + "efiboot"@,
                "-n"@, "0:0:"@ + "0"@, "-t"@, "0:"@ + "8300"@, "-c"@, "0:"@ + "zfsroot"@,
                s.device,
            ],
        ),
        install_plan(s).subrange(1, 4) == efi_setup("/efi"@, partlabel_path("efiboot"@)),
        install_plan(s).subrange(4, 6) == luks_open("jimminy"@, partlabel_path("zfsroot"@), "zfsroot"@),
        install_plan(s)[6] == zpool_create(
            ZfsSettingsView { pool: s.pool, properties: s.properties, datasets: s.datasets },
            decrypted_path("zfsroot"@),
        ),
        install_plan(s).subrange(7, 7 + 3 * s.datasets.len() as int) == datasets_setup(
            ZfsSettingsView { pool: s.pool, properties: s.properties, datasets: s.datasets },
        ),
        install_plan(s).last() == generate_config(),
{
    let d = planned_disk(s);
    let z = ZfsSettingsView { pool: s.pool, properties: s.properties, datasets: s.datasets };
    if s.datasets.len() > 0 {
        law_dataset_steps(z, 0);
    } else {
        assert(z.datasets.map_values(|d: ZfsDatasetView| dataset_setup(z.pool.name, d)) =~= Seq::<Seq<ExprView>>::empty());
    }
    let words = d.partitions.map_values(|p: crate::disk::PartitionView| p.sgdisk_words());
    assert(words =~= seq![d.partitions[0].sgdisk_words(), d.partitions[1].sgdisk_words()]);
    assert(words.flatten() == words[0] + seq![words[1]].flatten()) by {
        assert(words.drop_first() =~= seq![words[1]]);
    }
    assert(seq![words[1]].flatten() == words[1]) by {
        seq![words[1]].lemma_flatten_singleton();
    }
    assert(d.format_command().args =~= install_plan(s)[0].args);
    let per = d.partitions.map_values(|p: crate::disk::PartitionView| p.setup());
    assert(per =~= seq![d.partitions[0].setup(), d.partitions[1].setup()]);
    assert(per.flatten() == per[0] + seq![per[1]].flatten()) by {
        assert(per.drop_first() =~= seq![per[1]]);
    }
    assert(seq![per[1]].flatten() == per[1]) by {
        seq![per[1]].lemma_flatten_singleton();
    }
    let efi = efi_setup("/efi"@, partlabel_path("efiboot"@));
    let root = filesystem_setup(FilesystemView::Zfs(z), decrypted_path("zfsroot"@), decrypted_name("zfsroot"@));
    assert(per[0] == efi);
    assert(per[1] == luks_open("jimminy"@, partlabel_path("zfsroot"@), "zfsroot"@) + root);
    assert(root == seq![zpool_create(z, decrypted_path("zfsroot"@))] + datasets_setup(z));
    let plan = install_plan(s);
    assert(plan =~= seq![d.format_command()] + efi + luks_open("jimminy"@, partlabel_path("zfsroot"@), "zfsroot"@)
        + seq![zpool_create(z, decrypted_path("zfsroot"@))] + datasets_setup(z) + seq![generate_config()]);
    assert(plan.subrange(1, 4) =~= efi);
    assert(plan.subrange(4, 6) =~= luks_open("jimminy"@, partlabel_path("zfsroot"@), "zfsroot"@));
    assert(plan.subrange(7, 7 + 3 * s.datasets.len() as int) =~= datasets_setup(z));
}

/// Flattening part-wise equally long sequences gives equally long results.
pub proof fn lemma_flatten_same_len<A, B>(s: Seq<Seq<A>>, t: Seq<Seq<B>>)
    requires
        s.len() == t.len(),
        forall|i: int| 0 <= i < s.len() ==> (#[trigger] s[i]).len() == t[i].len(),
    ensures
        s.flatten().len() == t.flatten().len(),
    decreases s.len(),
{
    if s.len() > 0 {
        assert forall|i: int| 0 <= i < s.drop_first().len() implies (#[trigger] s.drop_first()[i]).len()
            == t.drop_first()[i].len() by {
            assert(s.drop_first()[i] == s[i + 1]);
            assert(t.drop_first()[i] == t[i + 1]);
        }
        lemma_flatten_same_len(s.drop_first(), t.drop_first());
        assert(s[0].len() == t[0].len());
    }
}

/// The shell-line rendering and the command rendering of a filesystem's
/// set-up have one entry per step: they agree in length.
pub proof fn law_renderings_agree(fs: FilesystemView, device: Seq<char>, label: Seq<char>)
    ensures
        filesystem_lines(fs, device, label).len() == filesystem_setup(fs, device, label).len(),
    decreases fs,
{
    match fs {
        FilesystemView::Efi { mount } => {},
        FilesystemView::Luks { passphrase, filesystem } => {
            law_renderings_agree(*filesystem, decrypted_path(label), decrypted_name(label));
            assert(decrypted_path(label) == "/dev/mapper/decrypted-"@ + label);
        },
        FilesystemView::Zfs(z) => {
            let lines = z.datasets.map_values(|d: ZfsDatasetView| dataset_lines(z.pool.name, d));
            let cmds = z.datasets.map_values(|d: ZfsDatasetView| dataset_setup(z.pool.name, d));
            assert forall|i: int| 0 <= i < lines.len() implies (#[trigger] lines[i]).len() == cmds[i].len() by {
                assert(lines[i] == dataset_lines(z.pool.name, z.datasets[i]));
                assert(cmds[i] == dataset_setup(z.pool.name, z.datasets[i]));
            }
            lemma_flatten_same_len(lines, cmds);
            assert(datasets_lines(z) == lines.flatten());
            assert(datasets_setup(z) == cmds.flatten());
        },
    }
}

/// For a whole disk the two renderings agree step for step, except that
/// the command rendering starts with the partitioning.
pub proof fn law_disk_renderings_agree(d: DiskView)
    requires
        forall|i: int| 0 <= i < d.partitions.len() ==> (#[trigger] d.partitions[i]).can_set_up(),
    ensures
        d.setup().len() == disk_lines(d).len() + 1,
{
    let lines = d.partitions.map_values(|p: PartitionView| partition_lines(p));
    let cmds = d.partitions.map_values(|p: PartitionView| p.setup());
    assert forall|i: int| 0 <= i < lines.len() implies (#[trigger] lines[i]).len() == cmds[i].len() by {
        let p = d.partitions[i];
        assert(lines[i] == partition_lines(p));
        assert(cmds[i] == p.setup());
        match p.filesystem {
            Some(fs) => {
                law_renderings_agree(fs, partlabel_path(p.label.unwrap()), p.label.unwrap());
            },
            None => {},
        }
    }
    lemma_flatten_same_len(lines, cmds);
}

/// In the whole installation only the two `cryptsetup` commands are fed
/// standard input; every other command runs on its arguments alone.
pub proof fn law_install_plan_stdin(s: DiskSettingsView)
    ensures
        forall|k: int| 0 <= k < install_plan(s).len() ==> stdin_only_for_cryptsetup(#[trigger] install_plan(s)[k]),
{
    law_install_plan_layout(s);
    let plan = install_plan(s);
    let z = ZfsSettingsView { pool: s.pool, properties: s.properties, datasets: s.datasets };
    lemma_datasets_no_stdin(z);
    let n = 3 * s.datasets.len() as int;
    assert forall|k: int| 0 <= k < plan.len() implies stdin_only_for_cryptsetup(#[trigger] plan[k]) by {
        if 1 <= k < 4 {
            assert(plan[k] == plan.subrange(1, 4)[k - 1]);
        } else if 4 <= k < 6 {
            assert(plan[k] == plan.subrange(4, 6)[k - 4]);
        } else if 7 <= k < 7 + n {
            assert(plan[k] == plan.subrange(7, 7 + n)[k - 7]);
        } else if k == plan.len() - 1 {
            assert(plan[k] == plan.last());
        }
    }
}

/// Every property is passed, in order, each as the flag followed by
/// `key=value`: twice as many words as properties, none dropped, words
/// `2i` and `2i + 1` standing for property `i`.
pub proof fn law_property_words(flag: Seq<char>, props: Seq<(Seq<char>, Seq<char>)>)
    ensures
        property_words(flag, Some(props)).len() == 2 * props.len(),
        forall|i: int| 0 <= i < props.len() ==>
            property_words(flag, Some(props)).subrange(2 * i, 2 * i + 2)
                == seq![flag, (#[trigger] props[i]).0 + "="@ + props[i].1],
        property_words(flag, None).len() == 0,
{
    let per = props.map_values(|kv: (Seq<char>, Seq<char>)| seq![flag, kv.0 + "="@ + kv.1]);
    assert forall|i: int| 0 <= i < per.len() implies #[trigger] per[i].len() == 2 by {
        assert(per[i] == seq![flag, props[i].0 + "="@ + props[i].1]);
    }
    lemma_flatten_uniform(per, 2);
    let words = property_words(flag, Some(props));
    assert(words == per.flatten());
    assert forall|i: int| 0 <= i < props.len() implies
        words.subrange(2 * i, 2 * i + 2) == seq![flag, (#[trigger] props[i]).0 + "="@ + props[i].1]
    by {
        assert(per[i] == seq![flag, props[i].0 + "="@ + props[i].1]);
        assert(per[i][0] == flag);
        assert(per[i][1] == props[i].0 + "="@ + props[i].1);
        assert(per.flatten()[i * 2 + 0] == per[i][0]);
        assert(per.flatten()[i * 2 + 1] == per[i][1]);
        assert(words.subrange(2 * i, 2 * i + 2) =~= seq![flag, props[i].0 + "="@ + props[i].1]);
    }
}

/// The pool is created by `zpool create` with its ashift, with ZFS's own
/// mounting turned off, then every pool property as `-o key=value` in
/// order, then the pool name and the device; nothing is fed to it.
pub proof fn law_zpool_create_args(z: ZfsSettingsView, partition: Seq<char>)
    ensures
        ({
            let c = zpool_create(z, partition);
            let n: int = match z.properties { Some(p) => p.len() as int, None => 0 };
            &&& c.program == "zpool"@
            &&& c.stdin is None
            &&& c.wait_ms is None
            &&& c.args.len() == 7 + 2 * n
            &&& c.args.take(5) == seq![
                "create"@, "-o"@, "ashift="@ + crate::text::decimal_int(z.pool.ashift as int), "-O"@, "mountpoint=none"@,
            ]
            &&& c.args[5 + 2 * n] == z.pool.name
            &&& c.args[6 + 2 * n] == partition
        }),
        forall|p: Seq<(Seq<char>, Seq<char>)>, i: int| z.properties == Some(p) && 0 <= i < p.len() ==>
            zpool_create(z, partition).args.subrange(5 + 2 * i, 7 + 2 * i)
                == seq!["-o"@, (#[trigger] p[i]).0 + "="@ + p[i].1],
{
    let c = zpool_create(z, partition);
    let words = property_words("-o"@, z.properties);
    let head = seq!["create"@, "-o"@, "ashift="@ + crate::text::decimal_int(z.pool.ashift as int), "-O"@, "mountpoint=none"@];
    assert(c.args == head + words + seq![z.pool.name, partition]);
    assert(c.args.take(5) =~= head);
    match z.properties {
        Some(p) => {
            law_property_words("-o"@, p);
            assert forall|q: Seq<(Seq<char>, Seq<char>)>, i: int| z.properties == Some(q) && 0 <= i < q.len() implies
                zpool_create(z, partition).args.subrange(5 + 2 * i, 7 + 2 * i)
                    == seq!["-o"@, (#[trigger] q[i]).0 + "="@ + q[i].1]
            by {
                assert(q == p);
                assert(words.subrange(2 * i, 2 * i + 2) == seq!["-o"@, p[i].0 + "="@ + p[i].1]);
                assert(c.args.subrange(5 + 2 * i, 7 + 2 * i) =~= words.subrange(2 * i, 2 * i + 2));
            }
        },
        None => {
            law_property_words("-o"@, Seq::empty());
        },
    }
}

/// A dataset is created as `zfs create root/name -o mountpoint=legacy`
/// followed by every one of its properties as `-o key=value` in order.
pub proof fn law_dataset_create_args(root: Seq<char>, d: ZfsDatasetView)
    ensures
        ({
            let c = dataset_setup(root, d)[0];
            let n: int = match d.properties { Some(p) => p.len() as int, None => 0 };
            &&& c.program == "zfs"@
            &&& c.args.len() == 4 + 2 * n
            &&& c.args.take(4) == seq!["create"@, root + "/"@ + d.name, "-o"@, "mountpoint=legacy"@]
        }),
        forall|p: Seq<(Seq<char>, Seq<char>)>, i: int| d.properties == Some(p) && 0 <= i < p.len() ==>
            dataset_setup(root, d)[0].args.subrange(4 + 2 * i, 6 + 2 * i)
                == seq!["-o"@, (#[trigger] p[i]).0 + "="@ + p[i].1],
{
    let words = property_words("-o"@, d.properties);
    let c = dataset_setup(root, d)[0];
    let head = seq!["create"@, root + "/"@ + d.name, "-o"@, "mountpoint=legacy"@];
    assert(c.args == head + words);
    assert(c.args.take(4) =~= head);
    match d.properties {
        Some(p) => {
            law_property_words("-o"@, p);
            assert forall|q: Seq<(Seq<char>, Seq<char>)>, i: int| d.properties == Some(q) && 0 <= i < q.len() implies
                dataset_setup(root, d)[0].args.subrange(4 + 2 * i, 6 + 2 * i)
                    == seq!["-o"@, (#[trigger] q[i]).0 + "="@ + q[i].1]
            by {
                assert(q == p);
                assert(words.subrange(2 * i, 2 * i + 2) == seq!["-o"@, p[i].0 + "="@ + p[i].1]);
                assert(c.args.subrange(4 + 2 * i, 6 + 2 * i) =~= words.subrange(2 * i, 2 * i + 2));
            }
        },
        None => {
            law_property_words("-o"@, Seq::empty());
        },
    }
}

/// The first command that sets up any filesystem acts on the device it is
/// given: its last argument is that device.
pub proof fn law_setup_starts_on_device(fs: FilesystemView, device: Seq<char>, label: Seq<char>)
    ensures
        filesystem_setup(fs, device, label).len() > 0,
        filesystem_setup(fs, device, label)[0].args.len() > 0,
        filesystem_setup(fs, device, label)[0].args.last() == device,
{
    match fs {
        FilesystemView::Efi { mount } => {},
        FilesystemView::Luks { passphrase, filesystem } => {},
        FilesystemView::Zfs(z) => {
            law_zpool_create_args(z, device);
        },
    }
}

/// A partition labelled `L` that holds a filesystem sets it up on
/// `/dev/disk/by-partlabel/L`, whatever the kind of filesystem: its first
/// command acts on that device.
pub proof fn law_partition_setup_on_partlabel(p: PartitionView)
    requires
        p.filesystem is Some,
        p.label is Some,
    ensures
        p.setup() == filesystem_setup(p.filesystem.unwrap(), "/dev/disk/by-partlabel/"@ + p.label.unwrap(), p.label.unwrap()),
        p.setup().len() > 0,
        p.setup()[0].args.last() == "/dev/disk/by-partlabel/"@ + p.label.unwrap(),
{
    law_setup_starts_on_device(p.filesystem.unwrap(), "/dev/disk/by-partlabel/"@ + p.label.unwrap(), p.label.unwrap());
}

/// The partitioning command wipes the table (`-Z`), then creates every
/// partition in order with its size, type code and label, six words each,
/// and ends with the device.
pub proof fn law_format_command_args(d: DiskView)
    requires
        d.is_complete(),
    ensures
        d.format_command().program == "sgdisk"@,
        d.format_command().args.len() == 6 * d.partitions.len() + 2,
        d.format_command().args[0] == "-Z"@,
        d.format_command().args[6 * d.partitions.len() as int + 1] == d.device,
        forall|i: int| 0 <= i < d.partitions.len() ==> {
            &&& d.format_command().args[6 * i + 1] == "-n"@
            &&& d.format_command().args[6 * i + 2] == "0:0:"@ + (#[trigger] d.partitions[i]).size.unwrap()
            &&& d.format_command().args[6 * i + 3] == "-t"@
            &&& d.format_command().args[6 * i + 4] == "0:"@ + d.partitions[i].code.unwrap()
            &&& d.format_command().args[6 * i + 5] == "-c"@
            &&& d.format_command().args[6 * i + 6] == "0:"@ + d.partitions[i].label.unwrap()
        },
{
    let per = d.partitions.map_values(|p: PartitionView| p.sgdisk_words());
    assert forall|i: int| 0 <= i < per.len() implies #[trigger] per[i].len() == 6 by {
        assert(per[i] == d.partitions[i].sgdisk_words());
    }
    lemma_flatten_uniform(per, 6);
    let args = d.format_command().args;
    assert(args == seq!["-Z"@] + per.flatten() + seq![d.device]);
    assert forall|i: int| 0 <= i < d.partitions.len() implies {
        &&& d.format_command().args[6 * i + 1] == "-n"@
        &&& d.format_command().args[6 * i + 2] == "0:0:"@ + (#[trigger] d.partitions[i]).size.unwrap()
        &&& d.format_command().args[6 * i + 3] == "-t"@
        &&& d.format_command().args[6 * i + 4] == "0:"@ + d.partitions[i].code.unwrap()
        &&& d.format_command().args[6 * i + 5] == "-c"@
        &&& d.format_command().args[6 * i + 6] == "0:"@ + d.partitions[i].label.unwrap()
    } by {
        let w = per[i];
        assert(w == d.partitions[i].sgdisk_words());
        assert(w[0] == "-n"@);
        assert(w[1] == "0:0:"@ + d.partitions[i].size.unwrap());
        assert(w[2] == "-t"@);
        assert(w[3] == "0:"@ + d.partitions[i].code.unwrap());
        assert(w[4] == "-c"@);
        assert(w[5] == "0:"@ + d.partitions[i].label.unwrap());
        assert(per.flatten()[i * 6 + 0] == per[i][0]);
    }
}

/// An encrypted container is made by `cryptsetup luksFormat device` and
/// opened by `cryptsetup open device decrypted-label`, both fed the whole
/// passphrase unchanged on standard input; what it holds is then set up on
/// `/dev/mapper/decrypted-label`.
pub proof fn law_luks_setup(passphrase: Seq<char>, inner: FilesystemView, device: Seq<char>, label: Seq<char>)
    ensures
        ({
            let cmds = luks_setup(passphrase, inner, device, label);
            &&& cmds.len() >= 2
            &&& cmds[0].program == "cryptsetup"@
            &&& cmds[0].args == seq!["luksFormat"@, device]
            &&& cmds[0].stdin == Some(passphrase)
            &&& cmds[1].program == "cryptsetup"@
            &&& cmds[1].args == seq!["open"@, device, "decrypted-"@ + label]
            &&& cmds[1].stdin == Some(passphrase)
            &&& cmds.subrange(2, cmds.len() as int) == filesystem_setup(
                inner,
                "/dev/mapper/decrypted-"@ + label,
                "decrypted-"@ + label,
            )
        }),
        filesystem_setup(
            FilesystemView::Luks { passphrase, filesystem: Box::new(inner) },
            device,
            label,
        ) == luks_setup(passphrase, inner, device, label),
{
    let cmds = luks_setup(passphrase, inner, device, label);
    let tail = filesystem_setup(inner, "/dev/mapper/decrypted-"@ + label, "decrypted-"@ + label);
    assert(cmds.subrange(2, cmds.len() as int) =~= tail);
}

} // verus!
