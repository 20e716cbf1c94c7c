//! ZFS pool and dataset creation, written out as shell command lines.

use vstd::prelude::*;

use crate::disk::zfs::{ZfsDataset, ZfsDatasetView, ZfsPool, ZfsSettingsView};
use crate::properties::{option_view, Properties};
use crate::text::{decimal_i32, decimal_int, join, join_spec};

verus! {

/// Settings of the root dataset of the pool.
#[derive(Debug)]
pub struct ZfsRoot {
    pub properties: Option<Properties>,
}

/// A ZFS filesystem: the pool, its root dataset's settings and the datasets.
#[derive(Debug)]
pub struct ZfsSettings {
    pub pool: ZfsPool,
    pub root: ZfsRoot,
    pub datasets: Vec<ZfsDataset>,
}

impl View for ZfsSettings {
    type V = ZfsSettingsView;

    /// The root dataset's properties stand as the pool's properties.
    open spec fn view(&self) -> ZfsSettingsView {
        ZfsSettingsView {
            pool: self.pool@,
            properties: option_view(self.root.properties),
            datasets: self.datasets.deep_view(),
        }
    }
}

/// One property as an option: `-{prefix} {key}={value}`.
pub open spec fn property_option(prefix: Seq<char>, kv: (Seq<char>, Seq<char>)) -> Seq<char> {
    "-"@ + prefix + " "@ + kv.0 + "="@ + kv.1
}

/// All properties as options separated by single spaces; empty when there
/// are none.
pub open spec fn properties_text(prefix: Seq<char>, props: Option<Seq<(Seq<char>, Seq<char>)>>) -> Seq<char> {
    match props {
        Some(p) => join_spec(
            p.map_values(|kv: (Seq<char>, Seq<char>)| property_option(prefix, kv)),
            " "@,
        ),
        None => Seq::empty(),
    }
}

/// The command line that creates the pool on `partition`, its root dataset
/// carrying the properties.
pub open spec fn zpool_line(z: ZfsSettingsView, partition: Seq<char>) -> Seq<char> {
    "zpool create -o ashift="@ + decimal_int(z.pool.ashift as int) + " -O mountpoint=none "@
        + properties_text("O"@, z.properties) + " "@ + z.pool.name + " "@ + partition
}

/// The command lines that create, make the mount point of, and mount one
/// dataset of the pool `root`.
pub open spec fn dataset_lines(root: Seq<char>, d: ZfsDatasetView) -> Seq<Seq<char>> {
    seq![
        "zfs create "@ + root + "/"@ + d.name + " -o mountpoint=legacy "@ + properties_text("o"@, d.properties),
        "mkdir -p "@ + d.mount,
        "mount -t zfs "@ + root + "/"@ + d.name + " "@ + d.mount,
    ]
}

/// The command lines that set up every dataset, dataset by dataset in order.
pub open spec fn datasets_lines(z: ZfsSettingsView) -> Seq<Seq<char>> {
    z.datasets.map_values(|d: ZfsDatasetView| dataset_lines(z.pool.name, d)).flatten()
}

/// The properties as options with the given prefix, separated by spaces;
/// empty when there are none.
pub fn zfs_properties_string(prefix: &str, props: &Option<Properties>) -> (res: String)
    ensures
        res@ == properties_text(prefix@, option_view(*props)),
{
    match props {
        None => String::new(),
        Some(p) => {
            let ghost opts = p@.map_values(
                |kv: (Seq<char>, Seq<char>)| property_option(prefix@, kv),
            );
            let mut items: Vec<String> = Vec::new();
            let n = p.len();
            let mut i: usize = 0;
            while i < n
                invariant
                    n == p@.len(),
                    i <= n,
                    opts == p@.map_values(
                        |kv: (Seq<char>, Seq<char>)| property_option(prefix@, kv),
                    ),
                    items.deep_view() == opts.take(i as int),
                decreases n - i,
            {
                let (k, v) = p.entry(i);
                let mut item = "-".to_owned();
                item.append(prefix);
                item.append(" ");
                item.append(k.as_str());
                item.append("=");
                item.append(v.as_str());
                let ghost before = items.deep_view();
                assert(item@ =~= property_option(prefix@, p@[i as int]));
                assert(opts[i as int] == property_option(prefix@, p@[i as int]));
                items.push(item);
                assert(items.deep_view() =~= before.push(opts[i as int]));
                assert(items.deep_view() =~= opts.take(i + 1));
                i = i + 1;
            }
            assert(opts.take(n as int) =~= opts);
            join(&items, " ")
        },
    }
}

impl ZfsSettings {
    /// The command line that creates the pool on `partition`.
    pub fn zpool_cmd(&self, partition: &str) -> (res: String)
        ensures
            res@ == zpool_line(self@, partition@),
    {
        let mut s = "zpool create -o ashift=".to_owned();
        s.append(decimal_i32(self.pool.ashift).as_str());
        s.append(" -O mountpoint=none ");
        s.append(zfs_properties_string("O", &self.root.properties).as_str());
        s.append(" ");
        s.append(self.pool.name.as_str());
        s.append(" ");
        s.append(partition);
        s
    }

    /// The command lines that set up all datasets of the pool, in order.
    pub fn dataset_cmds(&self) -> (res: Vec<String>)
        ensures
            res.deep_view() == datasets_lines(self@),
    {
        let ghost per = self@.datasets.map_values(
            |d: ZfsDatasetView| dataset_lines(self@.pool.name, d),
        );
        let mut res: Vec<String> = Vec::new();
        let n = self.datasets.len();
        let mut i: usize = 0;
        assert(res.deep_view() =~= per.take(0).flatten());
        while i < n
            invariant
                n == self.datasets.len(),
                i <= n,
                per == self@.datasets.map_values(
                    |d: ZfsDatasetView| dataset_lines(self@.pool.name, d),
                ),
                res.deep_view() == per.take(i as int).flatten(),
            decreases n - i,
        {
            let mut more = create_dataset(self.pool.name.as_str(), &self.datasets[i]);
            let ghost before = res.deep_view();
            let ghost added = more.deep_view();
            res.append(&mut more);
            proof {
                assert(res.deep_view() =~= before + added);
                assert(per.take(i + 1) =~= per.take(i as int).push(per[i as int]));
                per.take(i as int).lemma_flatten_push(per[i as int]);
            }
            i = i + 1;
        }
        assert(per.take(n as int) =~= per);
        res
    }
}

/// The command lines that create, make the mount point of, and mount
/// `dataset` of the pool `root`.
pub fn create_dataset(root: &str, dataset: &ZfsDataset) -> (res: Vec<String>)
    ensures
        res.deep_view() == dataset_lines(root@, dataset@),
{
    let mut create = "zfs create ".to_owned();
    create.append(root);
    create.append("/");
    create.append(dataset.name.as_str());
    create.append(" -o mountpoint=legacy ");
    create.append(zfs_properties_string("o", &dataset.properties).as_str());

    let mut mkdir = "mkdir -p ".to_owned();
    mkdir.append(dataset.mount.as_str());

    let mut mount = "mount -t zfs ".to_owned();
    mount.append(root);
    mount.append("/");
    mount.append(dataset.name.as_str());
    mount.append(" ");
    mount.append(dataset.mount.as_str());

    let res = vec![create, mkdir, mount];
    assert(res.deep_view() =~= dataset_lines(root@, dataset@));
    res
}

} // verus!
