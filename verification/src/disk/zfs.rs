//! ZFS pool and dataset creation.

use vstd::prelude::*;

use crate::disk::duct_util::{run, Cmd, Expr, ExprView};
use crate::properties::{duplicate_option, option_view, Properties};
use crate::text::{cat, cat3, decimal_i32, decimal_int};

verus! {

/// How long, in milliseconds, a dataset mount waits before it runs.
pub const MOUNT_WAIT_MS: u64 = 500;

/// A pool: its `ashift` and its name.
#[derive(Debug)]
pub struct ZfsPool {
    pub ashift: i32,
    pub name: String,
}

/// A dataset: its name below the pool, where it is mounted, and its properties.
#[derive(Debug)]
pub struct ZfsDataset {
    pub name: String,
    pub mount: String,
    pub properties: Option<Properties>,
}

/// A ZFS filesystem: the pool, the pool's properties and the datasets.
#[derive(Debug)]
pub struct ZfsSettings {
    pub pool: ZfsPool,
    pub properties: Option<Properties>,
    pub datasets: Vec<ZfsDataset>,
}

/// The content of a pool description.
#[verifier::ext_equal]
pub struct ZfsPoolView {
    pub ashift: i32,
    pub name: Seq<char>,
}

/// The content of a dataset description.
#[verifier::ext_equal]
pub struct ZfsDatasetView {
    pub name: Seq<char>,
    pub mount: Seq<char>,
    pub properties: Option<Seq<(Seq<char>, Seq<char>)>>,
}

/// The content of a ZFS filesystem description.
#[verifier::ext_equal]
pub struct ZfsSettingsView {
    pub pool: ZfsPoolView,
    pub properties: Option<Seq<(Seq<char>, Seq<char>)>>,
    pub datasets: Seq<ZfsDatasetView>,
}

impl View for ZfsPool {
    type V = ZfsPoolView;

    open spec fn view(&self) -> ZfsPoolView {
        ZfsPoolView { ashift: self.ashift, name: self.name@ }
    }
}

impl View for ZfsDataset {
    type V = ZfsDatasetView;

    open spec fn view(&self) -> ZfsDatasetView {
        ZfsDatasetView {
            name: self.name@,
            mount: self.mount@,
            properties: option_view(self.properties),
        }
    }
}

impl DeepView for ZfsDataset {
    type V = ZfsDatasetView;

    open spec fn deep_view(&self) -> ZfsDatasetView {
        self@
    }
}

impl View for ZfsSettings {
    type V = ZfsSettingsView;

    open spec fn view(&self) -> ZfsSettingsView {
        ZfsSettingsView {
            pool: self.pool@,
            properties: option_view(self.properties),
            datasets: self.datasets.deep_view(),
        }
    }
}

/// The arguments that set the given properties: `flag` then `key=value`, for
/// each property in order; none when there are no properties.
pub open spec fn property_words(
    flag: Seq<char>,
    props: Option<Seq<(Seq<char>, Seq<char>)>>,
) -> Seq<Seq<char>> {
    match props {
        Some(p) => p.map_values(|kv: (Seq<char>, Seq<char>)| seq![flag, kv.0 + "="@ + kv.1]).flatten(),
        None => Seq::empty(),
    }
}

/// The name of a dataset below the pool `root`.
pub open spec fn dataset_path(root: Seq<char>, name: Seq<char>) -> Seq<char> {
    root + "/"@ + name
}

/// The command that creates the pool on `partition`.
pub open spec fn zpool_create(z: ZfsSettingsView, partition: Seq<char>) -> ExprView {
    run(
        "zpool"@,
        seq!["create"@, "-o"@, "ashift="@ + decimal_int(z.pool.ashift as int), "-O"@, "mountpoint=none"@]
            + property_words("-o"@, z.properties) + seq![z.pool.name, partition],
    )
}

/// The commands that create, make the mount point of, and mount one dataset
/// of the pool `root`.
pub open spec fn dataset_setup(root: Seq<char>, d: ZfsDatasetView) -> Seq<ExprView> {
    let path = dataset_path(root, d.name);
    seq![
        run("zfs"@, seq!["create"@, path, "-o"@, "mountpoint=legacy"@] + property_words("-o"@, d.properties)),
        run("mkdir"@, seq!["-p"@, d.mount]),
        run("mount"@, seq!["-t"@, "zfs"@, path, d.mount]).with_wait(MOUNT_WAIT_MS),
    ]
}

/// The commands that set up every dataset, dataset by dataset in order.
pub open spec fn datasets_setup(z: ZfsSettingsView) -> Seq<ExprView> {
    z.datasets.map_values(|d: ZfsDatasetView| dataset_setup(z.pool.name, d)).flatten()
}

/// The arguments that set the given properties, as `property_words` with `-o`.
fn property_args(props: &Option<Properties>) -> (res: Vec<String>)
    ensures
        res.deep_view() == property_words("-o"@, option_view(*props)),
{
    let mut res: Vec<String> = Vec::new();
    match props {
        None => {
            assert(res.deep_view() =~= Seq::<Seq<char>>::empty());
        },
        Some(p) => {
            let ghost words = p@.map_values(
                |kv: (Seq<char>, Seq<char>)| seq!["-o"@, kv.0 + "="@ + kv.1],
            );
            let n = p.len();
            let mut i: usize = 0;
            assert(res.deep_view() =~= words.take(0).flatten());
            while i < n
                invariant
                    n == p@.len(),
                    i <= n,
                    words == p@.map_values(
                        |kv: (Seq<char>, Seq<char>)| seq!["-o"@, kv.0 + "="@ + kv.1],
                    ),
                    res.deep_view() == words.take(i as int).flatten(),
                decreases n - i,
            {
                let (k, v) = p.entry(i);
                let flag: &str = "-o";
                let setting = cat3(k.as_str(), "=", v.as_str());
                let ghost before = res.deep_view();
                res.push(flag.to_owned());
                res.push(setting);
                proof {
                    assert(words.take(i + 1) =~= words.take(i as int).push(words[i as int]));
                    words.take(i as int).lemma_flatten_push(words[i as int]);
                    assert(res.deep_view() =~= before + words[i as int]);
                }
                i = i + 1;
            }
            assert(words.take(n as int) =~= words);
        },
    }
    res
}

impl ZfsPool {
    /// A copy of the pool description.
    pub fn duplicate(&self) -> (res: ZfsPool)
        ensures
            res@ == self@,
    {
        ZfsPool { ashift: self.ashift, name: self.name.clone() }
    }
}

impl ZfsDataset {
    /// A copy of the dataset description.
    pub fn duplicate(&self) -> (res: ZfsDataset)
        ensures
            res@ == self@,
    {
        ZfsDataset {
            name: self.name.clone(),
            mount: self.mount.clone(),
            properties: duplicate_option(&self.properties),
        }
    }
}

/// A copy of a list of dataset descriptions.
pub fn duplicate_datasets(datasets: &Vec<ZfsDataset>) -> (res: Vec<ZfsDataset>)
    ensures
        res.deep_view() == datasets.deep_view(),
{
    let mut res: Vec<ZfsDataset> = Vec::new();
    let n = datasets.len();
    let mut i: usize = 0;
    while i < n
        invariant
            n == datasets.len(),
            i <= n,
            res.deep_view() == datasets.deep_view().take(i as int),
        decreases n - i,
    {
        let ghost before = res.deep_view();
        res.push(datasets[i].duplicate());
        assert(res.deep_view() =~= before.push(datasets.deep_view()[i as int]));
        assert(datasets.deep_view().take(i + 1) =~= datasets.deep_view().take(i as int).push(
            datasets.deep_view()[i as int],
        ));
        i = i + 1;
    }
    assert(datasets.deep_view().take(n as int) =~= datasets.deep_view());
    res
}

impl ZfsSettings {
    /// The command that creates the pool, with its properties, on `partition`.
    pub fn zpool_cmd(&self, partition: &str) -> (res: Expr)
        ensures
            res@ == zpool_create(self@, partition@),
    {
        let ashift = cat("ashift=", decimal_i32(self.pool.ashift).as_str());
        let props = property_args(&self.properties);
        let res = Cmd::new("zpool")
            .arg("create")
            .arg("-o")
            .arg(ashift.as_str())
            .arg("-O")
            .arg("mountpoint=none")
            .args(&props)
            .arg(self.pool.name.as_str())
            .arg(partition)
            .to_expr();
        assert(res@.args =~= zpool_create(self@, partition@).args);
        res
    }

    /// The commands that set up all datasets of the pool, in order.
    pub fn dataset_cmds(&self) -> (res: Vec<Expr>)
        ensures
            res.deep_view() == datasets_setup(self@),
    {
        let ghost per = self@.datasets.map_values(
            |d: ZfsDatasetView| dataset_setup(self@.pool.name, d),
        );
        let mut res: Vec<Expr> = Vec::new();
        let n = self.datasets.len();
        let mut i: usize = 0;
        assert(res.deep_view() =~= per.take(0).flatten());
        while i < n
            invariant
                n == self.datasets.len(),
                i <= n,
                per == self@.datasets.map_values(
                    |d: ZfsDatasetView| dataset_setup(self@.pool.name, d),
                ),
                res.deep_view() == per.take(i as int).flatten(),
            decreases n - i,
        {
            let mut more = create_dataset(self.pool.name.as_str(), &self.datasets[i]);
            let ghost before = res.deep_view();
            let ghost added = more.deep_view();
            res.append(&mut more);
            proof {
                assert(res.deep_view() =~= before + added);
                assert(per.take(i + 1) =~= per.take(i as int).push(per[i as int]));
                per.take(i as int).lemma_flatten_push(per[i as int]);
            }
            i = i + 1;
        }
        assert(per.take(n as int) =~= per);
        res
    }
}

/// The commands that create, make the mount point of, and mount `dataset`
/// of the pool `root`; the mount waits `MOUNT_WAIT_MS` before it runs.
pub fn create_dataset(root: &str, dataset: &ZfsDataset) -> (res: Vec<Expr>)
    ensures
        res.deep_view() == dataset_setup(root@, dataset@),
{
    let canonical_name = cat3(root, "/", dataset.name.as_str());
    let props = property_args(&dataset.properties);
    let create = Cmd::new("zfs")
        .arg("create")
        .arg(canonical_name.as_str())
        .arg("-o")
        .arg("mountpoint=legacy")
        .args(&props)
        .to_expr();
    let mkdir = Cmd::new("mkdir").arg("-p").arg(dataset.mount.as_str()).to_expr();
    let mount = Cmd::new("mount")
        .arg("-t")
        .arg("zfs")
        .arg(canonical_name.as_str())
        .arg(dataset.mount.as_str())
        .to_expr_with_wait(MOUNT_WAIT_MS);
    let ghost spec = dataset_setup(root@, dataset@);
    assert(create@.args =~= spec[0].args);
    assert(mkdir@.args =~= spec[1].args);
    assert(mount@.args =~= spec[2].args);
    let res = vec![create, mkdir, mount];
    assert(res.deep_view() =~= spec);
    res
}

} // verus!
