//! Tenant pack discovery: which subdirectories of the packs root count as
//! tenant packs, which are skipped, and the paths a pack descriptor carries.
//!
//! Listing the directory is the embedder's work; it hands in one
//! `PackDirEntry` per directory entry and every decision on them is
//! verified here.

use vstd::prelude::*;

verus! {

broadcast use vstd::seq::group_seq_axioms, vstd::std_specs::vec::group_vec_axioms, vstd::string::group_string_axioms;

/// A tenant pack: the tenant's name and the paths of its flow-graph manifest
/// and its bindings file. Immutable once constructed.
#[derive(Debug)]
pub struct TenantPack {
    pub tenant: String,
    pub index_path: String,
    pub bindings_path: String,
}

/// The mathematical model of a `TenantPack`.
pub struct TenantPackV {
    pub tenant: Seq<char>,
    pub index_path: Seq<char>,
    pub bindings_path: Seq<char>,
}

impl View for TenantPack {
    type V = TenantPackV;

    open spec fn view(&self) -> TenantPackV {
        TenantPackV {
            tenant: self.tenant@,
            index_path: self.index_path@,
            bindings_path: self.bindings_path@,
        }
    }
}

/// What the embedder found about one entry of the packs directory.
#[derive(Debug)]
pub struct PackDirEntry {
    /// The entry's base name; absent when it does not decode as text.
    pub name: Option<String>,
    /// Whether the entry is itself a directory.
    pub is_dir: bool,
    /// Whether the directory holds the manifest file `index.ygtc`.
    pub has_index: bool,
    /// Whether the directory holds `bindings.yaml`.
    pub has_bindings_yaml: bool,
    /// Whether the directory holds `bindings.yml`.
    pub has_bindings_yml: bool,
}

/// One subdirectory passed over during the scan, with the reason.
#[derive(Debug)]
pub enum SkipEvent {
    /// The entry's name does not decode as text.
    UnnamedEntry,
    /// The named tenant directory has no manifest file.
    MissingIndex(String),
    /// The named tenant directory has no bindings file.
    MissingBindings(String),
}

/// The mathematical model of a `SkipEvent`.
pub enum SkipEventV {
    UnnamedEntry,
    MissingIndex(Seq<char>),
    MissingBindings(Seq<char>),
}

impl View for SkipEvent {
    type V = SkipEventV;

    open spec fn view(&self) -> SkipEventV {
        match self {
            SkipEvent::UnnamedEntry => SkipEventV::UnnamedEntry,
            SkipEvent::MissingIndex(t) => SkipEventV::MissingIndex(t@),
            SkipEvent::MissingBindings(t) => SkipEventV::MissingBindings(t@),
        }
    }
}

/// What a directory scan produced: the resolved packs in enumeration order,
/// and one event per skipped subdirectory.
#[derive(Debug)]
pub struct ScanOutcome {
    pub packs: Vec<TenantPack>,
    pub skipped: Vec<SkipEvent>,
}

/// Whether a directory entry yields a pack: a directory with a decodable
/// name, a manifest, and one of the two accepted bindings files.
pub open spec fn entry_valid(e: PackDirEntry) -> bool {
    e.is_dir && e.name is Some && e.has_index && (e.has_bindings_yaml || e.has_bindings_yml)
}

/// Whether a directory entry is a subdirectory that is passed over.
pub open spec fn entry_skipped(e: PackDirEntry) -> bool {
    e.is_dir && !entry_valid(e)
}

/// The name of the bindings file a pack directory uses: `bindings.yaml`
/// wins over `bindings.yml`.
pub open spec fn bindings_file(e: PackDirEntry) -> Seq<char> {
    if e.has_bindings_yaml {
        "bindings.yaml"@
    } else {
        "bindings.yml"@
    }
}

/// The pack a valid entry yields, with its paths under `root`.
pub open spec fn pack_of(root: Seq<char>, e: PackDirEntry) -> TenantPackV {
    let name = match e.name {
        Some(n) => n@,
        None => Seq::empty(),
    };
    TenantPackV {
        tenant: name,
        index_path: root + "/"@ + name + "/"@ + "index.ygtc"@,
        bindings_path: root + "/"@ + name + "/"@ + bindings_file(e),
    }
}

/// The skip event an invalid subdirectory yields: an undecodable name
/// first, then a missing manifest, then missing bindings.
pub open spec fn skip_of(e: PackDirEntry) -> SkipEventV {
    let name = match e.name {
        Some(n) => n@,
        None => Seq::empty(),
    };
    if e.name is None {
        SkipEventV::UnnamedEntry
    } else if !e.has_index {
        SkipEventV::MissingIndex(name)
    } else {
        SkipEventV::MissingBindings(name)
    }
}

/// The packs the first `i` entries yield, in order.
pub open spec fn packs_upto(root: Seq<char>, s: Seq<PackDirEntry>, i: int) -> Seq<TenantPackV>
    decreases i,
{
    if i <= 0 {
        Seq::empty()
    } else {
        packs_upto(root, s, i - 1) + (if entry_valid(s[i - 1]) {
            seq![pack_of(root, s[i - 1])]
        } else {
            Seq::empty()
        })
    }
}

/// The skip events the first `i` entries yield, in order.
pub open spec fn skips_upto(s: Seq<PackDirEntry>, i: int) -> Seq<SkipEventV>
    decreases i,
{
    if i <= 0 {
        Seq::empty()
    } else {
        skips_upto(s, i - 1) + (if entry_skipped(s[i - 1]) {
            seq![skip_of(s[i - 1])]
        } else {
            Seq::empty()
        })
    }
}

/// The packs a whole directory listing yields.
pub open spec fn scanned_packs(root: Seq<char>, s: Seq<PackDirEntry>) -> Seq<TenantPackV> {
    packs_upto(root, s, s.len() as int)
}

/// The skip events a whole directory listing yields.
pub open spec fn scanned_skips(s: Seq<PackDirEntry>) -> Seq<SkipEventV> {
    skips_upto(s, s.len() as int)
}

/// How many entries of `s` yield packs.
pub open spec fn valid_count(s: Seq<PackDirEntry>, i: int) -> int
    decreases i,
{
    if i <= 0 {
        0
    } else {
        valid_count(s, i - 1) + (if entry_valid(s[i - 1]) {
            1int
        } else {
            0int
        })
    }
}

/// How many entries of `s` are skipped subdirectories.
pub open spec fn skipped_count(s: Seq<PackDirEntry>, i: int) -> int
    decreases i,
{
    if i <= 0 {
        0
    } else {
        skipped_count(s, i - 1) + (if entry_skipped(s[i - 1]) {
            1int
        } else {
            0int
        })
    }
}

/// A scan of a listing with N valid tenant subdirectories and M invalid
/// ones yields exactly N packs and exactly M skip events; entries that are
/// not directories yield neither.
pub proof fn lemma_scan_partition(root: Seq<char>, s: Seq<PackDirEntry>)
    ensures
        scanned_packs(root, s).len() == valid_count(s, s.len() as int),
        scanned_skips(s).len() == skipped_count(s, s.len() as int),
{
    lemma_scan_partition_upto(root, s, s.len() as int);
}

proof fn lemma_scan_partition_upto(root: Seq<char>, s: Seq<PackDirEntry>, i: int)
    ensures
        packs_upto(root, s, i).len() == valid_count(s, i),
        skips_upto(s, i).len() == skipped_count(s, i),
    decreases i,
{
    if i > 0 {
        lemma_scan_partition_upto(root, s, i - 1);
    }
}

/// The views of a pack list.
pub open spec fn pack_views(s: Seq<TenantPack>) -> Seq<TenantPackV> {
    Seq::new(s.len(), |i: int| s[i]@)
}

/// The views of a skip-event list.
pub open spec fn skip_views(s: Seq<SkipEvent>) -> Seq<SkipEventV> {
    Seq::new(s.len(), |i: int| s[i]@)
}

/// The bindings file path a pack directory resolves to: `bindings.yaml` if
/// present, else `bindings.yml`, else nothing.
pub fn discover_bindings(pack_dir: &str, has_yaml: bool, has_yml: bool) -> (r: Option<String>)
    ensures
        (has_yaml || has_yml) ==> (r matches Some(p) && p@ == pack_dir@ + "/"@ + (if has_yaml {
            "bindings.yaml"@
        } else {
            "bindings.yml"@
        })),
        !(has_yaml || has_yml) ==> r is None,
{
    if has_yaml {
        let mut p = String::from_str(pack_dir);
        p.append("/");
        p.append("bindings.yaml");
        Some(p)
    } else if has_yml {
        let mut p = String::from_str(pack_dir);
        p.append("/");
        p.append("bindings.yml");
        Some(p)
    } else {
        None
    }
}

/// The packs and skip events a directory listing yields, per
/// `scanned_packs` and `scanned_skips`. Zero packs is a legitimate outcome,
/// not an error.
pub fn load_packs(root_dir: &str, entries: &Vec<PackDirEntry>) -> (r: ScanOutcome)
    ensures
        pack_views(r.packs@) == scanned_packs(root_dir@, entries@),
        skip_views(r.skipped@) == scanned_skips(entries@),
{
    let mut packs: Vec<TenantPack> = Vec::new();
    let mut skipped: Vec<SkipEvent> = Vec::new();
    let mut i: usize = 0;
    while i < entries.len()
        invariant
            0 <= i <= entries.len(),
            pack_views(packs@) == packs_upto(root_dir@, entries@, i as int),
            skip_views(skipped@) == skips_upto(entries@, i as int),
        decreases entries.len() - i,
    {
        let ghost packs_before = pack_views(packs@);
        let ghost skips_before = skip_views(skipped@);
        let e = &entries[i];
        if e.is_dir {
            match &e.name {
                None => {
                    skipped.push(SkipEvent::UnnamedEntry);
                },
                Some(name) => {
                    if !e.has_index {
                        skipped.push(SkipEvent::MissingIndex(name.clone()));
                    } else if !e.has_bindings_yaml && !e.has_bindings_yml {
                        skipped.push(SkipEvent::MissingBindings(name.clone()));
                    } else {
                        let mut dir = String::from_str(root_dir);
                        dir.append("/");
                        dir.append(name.as_str());
                        let mut index_path = dir.clone();
                        index_path.append("/");
                        index_path.append("index.ygtc");
                        let mut bindings_path = dir;
                        bindings_path.append("/");
                        if e.has_bindings_yaml {
                            bindings_path.append("bindings.yaml");
                        } else {
                            bindings_path.append("bindings.yml");
                        }
                        packs.push(
                            TenantPack { tenant: name.clone(), index_path, bindings_path },
                        );
                    }
                },
            }
        }
        proof {
            assert(pack_views(packs@) =~= packs_upto(root_dir@, entries@, i + 1));
            assert(skip_views(skipped@) =~= skips_upto(entries@, i + 1));
        }
        i += 1;
    }
    ScanOutcome { packs, skipped }
}

} // verus!
