//! Client-side cache and typed-projection layer over a remote
//! object-management service.
//!
//! The remote service exposes a tree of device objects, each described by a
//! set of named interfaces and per-interface bags of dynamically typed
//! property values.  This crate owns the last-fetched snapshot of that object
//! graph and reconstructs strongly typed records (drives, block devices,
//! partition tables) from the untyped maps on demand.  The transport that
//! performs the round trip to the service is an external collaborator: the
//! embedder fetches the raw graph and hands the outcome to [`UDisks2::update`].

pub mod block;
pub mod disks;
pub mod drive;
pub mod utils;

pub use block::Block;
pub use block::BlockModel;
pub use disks::Disks;
pub use disks::DisksModel;
pub use drive::Drive;
pub use drive::DriveModel;
pub use utils::DynamicValue;
pub use utils::InterfaceBag;
pub use utils::ManagedObjectGraph;
pub use utils::ParseFrom;
pub use utils::PropertyBag;
pub use utils::StrMap;

use vstd::prelude::*;

verus! {

/// The object source's round trip failed: connection refused, timeout
/// exceeded, or a remote-side fault.  The name and message carry what the
/// transport reported.
pub struct SourceError {
    pub name: String,
    pub message: String,
}

/// The record that `get_object` reconstructs for the identity `path`:
/// `None` both when no object with that identity exists and when it exists
/// but is not of the requested kind.  The two cases are indistinguishable
/// to the caller by design.
pub open spec fn spec_get_object<T: ParseFrom>(
    s: Seq<(String, InterfaceBag)>,
    path: Seq<char>,
) -> Option<T::V> {
    match utils::assoc_get(s, path) {
        Some(objects) => T::spec_parse_from(path, objects),
        None => None,
    }
}

/// The records of kind `T` that the graph `s` yields: every object is
/// offered to `T`'s parser in the graph's own order, and exactly the
/// successful parses appear.
pub open spec fn spec_list_objects<T: ParseFrom>(s: Seq<(String, InterfaceBag)>) -> Seq<T::V>
    decreases s.len(),
{
    if s.len() == 0 {
        Seq::empty()
    } else {
        spec_list_objects::<T>(s.drop_last()) + (match T::spec_parse_from(
            s.last().0@,
            s.last().1,
        ) {
            Some(m) => seq![m],
            None => Seq::empty(),
        })
    }
}

/// The managed-object cache: the last successfully fetched object graph,
/// with typed point lookups and full scans over it.  Queries never mutate
/// the cache; only [`UDisks2::update`] replaces the graph, and always as a
/// whole.
pub struct UDisks2 {
    cache: ManagedObjectGraph,
}

impl View for UDisks2 {
    type V = Seq<(String, InterfaceBag)>;

    closed spec fn view(&self) -> Seq<(String, InterfaceBag)> {
        self.cache@
    }
}

impl UDisks2 {
    /// Construct a cache from the outcome of the initial fetch: the cache
    /// holds exactly the fetched graph, and a failed fetch leaves no usable
    /// cache at all.
    pub fn new(fetched: Result<ManagedObjectGraph, SourceError>) -> (r: Result<
        UDisks2,
        SourceError,
    >)
        ensures
            match fetched {
                Ok(graph) => r matches Ok(u) && u@ == graph@,
                Err(e) => r matches Err(re) && re == e,
            },
    {
        let mut udisks2 = UDisks2 { cache: StrMap::new() };
        match udisks2.update(fetched) {
            Ok(_) => Ok(udisks2),
            Err(e) => Err(e),
        }
    }

    /// Refresh the cache from the outcome of one fetch of the full remote
    /// object graph.  A successful fetch replaces the whole cached graph;
    /// a failed fetch changes nothing and surfaces the error unchanged.
    pub fn update(&mut self, fetched: Result<ManagedObjectGraph, SourceError>) -> (r: Result<
        (),
        SourceError,
    >)
        ensures
            match fetched {
                Ok(graph) => final(self)@ == graph@ && r is Ok,
                Err(e) => final(self)@ == old(self)@ && (r matches Err(re) && re == e),
            },
    {
        match fetched {
            Ok(graph) => {
                self.cache = graph;
                Ok(())
            },
            Err(e) => Err(e),
        }
    }

    /// Reconstruct the record of kind `T` for the object `path`: a single
    /// scan comparing identities, handing the one match to `T`'s parser.
    fn get_object<T: ParseFrom>(&self, path: &str) -> (r: Option<T>)
        ensures
            match spec_get_object::<T>(self@, path@) {
                Some(m) => r matches Some(v) && v@ == m,
                None => r is None,
            },
    {
        match self.cache.get(path) {
            Some(objects) => T::parse_from(path, objects),
            None => None,
        }
    }

    /// Reconstruct every record of kind `T` the cached graph yields, in the
    /// graph's own order.
    fn list_objects<T: ParseFrom>(&self) -> (r: Vec<T>)
        ensures
            r@.map_values(|v: T| v@) == spec_list_objects::<T>(self@),
    {
        let n = self.cache.len();
        let mut out: Vec<T> = Vec::new();
        let mut i: usize = 0;
        while i < n
            invariant
                n == self@.len(),
                i <= n,
                out@.map_values(|v: T| v@) == spec_list_objects::<T>(self@.take(i as int)),
            decreases n - i,
        {
            let entry = self.cache.index(i);
            let ghost prev = out@.map_values(|v: T| v@);
            match T::parse_from(entry.0.as_str(), &entry.1) {
                Some(record) => {
                    out.push(record);
                    proof {
                        assert(out@.map_values(|v: T| v@) =~= prev.push(out@.last()@));
                    }
                },
                None => {},
            }
            proof {
                assert(self@.take(i + 1).drop_last() =~= self@.take(i as int));
                assert(self@.take(i + 1).last() == self@[i as int]);
            }
            i = i + 1;
        }
        proof {
            assert(self@.take(n as int) =~= self@);
        }
        out
    }

    /// Find the drive that corresponds to the given object path.
    pub fn get_drive(&self, path: &str) -> (r: Option<Drive>)
        ensures
            match spec_get_object::<Drive>(self@, path@) {
                Some(m) => r matches Some(v) && v@ == m,
                None => r is None,
            },
    {
        self.get_object::<Drive>(path)
    }

    /// The drives the cached object graph yields.
    pub fn get_drives(&self) -> (r: Vec<Drive>)
        ensures
            r@.map_values(|v: Drive| v@) == spec_list_objects::<Drive>(self@),
    {
        self.list_objects::<Drive>()
    }

    /// Find the block that corresponds to the given object path.
    pub fn get_block(&self, path: &str) -> (r: Option<Block>)
        ensures
            match spec_get_object::<Block>(self@, path@) {
                Some(m) => r matches Some(v) && v@ == m,
                None => r is None,
            },
    {
        self.get_object::<Block>(path)
    }

    /// The blocks the cached object graph yields.
    pub fn get_blocks(&self) -> (r: Vec<Block>)
        ensures
            r@.map_values(|v: Block| v@) == spec_list_objects::<Block>(self@),
    {
        self.list_objects::<Block>()
    }

    /// Find the disk topology that corresponds to the given object path.
    pub fn get_disk(&self, path: &str) -> (r: Option<Disks>)
        ensures
            match spec_get_object::<Disks>(self@, path@) {
                Some(m) => r matches Some(v) && v@ == m,
                None => r is None,
            },
    {
        self.get_object::<Disks>(path)
    }

    /// The disk topologies the cached object graph yields.
    pub fn get_disks(&self) -> (r: Vec<Disks>)
        ensures
            r@.map_values(|v: Disks| v@) == spec_list_objects::<Disks>(self@),
    {
        self.list_objects::<Disks>()
    }
}

/// Replace-not-merge, soundness half: every record a full scan yields comes
/// from an object of the graph scanned.  Together with the contract of
/// `update`, which replaces the whole cached graph, no record of a prior
/// snapshot survives an update that drops its object.
pub proof fn lemma_list_objects_sound<T: ParseFrom>(s: Seq<(String, InterfaceBag)>, m: T::V)
    requires
        spec_list_objects::<T>(s).contains(m),
    ensures
        exists|i: int| 0 <= i < s.len() && T::spec_parse_from(s[i].0@, s[i].1) == Some(m),
    decreases s.len(),
{
    let listed = spec_list_objects::<T>(s);
    let pre = spec_list_objects::<T>(s.drop_last());
    let j = choose|j: int| 0 <= j < listed.len() && listed[j] == m;
    if j < pre.len() {
        assert(pre[j] == m);
        lemma_list_objects_sound::<T>(s.drop_last(), m);
        let i = choose|i: int|
            0 <= i < s.drop_last().len() && T::spec_parse_from(
                s.drop_last()[i].0@,
                s.drop_last()[i].1,
            ) == Some(m);
        assert(s.drop_last()[i] == s[i]);
        assert(T::spec_parse_from(s[i].0@, s[i].1) == Some(m));
    } else {
        assert(T::spec_parse_from(s[s.len() - 1].0@, s[s.len() - 1].1) == Some(m));
    }
}

/// Replace-not-merge, completeness half: every object of the graph that the
/// parser of kind `T` accepts appears in a full scan of that graph.
pub proof fn lemma_list_objects_complete<T: ParseFrom>(s: Seq<(String, InterfaceBag)>, i: int)
    requires
        0 <= i < s.len(),
        T::spec_parse_from(s[i].0@, s[i].1) is Some,
    ensures
        spec_list_objects::<T>(s).contains(T::spec_parse_from(s[i].0@, s[i].1)->Some_0),
    decreases s.len(),
{
    let listed = spec_list_objects::<T>(s);
    let pre = spec_list_objects::<T>(s.drop_last());
    let m = T::spec_parse_from(s[i].0@, s[i].1)->Some_0;
    if i == s.len() - 1 {
        assert(listed[listed.len() - 1] == m);
        assert(listed.contains(m));
    } else {
        assert(s.drop_last()[i] == s[i]);
        lemma_list_objects_complete::<T>(s.drop_last(), i);
        let j = choose|j: int| 0 <= j < pre.len() && pre[j] == m;
        assert(listed[j] == m);
        assert(listed.contains(m));
    }
}

/// An object that exposes both the block and the partition-table interfaces
/// appears in the block listing and in the disk-topology listing, carrying
/// the same identity in both.
pub proof fn lemma_dual_interface_object(s: Seq<(String, InterfaceBag)>, path: Seq<char>)
    requires
        utils::assoc_get(s, path) matches Some(objects) && Block::spec_parse_from(path, objects)
            is Some && Disks::spec_parse_from(path, objects) is Some,
    ensures
        exists|i: int|
            0 <= i < spec_list_objects::<Block>(s).len() && spec_list_objects::<Block>(s)[i].path
                == path,
        exists|i: int|
            0 <= i < spec_list_objects::<Disks>(s).len() && spec_list_objects::<Disks>(s)[i].path
                == path,
{
    utils::lemma_assoc_get_index(s, path);
    let i = choose|i: int|
        0 <= i < s.len() && s[i].0@ == path && s[i].1 == utils::assoc_get(s, path)->Some_0;
    lemma_list_objects_complete::<Block>(s, i);
    let bm = Block::spec_parse_from(s[i].0@, s[i].1)->Some_0;
    let bj = choose|j: int|
        0 <= j < spec_list_objects::<Block>(s).len() && spec_list_objects::<Block>(s)[j] == bm;
    assert(spec_list_objects::<Block>(s)[bj].path == path);
    lemma_list_objects_complete::<Disks>(s, i);
    let dm = Disks::spec_parse_from(s[i].0@, s[i].1)->Some_0;
    let dj = choose|j: int|
        0 <= j < spec_list_objects::<Disks>(s).len() && spec_list_objects::<Disks>(s)[j] == dm;
    assert(spec_list_objects::<Disks>(s)[dj].path == path);
}

/// Identity ambiguity: a point lookup yields nothing both for an identity
/// no object carries and for an identity whose object is not of the
/// requested kind.  The two cases are behaviorally identical to the caller;
/// the ambiguity is preserved deliberately.
pub proof fn lemma_identity_ambiguity<T: ParseFrom>(s: Seq<(String, InterfaceBag)>, path: Seq<char>)
    requires
        utils::assoc_get(s, path) is None || (utils::assoc_get(s, path) matches Some(objects)
            && T::spec_parse_from(path, objects) is None),
    ensures
        spec_get_object::<T>(s, path) is None,
{
}

/// Idempotent read: between two updates the cached graph does not change,
/// and any two full scans of the same graph yield the same records, because
/// the contract of a scan pins its result to the graph alone.
pub proof fn lemma_idempotent_read<T: ParseFrom>(
    first: Seq<T::V>,
    second: Seq<T::V>,
    s: Seq<(String, InterfaceBag)>,
)
    requires
        first == spec_list_objects::<T>(s),
        second == spec_list_objects::<T>(s),
    ensures
        first == second,
{
}

} // verus!
