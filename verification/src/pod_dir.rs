//! The pod-local directory a published volume materializes: one
//! directory per address holding an `address` file and one file per
//! port, plus a relative `default-address` link; and the node's table
//! of published target paths, on which publishing and tearing down are
//! inverse.

use vstd::prelude::*;
use vstd::string::StringExecFns;

use crate::crd::ListenerIngress;
use crate::decimal::{decimal_chars_int, i32_to_decimal};
use crate::kv::kv_keys_unique;

verus! {

/// The files below `addresses/<address>`: the address itself and one
/// file per port, named after the port and holding the decimal port
/// number.
#[derive(Clone, Debug)]
pub struct AddressDir {
    pub address: String,
    /// Port file name to file contents.
    pub ports: Vec<(String, String)>,
}

/// Everything written below one target path.
#[derive(Clone, Debug)]
pub struct PodDirLayout {
    pub address_dirs: Vec<AddressDir>,
    /// The relative target of the `default-address` link; it stays
    /// inside the target path by construction.
    pub default_address_target: String,
}

/// Why no directory layout could be derived.
#[derive(Clone, Copy, Debug, PartialEq, Eq, Structural)]
pub enum PodDirError {
    /// There is no address to designate as the default.
    NoDefaultAddress,
}

/// The directory for `ingress` carries its address, and exactly one
/// port file per port entry, holding the decimal port number.
pub open spec fn address_dir_matches(dir: AddressDir, ingress: ListenerIngress) -> bool {
    &&& dir.address@ == ingress.address@
    &&& dir.ports@.len() == ingress.ports@.len()
    &&& forall|m: int|
        #![trigger dir.ports@[m]]
        0 <= m < ingress.ports@.len() ==> dir.ports@[m].0 == ingress.ports@[m].0
            && dir.ports@[m].1@ == decimal_chars_int(ingress.ports@[m].1 as int)
}

/// The layout holds one directory per resolved address, in order.
pub open spec fn layout_matches(layout: PodDirLayout, addrs: Seq<ListenerIngress>) -> bool {
    &&& layout.address_dirs@.len() == addrs.len()
    &&& forall|k: int|
        #![trigger layout.address_dirs@[k]]
        0 <= k < addrs.len() ==> address_dir_matches(layout.address_dirs@[k], addrs[k])
}

/// The files written for one resolved address.
fn build_address_dir(ingress: &ListenerIngress) -> (dir: AddressDir)
    ensures
        address_dir_matches(dir, *ingress),
{
    let mut ports: Vec<(String, String)> = Vec::new();
    let n = ingress.ports.len();
    let mut m: usize = 0;
    while m < n
        invariant
            n == ingress.ports@.len(),
            m <= n,
            ports@.len() == m,
            forall|j: int|
                #![trigger ports@[j]]
                0 <= j < m ==> ports@[j].0 == ingress.ports@[j].0 && ports@[j].1@
                    == decimal_chars_int(ingress.ports@[j].1 as int),
        decreases n - m,
    {
        let entry = &ingress.ports[m];
        ports.push((entry.0.clone(), i32_to_decimal(entry.1)));
        m += 1;
    }
    AddressDir { address: ingress.address.clone(), ports }
}

/// The directory contents for a list of resolved addresses: one
/// directory per address, and the first address as the default. An
/// empty list is refused: a pod must never mount an empty directory.
pub fn build_pod_dir_layout(listener_addrs: &Vec<ListenerIngress>) -> (r: Result<
    PodDirLayout,
    PodDirError,
>)
    ensures
        r matches Ok(layout) ==> listener_addrs@.len() > 0 && layout_matches(
            layout,
            listener_addrs@,
        ) && layout.default_address_target@ == "addresses/"@ + listener_addrs@[0].address@,
        r is Err <==> listener_addrs@.len() == 0,
        r matches Err(e) ==> e == PodDirError::NoDefaultAddress,
{
    if listener_addrs.len() == 0 {
        return Err(PodDirError::NoDefaultAddress);
    }
    let mut address_dirs: Vec<AddressDir> = Vec::new();
    let n = listener_addrs.len();
    let mut k: usize = 0;
    while k < n
        invariant
            n == listener_addrs@.len(),
            k <= n,
            address_dirs@.len() == k,
            forall|j: int|
                #![trigger address_dirs@[j]]
                0 <= j < k ==> address_dir_matches(address_dirs@[j], listener_addrs@[j]),
        decreases n - k,
    {
        address_dirs.push(build_address_dir(&listener_addrs[k]));
        k += 1;
    }
    let mut default_address_target = String::from_str("addresses/");
    default_address_target.append(listener_addrs[0].address.as_str());
    Ok(PodDirLayout { address_dirs, default_address_target })
}

/// Each port entry of an address yields exactly one port file, named
/// after the port, holding the decimal port number: a NodePort
/// Listener with `n` distinct ports gets exactly `n` port files per
/// address, each holding the decimal node port.
pub proof fn lemma_one_port_file_per_port(dir: AddressDir, ingress: ListenerIngress)
    requires
        address_dir_matches(dir, ingress),
    ensures
        dir.ports@.len() == ingress.ports@.len(),
        forall|m: int|
            #![trigger ingress.ports@[m]]
            0 <= m < ingress.ports@.len() ==> dir.ports@[m].0 == ingress.ports@[m].0
                && dir.ports@[m].1@ == decimal_chars_int(ingress.ports@[m].1 as int),
{
    assert forall|m: int| 0 <= m < ingress.ports@.len() implies dir.ports@[m].0
        == ingress.ports@[m].0 && dir.ports@[m].1@ == decimal_chars_int(
        ingress.ports@[m].1 as int,
    ) by {
        assert(address_dir_matches(dir, ingress));
    }
}

/// The published target paths of one node, each with what was written
/// under it.
pub struct MountTable {
    mounts: Vec<(String, PodDirLayout)>,
}

/// The map a mount list stands for: later entries for a path win.
pub open spec fn mounts_map(s: Seq<(String, PodDirLayout)>) -> Map<Seq<char>, PodDirLayout>
    decreases s.len(),
{
    if s.len() == 0 {
        Map::empty()
    } else {
        mounts_map(s.drop_last()).insert(s.last().0@, s.last().1)
    }
}

/// A path is in the map exactly when some entry carries it.
proof fn lemma_mounts_map_contains(s: Seq<(String, PodDirLayout)>, k: Seq<char>)
    ensures
        mounts_map(s).contains_key(k) <==> exists|i: int| 0 <= i < s.len() && s[i].0@ == k,
    decreases s.len(),
{
    if s.len() > 0 {
        let pre = s.drop_last();
        lemma_mounts_map_contains(pre, k);
        assert(forall|i: int| 0 <= i < pre.len() ==> pre[i] == s[i]);
        if s.last().0@ == k {
            assert(s[s.len() - 1].0@ == k);
        } else if mounts_map(s).contains_key(k) {
            let i = choose|i: int| 0 <= i < pre.len() && pre[i].0@ == k;
            assert(s[i].0@ == k);
        } else if exists|i: int| 0 <= i < s.len() && s[i].0@ == k {
            let i = choose|i: int| 0 <= i < s.len() && s[i].0@ == k;
            assert(i < s.len() - 1);
            assert(pre[i].0@ == k);
        }
    }
}

/// Removing a path no entry carries changes nothing.
proof fn lemma_mounts_map_remove_absent(s: Seq<(String, PodDirLayout)>, k: Seq<char>)
    requires
        forall|i: int| 0 <= i < s.len() ==> s[i].0@ != k,
    ensures
        mounts_map(s).remove(k) == mounts_map(s),
{
    lemma_mounts_map_contains(s, k);
    assert(mounts_map(s).remove(k) =~= mounts_map(s));
}

/// Replacing the entry that carries a path overwrites exactly that
/// path's value.
proof fn lemma_mounts_map_update(s: Seq<(String, PodDirLayout)>, i: int, e: (String, PodDirLayout))
    requires
        kv_keys_unique(s),
        0 <= i < s.len(),
        e.0@ == s[i].0@,
    ensures
        mounts_map(s.update(i, e)) == mounts_map(s).insert(e.0@, e.1),
    decreases s.len(),
{
    let pre = s.drop_last();
    let u = s.update(i, e);
    if i == s.len() - 1 {
        assert(u.drop_last() =~= pre);
        assert(u.last() == e);
        assert(mounts_map(u) == mounts_map(pre).insert(e.0@, e.1));
        assert(mounts_map(s).insert(e.0@, e.1) =~= mounts_map(pre).insert(e.0@, e.1));
    } else {
        assert(forall|j: int, j2: int|
            0 <= j < j2 < pre.len() ==> pre[j].0@ != pre[j2].0@);
        lemma_mounts_map_update(pre, i, e);
        assert(u.drop_last() =~= pre.update(i, e));
        assert(u.last() == s.last());
        assert(mounts_map(u) == mounts_map(pre.update(i, e)).insert(s.last().0@, s.last().1));
        assert(mounts_map(u) == mounts_map(pre).insert(e.0@, e.1).insert(
            s.last().0@,
            s.last().1,
        ));
        assert(s[i].0@ != s[s.len() - 1].0@);
        assert(mounts_map(pre).insert(e.0@, e.1).insert(s.last().0@, s.last().1)
            =~= mounts_map(pre).insert(s.last().0@, s.last().1).insert(e.0@, e.1));
    }
}

/// Removing the entry that carries a path removes exactly that key.
proof fn lemma_mounts_map_remove_idx(s: Seq<(String, PodDirLayout)>, i: int)
    requires
        kv_keys_unique(s),
        0 <= i < s.len(),
    ensures
        mounts_map(s.remove(i)) == mounts_map(s).remove(s[i].0@),
    decreases s.len(),
{
    let pre = s.drop_last();
    let k = s[i].0@;
    if i == s.len() - 1 {
        assert(s.remove(i) =~= pre);
        assert(forall|j: int| 0 <= j < pre.len() ==> pre[j].0@ != k);
        lemma_mounts_map_remove_absent(pre, k);
        assert(mounts_map(s).remove(k) =~= mounts_map(pre));
    } else {
        assert(forall|j: int, j2: int|
            0 <= j < j2 < pre.len() ==> pre[j].0@ != pre[j2].0@);
        lemma_mounts_map_remove_idx(pre, i);
        assert(s.remove(i).drop_last() =~= pre.remove(i));
        assert(s.remove(i).last() == s.last());
        assert(mounts_map(s.remove(i)) == mounts_map(pre.remove(i)).insert(
            s.last().0@,
            s.last().1,
        ));
        assert(mounts_map(s.remove(i)) == mounts_map(pre).remove(k).insert(
            s.last().0@,
            s.last().1,
        ));
        assert(s[i].0@ != s[s.len() - 1].0@);
        assert(mounts_map(pre).remove(k).insert(s.last().0@, s.last().1) =~= mounts_map(
            pre,
        ).insert(s.last().0@, s.last().1).remove(k));
    }
}

impl View for MountTable {
    type V = Map<Seq<char>, PodDirLayout>;

    closed spec fn view(&self) -> Map<Seq<char>, PodDirLayout> {
        mounts_map(self.mounts@)
    }
}

impl MountTable {
    /// The table's paths are pairwise distinct; every table this module
    /// hands out satisfies this, and every operation keeps it.
    pub closed spec fn wf(&self) -> bool {
        kv_keys_unique(self.mounts@)
    }

    /// A node starts with nothing published.
    pub fn new() -> (r: MountTable)
        ensures
            r.wf(),
            r@ == Map::<Seq<char>, PodDirLayout>::empty(),
    {
        MountTable { mounts: Vec::new() }
    }

    /// The index of the entry carrying a path, if one is there.
    fn find_path(&self, target: &String) -> (idx: Option<usize>)
        ensures
            idx matches Some(i) ==> i < self.mounts@.len() && self.mounts@[i as int].0@ == target@,
            idx is None ==> forall|j: int|
                0 <= j < self.mounts@.len() ==> self.mounts@[j].0@ != target@,
    {
        let n = self.mounts.len();
        let mut i: usize = 0;
        while i < n
            invariant
                n == self.mounts@.len(),
                i <= n,
                forall|j: int| 0 <= j < i ==> self.mounts@[j].0@ != target@,
            decreases n - i,
        {
            if self.mounts[i].0 == *target {
                return Some(i);
            }
            i += 1;
        }
        None
    }

    /// Publishes a layout under a target path, replacing whatever was
    /// published there before.
    pub fn publish(&mut self, target: &String, layout: PodDirLayout)
        requires
            old(self).wf(),
        ensures
            final(self).wf(),
            final(self)@ == old(self)@.insert(target@, layout),
    {
        match self.find_path(target) {
            Some(i) => {
                proof {
                    lemma_mounts_map_update(
                        self.mounts@,
                        i as int,
                        (*target, layout),
                    );
                }
                self.mounts.set(i, (target.clone(), layout));
            },
            None => {
                let ghost prev = self.mounts@;
                self.mounts.push((target.clone(), layout));
                proof {
                    assert(self.mounts@.drop_last() =~= prev);
                }
            },
        }
    }

    /// Tears down whatever is published under a target path. A path
    /// that was never published, or was already torn down, is not an
    /// error: tearing down reports success either way, and says whether
    /// anything was actually there.
    pub fn unpublish(&mut self, target: &String) -> (removed: bool)
        requires
            old(self).wf(),
        ensures
            final(self).wf(),
            final(self)@ == old(self)@.remove(target@),
            removed == old(self)@.contains_key(target@),
            !old(self)@.contains_key(target@) ==> final(self)@ == old(self)@,
    {
        proof {
            lemma_mounts_map_contains(self.mounts@, target@);
        }
        match self.find_path(target) {
            Some(i) => {
                proof {
                    lemma_mounts_map_remove_idx(self.mounts@, i as int);
                    let s = self.mounts@;
                    assert(forall|j1: int, j2: int|
                        0 <= j1 < j2 < s.remove(i as int).len() ==> s.remove(i as int)[j1].0@
                            != s.remove(i as int)[j2].0@);
                }
                let _ = self.mounts.remove(i);
                true
            },
            None => {
                proof {
                    lemma_mounts_map_remove_absent(self.mounts@, target@);
                }
                false
            },
        }
    }
}

/// Tearing down a path that holds nothing changes nothing: repeated or
/// spurious unpublishes are safe.
pub proof fn lemma_unpublish_absent_is_noop(m: Map<Seq<char>, PodDirLayout>, target: Seq<char>)
    requires
        !m.contains_key(target),
    ensures
        m.remove(target) == m,
{
    assert(m.remove(target) =~= m);
}

/// Publishing a fresh target path and immediately tearing it down
/// leaves the node exactly as it was: no residual files.
pub proof fn lemma_publish_then_unpublish_round_trip(
    m: Map<Seq<char>, PodDirLayout>,
    target: Seq<char>,
    layout: PodDirLayout,
)
    requires
        !m.contains_key(target),
    ensures
        m.insert(target, layout).remove(target) == m,
{
    assert(m.insert(target, layout).remove(target) =~= m);
}

} // verus!
