use vstd::prelude::*;

use crate::console::logging::starts_with;
use crate::console::text::text_eq;

verus! {

// ---------------------------------------------------------------------------
// Where resources are looked up.
// ---------------------------------------------------------------------------

/// The path of resource `name` of `plugin` inside a pack.
pub open spec fn asset_path_of(plugin: Seq<char>, name: Seq<char>) -> Seq<char> {
    "assets/"@ + plugin + "/"@ + name
}

/// The path of resource `name` of `plugin` inside a pack: `assets/plugin/name`.
pub fn asset_path(plugin: &str, name: &str) -> (p: String)
    ensures
        p@ == asset_path_of(plugin@, name@),
{
    let mut p = String::from_str("assets/");
    p.append(plugin);
    p.append("/");
    p.append(name);
    p
}

/// Whether resources of `plugin` are files of the data directory rather than
/// entries of the packs.
pub fn is_global(plugin: &str) -> (b: bool)
    ensures
        b == (plugin@ == "global"@),
{
    text_eq(plugin, "global")
}

/// The packs resources are read from, in the order they were added, with a
/// count of the changes made to them.
pub struct PackList<P> {
    packs: Vec<P>,
    version: usize,
}

impl<P> PackList<P> {
    pub closed spec fn packs(&self) -> Seq<P> {
        self.packs@
    }

    pub closed spec fn spec_version(&self) -> nat {
        self.version as nat
    }

    pub fn new() -> (l: Self)
        ensures
            l.packs() == Seq::<P>::empty(),
            l.spec_version() == 0,
    {
        PackList { packs: Vec::new(), version: 0 }
    }

    /// The number of changes made to the packs: it grows by one with every
    /// pack added.
    pub fn version(&self) -> (v: usize)
        ensures
            v == self.spec_version(),
    {
        self.version
    }

    pub fn len(&self) -> (n: usize)
        ensures
            n == self.packs().len(),
    {
        self.packs.len()
    }

    /// The `k`-th pack added that is still in the list (the later ones take
    /// precedence when resources are looked up).
    pub fn get(&self, k: usize) -> (p: &P)
        requires
            k < self.packs().len(),
        ensures
            *p == self.packs()[k as int],
    {
        &self.packs[k]
    }

    /// Adds a pack that takes precedence over all others.
    pub fn add_pack(&mut self, pack: P)
        requires
            old(self).spec_version() < usize::MAX,
        ensures
            final(self).packs() == old(self).packs().push(pack),
            final(self).spec_version() == old(self).spec_version() + 1,
    {
        self.packs.push(pack);
        self.version = self.version + 1;
    }

    /// Adds a pack just after the first one, under all packs added later.
    pub fn insert_pack(&mut self, pack: P)
        requires
            old(self).spec_version() < usize::MAX,
            old(self).packs().len() >= 1,
        ensures
            final(self).packs() == old(self).packs().insert(1, pack),
            final(self).spec_version() == old(self).spec_version() + 1,
    {
        self.packs.insert(1, pack);
        self.version = self.version + 1;
    }
}

// ---------------------------------------------------------------------------
// The asset index: resource names and the hashes of the files holding them.
// ---------------------------------------------------------------------------

pub open spec fn keys_distinct(es: Seq<(Seq<char>, Seq<char>)>) -> bool {
    forall|a: int, b: int| 0 <= a < b < es.len() ==> es[a].0 != es[b].0
}

/// The hash filed under `name`, if any.
pub open spec fn hash_of(es: Seq<(Seq<char>, Seq<char>)>, name: Seq<char>) -> Option<Seq<char>> {
    if exists|k: int| 0 <= k < es.len() && es[k].0 == name {
        let k = choose|k: int| 0 <= k < es.len() && es[k].0 == name;
        Some(es[k].1)
    } else {
        None
    }
}

/// The asset index of a pack of downloaded objects: for each resource name
/// (relative to `assets/`), the hash of the object file holding it. A name
/// occurs once.
pub struct ObjectIndex {
    entries: Vec<(String, String)>,
}

impl View for ObjectIndex {
    type V = Seq<(Seq<char>, Seq<char>)>;

    closed spec fn view(&self) -> Seq<(Seq<char>, Seq<char>)> {
        self.entries@.map_values(|e: (String, String)| (e.0@, e.1@))
    }
}

/// Whether an object hash can name a file: its first two characters, which
/// name the object's directory, are ASCII.
pub open spec fn hash_ok(h: Seq<char>) -> bool {
    h.len() >= 2 && (h[0] as u32) < 128 && (h[1] as u32) < 128
}

/// The object with hash `h`, relative to the objects directory: its first
/// two characters + `/` + the hash.
pub open spec fn object_file_of(h: Seq<char>) -> Seq<char> {
    h.subrange(0, 2) + "/"@ + h
}

/// Where the object with hash `h` lies: `./objects/` + `object_file_of(h)`.
pub open spec fn object_path_of(h: Seq<char>) -> Seq<char> {
    "./objects/"@ + object_file_of(h)
}

/// The object with hash `hash`, relative to the objects directory (see
/// `object_file_of`).
pub fn object_file(hash: &str) -> (p: String)
    requires
        hash_ok(hash@),
    ensures
        p@ == object_file_of(hash@),
{
    let mut p = String::new();
    p.append(hash.substring_char(0, 2));
    p.append("/");
    p.append(hash);
    proof {
        reveal_strlit("/");
        assert(p@ =~= object_file_of(hash@));
    }
    p
}

/// Whether an object hash can name a file (see `hash_ok`).
pub fn hash_usable(h: &str) -> (b: bool)
    ensures
        b == hash_ok(h@),
{
    h.unicode_len() >= 2 && (h.get_char(0) as u32) < 128 && (h.get_char(1) as u32) < 128
}

impl ObjectIndex {
    pub open spec fn wf(&self) -> bool {
        keys_distinct(self@)
    }

    pub fn new() -> (ix: Self)
        ensures
            ix.wf(),
            ix@ == Seq::<(Seq<char>, Seq<char>)>::empty(),
    {
        let ix = ObjectIndex { entries: Vec::new() };
        proof {
            assert(ix@ =~= Seq::<(Seq<char>, Seq<char>)>::empty());
        }
        ix
    }

    fn position(&self, name: &str) -> (r: Option<usize>)
        ensures
            match r {
                Some(k) => k < self@.len() && self@[k as int].0 == name@,
                None => forall|k: int| 0 <= k < self@.len() ==> self@[k].0 != name@,
            },
    {
        let mut k: usize = 0;
        while k < self.entries.len()
            invariant
                k <= self.entries@.len(),
                self@.len() == self.entries@.len(),
                forall|j: int| 0 <= j < k ==> self@[j].0 != name@,
            decreases self.entries@.len() - k,
        {
            if text_eq(self.entries[k].0.as_str(), name) {
                return Some(k);
            }
            k = k + 1;
        }
        None
    }

    /// Files `hash` under `name`, in place of what was filed there before.
    pub fn insert(&mut self, name: String, hash: String)
        requires
            old(self).wf(),
        ensures
            final(self).wf(),
            hash_of(final(self)@, name@) == Some(hash@),
            forall|other: Seq<char>|
                other != name@ ==> hash_of(final(self)@, other) == hash_of(old(self)@, other),
    {
        let ghost es = self@;
        let ghost nm = name@;
        let ghost hs = hash@;
        let pos = self.position(name.as_str());
        let ghost idx: int = match pos {
            Some(k) => k as int,
            None => es.len() as int,
        };
        match pos {
            Some(k) => {
                self.entries.set(k, (name, hash));
                proof {
                    assert(self@ =~= es.update(k as int, (nm, hs)));
                }
            },
            None => {
                self.entries.push((name, hash));
                proof {
                    assert(self@ =~= es.push((nm, hs)));
                }
            },
        }
        proof {
            let ns = self@;
            assert(keys_distinct(ns));
            assert(ns[idx] == (nm, hs));
            assert(exists|k: int| 0 <= k < ns.len() && ns[k].0 == nm);
            let c = choose|k: int| 0 <= k < ns.len() && ns[k].0 == nm;
            assert(ns[c].1 == hs);
            assert forall|other: Seq<char>| other != nm implies hash_of(ns, other) == hash_of(
                es,
                other,
            ) by {
                if exists|k: int| 0 <= k < es.len() && es[k].0 == other {
                    let a = choose|k: int| 0 <= k < es.len() && es[k].0 == other;
                    assert(ns[a].0 == other);
                    let b = choose|k: int| 0 <= k < ns.len() && ns[k].0 == other;
                    assert(a == b);
                } else {
                    assert forall|k: int| 0 <= k < ns.len() implies ns[k].0 != other by {
                        if k < es.len() {
                        }
                    }
                }
            }
        }
    }

    /// The hash filed under `name`, if any.
    pub fn lookup(&self, name: &str) -> (r: Option<&String>)
        requires
            self.wf(),
        ensures
            match r {
                Some(h) => hash_of(self@, name@) == Some(h@),
                None => hash_of(self@, name@) is None,
            },
    {
        match self.position(name) {
            Some(k) => {
                proof {
                    let c = choose|c: int| 0 <= c < self@.len() && self@[c].0 == name@;
                    assert(c == k);
                    assert(self@[k as int].1 == self.entries@[k as int].1@);
                }
                Some(&self.entries[k].1)
            },
            None => None,
        }
    }

    /// The file holding the resource at pack path `name`: none unless the
    /// path starts with `assets/` and the rest is filed in the index.
    pub fn object_path(&self, name: &str) -> (r: Option<String>)
        requires
            self.wf(),
            "assets/"@.is_prefix_of(name@) ==> match hash_of(
                self@,
                name@.subrange(7, name@.len() as int),
            ) {
                Some(h) => hash_ok(h),
                None => true,
            },
        ensures
            ({
                let rest = name@.subrange(7, name@.len() as int);
                if "assets/"@.is_prefix_of(name@) && hash_of(self@, rest) is Some {
                    r is Some && r->0@ == object_path_of(hash_of(self@, rest)->0)
                } else {
                    r is None
                }
            }),
    {
        if !starts_with(name, "assets/") {
            return None;
        }
        proof {
            reveal_strlit("assets/");
        }
        let n = name.unicode_len();
        let rest = name.substring_char(7, n);
        match self.position(rest) {
            Some(k) => {
                let hash = self.entries[k].1.as_str();
                proof {
                    assert(self@[k as int].1 == hash@);
                    let c = choose|c: int| 0 <= c < self@.len() && self@[c].0 == rest@;
                    assert(c == k);
                    assert(hash_ok(self@[k as int].1));
                }
                let mut p = String::from_str("./objects/");
                let file = object_file(hash);
                p.append(file.as_str());
                proof {
                    assert(p@ =~= object_path_of(hash@));
                }
                Some(p)
            },
            None => None,
        }
    }
}

// ---------------------------------------------------------------------------
// The pending-download counter.
// ---------------------------------------------------------------------------

/// The mark in the pending-download counter that the vanilla resources are
/// ready to be loaded: its highest bit.
pub fn load_vanilla_flag() -> (f: usize)
    ensures
        f == 1usize << (usize::BITS - 1),
{
    1usize << (usize::BITS - 1)
}

/// The mark in the pending-download counter that the asset index is ready to
/// be loaded: the bit below the highest.
pub fn load_assets_flag() -> (f: usize)
    ensures
        f == 1usize << (usize::BITS - 2),
{
    1usize << (usize::BITS - 2)
}

/// What the resource manager does in a frame, read from its pending-download
/// counter (the number of downloads running, plus one, with the two marks).
#[derive(Clone, Copy, Debug, PartialEq, Eq, Structural)]
pub struct PendingStep {
    pub load_assets: bool,
    pub load_vanilla: bool,
    /// Every download has finished: the tasks are cleared and the counter
    /// set to zero.
    pub all_done: bool,
}

/// The frame's work for counter value `pending`: none when it is zero;
/// otherwise each marked pack is loaded (its mark is then taken off), and
/// when only the initial one remains, everything is finished.
pub fn pending_step(pending: usize) -> (s: Option<PendingStep>)
    ensures
        pending == 0 ==> s is None,
        pending != 0 ==> s == Some(
            PendingStep {
                load_assets: pending & (1usize << (usize::BITS - 2)) != 0,
                load_vanilla: pending & (1usize << (usize::BITS - 1)) != 0,
                all_done: pending == 1,
            },
        ),
{
    if pending == 0 {
        return None;
    }
    let assets = load_assets_flag();
    let vanilla = load_vanilla_flag();
    Some(
        PendingStep {
            load_assets: pending & assets != 0,
            load_vanilla: pending & vanilla != 0,
            all_done: pending == 1,
        },
    )
}

// ---------------------------------------------------------------------------
// Downloads in progress.
// ---------------------------------------------------------------------------

/// A download or unpacking whose progress is shown: its name, the file it
/// writes, how many units it has in all and how many are done.
pub struct Task {
    pub task_name: String,
    pub task_file: String,
    pub total: u64,
    pub progress: u64,
}

pub open spec fn task_view(t: Task) -> (Seq<char>, Seq<char>, u64, u64) {
    (t.task_name@, t.task_file@, t.total, t.progress)
}

/// Whether a task is still running: not all of its units are done.
pub open spec fn unfinished(t: (Seq<char>, Seq<char>, u64, u64)) -> bool {
    t.3 < t.2
}

/// The tasks whose progress is shown, in the order they started.
pub struct Progress {
    pub tasks: Vec<Task>,
}

impl View for Progress {
    type V = Seq<(Seq<char>, Seq<char>, u64, u64)>;

    open spec fn view(&self) -> Seq<(Seq<char>, Seq<char>, u64, u64)> {
        self.tasks@.map_values(|t: Task| task_view(t))
    }
}

/// The tasks after `prog` units of the tasks named `name` that write `file`
/// are done.
pub open spec fn advanced(
    ts: Seq<(Seq<char>, Seq<char>, u64, u64)>,
    name: Seq<char>,
    file: Seq<char>,
    prog: u64,
) -> Seq<(Seq<char>, Seq<char>, u64, u64)> {
    ts.map_values(
        |t: (Seq<char>, Seq<char>, u64, u64)|
            if t.0 == name && t.1 == file {
                (t.0, t.1, t.2, (t.3 + prog) as u64)
            } else {
                t
            },
    )
}

impl Progress {
    pub fn new() -> (p: Self)
        ensures
            p@ == Seq::<(Seq<char>, Seq<char>, u64, u64)>::empty(),
    {
        let p = Progress { tasks: Vec::new() };
        proof {
            assert(p@ =~= Seq::<(Seq<char>, Seq<char>, u64, u64)>::empty());
        }
        p
    }

    /// Starts showing a task of `length` units, none of them done.
    pub fn add_task(&mut self, name: &str, file: &str, length: u64)
        ensures
            final(self)@ == old(self)@.push((name@, file@, length, 0u64)),
    {
        self.tasks.push(
            Task {
                task_name: String::from_str(name),
                task_file: String::from_str(file),
                total: length,
                progress: 0,
            },
        );
        proof {
            assert(self@ =~= old(self)@.push((name@, file@, length, 0u64)));
        }
    }

    /// Records `prog` more units done of the tasks named `name` that write
    /// `file`.
    pub fn add_task_progress(&mut self, name: &str, file: &str, prog: u64)
        requires
            forall|k: int|
                0 <= k < old(self)@.len() && old(self)@[k].0 == name@ && old(self)@[k].1 == file@
                    ==> old(self)@[k].3 + prog <= u64::MAX,
        ensures
            final(self)@ == advanced(old(self)@, name@, file@, prog),
    {
        let mut k: usize = 0;
        while k < self.tasks.len()
            invariant
                k <= self.tasks@.len(),
                self@.len() == old(self)@.len(),
                forall|j: int|
                    0 <= j < old(self)@.len() && old(self)@[j].0 == name@ && old(self)@[j].1
                        == file@ ==> old(self)@[j].3 + prog <= u64::MAX,
                forall|j: int| 0 <= j < k ==> self@[j] == advanced(old(self)@, name@, file@, prog)[j],
                forall|j: int| k <= j < self@.len() ==> self@[j] == old(self)@[j],
            decreases self.tasks@.len() - k,
        {
            let ghost prev = self@;
            proof {
                assert(self@[k as int] == task_view(self.tasks@[k as int]));
                assert(self@[k as int] == old(self)@[k as int]);
            }
            if text_eq(self.tasks[k].task_file.as_str(), file) && text_eq(
                self.tasks[k].task_name.as_str(),
                name,
            ) {
                let p = self.tasks[k].progress + prog;
                let ghost before = self@;
                self.tasks[k].progress = p;
                proof {
                    assert(self@[k as int] == task_view(self.tasks@[k as int]));
                    assert forall|j: int| 0 <= j < self@.len() && j != k implies self@[j]
                        == before[j] by {
                        assert(self@[j] == task_view(self.tasks@[j]));
                    }
                }
            }
            proof {
                assert(self@[k as int] == advanced(old(self)@, name@, file@, prog)[k as int]);
                assert(forall|j: int| 0 <= j < self@.len() && j != k ==> self@[j] == prev[j]);
                assert forall|j: int| 0 <= j < k + 1 implies self@[j] == advanced(
                    old(self)@,
                    name@,
                    file@,
                    prog,
                )[j] by {
                    if j < k {
                        assert(prev[j] == advanced(old(self)@, name@, file@, prog)[j]);
                    }
                }
            }
            k = k + 1;
        }
        proof {
            assert(self@ =~= advanced(old(self)@, name@, file@, prog));
        }
    }

    /// Stops showing the finished tasks, keeping the others in order.
    pub fn retain_unfinished(&mut self)
        ensures
            final(self)@ == old(self)@.filter(|t: (Seq<char>, Seq<char>, u64, u64)| unfinished(t)),
    {
        let ghost orig = self@;
        let ghost pred = |t: (Seq<char>, Seq<char>, u64, u64)| unfinished(t);
        let mut i: usize = 0;
        let ghost mut j: int = 0;
        while i < self.tasks.len()
            invariant
                0 <= j <= orig.len(),
                i <= self@.len(),
                self@ == orig.subrange(0, j).filter(pred) + orig.subrange(j, orig.len() as int),
                i == orig.subrange(0, j).filter(pred).len(),
                pred == (|t: (Seq<char>, Seq<char>, u64, u64)| unfinished(t)),
            decreases self@.len() - i,
        {
            let ghost a = orig.subrange(0, j).filter(pred);
            proof {
                assert(orig.subrange(0, j + 1).drop_last() =~= orig.subrange(0, j));
                assert(orig.subrange(0, j + 1).last() == orig[j]);
                assert(self@[i as int] == orig[j]);
                assert(self@[i as int] == task_view(self.tasks@[i as int]));
                assert(pred(orig[j]) == (orig[j].3 < orig[j].2));
                assert(orig.subrange(j, orig.len() as int) =~= seq![orig[j]] + orig.subrange(
                    j + 1,
                    orig.len() as int,
                ));
            }
            if self.tasks[i].progress < self.tasks[i].total {
                i = i + 1;
                proof {
                    let sub = orig.subrange(0, j + 1);
                    reveal(Seq::filter);
                    assert(sub.filter(pred) == sub.drop_last().filter(pred).push(sub.last()));
                    assert(orig.subrange(0, j + 1).filter(pred) == a.push(orig[j]));
                    assert(self@ =~= orig.subrange(0, j + 1).filter(pred) + orig.subrange(
                        j + 1,
                        orig.len() as int,
                    ));
                }
            } else {
                let ghost before = self@;
                self.tasks.remove(i);
                proof {
                    let sub = orig.subrange(0, j + 1);
                    reveal(Seq::filter);
                    assert(sub.filter(pred) == sub.drop_last().filter(pred));
                    assert(orig.subrange(0, j + 1).filter(pred) == a);
                    assert(self@ =~= before.remove(i as int));
                    assert(self@ =~= orig.subrange(0, j + 1).filter(pred) + orig.subrange(
                        j + 1,
                        orig.len() as int,
                    ));
                }
            }
            proof {
                j = j + 1;
            }
        }
        proof {
            assert(orig.subrange(0, j).filter(pred).len() + (orig.len() - j) == self@.len());
            assert(j == orig.len());
            assert(orig.subrange(0, j) =~= orig);
            assert(self@ =~= orig.filter(pred));
        }
    }

    /// Stops showing every task.
    pub fn clear(&mut self)
        ensures
            final(self)@ == Seq::<(Seq<char>, Seq<char>, u64, u64)>::empty(),
    {
        self.tasks.clear();
        proof {
            assert(self@ =~= Seq::<(Seq<char>, Seq<char>, u64, u64)>::empty());
        }
    }
}

} // verus!
