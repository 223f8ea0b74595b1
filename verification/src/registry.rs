//! The module registry: loaded modules by path, in the order they were loaded.

use vstd::prelude::*;

verus! {

/// True when `path` names one of `entries`.
pub open spec fn has_path<M>(entries: Seq<(Seq<char>, M)>, path: Seq<char>) -> bool {
    exists|i: int| 0 <= i < entries.len() && (#[trigger] entries[i]).0 == path
}

/// True when no path names two of `entries`.
pub open spec fn distinct_paths<M>(entries: Seq<(Seq<char>, M)>) -> bool {
    forall|i: int, j: int|
        0 <= i < j < entries.len() ==> (#[trigger] entries[i]).0 != (#[trigger] entries[j]).0
}

struct Entry<M> {
    path: String,
    module: M,
}

/// Loaded modules keyed by path. The view lists `(path, module)` pairs in
/// load order, which is the order events are dispatched in.
pub struct Registry<M> {
    entries: Vec<Entry<M>>,
}

impl<M> View for Registry<M> {
    type V = Seq<(Seq<char>, M)>;

    closed spec fn view(&self) -> Seq<(Seq<char>, M)> {
        Seq::new(self.entries@.len(), |i: int| (self.entries@[i].path@, self.entries@[i].module))
    }
}

impl<M> Registry<M> {
    #[verifier::type_invariant]
    spec fn paths_are_distinct(self) -> bool {
        distinct_paths(self@)
    }

    /// An empty registry.
    pub fn new() -> (registry: Registry<M>)
        ensures
            registry@ == Seq::<(Seq<char>, M)>::empty(),
    {
        let registry = Registry { entries: Vec::new() };
        assert(registry@ =~= Seq::<(Seq<char>, M)>::empty());
        registry
    }

    /// Number of loaded modules.
    pub fn len(&self) -> (n: usize)
        ensures
            n == self@.len(),
            distinct_paths(self@),
    {
        proof {
            use_type_invariant(self);
        }
        self.entries.len()
    }

    /// Where `path` stands in load order, if it is loaded.
    pub fn position(&self, path: &String) -> (found: Option<usize>)
        ensures
            distinct_paths(self@),
            match found {
                Some(i) => i < self@.len() && self@[i as int].0 == path@,
                None => !has_path(self@, path@),
            },
    {
        proof {
            use_type_invariant(self);
        }
        let mut i: usize = 0;
        while i < self.entries.len()
            invariant
                i <= self.entries@.len(),
                distinct_paths(self@),
                forall|k: int| 0 <= k < i ==> (#[trigger] self@[k]).0 != path@,
            decreases self.entries@.len() - i,
        {
            if self.entries[i].path == *path {
                return Some(i);
            }
            i += 1;
        }
        None
    }

    /// Tells whether a module is loaded under `path`.
    pub fn contains(&self, path: &String) -> (present: bool)
        ensures
            present == has_path(self@, path@),
    {
        self.position(path).is_some()
    }

    /// The path of the module at `index` in load order.
    pub fn path_at(&self, index: usize) -> (path: &String)
        requires
            index < self@.len(),
        ensures
            path@ == self@[index as int].0,
    {
        &self.entries[index].path
    }

    /// The module at `index` in load order.
    pub fn module_at(&self, index: usize) -> (module: &M)
        requires
            index < self@.len(),
        ensures
            *module == self@[index as int].1,
    {
        &self.entries[index].module
    }

    /// Adds `module` under `path` behind every module already loaded. Nothing
    /// is ever replaced: where a module is loaded under `path` already, the
    /// registry stays as it is and `module` comes back.
    pub fn insert(&mut self, path: String, module: M) -> (r: Result<(), M>)
        ensures
            has_path(old(self)@, path@) ==> r == Err::<(), M>(module)
                && final(self)@ == old(self)@,
            !has_path(old(self)@, path@) ==> r is Ok
                && final(self)@ == old(self)@.push((path@, module)),
    {
        proof {
            use_type_invariant(&*self);
        }
        if self.contains(&path) {
            return Err(module);
        }
        let mut entries: Vec<Entry<M>> = Vec::new();
        core::mem::swap(&mut self.entries, &mut entries);
        entries.push(Entry { path, module });
        proof {
            let grown = Registry { entries };
            assert(grown@ =~= old(self)@.push((path@, module)));
        }
        core::mem::swap(&mut self.entries, &mut entries);
        Ok(())
    }

    /// Takes the module loaded under `path` out of the registry and hands it
    /// back. Where none is loaded under `path`, the registry stays as it is
    /// and the answer is `None`.
    pub fn remove(&mut self, path: &String) -> (removed: Option<M>)
        ensures
            match removed {
                Some(module) => exists|i: int|
                    0 <= i < old(self)@.len() && #[trigger] old(self)@[i] == (path@, module)
                        && final(self)@ == old(self)@.remove(i),
                None => !has_path(old(self)@, path@) && final(self)@ == old(self)@,
            },
            !has_path(final(self)@, path@),
    {
        proof {
            use_type_invariant(&*self);
        }
        match self.position(path) {
            Some(i) => {
                let mut entries: Vec<Entry<M>> = Vec::new();
                core::mem::swap(&mut self.entries, &mut entries);
                let entry = entries.remove(i);
                proof {
                    let shrunk = Registry { entries };
                    assert(shrunk@ =~= old(self)@.remove(i as int));
                    assert(old(self)@[i as int] == (path@, entry.module));
                }
                core::mem::swap(&mut self.entries, &mut entries);
                Some(entry.module)
            },
            None => None,
        }
    }
}

} // verus!
