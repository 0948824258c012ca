//! Groups, the shared group cache, and the hierarchy resolver that computes
//! a group's slash-joined full path by walking parent references.

use std::collections::HashMap;
use vstd::prelude::*;

verus! {

broadcast use vstd::std_specs::hash::group_hash_axioms;

/// A group: its identifier, its optional parent, its own path segment and
/// its public URL.
#[derive(Debug)]
pub struct Group {
    /// Group id
    pub id: usize,
    /// Group parent id
    pub parent_id: Option<usize>,
    /// Group path
    pub path: String,
    /// Group URL
    pub web_url: String,
}

impl Clone for Group {
    /// An exact copy: every field, including the strings, reads the same.
    fn clone(&self) -> (r: Self)
        ensures
            r == *self,
    {
        Group {
            id: self.id,
            parent_id: self.parent_id,
            path: self.path.clone(),
            web_url: self.web_url.clone(),
        }
    }
}

/// The shared mapping from group identifier to group record.  It is
/// populated lazily and append-only: an entry, once present, is never
/// replaced, so its `path` and `parent_id` stay authoritative.
pub struct GroupCache {
    map: HashMap<usize, Group>,
}

impl GroupCache {
    /// The cache contents, as a map from identifier to record.
    pub closed spec fn view(&self) -> Map<usize, Group> {
        self.map@
    }

    /// An empty cache.
    pub fn new() -> (r: GroupCache)
        ensures
            r@ == Map::<usize, Group>::empty(),
    {
        GroupCache { map: HashMap::new() }
    }

    /// Looks a group up by id, handing back a copy of the cached record.
    pub fn get(&self, id: usize) -> (r: Option<Group>)
        ensures
            match r {
                Some(g) => self@.contains_key(id) && g == self@[id],
                None => !self@.contains_key(id),
            },
    {
        match self.map.get(&id) {
            Some(found) => Some(found.clone()),
            None => None,
        }
    }

    /// Inserts a record unless its id is already present; either way, hands
    /// back a copy of the record that the cache now holds for that id.
    /// An existing entry is never replaced.
    pub fn ensure_entry(&mut self, g: &Group) -> (r: Group)
        ensures
            final(self)@ == if old(self)@.contains_key(g.id) {
                old(self)@
            } else {
                old(self)@.insert(g.id, *g)
            },
            final(self)@.contains_key(g.id),
            r == final(self)@[g.id],
    {
        let found = self.map.get(&g.id);
        match found {
            Some(existing) => existing.clone(),
            None => {
                self.map.insert(g.id, g.clone());
                g.clone()
            },
        }
    }

}

/// What one resolution step found.
#[derive(Debug)]
pub enum ResolveStep {
    /// The current group has no parent: the accumulated path is complete.
    Done,
    /// The parent was in the cache; its path segment has been prepended and
    /// the walk moved up one level.
    Advanced,
    /// The parent with this id is not cached and must be fetched before the
    /// walk can continue.
    NeedFetch(usize),
}

/// The state of one full-path resolution: the path accumulated so far and
/// the group whose parent chain is still to be walked.
///
/// The walk is driven step by step so that the caller can perform the
/// fetches the cache cannot answer; every decision stays here.
#[derive(Debug)]
pub struct PathResolver {
    path: String,
    current: Group,
}

impl PathResolver {
    /// The accumulated slash-joined path.
    pub closed spec fn spec_path(&self) -> Seq<char> {
        self.path@
    }

    /// The group the walk currently stands on.
    pub closed spec fn spec_current(&self) -> Group {
        self.current
    }

    /// Begins resolving a group's full path.  The group is entered into the
    /// cache if absent; the walk starts from the record the cache holds for
    /// its id, and the accumulated path starts as the argument's own path
    /// segment.
    pub fn start(group: &Group, cache: &mut GroupCache) -> (r: PathResolver)
        ensures
            final(cache)@ == if old(cache)@.contains_key(group.id) {
                old(cache)@
            } else {
                old(cache)@.insert(group.id, *group)
            },
            r.spec_path() == group.path@,
            r.spec_current() == final(cache)@[group.id],
    {
        let current = cache.ensure_entry(group);
        PathResolver { path: group.path.clone(), current }
    }

    /// Takes one step of the walk against the cache.  A fetch is requested
    /// only for a parent id that the cache does not hold.
    pub fn step(&mut self, cache: &GroupCache) -> (r: ResolveStep)
        ensures
            match r {
                ResolveStep::Done => {
                    &&& *final(self) == *old(self)
                    &&& old(self).spec_current().parent_id is None
                },
                ResolveStep::Advanced => {
                    &&& old(self).spec_current().parent_id matches Some(pid)
                        && cache@.contains_key(pid) && final(self).spec_current() == cache@[pid]
                        && final(self).spec_path() == cache@[pid].path@ + "/"@ + old(
                        self,
                    ).spec_path()
                },
                ResolveStep::NeedFetch(pid) => {
                    &&& *final(self) == *old(self)
                    &&& old(self).spec_current().parent_id == Some(pid)
                    &&& !cache@.contains_key(pid)
                },
            },
    {
        match self.current.parent_id {
            None => ResolveStep::Done,
            Some(pid) => {
                match cache.get(pid) {
                    Some(parent) => {
                        let mut newpath = parent.path.clone();
                        newpath.append("/");
                        newpath.append(self.path.as_str());
                        self.path = newpath;
                        self.current = parent;
                        ResolveStep::Advanced
                    },
                    None => ResolveStep::NeedFetch(pid),
                }
            },
        }
    }

    /// Continues the walk with a freshly fetched parent record.  The record
    /// is entered into the cache unless its id arrived meanwhile, in which
    /// case the cached record wins; either way the walk advances through the
    /// record the cache now holds, and its path segment is prepended.
    pub fn supply_parent(&mut self, cache: &mut GroupCache, fetched: Group)
        ensures
            final(cache)@ == if old(cache)@.contains_key(fetched.id) {
                old(cache)@
            } else {
                old(cache)@.insert(fetched.id, fetched)
            },
            final(self).spec_current() == final(cache)@[fetched.id],
            final(self).spec_path() == final(cache)@[fetched.id].path@ + "/"@ + old(
                self,
            ).spec_path(),
    {
        let stored = cache.ensure_entry(&fetched);
        let mut newpath = stored.path.clone();
        newpath.append("/");
        newpath.append(self.path.as_str());
        self.path = newpath;
        self.current = stored;
    }

    /// Hands the accumulated path out.
    pub fn into_path(self) -> (r: String)
        ensures
            r@ == self.spec_path(),
    {
        self.path
    }
}

} // verus!
