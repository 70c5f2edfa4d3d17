use vstd::prelude::*;

use crate::text::views;
use crate::wsx::distinct;

verus! {

/// Material names handed out, in order, to scene appearances that have no
/// material link yet when a scene is imported.
pub const DEFAULT_APPEARANCE_MATERIALS: [&'static str; 20] = [
    "material/floors/bathroomtile2",
    "material/floors/bathroomtile1",
    "material/floors/rich-brown-tile",
    "material/floors/modern-tile1",
    "material/floors/green-shower-tile1",
    "material/floors/green-ceramic-tiles",
    "material/floors/industrial-tile1",
    "material/floors/diamond-inlay-tile",
    "material/floors/cheap-old-linoleum",
    "material/floors/gross-dirty-tiles",
    "material/floors/bathroomtile2",
    "material/floors/bathroomtile1",
    "material/floors/rich-brown-tile",
    "material/floors/modern-tile1",
    "material/floors/green-shower-tile1",
    "material/floors/green-ceramic-tiles",
    "material/floors/industrial-tile1",
    "material/floors/diamond-inlay-tile",
    "material/floors/cheap-old-linoleum",
    "material/floors/gross-dirty-tiles",
];

/// Links from appearance names (as used by imported scenes) to material
/// names, and the set of links changed since the materials were last
/// refreshed.
pub struct Materials {
    entries: Vec<(String, String)>,
    dirty: Vec<String>,
}

/// The appearance names of a list of links.
pub open spec fn link_keys(entries: Seq<(String, String)>) -> Seq<Seq<char>> {
    entries.map_values(|e: (String, String)| e.0@)
}

/// The material names of a list of links.
pub open spec fn link_values(entries: Seq<(String, String)>) -> Seq<Seq<char>> {
    entries.map_values(|e: (String, String)| e.1@)
}

/// The map with keys `keys` and values `values`, pairwise.
pub open spec fn pair_map(keys: Seq<Seq<char>>, values: Seq<Seq<char>>) -> Map<Seq<char>, Seq<char>> {
    Map::new(|k: Seq<char>| keys.contains(k), |k: Seq<char>| values[keys.index_of(k)])
}

/// The material a name stands for under `links`: where it links to, or the
/// name itself.
pub open spec fn resolved(links: Map<Seq<char>, Seq<char>>, name: Seq<char>) -> Seq<char> {
    if links.contains_key(name) {
        links[name]
    } else {
        name
    }
}

/// A name resolves to the material last linked to it, and linking one name
/// leaves what every other name resolves to as it was.
pub proof fn lemma_resolve_after_link(
    links: Map<Seq<char>, Seq<char>>,
    appearance: Seq<char>,
    material: Seq<char>,
    other: Seq<char>,
)
    requires
        other != appearance,
    ensures
        resolved(links.insert(appearance, material), appearance) == material,
        resolved(links.insert(appearance, material), other) == resolved(links, other),
{
}

/// How many names of `names` get a new link when each name without one is
/// linked in turn.
pub open spec fn needed(linked: Set<Seq<char>>, names: Seq<Seq<char>>) -> nat
    decreases names.len(),
{
    if names.len() == 0 {
        0
    } else if linked.contains(names[0]) {
        needed(linked, names.drop_first())
    } else {
        1 + needed(linked.insert(names[0]), names.drop_first())
    }
}

/// The links after giving each name of `names` without a link the next
/// material of `pool`.
pub open spec fn with_defaults(
    m: Map<Seq<char>, Seq<char>>,
    names: Seq<Seq<char>>,
    pool: Seq<Seq<char>>,
) -> Map<Seq<char>, Seq<char>>
    decreases names.len(),
{
    if names.len() == 0 {
        m
    } else if m.contains_key(names[0]) {
        with_defaults(m, names.drop_first(), pool)
    } else {
        with_defaults(m.insert(names[0], pool[0]), names.drop_first(), pool.drop_first())
    }
}

proof fn lemma_unique_index(s: Seq<Seq<char>>, i: int)
    requires
        distinct(s),
        0 <= i < s.len(),
    ensures
        s.contains(s[i]),
        s.index_of(s[i]) == i,
{
    assert(s[i] == s[i]);
    let k = s.index_of(s[i]);
    assert(s[k] == s[i]);
    if k < i {
        assert(s[k] != s[i]);
    } else if k > i {
        assert(s[i] != s[k]);
    }
}

impl Materials {
    #[verifier::type_invariant]
    closed spec fn well_formed(&self) -> bool {
        &&& distinct(link_keys(self.entries@))
        &&& distinct(views(self.dirty@))
    }

    /// The links, from appearance name to material name.
    pub closed spec fn links(&self) -> Map<Seq<char>, Seq<char>> {
        pair_map(link_keys(self.entries@), link_values(self.entries@))
    }

    /// The appearances whose link changed since the last refresh.
    pub closed spec fn dirty(&self) -> Set<Seq<char>> {
        views(self.dirty@).to_set()
    }

    /// No links, nothing dirty.
    pub fn new() -> (res: Materials)
        ensures
            res.links() == Map::<Seq<char>, Seq<char>>::empty(),
            res.dirty() == Set::<Seq<char>>::empty(),
    {
        let res = Materials { entries: Vec::new(), dirty: Vec::new() };
        assert(res.links() =~= Map::<Seq<char>, Seq<char>>::empty());
        assert(res.dirty() =~= Set::<Seq<char>>::empty());
        res
    }

    /// Position of `name` among the keys.
    fn find(&self, name: &str) -> (res: Option<usize>)
        ensures
            match res {
                Some(i) => i < self.entries@.len() && link_keys(self.entries@)[i as int] == name@
                    && link_keys(self.entries@).contains(name@),
                None => !link_keys(self.entries@).contains(name@),
            },
    {
        let mut i: usize = 0;
        while i < self.entries.len()
            invariant
                i <= self.entries@.len(),
                forall|k: int| 0 <= k < i ==> link_keys(self.entries@)[k] != name@,
            decreases self.entries@.len() - i,
        {
            if self.entries[i].0.as_str().to_owned() == name.to_owned() {
                assert(link_keys(self.entries@)[i as int] == name@);
                return Some(i);
            }
            i = i + 1;
        }
        None
    }

    /// Whether `name` has a link.
    pub fn contains(&self, name: &str) -> (res: bool)
        ensures
            res == self.links().contains_key(name@),
    {
        self.find(name).is_some()
    }

    /// The material that `name` stands for: the material it links to, or
    /// `name` itself when it has no link.
    pub fn resolve(&self, name: &str) -> (res: String)
        ensures
            res@ == resolved(self.links(), name@),
    {
        proof {
            use_type_invariant(self);
        }
        match self.find(name) {
            Some(i) => {
                proof {
                    lemma_unique_index(link_keys(self.entries@), i as int);
                }
                self.entries[i].1.clone()
            },
            None => name.to_owned(),
        }
    }

    /// Links `appearance` to `material`, replacing any link it had.
    pub fn insert_link(&mut self, appearance: String, material: String)
        ensures
            final(self).links() == old(self).links().insert(appearance@, material@),
            final(self).dirty() == old(self).dirty(),
    {
        proof {
            use_type_invariant(&*self);
        }
        let ghost old_links = self.links();
        let ghost old_keys = link_keys(self.entries@);
        let ghost old_values = link_values(self.entries@);
        let found = self.find(appearance.as_str());
        let mut entries: Vec<(String, String)> = Vec::new();
        std::mem::swap(&mut entries, &mut self.entries);
        match found {
            Some(i) => {
                let key = entries[i].0.clone();
                entries.set(i, (key, material));
                proof {
                    assert(link_keys(entries@) =~= old_keys);
                    let nv = link_values(entries@);
                    assert(nv =~= old_values.update(i as int, material@));
                    assert forall|k: Seq<char>| #![auto] old_keys.contains(k) implies nv[old_keys.index_of(k)]
                        == (if k == appearance@ { material@ } else { old_values[old_keys.index_of(k)] }) by {
                        let j = old_keys.index_of(k);
                        assert(old_keys[j] == k);
                        lemma_unique_index(old_keys, j);
                        lemma_unique_index(old_keys, i as int);
                    }
                }
                self.entries = entries;
                assert(self.links() =~= old_links.insert(appearance@, material@));
            },
            None => {
                assert(!old_keys.contains(appearance@));
                entries.push((appearance, material));
                let ghost nk = link_keys(entries@);
                let ghost nv = link_values(entries@);
                proof {
                    assert(nk =~= old_keys.push(appearance@));
                    assert(nv =~= old_values.push(material@));
                    assert(nk[old_keys.len() as int] == appearance@);
                    lemma_unique_index(nk, old_keys.len() as int);
                    assert forall|k: Seq<char>| #![auto] nk.contains(k) implies nv[nk.index_of(k)]
                        == (if k == appearance@ { material@ } else { old_values[old_keys.index_of(k)] }) by {
                        let j = nk.index_of(k);
                        assert(nk[j] == k);
                        if k != appearance@ {
                            assert(j < old_keys.len());
                            assert(old_keys[j] == k);
                            lemma_unique_index(old_keys, j);
                            lemma_unique_index(nk, j);
                        }
                    }
                    assert forall|k: Seq<char>| #![auto] nk.contains(k) <==> (old_keys.contains(k) || k == appearance@) by {
                        if old_keys.contains(k) {
                            let j = old_keys.index_of(k);
                            assert(nk[j] == old_keys[j]);
                        }
                        if nk.contains(k) && k != appearance@ {
                            let j = nk.index_of(k);
                            assert(nk[j] == k);
                            assert(j < old_keys.len());
                            assert(old_keys[j] == k);
                        }
                    }
                }
                self.entries = entries;
                assert(self.links() =~= old_links.insert(appearance@, material@));
            },
        }
    }

    /// Marks `name` as changed.
    fn mark_dirty(&mut self, name: String)
        ensures
            final(self).dirty() == old(self).dirty().insert(name@),
            final(self).links() == old(self).links(),
    {
        proof {
            use_type_invariant(&*self);
        }
        let ghost old_dirty = views(self.dirty@);
        assert(old(self).dirty() == old_dirty.to_set());
        let mut i: usize = 0;
        while i < self.dirty.len()
            invariant
                i <= self.dirty@.len(),
                old_dirty == views(self.dirty@),
                forall|k: int| 0 <= k < i ==> views(self.dirty@)[k] != name@,
            decreases self.dirty@.len() - i,
        {
            if self.dirty[i] == name {
                assert(views(self.dirty@)[i as int] == name@);
                assert(old_dirty.contains(name@));
                assert(self.dirty() =~= old(self).dirty().insert(name@));
                return;
            }
            i = i + 1;
        }
        let mut dirty: Vec<String> = Vec::new();
        std::mem::swap(&mut dirty, &mut self.dirty);
        dirty.push(name);
        assert(views(dirty@) =~= old_dirty.push(name@));
        assert(!old_dirty.contains(name@));
        self.dirty = dirty;
        proof {
            old_dirty.lemma_push_to_set_commute(name@);
        }
        assert(self.dirty() =~= old(self).dirty().insert(name@));
    }

    /// Points the link of `selected_appearance` at `clicked` and marks it as
    /// changed. An appearance without a link is left alone.
    pub fn update_symlink(&mut self, selected_appearance: String, clicked: String)
        ensures
            old(self).links().contains_key(selected_appearance@) ==> {
                &&& final(self).links() == old(self).links().insert(selected_appearance@, clicked@)
                &&& final(self).dirty() == old(self).dirty().insert(selected_appearance@)
            },
            !old(self).links().contains_key(selected_appearance@) ==> {
                &&& final(self).links() == old(self).links()
                &&& final(self).dirty() == old(self).dirty()
            },
    {
        if self.contains(selected_appearance.as_str()) {
            let key = selected_appearance.clone();
            self.insert_link(selected_appearance, clicked);
            self.mark_dirty(key);
        }
    }

    /// Whether `name`'s link changed since the last refresh.
    pub fn is_dirty(&self, name: &str) -> (res: bool)
        ensures
            res == self.dirty().contains(name@),
    {
        let mut i: usize = 0;
        while i < self.dirty.len()
            invariant
                i <= self.dirty@.len(),
                forall|k: int| 0 <= k < i ==> views(self.dirty@)[k] != name@,
            decreases self.dirty@.len() - i,
        {
            if self.dirty[i].as_str().to_owned() == name.to_owned() {
                assert(views(self.dirty@)[i as int] == name@);
                return true;
            }
            i = i + 1;
        }
        false
    }

    /// Whether any link changed since the last refresh.
    pub fn has_dirty(&self) -> (res: bool)
        ensures
            res == (self.dirty() != Set::<Seq<char>>::empty()),
    {
        if self.dirty.len() == 0 {
            assert(self.dirty() =~= Set::<Seq<char>>::empty());
            false
        } else {
            assert(self.dirty().contains(views(self.dirty@)[0]));
            true
        }
    }

    /// Forgets which links changed.
    pub fn clear_dirty(&mut self)
        ensures
            final(self).dirty() == Set::<Seq<char>>::empty(),
            final(self).links() == old(self).links(),
    {
        proof {
            use_type_invariant(&*self);
        }
        self.dirty = Vec::new();
        assert(self.dirty() =~= Set::<Seq<char>>::empty());
    }

    /// How many of `appearance_names` would get a new link from
    /// `assign_default_links`.
    pub fn missing_count(&self, appearance_names: &Vec<String>) -> (res: usize)
        ensures
            res == needed(self.links().dom(), views(appearance_names@)),
    {
        let ghost names = views(appearance_names@);
        let mut seen: Vec<String> = Vec::new();
        let mut count: usize = 0;
        let mut i: usize = 0;
        assert(names.skip(0) =~= names);
        assert(views(seen@).to_set() =~= Set::<Seq<char>>::empty());
        assert(self.links().dom().union(views(seen@).to_set()) =~= self.links().dom());
        while i < appearance_names.len()
            invariant
                names == views(appearance_names@),
                i <= names.len(),
                count <= i,
                needed(self.links().dom(), names) == count + needed(
                    self.links().dom().union(views(seen@).to_set()),
                    names.skip(i as int),
                ),
            decreases names.len() - i,
        {
            let ghost linked = self.links().dom().union(views(seen@).to_set());
            let name = &appearance_names[i];
            assert(names.skip(i as int)[0] == name@);
            assert(names.skip(i as int).drop_first() =~= names.skip(i + 1));
            let in_links = self.contains(name.as_str());
            let mut in_seen = false;
            let mut k: usize = 0;
            while k < seen.len()
                invariant
                    k <= seen@.len(),
                    in_seen == (exists|m: int| 0 <= m < k && views(seen@)[m] == name@),
                decreases seen@.len() - k,
            {
                if seen[k] == *name {
                    in_seen = true;
                    assert(views(seen@)[k as int] == name@);
                }
                k = k + 1;
            }
            assert(in_seen == views(seen@).contains(name@));
            if !in_links && !in_seen {
                let ghost old_seen = views(seen@);
                seen.push(name.clone());
                proof {
                    assert(views(seen@) =~= old_seen.push(name@));
                    old_seen.lemma_push_to_set_commute(name@);
                    assert(self.links().dom().union(views(seen@).to_set()) =~= linked.insert(name@));
                }
                count = count + 1;
            }
            i = i + 1;
        }
        assert(names.skip(i as int) =~= Seq::<Seq<char>>::empty());
        count
    }

    /// Gives each of `appearance_names` that has no link yet the next
    /// material of `pool`, in order.
    pub fn assign_default_links(&mut self, appearance_names: &Vec<String>, pool: &Vec<String>)
        requires
            needed(old(self).links().dom(), views(appearance_names@)) <= pool@.len(),
        ensures
            final(self).links() == with_defaults(
                old(self).links(),
                views(appearance_names@),
                views(pool@),
            ),
            final(self).dirty() == old(self).dirty(),
    {
        let ghost names = views(appearance_names@);
        let ghost materials = views(pool@);
        let ghost target = with_defaults(self.links(), names, materials);
        let mut i: usize = 0;
        let mut p: usize = 0;
        assert(names.skip(0) =~= names);
        assert(materials.skip(0) =~= materials);
        while i < appearance_names.len()
            invariant
                names == views(appearance_names@),
                materials == views(pool@),
                materials.len() == pool.len(),
                i <= names.len(),
                p <= materials.len(),
                needed(self.links().dom(), names.skip(i as int)) <= materials.len() - p,
                with_defaults(self.links(), names.skip(i as int), materials.skip(p as int)) == target,
                self.dirty() == old(self).dirty(),
            decreases names.len() - i,
        {
            let name = &appearance_names[i];
            assert(names.skip(i as int)[0] == name@);
            assert(names.skip(i as int).drop_first() =~= names.skip(i + 1));
            if !self.contains(name.as_str()) {
                assert(p < materials.len());
                assert(materials.skip(p as int)[0] == pool@[p as int]@);
                assert(materials.skip(p as int).drop_first() =~= materials.skip(p + 1));
                let ghost before = self.links();
                self.insert_link(name.clone(), pool[p].clone());
                assert(self.links().dom() =~= before.dom().insert(name@));
                p = p + 1;
            }
            i = i + 1;
        }
        assert(names.skip(i as int) =~= Seq::<Seq<char>>::empty());
    }
}

/// The material names handed out to unlinked scene appearances, in order.
pub fn default_appearance_materials() -> (res: Vec<String>)
    ensures
        res@.len() == 20,
        forall|i: int| 0 <= i < 20 ==> (#[trigger] res@[i])@ == DEFAULT_APPEARANCE_MATERIALS[i]@,
{
    let mut res: Vec<String> = Vec::new();
    let mut i: usize = 0;
    while i < 20
        invariant
            i <= 20,
            res@.len() == i,
            forall|k: int| 0 <= k < i ==> (#[trigger] res@[k])@ == DEFAULT_APPEARANCE_MATERIALS[k]@,
        decreases 20 - i,
    {
        res.push(DEFAULT_APPEARANCE_MATERIALS[i].to_owned());
        i = i + 1;
    }
    res
}

/// Assigning default links keeps every existing link and leaves no name of
/// `names` without a link.
pub proof fn lemma_defaults_link_every_name(
    m: Map<Seq<char>, Seq<char>>,
    names: Seq<Seq<char>>,
    pool: Seq<Seq<char>>,
)
    ensures
        forall|k: Seq<char>| #[trigger] m.contains_key(k) ==> with_defaults(m, names, pool).contains_key(k)
            && with_defaults(m, names, pool)[k] == m[k],
        forall|i: int| 0 <= i < names.len() ==> with_defaults(m, names, pool).contains_key(#[trigger] names[i]),
    decreases names.len(),
{
    if names.len() > 0 {
        let rest = names.drop_first();
        if m.contains_key(names[0]) {
            lemma_defaults_link_every_name(m, rest, pool);
            assert forall|i: int| 0 <= i < names.len() implies with_defaults(m, names, pool).contains_key(#[trigger] names[i]) by {
                if i > 0 {
                    assert(names[i] == rest[i - 1]);
                }
            }
        } else {
            let m2 = m.insert(names[0], pool[0]);
            lemma_defaults_link_every_name(m2, rest, pool.drop_first());
            assert forall|i: int| 0 <= i < names.len() implies with_defaults(m, names, pool).contains_key(#[trigger] names[i]) by {
                if i > 0 {
                    assert(names[i] == rest[i - 1]);
                } else {
                    assert(m2.contains_key(names[0]));
                }
            }
            assert forall|k: Seq<char>| #[trigger] m.contains_key(k) implies with_defaults(m, names, pool).contains_key(k)
                && with_defaults(m, names, pool)[k] == m[k] by {
                assert(m2.contains_key(k));
                assert(m2[k] == m[k]);
            }
        }
    }
}

/// How a material is obtained for a name.
#[derive(Debug)]
pub enum MaterialLookup {
    /// The material (named after following the link) was made before; use it.
    Cached(String),
    /// The material is defined but not made yet: make it and keep it.
    Instantiate(String),
    /// No material of that name is defined.
    Unknown,
}

/// Whether `name` is among `names`.
pub fn has_name(names: &Vec<String>, name: &String) -> (res: bool)
    ensures
        res == views(names@).contains(name@),
{
    let mut i: usize = 0;
    while i < names.len()
        invariant
            i <= names@.len(),
            forall|k: int| 0 <= k < i ==> names@[k]@ != name@,
        decreases names@.len() - i,
    {
        if names[i] == *name {
            assert(views(names@)[i as int] == name@);
            return true;
        }
        i = i + 1;
    }
    proof {
        if views(names@).contains(name@) {
            let k = choose|k: int| 0 <= k < views(names@).len() && views(names@)[k] == name@;
            assert(names@[k]@ == name@);
        }
    }
    false
}

impl Materials {
    /// Finds the material for `name`: follows its link, then uses the
    /// material already made under the resulting name, or makes it when it
    /// is defined. `instantiated` and `defined` list the names of the
    /// materials made so far and of those defined.
    pub fn get(&self, name: &str, instantiated: &Vec<String>, defined: &Vec<String>) -> (res: MaterialLookup)
        ensures
            ({
                let r = resolved(self.links(), name@);
                &&& views(instantiated@).contains(r) ==> (res matches MaterialLookup::Cached(c) && c@ == r)
                &&& !views(instantiated@).contains(r) && views(defined@).contains(r) ==> (res matches MaterialLookup::Instantiate(c) && c@ == r)
                &&& !views(instantiated@).contains(r) && !views(defined@).contains(r) ==> res is Unknown
            }),
    {
        let resolved = self.resolve(name);
        if has_name(instantiated, &resolved) {
            MaterialLookup::Cached(resolved)
        } else if has_name(defined, &resolved) {
            MaterialLookup::Instantiate(resolved)
        } else {
            MaterialLookup::Unknown
        }
    }
}

} // verus!
