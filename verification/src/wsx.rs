use vstd::prelude::*;

use crate::text::views;

verus! {

/// What a scene node is defined as: its `def`, else its `thingdef`, else the
/// empty string.
pub open spec fn node_class(def: Option<Seq<char>>, thingdef: Option<Seq<char>>) -> Seq<char> {
    match def {
        Some(d) => d,
        None => match thingdef {
            Some(t) => t,
            None => Seq::empty(),
        },
    }
}

pub open spec fn opt_view(o: Option<String>) -> Option<Seq<char>> {
    match o {
        Some(s) => Some(s@),
        None => None,
    }
}

/// The class of a node, as an owned string.
pub fn node_class_of(def: &Option<String>, thingdef: &Option<String>) -> (res: String)
    ensures
        res@ == node_class(opt_view(*def), opt_view(*thingdef)),
{
    match def {
        Some(d) => d.clone(),
        None => match thingdef {
            Some(t) => t.clone(),
            None => String::new(),
        },
    }
}

/// A node is imported as a brush when its class is `CsgBrush` and its CSG
/// level is unset or 1 (level 2 and higher are ignored).
pub fn is_csg_brush_node(def: &Option<String>, thingdef: &Option<String>, csg_level: Option<i32>) -> (res: bool)
    ensures
        res == (node_class(opt_view(*def), opt_view(*thingdef)) == "CsgBrush"@
            && (csg_level is None || csg_level == Some(1i32))),
{
    let class = node_class_of(def, thingdef);
    let brush = String::from_str("CsgBrush");
    let level_ok = match csg_level {
        None => true,
        Some(l) => l == 1,
    };
    class == brush && level_ok
}

/// A node is imported as a point light when its class is `PointLight`.
pub fn is_pointlight_node(def: &Option<String>, thingdef: &Option<String>) -> (res: bool)
    ensures
        res == (node_class(opt_view(*def), opt_view(*thingdef)) == "PointLight"@),
{
    let class = node_class_of(def, thingdef);
    let light = String::from_str("PointLight");
    class == light
}

/// Appearance names of a scene, each given the id of its first occurrence:
/// ids are handed out 0, 1, 2, ... in order of first appearance.
pub struct AppearanceTable {
    names: Vec<String>,
}

/// No name occurs twice.
pub open spec fn distinct(s: Seq<Seq<char>>) -> bool {
    forall|i: int, j: int| 0 <= i < j < s.len() ==> s[i] != s[j]
}

/// The names and the id of `name` after interning it into `names`.
pub open spec fn after_intern(names: Seq<Seq<char>>, name: Seq<char>) -> (Seq<Seq<char>>, int) {
    if names.contains(name) {
        (names, names.index_of(name))
    } else {
        (names.push(name), names.len() as int)
    }
}

/// The names and ids after interning each of `names` in turn.
pub open spec fn after_intern_all(table: Seq<Seq<char>>, names: Seq<Seq<char>>) -> (Seq<Seq<char>>, Seq<int>)
    decreases names.len(),
{
    if names.len() == 0 {
        (table, Seq::empty())
    } else {
        let prev = after_intern_all(table, names.drop_last());
        let next = after_intern(prev.0, names.last());
        (next.0, prev.1.push(next.1))
    }
}

pub open spec fn ids_view(ids: Seq<i32>) -> Seq<int> {
    ids.map_values(|i: i32| i as int)
}

impl View for AppearanceTable {
    type V = Seq<Seq<char>>;

    /// The names, by id.
    closed spec fn view(&self) -> Seq<Seq<char>> {
        views(self.names@)
    }
}

impl AppearanceTable {
    #[verifier::type_invariant]
    closed spec fn names_distinct(&self) -> bool {
        distinct(views(self.names@)) && self.names@.len() <= i32::MAX
    }

    /// A table with no names.
    pub fn new() -> (res: AppearanceTable)
        ensures
            res@ == Seq::<Seq<char>>::empty(),
    {
        AppearanceTable { names: Vec::new() }
    }

    /// The id of `name`, adding it with the next id when it is new.
    pub fn intern(&mut self, name: &str) -> (id: i32)
        requires
            old(self)@.contains(name@) || old(self)@.len() < i32::MAX,
        ensures
            (final(self)@, id as int) == after_intern(old(self)@, name@),
            distinct(final(self)@),
            final(self)@.len() <= i32::MAX,
    {
        proof {
            use_type_invariant(&*self);
        }
        let mut i: usize = 0;
        while i < self.names.len()
            invariant
                i <= self.names@.len(),
                self.names@.len() < i32::MAX || views(self.names@).contains(name@),
                self.names@.len() <= i32::MAX,
                distinct(views(self.names@)),
                forall|k: int| 0 <= k < i ==> views(self.names@)[k] != name@,
            decreases self.names@.len() - i,
        {
            if self.names[i].as_str().to_owned() == name.to_owned() {
                proof {
                    let v = views(self.names@);
                    assert(v[i as int] == name@);
                    assert(v.contains(name@));
                    let k = v.index_of(name@);
                    assert(v[k] == name@);
                    if k < i as int {
                        assert(v[k] != v[i as int]);
                    } else if k > i as int {
                        assert(v[i as int] != v[k]);
                    }
                    assert(k == i as int);
                }
                return i as i32;
            }
            i = i + 1;
        }
        let ghost before = views(self.names@);
        assert(!before.contains(name@));
        let mut names: Vec<String> = Vec::new();
        std::mem::swap(&mut names, &mut self.names);
        names.push(name.to_owned());
        assert(views(names@) =~= before.push(name@));
        self.names = names;
        i as i32
    }

    /// The name with id `id`, if there is one.
    pub fn name_of(&self, id: i32) -> (res: Option<String>)
        ensures
            (0 <= id < self@.len()) ==> (res matches Some(n) && n@ == self@[id as int]),
            !(0 <= id < self@.len()) ==> res is None,
    {
        if id >= 0 && (id as usize) < self.names.len() {
            Some(self.names[id as usize].clone())
        } else {
            None
        }
    }

    /// The number of names.
    pub fn len(&self) -> (res: usize)
        ensures
            res == self@.len(),
    {
        self.names.len()
    }

    /// Interns the appearance of each face of a brush, in face order, and
    /// gives the ids.
    pub fn intern_all(&mut self, names: &Vec<String>) -> (ids: Vec<i32>)
        requires
            old(self)@.len() + names@.len() < i32::MAX,
        ensures
            (final(self)@, ids_view(ids@)) == after_intern_all(old(self)@, views(names@)),
            ids@.len() == names@.len(),
            forall|i: int| 0 <= i < names@.len() ==> 0 <= #[trigger] ids@[i] < final(self)@.len() && final(self)@[ids@[i] as int] == names@[i]@,
            old(self)@.is_prefix_of(final(self)@),
            distinct(final(self)@),
    {
        let mut ids: Vec<i32> = Vec::new();
        let mut i: usize = 0;
        let ghost start = self@;
        while i < names.len()
            invariant
                i <= names@.len(),
                self@.len() <= start.len() + i,
                start.len() + names@.len() < i32::MAX,
                start.is_prefix_of(self@),
                ids@.len() == i,
                forall|k: int| 0 <= k < i ==> 0 <= #[trigger] ids@[k] < self@.len() && self@[ids@[k] as int] == names@[k]@,
                (self@, ids_view(ids@)) == after_intern_all(start, views(names@).take(i as int)),
            decreases names@.len() - i,
        {
            let ghost prev = self@;
            let ghost prev_ids = ids@;
            let id = self.intern(names[i].as_str());
            proof {
                if prev.contains(names@[i as int]@) {
                    assert(prev[prev.index_of(names@[i as int]@)] == names@[i as int]@);
                }
            }
            ids.push(id);
            proof {
                let ns = views(names@).take(i + 1);
                assert(ns.drop_last() =~= views(names@).take(i as int));
                assert(ns.last() == names@[i as int]@);
                assert(ids_view(ids@) =~= ids_view(prev_ids).push(id as int));
            }
            i = i + 1;
        }
        proof {
            use_type_invariant(&*self);
            assert(views(names@).take(i as int) =~= views(names@));
        }
        ids
    }

    /// The material name of each face of a brush, by the appearance ids of its
    /// faces.
    pub fn face_materials(&self, appearances: &Vec<i32>) -> (res: Vec<String>)
        requires
            forall|i: int| 0 <= i < appearances@.len() ==> 0 <= #[trigger] appearances@[i] < self@.len(),
        ensures
            res@.len() == appearances@.len(),
            forall|i: int| 0 <= i < appearances@.len() ==> (#[trigger] res@[i])@ == self@[appearances@[i] as int],
    {
        let mut res: Vec<String> = Vec::new();
        let mut i: usize = 0;
        while i < appearances.len()
            invariant
                i <= appearances@.len(),
                forall|k: int| 0 <= k < appearances@.len() ==> 0 <= #[trigger] appearances@[k] < self@.len(),
                res@.len() == i,
                forall|k: int| 0 <= k < i ==> (#[trigger] res@[k])@ == self@[appearances@[k] as int],
            decreases appearances@.len() - i,
        {
            let id = appearances[i];
            res.push(self.names[id as usize].clone());
            i = i + 1;
        }
        res
    }

    /// The names, by id.
    pub fn names(&self) -> (res: &Vec<String>)
        ensures
            views(res@) == self@,
    {
        &self.names
    }
}

/// Interning a name that is already known changes nothing and gives its id
/// again: a name keeps the id of its first occurrence.
pub proof fn lemma_intern_idempotent(names: Seq<Seq<char>>, name: Seq<char>)
    ensures
        after_intern(after_intern(names, name).0, name) == after_intern(names, name),
        after_intern(names, name).0[after_intern(names, name).1] == name,
{
    if names.contains(name) {
        assert(names[names.index_of(name)] == name);
    } else {
        let s = names.push(name);
        assert(s[names.len() as int] == name);
        assert(s.contains(name));
        let k = s.index_of(name);
        assert(s[k] == name);
        if k < names.len() {
            assert(s[k] == names[k]);
            assert(names.contains(name));
        }
    }
}

} // verus!
