use std::collections::HashMap;
use vstd::prelude::*;
use vstd::std_specs::iter::IteratorSpec;

verus! {

broadcast use vstd::std_specs::hash::group_hash_axioms;

/// Position on the canvas.
#[derive(Debug, Clone, Copy, PartialEq, Eq, Structural)]
pub struct Position {
    pub x: i32,
    pub y: i32,
}

/// Text placed on the canvas.
#[derive(Debug)]
pub struct TextObject {
    pub text: String,
}

/// Image placed on the canvas, by reference, with its declared size.
#[derive(Debug)]
pub struct ImageObject {
    pub url: String,
    pub width: u32,
    pub height: u32,
}

/// The payload of a canvas object, one variant per kind.
#[derive(Debug)]
pub enum Object {
    Text(TextObject),
    Image(ImageObject),
}

/// An object together with its placement.
#[derive(Debug)]
pub struct DefinedObject {
    pub position: Position,
    pub object: Object,
}

/// One entry of a snapshot: an identifier and the object stored under it.
#[derive(Debug)]
pub struct DefinedObjectWithId {
    pub id: u128,
    pub object: DefinedObject,
}

impl Clone for TextObject {
    fn clone(&self) -> (r: Self)
        ensures
            r == *self,
    {
        TextObject { text: self.text.clone() }
    }
}

impl Clone for ImageObject {
    fn clone(&self) -> (r: Self)
        ensures
            r == *self,
    {
        ImageObject { url: self.url.clone(), width: self.width, height: self.height }
    }
}

impl Clone for Object {
    fn clone(&self) -> (r: Self)
        ensures
            r == *self,
    {
        match self {
            Object::Text(t) => Object::Text(t.clone()),
            Object::Image(i) => Object::Image(i.clone()),
        }
    }
}

impl Clone for DefinedObject {
    fn clone(&self) -> (r: Self)
        ensures
            r == *self,
    {
        DefinedObject { position: self.position, object: self.object.clone() }
    }
}

impl Clone for DefinedObjectWithId {
    fn clone(&self) -> (r: Self)
        ensures
            r == *self,
    {
        DefinedObjectWithId { id: self.id, object: self.object.clone() }
    }
}

/// True when `entries` lists exactly the contents of `m`: every entry is stored
/// under its identifier, no identifier appears twice, and every stored
/// identifier appears.
pub open spec fn lists_exactly(entries: Seq<DefinedObjectWithId>, m: Map<u128, DefinedObject>) -> bool {
    &&& entries.len() == m.dom().len()
    &&& forall|i: int|
        0 <= i < entries.len() ==> #[trigger] m.contains_key(entries[i].id) && m[entries[i].id]
            == entries[i].object
    &&& forall|i: int, j: int|
        0 <= i < entries.len() && 0 <= j < entries.len() && i != j ==> #[trigger] entries[i].id
            != #[trigger] entries[j].id
    &&& forall|k: u128| #[trigger]
        m.contains_key(k) ==> exists|i: int| 0 <= i < entries.len() && #[trigger] entries[i].id == k
}

/// The canonical mapping from object identifier to placed object.
pub struct ObjectStore {
    pub objects: HashMap<u128, DefinedObject>,
}

impl View for ObjectStore {
    type V = Map<u128, DefinedObject>;

    open spec fn view(&self) -> Map<u128, DefinedObject> {
        self.objects@
    }
}

impl ObjectStore {
    /// An empty store.
    pub fn new() -> (r: Self)
        ensures
            r@ == Map::<u128, DefinedObject>::empty(),
    {
        ObjectStore { objects: HashMap::new() }
    }

    /// Stores `object` under `id`, replacing what was there.
    pub fn insert(&mut self, id: u128, object: DefinedObject)
        ensures
            final(self)@ == old(self)@.insert(id, object),
    {
        self.objects.insert(id, object);
    }

    /// Moves the object stored under `id`; does nothing when there is none.
    pub fn move_if_present(&mut self, id: u128, position: Position)
        ensures
            final(self)@ == moved(old(self)@, id, position),
    {
        let found = match self.objects.get(&id) {
            Some(current) => Some(current.object.clone()),
            None => None,
        };
        if let Some(object) = found {
            self.objects.insert(id, DefinedObject { position, object });
        }
        proof {
            if !old(self)@.contains_key(id) {
                assert(self@ =~= old(self)@);
            }
        }
    }

    /// Removes the object stored under `id`, if any.
    pub fn remove(&mut self, id: u128)
        ensures
            final(self)@ == old(self)@.remove(id),
    {
        self.objects.remove(&id);
    }

    /// Empties the store.
    pub fn clear(&mut self)
        ensures
            final(self)@ == Map::<u128, DefinedObject>::empty(),
    {
        self.objects.clear();
    }

    /// A copy of every entry of the store, in no particular order.
    pub fn to_vec(&self) -> (r: Vec<DefinedObjectWithId>)
        ensures
            lists_exactly(r@, self@),
    {
        let ghost s = vstd::std_specs::hash::spec_hash_map_iter(&self.objects).remaining();
        let mut r: Vec<DefinedObjectWithId> = Vec::new();
        for entry in it: self.objects.iter()
            invariant
                it.seq() == s,
                r.len() == it.index(),
                forall|i: int|
                    0 <= i < r.len() ==> r@[i].id == *s[i].0 && r@[i].object == *s[i].1,
        {
            let (id, object) = entry;
            r.push(DefinedObjectWithId { id: *id, object: object.clone() });
        }
        proof {
            assert(r.len() == s.len());
            assert(s.no_duplicates());
            assert forall|i: int, j: int|
                0 <= i < r.len() && 0 <= j < r.len() && i != j implies #[trigger] r@[i].id
                != #[trigger] r@[j].id by {
                assert(self@.contains_key(*s[i].0) && self@[*s[i].0] == *s[i].1);
                assert(self@.contains_key(*s[j].0) && self@[*s[j].0] == *s[j].1);
                if r@[i].id == r@[j].id {
                    assert(s[i] == s[j]);
                }
            }
            assert forall|k: u128| #[trigger] self@.contains_key(k) implies exists|i: int|
                0 <= i < r.len() && #[trigger] r@[i].id == k by {
                assert(s.contains((&k, &self@[k])));
                let i = choose|i: int| 0 <= i < s.len() && s[i] == (&k, &self@[k]);
                assert(r@[i].id == k);
            }
            assert forall|i: int| 0 <= i < r.len() implies #[trigger] self@.contains_key(r@[i].id)
                && self@[r@[i].id] == r@[i].object by {
                assert(self@.contains_key(*s[i].0) && self@[*s[i].0] == *s[i].1);
            }
        }
        r
    }
}

/// `m` with the object under `id`, if there is one, placed at `position`.
pub open spec fn moved(m: Map<u128, DefinedObject>, id: u128, position: Position) -> Map<
    u128,
    DefinedObject,
> {
    if m.contains_key(id) {
        m.insert(id, DefinedObject { position, object: m[id].object })
    } else {
        m
    }
}

} // verus!
