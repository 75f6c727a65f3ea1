//! The types that a context declares, by name.
use vstd::prelude::*;

use std::collections::HashMap;

use crate::text::str_eq;

verus! {

/// What a declared type is.
#[derive(Debug)]
pub enum TypeKind {
    /// A type of the language itself.
    BuiltIn(BuiltInType),
    /// A type that is declared elsewhere.
    Ref(TypeRef),
    /// Any other type.
    Other(TypeRef),
}

/// The types of the language itself.
#[derive(Debug)]
pub enum BuiltInType {
    Int,
    Float,
    Bool,
    String,
    Array(Box<TypeKind>),
    /// A table from keys of one type to values of another.
    MapOf(Box<TypeKind>, Box<TypeKind>),
}

/// Where a type is declared: a context, and an id in it.
#[derive(Debug, Clone, Copy, PartialEq, Eq, Structural)]
pub struct TypeRef {
    pub context: u64,
    pub id: u64,
}

/// A declared type.
#[derive(Debug)]
pub struct Type {
    pub name: String,
    pub kind: TypeKind,
    pub id: u64,
}

/// The types that one context declares, each under the id that it was
/// given. No two of them have the same name.
pub struct TypeStore {
    state: TypeTable,
}

/// The types of a store by their ids, the context of the store, and the id
/// given out last.
struct TypeTable {
    types: HashMap<u64, Type>,
    ctx_id: u64,
    next_id: u64,
}

impl TypeStore {
    #[verifier::type_invariant]
    spec fn inv(&self) -> bool {
        &&& forall|id: u64|
            self.state.types@.contains_key(id) ==> 1 <= id <= self.state.next_id
        &&& forall|a: u64, b: u64|
            self.state.types@.contains_key(a) && self.state.types@.contains_key(b) && (
            #[trigger] self.state.types@[a]).name@ == (#[trigger] self.state.types@[b]).name@ ==> a
                == b
    }

    /// The declared types by their ids.
    pub closed spec fn entries(&self) -> Map<u64, Type> {
        self.state.types@
    }

    /// The id of the context of the store.
    pub closed spec fn context(&self) -> u64 {
        self.state.ctx_id
    }

    /// The id given out last.
    pub closed spec fn last_id(&self) -> u64 {
        self.state.next_id
    }

    /// Whether a type with the name `name` is declared.
    pub open spec fn declares(&self, name: Seq<char>) -> bool {
        exists|id: u64| self.entries().contains_key(id) && (#[trigger] self.entries()[id]).name@ == name
    }

    /// A store without types for the context `ctx_id`, or for the context
    /// zero.
    pub fn new(ctx_id: Option<u64>) -> (s: Self)
        ensures
            s.entries() == Map::<u64, Type>::empty(),
            s.last_id() == 0,
            s.context() == match ctx_id {
                Some(id) => id,
                None => 0,
            },
    {
        Self {
            state: TypeTable {
                types: HashMap::new(),
                ctx_id: match ctx_id {
                    Some(id) => id,
                    None => 0,
                },
                next_id: 0,
            },
        }
    }

    /// The id under which the type with the name `name` is declared.
    fn find_id(&self, name: &str) -> (r: Option<u64>)
        ensures
            match r {
                Some(id) => self.entries().contains_key(id) && self.entries()[id].name@ == name@,
                None => !self.declares(name@),
            },
    {
        broadcast use vstd::std_specs::hash::group_hash_axioms;

        proof {
            use_type_invariant(self);
        }
        let mut id: u64 = 1;
        while id <= self.state.next_id
            invariant
                1 <= id <= self.state.next_id + 1,
                forall|k: u64| self.state.types@.contains_key(k) ==> 1 <= k <= self.state.next_id,
                forall|k: u64|
                    1 <= k < id && self.entries().contains_key(k) ==> (
                    #[trigger] self.entries()[k]).name@ != name@,
            decreases self.state.next_id + 1 - id,
        {
            match self.state.types.get(&id) {
                Some(ty) => {
                    if str_eq(ty.name.as_str(), name) {
                        return Some(id);
                    }
                },
                None => {},
            }
            if id == u64::MAX {
                return None;
            }
            id += 1;
        }
        None
    }

    /// The type with the name `name`, if one is declared.
    pub fn find_type(&self, name: String) -> (r: Option<&Type>)
        ensures
            match r {
                Some(t) => t.name@ == name@ && exists|id: u64|
                    self.entries().contains_key(id) && #[trigger] self.entries()[id] == *t,
                None => !self.declares(name@),
            },
    {
        broadcast use vstd::std_specs::hash::group_hash_axioms;

        match self.find_id(name.as_str()) {
            Some(id) => {
                let r = self.state.types.get(&id);
                assert(r is Some && *r->0 == self.entries()[id]);
                r
            },
            None => None,
        }
    }

    /// Declares the type `ty` under the next id, unless a type of its name
    /// is declared already. Returns where the type of that name is
    /// declared: the context of the store, and the id under which `ty` was
    /// stored, or the id that the type declared before carries.
    pub fn make_type(&mut self, ty: Type) -> (r: TypeRef)
        requires
            old(self).last_id() < u64::MAX,
        ensures
            r.context == old(self).context(),
            final(self).context() == old(self).context(),
            old(self).declares(ty.name@) ==> *final(self) == *old(self) && exists|id: u64|
                old(self).entries().contains_key(id) && (#[trigger] old(self).entries()[id]).name@
                    == ty.name@ && r.id == old(self).entries()[id].id,
            !old(self).declares(ty.name@) ==> r.id == old(self).last_id() + 1,
            !old(self).declares(ty.name@) ==> final(self).last_id() == r.id,
            !old(self).declares(ty.name@) ==> final(self).entries() == old(self).entries().insert(
                r.id,
                ty,
            ),
    {
        broadcast use vstd::std_specs::hash::group_hash_axioms;

        proof {
            use_type_invariant(&*self);
        }
        match self.find_id(ty.name.as_str()) {
            None => {
                let mut state = TypeTable { types: HashMap::new(), ctx_id: 0, next_id: 0 };
                std::mem::swap(&mut state, &mut self.state);
                let ghost before = state.types@;
                state.next_id += 1;
                let type_ref = TypeRef { context: state.ctx_id, id: state.next_id };
                state.types.insert(type_ref.id, ty);
                proof {
                    assert forall|a: u64, b: u64|
                        state.types@.contains_key(a) && state.types@.contains_key(b) && (
                        #[trigger] state.types@[a]).name@ == (#[trigger] state.types@[b]).name@
                        implies a == b by {
                        if a != type_ref.id && b != type_ref.id {
                            assert(before[a].name@ == before[b].name@);
                        } else if a != type_ref.id {
                            assert(before[a].name@ == ty.name@);
                        } else if b != type_ref.id {
                            assert(before[b].name@ == ty.name@);
                        }
                    }
                }
                self.state = state;
                type_ref
            },
            Some(id) => {
                match self.state.types.get(&id) {
                    Some(existing) => TypeRef { context: self.state.ctx_id, id: existing.id },
                    None => TypeRef { context: self.state.ctx_id, id },
                }
            },
        }
    }

    /// Whether a further id can be given out.
    pub fn has_room(&self) -> (b: bool)
        ensures
            b == (self.last_id() < u64::MAX),
    {
        self.state.next_id < u64::MAX
    }

    /// Whether a type with the name `name` is declared.
    pub fn type_exists(&self, name: String) -> (b: bool)
        ensures
            b == self.declares(name@),
    {
        self.find_id(name.as_str()).is_some()
    }

    /// Gives out the next id: one more than the last.
    pub fn get_next_id(&mut self) -> (id: u64)
        requires
            old(self).last_id() < u64::MAX,
        ensures
            id == old(self).last_id() + 1,
            final(self).last_id() == id,
            final(self).entries() == old(self).entries(),
            final(self).context() == old(self).context(),
    {
        proof {
            use_type_invariant(&*self);
        }
        let mut state = TypeTable { types: HashMap::new(), ctx_id: 0, next_id: 0 };
        std::mem::swap(&mut state, &mut self.state);
        state.next_id += 1;
        let id = state.next_id;
        self.state = state;
        id
    }
}

} // verus!
