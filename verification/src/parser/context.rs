//! Where a source comes from, and the bookkeeping that the parser keeps for
//! each source.
use vstd::prelude::*;

use std::collections::HashMap;

use crate::ast::{AstBody, AstBodyView};
use crate::text::str_eq;

verus! {

/// Where a source comes from: a file, by its path, or a script held in
/// memory, by its name and contents.
#[derive(Debug)]
pub struct SourceOrigin {
    /// The path of the file, if the source is a file.
    pub path: Option<String>,
    /// The name of the source, if it is held in memory.
    pub name: Option<String>,
    contents: Option<String>,
    is_virtual: bool,
}

/// The mathematical value of a [`SourceOrigin`].
pub ghost struct SourceOriginView {
    pub path: Option<Seq<char>>,
    pub name: Option<Seq<char>>,
    pub contents: Option<Seq<char>>,
    pub is_virtual: bool,
}

impl View for SourceOrigin {
    type V = SourceOriginView;

    closed spec fn view(&self) -> SourceOriginView {
        SourceOriginView {
            path: match self.path {
                Some(s) => Some(s@),
                None => None,
            },
            name: match self.name {
                Some(s) => Some(s@),
                None => None,
            },
            contents: match self.contents {
                Some(s) => Some(s@),
                None => None,
            },
            is_virtual: self.is_virtual,
        }
    }
}

impl Clone for SourceOrigin {
    fn clone(&self) -> (r: Self)
        ensures
            r@ == self@,
    {
        SourceOrigin {
            path: match &self.path {
                Some(s) => Some(s.clone()),
                None => None,
            },
            name: match &self.name {
                Some(s) => Some(s.clone()),
                None => None,
            },
            contents: match &self.contents {
                Some(s) => Some(s.clone()),
                None => None,
            },
            is_virtual: self.is_virtual,
        }
    }
}

impl SourceOriginView {
    /// The number of bytes of the contents that are held in memory; zero
    /// where none are.
    pub open spec fn byte_len(self) -> nat {
        match self.contents {
            Some(c) => crate::text::byte_len(c),
            None => 0,
        }
    }

    /// What the source is found by: its name if it is held in memory, its
    /// path if it is a file.
    pub open spec fn key(self) -> Option<Seq<char>> {
        if self.is_virtual {
            self.name
        } else {
            self.path
        }
    }
}

impl SourceOrigin {
    /// The origin of the file at `path`. Its contents are not read.
    pub fn new(path: String) -> (r: Self)
        ensures
            r@ == (SourceOriginView {
                path: Some(path@),
                name: None,
                contents: None,
                is_virtual: false,
            }),
    {
        Self { path: Some(path), name: None, contents: None, is_virtual: false }
    }

    /// The origin of a script that is held in memory.
    pub fn new_virtual(name: String, contents: String) -> (r: Self)
        ensures
            r@ == (SourceOriginView {
                path: None,
                name: Some(name@),
                contents: Some(contents@),
                is_virtual: true,
            }),
    {
        Self { path: None, name: Some(name), contents: Some(contents), is_virtual: true }
    }

    /// The contents that are held in memory, if any are.
    pub fn get_contents(&self) -> (r: Option<String>)
        ensures
            match r {
                Some(s) => self@.contents == Some(s@),
                None => self@.contents is None,
            },
    {
        match &self.contents {
            Some(s) => Some(s.clone()),
            None => None,
        }
    }

    /// The number of bytes of the contents that are held in memory.
    pub fn contents_len(&self) -> (n: usize)
        ensures
            n == self@.byte_len(),
    {
        match &self.contents {
            Some(s) => s.as_str().as_bytes().len(),
            None => 0,
        }
    }

    pub fn is_virtual(&self) -> (b: bool)
        ensures
            b == self@.is_virtual,
    {
        self.is_virtual
    }

    /// What the source is found by: its name if it is held in memory, its
    /// path if it is a file.
    pub fn key_text(&self) -> (r: Option<String>)
        ensures
            match r {
                Some(k) => self@.key() == Some(k@),
                None => self@.key() is None,
            },
    {
        let key = if self.is_virtual {
            &self.name
        } else {
            &self.path
        };
        match key {
            Some(k) => Some(k.clone()),
            None => None,
        }
    }
}

/// The bookkeeping of the parser for one source: where the source comes
/// from, the program parsed from it, the id of the context, and a counter
/// from which the nodes of the source get their ids.
#[derive(Debug)]
pub struct Context {
    pub source: Option<SourceOrigin>,
    pub body: AstBody,
    origin: u64,
    local_id: u64,
}

/// The mathematical value of a [`Context`].
pub ghost struct ContextView {
    pub source: Option<SourceOriginView>,
    pub body: AstBodyView,
    pub origin: u64,
    pub local_id: u64,
}

impl View for Context {
    type V = ContextView;

    closed spec fn view(&self) -> ContextView {
        ContextView {
            source: match self.source {
                Some(s) => Some(s@),
                None => None,
            },
            body: self.body@,
            origin: self.origin,
            local_id: self.local_id,
        }
    }
}

impl Clone for Context {
    fn clone(&self) -> (r: Self)
        ensures
            r@ == self@,
    {
        Context {
            source: match &self.source {
                Some(s) => Some(s.clone()),
                None => None,
            },
            body: self.body.clone(),
            origin: self.origin,
            local_id: self.local_id,
        }
    }
}

impl ContextView {
    /// The offset at which the source of the context ends.
    pub open spec fn source_end(self) -> nat {
        match self.source {
            Some(s) => s.byte_len(),
            None => 0,
        }
    }
}

impl Context {
    /// The value of a new context with the id `id` for `source`.
    pub open spec fn new_view(source: SourceOriginView, id: u64) -> ContextView {
        ContextView {
            source: Some(source),
            body: AstBodyView { flags: 0, program: Seq::empty() },
            origin: id,
            local_id: 0,
        }
    }

    /// The context with the id `id` for `source`, with an empty program and
    /// no local id given out.
    pub fn new(source: SourceOrigin, id: u64) -> (r: Self)
        ensures
            r@ == Self::new_view(source@, id),
    {
        Self { source: Some(source), body: AstBody::new(), origin: id, local_id: 0 }
    }

    /// Gives out the next local id: one more than the last.
    pub fn get_next_local_id(&mut self) -> (id: u64)
        requires
            old(self)@.local_id < u64::MAX,
        ensures
            id == old(self)@.local_id + 1,
            final(self)@ == (ContextView { local_id: id, ..old(self)@ }),
    {
        self.local_id += 1;
        self.local_id
    }

    /// The local id given out last.
    pub fn last_local_id(&self) -> (id: u64)
        ensures
            id == self@.local_id,
    {
        self.local_id
    }

    /// The id of the context.
    pub fn origin(&self) -> (id: u64)
        ensures
            id == self@.origin,
    {
        self.origin
    }

    /// Gives the context the id `id`.
    pub fn set_origin(&mut self, id: u64)
        ensures
            final(self)@ == (ContextView { origin: id, ..old(self)@ }),
    {
        self.origin = id;
    }

    /// The offset at which the source of the context ends: the length in
    /// bytes of its contents, zero where none are held in memory.
    pub fn source_end(&self) -> (n: usize)
        ensures
            n == self@.source_end(),
    {
        match &self.source {
            Some(s) => s.contents_len(),
            None => 0,
        }
    }
}


/// The sources of a session, each under the id that it was given. No two
/// of them have the same name or path.
pub struct SourceMap {
    state: SourceTable,
}

/// The sources of a map by their ids, and the id given out last.
struct SourceTable {
    internal: HashMap<u64, SourceOrigin>,
    current: u64,
}

impl SourceMap {
    #[verifier::type_invariant]
    spec fn inv(&self) -> bool {
        forall|id: u64|
            self.state.internal@.contains_key(id) <==> 1 <= id <= self.state.current
    }

    /// The sources by their ids.
    pub closed spec fn entries(&self) -> Map<u64, SourceOriginView> {
        self.state.internal@.map_values(|s: SourceOrigin| s@)
    }

    /// The id given out last. The ids in use are those from one to this.
    pub closed spec fn last_id(&self) -> u64 {
        self.state.current
    }

    /// Whether a source with the key `key` is held.
    pub open spec fn holds(&self, key: Seq<char>) -> bool {
        exists|id: u64|
            1 <= id <= self.last_id() && (#[trigger] self.entries()[id]).key() == Some(key)
    }

    /// A map without sources.
    pub fn new() -> (m: Self)
        ensures
            m.entries() == Map::<u64, SourceOriginView>::empty(),
            m.last_id() == 0,
    {
        let m = Self { state: SourceTable { internal: HashMap::new(), current: 0 } };
        assert(m.entries() =~= Map::<u64, SourceOriginView>::empty());
        m
    }

    /// Adds `source` under the next id, unless a source with the same name,
    /// if it is held in memory, or the same path, if it is a file, is held
    /// already. Returns whether the source was added.
    pub fn add(&mut self, source: SourceOrigin) -> (added: bool)
        requires
            old(self).last_id() < u64::MAX,
            source@.key() is Some,
        ensures
            added == !old(self).holds(source@.key()->0),
            added ==> final(self).last_id() == old(self).last_id() + 1 && final(self).entries()
                == old(self).entries().insert(final(self).last_id(), source@),
            !added ==> final(self).last_id() == old(self).last_id() && final(self).entries()
                == old(self).entries(),
    {
        broadcast use vstd::std_specs::hash::group_hash_axioms;

        proof {
            use_type_invariant(&*self);
        }
        let search = match source.key_text() {
            Some(k) => k,
            None => String::new(),
        };
        if self.get_by_path_or_name(search).is_none() {
            let ghost before = self.entries();
            let mut state = SourceTable { internal: HashMap::new(), current: 0 };
            std::mem::swap(&mut state, &mut self.state);
            let id = state.current + 1;
            state.internal.insert(id, source);
            state.current = id;
            proof {
                assert(state.internal@.map_values(|s: SourceOrigin| s@) =~= before.insert(
                    id,
                    source@,
                ));
            }
            self.state = state;
            true
        } else {
            false
        }
    }

    /// Whether a further source can be given an id.
    pub fn has_room(&self) -> (b: bool)
        ensures
            b == (self.last_id() < u64::MAX),
    {
        self.state.current < u64::MAX
    }

    /// The source with the id `session_id`, if there is one.
    pub fn get(&self, session_id: u64) -> (r: Option<&SourceOrigin>)
        ensures
            match r {
                Some(s) => self.entries().contains_key(session_id) && self.entries()[session_id]
                    == s@,
                None => !self.entries().contains_key(session_id),
            },
    {
        broadcast use vstd::std_specs::hash::group_hash_axioms;

        self.state.internal.get(&session_id)
    }

    /// The first source whose name, if it is held in memory, or path, if
    /// it is a file, is `search`.
    fn get_by_path_or_name(&self, search: String) -> (r: Option<&SourceOrigin>)
        ensures
            r is Some <==> self.holds(search@),
            r is Some ==> r->0@.key() == Some(search@),
    {
        broadcast use vstd::std_specs::hash::group_hash_axioms;

        proof {
            use_type_invariant(self);
        }
        let mut id: u64 = 1;
        while id <= self.state.current
            invariant
                1 <= id <= self.state.current + 1,
                forall|k: u64|
                    self.state.internal@.contains_key(k) <==> 1 <= k <= self.state.current,
                forall|k: u64|
                    1 <= k < id ==> (#[trigger] self.entries()[k]).key() != Some(search@),
            decreases self.state.current + 1 - id,
        {
            match self.state.internal.get(&id) {
                Some(origin) => {
                    assert(self.entries()[id] == origin@);
                    match origin.key_text() {
                        Some(k) => {
                            if str_eq(k.as_str(), search.as_str()) {
                                return Some(origin);
                            }
                        },
                        None => {},
                    }
                },
                None => {},
            }
            if id == u64::MAX {
                return None;
            }
            id += 1;
        }
        None
    }
}

/// The contexts of a session, each under the id that it was given.
pub struct ContextStore {
    contexts: HashMap<u64, Context>,
    globals: Vec<u64>,
    id: u64,
}

impl ContextStore {
    /// The contexts by their ids.
    pub closed spec fn entries(&self) -> Map<u64, ContextView> {
        self.contexts@.map_values(|c: Context| c@)
    }

    /// The id given out last.
    pub closed spec fn last_id(&self) -> u64 {
        self.id
    }

    /// The ids of the contexts that hold global variables.
    pub closed spec fn globals(&self) -> Seq<u64> {
        self.globals@
    }

    /// A store without contexts.
    pub fn new() -> (s: Self)
        ensures
            s.entries() == Map::<u64, ContextView>::empty(),
            s.last_id() == 0,
            s.globals() == Seq::<u64>::empty(),
    {
        let s = Self { contexts: HashMap::new(), globals: Vec::new(), id: 0 };
        assert(s.entries() =~= Map::<u64, ContextView>::empty());
        s
    }

    /// Gives `context` the next id and stores a copy of it under that id.
    pub fn add_context(&mut self, context: &mut Context)
        requires
            old(self).last_id() < u64::MAX,
        ensures
            final(self).last_id() == old(self).last_id() + 1,
            final(context)@ == (ContextView { origin: final(self).last_id(), ..old(context)@ }),
            final(self).entries() == old(self).entries().insert(
                final(self).last_id(),
                final(context)@,
            ),
            final(self).globals() == old(self).globals(),
    {
        broadcast use vstd::std_specs::hash::group_hash_axioms;

        self.id += 1;
        context.set_origin(self.id);
        let ghost before = self.entries();
        let copy = context.clone();
        self.contexts.insert(self.id, copy);
        assert(self.entries() =~= before.insert(self.id, copy@));
    }

    /// Makes a context for `source` under the next id, stores it, and
    /// returns it.
    pub fn new_context(&mut self, source: SourceOrigin) -> (r: &Context)
        requires
            old(self).last_id() < u64::MAX,
        ensures
            final(self).last_id() == old(self).last_id() + 1,
            r@ == Context::new_view(source@, final(self).last_id()),
            final(self).entries() == old(self).entries().insert(final(self).last_id(), r@),
            final(self).globals() == old(self).globals(),
    {
        broadcast use vstd::std_specs::hash::group_hash_axioms;

        self.id += 1;
        let ghost before = self.entries();
        let context = Context::new(source, self.id);
        self.contexts.insert(self.id, context);
        assert(self.entries() =~= before.insert(self.id, context@));
        match self.contexts.get(&self.id) {
            Some(c) => c,
            None => vstd::pervasive::unreached(),
        }
    }

    /// Forgets the context with the id `id`, if there is one.
    pub fn remove_context(&mut self, id: u64)
        ensures
            final(self).last_id() == old(self).last_id(),
            final(self).entries() == old(self).entries().remove(id),
            final(self).globals() == old(self).globals(),
    {
        broadcast use vstd::std_specs::hash::group_hash_axioms;

        let ghost before = self.entries();
        self.contexts.remove(&id);
        assert(self.entries() =~= before.remove(id));
    }

    /// The id that the next context will get.
    pub fn next_context_id(&self) -> (id: u64)
        requires
            self.last_id() < u64::MAX,
        ensures
            id == self.last_id() + 1,
    {
        self.id + 1
    }

    /// Whether a further context can be given an id.
    pub fn has_room(&self) -> (b: bool)
        ensures
            b == (self.last_id() < u64::MAX),
    {
        self.id < u64::MAX
    }

    /// The ids of the contexts that hold global variables.
    pub fn get_globals(&self) -> (g: &Vec<u64>)
        ensures
            g@ == self.globals(),
    {
        &self.globals
    }
}

} // verus!
