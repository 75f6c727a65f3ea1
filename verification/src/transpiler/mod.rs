//! Generation of code in other languages from a parsed program.
use vstd::prelude::*;

pub mod defaults;
pub mod format;
pub mod langs;

use self::langs::Language;
use crate::text::str_eq;

verus! {

/// The languages that code can be generated for, each under its name.
pub struct Transpiler {
    registered: Vec<Language>,
}

impl Transpiler {
    #[verifier::type_invariant]
    spec fn inv(&self) -> bool {
        forall|i: int, j: int|
            0 <= i < j < self.registered@.len() ==> (#[trigger] self.registered@[i]).name@ != (
            #[trigger] self.registered@[j]).name@
    }

    /// The languages that are registered. No two of them have the same
    /// name.
    pub closed spec fn languages(&self) -> Seq<Language> {
        self.registered@
    }

    /// Whether a language with the name `name` is registered.
    pub open spec fn knows(&self, name: Seq<char>) -> bool {
        exists|i: int| 0 <= i < self.languages().len() && (#[trigger] self.languages()[i]).name@ == name
    }

    /// Whether `language` is PHP as the compiler knows it.
    pub open spec fn is_php(language: Language) -> bool {
        &&& language.name@ == "php"@
        &&& language.description@ == "PHP"@
        &&& language.version@ == "8.x.x"@
        &&& language.api == crate::transpiler::langs::ApiVersion::V1
        &&& language.author@ == "Suruloon Studios"@
    }

    /// A transpiler without languages.
    pub fn new() -> (t: Self)
        ensures
            t.languages() == Seq::<Language>::empty(),
    {
        Transpiler { registered: Vec::new() }
    }

    /// The place of the language with the name `name`.
    fn position(&self, name: &str) -> (r: Option<usize>)
        ensures
            match r {
                Some(i) => i < self.languages().len() && self.languages()[i as int].name@ == name@,
                None => !self.knows(name@),
            },
    {
        let mut i: usize = 0;
        while i < self.registered.len()
            invariant
                i <= self.registered.len(),
                forall|j: int| 0 <= j < i ==> (#[trigger] self.registered@[j]).name@ != name@,
            decreases self.registered.len() - i,
        {
            if str_eq(self.registered[i].name.as_str(), name) {
                return Some(i);
            }
            i += 1;
        }
        None
    }

    /// Registers the languages that the compiler knows without being told:
    /// PHP, under the name `php`. A language of that name that was
    /// registered before is replaced.
    pub fn register_defaults(&mut self)
        ensures
            final(self).knows("php"@),
            forall|name: Seq<char>| old(self).knows(name) ==> final(self).knows(name),
            forall|name: Seq<char>|
                final(self).knows(name) ==> old(self).knows(name) || name == "php"@,
            final(self).languages().len() == old(self).languages().len() + if old(self).knows(
                "php"@,
            ) {
                0int
            } else {
                1int
            },
            forall|i: int|
                0 <= i < old(self).languages().len() && (#[trigger] old(self).languages()[i]).name@
                    != "php"@ ==> final(self).languages()[i] == old(self).languages()[i],
            forall|i: int|
                0 <= i < final(self).languages().len() && final(self).languages()[i].name@
                    == "php"@ ==> Self::is_php(#[trigger] final(self).languages()[i]),
    {
        proof {
            use_type_invariant(&*self);
        }
        let language = defaults::php::new();
        let ghost before = self.registered@;
        let mut registered: Vec<Language> = Vec::new();
        std::mem::swap(&mut registered, &mut self.registered);
        match Self::find(&registered, "php") {
            Some(i) => {
                registered.set(i, language);
                proof {
                    assert forall|name: Seq<char>| old(self).knows(name) implies exists|k: int|
                        0 <= k < registered@.len() && (#[trigger] registered@[k]).name@
                            == name by {
                        let k = choose|k: int|
                            0 <= k < before.len() && (#[trigger] before[k]).name@ == name;
                        assert(registered@[k].name@ == name);
                    }
                    assert(registered@[i as int].name@ == "php"@);
                }
            },
            None => {
                registered.push(language);
                proof {
                    assert forall|name: Seq<char>| old(self).knows(name) implies exists|k: int|
                        0 <= k < registered@.len() && (#[trigger] registered@[k]).name@
                            == name by {
                        let k = choose|k: int|
                            0 <= k < before.len() && (#[trigger] before[k]).name@ == name;
                        assert(registered@[k].name@ == name);
                    }
                    assert(registered@[registered@.len() - 1].name@ == "php"@);
                }
            },
        }
        proof {
            assert forall|name: Seq<char>|
                (exists|k: int|
                    0 <= k < registered@.len() && (#[trigger] registered@[k]).name@
                        == name) implies old(self).knows(name) || name == "php"@ by {
                let k = choose|k: int|
                    0 <= k < registered@.len() && (#[trigger] registered@[k]).name@ == name;
                if k < before.len() && name != "php"@ {
                    assert(before[k].name@ == name);
                }
            }
        }
        self.registered = registered;
    }

    /// The place in `languages` of the language with the name `name`.
    fn find(languages: &Vec<Language>, name: &str) -> (r: Option<usize>)
        ensures
            match r {
                Some(i) => i < languages@.len() && languages@[i as int].name@ == name@,
                None => forall|j: int|
                    0 <= j < languages@.len() ==> (#[trigger] languages@[j]).name@ != name@,
            },
    {
        let mut i: usize = 0;
        while i < languages.len()
            invariant
                i <= languages.len(),
                forall|j: int| 0 <= j < i ==> (#[trigger] languages@[j]).name@ != name@,
            decreases languages.len() - i,
        {
            if str_eq(languages[i].name.as_str(), name) {
                return Some(i);
            }
            i += 1;
        }
        None
    }

    /// The language with the name `lang`, if one is registered.
    pub fn get(&self, lang: &str) -> (r: Option<&Language>)
        ensures
            match r {
                Some(l) => l.name@ == lang@ && self.languages().contains(*l),
                None => !self.knows(lang@),
            },
    {
        match self.position(lang) {
            Some(i) => Some(&self.registered[i]),
            None => None,
        }
    }
}

} // verus!
