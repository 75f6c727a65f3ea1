//! The reserved words of the language.
use vstd::prelude::*;

use crate::text::str_eq;

verus! {

/// No keyword is longer than this many characters.
pub const MAX_KEYWORD_LENGTH: usize = 10;

#[derive(Debug, Clone, Copy, PartialEq, Eq, Structural)]
pub enum KeyWord {
    /// `namespace` - a namespace declaration.
    Namespace,
    /// `const` - a constant declaration.
    Const,
    /// `var` - a variable declaration.
    Var,
    /// `class` - a class declaration.
    Class,
    /// `interface` - an interface declaration.
    Interface,
    /// `type` - a type alias.
    Type,
    /// `function` - a function declaration.
    Function,
    /// `if` - a conditional.
    If,
    /// `else` - the other branch of a conditional.
    Else,
    /// `pub` - public visibility.
    Public,
    /// `priv` - private visibility.
    Private,
    /// `prot` - protected visibility.
    Protected,
    /// `static` - a static member.
    Static,
    /// `return` - a return statement.
    Return,
    /// `break` - leaves a loop.
    Break,
    /// `continue` - starts the next round of a loop.
    Continue,
    /// `for` - a for loop.
    For,
    /// `while` - a while loop.
    While,
    /// `do` - a do loop.
    Do,
    /// `new` - an instantiation.
    New,
    /// `drop` - a drop expression.
    Drop,
    /// `use` - an import.
    Use,
    /// `extends` - names the superclass of a class.
    Extends,
    /// `implements` - names the interfaces of a class.
    Implements,
}

impl KeyWord {
    /// The spelling of the keyword.
    pub open spec fn text(self) -> Seq<char> {
        match self {
            KeyWord::Namespace => "namespace"@,
            KeyWord::Const => "const"@,
            KeyWord::Var => "var"@,
            KeyWord::Class => "class"@,
            KeyWord::Interface => "interface"@,
            KeyWord::Type => "type"@,
            KeyWord::Function => "function"@,
            KeyWord::If => "if"@,
            KeyWord::Else => "else"@,
            KeyWord::Public => "pub"@,
            KeyWord::Private => "priv"@,
            KeyWord::Protected => "prot"@,
            KeyWord::Static => "static"@,
            KeyWord::Return => "return"@,
            KeyWord::Break => "break"@,
            KeyWord::Continue => "continue"@,
            KeyWord::For => "for"@,
            KeyWord::While => "while"@,
            KeyWord::Do => "do"@,
            KeyWord::New => "new"@,
            KeyWord::Drop => "drop"@,
            KeyWord::Use => "use"@,
            KeyWord::Extends => "extends"@,
            KeyWord::Implements => "implements"@,
        }
    }

    /// The keyword that `s` spells, if it spells one.
    pub open spec fn parse(s: Seq<char>) -> Option<KeyWord> {
        if s == "namespace"@ {
            Some(KeyWord::Namespace)
        } else if s == "const"@ {
            Some(KeyWord::Const)
        } else if s == "var"@ {
            Some(KeyWord::Var)
        } else if s == "class"@ {
            Some(KeyWord::Class)
        } else if s == "interface"@ {
            Some(KeyWord::Interface)
        } else if s == "type"@ {
            Some(KeyWord::Type)
        } else if s == "function"@ {
            Some(KeyWord::Function)
        } else if s == "if"@ {
            Some(KeyWord::If)
        } else if s == "else"@ {
            Some(KeyWord::Else)
        } else if s == "pub"@ {
            Some(KeyWord::Public)
        } else if s == "priv"@ {
            Some(KeyWord::Private)
        } else if s == "prot"@ {
            Some(KeyWord::Protected)
        } else if s == "static"@ {
            Some(KeyWord::Static)
        } else if s == "return"@ {
            Some(KeyWord::Return)
        } else if s == "break"@ {
            Some(KeyWord::Break)
        } else if s == "continue"@ {
            Some(KeyWord::Continue)
        } else if s == "for"@ {
            Some(KeyWord::For)
        } else if s == "while"@ {
            Some(KeyWord::While)
        } else if s == "do"@ {
            Some(KeyWord::Do)
        } else if s == "new"@ {
            Some(KeyWord::New)
        } else if s == "drop"@ {
            Some(KeyWord::Drop)
        } else if s == "use"@ {
            Some(KeyWord::Use)
        } else if s == "extends"@ {
            Some(KeyWord::Extends)
        } else if s == "implements"@ {
            Some(KeyWord::Implements)
        } else {
            None
        }
    }

    /// Whether the keyword is one of the visibility modifiers.
    pub open spec fn visibility(self) -> bool {
        self == KeyWord::Public || self == KeyWord::Private || self == KeyWord::Protected
    }

    pub fn from_string(v: &String) -> (k: Option<Self>)
        ensures
            k == Self::parse(v@),
    {
        let s = v.as_str();
        if str_eq(s, "namespace") {
            Some(KeyWord::Namespace)
        } else if str_eq(s, "const") {
            Some(KeyWord::Const)
        } else if str_eq(s, "var") {
            Some(KeyWord::Var)
        } else if str_eq(s, "class") {
            Some(KeyWord::Class)
        } else if str_eq(s, "interface") {
            Some(KeyWord::Interface)
        } else if str_eq(s, "type") {
            Some(KeyWord::Type)
        } else if str_eq(s, "function") {
            Some(KeyWord::Function)
        } else if str_eq(s, "if") {
            Some(KeyWord::If)
        } else if str_eq(s, "else") {
            Some(KeyWord::Else)
        } else if str_eq(s, "pub") {
            Some(KeyWord::Public)
        } else if str_eq(s, "priv") {
            Some(KeyWord::Private)
        } else if str_eq(s, "prot") {
            Some(KeyWord::Protected)
        } else if str_eq(s, "static") {
            Some(KeyWord::Static)
        } else if str_eq(s, "return") {
            Some(KeyWord::Return)
        } else if str_eq(s, "break") {
            Some(KeyWord::Break)
        } else if str_eq(s, "continue") {
            Some(KeyWord::Continue)
        } else if str_eq(s, "for") {
            Some(KeyWord::For)
        } else if str_eq(s, "while") {
            Some(KeyWord::While)
        } else if str_eq(s, "do") {
            Some(KeyWord::Do)
        } else if str_eq(s, "new") {
            Some(KeyWord::New)
        } else if str_eq(s, "drop") {
            Some(KeyWord::Drop)
        } else if str_eq(s, "use") {
            Some(KeyWord::Use)
        } else if str_eq(s, "extends") {
            Some(KeyWord::Extends)
        } else if str_eq(s, "implements") {
            Some(KeyWord::Implements)
        } else {
            None
        }
    }

    pub fn to_string(&self) -> (s: String)
        ensures
            s@ == self.text(),
    {
        match self {
            KeyWord::Namespace => "namespace".to_string(),
            KeyWord::Const => "const".to_string(),
            KeyWord::Var => "var".to_string(),
            KeyWord::Class => "class".to_string(),
            KeyWord::Interface => "interface".to_string(),
            KeyWord::Type => "type".to_string(),
            KeyWord::Function => "function".to_string(),
            KeyWord::If => "if".to_string(),
            KeyWord::Else => "else".to_string(),
            KeyWord::Public => "pub".to_string(),
            KeyWord::Private => "priv".to_string(),
            KeyWord::Protected => "prot".to_string(),
            KeyWord::Static => "static".to_string(),
            KeyWord::Return => "return".to_string(),
            KeyWord::Break => "break".to_string(),
            KeyWord::Continue => "continue".to_string(),
            KeyWord::For => "for".to_string(),
            KeyWord::While => "while".to_string(),
            KeyWord::Do => "do".to_string(),
            KeyWord::New => "new".to_string(),
            KeyWord::Drop => "drop".to_string(),
            KeyWord::Use => "use".to_string(),
            KeyWord::Extends => "extends".to_string(),
            KeyWord::Implements => "implements".to_string(),
        }
    }

    pub fn is_visibility(&self) -> (b: bool)
        ensures
            b == self.visibility(),
    {
        match self {
            KeyWord::Public | KeyWord::Private | KeyWord::Protected => true,
            _ => false,
        }
    }

    /// Whether the keyword opens a declaration.
    pub fn is_declarative(&self) -> (b: bool)
        ensures
            b == (*self == KeyWord::Var || *self == KeyWord::Const || *self == KeyWord::Function
                || *self == KeyWord::Class || *self == KeyWord::Interface),
    {
        match self {
            KeyWord::Var
            | KeyWord::Const
            | KeyWord::Function
            | KeyWord::Class
            | KeyWord::Interface => true,
            _ => false,
        }
    }

    /// Whether the keyword belongs to a conditional.
    pub fn is_control(&self) -> (b: bool)
        ensures
            b == (*self == KeyWord::If || *self == KeyWord::Else),
    {
        match self {
            KeyWord::If | KeyWord::Else => true,
            _ => false,
        }
    }

    pub fn is_new(&self) -> (b: bool)
        ensures
            b == (*self == KeyWord::New),
    {
        match self {
            KeyWord::New => true,
            _ => false,
        }
    }
}

/// Reveals the characters of every keyword's spelling.
pub proof fn lemma_keyword_spellings()
    ensures
        "namespace"@ == seq!['n', 'a', 'm', 'e', 's', 'p', 'a', 'c', 'e'],
        "const"@ == seq!['c', 'o', 'n', 's', 't'],
        "var"@ == seq!['v', 'a', 'r'],
        "class"@ == seq!['c', 'l', 'a', 's', 's'],
        "interface"@ == seq!['i', 'n', 't', 'e', 'r', 'f', 'a', 'c', 'e'],
        "type"@ == seq!['t', 'y', 'p', 'e'],
        "function"@ == seq!['f', 'u', 'n', 'c', 't', 'i', 'o', 'n'],
        "if"@ == seq!['i', 'f'],
        "else"@ == seq!['e', 'l', 's', 'e'],
        "pub"@ == seq!['p', 'u', 'b'],
        "priv"@ == seq!['p', 'r', 'i', 'v'],
        "prot"@ == seq!['p', 'r', 'o', 't'],
        "static"@ == seq!['s', 't', 'a', 't', 'i', 'c'],
        "return"@ == seq!['r', 'e', 't', 'u', 'r', 'n'],
        "break"@ == seq!['b', 'r', 'e', 'a', 'k'],
        "continue"@ == seq!['c', 'o', 'n', 't', 'i', 'n', 'u', 'e'],
        "for"@ == seq!['f', 'o', 'r'],
        "while"@ == seq!['w', 'h', 'i', 'l', 'e'],
        "do"@ == seq!['d', 'o'],
        "new"@ == seq!['n', 'e', 'w'],
        "drop"@ == seq!['d', 'r', 'o', 'p'],
        "use"@ == seq!['u', 's', 'e'],
        "extends"@ == seq!['e', 'x', 't', 'e', 'n', 'd', 's'],
        "implements"@ == seq!['i', 'm', 'p', 'l', 'e', 'm', 'e', 'n', 't', 's'],
{
    reveal_strlit("namespace");
    reveal_strlit("const");
    reveal_strlit("var");
    reveal_strlit("class");
    reveal_strlit("interface");
    reveal_strlit("type");
    reveal_strlit("function");
    reveal_strlit("if");
    reveal_strlit("else");
    reveal_strlit("pub");
    reveal_strlit("priv");
    reveal_strlit("prot");
    reveal_strlit("static");
    reveal_strlit("return");
    reveal_strlit("break");
    reveal_strlit("continue");
    reveal_strlit("for");
    reveal_strlit("while");
    reveal_strlit("do");
    reveal_strlit("new");
    reveal_strlit("drop");
    reveal_strlit("use");
    reveal_strlit("extends");
    reveal_strlit("implements");
    assert("namespace"@ =~= seq!['n', 'a', 'm', 'e', 's', 'p', 'a', 'c', 'e']);
    assert("const"@ =~= seq!['c', 'o', 'n', 's', 't']);
    assert("var"@ =~= seq!['v', 'a', 'r']);
    assert("class"@ =~= seq!['c', 'l', 'a', 's', 's']);
    assert("interface"@ =~= seq!['i', 'n', 't', 'e', 'r', 'f', 'a', 'c', 'e']);
    assert("type"@ =~= seq!['t', 'y', 'p', 'e']);
    assert("function"@ =~= seq!['f', 'u', 'n', 'c', 't', 'i', 'o', 'n']);
    assert("if"@ =~= seq!['i', 'f']);
    assert("else"@ =~= seq!['e', 'l', 's', 'e']);
    assert("pub"@ =~= seq!['p', 'u', 'b']);
    assert("priv"@ =~= seq!['p', 'r', 'i', 'v']);
    assert("prot"@ =~= seq!['p', 'r', 'o', 't']);
    assert("static"@ =~= seq!['s', 't', 'a', 't', 'i', 'c']);
    assert("return"@ =~= seq!['r', 'e', 't', 'u', 'r', 'n']);
    assert("break"@ =~= seq!['b', 'r', 'e', 'a', 'k']);
    assert("continue"@ =~= seq!['c', 'o', 'n', 't', 'i', 'n', 'u', 'e']);
    assert("for"@ =~= seq!['f', 'o', 'r']);
    assert("while"@ =~= seq!['w', 'h', 'i', 'l', 'e']);
    assert("do"@ =~= seq!['d', 'o']);
    assert("new"@ =~= seq!['n', 'e', 'w']);
    assert("drop"@ =~= seq!['d', 'r', 'o', 'p']);
    assert("use"@ =~= seq!['u', 's', 'e']);
    assert("extends"@ =~= seq!['e', 'x', 't', 'e', 'n', 'd', 's']);
    assert("implements"@ =~= seq!['i', 'm', 'p', 'l', 'e', 'm', 'e', 'n', 't', 's']);
}

/// Reading the spelling of a keyword gives the keyword back, and only the
/// spelling of a keyword reads as that keyword.
pub proof fn lemma_keyword_round_trip(k: KeyWord, s: Seq<char>)
    ensures
        KeyWord::parse(k.text()) == Some(k),
        KeyWord::parse(s) == Some(k) <==> s == k.text(),
        1 <= k.text().len() <= MAX_KEYWORD_LENGTH,
{
    lemma_keyword_spellings();
}

} // verus!
