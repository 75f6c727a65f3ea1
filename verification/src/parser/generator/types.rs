//! The productions of type annotations.
use vstd::prelude::*;

use std::ops::Range;

use crate::parser::context::{Context, SourceOrigin};
use crate::parser::grammar;
use crate::parser::grammar::{Fault, Input, Listed, Parsed, Program};
use crate::parser::{ParserError, ParserErrorView};
use crate::ast::ops::AnyOperation;
use crate::ast::types::{TypeKind, TypeKindView, TypeParam, TypeParamView, TypeReference, TypeUnion};
use crate::ast::{
    Array, AstBody, AstBodyView, Call, Class, ClassAllowedStatement, ClassBody, ClassProperty,
    Expression, ExpressionView, Function, FunctionInput, FunctionInputView, Literal,
    MemberListNode, MemberLookup, Namespace, NewCall, Node, NodeKind, Object, ObjectProperty,
    Operation, Path, Return, Statement, Static, Variable, VariableView, Visibility,
};
use crate::lexer::keyword::KeyWord;
use crate::lexer::token::{Token, TokenType, TokenView};
use crate::text::{str_eq, strings_view};
use crate::util::TokenStream;
use super::{agrees, lifted, lifted_block, lifted_inputs, lifted_names, lifted_params, lifted_variable, text_of, AstGenerator};

verus! {

impl AstGenerator {
    // -----------------------------------------------------------------------
    // Types
    // -----------------------------------------------------------------------
    /// The type that `name` stands for, with the type arguments `params`.
    pub(crate) fn named_type(name: String, params: Option<Vec<TypeParam>>) -> (t: TypeKind)
        ensures
            t@ == grammar::named_type(
                name@,
                match params {
                    Some(v) => Some(TypeParam::views(v@)),
                    None => None,
                },
            ),
    {
        match crate::ast::types::BuiltInType::from_string(name.clone()) {
            Some(b) => TypeKind::BuiltIn(b),
            None => TypeKind::Reference(TypeReference::new(name, params)),
        }
    }

    /// One member of a type: a name, its type arguments if it has any, and
    /// the whitespace that follows.
    pub(crate) fn parse_type_member(&mut self) -> (r: Result<Option<TypeKind>, ParserError>)
        requires
            old(self).inv(),
        ensures
            final(self).follows(old(self)),
            agrees(
                lifted(r),
                grammar::type_member(old(self).input(), old(self).at()),
                old(self).at(),
                final(self).at(),
                old(self).body@,
            ),
        decreases old(self).input().left(old(self).at()), 0nat,
    {
        proof {
            reveal(grammar::type_member);
            reveal(grammar::type_kind);
            reveal(grammar::union_members);
            reveal(grammar::type_generics);
            reveal(grammar::generic_items);
        }
        if !self.check(0, TokenType::Identifier) {
            return Ok(None);
        }
        let token = self.take();
        let name = text_of(&token);
        self.skip_whitespace();
        match self.parse_type_generics() {
            Err(e) => Err(e),
            Ok(None) => Ok(Some(Self::named_type(name, None))),
            Ok(Some(params)) => {
                self.skip_whitespace();
                Ok(Some(Self::named_type(name, Some(params))))
            },
        }
    }

    /// Parses a type: one member, or several joined by `|` into a union.
    /// A member whose name is that of a built-in type is that built-in
    /// type.
    pub fn parse_type_kind(&mut self) -> (r: Result<Option<TypeKind>, ParserError>)
        requires
            old(self).inv(),
        ensures
            final(self).follows(old(self)),
            agrees(
                lifted(r),
                grammar::type_kind(old(self).input(), old(self).at()),
                old(self).at(),
                final(self).at(),
                old(self).body@,
            ),
        decreases old(self).input().left(old(self).at()), 1nat,
    {
        proof {
            reveal(grammar::type_member);
            reveal(grammar::type_kind);
            reveal(grammar::union_members);
            reveal(grammar::type_generics);
            reveal(grammar::generic_items);
        }
        let ghost inp = self.input();
        let ghost p = self.at();
        let first = match self.parse_type_member() {
            Err(e) => {
                return Err(e);
            },
            Ok(None) => {
                return Ok(None);
            },
            Ok(Some(first)) => first,
        };
        if !self.check_operator(0, "|") {
            return Ok(Some(first));
        }
        let ghost start = self.at();
        let ghost head = first@;
        let mut union_type = TypeUnion::empty();
        proof {
            TypeKind::lemma_views_push(union_type.types@, first);
            assert(seq![first@] =~= Seq::<TypeKindView>::empty().push(first@));
        }
        union_type.types.push(first);
        loop
            invariant
                self.inv(),
                self.follows(old(self)),
                inp == self.input(),
                inp == old(self).input(),
                p == old(self).at(),
                p < start <= self.at(),
                inp.has(p),
                inp.is_operator(start, "|"@),
                grammar::type_member(inp, p) == (Parsed::Match {
                    value: head,
                    rest: (start - p - 1) as nat,
                }),
                grammar::union_members(inp, self.at(), TypeKind::views(union_type.types@))
                    == grammar::union_members(inp, start, seq![head]),
            decreases inp.left(self.at()),
        {
            proof {
                reveal(grammar::type_member);
                reveal(grammar::type_kind);
                reveal(grammar::union_members);
                reveal(grammar::type_generics);
                reveal(grammar::generic_items);
            }
            if !self.check_operator(0, "|") {
                return Ok(Some(TypeKind::Union(Box::new(union_type))));
            }
            self.take();
            match self.skip_whitespace_err("Expected a type reference to follow a union type.") {
                Err(e) => {
                    return Err(e);
                },
                Ok(_) => {},
            }
            match self.parse_type_member() {
                Err(e) => {
                    return Err(e);
                },
                Ok(None) => {
                    return Err(
                        self.fail(
                            "A type reference is expected here.".to_string(),
                            "Expected a type reference to follow a union type.".to_string(),
                        ),
                    );
                },
                Ok(Some(member)) => {
                    proof {
                        TypeKind::lemma_views_push(union_type.types@, member);
                    }
                    union_type.types.push(member);
                },
            }
        }
    }

    /// Parses the type arguments between `<` and `>`.
    pub fn parse_type_generics(&mut self) -> (r: Result<Option<Vec<TypeParam>>, ParserError>)
        requires
            old(self).inv(),
        ensures
            final(self).follows(old(self)),
            agrees(
                lifted_params(r),
                grammar::type_generics(old(self).input(), old(self).at()),
                old(self).at(),
                final(self).at(),
                old(self).body@,
            ),
        decreases old(self).input().left(old(self).at()), 1nat,
    {
        proof {
            reveal(grammar::type_member);
            reveal(grammar::type_kind);
            reveal(grammar::union_members);
            reveal(grammar::type_generics);
            reveal(grammar::generic_items);
        }
        let ghost inp = self.input();
        let ghost p = self.at();
        if !self.check_operator(0, "<") {
            return Ok(None);
        }
        self.take();
        let mut generics: Vec<TypeParam> = Vec::new();
        proof {
            assert(TypeParam::views(generics@) =~= Seq::empty());
        }
        loop
            invariant
                self.inv(),
                self.follows(old(self)),
                inp == self.input(),
                inp == old(self).input(),
                p == old(self).at(),
                p < self.at(),
                inp.is_operator(p, "<"@),
                grammar::generic_items(inp, self.at(), TypeParam::views(generics@))
                    == grammar::generic_items(inp, p + 1, Seq::empty()),
            decreases inp.left(self.at()),
        {
            proof {
                reveal(grammar::type_member);
                reveal(grammar::type_kind);
                reveal(grammar::union_members);
                reveal(grammar::type_generics);
                reveal(grammar::generic_items);
            }
            match self.skip_whitespace_err(
                "Expected a type paramater to follow a typed parameter list.",
            ) {
                Err(e) => {
                    return Err(e);
                },
                Ok(_) => {},
            }
            match self.parse_type_kind() {
                Err(e) => {
                    return Err(e);
                },
                Ok(Some(kind)) => {
                    let param = TypeParam::new(kind);
                    proof {
                        TypeParam::lemma_views_push(generics@, param);
                    }
                    generics.push(param);
                },
                Ok(None) => {
                    if self.check_operator(0, ">") {
                        self.take();
                        if generics.len() == 0 {
                            return Err(
                                self.fail(
                                    "A type paramater is expected here.".to_string(),
                                    "Expected a type paramater to follow a typed parameter list.".to_string(),
                                ),
                            );
                        } else {
                            return Ok(Some(generics));
                        }
                    } else if self.check(0, TokenType::Comma) {
                        self.take();
                    } else {
                        return Err(
                            self.fail(
                                "A type paramater is expected here.".to_string(),
                                "Expected a type paramater to follow a typed parameter list.".to_string(),
                            ),
                        );
                    }
                },
            }
        }
    }

}

} // verus!
