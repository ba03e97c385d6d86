//! What one line of input holds: the constructs that a parser found in it,
//! and the items that the session makes of them.

use crate::text::{fits, slice, span_fits, text_between};
use vstd::prelude::*;

verus! {

/// The place of a construct in the text that was parsed: two byte offsets.
#[derive(Clone, Copy, Debug, PartialEq, Eq, Structural)]
pub struct SrcSpan {
    pub start: u32,
    pub end: u32,
}

/// What the session reads of the pattern of a `let`.
#[derive(Debug)]
pub enum Pattern {
    /// A single variable.
    Variable { name: String },
    /// The wildcard `_`.
    Discard,
    /// Any other pattern.
    Other,
}

/// What the session reads of a statement.
#[derive(Debug)]
pub enum Statement {
    Use { location: SrcSpan },
    Expression { location: SrcSpan },
    /// A `let`; `value` is the place of the expression on its right.
    Assignment { location: SrcSpan, pattern: Pattern, value: SrcSpan },
    Assert { location: SrcSpan },
}

/// What the session reads of a definition. Its `location` covers the whole
/// of its text.
#[derive(Debug)]
pub enum Definition {
    Import { location: SrcSpan },
    TypeAlias { location: SrcSpan },
    CustomType { location: SrcSpan },
    ModuleConstant { location: SrcSpan },
    /// A named function; `arguments` are the names of its parameters and
    /// `body` is the place of the first statement of its body.
    Function { location: SrcSpan, name: String, arguments: Vec<String>, body: SrcSpan },
}

/// One construct of a line, as the parser found it.
#[derive(Debug)]
pub enum ReplItem {
    ReplDefinition(Definition),
    ReplStatement(Statement),
}

/// The kind of a token, as far as the choice between a definition and a
/// statement depends on it.
#[derive(Clone, Copy, Debug, PartialEq, Eq, Structural)]
pub enum Token {
    Fn,
    LeftParen,
    Other,
}

/// What the parser is asked to read.
#[derive(Clone, Copy, Debug, PartialEq, Eq, Structural)]
pub enum Attempt {
    Definition,
    Statement,
}

/// What to read first where the next two tokens are `tok0` and `tok1`: a
/// statement where they are `fn` and `(`, which begin an anonymous function
/// and no definition; else a definition.
pub fn first_attempt(tok0: Option<Token>, tok1: Option<Token>) -> (attempt: Attempt)
    ensures
        attempt == (if tok0 == Some(Token::Fn) && tok1 == Some(Token::LeftParen) {
            Attempt::Statement
        } else {
            Attempt::Definition
        }),
{
    match (tok0, tok1) {
        (Some(Token::Fn), Some(Token::LeftParen)) => Attempt::Statement,
        _ => Attempt::Definition,
    }
}

/// What to read after `tried` was read and `found` says whether anything was
/// there: a statement where no definition was found, else nothing more.
pub fn next_attempt(tried: Attempt, found: bool) -> (attempt: Option<Attempt>)
    ensures
        attempt == (if tried == Attempt::Definition && !found {
            Some(Attempt::Statement)
        } else {
            None
        }),
{
    match tried {
        Attempt::Definition => if found {
            None
        } else {
            Some(Attempt::Statement)
        },
        Attempt::Statement => None,
    }
}

/// One item of a turn, with the text that it was written in.
#[derive(Debug)]
pub enum TurnItem {
    Import,
    Constant { code: String },
    TypeDeclaration { code: String },
    /// `head` is the text up to the first statement of the body, `body` the
    /// text from there on.
    FunctionDeclaration { name: String, params: Vec<String>, head: String, body: String },
    LetBinding { name: String, code: String },
    DiscardBinding { code: String },
    UseStatement,
    Expression { code: String },
    /// A `let` with a pattern that is neither a variable nor the wildcard.
    PatternBinding,
    Assertion,
}

/// A `TurnItem` as a mathematical value.
pub enum ItemView {
    Import,
    Constant { code: Seq<char> },
    TypeDeclaration { code: Seq<char> },
    FunctionDeclaration { name: Seq<char>, params: Seq<Seq<char>>, head: Seq<char>, body: Seq<char> },
    LetBinding { name: Seq<char>, code: Seq<char> },
    DiscardBinding { code: Seq<char> },
    UseStatement,
    Expression { code: Seq<char> },
    PatternBinding,
    Assertion,
}

impl DeepView for TurnItem {
    type V = ItemView;

    open spec fn deep_view(&self) -> ItemView {
        match self {
            TurnItem::Import => ItemView::Import,
            TurnItem::Constant { code } => ItemView::Constant { code: code@ },
            TurnItem::TypeDeclaration { code } => ItemView::TypeDeclaration { code: code@ },
            TurnItem::FunctionDeclaration { name, params, head, body } => {
                ItemView::FunctionDeclaration {
                    name: name@,
                    params: params.deep_view(),
                    head: head@,
                    body: body@,
                }
            },
            TurnItem::LetBinding { name, code } => ItemView::LetBinding { name: name@, code: code@ },
            TurnItem::DiscardBinding { code } => ItemView::DiscardBinding { code: code@ },
            TurnItem::UseStatement => ItemView::UseStatement,
            TurnItem::Expression { code } => ItemView::Expression { code: code@ },
            TurnItem::PatternBinding => ItemView::PatternBinding,
            TurnItem::Assertion => ItemView::Assertion,
        }
    }
}

/// Whether the places that `item` names lie in `src`, each a run of whole
/// characters.
pub open spec fn item_fits(item: ReplItem, src: Seq<char>) -> bool {
    match item {
        ReplItem::ReplDefinition(Definition::Function { location, name, arguments, body }) => {
            &&& span_fits(src, location.start as int, body.start as int)
            &&& span_fits(src, body.start as int, location.end as int)
        },
        ReplItem::ReplDefinition(Definition::Import { location }) => true,
        ReplItem::ReplDefinition(Definition::TypeAlias { location }) => span_fits(
            src,
            location.start as int,
            location.end as int,
        ),
        ReplItem::ReplDefinition(Definition::CustomType { location }) => span_fits(
            src,
            location.start as int,
            location.end as int,
        ),
        ReplItem::ReplDefinition(Definition::ModuleConstant { location }) => span_fits(
            src,
            location.start as int,
            location.end as int,
        ),
        ReplItem::ReplStatement(Statement::Expression { location }) => span_fits(
            src,
            location.start as int,
            location.end as int,
        ),
        ReplItem::ReplStatement(Statement::Assignment { location, pattern, value }) => {
            pattern is Other || span_fits(src, location.start as int, value.end as int)
        },
        ReplItem::ReplStatement(Statement::Use { location }) => true,
        ReplItem::ReplStatement(Statement::Assert { location }) => true,
    }
}

/// The item that the session makes of what the parser found in `src`.
///
/// A definition keeps the text of its whole extent. A `let` keeps the text
/// from its start to the end of its value, an expression the text of its
/// extent. What the session does not take keeps no text.
pub open spec fn item_of(item: ReplItem, src: Seq<char>) -> ItemView {
    match item {
        ReplItem::ReplDefinition(Definition::Import { location }) => ItemView::Import,
        ReplItem::ReplDefinition(Definition::TypeAlias { location }) => ItemView::TypeDeclaration {
            code: text_between(src, location.start as int, location.end as int),
        },
        ReplItem::ReplDefinition(Definition::CustomType { location }) => ItemView::TypeDeclaration {
            code: text_between(src, location.start as int, location.end as int),
        },
        ReplItem::ReplDefinition(Definition::ModuleConstant { location }) => ItemView::Constant {
            code: text_between(src, location.start as int, location.end as int),
        },
        ReplItem::ReplDefinition(Definition::Function { location, name, arguments, body }) => {
            ItemView::FunctionDeclaration {
                name: name@,
                params: arguments.deep_view(),
                head: text_between(src, location.start as int, body.start as int),
                body: text_between(src, body.start as int, location.end as int),
            }
        },
        ReplItem::ReplStatement(Statement::Use { location }) => ItemView::UseStatement,
        ReplItem::ReplStatement(Statement::Expression { location }) => ItemView::Expression {
            code: text_between(src, location.start as int, location.end as int),
        },
        ReplItem::ReplStatement(Statement::Assignment { location, pattern, value }) => match pattern {
            Pattern::Variable { name } => ItemView::LetBinding {
                name: name@,
                code: text_between(src, location.start as int, value.end as int),
            },
            Pattern::Discard => ItemView::DiscardBinding {
                code: text_between(src, location.start as int, value.end as int),
            },
            Pattern::Other => ItemView::PatternBinding,
        },
        ReplItem::ReplStatement(Statement::Assert { location }) => ItemView::Assertion,
    }
}

/// A copy of `names`.
pub fn copy_names(names: &Vec<String>) -> (copy: Vec<String>)
    ensures
        copy.deep_view() == names.deep_view(),
{
    let mut copy: Vec<String> = Vec::new();
    let mut i: usize = 0;
    while i < names.len()
        invariant
            i <= names.len(),
            copy@.len() == i,
            forall|k: int| 0 <= k < i ==> copy@[k]@ == names@[k]@,
        decreases names.len() - i,
    {
        copy.push(names[i].clone());
        i += 1;
    }
    assert(copy.deep_view() =~= names.deep_view());
    copy
}

fn cut(src: &str, start: u32, end: u32) -> (code: Option<String>)
    ensures
        code is Some == span_fits(src@, start as int, end as int),
        code matches Some(c) ==> c@ == text_between(src@, start as int, end as int),
{
    if fits(src, start as usize, end as usize) {
        Some(String::from_str(slice(src, start as usize, end as usize)))
    } else {
        None
    }
}

/// Makes the item of a turn out of what the parser found in `src`, where its
/// places lie in `src`.
pub fn classify(item: &ReplItem, src: &str) -> (turn_item: Option<TurnItem>)
    ensures
        turn_item is Some == item_fits(*item, src@),
        turn_item matches Some(t) ==> t.deep_view() == item_of(*item, src@),
{
    match item {
        ReplItem::ReplDefinition(Definition::Import { .. }) => Some(TurnItem::Import),
        ReplItem::ReplDefinition(Definition::TypeAlias { location }) => {
            match cut(src, location.start, location.end) {
                Some(code) => Some(TurnItem::TypeDeclaration { code }),
                None => None,
            }
        },
        ReplItem::ReplDefinition(Definition::CustomType { location }) => {
            match cut(src, location.start, location.end) {
                Some(code) => Some(TurnItem::TypeDeclaration { code }),
                None => None,
            }
        },
        ReplItem::ReplDefinition(Definition::ModuleConstant { location }) => {
            match cut(src, location.start, location.end) {
                Some(code) => Some(TurnItem::Constant { code }),
                None => None,
            }
        },
        ReplItem::ReplDefinition(Definition::Function { location, name, arguments, body }) => {
            match cut(src, location.start, body.start) {
                Some(head) => match cut(src, body.start, location.end) {
                    Some(rest) => Some(
                        TurnItem::FunctionDeclaration {
                            name: name.clone(),
                            params: copy_names(arguments),
                            head,
                            body: rest,
                        },
                    ),
                    None => None,
                },
                None => None,
            }
        },
        ReplItem::ReplStatement(Statement::Use { .. }) => Some(TurnItem::UseStatement),
        ReplItem::ReplStatement(Statement::Expression { location }) => {
            match cut(src, location.start, location.end) {
                Some(code) => Some(TurnItem::Expression { code }),
                None => None,
            }
        },
        ReplItem::ReplStatement(Statement::Assignment { location, pattern, value }) => {
            match pattern {
                Pattern::Variable { name } => match cut(src, location.start, value.end) {
                    Some(code) => Some(TurnItem::LetBinding { name: name.clone(), code }),
                    None => None,
                },
                Pattern::Discard => match cut(src, location.start, value.end) {
                    Some(code) => Some(TurnItem::DiscardBinding { code }),
                    None => None,
                },
                Pattern::Other => Some(TurnItem::PatternBinding),
            }
        },
        ReplItem::ReplStatement(Statement::Assert { .. }) => Some(TurnItem::Assertion),
    }
}

/// Whether the places of all of `items` lie in `src`.
pub open spec fn items_fit(items: Seq<ReplItem>, src: Seq<char>) -> bool {
    forall|i: int| 0 <= i < items.len() ==> item_fits(#[trigger] items[i], src)
}

/// The items that the session makes of `items`.
pub open spec fn items_of(items: Seq<ReplItem>, src: Seq<char>) -> Seq<ItemView> {
    Seq::new(items.len(), |i: int| item_of(items[i], src))
}

/// Makes the items of a turn out of all that the parser found in `src`,
/// where all the places lie in `src`.
pub fn turn_items(items: &Vec<ReplItem>, src: &str) -> (found: Option<Vec<TurnItem>>)
    ensures
        found is Some == items_fit(items@, src@),
        found matches Some(f) ==> f.deep_view() == items_of(items@, src@),
{
    let mut found: Vec<TurnItem> = Vec::new();
    let mut i: usize = 0;
    while i < items.len()
        invariant
            i <= items.len(),
            found@.len() == i,
            forall|k: int| 0 <= k < i ==> item_fits(#[trigger] items@[k], src@),
            forall|k: int| 0 <= k < i ==> found@[k].deep_view() == item_of(items@[k], src@),
        decreases items.len() - i,
    {
        match classify(&items[i], src) {
            Some(item) => {
                found.push(item);
            },
            None => {
                return None;
            },
        }
        i += 1;
    }
    assert(found.deep_view() =~= items_of(items@, src@));
    Some(found)
}

} // verus!
