//! Typed literals: what a coerced argument becomes.
use vstd::prelude::*;
use crate::text::views;

verus! {

/// A variant of a generated enumeration, such as `ExpandWildcards::Open`.
#[derive(Debug, Clone, PartialEq)]
pub struct EnumLiteral {
    pub enum_name: String,
    pub variant: String,
}

/// A typed value, ready to be passed to a generated builder.
#[derive(Debug, Clone, PartialEq)]
pub enum Literal {
    Str(String),
    Bool(bool),
    Int(i64),
    /// A 32-bit float holding the given integer.
    Float(i64),
    /// A 64-bit float holding the given integer.
    Double(i64),
    Enum(EnumLiteral),
    StrList(Vec<String>),
    EnumList(Vec<EnumLiteral>),
}

pub struct EnumView {
    pub enum_name: Seq<char>,
    pub variant: Seq<char>,
}

pub enum LiteralView {
    Str(Seq<char>),
    Bool(bool),
    Int(int),
    Float(int),
    Double(int),
    Enum(EnumView),
    StrList(Seq<Seq<char>>),
    EnumList(Seq<EnumView>),
}

impl View for EnumLiteral {
    type V = EnumView;

    open spec fn view(&self) -> EnumView {
        EnumView { enum_name: self.enum_name@, variant: self.variant@ }
    }
}

/// The views of a list of enumeration literals.
pub open spec fn enum_views(v: Seq<EnumLiteral>) -> Seq<EnumView> {
    v.map_values(|e: EnumLiteral| e@)
}

impl View for Literal {
    type V = LiteralView;

    open spec fn view(&self) -> LiteralView {
        match self {
            Literal::Str(s) => LiteralView::Str(s@),
            Literal::Bool(b) => LiteralView::Bool(*b),
            Literal::Int(i) => LiteralView::Int(*i as int),
            Literal::Float(i) => LiteralView::Float(*i as int),
            Literal::Double(i) => LiteralView::Double(*i as int),
            Literal::Enum(e) => LiteralView::Enum(e@),
            Literal::StrList(v) => LiteralView::StrList(views(v@)),
            Literal::EnumList(v) => LiteralView::EnumList(enum_views(v@)),
        }
    }
}

} // verus!
