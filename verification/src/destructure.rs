//! Taking a variant apart: from the shape of its fields to the pattern that
//! binds them and the arguments of the forwarding call.

use crate::model::{texts, NamedField, Shape, ShapeView};
use vstd::prelude::*;
use vstd::string::*;

verus! {

/// The character of a decimal digit.
pub open spec fn digit(d: nat) -> char
    recommends
        d < 10,
{
    (48 + d) as char
}

/// A number in decimal notation, without leading zeros.
pub open spec fn decimal(n: nat) -> Seq<char>
    decreases n,
{
    if n < 10 {
        seq![digit(n)]
    } else {
        decimal(n / 10).push(digit(n % 10))
    }
}

/// The name that stands for the positional field at `index`.
pub open spec fn placeholder(index: nat) -> Seq<char> {
    "arg"@ + decimal(index)
}

fn digit_char(d: u8) -> (c: char)
    requires
        d < 10,
    ensures
        c == digit(d as nat),
{
    (48u8 + d) as char
}

fn push_decimal(out: &mut String, n: usize)
    ensures
        final(out)@ == old(out)@ + decimal(n as nat),
    decreases n,
{
    if n >= 10 {
        push_decimal(out, n / 10);
    }
    out.push(digit_char((n % 10) as u8));
}

/// The placeholder name of the positional field at `index`: `arg0`, `arg1`
/// and so on.
pub fn placeholder_name(index: usize) -> (name: String)
    ensures
        name@ == placeholder(index as nat),
{
    let mut name = String::from_str("arg");
    push_decimal(&mut name, index);
    name
}

/// The pattern that takes an instance of a variant apart.
#[derive(Debug, Clone, PartialEq, Eq)]
pub enum BindingPattern {
    /// The variant's path alone: nothing is bound.
    Bare,
    /// One binding for each slot, in round brackets.
    Positional(Vec<String>),
    /// One binding for each field, by the field's name, in braces.
    Named(Vec<String>),
}

pub enum BindingPatternView {
    Bare,
    Positional(Seq<Seq<char>>),
    Named(Seq<Seq<char>>),
}

impl View for BindingPattern {
    type V = BindingPatternView;

    open spec fn view(&self) -> BindingPatternView {
        match self {
            BindingPattern::Bare => BindingPatternView::Bare,
            BindingPattern::Positional(names) => BindingPatternView::Positional(texts(names@)),
            BindingPattern::Named(names) => BindingPatternView::Named(texts(names@)),
        }
    }
}

impl BindingPatternView {
    /// The names that the pattern binds, in the order in which it binds
    /// them.
    pub open spec fn bound(self) -> Seq<Seq<char>> {
        match self {
            BindingPatternView::Bare => Seq::empty(),
            BindingPatternView::Positional(names) => names,
            BindingPatternView::Named(names) => names,
        }
    }
}

/// A variant taken apart: the pattern, and the arguments of the call that
/// forwards what the pattern binds.
#[derive(Debug, Clone, PartialEq, Eq)]
pub struct Destructured {
    pub pattern: BindingPattern,
    pub arguments: Vec<String>,
}

pub struct DestructuredView {
    pub pattern: BindingPatternView,
    pub arguments: Seq<Seq<char>>,
}

impl View for Destructured {
    type V = DestructuredView;

    open spec fn view(&self) -> DestructuredView {
        DestructuredView { pattern: self.pattern@, arguments: texts(self.arguments@) }
    }
}

/// The name bound for each field of a shape, in declaration order: the
/// field's own name where it has one, the placeholder of its position where
/// it has none.
pub open spec fn binding_names(shape: ShapeView) -> Seq<Seq<char>> {
    match shape {
        ShapeView::NoFields => Seq::empty(),
        ShapeView::PositionalFields(slots) => Seq::new(
            slots.len(),
            |i: int| placeholder(i as nat),
        ),
        ShapeView::NamedFields(fields) => Seq::new(fields.len(), |i: int| fields[i].name),
    }
}

/// The pattern for a shape: each field is bound once, under its binding
/// name, in declaration order.
pub open spec fn pattern_of(shape: ShapeView) -> BindingPatternView {
    match shape {
        ShapeView::NoFields => BindingPatternView::Bare,
        ShapeView::PositionalFields(_) => BindingPatternView::Positional(binding_names(shape)),
        ShapeView::NamedFields(_) => BindingPatternView::Named(binding_names(shape)),
    }
}

/// A shape taken apart: its pattern, and as arguments the names that the
/// pattern binds, in the same order.
pub open spec fn destructured(shape: ShapeView) -> DestructuredView {
    DestructuredView { pattern: pattern_of(shape), arguments: binding_names(shape) }
}

/// The placeholder names `arg0` to `arg{count - 1}`.
fn placeholder_names(count: usize) -> (names: Vec<String>)
    ensures
        texts(names@) == Seq::new(count as nat, |i: int| placeholder(i as nat)),
{
    let mut names: Vec<String> = Vec::new();
    let mut i: usize = 0;
    while i < count
        invariant
            i <= count,
            names@.len() == i,
            forall|k: int| 0 <= k < i ==> (#[trigger] names@[k])@ == placeholder(k as nat),
        decreases count - i,
    {
        names.push(placeholder_name(i));
        i += 1;
    }
    names
}

/// The names of the given fields, in the same order.
fn field_names(fields: &Vec<NamedField>) -> (names: Vec<String>)
    ensures
        texts(names@) == Seq::new(fields@.len(), |i: int| fields@[i].name@),
{
    let mut names: Vec<String> = Vec::new();
    let mut i: usize = 0;
    while i < fields.len()
        invariant
            i <= fields@.len(),
            names@.len() == i,
            forall|k: int| 0 <= k < i ==> (#[trigger] names@[k])@ == fields@[k].name@,
        decreases fields@.len() - i,
    {
        names.push(fields[i].name.clone());
        i += 1;
    }
    names
}

/// Takes a variant's shape apart.
///
/// A variant without fields gives the bare pattern and no arguments. Named
/// fields are bound by their names, positional fields by the placeholders
/// `arg0`, `arg1` and so on. The arguments are the bound names: one for
/// each field, in declaration order.
pub fn destructure(shape: &Shape) -> (d: Destructured)
    ensures
        d@ == destructured(shape@),
        d.arguments@.len() == shape@.arity(),
{
    match shape {
        Shape::NoFields => {
            let d = Destructured { pattern: BindingPattern::Bare, arguments: Vec::new() };
            assert(texts(d.arguments@) =~= Seq::empty());
            d
        },
        Shape::PositionalFields(slots) => {
            let bound = placeholder_names(slots.len());
            let arguments = placeholder_names(slots.len());
            assert(binding_names(shape@) =~= texts(bound@));
            Destructured { pattern: BindingPattern::Positional(bound), arguments }
        },
        Shape::NamedFields(fields) => {
            let bound = field_names(fields);
            let arguments = field_names(fields);
            assert(binding_names(shape@) =~= texts(bound@));
            Destructured { pattern: BindingPattern::Named(bound), arguments }
        },
    }
}

} // verus!
