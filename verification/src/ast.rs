//! The syntax tree that the parser hands to the tree builder. Every
//! expression carries the place in the source where it stands.
use crate::error::{Location, LocationView};
use crate::number::Number;
use std::sync::Arc;
use vstd::prelude::*;

verus! {

/// An expression and where it stands.
#[derive(Debug, PartialEq)]
pub struct ExprWithLocation {
    pub inner: Expr,
    pub location: Location,
}

#[derive(Debug, PartialEq)]
pub enum Expr {
    Value(ConfigValue),
    Block(BlockExpr),
    Identifier(String),
    FuncDefinition(Arc<FuncDefinition>),
    BinaryOperator(Box<BinaryOperatorExpr>),
    Comparison(Box<Comparison>),
    Conditional(Box<Conditional>),
    Logical(Box<Logical>),
    Suffix(Box<SuffixExpr>),
    Import(String),
}

impl Expr {
    pub fn with_location(self, location: Location) -> (r: ExprWithLocation)
        ensures
            r.inner == self,
            r.location == location,
    {
        ExprWithLocation { inner: self, location }
    }
}

/// A literal.
#[derive(Debug, PartialEq)]
pub enum ConfigValue {
    Bool(bool),
    Number(Number),
    /// A number with a fraction or an exponent, as it was written.
    Float(String),
    String(Vec<ConfigString>),
    HashMap(Vec<HashMapEntry>),
    List(Vec<ExprWithLocation>),
}

/// A piece of a string literal: text, or an expression to put in its place.
#[derive(Debug, PartialEq)]
pub enum ConfigString {
    Raw(String),
    Interpolated(ExprWithLocation),
}

#[derive(Debug, PartialEq)]
pub struct HashMapEntry {
    pub key: ExprWithLocation,
    pub value: ExprWithLocation,
}

/// `let name = expression`.
#[derive(Debug, PartialEq)]
pub struct Assignment(pub String, pub ExprWithLocation);

/// Assignments, and the expression that they are made for.
#[derive(Debug, PartialEq)]
pub struct BlockExpr {
    pub local_assignments: Vec<Assignment>,
    pub expression: Box<ExprWithLocation>,
}

/// `(a, b) => expression`.
#[derive(Debug, PartialEq)]
pub struct FuncDefinition {
    pub arguments: Vec<String>,
    pub expression: Box<ExprWithLocation>,
}

#[derive(Debug, PartialEq)]
pub struct BinaryOperatorExpr {
    pub expr1: ExprWithLocation,
    pub expr2: ExprWithLocation,
    pub op: BinaryOperator,
}

#[derive(Clone, Copy, Debug, PartialEq, Eq, Structural)]
pub enum BinaryOperator {
    Add,
    Sub,
    Mul,
    Div,
}

#[derive(Debug, PartialEq)]
pub struct Comparison {
    pub expr1: ExprWithLocation,
    pub expr2: ExprWithLocation,
    pub operator: ComparisonOperator,
}

#[derive(Clone, Copy, Debug, PartialEq, Eq, Structural)]
pub enum ComparisonOperator {
    Equal,
    NotEqual,
    Less,
    Greater,
    LessOrEqual,
    GreaterOrEqual,
}

/// `if condition then then_branch else else_branch`.
#[derive(Debug, PartialEq)]
pub struct Conditional {
    pub condition: ExprWithLocation,
    pub then_branch: ExprWithLocation,
    pub else_branch: ExprWithLocation,
}

#[derive(Debug, PartialEq)]
pub enum Logical {
    And(ExprWithLocation, ExprWithLocation),
    Or(ExprWithLocation, ExprWithLocation),
    Not(ExprWithLocation),
}

/// An expression with one suffix behind it.
#[derive(Debug, PartialEq)]
pub struct SuffixExpr {
    pub base: ExprWithLocation,
    pub operator: SuffixOperator,
}

#[derive(Debug, PartialEq)]
pub enum SuffixOperator {
    DotField(String),
    FunctionApplication(Vec<ExprWithLocation>),
    Index(ExprWithLocation),
}

/// An expression and where it stands, as a mathematical object.
pub struct ExprView {
    pub inner: Box<ExprKind>,
    pub location: LocationView,
}

pub enum ExprKind {
    Value(ConfigValueView),
    Block(BlockView),
    Identifier(Seq<char>),
    FuncDefinition(FuncDefinitionView),
    BinaryOperator(BinaryOperatorView),
    Comparison(ComparisonView),
    Conditional(ConditionalView),
    Logical(LogicalView),
    Suffix(SuffixView),
    Import(Seq<char>),
}

pub enum ConfigValueView {
    Bool(bool),
    Number(Number),
    Float(Seq<char>),
    String(Seq<ConfigStringView>),
    HashMap(Seq<(ExprView, ExprView)>),
    List(Seq<ExprView>),
}

pub enum ConfigStringView {
    Raw(Seq<char>),
    Interpolated(ExprView),
}

pub struct BlockView {
    pub local_assignments: Seq<(Seq<char>, ExprView)>,
    pub expression: ExprView,
}

pub struct FuncDefinitionView {
    pub arguments: Seq<Seq<char>>,
    pub expression: ExprView,
}

pub struct BinaryOperatorView {
    pub expr1: ExprView,
    pub expr2: ExprView,
    pub op: BinaryOperator,
}

pub struct ComparisonView {
    pub expr1: ExprView,
    pub expr2: ExprView,
    pub operator: ComparisonOperator,
}

pub struct ConditionalView {
    pub condition: ExprView,
    pub then_branch: ExprView,
    pub else_branch: ExprView,
}

pub enum LogicalView {
    And(ExprView, ExprView),
    Or(ExprView, ExprView),
    Not(ExprView),
}

pub struct SuffixView {
    pub base: ExprView,
    pub operator: SuffixOperatorView,
}

pub enum SuffixOperatorView {
    DotField(Seq<char>),
    FunctionApplication(Seq<ExprView>),
    Index(ExprView),
}

/// The views of the strings of a sequence.
pub open spec fn strings_view(strings: Seq<String>) -> Seq<Seq<char>> {
    Seq::new(strings.len(), |i: int| strings[i]@)
}

/// The views of the expressions of a sequence.
pub open spec fn exprs_view(exprs: Seq<ExprWithLocation>) -> Seq<ExprView>
    decreases exprs,
{
    Seq::new(
        exprs.len(),
        |i: int|
            if 0 <= i < exprs.len() {
                exprs[i].model()
            } else {
                arbitrary()
            },
    )
}

/// The views of the pieces of a string literal.
pub open spec fn parts_view(parts: Seq<ConfigString>) -> Seq<ConfigStringView>
    decreases parts,
{
    Seq::new(
        parts.len(),
        |i: int|
            if 0 <= i < parts.len() {
                parts[i].model()
            } else {
                arbitrary()
            },
    )
}

/// The views of the entries of a map literal.
pub open spec fn entries_view(entries: Seq<HashMapEntry>) -> Seq<(ExprView, ExprView)>
    decreases entries,
{
    Seq::new(
        entries.len(),
        |i: int|
            if 0 <= i < entries.len() {
                (entries[i].key.model(), entries[i].value.model())
            } else {
                arbitrary()
            },
    )
}

/// The views of the assignments of a block.
pub open spec fn assignments_view(assignments: Seq<Assignment>) -> Seq<(Seq<char>, ExprView)>
    decreases assignments,
{
    Seq::new(
        assignments.len(),
        |i: int|
            if 0 <= i < assignments.len() {
                (assignments[i].0@, assignments[i].1.model())
            } else {
                arbitrary()
            },
    )
}

impl ExprWithLocation {
    /// The expression as a mathematical object.
    pub open spec fn model(&self) -> ExprView
        decreases self,
    {
        ExprView { inner: Box::new(self.inner.model()), location: self.location@ }
    }
}

impl Expr {
    /// The expression as a mathematical object.
    pub open spec fn model(&self) -> ExprKind
        decreases self,
    {
        match self {
            Expr::Value(v) => ExprKind::Value(v.model()),
            Expr::Block(b) => ExprKind::Block(b.model()),
            Expr::Identifier(id) => ExprKind::Identifier(id@),
            Expr::FuncDefinition(fd) => ExprKind::FuncDefinition(fd.model()),
            Expr::BinaryOperator(op) => ExprKind::BinaryOperator(op.model()),
            Expr::Comparison(c) => ExprKind::Comparison(c.model()),
            Expr::Conditional(c) => ExprKind::Conditional(c.model()),
            Expr::Logical(l) => ExprKind::Logical(l.model()),
            Expr::Suffix(s) => ExprKind::Suffix(s.model()),
            Expr::Import(path) => ExprKind::Import(path@),
        }
    }
}

impl ConfigValue {
    /// The literal as a mathematical object.
    pub open spec fn model(&self) -> ConfigValueView
        decreases self,
    {
        match self {
            ConfigValue::Bool(b) => ConfigValueView::Bool(*b),
            ConfigValue::Number(n) => ConfigValueView::Number(*n),
            ConfigValue::Float(text) => ConfigValueView::Float(text@),
            ConfigValue::String(parts) => ConfigValueView::String(parts_view(parts@)),
            ConfigValue::HashMap(entries) => ConfigValueView::HashMap(entries_view(entries@)),
            ConfigValue::List(items) => ConfigValueView::List(exprs_view(items@)),
        }
    }
}

impl ConfigString {
    /// The piece as a mathematical object.
    pub open spec fn model(&self) -> ConfigStringView
        decreases self,
    {
        match self {
            ConfigString::Raw(s) => ConfigStringView::Raw(s@),
            ConfigString::Interpolated(e) => ConfigStringView::Interpolated(e.model()),
        }
    }
}

impl BlockExpr {
    /// The block as a mathematical object.
    pub open spec fn model(&self) -> BlockView
        decreases self,
    {
        BlockView {
            local_assignments: assignments_view(self.local_assignments@),
            expression: self.expression.model(),
        }
    }
}

impl FuncDefinition {
    /// The function literal as a mathematical object.
    pub open spec fn model(&self) -> FuncDefinitionView
        decreases self,
    {
        FuncDefinitionView {
            arguments: strings_view(self.arguments@),
            expression: self.expression.model(),
        }
    }
}

impl BinaryOperatorExpr {
    /// The operation as a mathematical object.
    pub open spec fn model(&self) -> BinaryOperatorView
        decreases self,
    {
        BinaryOperatorView {
            expr1: self.expr1.model(),
            expr2: self.expr2.model(),
            op: self.op,
        }
    }
}

impl Comparison {
    /// The comparison as a mathematical object.
    pub open spec fn model(&self) -> ComparisonView
        decreases self,
    {
        ComparisonView {
            expr1: self.expr1.model(),
            expr2: self.expr2.model(),
            operator: self.operator,
        }
    }
}

impl Conditional {
    /// The conditional as a mathematical object.
    pub open spec fn model(&self) -> ConditionalView
        decreases self,
    {
        ConditionalView {
            condition: self.condition.model(),
            then_branch: self.then_branch.model(),
            else_branch: self.else_branch.model(),
        }
    }
}

impl Logical {
    /// The logical expression as a mathematical object.
    pub open spec fn model(&self) -> LogicalView
        decreases self,
    {
        match self {
            Logical::And(a, b) => LogicalView::And(a.model(), b.model()),
            Logical::Or(a, b) => LogicalView::Or(a.model(), b.model()),
            Logical::Not(a) => LogicalView::Not(a.model()),
        }
    }
}

impl SuffixExpr {
    /// The expression as a mathematical object.
    pub open spec fn model(&self) -> SuffixView
        decreases self,
    {
        SuffixView { base: self.base.model(), operator: self.operator.model() }
    }
}

impl SuffixOperator {
    /// The suffix as a mathematical object.
    pub open spec fn model(&self) -> SuffixOperatorView
        decreases self,
    {
        match self {
            SuffixOperator::DotField(id) => SuffixOperatorView::DotField(id@),
            SuffixOperator::FunctionApplication(args) => SuffixOperatorView::FunctionApplication(
                exprs_view(args@),
            ),
            SuffixOperator::Index(ix) => SuffixOperatorView::Index(ix.model()),
        }
    }
}

impl View for ExprWithLocation {
    type V = ExprView;

    open spec fn view(&self) -> ExprView {
        self.model()
    }
}

impl View for Expr {
    type V = ExprKind;

    open spec fn view(&self) -> ExprKind {
        self.model()
    }
}

impl View for ConfigValue {
    type V = ConfigValueView;

    open spec fn view(&self) -> ConfigValueView {
        self.model()
    }
}

impl View for ConfigString {
    type V = ConfigStringView;

    open spec fn view(&self) -> ConfigStringView {
        self.model()
    }
}

impl View for BlockExpr {
    type V = BlockView;

    open spec fn view(&self) -> BlockView {
        self.model()
    }
}

impl View for FuncDefinition {
    type V = FuncDefinitionView;

    open spec fn view(&self) -> FuncDefinitionView {
        self.model()
    }
}

impl View for BinaryOperatorExpr {
    type V = BinaryOperatorView;

    open spec fn view(&self) -> BinaryOperatorView {
        self.model()
    }
}

impl View for Comparison {
    type V = ComparisonView;

    open spec fn view(&self) -> ComparisonView {
        self.model()
    }
}

impl View for Conditional {
    type V = ConditionalView;

    open spec fn view(&self) -> ConditionalView {
        self.model()
    }
}

impl View for Logical {
    type V = LogicalView;

    open spec fn view(&self) -> LogicalView {
        self.model()
    }
}

impl View for Assignment {
    type V = (Seq<char>, ExprView);

    open spec fn view(&self) -> (Seq<char>, ExprView) {
        (self.0@, self.1.model())
    }
}

impl View for HashMapEntry {
    type V = (ExprView, ExprView);

    open spec fn view(&self) -> (ExprView, ExprView) {
        (self.key.model(), self.value.model())
    }
}

impl View for SuffixExpr {
    type V = SuffixView;

    open spec fn view(&self) -> SuffixView {
        self.model()
    }
}

impl View for SuffixOperator {
    type V = SuffixOperatorView;

    open spec fn view(&self) -> SuffixOperatorView {
        self.model()
    }
}

} // verus!
