//! The syntax tree that the formatter works on.
//!
//! It holds, as plain values, what the formatting rules read of a parsed Ruby
//! program: the kind of every node, its children in source order, and byte
//! offsets into the source for the node itself and for the tokens that the
//! rules look at.  SyntaxNode kinds that the rules do not format themselves are kept
//! as `Kind::Other`, with their child nodes in order.
use vstd::prelude::*;

verus! {

/// A half-open range of byte offsets `[start, end)` into the source.
#[derive(Clone, Copy, Debug, PartialEq, Eq, Structural)]
pub struct Span {
    pub start: usize,
    pub end: usize,
}

/// A node of the syntax tree: where it lies in the source, and what it is.
#[derive(Debug)]
pub struct SyntaxNode {
    pub loc: Span,
    pub kind: Kind,
}

/// The kinds of node.  Fields named `*_loc`, `opening`, `closing` and the
/// like are the locations of tokens; `name`, `read_name` and `operator` are the
/// bytes of an interned identifier or operator.
#[allow(inconsistent_fields)]
#[derive(Debug)]
pub enum Kind {
    /// A sequence of statements.
    Statements { body: Vec<SyntaxNode> },
    /// `if`/`elsif`, a modifier `if`, or a ternary `a ? b : c`.
    If {
        if_keyword: Option<Span>,
        predicate: Box<SyntaxNode>,
        statements: Option<Box<SyntaxNode>>,
        subsequent: Option<Box<SyntaxNode>>,
        end_keyword: Option<Span>,
    },
    /// The `else` branch of a conditional.
    Else { statements: Option<Box<SyntaxNode>> },
    /// A method call, including operator calls such as `1 + 2`.
    Call {
        receiver: Option<Box<SyntaxNode>>,
        call_operator: Option<Span>,
        name: Vec<u8>,
        message: Option<Span>,
        opening: Option<Span>,
        arguments: Option<Box<SyntaxNode>>,
        block: Option<Box<SyntaxNode>>,
    },
    /// The arguments of a call.
    Arguments { arguments: Vec<SyntaxNode> },
    /// An integer literal.
    Integer,
    /// A string literal without interpolation, or a literal part of one with it.
    Str,
    /// A string with `#{...}` parts.
    InterpolatedStr { parts: Vec<SyntaxNode> },
    /// The `#{...}` part of an interpolated string.
    EmbeddedStatements { statements: Option<Box<SyntaxNode>> },
    /// `name = value` for a local variable.
    LocalVariableWrite { name: Vec<u8>, name_loc: Span, value: Box<SyntaxNode> },
    /// A local variable read.
    LocalVariableRead { name: Vec<u8> },
    /// An instance variable read.
    InstanceVariableRead { name: Vec<u8> },
    /// An array literal, with or without brackets.
    Array { elements: Vec<SyntaxNode>, opening: Option<Span>, closing: Option<Span> },
    /// A hash literal in braces.
    Hash { elements: Vec<SyntaxNode> },
    /// A `key => value` or `key: value` pair.
    Assoc { key: Box<SyntaxNode>, value: Box<SyntaxNode>, operator: Option<Span> },
    /// Keyword arguments without braces.
    KeywordHash { elements: Vec<SyntaxNode> },
    /// A symbol, or the label of a `key:` pair; `content` is the symbol's text.
    Symbol { content: Span },
    /// `true`.
    True,
    /// `false`.
    False,
    /// `nil`.
    Nil,
    /// `self`.
    SelfRef,
    /// A method definition.
    Def {
        name_loc: Span,
        receiver: Option<Box<SyntaxNode>>,
        parameters: Option<Box<SyntaxNode>>,
        body: Option<Box<SyntaxNode>>,
    },
    /// The parameter list of a method or block.
    Parameters {
        requireds: Vec<SyntaxNode>,
        optionals: Vec<SyntaxNode>,
        rest: Option<Box<SyntaxNode>>,
        keywords: Vec<SyntaxNode>,
        keyword_rest: Option<Box<SyntaxNode>>,
        block: Option<Box<SyntaxNode>>,
    },
    /// A required positional parameter.
    RequiredParameter,
    /// `name = default`.
    OptionalParameter { name_loc: Span, value: Box<SyntaxNode> },
    /// `*name` or a bare `*`.
    RestParameter { name_loc: Option<Span> },
    /// `&block`.
    BlockParameter,
    /// A class definition.
    Class { constant_path: Box<SyntaxNode>, superclass: Option<Box<SyntaxNode>>, body: Option<Box<SyntaxNode>> },
    /// A module definition.
    Module { constant_path: Box<SyntaxNode>, body: Option<Box<SyntaxNode>> },
    /// `Parent::Name` or `::Name`.
    ConstantPath { parent: Option<Box<SyntaxNode>>, name: Option<Vec<u8>>, delimiter: Span, name_loc: Span },
    /// A constant read.
    ConstantRead,
    /// `name:` as a parameter.
    RequiredKeywordParameter { name_loc: Span },
    /// `name: default` as a parameter.
    OptionalKeywordParameter { name_loc: Span, value: Box<SyntaxNode> },
    /// `**name` or a bare `**`.
    KeywordRestParameter { name_loc: Option<Span> },
    /// `@name = value`.
    InstanceVariableWrite { name_loc: Span, value: Box<SyntaxNode> },
    /// `NAME = value`.
    ConstantWrite { name_loc: Span, value: Box<SyntaxNode> },
    /// `Parent::NAME = value`.
    ConstantPathWrite { target: Box<SyntaxNode>, value: Box<SyntaxNode> },
    /// `receiver.name op= value`.
    CallOperatorWrite { receiver: Option<Box<SyntaxNode>>, read_name: Vec<u8>, operator: Vec<u8>, value: Box<SyntaxNode> },
    /// `name op= value` for a local, constant, class, global or instance variable.
    VariableOperatorWrite { name_loc: Span, operator: Vec<u8>, value: Box<SyntaxNode> },
    /// `receiver[arguments] op= value`.
    IndexOperatorWrite {
        receiver: Option<Box<SyntaxNode>>,
        arguments: Option<Box<SyntaxNode>>,
        operator: Vec<u8>,
        value: Box<SyntaxNode>,
    },
    /// `Parent::NAME op= value`.
    ConstantPathOperatorWrite { target: Box<SyntaxNode>, operator: Vec<u8>, value: Box<SyntaxNode> },
    /// `name ||= value`.
    LocalVariableOrWrite { name_loc: Span, value: Box<SyntaxNode> },
    /// `name &&= value`.
    LocalVariableAndWrite { name_loc: Span, value: Box<SyntaxNode> },
    /// `a, b = value`.
    MultiWrite { lefts: Vec<SyntaxNode>, value: Box<SyntaxNode> },
    /// A local variable as an assignment target.
    LocalVariableTarget { name: Vec<u8> },
    /// `(a, *b, c)` as an assignment target.
    MultiTarget {
        lefts: Vec<SyntaxNode>,
        rest: Option<Box<SyntaxNode>>,
        rights: Vec<SyntaxNode>,
        lparen: Option<Span>,
        rparen: Option<Span>,
    },
    /// `*expression`.
    Splat { expression: Option<Box<SyntaxNode>> },
    /// `**value`.
    AssocSplat { value: Option<Box<SyntaxNode>> },
    /// `left..right` or `left...right`.
    Range { left: Option<Box<SyntaxNode>>, right: Option<Box<SyntaxNode>>, exclude_end: bool },
    /// `for index in collection ... end`.
    For { index: Box<SyntaxNode>, collection: Box<SyntaxNode>, statements: Option<Box<SyntaxNode>> },
    /// `->(params) { body }`.
    Lambda { opening: Span, parameters: Option<Box<SyntaxNode>>, body: Option<Box<SyntaxNode>> },
    /// A block `{ ... }` or `do ... end`.
    Block { opening: Span, parameters: Option<Box<SyntaxNode>>, body: Option<Box<SyntaxNode>>, closing: Span },
    /// `|params; locals|` of a block.
    BlockParameters { parameters: Option<Box<SyntaxNode>>, locals: Vec<SyntaxNode> },
    /// A block-local variable.
    BlockLocalVariable { name: Vec<u8> },
    /// A float, rational or imaginary literal.
    NumberLiteral,
    /// Any other node, with its child nodes in source order.
    Other { children: Vec<SyntaxNode> },
}

/// What the formatter works on: the source, the root of its syntax tree, and
/// the locations of its comments in source order.
#[derive(Debug)]
pub struct ParseResult {
    pub source: Vec<u8>,
    pub node: SyntaxNode,
    pub comments: Vec<Span>,
}

} // verus!
