//! Parsing: the source goes to the prism parser, and prism's syntax tree is
//! carried over, node by node, into the library's own tree.
//!
//! Nothing here is proved: the functions marked `external_body` below are the
//! body of `parse_with_prism`, cut into pieces small enough to read one at a
//! time.  Each piece reads one kind of prism node and moves its fields, one
//! for one, into the matching `Kind`; node kinds that the formatting rules do
//! not name become `Kind::Other` with their children in the order in which
//! prism's own visitor reaches them.
use vstd::prelude::*;
use ruby_prism::Visit;
use crate::syntax::{Kind, ParseResult, Span, SyntaxNode};
use crate::text::slice_to_vec_u8;

verus! {

#[verifier::external_type_specification]
#[verifier::external_body]
pub struct ExPrismNode<'pr>(ruby_prism::Node<'pr>);

#[verifier::external_type_specification]
#[verifier::external_body]
pub struct ExPrismLocation<'pr>(ruby_prism::Location<'pr>);

#[verifier::external_type_specification]
#[verifier::external_body]
pub struct ExPrismNodeList<'pr>(ruby_prism::NodeList<'pr>);

#[verifier::external_type_specification]
#[verifier::external_body]
pub struct ExPrismConstantId<'pr>(ruby_prism::ConstantId<'pr>);

#[verifier::external_type_specification]
#[verifier::external_body]
pub struct ExPrismStatementsNode<'pr>(ruby_prism::StatementsNode<'pr>);

#[verifier::external_type_specification]
#[verifier::external_body]
pub struct ExPrismElseNode<'pr>(ruby_prism::ElseNode<'pr>);

#[verifier::external_type_specification]
#[verifier::external_body]
pub struct ExPrismParametersNode<'pr>(ruby_prism::ParametersNode<'pr>);

#[verifier::external_type_specification]
#[verifier::external_body]
pub struct ExPrismArgumentsNode<'pr>(ruby_prism::ArgumentsNode<'pr>);

#[verifier::external_type_specification]
#[verifier::external_body]
pub struct ExPrismLocalVariableTargetNode<'pr>(ruby_prism::LocalVariableTargetNode<'pr>);

#[verifier::external_type_specification]
#[verifier::external_body]
pub struct ExPrismConstantPathNode<'pr>(ruby_prism::ConstantPathNode<'pr>);

#[verifier::external_type_specification]
#[verifier::external_body]
pub struct ExPrismSplatNode<'pr>(ruby_prism::SplatNode<'pr>);

#[verifier::external_type_specification]
#[verifier::external_body]
pub struct ExPrismBlockNode<'pr>(ruby_prism::BlockNode<'pr>);

#[verifier::external_type_specification]
#[verifier::external_body]
pub struct ExPrismCallNode<'pr>(ruby_prism::CallNode<'pr>);

/// What `ruby_prism::parse` makes of `source`, carried into the library's
/// form: the root of the syntax tree, and the locations of the comments in
/// source order.
pub uninterp spec fn prism_parse(source: Seq<u8>) -> (SyntaxNode, Seq<Span>);

/// Parses `source` with `ruby_prism::parse` and carries the tree and the
/// comment locations over.  The contract claims only that the result is what
/// prism makes of these bytes, the same for the same bytes.
#[verifier::external_body]
fn parse_with_prism(source: &[u8]) -> (r: (SyntaxNode, Vec<Span>))
    ensures
        (r.0, r.1@) == prism_parse(source@),
{
    let result = ruby_prism::parse(source);
    let root = convert(&result.node());
    let mut comments = Vec::new();
    for c in result.comments() {
        comments.push(span_of(&c.location()));
    }
    (root, comments)
}

/// Parses `source`: the result holds the source, the syntax tree and the
/// comment locations that the prism parser gives.
pub fn parse(source: &[u8]) -> (r: ParseResult)
    ensures
        r.source@ == source@,
        (r.node, r.comments@) == prism_parse(source@),
{
    let (node, comments) = parse_with_prism(source);
    ParseResult { source: slice_to_vec_u8(source), node, comments }
}

/// The byte range of a prism location.
#[verifier::external_body]
fn span_of(l: &ruby_prism::Location) -> Span {
    Span { start: l.start() as usize, end: l.end() as usize }
}

/// The byte range of a prism location that may be absent.
#[verifier::external_body]
fn opt_span(l: Option<ruby_prism::Location>) -> Option<Span> {
    l.map(|l| span_of(&l))
}

/// The bytes of an interned name.
#[verifier::external_body]
fn name_bytes(c: &ruby_prism::ConstantId) -> Vec<u8> {
    c.as_slice().to_vec()
}

/// A prism node in the library's form.
#[verifier::external_body]
fn convert(n: &ruby_prism::Node) -> SyntaxNode {
    SyntaxNode { loc: span_of(&n.location()), kind: kind_of(n) }
}

#[verifier::external_body]
fn boxed(n: &ruby_prism::Node) -> Box<SyntaxNode> {
    Box::new(convert(n))
}

#[verifier::external_body]
fn opt_boxed(n: Option<ruby_prism::Node>) -> Option<Box<SyntaxNode>> {
    n.map(|n| boxed(&n))
}

#[verifier::external_body]
fn list(l: &ruby_prism::NodeList) -> Vec<SyntaxNode> {
    let mut v = Vec::new();
    for n in l.iter() {
        v.push(convert(&n));
    }
    v
}

/// The kind of a prism node: the first converter that recognises it, or
/// `Kind::Other`.
#[verifier::external_body]
fn kind_of(n: &ruby_prism::Node) -> Kind {
    leaf_kind(n)
        .or_else(|| number_kind(n))
        .or_else(|| control_kind(n))
        .or_else(|| literal_kind(n))
        .or_else(|| definition_kind(n))
        .or_else(|| parameter_kind(n))
        .or_else(|| write_kind(n))
        .or_else(|| operator_write_kind(n))
        .or_else(|| target_kind(n))
        .unwrap_or_else(|| Kind::Other { children: other_children(n) })
}

#[verifier::external_body]
fn leaf_kind(n: &ruby_prism::Node) -> Option<Kind> {
    match n {
        ruby_prism::Node::IntegerNode { .. } => Some(Kind::Integer),
        ruby_prism::Node::StringNode { .. } => Some(Kind::Str),
        ruby_prism::Node::TrueNode { .. } => Some(Kind::True),
        ruby_prism::Node::FalseNode { .. } => Some(Kind::False),
        ruby_prism::Node::NilNode { .. } => Some(Kind::Nil),
        ruby_prism::Node::SelfNode { .. } => Some(Kind::SelfRef),
        _ => None,
    }
}

#[verifier::external_body]
fn number_kind(n: &ruby_prism::Node) -> Option<Kind> {
    match n {
        ruby_prism::Node::FloatNode { .. } => Some(Kind::NumberLiteral),
        ruby_prism::Node::RationalNode { .. } => Some(Kind::NumberLiteral),
        ruby_prism::Node::ImaginaryNode { .. } => Some(Kind::NumberLiteral),
        ruby_prism::Node::RequiredParameterNode { .. } => Some(Kind::RequiredParameter),
        ruby_prism::Node::BlockParameterNode { .. } => Some(Kind::BlockParameter),
        ruby_prism::Node::ConstantReadNode { .. } => Some(Kind::ConstantRead),
        _ => None,
    }
}

#[verifier::external_body]
fn control_kind(n: &ruby_prism::Node) -> Option<Kind> {
    statements_kind(n)
        .or_else(|| if_kind(n))
        .or_else(|| else_kind(n))
        .or_else(|| call_kind(n))
        .or_else(|| arguments_kind(n))
        .or_else(|| for_kind(n))
        .or_else(|| lambda_kind(n))
        .or_else(|| block_kind(n))
        .or_else(|| block_parameters_kind(n))
}

#[verifier::external_body]
fn literal_kind(n: &ruby_prism::Node) -> Option<Kind> {
    interpolated_string_kind(n)
        .or_else(|| embedded_statements_kind(n))
        .or_else(|| array_kind(n))
        .or_else(|| hash_kind(n))
        .or_else(|| assoc_kind(n))
        .or_else(|| keyword_hash_kind(n))
        .or_else(|| symbol_kind(n))
        .or_else(|| splat_kind(n))
        .or_else(|| assoc_splat_kind(n))
        .or_else(|| range_kind(n))
}

#[verifier::external_body]
fn definition_kind(n: &ruby_prism::Node) -> Option<Kind> {
    def_kind(n)
        .or_else(|| class_kind(n))
        .or_else(|| module_kind(n))
        .or_else(|| constant_path_kind(n))
        .or_else(|| local_variable_read_kind(n))
        .or_else(|| instance_variable_read_kind(n))
}

#[verifier::external_body]
fn parameter_kind(n: &ruby_prism::Node) -> Option<Kind> {
    parameters_kind(n)
        .or_else(|| optional_parameter_kind(n))
        .or_else(|| rest_parameter_kind(n))
        .or_else(|| required_keyword_parameter_kind(n))
        .or_else(|| optional_keyword_parameter_kind(n))
        .or_else(|| keyword_rest_parameter_kind(n))
        .or_else(|| block_local_variable_kind(n))
}

#[verifier::external_body]
fn write_kind(n: &ruby_prism::Node) -> Option<Kind> {
    local_variable_write_kind(n)
        .or_else(|| instance_variable_write_kind(n))
        .or_else(|| constant_write_kind(n))
        .or_else(|| constant_path_write_kind(n))
        .or_else(|| local_variable_or_write_kind(n))
        .or_else(|| local_variable_and_write_kind(n))
        .or_else(|| multi_write_kind(n))
}

#[verifier::external_body]
fn operator_write_kind(n: &ruby_prism::Node) -> Option<Kind> {
    call_operator_write_kind(n)
        .or_else(|| local_variable_operator_write_kind(n))
        .or_else(|| constant_operator_write_kind(n))
        .or_else(|| class_variable_operator_write_kind(n))
        .or_else(|| global_variable_operator_write_kind(n))
        .or_else(|| instance_variable_operator_write_kind(n))
        .or_else(|| index_operator_write_kind(n))
        .or_else(|| constant_path_operator_write_kind(n))
}

#[verifier::external_body]
fn target_kind(n: &ruby_prism::Node) -> Option<Kind> {
    local_variable_target_kind(n).or_else(|| multi_target_kind(n))
}

#[verifier::external_body]
fn statements_kind(n: &ruby_prism::Node) -> Option<Kind> {
    let x = n.as_statements_node()?;
    Some(Kind::Statements { body: list(&x.body()) })
}

#[verifier::external_body]
fn if_kind(n: &ruby_prism::Node) -> Option<Kind> {
    let x = n.as_if_node()?;
    Some(Kind::If {
        if_keyword: opt_span(x.if_keyword_loc()),
        predicate: boxed(&x.predicate()),
        statements: opt_boxed(x.statements().map(|s| s.as_node())),
        subsequent: opt_boxed(x.subsequent()),
        end_keyword: opt_span(x.end_keyword_loc()),
    })
}

#[verifier::external_body]
fn else_kind(n: &ruby_prism::Node) -> Option<Kind> {
    let x = n.as_else_node()?;
    Some(Kind::Else { statements: opt_boxed(x.statements().map(|s| s.as_node())) })
}

#[verifier::external_body]
fn call_kind(n: &ruby_prism::Node) -> Option<Kind> {
    let x = n.as_call_node()?;
    Some(Kind::Call {
        receiver: opt_boxed(x.receiver()),
        call_operator: opt_span(x.call_operator_loc()),
        name: name_bytes(&x.name()),
        message: opt_span(x.message_loc()),
        opening: opt_span(x.opening_loc()),
        arguments: opt_boxed(x.arguments().map(|a| a.as_node())),
        block: opt_boxed(x.block()),
    })
}

#[verifier::external_body]
fn arguments_kind(n: &ruby_prism::Node) -> Option<Kind> {
    let x = n.as_arguments_node()?;
    Some(Kind::Arguments { arguments: list(&x.arguments()) })
}

#[verifier::external_body]
fn for_kind(n: &ruby_prism::Node) -> Option<Kind> {
    let x = n.as_for_node()?;
    Some(Kind::For {
        index: boxed(&x.index()),
        collection: boxed(&x.collection()),
        statements: opt_boxed(x.statements().map(|s| s.as_node())),
    })
}

#[verifier::external_body]
fn lambda_kind(n: &ruby_prism::Node) -> Option<Kind> {
    let x = n.as_lambda_node()?;
    Some(Kind::Lambda {
        opening: span_of(&x.opening_loc()),
        parameters: opt_boxed(x.parameters()),
        body: opt_boxed(x.body()),
    })
}

#[verifier::external_body]
fn block_kind(n: &ruby_prism::Node) -> Option<Kind> {
    let x = n.as_block_node()?;
    Some(Kind::Block {
        opening: span_of(&x.opening_loc()),
        parameters: opt_boxed(x.parameters()),
        body: opt_boxed(x.body()),
        closing: span_of(&x.closing_loc()),
    })
}

#[verifier::external_body]
fn block_parameters_kind(n: &ruby_prism::Node) -> Option<Kind> {
    let x = n.as_block_parameters_node()?;
    Some(Kind::BlockParameters {
        parameters: opt_boxed(x.parameters().map(|p| p.as_node())),
        locals: list(&x.locals()),
    })
}

#[verifier::external_body]
fn interpolated_string_kind(n: &ruby_prism::Node) -> Option<Kind> {
    let x = n.as_interpolated_string_node()?;
    Some(Kind::InterpolatedStr { parts: list(&x.parts()) })
}

#[verifier::external_body]
fn embedded_statements_kind(n: &ruby_prism::Node) -> Option<Kind> {
    let x = n.as_embedded_statements_node()?;
    Some(Kind::EmbeddedStatements { statements: opt_boxed(x.statements().map(|s| s.as_node())) })
}

#[verifier::external_body]
fn array_kind(n: &ruby_prism::Node) -> Option<Kind> {
    let x = n.as_array_node()?;
    Some(Kind::Array {
        elements: list(&x.elements()),
        opening: opt_span(x.opening_loc()),
        closing: opt_span(x.closing_loc()),
    })
}

#[verifier::external_body]
fn hash_kind(n: &ruby_prism::Node) -> Option<Kind> {
    let x = n.as_hash_node()?;
    Some(Kind::Hash { elements: list(&x.elements()) })
}

#[verifier::external_body]
fn assoc_kind(n: &ruby_prism::Node) -> Option<Kind> {
    let x = n.as_assoc_node()?;
    Some(Kind::Assoc {
        key: boxed(&x.key()),
        value: boxed(&x.value()),
        operator: opt_span(x.operator_loc()),
    })
}

#[verifier::external_body]
fn keyword_hash_kind(n: &ruby_prism::Node) -> Option<Kind> {
    let x = n.as_keyword_hash_node()?;
    Some(Kind::KeywordHash { elements: list(&x.elements()) })
}

#[verifier::external_body]
fn symbol_kind(n: &ruby_prism::Node) -> Option<Kind> {
    let x = n.as_symbol_node()?;
    Some(Kind::Symbol { content: span_of(&x.content_loc()) })
}

#[verifier::external_body]
fn splat_kind(n: &ruby_prism::Node) -> Option<Kind> {
    let x = n.as_splat_node()?;
    Some(Kind::Splat { expression: opt_boxed(x.expression()) })
}

#[verifier::external_body]
fn assoc_splat_kind(n: &ruby_prism::Node) -> Option<Kind> {
    let x = n.as_assoc_splat_node()?;
    Some(Kind::AssocSplat { value: opt_boxed(x.value()) })
}

#[verifier::external_body]
fn range_kind(n: &ruby_prism::Node) -> Option<Kind> {
    let x = n.as_range_node()?;
    Some(Kind::Range {
        left: opt_boxed(x.left()),
        right: opt_boxed(x.right()),
        exclude_end: x.is_exclude_end(),
    })
}

#[verifier::external_body]
fn def_kind(n: &ruby_prism::Node) -> Option<Kind> {
    let x = n.as_def_node()?;
    Some(Kind::Def {
        name_loc: span_of(&x.name_loc()),
        receiver: opt_boxed(x.receiver()),
        parameters: opt_boxed(x.parameters().map(|p| p.as_node())),
        body: opt_boxed(x.body()),
    })
}

#[verifier::external_body]
fn class_kind(n: &ruby_prism::Node) -> Option<Kind> {
    let x = n.as_class_node()?;
    Some(Kind::Class {
        constant_path: boxed(&x.constant_path()),
        superclass: opt_boxed(x.superclass()),
        body: opt_boxed(x.body()),
    })
}

#[verifier::external_body]
fn module_kind(n: &ruby_prism::Node) -> Option<Kind> {
    let x = n.as_module_node()?;
    Some(Kind::Module { constant_path: boxed(&x.constant_path()), body: opt_boxed(x.body()) })
}

#[verifier::external_body]
fn constant_path_kind(n: &ruby_prism::Node) -> Option<Kind> {
    let x = n.as_constant_path_node()?;
    Some(Kind::ConstantPath {
        parent: opt_boxed(x.parent()),
        name: x.name().map(|c| name_bytes(&c)),
        delimiter: span_of(&x.delimiter_loc()),
        name_loc: span_of(&x.name_loc()),
    })
}

#[verifier::external_body]
fn local_variable_read_kind(n: &ruby_prism::Node) -> Option<Kind> {
    let x = n.as_local_variable_read_node()?;
    Some(Kind::LocalVariableRead { name: name_bytes(&x.name()) })
}

#[verifier::external_body]
fn instance_variable_read_kind(n: &ruby_prism::Node) -> Option<Kind> {
    let x = n.as_instance_variable_read_node()?;
    Some(Kind::InstanceVariableRead { name: name_bytes(&x.name()) })
}

#[verifier::external_body]
fn parameters_kind(n: &ruby_prism::Node) -> Option<Kind> {
    let x = n.as_parameters_node()?;
    Some(Kind::Parameters {
        requireds: list(&x.requireds()),
        optionals: list(&x.optionals()),
        rest: opt_boxed(x.rest()),
        keywords: list(&x.keywords()),
        keyword_rest: opt_boxed(x.keyword_rest()),
        block: opt_boxed(x.block()),
    })
}

#[verifier::external_body]
fn optional_parameter_kind(n: &ruby_prism::Node) -> Option<Kind> {
    let x = n.as_optional_parameter_node()?;
    Some(Kind::OptionalParameter { name_loc: span_of(&x.name_loc()), value: boxed(&x.value()) })
}

#[verifier::external_body]
fn rest_parameter_kind(n: &ruby_prism::Node) -> Option<Kind> {
    let x = n.as_rest_parameter_node()?;
    Some(Kind::RestParameter { name_loc: opt_span(x.name_loc()) })
}

#[verifier::external_body]
fn required_keyword_parameter_kind(n: &ruby_prism::Node) -> Option<Kind> {
    let x = n.as_required_keyword_parameter_node()?;
    Some(Kind::RequiredKeywordParameter { name_loc: span_of(&x.name_loc()) })
}

#[verifier::external_body]
fn optional_keyword_parameter_kind(n: &ruby_prism::Node) -> Option<Kind> {
    let x = n.as_optional_keyword_parameter_node()?;
    Some(Kind::OptionalKeywordParameter { name_loc: span_of(&x.name_loc()), value: boxed(&x.value()) })
}

#[verifier::external_body]
fn keyword_rest_parameter_kind(n: &ruby_prism::Node) -> Option<Kind> {
    let x = n.as_keyword_rest_parameter_node()?;
    Some(Kind::KeywordRestParameter { name_loc: opt_span(x.name_loc()) })
}

#[verifier::external_body]
fn block_local_variable_kind(n: &ruby_prism::Node) -> Option<Kind> {
    let x = n.as_block_local_variable_node()?;
    Some(Kind::BlockLocalVariable { name: name_bytes(&x.name()) })
}

#[verifier::external_body]
fn local_variable_write_kind(n: &ruby_prism::Node) -> Option<Kind> {
    let x = n.as_local_variable_write_node()?;
    Some(Kind::LocalVariableWrite {
        name: name_bytes(&x.name()),
        name_loc: span_of(&x.name_loc()),
        value: boxed(&x.value()),
    })
}

#[verifier::external_body]
fn instance_variable_write_kind(n: &ruby_prism::Node) -> Option<Kind> {
    let x = n.as_instance_variable_write_node()?;
    Some(Kind::InstanceVariableWrite { name_loc: span_of(&x.name_loc()), value: boxed(&x.value()) })
}

#[verifier::external_body]
fn constant_write_kind(n: &ruby_prism::Node) -> Option<Kind> {
    let x = n.as_constant_write_node()?;
    Some(Kind::ConstantWrite { name_loc: span_of(&x.name_loc()), value: boxed(&x.value()) })
}

#[verifier::external_body]
fn constant_path_write_kind(n: &ruby_prism::Node) -> Option<Kind> {
    let x = n.as_constant_path_write_node()?;
    Some(Kind::ConstantPathWrite { target: boxed(&x.target().as_node()), value: boxed(&x.value()) })
}

#[verifier::external_body]
fn local_variable_or_write_kind(n: &ruby_prism::Node) -> Option<Kind> {
    let x = n.as_local_variable_or_write_node()?;
    Some(Kind::LocalVariableOrWrite { name_loc: span_of(&x.name_loc()), value: boxed(&x.value()) })
}

#[verifier::external_body]
fn local_variable_and_write_kind(n: &ruby_prism::Node) -> Option<Kind> {
    let x = n.as_local_variable_and_write_node()?;
    Some(Kind::LocalVariableAndWrite { name_loc: span_of(&x.name_loc()), value: boxed(&x.value()) })
}

#[verifier::external_body]
fn multi_write_kind(n: &ruby_prism::Node) -> Option<Kind> {
    let x = n.as_multi_write_node()?;
    Some(Kind::MultiWrite { lefts: list(&x.lefts()), value: boxed(&x.value()) })
}

#[verifier::external_body]
fn call_operator_write_kind(n: &ruby_prism::Node) -> Option<Kind> {
    let x = n.as_call_operator_write_node()?;
    Some(Kind::CallOperatorWrite {
        receiver: opt_boxed(x.receiver()),
        read_name: name_bytes(&x.read_name()),
        operator: name_bytes(&x.binary_operator()),
        value: boxed(&x.value()),
    })
}

#[verifier::external_body]
fn local_variable_operator_write_kind(n: &ruby_prism::Node) -> Option<Kind> {
    let x = n.as_local_variable_operator_write_node()?;
    Some(Kind::VariableOperatorWrite {
        name_loc: span_of(&x.name_loc()),
        operator: name_bytes(&x.binary_operator()),
        value: boxed(&x.value()),
    })
}

#[verifier::external_body]
fn constant_operator_write_kind(n: &ruby_prism::Node) -> Option<Kind> {
    let x = n.as_constant_operator_write_node()?;
    Some(Kind::VariableOperatorWrite {
        name_loc: span_of(&x.name_loc()),
        operator: name_bytes(&x.binary_operator()),
        value: boxed(&x.value()),
    })
}

#[verifier::external_body]
fn class_variable_operator_write_kind(n: &ruby_prism::Node) -> Option<Kind> {
    let x = n.as_class_variable_operator_write_node()?;
    Some(Kind::VariableOperatorWrite {
        name_loc: span_of(&x.name_loc()),
        operator: name_bytes(&x.binary_operator()),
        value: boxed(&x.value()),
    })
}

#[verifier::external_body]
fn global_variable_operator_write_kind(n: &ruby_prism::Node) -> Option<Kind> {
    let x = n.as_global_variable_operator_write_node()?;
    Some(Kind::VariableOperatorWrite {
        name_loc: span_of(&x.name_loc()),
        operator: name_bytes(&x.binary_operator()),
        value: boxed(&x.value()),
    })
}

#[verifier::external_body]
fn instance_variable_operator_write_kind(n: &ruby_prism::Node) -> Option<Kind> {
    let x = n.as_instance_variable_operator_write_node()?;
    Some(Kind::VariableOperatorWrite {
        name_loc: span_of(&x.name_loc()),
        operator: name_bytes(&x.binary_operator()),
        value: boxed(&x.value()),
    })
}

#[verifier::external_body]
fn index_operator_write_kind(n: &ruby_prism::Node) -> Option<Kind> {
    let x = n.as_index_operator_write_node()?;
    Some(Kind::IndexOperatorWrite {
        receiver: opt_boxed(x.receiver()),
        arguments: opt_boxed(x.arguments().map(|a| a.as_node())),
        operator: name_bytes(&x.binary_operator()),
        value: boxed(&x.value()),
    })
}

#[verifier::external_body]
fn constant_path_operator_write_kind(n: &ruby_prism::Node) -> Option<Kind> {
    let x = n.as_constant_path_operator_write_node()?;
    Some(Kind::ConstantPathOperatorWrite {
        target: boxed(&x.target().as_node()),
        operator: name_bytes(&x.binary_operator()),
        value: boxed(&x.value()),
    })
}

#[verifier::external_body]
fn local_variable_target_kind(n: &ruby_prism::Node) -> Option<Kind> {
    let x = n.as_local_variable_target_node()?;
    Some(Kind::LocalVariableTarget { name: name_bytes(&x.name()) })
}

#[verifier::external_body]
fn multi_target_kind(n: &ruby_prism::Node) -> Option<Kind> {
    let x = n.as_multi_target_node()?;
    Some(Kind::MultiTarget {
        lefts: list(&x.lefts()),
        rest: opt_boxed(x.rest()),
        rights: list(&x.rights()),
        lparen: opt_span(x.lparen_loc()),
        rparen: opt_span(x.rparen_loc()),
    })
}

/// The children of a node of a kind that the rules do not name, in the
/// library's form.
#[verifier::external_body]
fn other_children(n: &ruby_prism::Node) -> Vec<SyntaxNode> {
    let mut c = Children { depth: 0, found: Vec::new() };
    c.visit(n);
    let mut v = Vec::new();
    for k in c.found.iter() {
        v.push(convert(k));
    }
    v
}

/// Collects the nodes that prism's visitor reaches one level below the node
/// it starts from.  Prism's visitor passes through some children without
/// announcing them (those of the node kinds below, where a field holds
/// exactly that kind); they are caught where they are visited.  A child that
/// is itself of a kind the rules do not name may be passed through the same
/// way; its own children then come in its place, in the same order.
struct Children<'pr> {
    depth: usize,
    found: Vec<ruby_prism::Node<'pr>>,
}

impl<'pr> Children<'pr> {
    /// A node visited without being announced: taken where it lies one level
    /// down.
    #[verifier::external_body]
    fn unannounced(&mut self, n: ruby_prism::Node<'pr>) {
        if self.depth == 1 {
            self.found.push(n);
        }
    }
}

impl<'pr> Visit<'pr> for Children<'pr> {
    #[verifier::external_body]
    fn visit_branch_node_enter(&mut self, node: ruby_prism::Node<'pr>) {
        if self.depth == 1 {
            self.found.push(node);
        }
        self.depth += 1;
    }

    #[verifier::external_body]
    fn visit_branch_node_leave(&mut self) {
        self.depth -= 1;
    }

    #[verifier::external_body]
    fn visit_leaf_node_enter(&mut self, node: ruby_prism::Node<'pr>) {
        if self.depth == 1 {
            self.found.push(node);
        }
        self.depth += 1;
    }

    #[verifier::external_body]
    fn visit_leaf_node_leave(&mut self) {
        self.depth -= 1;
    }

    #[verifier::external_body]
    fn visit_statements_node(&mut self, n: &ruby_prism::StatementsNode<'pr>) {
        self.unannounced(n.as_node());
    }

    #[verifier::external_body]
    fn visit_else_node(&mut self, n: &ruby_prism::ElseNode<'pr>) {
        self.unannounced(n.as_node());
    }

    #[verifier::external_body]
    fn visit_parameters_node(&mut self, n: &ruby_prism::ParametersNode<'pr>) {
        self.unannounced(n.as_node());
    }

    #[verifier::external_body]
    fn visit_arguments_node(&mut self, n: &ruby_prism::ArgumentsNode<'pr>) {
        self.unannounced(n.as_node());
    }

    #[verifier::external_body]
    fn visit_local_variable_target_node(&mut self, n: &ruby_prism::LocalVariableTargetNode<'pr>) {
        self.unannounced(n.as_node());
    }

    #[verifier::external_body]
    fn visit_constant_path_node(&mut self, n: &ruby_prism::ConstantPathNode<'pr>) {
        self.unannounced(n.as_node());
    }

    #[verifier::external_body]
    fn visit_splat_node(&mut self, n: &ruby_prism::SplatNode<'pr>) {
        self.unannounced(n.as_node());
    }

    #[verifier::external_body]
    fn visit_block_node(&mut self, n: &ruby_prism::BlockNode<'pr>) {
        self.unannounced(n.as_node());
    }

    #[verifier::external_body]
    fn visit_call_node(&mut self, n: &ruby_prism::CallNode<'pr>) {
        self.unannounced(n.as_node());
    }
}

} // verus!
