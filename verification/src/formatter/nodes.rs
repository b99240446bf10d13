//! The printer's rules for names, literals, assignments, parameters, hashes
//! and the other node kinds that print on one line.
use vstd::prelude::*;
use vstd::string::*;
use crate::formatter::{advanced, Formatter};
use crate::layout::{fmt, push};
use crate::syntax::{Kind, SyntaxNode};
use crate::text::{
    bytes_equal, contains_byte, latin1_encode, latin1_text, span_slice, str_from_utf8, utf8_or, COLON, LF,
};

verus! {

impl<'pr> Formatter<'pr> {
    /// Appends `b` where it is valid UTF-8, else `fallback`.
    pub(crate) fn push_utf8_or(&mut self, b: &[u8], fallback: &str)
        requires
            old(self).wf(),
        ensures
            advanced(*old(self), *final(self), push(old(self).st(), utf8_or(b@, fallback.spec_bytes()))),
    {
        if str_from_utf8(b).is_some() {
            self.push_bytes(b);
        } else {
            self.push_str(fallback);
        }
    }

    /// Appends the Latin-1 widening of `b`.
    pub(crate) fn push_latin1(&mut self, b: &[u8])
        requires
            old(self).wf(),
        ensures
            advanced(*old(self), *final(self), push(old(self).st(), latin1_text(b@))),
    {
        let enc = latin1_encode(b);
        self.push_bytes(enc.as_slice());
    }

    /// Integer and string literals: their source text, where it is UTF-8.
    pub(crate) fn visit_literal_text(&mut self, node: &SyntaxNode)
        requires
            old(self).wf(),
            old(self).st().ok,
            node.kind is Integer || node.kind is Str,
        ensures
            advanced(*old(self), *final(self), fmt(old(self).ctx(), old(self).st(), *node)),
    {
        let text = span_slice(self.source, node.loc);
        if str_from_utf8(text).is_some() {
            self.push_bytes(text);
        }
    }

    /// `else`: its statements.
    pub(crate) fn visit_else_node(&mut self, node: &SyntaxNode)
        requires
            old(self).wf(),
            old(self).st().ok,
            node.kind is Else,
        ensures
            advanced(*old(self), *final(self), fmt(old(self).ctx(), old(self).st(), *node)),
        decreases node, 15int,
    {
        match &node.kind {
            Kind::Else { statements } => match statements {
                Some(s) => self.visit(s),
                None => {},
            },
            _ => {},
        }
    }

    /// `#{...}` inside a string: its statements.
    pub(crate) fn visit_embedded_statements_node(&mut self, node: &SyntaxNode)
        requires
            old(self).wf(),
            old(self).st().ok,
            node.kind is EmbeddedStatements,
        ensures
            advanced(*old(self), *final(self), fmt(old(self).ctx(), old(self).st(), *node)),
        decreases node, 15int,
    {
        match &node.kind {
            Kind::EmbeddedStatements { statements } => match statements {
                Some(s) => self.visit(s),
                None => {},
            },
            _ => {},
        }
    }

    /// A string with interpolation.
    pub(crate) fn visit_interpolated_string_node(&mut self, node: &SyntaxNode)
        requires
            old(self).wf(),
            old(self).st().ok,
            node.kind is InterpolatedStr,
        ensures
            advanced(*old(self), *final(self), fmt(old(self).ctx(), old(self).st(), *node)),
        decreases node, 15int,
    {
        match &node.kind {
            Kind::InterpolatedStr { parts } => {
                self.push_str("\"");
                self.visit_str_parts(parts);
                self.push_str("\"");
                self.last_source_pos = node.loc.end;
            },
            _ => {},
        }
    }

    /// `name = value` for a local variable.
    pub(crate) fn visit_local_variable_write_node(&mut self, node: &SyntaxNode)
        requires
            old(self).wf(),
            old(self).st().ok,
            node.kind is LocalVariableWrite,
        ensures
            advanced(*old(self), *final(self), fmt(old(self).ctx(), old(self).st(), *node)),
        decreases node, 15int,
    {
        match &node.kind {
            Kind::LocalVariableWrite { name, name_loc, value } => {
                self.push_latin1(name.as_slice());
                self.push_str(" = ");
                self.last_source_pos = name_loc.end;
                self.visit(value);
            },
            _ => {},
        }
    }

    /// A hash literal: one pair per line where it has more than two pairs or
    /// its source spans several lines, else on one line.
    pub(crate) fn visit_hash_node(&mut self, node: &SyntaxNode)
        requires
            old(self).wf(),
            old(self).st().ok,
            node.kind is Hash,
        ensures
            advanced(*old(self), *final(self), fmt(old(self).ctx(), old(self).st(), *node)),
        decreases node, 15int,
    {
        match &node.kind {
            Kind::Hash { elements } => {
                self.flush_comments(node.loc.start);
                if elements.len() == 0 {
                    self.push_str("{}");
                } else {
                    self.push_str("{");
                    let multiline = contains_byte(span_slice(self.source, node.loc), LF);
                    if elements.len() > 2 || multiline {
                        self.enter();
                        self.visit_hash_items(elements);
                        self.leave();
                        self.newline();
                    } else {
                        self.push_str(" ");
                        self.visit_commas(elements, false);
                        self.push_str(" ");
                    }
                    self.push_str("}");
                }
            },
            _ => {},
        }
    }

    /// A `key => value` or `key: value` pair.
    pub(crate) fn visit_assoc_node(&mut self, node: &SyntaxNode)
        requires
            old(self).wf(),
            old(self).st().ok,
            node.kind is Assoc,
        ensures
            advanced(*old(self), *final(self), fmt(old(self).ctx(), old(self).st(), *node)),
        decreases node, 15int,
    {
        match &node.kind {
            Kind::Assoc { key, value, operator } => {
                self.visit(key);
                if key.loc.end == value.loc.end {
                    self.push_str(":");
                } else {
                    match operator {
                        Some(op) => {
                            let text = span_slice(self.source, *op);
                            let is_label = match str_from_utf8(text) {
                                Some(_) => bytes_equal(text, ":".as_bytes()),
                                None => bytes_equal("=>".as_bytes(), ":".as_bytes()),
                            };
                            if is_label {
                                self.push_str(": ");
                            } else {
                                self.push_str(" => ");
                            }
                        },
                        None => {
                            self.push_str(": ");
                        },
                    }
                    self.visit(value);
                }
            },
            _ => {},
        }
    }

    /// A symbol: as written where it starts with `:`, else the bare name.
    pub(crate) fn visit_symbol_node(&mut self, node: &SyntaxNode)
        requires
            old(self).wf(),
            old(self).st().ok,
            node.kind is Symbol,
        ensures
            advanced(*old(self), *final(self), fmt(old(self).ctx(), old(self).st(), *node)),
    {
        match &node.kind {
            Kind::Symbol { content } => {
                let text = span_slice(self.source, node.loc);
                if text.len() > 0 && text[0] == COLON {
                    self.push_utf8_or(text, "");
                } else {
                    self.push_latin1(span_slice(self.source, *content));
                }
            },
            _ => {},
        }
    }

    /// `name = default` as a parameter.
    pub(crate) fn visit_optional_parameter_node(&mut self, node: &SyntaxNode)
        requires
            old(self).wf(),
            old(self).st().ok,
            node.kind is OptionalParameter,
        ensures
            advanced(*old(self), *final(self), fmt(old(self).ctx(), old(self).st(), *node)),
        decreases node, 15int,
    {
        match &node.kind {
            Kind::OptionalParameter { name_loc, value } => {
                self.push_utf8(span_slice(self.source, *name_loc));
                self.push_str(" = ");
                self.last_source_pos = name_loc.end;
                self.visit(value);
            },
            _ => {},
        }
    }

    /// `*name` as a parameter.
    pub(crate) fn visit_rest_parameter_node(&mut self, node: &SyntaxNode)
        requires
            old(self).wf(),
            old(self).st().ok,
            node.kind is RestParameter,
        ensures
            advanced(*old(self), *final(self), fmt(old(self).ctx(), old(self).st(), *node)),
    {
        match &node.kind {
            Kind::RestParameter { name_loc } => {
                self.push_str("*");
                match name_loc {
                    Some(l) => self.push_utf8(span_slice(self.source, *l)),
                    None => {},
                }
            },
            _ => {},
        }
    }

    /// A module definition.
    pub(crate) fn visit_module_node(&mut self, node: &SyntaxNode)
        requires
            old(self).wf(),
            old(self).st().ok,
            node.kind is Module,
        ensures
            advanced(*old(self), *final(self), fmt(old(self).ctx(), old(self).st(), *node)),
        decreases node, 15int,
    {
        match &node.kind {
            Kind::Module { constant_path, body } => {
                self.push_str("module ");
                self.visit(constant_path);
                match body {
                    Some(bd) => {
                        self.enter();
                        self.last_source_pos = constant_path.loc.end;
                        self.visit(bd);
                        self.leave();
                    },
                    None => {},
                }
                self.newline();
                self.push_str("end");
                self.last_source_pos = node.loc.end;
            },
            _ => {},
        }
    }

    /// `Parent::Name` or `::Name`.
    pub(crate) fn visit_constant_path_node(&mut self, node: &SyntaxNode)
        requires
            old(self).wf(),
            old(self).st().ok,
            node.kind is ConstantPath,
        ensures
            advanced(*old(self), *final(self), fmt(old(self).ctx(), old(self).st(), *node)),
        decreases node, 15int,
    {
        match &node.kind {
            Kind::ConstantPath { parent, name, delimiter, name_loc } => {
                match parent {
                    Some(p) => {
                        self.visit(p);
                        self.push_str("::");
                    },
                    None => {
                        if delimiter.start != name_loc.start {
                            self.push_str("::");
                        }
                    },
                }
                match name {
                    Some(nm) => self.push_latin1(nm.as_slice()),
                    None => {},
                }
            },
            _ => {},
        }
    }

    /// `name: default` as a parameter.
    pub(crate) fn visit_optional_keyword_parameter_node(&mut self, node: &SyntaxNode)
        requires
            old(self).wf(),
            old(self).st().ok,
            node.kind is OptionalKeywordParameter,
        ensures
            advanced(*old(self), *final(self), fmt(old(self).ctx(), old(self).st(), *node)),
        decreases node, 15int,
    {
        match &node.kind {
            Kind::OptionalKeywordParameter { name_loc, value } => {
                self.push_utf8(span_slice(self.source, *name_loc));
                self.push_str(" ");
                self.visit(value);
            },
            _ => {},
        }
    }

    /// `**name` as a parameter.
    pub(crate) fn visit_keyword_rest_parameter_node(&mut self, node: &SyntaxNode)
        requires
            old(self).wf(),
            old(self).st().ok,
            node.kind is KeywordRestParameter,
        ensures
            advanced(*old(self), *final(self), fmt(old(self).ctx(), old(self).st(), *node)),
    {
        match &node.kind {
            Kind::KeywordRestParameter { name_loc } => {
                self.push_str("**");
                match name_loc {
                    Some(l) => self.push_utf8(span_slice(self.source, *l)),
                    None => {},
                }
            },
            _ => {},
        }
    }

    /// `@name = value` and `NAME = value`.
    pub(crate) fn visit_named_write(&mut self, node: &SyntaxNode)
        requires
            old(self).wf(),
            old(self).st().ok,
            node.kind is InstanceVariableWrite || node.kind is ConstantWrite,
        ensures
            advanced(*old(self), *final(self), fmt(old(self).ctx(), old(self).st(), *node)),
        decreases node, 15int,
    {
        match &node.kind {
            Kind::InstanceVariableWrite { name_loc, value } | Kind::ConstantWrite { name_loc, value } => {
                self.push_utf8(span_slice(self.source, *name_loc));
                self.push_str(" = ");
                self.visit(value);
            },
            _ => {},
        }
    }

    /// `Parent::NAME = value`.
    pub(crate) fn visit_constant_path_write_node(&mut self, node: &SyntaxNode)
        requires
            old(self).wf(),
            old(self).st().ok,
            node.kind is ConstantPathWrite,
        ensures
            advanced(*old(self), *final(self), fmt(old(self).ctx(), old(self).st(), *node)),
        decreases node, 15int,
    {
        match &node.kind {
            Kind::ConstantPathWrite { target, value } => {
                self.visit(target);
                self.push_str(" = ");
                self.visit(value);
            },
            _ => {},
        }
    }

    /// `receiver.name op= value`.
    pub(crate) fn visit_call_operator_write_node(&mut self, node: &SyntaxNode)
        requires
            old(self).wf(),
            old(self).st().ok,
            node.kind is CallOperatorWrite,
        ensures
            advanced(*old(self), *final(self), fmt(old(self).ctx(), old(self).st(), *node)),
        decreases node, 15int,
    {
        match &node.kind {
            Kind::CallOperatorWrite { receiver, read_name, operator, value } => {
                match receiver {
                    Some(r) => {
                        self.visit(r);
                        self.push_str(".");
                    },
                    None => {},
                }
                self.push_utf8_or(read_name.as_slice(), "");
                self.push_str(" ");
                self.push_utf8_or(operator.as_slice(), "");
                self.push_str("= ");
                self.visit(value);
            },
            _ => {},
        }
    }

    /// `name op= value` for local, constant, class, global and instance
    /// variables.
    pub(crate) fn visit_variable_operator_write(&mut self, node: &SyntaxNode)
        requires
            old(self).wf(),
            old(self).st().ok,
            node.kind is VariableOperatorWrite,
        ensures
            advanced(*old(self), *final(self), fmt(old(self).ctx(), old(self).st(), *node)),
        decreases node, 15int,
    {
        match &node.kind {
            Kind::VariableOperatorWrite { name_loc, operator, value } => {
                self.push_utf8_or(span_slice(self.source, *name_loc), "");
                self.push_str(" ");
                self.push_utf8_or(operator.as_slice(), "");
                self.push_str("= ");
                self.visit(value);
            },
            _ => {},
        }
    }

    /// `receiver[arguments] op= value`.
    pub(crate) fn visit_index_operator_write_node(&mut self, node: &SyntaxNode)
        requires
            old(self).wf(),
            old(self).st().ok,
            node.kind is IndexOperatorWrite,
        ensures
            advanced(*old(self), *final(self), fmt(old(self).ctx(), old(self).st(), *node)),
        decreases node, 15int,
    {
        match &node.kind {
            Kind::IndexOperatorWrite { receiver, arguments, operator, value } => {
                match receiver {
                    Some(r) => self.visit(r),
                    None => {},
                }
                self.push_str("[");
                match arguments {
                    Some(a) => self.visit(a),
                    None => {},
                }
                self.push_str("]");
                self.push_str(" ");
                self.push_utf8_or(operator.as_slice(), "");
                self.push_str("= ");
                self.visit(value);
            },
            _ => {},
        }
    }

    /// `Parent::NAME op= value`.
    pub(crate) fn visit_constant_path_operator_write_node(&mut self, node: &SyntaxNode)
        requires
            old(self).wf(),
            old(self).st().ok,
            node.kind is ConstantPathOperatorWrite,
        ensures
            advanced(*old(self), *final(self), fmt(old(self).ctx(), old(self).st(), *node)),
        decreases node, 15int,
    {
        match &node.kind {
            Kind::ConstantPathOperatorWrite { target, operator, value } => {
                self.visit(target);
                self.push_str(" ");
                self.push_utf8_or(operator.as_slice(), "");
                self.push_str("= ");
                self.visit(value);
            },
            _ => {},
        }
    }

    /// `name ||= value` and `name &&= value`.
    pub(crate) fn visit_logical_write(&mut self, node: &SyntaxNode)
        requires
            old(self).wf(),
            old(self).st().ok,
            node.kind is LocalVariableOrWrite || node.kind is LocalVariableAndWrite,
        ensures
            advanced(*old(self), *final(self), fmt(old(self).ctx(), old(self).st(), *node)),
        decreases node, 15int,
    {
        match &node.kind {
            Kind::LocalVariableOrWrite { name_loc, value } => {
                self.push_utf8_or(span_slice(self.source, *name_loc), "");
                self.push_str(" ||= ");
                self.visit(value);
            },
            Kind::LocalVariableAndWrite { name_loc, value } => {
                self.push_utf8_or(span_slice(self.source, *name_loc), "");
                self.push_str(" &&= ");
                self.visit(value);
            },
            _ => {},
        }
    }

    /// `a, b = value`: a bracketless array on the right is printed without
    /// brackets.
    pub(crate) fn visit_multi_write_node(&mut self, node: &SyntaxNode)
        requires
            old(self).wf(),
            old(self).st().ok,
            node.kind is MultiWrite,
        ensures
            advanced(*old(self), *final(self), fmt(old(self).ctx(), old(self).st(), *node)),
        decreases node, 15int,
    {
        match &node.kind {
            Kind::MultiWrite { lefts, value } => {
                self.visit_commas(lefts, false);
                self.push_str(" = ");
                match &value.kind {
                    Kind::Array { elements, opening, .. } => {
                        if opening.is_some() {
                            self.visit(value);
                        } else {
                            self.visit_commas(elements, false);
                        }
                    },
                    _ => self.visit(value),
                }
            },
            _ => {},
        }
    }

    /// `(a, *b, c)` as an assignment target.
    pub(crate) fn visit_multi_target_node(&mut self, node: &SyntaxNode)
        requires
            old(self).wf(),
            old(self).st().ok,
            node.kind is MultiTarget,
        ensures
            advanced(*old(self), *final(self), fmt(old(self).ctx(), old(self).st(), *node)),
        decreases node, 15int,
    {
        match &node.kind {
            Kind::MultiTarget { lefts, rest, rights, lparen, rparen } => {
                if lparen.is_some() {
                    self.push_str("(");
                }
                self.visit_commas(lefts, false);
                match rest {
                    Some(r) => {
                        if lefts.len() > 0 {
                            self.push_str(", ");
                        }
                        self.visit(r);
                    },
                    None => {},
                }
                self.visit_commas(rights, true);
                if rparen.is_some() {
                    self.push_str(")");
                }
            },
            _ => {},
        }
    }

    /// `*expression`.
    pub(crate) fn visit_splat_node(&mut self, node: &SyntaxNode)
        requires
            old(self).wf(),
            old(self).st().ok,
            node.kind is Splat,
        ensures
            advanced(*old(self), *final(self), fmt(old(self).ctx(), old(self).st(), *node)),
        decreases node, 15int,
    {
        match &node.kind {
            Kind::Splat { expression } => {
                self.push_str("*");
                match expression {
                    Some(e) => self.visit(e),
                    None => {},
                }
            },
            _ => {},
        }
    }

    /// `**value`.
    pub(crate) fn visit_assoc_splat_node(&mut self, node: &SyntaxNode)
        requires
            old(self).wf(),
            old(self).st().ok,
            node.kind is AssocSplat,
        ensures
            advanced(*old(self), *final(self), fmt(old(self).ctx(), old(self).st(), *node)),
        decreases node, 15int,
    {
        match &node.kind {
            Kind::AssocSplat { value } => {
                self.push_str("**");
                match value {
                    Some(v) => self.visit(v),
                    None => {},
                }
            },
            _ => {},
        }
    }

    /// `left..right` and `left...right`.
    pub(crate) fn visit_range_node(&mut self, node: &SyntaxNode)
        requires
            old(self).wf(),
            old(self).st().ok,
            node.kind is Range,
        ensures
            advanced(*old(self), *final(self), fmt(old(self).ctx(), old(self).st(), *node)),
        decreases node, 15int,
    {
        match &node.kind {
            Kind::Range { left, right, exclude_end } => {
                match left {
                    Some(l) => self.visit(l),
                    None => {},
                }
                if *exclude_end {
                    self.push_str("...");
                } else {
                    self.push_str("..");
                }
                match right {
                    Some(r) => self.visit(r),
                    None => {},
                }
            },
            _ => {},
        }
    }

    /// `for index in collection ... end`.
    pub(crate) fn visit_for_node(&mut self, node: &SyntaxNode)
        requires
            old(self).wf(),
            old(self).st().ok,
            node.kind is For,
        ensures
            advanced(*old(self), *final(self), fmt(old(self).ctx(), old(self).st(), *node)),
        decreases node, 15int,
    {
        match &node.kind {
            Kind::For { index, collection, statements } => {
                self.push_str("for ");
                self.visit(index);
                self.push_str(" in ");
                self.visit(collection);
                self.enter();
                match statements {
                    Some(s) => self.visit(s),
                    None => {},
                }
                self.leave();
                self.newline();
                self.push_str("end");
                self.last_source_pos = node.loc.end;
            },
            _ => {},
        }
    }

    /// `->(params) { body }`.
    pub(crate) fn visit_lambda_node(&mut self, node: &SyntaxNode)
        requires
            old(self).wf(),
            old(self).st().ok,
            node.kind is Lambda,
        ensures
            advanced(*old(self), *final(self), fmt(old(self).ctx(), old(self).st(), *node)),
        decreases node, 15int,
    {
        match &node.kind {
            Kind::Lambda { opening, parameters, body } => {
                self.push_str("->");
                match parameters {
                    Some(p) => {
                        let parens = opening.start != opening.end;
                        if parens {
                            self.push_str("(");
                        } else {
                            self.push_str(" ");
                        }
                        self.visit(p);
                        if parens {
                            self.push_str(")");
                        }
                    },
                    None => {},
                }
                self.push_str(" ");
                match body {
                    Some(bd) => {
                        self.push_str("{");
                        self.enter();
                        self.visit(bd);
                        self.leave();
                        self.newline();
                        self.push_str("}");
                    },
                    None => {
                        self.push_str("{}");
                    },
                }
                self.last_source_pos = node.loc.end;
            },
            _ => {},
        }
    }

    /// `|params; locals|` of a block.
    pub(crate) fn visit_block_parameters_node(&mut self, node: &SyntaxNode)
        requires
            old(self).wf(),
            old(self).st().ok,
            node.kind is BlockParameters,
        ensures
            advanced(*old(self), *final(self), fmt(old(self).ctx(), old(self).st(), *node)),
        decreases node, 15int,
    {
        match &node.kind {
            Kind::BlockParameters { parameters, locals } => {
                match parameters {
                    Some(p) => self.visit(p),
                    None => {},
                }
                if locals.len() > 0 {
                    self.push_str("; ");
                    self.visit_commas(locals, false);
                }
            },
            _ => {},
        }
    }

    /// Float, rational and imaginary literals: their source text, which must
    /// be UTF-8.
    pub(crate) fn visit_number_node(&mut self, node: &SyntaxNode)
        requires
            old(self).wf(),
            old(self).st().ok,
            node.kind is NumberLiteral,
        ensures
            advanced(*old(self), *final(self), fmt(old(self).ctx(), old(self).st(), *node)),
    {
        self.push_utf8(span_slice(self.source, node.loc));
        self.last_source_pos = node.loc.end;
    }
}

} // verus!
