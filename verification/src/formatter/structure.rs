//! The printer's rules for the nodes that shape the layout: conditionals,
//! calls and call chains, arrays, definitions, parameter lists and blocks.
use vstd::prelude::*;
use vstd::string::*;
use crate::formatter::{advanced, Formatter};
use crate::layout::{
    array_width, chain_links, chain_root, fmt_array, fmt_block, fmt_call, fmt_class, fmt_def,
    fmt_if, fmt_parameters, full_if, header_len, single_call,
};
use crate::syntax::{Kind, SyntaxNode, Span};
use crate::text::{
    bytes_equal, contains_byte, is_binary_operator, is_binary_operator_exec, latin1_encode,
    span_len, span_slice, HASH,
};

verus! {

broadcast use crate::layout::group_stuck;

/// The number of bytes a span covers.
pub fn span_length(s: Span) -> (r: usize)
    ensures
        r == span_len(s),
{
    if s.start <= s.end {
        s.end - s.start
    } else {
        0
    }
}

/// The estimated width of a call chain's head: the receivers, call
/// operators, method names and argument lists, without blocks.
pub fn estimate_call_header_len(node: &SyntaxNode) -> (r: usize)
    ensures
        r == header_len(*node),
    decreases node,
{
    match &node.kind {
        Kind::Call { receiver, call_operator, message, opening, arguments, .. } => {
            let mut len: usize = 0;
            match receiver {
                Some(r) => {
                    len = match &r.kind {
                        Kind::Call { .. } => estimate_call_header_len(r),
                        _ => 0usize.saturating_add(span_length(r.loc)),
                    };
                    match call_operator {
                        Some(op) => {
                            len = len.saturating_add(span_length(*op));
                        },
                        None => {},
                    }
                },
                None => {},
            }
            match message {
                Some(m) => {
                    len = len.saturating_add(span_length(*m));
                },
                None => {},
            }
            match arguments {
                Some(args) => {
                    len = len.saturating_add(span_length(args.loc));
                    if opening.is_some() {
                        len = len.saturating_add(2);
                    }
                },
                None => {},
            }
            len
        },
        _ => 0,
    }
}

/// The estimated width of an array printed on one line.
fn array_width_exec(s: &Vec<SyntaxNode>) -> (r: usize)
    ensures
        r == array_width(s@, s@.len() as int),
{
    let k: usize = if s.len() >= 1 {
        s.len() - 1
    } else {
        0
    };
    let twice: usize = if k > usize::MAX / 2 {
        usize::MAX
    } else {
        2 * k
    };
    let mut acc: usize = 2usize.saturating_add(twice);
    let mut i: usize = 0;
    while i < s.len()
        invariant
            i <= s@.len(),
            acc == array_width(s@, i as int),
        decreases s@.len() - i,
    {
        acc = acc.saturating_add(span_length(s[i].loc));
        i += 1;
    }
    acc
}

impl<'pr> Formatter<'pr> {
    /// An `if` node: ternary, modifier or full form.
    pub(crate) fn visit_if_node(&mut self, node: &SyntaxNode)
        requires
            old(self).wf(),
            old(self).st().ok,
            node.kind is If,
        ensures
            advanced(*old(self), *final(self), fmt_if(old(self).ctx(), old(self).st(), *node)),
        decreases node, 15int,
    {
        match &node.kind {
            Kind::If { if_keyword, predicate, statements, subsequent, end_keyword } => {
                if if_keyword.is_none() {
                    self.visit(predicate);
                    self.push_str(" ? ");
                    match statements {
                        Some(s) => match &s.kind {
                            Kind::Statements { body } => {
                                if body.len() > 0 {
                                    self.visit(&body[0]);
                                }
                            },
                            _ => {},
                        },
                        None => {},
                    }
                    self.push_str(" : ");
                    match subsequent {
                        Some(e) => self.visit(e),
                        None => {},
                    }
                } else if end_keyword.is_none() {
                    match statements {
                        Some(s) => {
                            match &s.kind {
                                Kind::Statements { body } => {
                                    if body.len() > 0 {
                                        self.visit(&body[0]);
                                    }
                                },
                                _ => {},
                            }
                            self.push_str(" ");
                        },
                        None => {},
                    }
                    self.push_str("if ");
                    self.visit(predicate);
                } else {
                    self.format_normal_if(node);
                }
            },
            _ => {},
        }
    }

    /// An `if`/`elsif` with its body and branches, and (for the outermost
    /// `if`) its `end`.
    fn format_normal_if(&mut self, node: &SyntaxNode)
        requires
            old(self).wf(),
        ensures
            advanced(*old(self), *final(self), full_if(old(self).ctx(), old(self).st(), *node)),
        decreases node, 5int,
    {
        if !self.ok {
            return;
        }
        match &node.kind {
            Kind::If { if_keyword, predicate, statements, subsequent, .. } => {
                let kw: &[u8] = match if_keyword {
                    Some(k) => span_slice(self.source, *k),
                    None => "if".as_bytes(),
                };
                self.push_utf8(kw);
                self.push_str(" ");
                self.visit(predicate);
                match statements {
                    Some(s) => {
                        self.enter();
                        self.last_source_pos = predicate.loc.end;
                        self.visit(s);
                        self.leave();
                    },
                    None => {},
                }
                match subsequent {
                    Some(sub) => match &sub.kind {
                        Kind::If { .. } => {
                            self.newline();
                            self.format_normal_if(sub);
                        },
                        Kind::Else { statements: es } => {
                            self.newline();
                            self.push_str("else");
                            self.enter();
                            if sub.loc.start > usize::MAX - 4 {
                                self.ok = false;
                            } else {
                                self.last_source_pos = sub.loc.start + 4;
                            }
                            match es {
                                Some(e) => self.visit(e),
                                None => {},
                            }
                            self.leave();
                        },
                        _ => {},
                    },
                    None => {},
                }
                if bytes_equal(kw, "if".as_bytes()) {
                    self.newline();
                    self.push_str("end");
                }
            },
            _ => {},
        }
    }

    /// A call: a chain of calls is broken one call per line where its head
    /// would pass the maximum width.
    pub(crate) fn visit_call_node(&mut self, node: &SyntaxNode)
        requires
            old(self).wf(),
            old(self).st().ok,
            node.kind is Call,
        ensures
            advanced(*old(self), *final(self), fmt_call(old(self).ctx(), old(self).st(), *node)),
        decreases node, 15int,
    {
        let is_chain = match &node.kind {
            Kind::Call { receiver: Some(r), .. } => match &r.kind {
                Kind::Call { .. } => true,
                _ => false,
            },
            _ => false,
        };
        if is_chain && self.current_column.saturating_add(estimate_call_header_len(node))
            > self.max_width {
            self.chain_root(node);
            self.enter();
            self.chain_links(node);
            self.leave();
        } else {
            self.print_single_call(node, true);
        }
    }

    /// Prints the receiver at the root of a call chain, if there is one.
    fn chain_root(&mut self, node: &SyntaxNode)
        requires
            old(self).wf(),
        ensures
            advanced(*old(self), *final(self), chain_root(old(self).ctx(), old(self).st(), *node)),
        decreases node, 5int,
    {
        if !self.ok {
            return;
        }
        match &node.kind {
            Kind::Call { receiver: Some(r), .. } => match &r.kind {
                Kind::Call { .. } => self.chain_root(r),
                _ => self.visit(r),
            },
            _ => {},
        }
    }

    /// Prints each call of a chain on a line of its own, innermost first.
    fn chain_links(&mut self, node: &SyntaxNode)
        requires
            old(self).wf(),
        ensures
            advanced(*old(self), *final(self), chain_links(old(self).ctx(), old(self).st(), *node)),
        decreases node, 5int,
    {
        if !self.ok {
            return;
        }
        match &node.kind {
            Kind::Call { receiver, call_operator, .. } => {
                match receiver {
                    Some(r) => match &r.kind {
                        Kind::Call { .. } => self.chain_links(r),
                        _ => {},
                    },
                    None => {},
                }
                self.newline();
                match call_operator {
                    Some(op) => self.push_utf8(span_slice(self.source, *op)),
                    None => {},
                }
                self.print_single_call(node, false);
            },
            _ => {},
        }
    }

    /// Prints one call: receiver (where `with_receiver`), name, arguments and
    /// block.
    fn print_single_call(&mut self, node: &SyntaxNode, with_receiver: bool)
        requires
            old(self).wf(),
        ensures
            advanced(*old(self), *final(self), single_call(old(self).ctx(), old(self).st(), *node, with_receiver)),
        decreases node, 2int,
    {
        if !self.ok {
            return;
        }
        match &node.kind {
            Kind::Call { receiver, call_operator, name, opening, arguments, block, .. } => {
                match receiver {
                    Some(r) => {
                        if with_receiver {
                            self.visit(r);
                            match call_operator {
                                Some(op) => {
                                    let text = span_slice(self.source, *op);
                                    if crate::text::str_from_utf8(text).is_some() {
                                        self.push_bytes(text);
                                    } else {
                                        self.push_str(".");
                                    }
                                },
                                None => {},
                            }
                        }
                    },
                    None => {},
                }
                let nm = latin1_encode(name.as_slice());
                let index = bytes_equal(nm.as_slice(), "[]".as_bytes()) && call_operator.is_none();
                if index {
                    self.push_str("[");
                    match arguments {
                        Some(args) => self.visit(args),
                        None => {},
                    }
                    self.push_str("]");
                } else {
                    let is_op = is_binary_operator_exec(nm.as_slice());
                    if is_op {
                        self.push_str(" ");
                    }
                    self.push_bytes(nm.as_slice());
                    if is_op {
                        self.push_str(" ");
                    }
                    match arguments {
                        Some(args) => {
                            if opening.is_some() {
                                self.push_str("(");
                            } else if !is_op {
                                self.push_str(" ");
                            }
                            self.visit(args);
                            if opening.is_some() {
                                self.push_str(")");
                            }
                        },
                        None => {},
                    }
                }
                match block {
                    Some(bl) => {
                        self.push_str(" ");
                        self.visit(bl);
                    },
                    None => {},
                }
            },
            _ => {},
        }
    }

    /// An array literal: on one line, or one element per line where it holds a
    /// comment or would pass the maximum width.
    pub(crate) fn visit_array_node(&mut self, node: &SyntaxNode)
        requires
            old(self).wf(),
            old(self).st().ok,
            node.kind is Array,
        ensures
            advanced(*old(self), *final(self), fmt_array(old(self).ctx(), old(self).st(), *node)),
        decreases node, 15int,
    {
        match &node.kind {
            Kind::Array { elements, closing, .. } => {
                if elements.len() == 0 {
                    self.push_str("[]");
                    return;
                }
                let has_comments = contains_byte(span_slice(self.source, node.loc), HASH);
                let width = array_width_exec(elements);
                let broken = has_comments || self.current_column.saturating_add(width)
                    > self.max_width;
                self.push_str("[");
                if broken {
                    self.enter();
                    self.visit_array_items(elements);
                    self.flush_comments(node.loc.end);
                    self.leave();
                    let close = match closing {
                        Some(c) => c.start,
                        None => node.loc.end,
                    };
                    self.flush_comments(close);
                    let last = self.last_source_pos;
                    self.maybe_preserve_empty_line(last, close);
                    self.newline();
                } else {
                    self.visit_commas(elements, false);
                }
                self.last_source_pos = node.loc.end;
                self.push_str("]");
            },
            _ => {},
        }
    }

    /// A method definition.
    pub(crate) fn visit_def_node(&mut self, node: &SyntaxNode)
        requires
            old(self).wf(),
            old(self).st().ok,
            node.kind is Def,
        ensures
            advanced(*old(self), *final(self), fmt_def(old(self).ctx(), old(self).st(), *node)),
        decreases node, 15int,
    {
        match &node.kind {
            Kind::Def { name_loc, receiver, parameters, body } => {
                self.push_str("def ");
                match receiver {
                    Some(r) => {
                        self.visit(r);
                        self.push_str(".");
                    },
                    None => {},
                }
                self.push_utf8(span_slice(self.source, *name_loc));
                match parameters {
                    Some(p) => {
                        self.push_str("(");
                        self.visit(p);
                        self.push_str(")");
                    },
                    None => {},
                }
                match body {
                    Some(bd) => {
                        self.enter();
                        self.last_source_pos = match parameters {
                            Some(p) => p.loc.end,
                            None => name_loc.end,
                        };
                        self.visit(bd);
                        self.leave();
                    },
                    None => {},
                }
                self.newline();
                self.push_str("end");
                self.last_source_pos = node.loc.end;
            },
            _ => {},
        }
    }

    /// A parameter list: required, optional, rest, keyword, keyword rest and
    /// block parameters, separated by `", "`.
    pub(crate) fn visit_parameters_node(&mut self, node: &SyntaxNode)
        requires
            old(self).wf(),
            old(self).st().ok,
            node.kind is Parameters,
        ensures
            advanced(*old(self), *final(self), fmt_parameters(old(self).ctx(), old(self).st(), *node)),
        decreases node, 15int,
    {
        match &node.kind {
            Kind::Parameters { requireds, optionals, rest, keywords, keyword_rest, block } => {
                self.visit_commas(requireds, false);
                let l1 = requireds.len() > 0;
                self.visit_commas(optionals, l1);
                let l2 = l1 || optionals.len() > 0;
                match rest {
                    Some(r) => {
                        if l2 {
                            self.push_str(", ");
                        }
                        self.visit(r);
                    },
                    None => {},
                }
                let l3 = l2 || rest.is_some();
                self.visit_commas(keywords, l3);
                let l4 = l3 || keywords.len() > 0;
                match keyword_rest {
                    Some(r) => {
                        if l4 {
                            self.push_str(", ");
                        }
                        self.visit(r);
                    },
                    None => {},
                }
                let l5 = l4 || keyword_rest.is_some();
                match block {
                    Some(bl) => {
                        if l5 {
                            self.push_str(", ");
                        }
                        self.visit(bl);
                    },
                    None => {},
                }
            },
            _ => {},
        }
    }

    /// A class definition.
    pub(crate) fn visit_class_node(&mut self, node: &SyntaxNode)
        requires
            old(self).wf(),
            old(self).st().ok,
            node.kind is Class,
        ensures
            advanced(*old(self), *final(self), fmt_class(old(self).ctx(), old(self).st(), *node)),
        decreases node, 15int,
    {
        match &node.kind {
            Kind::Class { constant_path, superclass, body } => {
                self.push_str("class ");
                self.visit(constant_path);
                match superclass {
                    Some(s) => {
                        self.push_str(" < ");
                        self.visit(s);
                    },
                    None => {},
                }
                match body {
                    Some(bd) => {
                        self.enter();
                        self.last_source_pos = match superclass {
                            Some(s) => s.loc.end,
                            None => constant_path.loc.end,
                        };
                        self.visit(bd);
                        self.leave();
                    },
                    None => {},
                }
                self.newline();
                self.push_str("end");
                self.last_source_pos = node.loc.end;
            },
            _ => {},
        }
    }

    /// A block, `{ ... }` on one line or `do ... end` over several.
    pub(crate) fn visit_block_node(&mut self, node: &SyntaxNode)
        requires
            old(self).wf(),
            old(self).st().ok,
            node.kind is Block,
        ensures
            advanced(*old(self), *final(self), fmt_block(old(self).ctx(), old(self).st(), *node)),
        decreases node, 15int,
    {
        match &node.kind {
            Kind::Block { opening, parameters, body, closing } => {
                let open_text = span_slice(self.source, *opening);
                let open: &[u8] = if crate::text::str_from_utf8(open_text).is_some() {
                    open_text
                } else {
                    "".as_bytes()
                };
                proof {
                    encode_utf8_valid_utf8_str("");
                }
                self.push_bytes(open);
                match parameters {
                    Some(p) => {
                        self.push_str(" |");
                        self.visit(p);
                        self.push_str("|");
                    },
                    None => {},
                }
                match body {
                    Some(bd) => {
                        if bytes_equal(open, "do".as_bytes()) {
                            self.enter();
                            self.visit(bd);
                            self.leave();
                            self.newline();
                        } else {
                            self.push_str(" ");
                            self.visit(bd);
                            self.push_str(" ");
                        }
                    },
                    None => {},
                }
                let close_text = span_slice(self.source, *closing);
                self.push_utf8_or(close_text, "");
                self.last_source_pos = node.loc.end;
            },
            _ => {},
        }
    }
}

/// A string's bytes are valid UTF-8.
proof fn encode_utf8_valid_utf8_str(s: &str)
    ensures
        vstd::utf8::valid_utf8(s.spec_bytes()),
{
    vstd::utf8::encode_utf8_valid_utf8(s@);
}

} // verus!
