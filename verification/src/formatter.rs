//! The printer: walks a syntax tree and writes the formatted program.
//!
//! Every method that prints states, in its `ensures`, the state it leaves the
//! printer in as the rule of `crate::layout` applied to the state it found.
use vstd::prelude::*;
use vstd::string::*;
use vstd::utf8::*;
use crate::layout::{
    enter, fail, flush, fmt, format_all, initial, leave, lit, newline, preserve_blank, push, push_raw,
    push_utf8, spaces, Ctx, St,
};
use crate::parser::{parse, prism_parse};
use crate::syntax::{Kind, SyntaxNode, ParseResult, Span};
use crate::text::{
    comment_body, comment_body_exec, count_newlines, count_newlines_exec, lemma_ascii_byte_valid,
    lemma_ascii_run_valid, span_slice, span_text, str_from_utf8, string_from_utf8, LF,
};

mod folds;
mod nodes;
mod structure;

verus! {

/// What printing the program `source` comes to at the maximum width
/// `width`: the tree and the comments that the prism parser gives, printed.
pub open spec fn format_source(source: Seq<u8>, width: usize) -> St {
    format_all(source, prism_parse(source).0, prism_parse(source).1, width)
}

/// Formats `code` with lines broken at 80 columns.  Where the printer would
/// go wrong on it (see `format_parsed`) the caller must not call this;
/// `try_format_code` tells.
pub fn format_code(code: &str) -> (r: String)
    requires
        format_source(code.spec_bytes(), 80).ok,
    ensures
        encode_utf8(r@) == format_source(code.spec_bytes(), 80).out,
{
    let result = parse(code.as_bytes());
    match format_parsed(&result, 80) {
        Some(s) => s,
        None => String::new(),
    }
}

/// Formats `code` with lines broken at 80 columns, or gives `None` where the
/// printer would go wrong on it.
pub fn try_format_code(code: &str) -> (r: Option<String>)
    ensures
        r is Some <==> format_source(code.spec_bytes(), 80).ok,
        r matches Some(s) ==> encode_utf8(s@) == format_source(code.spec_bytes(), 80).out,
{
    let result = parse(code.as_bytes());
    if format_parsed(&result, 80).is_some() {
        Some(format_code(code))
    } else {
        None
    }
}

/// Formats a parse result with lines broken at `max_width` columns: the tree
/// printed, then the comments not printed within it.  `None` where printing
/// goes wrong: a token whose text must be UTF-8 is not, a location lies
/// outside the source or runs backwards, or the indentation is too deep to
/// count.
pub fn format_parsed(result: &ParseResult, max_width: usize) -> (r: Option<String>)
    ensures
        r is Some <==> format_all(result.source@, result.node, result.comments@, max_width).ok,
        r matches Some(s) ==> encode_utf8(s@) == format_all(
            result.source@,
            result.node,
            result.comments@,
            max_width,
        ).out,
{
    let mut f = Formatter::new(result, max_width);
    f.visit(&result.node);
    f.flush_comments(usize::MAX);
    if f.ok {
        proof {
            decode_utf8_encode_utf8(f.output@);
        }
        string_from_utf8(f.output)
    } else {
        None
    }
}

/// A printer over one parse result.
pub struct Formatter<'pr> {
    pub(crate) source: &'pr [u8],
    pub(crate) comments: &'pr [Span],
    pub(crate) output: Vec<u8>,
    pub(crate) indent_level: usize,
    pub(crate) next_comment: usize,
    pub(crate) last_source_pos: usize,
    pub(crate) max_width: usize,
    pub(crate) current_column: usize,
    pub(crate) ok: bool,
}

/// `after` is `before` advanced to the state `r`: the source, comments and
/// width are the same, the printer is well formed, and its state is `r`.
pub open spec fn advanced(before: Formatter, after: Formatter, r: St) -> bool {
    &&& after.wf()
    &&& after.ctx() == before.ctx()
    &&& after.st() == r
}

impl<'pr> Formatter<'pr> {
    /// The source, comments and maximum width the printer works with.
    pub open(crate) spec fn ctx(&self) -> Ctx {
        Ctx { src: self.source@, comments: self.comments@, width: self.max_width }
    }

    /// The printer's state.
    pub open(crate) spec fn st(&self) -> St {
        St {
            out: self.output@,
            indent: self.indent_level,
            col: self.current_column,
            last: self.last_source_pos,
            next: self.next_comment as nat,
            ok: self.ok,
        }
    }

    /// The output is valid UTF-8 and the comment cursor is within the comments.
    pub open(crate) spec fn wf(&self) -> bool {
        &&& valid_utf8(self.output@)
        &&& self.next_comment <= self.comments@.len()
    }

    /// A printer at the start of `result`, breaking lines that pass `max_width`.
    pub fn new(result: &'pr ParseResult, max_width: usize) -> (f: Self)
        ensures
            f.wf(),
            f.ctx() == (Ctx { src: result.source@, comments: result.comments@, width: max_width }),
            f.st() == initial(max_width),
    {
        let f = Formatter {
            source: result.source.as_slice(),
            comments: result.comments.as_slice(),
            output: Vec::new(),
            indent_level: 0,
            next_comment: 0,
            last_source_pos: 0,
            max_width,
            current_column: 0,
            ok: true,
        };
        proof {
            assert(valid_utf8(Seq::<u8>::empty()));
        }
        f
    }

    /// Whether printing has gone right so far.
    pub fn is_ok(&self) -> (r: bool)
        ensures
            r == self.st().ok,
    {
        self.ok
    }

    /// The output so far, as a string.
    pub fn output(&self) -> (s: &str)
        ensures
            self.wf() ==> s.spec_bytes() == self.st().out,
    {
        proof {
            if self.wf() {
                decode_utf8_encode_utf8(self.output@);
            }
        }
        match str_from_utf8(self.output.as_slice()) {
            Some(s) => s,
            None => "",
        }
    }

    /// The output so far, as bytes.
    pub fn output_bytes(&self) -> (b: &[u8])
        ensures
            b@ == self.st().out,
    {
        self.output.as_slice()
    }

    /// Appends bytes that are valid UTF-8, without moving the column.
    fn push_raw_bytes(&mut self, b: &[u8])
        requires
            old(self).wf(),
            valid_utf8(b@),
        ensures
            advanced(*old(self), *final(self), push_raw(old(self).st(), b@)),
    {
        let ghost out0 = self.output@;
        let mut i: usize = 0;
        while i < b.len()
            invariant
                i <= b@.len(),
                self.output@ == out0 + b@.take(i as int),
                self.source == old(self).source,
                self.comments == old(self).comments,
                self.max_width == old(self).max_width,
                self.indent_level == old(self).indent_level,
                self.current_column == old(self).current_column,
                self.last_source_pos == old(self).last_source_pos,
                self.next_comment == old(self).next_comment,
                self.ok == old(self).ok,
            decreases b@.len() - i,
        {
            self.output.push(b[i]);
            assert(out0 + b@.take(i + 1) =~= (out0 + b@.take(i as int)).push(b@[i as int]));
            i += 1;
        }
        assert(b@.take(b@.len() as int) =~= b@);
        proof {
            valid_utf8_concat(out0, b@);
        }
    }

    /// Appends bytes that are valid UTF-8, moving the column by the number of
    /// characters they hold.
    fn push_bytes(&mut self, b: &[u8])
        requires
            old(self).wf(),
            valid_utf8(b@),
        ensures
            advanced(*old(self), *final(self), push(old(self).st(), b@)),
    {
        self.push_raw_bytes(b);
        let n = crate::text::count_chars_exec(b);
        self.current_column = self.current_column.saturating_add(n);
    }

    /// Appends a string.
    fn push_str(&mut self, s: &str)
        requires
            old(self).wf(),
        ensures
            advanced(*old(self), *final(self), lit(old(self).st(), s)),
    {
        let b = s.as_bytes();
        proof {
            encode_utf8_valid_utf8(s@);
        }
        self.push_bytes(b);
    }

    /// Appends the text of a token that must be UTF-8; goes wrong where it is
    /// not.
    fn push_utf8(&mut self, b: &[u8])
        requires
            old(self).wf(),
        ensures
            advanced(*old(self), *final(self), push_utf8(old(self).st(), b@)),
    {
        match str_from_utf8(b) {
            Some(_) => self.push_bytes(b),
            None => {
                self.ok = false;
            },
        }
    }

    /// Starts a new line at the current indentation.
    fn newline(&mut self)
        requires
            old(self).wf(),
        ensures
            advanced(*old(self), *final(self), newline(old(self).st())),
    {
        let ghost out0 = self.output@;
        proof {
            lemma_ascii_byte_valid(LF);
            valid_utf8_concat(out0, seq![LF]);
        }
        self.output.push(LF);
        let n = self.indent_level;
        let mut k: usize = 0;
        while k < n
            invariant
                k <= n,
                n == self.indent_level,
                self.output@ == out0 + seq![LF] + spaces(2 * k as nat),
                self.source == old(self).source,
                self.comments == old(self).comments,
                self.max_width == old(self).max_width,
                self.indent_level == old(self).indent_level,
                self.current_column == old(self).current_column,
                self.last_source_pos == old(self).last_source_pos,
                self.next_comment == old(self).next_comment,
                self.ok == old(self).ok,
            decreases n - k,
        {
            self.output.push(32u8);
            self.output.push(32u8);
            assert(spaces(2 * k as nat).push(32u8).push(32u8) =~= spaces(2 * (k + 1) as nat));
            k += 1;
        }
        self.current_column = if self.indent_level > usize::MAX / 2 {
            usize::MAX
        } else {
            self.indent_level * 2
        };
        proof {
            lemma_ascii_run_valid(32u8, 2 * n as nat);
            assert(spaces(2 * n as nat) =~= Seq::new(2 * n as nat, |i: int| 32u8));
            valid_utf8_concat(out0 + seq![LF], spaces(2 * n as nat));
        }
    }

    /// One level deeper; goes wrong where the level would overflow.
    fn enter(&mut self)
        requires
            old(self).wf(),
        ensures
            advanced(*old(self), *final(self), enter(old(self).st())),
    {
        if self.indent_level == usize::MAX {
            self.ok = false;
        } else {
            self.indent_level = self.indent_level + 1;
        }
    }

    /// One level back.
    fn leave(&mut self)
        requires
            old(self).wf(),
        ensures
            advanced(*old(self), *final(self), leave(old(self).st())),
    {
        if self.indent_level > 0 {
            self.indent_level = self.indent_level - 1;
        }
    }

    /// Keeps one blank line where the source between `prev_end` and
    /// `next_start` holds more than one line feed.
    fn maybe_preserve_empty_line(&mut self, prev_end: usize, next_start: usize)
        requires
            old(self).wf(),
        ensures
            advanced(*old(self), *final(self), preserve_blank(old(self).ctx(), old(self).st(), prev_end, next_start)),
    {
        if prev_end >= next_start {
            return;
        }
        if next_start > self.source.len() {
            self.ok = false;
            return;
        }
        let gap = &self.source[prev_end..next_start];
        let n = count_newlines_exec(gap);
        if n > 1 {
            proof {
                lemma_ascii_byte_valid(LF);
                valid_utf8_concat(self.output@, seq![LF]);
                assert(self.output@ + seq![LF] =~= self.output@.push(LF));
            }
            self.output.push(LF);
            self.current_column = 0;
        }
    }

    /// Prints, each on a line of its own, the comments not yet printed that
    /// end at or before `offset`.
    fn flush_comments(&mut self, offset: usize)
        requires
            old(self).wf(),
        ensures
            advanced(*old(self), *final(self), flush(old(self).ctx(), old(self).st(), offset)),
    {
        let ghost ctx = self.ctx();
        let ghost goal = flush(ctx, self.st(), offset);
        while self.ok && self.next_comment < self.comments.len()
            && self.comments[self.next_comment].end <= offset
            invariant
                self.wf(),
                self.ctx() == ctx,
                ctx == old(self).ctx(),
                goal == flush(ctx, old(self).st(), offset),
                flush(ctx, self.st(), offset) == goal,
            decreases self.comments@.len() - self.next_comment,
        {
            let c = self.comments[self.next_comment];
            self.next_comment = self.next_comment + 1;
            let last = self.last_source_pos;
            self.maybe_preserve_empty_line(last, c.start);
            self.newline();
            self.push_str("# ");
            let body = comment_body_exec(span_slice(self.source, c));
            self.push_bytes(body.as_slice());
            self.last_source_pos = c.end;
        }
    }

    /// Prints a node.
    pub fn visit(&mut self, node: &SyntaxNode)
        requires
            old(self).wf(),
        ensures
            advanced(*old(self), *final(self), fmt(old(self).ctx(), old(self).st(), *node)),
        decreases node, 20int,
    {
        if !self.ok {
            return;
        }
        match &node.kind {
            Kind::Statements { body } => self.visit_statements(body),
            Kind::If { .. } => self.visit_if_node(node),
            Kind::Else { .. } => self.visit_else_node(node),
            Kind::Call { .. } => self.visit_call_node(node),
            Kind::Arguments { arguments } => self.visit_commas(arguments, false),
            Kind::Integer => self.visit_literal_text(node),
            Kind::Str => self.visit_literal_text(node),
            Kind::InterpolatedStr { .. } => self.visit_interpolated_string_node(node),
            Kind::EmbeddedStatements { .. } => self.visit_embedded_statements_node(node),
            Kind::LocalVariableWrite { .. } => self.visit_local_variable_write_node(node),
            Kind::LocalVariableRead { name } => self.push_latin1(name.as_slice()),
            Kind::InstanceVariableRead { name } => self.push_latin1(name.as_slice()),
            Kind::Array { .. } => self.visit_array_node(node),
            Kind::Hash { .. } => self.visit_hash_node(node),
            Kind::Assoc { .. } => self.visit_assoc_node(node),
            Kind::KeywordHash { elements } => self.visit_commas(elements, false),
            Kind::Symbol { .. } => self.visit_symbol_node(node),
            Kind::True => self.push_str("true"),
            Kind::False => self.push_str("false"),
            Kind::Nil => self.push_str("nil"),
            Kind::SelfRef => self.push_str("self"),
            Kind::Def { .. } => self.visit_def_node(node),
            Kind::Parameters { .. } => self.visit_parameters_node(node),
            Kind::RequiredParameter => self.push_utf8(span_slice(self.source, node.loc)),
            Kind::OptionalParameter { .. } => self.visit_optional_parameter_node(node),
            Kind::RestParameter { .. } => self.visit_rest_parameter_node(node),
            Kind::BlockParameter => self.push_utf8(span_slice(self.source, node.loc)),
            Kind::Class { .. } => self.visit_class_node(node),
            Kind::Module { .. } => self.visit_module_node(node),
            Kind::ConstantPath { .. } => self.visit_constant_path_node(node),
            Kind::ConstantRead => self.push_utf8(span_slice(self.source, node.loc)),
            Kind::RequiredKeywordParameter { name_loc } => self.push_utf8(span_slice(self.source, *name_loc)),
            Kind::OptionalKeywordParameter { .. } => self.visit_optional_keyword_parameter_node(node),
            Kind::KeywordRestParameter { .. } => self.visit_keyword_rest_parameter_node(node),
            Kind::InstanceVariableWrite { .. } => self.visit_named_write(node),
            Kind::ConstantWrite { .. } => self.visit_named_write(node),
            Kind::ConstantPathWrite { .. } => self.visit_constant_path_write_node(node),
            Kind::CallOperatorWrite { .. } => self.visit_call_operator_write_node(node),
            Kind::VariableOperatorWrite { .. } => self.visit_variable_operator_write(node),
            Kind::IndexOperatorWrite { .. } => self.visit_index_operator_write_node(node),
            Kind::ConstantPathOperatorWrite { .. } => self.visit_constant_path_operator_write_node(node),
            Kind::LocalVariableOrWrite { .. } => self.visit_logical_write(node),
            Kind::LocalVariableAndWrite { .. } => self.visit_logical_write(node),
            Kind::MultiWrite { .. } => self.visit_multi_write_node(node),
            Kind::LocalVariableTarget { name } => self.push_utf8_or(name.as_slice(), ""),
            Kind::MultiTarget { .. } => self.visit_multi_target_node(node),
            Kind::Splat { .. } => self.visit_splat_node(node),
            Kind::AssocSplat { .. } => self.visit_assoc_splat_node(node),
            Kind::Range { .. } => self.visit_range_node(node),
            Kind::For { .. } => self.visit_for_node(node),
            Kind::Lambda { .. } => self.visit_lambda_node(node),
            Kind::Block { .. } => self.visit_block_node(node),
            Kind::BlockParameters { .. } => self.visit_block_parameters_node(node),
            Kind::BlockLocalVariable { name } => self.push_utf8_or(name.as_slice(), ""),
            Kind::NumberLiteral => self.visit_number_node(node),
            Kind::Other { children } => self.visit_each(children),
        }
    }
}

} // verus!
