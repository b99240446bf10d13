//! What holds of every printing step, whatever the tree: the printer only
//! appends to its output, reads the comments in order and each at most once,
//! and leaves the indentation as it found it; and a whole program, once
//! printed without going wrong, has had every one of its comments printed.
use vstd::prelude::*;
use vstd::string::*;
use crate::layout::{
    array_items, chain_links, chain_root, commas, each, flush, fmt, fmt_array, fmt_block, fmt_call,
    fmt_class, fmt_def, fmt_if, fmt_parameters, format_all, full_if, hash_items, initial,
    single_call, statements, str_parts, Ctx, St,
};
use crate::syntax::{Kind, Span, SyntaxNode};

verus! {

/// `b` is a state that printing can lead to from `a`: the output of `a` is
/// kept as the start of the output of `b`, no comment is taken back, the
/// comment cursor stays within the comments, and where `b` has not gone wrong
/// neither had `a`, and the indentation is the same.
pub open spec fn keeps(ctx: Ctx, a: St, b: St) -> bool {
    &&& a.out.len() <= b.out.len()
    &&& forall|i: int| 0 <= i < a.out.len() ==> #[trigger] b.out[i] == a.out[i]
    &&& a.next <= b.next
    &&& a.next <= ctx.comments.len() ==> b.next <= ctx.comments.len()
    &&& b.ok ==> a.ok && b.indent == a.indent
}

/// Printing a node only appends to the output: what had been printed before
/// stays, unchanged, at its start.
pub proof fn law_output_only_grows(ctx: Ctx, st: St, n: SyntaxNode)
    ensures
        st.out.is_prefix_of(fmt(ctx, st, n).out),
{
    lemma_fmt_keeps(ctx, st, n);
    assert(st.out =~= fmt(ctx, st, n).out.subrange(0, st.out.len() as int));
}

/// Printing a node leaves the indentation as it found it, unless printing
/// went wrong; and where it did not go wrong, nothing before it had.
pub proof fn law_indentation_restored(ctx: Ctx, st: St, n: SyntaxNode)
    ensures
        fmt(ctx, st, n).ok ==> st.ok && fmt(ctx, st, n).indent == st.indent,
{
    lemma_fmt_keeps(ctx, st, n);
}

/// Comments are taken up in source order: printing a node never moves the
/// comment cursor back, nor past the last comment.
pub proof fn law_comments_in_order(ctx: Ctx, st: St, n: SyntaxNode)
    ensures
        st.next <= fmt(ctx, st, n).next,
        st.next <= ctx.comments.len() ==> fmt(ctx, st, n).next <= ctx.comments.len(),
{
    lemma_fmt_keeps(ctx, st, n);
}

/// A whole program printed without going wrong has had every comment taken
/// up, and ends at the outermost indentation level.
pub proof fn law_whole_program(src: Seq<u8>, root: SyntaxNode, comments: Seq<Span>, width: usize)
    ensures
        format_all(src, root, comments, width).ok ==> format_all(src, root, comments, width).next
            == comments.len(),
        format_all(src, root, comments, width).ok ==> format_all(src, root, comments, width).indent
            == 0,
{
    let ctx = Ctx { src, comments, width };
    let st = fmt(ctx, initial(width), root);
    lemma_fmt_keeps(ctx, initial(width), root);
    lemma_flush_keeps(ctx, st, usize::MAX);
    lemma_flush_takes_all(ctx, st);
}

/// Printing the comments that end by an offset settles them: doing it again
/// at the same offset changes nothing.  Where the offset is the end of any
/// source and printing has not gone wrong, no comment is left.
pub proof fn law_flush_settles(ctx: Ctx, st: St, offset: usize)
    ensures
        flush(ctx, flush(ctx, st, offset), offset) == flush(ctx, st, offset),
        st.next <= ctx.comments.len() && offset == usize::MAX && flush(ctx, st, offset).ok
            ==> flush(ctx, st, offset).next == ctx.comments.len(),
    decreases ctx.comments.len() - st.next,
{
    if st.ok && st.next < ctx.comments.len() && ctx.comments[st.next as int].end <= offset {
        let c = ctx.comments[st.next as int];
        let a = St { next: st.next + 1, ..st };
        let b = crate::layout::preserve_blank(ctx, a, a.last, c.start);
        let d = crate::layout::lit(crate::layout::newline(b), "# ");
        let e = crate::layout::push(d, crate::text::comment_body(crate::text::span_text(ctx.src, c)));
        law_flush_settles(ctx, crate::layout::set_last(e, c.end), offset);
    }
    if st.next <= ctx.comments.len() && offset == usize::MAX {
        lemma_flush_takes_all(ctx, st);
    }
}

/// Printing the comments up to the end of the source takes up all of them.
proof fn lemma_flush_takes_all(ctx: Ctx, st: St)
    requires
        st.next <= ctx.comments.len(),
    ensures
        flush(ctx, st, usize::MAX).ok ==> flush(ctx, st, usize::MAX).next == ctx.comments.len(),
    decreases ctx.comments.len() - st.next,
{
    if st.ok && st.next < ctx.comments.len() {
        let c = ctx.comments[st.next as int];
        let a = St { next: st.next + 1, ..st };
        let b = crate::layout::preserve_blank(ctx, a, a.last, c.start);
        let d = crate::layout::lit(crate::layout::newline(b), "# ");
        let e = crate::layout::push(d, crate::text::comment_body(crate::text::span_text(ctx.src, c)));
        lemma_flush_takes_all(ctx, crate::layout::set_last(e, c.end));
    }
}

/// `keeps` is transitive.
proof fn lemma_keeps_trans(ctx: Ctx, a: St, b: St, c: St)
    requires
        keeps(ctx, a, b),
        keeps(ctx, b, c),
    ensures
        keeps(ctx, a, c),
{
    assert forall|i: int| 0 <= i < a.out.len() implies #[trigger] c.out[i] == a.out[i] by {
        assert(c.out[i] == b.out[i]);
    }
}

/// Appending text keeps the output, the comment order and the indentation.
proof fn lemma_lit_keeps(ctx: Ctx, a: St, s: &str)
    ensures
        keeps(ctx, a, crate::layout::lit(a, s)),
{
}

/// Printing comments keeps the output, the comment order and the
/// indentation.
pub proof fn lemma_flush_keeps(ctx: Ctx, st: St, offset: usize)
    ensures
        keeps(ctx, st, flush(ctx, st, offset)),
    decreases ctx.comments.len() - st.next,
{
    if st.ok && st.next < ctx.comments.len() && ctx.comments[st.next as int].end <= offset {
        let c = ctx.comments[st.next as int];
        let a = St { next: st.next + 1, ..st };
        let b = crate::layout::preserve_blank(ctx, a, a.last, c.start);
        let d = crate::layout::lit(crate::layout::newline(b), "# ");
        let e = crate::layout::push(d, crate::text::comment_body(crate::text::span_text(ctx.src, c)));
        lemma_flush_keeps(ctx, crate::layout::set_last(e, c.end), offset);
    }
}

/// Printing a node keeps the output, the comment order and the
/// indentation.
pub proof fn lemma_fmt_keeps(ctx: Ctx, st: St, n: SyntaxNode)
    ensures
        keeps(ctx, st, fmt(ctx, st, n)),
    decreases n, 20int,
{
    if st.ok {
        match n.kind {
            Kind::Statements { body } => lemma_statements_keeps(ctx, st, body@, body@.len() as int),
            Kind::If { .. } => lemma_fmt_if_keeps(ctx, st, n),
            Kind::Else { statements } => match statements {
                Some(s) => lemma_fmt_keeps(ctx, st, *s),
                None => {},
            },
            Kind::Call { .. } => lemma_fmt_call_keeps(ctx, st, n),
            Kind::Arguments { arguments } => lemma_commas_keeps(
                ctx,
                st,
                arguments@,
                arguments@.len() as int,
                false,
            ),
            Kind::InterpolatedStr { parts } => {
                lemma_str_parts_keeps(ctx, crate::layout::lit(st, "\""), parts@, parts@.len() as int);
            },
            Kind::EmbeddedStatements { statements } => match statements {
                Some(s) => lemma_fmt_keeps(ctx, st, *s),
                None => {},
            },
            Kind::Array { .. } => lemma_fmt_array_keeps(ctx, st, n),
            Kind::KeywordHash { elements } => lemma_commas_keeps(
                ctx,
                st,
                elements@,
                elements@.len() as int,
                false,
            ),
            Kind::Def { .. } => lemma_fmt_def_keeps(ctx, st, n),
            Kind::Parameters { .. } => lemma_fmt_parameters_keeps(ctx, st, n),
            Kind::Class { .. } => lemma_fmt_class_keeps(ctx, st, n),
            Kind::Block { .. } => lemma_fmt_block_keeps(ctx, st, n),
            Kind::Other { children } => lemma_each_keeps(ctx, st, children@, children@.len() as int),
            Kind::LocalVariableWrite { .. } | Kind::Hash { .. } | Kind::Assoc { .. }
            | Kind::OptionalParameter { .. } | Kind::Module { .. } | Kind::ConstantPath { .. }
            | Kind::OptionalKeywordParameter { .. } | Kind::InstanceVariableWrite { .. }
            | Kind::ConstantWrite { .. } | Kind::ConstantPathWrite { .. } => lemma_fmt_rest_keeps(ctx, st, n),
            Kind::CallOperatorWrite { .. } | Kind::VariableOperatorWrite { .. }
            | Kind::IndexOperatorWrite { .. } | Kind::ConstantPathOperatorWrite { .. }
            | Kind::LocalVariableOrWrite { .. } | Kind::LocalVariableAndWrite { .. } => {
                lemma_fmt_writes_keeps(ctx, st, n)
            },
            Kind::MultiWrite { .. } | Kind::MultiTarget { .. } | Kind::Splat { .. }
            | Kind::AssocSplat { .. } | Kind::Range { .. } => lemma_fmt_targets_keeps(ctx, st, n),
            Kind::For { .. } | Kind::Lambda { .. } | Kind::BlockParameters { .. } => {
                lemma_fmt_nested_keeps(ctx, st, n)
            },
            _ => {},
        }
    }
}

/// The kinds of node that `lemma_fmt_keeps` does not take itself.
proof fn lemma_fmt_rest_keeps(ctx: Ctx, st: St, n: SyntaxNode)
    requires
        st.ok,
        n.kind is LocalVariableWrite || n.kind is Hash || n.kind is Assoc || n.kind is OptionalParameter
            || n.kind is Module || n.kind is ConstantPath || n.kind is OptionalKeywordParameter
            || n.kind is InstanceVariableWrite || n.kind is ConstantWrite || n.kind is ConstantPathWrite,
    ensures
        keeps(ctx, st, fmt(ctx, st, n)),
    decreases n, 15int,
{
    match n.kind {
        Kind::LocalVariableWrite { name, name_loc, value } => {
            let a = crate::layout::lit(crate::layout::push(st, crate::text::latin1_text(name@)), " = ");
            lemma_fmt_keeps(ctx, crate::layout::set_last(a, name_loc.end), *value);
        },
        Kind::Hash { elements } => {
            let a = flush(ctx, st, n.loc.start);
            lemma_flush_keeps(ctx, st, n.loc.start);
            let b = crate::layout::lit(a, "{");
            lemma_hash_items_keeps(ctx, crate::layout::enter(b), elements@, elements@.len() as int);
            lemma_commas_keeps(ctx, crate::layout::lit(b, " "), elements@, elements@.len() as int, false);
        },
        Kind::Assoc { key, value, operator } => {
            let a = fmt(ctx, st, *key);
            lemma_fmt_keeps(ctx, st, *key);
            lemma_fmt_keeps(ctx, crate::layout::lit(a, ": "), *value);
            lemma_fmt_keeps(ctx, crate::layout::lit(a, " => "), *value);
        },
        Kind::OptionalParameter { name_loc, value } => {
            let t = crate::text::span_text(ctx.src, name_loc);
            let a = crate::layout::lit(crate::layout::push_utf8(st, t), " = ");
            lemma_fmt_keeps(ctx, crate::layout::set_last(a, name_loc.end), *value);
        },
        Kind::Module { constant_path, body } => {
            let a = fmt(ctx, crate::layout::lit(st, "module "), *constant_path);
            lemma_fmt_keeps(ctx, crate::layout::lit(st, "module "), *constant_path);
            match body {
                Some(bd) => lemma_fmt_keeps(
                    ctx,
                    crate::layout::set_last(crate::layout::enter(a), constant_path.loc.end),
                    *bd,
                ),
                None => {},
            }
        },
        Kind::ConstantPath { parent, .. } => match parent {
            Some(p) => lemma_fmt_keeps(ctx, st, *p),
            None => {},
        },
        Kind::OptionalKeywordParameter { name_loc, value } => {
            let t = crate::text::span_text(ctx.src, name_loc);
            lemma_fmt_keeps(ctx, crate::layout::lit(crate::layout::push_utf8(st, t), " "), *value);
        },
        Kind::InstanceVariableWrite { name_loc, value } => {
            let t = crate::text::span_text(ctx.src, name_loc);
            lemma_fmt_keeps(ctx, crate::layout::lit(crate::layout::push_utf8(st, t), " = "), *value);
        },
        Kind::ConstantWrite { name_loc, value } => {
            let t = crate::text::span_text(ctx.src, name_loc);
            lemma_fmt_keeps(ctx, crate::layout::lit(crate::layout::push_utf8(st, t), " = "), *value);
        },
        Kind::ConstantPathWrite { target, value } => {
            lemma_fmt_keeps(ctx, st, *target);
            lemma_fmt_keeps(ctx, crate::layout::lit(fmt(ctx, st, *target), " = "), *value);
        },
        _ => {},
    }
}

/// The assignment kinds with an operator, and the remaining simple kinds.
proof fn lemma_fmt_writes_keeps(ctx: Ctx, st: St, n: SyntaxNode)
    requires
        st.ok,
        n.kind is CallOperatorWrite || n.kind is VariableOperatorWrite || n.kind is IndexOperatorWrite
            || n.kind is ConstantPathOperatorWrite || n.kind is LocalVariableOrWrite
            || n.kind is LocalVariableAndWrite,
    ensures
        keeps(ctx, st, fmt(ctx, st, n)),
    decreases n, 14int,
{
    let empty = "".spec_bytes();
    match n.kind {
        Kind::CallOperatorWrite { receiver, read_name, operator, value } => {
            let a = match receiver {
                Some(r) => {
                    lemma_fmt_keeps(ctx, st, *r);
                    crate::layout::lit(fmt(ctx, st, *r), ".")
                },
                None => st,
            };
            let b = crate::layout::lit(crate::layout::push(a, crate::text::utf8_or(read_name@, empty)), " ");
            let c = crate::layout::lit(crate::layout::push(b, crate::text::utf8_or(operator@, empty)), "= ");
            lemma_fmt_keeps(ctx, c, *value);
        },
        Kind::VariableOperatorWrite { name_loc, operator, value } => {
            let t = crate::text::span_text(ctx.src, name_loc);
            let a = crate::layout::lit(crate::layout::push(st, crate::text::utf8_or(t, empty)), " ");
            let c = crate::layout::lit(crate::layout::push(a, crate::text::utf8_or(operator@, empty)), "= ");
            lemma_fmt_keeps(ctx, c, *value);
        },
        Kind::IndexOperatorWrite { receiver, arguments, operator, value } => {
            let a = match receiver {
                Some(r) => {
                    lemma_fmt_keeps(ctx, st, *r);
                    fmt(ctx, st, *r)
                },
                None => st,
            };
            let b = crate::layout::lit(a, "[");
            let c = match arguments {
                Some(args) => {
                    lemma_fmt_keeps(ctx, b, *args);
                    fmt(ctx, b, *args)
                },
                None => b,
            };
            let d = crate::layout::lit(crate::layout::lit(c, "]"), " ");
            let e = crate::layout::lit(crate::layout::push(d, crate::text::utf8_or(operator@, empty)), "= ");
            lemma_fmt_keeps(ctx, e, *value);
        },
        Kind::ConstantPathOperatorWrite { target, operator, value } => {
            lemma_fmt_keeps(ctx, st, *target);
            let a = crate::layout::lit(fmt(ctx, st, *target), " ");
            let c = crate::layout::lit(crate::layout::push(a, crate::text::utf8_or(operator@, empty)), "= ");
            lemma_fmt_keeps(ctx, c, *value);
        },
        Kind::LocalVariableOrWrite { name_loc, value } => {
            let t = crate::text::span_text(ctx.src, name_loc);
            let a = crate::layout::push(st, crate::text::utf8_or(t, empty));
            lemma_fmt_keeps(ctx, crate::layout::lit(a, " ||= "), *value);
        },
        Kind::LocalVariableAndWrite { name_loc, value } => {
            let t = crate::text::span_text(ctx.src, name_loc);
            let a = crate::layout::push(st, crate::text::utf8_or(t, empty));
            lemma_fmt_keeps(ctx, crate::layout::lit(a, " &&= "), *value);
        },
        _ => {},
    }
}

/// Multiple assignment, its targets, splats and ranges.
proof fn lemma_fmt_targets_keeps(ctx: Ctx, st: St, n: SyntaxNode)
    requires
        st.ok,
        n.kind is MultiWrite || n.kind is MultiTarget || n.kind is Splat || n.kind is AssocSplat
            || n.kind is Range,
    ensures
        keeps(ctx, st, fmt(ctx, st, n)),
    decreases n, 13int,
{
    match n.kind {
        Kind::MultiWrite { lefts, value } => {
            let l = commas(ctx, st, lefts@, lefts@.len() as int, false);
            lemma_commas_keeps(ctx, st, lefts@, lefts@.len() as int, false);
            let a = crate::layout::lit(l, " = ");
            lemma_lit_keeps(ctx, l, " = ");
            lemma_keeps_trans(ctx, st, l, a);
            lemma_fmt_keeps(ctx, a, *value);
            lemma_keeps_trans(ctx, st, a, fmt(ctx, a, *value));
            match value.kind {
                Kind::Array { elements, .. } => {
                    lemma_commas_keeps(ctx, a, elements@, elements@.len() as int, false);
                    lemma_keeps_trans(ctx, st, a, commas(ctx, a, elements@, elements@.len() as int, false));
                },
                _ => {},
            }
        },
        Kind::MultiTarget { lefts, rest, rights, lparen, .. } => {
            let a = if lparen is Some {
                crate::layout::lit(st, "(")
            } else {
                st
            };
            lemma_commas_keeps(ctx, a, lefts@, lefts@.len() as int, false);
            let b = commas(ctx, a, lefts@, lefts@.len() as int, false);
            let c = match rest {
                Some(r) => {
                    lemma_fmt_keeps(ctx, crate::layout::comma_if(b, lefts@.len() > 0), *r);
                    fmt(ctx, crate::layout::comma_if(b, lefts@.len() > 0), *r)
                },
                None => b,
            };
            lemma_commas_keeps(ctx, c, rights@, rights@.len() as int, true);
        },
        Kind::Splat { expression } => match expression {
            Some(e) => lemma_fmt_keeps(ctx, crate::layout::lit(st, "*"), *e),
            None => {},
        },
        Kind::AssocSplat { value } => match value {
            Some(v) => lemma_fmt_keeps(ctx, crate::layout::lit(st, "**"), *v),
            None => {},
        },
        Kind::Range { left, right, exclude_end } => {
            let a = match left {
                Some(l) => {
                    lemma_fmt_keeps(ctx, st, *l);
                    fmt(ctx, st, *l)
                },
                None => st,
            };
            let b = if exclude_end {
                crate::layout::lit(a, "...")
            } else {
                crate::layout::lit(a, "..")
            };
            match right {
                Some(r) => lemma_fmt_keeps(ctx, b, *r),
                None => {},
            }
        },
        _ => {},
    }
}

/// Loops, lambdas and block parameters.
proof fn lemma_fmt_nested_keeps(ctx: Ctx, st: St, n: SyntaxNode)
    requires
        st.ok,
        n.kind is For || n.kind is Lambda || n.kind is BlockParameters,
    ensures
        keeps(ctx, st, fmt(ctx, st, n)),
    decreases n, 13int,
{
    match n.kind {
        Kind::For { index, collection, statements } => {
            lemma_fmt_keeps(ctx, crate::layout::lit(st, "for "), *index);
            let a = fmt(ctx, crate::layout::lit(st, "for "), *index);
            lemma_fmt_keeps(ctx, crate::layout::lit(a, " in "), *collection);
            let b = fmt(ctx, crate::layout::lit(a, " in "), *collection);
            match statements {
                Some(s) => lemma_fmt_keeps(ctx, crate::layout::enter(b), *s),
                None => {},
            }
        },
        Kind::Lambda { opening, parameters, body } => {
            let a = crate::layout::lit(st, "->");
            let b = match parameters {
                Some(p) => {
                    let parens = opening.start != opening.end;
                    let x = if parens {
                        crate::layout::lit(a, "(")
                    } else {
                        crate::layout::lit(a, " ")
                    };
                    lemma_fmt_keeps(ctx, x, *p);
                    let y = fmt(ctx, x, *p);
                    if parens {
                        crate::layout::lit(y, ")")
                    } else {
                        y
                    }
                },
                None => a,
            };
            let c = crate::layout::lit(b, " ");
            match body {
                Some(bd) => lemma_fmt_keeps(ctx, crate::layout::enter(crate::layout::lit(c, "{")), *bd),
                None => {},
            }
        },
        Kind::BlockParameters { parameters, locals } => {
            let a = match parameters {
                Some(p) => {
                    lemma_fmt_keeps(ctx, st, *p);
                    fmt(ctx, st, *p)
                },
                None => st,
            };
            lemma_commas_keeps(ctx, crate::layout::lit(a, "; "), locals@, locals@.len() as int, false);
        },
        _ => {},
    }
}

/// Printing nodes one after another keeps the output, the comment order and
/// the indentation.
pub proof fn lemma_each_keeps(ctx: Ctx, st: St, s: Seq<SyntaxNode>, i: int)
    ensures
        keeps(ctx, st, each(ctx, st, s, i)),
    decreases s, i,
{
    if st.ok && 0 < i <= s.len() {
        lemma_each_keeps(ctx, st, s, i - 1);
        lemma_fmt_keeps(ctx, each(ctx, st, s, i - 1), s[i - 1]);
    }
}

/// The same for nodes separated by commas.
pub proof fn lemma_commas_keeps(ctx: Ctx, st: St, s: Seq<SyntaxNode>, i: int, lead: bool)
    ensures
        keeps(ctx, st, commas(ctx, st, s, i, lead)),
    decreases s, i,
{
    if st.ok && 0 < i <= s.len() {
        lemma_commas_keeps(ctx, st, s, i - 1, lead);
        let a = crate::layout::comma_if(commas(ctx, st, s, i - 1, lead), lead || i - 1 > 0);
        lemma_fmt_keeps(ctx, a, s[i - 1]);
    }
}

/// The same for a statement list.
pub proof fn lemma_statements_keeps(ctx: Ctx, st: St, s: Seq<SyntaxNode>, i: int)
    ensures
        keeps(ctx, st, statements(ctx, st, s, i)),
    decreases s, i,
{
    if st.ok && 0 < i <= s.len() {
        lemma_statements_keeps(ctx, st, s, i - 1);
        let e = s[i - 1];
        let before = statements(ctx, st, s, i - 1);
        lemma_flush_keeps(ctx, before, e.loc.start);
        let a = flush(ctx, before, e.loc.start);
        lemma_fmt_keeps(ctx, crate::layout::statement_gap(ctx, a, e.loc.start, i - 1 == 0), e);
    }
}

/// The same for the parts of an interpolated string.
pub proof fn lemma_str_parts_keeps(ctx: Ctx, st: St, s: Seq<SyntaxNode>, i: int)
    ensures
        keeps(ctx, st, str_parts(ctx, st, s, i)),
    decreases s, i,
{
    if st.ok && 0 < i <= s.len() {
        lemma_str_parts_keeps(ctx, st, s, i - 1);
        let before = str_parts(ctx, st, s, i - 1);
        let e = s[i - 1];
        let a = crate::layout::set_last(crate::layout::lit(before, "#{"), e.loc.start);
        lemma_fmt_keeps(ctx, a, e);
    }
}

/// The same for the elements of an array broken over lines.
pub proof fn lemma_array_items_keeps(ctx: Ctx, st: St, s: Seq<SyntaxNode>, i: int)
    ensures
        keeps(ctx, st, array_items(ctx, st, s, i)),
    decreases s, i,
{
    if st.ok && 0 < i <= s.len() {
        lemma_array_items_keeps(ctx, st, s, i - 1);
        let before = array_items(ctx, st, s, i - 1);
        let e = s[i - 1];
        lemma_flush_keeps(ctx, before, e.loc.start);
        let a = flush(ctx, before, e.loc.start);
        let b = crate::layout::newline(crate::layout::preserve_blank(ctx, a, a.last, e.loc.start));
        lemma_fmt_keeps(ctx, b, e);
    }
}

/// The same for the elements of a hash broken over lines.
pub proof fn lemma_hash_items_keeps(ctx: Ctx, st: St, s: Seq<SyntaxNode>, i: int)
    ensures
        keeps(ctx, st, hash_items(ctx, st, s, i)),
    decreases s, i,
{
    if st.ok && 0 < i <= s.len() {
        lemma_hash_items_keeps(ctx, st, s, i - 1);
        lemma_fmt_keeps(ctx, crate::layout::newline(hash_items(ctx, st, s, i - 1)), s[i - 1]);
    }
}

/// Printing an `if` keeps the output, the comment order and the indentation.
pub proof fn lemma_fmt_if_keeps(ctx: Ctx, st: St, n: SyntaxNode)
    ensures
        keeps(ctx, st, fmt_if(ctx, st, n)),
    decreases n, 10int,
{
    if st.ok {
        match n.kind {
            Kind::If { if_keyword, predicate, statements, subsequent, end_keyword } => {
                if if_keyword is None {
                    lemma_fmt_keeps(ctx, st, *predicate);
                    let a = crate::layout::lit(fmt(ctx, st, *predicate), " ? ");
                    let b = match statements {
                        Some(s) => match s.kind {
                            Kind::Statements { body } => if body@.len() > 0 {
                                lemma_fmt_keeps(ctx, a, body@[0]);
                                fmt(ctx, a, body@[0])
                            } else {
                                a
                            },
                            _ => a,
                        },
                        None => a,
                    };
                    match subsequent {
                        Some(e) => lemma_fmt_keeps(ctx, crate::layout::lit(b, " : "), *e),
                        None => {},
                    }
                } else if end_keyword is None {
                    let a = match statements {
                        Some(s) => {
                            let x = match s.kind {
                                Kind::Statements { body } => if body@.len() > 0 {
                                    lemma_fmt_keeps(ctx, st, body@[0]);
                                    fmt(ctx, st, body@[0])
                                } else {
                                    st
                                },
                                _ => st,
                            };
                            crate::layout::lit(x, " ")
                        },
                        None => st,
                    };
                    lemma_fmt_keeps(ctx, crate::layout::lit(a, "if "), *predicate);
                } else {
                    lemma_full_if_keeps(ctx, st, n);
                }
            },
            _ => {},
        }
    }
}

/// Printing an `if` in full keeps the output, the comment order and the
/// indentation.
#[verifier::rlimit(40)]
pub proof fn lemma_full_if_keeps(ctx: Ctx, st: St, n: SyntaxNode)
    ensures
        keeps(ctx, st, full_if(ctx, st, n)),
    decreases n, 5int,
{
    if st.ok {
        match n.kind {
            Kind::If { predicate, statements, subsequent, .. } => {
                let kw = crate::layout::if_keyword_text(ctx, n);
                let p = crate::layout::lit(crate::layout::push_utf8(st, kw), " ");
                lemma_fmt_keeps(ctx, p, *predicate);
                let a = fmt(ctx, p, *predicate);
                let b = match statements {
                    Some(s) => {
                        let x = crate::layout::set_last(crate::layout::enter(a), predicate.loc.end);
                        lemma_fmt_keeps(ctx, x, *s);
                        crate::layout::leave(fmt(ctx, x, *s))
                    },
                    None => a,
                };
                match subsequent {
                    Some(sub) => match sub.kind {
                        Kind::If { .. } => lemma_full_if_keeps(ctx, crate::layout::newline(b), *sub),
                        Kind::Else { statements: es } => {
                            let x = crate::layout::enter(crate::layout::lit(crate::layout::newline(b), "else"));
                            let y = if sub.loc.start > usize::MAX - 4 {
                                crate::layout::fail(x)
                            } else {
                                crate::layout::set_last(x, (sub.loc.start + 4) as usize)
                            };
                            match es {
                                Some(e) => lemma_fmt_keeps(ctx, y, *e),
                                None => {},
                            }
                        },
                        _ => {},
                    },
                    None => {},
                }
            },
            _ => {},
        }
    }
}

/// Printing a call keeps the output, the comment order and the indentation.
pub proof fn lemma_fmt_call_keeps(ctx: Ctx, st: St, n: SyntaxNode)
    ensures
        keeps(ctx, st, fmt_call(ctx, st, n)),
    decreases n, 10int,
{
    if st.ok {
        lemma_chain_root_keeps(ctx, st, n);
        lemma_chain_links_keeps(ctx, crate::layout::enter(chain_root(ctx, st, n)), n);
        lemma_single_call_keeps(ctx, st, n, true);
    }
}

/// Printing the root of a call chain keeps the output, the comment order and
/// the indentation.
pub proof fn lemma_chain_root_keeps(ctx: Ctx, st: St, n: SyntaxNode)
    ensures
        keeps(ctx, st, chain_root(ctx, st, n)),
    decreases n, 5int,
{
    if st.ok {
        match n.kind {
            Kind::Call { receiver: Some(r), .. } => match r.kind {
                Kind::Call { .. } => lemma_chain_root_keeps(ctx, st, *r),
                _ => lemma_fmt_keeps(ctx, st, *r),
            },
            _ => {},
        }
    }
}

/// Printing the links of a call chain keeps the output, the comment order and
/// the indentation.
pub proof fn lemma_chain_links_keeps(ctx: Ctx, st: St, n: SyntaxNode)
    ensures
        keeps(ctx, st, chain_links(ctx, st, n)),
    decreases n, 5int,
{
    if st.ok {
        match n.kind {
            Kind::Call { receiver, call_operator, .. } => {
                let a = match receiver {
                    Some(r) => match r.kind {
                        Kind::Call { .. } => {
                            lemma_chain_links_keeps(ctx, st, *r);
                            chain_links(ctx, st, *r)
                        },
                        _ => st,
                    },
                    None => st,
                };
                let b = crate::layout::newline(a);
                let c = match call_operator {
                    Some(op) => crate::layout::push_utf8(b, crate::text::span_text(ctx.src, op)),
                    None => b,
                };
                lemma_single_call_keeps(ctx, c, n, false);
            },
            _ => {},
        }
    }
}

/// Printing one call keeps the output, the comment order and the
/// indentation.
pub proof fn lemma_single_call_keeps(ctx: Ctx, st: St, n: SyntaxNode, with_receiver: bool)
    ensures
        keeps(ctx, st, single_call(ctx, st, n, with_receiver)),
    decreases n, 2int,
{
    if st.ok {
        match n.kind {
            Kind::Call { receiver, call_operator, name, opening, arguments, block, .. } => {
                let a = match receiver {
                    Some(r) => if with_receiver {
                        lemma_fmt_keeps(ctx, st, *r);
                        let x = fmt(ctx, st, *r);
                        match call_operator {
                            Some(op) => crate::layout::push(
                                x,
                                crate::text::utf8_or(crate::text::span_text(ctx.src, op), ".".spec_bytes()),
                            ),
                            None => x,
                        }
                    } else {
                        st
                    },
                    None => st,
                };
                let nm = crate::text::latin1_text(name@);
                let e = if nm == "[]".spec_bytes() && call_operator is None {
                    let x = crate::layout::lit(a, "[");
                    let y = match arguments {
                        Some(args) => {
                            lemma_fmt_keeps(ctx, x, *args);
                            fmt(ctx, x, *args)
                        },
                        None => x,
                    };
                    crate::layout::lit(y, "]")
                } else {
                    let is_op = crate::text::is_binary_operator(nm);
                    let b = if is_op {
                        crate::layout::lit(a, " ")
                    } else {
                        a
                    };
                    let c = crate::layout::push(b, nm);
                    let d = if is_op {
                        crate::layout::lit(c, " ")
                    } else {
                        c
                    };
                    match arguments {
                        Some(args) => {
                            let x = if opening is Some {
                                crate::layout::lit(d, "(")
                            } else if !is_op {
                                crate::layout::lit(d, " ")
                            } else {
                                d
                            };
                            lemma_fmt_keeps(ctx, x, *args);
                            let y = fmt(ctx, x, *args);
                            if opening is Some {
                                crate::layout::lit(y, ")")
                            } else {
                                y
                            }
                        },
                        None => d,
                    }
                };
                match block {
                    Some(bl) => lemma_fmt_keeps(ctx, crate::layout::lit(e, " "), *bl),
                    None => {},
                }
            },
            _ => {},
        }
    }
}

/// Printing an array keeps the output, the comment order and the
/// indentation.
pub proof fn lemma_fmt_array_keeps(ctx: Ctx, st: St, n: SyntaxNode)
    ensures
        keeps(ctx, st, fmt_array(ctx, st, n)),
    decreases n, 10int,
{
    if st.ok {
        match n.kind {
            Kind::Array { elements, closing, .. } => {
                let s = elements@;
                if s.len() > 0 {
                    let a = crate::layout::lit(st, "[");
                    lemma_array_items_keeps(ctx, crate::layout::enter(a), s, s.len() as int);
                    let items = array_items(ctx, crate::layout::enter(a), s, s.len() as int);
                    lemma_flush_keeps(ctx, items, n.loc.end);
                    let x = crate::layout::leave(flush(ctx, items, n.loc.end));
                    let close = match closing {
                        Some(c) => c.start,
                        None => n.loc.end,
                    };
                    lemma_flush_keeps(ctx, x, close);
                    lemma_commas_keeps(ctx, a, s, s.len() as int, false);
                }
            },
            _ => {},
        }
    }
}

/// Printing a method definition keeps the output, the comment order and the
/// indentation.
pub proof fn lemma_fmt_def_keeps(ctx: Ctx, st: St, n: SyntaxNode)
    ensures
        keeps(ctx, st, fmt_def(ctx, st, n)),
    decreases n, 10int,
{
    if st.ok {
        match n.kind {
            Kind::Def { name_loc, receiver, parameters, body } => {
                let a = crate::layout::lit(st, "def ");
                let b = match receiver {
                    Some(r) => {
                        lemma_fmt_keeps(ctx, a, *r);
                        crate::layout::lit(fmt(ctx, a, *r), ".")
                    },
                    None => a,
                };
                let c = crate::layout::push_utf8(b, crate::text::span_text(ctx.src, name_loc));
                let d = match parameters {
                    Some(p) => {
                        lemma_fmt_keeps(ctx, crate::layout::lit(c, "("), *p);
                        crate::layout::lit(fmt(ctx, crate::layout::lit(c, "("), *p), ")")
                    },
                    None => c,
                };
                match body {
                    Some(bd) => {
                        let anchor = match parameters {
                            Some(p) => p.loc.end,
                            None => name_loc.end,
                        };
                        lemma_fmt_keeps(ctx, crate::layout::set_last(crate::layout::enter(d), anchor), *bd);
                    },
                    None => {},
                }
            },
            _ => {},
        }
    }
}

/// Printing a parameter list keeps the output, the comment order and the
/// indentation.
pub proof fn lemma_fmt_parameters_keeps(ctx: Ctx, st: St, n: SyntaxNode)
    ensures
        keeps(ctx, st, fmt_parameters(ctx, st, n)),
    decreases n, 10int,
{
    if st.ok {
        match n.kind {
            Kind::Parameters { requireds, optionals, rest, keywords, keyword_rest, block } => {
                lemma_commas_keeps(ctx, st, requireds@, requireds@.len() as int, false);
                let a = commas(ctx, st, requireds@, requireds@.len() as int, false);
                let l1 = requireds@.len() > 0;
                lemma_commas_keeps(ctx, a, optionals@, optionals@.len() as int, l1);
                let b = commas(ctx, a, optionals@, optionals@.len() as int, l1);
                let l2 = l1 || optionals@.len() > 0;
                let c = match rest {
                    Some(r) => {
                        lemma_fmt_keeps(ctx, crate::layout::comma_if(b, l2), *r);
                        fmt(ctx, crate::layout::comma_if(b, l2), *r)
                    },
                    None => b,
                };
                let l3 = l2 || rest is Some;
                lemma_commas_keeps(ctx, c, keywords@, keywords@.len() as int, l3);
                let d = commas(ctx, c, keywords@, keywords@.len() as int, l3);
                let l4 = l3 || keywords@.len() > 0;
                let e = match keyword_rest {
                    Some(r) => {
                        lemma_fmt_keeps(ctx, crate::layout::comma_if(d, l4), *r);
                        fmt(ctx, crate::layout::comma_if(d, l4), *r)
                    },
                    None => d,
                };
                let l5 = l4 || keyword_rest is Some;
                match block {
                    Some(bl) => lemma_fmt_keeps(ctx, crate::layout::comma_if(e, l5), *bl),
                    None => {},
                }
            },
            _ => {},
        }
    }
}

/// Printing a class definition keeps the output, the comment order and the
/// indentation.
pub proof fn lemma_fmt_class_keeps(ctx: Ctx, st: St, n: SyntaxNode)
    ensures
        keeps(ctx, st, fmt_class(ctx, st, n)),
    decreases n, 10int,
{
    if st.ok {
        match n.kind {
            Kind::Class { constant_path, superclass, body } => {
                lemma_fmt_keeps(ctx, crate::layout::lit(st, "class "), *constant_path);
                let a = fmt(ctx, crate::layout::lit(st, "class "), *constant_path);
                let b = match superclass {
                    Some(s) => {
                        lemma_fmt_keeps(ctx, crate::layout::lit(a, " < "), *s);
                        fmt(ctx, crate::layout::lit(a, " < "), *s)
                    },
                    None => a,
                };
                match body {
                    Some(bd) => {
                        let anchor = match superclass {
                            Some(s) => s.loc.end,
                            None => constant_path.loc.end,
                        };
                        lemma_fmt_keeps(ctx, crate::layout::set_last(crate::layout::enter(b), anchor), *bd);
                    },
                    None => {},
                }
            },
            _ => {},
        }
    }
}

/// Printing a block keeps the output, the comment order and the indentation.
pub proof fn lemma_fmt_block_keeps(ctx: Ctx, st: St, n: SyntaxNode)
    ensures
        keeps(ctx, st, fmt_block(ctx, st, n)),
    decreases n, 10int,
{
    if st.ok {
        match n.kind {
            Kind::Block { opening, parameters, body, .. } => {
                let open = crate::text::utf8_or(crate::text::span_text(ctx.src, opening), "".spec_bytes());
                let a = crate::layout::push(st, open);
                let b = match parameters {
                    Some(p) => {
                        lemma_fmt_keeps(ctx, crate::layout::lit(a, " |"), *p);
                        crate::layout::lit(fmt(ctx, crate::layout::lit(a, " |"), *p), "|")
                    },
                    None => a,
                };
                match body {
                    Some(bd) => {
                        lemma_fmt_keeps(ctx, crate::layout::enter(b), *bd);
                        lemma_fmt_keeps(ctx, crate::layout::lit(b, " "), *bd);
                    },
                    None => {},
                }
            },
            _ => {},
        }
    }
}

} // verus!
