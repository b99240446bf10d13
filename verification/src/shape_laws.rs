//! What the printed text of particular constructs looks like, whatever they
//! hold: definitions and `do` blocks are closed on a line of their own at the
//! indentation they were opened at, a range keeps the operator it was written
//! with, a call prints the same tail with or without its receiver and always
//! ends with its block, and a parameter list is its parameters joined by
//! `", "`.
use vstd::prelude::*;
use vstd::string::*;
use crate::layout::{
    comma_if, commas, fmt, fmt_parameters, leave, lit, newline, push, single_call, spaces, Ctx, St,
};
use crate::laws::{keeps, lemma_commas_keeps, lemma_fmt_keeps};
use crate::syntax::{Kind, SyntaxNode};
use crate::text::{span_text, utf8_or, LF};

verus! {

/// `s` ends with `t`.
pub open spec fn ends_with(s: Seq<u8>, t: Seq<u8>) -> bool {
    t.len() <= s.len() && s.subrange(s.len() - t.len(), s.len() as int) == t
}

/// A line break, the indentation of level `indent`, then `word`.
pub open spec fn closing_line(indent: usize, word: Seq<u8>) -> Seq<u8> {
    seq![LF] + spaces(2 * indent as nat) + word
}

/// The text a node kind is closed with.
pub open spec fn end_word() -> Seq<u8> {
    seq![101u8, 110u8, 100u8]
}

proof fn lemma_end_word()
    ensures
        "end".spec_bytes() == end_word(),
{
    reveal_strlit("end");
    is_ascii_spec_bytes("end");
    assert("end".spec_bytes() =~= end_word());
}

proof fn lemma_dots()
    ensures
        "...".spec_bytes() == range_operator(true),
        "..".spec_bytes() == range_operator(false),
{
    reveal_strlit("...");
    reveal_strlit("..");
    is_ascii_spec_bytes("...");
    is_ascii_spec_bytes("..");
    assert("...".spec_bytes() =~= range_operator(true));
    assert("..".spec_bytes() =~= range_operator(false));
}

proof fn lemma_do_word()
    ensures
        "do".spec_bytes() == seq![100u8, 111u8],
{
    reveal_strlit("do");
    is_ascii_spec_bytes("do");
    assert("do".spec_bytes() =~= seq![100u8, 111u8]);
}

/// After `lit(newline(c), word)`, the output ends with the closing line at
/// `c`'s indentation.
proof fn lemma_closed_by(c: St, word: &str)
    ensures
        ends_with(lit(newline(c), word).out, closing_line(c.indent, word.spec_bytes())),
{
    let t = closing_line(c.indent, word.spec_bytes());
    let o = lit(newline(c), word).out;
    assert(o =~= c.out + t);
    assert(o.subrange(o.len() - t.len(), o.len() as int) =~= t);
}

/// A class definition, with a body or without, is closed by `end` on a line
/// of its own at the indentation the class was opened at.
pub proof fn law_class_closed(ctx: Ctx, st: St, n: SyntaxNode)
    requires
        n.kind is Class,
    ensures
        fmt(ctx, st, n).ok ==> ends_with(fmt(ctx, st, n).out, closing_line(st.indent, end_word())),
{
    lemma_end_word();
    if st.ok {
        assert(fmt(ctx, st, n) == crate::layout::fmt_class(ctx, st, n));
        match n.kind {
            Kind::Class { constant_path, superclass, body } => {
                lemma_fmt_keeps(ctx, lit(st, "class "), *constant_path);
                let a = fmt(ctx, lit(st, "class "), *constant_path);
                let b = match superclass {
                    Some(s) => {
                        lemma_fmt_keeps(ctx, lit(a, " < "), *s);
                        fmt(ctx, lit(a, " < "), *s)
                    },
                    None => a,
                };
                let c = match body {
                    Some(bd) => {
                        let anchor = match superclass {
                            Some(s) => s.loc.end,
                            None => constant_path.loc.end,
                        };
                        let x = crate::layout::set_last(crate::layout::enter(b), anchor);
                        lemma_fmt_keeps(ctx, x, *bd);
                        leave(fmt(ctx, x, *bd))
                    },
                    None => b,
                };
                assert(keeps(ctx, st, c));
                lemma_closed_by(c, "end");
            },
            _ => {},
        }
    }
}

/// A module definition is closed by `end` on a line of its own at the
/// indentation it was opened at.
pub proof fn law_module_closed(ctx: Ctx, st: St, n: SyntaxNode)
    requires
        n.kind is Module,
    ensures
        fmt(ctx, st, n).ok ==> ends_with(fmt(ctx, st, n).out, closing_line(st.indent, end_word())),
{
    lemma_end_word();
    if st.ok {
        match n.kind {
            Kind::Module { constant_path, body } => {
                lemma_fmt_keeps(ctx, lit(st, "module "), *constant_path);
                let a = fmt(ctx, lit(st, "module "), *constant_path);
                let c = match body {
                    Some(bd) => {
                        let x = crate::layout::set_last(crate::layout::enter(a), constant_path.loc.end);
                        lemma_fmt_keeps(ctx, x, *bd);
                        leave(fmt(ctx, x, *bd))
                    },
                    None => a,
                };
                assert(keeps(ctx, st, c));
                lemma_closed_by(c, "end");
            },
            _ => {},
        }
    }
}

/// A method definition, with a body or without, is closed by `end` on a line
/// of its own at the indentation it was opened at.
pub proof fn law_def_closed(ctx: Ctx, st: St, n: SyntaxNode)
    requires
        n.kind is Def,
    ensures
        fmt(ctx, st, n).ok ==> ends_with(fmt(ctx, st, n).out, closing_line(st.indent, end_word())),
{
    lemma_end_word();
    if st.ok {
        assert(fmt(ctx, st, n) == crate::layout::fmt_def(ctx, st, n));
        match n.kind {
            Kind::Def { name_loc, receiver, parameters, body } => {
                let a = lit(st, "def ");
                let b = match receiver {
                    Some(r) => {
                        lemma_fmt_keeps(ctx, a, *r);
                        lit(fmt(ctx, a, *r), ".")
                    },
                    None => a,
                };
                let c = crate::layout::push_utf8(b, span_text(ctx.src, name_loc));
                let d = match parameters {
                    Some(p) => {
                        lemma_fmt_keeps(ctx, lit(c, "("), *p);
                        lit(fmt(ctx, lit(c, "("), *p), ")")
                    },
                    None => c,
                };
                let e = match body {
                    Some(bd) => {
                        let anchor = match parameters {
                            Some(p) => p.loc.end,
                            None => name_loc.end,
                        };
                        let x = crate::layout::set_last(crate::layout::enter(d), anchor);
                        lemma_fmt_keeps(ctx, x, *bd);
                        leave(fmt(ctx, x, *bd))
                    },
                    None => d,
                };
                assert(keeps(ctx, st, e));
                lemma_closed_by(e, "end");
            },
            _ => {},
        }
    }
}

/// A `for` loop is closed by `end` on a line of its own at the indentation it
/// was opened at.
pub proof fn law_for_closed(ctx: Ctx, st: St, n: SyntaxNode)
    requires
        n.kind is For,
    ensures
        fmt(ctx, st, n).ok ==> ends_with(fmt(ctx, st, n).out, closing_line(st.indent, end_word())),
{
    lemma_end_word();
    if st.ok {
        match n.kind {
            Kind::For { index, collection, statements } => {
                lemma_fmt_keeps(ctx, lit(st, "for "), *index);
                let a = fmt(ctx, lit(st, "for "), *index);
                lemma_fmt_keeps(ctx, lit(a, " in "), *collection);
                let b = fmt(ctx, lit(a, " in "), *collection);
                let c = match statements {
                    Some(s) => {
                        lemma_fmt_keeps(ctx, crate::layout::enter(b), *s);
                        leave(fmt(ctx, crate::layout::enter(b), *s))
                    },
                    None => leave(crate::layout::enter(b)),
                };
                assert(keeps(ctx, st, c));
                lemma_closed_by(c, "end");
            },
            _ => {},
        }
    }
}

/// The text of a block's closing token.
pub open spec fn closing_text(ctx: Ctx, n: SyntaxNode) -> Seq<u8> {
    match n.kind {
        Kind::Block { closing, .. } => utf8_or(span_text(ctx.src, closing), "".spec_bytes()),
        _ => Seq::empty(),
    }
}

/// Whether a block opens with `do` and has a body.
pub open spec fn is_do_block_with_body(ctx: Ctx, n: SyntaxNode) -> bool {
    match n.kind {
        Kind::Block { opening, body, .. } => body is Some && utf8_or(span_text(ctx.src, opening), "".spec_bytes())
            == seq![100u8, 111u8],
        _ => false,
    }
}

/// A `do ... end` block with a body is closed on a line of its own, indented
/// as the line that opened it.
pub proof fn law_do_block_closed(ctx: Ctx, st: St, n: SyntaxNode)
    requires
        is_do_block_with_body(ctx, n),
    ensures
        fmt(ctx, st, n).ok ==> ends_with(fmt(ctx, st, n).out, closing_line(st.indent, closing_text(ctx, n))),
{
    lemma_do_word();
    if st.ok {
        assert(fmt(ctx, st, n) == crate::layout::fmt_block(ctx, st, n));
        match n.kind {
            Kind::Block { opening, parameters, body, closing } => {
                let open = utf8_or(span_text(ctx.src, opening), "".spec_bytes());
                let a = push(st, open);
                let b = match parameters {
                    Some(p) => {
                        lemma_fmt_keeps(ctx, lit(a, " |"), *p);
                        lit(fmt(ctx, lit(a, " |"), *p), "|")
                    },
                    None => a,
                };
                let bd = body.unwrap();
                lemma_fmt_keeps(ctx, crate::layout::enter(b), *bd);
                let c = leave(fmt(ctx, crate::layout::enter(b), *bd));
                assert(keeps(ctx, st, c));
                let t = closing_line(c.indent, closing_text(ctx, n));
                let o = push(newline(c), closing_text(ctx, n)).out;
                assert(o =~= c.out + t);
                assert(o.subrange(o.len() - t.len(), o.len() as int) =~= t);
            },
            _ => {},
        }
    }
}

/// The body of a block, where it has one.
pub open spec fn block_body(n: SyntaxNode) -> SyntaxNode {
    match n.kind {
        Kind::Block { body: Some(bd), .. } => *bd,
        _ => n,
    }
}

/// The body of a `do ... end` block is printed one level deeper than the
/// block: the block's text is what printing the body at that level leaves,
/// followed by the closing line at the block's own level.
pub proof fn law_do_block_body_deeper(ctx: Ctx, st: St, n: SyntaxNode)
    requires
        is_do_block_with_body(ctx, n),
    ensures
        fmt(ctx, st, n).ok ==> exists|x: St|
            x.indent == st.indent + 1 && #[trigger] fmt(ctx, x, block_body(n)).out + closing_line(
                st.indent,
                closing_text(ctx, n),
            ) == fmt(ctx, st, n).out,
{
    lemma_do_word();
    if st.ok {
        assert(fmt(ctx, st, n) == crate::layout::fmt_block(ctx, st, n));
        match n.kind {
            Kind::Block { opening, parameters, body, closing } => {
                let open = utf8_or(span_text(ctx.src, opening), "".spec_bytes());
                let a = push(st, open);
                let b = match parameters {
                    Some(p) => {
                        lemma_fmt_keeps(ctx, lit(a, " |"), *p);
                        lit(fmt(ctx, lit(a, " |"), *p), "|")
                    },
                    None => a,
                };
                let bd = body.unwrap();
                let x = crate::layout::enter(b);
                lemma_fmt_keeps(ctx, x, *bd);
                let c = leave(fmt(ctx, x, *bd));
                assert(keeps(ctx, st, c));
                let o = push(newline(c), closing_text(ctx, n)).out;
                assert(o =~= fmt(ctx, x, block_body(n)).out + closing_line(c.indent, closing_text(ctx, n)));
                if fmt(ctx, st, n).ok {
                    assert(x.indent == st.indent + 1);
                }
            },
            _ => {},
        }
    }
}

/// The range operator: `...` where the end is left out, else `..`.
pub open spec fn range_operator(exclude_end: bool) -> Seq<u8> {
    if exclude_end {
        seq![46u8, 46u8, 46u8]
    } else {
        seq![46u8, 46u8]
    }
}

/// `st` with an optional node printed.
pub open spec fn then_opt(ctx: Ctx, st: St, o: Option<Box<SyntaxNode>>) -> St {
    match o {
        Some(x) => fmt(ctx, st, *x),
        None => st,
    }
}

/// A range is printed as its left end, the operator it was written with
/// (`...` exactly where the end is left out, else `..`), then its right end.
pub proof fn law_range_operator(ctx: Ctx, st: St, n: SyntaxNode)
    requires
        st.ok,
    ensures
        n.kind matches Kind::Range { left, right, exclude_end } ==> fmt(ctx, st, n) == then_opt(
            ctx,
            push(then_opt(ctx, st, left), range_operator(exclude_end)),
            right,
        ),
{
    lemma_dots();
}

/// A call with its block taken away.
pub open spec fn without_block(n: SyntaxNode) -> SyntaxNode {
    match n.kind {
        Kind::Call { receiver, call_operator, name, message, opening, arguments, .. } => SyntaxNode {
            loc: n.loc,
            kind: Kind::Call { receiver, call_operator, name, message, opening, arguments, block: None },
        },
        _ => n,
    }
}

/// A call with a block prints as the call without it, a space, then the
/// block, whether the call stands alone or as a link of a broken chain.
pub proof fn law_call_ends_with_block(ctx: Ctx, st: St, n: SyntaxNode, with_receiver: bool)
    requires
        st.ok,
    ensures
        n.kind matches Kind::Call { block: Some(bl), .. } ==> single_call(ctx, st, n, with_receiver) == fmt(
            ctx,
            lit(single_call(ctx, st, without_block(n), with_receiver), " "),
            *bl,
        ),
{
}

/// The state after a call's receiver and call operator are printed.
pub open spec fn receiver_printed(ctx: Ctx, st: St, n: SyntaxNode) -> St {
    match n.kind {
        Kind::Call { receiver: Some(r), call_operator, .. } => {
            let x = fmt(ctx, st, *r);
            match call_operator {
                Some(op) => push(x, utf8_or(span_text(ctx.src, op), ".".spec_bytes())),
                None => x,
            }
        },
        _ => st,
    }
}

/// Printing a call with its receiver is printing the receiver, then exactly
/// what is printed for the call as a link of a broken chain.
pub proof fn law_call_link_is_call_without_receiver(ctx: Ctx, st: St, n: SyntaxNode)
    requires
        st.ok,
        receiver_printed(ctx, st, n).ok,
        n.kind is Call,
    ensures
        single_call(ctx, st, n, true) == single_call(ctx, receiver_printed(ctx, st, n), n, false),
{
}

/// An optional node as a list of none or one.
pub open spec fn opt_seq(o: Option<Box<SyntaxNode>>) -> Seq<SyntaxNode> {
    match o {
        Some(x) => seq![*x],
        None => Seq::empty(),
    }
}

/// The parameters of a parameter list, in the order they are printed.
pub open spec fn parameter_seq(n: SyntaxNode) -> Seq<SyntaxNode> {
    match n.kind {
        Kind::Parameters { requireds, optionals, rest, keywords, keyword_rest, block } => requireds@
            + optionals@ + opt_seq(rest) + keywords@ + opt_seq(keyword_rest) + opt_seq(block),
        _ => Seq::empty(),
    }
}

/// Printing the first `i` nodes of a list depends on those nodes only.
proof fn lemma_commas_prefix(ctx: Ctx, st: St, s: Seq<SyntaxNode>, t: Seq<SyntaxNode>, i: int, lead: bool)
    requires
        0 <= i <= s.len(),
        i <= t.len(),
        forall|k: int| 0 <= k < i ==> s[k] == t[k],
    ensures
        commas(ctx, st, s, i, lead) == commas(ctx, st, t, i, lead),
    decreases i,
{
    if i > 0 {
        lemma_commas_prefix(ctx, st, s, t, i - 1, lead);
    }
}

/// Printing a list that is two lists one after the other is printing the
/// first, then the second with a comma before its first node where the first
/// was not empty.
proof fn lemma_commas_concat(ctx: Ctx, st: St, s1: Seq<SyntaxNode>, s2: Seq<SyntaxNode>, j: int, lead: bool)
    requires
        0 <= j <= s2.len(),
    ensures
        ({
            let l = commas(ctx, st, s1 + s2, s1.len() + j, lead);
            let r = commas(ctx, commas(ctx, st, s1, s1.len() as int, lead), s2, j, lead || s1.len() > 0);
            l.ok || r.ok ==> l == r
        }),
    decreases j,
{
    let s = s1 + s2;
    let b = commas(ctx, st, s1, s1.len() as int, lead);
    let l2 = lead || s1.len() > 0;
    lemma_commas_keeps(ctx, st, s1, s1.len() as int, lead);
    if j == 0 {
        lemma_commas_prefix(ctx, st, s, s1, s1.len() as int, lead);
    } else {
        lemma_commas_concat(ctx, st, s1, s2, j - 1, lead);
        let p = commas(ctx, st, s, s1.len() + j - 1, lead);
        let q = commas(ctx, b, s2, j - 1, l2);
        lemma_commas_keeps(ctx, st, s, s1.len() + j - 1, lead);
        lemma_commas_keeps(ctx, b, s2, j - 1, l2);
        lemma_fmt_keeps(ctx, comma_if(p, lead || s1.len() + j - 1 > 0), s[s1.len() + j - 1]);
        lemma_fmt_keeps(ctx, comma_if(q, l2 || j - 1 > 0), s2[j - 1]);
        assert(s[s1.len() + j - 1] == s2[j - 1]);
    }
}

/// `lemma_commas_concat` over whole lists.
proof fn lemma_commas_join(ctx: Ctx, st: St, s1: Seq<SyntaxNode>, s2: Seq<SyntaxNode>, lead: bool)
    ensures
        ({
            let l = commas(ctx, st, s1 + s2, (s1 + s2).len() as int, lead);
            let r = commas(
                ctx,
                commas(ctx, st, s1, s1.len() as int, lead),
                s2,
                s2.len() as int,
                lead || s1.len() > 0,
            );
            l.ok || r.ok ==> l == r
        }),
{
    lemma_commas_concat(ctx, st, s1, s2, s2.len() as int, lead);
}

/// Printing a list of none or one node.
proof fn lemma_commas_opt(ctx: Ctx, st: St, o: Option<Box<SyntaxNode>>, lead: bool)
    requires
        st.ok,
    ensures
        commas(ctx, st, opt_seq(o), opt_seq(o).len() as int, lead) == match o {
            Some(x) => fmt(ctx, comma_if(st, lead), *x),
            None => st,
        },
{
    match o {
        Some(x) => {
            let s = opt_seq(o);
            assert(s.len() == 1 && s[0] == *x);
            assert(commas(ctx, st, s, 0, lead) == st);
        },
        None => {},
    }
}

/// A parameter list prints as its parameters, of whatever kinds, in order,
/// with exactly one `", "` between any two and none before the first.
pub proof fn law_parameters_joined(ctx: Ctx, st: St, n: SyntaxNode)
    requires
        n.kind is Parameters,
    ensures
        fmt(ctx, st, n).ok || commas(ctx, st, parameter_seq(n), parameter_seq(n).len() as int, false).ok
            ==> fmt(ctx, st, n) == commas(ctx, st, parameter_seq(n), parameter_seq(n).len() as int, false),
{
    if st.ok {
        match n.kind {
            Kind::Parameters { requireds, optionals, rest, keywords, keyword_rest, block } => {
                let s1 = requireds@;
                let s2 = s1 + optionals@;
                let s3 = s2 + opt_seq(rest);
                let s4 = s3 + keywords@;
                let s5 = s4 + opt_seq(keyword_rest);
                let s6 = s5 + opt_seq(block);
                assert(parameter_seq(n) == s6);
                let c1 = commas(ctx, st, s1, s1.len() as int, false);
                let c2 = commas(ctx, st, s2, s2.len() as int, false);
                let c3 = commas(ctx, st, s3, s3.len() as int, false);
                let c4 = commas(ctx, st, s4, s4.len() as int, false);
                let c5 = commas(ctx, st, s5, s5.len() as int, false);
                let c6 = commas(ctx, st, s6, s6.len() as int, false);
                lemma_commas_join(ctx, st, s1, optionals@, false);
                lemma_commas_join(ctx, st, s2, opt_seq(rest), false);
                lemma_commas_join(ctx, st, s3, keywords@, false);
                lemma_commas_join(ctx, st, s4, opt_seq(keyword_rest), false);
                lemma_commas_join(ctx, st, s5, opt_seq(block), false);
                lemma_commas_keeps(ctx, st, s1, s1.len() as int, false);
                lemma_commas_keeps(ctx, st, s2, s2.len() as int, false);
                lemma_commas_keeps(ctx, st, s3, s3.len() as int, false);
                lemma_commas_keeps(ctx, st, s4, s4.len() as int, false);
                lemma_commas_keeps(ctx, st, s5, s5.len() as int, false);
                lemma_commas_keeps(ctx, c1, optionals@, optionals@.len() as int, s1.len() > 0);
                lemma_commas_keeps(ctx, c2, opt_seq(rest), opt_seq(rest).len() as int, s2.len() > 0);
                lemma_commas_keeps(ctx, c3, keywords@, keywords@.len() as int, s3.len() > 0);
                lemma_commas_keeps(ctx, c4, opt_seq(keyword_rest), opt_seq(keyword_rest).len() as int, s4.len() > 0);
                lemma_commas_keeps(ctx, c5, opt_seq(block), opt_seq(block).len() as int, s5.len() > 0);
                if c2.ok {
                    lemma_commas_opt(ctx, c2, rest, s2.len() > 0);
                }
                if c4.ok {
                    lemma_commas_opt(ctx, c4, keyword_rest, s4.len() > 0);
                }
                if c5.ok {
                    lemma_commas_opt(ctx, c5, block, s5.len() > 0);
                }
                let r = fmt_parameters(ctx, st, n);
                assert(fmt(ctx, st, n) == r);
                // the same chain as printed by the parameter rule
                let a = commas(ctx, st, requireds@, requireds@.len() as int, false);
                let b = commas(ctx, a, optionals@, optionals@.len() as int, requireds@.len() > 0);
                let l2 = requireds@.len() > 0 || optionals@.len() > 0;
                let c = match rest {
                    Some(x) => fmt(ctx, comma_if(b, l2), *x),
                    None => b,
                };
                let l3 = l2 || rest is Some;
                let d = commas(ctx, c, keywords@, keywords@.len() as int, l3);
                let l4 = l3 || keywords@.len() > 0;
                let e = match keyword_rest {
                    Some(x) => fmt(ctx, comma_if(d, l4), *x),
                    None => d,
                };
                let l5 = l4 || keyword_rest is Some;
                lemma_commas_keeps(ctx, a, optionals@, optionals@.len() as int, requireds@.len() > 0);
                match rest {
                    Some(x) => lemma_fmt_keeps(ctx, comma_if(b, l2), *x),
                    None => {},
                }
                lemma_commas_keeps(ctx, c, keywords@, keywords@.len() as int, l3);
                match keyword_rest {
                    Some(x) => lemma_fmt_keeps(ctx, comma_if(d, l4), *x),
                    None => {},
                }
                match block {
                    Some(x) => lemma_fmt_keeps(ctx, comma_if(e, l5), *x),
                    None => {},
                }
                assert(s2.len() > 0 <==> l2);
                assert(s3.len() > 0 <==> l3);
                assert(s4.len() > 0 <==> l4);
                assert(s5.len() > 0 <==> l5);
            },
            _ => {},
        }
    }
}

} // verus!
