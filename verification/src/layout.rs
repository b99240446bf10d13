//! The formatting rules, stated as functions from a printer state to the next.
//!
//! `fmt` gives, for a node and the state the printer is in when it reaches
//! the node, the state after the node has been printed.  The state holds the
//! output so far, the indentation level, the column the printer believes it is
//! at, the end of the last source region printed (which decides where blank
//! lines are kept), how many comments have been printed, and whether printing
//! has gone wrong (`ok` is false from the point where a token's text is not
//! UTF-8, a source range is inverted or out of bounds, or the indentation would
//! overflow; nothing after that point is meaningful).
use vstd::prelude::*;
use vstd::string::*;
use crate::syntax::{Kind, SyntaxNode, Span};
use crate::text::{
    char_count, comment_body, count_newlines, is_binary_operator, latin1_text, span_len, span_text, utf8_or, COLON,
    HASH, LF,
};

verus! {

/// What stays fixed while a tree is printed.
pub struct Ctx {
    pub src: Seq<u8>,
    pub comments: Seq<Span>,
    pub width: usize,
}

/// The printer's state.
pub struct St {
    pub out: Seq<u8>,
    pub indent: usize,
    pub col: usize,
    pub last: usize,
    pub next: nat,
    pub ok: bool,
}

/// `a + b`, or `usize::MAX` where that does not fit.
pub open spec fn sat_add(a: usize, b: nat) -> usize {
    if a + b > usize::MAX {
        usize::MAX
    } else {
        (a + b) as usize
    }
}

/// `n` spaces.
pub open spec fn spaces(n: nat) -> Seq<u8> {
    Seq::new(n, |i: int| 32u8)
}

/// Appends `b` to the output, moving the column by the number of characters
/// it holds.
pub open spec fn push(st: St, b: Seq<u8>) -> St {
    St { out: st.out + b, col: sat_add(st.col, char_count(b)), ..st }
}

/// Appends `b` to the output without moving the column.
pub open spec fn push_raw(st: St, b: Seq<u8>) -> St {
    St { out: st.out + b, ..st }
}

/// Appends the text `s`.
pub open spec fn lit(st: St, s: &str) -> St {
    push(st, s.spec_bytes())
}

/// Starts a new line indented by two spaces per level.
pub open spec fn newline(st: St) -> St {
    St {
        out: st.out + seq![LF] + spaces(2 * st.indent as nat),
        col: sat_add(0, 2 * st.indent as nat),
        ..st
    }
}

/// Marks the state as gone wrong.
pub open spec fn fail(st: St) -> St {
    St { ok: false, ..st }
}

/// Records `pos` as the end of the last source region printed.
pub open spec fn set_last(st: St, pos: usize) -> St {
    St { last: pos, ..st }
}

/// One level deeper.
pub open spec fn enter(st: St) -> St {
    if st.indent == usize::MAX {
        fail(st)
    } else {
        St { indent: (st.indent + 1) as usize, ..st }
    }
}

/// One level back (never below the first level).
pub open spec fn leave(st: St) -> St {
    St { indent: if st.indent > 0 { (st.indent - 1) as usize } else { 0 }, ..st }
}

/// Appends the text of a token that must be UTF-8.
pub open spec fn push_utf8(st: St, b: Seq<u8>) -> St {
    if vstd::utf8::valid_utf8(b) {
        push(st, b)
    } else {
        fail(st)
    }
}

/// `", "` where `lead` holds.
pub open spec fn comma_if(st: St, lead: bool) -> St {
    if lead {
        lit(st, ", ")
    } else {
        st
    }
}

/// Keeps one blank line where the source between `prev_end` and `next_start`
/// holds more than one line feed.
pub open spec fn preserve_blank(ctx: Ctx, st: St, prev_end: usize, next_start: usize) -> St {
    if prev_end >= next_start {
        st
    } else if next_start > ctx.src.len() {
        fail(st)
    } else if count_newlines(ctx.src.subrange(prev_end as int, next_start as int)) > 1 {
        St { out: st.out.push(LF), col: 0, ..st }
    } else {
        st
    }
}

/// Prints, each on a line of its own, the comments not yet printed that end
/// at or before `offset`.
pub open spec fn flush(ctx: Ctx, st: St, offset: usize) -> St
    decreases ctx.comments.len() - st.next,
{
    if !st.ok {
        st
    } else if st.next < ctx.comments.len() && ctx.comments[st.next as int].end <= offset {
        let c = ctx.comments[st.next as int];
        let a = St { next: st.next + 1, ..st };
        let b = preserve_blank(ctx, a, a.last, c.start);
        let d = lit(newline(b), "# ");
        let e = push(d, comment_body(span_text(ctx.src, c)));
        flush(ctx, set_last(e, c.end), offset)
    } else {
        st
    }
}

/// The estimated width of a call chain's head: the receivers, call
/// operators, method names and argument lists, without blocks.
pub open spec fn header_len(n: SyntaxNode) -> usize
    decreases n,
{
    match n.kind {
        Kind::Call { receiver, call_operator, message, opening, arguments, .. } => {
            let a: usize = match receiver {
                Some(r) => {
                    let rl: usize = match r.kind {
                        Kind::Call { .. } => header_len(*r),
                        _ => sat_add(0, span_len(r.loc)),
                    };
                    match call_operator {
                        Some(op) => sat_add(rl, span_len(op)),
                        None => rl,
                    }
                },
                None => 0,
            };
            let b: usize = match message {
                Some(m) => sat_add(a, span_len(m)),
                None => a,
            };
            match arguments {
                Some(args) => {
                    let c = sat_add(b, span_len(args.loc));
                    if opening is Some {
                        sat_add(c, 2)
                    } else {
                        c
                    }
                },
                None => b,
            }
        },
        _ => 0,
    }
}

/// Whether `n` is a call whose receiver is a call (a chain of two or more).
pub open spec fn receiver_is_call(n: SyntaxNode) -> bool {
    match n.kind {
        Kind::Call { receiver: Some(r), .. } => r.kind is Call,
        _ => false,
    }
}

/// The estimated width of an array printed on one line: brackets, separators
/// and the source width of the first `i` elements.
pub open spec fn array_width(s: Seq<SyntaxNode>, i: int) -> usize
    decreases i,
{
    if i <= 0 {
        let k: nat = if s.len() >= 1 { (s.len() - 1) as nat } else { 0 };
        let twice: usize = if 2 * k > usize::MAX { usize::MAX } else { (2 * k) as usize };
        sat_add(2, twice as nat)
    } else {
        sat_add(array_width(s, i - 1), span_len(s[i - 1].loc))
    }
}

/// Prints a node.
pub open spec fn fmt(ctx: Ctx, st: St, n: SyntaxNode) -> St
    decreases n, 20int,
{
    if !st.ok {
        st
    } else {
        match n.kind {
            Kind::Statements { body } => statements(ctx, st, body@, body@.len() as int),
            Kind::If { .. } => fmt_if(ctx, st, n),
            Kind::Else { statements } => match statements {
                Some(s) => fmt(ctx, st, *s),
                None => st,
            },
            Kind::Call { .. } => fmt_call(ctx, st, n),
            Kind::Arguments { arguments } => commas(ctx, st, arguments@, arguments@.len() as int, false),
            Kind::Integer => if vstd::utf8::valid_utf8(span_text(ctx.src, n.loc)) {
                push(st, span_text(ctx.src, n.loc))
            } else {
                st
            },
            Kind::Str => if vstd::utf8::valid_utf8(span_text(ctx.src, n.loc)) {
                push(st, span_text(ctx.src, n.loc))
            } else {
                st
            },
            Kind::InterpolatedStr { parts } => {
                let a = lit(st, "\"");
                let b = str_parts(ctx, a, parts@, parts@.len() as int);
                set_last(lit(b, "\""), n.loc.end)
            },
            Kind::EmbeddedStatements { statements } => match statements {
                Some(s) => fmt(ctx, st, *s),
                None => st,
            },
            Kind::LocalVariableWrite { name, name_loc, value } => {
                let a = lit(push(st, latin1_text(name@)), " = ");
                fmt(ctx, set_last(a, name_loc.end), *value)
            },
            Kind::LocalVariableRead { name } => push(st, latin1_text(name@)),
            Kind::InstanceVariableRead { name } => push(st, latin1_text(name@)),
            Kind::Array { .. } => fmt_array(ctx, st, n),
            Kind::Hash { elements } => {
                let a = flush(ctx, st, n.loc.start);
                if elements@.len() == 0 {
                    lit(a, "{}")
                } else {
                    let b = lit(a, "{");
                    let c = if elements@.len() > 2 || span_text(ctx.src, n.loc).contains(LF) {
                        newline(leave(hash_items(ctx, enter(b), elements@, elements@.len() as int)))
                    } else {
                        lit(commas(ctx, lit(b, " "), elements@, elements@.len() as int, false), " ")
                    };
                    lit(c, "}")
                }
            },
            Kind::Assoc { key, value, operator } => {
                let a = fmt(ctx, st, *key);
                if key.loc.end == value.loc.end {
                    lit(a, ":")
                } else {
                    match operator {
                        Some(op) => {
                            let text = utf8_or(span_text(ctx.src, op), "=>".spec_bytes());
                            if text == ":".spec_bytes() {
                                fmt(ctx, lit(a, ": "), *value)
                            } else {
                                fmt(ctx, lit(a, " => "), *value)
                            }
                        },
                        None => fmt(ctx, lit(a, ": "), *value),
                    }
                }
            },
            Kind::KeywordHash { elements } => commas(ctx, st, elements@, elements@.len() as int, false),
            Kind::Symbol { content } => {
                let text = span_text(ctx.src, n.loc);
                if text.len() > 0 && text[0] == COLON {
                    push(st, utf8_or(text, "".spec_bytes()))
                } else {
                    push(st, latin1_text(span_text(ctx.src, content)))
                }
            },
            Kind::True => lit(st, "true"),
            Kind::False => lit(st, "false"),
            Kind::Nil => lit(st, "nil"),
            Kind::SelfRef => lit(st, "self"),
            Kind::Def { .. } => fmt_def(ctx, st, n),
            Kind::Parameters { .. } => fmt_parameters(ctx, st, n),
            Kind::RequiredParameter => push_utf8(st, span_text(ctx.src, n.loc)),
            Kind::OptionalParameter { name_loc, value } => {
                let a = lit(push_utf8(st, span_text(ctx.src, name_loc)), " = ");
                fmt(ctx, set_last(a, name_loc.end), *value)
            },
            Kind::RestParameter { name_loc } => {
                let a = lit(st, "*");
                match name_loc {
                    Some(l) => push_utf8(a, span_text(ctx.src, l)),
                    None => a,
                }
            },
            Kind::BlockParameter => push_utf8(st, span_text(ctx.src, n.loc)),
            Kind::Class { .. } => fmt_class(ctx, st, n),
            Kind::Module { constant_path, body } => {
                let a = fmt(ctx, lit(st, "module "), *constant_path);
                let b = match body {
                    Some(bd) => leave(fmt(ctx, set_last(enter(a), constant_path.loc.end), *bd)),
                    None => a,
                };
                set_last(lit(newline(b), "end"), n.loc.end)
            },
            Kind::ConstantPath { parent, name, delimiter, name_loc } => {
                let a = match parent {
                    Some(p) => lit(fmt(ctx, st, *p), "::"),
                    None => if delimiter.start != name_loc.start {
                        lit(st, "::")
                    } else {
                        st
                    },
                };
                match name {
                    Some(nm) => push(a, latin1_text(nm@)),
                    None => a,
                }
            },
            Kind::ConstantRead => push_utf8(st, span_text(ctx.src, n.loc)),
            Kind::RequiredKeywordParameter { name_loc } => push_utf8(st, span_text(ctx.src, name_loc)),
            Kind::OptionalKeywordParameter { name_loc, value } => {
                fmt(ctx, lit(push_utf8(st, span_text(ctx.src, name_loc)), " "), *value)
            },
            Kind::KeywordRestParameter { name_loc } => {
                let a = lit(st, "**");
                match name_loc {
                    Some(l) => push_utf8(a, span_text(ctx.src, l)),
                    None => a,
                }
            },
            Kind::InstanceVariableWrite { name_loc, value } => {
                fmt(ctx, lit(push_utf8(st, span_text(ctx.src, name_loc)), " = "), *value)
            },
            Kind::ConstantWrite { name_loc, value } => {
                fmt(ctx, lit(push_utf8(st, span_text(ctx.src, name_loc)), " = "), *value)
            },
            Kind::ConstantPathWrite { target, value } => {
                fmt(ctx, lit(fmt(ctx, st, *target), " = "), *value)
            },
            Kind::CallOperatorWrite { receiver, read_name, operator, value } => {
                let a = match receiver {
                    Some(r) => lit(fmt(ctx, st, *r), "."),
                    None => st,
                };
                let b = lit(push(a, utf8_or(read_name@, "".spec_bytes())), " ");
                fmt(ctx, lit(push(b, utf8_or(operator@, "".spec_bytes())), "= "), *value)
            },
            Kind::VariableOperatorWrite { name_loc, operator, value } => {
                let a = lit(push(st, utf8_or(span_text(ctx.src, name_loc), "".spec_bytes())), " ");
                fmt(ctx, lit(push(a, utf8_or(operator@, "".spec_bytes())), "= "), *value)
            },
            Kind::IndexOperatorWrite { receiver, arguments, operator, value } => {
                let a = match receiver {
                    Some(r) => fmt(ctx, st, *r),
                    None => st,
                };
                let b = lit(a, "[");
                let c = match arguments {
                    Some(args) => fmt(ctx, b, *args),
                    None => b,
                };
                let d = lit(lit(c, "]"), " ");
                fmt(ctx, lit(push(d, utf8_or(operator@, "".spec_bytes())), "= "), *value)
            },
            Kind::ConstantPathOperatorWrite { target, operator, value } => {
                let a = lit(fmt(ctx, st, *target), " ");
                fmt(ctx, lit(push(a, utf8_or(operator@, "".spec_bytes())), "= "), *value)
            },
            Kind::LocalVariableOrWrite { name_loc, value } => {
                let a = push(st, utf8_or(span_text(ctx.src, name_loc), "".spec_bytes()));
                fmt(ctx, lit(a, " ||= "), *value)
            },
            Kind::LocalVariableAndWrite { name_loc, value } => {
                let a = push(st, utf8_or(span_text(ctx.src, name_loc), "".spec_bytes()));
                fmt(ctx, lit(a, " &&= "), *value)
            },
            Kind::MultiWrite { lefts, value } => {
                let a = lit(commas(ctx, st, lefts@, lefts@.len() as int, false), " = ");
                match value.kind {
                    Kind::Array { elements, opening, .. } => if opening is Some {
                        fmt(ctx, a, *value)
                    } else {
                        commas(ctx, a, elements@, elements@.len() as int, false)
                    },
                    _ => fmt(ctx, a, *value),
                }
            },
            Kind::LocalVariableTarget { name } => push(st, utf8_or(name@, "".spec_bytes())),
            Kind::MultiTarget { lefts, rest, rights, lparen, rparen } => {
                let a = if lparen is Some {
                    lit(st, "(")
                } else {
                    st
                };
                let b = commas(ctx, a, lefts@, lefts@.len() as int, false);
                let c = match rest {
                    Some(r) => fmt(ctx, comma_if(b, lefts@.len() > 0), *r),
                    None => b,
                };
                let d = commas(ctx, c, rights@, rights@.len() as int, true);
                if rparen is Some {
                    lit(d, ")")
                } else {
                    d
                }
            },
            Kind::Splat { expression } => {
                let a = lit(st, "*");
                match expression {
                    Some(e) => fmt(ctx, a, *e),
                    None => a,
                }
            },
            Kind::AssocSplat { value } => {
                let a = lit(st, "**");
                match value {
                    Some(v) => fmt(ctx, a, *v),
                    None => a,
                }
            },
            Kind::Range { left, right, exclude_end } => {
                let a = match left {
                    Some(l) => fmt(ctx, st, *l),
                    None => st,
                };
                let b = if exclude_end {
                    lit(a, "...")
                } else {
                    lit(a, "..")
                };
                match right {
                    Some(r) => fmt(ctx, b, *r),
                    None => b,
                }
            },
            Kind::For { index, collection, statements } => {
                let a = fmt(ctx, lit(st, "for "), *index);
                let b = fmt(ctx, lit(a, " in "), *collection);
                let c = match statements {
                    Some(s) => leave(fmt(ctx, enter(b), *s)),
                    None => leave(enter(b)),
                };
                set_last(lit(newline(c), "end"), n.loc.end)
            },
            Kind::Lambda { opening, parameters, body } => {
                let a = lit(st, "->");
                let b = match parameters {
                    Some(p) => {
                        let parens = opening.start != opening.end;
                        let x = if parens {
                            lit(a, "(")
                        } else {
                            lit(a, " ")
                        };
                        let y = fmt(ctx, x, *p);
                        if parens {
                            lit(y, ")")
                        } else {
                            y
                        }
                    },
                    None => a,
                };
                let c = lit(b, " ");
                let d = match body {
                    Some(bd) => lit(newline(leave(fmt(ctx, enter(lit(c, "{")), *bd))), "}"),
                    None => lit(c, "{}"),
                };
                set_last(d, n.loc.end)
            },
            Kind::Block { .. } => fmt_block(ctx, st, n),
            Kind::BlockParameters { parameters, locals } => {
                let a = match parameters {
                    Some(p) => fmt(ctx, st, *p),
                    None => st,
                };
                if locals@.len() > 0 {
                    commas(ctx, lit(a, "; "), locals@, locals@.len() as int, false)
                } else {
                    a
                }
            },
            Kind::BlockLocalVariable { name } => push(st, utf8_or(name@, "".spec_bytes())),
            Kind::NumberLiteral => set_last(push_utf8(st, span_text(ctx.src, n.loc)), n.loc.end),
            Kind::Other { children } => each(ctx, st, children@, children@.len() as int),
        }
    }
}

/// Prints the first `i` nodes of `s` one after another.
pub open spec fn each(ctx: Ctx, st: St, s: Seq<SyntaxNode>, i: int) -> St
    decreases s, i,
{
    if !st.ok || i <= 0 || i > s.len() {
        st
    } else {
        fmt(ctx, each(ctx, st, s, i - 1), s[i - 1])
    }
}

/// Prints the first `i` nodes of `s` with `", "` before each, but before the
/// first one only where `lead` holds.
pub open spec fn commas(ctx: Ctx, st: St, s: Seq<SyntaxNode>, i: int, lead: bool) -> St
    decreases s, i,
{
    if !st.ok || i <= 0 || i > s.len() {
        st
    } else {
        fmt(ctx, comma_if(commas(ctx, st, s, i - 1, lead), lead || i - 1 > 0), s[i - 1])
    }
}

/// What comes between the statements of a list: after the first, a line
/// break (with one blank line kept where the source has one); before the
/// first, a line break only where the source has one there.
pub open spec fn statement_gap(ctx: Ctx, a: St, cur: usize, first: bool) -> St {
    if !first {
        newline(preserve_blank(ctx, a, a.last, cur))
    } else if a.last > cur || cur > ctx.src.len() {
        fail(a)
    } else if ctx.src.subrange(a.last as int, cur as int).contains(LF) {
        newline(a)
    } else {
        a
    }
}

/// Prints the first `i` statements of a statement list.
pub open spec fn statements(ctx: Ctx, st: St, s: Seq<SyntaxNode>, i: int) -> St
    decreases s, i,
{
    if !st.ok || i <= 0 || i > s.len() {
        st
    } else {
        let e = s[i - 1];
        let a = flush(ctx, statements(ctx, st, s, i - 1), e.loc.start);
        set_last(fmt(ctx, statement_gap(ctx, a, e.loc.start, i - 1 == 0), e), e.loc.end)
    }
}

/// Prints the first `i` parts of an interpolated string.
pub open spec fn str_parts(ctx: Ctx, st: St, s: Seq<SyntaxNode>, i: int) -> St
    decreases s, i,
{
    if !st.ok || i <= 0 || i > s.len() {
        st
    } else {
        let before = str_parts(ctx, st, s, i - 1);
        let e = s[i - 1];
        match e.kind {
            Kind::Str => if vstd::utf8::valid_utf8(span_text(ctx.src, e.loc)) {
                push(before, span_text(ctx.src, e.loc))
            } else {
                before
            },
            _ => {
                let a = set_last(lit(before, "#{"), e.loc.start);
                set_last(lit(fmt(ctx, a, e), "}"), e.loc.end)
            },
        }
    }
}

/// Prints the first `i` elements of an array that is broken over lines.
pub open spec fn array_items(ctx: Ctx, st: St, s: Seq<SyntaxNode>, i: int) -> St
    decreases s, i,
{
    if !st.ok || i <= 0 || i > s.len() {
        st
    } else {
        let before = array_items(ctx, st, s, i - 1);
        let e = s[i - 1];
        let a = flush(ctx, before, e.loc.start);
        let b = newline(preserve_blank(ctx, a, a.last, e.loc.start));
        set_last(lit(fmt(ctx, b, e), ","), e.loc.end)
    }
}

/// Prints the first `i` elements of a hash that is broken over lines.
pub open spec fn hash_items(ctx: Ctx, st: St, s: Seq<SyntaxNode>, i: int) -> St
    decreases s, i,
{
    if !st.ok || i <= 0 || i > s.len() {
        st
    } else {
        lit(fmt(ctx, newline(hash_items(ctx, st, s, i - 1)), s[i - 1]), ",")
    }
}

/// Prints an `if` node: ternary, modifier or full form.
pub open spec fn fmt_if(ctx: Ctx, st: St, n: SyntaxNode) -> St
    decreases n, 10int,
{
    if !st.ok {
        st
    } else {
        match n.kind {
            Kind::If { if_keyword, predicate, statements, subsequent, end_keyword } => {
                if if_keyword is None {
                    let a = lit(fmt(ctx, st, *predicate), " ? ");
                    let b = match statements {
                        Some(s) => match s.kind {
                            Kind::Statements { body } => if body@.len() > 0 {
                                fmt(ctx, a, body@[0])
                            } else {
                                a
                            },
                            _ => a,
                        },
                        None => a,
                    };
                    let c = lit(b, " : ");
                    match subsequent {
                        Some(e) => fmt(ctx, c, *e),
                        None => c,
                    }
                } else if end_keyword is None {
                    let a = match statements {
                        Some(s) => {
                            let x = match s.kind {
                                Kind::Statements { body } => if body@.len() > 0 {
                                    fmt(ctx, st, body@[0])
                                } else {
                                    st
                                },
                                _ => st,
                            };
                            lit(x, " ")
                        },
                        None => st,
                    };
                    fmt(ctx, lit(a, "if "), *predicate)
                } else {
                    full_if(ctx, st, n)
                }
            },
            _ => st,
        }
    }
}

/// The keyword an `if` node is printed with: its own, or `if`.
pub open spec fn if_keyword_text(ctx: Ctx, n: SyntaxNode) -> Seq<u8> {
    match n.kind {
        Kind::If { if_keyword: Some(k), .. } => span_text(ctx.src, k),
        _ => "if".spec_bytes(),
    }
}

/// Prints an `if`/`elsif` with its body, its `elsif` and `else` branches, and
/// (for the outermost `if`) its `end`.
pub open spec fn full_if(ctx: Ctx, st: St, n: SyntaxNode) -> St
    decreases n, 5int,
{
    if !st.ok {
        st
    } else {
        match n.kind {
            Kind::If { predicate, statements, subsequent, .. } => {
                let kw = if_keyword_text(ctx, n);
                let a = fmt(ctx, lit(push_utf8(st, kw), " "), *predicate);
                let b = match statements {
                    Some(s) => leave(fmt(ctx, set_last(enter(a), predicate.loc.end), *s)),
                    None => a,
                };
                let c = match subsequent {
                    Some(sub) => match sub.kind {
                        Kind::If { .. } => full_if(ctx, newline(b), *sub),
                        Kind::Else { statements: es } => {
                            let x = enter(lit(newline(b), "else"));
                            let y = if sub.loc.start > usize::MAX - 4 {
                                fail(x)
                            } else {
                                set_last(x, (sub.loc.start + 4) as usize)
                            };
                            leave(
                                match es {
                                    Some(e) => fmt(ctx, y, *e),
                                    None => y,
                                },
                            )
                        },
                        _ => b,
                    },
                    None => b,
                };
                if kw == "if".spec_bytes() {
                    lit(newline(c), "end")
                } else {
                    c
                }
            },
            _ => st,
        }
    }
}

/// Prints a call: a chain of calls is broken one call per line where its head
/// would pass the maximum width.
pub open spec fn fmt_call(ctx: Ctx, st: St, n: SyntaxNode) -> St
    decreases n, 10int,
{
    if !st.ok {
        st
    } else if receiver_is_call(n) && sat_add(st.col, header_len(n) as nat) > ctx.width {
        leave(chain_links(ctx, enter(chain_root(ctx, st, n)), n))
    } else {
        single_call(ctx, st, n, true)
    }
}

/// Prints the receiver at the root of a call chain, if there is one.
pub open spec fn chain_root(ctx: Ctx, st: St, n: SyntaxNode) -> St
    decreases n, 5int,
{
    if !st.ok {
        st
    } else {
        match n.kind {
            Kind::Call { receiver: Some(r), .. } => match r.kind {
                Kind::Call { .. } => chain_root(ctx, st, *r),
                _ => fmt(ctx, st, *r),
            },
            _ => st,
        }
    }
}

/// Prints each call of a chain on a line of its own, innermost first.
pub open spec fn chain_links(ctx: Ctx, st: St, n: SyntaxNode) -> St
    decreases n, 5int,
{
    if !st.ok {
        st
    } else {
        match n.kind {
            Kind::Call { receiver, call_operator, .. } => {
                let a = match receiver {
                    Some(r) => match r.kind {
                        Kind::Call { .. } => chain_links(ctx, st, *r),
                        _ => st,
                    },
                    None => st,
                };
                let b = newline(a);
                let c = match call_operator {
                    Some(op) => push_utf8(b, span_text(ctx.src, op)),
                    None => b,
                };
                single_call(ctx, c, n, false)
            },
            _ => st,
        }
    }
}

/// Prints one call: receiver (where `with_receiver`), name, arguments, block.
/// An index call `x[args]` (the method `[]` with no call operator) is printed
/// in that form, its arguments in the brackets.
pub open spec fn single_call(ctx: Ctx, st: St, n: SyntaxNode, with_receiver: bool) -> St
    decreases n, 2int,
{
    if !st.ok {
        st
    } else {
        match n.kind {
            Kind::Call { receiver, call_operator, name, opening, arguments, block, .. } => {
                let a = match receiver {
                    Some(r) => if with_receiver {
                        let x = fmt(ctx, st, *r);
                        match call_operator {
                            Some(op) => push(x, utf8_or(span_text(ctx.src, op), ".".spec_bytes())),
                            None => x,
                        }
                    } else {
                        st
                    },
                    None => st,
                };
                let nm = latin1_text(name@);
                let e = if nm == "[]".spec_bytes() && call_operator is None {
                    let x = lit(a, "[");
                    let y = match arguments {
                        Some(args) => fmt(ctx, x, *args),
                        None => x,
                    };
                    lit(y, "]")
                } else {
                    let is_op = is_binary_operator(nm);
                    let b = if is_op {
                        lit(a, " ")
                    } else {
                        a
                    };
                    let c = push(b, nm);
                    let d = if is_op {
                        lit(c, " ")
                    } else {
                        c
                    };
                    match arguments {
                        Some(args) => {
                            let x = if opening is Some {
                                lit(d, "(")
                            } else if !is_op {
                                lit(d, " ")
                            } else {
                                d
                            };
                            let y = fmt(ctx, x, *args);
                            if opening is Some {
                                lit(y, ")")
                            } else {
                                y
                            }
                        },
                        None => d,
                    }
                };
                match block {
                    Some(bl) => fmt(ctx, lit(e, " "), *bl),
                    None => e,
                }
            },
            _ => st,
        }
    }
}

/// Prints an array literal: on one line, or one element per line where it
/// holds a comment or would pass the maximum width.
pub open spec fn fmt_array(ctx: Ctx, st: St, n: SyntaxNode) -> St
    decreases n, 10int,
{
    if !st.ok {
        st
    } else {
        match n.kind {
            Kind::Array { elements, closing, .. } => {
                let s = elements@;
                if s.len() == 0 {
                    lit(st, "[]")
                } else {
                    let has_comments = span_text(ctx.src, n.loc).contains(HASH);
                    let broken = has_comments || sat_add(st.col, array_width(s, s.len() as int) as nat)
                        > ctx.width;
                    let a = lit(st, "[");
                    let b = if broken {
                        let x = leave(flush(ctx, array_items(ctx, enter(a), s, s.len() as int), n.loc.end));
                        let close = match closing {
                            Some(c) => c.start,
                            None => n.loc.end,
                        };
                        let y = flush(ctx, x, close);
                        newline(preserve_blank(ctx, y, y.last, close))
                    } else {
                        commas(ctx, a, s, s.len() as int, false)
                    };
                    lit(set_last(b, n.loc.end), "]")
                }
            },
            _ => st,
        }
    }
}

/// Prints a method definition.
pub open spec fn fmt_def(ctx: Ctx, st: St, n: SyntaxNode) -> St
    decreases n, 10int,
{
    if !st.ok {
        st
    } else {
        match n.kind {
            Kind::Def { name_loc, receiver, parameters, body } => {
                let a = lit(st, "def ");
                let b = match receiver {
                    Some(r) => lit(fmt(ctx, a, *r), "."),
                    None => a,
                };
                let c = push_utf8(b, span_text(ctx.src, name_loc));
                let d = match parameters {
                    Some(p) => lit(fmt(ctx, lit(c, "("), *p), ")"),
                    None => c,
                };
                let e = match body {
                    Some(bd) => {
                        let anchor = match parameters {
                            Some(p) => p.loc.end,
                            None => name_loc.end,
                        };
                        leave(fmt(ctx, set_last(enter(d), anchor), *bd))
                    },
                    None => d,
                };
                set_last(lit(newline(e), "end"), n.loc.end)
            },
            _ => st,
        }
    }
}

/// Prints a parameter list, all kinds of parameter separated by `", "`.
pub open spec fn fmt_parameters(ctx: Ctx, st: St, n: SyntaxNode) -> St
    decreases n, 10int,
{
    if !st.ok {
        st
    } else {
        match n.kind {
            Kind::Parameters { requireds, optionals, rest, keywords, keyword_rest, block } => {
                let a = commas(ctx, st, requireds@, requireds@.len() as int, false);
                let l1 = requireds@.len() > 0;
                let b = commas(ctx, a, optionals@, optionals@.len() as int, l1);
                let l2 = l1 || optionals@.len() > 0;
                let c = match rest {
                    Some(r) => fmt(ctx, comma_if(b, l2), *r),
                    None => b,
                };
                let l3 = l2 || rest is Some;
                let d = commas(ctx, c, keywords@, keywords@.len() as int, l3);
                let l4 = l3 || keywords@.len() > 0;
                let e = match keyword_rest {
                    Some(r) => fmt(ctx, comma_if(d, l4), *r),
                    None => d,
                };
                let l5 = l4 || keyword_rest is Some;
                match block {
                    Some(bl) => fmt(ctx, comma_if(e, l5), *bl),
                    None => e,
                }
            },
            _ => st,
        }
    }
}

/// Prints a class definition.
pub open spec fn fmt_class(ctx: Ctx, st: St, n: SyntaxNode) -> St
    decreases n, 10int,
{
    if !st.ok {
        st
    } else {
        match n.kind {
            Kind::Class { constant_path, superclass, body } => {
                let a = fmt(ctx, lit(st, "class "), *constant_path);
                let b = match superclass {
                    Some(s) => fmt(ctx, lit(a, " < "), *s),
                    None => a,
                };
                let c = match body {
                    Some(bd) => {
                        let anchor = match superclass {
                            Some(s) => s.loc.end,
                            None => constant_path.loc.end,
                        };
                        leave(fmt(ctx, set_last(enter(b), anchor), *bd))
                    },
                    None => b,
                };
                set_last(lit(newline(c), "end"), n.loc.end)
            },
            _ => st,
        }
    }
}

/// Prints a block, `{ ... }` on one line or `do ... end` over several.
pub open spec fn fmt_block(ctx: Ctx, st: St, n: SyntaxNode) -> St
    decreases n, 10int,
{
    if !st.ok {
        st
    } else {
        match n.kind {
            Kind::Block { opening, parameters, body, closing } => {
                let open = utf8_or(span_text(ctx.src, opening), "".spec_bytes());
                let a = push(st, open);
                let b = match parameters {
                    Some(p) => lit(fmt(ctx, lit(a, " |"), *p), "|"),
                    None => a,
                };
                let c = match body {
                    Some(bd) => if open == "do".spec_bytes() {
                        newline(leave(fmt(ctx, enter(b), *bd)))
                    } else {
                        lit(fmt(ctx, lit(b, " "), *bd), " ")
                    },
                    None => b,
                };
                set_last(push(c, utf8_or(span_text(ctx.src, closing), "".spec_bytes())), n.loc.end)
            },
            _ => st,
        }
    }
}

/// The state a printer starts in.
pub open spec fn initial(width: usize) -> St {
    St { out: Seq::empty(), indent: 0, col: 0, last: 0, next: 0, ok: true }
}

/// What formatting a whole parse result comes to: the root node printed, then
/// every comment not yet printed.
pub open spec fn format_all(src: Seq<u8>, root: SyntaxNode, comments: Seq<Span>, width: usize) -> St {
    let ctx = Ctx { src, comments, width };
    flush(ctx, fmt(ctx, initial(width), root), usize::MAX)
}

} // verus!

verus! {

/// Once printing has gone wrong, printing a node changes nothing.
pub broadcast proof fn lemma_fmt_stuck(ctx: Ctx, st: St, n: SyntaxNode)
    ensures
        !st.ok ==> #[trigger] fmt(ctx, st, n) == st,
{
}

/// Once printing has gone wrong, printing comments changes nothing.
pub broadcast proof fn lemma_flush_stuck(ctx: Ctx, st: St, offset: usize)
    ensures
        !st.ok ==> #[trigger] flush(ctx, st, offset) == st,
{
}

/// Once printing has gone wrong, printing a list changes nothing.
pub broadcast proof fn lemma_each_stuck(ctx: Ctx, st: St, s: Seq<SyntaxNode>, i: int)
    ensures
        !st.ok ==> #[trigger] each(ctx, st, s, i) == st,
{
}

/// Once printing has gone wrong, printing a list changes nothing.
pub broadcast proof fn lemma_commas_stuck(ctx: Ctx, st: St, s: Seq<SyntaxNode>, i: int, lead: bool)
    ensures
        !st.ok ==> #[trigger] commas(ctx, st, s, i, lead) == st,
{
}

/// Once printing has gone wrong, printing a list changes nothing.
pub broadcast proof fn lemma_statements_stuck(ctx: Ctx, st: St, s: Seq<SyntaxNode>, i: int)
    ensures
        !st.ok ==> #[trigger] statements(ctx, st, s, i) == st,
{
}

/// Once printing has gone wrong, printing a list changes nothing.
pub broadcast proof fn lemma_str_parts_stuck(ctx: Ctx, st: St, s: Seq<SyntaxNode>, i: int)
    ensures
        !st.ok ==> #[trigger] str_parts(ctx, st, s, i) == st,
{
}

/// Once printing has gone wrong, printing a list changes nothing.
pub broadcast proof fn lemma_array_items_stuck(ctx: Ctx, st: St, s: Seq<SyntaxNode>, i: int)
    ensures
        !st.ok ==> #[trigger] array_items(ctx, st, s, i) == st,
{
}

/// Once printing has gone wrong, printing a list changes nothing.
pub broadcast proof fn lemma_hash_items_stuck(ctx: Ctx, st: St, s: Seq<SyntaxNode>, i: int)
    ensures
        !st.ok ==> #[trigger] hash_items(ctx, st, s, i) == st,
{
}

/// Once printing has gone wrong, printing a node changes nothing.
pub broadcast proof fn lemma_full_if_stuck(ctx: Ctx, st: St, n: SyntaxNode)
    ensures
        !st.ok ==> #[trigger] full_if(ctx, st, n) == st,
{
}

/// Once printing has gone wrong, printing a node changes nothing.
pub broadcast proof fn lemma_chain_root_stuck(ctx: Ctx, st: St, n: SyntaxNode)
    ensures
        !st.ok ==> #[trigger] chain_root(ctx, st, n) == st,
{
}

/// Once printing has gone wrong, printing a node changes nothing.
pub broadcast proof fn lemma_chain_links_stuck(ctx: Ctx, st: St, n: SyntaxNode)
    ensures
        !st.ok ==> #[trigger] chain_links(ctx, st, n) == st,
{
}

/// Once printing has gone wrong, printing a node changes nothing.
pub broadcast proof fn lemma_single_call_stuck(ctx: Ctx, st: St, n: SyntaxNode, r: bool)
    ensures
        !st.ok ==> #[trigger] single_call(ctx, st, n, r) == st,
{
}

/// Once printing has gone wrong, printing stays wrong.
pub broadcast group group_stuck {
    lemma_fmt_stuck,
    lemma_flush_stuck,
    lemma_each_stuck,
    lemma_commas_stuck,
    lemma_statements_stuck,
    lemma_str_parts_stuck,
    lemma_array_items_stuck,
    lemma_hash_items_stuck,
    lemma_full_if_stuck,
    lemma_chain_root_stuck,
    lemma_chain_links_stuck,
    lemma_single_call_stuck,
}

} // verus!
