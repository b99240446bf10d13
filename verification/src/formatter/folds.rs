//! The loops of the printer: over statements, comma-separated lists, the parts
//! of an interpolated string, and the elements of arrays and hashes that are
//! broken over lines.
use vstd::prelude::*;
use crate::formatter::{advanced, Formatter};
use crate::layout::{array_items, commas, each, hash_items, statements, str_parts};
use crate::syntax::{Kind, SyntaxNode};
use crate::text::{contains_byte, span_slice, str_from_utf8, LF};

verus! {

impl<'pr> Formatter<'pr> {
    /// Prints the nodes one after another.
    pub(crate) fn visit_each(&mut self, s: &Vec<SyntaxNode>)
        requires
            old(self).wf(),
        ensures
            advanced(*old(self), *final(self), each(old(self).ctx(), old(self).st(), s@, s@.len() as int)),
        decreases s, 0int,
    {
        if !self.ok {
            return;
        }
        let ghost ctx = self.ctx();
        let ghost st0 = self.st();
        let mut i: usize = 0;
        while i < s.len()
            invariant
                self.wf(),
                self.ctx() == ctx,
                ctx == old(self).ctx(),
                st0 == old(self).st(),
                st0.ok,
                i <= s@.len(),
                self.st() == each(ctx, st0, s@, i as int),
            decreases s@.len() - i,
        {
            self.visit(&s[i]);
            i += 1;
        }
    }

    /// Prints the nodes with `", "` before each, but before the first one only
    /// where `lead` holds.
    pub(crate) fn visit_commas(&mut self, s: &Vec<SyntaxNode>, lead: bool)
        requires
            old(self).wf(),
        ensures
            advanced(*old(self), *final(self), commas(old(self).ctx(), old(self).st(), s@, s@.len() as int, lead)),
        decreases s, 0int,
    {
        if !self.ok {
            return;
        }
        let ghost ctx = self.ctx();
        let ghost st0 = self.st();
        let mut i: usize = 0;
        while i < s.len()
            invariant
                self.wf(),
                self.ctx() == ctx,
                ctx == old(self).ctx(),
                st0 == old(self).st(),
                st0.ok,
                i <= s@.len(),
                self.st() == commas(ctx, st0, s@, i as int, lead),
            decreases s@.len() - i,
        {
            if lead || i > 0 {
                self.push_str(", ");
            }
            self.visit(&s[i]);
            i += 1;
        }
    }

    /// Prints a statement list: each statement on a line of its own, keeping a
    /// blank line where the source has one, with the comments before each.
    pub(crate) fn visit_statements(&mut self, s: &Vec<SyntaxNode>)
        requires
            old(self).wf(),
        ensures
            advanced(*old(self), *final(self), statements(old(self).ctx(), old(self).st(), s@, s@.len() as int)),
        decreases s, 0int,
    {
        if !self.ok {
            return;
        }
        let ghost ctx = self.ctx();
        let ghost st0 = self.st();
        let mut i: usize = 0;
        while i < s.len()
            invariant
                self.wf(),
                self.ctx() == ctx,
                ctx == old(self).ctx(),
                st0 == old(self).st(),
                st0.ok,
                i <= s@.len(),
                self.st() == statements(ctx, st0, s@, i as int),
            decreases s@.len() - i,
        {
            let cur = s[i].loc.start;
            self.flush_comments(cur);
            if i > 0 {
                let last = self.last_source_pos;
                self.maybe_preserve_empty_line(last, cur);
                self.newline();
            } else {
                let last = self.last_source_pos;
                if last > cur || cur > self.source.len() {
                    self.ok = false;
                } else {
                    let gap = &self.source[last..cur];
                    if contains_byte(gap, LF) {
                        self.newline();
                    }
                }
            }
            self.visit(&s[i]);
            self.last_source_pos = s[i].loc.end;
            i += 1;
        }
    }

    /// Prints the parts of an interpolated string: literal parts as they are,
    /// the others inside `#{...}`.
    pub(crate) fn visit_str_parts(&mut self, s: &Vec<SyntaxNode>)
        requires
            old(self).wf(),
        ensures
            advanced(*old(self), *final(self), str_parts(old(self).ctx(), old(self).st(), s@, s@.len() as int)),
        decreases s, 0int,
    {
        if !self.ok {
            return;
        }
        let ghost ctx = self.ctx();
        let ghost st0 = self.st();
        let mut i: usize = 0;
        while i < s.len()
            invariant
                self.wf(),
                self.ctx() == ctx,
                ctx == old(self).ctx(),
                st0 == old(self).st(),
                st0.ok,
                i <= s@.len(),
                self.st() == str_parts(ctx, st0, s@, i as int),
            decreases s@.len() - i,
        {
            let part = &s[i];
            match &part.kind {
                Kind::Str => {
                    let text = span_slice(self.source, part.loc);
                    if str_from_utf8(text).is_some() {
                        self.push_bytes(text);
                    }
                },
                _ => {
                    self.push_str("#{");
                    self.last_source_pos = part.loc.start;
                    self.visit(part);
                    self.push_str("}");
                    self.last_source_pos = part.loc.end;
                },
            }
            i += 1;
        }
    }

    /// Prints the elements of an array broken over lines: each on a line of
    /// its own and followed by a comma, with the comments before each.
    pub(crate) fn visit_array_items(&mut self, s: &Vec<SyntaxNode>)
        requires
            old(self).wf(),
        ensures
            advanced(*old(self), *final(self), array_items(old(self).ctx(), old(self).st(), s@, s@.len() as int)),
        decreases s, 0int,
    {
        if !self.ok {
            return;
        }
        let ghost ctx = self.ctx();
        let ghost st0 = self.st();
        let mut i: usize = 0;
        while i < s.len()
            invariant
                self.wf(),
                self.ctx() == ctx,
                ctx == old(self).ctx(),
                st0 == old(self).st(),
                st0.ok,
                i <= s@.len(),
                self.st() == array_items(ctx, st0, s@, i as int),
            decreases s@.len() - i,
        {
            let start = s[i].loc.start;
            self.flush_comments(start);
            let last = self.last_source_pos;
            self.maybe_preserve_empty_line(last, start);
            self.newline();
            self.visit(&s[i]);
            self.push_str(",");
            self.last_source_pos = s[i].loc.end;
            i += 1;
        }
    }

    /// Prints the elements of a hash broken over lines: each on a line of its
    /// own and followed by a comma.
    pub(crate) fn visit_hash_items(&mut self, s: &Vec<SyntaxNode>)
        requires
            old(self).wf(),
        ensures
            advanced(*old(self), *final(self), hash_items(old(self).ctx(), old(self).st(), s@, s@.len() as int)),
        decreases s, 0int,
    {
        if !self.ok {
            return;
        }
        let ghost ctx = self.ctx();
        let ghost st0 = self.st();
        let mut i: usize = 0;
        while i < s.len()
            invariant
                self.wf(),
                self.ctx() == ctx,
                ctx == old(self).ctx(),
                st0 == old(self).st(),
                st0.ok,
                i <= s@.len(),
                self.st() == hash_items(ctx, st0, s@, i as int),
            decreases s@.len() - i,
        {
            self.newline();
            self.visit(&s[i]);
            self.push_str(",");
            i += 1;
        }
    }
}

} // verus!
