//! The text buffer that the renderers write into, with indentation tracking.

use vstd::prelude::*;

verus! {

/// The text of `n` indentation levels: four spaces per level.
pub open spec fn indent_text(n: nat) -> Seq<char>
    decreases n,
{
    if n == 0 {
        Seq::empty()
    } else {
        indent_text((n - 1) as nat) + "    "@
    }
}

/// Growing buffer of rendered code. Every rendering method of the crate
/// appends to the buffer and leaves the indentation level as it found it.
pub struct CodeBuilder {
    /// The code rendered so far.
    pub code: String,
    /// Current indentation level, in steps of four spaces.
    pub indent: usize,
}

impl CodeBuilder {
    /// An empty buffer at indentation level zero.
    pub fn new() -> (r: CodeBuilder)
        ensures
            r.code@ == Seq::<char>::empty(),
            r.indent == 0,
    {
        CodeBuilder { code: String::new(), indent: 0 }
    }

    /// Appends `s` verbatim.
    pub fn write(&mut self, s: &str)
        ensures
            final(self).code@ == old(self).code@ + s@,
            final(self).indent == old(self).indent,
    {
        self.code.append(s);
    }

    /// Appends a line break.
    pub fn newline(&mut self)
        ensures
            final(self).code@ == old(self).code@ + "\n"@,
            final(self).indent == old(self).indent,
    {
        self.code.append("\n");
    }

    /// Appends the statement terminator.
    pub fn terminator(&mut self)
        ensures
            final(self).code@ == old(self).code@ + ";"@,
            final(self).indent == old(self).indent,
    {
        self.code.append(";");
    }

    /// Appends the spaces of the current indentation level.
    pub fn write_indent(&mut self)
        ensures
            final(self).code@ == old(self).code@ + indent_text(old(self).indent as nat),
            final(self).indent == old(self).indent,
    {
        let mut i: usize = 0;
        while i < self.indent
            invariant
                i <= self.indent,
                self.code@ == old(self).code@ + indent_text(i as nat),
                self.indent == old(self).indent,
            decreases self.indent - i,
        {
            self.code.append("    ");
            i = i + 1;
        }
    }

    /// Raises the indentation level by one step.
    pub fn inc_indent(&mut self)
        requires
            old(self).indent < usize::MAX,
        ensures
            final(self).code@ == old(self).code@,
            final(self).indent == old(self).indent + 1,
    {
        self.indent = self.indent + 1;
    }

    /// Lowers the indentation level by one step.
    pub fn dec_indent(&mut self)
        requires
            old(self).indent > 0,
        ensures
            final(self).code@ == old(self).code@,
            final(self).indent == old(self).indent - 1,
    {
        self.indent = self.indent - 1;
    }

    /// Hands the rendered text out, consuming the buffer.
    pub fn into_code(self) -> (r: String)
        ensures
            r@ == self.code@,
    {
        self.code
    }
}

} // verus!
