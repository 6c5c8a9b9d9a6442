//! A line writer that keeps track of the current indentation.

use std::fmt::Debug;
use vstd::prelude::*;
use vstd::string::*;
use vstd::utf8::*;

verus! {

/// Writes lines into a buffer, each behind the current indentation.
///
/// The indentation grows by one step with [`IndentedPrinter::indent`] and
/// shrinks by one step with [`IndentedPrinter::_unindent`].
pub struct IndentedPrinter {
    indent: String,
    indent_step: String,
}

/// The line that a printer with indentation `indent` writes for `line`.
pub open spec fn indented_line(indent: Seq<char>, line: Seq<char>) -> Seq<char> {
    indent + line
}

/// The heading line of a key and value pair: the key followed by a colon.
pub open spec fn key_line(indent: Seq<char>, key: Seq<char>) -> Seq<char> {
    indent + key + seq![':']
}

/// The value line of a key and value pair, one step deeper than the key.
pub open spec fn value_line(indent: Seq<char>, step: Seq<char>, value: Seq<char>) -> Seq<char> {
    indent + step + value
}

/// The text of each line of `lines`.
pub open spec fn line_texts(lines: Seq<String>) -> Seq<Seq<char>> {
    lines.map_values(|l: String| l@)
}

/// Whether one step can be taken off the end of `indent`: the step is no
/// longer than the indentation, byte for byte, and what is left ends
/// between two characters.
pub open spec fn can_unindent(indent: Seq<char>, step: Seq<char>) -> bool {
    &&& encode_utf8(step).len() <= encode_utf8(indent).len()
    &&& is_char_boundary(encode_utf8(indent), encode_utf8(indent).len() - encode_utf8(step).len())
}

/// `indent` without its last bytes, as many as `step` has.
pub open spec fn unindented(indent: Seq<char>, step: Seq<char>) -> Seq<char> {
    decode_utf8(
        encode_utf8(indent).subrange(0, encode_utf8(indent).len() - encode_utf8(step).len()),
    )
}

impl IndentedPrinter {
    /// The indentation that the next line starts with.
    pub closed spec fn current_indent(&self) -> Seq<char> {
        self.indent@
    }

    /// What one level of nesting adds to the indentation.
    pub closed spec fn step(&self) -> Seq<char> {
        self.indent_step@
    }

    /// A printer without indentation.
    pub fn _new(indent_step: &str) -> (printer: IndentedPrinter)
        ensures
            printer.current_indent() == Seq::<char>::empty(),
            printer.step() == indent_step@,
    {
        IndentedPrinter { indent: String::new(), indent_step: String::from_str(indent_step) }
    }

    /// A printer whose lines all start with `indent_base`.
    pub fn new_with_base(indent_base: &str, indent_step: &str) -> (printer: IndentedPrinter)
        ensures
            printer.current_indent() == indent_base@,
            printer.step() == indent_step@,
    {
        IndentedPrinter {
            indent: String::from_str(indent_base),
            indent_step: String::from_str(indent_step),
        }
    }

    /// Goes one level deeper.
    pub fn indent(&mut self)
        ensures
            final(self).current_indent() == old(self).current_indent() + old(self).step(),
            final(self).step() == old(self).step(),
    {
        self.indent.append(self.indent_step.as_str());
    }

    /// Goes one level back up: drops from the end of the indentation as many
    /// bytes as one step has.
    pub fn _unindent(&mut self)
        requires
            can_unindent(old(self).current_indent(), old(self).step()),
        ensures
            final(self).current_indent() == unindented(
                old(self).current_indent(),
                old(self).step(),
            ),
            final(self).step() == old(self).step(),
    {
        let shortened = {
            let whole = self.indent.as_str();
            let kept: usize = whole.as_bytes().len() - self.indent_step.as_str().as_bytes().len();
            let (head, _) = whole.split_at(kept);
            proof {
                encode_utf8_decode_utf8(head@);
            }
            String::from_str(head)
        };
        self.indent = shortened;
    }

    /// Writes `line` behind the current indentation.
    pub fn print_line(&self, line: &str, out: &mut Vec<String>)
        ensures
            line_texts(final(out)@) == line_texts(old(out)@).push(
                indented_line(self.current_indent(), line@),
            ),
    {
        let text = self.indent.clone().concat(line);
        out.push(text);
        assert(line_texts(out@) =~= line_texts(old(out)@).push(
            indented_line(self.current_indent(), line@),
        ));
    }

    /// Writes `key` with a colon, and `value` on a line of its own one step
    /// deeper.
    pub fn print_key_value(&self, key: &str, value: &str, out: &mut Vec<String>)
        ensures
            line_texts(final(out)@) == line_texts(old(out)@).push(
                key_line(self.current_indent(), key@),
            ).push(value_line(self.current_indent(), self.step(), value@)),
    {
        proof {
            reveal_strlit(":");
        }
        let heading = self.indent.clone().concat(key).concat(":");
        assert(heading@ =~= key_line(self.current_indent(), key@));
        let body = self.indent.clone().concat(self.indent_step.as_str()).concat(value);
        out.push(heading);
        out.push(body);
        assert(line_texts(out@) =~= line_texts(old(out)@).push(
            key_line(self.current_indent(), key@),
        ).push(value_line(self.current_indent(), self.step(), value@)));
    }

    /// Writes `key` with a colon, and below it the text that `value` has
    /// under `{:?}`.  What that text is lies with the value's `Debug` impl.
    pub fn print_key_value_debug<Val: Debug>(&self, key: &str, value: &Val, out: &mut Vec<String>)
        ensures
            exists|text: Seq<char>|
                line_texts(final(out)@) == line_texts(old(out)@).push(
                    key_line(self.current_indent(), key@),
                ).push(#[trigger] value_line(self.current_indent(), self.step(), text)),
    {
        let text = debug_text(value);
        self.print_key_value(key, text.as_str(), out);
        assert(line_texts(out@) == line_texts(old(out)@).push(
            key_line(self.current_indent(), key@),
        ).push(value_line(self.current_indent(), self.step(), text@)));
    }
}

/// `format!` with `{:?}`: the text that the `Debug` impl of `value` writes.
/// Nothing is claimed of that text.
#[verifier::external_body]
fn debug_text<Val: Debug>(value: &Val) -> String {
    format!("{:?}", value)
}

/// The encoding of two texts in a row is the two encodings in a row.
pub proof fn lemma_encode_utf8_concat(left: Seq<char>, right: Seq<char>)
    ensures
        encode_utf8(left + right) == encode_utf8(left) + encode_utf8(right),
    decreases left.len(),
{
    if left.len() == 0 {
        assert(left + right =~= right);
        assert(encode_utf8(left) + encode_utf8(right) =~= encode_utf8(right));
    } else {
        lemma_encode_utf8_concat(left.drop_first(), right);
        assert((left + right).drop_first() =~= left.drop_first() + right);
        assert((left + right)[0] == left[0]);
        assert(encode_utf8(left + right) =~= encode_utf8(left) + encode_utf8(right));
    }
}

/// The end of the encoding of `left`, within the encoding of `left` and
/// `right` in a row, lies between two characters.
pub proof fn lemma_boundary_after_prefix(left: Seq<char>, right: Seq<char>)
    ensures
        is_char_boundary(encode_utf8(left + right), encode_utf8(left).len() as int),
    decreases left.len(),
{
    let whole = encode_utf8(left + right);
    encode_utf8_valid_utf8(left + right);
    lemma_encode_utf8_concat(left, right);
    if left.len() == 0 {
    } else {
        let rest = left.drop_first();
        lemma_boundary_after_prefix(rest, right);
        lemma_encode_utf8_concat(rest, right);
        assert((left + right).drop_first() =~= rest + right);
        encode_utf8_first_scalar(left + right);
        encode_utf8_first_scalar(left);
        assert(pop_first_scalar(whole) =~= encode_utf8(rest + right));
        assert(encode_utf8(left).len() == length_of_first_scalar(whole) + encode_utf8(rest).len());
        assert(length_of_first_scalar(whole) > 0);
    }
}

/// One step can always be taken off an indentation that ends with it, and
/// what is left is the indentation before that step.
pub proof fn lemma_unindent_undoes_indent(indent: Seq<char>, step: Seq<char>)
    ensures
        can_unindent(indent + step, step),
        unindented(indent + step, step) == indent,
{
    lemma_encode_utf8_concat(indent, step);
    lemma_boundary_after_prefix(indent, step);
    let whole = encode_utf8(indent + step);
    assert(whole.subrange(0, whole.len() - encode_utf8(step).len()) =~= encode_utf8(indent));
    encode_utf8_decode_utf8(indent);
}

} // verus!
