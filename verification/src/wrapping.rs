//! Text reflow for long display rows. A row's display text is wrapped to
//! the width left after the shortcut column, continuation lines carrying a
//! four-space indent so they align under the first line's text. The split
//! itself is textwrap's; it is recomputed fresh at every render, since the
//! terminal may have been resized in between.

use vstd::prelude::*;

verus! {

/// The lines textwrap produces for `text` at width `width` with a
/// four-space continuation indent.
pub uninterp spec fn wrapped_lines(text: Seq<char>, width: int) -> Seq<Seq<char>>;

/// Relies on `textwrap::wrap` with `subsequent_indent("    ")`: the split
/// is a function of the text and the width alone, and at least one line
/// always comes back (an empty text yields one empty line).
#[verifier::external_body]
fn textwrap_wrap(text: &str, width: usize) -> (r: Vec<String>)
    ensures
        r@.map_values(|line: String| line@) == wrapped_lines(text@, width as int),
        r@.len() >= 1,
{
    let options = textwrap::Options::new(width).subsequent_indent("    ");
    textwrap::wrap(text, options).into_iter().map(|line| line.into_owned()).collect()
}

/// Wrap one option's display text into the lines it occupies when the list
/// is `available_width` cells wide: four cells go to the shortcut column
/// and its spacing, the rest to the text.
pub fn wrap_display(display: &str, available_width: u16) -> (r: Vec<String>)
    requires
        available_width >= 4,
    ensures
        r@.map_values(|line: String| line@) == wrapped_lines(
            display@,
            available_width - 4,
        ),
        r@.len() >= 1,
{
    textwrap_wrap(display, (available_width - 4) as usize)
}

} // verus!
