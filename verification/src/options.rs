//! The option set: records of shortcut key, output string and display
//! string, parsed one per line from the textual form
//! `key : output | display`.

use vstd::prelude::*;

verus! {

/// One selectable option: typing `key` confirms it, `display` is shown in
/// the list, `output` is what the chosen option emits.
#[derive(Clone, PartialEq, Eq, Debug)]
pub struct MenuOption {
    pub key: char,
    pub output: String,
    pub display: String,
}

/// Why a line failed to parse.
#[derive(Clone, Copy, PartialEq, Eq, Structural, Debug)]
pub enum MenuOptionError {
    /// The line was empty: no shortcut key to read.
    MissingKey,
    /// No `:` followed the shortcut key (whitespace aside).
    MissingSeparator,
}

/// Why a whole option list failed to parse.
#[derive(Clone, Copy, PartialEq, Eq, Structural, Debug)]
pub enum OptionsError {
    /// No lines at all: a menu needs at least one option.
    NoOptions,
    /// The line at this index failed to parse.
    Line(usize, MenuOptionError),
}

/// The characters `char::is_whitespace` accepts.
pub open spec fn is_space(c: char) -> bool {
    let u = c as u32;
    ||| 0x09 <= u <= 0x0D
    ||| u == 0x20
    ||| u == 0x85
    ||| u == 0xA0
    ||| u == 0x1680
    ||| 0x2000 <= u <= 0x200A
    ||| u == 0x2028
    ||| u == 0x2029
    ||| u == 0x202F
    ||| u == 0x205F
    ||| u == 0x3000
}

/// The first index at or after `i` holding a non-whitespace character, or
/// the string's end.
pub open spec fn skip_spaces(s: Seq<char>, i: int) -> int
    decreases s.len() - i,
{
    if i < 0 || i >= s.len() {
        s.len() as int
    } else if is_space(s[i]) {
        skip_spaces(s, i + 1)
    } else {
        i
    }
}

/// The first index at or after `i` holding `|`, or the string's end.
pub open spec fn find_pipe(s: Seq<char>, i: int) -> int
    decreases s.len() - i,
{
    if i < 0 || i >= s.len() {
        s.len() as int
    } else if s[i] == '|' {
        i
    } else {
        find_pipe(s, i + 1)
    }
}

/// Index of the `:` separator: the first non-whitespace position after the
/// shortcut key.
pub open spec fn sep_index(s: Seq<char>) -> int {
    skip_spaces(s, 1)
}

/// Where the output text starts: first non-whitespace after the separator.
pub open spec fn out_start(s: Seq<char>) -> int {
    skip_spaces(s, sep_index(s) + 1)
}

/// Where the output text ends: at the first `|`, or the line's end.
pub open spec fn pipe_index(s: Seq<char>) -> int {
    find_pipe(s, out_start(s))
}

/// A line parses when it has a shortcut key and a `:` separator after it.
pub open spec fn line_parses(s: Seq<char>) -> bool {
    &&& s.len() >= 1
    &&& sep_index(s) < s.len()
    &&& s[sep_index(s)] == ':'
}

/// The output text of a well-formed line.
pub open spec fn spec_output(s: Seq<char>) -> Seq<char> {
    s.subrange(out_start(s), pipe_index(s))
}

/// The display text of a well-formed line: what follows the `|`, or empty
/// when there is none.
pub open spec fn spec_display(s: Seq<char>) -> Seq<char> {
    if pipe_index(s) == s.len() {
        Seq::empty()
    } else {
        s.subrange(pipe_index(s) + 1, s.len() as int)
    }
}

/// Whether `c` is one of the whitespace characters.
fn read_space(c: char) -> (r: bool)
    ensures
        r == is_space(c),
{
    let u = c as u32;
    (0x09 <= u && u <= 0x0D) || u == 0x20 || u == 0x85 || u == 0xA0 || u == 0x1680 || (0x2000 <= u
        && u <= 0x200A) || u == 0x2028 || u == 0x2029 || u == 0x202F || u == 0x205F || u == 0x3000
}

/// A scan that stopped at the first non-whitespace position computes
/// `skip_spaces`.
proof fn lemma_skip_spaces_agrees(s: Seq<char>, i: int, j: int)
    requires
        0 <= i <= j <= s.len(),
        forall|k: int| i <= k < j ==> is_space(#[trigger] s[k]),
        j == s.len() || !is_space(s[j]),
    ensures
        skip_spaces(s, i) == j,
    decreases j - i,
{
    if i < j {
        lemma_skip_spaces_agrees(s, i + 1, j);
    }
}

/// A scan that stopped at the first `|` computes `find_pipe`.
proof fn lemma_find_pipe_agrees(s: Seq<char>, i: int, j: int)
    requires
        0 <= i <= j <= s.len(),
        forall|k: int| i <= k < j ==> #[trigger] s[k] != '|',
        j == s.len() || s[j] == '|',
    ensures
        find_pipe(s, i) == j,
    decreases j - i,
{
    if i < j {
        lemma_find_pipe_agrees(s, i + 1, j);
    }
}

/// Scan for the first non-whitespace position at or after `from`.
fn scan_spaces(line: &str, len: usize, from: usize) -> (r: usize)
    requires
        len == line@.len(),
        from <= len,
    ensures
        from <= r <= len,
        r == skip_spaces(line@, from as int),
{
    let mut j = from;
    while j < len
        invariant
            from <= j <= len,
            len == line@.len(),
            forall|k: int| from <= k < j ==> is_space(#[trigger] line@[k]),
        decreases len - j,
    {
        if !read_space(line.get_char(j)) {
            proof {
                lemma_skip_spaces_agrees(line@, from as int, j as int);
            }
            return j;
        }
        j += 1;
    }
    proof {
        lemma_skip_spaces_agrees(line@, from as int, len as int);
    }
    len
}

/// Scan for the first `|` at or after `from`.
fn scan_pipe(line: &str, len: usize, from: usize) -> (r: usize)
    requires
        len == line@.len(),
        from <= len,
    ensures
        from <= r <= len,
        r == find_pipe(line@, from as int),
{
    let mut j = from;
    while j < len
        invariant
            from <= j <= len,
            len == line@.len(),
            forall|k: int| from <= k < j ==> #[trigger] line@[k] != '|',
        decreases len - j,
    {
        if line.get_char(j) == '|' {
            proof {
                lemma_find_pipe_agrees(line@, from as int, j as int);
            }
            return j;
        }
        j += 1;
    }
    proof {
        lemma_find_pipe_agrees(line@, from as int, len as int);
    }
    len
}

impl MenuOption {
    /// Parse one line of the form `key : output | display`: the first
    /// character is the shortcut key, a `:` must follow it (whitespace
    /// aside), the output runs to the first `|` and the display is whatever
    /// follows that `|`.
    pub fn from_str(line: &str) -> (r: Result<MenuOption, MenuOptionError>)
        ensures
            match r {
                Ok(m) => {
                    &&& line_parses(line@)
                    &&& m.key == line@[0]
                    &&& m.output@ == spec_output(line@)
                    &&& m.display@ == spec_display(line@)
                },
                Err(e) => {
                    &&& !line_parses(line@)
                    &&& e == (if line@.len() == 0 {
                        MenuOptionError::MissingKey
                    } else {
                        MenuOptionError::MissingSeparator
                    })
                },
            },
    {
        let len = line.unicode_len();
        if len == 0 {
            return Err(MenuOptionError::MissingKey);
        }
        let key = line.get_char(0);

        let sep = scan_spaces(line, len, 1);
        if sep == len || line.get_char(sep) != ':' {
            return Err(MenuOptionError::MissingSeparator);
        }

        let start = scan_spaces(line, len, sep + 1);
        let pipe = scan_pipe(line, len, start);

        let output = line.substring_char(start, pipe).to_owned();
        let display = if pipe == len {
            String::new()
        } else {
            line.substring_char(pipe + 1, len).to_owned()
        };

        Ok(MenuOption { key, output, display })
    }
}

/// The index of the first option whose shortcut key is `key`.
pub fn map_char(key: char, options: &[MenuOption]) -> (r: Option<usize>)
    ensures
        match r {
            Some(i) => {
                &&& i < options@.len()
                &&& options@[i as int].key == key
                &&& forall|j: int| 0 <= j < i ==> options@[j].key != key
            },
            None => forall|j: int| 0 <= j < options@.len() ==> options@[j].key != key,
        },
{
    let len = options.len();
    let mut i: usize = 0;
    while i < len
        invariant
            i <= len,
            len == options@.len(),
            forall|j: int| 0 <= j < i ==> options@[j].key != key,
        decreases len - i,
    {
        if options[i].key == key {
            return Some(i);
        }
        i += 1;
    }
    None
}

/// The index of the first option whose shortcut key is `key`.
pub fn map_key(key: char, options: &[MenuOption]) -> (r: Option<usize>)
    ensures
        match r {
            Some(i) => {
                &&& i < options@.len()
                &&& options@[i as int].key == key
                &&& forall|j: int| 0 <= j < i ==> options@[j].key != key
            },
            None => forall|j: int| 0 <= j < options@.len() ==> options@[j].key != key,
        },
{
    map_char(key, options)
}

/// The longest display text among the options, in characters.
pub open spec fn max_display_len(s: Seq<MenuOption>) -> int
    decreases s.len(),
{
    if s.len() == 0 {
        0
    } else {
        let rest = max_display_len(s.drop_last());
        if s.last().display@.len() > rest {
            s.last().display@.len() as int
        } else {
            rest
        }
    }
}

/// The longest prefix maximum never exceeds the whole maximum.
proof fn lemma_max_display_prefix(s: Seq<MenuOption>, i: int)
    requires
        0 <= i <= s.len(),
    ensures
        max_display_len(s.subrange(0, i)) <= max_display_len(s),
    decreases s.len() - i,
{
    if i < s.len() {
        lemma_max_display_prefix(s, i + 1);
        assert(s.subrange(0, i + 1).drop_last() =~= s.subrange(0, i));
    } else {
        assert(s.subrange(0, i) =~= s);
    }
}

/// The list's intrinsic width before any border: the longest display text,
/// one space after it, and the three cells of the shortcut column.
pub fn options_width(options: &[MenuOption]) -> (r: u16)
    requires
        options@.len() >= 1,
        max_display_len(options@) + 4 <= u16::MAX,
    ensures
        r == max_display_len(options@) + 4,
{
    let len = options.len();
    let mut widest: usize = 0;
    let mut i: usize = 0;
    while i < len
        invariant
            i <= len,
            len == options@.len(),
            widest == max_display_len(options@.subrange(0, i as int)),
            widest <= max_display_len(options@),
        decreases len - i,
    {
        let d = options[i].display.as_str().unicode_len();
        proof {
            assert(options@.subrange(0, i + 1).drop_last() =~= options@.subrange(0, i as int));
            assert(options@.subrange(0, i + 1).last() == options@[i as int]);
            lemma_max_display_prefix(options@, i + 1);
        }
        if d > widest {
            widest = d;
        }
        i += 1;
    }
    proof {
        assert(options@.subrange(0, len as int) =~= options@);
    }
    (widest as u16) + 4
}

/// Parse a whole option list, one option per line. The first ill-formed
/// line fails the parse, and an empty list of lines is refused: a menu
/// needs at least one option.
pub fn parse_lines(lines: &Vec<String>) -> (r: Result<Vec<MenuOption>, OptionsError>)
    ensures
        match r {
            Ok(v) => {
                &&& lines@.len() >= 1
                &&& v@.len() == lines@.len()
                &&& forall|i: int|
                    0 <= i < lines@.len() ==> {
                        &&& line_parses(#[trigger] lines@[i]@)
                        &&& v@[i].key == lines@[i]@[0]
                        &&& v@[i].output@ == spec_output(lines@[i]@)
                        &&& v@[i].display@ == spec_display(lines@[i]@)
                    }
            },
            Err(OptionsError::NoOptions) => lines@.len() == 0,
            Err(OptionsError::Line(i, e)) => {
                &&& i < lines@.len()
                &&& !line_parses(lines@[i as int]@)
                &&& forall|j: int| 0 <= j < i ==> line_parses(#[trigger] lines@[j]@)
                &&& e == (if lines@[i as int]@.len() == 0 {
                    MenuOptionError::MissingKey
                } else {
                    MenuOptionError::MissingSeparator
                })
            },
        },
{
    if lines.len() == 0 {
        return Err(OptionsError::NoOptions);
    }
    let mut parsed: Vec<MenuOption> = Vec::new();
    let mut i: usize = 0;
    while i < lines.len()
        invariant
            i <= lines@.len(),
            parsed@.len() == i,
            forall|j: int|
                0 <= j < i ==> {
                    &&& line_parses(#[trigger] lines@[j]@)
                    &&& parsed@[j].key == lines@[j]@[0]
                    &&& parsed@[j].output@ == spec_output(lines@[j]@)
                    &&& parsed@[j].display@ == spec_display(lines@[j]@)
                },
        decreases lines@.len() - i,
    {
        match MenuOption::from_str(lines[i].as_str()) {
            Ok(option) => parsed.push(option),
            Err(e) => {
                return Err(OptionsError::Line(i, e));
            },
        }
        i += 1;
    }
    Ok(parsed)
}

} // verus!
