//! Stripping comments from JSON-with-comments configuration text.
//!
//! The stripper walks the input line by line. Outside of strings it removes
//! `//` line comments (the rest of the line is dropped) and `/* ... */` block
//! comments, which may nest and may span lines. Inside a string — delimited by
//! unescaped double quotes — comment markers are plain text. With
//! `preserve_locations` set, every removed comment character is replaced by a
//! space so that positions reported against the stripped text still point at
//! the right place in the original. Trailing spaces are removed from every
//! line, and every line of the result ends with a newline.

use vstd::prelude::*;
use vstd::string::StrSliceExecFns;

verus! {

/// `s` without its trailing spaces.
pub open spec fn trim_spaces(s: Seq<char>) -> Seq<char>
    decreases s.len(),
{
    if s.len() > 0 && s.last() == ' ' {
        trim_spaces(s.drop_last())
    } else {
        s
    }
}

/// What a finished line contributes to the output: the held-back character is
/// flushed (as itself outside block comments, as a space inside them when
/// locations are preserved), trailing spaces are dropped, and the line is
/// terminated with a newline.
pub open spec fn finish_line(depth: nat, last: Option<char>, line: Seq<char>, preserve: bool) -> Seq<
    char,
> {
    let flushed = match last {
        Some(c) => if depth == 0 {
            line.push(c)
        } else if preserve {
            line.push(' ')
        } else {
            line
        },
        None => line,
    };
    trim_spaces(flushed).push('\n')
}

/// One input character processed outside a line comment. The stripper holds
/// the previous character back (`last`) so that a comment marker can be
/// suppressed when its second character arrives. Returns the new block
/// comment depth, the new in-string flag, the new held-back character,
/// whether a line comment just started, and the line output so far.
pub open spec fn step_char(
    c: char,
    depth: nat,
    in_string: bool,
    last: Option<char>,
    line: Seq<char>,
    preserve: bool,
) -> (nat, bool, Option<char>, bool, Seq<char>) {
    let in_str = if depth == 0 && last != Some('\\') && c == '"' {
        !in_string
    } else {
        in_string
    };
    if !in_str && last == Some('/') && c == '/' {
        (
            depth,
            in_str,
            None::<char>,
            true,
            if preserve {
                line.push(' ').push(' ')
            } else {
                line
            },
        )
    } else if !in_str && last == Some('/') && c == '*' {
        (
            (depth + 1) as nat,
            in_str,
            None::<char>,
            false,
            if preserve {
                line.push(' ').push(' ')
            } else {
                line
            },
        )
    } else if !in_str && last == Some('*') && c == '/' {
        (
            if depth > 0 {
                (depth - 1) as nat
            } else {
                0
            },
            in_str,
            None::<char>,
            false,
            if preserve {
                line.push(' ').push(' ')
            } else {
                line
            },
        )
    } else {
        let out = if depth == 0 {
            match last {
                Some(l) => line.push(l),
                None => line,
            }
        } else if preserve {
            line.push(' ')
        } else {
            line
        };
        (depth, in_str, Some(c), false, out)
    }
}

/// The stripped text, processing `input` from position `i` onward in the
/// given state: `done` holds the finished lines, `line` the output of the
/// current line, and `skip` is set while the rest of a line comment is being
/// dropped. The in-string flag and the block comment depth carry across
/// lines; the held-back character does not.
pub open spec fn strip_from(
    input: Seq<char>,
    i: int,
    depth: nat,
    in_string: bool,
    last: Option<char>,
    skip: bool,
    done: Seq<char>,
    line: Seq<char>,
    preserve: bool,
) -> Seq<char>
    decreases input.len() - i,
{
    if i < 0 || i >= input.len() {
        done + finish_line(depth, last, line, preserve)
    } else if input[i] == '\n' {
        strip_from(
            input,
            i + 1,
            depth,
            in_string,
            None,
            false,
            done + finish_line(depth, last, line, preserve),
            Seq::empty(),
            preserve,
        )
    } else if skip {
        strip_from(input, i + 1, depth, in_string, last, true, done, line, preserve)
    } else {
        let s = step_char(input[i], depth, in_string, last, line, preserve);
        strip_from(input, i + 1, s.0, s.1, s.2, s.3, done, s.4, preserve)
    }
}

/// The comment-stripped form of `input`.
pub open spec fn strip_jsonc_spec(input: Seq<char>, preserve: bool) -> Seq<char> {
    strip_from(input, 0, 0, false, None, false, Seq::empty(), Seq::empty(), preserve)
}

/// Relies on String::push: appends exactly the one character to the string.
#[verifier::external_body]
fn push_char(s: &mut String, c: char)
    ensures
        final(s)@ == old(s)@.push(c),
{
    s.push(c);
}

/// Flush the held-back character into the current line, drop the line's
/// trailing spaces, and append it to the output with a terminating newline.
fn flush_line(out: &mut String, line: &mut Vec<char>, depth: usize, last: Option<char>, preserve: bool)
    ensures
        final(out)@ == old(out)@ + finish_line(depth as nat, last, old(line)@, preserve),
        final(line)@ == Seq::<char>::empty(),
{
    match last {
        Some(c) => {
            if depth == 0 {
                line.push(c);
            } else if preserve {
                line.push(' ');
            }
        },
        None => {},
    }
    let ghost flushed = line@;
    while line.len() > 0 && line[line.len() - 1] == ' '
        invariant
            trim_spaces(line@) == trim_spaces(flushed),
        decreases line@.len(),
    {
        line.pop();
        assert(trim_spaces(line@) == trim_spaces(flushed));
    }
    assert(line@ == trim_spaces(flushed));
    let count: usize = line.len();
    let mut j: usize = 0;
    while j < count
        invariant
            j <= count,
            count == line@.len(),
            line@ == trim_spaces(flushed),
            out@ == old(out)@ + line@.subrange(0, j as int),
        decreases count - j,
    {
        push_char(out, line[j]);
        assert(out@ =~= old(out)@ + line@.subrange(0, j + 1));
        j += 1;
    }
    assert(line@.subrange(0, count as int) =~= line@);
    push_char(out, '\n');
    assert(out@ =~= old(out)@ + trim_spaces(flushed).push('\n'));
    line.clear();
}

/// Strip `//` line comments and nested `/* ... */` block comments from
/// JSON-with-comments text, leaving string contents untouched. With
/// `preserve_locations`, removed comment text is replaced by spaces of the
/// same width. Trailing spaces are removed from every line and every line of
/// the result, the last one included, ends with a newline.
pub fn strip_jsonc_comments(jsonc_input: &str, preserve_locations: bool) -> (r: String)
    ensures
        r@ == strip_jsonc_spec(jsonc_input@, preserve_locations),
{
    let n: usize = jsonc_input.unicode_len();
    let mut out: String = String::new();
    let mut line: Vec<char> = Vec::new();
    let mut depth: usize = 0;
    let mut in_string: bool = false;
    let mut last: Option<char> = None;
    let mut skip: bool = false;
    let mut i: usize = 0;
    while i < n
        invariant
            n == jsonc_input@.len(),
            i <= n,
            depth <= i,
            strip_jsonc_spec(jsonc_input@, preserve_locations) == strip_from(
                jsonc_input@,
                i as int,
                depth as nat,
                in_string,
                last,
                skip,
                out@,
                line@,
                preserve_locations,
            ),
        decreases n - i,
    {
        let c: char = jsonc_input.get_char(i);
        if c == '\n' {
            flush_line(&mut out, &mut line, depth, last, preserve_locations);
            last = None;
            skip = false;
        } else if skip {
            // the rest of a line comment: dropped
        } else {
            let ghost st = step_char(
                c,
                depth as nat,
                in_string,
                last,
                line@,
                preserve_locations,
            );
            if depth == 0 && !matches!(last, Some('\\')) && c == '"' {
                in_string = !in_string;
            }
            let last_is_slash: bool = matches!(last, Some('/'));
            let last_is_star: bool = matches!(last, Some('*'));
            if !in_string && last_is_slash && c == '/' {
                last = None;
                skip = true;
                if preserve_locations {
                    line.push(' ');
                    line.push(' ');
                }
            } else if !in_string && last_is_slash && c == '*' {
                depth = depth + 1;
                last = None;
                if preserve_locations {
                    line.push(' ');
                    line.push(' ');
                }
            } else if !in_string && last_is_star && c == '/' {
                if depth > 0 {
                    depth = depth - 1;
                }
                last = None;
                if preserve_locations {
                    line.push(' ');
                    line.push(' ');
                }
            } else {
                if depth == 0 {
                    match last {
                        Some(l) => line.push(l),
                        None => {},
                    }
                } else if preserve_locations {
                    line.push(' ');
                }
                last = Some(c);
            }
            assert(st == (depth as nat, in_string, last, skip, line@));
        }
        i += 1;
    }
    flush_line(&mut out, &mut line, depth, last, preserve_locations);
    out
}

} // verus!
