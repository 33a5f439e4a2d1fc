//! The path expressions that the readers evaluate.
//!
//! The XPath evaluator behind the readers stops the program on a name with a
//! prefix that is bound to no namespace. The readers bind one prefix, `mb`, and
//! refuse an expression that names another one.
//!
//! What the evaluator gives is a matter of the document and the expression
//! alone for plain paths: steps of names, `*`, `@`, `.` and the tests `text()`,
//! `node()` and `comment()`, separated by `/`, with no other prefix than `mb`.
//! Such a path names no axis and calls no function. Elsewhere the evaluator
//! walks hash tables in an order that differs from run to run (on the
//! `namespace` axis, in `sum`, in `name`), so of other expressions only that
//! much is said as holds of every run.

use crate::text::chars_of;
use vstd::prelude::*;

verus! {

/// A character of the ASCII range that can stand inside a name.
pub open spec fn is_name_char(c: char) -> bool {
    ||| 'a' <= c && c <= 'z'
    ||| 'A' <= c && c <= 'Z'
    ||| '0' <= c && c <= '9'
    ||| c == '_'
    ||| c == '-'
    ||| c == '.'
}

/// A character that a plain path can hold anywhere.
pub open spec fn is_path_char(c: char) -> bool {
    ||| is_name_char(c)
    ||| c == '/'
    ||| c == '@'
    ||| c == '*'
}

/// Whether the colon at `i` ends the prefix `mb` of a plain path: the two
/// characters before it are `mb`, no name goes on to the left of them, and no
/// colon follows.
pub open spec fn is_prefix_colon(expr: Seq<char>, i: int) -> bool {
    &&& 2 <= i
    &&& i + 1 < expr.len()
    &&& expr[i - 2] == 'm'
    &&& expr[i - 1] == 'b'
    &&& (i == 2 || !is_name_char(expr[i - 3]))
    &&& expr[i + 1] != ':'
}

/// Whether a step begins at `i`: at the start of the path or behind a `/`.
pub open spec fn begins_step(expr: Seq<char>, i: int) -> bool {
    i == 0 || (0 < i <= expr.len() && expr[i - 1] == '/')
}

/// Whether the bracket at `i` opens one of the node tests `text()`, `node()`
/// and `comment()`: the word stands directly before it and is the whole step.
pub open spec fn opens_node_test(expr: Seq<char>, i: int) -> bool {
    ||| (4 <= i && expr[i - 4] == 't' && expr[i - 3] == 'e' && expr[i - 2] == 'x' && expr[i - 1]
        == 't' && begins_step(expr, i - 4))
    ||| (4 <= i && expr[i - 4] == 'n' && expr[i - 3] == 'o' && expr[i - 2] == 'd' && expr[i - 1]
        == 'e' && begins_step(expr, i - 4))
    ||| (7 <= i && expr[i - 7] == 'c' && expr[i - 6] == 'o' && expr[i - 5] == 'm' && expr[i - 4]
        == 'm' && expr[i - 3] == 'e' && expr[i - 2] == 'n' && expr[i - 1] == 't' && begins_step(
        expr,
        i - 7,
    ))
}

/// Whether the character at `i` is in order where it stands in a plain path: a
/// path character, one half of the `()` of a node test, or the colon behind
/// the prefix `mb`.
pub open spec fn supported_at(expr: Seq<char>, i: int) -> bool {
    ||| is_path_char(expr[i])
    ||| (expr[i] == '(' && i + 1 < expr.len() && expr[i + 1] == ')' && opens_node_test(expr, i))
    ||| (expr[i] == ')' && 1 <= i && expr[i - 1] == '(')
    ||| (expr[i] == ':' && is_prefix_colon(expr, i))
}

/// Whether `expr` is a plain path.
pub open spec fn supported(expr: Seq<char>) -> bool {
    forall|i: int| 0 <= i < expr.len() ==> supported_at(expr, i)
}

/// A character that opens and closes a literal.
pub open spec fn is_quote(c: char) -> bool {
    c == '\'' || c == '"'
}

/// The quote of the literal that is open in front of the character at `i`, if
/// one is: a quote outside a literal opens one, and the same quote closes it.
pub open spec fn open_quote(expr: Seq<char>, i: int) -> Option<char>
    decreases i,
{
    if i <= 0 {
        None
    } else {
        match open_quote(expr, i - 1) {
            Some(quote) => if expr[i - 1] == quote {
                None
            } else {
                Some(quote)
            },
            None => if is_quote(expr[i - 1]) {
                Some(expr[i - 1])
            } else {
                None
            },
        }
    }
}

/// A character that may belong to a name: one of the ASCII range that can
/// stand inside a name, or any character beyond that range.
pub open spec fn is_name_like(c: char) -> bool {
    is_name_char(c) || c as u32 >= 128
}

/// Whether the character at `i` names no other prefix than `mb`. A colon
/// outside a literal is one half of `::`, or it stands behind `mb` with no
/// name going on to the left.
pub open spec fn bound_at(expr: Seq<char>, i: int) -> bool {
    expr[i] == ':' && open_quote(expr, i) is None ==> {
        ||| (i + 1 < expr.len() && expr[i + 1] == ':')
        ||| (1 <= i && expr[i - 1] == ':')
        ||| (2 <= i && expr[i - 2] == 'm' && expr[i - 1] == 'b' && (i == 2 || !is_name_like(
            expr[i - 3],
        )))
    }
}

/// Whether `expr` names no other prefix than `mb`.
pub open spec fn names_bound_prefixes(expr: Seq<char>) -> bool {
    forall|i: int| 0 <= i < expr.len() ==> bound_at(expr, i)
}

fn name_char(c: char) -> (r: bool)
    ensures
        r == is_name_char(c),
{
    (c >= 'a' && c <= 'z') || (c >= 'A' && c <= 'Z') || (c >= '0' && c <= '9') || c == '_' || c
        == '-' || c == '.'
}

fn step_begins(chars: &Vec<char>, i: usize) -> (r: bool)
    requires
        i <= chars.len(),
    ensures
        r == begins_step(chars@, i as int),
{
    i == 0 || chars[i - 1] == '/'
}

fn node_test_opens(chars: &Vec<char>, i: usize) -> (r: bool)
    requires
        i < chars.len(),
    ensures
        r == opens_node_test(chars@, i as int),
{
    (4 <= i && chars[i - 4] == 't' && chars[i - 3] == 'e' && chars[i - 2] == 'x' && chars[i - 1]
        == 't' && step_begins(chars, i - 4)) || (4 <= i && chars[i - 4] == 'n' && chars[i - 3]
        == 'o' && chars[i - 2] == 'd' && chars[i - 1] == 'e' && step_begins(chars, i - 4)) || (7
        <= i && chars[i - 7] == 'c' && chars[i - 6] == 'o' && chars[i - 5] == 'm' && chars[i - 4]
        == 'm' && chars[i - 3] == 'e' && chars[i - 2] == 'n' && chars[i - 1] == 't' && step_begins(
        chars,
        i - 7,
    ))
}

fn char_supported(chars: &Vec<char>, i: usize) -> (r: bool)
    requires
        i < chars.len(),
    ensures
        r == supported_at(chars@, i as int),
{
    let c = chars[i];
    if name_char(c) || c == '/' || c == '@' || c == '*' {
        true
    } else if c == '(' {
        i + 1 < chars.len() && chars[i + 1] == ')' && node_test_opens(chars, i)
    } else if c == ')' {
        1 <= i && chars[i - 1] == '('
    } else if c == ':' {
        2 <= i && i + 1 < chars.len() && chars[i - 2] == 'm' && chars[i - 1] == 'b' && (i == 2
            || !name_char(chars[i - 3])) && chars[i + 1] != ':'
    } else {
        false
    }
}

/// Whether `expr` is a plain path.
pub fn is_supported(expr: &str) -> (r: bool)
    ensures
        r == supported(expr@),
{
    let chars = chars_of(expr);
    let mut i: usize = 0;
    while i < chars.len()
        invariant
            i <= chars.len(),
            chars@ == expr@,
            forall|j: int| 0 <= j < i ==> supported_at(chars@, j),
        decreases chars.len() - i,
    {
        if !char_supported(&chars, i) {
            return false;
        }
        i = i + 1;
    }
    true
}

fn colon_bound(chars: &Vec<char>, i: usize) -> (r: bool)
    requires
        i < chars.len(),
        chars[i as int] == ':',
        open_quote(chars@, i as int) is None,
    ensures
        r == bound_at(chars@, i as int),
{
    (i + 1 < chars.len() && chars[i + 1] == ':') || (1 <= i && chars[i - 1] == ':') || (2 <= i
        && chars[i - 2] == 'm' && chars[i - 1] == 'b' && (i == 2 || !(name_char(chars[i - 3])
        || chars[i - 3] as u32 >= 128)))
}

/// Whether `expr` names no other prefix than `mb`.
pub fn has_bound_prefixes(expr: &str) -> (r: bool)
    ensures
        r == names_bound_prefixes(expr@),
{
    let chars = chars_of(expr);
    let mut open: Option<char> = None;
    let mut i: usize = 0;
    while i < chars.len()
        invariant
            i <= chars.len(),
            chars@ == expr@,
            open == open_quote(chars@, i as int),
            forall|j: int| 0 <= j < i ==> bound_at(chars@, j),
        decreases chars.len() - i,
    {
        let c = chars[i];
        if c == ':' && open.is_none() {
            if !colon_bound(&chars, i) {
                return false;
            }
        }
        open =
        match open {
            Some(quote) => if c == quote {
                None
            } else {
                Some(quote)
            },
            None => if c == '\'' || c == '"' {
                Some(c)
            } else {
                None
            },
        };
        i = i + 1;
    }
    true
}

/// In a plain path every prefix is `mb`: a colon has `mb` before it.
pub proof fn lemma_supported_prefix(expr: Seq<char>, i: int)
    requires
        supported(expr),
        0 <= i < expr.len(),
        expr[i] == ':',
    ensures
        2 <= i,
        expr[i - 2] == 'm',
        expr[i - 1] == 'b',
        i == 2 || !is_name_like(expr[i - 3]),
{
    assert(supported_at(expr, i));
    if i > 2 {
        assert(supported_at(expr, i - 3));
    }
}

/// A plain path names no other prefix than `mb`, so no plain path is refused.
pub proof fn lemma_supported_names_bound_prefixes(expr: Seq<char>)
    requires
        supported(expr),
    ensures
        names_bound_prefixes(expr),
{
    assert forall|i: int| 0 <= i < expr.len() implies bound_at(expr, i) by {
        if expr[i] == ':' {
            lemma_supported_prefix(expr, i);
        }
    }
}

} // verus!
