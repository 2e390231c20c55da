//! Which texts are JSON numbers.

use vstd::prelude::*;

verus! {

/// Whether `c` is one of the ten figures.
pub open spec fn is_figure(c: char) -> bool {
    48 <= c as u32 <= 57
}

/// The place after the figures that stand in `text` from `from` on, one
/// after the other.
pub open spec fn after_figures(text: Seq<char>, from: int) -> int
    decreases text.len() - from,
{
    if 0 <= from < text.len() && is_figure(text[from]) {
        after_figures(text, from + 1)
    } else {
        from
    }
}

/// The place after a minus sign at the head of `text`, if there is one.
pub open spec fn after_sign(text: Seq<char>) -> int {
    if text.len() > 0 && text[0] == '-' {
        1
    } else {
        0
    }
}

/// The place after the whole part that stands at `from`: a single zero, or
/// figures that do not begin with zero. `None` where there is no whole part.
pub open spec fn after_whole(text: Seq<char>, from: int) -> Option<int> {
    if 0 <= from < text.len() && text[from] == '0' {
        Some(from + 1)
    } else if 0 <= from < text.len() && is_figure(text[from]) {
        Some(after_figures(text, from))
    } else {
        None
    }
}

/// The place after the fraction that may stand at `from`: a point and at
/// least one figure. `None` where a point stands without a figure.
pub open spec fn after_fraction(text: Seq<char>, from: int) -> Option<int> {
    if 0 <= from < text.len() && text[from] == '.' {
        if after_figures(text, from + 1) > from + 1 {
            Some(after_figures(text, from + 1))
        } else {
            None
        }
    } else {
        Some(from)
    }
}

/// The place where the figures of an exponent begin whose letter stands at
/// `from`: after the letter and the sign that may follow it.
pub open spec fn exponent_figures(text: Seq<char>, from: int) -> int {
    if from + 1 < text.len() && (text[from + 1] == '+' || text[from + 1] == '-') {
        from + 2
    } else {
        from + 1
    }
}

/// The place after the exponent that may stand at `from`: `e` or `E`, a sign
/// or none, and at least one figure. `None` where the letter stands without
/// a figure.
pub open spec fn after_exponent(text: Seq<char>, from: int) -> Option<int> {
    if 0 <= from < text.len() && (text[from] == 'e' || text[from] == 'E') {
        if after_figures(text, exponent_figures(text, from)) > exponent_figures(text, from) {
            Some(after_figures(text, exponent_figures(text, from)))
        } else {
            None
        }
    } else {
        Some(from)
    }
}

/// Whether `text` is a number as JSON writes numbers: a minus sign or none,
/// a whole part, a fraction or none, an exponent or none, and nothing else.
pub open spec fn is_json_number(text: Seq<char>) -> bool {
    match after_whole(text, after_sign(text)) {
        Some(whole) => match after_fraction(text, whole) {
            Some(fraction) => after_exponent(text, fraction) == Some(text.len() as int),
            None => false,
        },
        None => false,
    }
}

fn figure_at(text: &str, at: usize) -> (r: bool)
    requires
        at < text@.len(),
    ensures
        r == is_figure(text@[at as int]),
{
    let c: u32 = text.get_char(at) as u32;
    48 <= c && c <= 57
}

fn skip_figures(text: &str, len: usize, from: usize) -> (to: usize)
    requires
        len == text@.len(),
        from <= len,
    ensures
        to == after_figures(text@, from as int),
        from <= to <= len,
{
    let mut at: usize = from;
    while at < len
        invariant
            len == text@.len(),
            from <= at <= len,
            after_figures(text@, from as int) == after_figures(text@, at as int),
        ensures
            at == after_figures(text@, from as int),
        decreases len - at,
    {
        if !figure_at(text, at) {
            break;
        }
        at += 1;
    }
    at
}

/// Whether `text` is a number as JSON writes numbers.
pub fn reads_as_json_number(text: &str) -> (r: bool)
    ensures
        r == is_json_number(text@),
{
    let len: usize = text.unicode_len();
    let mut at: usize = 0;
    if len > 0 && text.get_char(0) == '-' {
        at = 1;
    }
    if at >= len || !figure_at(text, at) {
        return false;
    }
    if text.get_char(at) == '0' {
        at += 1;
    } else {
        at = skip_figures(text, len, at);
    }
    if at < len && text.get_char(at) == '.' {
        let to: usize = skip_figures(text, len, at + 1);
        if to == at + 1 {
            return false;
        }
        at = to;
    }
    if at < len && (text.get_char(at) == 'e' || text.get_char(at) == 'E') {
        let mut figures: usize = at + 1;
        if figures < len && (text.get_char(figures) == '+' || text.get_char(figures) == '-') {
            figures += 1;
        }
        let to: usize = skip_figures(text, len, figures);
        if to == figures {
            return false;
        }
        at = to;
    }
    at == len
}

} // verus!
