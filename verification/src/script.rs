//! The script that reflects the current location into the toolbar.
//!
//! The toolbar document may define a function `updateUrlFromBrowser`. After
//! every navigation the shell calls it with the text of the new location,
//! written as a single-quoted string literal.

use vstd::prelude::*;
use vstd::std_specs::iter::IteratorSpec;
use vstd::string::StringExecFns;
use crate::navigation::{Location, LocationView, Page};

verus! {

broadcast use vstd::string::group_string_axioms;

/// Whether `c` must be escaped inside a single-quoted literal.
pub open spec fn needs_escape(c: char) -> bool {
    c == '\\' || c == '\''
}

/// One character as it is written inside a single-quoted literal.
pub open spec fn escaped_char(c: char) -> Seq<char> {
    if needs_escape(c) {
        seq!['\\', c]
    } else {
        seq![c]
    }
}

/// A text as it is written inside a single-quoted literal: every backslash
/// and every single quote gets a backslash in front, all else is kept.
pub open spec fn escaped(value: Seq<char>) -> Seq<char>
    decreases value.len(),
{
    if value.len() == 0 {
        Seq::empty()
    } else {
        escaped(value.drop_last()) + escaped_char(value.last())
    }
}

/// What a reader of single-quoted literals finds at the start of `text`,
/// the opening quote already consumed: the value of the literal and the
/// number of characters up to and including the closing quote.
///
/// The reader knows the two escapes `\\` and `\'`. It gives up (`None`) on
/// any other escape and on a text that ends before the closing quote.
pub open spec fn read_literal(text: Seq<char>) -> Option<(Seq<char>, int)>
    decreases text.len(),
{
    if text.len() == 0 {
        None
    } else if text[0] == '\'' {
        Some((Seq::empty(), 1))
    } else if text[0] == '\\' {
        if text.len() >= 2 && needs_escape(text[1]) {
            match read_literal(text.skip(2)) {
                Some((value, used)) => Some((seq![text[1]] + value, used + 2)),
                None => None,
            }
        } else {
            None
        }
    } else {
        match read_literal(text.skip(1)) {
            Some((value, used)) => Some((seq![text[0]] + value, used + 1)),
            None => None,
        }
    }
}

/// The text that stands for a location in the toolbar: the address itself,
/// or a fixed token for the settings page.
pub open spec fn display_text(location: LocationView) -> Seq<char> {
    match location {
        LocationView::External(url) => url,
        LocationView::Internal(Page::Settings) => "about:settings"@,
    }
}

/// The script that hands `value` to the toolbar's update hook, if the
/// toolbar document defines one.
pub open spec fn update_script(value: Seq<char>) -> Seq<char> {
    "if (typeof updateUrlFromBrowser === 'function') { updateUrlFromBrowser('"@ + escaped(value)
        + "'); }"@
}

/// Escapes `value` for use inside a single-quoted script literal.
///
/// Only backslashes and single quotes are escaped: enough to keep the value
/// from ending the literal early, and no defence beyond that.
pub fn escape_literal(value: &str) -> (out: String)
    ensures
        out@ == escaped(value@),
{
    let mut out = String::new();
    let mut chars = value.chars();
    let ghost mut n: int = 0;
    loop
        invariant
            0 <= n <= value@.len(),
            chars.remaining() == value@.skip(n),
            chars.obeys_prophetic_iter_laws(),
            out@ == escaped(value@.take(n)),
        decreases value@.len() - n,
    {
        match chars.next() {
            None => {
                assert(value@.take(n) == value@);
                return out;
            },
            Some(c) => {
                if c == '\\' || c == '\'' {
                    out.push('\\');
                }
                out.push(c);
                proof {
                    assert(value@.take(n + 1).drop_last() == value@.take(n));
                    n = n + 1;
                }
            },
        }
    }
}

/// The text that stands for `location` in the toolbar.
pub fn location_text(location: &Location) -> (text: String)
    ensures
        text@ == display_text(location@),
{
    match location {
        Location::External(url) => url.clone(),
        Location::Internal(Page::Settings) => String::from_str("about:settings"),
    }
}

/// The one-line script that reflects `location` into the toolbar.
pub fn reflect_script(location: &Location) -> (script: String)
    ensures
        script@ == update_script(display_text(location@)),
{
    let text = location_text(location);
    let literal = escape_literal(text.as_str());
    let mut script = String::from_str(
        "if (typeof updateUrlFromBrowser === 'function') { updateUrlFromBrowser('",
    );
    script.append(literal.as_str());
    script.append("'); }");
    script
}

/// Escaping distributes over concatenation.
pub proof fn lemma_escaped_concat(a: Seq<char>, b: Seq<char>)
    ensures
        escaped(a + b) == escaped(a) + escaped(b),
    decreases b.len(),
{
    if b.len() > 0 {
        assert((a + b).drop_last() == a + b.drop_last());
        lemma_escaped_concat(a, b.drop_last());
    }
}

/// A literal written by escaping reads back as the value it was written
/// from, and ends at the quote that was put behind it: nothing in the value
/// closes the literal early, whatever follows the closing quote.
pub proof fn lemma_escaped_reads_back(value: Seq<char>, rest: Seq<char>)
    ensures
        read_literal(escaped(value) + seq!['\''] + rest) == Some(
            (value, escaped(value).len() as int + 1),
        ),
    decreases value.len(),
{
    let text = escaped(value) + seq!['\''] + rest;
    if value.len() > 0 {
        let c = value[0];
        let tail = value.skip(1);
        assert(value == seq![c] + tail);
        lemma_escaped_concat(seq![c], tail);
        assert(seq![c].drop_last() == Seq::<char>::empty());
        assert(escaped(seq![c]) == escaped_char(c)) by {
            assert(escaped(Seq::<char>::empty()) == Seq::<char>::empty());
        }
        let tail_text = escaped(tail) + seq!['\''] + rest;
        lemma_escaped_reads_back(tail, rest);
        if needs_escape(c) {
            assert(text.skip(2) == tail_text);
        } else {
            assert(text.skip(1) == tail_text);
        }
    }
}

} // verus!
