//! Space names.  Validation and canonical parsing go through the
//! `spaces_protocol` crate; the grammar it accepts is stated here exactly,
//! so the rest of the library can reason about label text as plain
//! character sequences.

use vstd::prelude::*;
use vstd::string::*;

use crate::label_map::str_eq;
use crate::types::{is_digit_char, is_lower_char};

verus! {

#[verifier::external_type_specification]
#[verifier::external_body]
pub struct ExSLabel(spaces_protocol::slabel::SLabel);

/// A character a plain space label may hold.
pub open spec fn is_label_char(c: char) -> bool {
    is_digit_char(c) || is_lower_char(c) || c == '-'
}

/// A numeric label `#<block>-<txpos>-<vout>`: three non-empty digit runs
/// separated by single dashes, after the leading `#`.
pub open spec fn valid_numeric_label(s: Seq<char>) -> bool {
    &&& s.len() >= 1
    &&& s[0] == '#'
    &&& exists|i: int, j: int|
        {
            &&& 2 <= i
            &&& i + 2 <= j
            &&& j + 1 < s.len()
            &&& (#[trigger] s[i]) == '-'
            &&& (#[trigger] s[j]) == '-'
            &&& (forall|k: int| 1 <= k < i ==> is_digit_char(#[trigger] s[k]))
            &&& (forall|k: int| i < k < j ==> is_digit_char(#[trigger] s[k]))
            &&& (forall|k: int| j < k < s.len() ==> is_digit_char(#[trigger] s[k]))
        }
}

/// The part of a label that is checked character by character: an
/// international label sheds its `xn--` prefix first.
pub open spec fn label_core(s: Seq<char>) -> Seq<char> {
    if s.len() > 4 && s.take(4) == "xn--"@ {
        s.skip(4)
    } else {
        s
    }
}

/// A plain label: digits, lower-case letters and dashes, with no dash at
/// either end and no two dashes in a row.
pub open spec fn valid_plain_label(s: Seq<char>) -> bool {
    let c = label_core(s);
    &&& c.len() > 0
    &&& c[0] != '-'
    &&& c[c.len() - 1] != '-'
    &&& (forall|k: int| 0 <= k < c.len() ==> is_label_char(#[trigger] c[k]))
    &&& (forall|k: int| 0 <= k < c.len() - 1 ==> !((#[trigger] c[k]) == '-' && c[k + 1] == '-'))
}

/// The labels that `SLabel::from_str_unprefixed` accepts: at most 62
/// characters, in plain or numeric form.
pub open spec fn valid_unprefixed_label(s: Seq<char>) -> bool {
    &&& 1 <= s.len() <= 62
    &&& if s[0] == '#' {
        valid_numeric_label(s)
    } else {
        valid_plain_label(s)
    }
}

/// The label texts the protocol keeps for itself.
pub open spec fn reserved_label(s: Seq<char>) -> bool {
    s == "example"@ || s == "test"@ || s == "local"@
}

/// A label a user may act on: well-formed and not reserved.
pub open spec fn valid_space_label(s: Seq<char>) -> bool {
    valid_unprefixed_label(s) && !reserved_label(s)
}

/// Relies on `SLabel::from_str_unprefixed` of `spaces_protocol`: it
/// accepts exactly the unprefixed labels of the grammar above (checked
/// byte for byte in its source; a label that passes is pure ASCII, so the
/// byte view and the character view agree).
#[verifier::external_body]
fn slabel_parse_unprefixed(s: &str) -> (r: Option<spaces_protocol::slabel::SLabel>)
    ensures
        r is Some <==> valid_unprefixed_label(s@),
{
    spaces_protocol::slabel::SLabel::from_str_unprefixed(s).ok()
}

/// Parses a space name typed without its `@` prefix, refusing reserved
/// names.
pub fn slabel_from_str(s: &str) -> (r: Option<spaces_protocol::slabel::SLabel>)
    ensures
        r is Some <==> valid_space_label(s@),
{
    if str_eq(s, "example") || str_eq(s, "test") || str_eq(s, "local") {
        None
    } else {
        slabel_parse_unprefixed(s)
    }
}

/// Whether a piece of text is a space name a user may act on.
pub fn is_valid_slabel(s: &str) -> (r: bool)
    ensures
        r == valid_space_label(s@),
{
    slabel_from_str(s).is_some()
}

} // verus!
