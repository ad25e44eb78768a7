//! Contracts of functions of the standard library that `vstd` gives none.
//! They are assumed, not proved.

use vstd::prelude::*;

verus! {

/// The characters with the Unicode property `White_Space`, as the Unicode
/// Character Database lists them in `PropList.txt`.
pub open spec fn white_space(c: char) -> bool {
    let u = c as u32;
    ||| 0x09 <= u <= 0x0D
    ||| u == 0x20
    ||| u == 0x85
    ||| u == 0xA0
    ||| u == 0x1680
    ||| 0x2000 <= u <= 0x200A
    ||| u == 0x2028
    ||| u == 0x2029
    ||| u == 0x202F
    ||| u == 0x205F
    ||| u == 0x3000
}

/// The characters of the Unicode general category `Cc`, the control codes:
/// the two blocks C0 and C1, and DEL between them.
pub open spec fn control_code(c: char) -> bool {
    let u = c as u32;
    u <= 0x1F || 0x7F <= u <= 0x9F
}

/// `char::is_whitespace` tells whether its argument has the property
/// `White_Space`.
pub assume_specification[ char::is_whitespace ](c: char) -> (b: bool)
    ensures
        b == white_space(c),
;

/// `char::is_control` tells whether its argument is of the general category
/// `Cc`.
pub assume_specification[ char::is_control ](c: char) -> (b: bool)
    ensures
        b == control_code(c),
;

/// `String::push` puts one character at the end of the string and leaves the
/// rest of it as it was.
pub assume_specification[ String::push ](s: &mut String, c: char)
    ensures
        final(s)@ == old(s)@.push(c),
;

} // verus!
