//! Resource identities, held as plain values: the canonical hyphenated
//! lowercase text of a UUID (8-4-4-4-12 hexadecimal digits), validated on
//! the way in so that everything downstream can rely on its shape.

use vstd::prelude::*;

verus! {

/// A lowercase hexadecimal digit.
pub open spec fn spec_is_lower_hex(c: char) -> bool {
    (48 <= c as u32 && c as u32 <= 57)  // '0' to '9'
     || (97 <= c as u32 && c as u32 <= 102)  // 'a' to 'f'

}

/// A hexadecimal digit of either case.
pub open spec fn spec_is_hex(c: char) -> bool {
    spec_is_lower_hex(c) || (65 <= c as u32 && c as u32 <= 70)  // 'A' to 'F'

}

/// Positions of the four hyphens in hyphenated UUID text.
pub open spec fn spec_is_hyphen_pos(i: int) -> bool {
    i == 8 || i == 13 || i == 18 || i == 23
}

/// Hyphenated UUID text, hexadecimal digits of either case.
pub open spec fn spec_is_uuid_text(s: Seq<char>) -> bool {
    &&& s.len() == 36
    &&& forall|i: int|
        0 <= i < 36 ==> if spec_is_hyphen_pos(i) {
            s[i] == '-'
        } else {
            spec_is_hex(#[trigger] s[i])
        }
}

/// Canonical hyphenated UUID text: all digits lowercase.
pub open spec fn spec_is_canonical_uuid_text(s: Seq<char>) -> bool {
    &&& s.len() == 36
    &&& forall|i: int|
        0 <= i < 36 ==> if spec_is_hyphen_pos(i) {
            s[i] == '-'
        } else {
            spec_is_lower_hex(#[trigger] s[i])
        }
}

/// `A` to `F` folded to lowercase; every other character kept.
pub open spec fn spec_lower_hex(c: char) -> char {
    if c == 'A' {
        'a'
    } else if c == 'B' {
        'b'
    } else if c == 'C' {
        'c'
    } else if c == 'D' {
        'd'
    } else if c == 'E' {
        'e'
    } else if c == 'F' {
        'f'
    } else {
        c
    }
}

fn lower_hex(c: char) -> (r: char)
    ensures
        r == spec_lower_hex(c),
{
    match c {
        'A' => 'a',
        'B' => 'b',
        'C' => 'c',
        'D' => 'd',
        'E' => 'e',
        'F' => 'f',
        _ => c,
    }
}

fn is_hex(c: char) -> (r: bool)
    ensures
        r == spec_is_hex(c),
{
    let v = c as u32;
    (48 <= v && v <= 57) || (97 <= v && v <= 102) || (65 <= v && v <= 70)
}

/// A UUID, carried as its canonical hyphenated lowercase text. The view is
/// that text.
#[derive(Debug, Clone, PartialEq, Eq)]
pub struct UuidValue {
    text: String,
}

impl View for UuidValue {
    type V = Seq<char>;

    closed spec fn view(&self) -> Seq<char> {
        self.text@
    }
}

impl UuidValue {
    pub open spec fn wf(&self) -> bool {
        spec_is_canonical_uuid_text(self@)
    }

    /// Validates hyphenated UUID text (digits of either case) and carries
    /// it canonically: accepted exactly when the text has the UUID shape,
    /// and then the value is the text with its digits folded to lowercase.
    pub fn parse(s: &str) -> (r: Option<UuidValue>)
        ensures
            r is Some <==> spec_is_uuid_text(s@),
            r matches Some(u) ==> u@ == s@.map_values(|c: char| spec_lower_hex(c)) && u.wf(),
    {
        let len = s.unicode_len();
        if len != 36 {
            return None;
        }
        let mut text = String::new();
        let mut i: usize = 0;
        while i < 36
            invariant
                i <= 36,
                len == s@.len(),
                s@.len() == 36,
                text@ == s@.take(i as int).map_values(|c: char| spec_lower_hex(c)),
                forall|k: int|
                    0 <= k < i ==> if spec_is_hyphen_pos(k) {
                        s@[k] == '-'
                    } else {
                        spec_is_hex(#[trigger] s@[k])
                    },
            decreases 36 - i,
        {
            let c = s.get_char(i);
            if i == 8 || i == 13 || i == 18 || i == 23 {
                if c != '-' {
                    return None;
                }
            } else {
                if !is_hex(c) {
                    return None;
                }
            }
            crate::common::push_char(&mut text, lower_hex(c));
            proof {
                assert(spec_lower_hex('-') == '-');
                assert(s@.take(i + 1).map_values(|c: char| spec_lower_hex(c)) =~= s@.take(
                    i as int,
                ).map_values(|c: char| spec_lower_hex(c)).push(spec_lower_hex(s@[i as int])));
            }
            i = i + 1;
        }
        proof {
            assert(s@.take(36) =~= s@);
            assert forall|k: int| 0 <= k < 36 && !spec_is_hyphen_pos(k) implies spec_is_lower_hex(
                s@.map_values(|c: char| spec_lower_hex(c))[k],
            ) by {
                assert(spec_is_hex(s@[k]));
            }
        }
        Some(UuidValue { text })
    }

    /// The canonical text, for building URLs and path names.
    pub fn text(&self) -> (t: String)
        ensures
            t@ == self@,
    {
        self.text.clone()
    }

    /// The canonical text, borrowed.
    pub fn as_str(&self) -> (t: &str)
        ensures
            t@ == self@,
    {
        self.text.as_str()
    }

    /// Value equality: two identities are the same exactly when their
    /// canonical texts agree.
    pub fn same_id(&self, other: &UuidValue) -> (r: bool)
        ensures
            r == (self@ == other@),
    {
        self.text == other.text
    }
}

} // verus!
