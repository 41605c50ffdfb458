use vstd::prelude::*;

verus! {

/// The byte that marks the end of a scheme in a URI.
pub const COLON: u8 = 58;

/// `A-Z`, `a-z`, `0-9`, `+`, `-` and `.`: the bytes a scheme may hold.
pub open spec fn is_scheme_byte(b: u8) -> bool {
    (65 <= b <= 90) || (97 <= b <= 122) || (48 <= b <= 57) || b == 43 || b == 45 || b == 46
}

/// The class of a byte: itself for a scheme byte, `:` for `:`, and `0` for any other byte.
pub open spec fn class_of(b: u8) -> u8 {
    if is_scheme_byte(b) {
        b
    } else if b == COLON {
        COLON
    } else {
        0
    }
}

/// ASCII lower case of one byte.
pub open spec fn lower_byte(b: u8) -> u8 {
    if 65 <= b <= 90 {
        (b + 32) as u8
    } else {
        b
    }
}

/// Classifies one byte in constant time.
pub fn classify(b: u8) -> (r: u8)
    ensures
        r == class_of(b),
{
    if (65 <= b && b <= 90) || (97 <= b && b <= 122) || (48 <= b && b <= 57) || b == 43 || b == 45
        || b == 46 {
        b
    } else if b == COLON {
        COLON
    } else {
        0
    }
}

/// ASCII lower case of each byte.
pub open spec fn lower_seq(s: Seq<u8>) -> Seq<u8> {
    s.map_values(|b: u8| lower_byte(b))
}

/// Whether two byte sequences are equal when ASCII case is ignored.
pub open spec fn eq_folded(a: Seq<u8>, b: Seq<u8>) -> bool {
    lower_seq(a) == lower_seq(b)
}

/// Lowers one ASCII upper-case letter; other bytes are kept.
pub fn to_lower(b: u8) -> (r: u8)
    ensures
        r == lower_byte(b),
{
    if 65 <= b && b <= 90 {
        b + 32
    } else {
        b
    }
}

/// Compares two byte slices, ignoring ASCII case.
pub fn eq_ignore_ascii_case(a: &[u8], b: &[u8]) -> (r: bool)
    ensures
        r == eq_folded(a@, b@),
{
    if a.len() != b.len() {
        proof {
            assert(lower_seq(a@).len() != lower_seq(b@).len());
        }
        return false;
    }
    let mut i: usize = 0;
    while i < a.len()
        invariant
            a.len() == b.len(),
            0 <= i <= a.len(),
            forall|j: int| 0 <= j < i ==> lower_byte(#[trigger] a@[j]) == lower_byte(b@[j]),
        decreases a.len() - i,
    {
        if to_lower(a[i]) != to_lower(b[i]) {
            proof {
                assert(lower_seq(a@)[i as int] != lower_seq(b@)[i as int]);
            }
            return false;
        }
        i = i + 1;
    }
    proof {
        assert(lower_seq(a@) =~= lower_seq(b@));
    }
    true
}

} // verus!
