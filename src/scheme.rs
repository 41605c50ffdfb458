use crate::chars::{
    classify, eq_folded, eq_ignore_ascii_case, is_scheme_byte, lower_byte, lower_seq, to_lower,
    COLON,
};
use crate::error::{ErrorKind, InvalidUri};
use vstd::prelude::*;
use vstd::string::StringSliceAdditionalSpecFns;

verus! {

/// The longest scheme accepted, in bytes.
pub const MAX_SCHEME_LEN: usize = 64;

/// The `/` byte.
pub const SLASH: u8 = 47;

/// A protocol with a dedicated, allocation-free scheme.
#[derive(Clone, Copy, Debug, PartialEq, Eq, Structural)]
pub enum Protocol {
    Http,
    Https,
    Rtsp,
    Rtsps,
}

/// A scheme, absent, one of the known protocols, or any other scheme held as `T`.
#[derive(Clone, Debug)]
pub enum Scheme2<T> {
    Empty,
    Standard(Protocol),
    Other(T),
}

/// The UTF-8 encoding of ASCII characters is one byte per character, of the same value.
proof fn lemma_encode_ascii(c: Seq<char>)
    requires
        forall|i: int| 0 <= i < c.len() ==> (#[trigger] c[i] as u32) < 128,
    ensures
        vstd::utf8::encode_utf8(c) =~= Seq::new(c.len(), |i: int| c[i] as u32 as u8),
    decreases c.len(),
{
    if c.len() > 0 {
        let v = c[0] as u32;
        assert((v & 0x7f) == v) by (bit_vector)
            requires
                v < 128,
        ;
        lemma_encode_ascii(c.drop_first());
        assert forall|i: int| 0 <= i < c.drop_first().len() implies c.drop_first()[i] == c[i
            + 1] by {}
    }
}

impl Protocol {
    /// The canonical lower-case spelling of the protocol's scheme.
    pub open spec fn name(self) -> Seq<u8> {
        match self {
            Protocol::Http => seq![104u8, 116, 116, 112],
            Protocol::Https => seq![104u8, 116, 116, 112, 115],
            Protocol::Rtsp => seq![114u8, 116, 115, 112],
            Protocol::Rtsps => seq![114u8, 116, 115, 112, 115],
        }
    }

    /// The length of the protocol's scheme.
    pub fn len(&self) -> (r: usize)
        ensures
            r == self.name().len(),
    {
        match *self {
            Protocol::Http => 4,
            Protocol::Https => 5,
            Protocol::Rtsp => 4,
            Protocol::Rtsps => 5,
        }
    }

    /// The canonical spelling of the protocol's scheme.
    pub fn as_str(&self) -> (r: &'static str)
        ensures
            r.spec_bytes() == self.name(),
    {
        match *self {
            Protocol::Http => {
                proof {
                    reveal_strlit("http");
                    lemma_encode_ascii("http"@);
                }
                "http"
            },
            Protocol::Https => {
                proof {
                    reveal_strlit("https");
                    lemma_encode_ascii("https"@);
                }
                "https"
            },
            Protocol::Rtsp => {
                proof {
                    reveal_strlit("rtsp");
                    lemma_encode_ascii("rtsp"@);
                }
                "rtsp"
            },
            Protocol::Rtsps => {
                proof {
                    reveal_strlit("rtsps");
                    lemma_encode_ascii("rtsps"@);
                }
                "rtsps"
            },
        }
    }
}

/// Every byte belongs to the scheme alphabet.
pub open spec fn all_scheme_bytes(s: Seq<u8>) -> bool {
    forall|i: int| 0 <= i < s.len() ==> is_scheme_byte(#[trigger] s[i])
}

/// A scheme that may be held as a token: 1 to 64 bytes of the scheme alphabet.
pub open spec fn valid_token(s: Seq<u8>) -> bool {
    1 <= s.len() <= MAX_SCHEME_LEN && all_scheme_bytes(s)
}

/// The known protocol that `s` spells, ignoring ASCII case.
pub open spec fn known_protocol(s: Seq<u8>) -> Option<Protocol> {
    if eq_folded(s, Protocol::Http.name()) {
        Some(Protocol::Http)
    } else if eq_folded(s, Protocol::Https.name()) {
        Some(Protocol::Https)
    } else if eq_folded(s, Protocol::Rtsp.name()) {
        Some(Protocol::Rtsp)
    } else if eq_folded(s, Protocol::Rtsps.name()) {
        Some(Protocol::Rtsps)
    } else {
        None
    }
}

/// What the exact validation of a standalone scheme `s` yields.
pub open spec fn exact_spec(s: Seq<u8>) -> Result<Scheme2<()>, InvalidUri> {
    if s.len() > MAX_SCHEME_LEN {
        Err(InvalidUri(ErrorKind::SchemeTooLong))
    } else if s.len() == 0 || !all_scheme_bytes(s) {
        Err(InvalidUri(ErrorKind::InvalidScheme))
    } else {
        match known_protocol(s) {
            Some(p) => Ok(Scheme2::Standard(p)),
            None => Ok(Scheme2::Other(())),
        }
    }
}

/// `s` starts with the protocol's scheme and `://`, ignoring ASCII case.
pub open spec fn starts_with_protocol(s: Seq<u8>, p: Protocol) -> bool {
    let lit = p.name() + seq![COLON, SLASH, SLASH];
    s.len() >= lit.len() && eq_folded(s.subrange(0, lit.len() as int), lit)
}

/// The end of the run of scheme bytes in `s` that starts at `i`.
pub open spec fn scheme_run(s: Seq<u8>, i: int) -> int
    decreases s.len() - i,
{
    if 0 <= i < s.len() && is_scheme_byte(s[i]) {
        scheme_run(s, i + 1)
    } else {
        i
    }
}

/// What scanning the start of a URI `s` for its scheme yields.
pub open spec fn scan_spec(s: Seq<u8>) -> Result<Scheme2<usize>, InvalidUri> {
    if starts_with_protocol(s, Protocol::Http) {
        Ok(Scheme2::Standard(Protocol::Http))
    } else if starts_with_protocol(s, Protocol::Rtsp) {
        Ok(Scheme2::Standard(Protocol::Rtsp))
    } else if starts_with_protocol(s, Protocol::Https) {
        Ok(Scheme2::Standard(Protocol::Https))
    } else if starts_with_protocol(s, Protocol::Rtsps) {
        Ok(Scheme2::Standard(Protocol::Rtsps))
    } else if s.len() <= 3 {
        Ok(Scheme2::Empty)
    } else {
        let n = scheme_run(s, 0);
        if n + 3 <= s.len() && s[n] == COLON && s[n + 1] == SLASH && s[n + 2] == SLASH {
            if n > MAX_SCHEME_LEN {
                Err(InvalidUri(ErrorKind::SchemeTooLong))
            } else {
                Ok(Scheme2::Other(n as usize))
            }
        } else {
            Ok(Scheme2::Empty)
        }
    }
}

/// The known protocol that `s` spells with its canonical bytes, case included.
fn exact_protocol(s: &[u8]) -> (r: Option<Protocol>)
    ensures
        r matches Some(p) ==> s@ == p.name(),
        r is None ==> s@ != Protocol::Http.name() && s@ != Protocol::Https.name() && s@
            != Protocol::Rtsp.name() && s@ != Protocol::Rtsps.name(),
{
    let ps = [Protocol::Http, Protocol::Https, Protocol::Rtsp, Protocol::Rtsps];
    let mut i: usize = 0;
    while i < 4
        invariant
            0 <= i <= 4,
            ps@ == seq![Protocol::Http, Protocol::Https, Protocol::Rtsp, Protocol::Rtsps],
            forall|j: int| 0 <= j < i ==> s@ != (#[trigger] ps@[j]).name(),
        decreases 4 - i,
    {
        let p = ps[i];
        if bytes_eq(s, p.as_str().as_bytes()) {
            return Some(p);
        }
        i = i + 1;
    }
    assert(s@ != ps@[0].name() && s@ != ps@[1].name() && s@ != ps@[2].name() && s@
        != ps@[3].name());
    None
}

/// The known protocol that `s` spells, ignoring ASCII case.
fn folded_protocol(s: &[u8]) -> (r: Option<Protocol>)
    ensures
        r == known_protocol(s@),
{
    if eq_ignore_ascii_case(s, Protocol::Http.as_str().as_bytes()) {
        Some(Protocol::Http)
    } else if eq_ignore_ascii_case(s, Protocol::Https.as_str().as_bytes()) {
        Some(Protocol::Https)
    } else if eq_ignore_ascii_case(s, Protocol::Rtsp.as_str().as_bytes()) {
        Some(Protocol::Rtsp)
    } else if eq_ignore_ascii_case(s, Protocol::Rtsps.as_str().as_bytes()) {
        Some(Protocol::Rtsps)
    } else {
        None
    }
}

/// Compares two byte slices exactly.
fn bytes_eq(a: &[u8], b: &[u8]) -> (r: bool)
    ensures
        r == (a@ == b@),
{
    if a.len() != b.len() {
        return false;
    }
    let mut i: usize = 0;
    while i < a.len()
        invariant
            a.len() == b.len(),
            0 <= i <= a.len(),
            forall|j: int| 0 <= j < i ==> a@[j] == b@[j],
        decreases a.len() - i,
    {
        if a[i] != b[i] {
            return false;
        }
        i = i + 1;
    }
    assert(a@ =~= b@);
    true
}

/// Whether `s` starts with the protocol's scheme and `://`, ignoring ASCII case.
fn starts_with_scheme_of(s: &[u8], p: Protocol) -> (r: bool)
    ensures
        r == starts_with_protocol(s@, p),
{
    let name = p.as_str().as_bytes();
    let n = name.len();
    let total = n + 3;
    let ghost lit = p.name() + seq![COLON, SLASH, SLASH];
    if s.len() < total {
        return false;
    }
    let mut i: usize = 0;
    while i < total
        invariant
            name@ == p.name(),
            n == name@.len(),
            total == n + 3,
            lit.len() == total,
            lit == p.name() + seq![COLON, SLASH, SLASH],
            s.len() >= total,
            0 <= i <= total,
            forall|j: int| 0 <= j < i ==> lower_byte(#[trigger] s@[j]) == lower_byte(lit[j]),
        decreases total - i,
    {
        let want = if i < n {
            name[i]
        } else if i == n {
            COLON
        } else {
            SLASH
        };
        assert(want == lit[i as int]);
        if to_lower(s[i]) != to_lower(want) {
            assert(lower_seq(s@.subrange(0, total as int))[i as int] != lower_seq(lit)[i as int]);
            return false;
        }
        i = i + 1;
    }
    assert(lower_seq(s@.subrange(0, total as int)) =~= lower_seq(lit));
    true
}

impl Scheme2<usize> {
    /// Validates `s` as a standalone scheme.
    ///
    /// A scheme that spells a known protocol, in any case, is that protocol. Any other
    /// scheme of 1 to 64 bytes of `A-Z a-z 0-9 + - .` is `Other`.
    pub fn parse_exact(s: &[u8]) -> (r: Result<Scheme2<()>, InvalidUri>)
        ensures
            r == exact_spec(s@),
    {
        if let Some(p) = exact_protocol(s) {
            proof {
                assert(lower_seq(s@) =~= s@);
            }
            return Ok(Scheme2::Standard(p));
        }
        if s.len() > MAX_SCHEME_LEN {
            return Err(InvalidUri(ErrorKind::SchemeTooLong));
        }
        let mut i: usize = 0;
        while i < s.len()
            invariant
                0 <= i <= s.len() <= MAX_SCHEME_LEN,
                forall|j: int| 0 <= j < i ==> is_scheme_byte(#[trigger] s@[j]),
            decreases s.len() - i,
        {
            let c = classify(s[i]);
            if c == COLON || c == 0 {
                assert(!is_scheme_byte(s@[i as int]));
                return Err(InvalidUri(ErrorKind::InvalidScheme));
            }
            i = i + 1;
        }
        if s.len() == 0 {
            return Err(InvalidUri(ErrorKind::InvalidScheme));
        }
        match folded_protocol(s) {
            Some(p) => Ok(Scheme2::Standard(p)),
            None => Ok(Scheme2::Other(())),
        }
    }

    /// Scans the start of a URI for its scheme.
    ///
    /// Yields the known protocol when the URI starts with one of them and `://` (in any
    /// case), the length of the scheme when it starts with a run of scheme bytes and
    /// `://`, and `Empty` when it has no scheme.
    pub fn parse(s: &[u8]) -> (r: Result<Scheme2<usize>, InvalidUri>)
        ensures
            r == scan_spec(s@),
    {
        if s.len() >= 7 {
            if starts_with_scheme_of(s, Protocol::Http) {
                return Ok(Scheme2::Standard(Protocol::Http));
            }
            if starts_with_scheme_of(s, Protocol::Rtsp) {
                return Ok(Scheme2::Standard(Protocol::Rtsp));
            }
        }
        if s.len() >= 8 {
            if starts_with_scheme_of(s, Protocol::Https) {
                return Ok(Scheme2::Standard(Protocol::Https));
            }
            if starts_with_scheme_of(s, Protocol::Rtsps) {
                return Ok(Scheme2::Standard(Protocol::Rtsps));
            }
        }
        if s.len() > 3 {
            let mut i: usize = 0;
            while i < s.len()
                invariant
                    0 <= i <= s.len(),
                    s.len() > 3,
                    !starts_with_protocol(s@, Protocol::Http),
                    !starts_with_protocol(s@, Protocol::Rtsp),
                    !starts_with_protocol(s@, Protocol::Https),
                    !starts_with_protocol(s@, Protocol::Rtsps),
                    scheme_run(s@, 0) == scheme_run(s@, i as int),
                decreases s.len() - i,
            {
                let c = classify(s[i]);
                if c == COLON || c == 0 {
                    assert(scheme_run(s@, i as int) == i);
                }
                if c == COLON {
                    if s.len() - i < 3 {
                        return Ok(Scheme2::Empty);
                    }
                    if s[i + 1] != SLASH || s[i + 2] != SLASH {
                        return Ok(Scheme2::Empty);
                    }
                    if i > MAX_SCHEME_LEN {
                        return Err(InvalidUri(ErrorKind::SchemeTooLong));
                    }
                    return Ok(Scheme2::Other(i));
                } else if c == 0 {
                    return Ok(Scheme2::Empty);
                }
                i = i + 1;
            }
        }
        Ok(Scheme2::Empty)
    }
}

impl<T> From<Protocol> for Scheme2<T> {
    fn from(p: Protocol) -> (r: Scheme2<T>) {
        Scheme2::Standard(p)
    }
}

impl<T> vstd::std_specs::convert::FromSpecImpl<Protocol> for Scheme2<T> {
    open spec fn obeys_from_spec() -> bool {
        true
    }

    open spec fn from_spec(p: Protocol) -> Scheme2<T> {
        Scheme2::Standard(p)
    }
}

impl<T> Scheme2<T> {
    /// Whether no scheme is present.
    pub fn is_none(&self) -> (r: bool)
        ensures
            r == (*self is Empty),
    {
        match *self {
            Scheme2::Empty => true,
            _ => false,
        }
    }
}

} // verus!
