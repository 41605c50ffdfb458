use crate::chars::{eq_folded, eq_ignore_ascii_case, lower_seq, to_lower};
use crate::error::{ErrorKind, InvalidUri};
use crate::scheme::{all_scheme_bytes, exact_spec, known_protocol, valid_token, Protocol, Scheme2};
use crate::shared::{bytes_content, bytes_clone, bytes_copy, bytes_prefix, bytes_slice};
use bytes::Bytes;
use vstd::prelude::*;
use vstd::string::StringSliceAdditionalSpecFns;

verus! {

/// The scheme component of a URI.
#[derive(Debug)]
pub struct Scheme {
    inner: Scheme2<Bytes>,
}

/// A scheme value that a token may hold: never `Empty`, and any `Other` scheme is a valid
/// token that spells no known protocol in any case.
pub open spec fn valid_scheme(v: Scheme2<Seq<u8>>) -> bool {
    match v {
        Scheme2::Other(t) => valid_token(t) && known_protocol(t) is None,
        Scheme2::Standard(_) => true,
        Scheme2::Empty => false,
    }
}

/// The canonical text of a scheme value.
pub open spec fn scheme_text(v: Scheme2<Seq<u8>>) -> Seq<u8> {
    match v {
        Scheme2::Standard(p) => p.name(),
        Scheme2::Other(t) => t,
        Scheme2::Empty => Seq::empty(),
    }
}

/// Equality of scheme values: the same known protocol, or `Other` texts equal up to ASCII case.
pub open spec fn same_scheme(a: Scheme2<Seq<u8>>, b: Scheme2<Seq<u8>>) -> bool {
    match (a, b) {
        (Scheme2::Standard(p), Scheme2::Standard(q)) => p == q,
        (Scheme2::Other(x), Scheme2::Other(y)) => eq_folded(x, y),
        (Scheme2::Empty, Scheme2::Empty) => true,
        _ => false,
    }
}

/// The token that a standalone scheme `s` makes, or the reason it makes none.
pub open spec fn token_spec(s: Seq<u8>) -> Result<Scheme2<Seq<u8>>, InvalidUri> {
    match exact_spec(s) {
        Ok(Scheme2::Standard(p)) => Ok(Scheme2::Standard(p)),
        Ok(Scheme2::Other(_)) => Ok(Scheme2::Other(s)),
        Ok(Scheme2::Empty) => Err(InvalidUri(ErrorKind::InvalidScheme)),
        Err(e) => Err(e),
    }
}

/// The value of a constructed token, or the error.
pub open spec fn result_view(r: Result<Scheme, InvalidUri>) -> Result<Scheme2<Seq<u8>>, InvalidUri> {
    match r {
        Ok(t) => Ok(t@),
        Err(e) => Err(e),
    }
}

/// The small tag that stands for a known protocol when hashing.
pub open spec fn protocol_tag(p: Protocol) -> u8 {
    match p {
        Protocol::Http => 1,
        Protocol::Https => 2,
        Protocol::Rtsp => 3,
        Protocol::Rtsps => 4,
    }
}

/// The bytes that a scheme value feeds to a hasher, besides the length of an `Other` text.
pub open spec fn hash_key_spec(v: Scheme2<Seq<u8>>) -> Seq<u8> {
    match v {
        Scheme2::Standard(p) => seq![protocol_tag(p)],
        Scheme2::Other(t) => lower_seq(t),
        Scheme2::Empty => Seq::empty(),
    }
}

impl View for Scheme {
    type V = Scheme2<Seq<u8>>;

    closed spec fn view(&self) -> Scheme2<Seq<u8>> {
        match self.inner {
            Scheme2::Empty => Scheme2::Empty,
            Scheme2::Standard(p) => Scheme2::Standard(p),
            Scheme2::Other(b) => Scheme2::Other(bytes_content(b)),
        }
    }
}

/// Bytes below 128 are valid UTF-8.
proof fn lemma_ascii_valid_utf8(b: Seq<u8>)
    requires
        forall|i: int| 0 <= i < b.len() ==> #[trigger] b[i] < 128,
    ensures
        vstd::utf8::valid_utf8(b),
{
    broadcast use vstd::utf8::partial_valid_utf8_extend_ascii_block;

    assert(b.subrange(0, 0) =~= Seq::<u8>::empty());
    assert(vstd::utf8::partial_valid_utf8(b, 0));
    assert(vstd::utf8::partial_valid_utf8(b, b.len() as int));
    assert(b.subrange(0, b.len() as int) =~= b);
}

/// Relies on `std::str::from_utf8`: it succeeds exactly on valid UTF-8, and the text then
/// holds the same bytes.
#[verifier::external_body]
fn str_from_utf8(v: &[u8]) -> (r: Option<&str>)
    ensures
        r is Some <==> vstd::utf8::valid_utf8(v@),
        r matches Some(t) ==> t.spec_bytes() == v@,
{
    std::str::from_utf8(v).ok()
}

impl Scheme {
    /// The token of a known protocol; it needs no allocation.
    pub fn from_protocol(p: Protocol) -> (r: Scheme)
        ensures
            r@ == Scheme2::<Seq<u8>>::Standard(p),
    {
        Scheme { inner: Scheme2::Standard(p) }
    }

    #[verifier::type_invariant]
    spec fn inv(&self) -> bool {
        valid_scheme(self@)
    }

    /// Every token is a known protocol, or a valid scheme of 1 to 64 bytes that spells no
    /// known protocol in any case; no token is `Empty`. A call costs nothing and lets a
    /// caller's proof use this.
    pub fn invariant_holds(&self)
        ensures
            valid_scheme(self@),
            !(self@ is Empty),
    {
        proof {
            use_type_invariant(self);
        }
    }

    /// The canonical text of the scheme: the lower-case name of a known protocol, or the
    /// bytes of any other scheme as they were given.
    pub fn as_str(&self) -> (r: &str)
        ensures
            r.spec_bytes() == scheme_text(self@),
    {
        proof {
            use_type_invariant(self);
        }
        match &self.inner {
            Scheme2::Standard(p) => p.as_str(),
            Scheme2::Other(b) => {
                let v = bytes_slice(b);
                proof {
                    assert forall|i: int| 0 <= i < v@.len() implies #[trigger] v@[i] < 128 by {
                        assert(all_scheme_bytes(v@));
                    }
                    lemma_ascii_valid_utf8(v@);
                }
                match str_from_utf8(v) {
                    Some(t) => t,
                    None => "",
                }
            },
            Scheme2::Empty => {
                proof {
                    reveal_strlit("");
                    assert("".spec_bytes() =~= Seq::<u8>::empty());
                }
                ""
            },
        }
    }

    /// Makes a token of a standalone scheme, copying its bytes.
    pub fn from_bytes(s: &[u8]) -> (r: Result<Scheme, InvalidUri>)
        ensures
            result_view(r) == token_spec(s@),
    {
        match Scheme2::parse_exact(s) {
            Ok(Scheme2::Standard(p)) => Ok(Scheme { inner: Scheme2::Standard(p) }),
            Ok(Scheme2::Other(_)) => Ok(Scheme { inner: Scheme2::Other(bytes_copy(s)) }),
            Ok(Scheme2::Empty) => Err(InvalidUri(ErrorKind::InvalidScheme)),
            Err(e) => Err(e),
        }
    }

    /// Makes a token of the first `len` bytes of a shared buffer, sharing them rather than
    /// copying. A `len` past the end of the buffer is an invalid scheme.
    pub fn from_shared(src: &Bytes, len: usize) -> (r: Result<Scheme, InvalidUri>)
        ensures
            len > bytes_content(*src).len() ==> r == Err::<Scheme, InvalidUri>(
                InvalidUri(ErrorKind::InvalidScheme),
            ),
            len <= bytes_content(*src).len() ==> result_view(r) == token_spec(
                bytes_content(*src).subrange(0, len as int),
            ),
    {
        let all = bytes_slice(src);
        if len > all.len() {
            return Err(InvalidUri(ErrorKind::InvalidScheme));
        }
        let s = vstd::slice::slice_subrange(all, 0, len);
        match Scheme2::parse_exact(s) {
            Ok(Scheme2::Standard(p)) => Ok(Scheme { inner: Scheme2::Standard(p) }),
            Ok(Scheme2::Other(_)) => Ok(Scheme { inner: Scheme2::Other(bytes_prefix(src, len)) }),
            Ok(Scheme2::Empty) => Err(InvalidUri(ErrorKind::InvalidScheme)),
            Err(e) => Err(e),
        }
    }

    /// The bytes that the scheme feeds to a hasher: a tag for a known protocol, the
    /// lower-cased text of any other scheme.
    pub fn hash_key(&self) -> (r: Vec<u8>)
        ensures
            r@ == hash_key_spec(self@),
    {
        match &self.inner {
            Scheme2::Standard(p) => {
                let tag: u8 = match *p {
                    Protocol::Http => 1,
                    Protocol::Https => 2,
                    Protocol::Rtsp => 3,
                    Protocol::Rtsps => 4,
                };
                let mut r: Vec<u8> = Vec::new();
                r.push(tag);
                proof {
                    assert(r@ =~= seq![tag]);
                }
                r
            },
            Scheme2::Other(b) => {
                let v = bytes_slice(b);
                let mut r: Vec<u8> = Vec::new();
                let mut i: usize = 0;
                while i < v.len()
                    invariant
                        0 <= i <= v.len(),
                        r@ =~= lower_seq(v@.subrange(0, i as int)),
                    decreases v.len() - i,
                {
                    r.push(to_lower(v[i]));
                    i = i + 1;
                    proof {
                        assert(v@.subrange(0, i as int) =~= v@.subrange(0, i - 1).push(
                            v@[i - 1],
                        ));
                    }
                }
                proof {
                    assert(v@.subrange(0, v@.len() as int) =~= v@);
                }
                r
            },
            Scheme2::Empty => Vec::new(),
        }
    }
}

/// Relies on `std::hash::Hasher::write_u8`: feeds one byte to the hasher.
#[verifier::external_body]
fn hasher_write_u8<H: std::hash::Hasher>(state: &mut H, b: u8) {
    state.write_u8(b)
}

/// Relies on `std::hash::Hasher::write_usize`: feeds one length to the hasher.
#[verifier::external_body]
fn hasher_write_usize<H: std::hash::Hasher>(state: &mut H, n: usize) {
    state.write_usize(n)
}

/// Relies on `std::hash::Hasher::write`: feeds a run of bytes to the hasher.
#[verifier::external_body]
fn hasher_write<H: std::hash::Hasher>(state: &mut H, bytes: &[u8]) {
    state.write(bytes)
}

/// Case-insensitive hashing, in agreement with `==`.
impl std::hash::Hash for Scheme {
    fn hash<H: std::hash::Hasher>(&self, state: &mut H) {
        let key = self.hash_key();
        match &self.inner {
            Scheme2::Standard(_) => hasher_write_u8(state, key[0]),
            Scheme2::Other(_) => {
                hasher_write_usize(state, key.len());
                hasher_write(state, key.as_slice());
            },
            Scheme2::Empty => {},
        }
    }
}

/// The token's buffer is not a plain value, so no exact result is stated here; `from_bytes`
/// states what the conversion yields.
impl<'a> vstd::std_specs::convert::TryFromSpecImpl<&'a [u8]> for Scheme {
    open spec fn obeys_try_from_spec() -> bool {
        false
    }

    open spec fn try_from_spec(s: &'a [u8]) -> Result<Scheme, InvalidUri> {
        arbitrary()
    }
}

impl<'a> TryFrom<&'a [u8]> for Scheme {
    type Error = InvalidUri;

    fn try_from(s: &'a [u8]) -> (r: Result<Scheme, InvalidUri>)
        ensures
            result_view(r) == token_spec(s@),
    {
        Scheme::from_bytes(s)
    }
}

/// The token's buffer is not a plain value, so no exact result is stated here; `from_bytes`
/// states what the conversion yields.
impl<'a> vstd::std_specs::convert::TryFromSpecImpl<&'a str> for Scheme {
    open spec fn obeys_try_from_spec() -> bool {
        false
    }

    open spec fn try_from_spec(s: &'a str) -> Result<Scheme, InvalidUri> {
        arbitrary()
    }
}

impl<'a> TryFrom<&'a str> for Scheme {
    type Error = InvalidUri;

    fn try_from(s: &'a str) -> (r: Result<Scheme, InvalidUri>)
        ensures
            result_view(r) == token_spec(s.spec_bytes()),
    {
        Scheme::from_bytes(s.as_bytes())
    }
}

impl std::str::FromStr for Scheme {
    type Err = InvalidUri;

    fn from_str(s: &str) -> (r: Result<Scheme, InvalidUri>)
        ensures
            result_view(r) == token_spec(s.spec_bytes()),
    {
        Scheme::from_bytes(s.as_bytes())
    }
}

impl AsRef<str> for Scheme {
    fn as_ref(&self) -> (r: &str)
        ensures
            r.spec_bytes() == scheme_text(self@),
    {
        self.as_str()
    }
}

impl Clone for Scheme {
    fn clone(&self) -> (r: Scheme)
        ensures
            r@ == self@,
    {
        proof {
            use_type_invariant(self);
        }
        match &self.inner {
            Scheme2::Standard(p) => Scheme { inner: Scheme2::Standard(*p) },
            Scheme2::Other(b) => Scheme { inner: Scheme2::Other(bytes_clone(b)) },
            Scheme2::Empty => Scheme { inner: Scheme2::Empty },
        }
    }
}

impl PartialEq for Scheme {
    fn eq(&self, other: &Scheme) -> (r: bool) {
        match (&self.inner, &other.inner) {
            (Scheme2::Standard(p), Scheme2::Standard(q)) => *p == *q,
            (Scheme2::Other(a), Scheme2::Other(b)) => eq_ignore_ascii_case(
                bytes_slice(a),
                bytes_slice(b),
            ),
            (Scheme2::Empty, Scheme2::Empty) => true,
            _ => false,
        }
    }
}

impl vstd::std_specs::cmp::PartialEqSpecImpl for Scheme {
    open spec fn obeys_eq_spec() -> bool {
        true
    }

    open spec fn eq_spec(&self, other: &Scheme) -> bool {
        same_scheme(self@, other@)
    }
}

impl Eq for Scheme {

}

impl PartialEq<str> for Scheme {
    fn eq(&self, other: &str) -> (r: bool) {
        eq_ignore_ascii_case(self.as_str().as_bytes(), other.as_bytes())
    }
}

impl PartialEq<Scheme> for str {
    fn eq(&self, other: &Scheme) -> (r: bool) {
        eq_ignore_ascii_case(self.as_bytes(), other.as_str().as_bytes())
    }
}

impl vstd::std_specs::cmp::PartialEqSpecImpl<Scheme> for str {
    open spec fn obeys_eq_spec() -> bool {
        true
    }

    open spec fn eq_spec(&self, other: &Scheme) -> bool {
        eq_folded(self.spec_bytes(), scheme_text(other@))
    }
}

impl vstd::std_specs::cmp::PartialEqSpecImpl<str> for Scheme {
    open spec fn obeys_eq_spec() -> bool {
        true
    }

    open spec fn eq_spec(&self, other: &str) -> bool {
        eq_folded(scheme_text(self@), other.spec_bytes())
    }
}

} // verus!
