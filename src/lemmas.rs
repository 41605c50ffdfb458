use crate::chars::{eq_folded, is_scheme_byte, lower_byte, lower_seq, COLON};
use crate::error::{ErrorKind, InvalidUri};
use crate::scheme::{
    all_scheme_bytes, exact_spec, known_protocol, scan_spec, scheme_run, starts_with_protocol,
    valid_token, Protocol, Scheme2, MAX_SCHEME_LEN, SLASH,
};
use crate::token::{hash_key_spec, same_scheme, scheme_text, token_spec, valid_scheme};
use vstd::prelude::*;

verus! {

/// The `://` that ends a scheme in a URI.
pub open spec fn separator() -> Seq<u8> {
    seq![COLON, SLASH, SLASH]
}

/// Lower-casing distributes over concatenation.
pub proof fn lemma_lower_concat(a: Seq<u8>, b: Seq<u8>)
    ensures
        lower_seq(a + b) == lower_seq(a) + lower_seq(b),
{
    assert(lower_seq(a + b) =~= lower_seq(a) + lower_seq(b));
}

/// A scheme byte never lowers to `:` or `/`.
proof fn lemma_scheme_byte_not_separator(b: u8)
    requires
        is_scheme_byte(b),
    ensures
        lower_byte(b) != COLON,
        lower_byte(b) != SLASH,
{
}

/// A text that starts with a run of scheme bytes `t` and then `://` is not taken for a
/// known protocol by the scanner's fast path, unless `t` spells that protocol.
proof fn lemma_fast_path_needs_name(t: Seq<u8>, rest: Seq<u8>, p: Protocol)
    requires
        all_scheme_bytes(t),
        starts_with_protocol(t + separator() + rest, p),
    ensures
        eq_folded(t, p.name()),
        t.len() == p.name().len(),
{
    let s = t + separator() + rest;
    let n = p.name().len();
    let lit = p.name() + separator();
    let pre = s.subrange(0, lit.len() as int);
    assert(lower_seq(pre)[n as int] == lower_seq(lit)[n as int]);
    assert(lower_seq(pre)[t.len() as int] == lower_seq(lit)[t.len() as int]);
    if t.len() > n {
        lemma_scheme_byte_not_separator(t[n as int]);
        assert(pre[n as int] == t[n as int]);
    } else if t.len() < n {
        assert(pre[t.len() as int] == COLON);
    } else {
        assert forall|i: int| 0 <= i < n implies lower_seq(t)[i] == lower_seq(p.name())[i] by {
            assert(lower_seq(pre)[i] == lower_seq(lit)[i]);
            assert(pre[i] == t[i]);
        }
        assert(lower_seq(t) =~= lower_seq(p.name()));
    }
}

/// The run of scheme bytes from `i` ends where `t` ends, when `t` is followed by `:`.
proof fn lemma_run_ends_at_separator(t: Seq<u8>, rest: Seq<u8>, i: int)
    requires
        all_scheme_bytes(t),
        0 <= i <= t.len(),
    ensures
        scheme_run(t + separator() + rest, i) == t.len(),
    decreases t.len() - i,
{
    let s = t + separator() + rest;
    if i < t.len() {
        assert(s[i] == t[i]);
        lemma_run_ends_at_separator(t, rest, i + 1);
    } else {
        assert(s[i] == COLON);
    }
}

/// Every scheme that the exact validator accepts has canonical text equal to the input up to
/// ASCII case.
pub proof fn lemma_text_matches_input(s: Seq<u8>)
    requires
        token_spec(s) is Ok,
    ensures
        eq_folded(scheme_text(token_spec(s)->Ok_0), s),
{
}

/// The scanner reports a known protocol for every spelling of it, in any ASCII case, that
/// is followed by `://`, whatever follows.
pub proof fn lemma_scan_known_protocol(p: Protocol, v: Seq<u8>, rest: Seq<u8>)
    requires
        eq_folded(v, p.name()),
    ensures
        scan_spec(v + separator() + rest) == Ok::<Scheme2<usize>, InvalidUri>(Scheme2::Standard(p)),
{
    let s = v + separator() + rest;
    let lit = p.name() + separator();
    assert(lower_seq(v).len() == lower_seq(p.name()).len());
    assert(s.subrange(0, lit.len() as int) =~= v + separator());
    lemma_lower_concat(v, separator());
    lemma_lower_concat(p.name(), separator());
    assert(starts_with_protocol(s, p));
    let ps = seq![Protocol::Http, Protocol::Rtsp, Protocol::Https, Protocol::Rtsps];
    assert forall|k: int| 0 <= k < 4 && ps[k] != p implies !starts_with_protocol(s, ps[k]) by {
        let q = ps[k];
        if starts_with_protocol(s, q) {
            let lq = q.name() + separator();
            let pre = s.subrange(0, lq.len() as int);
            let m = if q.name().len() < p.name().len() { q.name().len() } else { p.name().len() };
            assert(lower_seq(v)[0] == lower_seq(p.name())[0]);
            assert(lower_seq(pre)[0] == lower_seq(lq)[0]);
            assert(lower_seq(pre)[3] == lower_seq(lq)[3]);
            assert(lower_seq(pre)[4] == lower_seq(lq)[4]);
            assert(lower_seq(v)[3] == lower_seq(p.name())[3]);
            if v.len() > 4 {
                assert(lower_seq(v)[4] == lower_seq(p.name())[4]);
            }
            assert(pre[0] == v[0]);
            assert(pre[3] == v[3]);
            assert(pre[4] == s[4]);
        }
    }
    assert(!starts_with_protocol(s, Protocol::Http) || p == Protocol::Http) by {
        assert(ps[0] == Protocol::Http);
    }
    assert(!starts_with_protocol(s, Protocol::Rtsp) || p == Protocol::Rtsp) by {
        assert(ps[1] == Protocol::Rtsp);
    }
    assert(!starts_with_protocol(s, Protocol::Https) || p == Protocol::Https) by {
        assert(ps[2] == Protocol::Https);
    }
}

/// The scanner reports the length of every other valid scheme followed by `://`, whatever
/// follows; and the token made of that many leading bytes is the token of the scheme alone.
pub proof fn lemma_scan_other_scheme(t: Seq<u8>, rest: Seq<u8>)
    requires
        valid_token(t),
        known_protocol(t) is None,
    ensures
        scan_spec(t + separator() + rest) == Ok::<Scheme2<usize>, InvalidUri>(
            Scheme2::Other(t.len() as usize),
        ),
        token_spec((t + separator() + rest).subrange(0, t.len() as int)) == token_spec(t),
        token_spec(t) == Ok::<Scheme2<Seq<u8>>, InvalidUri>(Scheme2::Other(t)),
{
    let s = t + separator() + rest;
    if starts_with_protocol(s, Protocol::Http) {
        lemma_fast_path_needs_name(t, rest, Protocol::Http);
    }
    if starts_with_protocol(s, Protocol::Https) {
        lemma_fast_path_needs_name(t, rest, Protocol::Https);
    }
    if starts_with_protocol(s, Protocol::Rtsp) {
        lemma_fast_path_needs_name(t, rest, Protocol::Rtsp);
    }
    if starts_with_protocol(s, Protocol::Rtsps) {
        lemma_fast_path_needs_name(t, rest, Protocol::Rtsps);
    }
    lemma_run_ends_at_separator(t, rest, 0);
    assert(s[t.len() as int] == COLON);
    assert(s[t.len() as int + 1] == SLASH);
    assert(s[t.len() as int + 2] == SLASH);
    assert(s.subrange(0, t.len() as int) =~= t);
}

/// A known protocol's canonical text makes that protocol's token again.
pub proof fn lemma_protocol_round_trip(p: Protocol)
    ensures
        token_spec(p.name()) == Ok::<Scheme2<Seq<u8>>, InvalidUri>(Scheme2::Standard(p)),
{
    assert(lower_seq(p.name()) =~= p.name());
    assert(lower_seq(Protocol::Http.name()) =~= Protocol::Http.name());
    assert(lower_seq(Protocol::Https.name()) =~= Protocol::Https.name());
    assert(lower_seq(Protocol::Rtsp.name()) =~= Protocol::Rtsp.name());
    assert(lower_seq(Protocol::Rtsps.name()) =~= Protocol::Rtsps.name());
}

/// Validating the canonical text of any token that the parsers make gives back that token.
pub proof fn lemma_round_trip(s: Seq<u8>)
    requires
        token_spec(s) is Ok,
    ensures
        token_spec(scheme_text(token_spec(s)->Ok_0)) == token_spec(s),
{
    match token_spec(s)->Ok_0 {
        Scheme2::Standard(p) => lemma_protocol_round_trip(p),
        _ => {},
    }
}

/// A scheme of exactly the longest length, of scheme bytes, is accepted.
pub proof fn lemma_longest_scheme_accepted(t: Seq<u8>)
    requires
        t.len() == MAX_SCHEME_LEN,
        all_scheme_bytes(t),
    ensures
        token_spec(t) is Ok,
{
}

/// A run of scheme bytes one longer than the longest is refused as too long, by the exact
/// validator and by the scanner when `://` follows it.
pub proof fn lemma_too_long_scheme_refused(t: Seq<u8>, rest: Seq<u8>)
    requires
        t.len() == MAX_SCHEME_LEN + 1,
        all_scheme_bytes(t),
    ensures
        exact_spec(t) == Err::<Scheme2<()>, InvalidUri>(InvalidUri(ErrorKind::SchemeTooLong)),
        token_spec(t) == Err::<Scheme2<Seq<u8>>, InvalidUri>(InvalidUri(ErrorKind::SchemeTooLong)),
        scan_spec(t + separator() + rest) == Err::<Scheme2<usize>, InvalidUri>(
            InvalidUri(ErrorKind::SchemeTooLong),
        ),
{
    let s = t + separator() + rest;
    if starts_with_protocol(s, Protocol::Http) {
        lemma_fast_path_needs_name(t, rest, Protocol::Http);
    }
    if starts_with_protocol(s, Protocol::Https) {
        lemma_fast_path_needs_name(t, rest, Protocol::Https);
    }
    if starts_with_protocol(s, Protocol::Rtsp) {
        lemma_fast_path_needs_name(t, rest, Protocol::Rtsp);
    }
    if starts_with_protocol(s, Protocol::Rtsps) {
        lemma_fast_path_needs_name(t, rest, Protocol::Rtsps);
    }
    lemma_run_ends_at_separator(t, rest, 0);
    assert(s[t.len() as int] == COLON);
    assert(s[t.len() as int + 1] == SLASH);
    assert(s[t.len() as int + 2] == SLASH);
}

/// Equal schemes feed the same bytes, and the same length, to a hasher.
pub proof fn lemma_equal_schemes_hash_alike(a: Scheme2<Seq<u8>>, b: Scheme2<Seq<u8>>)
    requires
        same_scheme(a, b),
    ensures
        hash_key_spec(a) == hash_key_spec(b),
        scheme_text(a).len() == scheme_text(b).len(),
{
    if let (Scheme2::Other(x), Scheme2::Other(y)) = (a, b) {
        assert(lower_seq(x).len() == lower_seq(y).len());
    }
}

/// A known protocol never equals an `Other` scheme, and no valid `Other` scheme spells a
/// known protocol in any case.
pub proof fn lemma_known_never_other(p: Protocol, t: Seq<u8>)
    ensures
        !same_scheme(Scheme2::Standard(p), Scheme2::Other(t)),
        !same_scheme(Scheme2::Other(t), Scheme2::Standard(p)),
        valid_scheme(Scheme2::Other(t)) ==> !eq_folded(t, p.name()),
{
}

} // verus!
