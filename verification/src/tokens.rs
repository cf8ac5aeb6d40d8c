//! Stateless retry tokens: the static string `quiche`, the client's address bytes, then the original
//! destination connection id. They carry no cryptographic protection.
use vstd::prelude::*;

verus! {

/// The static string `quiche` that opens every token.
pub const TOKEN_PREFIX: [u8; 6] = [113, 117, 105, 99, 104, 101];

/// Length of [`TOKEN_PREFIX`].
pub const TOKEN_PREFIX_LEN: usize = 6;

/// The token for a client address and a connection id.
pub open spec fn spec_token(addr: Seq<u8>, dcid: Seq<u8>) -> Seq<u8> {
    TOKEN_PREFIX@ + addr + dcid
}

/// Whether `token` starts with the prefix followed by `addr`.
pub open spec fn token_matches(addr: Seq<u8>, token: Seq<u8>) -> bool {
    &&& token.len() >= TOKEN_PREFIX_LEN + addr.len()
    &&& token.subrange(0, TOKEN_PREFIX_LEN as int) == TOKEN_PREFIX@
    &&& token.subrange(TOKEN_PREFIX_LEN as int, TOKEN_PREFIX_LEN + addr.len()) == addr
}

fn bytes_eq(a: &[u8], b: &[u8]) -> (r: bool)
    ensures
        r == (a@ == b@),
{
    if a.len() != b.len() {
        return false;
    }
    let mut i: usize = 0;
    while i < a.len()
        invariant
            0 <= i <= a@.len(),
            a@.len() == b@.len(),
            forall|k: int| 0 <= k < i ==> a@[k] == b@[k],
        decreases a@.len() - i,
    {
        if a[i] != b[i] {
            return false;
        }
        i = i + 1;
    }
    assert(a@ =~= b@);
    true
}

/// Builds the token of `addr` (the client's address bytes) and `dcid`.
pub fn mint_token(addr: &[u8], dcid: &[u8]) -> (token: Vec<u8>)
    ensures
        token@ == spec_token(addr@, dcid@),
{
    let mut token: Vec<u8> = Vec::new();
    let prefix: &[u8] = &TOKEN_PREFIX;
    let mut i: usize = 0;
    while i < prefix.len()
        invariant
            0 <= i <= prefix@.len(),
            prefix@ == TOKEN_PREFIX@,
            token@ == prefix@.subrange(0, i as int),
        decreases prefix@.len() - i,
    {
        token.push(prefix[i]);
        i = i + 1;
        assert(token@ =~= prefix@.subrange(0, i as int));
    }
    let ghost front = token@;
    let mut j: usize = 0;
    while j < addr.len()
        invariant
            0 <= j <= addr@.len(),
            token@ == front + addr@.subrange(0, j as int),
        decreases addr@.len() - j,
    {
        token.push(addr[j]);
        j = j + 1;
        assert(token@ =~= front + addr@.subrange(0, j as int));
    }
    let ghost middle = token@;
    let mut k: usize = 0;
    while k < dcid.len()
        invariant
            0 <= k <= dcid@.len(),
            token@ == middle + dcid@.subrange(0, k as int),
        decreases dcid@.len() - k,
    {
        token.push(dcid[k]);
        k = k + 1;
        assert(token@ =~= middle + dcid@.subrange(0, k as int));
    }
    assert(token@ =~= spec_token(addr@, dcid@));
    token
}

/// Checks a token against the client's address bytes; gives the connection id it carries.
pub fn validate_token<'a>(addr: &[u8], token: &'a [u8]) -> (r: Option<&'a [u8]>)
    ensures
        r is Some <==> token_matches(addr@, token@),
        r matches Some(cid) ==> cid@ == token@.subrange(
            TOKEN_PREFIX_LEN + addr@.len(),
            token@.len() as int,
        ),
{
    if token.len() < TOKEN_PREFIX_LEN {
        return None;
    }
    let prefix: &[u8] = &TOKEN_PREFIX;
    if !bytes_eq(vstd::slice::slice_subrange(token, 0, TOKEN_PREFIX_LEN), prefix) {
        return None;
    }
    let rest = vstd::slice::slice_subrange(token, TOKEN_PREFIX_LEN, token.len());
    if rest.len() < addr.len() {
        return None;
    }
    let addr_part = vstd::slice::slice_subrange(rest, 0, addr.len());
    assert(addr_part@ =~= token@.subrange(TOKEN_PREFIX_LEN as int, TOKEN_PREFIX_LEN + addr@.len()));
    if !bytes_eq(addr_part, addr) {
        return None;
    }
    let cid = vstd::slice::slice_subrange(rest, addr.len(), rest.len());
    assert(cid@ =~= token@.subrange(TOKEN_PREFIX_LEN + addr@.len(), token@.len() as int));
    Some(cid)
}

/// A token is the six bytes of `quiche`, then the address bytes, then the connection id.
pub proof fn law_token_layout(addr: Seq<u8>, dcid: Seq<u8>)
    ensures
        spec_token(addr, dcid) == seq![113u8, 117, 105, 99, 104, 101] + addr + dcid,
        TOKEN_PREFIX_LEN == 6,
{
    assert(TOKEN_PREFIX@ =~= seq![113u8, 117, 105, 99, 104, 101]);
}

/// A minted token validates against the same address and gives back the connection id.
pub proof fn law_token_roundtrip(addr: Seq<u8>, dcid: Seq<u8>)
    ensures
        token_matches(addr, spec_token(addr, dcid)),
        spec_token(addr, dcid).subrange(
            TOKEN_PREFIX_LEN + addr.len(),
            spec_token(addr, dcid).len() as int,
        ) == dcid,
{
    let t = spec_token(addr, dcid);
    assert(t.subrange(0, TOKEN_PREFIX_LEN as int) =~= TOKEN_PREFIX@);
    assert(t.subrange(TOKEN_PREFIX_LEN as int, TOKEN_PREFIX_LEN + addr.len()) =~= addr);
    assert(t.subrange(TOKEN_PREFIX_LEN + addr.len(), t.len() as int) =~= dcid);
}

} // verus!
