//! What a client of the session service sends when it opens a session for
//! itself: a random API key and secret, posted to the session endpoint.
use vstd::prelude::*;
use crate::text::{concat3, push_char};
use rand::Rng;

verus! {

/// The characters random credentials are drawn from: ASCII letters and digits.
pub open spec fn credential_charset() -> Seq<char> {
    "ABCDEFGHIJKLMNOPQRSTUVWXYZabcdefghijklmnopqrstuvwxyz0123456789"@
}

/// A position drawn with `rand::Rng::gen_range(0..bound)` from the thread's
/// generator. Its documentation says that the value lies in the range, and
/// that an empty range panics, which `requires` rules out. Which value comes out
/// depends on chance, so nothing else is said of it.
#[verifier::external_body]
fn random_below(bound: usize) -> (r: usize)
    requires
        bound > 0,
    ensures
        r < bound,
{
    rand::thread_rng().gen_range(0..bound)
}

/// The credential written by the charset positions `p`: for each position, the
/// charset's character there.
pub open spec fn credential_text(p: Seq<usize>) -> Seq<char> {
    Seq::new(p.len(), |i: int| credential_charset()[p[i] as int])
}

/// The credential written by the charset positions `p`.
pub fn credential_from_positions(p: &Vec<usize>) -> (r: String)
    requires
        forall|i: int| 0 <= i < p@.len() ==> p@[i] < 62,
    ensures
        r@ == credential_text(p@),
{
    let charset = "ABCDEFGHIJKLMNOPQRSTUVWXYZabcdefghijklmnopqrstuvwxyz0123456789";
    proof {
        reveal_strlit("ABCDEFGHIJKLMNOPQRSTUVWXYZabcdefghijklmnopqrstuvwxyz0123456789");
    }
    assert(charset@.len() == 62);
    let mut r = String::new();
    let n = p.len();
    let mut k: usize = 0;
    while k < n
        invariant
            n == p@.len(),
            k <= n,
            charset@ == credential_charset(),
            charset@.len() == 62,
            forall|i: int| 0 <= i < p@.len() ==> p@[i] < 62,
            r@ == credential_text(p@.take(k as int)),
        decreases n - k,
    {
        let c = charset.get_char(p[k]);
        push_char(&mut r, c);
        assert(r@ =~= credential_text(p@.take(k + 1)));
        k += 1;
    }
    assert(p@.take(n as int) =~= p@);
    r
}

/// `len` characters, each drawn at random from the credential charset: the
/// charset positions are drawn one by one with `rand`, then written out.
pub fn generate_random_string(len: usize) -> (r: String)
    ensures
        r@.len() == len,
        forall|i: int| 0 <= i < len ==> credential_charset().contains(#[trigger] r@[i]),
        exists|p: Seq<usize>|
            #![trigger credential_text(p)]
            p.len() == len && (forall|i: int| 0 <= i < p.len() ==> p[i] < 62) && r@ == credential_text(p),
{
    let mut positions: Vec<usize> = Vec::new();
    let mut k: usize = 0;
    while k < len
        invariant
            k <= len,
            positions@.len() == k,
            forall|i: int| 0 <= i < positions@.len() ==> positions@[i] < 62,
        decreases len - k,
    {
        positions.push(random_below(62));
        k += 1;
    }
    let r = credential_from_positions(&positions);
    proof {
        reveal_strlit("ABCDEFGHIJKLMNOPQRSTUVWXYZabcdefghijklmnopqrstuvwxyz0123456789");
        assert forall|i: int| 0 <= i < len implies credential_charset().contains(#[trigger] r@[i]) by {
            assert(r@[i] == credential_charset()[positions@[i] as int]);
        }
        assert(credential_text(positions@) == r@);
    }
    r
}

/// The endpoint at which the engine opens a session for `api_key`.
pub fn session_request_url(api_key: &str) -> (r: String)
    ensures
        r@ == "http://localhost:8080/api/auth/"@ + api_key@ + "/sessions"@,
{
    concat3("http://localhost:8080/api/auth/", api_key, "/sessions")
}

} // verus!
