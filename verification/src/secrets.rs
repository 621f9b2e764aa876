//! Random tokens, and the comparison of a secret with a guess.

use rand::distributions::Alphanumeric;
use rand::Rng;
use vstd::prelude::*;
use vstd::utf8::encode_utf8_decode_utf8;

verus! {

/// `c` is one of a-z, A-Z and 0-9.
pub open spec fn is_alphanumeric(c: char) -> bool {
    ||| 'a' <= c <= 'z'
    ||| 'A' <= c <= 'Z'
    ||| '0' <= c <= '9'
}

/// `token` is made of `length` characters out of a-z, A-Z and 0-9.
pub open spec fn is_token(token: Seq<char>, length: nat) -> bool {
    &&& token.len() == length
    &&& forall|i: int| 0 <= i < token.len() ==> is_alphanumeric(#[trigger] token[i])
}

/// A string of `length` characters from `rand`'s thread-local generator:
/// `rand::thread_rng().sample_iter(&Alphanumeric).take(length)`, collected.
///
/// Nothing is claimed of which characters come back, only what holds of
/// every outcome: `sample_iter` never ends, so `take` yields `length`
/// characters, and `Alphanumeric` samples each out of a-z, A-Z and 0-9.
/// Where the operating system gives the generator no seed, `thread_rng`
/// panics instead of returning.
#[verifier::external_body]
pub(crate) fn gen_rand_string(length: usize) -> (r: String)
    ensures
        is_token(r@, length as nat),
{
    rand::thread_rng().sample_iter(&Alphanumeric).take(length).collect::<String>()
}

/// Whether `secret` and `guess` are the same text. Texts of one length are
/// compared byte by byte to the end, wherever the first difference is.
pub fn constant_time_eq(secret: &str, guess: &str) -> (r: bool)
    ensures
        r == (secret@ == guess@),
{
    let a = secret.as_bytes();
    let b = guess.as_bytes();
    proof {
        encode_utf8_decode_utf8(secret@);
        encode_utf8_decode_utf8(guess@);
    }
    if a.len() != b.len() {
        return false;
    }
    let mut difference: u8 = 0;
    let mut i: usize = 0;
    assert(a@.subrange(0, 0) =~= b@.subrange(0, 0));
    while i < a.len()
        invariant
            a.len() == b.len(),
            0 <= i <= a.len(),
            difference == 0 <==> a@.subrange(0, i as int) == b@.subrange(0, i as int),
        decreases a.len() - i,
    {
        let x: u8 = a[i];
        let y: u8 = b[i];
        let ghost before = difference;
        difference = difference | (x ^ y);
        assert((before | (x ^ y)) == 0 <==> before == 0 && x == y) by (bit_vector);
        proof {
            let pa = a@.subrange(0, i as int);
            let pb = b@.subrange(0, i as int);
            let na = a@.subrange(0, i + 1);
            let nb = b@.subrange(0, i + 1);
            assert(na =~= pa.push(x));
            assert(nb =~= pb.push(y));
            if na == nb {
                assert(na.drop_last() =~= pa);
                assert(nb.drop_last() =~= pb);
                assert(na.last() == x && nb.last() == y);
            }
        }
        i = i + 1;
    }
    proof {
        assert(a@.subrange(0, a@.len() as int) =~= a@);
        assert(b@.subrange(0, b@.len() as int) =~= b@);
        encode_utf8_decode_utf8(secret@);
        encode_utf8_decode_utf8(guess@);
    }
    difference == 0
}

} // verus!
