use rand::Rng;
use vstd::prelude::*;
use vstd::string::StringSliceAdditionalSpecFns;

use crate::error::ResponseError;

verus! {

/// Bytes of salt in front of a stored password hash.
pub const SALT_LEN: usize = 32;

/// Bytes of a BLAKE3 digest.
pub const DIGEST_LEN: usize = 32;

/// The BLAKE3 digest of `data`.
pub uninterp spec fn blake3_of(data: Seq<u8>) -> Seq<u8>;

/// Relies on `blake3::hash`: the default 32-byte BLAKE3 digest of `data`.
#[verifier::external_body]
fn blake3_digest(data: &[u8]) -> (r: Vec<u8>)
    ensures
        r@ == blake3_of(data@),
        r@.len() == DIGEST_LEN,
{
    blake3::hash(data).as_bytes().to_vec()
}

/// Relies on `rand::thread_rng` and `Rng::gen::<[u8; 32]>`: 32 random bytes.
#[verifier::external_body]
fn random_salt() -> (r: Vec<u8>)
    ensures
        r@.len() == SALT_LEN,
{
    rand::thread_rng().gen::<[u8; 32]>().to_vec()
}

/// What is stored for `password` under `salt`: the salt, then the digest
/// of the salt followed by the password's UTF-8 bytes.
pub open spec fn salted_form(salt: Seq<u8>, password: Seq<u8>) -> Seq<u8> {
    salt + blake3_of(salt + password)
}

/// Whether `input` is the password that `stored` was made from, for a
/// stored value of the right length.
pub open spec fn password_matches(input: Seq<u8>, stored: Seq<u8>) -> bool {
    blake3_of(stored.subrange(0, SALT_LEN as int) + input) == stored.subrange(
        SALT_LEN as int,
        stored.len() as int,
    )
}

fn append_bytes(out: &mut Vec<u8>, bytes: &[u8])
    ensures
        final(out)@ == old(out)@ + bytes@,
{
    let mut i: usize = 0;
    while i < bytes.len()
        invariant
            i <= bytes@.len(),
            out@ == old(out)@ + bytes@.subrange(0, i as int),
        decreases bytes@.len() - i,
    {
        out.push(bytes[i]);
        i += 1;
        assert(out@ =~= old(out)@ + bytes@.subrange(0, i as int));
    }
    assert(bytes@.subrange(0, i as int) =~= bytes@);
}

/// The stored form of `password` under a given 32-byte `salt`.
pub fn salted_hash(password: &str, salt: &Vec<u8>) -> (r: Vec<u8>)
    requires
        salt@.len() == SALT_LEN,
    ensures
        r@ == salted_form(salt@, password.spec_bytes()),
        r@.len() == SALT_LEN + DIGEST_LEN,
{
    let mut input: Vec<u8> = Vec::new();
    append_bytes(&mut input, salt.as_slice());
    append_bytes(&mut input, password.as_bytes());
    assert(input@ =~= salt@ + password.spec_bytes());
    let digest = blake3_digest(input.as_slice());
    let mut out: Vec<u8> = Vec::new();
    append_bytes(&mut out, salt.as_slice());
    append_bytes(&mut out, digest.as_slice());
    assert(out@ =~= salt@ + digest@);
    out
}

/// The stored form of `password` under a fresh random salt.
pub fn hash_password(password: &str) -> (r: Vec<u8>)
    ensures
        r@.len() == SALT_LEN + DIGEST_LEN,
        r@ == salted_form(r@.subrange(0, SALT_LEN as int), password.spec_bytes()),
{
    let salt = random_salt();
    let r = salted_hash(password, &salt);
    assert(r@.subrange(0, SALT_LEN as int) =~= salt@);
    r
}

/// Relies on `blake3::Hash::from([u8; 32])` and `Hash`'s `PartialEq`,
/// which compares two digests in constant time.
#[verifier::external_body]
fn digests_equal(a: &[u8], b: &[u8]) -> (r: bool)
    requires
        a@.len() == DIGEST_LEN,
        b@.len() == DIGEST_LEN,
    ensures
        r == (a@ == b@),
{
    match (<[u8; 32]>::try_from(a), <[u8; 32]>::try_from(b)) {
        (Ok(x), Ok(y)) => blake3::Hash::from(x) == blake3::Hash::from(y),
        _ => false,
    }
}

/// Checks `input_password` against a stored salted hash; a stored value
/// that is not 64 bytes long is an error.
pub fn compare_password(input_password: &str, salted_password: &Vec<u8>) -> (r: Result<
    bool,
    ResponseError,
>)
    ensures
        r is Err <==> salted_password@.len() != SALT_LEN + DIGEST_LEN,
        match r {
            Ok(b) => b == password_matches(input_password.spec_bytes(), salted_password@),
            Err(e) => e.err_code == 0,
        },
{
    if salted_password.len() != SALT_LEN + DIGEST_LEN {
        return Err(
            ResponseError::unexpected_err("比较密码失败", "salted_password的长度应该等于64比特"),
        );
    }
    let mut input: Vec<u8> = Vec::new();
    let mut i: usize = 0;
    while i < SALT_LEN
        invariant
            i <= SALT_LEN,
            salted_password@.len() == SALT_LEN + DIGEST_LEN,
            input@ == salted_password@.subrange(0, i as int),
        decreases SALT_LEN - i,
    {
        input.push(salted_password[i]);
        i += 1;
        assert(input@ =~= salted_password@.subrange(0, i as int));
    }
    append_bytes(&mut input, input_password.as_bytes());
    let digest = blake3_digest(input.as_slice());
    let mut stored_digest: Vec<u8> = Vec::new();
    let mut j: usize = SALT_LEN;
    while j < SALT_LEN + DIGEST_LEN
        invariant
            SALT_LEN <= j <= SALT_LEN + DIGEST_LEN,
            salted_password@.len() == SALT_LEN + DIGEST_LEN,
            stored_digest@ == salted_password@.subrange(SALT_LEN as int, j as int),
        decreases SALT_LEN + DIGEST_LEN - j,
    {
        stored_digest.push(salted_password[j]);
        j += 1;
        assert(stored_digest@ =~= salted_password@.subrange(SALT_LEN as int, j as int));
    }
    Ok(digests_equal(digest.as_slice(), stored_digest.as_slice()))
}

/// A password checks out against what was stored for it.
pub proof fn lemma_hash_then_compare(salt: Seq<u8>, password: Seq<u8>)
    requires
        salt.len() == SALT_LEN,
    ensures
        password_matches(password, salted_form(salt, password)),
{
    let s = salted_form(salt, password);
    assert(s.subrange(0, SALT_LEN as int) =~= salt);
    assert(s.subrange(SALT_LEN as int, s.len() as int) =~= blake3_of(salt + password));
}

} // verus!
