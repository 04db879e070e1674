//! The credential manager: derives a one-way, salted, keyed digest from a
//! principal's login name and plaintext secret, using the record's own
//! identifier as the per-record salt and a process-wide secret as keying
//! material.

use vstd::prelude::*;
use vstd::string::*;
use vstd::utf8::encode_utf8;

use crate::text::{tail_after, tail_after_last};

verus! {

/// Working-memory cost in KiB: a 64 MiB floor for brute-force resistance.
pub const HASH_MEM_COST: u32 = 65536;

/// Number of passes over memory.
pub const HASH_TIME_COST: u32 = 10;

/// Degree of parallelism.
pub const HASH_LANES: u32 = 4;

/// Length of the raw digest in bytes.
pub const HASH_LENGTH: u32 = 32;

/// 256 to the power `k`.
pub open spec fn pow256(k: nat) -> nat
    decreases k,
{
    if k == 0 {
        1
    } else {
        256 * pow256((k - 1) as nat)
    }
}

/// Byte `i` of the big-endian rendering of a 128-bit identifier.
pub open spec fn be_byte(id: u128, i: int) -> u8 {
    (((id as nat) / pow256((15 - i) as nat)) % 256) as u8
}

/// The sixteen big-endian bytes of a 128-bit identifier, used as the
/// per-record salt.
pub open spec fn id_salt(id: u128) -> Seq<u8> {
    Seq::new(16, |i: int| be_byte(id, i))
}

proof fn lemma_pow256_pos(k: nat)
    ensures
        pow256(k) >= 1,
    decreases k,
{
    if k > 0 {
        lemma_pow256_pos((k - 1) as nat);
    }
}

/// Renders a 128-bit identifier as its sixteen big-endian bytes.
pub fn id_bytes(id: u128) -> (r: Vec<u8>)
    ensures
        r@ == id_salt(id),
{
    let mut r: Vec<u8> = Vec::new();
    let mut i: usize = 0;
    let mut p: u128 = 0x0100_0000_0000_0000_0000_0000_0000_0000u128;
    proof {
        reveal_with_fuel(pow256, 17);
        assert(pow256(15) == 0x0100_0000_0000_0000_0000_0000_0000_0000);
    }
    while i < 16
        invariant
            i <= 16,
            r@.len() == i,
            forall|k: int| 0 <= k < i ==> r@[k] == be_byte(id, k),
            i < 16 ==> p as nat == pow256((15 - i) as nat),
        decreases 16 - i,
    {
        proof {
            lemma_pow256_pos((15 - i) as nat);
        }
        let b: u8 = ((id / p) % 256) as u8;
        r.push(b);
        if i < 15 {
            proof {
                assert(pow256((15 - i) as nat) == 256 * pow256((14 - i) as nat));
                assert((256 * pow256((14 - i) as nat)) as int / 256int == pow256(
                    (14 - i) as nat,
                ) as int) by (nonlinear_arith);
            }
            p = p / 256;
        }
        i = i + 1;
    }
    proof {
        assert(r@ =~= id_salt(id));
    }
    r
}

/// The encoded form that the memory-hard hash function returns: a function
/// of the password bytes, the salt, the keying secret, and the four cost
/// parameters alone.
pub uninterp spec fn argon2_encoded(
    pwd: Seq<u8>,
    salt: Seq<u8>,
    secret: Seq<u8>,
    mem_cost: u32,
    time_cost: u32,
    lanes: u32,
    hash_length: u32,
) -> Seq<char>;

/// Relies on `argon2::hash_encoded` of the rust-argon2 crate: it computes
/// the Argon2i digest of `pwd`, salted with `salt` and keyed with `secret`,
/// and returns it in the reference encoded form, a deterministic function of
/// the arguments alone.  Its source returns an error exactly when a
/// parameter lies outside the documented bounds: lanes in 1..=0xFFFFFF,
/// memory cost at least 8 and at least 8 * lanes, at least one pass, hash
/// length at least 4, salt at least 8 bytes, and every input under 2^32
/// bytes (this build targets a 64-bit machine, where the documented memory
/// ceiling is the full u32 range).
#[verifier::external_body]
fn argon2_hash(
    pwd: &Vec<u8>,
    salt: &Vec<u8>,
    secret: &Vec<u8>,
    mem_cost: u32,
    time_cost: u32,
    lanes: u32,
    hash_length: u32,
) -> (r: Result<String, String>)
    ensures
        r is Ok ==> r.unwrap()@ == argon2_encoded(
            pwd@,
            salt@,
            secret@,
            mem_cost,
            time_cost,
            lanes,
            hash_length,
        ),
        (1 <= lanes <= 0xFFFFFF && mem_cost >= 8 && mem_cost >= 8 * lanes && time_cost >= 1
            && hash_length >= 4 && 8 <= salt@.len() <= 0xFFFF_FFFF && pwd@.len() <= 0xFFFF_FFFF
            && secret@.len() <= 0xFFFF_FFFF) <==> r is Ok,
{
    let config = argon2::Config {
        ad: &[],
        hash_length,
        lanes,
        mem_cost,
        secret: secret.as_slice(),
        thread_mode: argon2::ThreadMode::Sequential,
        time_cost,
        variant: argon2::Variant::Argon2i,
        version: argon2::Version::Version13,
    };
    argon2::hash_encoded(pwd.as_slice(), salt.as_slice(), &config).map_err(|e| e.to_string())
}

/// The bytes that are hashed: login name and plaintext secret joined by a
/// fixed delimiter.
pub open spec fn credential_material(user_name: Seq<char>, user_pass: Seq<char>) -> Seq<u8> {
    encode_utf8(user_name + ":"@ + user_pass)
}

/// Whether the inputs stay under the machine ceilings of the hash function.
pub open spec fn material_ok(user_name: Seq<char>, user_pass: Seq<char>, secret: Seq<char>) -> bool {
    credential_material(user_name, user_pass).len() <= 0xFFFF_FFFF && encode_utf8(secret).len()
        <= 0xFFFF_FFFF
}

/// The stored credential digest: the final segment (after the last `$`) of
/// the encoded hash of the credential material, salted with the record
/// identifier and keyed with the process-wide secret, at the fixed cost
/// parameters.
pub open spec fn digest_of(
    id: u128,
    user_name: Seq<char>,
    user_pass: Seq<char>,
    secret: Seq<char>,
) -> Seq<char> {
    tail_after(
        argon2_encoded(
            credential_material(user_name, user_pass),
            id_salt(id),
            encode_utf8(secret),
            HASH_MEM_COST,
            HASH_TIME_COST,
            HASH_LANES,
            HASH_LENGTH,
        ),
        '$',
    )
}

/// Computes the stored digest for one principal.  Fails only when the
/// credential material is longer than the hash function's machine ceiling;
/// the error value is the underlying failure's text.
pub fn compute_digest(id: u128, user_name: &String, user_pass: &String, secret: &String) -> (r:
    Result<String, String>)
    ensures
        r is Ok ==> r.unwrap()@ == digest_of(id, user_name@, user_pass@, secret@),
        material_ok(user_name@, user_pass@, secret@) <==> r is Ok,
{
    let mut data = user_name.clone();
    data.append(":");
    data.append(user_pass.as_str());
    let pwd = data.as_str().as_bytes_vec();
    let salt = id_bytes(id);
    let sec = secret.as_str().as_bytes_vec();
    match argon2_hash(&pwd, &salt, &sec, HASH_MEM_COST, HASH_TIME_COST, HASH_LANES, HASH_LENGTH) {
        Ok(encoded) => Ok(tail_after_last(encoded.as_str(), '$')),
        Err(m) => Err(m),
    }
}

} // verus!
