//! Derivation and comparison of password verifiers.
//!
//! A verifier is the bcrypt digest of the password's bytes followed by a
//! pepper, under a per-user salt. The pepper and the cost are fixed when a
//! `HashingService` is made and never change afterwards.
//!
//! Equal inputs give equal verifiers. The converse is not promised: the
//! digest reads its key in a cycle, so a key and the same key written twice
//! have one verifier.

use vstd::prelude::*;
use vstd::utf8::encode_utf8;

verus! {

/// What the bcrypt primitive yields for a cost, a 16-byte salt and a key of
/// 1 to 72 bytes: 24 bytes that are a function of these three alone.
pub uninterp spec fn bcrypt_raw(cost: u32, salt: Seq<u8>, key: Seq<u8>) -> [u8; 24];

/// The bytes that are hashed for a password: its UTF-8 encoding followed by
/// the pepper.
pub open spec fn key_material(pepper: Seq<u8>, password: Seq<char>) -> Seq<u8> {
    encode_utf8(password) + pepper
}

/// Whether the primitive takes a key of this length.
pub open spec fn hashable(key: Seq<u8>) -> bool {
    0 < key.len() <= 72
}

/// What fixes a deployment's verifiers: the pepper and the cost.
pub struct HashingParams {
    pub pepper: Seq<u8>,
    pub cost: u32,
}

impl HashingParams {
    /// Whether a password can be hashed under these parameters.
    pub open spec fn can_hash(self, password: Seq<char>) -> bool {
        hashable(key_material(self.pepper, password))
    }

    /// What a derivation may return: the verifier where the password can be
    /// hashed, and nothing where it cannot.
    pub open spec fn derives(self, salt: Seq<u8>, password: Seq<char>, out: Option<[u8; 24]>) -> bool {
        match out {
            Some(verifier) => self.can_hash(password) && verifier@ == self.verifier_of(
                salt,
                password,
            ),
            None => !self.can_hash(password),
        }
    }

    /// The verifier of a password under these parameters and a salt.
    pub open spec fn verifier_of(self, salt: Seq<u8>, password: Seq<char>) -> Seq<u8> {
        bcrypt_raw(self.cost, salt, key_material(self.pepper, password))@
    }
}

/// The parameters of the standard deployment.
pub open spec fn standard_params() -> HashingParams {
    HashingParams { pepper: standard_pepper(), cost: BCRYPT_COST }
}

/// The pepper of the standard deployment: the ASCII bytes of `PEPPER`.
pub open spec fn standard_pepper() -> Seq<u8> {
    seq![80u8, 69u8, 80u8, 80u8, 69u8, 82u8]
}

/// The cost of the standard deployment.
pub const BCRYPT_COST: u32 = 10;

/// Calls `bcrypt::bcrypt`. That function is pure: it expands the key and the
/// salt into a Blowfish state and encrypts a fixed text with it, so its
/// result is the named value of its three arguments. It asserts a cost below
/// 32 and a key of 1 to 72 bytes, which the precondition demands.
#[verifier::external_body]
fn bcrypt_digest(cost: u32, salt: [u8; 16], key: &[u8]) -> (out: [u8; 24])
    requires
        cost < 32,
        0 < key@.len() <= 72,
    ensures
        out == bcrypt_raw(cost, salt@, key@),
{
    bcrypt::bcrypt(cost, salt, key)
}

/// The key for a password: its bytes with the pepper appended, or `None`
/// where the primitive would not take the result.
pub fn peppered_key(pepper: &[u8], password: &str) -> (out: Option<Vec<u8>>)
    ensures
        match out {
            Some(key) => hashable(key_material(pepper@, password@)) && key@ == key_material(
                pepper@,
                password@,
            ),
            None => !hashable(key_material(pepper@, password@)),
        },
{
    let bytes = password.as_bytes();
    if bytes.len() > 72 || pepper.len() > 72 {
        return None;
    }
    let mut key: Vec<u8> = Vec::new();
    key.extend_from_slice(bytes);
    key.extend_from_slice(pepper);
    assert(key@ =~= key_material(pepper@, password@));
    if key.len() == 0 || key.len() > 72 {
        None
    } else {
        Some(key)
    }
}

/// The hashing configuration of one deployment: a secret pepper and a cost.
pub struct HashingService {
    pepper: Vec<u8>,
    cost: u32,
}

impl View for HashingService {
    type V = HashingParams;

    closed spec fn view(&self) -> HashingParams {
        HashingParams { pepper: self.pepper@, cost: self.cost }
    }
}

impl HashingService {
    #[verifier::type_invariant]
    spec fn cost_in_range(&self) -> bool {
        self.cost < 32
    }

    /// A service with the given pepper and cost. The primitive works with
    /// costs below 32 only.
    pub fn new(pepper: Vec<u8>, cost: u32) -> (out: Option<HashingService>)
        ensures
            out is Some <==> cost < 32,
            out is Some ==> out->0@ == (HashingParams { pepper: pepper@, cost }),
    {
        if cost < 32 {
            Some(HashingService { pepper, cost })
        } else {
            None
        }
    }

    /// The service of the standard deployment.
    pub fn standard() -> (out: HashingService)
        ensures
            out@ == standard_params(),
    {
        let pepper: Vec<u8> = vec![80u8, 69u8, 80u8, 80u8, 69u8, 82u8];
        assert(pepper@ =~= standard_pepper());
        HashingService { pepper, cost: BCRYPT_COST }
    }

    /// Derives the verifier of `password` under `salt`, or `None` where the
    /// password with the pepper is empty or longer than 72 bytes.
    pub fn derive_verifier(&self, salt: [u8; 16], password: &str) -> (out: Option<[u8; 24]>)
        ensures
            self@.derives(salt@, password@, out),
    {
        proof {
            use_type_invariant(self);
        }
        match peppered_key(self.pepper.as_slice(), password) {
            Some(key) => Some(bcrypt_digest(self.cost, salt, key.as_slice())),
            None => None,
        }
    }
}

/// Computes the verifying hash of the standard deployment: the password's
/// bytes, then the pepper, hashed under `salt` at the standard cost. Every
/// password is taken. One that the hash cannot take with the pepper, being
/// longer than 66 bytes, has no verifier, and the result is `None`.
pub fn compute_verifying_hash(salt: [u8; 16], password: String) -> (out: Option<[u8; 24]>)
    ensures
        standard_params().derives(salt@, password@, out),
{
    HashingService::standard().derive_verifier(salt, password.as_str())
}

/// Derivation is deterministic: under the same parameters, two derivations
/// from the same salt and the same password succeed or fail together, and
/// where they succeed they give the same verifier, of 24 bytes.
pub proof fn lemma_derivation_is_deterministic(
    params: HashingParams,
    salt: Seq<u8>,
    password: Seq<char>,
    first: Option<[u8; 24]>,
    second: Option<[u8; 24]>,
)
    requires
        params.derives(salt, password, first),
        params.derives(salt, password, second),
    ensures
        first is Some <==> second is Some,
        first is Some ==> first->0@ == second->0@ && first->0@.len() == 24,
{
}

proof fn lemma_fold_difference(seen: u8, a: u8, b: u8)
    ensures
        ((seen | (a ^ b)) == 0u8) <==> (seen == 0u8 && a == b),
{
    assert(((seen | (a ^ b)) == 0u8) <==> (seen == 0u8 && a == b)) by (bit_vector);
}

/// Whether two verifiers are equal. Every byte of both is read whatever
/// the bytes are: the differences are folded into one value that is tested
/// once, at the end.
pub fn verifiers_match(stored: &[u8; 24], computed: &[u8; 24]) -> (same: bool)
    ensures
        same == (stored@ == computed@),
{
    let mut seen: u8 = 0;
    let mut i: usize = 0;
    while i < 24
        invariant
            i <= 24,
            (seen == 0u8) <==> (forall|j: int| 0 <= j < i ==> stored@[j] == computed@[j]),
        decreases 24 - i,
    {
        proof {
            lemma_fold_difference(seen, stored@[i as int], computed@[i as int]);
        }
        seen = seen | (stored[i] ^ computed[i]);
        i += 1;
    }
    proof {
        if seen == 0u8 {
            assert(stored@ =~= computed@);
        }
    }
    seen == 0
}

} // verus!
