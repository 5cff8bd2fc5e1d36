//! The `request-time` header: the current epoch millisecond in decimal,
//! sealed with AES-256-GCM under a fixed secret, prefixed by its nonce and
//! base64-encoded.
use aes_gcm::aead::rand_core::RngCore;
use aes_gcm::aead::{Aead, KeyInit, OsRng};
use base64::Engine;
use vstd::prelude::*;
use vstd::string::{StrSliceExecFns, StringSliceAdditionalSpecFns};

verus! {

/// The secret the `request-time` header is sealed under.
pub const REQUEST_TIME_SECRET: &'static str = "1,1,0";

/// Length in bytes of an AES-256 key.
pub const KEY_LEN: usize = 32;

/// Largest plaintext AES-GCM seals, in bytes.
pub const SEAL_MAX: u64 = 68719476736;

/// The AES-256-GCM sealing of `plaintext` (ciphertext followed by tag).
pub uninterp spec fn aes256gcm_sealed(key: Seq<u8>, nonce: Seq<u8>, plaintext: Seq<u8>) -> Seq<u8>;

/// The standard base64 alphabet.
pub open spec fn base64_alphabet() -> Seq<char> {
    "ABCDEFGHIJKLMNOPQRSTUVWXYZabcdefghijklmnopqrstuvwxyz0123456789+/"@
}

/// Standard, padded base64: each group of three bytes becomes four characters
/// of six bits each; a last group of one or two bytes is padded with `=`.
pub open spec fn base64_std(b: Seq<u8>) -> Seq<char>
    decreases b.len(),
{
    let a = base64_alphabet();
    if b.len() == 0 {
        Seq::empty()
    } else if b.len() == 1 {
        let x = b[0] as int;
        seq![a[x / 4], a[(x % 4) * 16], '=', '=']
    } else if b.len() == 2 {
        let (x, y) = (b[0] as int, b[1] as int);
        seq![a[x / 4], a[(x % 4) * 16 + y / 16], a[(y % 16) * 4], '=']
    } else {
        let (x, y, z) = (b[0] as int, b[1] as int, b[2] as int);
        seq![a[x / 4], a[(x % 4) * 16 + y / 16], a[(y % 16) * 4 + z / 64], a[z % 64]]
            + base64_std(b.subrange(3, b.len() as int))
    }
}

/// Relies on rand_core's `OsRng::try_fill_bytes`, as aes-gcm re-exports it:
/// twelve bytes from the operating system's randomness source, `None` when
/// that source fails.
#[verifier::external_body]
fn random_nonce() -> (r: Option<Vec<u8>>)
    ensures
        (r is Some ==> r->Some_0@.len() == 12),
{
    let mut nonce = [0u8; 12];
    match OsRng.try_fill_bytes(&mut nonce) {
        Ok(()) => Some(nonce.to_vec()),
        Err(_) => None,
    }
}

/// Relies on aes-gcm's `Aes256Gcm::encrypt`: the ciphertext, as long as the
/// plaintext, followed by a sixteen-byte tag; it fails only on a plaintext
/// longer than `SEAL_MAX`.
#[verifier::external_body]
fn seal(key: &Vec<u8>, nonce: &Vec<u8>, plaintext: &Vec<u8>) -> (r: Option<Vec<u8>>)
    requires
        key@.len() == 32,
        nonce@.len() == 12,
    ensures
        (r is Some ==> r->Some_0@ == aes256gcm_sealed(key@, nonce@, plaintext@)),
        (r is Some ==> r->Some_0@.len() == plaintext@.len() + 16),
        (plaintext@.len() <= SEAL_MAX ==> r is Some),
{
    let cipher = aes_gcm::Aes256Gcm::new(aes_gcm::Key::<aes_gcm::Aes256Gcm>::from_slice(key));
    cipher.encrypt(aes_gcm::Nonce::from_slice(nonce), plaintext.as_slice()).ok()
}

/// Relies on base64's `STANDARD.encode`: standard padded base64, four
/// characters for every three bytes begun.
#[verifier::external_body]
fn base64_encode(bytes: &Vec<u8>) -> (r: String)
    requires
        4 * ((bytes@.len() + 2) / 3) <= usize::MAX,
    ensures
        r@ == base64_std(bytes@),
        r@.len() == 4 * ((bytes@.len() + 2) / 3),
{
    base64::engine::general_purpose::STANDARD.encode(bytes)
}

/// The 32-byte key for a secret: its bytes, then zeros.
pub open spec fn padded_key(secret: Seq<u8>) -> Seq<u8> {
    secret + Seq::new((32 - secret.len()) as nat, |i: int| 0u8)
}

/// The key for a secret of at most 32 bytes; `None` for a longer one.
pub fn cipher_key(secret: &str) -> (r: Option<Vec<u8>>)
    ensures
        r is Some <==> secret.spec_bytes().len() <= 32,
        (r is Some ==> r->Some_0@ == padded_key(secret.spec_bytes())),
{
    let mut key = secret.as_bytes_vec();
    if key.len() > KEY_LEN {
        return None;
    }
    let ghost start = key@;
    while key.len() < KEY_LEN
        invariant
            start.len() <= key@.len() <= 32,
            key@ == start + Seq::new((key@.len() - start.len()) as nat, |i: int| 0u8),
        decreases 32 - key@.len(),
    {
        key.push(0u8);
        assert(key@ =~= start + Seq::new((key@.len() - start.len()) as nat, |i: int| 0u8));
    }
    Some(key)
}

/// The decimal digits of `n` as ASCII bytes, most significant first.
pub open spec fn decimal(n: nat) -> Seq<u8>
    decreases n,
{
    if n < 10 {
        seq![(48 + n) as u8]
    } else {
        decimal(n / 10).push((48 + n % 10) as u8)
    }
}

/// Ten to the power `k`.
pub open spec fn pow10(k: nat) -> nat
    decreases k,
{
    if k == 0 {
        1
    } else {
        10 * pow10((k - 1) as nat)
    }
}

/// A number below `10^k` has at most `k` digits (and always at least one).
pub proof fn lemma_decimal_len(n: nat, k: nat)
    requires
        k >= 1,
        n < pow10(k),
    ensures
        1 <= decimal(n).len() <= k,
    decreases k,
{
    if n >= 10 {
        assert(k >= 2) by {
            if k == 1 {
                assert(pow10(1) == 10 * pow10(0));
            }
        }
        let m = (k - 1) as nat;
        assert(n / 10 < pow10(m)) by (nonlinear_arith)
            requires
                n < 10 * pow10(m),
        ;
        lemma_decimal_len(n / 10, m);
    }
}

/// The decimal digits of `n`.
pub fn decimal_digits(n: u64) -> (r: Vec<u8>)
    ensures
        r@ == decimal(n as nat),
    decreases n,
{
    if n < 10 {
        vec![48u8 + n as u8]
    } else {
        let mut d = decimal_digits(n / 10);
        d.push(48u8 + (n % 10) as u8);
        d
    }
}

/// The `request-time` value sealed under `secret` with `nonce`.
pub open spec fn request_time_text(secret: Seq<u8>, nonce: Seq<u8>, now_ms: nat) -> Seq<char> {
    base64_std(nonce + aes256gcm_sealed(padded_key(secret), nonce, decimal(now_ms)))
}

/// Length of a `request-time` value: base64 of the nonce, the sealed digits
/// and the tag.
pub open spec fn request_time_len(now_ms: nat) -> nat {
    4 * ((28 + decimal(now_ms).len() + 2) / 3)
}

/// The `request-time` header value for the epoch millisecond `now_ms`, sealed
/// under `secret` with `nonce`. `None` exactly for a secret longer than an
/// AES-256 key.
pub fn seal_request_time(secret: &str, nonce: &Vec<u8>, now_ms: u64) -> (r: Option<String>)
    requires
        nonce@.len() == 12,
    ensures
        r is Some <==> secret.spec_bytes().len() <= 32,
        (r is Some ==> r->Some_0@ == request_time_text(secret.spec_bytes(), nonce@, now_ms as nat)),
        (r is Some ==> r->Some_0@.len() == request_time_len(now_ms as nat)),
{
    let key = match cipher_key(secret) {
        Some(k) => k,
        None => return None,
    };
    let plaintext = decimal_digits(now_ms);
    proof {
        reveal_with_fuel(pow10, 21);
        assert(pow10(20) == 100000000000000000000nat);
        lemma_decimal_len(now_ms as nat, 20);
    }
    let sealed = match seal(&key, nonce, &plaintext) {
        Some(s) => s,
        None => return None,
    };
    let mut framed = nonce.clone();
    let mut i: usize = 0;
    while i < sealed.len()
        invariant
            i <= sealed@.len(),
            sealed@.len() <= 36,
            framed@ == nonce@ + sealed@.subrange(0, i as int),
        decreases sealed@.len() - i,
    {
        framed.push(sealed[i]);
        assert(framed@ =~= nonce@ + sealed@.subrange(0, i + 1));
        i = i + 1;
    }
    assert(sealed@.subrange(0, sealed@.len() as int) =~= sealed@);
    Some(base64_encode(&framed))
}

/// The `request-time` header value for the epoch millisecond `now_ms`, sealed
/// under `secret` with a fresh random nonce. `None` for a secret longer than
/// an AES-256 key, or when no randomness could be had.
pub fn request_time(secret: &str, now_ms: u64) -> (r: Option<String>)
    ensures
        secret.spec_bytes().len() > 32 ==> r is None,
        (r is Some ==> exists|nonce: Seq<u8>|
            nonce.len() == 12 && r->Some_0@ == request_time_text(
                secret.spec_bytes(),
                nonce,
                now_ms as nat,
            )),
        (r is Some ==> r->Some_0@.len() == request_time_len(now_ms as nat)),
{
    match random_nonce() {
        Some(nonce) => seal_request_time(secret, &nonce, now_ms),
        None => None,
    }
}

} // verus!
