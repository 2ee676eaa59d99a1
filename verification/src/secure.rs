//! The keyring and the credential codec: an RSA key pair, the signing of a
//! claim set into a bearer token, and the judging of a token that comes back.

use crate::claims::{Claim, Claims};
use crate::credential::{accept, credential_verdict, ClaimShape};
use crate::types::CacheKeyData;
use vstd::prelude::*;

verus! {

pub const PRIVATE_KEY_FILE: &'static str = "private.pem";

pub const PUBLIC_KEY_FILE: &'static str = "public.pem";

/// The strength of a freshly made key, in bits.
pub const KEY_BITS: u32 = 2048;

/// The signature schemes of the key pair: RSA with PKCS#1 v1.5 padding, which
/// signs the same text the same way every time.
#[derive(Clone, Copy, Debug, PartialEq, Eq, Structural)]
pub enum SigningAlgorithm {
    RS256,
    RS384,
    RS512,
}

/// Why a token is turned away.
#[derive(Clone, Copy, Debug, PartialEq, Eq, Structural)]
pub enum JWTError {
    /// The signature is good and the expiry time has come.
    Expired,
    /// The token is not one that this key pair signed, or it carries no
    /// expiry time.
    Invalid,
}

/// Why no key pair could be had.
#[derive(Clone, Copy, Debug, PartialEq, Eq, Structural)]
pub enum KeyError {
    /// No new key of the strength that is asked for could be made.
    Generation,
    /// The signing library does not take the private half: it is not PEM
    /// text that is marked and laid out as an RSA private key.
    PrivateKey,
    /// The signing library does not take the public half: it is not PEM
    /// text that is marked and laid out as an RSA public key.
    PublicKey,
}

/// Why a claim set was not signed.
#[derive(Clone, Copy, Debug, PartialEq, Eq, Structural)]
pub enum SignError {
    /// The signing library refused the key or the claims.
    Refused,
}

/// Whether `jsonwebtoken::EncodingKey::from_rsa_pem` takes these bytes.
pub uninterp spec fn rsa_private_pem(pem: Seq<u8>) -> bool;

/// Whether `jsonwebtoken::DecodingKey::from_rsa_pem` takes these bytes.
pub uninterp spec fn rsa_public_pem(pem: Seq<u8>) -> bool;

/// What `jsonwebtoken::encode` makes of a claim set under a private key: the
/// token, or nothing where it refuses the key or cannot sign with it.
pub uninterp spec fn signed_token(
    claims: Map<Seq<char>, Claim>,
    private_pem: Seq<u8>,
    algorithm: SigningAlgorithm,
) -> Option<Seq<char>>;

/// The text that may be there.
pub open spec fn token_view(token: Option<String>) -> Option<Seq<char>> {
    match token {
        Some(text) => Some(text@),
        None => None,
    }
}

/// What a signing gave, as the token or as nothing.
pub open spec fn signed_view(signed: Result<String, SignError>) -> Option<Seq<char>> {
    match signed {
        Ok(token) => Some(token@),
        Err(_) => None,
    }
}

/// The claim set that `jsonwebtoken::decode` reads from a token whose
/// signature it has checked against a public key, with no check of the
/// claims themselves.
pub uninterp spec fn verified_claims(
    token: Seq<char>,
    public_pem: Seq<u8>,
    algorithm: SigningAlgorithm,
) -> Option<Map<Seq<char>, Claim>>;

/// `jsonwebtoken::EncodingKey::from_rsa_pem`: whether it reads an RSA
/// private key from the bytes.
#[verifier::external_body]
fn reads_private_pem(pem: &[u8]) -> (good: bool)
    ensures
        good == rsa_private_pem(pem@),
{
    jsonwebtoken::EncodingKey::from_rsa_pem(pem).is_ok()
}

/// `jsonwebtoken::DecodingKey::from_rsa_pem`: whether it reads an RSA public
/// key from the bytes.
#[verifier::external_body]
fn reads_public_pem(pem: &[u8]) -> (good: bool)
    ensures
        good == rsa_public_pem(pem@),
{
    jsonwebtoken::DecodingKey::from_rsa_pem(pem).is_ok()
}

/// `openssl::rsa::Rsa::generate`: a fresh key of `bits` bits, as the PEM
/// text of its private and of its public half. The key is random, so
/// nothing is said of the bytes.
#[verifier::external_body]
fn generate_pems(bits: u32) -> (pems: Option<(Vec<u8>, Vec<u8>)>) {
    let key = openssl::rsa::Rsa::generate(bits).ok()?;
    let private = key.private_key_to_pem().ok()?;
    let public = key.public_key_to_pem().ok()?;
    Some((private, public))
}

/// The number of bits in the modulus of the RSA private key that `openssl`
/// reads from a PEM text, whenever it reads one.
pub uninterp spec fn rsa_modulus_bits(private_pem: Seq<u8>) -> i32;

/// The longest PEM text that `openssl` reads: one whose length fits the 32
/// bits of a C integer.
pub const PEM_MAX: usize = 0x7fff_ffff;

/// `openssl::rsa::Rsa::private_key_from_pem`, `openssl::rsa::RsaRef::n` and
/// `openssl::bn::BigNumRef::num_bits`: the number of bits in the modulus of
/// the private key in the PEM text; nothing where OpenSSL reads no key. A
/// text of more than `PEM_MAX` bytes is not handed to OpenSSL, which stops
/// the program on one.
#[verifier::external_body]
fn modulus_bits(private_pem: &[u8]) -> (bits: Option<i32>)
    requires
        private_pem@.len() <= PEM_MAX,
    ensures
        bits matches Some(counted) ==> counted == rsa_modulus_bits(private_pem@),
{
    let key = openssl::rsa::Rsa::private_key_from_pem(private_pem).ok()?;
    Some(key.n().num_bits())
}

/// `jsonwebtoken::encode`: the token of the claim set, signed with the
/// private key in `private_pem` under a header that names `algorithm`;
/// nothing where the library refuses the key or cannot sign with it. The
/// signature is RSA with PKCS#1 v1.5 padding, which takes nothing from
/// chance: the same claims under the same key and scheme give the same
/// token, or nothing, every time.
#[verifier::external_body]
fn jwt_encode(claims: &Claims, private_pem: &[u8], algorithm: SigningAlgorithm) -> (token: Option<
    String,
>)
    ensures
        token_view(token) == signed_token(claims@, private_pem@, algorithm),
{
    let key = jsonwebtoken::EncodingKey::from_rsa_pem(private_pem).ok()?;
    let header = jsonwebtoken::Header::new(
        match algorithm {
            SigningAlgorithm::RS256 => jsonwebtoken::Algorithm::RS256,
            SigningAlgorithm::RS384 => jsonwebtoken::Algorithm::RS384,
            SigningAlgorithm::RS512 => jsonwebtoken::Algorithm::RS512,
        },
    );
    jsonwebtoken::encode(&header, &claims.object, &key).ok()
}

/// `jsonwebtoken::decode`: the claim set of a token in three parts whose
/// header names `algorithm`, whose signature the public key in `public_pem`
/// confirms and whose payload is a JSON object; nothing for any other text.
/// The library's own checks of the claims are switched off: the expiry time
/// is judged by `judge`.
#[verifier::external_body]
fn jwt_decode(token: &str, public_pem: &[u8], algorithm: SigningAlgorithm) -> (claims: Option<
    Claims,
>)
    ensures
        match claims {
            Some(read) => verified_claims(token@, public_pem@, algorithm) == Some(read@),
            None => verified_claims(token@, public_pem@, algorithm) is None,
        },
{
    let key = jsonwebtoken::DecodingKey::from_rsa_pem(public_pem).ok()?;
    let mut rules = jsonwebtoken::Validation::new(
        match algorithm {
            SigningAlgorithm::RS256 => jsonwebtoken::Algorithm::RS256,
            SigningAlgorithm::RS384 => jsonwebtoken::Algorithm::RS384,
            SigningAlgorithm::RS512 => jsonwebtoken::Algorithm::RS512,
        },
    );
    rules.validate_exp = false;
    rules.validate_aud = false;
    rules.required_spec_claims.clear();
    let read = jsonwebtoken::decode::<crate::claims::JsonObject>(token, &key, &rules).ok()?;
    Some(Claims { object: read.claims })
}

/// What becomes of a token at the time `now`, given the claim set that the
/// check of its signature let through, if it let one through.
///
/// A token that failed that check is invalid whatever it claims. One that
/// passed it and names no expiry time, as a whole number under `exp`, is
/// invalid too. One whose expiry time is `now` or earlier has expired. Any
/// other is accepted with its claims.
pub open spec fn verdict(opened: Option<Map<Seq<char>, Claim>>, now: u64) -> Result<
    Map<Seq<char>, Claim>,
    JWTError,
> {
    match opened {
        None => Err(JWTError::Invalid),
        Some(members) => match Claims::number_at(members, "exp"@) {
            None => Err(JWTError::Invalid),
            Some(exp) => if exp <= now {
                Err(JWTError::Expired)
            } else {
                Ok(members)
            },
        },
    }
}

/// The members of a claim set that may be missing.
pub open spec fn opened_view(opened: Option<Claims>) -> Option<Map<Seq<char>, Claim>> {
    match opened {
        Some(claims) => Some(claims@),
        None => None,
    }
}

/// Judges a token at the time `now` from what the check of its signature
/// gave.
pub fn judge(opened: Option<Claims>, now: u64) -> (judged: Result<Claims, JWTError>)
    ensures
        match judged {
            Ok(claims) => verdict(opened_view(opened), now) matches Ok(members) && members
                == claims@,
            Err(error) => verdict(opened_view(opened), now) matches Err(refusal) && refusal
                == error,
        },
{
    match opened {
        None => Err(JWTError::Invalid),
        Some(claims) => match claims.number("exp") {
            None => Err(JWTError::Invalid),
            Some(exp) => if exp <= now {
                Err(JWTError::Expired)
            } else {
                Ok(claims)
            },
        },
    }
}

/// An RSA key pair in PEM form, with the scheme it signs under.
pub struct KeyPair {
    private: Vec<u8>,
    public: Vec<u8>,
    algorithm: SigningAlgorithm,
}

/// What `KeyPair::new` did to come by its keys.
#[derive(Clone, Copy, Debug, PartialEq, Eq, Structural)]
pub enum KeySource {
    /// Both halves were in storage and were read.
    Stored,
    /// A half was missing: both were made anew and are to be stored.
    Generated,
}

impl KeyPair {
    pub closed spec fn private_pem(&self) -> Seq<u8> {
        self.private@
    }

    pub closed spec fn public_pem(&self) -> Seq<u8> {
        self.public@
    }

    pub closed spec fn scheme(&self) -> SigningAlgorithm {
        self.algorithm
    }

    /// The PEM readers of the signing library take both halves: each is PEM
    /// text that is marked and laid out as an RSA key of its kind. That the
    /// key signs, or that the halves belong together, is not said by this.
    pub open spec fn wf(&self) -> bool {
        rsa_private_pem(self.private_pem()) && rsa_public_pem(self.public_pem())
    }

    /// The key pair of two halves in PEM form, where the signing library
    /// takes both. The private half is looked at first.
    pub fn from_pem(algorithm: SigningAlgorithm, private: Vec<u8>, public: Vec<u8>) -> (made: Result<
        KeyPair,
        KeyError,
    >)
        ensures
            match made {
                Ok(pair) => pair.wf() && pair.private_pem() == private@ && pair.public_pem()
                    == public@ && pair.scheme() == algorithm,
                Err(KeyError::PrivateKey) => !rsa_private_pem(private@),
                Err(KeyError::PublicKey) => rsa_private_pem(private@) && !rsa_public_pem(public@),
                Err(KeyError::Generation) => false,
            },
    {
        if !reads_private_pem(private.as_slice()) {
            return Err(KeyError::PrivateKey);
        }
        if !reads_public_pem(public.as_slice()) {
            return Err(KeyError::PublicKey);
        }
        Ok(KeyPair { private, public, algorithm })
    }

    /// The private half is a key of at least `KEY_BITS` bits.
    pub open spec fn strong(&self) -> bool {
        rsa_modulus_bits(self.private_pem()) >= KEY_BITS
    }

    /// Whether a count of bits was made and is `KEY_BITS` or more.
    pub open spec fn enough(counted: Option<i32>) -> bool {
        counted matches Some(bits) && bits >= KEY_BITS
    }

    /// What becomes of the two halves that the generator gave, with the
    /// bits that were counted in the private half, if any were.
    ///
    /// The halves are read back, the private one first: a half that the
    /// signing library does not take is that half's error. Halves that are
    /// taken are kept only where the count was made and is `KEY_BITS` or
    /// more; any other key is refused as not made. The pair that is given
    /// out holds these two halves, as they were given, and the algorithm.
    pub fn keep_generated(
        algorithm: SigningAlgorithm,
        private: Vec<u8>,
        public: Vec<u8>,
        counted: Option<i32>,
    ) -> (made: Result<KeyPair, KeyError>)
        ensures
            match made {
                Ok(pair) => {
                    &&& rsa_private_pem(private@)
                    &&& rsa_public_pem(public@)
                    &&& Self::enough(counted)
                    &&& pair.private_pem() == private@
                    &&& pair.public_pem() == public@
                    &&& pair.scheme() == algorithm
                },
                Err(KeyError::PrivateKey) => !rsa_private_pem(private@),
                Err(KeyError::PublicKey) => rsa_private_pem(private@) && !rsa_public_pem(public@),
                Err(KeyError::Generation) => rsa_private_pem(private@) && rsa_public_pem(public@)
                    && !Self::enough(counted),
            },
    {
        match Self::from_pem(algorithm, private, public) {
            Ok(pair) => match counted {
                Some(bits) => {
                    if bits >= 0 && bits as u32 >= KEY_BITS {
                        Ok(pair)
                    } else {
                        Err(KeyError::Generation)
                    }
                },
                None => Err(KeyError::Generation),
            },
            Err(error) => Err(error),
        }
    }

    /// A key pair made anew. The key is asked for with `KEY_BITS` bits; the
    /// bits of its private half are counted, unless the half is longer than
    /// OpenSSL reads, and `keep_generated` says what becomes of the halves.
    /// A pair that is given out has halves that the signing library takes,
    /// and its private half has `KEY_BITS` bits or more. Whether a key is
    /// made lies with OpenSSL, which takes it from chance.
    pub fn generate(algorithm: SigningAlgorithm) -> (made: Result<KeyPair, KeyError>)
        ensures
            made matches Ok(pair) ==> pair.wf() && pair.scheme() == algorithm && pair.strong(),
    {
        match generate_pems(KEY_BITS) {
            Some((private, public)) => {
                let counted = if private.len() <= PEM_MAX {
                    modulus_bits(private.as_slice())
                } else {
                    None
                };
                Self::keep_generated(algorithm, private, public, counted)
            },
            None => Err(KeyError::Generation),
        }
    }

    /// The key pair of this installation, given the halves that storage
    /// holds. Where both are there they are read, and a half that is no key
    /// is an error. Where either is missing both are made anew, and the
    /// caller is to store them.
    pub fn new(algorithm: SigningAlgorithm, private: Option<Vec<u8>>, public: Option<Vec<u8>>) -> (made:
        Result<(KeyPair, KeySource), KeyError>)
        ensures
            match made {
                Ok((pair, source)) => {
                    &&& pair.wf()
                    &&& pair.scheme() == algorithm
                    &&& source == KeySource::Stored <==> private is Some && public is Some
                    &&& source == KeySource::Stored ==> pair.private_pem() == private->0@
                        && pair.public_pem() == public->0@
                    &&& source == KeySource::Generated ==> pair.strong()
                },
                Err(KeyError::PrivateKey) => private is Some && public is Some && !rsa_private_pem(
                    private->0@,
                ),
                Err(KeyError::PublicKey) => private is Some && public is Some && rsa_private_pem(
                    private->0@,
                ) && !rsa_public_pem(public->0@),
                Err(KeyError::Generation) => private is None || public is None,
            },
            private is Some && public is Some && rsa_private_pem(private->0@) && rsa_public_pem(
                public->0@,
            ) ==> made is Ok,
    {
        match (private, public) {
            (Some(private), Some(public)) => match Self::from_pem(algorithm, private, public) {
                Ok(pair) => Ok((pair, KeySource::Stored)),
                Err(error) => Err(error),
            },
            _ => match Self::generate(algorithm) {
                Ok(pair) => Ok((pair, KeySource::Generated)),
                Err(_) => Err(KeyError::Generation),
            },
        }
    }

    /// The private half, in PEM form.
    pub fn private_key(&self) -> (pem: &Vec<u8>)
        ensures
            pem@ == self.private_pem(),
    {
        &self.private
    }

    /// The public half, in PEM form.
    pub fn public_key(&self) -> (pem: &Vec<u8>)
        ensures
            pem@ == self.public_pem(),
    {
        &self.public
    }

    pub fn algorithm(&self) -> (algorithm: SigningAlgorithm)
        ensures
            algorithm == self.scheme(),
    {
        self.algorithm
    }

    /// Signs a claim set into a bearer token: the token that the signing
    /// library makes of these claims under the private half and the scheme
    /// of this key pair, and a refusal where it makes none. The same claims
    /// under the same key pair are signed the same way every time.
    pub fn sign_jwt(&self, claims: &Claims) -> (signed: Result<String, SignError>)
        ensures
            signed_view(signed) == signed_token(claims@, self.private_pem(), self.scheme()),
    {
        match jwt_encode(claims, self.private.as_slice(), self.algorithm) {
            Some(token) => Ok(token),
            None => Err(SignError::Refused),
        }
    }

    /// The claim set of a token that carries a signature of this key pair;
    /// nothing for any other text. The claims are not looked at.
    pub fn open_jwt(&self, token: &str) -> (opened: Option<Claims>)
        ensures
            opened_view(opened) == verified_claims(token@, self.public_pem(), self.scheme()),
    {
        jwt_decode(token, self.public.as_slice(), self.algorithm)
    }

    /// Reads a bearer token as a credential of shape `T` at the time `now`:
    /// the signature first, then the shape, then the expiry time. A token
    /// that this key pair did not sign is invalid, and so is one that holds
    /// a credential of another shape, however good its signature and its
    /// expiry time are. One of the right shape whose expiry time has come
    /// has expired.
    pub fn decode_jwt<T: ClaimShape>(&self, token: &str, now: u64) -> (judged: Result<T, JWTError>)
        ensures
            match judged {
                Ok(credential) => credential_verdict::<T>(
                    verified_claims(token@, self.public_pem(), self.scheme()),
                    now,
                ) matches Ok(value) && value == credential@,
                Err(error) => credential_verdict::<T>(
                    verified_claims(token@, self.public_pem(), self.scheme()),
                    now,
                ) matches Err(refusal) && refusal == error,
            },
    {
        accept::<T>(self.open_jwt(token), now)
    }
}

/// The hash functions that the broker uses.
#[derive(Clone, Copy, Debug, PartialEq, Eq, Structural)]
pub enum HashAlgorithm {
    Sha256,
    Sha384,
    Sha512,
}

/// The digest that `openssl::hash::hash` gives of some bytes, whenever it
/// gives one.
pub uninterp spec fn digest_of(algorithm: HashAlgorithm, data: Seq<u8>) -> Seq<u8>;

/// The most bytes that a digest has: the size of the buffer in which
/// `openssl::hash::DigestBytes` holds one, `EVP_MAX_MD_SIZE`.
pub const DIGEST_MAX: usize = 64;

/// `openssl::hash::hash`: the digest of the bytes under the hash function;
/// nothing where OpenSSL reports an error. Nothing is said of when a digest
/// is given. One that is given was held in a buffer of `DIGEST_MAX` bytes,
/// so it is no longer than that.
#[verifier::external_body]
pub fn create_hash(algorithm: HashAlgorithm, data: &[u8]) -> (digest: Option<Vec<u8>>)
    ensures
        digest matches Some(bytes) ==> bytes@ == digest_of(algorithm, data@),
        digest matches Some(bytes) ==> bytes@.len() <= DIGEST_MAX,
{
    let kind = match algorithm {
        HashAlgorithm::Sha256 => openssl::hash::MessageDigest::sha256(),
        HashAlgorithm::Sha384 => openssl::hash::MessageDigest::sha384(),
        HashAlgorithm::Sha512 => openssl::hash::MessageDigest::sha512(),
    };
    openssl::hash::hash(kind, data).ok().map(|bytes| bytes.to_vec())
}

/// The parts of a cache key in a digest of at least 113 bytes: after each
/// byte was lowered as a letter of ASCII, the bytes from 0 to 32 name the
/// entry, those from 34 to 98 are its key and those from 81 to 113 its
/// starting vector. A shorter digest gives no key.
pub open spec fn cache_key_in(hash: Seq<u8>) -> Option<(Seq<u8>, Seq<u8>, Seq<u8>)> {
    if hash.len() >= 113 {
        let low = hash.map_values(|byte: u8| crate::utils::lowered(byte));
        Some((low.subrange(0, 32), low.subrange(34, 98), low.subrange(81, 113)))
    } else {
        None
    }
}

/// The parts of a cache key, as bytes.
pub open spec fn cache_key_view(key: Option<CacheKeyData>) -> Option<(Seq<u8>, Seq<u8>, Seq<u8>)> {
    match key {
        Some(parts) => Some((parts.id@, parts.key@, parts.iv@)),
        None => None,
    }
}

fn lowered_slice(hash: &Vec<u8>, from: usize, to: usize) -> (part: Vec<u8>)
    requires
        from <= to <= hash.len(),
    ensures
        part@ == hash@.map_values(|byte: u8| crate::utils::lowered(byte)).subrange(
            from as int,
            to as int,
        ),
{
    let ghost low = hash@.map_values(|byte: u8| crate::utils::lowered(byte));
    let mut part: Vec<u8> = Vec::new();
    let mut i: usize = from;
    while i < to
        invariant
            from <= i <= to <= hash.len(),
            low == hash@.map_values(|byte: u8| crate::utils::lowered(byte)),
            part@ == low.subrange(from as int, i as int),
        decreases to - i,
    {
        let byte: u8 = hash[i];
        let small: u8 = if 0x41 <= byte && byte <= 0x5a {
            byte + 0x20
        } else {
            byte
        };
        part.push(small);
        assert(low[i as int] == small);
        i += 1;
    }
    part
}

/// Cuts a cache key out of a digest.
pub fn cache_key_from(hash: &Vec<u8>) -> (key: Option<CacheKeyData>)
    ensures
        cache_key_view(key) == cache_key_in(hash@),
{
    if hash.len() >= 113 {
        Some(
            CacheKeyData {
                id: lowered_slice(hash, 0, 32),
                key: lowered_slice(hash, 34, 98),
                iv: lowered_slice(hash, 81, 113),
            },
        )
    } else {
        None
    }
}

fn append_bytes(out: &mut Vec<u8>, src: &[u8])
    ensures
        final(out)@ == old(out)@ + src@,
{
    let mut i: usize = 0;
    while i < src.len()
        invariant
            i <= src.len(),
            out@ == old(out)@ + src@.take(i as int),
        decreases src.len() - i,
    {
        out.push(src[i]);
        i += 1;
    }
}

/// The cache key of a user, cut out of the SHA-512 digest of the user's
/// number, name and class, as UTF-8, one after the other. A key takes a
/// digest of 113 bytes and no digest has more than `DIGEST_MAX`, so there
/// is no key, whoever the user is.
pub fn create_cache_key(school_number: &str, username: &str, class_name: &str) -> (key: Option<
    CacheKeyData,
>)
    ensures
        key is None,
{
    let mut data: Vec<u8> = Vec::new();
    append_bytes(&mut data, school_number.as_bytes());
    append_bytes(&mut data, username.as_bytes());
    append_bytes(&mut data, class_name.as_bytes());
    match create_hash(HashAlgorithm::Sha512, data.as_slice()) {
        Some(hash) => cache_key_from(&hash),
        None => None,
    }
}

/// Signs a claim set with the key pair of the process: the token that the
/// signing library makes of the claims, and a refusal where it makes none.
pub fn sign_jwt(key: &KeyPair, claims: &Claims) -> (signed: Result<String, SignError>)
    ensures
        signed_view(signed) == signed_token(claims@, key.private_pem(), key.scheme()),
{
    key.sign_jwt(claims)
}

/// Reads a bearer token as a credential of shape `T` at the time `now`, with
/// the key pair that the caller holds for the process: the signature first,
/// then the shape, then the expiry time.
pub fn decode_jwt<T: ClaimShape>(key: &KeyPair, token: &str, now: u64) -> (judged: Result<
    T,
    JWTError,
>)
    ensures
        match judged {
            Ok(credential) => credential_verdict::<T>(
                verified_claims(token@, key.public_pem(), key.scheme()),
                now,
            ) matches Ok(value) && value == credential@,
            Err(error) => credential_verdict::<T>(
                verified_claims(token@, key.public_pem(), key.scheme()),
                now,
            ) matches Err(refusal) && refusal == error,
        },
{
    key.decode_jwt::<T>(token, now)
}

} // verus!
