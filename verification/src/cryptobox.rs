//! Ed25519 signing boxes: one that is given its key pair, and one that asks a
//! key provider for it on the first signature and keeps it from then on.
//!
//! A key pair is kept as its 64 bytes, secret key first. Taking the bytes
//! apart and computing a signature are left to `ed25519_dalek`.

use vstd::prelude::*;
use vstd::string::StringExecFns;

verus! {

/// Length of a key pair in bytes.
pub const KEYPAIR_LENGTH: usize = 64;

/// Why a signing box failed.
#[derive(Debug)]
pub enum CryptoBoxError {
    /// No usable key pair, or no signature.
    SignatureError(String),
    /// The key provider could not derive a key.
    KeyDerivationError(String),
}

pub type CryptoBoxResult<T> = Result<T, CryptoBoxError>;

/// Signs data with Ed25519.
pub trait Ed25519CryptoBox {
    /// Signs the provided data.
    fn sign_ed25519(&mut self, data: &[u8]) -> CryptoBoxResult<Vec<u8>>;
}

/// Fetches an Ed25519 key pair, as 64 bytes with the secret key first.
pub trait Ed25519KeyProvider {
    fn get_ed25519_key_pair(&mut self) -> CryptoBoxResult<Vec<u8>>;
}

/// The Ed25519 signature, made with SHA-512, of `data` under the key pair
/// `key_pair`: 32 bytes of secret key followed by 32 bytes of public key.
pub uninterp spec fn ed25519_signature(key_pair: Seq<u8>, data: Seq<u8>) -> Seq<u8>;

/// What `ed25519_dalek` says of key pair data of the wrong length.
pub open spec fn length_complaint() -> Seq<char> {
    "Keypair must be 64 bytes in length"@
}

/// `ed25519_dalek::Keypair::from_bytes`, the key pair returned as the bytes of
/// `Keypair::to_bytes` and the error as its `Display` text. Only the number of
/// bytes is looked at: exactly 64 bytes make a key pair, whose bytes are those
/// that were given, and any other number is refused with the one complaint
/// that names the length.
#[verifier::external_body]
fn key_pair_from_bytes(bytes: &[u8]) -> (r: Result<Vec<u8>, String>)
    ensures
        r is Ok <==> bytes@.len() == KEYPAIR_LENGTH,
        r matches Ok(pair) ==> pair@ == bytes@,
        r matches Err(cause) ==> cause@ == length_complaint(),
{
    match ed25519_dalek::Keypair::from_bytes(bytes) {
        Ok(pair) => Ok(pair.to_bytes().to_vec()),
        Err(error) => Err(format!("{}", error)),
    }
}

/// `ed25519_dalek::Keypair::sign` with SHA-512, on the key pair that
/// `Keypair::from_bytes` makes of 64 bytes, the signature returned as the
/// bytes of `Signature::to_bytes`. The signature is a function of the key pair
/// and the data and is 64 bytes long; the contract names the bytes and states
/// their number.
#[verifier::external_body]
fn sign_with_key_pair(key_pair: &[u8], data: &[u8]) -> (signature: Vec<u8>)
    requires
        key_pair@.len() == KEYPAIR_LENGTH,
    ensures
        signature@ == ed25519_signature(key_pair@, data@),
        signature@.len() == 64,
{
    let pair = ed25519_dalek::Keypair::from_bytes(key_pair).unwrap();
    pair.sign::<sha2::Sha512>(data).to_bytes().to_vec()
}

/// The bytes that a box accepts as its key pair: any 64 bytes. Whether the
/// two halves belong together is not looked at.
pub open spec fn accepted(bytes: Seq<u8>) -> bool {
    bytes.len() == KEYPAIR_LENGTH
}

/// The message of the error that reports rejected key pair data.
pub open spec fn construction_failure() -> Seq<char> {
    "Keypair construction failed: "@ + length_complaint()
}

/// Whether an error is the one that reports rejected key pair data.
pub open spec fn is_construction_failure(error: CryptoBoxError) -> bool {
    error matches CryptoBoxError::SignatureError(message) && message@ == construction_failure()
}

/// An Ed25519 key pair: 64 bytes, secret key first.
pub struct KeyPair {
    bytes: Vec<u8>,
}

impl KeyPair {
    #[verifier::type_invariant]
    spec fn checked(&self) -> bool {
        accepted(self.bytes@)
    }

    /// The 64 bytes of the pair, secret key first.
    pub closed spec fn bytes(&self) -> Seq<u8> {
        self.bytes@
    }

    /// Takes over key pair data. It succeeds exactly on 64 bytes; any other
    /// number is reported as a signature error.
    pub fn from_bytes(bytes: &[u8]) -> (r: CryptoBoxResult<KeyPair>)
        ensures
            r is Ok <==> accepted(bytes@),
            r matches Ok(pair) ==> pair.bytes() == bytes@,
            r matches Err(e) ==> is_construction_failure(e),
    {
        match key_pair_from_bytes(bytes) {
            Ok(pair) => Ok(KeyPair { bytes: pair }),
            Err(cause) => {
                let mut message = String::from_str("Keypair construction failed: ");
                message.append(cause.as_str());
                Err(CryptoBoxError::SignatureError(message))
            },
        }
    }

    /// The Ed25519 signature of `data` under this key pair: 64 bytes.
    pub fn sign(&self, data: &[u8]) -> (signature: Vec<u8>)
        ensures
            signature@ == ed25519_signature(self.bytes(), data@),
            signature@.len() == 64,
            accepted(self.bytes()),
    {
        proof {
            use_type_invariant(self);
        }
        sign_with_key_pair(self.bytes.as_slice(), data)
    }
}

/// A signing box that holds its key pair.
pub struct Ed25519KeyHoldingCryptoBox {
    key_pair: KeyPair,
}

impl Ed25519KeyHoldingCryptoBox {
    /// The key pair that the box signs with.
    pub closed spec fn key_pair(&self) -> Seq<u8> {
        self.key_pair.bytes()
    }

    /// Creates a box from key pair data. It succeeds exactly on 64 bytes.
    pub fn new(key_pair: &[u8]) -> (r: CryptoBoxResult<Ed25519KeyHoldingCryptoBox>)
        ensures
            r is Ok <==> accepted(key_pair@),
            r matches Ok(held) ==> held.key_pair() == key_pair@,
            r matches Err(e) ==> is_construction_failure(e),
    {
        match KeyPair::from_bytes(key_pair) {
            Ok(pair) => Ok(Ed25519KeyHoldingCryptoBox { key_pair: pair }),
            Err(e) => Err(e),
        }
    }
}

impl Ed25519CryptoBox for Ed25519KeyHoldingCryptoBox {
    /// Signs with the held key pair. This never fails, and the box stays as
    /// it is.
    fn sign_ed25519(&mut self, data: &[u8]) -> (r: CryptoBoxResult<Vec<u8>>)
        ensures
            final(self).key_pair() == old(self).key_pair(),
            r matches Ok(signature) && signature@ == ed25519_signature(
                old(self).key_pair(),
                data@,
            ),
    {
        Ok(self.key_pair.sign(data))
    }
}

/// A cell with one value in it. The deriving box keeps its provider in one:
/// Verus follows a value of a type parameter from the constructor through a
/// field to a later call, which it does not yet do for a trait object that a
/// field holds directly.
struct Slot<T> {
    held: T,
}

/// A signing box that fetches its key pair from a provider when it first
/// signs.
pub struct Ed25519KeyDerivingCryptoBox {
    key_pair: Option<KeyPair>,
    key_provider: Slot<Box<dyn Ed25519KeyProvider>>,
}

impl Ed25519KeyDerivingCryptoBox {
    /// The key pair that the box has fetched, if it has.
    pub closed spec fn key_pair(&self) -> Option<Seq<u8>> {
        match self.key_pair {
            Some(pair) => Some(pair.bytes()),
            None => None,
        }
    }

    /// Decides whether the box has fetched its key pair.
    pub fn has_key_pair(&self) -> (r: bool)
        ensures
            r == self.key_pair().is_some(),
    {
        self.key_pair.is_some()
    }

    /// Creates a box that will ask `key_provider` for its key pair. This never
    /// fails: the box holds the provider that was given and no key pair yet.
    pub fn new(key_provider: Box<dyn Ed25519KeyProvider>) -> (r: CryptoBoxResult<
        Ed25519KeyDerivingCryptoBox,
    >)
        ensures
            r matches Ok(deriving) && deriving.key_pair() is None && deriving.provider()
                == key_provider,
    {
        let key_provider = Slot { held: key_provider };
        Ok(Ed25519KeyDerivingCryptoBox { key_pair: None, key_provider })
    }

    /// The provider that the box asks for its key pair.
    pub closed spec fn provider(&self) -> &Box<dyn Ed25519KeyProvider> {
        &self.key_provider.held
    }

    /// Signs `data` in a box that has no key pair yet, given what the
    /// provider answered. An error of the provider is handed on; data of the
    /// wrong length is reported; a key pair is kept and signs the data.
    pub fn sign_with_provided(
        &mut self,
        provided: CryptoBoxResult<Vec<u8>>,
        data: &[u8],
    ) -> (r: CryptoBoxResult<Vec<u8>>)
        requires
            old(self).key_pair() is None,
        ensures
            final(self).provider() == old(self).provider(),
            match provided {
                Err(e) => r == Err::<Vec<u8>, CryptoBoxError>(e) && final(self).key_pair()
                    is None,
                Ok(bytes) => if accepted(bytes@) {
                    &&& final(self).key_pair() == Some(bytes@)
                    &&& r matches Ok(signature)
                    &&& signature@ == ed25519_signature(bytes@, data@)
                } else {
                    &&& final(self).key_pair() is None
                    &&& r matches Err(e)
                    &&& is_construction_failure(e)
                },
            },
    {
        let bytes = match provided {
            Ok(bytes) => bytes,
            Err(e) => {
                return Err(e);
            },
        };
        match KeyPair::from_bytes(bytes.as_slice()) {
            Ok(pair) => {
                let signature = pair.sign(data);
                self.key_pair = Some(pair);
                Ok(signature)
            },
            Err(e) => Err(e),
        }
    }
}

impl Ed25519CryptoBox for Ed25519KeyDerivingCryptoBox {
    /// Signs with the key pair of the box. A box without one asks its
    /// provider first, and keeps what it gets only if it is a key pair; a box
    /// with one never fails and never asks again.
    fn sign_ed25519(&mut self, data: &[u8]) -> (r: CryptoBoxResult<Vec<u8>>)
        ensures
            old(self).key_pair() matches Some(pair) ==> {
                &&& final(self).provider() == old(self).provider()
                &&& final(self).key_pair() == Some(pair)
                &&& r matches Ok(signature)
                &&& signature@ == ed25519_signature(pair, data@)
            },
            old(self).key_pair() is None ==> (match r {
                Ok(signature) => (final(self).key_pair() matches Some(pair) && accepted(pair)
                    && signature@ == ed25519_signature(pair, data@)),
                Err(_) => final(self).key_pair() is None,
            }),
    {
        match &self.key_pair {
            Some(pair) => {
                return Ok(pair.sign(data));
            },
            None => {},
        }
        let provided = self.key_provider.held.get_ed25519_key_pair();
        self.sign_with_provided(provided, data)
    }
}

} // verus!
