//! The vault: a secret in its unsealed and sealed states, and the two
//! transitions between them. The library does no cryptography: `seal` and
//! `unseal` hand the vault to a transform that the caller brings.

pub mod error;
pub mod fields;
pub mod format;
pub mod payload;
pub mod wire;

pub use error::VaultError;
pub use format::EncryptionFormat;
pub use wire::{can_encode, encode, parse};

use payload::payload_fits;
use vstd::prelude::*;
use wire::{wire_decoding, wire_text};

verus! {

/// A secret in usable form. It has no text form: only a sealed vault is
/// written out or sent.
pub struct UnsealedVault {
    pub plain_secret: String,
    pub format: EncryptionFormat,
}

/// An [`UnsealedVault`] with its secret as a sequence of characters.
pub struct UnsealedVaultView {
    pub plain_secret: Seq<char>,
    pub format: EncryptionFormat,
}

impl View for UnsealedVault {
    type V = UnsealedVaultView;

    open spec fn view(&self) -> UnsealedVaultView {
        UnsealedVaultView { plain_secret: self.plain_secret@, format: self.format }
    }
}

/// A secret after encryption: the bytes that the encryption gave, and the
/// format that gave them.
pub struct SealedVault {
    pub secret: Vec<u8>,
    pub format: EncryptionFormat,
}

/// A [`SealedVault`] with its secret as a sequence of bytes.
pub struct SealedVaultView {
    pub secret: Seq<u8>,
    pub format: EncryptionFormat,
}

impl View for SealedVault {
    type V = SealedVaultView;

    open spec fn view(&self) -> SealedVaultView {
        SealedVaultView { secret: self.secret@, format: self.format }
    }
}

/// What can be sealed.
pub trait SealableVault: Sized {
    /// The unsealed vault that is handed to the transform.
    spec fn unsealed(&self) -> UnsealedVault;

    /// Hands the vault to `f`, once, and returns what `f` returns: the
    /// sealed vault, or the error of `f` as it is.
    fn seal<F>(self, f: &F) -> (sealed: Result<SealedVault, VaultError>)
        where
            F: Fn(UnsealedVault) -> Result<SealedVault, VaultError>,
        requires
            call_requires(*f, (self.unsealed(),)),
        ensures
            call_ensures(*f, (self.unsealed(),), sealed),
    ;
}

/// What can be opened, and written out while it is closed.
pub trait OpenableVault: Sized {
    /// The sealed vault that is handed to the transform.
    spec fn sealed(&self) -> SealedVault;

    /// Hands the vault to `f`, once, and returns what `f` returns: the
    /// unsealed vault, or the error of `f` as it is.
    fn unseal<F>(self, f: &F) -> (opened: Result<UnsealedVault, VaultError>)
        where
            F: Fn(SealedVault) -> Result<UnsealedVault, VaultError>,
        requires
            call_requires(*f, (self.sealed(),)),
        ensures
            call_ensures(*f, (self.sealed(),), opened),
    ;

    /// The canonical text of the vault, which [`parse`] reads back.
    fn to_string(&self) -> (text: String)
        requires
            payload_fits(self.sealed().secret@.len()),
        ensures
            text@ == wire_text(self.sealed()@),
            wire_decoding(text@) == Ok::<SealedVaultView, error::VaultErrorView>(self.sealed()@),
    ;
}

/// What performs the cryptography: one operation in each direction.
pub trait VaultHandler {
    fn encrypt(&self, u: UnsealedVault) -> Result<SealedVault, VaultError>;

    fn decrypt(&self, s: SealedVault) -> Result<UnsealedVault, VaultError>;
}

impl UnsealedVault {
    pub fn new(plain_secret: String, format: EncryptionFormat) -> (vault: UnsealedVault)
        ensures
            vault.plain_secret == plain_secret,
            vault.format == format,
    {
        UnsealedVault { plain_secret, format }
    }
}

impl SealableVault for UnsealedVault {
    open spec fn unsealed(&self) -> UnsealedVault {
        *self
    }

    fn seal<F>(self, f: &F) -> (sealed: Result<SealedVault, VaultError>)
        where
            F: Fn(UnsealedVault) -> Result<SealedVault, VaultError>,
    {
        f(self)
    }
}

impl SealedVault {
    pub fn new(secret: Vec<u8>, format: EncryptionFormat) -> (vault: SealedVault)
        ensures
            vault.secret == secret,
            vault.format == format,
    {
        SealedVault { secret, format }
    }
}

impl OpenableVault for SealedVault {
    open spec fn sealed(&self) -> SealedVault {
        *self
    }

    fn unseal<F>(self, f: &F) -> (opened: Result<UnsealedVault, VaultError>)
        where
            F: Fn(SealedVault) -> Result<UnsealedVault, VaultError>,
    {
        f(self)
    }

    fn to_string(&self) -> (text: String) {
        encode(self)
    }
}

/// `decrypt` undoes `encrypt`: of any sealed vault that `encrypt` may give
/// for an unsealed one, `decrypt` gives nothing but an unsealed vault with
/// the same secret.
pub open spec fn inverse_transforms<E, D>(encrypt: E, decrypt: D) -> bool
    where
        E: Fn(UnsealedVault) -> Result<SealedVault, VaultError>,
        D: Fn(SealedVault) -> Result<UnsealedVault, VaultError>,
{
    forall|plain: UnsealedVault, sealed: SealedVault, opened: Result<UnsealedVault, VaultError>|
        #![trigger
            call_ensures(encrypt, (plain,), Ok(sealed)),
            call_ensures(decrypt, (sealed,), opened)
        ]
        call_ensures(encrypt, (plain,), Ok(sealed)) && call_ensures(decrypt, (sealed,), opened)
            ==> (opened matches Ok(again) && again.plain_secret@ == plain.plain_secret@)
}

/// Sealing a vault and unsealing what came of it, with transforms that are
/// inverses, gives the secret back: where `sealed` is what `seal` returned
/// for `plain` and, that being a vault, `opened` is what `unseal` returned
/// for it, `opened` is a vault with the secret of `plain`.
pub proof fn lemma_seal_then_unseal<E, D>(
    encrypt: E,
    decrypt: D,
    plain: UnsealedVault,
    sealed: Result<SealedVault, VaultError>,
    opened: Result<UnsealedVault, VaultError>,
)
    where
        E: Fn(UnsealedVault) -> Result<SealedVault, VaultError>,
        D: Fn(SealedVault) -> Result<UnsealedVault, VaultError>,
    requires
        inverse_transforms(encrypt, decrypt),
        call_ensures(encrypt, (plain.unsealed(),), sealed),
        sealed matches Ok(vault) && call_ensures(decrypt, (vault.sealed(),), opened),
    ensures
        opened matches Ok(again) && again.plain_secret@ == plain.plain_secret@,
{
}

} // verus!
