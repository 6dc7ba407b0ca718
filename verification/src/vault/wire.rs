//! The canonical text of a sealed vault: the envelope tag, the format's
//! name and the payload in base64, with a dot between them.

use super::error::{VaultError, VaultErrorView};
use super::fields::{field, find_delimiters, lemma_split_of_three, same_text, split_fields};
use super::format::{format_name, format_named, lemma_format_name_has_no_dot, EncryptionFormat};
use super::payload::{
    base64_bytes, base64_decode, base64_encode, base64_text, is_base64_symbol, payload_fits,
};
use super::{SealedVault, SealedVaultView};
use vstd::prelude::*;
use vstd::string::StringExecFns;

verus! {

/// The tag that opens every wire text.
pub open spec fn envelope_tag() -> Seq<char> {
    seq!['C', 'U', 'L', 'P', 'E', 'R']
}

/// The wire text of a sealed vault.
pub open spec fn wire_text(vault: SealedVaultView) -> Seq<char> {
    envelope_tag().push('.') + format_name(vault.format).push('.') + base64_text(vault.secret)
}

/// What a text is read as. It must split at its dots into three fields, the
/// first of them the envelope tag; then the third must be base64; then the
/// second must name a format.
pub open spec fn wire_decoding(text: Seq<char>) -> Result<SealedVaultView, VaultErrorView> {
    let fields = split_fields(text, '.');
    if fields.len() != 3 || fields[0] != envelope_tag() {
        Err(VaultErrorView::MalformedEnvelope)
    } else {
        match base64_bytes(fields[2]) {
            None => Err(VaultErrorView::Base64DecodeError),
            Some(secret) => match format_named(fields[1]) {
                None => Err(VaultErrorView::UnknownFormat(fields[1])),
                Some(format) => Ok(SealedVaultView { secret, format }),
            },
        }
    }
}

/// A result of [`parse`] with the vault or the error as its view.
pub open spec fn parsed_view(parsed: Result<SealedVault, VaultError>) -> Result<
    SealedVaultView,
    VaultErrorView,
> {
    match parsed {
        Ok(vault) => Ok(vault@),
        Err(error) => Err(error@),
    }
}

/// The wire text of a vault is read back as that vault, byte for byte.
///
/// The law rests on two facts of base64 that only its encoder vouches for:
/// the text of the payload holds base64 symbols only, and it decodes to the
/// bytes it was made of. [`encode`] has both from the encoder, and so states
/// the law of every text it returns.
pub proof fn lemma_wire_round_trip(vault: SealedVaultView)
    requires
        base64_bytes(base64_text(vault.secret)) == Some(vault.secret),
        forall|i: int|
            0 <= i < base64_text(vault.secret).len() ==> is_base64_symbol(
                #[trigger] base64_text(vault.secret)[i],
            ),
    ensures
        wire_decoding(wire_text(vault)) == Ok::<SealedVaultView, VaultErrorView>(vault),
{
    let payload = base64_text(vault.secret);
    lemma_format_name_has_no_dot(vault.format);
    assert forall|i: int| 0 <= i < payload.len() implies payload[i] != '.' by {}
    lemma_split_of_three(envelope_tag(), format_name(vault.format), payload, '.');
}

/// Whether the payload of `vault` is short enough for [`encode`].
pub fn can_encode(vault: &SealedVault) -> (fits: bool)
    ensures
        fits == payload_fits(vault.secret@.len()),
{
    vault.secret.len() <= (isize::MAX as usize / 4) * 3
}

/// Writes a sealed vault as its wire text. The payload must be short enough
/// for its base64 text to be held in one allocation; [`can_encode`] tests
/// that.
pub fn encode(vault: &SealedVault) -> (text: String)
    requires
        payload_fits(vault.secret@.len()),
    ensures
        text@ == wire_text(vault@),
        wire_decoding(text@) == Ok::<SealedVaultView, VaultErrorView>(vault@),
{
    let name = vault.format.as_str();
    let payload = base64_encode(&vault.secret);
    let mut text = "CULPER.".to_owned();
    text.append(name.as_str());
    text.append(".");
    text.append(payload.as_str());
    proof {
        reveal_strlit("CULPER.");
        reveal_strlit(".");
        lemma_wire_round_trip(vault@);
    }
    text
}

/// Reads a wire text.
pub fn parse(value: &str) -> (parsed: Result<SealedVault, VaultError>)
    ensures
        parsed_view(parsed) == wire_decoding(value@),
{
    let cuts = find_delimiters(value, '.');
    if cuts.len() != 2 {
        return Err(VaultError::MalformedEnvelope);
    }
    let tag = field(value, '.', &cuts, 0);
    proof {
        reveal_strlit("CULPER");
        assert("CULPER"@ =~= envelope_tag());
    }
    if !same_text(tag, "CULPER") {
        return Err(VaultError::MalformedEnvelope);
    }
    let name = field(value, '.', &cuts, 1);
    let payload = field(value, '.', &cuts, 2);
    match base64_decode(payload) {
        Err(_) => Err(VaultError::Base64DecodeError),
        Ok(secret) => match EncryptionFormat::from_str(name) {
            Err(error) => Err(error),
            Ok(format) => Ok(SealedVault::new(secret, format)),
        },
    }
}

} // verus!
