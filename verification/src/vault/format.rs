//! The closed set of encryption formats and their canonical names.

use super::error::{VaultError, VaultErrorView};
use super::fields::same_text;
use vstd::prelude::*;

verus! {

/// Which encryption scheme produced a sealed payload.
#[allow(non_camel_case_types)]
#[derive(Clone, Copy, Debug, PartialEq, Eq, Structural)]
pub enum EncryptionFormat {
    GPG_KEY,
}

/// The canonical name of a format, as it stands in the wire text.
pub open spec fn format_name(format: EncryptionFormat) -> Seq<char> {
    match format {
        EncryptionFormat::GPG_KEY => seq!['G', 'P', 'G', '_', 'K', 'E', 'Y'],
    }
}

/// The format that `name` is the canonical name of, if it is one.
pub open spec fn format_named(name: Seq<char>) -> Option<EncryptionFormat> {
    if name == format_name(EncryptionFormat::GPG_KEY) {
        Some(EncryptionFormat::GPG_KEY)
    } else {
        None
    }
}

/// Reading a format's canonical name gives the format back.
pub proof fn lemma_format_round_trip(format: EncryptionFormat)
    ensures
        format_named(format_name(format)) == Some(format),
{
}

/// A name is read as a format only if it is that format's canonical name.
pub proof fn lemma_format_named_is_exact(name: Seq<char>, format: EncryptionFormat)
    ensures
        format_named(name) == Some(format) <==> name == format_name(format),
{
}

/// No canonical name holds the field delimiter of the wire text.
pub proof fn lemma_format_name_has_no_dot(format: EncryptionFormat)
    ensures
        forall|i: int| 0 <= i < format_name(format).len() ==> format_name(format)[i] != '.',
{
}

impl EncryptionFormat {
    /// The canonical name of this format.
    pub fn as_str(&self) -> (name: String)
        ensures
            name@ == format_name(*self),
    {
        match *self {
            EncryptionFormat::GPG_KEY => {
                proof {
                    reveal_strlit("GPG_KEY");
                }
                "GPG_KEY".to_owned()
            },
        }
    }

    /// Reads a canonical name. Any other text is an error that holds the
    /// text; no format stands in for an unknown one.
    pub fn from_str(value: &str) -> (parsed: Result<EncryptionFormat, VaultError>)
        ensures
            match format_named(value@) {
                Some(format) => parsed == Ok::<EncryptionFormat, VaultError>(format),
                None => parsed matches Err(e) && e@ == VaultErrorView::UnknownFormat(value@),
            },
    {
        proof {
            reveal_strlit("GPG_KEY");
            assert("GPG_KEY"@ =~= format_name(EncryptionFormat::GPG_KEY));
        }
        if same_text(value, "GPG_KEY") {
            Ok(EncryptionFormat::GPG_KEY)
        } else {
            Err(VaultError::UnknownFormat(value.to_owned()))
        }
    }
}

} // verus!
