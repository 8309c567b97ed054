//! Twenty-byte account addresses and the text they are read from.

use vstd::prelude::*;

verus! {

/// The address of an account or a contract.
#[derive(Clone, Copy, Debug, PartialEq, Eq)]
pub struct Address {
    pub bytes: [u8; 20],
}

impl View for Address {
    type V = Seq<u8>;

    open spec fn view(&self) -> Seq<u8> {
        self.bytes@
    }
}

/// Whether `c` is a hexadecimal digit, in either case.
pub open spec fn is_hex_digit(c: char) -> bool {
    ('0' as u32 <= c as u32 && c as u32 <= '9' as u32) || ('a' as u32 <= c as u32 && c as u32
        <= 'f' as u32) || ('A' as u32 <= c as u32 && c as u32 <= 'F' as u32)
}

/// The number that the hexadecimal digit `c` stands for.
pub open spec fn hex_value(c: char) -> nat {
    if '0' as u32 <= c as u32 && c as u32 <= '9' as u32 {
        (c as u32 - '0' as u32) as nat
    } else if 'a' as u32 <= c as u32 && c as u32 <= 'f' as u32 {
        (c as u32 - 'a' as u32 + 10) as nat
    } else {
        (c as u32 - 'A' as u32 + 10) as nat
    }
}

/// The blanks that may stand between hexadecimal digits.
pub open spec fn is_blank(c: char) -> bool {
    c == ' ' || c == '\r' || c == '\n' || c == '\t'
}

/// `text` without a leading "0x".
pub open spec fn without_prefix(text: Seq<char>) -> Seq<char> {
    if text.len() >= 2 && text[0] == '0' && text[1] == 'x' {
        text.subrange(2, text.len() as int)
    } else {
        text
    }
}

/// What is left of `text` after a leading "0x" and all blanks are taken out.
pub open spec fn hex_digits_of(text: Seq<char>) -> Seq<char> {
    without_prefix(text).filter(|c: char| !is_blank(c))
}

/// The address that `text` denotes: after an optional "0x", and blanks
/// aside, exactly forty hexadecimal digits, two for each byte, the first byte
/// first. Any other text denotes none.
pub open spec fn address_bytes(text: Seq<char>) -> Option<Seq<u8>> {
    let digits = hex_digits_of(text);
    if digits.len() == 40 && (forall|i: int| 0 <= i < 40 ==> is_hex_digit(#[trigger] digits[i])) {
        Some(
            Seq::new(
                20,
                |i: int| (16 * hex_value(digits[2 * i]) + hex_value(digits[2 * i + 1])) as u8,
            ),
        )
    } else {
        None
    }
}

/// The address that belongs to a signing credential: what `LocalWallet` of
/// ethers derives from the credential's text, or none where it refuses the
/// text as a private key.
pub uninterp spec fn signer_address_of(credential: Seq<char>) -> Option<Seq<u8>>;

/// `H160::from_str` of ethers: strips one leading "0x", then decodes pairs of
/// hexadecimal digits into twenty bytes, passing over spaces, tabs, carriage
/// returns and line feeds; anything else, too few or too many digits are
/// errors, which are all reported here as `None`.
#[verifier::external_body]
fn address_from_str(text: &str) -> (r: Option<Address>)
    ensures
        match r {
            Some(a) => address_bytes(text@) == Some(a@),
            None => address_bytes(text@) is None,
        },
{
    match text.parse::<ethers::types::H160>() {
        Ok(h) => Some(Address { bytes: h.0 }),
        Err(_) => None,
    }
}

/// `LocalWallet::from_str` of ethers followed by `Signer::address`: the
/// address of the key pair that the credential's text holds. Both are
/// functions of the text alone.
#[verifier::external_body]
fn signer_address_from_str(credential: &str) -> (r: Option<Address>)
    ensures
        match r {
            Some(a) => signer_address_of(credential@) == Some(a@),
            None => signer_address_of(credential@) is None,
        },
{
    match credential.parse::<ethers::signers::LocalWallet>() {
        Ok(wallet) => Some(Address { bytes: ethers::signers::Signer::address(&wallet).0 }),
        Err(_) => None,
    }
}

impl Address {
    /// Reads an address from hexadecimal text.
    pub fn parse(text: &str) -> (r: Option<Address>)
        ensures
            match r {
                Some(a) => address_bytes(text@) == Some(a@),
                None => address_bytes(text@) is None,
            },
    {
        address_from_str(text)
    }

    /// The address that signs with the given credential, if the credential
    /// is a private key.
    pub fn of_signer(credential: &str) -> (r: Option<Address>)
        ensures
            match r {
                Some(a) => signer_address_of(credential@) == Some(a@),
                None => signer_address_of(credential@) is None,
            },
    {
        signer_address_from_str(credential)
    }
}

} // verus!
