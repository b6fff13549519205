//! Preparing a payout on the Solana rail: everything that is decided before
//! and between the network calls, from plain values to plain values.

use std::str::FromStr;
use solana_sdk::pubkey::Pubkey;
use solana_sdk::signature::{Keypair, Signer};
use vstd::prelude::*;
use crate::rail::{RailError, RailErrorView};
use crate::text::{decimal, padded, push_decimal, push_padded};

verus! {

/// Lamports in one SOL.
pub const LAMPORTS_PER_SOL: u64 = 1_000_000_000;

/// The bytes that a Base58 text stands for in the Bitcoin alphabet, `None`
/// where the text is not Base58.
pub uninterp spec fn base58_decode(text: Seq<char>) -> Option<Seq<u8>>;

/// The public key of the Ed25519 key pair that 64 bytes hold, `None` where
/// the bytes are no key pair.
pub uninterp spec fn keypair_public_key(bytes: Seq<u8>) -> Option<Seq<u8>>;

/// The 32 bytes of the account address that a text spells, `None` where the
/// text spells none.
pub uninterp spec fn pubkey_from_text(text: Seq<char>) -> Option<Seq<u8>>;

/// `bs58::decode(..).into_vec()`: decodes a text in the default alphabet.
/// The result is a function of the text alone.
#[verifier::external_body]
fn decode_base58(text: &str) -> (bytes: Option<Vec<u8>>)
    ensures
        match bytes {
            Some(b) => base58_decode(text@) == Some(b@),
            None => base58_decode(text@) is None,
        },
{
    bs58::decode(text).into_vec().ok()
}

/// `Keypair::from_bytes` and `Signer::pubkey` of solana_sdk: checks that the
/// bytes are a secret key followed by the public key derived from it, and
/// hands out that public key. The result is a function of the bytes alone.
#[verifier::external_body]
#[allow(deprecated)]
fn public_key_of(bytes: &Vec<u8>) -> (key: Option<[u8; 32]>)
    ensures
        match key {
            Some(k) => keypair_public_key(bytes@) == Some(k@),
            None => keypair_public_key(bytes@) is None,
        },
{
    Keypair::from_bytes(bytes.as_slice()).ok().map(|pair| pair.pubkey().to_bytes())
}

/// `Pubkey::from_str` of solana_sdk: reads an account address from its
/// Base58 text. The result is a function of the text alone.
#[verifier::external_body]
fn parse_pubkey(text: &str) -> (key: Option<[u8; 32]>)
    ensures
        match key {
            Some(k) => pubkey_from_text(text@) == Some(k@),
            None => pubkey_from_text(text@) is None,
        },
{
    Pubkey::from_str(text).ok().map(|key| key.to_bytes())
}

/// A payout that is ready to be signed and sent.
#[derive(Clone, Debug, PartialEq, Eq)]
pub struct PayoutOrder {
    /// The paying key pair, as the 64 bytes it was read from.
    pub signer_key: Vec<u8>,
    /// Address of the paying account.
    pub payer: [u8; 32],
    /// Address of the account to be paid.
    pub destination: [u8; 32],
    pub lamports: u64,
}

/// `PayoutOrder` as a mathematical value: bytes are sequences.
pub struct PayoutOrderView {
    pub signer_key: Seq<u8>,
    pub payer: Seq<u8>,
    pub destination: Seq<u8>,
    pub lamports: u64,
}

impl View for PayoutOrder {
    type V = PayoutOrderView;

    open spec fn view(&self) -> PayoutOrderView {
        PayoutOrderView {
            signer_key: self.signer_key@,
            payer: self.payer@,
            destination: self.destination@,
            lamports: self.lamports,
        }
    }
}

/// Why a payout was not made, by the stage at which it stopped.
#[derive(Clone, Copy, Debug, PartialEq, Eq, Structural)]
pub enum PayoutError {
    /// The amount is zero.
    AmountNotPositive,
    /// The paying key is not Base58.
    InvalidKeyEncoding,
    /// The paying key decodes to bytes that are no key pair.
    InvalidKeyBytes,
    /// The destination is no account address.
    InvalidDestination,
    /// The paying account's balance could not be read.
    BalanceUnavailable,
    /// The paying account holds less than the amount.
    InsufficientBalance { needed: u64, available: u64 },
    /// No recent blockhash could be had to sign against.
    BlockhashUnavailable,
    /// The signed transaction was handed to the network and no confirmation
    /// came back.
    Unconfirmed,
}

/// View of a planned payout or the reason there is none.
pub open spec fn planned_view(r: Result<PayoutOrder, PayoutError>) -> Result<
    PayoutOrderView,
    PayoutError,
> {
    match r {
        Ok(order) => Ok(order@),
        Err(e) => Err(e),
    }
}

/// The payout that the decoded parts allow: the amount is looked at first,
/// then the paying key's encoding, then its bytes, then the destination.
pub open spec fn payout_plan(
    lamports: u64,
    key_bytes: Option<Seq<u8>>,
    payer: Option<Seq<u8>>,
    destination: Option<Seq<u8>>,
) -> Result<PayoutOrderView, PayoutError> {
    if lamports == 0 {
        Err(PayoutError::AmountNotPositive)
    } else if key_bytes is None {
        Err(PayoutError::InvalidKeyEncoding)
    } else if payer is None {
        Err(PayoutError::InvalidKeyBytes)
    } else if destination is None {
        Err(PayoutError::InvalidDestination)
    } else {
        Ok(
            PayoutOrderView {
                signer_key: key_bytes->0,
                payer: payer->0,
                destination: destination->0,
                lamports: lamports,
            },
        )
    }
}

/// The public key that decoded key bytes hold, `None` where nothing was
/// decoded.
pub open spec fn payer_of(key_bytes: Option<Seq<u8>>) -> Option<Seq<u8>> {
    match key_bytes {
        Some(bytes) => keypair_public_key(bytes),
        None => None,
    }
}

/// View of optional bytes.
pub open spec fn opt_bytes(bytes: Option<Vec<u8>>) -> Option<Seq<u8>> {
    match bytes {
        Some(b) => Some(b@),
        None => None,
    }
}

/// View of an optional address.
pub open spec fn opt_address(address: Option<[u8; 32]>) -> Option<Seq<u8>> {
    match address {
        Some(a) => Some(a@),
        None => None,
    }
}

/// Puts a payout together from the decoded parts.
pub fn assemble_payout(
    lamports: u64,
    key_bytes: Option<Vec<u8>>,
    payer: Option<[u8; 32]>,
    destination: Option<[u8; 32]>,
) -> (r: Result<PayoutOrder, PayoutError>)
    ensures
        planned_view(r) == payout_plan(
            lamports,
            opt_bytes(key_bytes),
            opt_address(payer),
            opt_address(destination),
        ),
{
    if lamports == 0 {
        return Err(PayoutError::AmountNotPositive);
    }
    let signer_key = match key_bytes {
        Some(bytes) => bytes,
        None => {
            return Err(PayoutError::InvalidKeyEncoding);
        },
    };
    let payer = match payer {
        Some(payer) => payer,
        None => {
            return Err(PayoutError::InvalidKeyBytes);
        },
    };
    let destination = match destination {
        Some(destination) => destination,
        None => {
            return Err(PayoutError::InvalidDestination);
        },
    };
    Ok(PayoutOrder { signer_key, payer, destination, lamports })
}

/// Plans a payout of `lamports` from the account of the Base58 key pair
/// `private_key` to the address `destination`.
pub fn plan_payout(private_key: &str, destination: &str, lamports: u64) -> (r: Result<
    PayoutOrder,
    PayoutError,
>)
    ensures
        planned_view(r) == payout_plan(
            lamports,
            base58_decode(private_key@),
            payer_of(base58_decode(private_key@)),
            pubkey_from_text(destination@),
        ),
{
    if lamports == 0 {
        return Err(PayoutError::AmountNotPositive);
    }
    let key_bytes = decode_base58(private_key);
    let payer = match &key_bytes {
        Some(bytes) => public_key_of(bytes),
        None => None,
    };
    let destination = if payer.is_some() {
        parse_pubkey(destination)
    } else {
        None
    };
    assemble_payout(lamports, key_bytes, payer, destination)
}

/// Whether the paying account can afford the payout.
pub fn check_balance(order: &PayoutOrder, balance: u64) -> (r: Result<(), PayoutError>)
    ensures
        r == if balance < order.lamports {
            Err::<(), PayoutError>(
                PayoutError::InsufficientBalance { needed: order.lamports, available: balance },
            )
        } else {
            Ok::<(), PayoutError>(())
        },
{
    if balance < order.lamports {
        Err(PayoutError::InsufficientBalance { needed: order.lamports, available: balance })
    } else {
        Ok(())
    }
}

/// An amount of lamports in SOL, with nine decimals.
pub open spec fn sol_text(lamports: u64) -> Seq<char> {
    decimal((lamports / LAMPORTS_PER_SOL) as nat) + seq!['.'] + padded(
        (lamports % LAMPORTS_PER_SOL) as nat,
        9,
    )
}

/// Appends an amount of lamports in SOL, with nine decimals, computed in
/// integers.
pub fn push_sol(out: &mut String, lamports: u64)
    ensures
        final(out)@ == old(out)@ + sol_text(lamports),
{
    proof {
        reveal_strlit(".");
    }
    push_decimal(out, lamports / LAMPORTS_PER_SOL);
    out.append(".");
    push_padded(out, lamports % LAMPORTS_PER_SOL, 9);
    assert("."@ =~= seq!['.']);
    assert(final(out)@ =~= old(out)@ + sol_text(lamports));
}

impl PayoutError {
    /// The message of this failure.
    pub open spec fn message(self) -> Seq<char> {
        match self {
            PayoutError::AmountNotPositive => "Amount must be positive"@,
            PayoutError::InvalidKeyEncoding => "Failed to decode base58 private key"@,
            PayoutError::InvalidKeyBytes => "Invalid private key bytes"@,
            PayoutError::InvalidDestination => "Invalid destination pubkey"@,
            PayoutError::BalanceUnavailable => "Failed to fetch balance"@,
            PayoutError::InsufficientBalance { needed, available } => {
                "Insufficient balance. Needed: "@ + sol_text(needed) + " SOL, Available: "@
                    + sol_text(available) + " SOL"@
            },
            PayoutError::BlockhashUnavailable => "Failed to get blockhash"@,
            PayoutError::Unconfirmed => "Failed to send transaction"@,
        }
    }

    pub fn describe(&self) -> (text: String)
        ensures
            text@ == self.message(),
    {
        match self {
            PayoutError::AmountNotPositive => "Amount must be positive".to_owned(),
            PayoutError::InvalidKeyEncoding => "Failed to decode base58 private key".to_owned(),
            PayoutError::InvalidKeyBytes => "Invalid private key bytes".to_owned(),
            PayoutError::InvalidDestination => "Invalid destination pubkey".to_owned(),
            PayoutError::BalanceUnavailable => "Failed to fetch balance".to_owned(),
            PayoutError::InsufficientBalance { needed, available } => {
                let mut text = "Insufficient balance. Needed: ".to_owned();
                push_sol(&mut text, *needed);
                text.append(" SOL, Available: ");
                push_sol(&mut text, *available);
                text.append(" SOL");
                text
            },
            PayoutError::BlockhashUnavailable => "Failed to get blockhash".to_owned(),
            PayoutError::Unconfirmed => "Failed to send transaction".to_owned(),
        }
    }

    /// Whether the transfer may have happened although it failed: only once
    /// the transaction was handed to the network.
    pub open spec fn outcome_unknown(self) -> bool {
        self is Unconfirmed
    }

    /// What the settlement engine is told: a failure before the transaction
    /// was handed to the network is a refusal, with nothing sent; one after
    /// it leaves the outcome unknown.
    pub fn rail_error(&self) -> (e: RailError)
        ensures
            e@ == if self.outcome_unknown() {
                RailErrorView::Transient
            } else {
                RailErrorView::Rejected(self.message())
            },
    {
        match self {
            PayoutError::Unconfirmed => RailError::Transient,
            _ => RailError::Rejected(self.describe()),
        }
    }
}

} // verus!
