//! The signing phase: validate, let the operator decide, sign.

use crate::crypto::{sign_transaction_at, signed_transaction};
use crate::error::Error;
use crate::network::slice_text;
use crate::types::{SignedTx, SignedTxView, TxParams, TxParamsView};
use crate::validate::{validate, validation, Warning};
use vstd::prelude::*;

verus! {

/// What the operator said of the descriptor.
#[derive(Clone, Copy, Debug, PartialEq, Eq, Structural)]
pub enum Review {
    /// The operator approved.
    Approved,
    /// The operator declined.
    Rejected,
    /// The review was skipped on request.
    Skipped,
}

/// How the signing phase ended, where it did not fail.
#[derive(Clone, Debug, PartialEq, Eq)]
pub enum SignOutcome {
    /// The transaction was signed; the validator's warnings come with it.
    Signed { signed: SignedTx, warnings: Vec<Warning> },
    /// The operator declined: nothing was signed and nothing is written. This
    /// is no error.
    Cancelled,
}

/// [`SignOutcome`] as a mathematical value.
pub enum SignOutcomeView {
    Signed { signed: SignedTxView, warnings: Seq<Warning> },
    Cancelled,
}

impl View for SignOutcome {
    type V = SignOutcomeView;

    open spec fn view(&self) -> SignOutcomeView {
        match self {
            SignOutcome::Signed { signed, warnings } => SignOutcomeView::Signed {
                signed: signed@,
                warnings: warnings@,
            },
            SignOutcome::Cancelled => SignOutcomeView::Cancelled,
        }
    }
}

/// The signing phase. A descriptor that fails validation is never signed,
/// whatever the operator said. A rejection cancels before the key is looked
/// at. Only then is the key asked for, and the descriptor signed.
pub open spec fn sign_phase(
    d: TxParamsView,
    review: Review,
    private_key: Option<Seq<char>>,
    signed_at: Seq<char>,
) -> Result<SignOutcomeView, Error> {
    match validation(d) {
        Err(e) => Err(e),
        Ok(warnings) => if review == Review::Rejected {
            Ok(SignOutcomeView::Cancelled)
        } else {
            match private_key {
                None => Err(Error::MissingPrivateKey),
                Some(key) => match signed_transaction(d, key, signed_at) {
                    Err(e) => Err(e),
                    Ok(signed) => Ok(SignOutcomeView::Signed { signed, warnings }),
                },
            }
        },
    }
}

/// Runs the signing phase on a descriptor, with the operator's decision, the
/// configured private key and the time of signing.
pub fn execute(tx_params: &TxParams, review: Review, private_key: Option<&str>, signed_at: String) -> (r:
    Result<SignOutcome, Error>)
    ensures
        match r {
            Ok(outcome) => sign_phase(tx_params@, review, slice_text(private_key), signed_at@) == Ok::<
                SignOutcomeView,
                Error,
            >(outcome@),
            Err(e) => sign_phase(tx_params@, review, slice_text(private_key), signed_at@) == Err::<
                SignOutcomeView,
                Error,
            >(e),
        },
{
    let warnings = match validate(tx_params) {
        Ok(w) => w,
        Err(e) => {
            return Err(e);
        },
    };
    if review == Review::Rejected {
        return Ok(SignOutcome::Cancelled);
    }
    let key = match private_key {
        Some(k) => k,
        None => {
            return Err(Error::MissingPrivateKey);
        },
    };
    match sign_transaction_at(tx_params, key, signed_at) {
        Ok(signed) => Ok(SignOutcome::Signed { signed, warnings }),
        Err(e) => Err(e),
    }
}

/// Nothing is signed that the validator rejects or the operator declines.
pub proof fn lemma_nothing_signed_unchecked(
    d: TxParamsView,
    review: Review,
    private_key: Option<Seq<char>>,
    signed_at: Seq<char>,
)
    ensures
        sign_phase(d, review, private_key, signed_at) matches Ok(SignOutcomeView::Signed { signed, .. })
            ==> validation(d) is Ok && review != Review::Rejected && signed.metadata.signed
            && signed.metadata.prepared,
        review == Review::Rejected && validation(d) is Ok ==> sign_phase(
            d,
            review,
            private_key,
            signed_at,
        ) == Ok::<SignOutcomeView, Error>(SignOutcomeView::Cancelled),
{
}

} // verus!
