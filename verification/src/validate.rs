//! The phase validator: what a descriptor has to be before it is signed.

use crate::error::Error;
use crate::types::{TransactionDataView, TxParams, TxParamsView};
use vstd::prelude::*;

verus! {

/// Something about a descriptor that is let through, and said aloud.
#[derive(Clone, Copy, Debug, PartialEq, Eq, Structural)]
pub enum Warning {
    /// The descriptor is marked as signed already.
    AlreadySigned,
    /// A fee-market body also names a gas price.
    SurplusGasPrice,
    /// A legacy body also names a fee-market field.
    SurplusFeeMarketField,
}

/// The body names every fee field that its type needs.
pub open spec fn fees_present(body: TransactionDataView) -> bool {
    ||| body.tx_type == 2 && body.max_fee_per_gas is Some && body.max_priority_fee_per_gas is Some
    ||| body.tx_type == 0 && body.gas_price is Some
}

/// The body names a fee field of the family that its type does not use.
pub open spec fn fees_surplus(body: TransactionDataView) -> bool {
    ||| body.tx_type == 2 && body.gas_price is Some
    ||| body.tx_type == 0 && (body.max_fee_per_gas is Some || body.max_priority_fee_per_gas is Some)
}

/// The warnings that a descriptor is let through with.
pub open spec fn warnings_of(d: TxParamsView) -> Seq<Warning> {
    let signed = if d.metadata.signed {
        seq![Warning::AlreadySigned]
    } else {
        Seq::<Warning>::empty()
    };
    let surplus = if !fees_surplus(d.transaction) {
        Seq::<Warning>::empty()
    } else if d.transaction.tx_type == 2 {
        seq![Warning::SurplusGasPrice]
    } else {
        seq![Warning::SurplusFeeMarketField]
    };
    signed + surplus
}

/// The validator's verdict. The checks, in order: the descriptor was
/// prepared; a type 2 body names both fee-market fields; a type 0 body names
/// the gas price; no other type passes. A field of the other family is let
/// through with a warning.
pub open spec fn validation(d: TxParamsView) -> Result<Seq<Warning>, Error> {
    let body = d.transaction;
    if !d.metadata.prepared {
        Err(Error::NotPrepared)
    } else if body.tx_type == 2 {
        if body.max_fee_per_gas is None || body.max_priority_fee_per_gas is None {
            Err(Error::MissingFeeMarketField)
        } else {
            Ok(warnings_of(d))
        }
    } else if body.tx_type == 0 {
        if body.gas_price is None {
            Err(Error::MissingGasPrice)
        } else {
            Ok(warnings_of(d))
        }
    } else {
        Err(Error::UnsupportedTransactionType { tx_type: body.tx_type })
    }
}

/// Checks a descriptor before it is signed. This is the one gate between a
/// malformed descriptor and a signature.
pub fn validate(tx_params: &TxParams) -> (r: Result<Vec<Warning>, Error>)
    ensures
        match r {
            Ok(warnings) => validation(tx_params@) == Ok::<Seq<Warning>, Error>(warnings@),
            Err(e) => validation(tx_params@) == Err::<Seq<Warning>, Error>(e),
        },
{
    let body = &tx_params.transaction;
    if !tx_params.metadata.prepared {
        return Err(Error::NotPrepared);
    }
    let mut warnings: Vec<Warning> = Vec::new();
    if tx_params.metadata.signed {
        warnings.push(Warning::AlreadySigned);
    }
    if body.tx_type == 2 {
        if body.max_fee_per_gas.is_none() || body.max_priority_fee_per_gas.is_none() {
            return Err(Error::MissingFeeMarketField);
        }
        if body.gas_price.is_some() {
            warnings.push(Warning::SurplusGasPrice);
        }
    } else if body.tx_type == 0 {
        if body.gas_price.is_none() {
            return Err(Error::MissingGasPrice);
        }
        if body.max_fee_per_gas.is_some() || body.max_priority_fee_per_gas.is_some() {
            warnings.push(Warning::SurplusFeeMarketField);
        }
    } else {
        return Err(Error::UnsupportedTransactionType { tx_type: body.tx_type });
    }
    assert(warnings@ =~= warnings_of(tx_params@));
    Ok(warnings)
}

/// A body that is priced as its type asks names the fee fields of its type
/// and no others. A prepared descriptor with such a body passes the validator
/// without a warning about its fees. A descriptor whose body lacks a fee
/// field of its type, or is of a type other than 0 and 2, is rejected.
pub proof fn lemma_validator_holds_fee_pairing(d: TxParamsView)
    ensures
        d.transaction.well_priced() && d.transaction.tx_type == 2 ==> d.transaction.max_fee_per_gas is Some
            && d.transaction.max_priority_fee_per_gas is Some && d.transaction.gas_price is None,
        d.transaction.well_priced() && d.transaction.tx_type == 0 ==> d.transaction.gas_price is Some
            && d.transaction.max_fee_per_gas is None && d.transaction.max_priority_fee_per_gas is None,
        d.transaction.well_priced() <==> fees_present(d.transaction) && !fees_surplus(d.transaction),
        d.metadata.prepared && d.transaction.well_priced() ==> validation(d) is Ok && !validation(
            d,
        )->Ok_0.contains(Warning::SurplusGasPrice) && !validation(d)->Ok_0.contains(
            Warning::SurplusFeeMarketField,
        ),
        !fees_present(d.transaction) ==> validation(d) is Err,
        validation(d) is Ok <==> d.metadata.prepared && fees_present(d.transaction),
{
    if d.metadata.prepared && d.transaction.well_priced() {
        let w = warnings_of(d);
        assert(forall|i: int| 0 <= i < w.len() ==> w[i] == Warning::AlreadySigned);
    }
}

/// The validator rejects every body that breaks the pairing of type and fee
/// fields, but for one that names all its own fields and one of the other
/// family besides: that one is let through, with a warning.
pub proof fn lemma_validator_rejects_broken_pairing(d: TxParamsView)
    requires
        !d.transaction.well_priced(),
        !(fees_present(d.transaction) && fees_surplus(d.transaction)),
    ensures
        validation(d) is Err,
{
}

} // verus!
