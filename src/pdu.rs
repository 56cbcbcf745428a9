//! Decoding of SMS-DELIVER PDUs, done by huawei-modem.

use huawei_modem::errors::HuaweiError;
use huawei_modem::pdu::DeliverPdu;
use std::convert::TryFrom;
use vstd::prelude::*;

verus! {

#[verifier::external_type_specification]
#[verifier::external_body]
pub struct ExDeliverPdu(DeliverPdu);

#[verifier::external_type_specification]
#[verifier::external_body]
pub struct ExHuaweiError(HuaweiError);

/// Whether huawei-modem accepts `b` as an SMS-DELIVER PDU.
pub uninterp spec fn pdu_decodes(b: Seq<u8>) -> bool;

/// Relies on huawei-modem's `DeliverPdu::try_from(&[u8])`: whether it parses
/// depends on the bytes alone, and an empty input is refused.
#[verifier::external_body]
pub(crate) fn decode_pdu(b: &[u8]) -> (r: Result<DeliverPdu, HuaweiError>)
    ensures
        r is Ok <==> pdu_decodes(b@),
        b@.len() == 0 ==> r is Err,
{
    DeliverPdu::try_from(b)
}

} // verus!
