use vstd::prelude::*;

use crate::address::is_contract_address;
use crate::barterswap::{create_spec, refund_spec, take_spec, ExchangeError, FEE};
use crate::structure_elements::{KeyView, OfferView, PaymentView};

verus! {

/// Once an offer is created under (offer_id, bidder, taker), a second create
/// under the same triple fails with `DuplicateOffer`, whatever token and price
/// it carries.
pub proof fn lemma_create_unique(
    m: Map<KeyView, OfferView>,
    bidder: Seq<u8>,
    offer_id: u64,
    taker: Seq<u8>,
    price1: nat,
    payments1: Seq<PaymentView>,
    price2: nat,
    payments2: Seq<PaymentView>,
)
    requires
        create_spec(m, bidder, offer_id, price1, taker, payments1) is Ok,
        payments2.len() == 1,
    ensures
        create_spec(
            create_spec(m, bidder, offer_id, price1, taker, payments1)->Ok_0,
            bidder,
            offer_id,
            price2,
            taker,
            payments2,
        ) == Err::<Map<KeyView, OfferView>, ExchangeError>(ExchangeError::DuplicateOffer),
{
}

/// A created offer can be refunded by its bidder.
pub proof fn lemma_created_offer_refundable(
    m: Map<KeyView, OfferView>,
    bidder: Seq<u8>,
    offer_id: u64,
    taker: Seq<u8>,
    price: nat,
    payments: Seq<PaymentView>,
)
    requires
        create_spec(m, bidder, offer_id, price, taker, payments) is Ok,
    ensures
        refund_spec(
            create_spec(m, bidder, offer_id, price, taker, payments)->Ok_0,
            bidder,
            offer_id,
            taker,
        ) is Ok,
{
}

/// A created offer can be taken by its taker paying the price plus the fee.
pub proof fn lemma_created_offer_takeable(
    m: Map<KeyView, OfferView>,
    owner: Seq<u8>,
    bidder: Seq<u8>,
    offer_id: u64,
    taker: Seq<u8>,
    price: nat,
    payments: Seq<PaymentView>,
)
    requires
        create_spec(m, bidder, offer_id, price, taker, payments) is Ok,
    ensures
        take_spec(
            create_spec(m, bidder, offer_id, price, taker, payments)->Ok_0,
            owner,
            taker,
            offer_id,
            bidder,
            (price + FEE) as nat,
        ) is Ok,
{
}

/// After an offer is taken, neither a refund nor another take of it succeeds:
/// both fail with `OfferNotFound`.
pub proof fn lemma_no_release_after_take(
    m: Map<KeyView, OfferView>,
    owner: Seq<u8>,
    bidder: Seq<u8>,
    offer_id: u64,
    taker: Seq<u8>,
    payment: nat,
    later_payment: nat,
)
    requires
        take_spec(m, owner, taker, offer_id, bidder, payment) is Ok,
    ensures
        ({
            let after = take_spec(m, owner, taker, offer_id, bidder, payment)->Ok_0.0;
            &&& refund_spec(after, bidder, offer_id, taker) matches Err(e) && e
                == ExchangeError::OfferNotFound
            &&& take_spec(after, owner, taker, offer_id, bidder, later_payment) matches Err(e) && e
                == ExchangeError::OfferNotFound
        }),
{
}

/// After an offer is refunded, neither a take nor another refund of it
/// succeeds: both fail with `OfferNotFound`.
pub proof fn lemma_no_release_after_refund(
    m: Map<KeyView, OfferView>,
    owner: Seq<u8>,
    bidder: Seq<u8>,
    offer_id: u64,
    taker: Seq<u8>,
    payment: nat,
)
    requires
        refund_spec(m, bidder, offer_id, taker) is Ok,
    ensures
        ({
            let after = refund_spec(m, bidder, offer_id, taker)->Ok_0.0;
            &&& refund_spec(after, bidder, offer_id, taker) matches Err(e) && e
                == ExchangeError::OfferNotFound
            &&& take_spec(after, owner, taker, offer_id, bidder, payment) matches Err(e) && e
                == ExchangeError::OfferNotFound
        }),
{
}

/// Taking a pending offer succeeds exactly when the payment is the price plus
/// the fee; any other payment, smaller or larger, fails with `IncorrectPayment`.
pub proof fn lemma_take_payment_exact(
    m: Map<KeyView, OfferView>,
    owner: Seq<u8>,
    caller: Seq<u8>,
    offer_id: u64,
    bidder: Seq<u8>,
    payment: nat,
)
    requires
        m.contains_key((offer_id, bidder, caller)),
    ensures
        take_spec(m, owner, caller, offer_id, bidder, payment) is Ok <==> payment == m[(
            offer_id,
            bidder,
            caller,
        )].3 + FEE,
        take_spec(m, owner, caller, offer_id, bidder, payment) is Err ==> take_spec(
            m,
            owner,
            caller,
            offer_id,
            bidder,
            payment,
        )->Err_0 == ExchangeError::IncorrectPayment,
{
}

/// With a single token payment attached, create fails with `BidderIsContract`
/// exactly when the bidder is a smart contract, and with `TakerIsContract`
/// exactly when the bidder is not but the taker is, whatever the token and price.
pub proof fn lemma_guard_enforcement(
    m: Map<KeyView, OfferView>,
    bidder: Seq<u8>,
    offer_id: u64,
    price: nat,
    taker: Seq<u8>,
    payments: Seq<PaymentView>,
)
    requires
        payments.len() == 1,
    ensures
        (create_spec(m, bidder, offer_id, price, taker, payments) == Err::<
            Map<KeyView, OfferView>,
            ExchangeError,
        >(ExchangeError::BidderIsContract)) <==> is_contract_address(bidder),
        (create_spec(m, bidder, offer_id, price, taker, payments) == Err::<
            Map<KeyView, OfferView>,
            ExchangeError,
        >(ExchangeError::TakerIsContract)) <==> (!is_contract_address(bidder)
            && is_contract_address(taker)),
{
}

/// A refund succeeds only for a caller who is the bidder of a pending offer
/// with that id and taker, and a take only for a caller who is its taker.
pub proof fn lemma_authorization(
    m: Map<KeyView, OfferView>,
    owner: Seq<u8>,
    caller: Seq<u8>,
    offer_id: u64,
    other: Seq<u8>,
    payment: nat,
)
    ensures
        refund_spec(m, caller, offer_id, other) is Ok ==> m.contains_key((offer_id, caller, other)),
        take_spec(m, owner, caller, offer_id, other, payment) is Ok ==> m.contains_key(
            (offer_id, other, caller),
        ),
{
}

/// Any offer id and any price are accepted: with one token payment, user
/// addresses and a free key, create stores the offer with that price.
pub proof fn lemma_create_accepts_any_id_and_price(
    m: Map<KeyView, OfferView>,
    bidder: Seq<u8>,
    offer_id: u64,
    price: nat,
    taker: Seq<u8>,
    payments: Seq<PaymentView>,
)
    requires
        payments.len() == 1,
        !is_contract_address(bidder),
        !is_contract_address(taker),
        !m.contains_key((offer_id, bidder, taker)),
    ensures
        create_spec(m, bidder, offer_id, price, taker, payments) matches Ok(after) && after[(
            offer_id,
            bidder,
            taker,
        )].3 == price,
{
}

} // verus!
