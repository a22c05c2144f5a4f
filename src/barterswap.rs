use vstd::prelude::*;

use crate::address::{is_contract_address, Address};
use crate::amount::Amount;
use crate::offer_store::OfferStore;
use crate::structure_elements::{
    EsdtTokenPayment, KeyElement, KeyView, MarketplaceElement, OfferView, PaymentView,
    TokenIdentifier,
};

verus! {

/// Fee that a taker pays on top of the price; it goes to the owner.
pub const FEE: u64 = 0;

/// Why an operation on the exchange failed.
#[derive(PartialEq, Eq, Structural, Clone, Copy, Debug)]
pub enum ExchangeError {
    /// `create_offer` did not receive exactly one token payment.
    InvalidPaymentArity,
    /// The bidder is a smart contract.
    BidderIsContract,
    /// The taker is a smart contract.
    TakerIsContract,
    /// An offer with the same id, bidder and taker is already pending.
    DuplicateOffer,
    /// No pending offer has the given id, bidder and taker.
    OfferNotFound,
    /// The payment is not exactly the price plus the fee.
    IncorrectPayment,
}

/// The diagnostic that a failed call aborts with.
pub open spec fn error_message(e: ExchangeError) -> Seq<char> {
    match e {
        ExchangeError::InvalidPaymentArity => "incorrect number of ESDT transfers"@,
        ExchangeError::BidderIsContract => "Bidder address is from a smart contract."@,
        ExchangeError::TakerIsContract => "Taker address is from a smart contract."@,
        ExchangeError::DuplicateOffer => "Element already present. Try with different ID."@,
        ExchangeError::OfferNotFound => "Offer not found."@,
        ExchangeError::IncorrectPayment => "Incorrect payment provided."@,
    }
}

impl ExchangeError {
    /// A short diagnostic naming the error.
    pub fn message(&self) -> (r: &'static str)
        ensures
            r@ == error_message(*self),
    {
        match self {
            ExchangeError::InvalidPaymentArity => "incorrect number of ESDT transfers",
            ExchangeError::BidderIsContract => "Bidder address is from a smart contract.",
            ExchangeError::TakerIsContract => "Taker address is from a smart contract.",
            ExchangeError::DuplicateOffer => "Element already present. Try with different ID.",
            ExchangeError::OfferNotFound => "Offer not found.",
            ExchangeError::IncorrectPayment => "Incorrect payment provided.",
        }
    }
}

/// A transfer, as a value.
pub enum TransferView {
    Esdt { to: Seq<u8>, token: Seq<u8>, nonce: u64, amount: nat },
    Egld { to: Seq<u8>, amount: nat },
}

/// A transfer that the host performs once an operation succeeds.
pub enum Transfer {
    /// Sends `amount` of the token `token` with nonce `nonce` to `to`.
    Esdt { to: Address, token: TokenIdentifier, nonce: u64, amount: Amount },
    /// Sends `amount` of the native currency to `to`.
    Egld { to: Address, amount: Amount },
}

impl View for Transfer {
    type V = TransferView;

    open spec fn view(&self) -> TransferView {
        match self {
            Transfer::Esdt { to, token, nonce, amount } => TransferView::Esdt {
                to: to@,
                token: token@,
                nonce: *nonce,
                amount: amount@,
            },
            Transfer::Egld { to, amount } => TransferView::Egld { to: to@, amount: amount@ },
        }
    }
}

pub open spec fn transfers_view(v: Seq<Transfer>) -> Seq<TransferView> {
    v.map_values(|t: Transfer| t@)
}

pub open spec fn payments_view(v: Seq<EsdtTokenPayment>) -> Seq<PaymentView> {
    v.map_values(|p: EsdtTokenPayment| p@)
}

/// The offers after `bidder` locks `payment` at `price` for `taker` under `offer_id`.
pub open spec fn insert_spec(
    m: Map<KeyView, OfferView>,
    payment: PaymentView,
    price: nat,
    offer_id: u64,
    bidder: Seq<u8>,
    taker: Seq<u8>,
) -> Result<Map<KeyView, OfferView>, ExchangeError> {
    if is_contract_address(bidder) {
        Err(ExchangeError::BidderIsContract)
    } else if is_contract_address(taker) {
        Err(ExchangeError::TakerIsContract)
    } else if m.contains_key((offer_id, bidder, taker)) {
        Err(ExchangeError::DuplicateOffer)
    } else {
        Ok(m.insert((offer_id, bidder, taker), (payment.0, payment.1, payment.2, price)))
    }
}

/// The offers after `caller` creates an offer with the token payments `payments`.
pub open spec fn create_spec(
    m: Map<KeyView, OfferView>,
    caller: Seq<u8>,
    offer_id: u64,
    price: nat,
    taker: Seq<u8>,
    payments: Seq<PaymentView>,
) -> Result<Map<KeyView, OfferView>, ExchangeError> {
    if payments.len() != 1 {
        Err(ExchangeError::InvalidPaymentArity)
    } else {
        insert_spec(m, payments[0], price, offer_id, caller, taker)
    }
}

/// The offers, and the transfer back to the bidder, after `caller` refunds an offer.
pub open spec fn refund_spec(
    m: Map<KeyView, OfferView>,
    caller: Seq<u8>,
    offer_id: u64,
    taker: Seq<u8>,
) -> Result<(Map<KeyView, OfferView>, TransferView), ExchangeError> {
    let key = (offer_id, caller, taker);
    if !m.contains_key(key) {
        Err(ExchangeError::OfferNotFound)
    } else {
        let o = m[key];
        Ok((m.remove(key), TransferView::Esdt { to: caller, token: o.0, nonce: o.1, amount: o.2 }))
    }
}

/// The offers, and the transfers, after `caller` takes an offer paying `payment`:
/// the token to the taker, the price to the bidder and the fee to the owner.
pub open spec fn take_spec(
    m: Map<KeyView, OfferView>,
    owner: Seq<u8>,
    caller: Seq<u8>,
    offer_id: u64,
    bidder: Seq<u8>,
    payment: nat,
) -> Result<(Map<KeyView, OfferView>, Seq<TransferView>), ExchangeError> {
    let key = (offer_id, bidder, caller);
    if !m.contains_key(key) {
        Err(ExchangeError::OfferNotFound)
    } else if payment != m[key].3 + FEE {
        Err(ExchangeError::IncorrectPayment)
    } else {
        let o = m[key];
        Ok(
            (
                m.remove(key),
                seq![
                    TransferView::Esdt { to: caller, token: o.0, nonce: o.1, amount: o.2 },
                    TransferView::Egld { to: bidder, amount: o.3 },
                    TransferView::Egld { to: owner, amount: FEE as nat },
                ],
            ),
        )
    }
}

/// The exchange: its owner, who receives the fees, and the pending offers.
pub struct ExchangePlace {
    owner: Address,
    marketplace_elements: OfferStore,
}

impl View for ExchangePlace {
    type V = Map<KeyView, OfferView>;

    closed spec fn view(&self) -> Map<KeyView, OfferView> {
        self.marketplace_elements@
    }
}

impl ExchangePlace {
    pub closed spec fn wf(&self) -> bool {
        self.marketplace_elements.wf()
    }

    /// The address that receives the fees.
    pub closed spec fn owner(&self) -> Seq<u8> {
        self.owner@
    }

    /// An exchange owned by `owner`, with no pending offers.
    pub fn init(owner: Address) -> (r: ExchangePlace)
        ensures
            r.wf(),
            r.owner() == owner@,
            r@ == Map::<KeyView, OfferView>::empty(),
    {
        ExchangePlace { owner, marketplace_elements: OfferStore::new() }
    }

    /// The pending offer under (`offer_id`, `bidder`, `taker`), if there is one.
    pub fn find_element_by_key(&self, offer_id: u64, bidder: Address, taker: Address) -> (r:
        Option<&MarketplaceElement>)
        requires
            self.wf(),
        ensures
            r is None <==> !self@.contains_key((offer_id, bidder@, taker@)),
            r matches Some(e) ==> e@ == self@[(offer_id, bidder@, taker@)],
    {
        let key = KeyElement::new(offer_id, bidder, taker);
        self.marketplace_elements.get(&key)
    }

    /// Takes out the pending offer under (`offer_id`, `bidder`, `taker`), if there is one.
    pub fn remove_element_by_key(&mut self, offer_id: u64, bidder: Address, taker: Address) -> (r:
        Option<MarketplaceElement>)
        requires
            old(self).wf(),
        ensures
            final(self).wf(),
            final(self).owner() == old(self).owner(),
            r is None <==> !old(self)@.contains_key((offer_id, bidder@, taker@)),
            r is None ==> final(self)@ == old(self)@,
            r matches Some(e) ==> e@ == old(self)@[(offer_id, bidder@, taker@)] && final(self)@
                == old(self)@.remove((offer_id, bidder@, taker@)),
    {
        let key = KeyElement::new(offer_id, bidder, taker);
        self.marketplace_elements.remove(&key)
    }

    /// Locks `payment` at `price` under (`offer_id`, `bidder`, `taker`). Both
    /// parties must be users rather than smart contracts, and the key must be free.
    pub fn insert_element(
        &mut self,
        payment: EsdtTokenPayment,
        price: Amount,
        offer_id: u64,
        bidder: Address,
        taker: Address,
    ) -> (r: Result<(), ExchangeError>)
        requires
            old(self).wf(),
        ensures
            final(self).wf(),
            final(self).owner() == old(self).owner(),
            match insert_spec(old(self)@, payment@, price@, offer_id, bidder@, taker@) {
                Ok(m) => r is Ok && final(self)@ == m,
                Err(e) => r == Err::<(), ExchangeError>(e) && final(self)@ == old(self)@,
            },
    {
        if bidder.is_smart_contract() {
            return Err(ExchangeError::BidderIsContract);
        }
        if taker.is_smart_contract() {
            return Err(ExchangeError::TakerIsContract);
        }
        let element = MarketplaceElement::new(
            payment.token_identifier,
            payment.token_nonce,
            payment.amount,
            price,
        );
        let key = KeyElement::new(offer_id, bidder, taker);
        if self.marketplace_elements.insert(key, element) {
            Err(ExchangeError::DuplicateOffer)
        } else {
            Ok(())
        }
    }

    /// The caller locks the single token payment attached to the call, to be
    /// taken by `taker` for `price` under `offer_id`. A failed call changes nothing.
    pub fn create_offer(
        &mut self,
        caller: Address,
        offer_id: u64,
        price: Amount,
        taker: Address,
        payments: Vec<EsdtTokenPayment>,
    ) -> (r: Result<(), ExchangeError>)
        requires
            old(self).wf(),
        ensures
            final(self).wf(),
            final(self).owner() == old(self).owner(),
            match create_spec(
                old(self)@,
                caller@,
                offer_id,
                price@,
                taker@,
                payments_view(payments@),
            ) {
                Ok(m) => r is Ok && final(self)@ == m,
                Err(e) => r == Err::<(), ExchangeError>(e) && final(self)@ == old(self)@,
            },
    {
        let mut payments = payments;
        if payments.len() != 1 {
            return Err(ExchangeError::InvalidPaymentArity);
        }
        let ghost attached = payments@;
        match payments.pop() {
            Some(payment) => {
                assert(payments_view(attached)[0] == payment@);
                self.insert_element(payment, price, offer_id, caller, taker)
            },
            None => Err(ExchangeError::InvalidPaymentArity),
        }
    }

    /// The caller, as bidder, takes back the offer it made to `taker` under
    /// `offer_id`; the result is the transfer that returns the locked token.
    pub fn refund_offer(&mut self, caller: Address, offer_id: u64, taker: Address) -> (r: Result<
        Transfer,
        ExchangeError,
    >)
        requires
            old(self).wf(),
        ensures
            final(self).wf(),
            final(self).owner() == old(self).owner(),
            match refund_spec(old(self)@, caller@, offer_id, taker@) {
                Ok((m, t)) => r matches Ok(rt) && rt@ == t && final(self)@ == m,
                Err(e) => r matches Err(re) && re == e && final(self)@ == old(self)@,
            },
    {
        match self.remove_element_by_key(offer_id, caller, taker) {
            Some(element) => {
                let (token, nonce, amount, _price) = element.into_parts();
                Ok(Transfer::Esdt { to: caller, token, nonce, amount })
            },
            None => Err(ExchangeError::OfferNotFound),
        }
    }

    /// The caller, as taker, takes the offer that `bidder` made to it under
    /// `offer_id`, paying `payment`, which must be the price plus the fee. The
    /// result is the transfers to perform: the token to the caller, the price
    /// to the bidder, the fee to the owner. A failed call changes nothing.
    pub fn take_offer(&mut self, caller: Address, offer_id: u64, bidder: Address, payment: Amount) -> (r:
        Result<Vec<Transfer>, ExchangeError>)
        requires
            old(self).wf(),
        ensures
            final(self).wf(),
            final(self).owner() == old(self).owner(),
            match take_spec(old(self)@, old(self).owner(), caller@, offer_id, bidder@, payment@) {
                Ok((m, ts)) => r matches Ok(rt) && transfers_view(rt@) == ts && final(self)@ == m,
                Err(e) => r matches Err(re) && re == e && final(self)@ == old(self)@,
            },
    {
        match self.remove_element_by_key(offer_id, bidder, caller) {
            None => Err(ExchangeError::OfferNotFound),
            Some(element) => {
                let ghost key = (offer_id, bidder@, caller@);
                let due = element.get_price().add_u64(FEE);
                if !payment.same_value(&due) {
                    let restored = KeyElement::new(offer_id, bidder, caller);
                    let _ = self.marketplace_elements.insert(restored, element);
                    assert(self@ =~= old(self)@);
                    return Err(ExchangeError::IncorrectPayment);
                }
                let (token, nonce, amount, price) = element.into_parts();
                let mut transfers: Vec<Transfer> = Vec::new();
                transfers.push(Transfer::Esdt { to: caller, token, nonce, amount });
                transfers.push(Transfer::Egld { to: bidder, amount: price });
                transfers.push(Transfer::Egld { to: self.owner, amount: Amount::from_u64(FEE) });
                assert(transfers_view(transfers@) =~= take_spec(
                    old(self)@,
                    old(self).owner(),
                    caller@,
                    offer_id,
                    bidder@,
                    payment@,
                )->Ok_0.1);
                Ok(transfers)
            },
        }
    }

    pub fn get_owner(&self) -> (r: Address)
        ensures
            r@ == self.owner(),
    {
        self.owner
    }
}

} // verus!
