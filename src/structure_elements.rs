use vstd::prelude::*;

use crate::address::Address;
use crate::amount::Amount;

verus! {

/// An offer key as a value: offer id, bidder, taker.
pub type KeyView = (u64, Seq<u8>, Seq<u8>);

/// A locked offer as a value: token identifier, nonce, amount, price.
pub type OfferView = (Seq<u8>, u64, nat, nat);

/// An incoming token payment as a value: token identifier, nonce, amount.
pub type PaymentView = (Seq<u8>, u64, nat);

/// The identifier of a token collection, such as `ABCDE-123456`.
pub struct TokenIdentifier {
    bytes: Vec<u8>,
}

impl View for TokenIdentifier {
    type V = Seq<u8>;

    closed spec fn view(&self) -> Seq<u8> {
        self.bytes@
    }
}

impl TokenIdentifier {
    pub fn from_bytes(bytes: Vec<u8>) -> (r: TokenIdentifier)
        ensures
            r@ == bytes@,
    {
        TokenIdentifier { bytes }
    }

    pub fn as_bytes(&self) -> (r: &Vec<u8>)
        ensures
            r@ == self@,
    {
        &self.bytes
    }
}

/// A token payment attached to a call.
pub struct EsdtTokenPayment {
    pub token_identifier: TokenIdentifier,
    pub token_nonce: u64,
    pub amount: Amount,
}

impl View for EsdtTokenPayment {
    type V = PaymentView;

    open spec fn view(&self) -> PaymentView {
        (self.token_identifier@, self.token_nonce, self.amount@)
    }
}

impl EsdtTokenPayment {
    pub fn new(token_identifier: TokenIdentifier, token_nonce: u64, amount: Amount) -> (r:
        EsdtTokenPayment)
        ensures
            r@ == (token_identifier@, token_nonce, amount@),
    {
        EsdtTokenPayment { token_identifier, token_nonce, amount }
    }
}

/// The key of an offer: the offer id with the bidder and taker addresses.
pub struct KeyElement {
    offer_id: u64,
    bidder_address: Address,
    taker_address: Address,
}

impl View for KeyElement {
    type V = KeyView;

    closed spec fn view(&self) -> KeyView {
        (self.offer_id, self.bidder_address@, self.taker_address@)
    }
}

impl KeyElement {
    pub fn new(offer_id: u64, bidder_address: Address, taker_address: Address) -> (r: KeyElement)
        ensures
            r@ == (offer_id, bidder_address@, taker_address@),
    {
        KeyElement { offer_id, bidder_address, taker_address }
    }

    pub fn get_offer_id(&self) -> (r: u64)
        ensures
            r == self@.0,
    {
        self.offer_id
    }

    pub fn get_bidder_address(&self) -> (r: &Address)
        ensures
            r@ == self@.1,
    {
        &self.bidder_address
    }

    pub fn get_taker_address(&self) -> (r: &Address)
        ensures
            r@ == self@.2,
    {
        &self.taker_address
    }

    /// Whether the two keys name the same offer.
    pub fn same_key(&self, other: &KeyElement) -> (r: bool)
        ensures
            r == (self@ == other@),
    {
        self.offer_id == other.offer_id && self.bidder_address.same_as(&other.bidder_address)
            && self.taker_address.same_as(&other.taker_address)
    }
}

/// A locked offer: the escrowed token, its amount and the asked price.
pub struct MarketplaceElement {
    collection_id: TokenIdentifier,
    nonce: u64,
    amount: Amount,
    price: Amount,
}

impl View for MarketplaceElement {
    type V = OfferView;

    closed spec fn view(&self) -> OfferView {
        (self.collection_id@, self.nonce, self.amount@, self.price@)
    }
}

impl MarketplaceElement {
    pub fn new(collection_id: TokenIdentifier, nonce: u64, amount: Amount, price: Amount) -> (r:
        MarketplaceElement)
        ensures
            r@ == (collection_id@, nonce, amount@, price@),
    {
        MarketplaceElement { collection_id, nonce, amount, price }
    }

    pub fn get_collection_id(&self) -> (r: &TokenIdentifier)
        ensures
            r@ == self@.0,
    {
        &self.collection_id
    }

    pub fn get_nonce(&self) -> (r: u64)
        ensures
            r == self@.1,
    {
        self.nonce
    }

    pub fn get_amount(&self) -> (r: &Amount)
        ensures
            r@ == self@.2,
    {
        &self.amount
    }

    pub fn get_price(&self) -> (r: &Amount)
        ensures
            r@ == self@.3,
    {
        &self.price
    }

    /// Takes the offer apart into its token identifier, nonce, amount and price.
    pub fn into_parts(self) -> (r: (TokenIdentifier, u64, Amount, Amount))
        ensures
            (r.0@, r.1, r.2@, r.3@) == self@,
    {
        (self.collection_id, self.nonce, self.amount, self.price)
    }
}

} // verus!
