use bech32::FromBase32;
use exchange_place::address::Address;
use exchange_place::amount::Amount;
use exchange_place::barterswap::{ExchangeError, ExchangePlace, Transfer, FEE};
use exchange_place::structure_elements::{EsdtTokenPayment, TokenIdentifier};

const OWNER: [u8; 32] = [7u8; 32];
const BIDDER: &str = "erd1suej7d7yl5x95quuh38ur9x0vj2tdvy3rzuqx9n4dnulskyxvl0q0ec3n0";
const TAKER: &str = "erd16jruked88jgtsar78ej85hjp3qsd9jkjcw4swsn7k0teqh3wgcqqgyrupq";
const SC: &str = "erd1qqqqqqqqqqqqqpgq5cfxcvq5dqp290j2q9gw5yc8fcremmlqplkqtly3rs";

fn address(bech: &str) -> Address {
    let (_, data, _) = bech32::decode(bech).unwrap();
    let bytes = Vec::<u8>::from_base32(&data).unwrap();
    let array: [u8; 32] = bytes.try_into().unwrap();
    Address::new(array)
}

fn payment(token: &str, nonce: u64, amount: u64) -> EsdtTokenPayment {
    EsdtTokenPayment::new(
        TokenIdentifier::from_bytes(token.as_bytes().to_vec()),
        nonce,
        Amount::from_u64(amount),
    )
}

fn exchange() -> ExchangePlace {
    ExchangePlace::init(Address::new(OWNER))
}

fn is_amount(a: &Amount, v: u64) -> bool {
    a.same_value(&Amount::from_u64(v))
}

fn create(
    ex: &mut ExchangePlace,
    bidder: &str,
    token: &str,
    nonce: u64,
    amount: u64,
    price: u64,
    offer_id: u64,
    taker: &str,
) -> Result<(), ExchangeError> {
    ex.create_offer(
        address(bidder),
        offer_id,
        Amount::from_u64(price),
        address(taker),
        vec![payment(token, nonce, amount)],
    )
}

#[test]
fn init_unit_test() {
    let ex = exchange();
    assert_eq!(ex.get_owner().to_bytes(), OWNER);
    assert!(ex.find_element_by_key(1, address(BIDDER), address(TAKER)).is_none());
}

#[test]
fn create_and_take_offer_unit_test() {
    let mut ex = exchange();
    let amount: u64 = 100000000000;
    let price: u64 = 700000000000;
    assert!(create(&mut ex, BIDDER, "PROPO-123456", 0, amount, price, 1, TAKER).is_ok());
    let transfers = ex
        .take_offer(address(TAKER), 1, address(BIDDER), Amount::from_u64(price + FEE))
        .ok()
        .unwrap();
    assert_eq!(transfers.len(), 3);
    match &transfers[0] {
        Transfer::Esdt { to, token, nonce, amount: a } => {
            assert!(to.same_as(&address(TAKER)));
            assert_eq!(token.as_bytes(), &b"PROPO-123456".to_vec());
            assert_eq!(*nonce, 0);
            assert!(is_amount(a, amount));
        },
        Transfer::Egld { .. } => panic!("the token goes to the taker first"),
    }
    match &transfers[1] {
        Transfer::Egld { to, amount: a } => {
            assert!(to.same_as(&address(BIDDER)));
            assert!(is_amount(a, price));
        },
        Transfer::Esdt { .. } => panic!("the price goes to the bidder second"),
    }
    match &transfers[2] {
        Transfer::Egld { to, amount: a } => {
            assert_eq!(to.to_bytes(), OWNER);
            assert!(is_amount(a, FEE));
        },
        Transfer::Esdt { .. } => panic!("the fee goes to the owner last"),
    }
    assert!(ex.find_element_by_key(1, address(BIDDER), address(TAKER)).is_none());
}

#[test]
fn create_offer_max_price_unit_test() {
    let mut ex = exchange();
    assert!(create(&mut ex, BIDDER, "PROPO-123456", 0, 100000000000, u64::MAX, 1, TAKER).is_ok());
    let offer = ex.find_element_by_key(1, address(BIDDER), address(TAKER)).unwrap();
    assert!(is_amount(offer.get_price(), u64::MAX));
}

#[test]
fn create_offer_max_id_unit_test() {
    let mut ex = exchange();
    assert!(create(&mut ex, BIDDER, "PROPO-123456", 0, 100000000000, 700000000000, u64::MAX, TAKER)
        .is_ok());
    assert!(ex.find_element_by_key(u64::MAX, address(BIDDER), address(TAKER)).is_some());
}

#[test]
fn create_offer_max_nonce_unit_test() {
    let mut ex = exchange();
    assert!(create(&mut ex, BIDDER, "PROPO-123456", u64::MAX, 100000000000, 700000000000, 1, TAKER)
        .is_ok());
    let offer = ex.find_element_by_key(1, address(BIDDER), address(TAKER)).unwrap();
    assert_eq!(offer.get_nonce(), u64::MAX);
    assert!(is_amount(offer.get_amount(), 100000000000));
}

#[test]
fn create_offer_duplicated_unit_test() {
    let mut ex = exchange();
    assert!(create(&mut ex, BIDDER, "PROPO-123456", 0, 100000000000, 700000000000, 1, TAKER).is_ok());
    let second = create(&mut ex, BIDDER, "PROPO-179101", 0, 100000000000, 700000000000, 1, TAKER);
    assert!(matches!(second, Err(ExchangeError::DuplicateOffer)));
    assert_eq!(
        second.unwrap_err().message(),
        "Element already present. Try with different ID."
    );
    let offer = ex.find_element_by_key(1, address(BIDDER), address(TAKER)).unwrap();
    assert_eq!(offer.get_collection_id().as_bytes(), &b"PROPO-123456".to_vec());
}

#[test]
fn refund_offer_bad_address_unit_test() {
    let mut ex = exchange();
    assert!(create(&mut ex, BIDDER, "PROPO-123456", 0, 100000000000, 700000000000, 1, TAKER).is_ok());
    let r = ex.refund_offer(address(TAKER), 1, address(TAKER));
    assert!(matches!(r, Err(ExchangeError::OfferNotFound)));
}

#[test]
fn refund_offer_bad_offerid_unit_test() {
    let mut ex = exchange();
    assert!(create(&mut ex, BIDDER, "PROPO-123456", 0, 100000000000, 700000000000, 1, TAKER).is_ok());
    let r = ex.refund_offer(address(BIDDER), 2, address(TAKER));
    assert!(matches!(r, Err(ExchangeError::OfferNotFound)));
}

#[test]
fn take_offer_bad_offerid_unit_test() {
    let mut ex = exchange();
    assert!(create(&mut ex, BIDDER, "PROPO-123456", 0, 100000000000, 700000000000, 1, TAKER).is_ok());
    let r = ex.take_offer(address(TAKER), 2, address(BIDDER), Amount::from_u64(700000000000));
    assert!(matches!(r, Err(ExchangeError::OfferNotFound)));
}

#[test]
fn take_offer_bad_address_unit_test() {
    let mut ex = exchange();
    assert!(create(&mut ex, BIDDER, "PROPO-123456", 0, 100000000000, 700000000000, 1, TAKER).is_ok());
    let r = ex.take_offer(address(BIDDER), 1, address(BIDDER), Amount::from_u64(700000000000));
    assert!(matches!(r, Err(ExchangeError::OfferNotFound)));
}

#[test]
fn take_offer_invalid_payment_unit_test() {
    let mut ex = exchange();
    assert!(create(&mut ex, BIDDER, "PROPO-123456", 0, 100000000000, 700000000000, 1, TAKER).is_ok());
    let r = ex.take_offer(address(TAKER), 1, address(BIDDER), Amount::from_u64(700000000000 - 1));
    assert!(matches!(r, Err(ExchangeError::IncorrectPayment)));
}

#[test]
fn create_offer_bidder_sc_address_unit_test() {
    let mut ex = exchange();
    let r = create(&mut ex, SC, "PROPO-123456", 0, 100000000000, 700000000000, 1, TAKER);
    assert!(matches!(r, Err(ExchangeError::BidderIsContract)));
    assert!(ex.find_element_by_key(1, address(SC), address(TAKER)).is_none());
}

#[test]
fn create_offer_taker_sc_address_unit_test() {
    let mut ex = exchange();
    let r = create(&mut ex, BIDDER, "PROPO-123456", 0, 100000000000, 700000000000, 1, SC);
    assert!(matches!(r, Err(ExchangeError::TakerIsContract)));
    assert!(ex.find_element_by_key(1, address(BIDDER), address(SC)).is_none());
}

#[test]
fn create_and_take_offer_no_nft_unit_test() {
    let mut ex = exchange();
    let r = ex.create_offer(
        address(BIDDER),
        1,
        Amount::from_u64(700000000000),
        address(TAKER),
        Vec::new(),
    );
    assert!(matches!(r, Err(ExchangeError::InvalidPaymentArity)));
    let t = ex.take_offer(address(TAKER), 1, address(BIDDER), Amount::from_u64(700000000000 + FEE));
    assert!(matches!(t, Err(ExchangeError::OfferNotFound)));
}

#[test]
fn create_and_take_and_refund_offer_unit_test() {
    let mut ex = exchange();
    assert!(create(&mut ex, BIDDER, "PROPO-123456", 0, 100000000000, 700000000000, 1, TAKER).is_ok());
    let t = ex.take_offer(address(TAKER), 1, address(BIDDER), Amount::from_u64(700000000000 + FEE));
    assert!(t.is_ok());
    let r = ex.refund_offer(address(BIDDER), 1, address(TAKER));
    assert!(matches!(r, Err(ExchangeError::OfferNotFound)));
}

#[test]
fn create_multi_esdt_offer_unit_test() {
    let mut ex = exchange();
    let r = ex.create_offer(
        address(BIDDER),
        1,
        Amount::from_u64(700000000000),
        address(TAKER),
        vec![
            payment("PROPO-123456", 0, 100000000000),
            payment("PROPO-123456", 0, 100000000000),
        ],
    );
    assert!(matches!(r, Err(ExchangeError::InvalidPaymentArity)));
    assert!(ex.find_element_by_key(1, address(BIDDER), address(TAKER)).is_none());
}
