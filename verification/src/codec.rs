//! The calls into `fadroma` and the formatting machinery of `std`. Their
//! contracts are taken on trust: nothing in this crate proves them.

use vstd::prelude::*;

verus! {

/// `StdError` of `fadroma::cosmwasm_std`: the failure that its calls hand
/// back. It is carried through and never looked into.
#[verifier::external_type_specification]
#[verifier::external_body]
pub struct ExStdError(fadroma::cosmwasm_std::StdError);

/// The address that a payload holds when read as JSON, if it holds one.
pub uninterp spec fn address_in_payload(data: Seq<u8>) -> Option<Seq<char>>;

/// The JSON payload that stands for an address.
pub uninterp spec fn payload_of_address(address: Seq<char>) -> Seq<u8>;

/// Whether a viewing key hashes to the given stored bytes.
pub uninterp spec fn viewing_key_opens(key: Seq<char>, hashed: Seq<u8>) -> bool;

/// The digit `d` (below ten) as a character.
pub open spec fn digit(d: nat) -> char {
    (('0' as u8) + d) as char
}

/// A number in decimal, without leading zeros.
pub open spec fn decimal(n: nat) -> Seq<char>
    decreases n,
{
    if n < 10 {
        seq![digit(n)]
    } else {
        decimal(n / 10).push(digit(n % 10))
    }
}

/// A label that shows a name and two numbers.
pub open spec fn label_text(name: Seq<char>, started: nat, ending: nat) -> Seq<char> {
    "Auction: "@ + name + ", started at: "@ + decimal(started) + ", ending at "@ + decimal(ending)
}

/// `fadroma::cosmwasm_std::from_binary`, asked for an `Addr`. The claim is
/// only that the outcome is a function of the bytes: the same payload always
/// gives the same address, or always fails.
#[verifier::external_body]
pub(crate) fn decode_address(data: &Vec<u8>) -> (r: Result<String, fadroma::cosmwasm_std::StdError>)
    ensures
        match r {
            Ok(address) => address_in_payload(data@) == Some(address@),
            Err(_) => address_in_payload(data@) is None,
        },
{
    let payload = fadroma::cosmwasm_std::Binary(data.clone());
    match fadroma::cosmwasm_std::from_binary::<fadroma::cosmwasm_std::Addr>(&payload) {
        Ok(address) => Ok(address.into_string()),
        Err(e) => Err(e),
    }
}

/// `fadroma::cosmwasm_std::to_binary`, given an `Addr`. The claim is that
/// it succeeds, since nothing in writing a string as JSON can fail, and
/// that the payload is a function of the address.
#[verifier::external_body]
pub(crate) fn encode_address(address: &String) -> (r: Result<
    Vec<u8>,
    fadroma::cosmwasm_std::StdError,
>)
    ensures
        match r {
            Ok(data) => data@ == payload_of_address(address@),
            Err(_) => false,
        },
{
    let address = fadroma::cosmwasm_std::Addr::unchecked(address.clone());
    match fadroma::cosmwasm_std::to_binary(&address) {
        Ok(payload) => Ok(payload.0),
        Err(e) => Err(e),
    }
}

/// `ViewingKey::check_hashed` of `fadroma`, on the stored bytes read as a
/// `ViewingKeyHashed`. The claim is that the answer is a function of the
/// key and the bytes, and that bytes which are no hash, being of another
/// length than 32, open nothing.
#[verifier::external_body]
pub(crate) fn check_viewing_key(key: &String, hashed: &Vec<u8>) -> (opens: bool)
    ensures
        opens == viewing_key_opens(key@, hashed@),
        hashed@.len() != 32 ==> !opens,
{
    match fadroma::scrt::vk::ViewingKeyHashed::try_from(hashed.as_slice()) {
        Ok(stored) => fadroma::scrt::vk::ViewingKey(key.clone()).check_hashed(&stored),
        Err(_) => false,
    }
}

/// `ViewingKeyHashed::check` of `fadroma`, on two hashes of nothing: the
/// comparison that a refused caller is made to wait for, so that a refusal
/// takes its time whether or not a key is stored. Nothing is claimed of it.
#[verifier::external_body]
pub(crate) fn compare_nothing() {
    let nothing = fadroma::scrt::vk::ViewingKeyHashed::default();
    nothing.check(&fadroma::scrt::vk::ViewingKeyHashed::default());
}

/// `format!` of `std`, on a name, a block height and the sum of two block
/// heights. The claim is that a `String` is shown as it is and a number in
/// decimal, without leading zeros.
#[verifier::external_body]
pub(crate) fn format_label(name: &String, started: u64, ending: u128) -> (label: String)
    ensures
        label@ == label_text(name@, started as nat, ending as nat),
{
    format!("Auction: {}, started at: {}, ending at {}", name, started, ending)
}

} // verus!
