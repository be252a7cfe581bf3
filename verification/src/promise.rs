//! Answers that may still be on their way.
use crate::account::AccountId;
use vstd::prelude::*;

verus! {

/// One function call that is to be made later, on behalf of the code that
/// asked for it.
#[derive(Debug, PartialEq, Eq)]
pub struct Promise {
    /// The account on which the function is called.
    pub receiver_id: AccountId,
    /// The name of the function.
    pub method_name: String,
    /// The argument handed to the function.
    pub argument: String,
    /// The amount of tokens sent along.
    pub deposit: u128,
    /// The gas set aside for the call whatever else is left.
    pub static_gas: u64,
    /// The share of the gas left unspent that goes to the call, relative to
    /// the weights of the other calls made from the same place.
    pub gas_weight: u64,
}

/// A [`Promise`] as plain text and numbers.
#[verifier::ext_equal]
pub struct PromiseView {
    pub receiver_id: Seq<char>,
    pub method_name: Seq<char>,
    pub argument: Seq<char>,
    pub deposit: u128,
    pub static_gas: u64,
    pub gas_weight: u64,
}

impl View for Promise {
    type V = PromiseView;

    open spec fn view(&self) -> PromiseView {
        PromiseView {
            receiver_id: self.receiver_id@,
            method_name: self.method_name@,
            argument: self.argument@,
            deposit: self.deposit,
            static_gas: self.static_gas,
            gas_weight: self.gas_weight,
        }
    }
}

/// The answer to a call: either the value itself, or the call whose answer
/// will stand for it. Never both, and never neither.
#[derive(Debug, PartialEq, Eq)]
pub enum PromiseOrValue {
    /// The answer is pending: it is whatever the promised call returns, once
    /// that call has been made, and there is none for as long as it has not.
    Promise(Promise),
    /// The answer is this value, now.
    Value(String),
}

/// A [`PromiseOrValue`] as plain text and numbers.
#[verifier::ext_equal]
pub enum PromiseOrValueView {
    Promise(PromiseView),
    Value(Seq<char>),
}

impl View for PromiseOrValue {
    type V = PromiseOrValueView;

    open spec fn view(&self) -> PromiseOrValueView {
        match self {
            PromiseOrValue::Promise(promise) => PromiseOrValueView::Promise(promise@),
            PromiseOrValue::Value(value) => PromiseOrValueView::Value(value@),
        }
    }
}

} // verus!
