//! The receiver and its two entry points.
use crate::account::AccountId;
use crate::environment::Environment;
use crate::promise::{Promise, PromiseOrValue, PromiseOrValueView, PromiseView};
use vstd::prelude::*;
use vstd::string::*;

verus! {

/// Why a call was turned down. A call that is turned down has no effect.
#[derive(Debug, Clone, Copy, PartialEq, Eq, Structural)]
pub enum ReceiverError {
    /// The instance had been set up before.
    AlreadyInitialized,
    /// The notification did not come from the trusted token contract.
    UnauthorizedCaller,
}

impl ReceiverError {
    /// The words that go with the refusal.
    pub open spec fn message_text(self) -> Seq<char> {
        match self {
            ReceiverError::AlreadyInitialized => "The contract has already been initialized"@,
            ReceiverError::UnauthorizedCaller => "Only supports the one non-fungible token contract"@,
        }
    }

    /// The words that go with the refusal.
    pub fn message(&self) -> (text: String)
        ensures
            text@ == self.message_text(),
    {
        match self {
            ReceiverError::AlreadyInitialized => String::from_str(
                "The contract has already been initialized",
            ),
            ReceiverError::UnauthorizedCaller => String::from_str(
                "Only supports the one non-fungible token contract",
            ),
        }
    }
}

/// The message that asks for an answer at once.
pub open spec fn return_now() -> Seq<char> {
    "return-now"@
}

/// The answer given at once.
pub open spec fn cool() -> Seq<char> {
    "cool"@
}

/// The name under which the receiver takes the call that it defers.
pub open spec fn ok_go_name() -> Seq<char> {
    "ok_go"@
}

/// The diagnostic line of an accepted notification.
pub open spec fn approval_log(
    sender_id: Seq<char>,
    previous_owner_id: Seq<char>,
    token_id: Seq<char>,
    msg: Seq<char>,
) -> Seq<char> {
    "in nft_on_approve; sender_id="@ + sender_id + ", previous_owner_id="@ + previous_owner_id
        + ", token_id="@ + token_id + ", msg="@ + msg
}

/// The diagnostic line of a deferred call.
pub open spec fn ok_go_log(msg: Seq<char>) -> Seq<char> {
    "in ok_go, msg="@ + msg
}

/// The call that the receiver on `current_account_id` defers for `msg`: to
/// itself, with the message as it came, no tokens sent along, no gas set aside
/// and all the gas that the notification leaves unspent.
pub open spec fn ok_go_call(current_account_id: Seq<char>, msg: Seq<char>) -> PromiseView {
    PromiseView {
        receiver_id: current_account_id,
        method_name: ok_go_name(),
        argument: msg,
        deposit: 0,
        static_gas: 0,
        gas_weight: 1,
    }
}

/// What the deferred call answers for `msg`: the message, at once.
pub open spec fn ok_go_answer(msg: Seq<char>) -> PromiseOrValueView {
    PromiseOrValueView::Value(msg)
}

/// What the receiver on `current_account_id` answers to a notification from
/// the token contract it trusts.
pub open spec fn approval_answer(
    current_account_id: Seq<char>,
    msg: Seq<char>,
) -> PromiseOrValueView {
    if msg == return_now() {
        PromiseOrValueView::Value(cool())
    } else {
        PromiseOrValueView::Promise(ok_go_call(current_account_id, msg))
    }
}

/// The value that the sender of a notification holds once nothing is pending
/// any more: the one given at once, or else the one that the deferred call
/// answers with.
pub open spec fn settled(answer: PromiseOrValueView) -> Seq<char>
    recommends
        answer matches PromiseOrValueView::Promise(call) ==> call.method_name == ok_go_name(),
{
    match answer {
        PromiseOrValueView::Value(value) => value,
        PromiseOrValueView::Promise(call) => ok_go_answer(call.argument)->Value_0,
    }
}

/// The interface through which the receiver calls itself back.
pub trait ValueReturnTrait {
    /// Hands `msg` back unchanged, and logs that it did.
    fn ok_go(&self, env: &mut Environment, msg: String) -> (answer: PromiseOrValue)
        ensures
            answer@ == ok_go_answer(msg@),
            final(env)@ == old(env)@.log(ok_go_log(msg@)),
    ;
}

/// A receiver of approval notifications. It holds the one account whose
/// notifications it accepts, and nothing else.
#[derive(Debug, PartialEq, Eq)]
pub struct ApprovalReceiver {
    non_fungible_token_account_id: AccountId,
}

impl ApprovalReceiver {
    /// The account whose notifications the receiver accepts.
    pub closed spec fn trusted_caller(&self) -> Seq<char> {
        self.non_fungible_token_account_id@
    }

    /// A receiver that trusts `non_fungible_token_account_id`.
    pub fn new(non_fungible_token_account_id: AccountId) -> (receiver: Self)
        ensures
            receiver.trusted_caller() == non_fungible_token_account_id@,
    {
        Self { non_fungible_token_account_id }
    }

    /// Sets up the instance held in `state`, once: an instance that has been
    /// set up stays as it is, and the call is turned down.
    pub fn init(
        state: &mut Option<ApprovalReceiver>,
        non_fungible_token_account_id: AccountId,
    ) -> (done: Result<(), ReceiverError>)
        ensures
            *old(state) is Some ==> {
                &&& done == Err::<(), ReceiverError>(ReceiverError::AlreadyInitialized)
                &&& *final(state) == *old(state)
            },
            *old(state) is None ==> {
                &&& done == Ok::<(), ReceiverError>(())
                &&& *final(state) matches Some(receiver)
                &&& receiver.trusted_caller() == non_fungible_token_account_id@
            },
    {
        if state.is_some() {
            return Err(ReceiverError::AlreadyInitialized);
        }
        *state = Some(ApprovalReceiver::new(non_fungible_token_account_id));
        Ok(())
    }

    /// The account whose notifications the receiver accepts.
    pub fn non_fungible_token_account_id(&self) -> (id: &AccountId)
        ensures
            id@ == self.trusted_caller(),
    {
        &self.non_fungible_token_account_id
    }

    /// Takes the notification that `owner_id` has approved the receiver for
    /// the token `token_id`, an approval that the token contract keeps under
    /// the number `approval_id`.
    ///
    /// Only the trusted token contract may send it: from any other caller the
    /// notification is turned down and nothing is logged. An accepted
    /// notification is logged, and then answered according to `msg`:
    /// * `return-now`: the value `cool`, at once;
    /// * anything else: `msg` itself, after one more call, which the receiver
    ///   addresses to `ok_go` on its own account.
    ///
    /// The receiver is the same before and after.
    #[allow(unused_variables)]
    pub fn nft_on_approve(
        &mut self,
        env: &mut Environment,
        token_id: String,
        owner_id: AccountId,
        approval_id: u64,
        msg: String,
    ) -> (answer: Result<PromiseOrValue, ReceiverError>)
        ensures
            *final(self) == *old(self),
            final(self).trusted_caller() == old(self).trusted_caller(),
            old(env)@.predecessor_account_id != old(self).trusted_caller() ==> {
                &&& answer == Err::<PromiseOrValue, ReceiverError>(ReceiverError::UnauthorizedCaller)
                &&& final(env)@ == old(env)@
            },
            old(env)@.predecessor_account_id == old(self).trusted_caller() ==> {
                &&& answer matches Ok(given)
                &&& given@ == approval_answer(old(env)@.current_account_id, msg@)
                &&& final(env)@ == old(env)@.log(
                    approval_log(old(env)@.predecessor_account_id, owner_id@, token_id@, msg@),
                )
            },
    {
        if env.predecessor_account_id != self.non_fungible_token_account_id {
            return Err(ReceiverError::UnauthorizedCaller);
        }
        let line = approval_log_line(&env.predecessor_account_id, &owner_id, &token_id, &msg);
        env.log(line);
        if msg == String::from_str("return-now") {
            Ok(PromiseOrValue::Value(String::from_str("cool")))
        } else {
            Ok(PromiseOrValue::Promise(ext_self_ok_go(env.current_account_id.clone(), msg)))
        }
    }
}

impl ValueReturnTrait for ApprovalReceiver {
    fn ok_go(&self, env: &mut Environment, msg: String) -> (answer: PromiseOrValue) {
        env.log(ok_go_log_line(&msg));
        PromiseOrValue::Value(msg)
    }
}

/// Writes out the diagnostic line of an accepted notification.
fn approval_log_line(
    sender_id: &AccountId,
    previous_owner_id: &AccountId,
    token_id: &String,
    msg: &String,
) -> (line: String)
    ensures
        line@ == approval_log(sender_id@, previous_owner_id@, token_id@, msg@),
{
    let mut line = String::from_str("in nft_on_approve; sender_id=");
    line.append(sender_id.as_str());
    line.append(", previous_owner_id=");
    line.append(previous_owner_id.as_str());
    line.append(", token_id=");
    line.append(token_id.as_str());
    line.append(", msg=");
    line.append(msg.as_str());
    line
}

/// Writes out the diagnostic line of a deferred call.
fn ok_go_log_line(msg: &String) -> (line: String)
    ensures
        line@ == ok_go_log(msg@),
{
    let mut line = String::from_str("in ok_go, msg=");
    line.append(msg.as_str());
    line
}

/// The call to `ok_go` on `account_id`, with nothing attached but the message
/// and a single share of the unspent gas.
fn ext_self_ok_go(account_id: AccountId, msg: String) -> (call: Promise)
    ensures
        call@ == ok_go_call(account_id@, msg@),
{
    Promise {
        receiver_id: account_id,
        method_name: String::from_str("ok_go"),
        argument: msg,
        deposit: 0,
        static_gas: 0,
        gas_weight: 1,
    }
}

} // verus!
