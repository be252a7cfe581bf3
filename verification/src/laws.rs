//! What holds of the receiver's answers, whatever the accounts and messages.
use crate::promise::PromiseOrValueView;
use crate::receiver::{approval_answer, cool, ok_go_answer, ok_go_call, ok_go_name, return_now, settled};
use vstd::prelude::*;

verus! {

/// The message `return-now`, and no other, is answered at once: with `cool`,
/// and without any call being deferred.
pub proof fn lemma_return_now_is_answered_at_once(current_account_id: Seq<char>, msg: Seq<char>)
    ensures
        msg == return_now() ==> approval_answer(current_account_id, msg)
            == PromiseOrValueView::Value(cool()),
        msg != return_now() ==> approval_answer(current_account_id, msg) is Promise,
{
}

/// Any other message is answered by one deferred call: to `ok_go`, on the
/// receiver's own account, with the message as it came, no tokens sent along,
/// no gas set aside and one share of the gas left unspent.
pub proof fn lemma_other_messages_are_deferred(current_account_id: Seq<char>, msg: Seq<char>)
    requires
        msg != return_now(),
    ensures
        approval_answer(current_account_id, msg) matches PromiseOrValueView::Promise(call) && {
            &&& call == ok_go_call(current_account_id, msg)
            &&& call.receiver_id == current_account_id
            &&& call.method_name == ok_go_name()
            &&& call.argument == msg
            &&& call.deposit == 0
            &&& call.static_gas == 0
            &&& call.gas_weight == 1
        },
{
}

/// Round trip: the deferred call hands the message to `ok_go`, and `ok_go`
/// hands it back, so the sender of a message other than `return-now` holds
/// that same message in the end.
pub proof fn lemma_deferred_message_comes_back(current_account_id: Seq<char>, msg: Seq<char>)
    requires
        msg != return_now(),
    ensures
        approval_answer(current_account_id, msg) matches PromiseOrValueView::Promise(call)
            && ok_go_answer(call.argument) == PromiseOrValueView::Value(msg),
        settled(approval_answer(current_account_id, msg)) == msg,
{
}

/// In the end the sender holds `cool` for the message `return-now` and the
/// message itself for any other.
pub proof fn lemma_settled_answer(current_account_id: Seq<char>, msg: Seq<char>)
    ensures
        settled(approval_answer(current_account_id, msg)) == if msg == return_now() {
            cool()
        } else {
            msg
        },
{
}

/// `ok_go` answers the same message with the same value every time, whoever
/// is asked and whatever was asked before; and handing it its own answer
/// changes nothing.
pub proof fn lemma_ok_go_repeats_itself(
    msg: Seq<char>,
    first: PromiseOrValueView,
    second: PromiseOrValueView,
)
    requires
        first == ok_go_answer(msg),
        second == ok_go_answer(msg),
    ensures
        first == second,
        first == PromiseOrValueView::Value(msg),
        ok_go_answer(first->Value_0) == first,
{
}

} // verus!
