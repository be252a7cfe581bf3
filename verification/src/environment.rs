//! What a call sees of the world around it.
use crate::account::AccountId;
use vstd::prelude::*;

verus! {

/// The surroundings of one call: the account the code runs on, the account
/// that made the call, and the diagnostic lines written so far.
#[derive(Debug)]
pub struct Environment {
    /// The account on which the called code is deployed.
    pub current_account_id: AccountId,
    /// The account that made the call, directly.
    pub predecessor_account_id: AccountId,
    /// The diagnostic lines, oldest first.
    pub logs: Vec<String>,
}

/// An [`Environment`] as plain text.
#[verifier::ext_equal]
pub struct EnvironmentView {
    pub current_account_id: Seq<char>,
    pub predecessor_account_id: Seq<char>,
    pub logs: Seq<Seq<char>>,
}

impl EnvironmentView {
    /// The same surroundings with one more line at the end of the log.
    pub open spec fn log(self, line: Seq<char>) -> EnvironmentView {
        EnvironmentView { logs: self.logs.push(line), ..self }
    }
}

impl View for Environment {
    type V = EnvironmentView;

    open spec fn view(&self) -> EnvironmentView {
        EnvironmentView {
            current_account_id: self.current_account_id@,
            predecessor_account_id: self.predecessor_account_id@,
            logs: self.logs@.map_values(|line: String| line@),
        }
    }
}

impl Environment {
    /// The surroundings of a call that `predecessor_account_id` makes to the
    /// code on `current_account_id`, with nothing logged yet.
    pub fn new(current_account_id: AccountId, predecessor_account_id: AccountId) -> (env: Self)
        ensures
            env@ == (EnvironmentView {
                current_account_id: current_account_id@,
                predecessor_account_id: predecessor_account_id@,
                logs: Seq::empty(),
            }),
    {
        Environment { current_account_id, predecessor_account_id, logs: Vec::new() }
    }

    /// Writes one diagnostic line.
    pub fn log(&mut self, line: String)
        ensures
            final(self)@ == old(self)@.log(line@),
    {
        self.logs.push(line);
    }
}

} // verus!
