//! The spaces screen: looking a space up, and the open / bid / claim /
//! transfer forms its lifecycle stage offers.

use vstd::prelude::*;
use vstd::string::*;

use crate::client::RemoteError;
use crate::slabel::{is_valid_slabel, valid_space_label};
use crate::state::{Covenant, SpacesCollection};
use crate::types::{
    all_digits, amount_from_str, dec_val, fee_rate_from_str, fee_rate_opt_matches, is_amount_input,
    is_fee_rate_input, is_recipient_input, is_slabel_input, recipient_from_str, valid_amount,
    valid_fee_rate, valid_recipient, Amount, FeeRate,
};

verus! {

/// UI-local state of the spaces screen.
pub struct State {
    /// The space name being looked at; empty shows the overview lists.
    pub space: String,
    pub amount: String,
    pub recipient: String,
    pub fee_rate: String,
    pub error: Option<String>,
}

impl Default for State {
    fn default() -> (d: State)
        ensures
            d.space@.len() == 0,
            d.amount@.len() == 0,
            d.recipient@.len() == 0,
            d.fee_rate@.len() == 0,
            d.error is None,
    {
        State {
            space: String::new(),
            amount: String::new(),
            recipient: String::new(),
            fee_rate: String::new(),
            error: None,
        }
    }
}

pub enum Message {
    SLabelSet(String),
    SpaceInput(String),
    AmountInput(String),
    RecipientInput(String),
    FeeRateInput(String),
    OpenSubmit,
    BidSubmit,
    ClaimSubmit,
    TransferSubmit,
    ClientResult(Result<(), RemoteError>),
}

#[derive(Debug, PartialEq, Eq)]
pub enum Task {
    Nothing,
    GetSpaceInfo { slabel: String },
    OpenSpace { slabel: String, amount: Amount, fee_rate: Option<FeeRate> },
    BidSpace { slabel: String, amount: Amount, fee_rate: Option<FeeRate> },
    ClaimSpace { slabel: String, fee_rate: Option<FeeRate> },
    TransferSpace { slabel: String, recipient: String, fee_rate: Option<FeeRate> },
    ShowTransactions,
}

/// What the main area of the screen shows for the space under the cursor.
#[derive(Debug, PartialEq, Eq)]
pub enum SpaceViewKind {
    /// The name is malformed or reserved.
    Invalid,
    /// A fetch is in flight or was never issued.
    Loading,
    /// The space is unclaimed: show the open form.
    Open,
    /// Under auction: show the bid form.
    Bid { claim_height: Option<u32>, total_burned: u64, is_winning: bool },
    /// The auction ended: the winner may claim, others may still outbid.
    Claim { total_burned: u64, is_winning: bool },
    /// Registered: the owner may transfer it.
    Registered { expire_height: u32, is_owned: bool },
    /// Reserved by the protocol.
    Locked,
}

pub open spec fn open_form_ready(s: State) -> bool {
    valid_space_label(s.space@) && valid_amount(s.amount@) && valid_fee_rate(s.fee_rate@)
}

pub open spec fn claim_form_ready(s: State) -> bool {
    valid_space_label(s.space@) && valid_fee_rate(s.fee_rate@)
}

pub open spec fn transfer_form_ready(s: State) -> bool {
    valid_space_label(s.space@) && valid_recipient(s.recipient@) && valid_fee_rate(s.fee_rate@)
}

/// Exactly how one message changes the screen and which action it
/// yields.
pub open spec fn update_rel(pre: State, message: Message, post: State, t: Task) -> bool {
    &&& post.error == (match message {
                Message::ClientResult(Err(RemoteError::Business { code, message: m })) => Some(m),
                _ => None::<String>,
            })
    &&& post.space@ == (match message {
                Message::SLabelSet(l) => l@,
                Message::SpaceInput(s) => if crate::types::slabel_input_chars(s@) {
                    s@
                } else {
                    pre.space@
                },
                _ => pre.space@,
            })
    &&& post.amount@ == (match message {
                Message::AmountInput(s) => if all_digits(s@) {
                    s@
                } else {
                    pre.amount@
                },
                Message::ClientResult(Ok(())) => Seq::<char>::empty(),
                _ => pre.amount@,
            })
    &&& post.recipient@ == (match message {
                Message::RecipientInput(s) => if crate::types::recipient_input_chars(s@) {
                    s@
                } else {
                    pre.recipient@
                },
                Message::ClientResult(Ok(())) => Seq::<char>::empty(),
                _ => pre.recipient@,
            })
    &&& post.fee_rate@ == (match message {
                Message::FeeRateInput(s) => if all_digits(s@) {
                    s@
                } else {
                    pre.fee_rate@
                },
                Message::ClientResult(Ok(())) => Seq::<char>::empty(),
                _ => pre.fee_rate@,
            })
    &&& match message {
                Message::SLabelSet(l) => t == (Task::GetSpaceInfo { slabel: l }),
                Message::SpaceInput(s) => if crate::types::slabel_input_chars(s@)
                    && valid_space_label(s@) {
                    t matches Task::GetSpaceInfo { slabel } && slabel@ == s@
                } else {
                    t == Task::Nothing
                },
                Message::OpenSubmit => if open_form_ready(pre) {
                    t matches Task::OpenSpace { slabel, amount, fee_rate } && slabel@ == pre.space@ && amount.spec_sats() == dec_val(pre.amount@)
                        && fee_rate_opt_matches(pre.fee_rate@, fee_rate)
                } else {
                    t == Task::Nothing
                },
                Message::BidSubmit => if open_form_ready(pre) {
                    t matches Task::BidSpace { slabel, amount, fee_rate } && slabel@ == pre.space@ && amount.spec_sats() == dec_val(pre.amount@)
                        && fee_rate_opt_matches(pre.fee_rate@, fee_rate)
                } else {
                    t == Task::Nothing
                },
                Message::ClaimSubmit => if claim_form_ready(pre) {
                    t matches Task::ClaimSpace { slabel, fee_rate } && slabel@ == pre.space@
                        && fee_rate_opt_matches(pre.fee_rate@, fee_rate)
                } else {
                    t == Task::Nothing
                },
                Message::TransferSubmit => if transfer_form_ready(pre) {
                    t matches Task::TransferSpace { slabel, recipient, fee_rate } && slabel@ == pre.space@ && recipient@ == pre.recipient@ && fee_rate_opt_matches(
                        pre.fee_rate@,
                        fee_rate,
                    )
                } else {
                    t == Task::Nothing
                },
                Message::ClientResult(Ok(())) => t == Task::ShowTransactions,
                _ => t == Task::Nothing,
            }
}

impl State {
    pub fn set_error(&mut self, error: String)
        ensures
            final(self).error == Some(error),
            final(self).space == old(self).space,
            final(self).amount == old(self).amount,
            final(self).recipient == old(self).recipient,
            final(self).fee_rate == old(self).fee_rate,
    {
        self.error = Some(error);
    }

    /// Clears the form inputs, keeping the space under the cursor.
    pub fn reset_inputs(&mut self)
        ensures
            final(self).amount@ == Seq::<char>::empty(),
            final(self).recipient@ == Seq::<char>::empty(),
            final(self).fee_rate@ == Seq::<char>::empty(),
            final(self).space == old(self).space,
            final(self).error == old(self).error,
    {
        self.amount = String::new();
        self.recipient = String::new();
        self.fee_rate = String::new();
    }

    /// Clears every transient input of the screen, the cursor included.
    pub fn reset_space(&mut self)
        ensures
            final(self).space@ == Seq::<char>::empty(),
            final(self).amount@ == Seq::<char>::empty(),
            final(self).recipient@ == Seq::<char>::empty(),
            final(self).fee_rate@ == Seq::<char>::empty(),
            final(self).error == old(self).error,
    {
        self.reset_inputs();
        self.space = String::new();
    }

    /// Puts a space name under the cursor, clearing the form inputs.
    pub fn set_slabel(&mut self, slabel: &str)
        ensures
            final(self).space@ == slabel@,
            final(self).amount@ == Seq::<char>::empty(),
            final(self).recipient@ == Seq::<char>::empty(),
            final(self).fee_rate@ == Seq::<char>::empty(),
            final(self).error == old(self).error,
    {
        self.reset_inputs();
        self.space = slabel.to_owned();
    }

    /// The valid space name under the cursor, if the input is one.
    pub fn get_slabel(&self) -> (r: Option<String>)
        ensures
            (r is Some) == valid_space_label(self.space@),
            r matches Some(l) ==> l@ == self.space@,
    {
        if is_valid_slabel(self.space.as_str()) {
            Some(self.space.clone())
        } else {
            None
        }
    }

    pub fn update(&mut self, message: Message) -> (t: Task)
        ensures
            update_rel(*old(self), message, *final(self), t),
    {
        self.error = None;
        match message {
            Message::SLabelSet(slabel) => {
                self.space = slabel.clone();
                Task::GetSpaceInfo { slabel }
            }
            Message::SpaceInput(space) => {
                if is_slabel_input(space.as_str()) {
                    self.space = space;
                    match self.get_slabel() {
                        Some(slabel) => Task::GetSpaceInfo { slabel },
                        None => Task::Nothing,
                    }
                } else {
                    Task::Nothing
                }
            }
            Message::AmountInput(amount) => {
                if is_amount_input(amount.as_str()) {
                    self.amount = amount;
                }
                Task::Nothing
            }
            Message::RecipientInput(recipient) => {
                if is_recipient_input(recipient.as_str()) {
                    self.recipient = recipient;
                }
                Task::Nothing
            }
            Message::FeeRateInput(fee_rate) => {
                if is_fee_rate_input(fee_rate.as_str()) {
                    self.fee_rate = fee_rate;
                }
                Task::Nothing
            }
            Message::OpenSubmit => {
                let slabel = self.get_slabel();
                let amount = amount_from_str(self.amount.as_str());
                let fee_rate = fee_rate_from_str(self.fee_rate.as_str());
                match (slabel, amount, fee_rate) {
                    (Some(slabel), Some(amount), Some(fee_rate)) => Task::OpenSpace {
                        slabel,
                        amount,
                        fee_rate,
                    },
                    _ => Task::Nothing,
                }
            }
            Message::BidSubmit => {
                let slabel = self.get_slabel();
                let amount = amount_from_str(self.amount.as_str());
                let fee_rate = fee_rate_from_str(self.fee_rate.as_str());
                match (slabel, amount, fee_rate) {
                    (Some(slabel), Some(amount), Some(fee_rate)) => Task::BidSpace {
                        slabel,
                        amount,
                        fee_rate,
                    },
                    _ => Task::Nothing,
                }
            }
            Message::ClaimSubmit => {
                let slabel = self.get_slabel();
                let fee_rate = fee_rate_from_str(self.fee_rate.as_str());
                match (slabel, fee_rate) {
                    (Some(slabel), Some(fee_rate)) => Task::ClaimSpace { slabel, fee_rate },
                    _ => Task::Nothing,
                }
            }
            Message::TransferSubmit => {
                let slabel = self.get_slabel();
                let recipient = recipient_from_str(self.recipient.as_str());
                let fee_rate = fee_rate_from_str(self.fee_rate.as_str());
                match (slabel, recipient, fee_rate) {
                    (Some(slabel), Some(recipient), Some(fee_rate)) => Task::TransferSpace {
                        slabel,
                        recipient,
                        fee_rate,
                    },
                    _ => Task::Nothing,
                }
            }
            Message::ClientResult(result) => {
                match result {
                    Ok(()) => {
                        self.reset_inputs();
                        Task::ShowTransactions
                    }
                    Err(e) => {
                        match e {
                            RemoteError::Business { code: _, message: m } => {
                                self.error = Some(m);
                            }
                            RemoteError::System { message: _ } => {}
                        }
                        Task::Nothing
                    }
                }
            }
        }
    }

    /// Decides what the main area shows for the space under the cursor:
    /// nothing is rendered as loaded before the cache holds a completed
    /// fetch, and an "open" form appears only once the space is known to
    /// be unclaimed.
    pub fn view_kind(
        &self,
        spaces: &SpacesCollection,
        tip_height: u32,
        winning_spaces: &Vec<String>,
        owned_spaces: &Vec<String>,
    ) -> (r: SpaceViewKind)
        requires
            spaces.wf(),
        ensures
            !valid_space_label(self.space@) ==> r == SpaceViewKind::Invalid,
            valid_space_label(self.space@) ==> r == (if !spaces@.dom().contains(self.space@) {
                SpaceViewKind::Loading
            } else {
                match spaces@[self.space@] {
                    None => SpaceViewKind::Open,
                    Some(sd) => match sd.covenant {
                        Covenant::Bid { total_burned, claim_height } => if claim_height matches Some(
                            h,
                        ) && h <= tip_height {
                            (SpaceViewKind::Claim {
                                total_burned,
                                is_winning: crate::state::labels_contain(
                                    winning_spaces@,
                                    self.space@,
                                ),
                            })
                        } else {
                            (SpaceViewKind::Bid {
                                claim_height,
                                total_burned,
                                is_winning: crate::state::labels_contain(
                                    winning_spaces@,
                                    self.space@,
                                ),
                            })
                        },
                        Covenant::Transfer { expire_height } => (SpaceViewKind::Registered {
                            expire_height,
                            is_owned: crate::state::labels_contain(owned_spaces@, self.space@),
                        }),
                        Covenant::Reserved => SpaceViewKind::Locked,
                    },
                }
            }),
    {
        if !is_valid_slabel(self.space.as_str()) {
            return SpaceViewKind::Invalid;
        }
        match spaces.get_covenant(self.space.as_str()) {
            None => SpaceViewKind::Loading,
            Some(None) => SpaceViewKind::Open,
            Some(Some(covenant)) => match covenant {
                Covenant::Bid { total_burned, claim_height } => {
                    let is_winning = crate::state::contains_label(
                        winning_spaces,
                        self.space.as_str(),
                    );
                    let ended = match claim_height {
                        Some(h) => *h <= tip_height,
                        None => false,
                    };
                    if ended {
                        SpaceViewKind::Claim { total_burned: *total_burned, is_winning }
                    } else {
                        SpaceViewKind::Bid {
                            claim_height: *claim_height,
                            total_burned: *total_burned,
                            is_winning,
                        }
                    }
                }
                Covenant::Transfer { expire_height } => {
                    let is_owned = crate::state::contains_label(owned_spaces, self.space.as_str());
                    SpaceViewKind::Registered { expire_height: *expire_height, is_owned }
                }
                Covenant::Reserved => SpaceViewKind::Locked,
            },
        }
    }
}

} // verus!
