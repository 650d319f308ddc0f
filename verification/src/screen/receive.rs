//! The receive screen: the wallet's two addresses and their scannable
//! codes.

use vstd::prelude::*;

use crate::types::AddressKind;

verus! {

/// UI-local state: either the address list or one enlarged code.
#[derive(Debug, PartialEq, Eq, Structural, Clone, Copy)]
pub enum State {
    Home,
    QrCode(AddressKind),
}

impl Default for State {
    fn default() -> (d: State)
        ensures
            d is Home,
    {
        State::Home
    }
}

pub enum Message {
    QrCodePress(AddressKind),
    ClosePress,
    CopyPress(String),
}

#[derive(Debug, PartialEq, Eq)]
pub enum Task {
    Nothing,
    WriteClipboard(String),
}

/// Exactly how one message changes the screen and which action it
/// yields.
pub open spec fn update_rel(pre: State, message: Message, post: State, t: Task) -> bool {
    &&& post == (match message {
                Message::QrCodePress(kind) => State::QrCode(kind),
                Message::ClosePress => State::Home,
                Message::CopyPress(_) => pre,
            })
    &&& t == (match message {
                Message::CopyPress(s) => Task::WriteClipboard(s),
                _ => Task::Nothing,
            })
}

impl State {
    /// Returns to the address list.
    pub fn reset(&mut self)
        ensures
            *final(self) is Home,
    {
        *self = State::Home;
    }

    pub fn update(&mut self, message: Message) -> (t: Task)
        ensures
            update_rel(*old(self), message, *final(self), t),
    {
        match message {
            Message::ClosePress => {
                *self = State::Home;
                Task::Nothing
            }
            Message::QrCodePress(kind) => {
                *self = State::QrCode(kind);
                Task::Nothing
            }
            Message::CopyPress(s) => Task::WriteClipboard(s),
        }
    }
}

} // verus!
