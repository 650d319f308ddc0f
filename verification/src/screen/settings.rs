//! The settings screen: wallet selection, wallet creation and transfer of
//! wallet files, and the switch back to the setup phase.

use vstd::prelude::*;

use crate::client::RemoteError;

verus! {

/// UI-local state of the settings screen.
pub struct State {
    pub error: Option<String>,
}

impl Default for State {
    fn default() -> (d: State)
        ensures
            d.error is None,
    {
        State { error: None }
    }
}

pub enum Message {
    WalletSelect(String),
    CreateWalletPress(String),
    ExportWalletPress(String),
    ImportWalletPress,
    WalletFileLoaded(Option<String>),
    WalletCreated(Result<(), RemoteError>),
    WalletFileImported(Result<(), RemoteError>),
    WalletFileSaved(Result<(), String>),
    ResetBackendPress,
}

#[derive(Debug, PartialEq, Eq)]
pub enum Action {
    Nothing,
    SetCurrentWallet(String),
    CreateWallet(String),
    ExportWallet(String),
    FilePick,
    ImportWallet(String),
    ResetBackend,
}

/// Exactly how one message changes the screen and which action it
/// yields.
pub open spec fn update_rel(pre: State, message: Message, post: State, a: Action) -> bool {
    &&& post.error == (match message {
                Message::WalletCreated(Err(RemoteError::Business { code, message: m })) => Some(m),
                Message::WalletFileImported(
                    Err(RemoteError::Business { code, message: m }),
                ) => Some(m),
                Message::WalletFileSaved(Err(m)) => Some(m),
                _ => None::<String>,
            })
    &&& a == (match message {
                Message::WalletSelect(name) => Action::SetCurrentWallet(name),
                Message::CreateWalletPress(name) => Action::CreateWallet(name),
                Message::ExportWalletPress(name) => Action::ExportWallet(name),
                Message::ImportWalletPress => Action::FilePick,
                Message::WalletFileLoaded(Some(contents)) => Action::ImportWallet(contents),
                Message::ResetBackendPress => Action::ResetBackend,
                _ => Action::Nothing,
            })
}

impl State {
    pub fn update(&mut self, message: Message) -> (a: Action)
        ensures
            update_rel(*old(self), message, *final(self), a),
    {
        self.error = None;
        match message {
            Message::WalletSelect(name) => Action::SetCurrentWallet(name),
            Message::CreateWalletPress(name) => Action::CreateWallet(name),
            Message::ExportWalletPress(name) => Action::ExportWallet(name),
            Message::ImportWalletPress => Action::FilePick,
            Message::WalletFileLoaded(loaded) => {
                match loaded {
                    Some(contents) => Action::ImportWallet(contents),
                    None => Action::Nothing,
                }
            }
            Message::WalletCreated(result) => {
                self.note_remote_failure(result);
                Action::Nothing
            }
            Message::WalletFileImported(result) => {
                self.note_remote_failure(result);
                Action::Nothing
            }
            Message::WalletFileSaved(result) => {
                match result {
                    Ok(()) => {}
                    Err(m) => {
                        self.error = Some(m);
                    }
                }
                Action::Nothing
            }
            Message::ResetBackendPress => Action::ResetBackend,
        }
    }

    /// Keeps a business rejection on the screen; a system fault is the
    /// reducer's to report globally.
    fn note_remote_failure(&mut self, result: Result<(), RemoteError>)
        ensures
            final(self).error == (match result {
                Err(RemoteError::Business { code, message: m }) => Some(m),
                _ => old(self).error,
            }),
    {
        match result {
            Ok(()) => {}
            Err(e) => {
                match e {
                    RemoteError::Business { code: _, message: m } => {
                        self.error = Some(m);
                    }
                    RemoteError::System { message: _ } => {}
                }
            }
        }
    }
}

} // verus!
