//! Who is logged in.

use vstd::prelude::*;

use crate::constraint::{names, Username};

verus! {

/// The users that are logged in.
pub struct LoginManager {
    connected: Vec<Username>,
}

impl View for LoginManager {
    type V = Set<Seq<char>>;

    closed spec fn view(&self) -> Set<Seq<char>> {
        names(self.connected@).to_set()
    }
}

impl LoginManager {
    /// No one is logged in.
    pub fn new() -> (m: LoginManager)
        ensures
            m@ == Set::<Seq<char>>::empty(),
    {
        let m = LoginManager { connected: Vec::new() };
        assert(names(m.connected@).to_set() =~= Set::<Seq<char>>::empty());
        m
    }
}

/// Why a login or a sign-up is refused.
#[derive(Debug, PartialEq, Eq)]
pub enum Error {
    UserAlreadyConnected(Username),
    UserAlreadyExists(Username),
    UserDoesntExist(Username),
    WrongPassword,
}

pub enum ErrorView {
    UserAlreadyConnected(Seq<char>),
    UserAlreadyExists(Seq<char>),
    UserDoesntExist(Seq<char>),
    WrongPassword,
}

impl View for Error {
    type V = ErrorView;

    open spec fn view(&self) -> ErrorView {
        match self {
            Error::UserAlreadyConnected(u) => ErrorView::UserAlreadyConnected(u@),
            Error::UserAlreadyExists(u) => ErrorView::UserAlreadyExists(u@),
            Error::UserDoesntExist(u) => ErrorView::UserDoesntExist(u@),
            Error::WrongPassword => ErrorView::WrongPassword,
        }
    }
}

} // verus!
