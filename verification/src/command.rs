//! Choosing the record and the operation that a caller asks for.

use vstd::prelude::*;
use crate::config::{ConfigView, Oauth2Config};
use crate::schema::same_text;
use crate::store::{find_account, first_account, is_account};
use crate::error::{AuthError, AuthErrorView};
use crate::views::{option_text, result_view};

verus! {

/// The operations on offer.
#[derive(Clone, Copy, Debug, PartialEq, Eq, Structural)]
pub enum Command {
    /// Run the device authorization grant and keep the token.
    GenToken,
    /// Renew the token if it has expired.
    Renew,
    /// Hand out the access token that the record holds.
    GetAccessToken,
}

/// The operation that goes by `name`, if any does.
pub open spec fn command_of(name: Seq<char>) -> Option<Command> {
    if name == "gen-token"@ {
        Some(Command::GenToken)
    } else if name == "renew"@ {
        Some(Command::Renew)
    } else if name == "get-access-token"@ {
        Some(Command::GetAccessToken)
    } else {
        None
    }
}

/// The operation that a caller asks for: the one named, and the grant where
/// none is named.
pub open spec fn command_asked(name: Option<Seq<char>>) -> Option<Command> {
    match name {
        Some(n) => command_of(n),
        None => Some(Command::GenToken),
    }
}

impl Command {
    /// The name by which the operation is asked for.
    pub open spec fn name_spec(self) -> Seq<char> {
        match self {
            Command::GenToken => "gen-token"@,
            Command::Renew => "renew"@,
            Command::GetAccessToken => "get-access-token"@,
        }
    }

    /// The name by which the operation is asked for.
    pub fn name(self) -> (r: &'static str)
        ensures
            r@ == self.name_spec(),
    {
        match self {
            Command::GenToken => "gen-token",
            Command::Renew => "renew",
            Command::GetAccessToken => "get-access-token",
        }
    }

    /// Finds the operation that goes by `name`.
    pub fn parse(name: &str) -> (r: Option<Command>)
        ensures
            r == command_of(name@),
    {
        if same_text(name, "gen-token") {
            Some(Command::GenToken)
        } else if same_text(name, "renew") {
            Some(Command::Renew)
        } else if same_text(name, "get-access-token") {
            Some(Command::GetAccessToken)
        } else {
            None
        }
    }

    /// An operation that succeeds may have changed the record's token, unless
    /// it only reads: the collection is written back after the first two.
    pub open spec fn changes_token(self) -> bool {
        self != Command::GetAccessToken
    }

    /// Whether the collection is written back after the operation succeeded.
    pub fn rewrites_store(self) -> (r: bool)
        ensures
            r == self.changes_token(),
    {
        match self {
            Command::GenToken => true,
            Command::Renew => true,
            Command::GetAccessToken => false,
        }
    }
}

/// Every operation is found under its own name.
pub proof fn lemma_name_finds_command(c: Command)
    ensures
        command_of(c.name_spec()) == Some(c),
{
    reveal_strlit("gen-token");
    reveal_strlit("renew");
    reveal_strlit("get-access-token");
    assert("gen-token"@.len() == 9);
    assert("renew"@.len() == 5);
    assert("get-access-token"@.len() == 16);
}

/// What a caller's choice of account and operation comes to: the place of the
/// record and the operation, or the reason why there is none. A name that no
/// record carries is reported before an operation that does not exist.
pub open spec fn selection(
    records: Seq<Oauth2Config>,
    account_name: Seq<char>,
    command: Option<Seq<char>>,
    r: Result<(usize, Command), AuthError>,
) -> bool {
    match r {
        Ok((i, c)) => first_account(records, account_name, Some(i)) && command_asked(command)
            == Some(c),
        Err(AuthError::AccountNotFound) => first_account(records, account_name, None),
        Err(AuthError::UnknownCommand) => !first_account(records, account_name, None)
            && command_asked(command) is None,
        Err(_) => false,
    }
}

/// Finds the record and the operation that a caller asks for.
pub fn select(records: &Vec<Oauth2Config>, account_name: &str, command: Option<&str>) -> (r: Result<
    (usize, Command),
    AuthError,
>)
    ensures
        selection(records@, account_name@, option_text(command), r),
{
    let i = match find_account(records, account_name) {
        Some(i) => i,
        None => {
            return Err(AuthError::AccountNotFound);
        },
    };
    let asked = match command {
        Some(n) => Command::parse(n),
        None => Some(Command::GenToken),
    };
    match asked {
        Some(c) => Ok((i, c)),
        None => {
            assert(is_account(records@, i as int, account_name@));
            Err(AuthError::UnknownCommand)
        },
    }
}

/// The access token that a record holds, or `NotAuthorized` where it holds
/// none.
pub open spec fn access_token_of(record: ConfigView) -> Result<Seq<char>, AuthErrorView> {
    match record.token {
        Some(token) => Ok(token.access_token),
        None => Err(AuthErrorView::NotAuthorized),
    }
}

/// Hands out the access token that the record holds. The record is only read.
pub fn get_access_token(record: &Oauth2Config) -> (r: Result<String, AuthError>)
    ensures
        result_view(r) == access_token_of(record@),
{
    match &record.token {
        Some(token) => Ok(token.access_token.clone()),
        None => Err(AuthError::NotAuthorized),
    }
}

/// The collection has to be written back after an operation that succeeded
/// and may have changed a token, and after no other.
pub fn store_changed<T>(command: Command, outcome: &Result<T, AuthError>) -> (r: bool)
    ensures
        r == (outcome is Ok && command.changes_token()),
{
    match outcome {
        Ok(_) => command.rewrites_store(),
        Err(_) => false,
    }
}

/// The status with which a process ends after an operation: zero after a
/// success, one after any failure.
pub fn exit_status<T>(outcome: &Result<T, AuthError>) -> (r: i32)
    ensures
        r == if outcome is Ok { 0i32 } else { 1i32 },
{
    match outcome {
        Ok(_) => 0,
        Err(_) => 1,
    }
}

} // verus!
