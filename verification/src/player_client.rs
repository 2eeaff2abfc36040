//! The client's side of a session: what it sends to log in and what it
//! makes of what it reads.

use crate::error::Error;
use crate::game_server::{ClientMessage, Login, Received};
use vstd::prelude::*;

verus! {

/// A client of the server, as far as it needs no socket.
pub struct PlayerClient {}

impl PlayerClient {
    /// The message that logs the player called `nickname` in.
    pub fn login(nickname: String) -> (message: ClientMessage)
        ensures
            message == ClientMessage::Login(Login { nickname }),
    {
        ClientMessage::Login(Login { nickname })
    }

    /// What a read meant for the client: the text of a text frame. The end
    /// of the stream and a complaint of the transport both count as nothing
    /// to read; any other frame is out of place.
    pub open spec fn text_of(received: Received<String>) -> Result<String, Error> {
        match received {
            Received::End => Err(Error::NothingToRead),
            Received::Failed(_) => Err(Error::NothingToRead),
            Received::Text(text) => Ok(text),
            _ => Err(Error::UnexpectedNonTextMessageError),
        }
    }

    /// Makes the server's text of a read, or the error that says why not.
    pub fn wait_message(received: Received<String>) -> (text: Result<String, Error>)
        ensures
            text == Self::text_of(received),
    {
        match received {
            Received::End => Err(Error::NothingToRead),
            Received::Failed(_) => Err(Error::NothingToRead),
            Received::Text(text) => Ok(text),
            _ => Err(Error::UnexpectedNonTextMessageError),
        }
    }
}

} // verus!
