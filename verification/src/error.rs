//! What can go wrong.

use vstd::prelude::*;
use vstd::string::StringExecFns;

verus! {

/// Every failure the server knows. A variant with a `String` carries the
/// words of whoever reported the failure: the socket, the encoder or
/// decoder, or the key-value store, whose failures always come with its
/// words.
#[derive(Clone, Debug, PartialEq, Eq)]
pub enum Error {
    WebSocketError(String),
    NothingToRead,
    PlayerDeserializationError(String),
    ClientMessageDeserializeError(String),
    TickInfoSerializationError(String),
    NormalClose,
    UnexpectedNonTextMessageError,
    RedisOpenError(String),
    RedisGetConnError(String),
    NoPlayerForUuid,
    NoPlayerForNickname,
    KeysQueryError(String),
    DeletionQueryError(String),
    WriterFeedError,
    UuidError,
    ErrorFromMain,
    TracingError,
    UnexpectedNonLoginMessage,
    UnexpectedLoginMessage,
    SaveSystemsSetError(String),
    SaveSystemsSerializationError(String),
    SavePlayersSetError(String),
}

impl Error {
    /// The text that describes an error.
    pub open spec fn text(self) -> Seq<char> {
        match self {
            Error::WebSocketError(detail) => "error with a player web socket: "@ + detail@,
            Error::NothingToRead => "read returned None"@,
            Error::PlayerDeserializationError(detail) => "error while deserializing a player: "@
                + detail@,
            Error::ClientMessageDeserializeError(detail) =>
                "error while deserializing a client message: "@ + detail@,
            Error::TickInfoSerializationError(detail) => "error while serializing a tick info: "@
                + detail@,
            Error::NormalClose => "client closed gracefuly"@,
            Error::UnexpectedNonTextMessageError =>
                "received non text or close web socket message"@,
            Error::RedisOpenError(detail) => "error when opening Redis: "@ + detail@,
            Error::RedisGetConnError(detail) => "Error while trying to connect to Redis: "@
                + detail@,
            Error::NoPlayerForUuid => "player not found for uuid"@,
            Error::NoPlayerForNickname => "player not found for nickname"@,
            Error::KeysQueryError(detail) => "error while querying 'keys' Redis command: "@
                + detail@,
            Error::DeletionQueryError(detail) => "error while querying Redis key deletion: "@
                + detail@,
            Error::WriterFeedError => "error while calling feed on a player's writer"@,
            Error::UuidError => "error while manipulating a uuid"@,
            Error::ErrorFromMain => "error catched by main"@,
            Error::TracingError => "error with tracing system initialization"@,
            Error::UnexpectedNonLoginMessage => "non login message received during login phase"@,
            Error::UnexpectedLoginMessage => "login message received after the login phase"@,
            Error::SaveSystemsSetError(detail) => "error while trying to save systems in Redis: "@
                + detail@,
            Error::SaveSystemsSerializationError(detail) =>
                "error while trying to serialize systems before saving them: "@ + detail@,
            Error::SavePlayersSetError(detail) => "error while trying to save players in Redis: "@
                + detail@,
        }
    }

    /// Describes the error in words, the report of the failing party last.
    pub fn message(&self) -> (words: String)
        ensures
            words@ == self.text(),
    {
        match self {
            Error::WebSocketError(detail) => String::from_str(
                "error with a player web socket: ",
            ).concat(detail.as_str()),
            Error::NothingToRead => String::from_str("read returned None"),
            Error::PlayerDeserializationError(detail) => String::from_str(
                "error while deserializing a player: ",
            ).concat(detail.as_str()),
            Error::ClientMessageDeserializeError(detail) => String::from_str(
                "error while deserializing a client message: ",
            ).concat(detail.as_str()),
            Error::TickInfoSerializationError(detail) => String::from_str(
                "error while serializing a tick info: ",
            ).concat(detail.as_str()),
            Error::NormalClose => String::from_str("client closed gracefuly"),
            Error::UnexpectedNonTextMessageError => String::from_str(
                "received non text or close web socket message",
            ),
            Error::RedisOpenError(detail) => String::from_str("error when opening Redis: ").concat(
                detail.as_str(),
            ),
            Error::RedisGetConnError(detail) => String::from_str(
                "Error while trying to connect to Redis: ",
            ).concat(detail.as_str()),
            Error::NoPlayerForUuid => String::from_str("player not found for uuid"),
            Error::NoPlayerForNickname => String::from_str("player not found for nickname"),
            Error::KeysQueryError(detail) => String::from_str(
                "error while querying 'keys' Redis command: ",
            ).concat(detail.as_str()),
            Error::DeletionQueryError(detail) => String::from_str(
                "error while querying Redis key deletion: ",
            ).concat(detail.as_str()),
            Error::WriterFeedError => String::from_str(
                "error while calling feed on a player's writer",
            ),
            Error::UuidError => String::from_str("error while manipulating a uuid"),
            Error::ErrorFromMain => String::from_str("error catched by main"),
            Error::TracingError => String::from_str("error with tracing system initialization"),
            Error::UnexpectedNonLoginMessage => String::from_str(
                "non login message received during login phase",
            ),
            Error::UnexpectedLoginMessage => String::from_str(
                "login message received after the login phase",
            ),
            Error::SaveSystemsSetError(detail) => String::from_str(
                "error while trying to save systems in Redis: ",
            ).concat(detail.as_str()),
            Error::SaveSystemsSerializationError(detail) => String::from_str(
                "error while trying to serialize systems before saving them: ",
            ).concat(detail.as_str()),
            Error::SavePlayersSetError(detail) => String::from_str(
                "error while trying to save players in Redis: ",
            ).concat(detail.as_str()),
        }
    }
}

} // verus!
