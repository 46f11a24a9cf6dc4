//! From the server's answer to the result of an operation.
use crate::decode::{field, read, Decode};
use crate::error::{check_status, is_success, Error};
use crate::game::{Game, GameView};
use crate::json::{lemma_object_value, Json, JsonValue};
use vstd::prelude::*;

verus! {

/// What an operation comes to for an answer with `status` whose body parses
/// to `parsed`: outside the success range the status alone decides, inside
/// it the body does.
pub open spec fn outcome<V>(status: u16, parsed: Option<V>) -> Result<V, Error> {
    if !is_success(status) {
        Err(Error::Status(status))
    } else {
        match parsed {
            Some(model) => Ok(model),
            None => Err(Error::Decode),
        }
    }
}

/// `result` is a value with the model that `expected` holds, or the very
/// error that `expected` holds.
pub open spec fn matches_outcome<T: DeepView>(
    result: Result<T, Error>,
    expected: Result<T::V, Error>,
) -> bool {
    match expected {
        Ok(model) => result is Ok && result->Ok_0.deep_view() == model,
        Err(error) => result == Err::<T, Error>(error),
    }
}

/// The result of an operation whose answer has the shape of `T`, from the
/// status and the body of the answer. Where the status is outside the success
/// range the body is not read.
pub fn receive<T: Decode>(status: u16, body: &Json) -> (result: Result<T, Error>)
    ensures
        matches_outcome(result, outcome(status, T::parse(body.deep_view()))),
{
    match check_status(status) {
        Ok(_) => T::decode(body),
        Err(error) => Err(error),
    }
}

/// The game of a body that wraps it: an object whose member `game` is a
/// [`Game`].
pub open spec fn wrapped_game(body: JsonValue) -> Option<GameView> {
    match body {
        JsonValue::Object(members) => field::<Game>(members, "game"@),
        _ => None,
    }
}

/// The result of the operation `game`, from the status and the body of
/// the answer: the game that the body wraps. Where the status is outside the
/// success range the body is not read.
pub fn receive_game(status: u16, body: &Json) -> (result: Result<Game, Error>)
    ensures
        matches_outcome(result, outcome(status, wrapped_game(body.deep_view()))),
{
    match check_status(status) {
        Ok(_) => match body {
            Json::Object(members) => {
                proof {
                    lemma_object_value(*members);
                }
                read::<Game>(members, "game")
            },
            _ => Err(Error::Decode),
        },
        Err(error) => Err(error),
    }
}

/// Outside the success range an operation fails with the status, whatever
/// the body holds.
pub proof fn law_failure_ignores_body<V>(status: u16, one: Option<V>, other: Option<V>)
    requires
        !is_success(status),
    ensures
        outcome(status, one) == Err::<V, Error>(Error::Status(status)),
        outcome(status, one) == outcome(status, other),
{
}

/// Inside the success range an operation succeeds exactly where the body
/// has the shape of its result, and then with what the body parses to.
pub proof fn law_success_follows_body<V>(status: u16, parsed: Option<V>)
    requires
        is_success(status),
    ensures
        parsed is Some ==> outcome(status, parsed) == Ok::<V, Error>(parsed->Some_0),
        parsed is None ==> outcome(status, parsed) == Err::<V, Error>(Error::Decode),
{
}

} // verus!
