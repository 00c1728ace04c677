//! The echo operation: the one request that the process answers.

use crate::secret::secret_of;
use crate::state::AppState;
use std::sync::Arc;
use vstd::prelude::*;
use vstd::string::StringExecFns;

verus! {

/// Why a request got no reply.
#[derive(Clone, Copy, Debug, PartialEq, Eq, Structural)]
pub enum OperationError {
    /// No state was installed where the request was served.
    ContextWiringFailure,
}

/// The reply to `input` under `secret`: the input, then the secret, with
/// nothing between them.
pub open spec fn echoed(input: Seq<char>, secret: Seq<char>) -> Seq<char> {
    input + secret
}

/// What a request is owed: the echoed text from the installed state, or
/// the wiring failure where none is installed.
pub open spec fn owed_reply(input: Seq<char>, context: Option<&AppState>) -> Result<
    Seq<char>,
    OperationError,
> {
    match context {
        Some(state) => Ok(echoed(input, state@.secret)),
        None => Err(OperationError::ContextWiringFailure),
    }
}

/// Whether `reply` is the reply `owed`, the text taken by its view.
pub open spec fn is_reply(
    reply: Result<String, OperationError>,
    owed: Result<Seq<char>, OperationError>,
) -> bool {
    match reply {
        Ok(text) => owed == Ok::<Seq<char>, OperationError>(text@),
        Err(why) => owed == Err::<Seq<char>, OperationError>(why),
    }
}

/// Answers one request. `context` is the state as the serving context
/// handed it out, `None` where it holds none.
pub fn echo_server(input: String, context: Option<&AppState>) -> (reply: Result<
    String,
    OperationError,
>)
    ensures
        is_reply(reply, owed_reply(input@, context)),
{
    match context {
        Some(state) => Ok(input.concat(state.oauth())),
        None => Err(OperationError::ContextWiringFailure),
    }
}

/// The reply is the input followed directly by the secret: its length is
/// the sum of theirs, it starts with the input and ends with the secret.
pub proof fn law_echo_joins_without_separator(input: Seq<char>, secret: Seq<char>)
    ensures
        echoed(input, secret).len() == input.len() + secret.len(),
        echoed(input, secret).subrange(0, input.len() as int) == input,
        echoed(input, secret).subrange(input.len() as int, echoed(input, secret).len() as int)
            == secret,
{
    let joined = echoed(input, secret);
    assert(joined.subrange(0, input.len() as int) =~= input);
    assert(joined.subrange(input.len() as int, joined.len() as int) =~= secret);
}

/// Under the empty secret the reply is the input itself.
pub proof fn law_echo_under_empty_secret(input: Seq<char>)
    ensures
        echoed(input, Seq::<char>::empty()) == input,
{
    assert(echoed(input, Seq::<char>::empty()) =~= input);
}

/// Two replies to the same input from the same context are the same: both
/// fail alike, or both hold the same text.
pub proof fn law_echo_is_repeatable(
    input: Seq<char>,
    context: Option<&AppState>,
    first: Result<String, OperationError>,
    second: Result<String, OperationError>,
)
    requires
        is_reply(first, owed_reply(input, context)),
        is_reply(second, owed_reply(input, context)),
    ensures
        first is Ok <==> second is Ok,
        first matches Ok(a) ==> (second matches Ok(b) && a@ == b@),
        first matches Err(a) ==> (second matches Err(b) && a == b),
{
}

/// A request is answered only from a state that is whole. There is a
/// reply exactly when a state is installed, and the reply from a state that
/// was built from `config` and `client` is the input followed by the
/// secret that `config` resolves to.
pub proof fn law_reply_needs_whole_state(
    input: Seq<char>,
    context: Option<&AppState>,
    config: Option<Seq<u8>>,
    client: Arc<aws_sdk_dynamodb::Client>,
)
    ensures
        owed_reply(input, context) is Ok <==> context is Some,
        context is None ==> owed_reply(input, context) == Err::<Seq<char>, OperationError>(
            OperationError::ContextWiringFailure,
        ),
        (context matches Some(state) && state.built_from(config, client)) ==> owed_reply(
            input,
            context,
        ) == Ok::<Seq<char>, OperationError>(echoed(input, secret_of(config))),
{
}

} // verus!
