//! The connection-check routes: the server echoes the supplied query, which
//! verifies the credential and the connection and has no other effect.

use vstd::prelude::*;
use crate::{Error, ErrorV, MiscErrorV};
use crate::client::Client;
use crate::client_helpers::request;
use crate::client_trait::{Endpoint, Style};
use crate::json::{FromJson, ToJson};

verus! {

/// Performs app authentication, validating the supplied app key and secret.
pub fn app<T: FromJson, E: FromJson, A: ToJson, B, C: Client<B>>(client: &mut C, arg: &A) -> (r:
    Result<T, Error<E>>)
    ensures
        A::spec_to_json(arg@) is None ==> (r matches Err(e) && e@ == ErrorV::<E::V>::Other(
            MiscErrorV::Json("request parameters have no wire form"@),
        )),
{
    request::<T, E, A, B, C>(client, Endpoint::Api, Style::Rpc, "check/app", arg, None)
}

/// Performs user authentication, validating the supplied access token.
pub fn user<T: FromJson, E: FromJson, A: ToJson, B, C: Client<B>>(client: &mut C, arg: &A) -> (r:
    Result<T, Error<E>>)
    ensures
        A::spec_to_json(arg@) is None ==> (r matches Err(e) && e@ == ErrorV::<E::V>::Other(
            MiscErrorV::Json("request parameters have no wire form"@),
        )),
{
    request::<T, E, A, B, C>(client, Endpoint::Api, Style::Rpc, "check/user", arg, None)
}

} // verus!
