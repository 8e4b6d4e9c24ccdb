//! The property-template routes.  Each function names its route and goes
//! through the generic typed-RPC pipeline; the schema-generated parameter,
//! result and error types are supplied by the caller, which keeps the
//! pipeline fully generic over them.

use vstd::prelude::*;
use crate::{Error, ErrorV, MiscErrorV};
use crate::client::Client;
use crate::client_helpers::request;
use crate::client_trait::{Endpoint, Style};
use crate::json::{FromJson, ToJson};

verus! {

/// Add property groups to a file.
pub fn properties_add<A: ToJson, E: FromJson, B, C: Client<B>>(client: &mut C, arg: &A) -> (r:
    Result<(), Error<E>>)
    ensures
        A::spec_to_json(arg@) is None ==> (r matches Err(e) && e@ == ErrorV::<E::V>::Other(
            MiscErrorV::Json("request parameters have no wire form"@),
        )),
{
    request::<(), E, A, B, C>(
        client,
        Endpoint::Api,
        Style::Rpc,
        "file_properties/properties/add",
        arg,
        None,
    )
}

/// Overwrite property groups associated with a file, as a snapshot.
pub fn properties_overwrite<A: ToJson, E: FromJson, B, C: Client<B>>(client: &mut C, arg: &A) -> (r:
    Result<(), Error<E>>)
    ensures
        A::spec_to_json(arg@) is None ==> (r matches Err(e) && e@ == ErrorV::<E::V>::Other(
            MiscErrorV::Json("request parameters have no wire form"@),
        )),
{
    request::<(), E, A, B, C>(
        client,
        Endpoint::Api,
        Style::Rpc,
        "file_properties/properties/overwrite",
        arg,
        None,
    )
}

/// Permanently remove the specified property group from the file.
pub fn properties_remove<A: ToJson, E: FromJson, B, C: Client<B>>(client: &mut C, arg: &A) -> (r:
    Result<(), Error<E>>)
    ensures
        A::spec_to_json(arg@) is None ==> (r matches Err(e) && e@ == ErrorV::<E::V>::Other(
            MiscErrorV::Json("request parameters have no wire form"@),
        )),
{
    request::<(), E, A, B, C>(
        client,
        Endpoint::Api,
        Style::Rpc,
        "file_properties/properties/remove",
        arg,
        None,
    )
}

/// Search across property templates for particular property field values.
pub fn properties_search<T: FromJson, E: FromJson, A: ToJson, B, C: Client<B>>(
    client: &mut C,
    arg: &A,
) -> (r: Result<T, Error<E>>)
    ensures
        A::spec_to_json(arg@) is None ==> (r matches Err(e) && e@ == ErrorV::<E::V>::Other(
            MiscErrorV::Json("request parameters have no wire form"@),
        )),
{
    request::<T, E, A, B, C>(
        client,
        Endpoint::Api,
        Style::Rpc,
        "file_properties/properties/search",
        arg,
        None,
    )
}

/// Once a cursor has been retrieved from a search, paginate through the
/// results.
pub fn properties_search_continue<T: FromJson, E: FromJson, A: ToJson, B, C: Client<B>>(
    client: &mut C,
    arg: &A,
) -> (r: Result<T, Error<E>>)
    ensures
        A::spec_to_json(arg@) is None ==> (r matches Err(e) && e@ == ErrorV::<E::V>::Other(
            MiscErrorV::Json("request parameters have no wire form"@),
        )),
{
    request::<T, E, A, B, C>(
        client,
        Endpoint::Api,
        Style::Rpc,
        "file_properties/properties/search/continue",
        arg,
        None,
    )
}

/// Add, update or remove properties, as a delta.
pub fn properties_update<A: ToJson, E: FromJson, B, C: Client<B>>(client: &mut C, arg: &A) -> (r:
    Result<(), Error<E>>)
    ensures
        A::spec_to_json(arg@) is None ==> (r matches Err(e) && e@ == ErrorV::<E::V>::Other(
            MiscErrorV::Json("request parameters have no wire form"@),
        )),
{
    request::<(), E, A, B, C>(
        client,
        Endpoint::Api,
        Style::Rpc,
        "file_properties/properties/update",
        arg,
        None,
    )
}

/// Add a template associated with a team.
pub fn templates_add_for_team<T: FromJson, E: FromJson, A: ToJson, B, C: Client<B>>(
    client: &mut C,
    arg: &A,
) -> (r: Result<T, Error<E>>)
    ensures
        A::spec_to_json(arg@) is None ==> (r matches Err(e) && e@ == ErrorV::<E::V>::Other(
            MiscErrorV::Json("request parameters have no wire form"@),
        )),
{
    request::<T, E, A, B, C>(
        client,
        Endpoint::Api,
        Style::Rpc,
        "file_properties/templates/add_for_team",
        arg,
        None,
    )
}

/// Add a template associated with a user.
pub fn templates_add_for_user<T: FromJson, E: FromJson, A: ToJson, B, C: Client<B>>(
    client: &mut C,
    arg: &A,
) -> (r: Result<T, Error<E>>)
    ensures
        A::spec_to_json(arg@) is None ==> (r matches Err(e) && e@ == ErrorV::<E::V>::Other(
            MiscErrorV::Json("request parameters have no wire form"@),
        )),
{
    request::<T, E, A, B, C>(
        client,
        Endpoint::Api,
        Style::Rpc,
        "file_properties/templates/add_for_user",
        arg,
        None,
    )
}

/// Get the schema for a specified team template.
pub fn templates_get_for_team<T: FromJson, E: FromJson, A: ToJson, B, C: Client<B>>(
    client: &mut C,
    arg: &A,
) -> (r: Result<T, Error<E>>)
    ensures
        A::spec_to_json(arg@) is None ==> (r matches Err(e) && e@ == ErrorV::<E::V>::Other(
            MiscErrorV::Json("request parameters have no wire form"@),
        )),
{
    request::<T, E, A, B, C>(
        client,
        Endpoint::Api,
        Style::Rpc,
        "file_properties/templates/get_for_team",
        arg,
        None,
    )
}

/// Get the schema for a specified user template.
pub fn templates_get_for_user<T: FromJson, E: FromJson, A: ToJson, B, C: Client<B>>(
    client: &mut C,
    arg: &A,
) -> (r: Result<T, Error<E>>)
    ensures
        A::spec_to_json(arg@) is None ==> (r matches Err(e) && e@ == ErrorV::<E::V>::Other(
            MiscErrorV::Json("request parameters have no wire form"@),
        )),
{
    request::<T, E, A, B, C>(
        client,
        Endpoint::Api,
        Style::Rpc,
        "file_properties/templates/get_for_user",
        arg,
        None,
    )
}

/// Get the template identifiers for a team.
pub fn templates_list_for_team<T: FromJson, E: FromJson, B, C: Client<B>>(client: &mut C) -> (r:
    Result<T, Error<E>>)
{
    request::<T, E, (), B, C>(
        client,
        Endpoint::Api,
        Style::Rpc,
        "file_properties/templates/list_for_team",
        &(),
        None,
    )
}

/// Get the template identifiers for a user.
pub fn templates_list_for_user<T: FromJson, E: FromJson, B, C: Client<B>>(client: &mut C) -> (r:
    Result<T, Error<E>>)
{
    request::<T, E, (), B, C>(
        client,
        Endpoint::Api,
        Style::Rpc,
        "file_properties/templates/list_for_user",
        &(),
        None,
    )
}

/// Permanently remove a team template; all properties associated with it
/// are removed too.
pub fn templates_remove_for_team<A: ToJson, E: FromJson, B, C: Client<B>>(
    client: &mut C,
    arg: &A,
) -> (r: Result<(), Error<E>>)
    ensures
        A::spec_to_json(arg@) is None ==> (r matches Err(e) && e@ == ErrorV::<E::V>::Other(
            MiscErrorV::Json("request parameters have no wire form"@),
        )),
{
    request::<(), E, A, B, C>(
        client,
        Endpoint::Api,
        Style::Rpc,
        "file_properties/templates/remove_for_team",
        arg,
        None,
    )
}

/// Permanently remove a user template; all properties associated with it
/// are removed too.
pub fn templates_remove_for_user<A: ToJson, E: FromJson, B, C: Client<B>>(
    client: &mut C,
    arg: &A,
) -> (r: Result<(), Error<E>>)
    ensures
        A::spec_to_json(arg@) is None ==> (r matches Err(e) && e@ == ErrorV::<E::V>::Other(
            MiscErrorV::Json("request parameters have no wire form"@),
        )),
{
    request::<(), E, A, B, C>(
        client,
        Endpoint::Api,
        Style::Rpc,
        "file_properties/templates/remove_for_user",
        arg,
        None,
    )
}

/// Update a team template's name, description or properties.
pub fn templates_update_for_team<T: FromJson, E: FromJson, A: ToJson, B, C: Client<B>>(
    client: &mut C,
    arg: &A,
) -> (r: Result<T, Error<E>>)
    ensures
        A::spec_to_json(arg@) is None ==> (r matches Err(e) && e@ == ErrorV::<E::V>::Other(
            MiscErrorV::Json("request parameters have no wire form"@),
        )),
{
    request::<T, E, A, B, C>(
        client,
        Endpoint::Api,
        Style::Rpc,
        "file_properties/templates/update_for_team",
        arg,
        None,
    )
}

/// Update a user template's name, description or properties.
pub fn templates_update_for_user<T: FromJson, E: FromJson, A: ToJson, B, C: Client<B>>(
    client: &mut C,
    arg: &A,
) -> (r: Result<T, Error<E>>)
    ensures
        A::spec_to_json(arg@) is None ==> (r matches Err(e) && e@ == ErrorV::<E::V>::Other(
            MiscErrorV::Json("request parameters have no wire form"@),
        )),
{
    request::<T, E, A, B, C>(
        client,
        Endpoint::Api,
        Style::Rpc,
        "file_properties/templates/update_for_user",
        arg,
        None,
    )
}

} // verus!
