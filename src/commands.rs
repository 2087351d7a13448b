//! The arguments of two cloud commands, and how each reads a node's reply.
use vstd::prelude::*;
use crate::route::{copy_address, copy_route, route_view, Address, Route};

verus! {

/// Shows one project of a space.
#[derive(Clone, Debug)]
pub struct ShowCommand {
    /// Id of the space.
    pub space_id: String,
    /// Id of the project.
    pub project_id: String,
}

/// Creates a space.
#[derive(Clone, Debug)]
pub struct CreateCommand {
    /// Name of the space.
    pub name: String,
}

/// The status of a node's reply, as far as the commands tell them apart.
#[derive(PartialEq, Eq, Structural, Debug, Clone, Copy)]
pub enum StatusKind {
    Success,
    InternalServerError,
    Other,
}

/// What a command does with the rest of a reply.
#[derive(PartialEq, Eq, Structural, Debug, Clone, Copy)]
pub enum ReplyAction {
    /// Read the body as the requested record and print it.
    ReadBody,
    /// Read the body as an error text and report it.
    ReadError,
    /// Report an unexpected reply.
    Unexpected,
}

/// How `show` reads a reply with this status, if its header had one.
pub open spec fn spec_show_reply(status: Option<StatusKind>) -> ReplyAction {
    match status {
        Some(StatusKind::Success) => ReplyAction::ReadBody,
        Some(StatusKind::InternalServerError) => ReplyAction::ReadError,
        _ => ReplyAction::Unexpected,
    }
}

/// How `create` reads a reply with this status and body flag.
pub open spec fn spec_create_reply(status: Option<StatusKind>, has_body: bool) -> ReplyAction {
    if !has_body || status is None {
        ReplyAction::Unexpected
    } else if status == Some(StatusKind::Success) {
        ReplyAction::ReadBody
    } else {
        ReplyAction::ReadError
    }
}

impl ShowCommand {
    /// How to read the rest of a reply whose header has this status.
    pub fn reply_action(status: Option<StatusKind>) -> (r: ReplyAction)
        ensures
            r == spec_show_reply(status),
    {
        match status {
            Some(StatusKind::Success) => ReplyAction::ReadBody,
            Some(StatusKind::InternalServerError) => ReplyAction::ReadError,
            _ => ReplyAction::Unexpected,
        }
    }
}

impl CreateCommand {
    /// How to read the rest of a reply whose header has this status and
    /// says whether a body follows.
    pub fn reply_action(status: Option<StatusKind>, has_body: bool) -> (r: ReplyAction)
        ensures
            r == spec_create_reply(status, has_body),
    {
        match status {
            Some(StatusKind::Success) if has_body => ReplyAction::ReadBody,
            Some(_) if has_body => ReplyAction::ReadError,
            _ => ReplyAction::Unexpected,
        }
    }
}

/// The route of a request: the route to the node, then the address of its
/// node manager.
pub fn request_route(base: &Route, node_manager: &Address) -> (r: Route)
    ensures
        route_view(r@) == route_view(base@).push(node_manager@),
{
    let mut r = copy_route(base);
    r.push(copy_address(node_manager));
    assert(route_view(r@) =~= route_view(base@).push(node_manager@));
    r
}

} // verus!
