//! The leader: the loop that accepts connections.
//!
//! The leader has one state only. Whatever an accept attempt brings, the
//! leader deals with it and accepts again; nothing that a task does reaches it.

use crate::text::{accept_failure_report, render_accept_failure_report};
use vstd::prelude::*;

verus! {

/// The address that the leader listens on, and that a follower connects to.
pub const BIND_ADDR: &'static str = "127.0.0.1:47912";

/// What an accept attempt brought.
#[derive(Debug, PartialEq, Eq)]
pub enum Accept {
    /// A new connection.
    Connected,
    /// An error, with a description of it.
    Failed(String),
}

/// The mathematical content of an [`Accept`].
pub enum AcceptView {
    Connected,
    Failed(Seq<char>),
}

impl View for Accept {
    type V = AcceptView;

    open spec fn view(&self) -> AcceptView {
        match *self {
            Accept::Connected => AcceptView::Connected,
            Accept::Failed(cause) => AcceptView::Failed(cause@),
        }
    }
}

/// What the leader does before it accepts again.
#[derive(Debug, PartialEq, Eq)]
pub enum LeaderAction {
    /// Hand the new connection to a task of its own, and do not wait for it.
    Spawn,
    /// Print this line.
    Report(String),
}

/// The mathematical content of a [`LeaderAction`].
pub enum LeaderActionView {
    Spawn,
    Report(Seq<char>),
}

impl View for LeaderAction {
    type V = LeaderActionView;

    open spec fn view(&self) -> LeaderActionView {
        match *self {
            LeaderAction::Spawn => LeaderActionView::Spawn,
            LeaderAction::Report(line) => LeaderActionView::Report(line@),
        }
    }
}

/// The leader's answer to an accept attempt: a connection gets a task, a
/// failure gets a line on the console.
pub open spec fn on_accept_spec(outcome: AcceptView) -> LeaderActionView {
    match outcome {
        AcceptView::Connected => LeaderActionView::Spawn,
        AcceptView::Failed(cause) => LeaderActionView::Report(accept_failure_report(cause)),
    }
}

/// Decides what to do with the outcome of an accept attempt. The leader
/// accepts again afterwards in either case.
pub fn on_accept(outcome: Accept) -> (action: LeaderAction)
    ensures
        action@ == on_accept_spec(outcome@),
{
    match outcome {
        Accept::Connected => LeaderAction::Spawn,
        Accept::Failed(cause) => LeaderAction::Report(render_accept_failure_report(cause.as_str())),
    }
}

} // verus!
