//! Building the positional arguments of an invocation.

use crate::json::json_model;
use crate::protocol::invoke::{Invocation, InvocationView};
use vstd::prelude::*;

verus! {

/// An invocation whose argument list is being built.
pub struct ArgumentConfiguration {
    invocation: Option<Invocation>,
}

/// The argument list with one more document at its end.
pub open spec fn with_argument(invocation: InvocationView, argument: crate::json::Json) -> InvocationView {
    InvocationView {
        arguments: Some(
            match invocation.arguments {
                Some(items) => items.push(argument),
                None => seq![argument],
            },
        ),
        ..invocation
    }
}

impl ArgumentConfiguration {
    /// The invocation as built so far; nothing once it was taken.
    pub closed spec fn invocation(&self) -> Option<InvocationView> {
        match self.invocation {
            Some(invocation) => Some(invocation@),
            None => None,
        }
    }

    /// Starts from `invocation`.
    pub fn new(invocation: Invocation) -> (configuration: Self)
        ensures
            configuration.invocation() == Some(invocation@),
    {
        ArgumentConfiguration { invocation: Some(invocation) }
    }

    /// Appends one argument, given as the outcome of turning it into a
    /// document. An argument that could not be turned into a document is left
    /// out, and the arguments behind it move up.
    pub fn argument(&mut self, value: Result<serde_json::Value, serde_json::Error>) -> (configuration:
        &mut ArgumentConfiguration)
        ensures
            final(configuration).invocation() == final(self).invocation(),
            configuration.invocation() == (match (old(self).invocation(), value) {
                (Some(invocation), Ok(document)) => Some(
                    with_argument(invocation, json_model(document)),
                ),
                (before, _) => before,
            }),
    {
        let _ = self.try_argument(value);
        self
    }

    /// Appends one argument, given as the outcome of turning it into a
    /// document, and reports an argument that could not be turned into one. The
    /// invocation is then as it was.
    pub fn try_argument(&mut self, value: Result<serde_json::Value, serde_json::Error>) -> (r:
        Result<(), String>)
        ensures
            final(self).invocation() == (match (old(self).invocation(), value) {
                (Some(invocation), Ok(document)) => Some(
                    with_argument(invocation, json_model(document)),
                ),
                (before, _) => before,
            }),
            r is Err <==> old(self).invocation() is Some && value is Err,
    {
        match self.invocation.take() {
            Some(mut invocation) => {
                let r = invocation.with_argument(value);
                self.invocation = Some(invocation);
                r
            },
            None => Ok(()),
        }
    }

    /// The invocation with the arguments that were appended.
    pub fn build_invocation(self) -> (invocation: Invocation)
        requires
            self.invocation() is Some,
        ensures
            Some(invocation@) == self.invocation(),
    {
        self.invocation.unwrap()
    }
}

} // verus!
