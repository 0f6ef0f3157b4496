//! The structured failure of a create or an update.

use vstd::prelude::*;

use crate::text::copy_optional;

verus! {

/// Why a container could not be created: the kind of failure
/// (`PORT_IN_USE`, `NAME_IN_USE` or `DOCKER_ERROR`), a message for the user,
/// the port that was asked for where the port is the cause, and details.
#[derive(Debug)]
pub struct CreateContainerError {
    pub error_type: String,
    pub message: String,
    pub port: Option<i32>,
    pub details: Option<String>,
}

pub struct CreateContainerErrorView {
    pub error_type: Seq<char>,
    pub message: Seq<char>,
    pub port: Option<i32>,
    pub details: Option<Seq<char>>,
}

impl View for CreateContainerError {
    type V = CreateContainerErrorView;

    open spec fn view(&self) -> CreateContainerErrorView {
        CreateContainerErrorView {
            error_type: self.error_type@,
            message: self.message@,
            port: self.port,
            details: self.details.deep_view(),
        }
    }
}

impl DeepView for CreateContainerError {
    type V = CreateContainerErrorView;

    open spec fn deep_view(&self) -> CreateContainerErrorView {
        self@
    }
}

impl Clone for CreateContainerError {
    fn clone(&self) -> (r: Self)
        ensures
            r@ == self@,
    {
        CreateContainerError {
            error_type: self.error_type.clone(),
            message: self.message.clone(),
            port: self.port,
            details: copy_optional(&self.details),
        }
    }
}

} // verus!
