//! The address of a handler.

use vstd::prelude::*;
use vstd::string::StringExecFns;

verus! {

/// The address of a handler: the name of the service, object or workflow,
/// the key of the object or workflow (empty for a service), and the name of
/// the handler.
#[derive(Debug, PartialEq, Eq)]
pub struct Target {
    pub service: String,
    pub key: String,
    pub handler: String,
}

/// What a [`Target`] holds.
pub struct TargetView {
    pub service: Seq<char>,
    pub key: Seq<char>,
    pub handler: Seq<char>,
}

impl View for Target {
    type V = TargetView;

    open spec fn view(&self) -> TargetView {
        TargetView { service: self.service@, key: self.key@, handler: self.handler@ }
    }
}

impl Clone for Target {
    fn clone(&self) -> (r: Self)
        ensures
            r@ == self@,
    {
        Target {
            service: self.service.clone(),
            key: self.key.clone(),
            handler: self.handler.clone(),
        }
    }
}

impl TargetView {
    /// The address of a handler of a service.
    pub open spec fn service(service: Seq<char>, handler: Seq<char>) -> TargetView {
        TargetView { service, key: Seq::empty(), handler }
    }

    /// The address of a handler of the object or workflow with a key.
    pub open spec fn keyed(service: Seq<char>, key: Seq<char>, handler: Seq<char>) -> TargetView {
        TargetView { service, key, handler }
    }
}

impl Target {
    /// The address of a handler of a service.
    pub fn service(service: &str, handler: &str) -> (t: Target)
        ensures
            t@ == TargetView::service(service@, handler@),
    {
        Target {
            service: String::from_str(service),
            key: String::new(),
            handler: String::from_str(handler),
        }
    }

    /// The address of a handler of the object or workflow with a key.
    pub fn keyed(service: &str, key: &str, handler: &str) -> (t: Target)
        ensures
            t@ == TargetView::keyed(service@, key@, handler@),
    {
        Target {
            service: String::from_str(service),
            key: String::from_str(key),
            handler: String::from_str(handler),
        }
    }
}

} // verus!
