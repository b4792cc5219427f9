//! Handles to completion providers.
//!
//! A proxy is a named handle to one provider: the host spawns the provider
//! and hands the core its name and runtime actor id. The core only ever
//! selects a proxy by name and addresses requests to its actor id.

use vstd::prelude::*;

verus! {

/// A named handle to a completion provider.
#[derive(Debug)]
pub struct Proxy {
    pub name: String,
    pub actor_id: String,
}

/// Abstract value of a [`Proxy`].
pub struct ProxyView {
    pub name: Seq<char>,
    pub actor_id: Seq<char>,
}

impl View for Proxy {
    type V = ProxyView;

    open spec fn view(&self) -> ProxyView {
        ProxyView { name: self.name@, actor_id: self.actor_id@ }
    }
}

impl DeepView for Proxy {
    type V = ProxyView;

    open spec fn deep_view(&self) -> ProxyView {
        self.view()
    }
}

impl Clone for Proxy {
    fn clone(&self) -> (r: Self)
        ensures
            r@ == self@,
    {
        Proxy { name: self.name.clone(), actor_id: self.actor_id.clone() }
    }
}

impl Proxy {
    /// Wraps an already-spawned provider actor as a named handle.
    pub fn new(name: String, actor_id: String) -> (r: Self)
        ensures
            r@.name == name@,
            r@.actor_id == actor_id@,
    {
        Proxy { name, actor_id }
    }

    /// The provider's name.
    pub fn name(&self) -> (r: &String)
        ensures
            r@ == self@.name,
    {
        &self.name
    }

    /// The provider's runtime actor id.
    pub fn actor_id(&self) -> (r: &String)
        ensures
            r@ == self@.actor_id,
    {
        &self.actor_id
    }
}

} // verus!
