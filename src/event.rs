use vstd::prelude::*;

verus! {

/// An event sent by the embedded web content to the host.
#[derive(Clone, Copy, Debug, PartialEq, Eq, Structural)]
pub enum Event {
    /// The web content has loaded; the host builds and installs its menus.
    Load,
}

} // verus!
