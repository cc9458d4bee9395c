use vstd::prelude::*;

verus! {

/// A running port forward: the handle of its process, the pod it reaches and
/// the `local:remote` port pairs it forwards.
pub struct PortForward<H> {
    pub child: H,
    pub pod: String,
    pub ports: Vec<String>,
}

} // verus!
