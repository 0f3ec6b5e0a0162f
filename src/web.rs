//! Helpers exposed to browser hosts.

use vstd::prelude::*;

verus! {

/// The greeting for `name`: `Hello from CrossGPU, <name>!`.
pub fn greet(name: &str) -> (r: String)
    ensures
        r@ == "Hello from CrossGPU, "@ + name@ + "!"@,
{
    let mut s = String::from_str("Hello from CrossGPU, ");
    s.append(name);
    s.append("!");
    s
}

} // verus!
