use vstd::prelude::*;
use vstd::string::StringExecFns;

pub mod config;
pub mod context;
pub mod encrypt;
pub mod error;
pub mod hex;
pub mod kdf;
pub mod keygen;

verus! {

/// Builds the greeting shown on the start screen.
pub fn greet(name: &str) -> (r: String)
    ensures
        r@ == "Hello, "@ + name@ + "!"@,
{
    let mut s = String::new();
    s.append("Hello, ");
    s.append(name);
    s.append("!");
    proof {
        assert(s@ =~= "Hello, "@ + name@ + "!"@);
    }
    s
}

} // verus!
