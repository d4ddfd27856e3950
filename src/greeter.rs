use vstd::prelude::*;

verus! {

/// The demonstration greeting service.
#[derive(Debug, Default)]
pub struct MyGreeter {}

/// The reply text for a caller of the given name.
pub open spec fn greeting_of(name: Seq<char>) -> Seq<char> {
    "Hello "@ + name + "!"@
}

impl MyGreeter {
    /// Builds the reply message for `name`.
    pub fn say_hello(&self, name: &str) -> (r: String)
        ensures
            r@ == greeting_of(name@),
    {
        let mut s = String::from_str("Hello ");
        s.append(name);
        s.append("!");
        s
    }
}

} // verus!
