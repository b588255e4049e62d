//! The textual representation of a solver variable.
use vstd::prelude::*;

verus! {

/// The representation of a variable named `name`: `Variable('name')`.
pub fn variable_repr(name: &str) -> (r: String)
    ensures
        r@ == "Variable('"@ + name@ + "')"@,
{
    let mut out = String::from_str("Variable('");
    out.append(name);
    out.append("')");
    out
}

} // verus!
