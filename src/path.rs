//! Turning a raw operand into an absolute path.
use vstd::prelude::*;
use vstd::string::*;

verus! {

/// An operand is absolute when it starts with the path separator.
pub open spec fn is_absolute(name: Seq<char>) -> bool {
    name.len() > 0 && name[0] == '/'
}

/// The absolute path of an operand: absolute operands stand as they are,
/// relative ones are joined to the base directory with a single separator.
pub open spec fn absolute_path(name: Seq<char>, base: Seq<char>) -> Seq<char> {
    if is_absolute(name) {
        name
    } else {
        base + seq!['/'] + name
    }
}

/// Resolves `name` against the directory `base`.
pub fn resolve_path(name: &str, base: &str) -> (r: String)
    ensures
        r@ == absolute_path(name@, base@),
{
    if !name.is_empty() && name.get_char(0) == '/' {
        String::from_str(name)
    } else {
        proof {
            reveal_strlit("/");
        }
        let mut r = String::from_str(base);
        r.append("/");
        r.append(name);
        r
    }
}

} // verus!
