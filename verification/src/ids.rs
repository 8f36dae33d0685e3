//! Identifiers of operations and subscriptions: a prefix naming the kind, then a unique part.

use vstd::prelude::*;
use vstd::string::*;

use crate::text::{concat3, decimal, decimal_spec, trim, trim_spec};

verus! {

/// An identifier: the prefix, a hyphen, then the unique part without surrounding white space.
pub open spec fn id_spec(prefix: Seq<char>, unique: Seq<char>) -> Seq<char> {
    prefix + "-"@ + trim_spec(unique)
}

/// The identifier with `prefix` for the unique text `unique`, such as a random UUID read from the
/// kernel.
pub fn make_id(prefix: &str, unique: &str) -> (r: String)
    ensures
        r@ == id_spec(prefix@, unique@),
{
    let u = trim(unique);
    concat3(prefix, "-", u.as_str())
}

/// The unique part used when no random UUID can be read: the process id and the time.
pub fn fallback_unique(process_id: u32, now_ms: u64) -> (r: String)
    ensures
        r@ == decimal_spec(process_id as nat) + "-"@ + decimal_spec(now_ms as nat),
{
    let p = decimal(process_id as u64);
    let t = decimal(now_ms);
    concat3(p.as_str(), "-", t.as_str())
}

} // verus!
