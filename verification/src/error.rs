//! Error-message assembly: an error and the chain of its causes are
//! reported as one string, each layer's message separated by `": "`.

use vstd::prelude::*;
use vstd::string::StringExecFns;

verus! {

/// The messages of an error chain joined with `": "`: the outermost
/// message first, then each cause in order.
pub open spec fn joined_messages(messages: Seq<String>) -> Seq<char>
    decreases messages.len(),
{
    if messages.len() == 0 {
        Seq::empty()
    } else if messages.len() == 1 {
        messages[0]@
    } else {
        joined_messages(messages.drop_last()) + ": "@ + messages.last()@
    }
}

/// Combines the messages of an error and its causes, outermost first,
/// into a string of the form `"error: cause 1: cause 2: root cause"`.
pub fn error_full_message(messages: &Vec<String>) -> (r: String)
    ensures
        r@ == joined_messages(messages@),
{
    if messages.len() == 0 {
        let r = String::new();
        assert(r@ =~= joined_messages(messages@));
        return r;
    }
    let mut full_msg = messages[0].clone();
    let mut i: usize = 1;
    while i < messages.len()
        invariant
            1 <= i <= messages@.len(),
            full_msg@ == joined_messages(messages@.take(i as int)),
        decreases messages@.len() - i,
    {
        full_msg.append(": ");
        full_msg.append(messages[i].as_str());
        proof {
            let pre = messages@.take(i as int);
            let cur = messages@.take(i as int + 1);
            assert(cur.drop_last() =~= pre);
            assert(cur.last() == messages@[i as int]);
        }
        i += 1;
    }
    proof {
        assert(messages@.take(messages@.len() as int) =~= messages@);
    }
    full_msg
}

} // verus!
