//! What the code generator makes of one `<request>` element of the protocol
//! description: the names of the request and reply types, which child is the
//! reply, and the opcode.

use vstd::prelude::*;
use vstd::string::StringExecFns;

verus! {

/// The shape of the items generated for one request.
pub struct RequestPlan {
    /// `<Name>Request`.
    pub request_name: String,
    /// `<Name>Reply`, where the request has a reply.
    pub reply_name: Option<String>,
    /// The position among the children of the `<reply>` element that is taken
    /// out of the request's fields: the last one.
    pub reply_index: Option<usize>,
    pub opcode: usize,
}

/// The name of the element that describes a reply.
pub open spec fn reply_tag() -> Seq<char> {
    seq!['r', 'e', 'p', 'l', 'y']
}

/// The position of the last name that is `reply`.
pub fn reply_position(child_names: &Vec<String>) -> (r: Option<usize>)
    ensures
        match r {
            Some(i) => i < child_names@.len() && child_names@[i as int]@ == reply_tag() && forall|
                j: int,
            |
                i < j < child_names@.len() ==> child_names@[j]@ != reply_tag(),
            None => forall|j: int| 0 <= j < child_names@.len() ==> child_names@[j]@ != reply_tag(),
        },
{
    let tag = "reply".to_owned();
    proof {
        reveal_strlit("reply");
        assert(tag@ =~= reply_tag());
    }
    let mut i: usize = child_names.len();
    while i > 0
        invariant
            i <= child_names@.len(),
            tag@ == reply_tag(),
            forall|j: int| i <= j < child_names@.len() ==> child_names@[j]@ != reply_tag(),
        decreases i,
    {
        if child_names[i - 1] == tag {
            return Some(i - 1);
        }
        i = i - 1;
    }
    None
}

/// The plan for a request named `name` with these children: the request type
/// `<name>Request`, and `<name>Reply` from the last `<reply>` child, if any.
pub fn plan_request(name: &str, opcode: usize, child_names: &Vec<String>) -> (r: RequestPlan)
    ensures
        r.request_name@ == name@ + seq!['R', 'e', 'q', 'u', 'e', 's', 't'],
        r.opcode == opcode,
        r.reply_index == reply_position_spec(child_names@),
        match r.reply_index {
            Some(_) => r.reply_name matches Some(n) && n@ == name@ + seq!['R', 'e', 'p', 'l', 'y'],
            None => r.reply_name is None,
        },
{
    let reply_index = reply_position(child_names);
    proof {
        lemma_reply_position_spec(child_names@, reply_index);
    }
    let mut request_name = name.to_owned();
    request_name.append("Request");
    proof {
        reveal_strlit("Request");
        assert(request_name@ =~= name@ + seq!['R', 'e', 'q', 'u', 'e', 's', 't']);
    }
    let reply_name = match reply_index {
        Some(_) => {
            let mut n = name.to_owned();
            n.append("Reply");
            proof {
                reveal_strlit("Reply");
                assert(n@ =~= name@ + seq!['R', 'e', 'p', 'l', 'y']);
            }
            Some(n)
        },
        None => None,
    };
    RequestPlan { request_name, reply_name, reply_index, opcode }
}

/// The position of the last `reply` among `names`.
pub open spec fn reply_position_spec(names: Seq<String>) -> Option<usize>
    decreases names.len(),
{
    if names.len() == 0 {
        None
    } else if names.last()@ == reply_tag() {
        Some((names.len() - 1) as usize)
    } else {
        reply_position_spec(names.drop_last())
    }
}

proof fn lemma_reply_position_spec(names: Seq<String>, r: Option<usize>)
    requires
        match r {
            Some(i) => i < names.len() && names[i as int]@ == reply_tag() && forall|j: int|
                i < j < names.len() ==> names[j]@ != reply_tag(),
            None => forall|j: int| 0 <= j < names.len() ==> names[j]@ != reply_tag(),
        },
    ensures
        r == reply_position_spec(names),
    decreases names.len(),
{
    if names.len() > 0 {
        if names.last()@ == reply_tag() {
            if let Some(i) = r {
                assert(i == names.len() - 1);
            }
        } else {
            let rest = names.drop_last();
            lemma_reply_position_spec(rest, r);
        }
    }
}

} // verus!
