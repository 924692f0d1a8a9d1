//! Embedding: the headers that an embedding call sends.

use crate::text::push_str;
use vstd::prelude::*;

verus! {

/// The user agent after the SDK's suffix is added: the suffix alone when
/// there was no user agent or an empty one, else the old one, a space and
/// the suffix.
pub open spec fn user_agent_with(existing: Option<Seq<char>>, suffix: Seq<char>) -> Seq<char> {
    match existing {
        Some(e) => if e.len() == 0 {
            suffix
        } else {
            e + seq![' '] + suffix
        },
        None => suffix,
    }
}

/// The user agent that an embedding call sends, from the one the caller
/// gave, if any, and the SDK's suffix.
pub fn user_agent_with_suffix(existing: Option<&str>, suffix: &str) -> (r: String)
    ensures
        r@ == user_agent_with(
            match existing {
                Some(e) => Some(e@),
                None => None,
            },
            suffix@,
        ),
{
    match existing {
        Some(e) => {
            if e.is_empty() {
                suffix.to_owned()
            } else {
                let mut s = e.to_owned();
                push_str(&mut s, " ");
                push_str(&mut s, suffix);
                proof {
                    reveal_strlit(" ");
                }
                s
            }
        },
        None => suffix.to_owned(),
    }
}

} // verus!
