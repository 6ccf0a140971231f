use crate::format::{decimal, push_decimal};
use vstd::prelude::*;

verus! {

/// `file:line error_msg: message`
pub open spec fn located_message(file: Seq<char>, line: u32, msg: Seq<char>) -> Seq<char> {
    file + ":"@ + decimal(line as nat) + " error_msg: "@ + msg
}

/// The text of an error raised at `line` of `file`, carrying `msg`.
pub fn error_message(file: &str, line: u32, msg: &str) -> (r: String)
    ensures
        r@ == located_message(file@, line, msg@),
{
    let mut s = String::from_str(file);
    s.append(":");
    push_decimal(&mut s, line);
    s.append(" error_msg: ");
    s.append(msg);
    proof {
        assert(s@ =~= located_message(file@, line, msg@));
    }
    s
}

} // verus!
