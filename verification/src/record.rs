//! The output-file record written for each deleted message.

use vstd::prelude::*;
use vstd::string::StringExecFns;
use crate::models::{Message, MessageView};

verus! {

/// The line recorded for one deleted message:
/// `[<timestamp>] <author-username> (<author-id>): <content>` and a newline.
pub open spec fn record_line(m: MessageView) -> Seq<char> {
    "["@ + m.timestamp + "] "@ + m.author.username + " ("@ + m.author.id + "): "@ + m.content
        + "\n"@
}

/// Builds the output record for one deleted message.
pub fn format_record(m: &Message) -> (r: String)
    ensures
        r@ == record_line(m@),
{
    let mut r = String::new();
    r.append("[");
    r.append(m.timestamp.as_str());
    r.append("] ");
    r.append(m.author.username.as_str());
    r.append(" (");
    r.append(m.author.id.as_str());
    r.append("): ");
    r.append(m.content.as_str());
    r.append("\n");
    proof {
        assert(r@ =~= record_line(m@));
    }
    r
}

} // verus!
