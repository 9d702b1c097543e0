//! The page-stage filter predicate: which fetched messages qualify for
//! deletion.

use vstd::prelude::*;
use crate::models::{str_views, Message, MessageView};
use crate::text::{contains_substring, is_substring, lower_of, lowercase};

verus! {

/// A filter string hits a message's content when, after lowercasing both,
/// the filter is a substring of the content.
pub open spec fn filter_hits(content: Seq<char>, f: Seq<char>) -> bool {
    is_substring(lower_of(f), lower_of(content))
}

/// The filter predicate: a message qualifies when its author is the resolved
/// identity, or when any configured filter string hits its content
/// case-insensitively. With no filter strings configured, the author clause
/// alone decides.
pub open spec fn spec_qualifies(m: MessageView, self_id: Seq<char>, filters: Seq<Seq<char>>) -> bool {
    ||| m.author.id == self_id
    ||| exists|i: int| 0 <= i < filters.len() && #[trigger] filter_hits(m.content, filters[i])
}

/// Decides the filter predicate for one message.
pub fn message_qualifies(m: &Message, self_id: &String, filters: &Vec<String>) -> (b: bool)
    ensures
        b == spec_qualifies(m@, self_id@, str_views(filters@)),
{
    let ghost gfilters: Seq<Seq<char>> = str_views(filters@);
    if m.author.id == *self_id {
        return true;
    }
    let content_lower = lowercase(m.content.as_str());
    let mut i: usize = 0;
    while i < filters.len()
        invariant
            i <= filters.len(),
            gfilters == str_views(filters@),
            gfilters.len() == filters@.len(),
            content_lower@ == lower_of(m@.content),
            m@.author.id != self_id@,
            forall|j: int| 0 <= j < i ==> !(#[trigger] filter_hits(m@.content, gfilters[j])),
        decreases filters.len() - i,
    {
        let f_lower = lowercase(filters[i].as_str());
        if contains_substring(content_lower.as_str(), f_lower.as_str()) {
            assert(filter_hits(m@.content, gfilters[i as int]));
            return true;
        }
        i += 1;
    }
    false
}

/// Law: a message authored by the resolved identity qualifies, regardless of
/// its content and of the configured filter strings.
pub proof fn lemma_self_author_qualifies(m: MessageView, self_id: Seq<char>, filters: Seq<Seq<char>>)
    requires
        m.author.id == self_id,
    ensures
        spec_qualifies(m, self_id, filters),
{
}

/// Law: a message whose content is hit, case-insensitively, by some
/// configured filter string qualifies, whoever authored it.
pub proof fn lemma_filter_hit_qualifies(
    m: MessageView,
    self_id: Seq<char>,
    filters: Seq<Seq<char>>,
    i: int,
)
    requires
        0 <= i < filters.len(),
        filter_hits(m.content, filters[i]),
    ensures
        spec_qualifies(m, self_id, filters),
{
}

/// Law: a message matching neither the author condition nor any configured
/// filter string does not qualify.
pub proof fn lemma_no_match_no_qualify(m: MessageView, self_id: Seq<char>, filters: Seq<Seq<char>>)
    requires
        m.author.id != self_id,
        forall|i: int| 0 <= i < filters.len() ==> !(#[trigger] filter_hits(m.content, filters[i])),
    ensures
        !spec_qualifies(m, self_id, filters),
{
}

} // verus!
