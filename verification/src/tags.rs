//! The tag list accompanying an upload.
//!
//! Callers hand the tag field over as one comma-separated text; the tags
//! are the segments between the commas, each with surrounding whitespace
//! removed.

use vstd::prelude::*;

verus! {

use vstd::string::StringExecFns;
use crate::transcode::{trim, trim_spec};

/// How many leading characters are not a comma.
pub open spec fn before_comma(s: Seq<char>) -> int
    decreases s.len(),
{
    if s.len() > 0 && s.first() != ',' {
        1 + before_comma(s.drop_first())
    } else {
        0
    }
}

/// The comma scan stops inside the sequence.
pub proof fn lemma_before_comma_bounds(s: Seq<char>)
    ensures
        0 <= before_comma(s) <= s.len(),
    decreases s.len(),
{
    if s.len() > 0 && s.first() != ',' {
        lemma_before_comma_bounds(s.drop_first());
    }
}

/// The tags of one comma-separated text: the segments between the
/// commas, in order, each trimmed of surrounding whitespace. A text
/// without commas yields its single trimmed segment.
pub open spec fn spec_tags(s: Seq<char>) -> Seq<Seq<char>>
    decreases s.len(),
    via spec_tags_decreases
{
    let k = before_comma(s);
    if k == s.len() {
        seq![trim_spec(s)]
    } else {
        seq![trim_spec(s.take(k))] + spec_tags(s.skip(k + 1))
    }
}

#[via_fn]
proof fn spec_tags_decreases(s: Seq<char>) {
    lemma_before_comma_bounds(s);
}

/// The tag list of one upload.
#[derive(Debug)]
pub struct Tags(pub Vec<String>);

impl Tags {
    /// Split a comma-separated text into trimmed tags.
    #[verifier::loop_isolation(false)]
    pub fn parse(text: &str) -> (r: Tags)
        ensures
            r.0@.len() == spec_tags(text@).len(),
            forall|k: int|
                0 <= k < r.0@.len() ==> #[trigger] r.0@[k]@ == spec_tags(text@)[k],
    {
        let n = text.unicode_len();
        let mut tags: Vec<String> = Vec::new();
        let mut start: usize = 0;
        let mut i: usize = 0;
        proof {
            assert(text@.skip(0) =~= text@);
        }
        while i < n
            invariant
                start <= i <= n,
                spec_tags(text@) =~= tags@.map_values(|t: String| t@) + spec_tags(
                    text@.skip(start as int),
                ),
                forall|p: int| start <= p < i ==> text@[p] != ',',
            decreases n - i,
        {
            let c = text.get_char(i);
            if c == ',' {
                proof {
                    let suffix = text@.skip(start as int);
                    assert(forall|p: int|
                        0 <= p < suffix.len() ==> #[trigger] suffix[p] == text@[p + start]);
                    lemma_before_comma_at(suffix, i - start);
                }
                let segment = text.substring_char(start, i);
                proof {
                    assert(segment@ =~= text@.skip(start as int).take(i - start));
                }
                let tag = trim(segment).to_owned();
                proof {
                    let suffix = text@.skip(start as int);
                    assert(suffix.skip(i - start + 1) =~= text@.skip(i as int + 1));
                    assert((tags@.push(tag)).map_values(|t: String| t@) =~= tags@.map_values(
                        |t: String| t@,
                    ).push(tag@));
                }
                tags.push(tag);
                start = i + 1;
            }
            i = i + 1;
        }
        proof {
            let suffix = text@.skip(start as int);
            assert(forall|p: int|
                0 <= p < suffix.len() ==> #[trigger] suffix[p] == text@[p + start]);
            lemma_before_comma_whole(suffix);
        }
        let segment = text.substring_char(start, n);
        proof {
            assert(segment@ =~= text@.skip(start as int));
        }
        let tag = trim(segment).to_owned();
        proof {
            assert((tags@.push(tag)).map_values(|t: String| t@) =~= tags@.map_values(
                |t: String| t@,
            ).push(tag@));
            assert(spec_tags(text@.skip(start as int)) =~= seq![
                trim_spec(text@.skip(start as int)),
            ]);
        }
        tags.push(tag);
        proof {
            assert(tags@.map_values(|t: String| t@) =~= spec_tags(text@));
        }
        Tags(tags)
    }
}

/// In a sequence whose first `k` characters are not commas and whose
/// `k`-th is one, the comma scan stops exactly at `k`.
proof fn lemma_before_comma_at(s: Seq<char>, k: int)
    requires
        0 <= k < s.len(),
        forall|p: int| 0 <= p < k ==> s[p] != ',',
        s[k] == ',',
    ensures
        before_comma(s) == k,
    decreases k,
{
    if k > 0 {
        lemma_before_comma_at(s.drop_first(), k - 1);
    }
}

/// In a sequence without commas, the comma scan runs to the end.
proof fn lemma_before_comma_whole(s: Seq<char>)
    requires
        forall|p: int| 0 <= p < s.len() ==> s[p] != ',',
    ensures
        before_comma(s) == s.len(),
    decreases s.len(),
{
    if s.len() > 0 {
        lemma_before_comma_whole(s.drop_first());
    }
}

} // verus!
