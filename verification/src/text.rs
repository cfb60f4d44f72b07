//! Operations on text that the request builders and the decoders share.

use vstd::prelude::*;
use vstd::string::*;

verus! {

/// `str`'s `==`: two string slices are equal exactly when they hold the same
/// characters in the same order.
pub assume_specification[ <str as PartialEq>::eq ](left: &str, right: &str) -> (same: bool)
    ensures
        same == (left@ == right@),
;

/// Where the last segment of a path begins: behind its last `/`, or at the
/// start of a path that has none.
pub open spec fn segment_start(path: Seq<char>) -> int
    decreases path.len(),
{
    if path.len() == 0 {
        0
    } else if path.last() == '/' {
        path.len() as int
    } else {
        segment_start(path.drop_last())
    }
}

/// What stands behind the last `/` of a path; the whole path where it has
/// none, and nothing where it ends in one.
pub open spec fn final_segment(path: Seq<char>) -> Seq<char> {
    path.skip(segment_start(path))
}

/// A path whose characters from `start` on hold no `/`, and which has one
/// just before `start` unless `start` is 0, has its last segment begin at
/// `start`.
pub proof fn lemma_segment_start(path: Seq<char>, start: int)
    requires
        0 <= start <= path.len(),
        start == 0 || path[start - 1] == '/',
        forall|k: int| start <= k < path.len() ==> path[k] != '/',
    ensures
        segment_start(path) == start,
    decreases path.len(),
{
    if path.len() > 0 && path.last() != '/' {
        lemma_segment_start(path.drop_last(), start);
    }
}

/// The last segment holds no `/`, and the path is what stands before it
/// followed by it.
pub proof fn lemma_final_segment(path: Seq<char>)
    ensures
        0 <= segment_start(path) <= path.len(),
        segment_start(path) == 0 || path[segment_start(path) - 1] == '/',
        forall|k: int| 0 <= k < final_segment(path).len() ==> final_segment(path)[k] != '/',
        path == path.take(segment_start(path)) + final_segment(path),
    decreases path.len(),
{
    if path.len() > 0 && path.last() != '/' {
        lemma_final_segment(path.drop_last());
        assert(final_segment(path) =~= final_segment(path.drop_last()).push(path.last()));
    }
    assert(path =~= path.take(segment_start(path)) + final_segment(path));
}

/// The last segment of an address that ends in `/` and an identifier is
/// that identifier, whatever stands before the `/`, as long as the
/// identifier itself holds no `/`.
pub proof fn lemma_final_segment_of_joined(prefix: Seq<char>, id: Seq<char>)
    requires
        forall|k: int| 0 <= k < id.len() ==> id[k] != '/',
    ensures
        final_segment(prefix + seq!['/'] + id) == id,
{
    let path = prefix + seq!['/'] + id;
    let start = prefix.len() as int + 1;
    lemma_segment_start(path, start);
    assert(path.skip(start) =~= id);
}

/// The last segment of a path.
pub fn last_segment(path: &str) -> (segment: String)
    ensures
        segment@ == final_segment(path@),
{
    let len = path.unicode_len();
    let mut start = len;
    while start > 0 && path.get_char(start - 1) != '/'
        invariant
            start <= len,
            len == path@.len(),
            forall|k: int| start <= k < len ==> path@[k] != '/',
        decreases start,
    {
        start -= 1;
    }
    proof {
        lemma_segment_start(path@, start as int);
    }
    String::from_str(path.substring_char(start, len))
}

/// `head` followed by `tail`.
pub fn join(head: &str, tail: &str) -> (joined: String)
    ensures
        joined@ == head@ + tail@,
{
    String::from_str(head).concat(tail)
}

} // verus!
