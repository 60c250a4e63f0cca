use vstd::prelude::*;
use vstd::string::{StrSliceExecFns, StringExecFns};

verus! {

/// The whitespace the transcript cleanup strips.
pub open spec fn is_space(c: char) -> bool {
    c == ' ' || c == '\t' || c == '\n' || c == '\r'
}

/// The sequence with its leading whitespace removed.
pub open spec fn trim_front(s: Seq<char>) -> Seq<char>
    decreases s.len(),
{
    if s.len() == 0 {
        s
    } else if is_space(s[0]) {
        trim_front(s.drop_first())
    } else {
        s
    }
}

/// The sequence with its trailing whitespace removed.
pub open spec fn trim_back(s: Seq<char>) -> Seq<char>
    decreases s.len(),
{
    if s.len() == 0 {
        s
    } else if is_space(s.last()) {
        trim_back(s.drop_last())
    } else {
        s
    }
}

/// The sequence with surrounding whitespace removed.
pub open spec fn trimmed(s: Seq<char>) -> Seq<char> {
    trim_back(trim_front(s))
}

/// Skipping a wholly-whitespace prefix does not change the front trim.
proof fn lemma_trim_front_skip(s: Seq<char>, i: int)
    requires
        0 <= i <= s.len(),
        forall|j: int| 0 <= j < i ==> is_space(#[trigger] s[j]),
    ensures
        trim_front(s) == trim_front(s.subrange(i, s.len() as int)),
    decreases i,
{
    if i > 0 {
        assert(s.drop_first() =~= s.subrange(1, s.len() as int));
        lemma_trim_front_skip(s.drop_first(), i - 1);
        assert(s.drop_first().subrange(i - 1, s.drop_first().len() as int) =~= s.subrange(
            i,
            s.len() as int,
        ));
    } else {
        assert(s.subrange(0, s.len() as int) =~= s);
    }
}

/// Dropping a wholly-whitespace suffix does not change the back trim.
proof fn lemma_trim_back_skip(s: Seq<char>, i: int)
    requires
        0 <= i <= s.len(),
        forall|j: int| i <= j < s.len() ==> is_space(#[trigger] s[j]),
    ensures
        trim_back(s) == trim_back(s.subrange(0, i)),
    decreases s.len() - i,
{
    if i < s.len() {
        assert(is_space(s.last()));
        assert(s.drop_last() =~= s.subrange(0, s.len() - 1));
        lemma_trim_back_skip(s.subrange(0, s.len() - 1), i);
        assert(s.subrange(0, s.len() - 1).subrange(0, i) =~= s.subrange(0, i));
    } else {
        assert(s.subrange(0, s.len() as int) =~= s);
    }
}

/// Strips surrounding whitespace from a string.
pub fn trim_spaces(s: &str) -> (r: String)
    ensures
        r@ == trimmed(s@),
{
    let len = s.unicode_len();
    let mut start: usize = 0;
    loop
        invariant_except_break
            len == s@.len(),
            0 <= start <= len,
            forall|j: int| 0 <= j < start ==> is_space(#[trigger] s@[j]),
        ensures
            len == s@.len(),
            0 <= start <= len,
            forall|j: int| 0 <= j < start ==> is_space(#[trigger] s@[j]),
            start < len ==> !is_space(s@[start as int]),
        decreases len - start,
    {
        if start == len {
            break;
        }
        let c = s.get_char(start);
        if !(c == ' ' || c == '\t' || c == '\n' || c == '\r') {
            break;
        }
        start = start + 1;
    }
    let mut end: usize = len;
    loop
        invariant_except_break
            len == s@.len(),
            start <= end <= len,
            forall|j: int| end <= j < len ==> is_space(#[trigger] s@[j]),
        ensures
            len == s@.len(),
            start <= end <= len,
            forall|j: int| end <= j < len ==> is_space(#[trigger] s@[j]),
            end > start ==> !is_space(s@[end - 1]),
        decreases end,
    {
        if end == start {
            break;
        }
        let c = s.get_char(end - 1);
        if !(c == ' ' || c == '\t' || c == '\n' || c == '\r') {
            break;
        }
        end = end - 1;
    }
    proof {
        let f = s@.subrange(start as int, len as int);
        lemma_trim_front_skip(s@, start as int);
        if start < len {
            assert(trim_front(f) == f);
        } else {
            assert(f =~= Seq::<char>::empty());
        }
        lemma_trim_back_skip(f, end as int - start as int);
        assert(f.subrange(0, end as int - start as int) =~= s@.subrange(
            start as int,
            end as int,
        ));
        if end > start {
            assert(!is_space(s@[end - 1]));
            assert(s@.subrange(start as int, end as int).last() == s@[end - 1]);
            assert(trim_back(s@.subrange(start as int, end as int)) == s@.subrange(
                start as int,
                end as int,
            ));
        } else {
            assert(s@.subrange(start as int, end as int) =~= Seq::<char>::empty());
        }
    }
    let piece = s.substring_char(start, end);
    piece.to_owned()
}

/// The segments laid end to end, each followed by one space.
pub open spec fn joined_with_spaces(segs: Seq<String>) -> Seq<char>
    decreases segs.len(),
{
    if segs.len() == 0 {
        Seq::empty()
    } else {
        joined_with_spaces(segs.drop_last()) + segs.last()@ + seq![' ']
    }
}

/// What the transcription stage reports for a decoded recording: all
/// engine segments concatenated, separated by single spaces, with
/// surrounding whitespace trimmed.
pub open spec fn transcript_of(segs: Seq<String>) -> Seq<char> {
    trimmed(joined_with_spaces(segs))
}

/// Concatenates the engine's output segments with single spaces between
/// them and trims surrounding whitespace.
pub fn join_segments(segments: &Vec<String>) -> (r: String)
    ensures
        r@ == transcript_of(segments@),
{
    let mut acc = String::new();
    let mut i: usize = 0;
    proof {
        assert(segments@.take(0) =~= Seq::<String>::empty());
    }
    while i < segments.len()
        invariant
            0 <= i <= segments@.len(),
            acc@ == joined_with_spaces(segments@.take(i as int)),
        decreases segments@.len() - i,
    {
        let ghost prefix = segments@.take(i as int + 1);
        proof {
            assert(prefix.drop_last() =~= segments@.take(i as int));
            assert(prefix.last() == segments@[i as int]);
        }
        acc.append(segments[i].as_str());
        acc.append(" ");
        proof {
            reveal_strlit(" ");
            assert(" "@ =~= seq![' ']);
            assert(acc@ == joined_with_spaces(prefix));
        }
        i = i + 1;
    }
    proof {
        assert(segments@.take(segments@.len() as int) =~= segments@);
    }
    trim_spaces(acc.as_str())
}

/// Turns the engine's raw outcome into the transcription result: segments
/// become the joined, trimmed transcript, and an engine error surfaces as
/// an inference failure carrying the engine's own words — never partial
/// text.
pub fn transcription_result(outcome: Result<Vec<String>, String>) -> (r: Result<String, String>)
    ensures
        match outcome {
            Ok(segs) => r matches Ok(t) && t@ == transcript_of(segs@),
            Err(detail) => r matches Err(e) && e@ == "failed to run model: "@ + detail@,
        },
{
    match outcome {
        Ok(segs) => Ok(join_segments(&segs)),
        Err(detail) => {
            let mut e = String::from_str("failed to run model: ");
            e.append(detail.as_str());
            Err(e)
        },
    }
}

} // verus!
