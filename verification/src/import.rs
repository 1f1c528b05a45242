//! The line of the toolkit-wide stylesheet that imports the generated
//! stylesheet: how it is added once, and how every trace of it is removed.
//!
//! The toolkit-wide stylesheet belongs to the user and to other programs, so
//! it is handled as bytes and by lines: the pieces between line feeds.

use vstd::prelude::*;
use vstd::string::StringSliceAdditionalSpecFns;

verus! {

/// The byte that separates lines.
pub const LINE_FEED: u8 = 10;

/// Directory, below the user's configuration directory, of the toolkit's
/// own files.
pub const TOOLKIT: &'static str = "gtk-4.0";

/// Name of the generated stylesheet in the toolkit's directory.
pub const GENERATED: &'static str = "cosmic.css";

/// Name of the toolkit-wide stylesheet in the toolkit's directory.
pub const AGGREGATE: &'static str = "gtk.css";

/// The directive that imports the generated stylesheet.
pub const IMPORT: &'static str = "@import url(\"cosmic.css\");";

/// The bytes of the import directive.
pub open spec fn directive() -> Seq<u8> {
    IMPORT.spec_bytes()
}

/// Whether `pattern` stands in `text` at position `at`.
pub open spec fn occurs_at(text: Seq<u8>, pattern: Seq<u8>, at: int) -> bool {
    &&& 0 <= at
    &&& at + pattern.len() <= text.len()
    &&& text.subrange(at, at + pattern.len()) == pattern
}

/// Whether `pattern` stands somewhere in `text`.
pub open spec fn occurs(text: Seq<u8>, pattern: Seq<u8>) -> bool {
    exists|at: int| occurs_at(text, pattern, at)
}

/// Whether `at` is the first position of `text` at which `pattern` stands.
pub open spec fn is_first_occurrence(text: Seq<u8>, pattern: Seq<u8>, at: int) -> bool {
    &&& occurs_at(text, pattern, at)
    &&& forall|before: int| 0 <= before < at ==> !occurs_at(text, pattern, before)
}

/// The first position of `text` at which `pattern` stands, if there is one.
pub open spec fn first_occurrence(text: Seq<u8>, pattern: Seq<u8>) -> Option<int> {
    if exists|at: int| is_first_occurrence(text, pattern, at) {
        Some(choose|at: int| is_first_occurrence(text, pattern, at))
    } else {
        None
    }
}

/// `text` without the `length` bytes that start at `at`.
pub open spec fn cut(text: Seq<u8>, at: int, length: int) -> Seq<u8> {
    text.subrange(0, at) + text.subrange(at + length, text.len() as int)
}

/// `line` with `pattern` taken out of it, the first occurrence first, again
/// and again until the pattern occurs no more.
pub open spec fn strip(line: Seq<u8>, pattern: Seq<u8>) -> Seq<u8>
    decreases line.len(),
{
    match first_occurrence(line, pattern) {
        Some(at) => if pattern.len() > 0 {
            strip(cut(line, at, pattern.len() as int), pattern)
        } else {
            line
        },
        None => line,
    }
}

/// The lines of `text`: the pieces between its line feeds. A text without
/// a line feed is one line; a text that ends in a line feed has an empty
/// last line.
pub open spec fn lines(text: Seq<u8>) -> Seq<Seq<u8>>
    decreases text.len(),
{
    match text.index_of_first(LINE_FEED) {
        Some(at) => {
            proof {
                text.index_of_first_ensures(LINE_FEED);
            }
            seq![text.subrange(0, at)] + lines(text.subrange(at + 1, text.len() as int))
        },
        None => seq![text],
    }
}

/// The text whose lines are `lines`: the lines with a line feed between
/// each two.
pub open spec fn join(lines: Seq<Seq<u8>>) -> Seq<u8>
    decreases lines.len(),
{
    if lines.len() == 0 {
        Seq::empty()
    } else if lines.len() == 1 {
        lines[0]
    } else {
        lines[0] + seq![LINE_FEED] + join(lines.drop_first())
    }
}

/// The lines that stay when `pattern` is removed: a line that is exactly the
/// pattern goes, every other line stays, stripped of the pattern.
pub open spec fn kept_lines(lines: Seq<Seq<u8>>, pattern: Seq<u8>) -> Seq<Seq<u8>> {
    lines.filter_map(
        |line: Seq<u8>|
            if line == pattern {
                None
            } else {
                Some(strip(line, pattern))
            },
    )
}

/// `text` with `pattern` removed from it, line by line.
pub open spec fn without(text: Seq<u8>, pattern: Seq<u8>) -> Seq<u8> {
    join(kept_lines(lines(text), pattern))
}

/// `text` followed by `pattern` on a line of its own.
pub open spec fn appended(text: Seq<u8>, pattern: Seq<u8>) -> Seq<u8> {
    text + seq![LINE_FEED] + pattern + seq![LINE_FEED]
}

/// `text` with `pattern` made present: unchanged where the pattern already
/// occurs, else with the pattern appended on a line of its own.
pub open spec fn with(text: Seq<u8>, pattern: Seq<u8>) -> Seq<u8> {
    if occurs(text, pattern) {
        text
    } else {
        appended(text, pattern)
    }
}

/// The number of lines of `text` in which `pattern` occurs.
pub open spec fn lines_with(text: Seq<u8>, pattern: Seq<u8>) -> nat {
    lines(text).filter(|line: Seq<u8>| occurs(line, pattern)).len()
}

/// Whether none of `lines` holds a line feed.
pub open spec fn line_feed_free(lines: Seq<Seq<u8>>) -> bool {
    forall|k: int| 0 <= k < lines.len() ==> !(#[trigger] lines[k]).contains(LINE_FEED)
}

/// Whether `pattern` stands in `text` at position `at`.
pub fn matches_at(text: &[u8], pattern: &[u8], at: usize) -> (matches: bool)
    ensures
        matches == occurs_at(text@, pattern@, at as int),
{
    let length: usize = text.len();
    if at > length || pattern.len() > length - at {
        return false;
    }
    let mut i: usize = 0;
    while i < pattern.len()
        invariant
            i <= pattern@.len(),
            at + pattern@.len() <= text@.len() == length,
            forall|j: int| 0 <= j < i ==> text@[at + j] == pattern@[j],
        decreases pattern@.len() - i,
    {
        if text[at + i] != pattern[i] {
            return false;
        }
        i += 1;
    }
    assert(text@.subrange(at as int, at + pattern@.len()) =~= pattern@);
    true
}

/// Searches `text` for the first place at which `pattern` stands.
pub fn find(text: &[u8], pattern: &[u8]) -> (found: Option<usize>)
    ensures
        match found {
            Some(at) => first_occurrence(text@, pattern@) == Some(at as int),
            None => first_occurrence(text@, pattern@) is None,
        },
{
    proof {
        lemma_first_occurrence(text@, pattern@);
    }
    if pattern.len() > text.len() {
        return None;
    }
    let last: usize = text.len() - pattern.len();
    let mut at: usize = 0;
    loop
        invariant
            at <= last,
            last + pattern@.len() == text@.len(),
            forall|before: int| 0 <= before < at ==> !occurs_at(text@, pattern@, before),
            forall|first: int|
                is_first_occurrence(text@, pattern@, first) <==> first_occurrence(text@, pattern@)
                    == Some(first),
            first_occurrence(text@, pattern@) is Some <==> occurs(text@, pattern@),
        decreases last - at,
    {
        if matches_at(text, pattern, at) {
            return Some(at);
        }
        if at == last {
            return None;
        }
        at += 1;
    }
}

/// Appends the bytes of `part` to `out`.
pub fn push_all(out: &mut Vec<u8>, part: &[u8])
    ensures
        final(out)@ == old(out)@ + part@,
{
    let mut i: usize = 0;
    while i < part.len()
        invariant
            i <= part@.len(),
            out@ == old(out)@ + part@.subrange(0, i as int),
        decreases part@.len() - i,
    {
        out.push(part[i]);
        i += 1;
    }
}

/// Copies `text` but for the `length` bytes that start at `at`.
fn cut_bytes(text: &[u8], at: usize, length: usize) -> (rest: Vec<u8>)
    requires
        at + length <= text@.len(),
    ensures
        rest@ == cut(text@, at as int, length as int),
{
    let end: usize = text.len();
    let mut rest: Vec<u8> = Vec::new();
    push_all(&mut rest, vstd::slice::slice_subrange(text, 0, at));
    push_all(&mut rest, vstd::slice::slice_subrange(text, at + length, end));
    rest
}

/// Takes `pattern` out of `line` until it occurs no more. An empty pattern
/// leaves the line as it is.
pub fn strip_line(line: &[u8], pattern: &[u8]) -> (stripped: Vec<u8>)
    ensures
        stripped@ == strip(line@, pattern@),
{
    let mut stripped: Vec<u8> = Vec::new();
    push_all(&mut stripped, line);
    assert(stripped@ =~= line@);
    if pattern.len() == 0 {
        return stripped;
    }
    loop
        invariant
            pattern@.len() > 0,
            strip(stripped@, pattern@) == strip(line@, pattern@),
        decreases stripped@.len(),
    {
        match find(stripped.as_slice(), pattern) {
            Some(at) => {
                stripped = cut_bytes(stripped.as_slice(), at, pattern.len());
            },
            None => {
                return stripped;
            },
        }
    }
}

/// Removes `pattern` from `text`, line by line: a line that is exactly the
/// pattern is dropped, and so is every occurrence of the pattern inside
/// another line. All else stays as it is.
pub fn remove(text: &[u8], pattern: &[u8]) -> (rewritten: Vec<u8>)
    ensures
        rewritten@ == without(text@, pattern@),
{
    let length: usize = text.len();
    let mut rewritten: Vec<u8> = Vec::new();
    let mut any: bool = false;
    let mut start: usize = 0;
    let ghost mut done: Seq<Seq<u8>> = Seq::empty();
    assert(text@.subrange(0, length as int) =~= text@);
    loop
        invariant
            start <= length == text@.len(),
            lines(text@) == done + lines(text@.subrange(start as int, length as int)),
            rewritten@ == join(kept_lines(done, pattern@)),
            any == (kept_lines(done, pattern@).len() > 0),
        decreases length - start,
    {
        let ghost rest = text@.subrange(start as int, length as int);
        let mut end: usize = start;
        while end < length && text[end] != LINE_FEED
            invariant
                start <= end <= length == text@.len(),
                forall|i: int| start <= i < end ==> text@[i] != LINE_FEED,
            decreases length - end,
        {
            end += 1;
        }
        let line = vstd::slice::slice_subrange(text, start, end);
        proof {
            rest.index_of_first_ensures(LINE_FEED);
            if end < length {
                assert(rest[end - start] == LINE_FEED);
                assert(line@ =~= rest.subrange(0, end - start));
                assert(text@.subrange(end + 1, length as int) =~= rest.subrange(
                    end - start + 1,
                    rest.len() as int,
                ));
            } else {
                assert(done.push(line@) =~= done + lines(rest));
            }
            lemma_kept_lines_push(done, line@, pattern@);
            lemma_join_push(kept_lines(done, pattern@), strip(line@, pattern@));
        }
        if !crate::text::bytes_eq(line, pattern) {
            let stripped = strip_line(line, pattern);
            if any {
                rewritten.push(LINE_FEED);
            }
            push_all(&mut rewritten, stripped.as_slice());
            any = true;
        }
        proof {
            done = done.push(line@);
        }
        if end == length {
            return rewritten;
        }
        start = end + 1;
    }
}

/// A pattern that occurs has a first occurrence.
proof fn lemma_first_among(text: Seq<u8>, pattern: Seq<u8>, at: int)
    requires
        occurs_at(text, pattern, at),
    ensures
        exists|first: int| is_first_occurrence(text, pattern, first),
    decreases at,
{
    if exists|before: int| 0 <= before < at && occurs_at(text, pattern, before) {
        let before = choose|before: int| 0 <= before < at && occurs_at(text, pattern, before);
        lemma_first_among(text, pattern, before);
    } else {
        assert(is_first_occurrence(text, pattern, at));
    }
}

/// `first_occurrence` finds the pattern exactly when it occurs, and the
/// position it gives is the only first occurrence.
pub proof fn lemma_first_occurrence(text: Seq<u8>, pattern: Seq<u8>)
    ensures
        first_occurrence(text, pattern) is Some <==> occurs(text, pattern),
        forall|at: int|
            is_first_occurrence(text, pattern, at) <==> first_occurrence(text, pattern) == Some(at),
{
    if occurs(text, pattern) {
        let at = choose|at: int| occurs_at(text, pattern, at);
        lemma_first_among(text, pattern, at);
    }
}

/// A pattern occurs in itself.
pub proof fn lemma_occurs_itself(pattern: Seq<u8>)
    ensures
        occurs(pattern, pattern),
{
    assert(pattern.subrange(0, pattern.len() as int) =~= pattern);
    assert(occurs_at(pattern, pattern, 0));
}

/// What one more line adds to the lines that stay.
proof fn lemma_kept_lines_push(lines: Seq<Seq<u8>>, line: Seq<u8>, pattern: Seq<u8>)
    ensures
        kept_lines(lines.push(line), pattern) == if line == pattern {
            kept_lines(lines, pattern)
        } else {
            kept_lines(lines, pattern).push(strip(line, pattern))
        },
{
    assert(lines.push(line).drop_last() =~= lines);
}

/// What one more line adds to the joined text.
proof fn lemma_join_push(lines: Seq<Seq<u8>>, line: Seq<u8>)
    ensures
        join(lines.push(line)) == if lines.len() == 0 {
            line
        } else {
            join(lines) + seq![LINE_FEED] + line
        },
    decreases lines.len(),
{
    if lines.len() == 1 {
        assert(lines.push(line).drop_first() =~= seq![line]);
        assert(join(seq![line]) == line);
    } else if lines.len() > 1 {
        lemma_join_push(lines.drop_first(), line);
        assert(lines.push(line).drop_first() =~= lines.drop_first().push(line));
        assert(join(lines.push(line)) =~= join(lines) + seq![LINE_FEED] + line);
    }
}

/// A text has at least one line, and no line holds a line feed.
pub proof fn lemma_lines_shape(text: Seq<u8>)
    ensures
        lines(text).len() >= 1,
        line_feed_free(lines(text)),
    decreases text.len(),
{
    text.index_of_first_ensures(LINE_FEED);
    match text.index_of_first(LINE_FEED) {
        Some(at) => {
            let tail = text.subrange(at + 1, text.len() as int);
            lemma_lines_shape(tail);
        },
        None => {},
    }
}

/// Joining the lines of a text gives the text back.
pub proof fn lemma_join_lines(text: Seq<u8>)
    ensures
        join(lines(text)) == text,
    decreases text.len(),
{
    text.index_of_first_ensures(LINE_FEED);
    match text.index_of_first(LINE_FEED) {
        Some(at) => {
            let tail = text.subrange(at + 1, text.len() as int);
            lemma_join_lines(tail);
            lemma_lines_shape(tail);
            assert(lines(text).drop_first() =~= lines(tail));
        },
        None => {},
    }
}

/// Lines without line feeds, joined, split into the same lines again.
pub proof fn lemma_lines_join(parts: Seq<Seq<u8>>)
    requires
        parts.len() >= 1,
        line_feed_free(parts),
    ensures
        lines(join(parts)) == parts,
    decreases parts.len(),
{
    let text = join(parts);
    text.index_of_first_ensures(LINE_FEED);
    if parts.len() > 1 {
        let head = parts[0];
        let rest = parts.drop_first();
        lemma_lines_join(rest);
        assert(text[head.len() as int] == LINE_FEED);
        let at = text.index_of_first(LINE_FEED).unwrap();
        assert(text.subrange(0, at) =~= head);
        assert(text.subrange(at + 1, text.len() as int) =~= join(rest));
    }
}

/// The lines of two texts with a line feed between them are the lines of
/// the first followed by the lines of the second.
pub proof fn lemma_lines_concat(first: Seq<u8>, second: Seq<u8>)
    ensures
        lines(first + seq![LINE_FEED] + second) == lines(first) + lines(second),
    decreases first.len(),
{
    let text = first + seq![LINE_FEED] + second;
    text.index_of_first_ensures(LINE_FEED);
    first.index_of_first_ensures(LINE_FEED);
    assert(text[first.len() as int] == LINE_FEED);
    let at = text.index_of_first(LINE_FEED).unwrap();
    match first.index_of_first(LINE_FEED) {
        Some(inner) => {
            assert(text[inner] == LINE_FEED);
            let tail = first.subrange(inner + 1, first.len() as int);
            lemma_lines_concat(tail, second);
            assert(text.subrange(0, at) =~= first.subrange(0, inner));
            assert(text.subrange(at + 1, text.len() as int) =~= tail + seq![LINE_FEED] + second);
        },
        None => {
            assert(text.subrange(0, at) =~= first);
            assert(text.subrange(at + 1, text.len() as int) =~= second);
        },
    }
}

/// A pattern without a line feed that occurs in joined lines occurs inside
/// one of the lines.
pub proof fn lemma_occurs_in_some_line(parts: Seq<Seq<u8>>, pattern: Seq<u8>, at: int)
    requires
        pattern.len() > 0,
        !pattern.contains(LINE_FEED),
        occurs_at(join(parts), pattern, at),
    ensures
        exists|k: int| 0 <= k < parts.len() && occurs(#[trigger] parts[k], pattern),
    decreases parts.len(),
{
    let text = join(parts);
    if parts.len() > 1 {
        let head = parts[0];
        let rest = parts.drop_first();
        let found = text.subrange(at, at + pattern.len());
        if at + pattern.len() <= head.len() {
            assert(head.subrange(at, at + pattern.len()) =~= found);
            assert(occurs_at(head, pattern, at));
            assert(occurs(parts[0], pattern));
        } else if at > head.len() {
            let inner = at - head.len() - 1;
            assert(join(rest).subrange(inner, inner + pattern.len()) =~= found);
            lemma_occurs_in_some_line(rest, pattern, inner);
        } else {
            assert(found[head.len() - at] == LINE_FEED);
        }
    }
}

/// A pattern that occurs inside a line occurs in the joined lines.
pub proof fn lemma_occurs_in_join(parts: Seq<Seq<u8>>, pattern: Seq<u8>, k: int)
    requires
        0 <= k < parts.len(),
        occurs(parts[k], pattern),
    ensures
        occurs(join(parts), pattern),
    decreases parts.len(),
{
    let text = join(parts);
    if parts.len() > 1 {
        let head = parts[0];
        let rest = parts.drop_first();
        if k == 0 {
            let at = choose|at: int| occurs_at(head, pattern, at);
            assert(text.subrange(at, at + pattern.len()) =~= head.subrange(
                at,
                at + pattern.len(),
            ));
        } else {
            lemma_occurs_in_join(rest, pattern, k - 1);
            let inner = choose|at: int| occurs_at(join(rest), pattern, at);
            let at = head.len() + 1 + inner;
            assert(text.subrange(at, at + pattern.len()) =~= join(rest).subrange(
                inner,
                inner + pattern.len(),
            ));
            assert(occurs_at(text, pattern, at));
        }
    }
}

/// A stripped line holds the pattern no more, and holds a line feed only if
/// the line did.
pub proof fn lemma_strip(line: Seq<u8>, pattern: Seq<u8>)
    requires
        pattern.len() > 0,
    ensures
        !occurs(strip(line, pattern), pattern),
        !occurs(line, pattern) ==> strip(line, pattern) == line,
        !line.contains(LINE_FEED) ==> !strip(line, pattern).contains(LINE_FEED),
    decreases line.len(),
{
    lemma_first_occurrence(line, pattern);
    match first_occurrence(line, pattern) {
        Some(at) => {
            let rest = cut(line, at, pattern.len() as int);
            lemma_strip(rest, pattern);
        },
        None => {},
    }
}

/// No line that stays holds the pattern.
pub proof fn lemma_kept_lines_clean(lines: Seq<Seq<u8>>, pattern: Seq<u8>)
    requires
        pattern.len() > 0,
    ensures
        forall|k: int|
            0 <= k < kept_lines(lines, pattern).len() ==> !occurs(
                #[trigger] kept_lines(lines, pattern)[k],
                pattern,
            ),
    decreases lines.len(),
{
    if lines.len() > 0 {
        let last = lines.last();
        let front = lines.drop_last();
        lemma_kept_lines_clean(front, pattern);
        lemma_strip(last, pattern);
        lemma_kept_lines_push(front, last, pattern);
    }
}

/// The lines that stay hold no line feed if the lines they come from held
/// none.
pub proof fn lemma_kept_lines_free(lines: Seq<Seq<u8>>, pattern: Seq<u8>)
    requires
        pattern.len() > 0,
        line_feed_free(lines),
    ensures
        line_feed_free(kept_lines(lines, pattern)),
    decreases lines.len(),
{
    if lines.len() > 0 {
        let last = lines.last();
        let front = lines.drop_last();
        lemma_kept_lines_free(front, pattern);
        lemma_strip(last, pattern);
        lemma_kept_lines_push(front, last, pattern);
    }
}

/// Where no line holds the pattern, all lines stay as they are.
pub proof fn lemma_kept_lines_same(lines: Seq<Seq<u8>>, pattern: Seq<u8>)
    requires
        pattern.len() > 0,
        forall|k: int| 0 <= k < lines.len() ==> !occurs(#[trigger] lines[k], pattern),
    ensures
        kept_lines(lines, pattern) == lines,
    decreases lines.len(),
{
    if lines.len() > 0 {
        let last = lines.last();
        let front = lines.drop_last();
        lemma_kept_lines_same(front, pattern);
        lemma_strip(last, pattern);
        lemma_occurs_itself(pattern);
        lemma_kept_lines_push(front, last, pattern);
    }
}

/// Among lines that are the pattern or do not hold it, the lines that stay
/// are those that are not the pattern, as they are.
proof fn lemma_whole_lines(lines: Seq<Seq<u8>>, pattern: Seq<u8>)
    requires
        pattern.len() > 0,
        forall|k: int|
            0 <= k < lines.len() ==> (#[trigger] lines[k]) == pattern || !occurs(
                lines[k],
                pattern,
            ),
    ensures
        kept_lines(lines, pattern) == lines.filter(|line: Seq<u8>| line != pattern),
    decreases lines.len(),
{
    reveal(Seq::filter);
    if lines.len() > 0 {
        let last = lines.last();
        let front = lines.drop_last();
        lemma_whole_lines(front, pattern);
        lemma_kept_lines_push(front, last, pattern);
        lemma_strip(last, pattern);
    }
}

/// After the removal the pattern occurs nowhere in the text.
pub proof fn lemma_without_clean(text: Seq<u8>, pattern: Seq<u8>)
    requires
        pattern.len() > 0,
        !pattern.contains(LINE_FEED),
    ensures
        !occurs(without(text, pattern), pattern),
{
    let kept = kept_lines(lines(text), pattern);
    lemma_kept_lines_clean(lines(text), pattern);
    if occurs(join(kept), pattern) {
        let at = choose|at: int| occurs_at(join(kept), pattern, at);
        lemma_occurs_in_some_line(kept, pattern, at);
    }
}

/// The removal changes nothing in a text in which the pattern does not
/// occur.
pub proof fn lemma_without_absent(text: Seq<u8>, pattern: Seq<u8>)
    requires
        pattern.len() > 0,
        !occurs(text, pattern),
    ensures
        without(text, pattern) == text,
{
    lemma_join_lines(text);
    assert forall|k: int| 0 <= k < lines(text).len() implies !occurs(
        #[trigger] lines(text)[k],
        pattern,
    ) by {
        if occurs(lines(text)[k], pattern) {
            lemma_occurs_in_join(lines(text), pattern, k);
        }
    }
    lemma_kept_lines_same(lines(text), pattern);
}

/// The lines of the text after the removal are the lines that stay; when
/// no line stays, the text is empty.
pub proof fn lemma_without_lines(text: Seq<u8>, pattern: Seq<u8>)
    requires
        pattern.len() > 0,
    ensures
        kept_lines(lines(text), pattern).len() > 0 ==> lines(without(text, pattern))
            == kept_lines(lines(text), pattern),
        kept_lines(lines(text), pattern).len() == 0 ==> without(text, pattern).len() == 0,
{
    lemma_lines_shape(text);
    lemma_kept_lines_free(lines(text), pattern);
    if kept_lines(lines(text), pattern).len() > 0 {
        lemma_lines_join(kept_lines(lines(text), pattern));
    }
}

/// Where the pattern occurs only as whole lines, the removal drops these
/// lines and keeps every other line as it is.
pub proof fn lemma_without_whole_lines(text: Seq<u8>, pattern: Seq<u8>)
    requires
        pattern.len() > 0,
        forall|k: int|
            0 <= k < lines(text).len() ==> (#[trigger] lines(text)[k]) == pattern || !occurs(
                lines(text)[k],
                pattern,
            ),
    ensures
        kept_lines(lines(text), pattern) == lines(text).filter(|line: Seq<u8>| line != pattern),
{
    lemma_whole_lines(lines(text), pattern);
}

/// A pattern without a line feed occurs in a text exactly when it occurs in
/// one of its lines.
pub proof fn lemma_lines_with(text: Seq<u8>, pattern: Seq<u8>)
    requires
        pattern.len() > 0,
        !pattern.contains(LINE_FEED),
    ensures
        occurs(text, pattern) <==> lines_with(text, pattern) >= 1,
{
    let all = lines(text);
    let holds = |line: Seq<u8>| occurs(line, pattern);
    lemma_join_lines(text);
    if occurs(text, pattern) {
        let at = choose|at: int| occurs_at(text, pattern, at);
        lemma_occurs_in_some_line(all, pattern, at);
        let k = choose|k: int| 0 <= k < all.len() && occurs(#[trigger] all[k], pattern);
        all.lemma_filter_contains(holds, k);
    }
    if lines_with(text, pattern) >= 1 {
        let with = all.filter(holds);
        all.lemma_filter_pred(holds, 0);
        all.lemma_filter_contains_rev(holds, with[0]);
        let k = choose|k: int| 0 <= k < all.len() && all[k] == with[0];
        lemma_occurs_in_join(all, pattern, k);
    }
}

/// Making the pattern present makes it occur, and doing so again changes
/// nothing more.
pub proof fn lemma_with_present(text: Seq<u8>, pattern: Seq<u8>)
    ensures
        occurs(with(text, pattern), pattern),
        with(with(text, pattern), pattern) == with(text, pattern),
{
    if !occurs(text, pattern) {
        let after = appended(text, pattern);
        let at = text.len() as int + 1;
        assert(after.subrange(at, at + pattern.len()) =~= pattern);
        assert(occurs_at(after, pattern, at));
    }
}

/// Appending the pattern on a line of its own keeps every line of the text
/// and adds two: the pattern and the empty line after its line feed.
pub proof fn lemma_appended_lines(text: Seq<u8>, pattern: Seq<u8>)
    requires
        !pattern.contains(LINE_FEED),
    ensures
        lines(appended(text, pattern)) == lines(text) + seq![pattern, Seq::empty()],
{
    let none = Seq::<u8>::empty();
    let tail = pattern + seq![LINE_FEED] + none;
    assert(appended(text, pattern) =~= text + seq![LINE_FEED] + tail);
    lemma_lines_concat(text, tail);
    lemma_lines_concat(pattern, none);
    pattern.index_of_first_ensures(LINE_FEED);
    none.index_of_first_ensures(LINE_FEED);
}

/// In a text with at most one line that holds the pattern, making the
/// pattern present leaves exactly one such line.
pub proof fn lemma_with_once(text: Seq<u8>, pattern: Seq<u8>)
    requires
        pattern.len() > 0,
        !pattern.contains(LINE_FEED),
        lines_with(text, pattern) <= 1,
    ensures
        lines_with(with(text, pattern), pattern) == 1,
{
    lemma_lines_with(text, pattern);
    if !occurs(text, pattern) {
        let holds = |line: Seq<u8>| occurs(line, pattern);
        let none = Seq::<u8>::empty();
        let added = seq![pattern, none];
        lemma_appended_lines(text, pattern);
        Seq::filter_distributes_over_add(lines(text), added, holds);
        lemma_occurs_itself(pattern);
        assert(added =~= seq![pattern].push(none));
        reveal(Seq::filter);
        Seq::<Seq<u8>>::empty().lemma_filter_push(pattern, holds);
        seq![pattern].lemma_filter_push(none, holds);
    }
}

/// The import directive is not empty and holds no line feed.
pub proof fn lemma_directive()
    ensures
        directive().len() == 26,
        !directive().contains(LINE_FEED),
{
    reveal_strlit("@import url(\"cosmic.css\");");
    let text = IMPORT@;
    vstd::utf8::is_ascii_chars_encode_utf8(text);
}

/// The import directive names the generated stylesheet.
pub proof fn lemma_import_names_generated()
    ensures
        IMPORT@ == "@import url(\""@ + GENERATED@ + "\");"@,
{
    reveal_strlit("@import url(\"cosmic.css\");");
    reveal_strlit("@import url(\"");
    reveal_strlit("cosmic.css");
    reveal_strlit("\");");
}

} // verus!
