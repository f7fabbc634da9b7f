//! Line framing: a message is the bytes before a line feed.

use vstd::prelude::*;

verus! {

/// The byte that ends a frame.
pub const LINE_FEED: u8 = 10;

/// The number of bytes before the first line feed of `buf`, and the length of
/// `buf` where it holds none.
pub open spec fn line_end(buf: Seq<u8>) -> int
    decreases buf.len(),
{
    if buf.len() == 0 || buf[0] == LINE_FEED {
        0
    } else {
        1 + line_end(buf.skip(1))
    }
}

/// Whether `buf` holds a whole frame: a line feed.
pub open spec fn has_frame(buf: Seq<u8>) -> bool {
    line_end(buf) < buf.len()
}

/// The first frame of `buf`: the bytes before its first line feed.
pub open spec fn first_frame(buf: Seq<u8>) -> Seq<u8> {
    buf.take(line_end(buf))
}

/// What follows the first frame of `buf` and its line feed.
pub open spec fn after_first_frame(buf: Seq<u8>) -> Seq<u8> {
    buf.skip(line_end(buf) + 1)
}

/// All the whole frames of `buf`, in order.
pub open spec fn frames(buf: Seq<u8>) -> Seq<Seq<u8>>
    decreases buf.len(),
{
    if has_frame(buf) {
        proof {
            lemma_line_end(buf);
        }
        seq![first_frame(buf)] + frames(after_first_frame(buf))
    } else {
        Seq::empty()
    }
}

/// The bytes after the last line feed of `buf`: the part of a frame that has
/// come so far.
pub open spec fn remainder(buf: Seq<u8>) -> Seq<u8>
    decreases buf.len(),
{
    if has_frame(buf) {
        proof {
            lemma_line_end(buf);
        }
        remainder(after_first_frame(buf))
    } else {
        buf
    }
}

/// The number of line feeds in `buf`.
pub open spec fn line_feeds(buf: Seq<u8>) -> nat
    decreases buf.len(),
{
    if buf.len() == 0 {
        0
    } else if buf[0] == LINE_FEED {
        1 + line_feeds(buf.skip(1))
    } else {
        line_feeds(buf.skip(1))
    }
}

/// The frames, each followed by a line feed, one after the other.
pub open spec fn joined(frames: Seq<Seq<u8>>) -> Seq<u8>
    decreases frames.len(),
{
    if frames.len() == 0 {
        Seq::empty()
    } else {
        frames[0] + seq![LINE_FEED] + joined(frames.skip(1))
    }
}

/// `line_end` is the place of the first line feed: it lies within the
/// buffer, no byte before it is a line feed, and where it is short of the end
/// the byte there is one.
pub proof fn lemma_line_end(buf: Seq<u8>)
    ensures
        0 <= line_end(buf) <= buf.len(),
        forall|i: int| 0 <= i < line_end(buf) ==> buf[i] != LINE_FEED,
        has_frame(buf) ==> buf[line_end(buf)] == LINE_FEED,
    decreases buf.len(),
{
    if buf.len() == 0 || buf[0] == LINE_FEED {
    } else {
        let rest = buf.skip(1);
        lemma_line_end(rest);
        assert forall|i: int| 0 <= i < line_end(buf) implies buf[i] != LINE_FEED by {
            if i > 0 {
                assert(buf[i] == rest[i - 1]);
            }
        }
        if has_frame(buf) {
            assert(buf[line_end(buf)] == rest[line_end(rest)]);
        }
    }
}

/// The first line feed is where a line feed stands with none before it.
pub proof fn lemma_line_end_is(buf: Seq<u8>, at: int)
    requires
        0 <= at <= buf.len(),
        forall|i: int| 0 <= i < at ==> buf[i] != LINE_FEED,
        at < buf.len() ==> buf[at] == LINE_FEED,
    ensures
        line_end(buf) == at,
{
    lemma_line_end(buf);
    let found = line_end(buf);
    if found < at {
        assert(buf[found] != LINE_FEED);
    }
    if at < found {
        assert(buf[at] != LINE_FEED);
    }
}

/// A buffer has as many whole frames as line feeds.
pub proof fn lemma_one_frame_per_line_feed(buf: Seq<u8>)
    ensures
        frames(buf).len() == line_feeds(buf),
    decreases buf.len(),
{
    lemma_line_end(buf);
    lemma_line_feeds_after(buf, line_end(buf));
    if has_frame(buf) {
        lemma_one_frame_per_line_feed(after_first_frame(buf));
        assert(buf.skip(line_end(buf)).skip(1) =~= after_first_frame(buf));
    } else {
        assert(buf.skip(line_end(buf)) =~= Seq::<u8>::empty());
    }
}

/// Bytes that are no line feeds can be dropped from the front without
/// changing the count of line feeds.
proof fn lemma_line_feeds_after(buf: Seq<u8>, at: int)
    requires
        0 <= at <= buf.len(),
        forall|i: int| 0 <= i < at ==> buf[i] != LINE_FEED,
    ensures
        line_feeds(buf) == line_feeds(buf.skip(at)),
    decreases at,
{
    if at == 0 {
        assert(buf.skip(0) =~= buf);
    } else {
        let rest = buf.skip(1);
        assert forall|i: int| 0 <= i < at - 1 implies rest[i] != LINE_FEED by {
            assert(rest[i] == buf[i + 1]);
        }
        lemma_line_feeds_after(rest, at - 1);
        assert(rest.skip(at - 1) =~= buf.skip(at));
    }
}

/// Framing loses nothing: no frame and no remainder holds a line feed, and
/// the frames with their line feeds, followed by the remainder, are the
/// buffer.
pub proof fn lemma_frames_partition(buf: Seq<u8>)
    ensures
        joined(frames(buf)) + remainder(buf) == buf,
        line_feeds(remainder(buf)) == 0,
        forall|k: int| 0 <= k < frames(buf).len() ==> line_feeds(#[trigger] frames(buf)[k]) == 0,
    decreases buf.len(),
{
    lemma_line_end(buf);
    if has_frame(buf) {
        let rest = after_first_frame(buf);
        let first = first_frame(buf);
        lemma_frames_partition(rest);
        assert(frames(buf).skip(1) =~= frames(rest));
        assert(frames(buf)[0] == first);
        assert(first + seq![LINE_FEED] + rest =~= buf);
        assert(joined(frames(buf)) + remainder(buf) =~= first + seq![LINE_FEED] + (joined(
            frames(rest),
        ) + remainder(rest)));
        lemma_no_line_feed(first);
        assert forall|k: int| 0 <= k < frames(buf).len() implies line_feeds(
            #[trigger] frames(buf)[k],
        ) == 0 by {
            if k > 0 {
                assert(frames(buf)[k] == frames(rest)[k - 1]);
            }
        }
    } else {
        assert(joined(frames(buf)) + remainder(buf) =~= buf);
        lemma_no_line_feed(buf);
    }
}

/// A buffer without a whole frame counts no line feed.
proof fn lemma_no_line_feed(buf: Seq<u8>)
    requires
        forall|i: int| 0 <= i < buf.len() ==> buf[i] != LINE_FEED,
    ensures
        line_feeds(buf) == 0,
        !has_frame(buf),
    decreases buf.len(),
{
    lemma_line_end_is(buf, buf.len() as int);
    if buf.len() > 0 {
        let rest = buf.skip(1);
        assert forall|i: int| 0 <= i < rest.len() implies rest[i] != LINE_FEED by {
            assert(rest[i] == buf[i + 1]);
        }
        lemma_no_line_feed(rest);
    }
}

/// Bytes that arrive later change no frame that is whole already: the first
/// frame of a buffer that has one stays the first frame, and what follows it
/// just grows.
pub proof fn lemma_first_frame_is_stable(buf: Seq<u8>, more: Seq<u8>)
    requires
        has_frame(buf),
    ensures
        has_frame(buf + more),
        first_frame(buf + more) == first_frame(buf),
        after_first_frame(buf + more) == after_first_frame(buf) + more,
{
    lemma_line_end(buf);
    let at = line_end(buf);
    let all = buf + more;
    assert forall|i: int| 0 <= i < at implies all[i] != LINE_FEED by {
        assert(all[i] == buf[i]);
    }
    assert(all[at] == buf[at]);
    lemma_line_end_is(all, at);
    assert(all.take(at) =~= buf.take(at));
    assert(all.skip(at + 1) =~= buf.skip(at + 1) + more);
}

/// Reading in pieces gives the frames of the whole: the frames of what was
/// read first, then the frames of its remainder followed by what was read
/// next; and the remainders agree.
pub proof fn lemma_frames_across_reads(buf: Seq<u8>, more: Seq<u8>)
    ensures
        frames(buf + more) == frames(buf) + frames(remainder(buf) + more),
        remainder(buf + more) == remainder(remainder(buf) + more),
    decreases buf.len(),
{
    lemma_line_end(buf);
    if has_frame(buf) {
        lemma_first_frame_is_stable(buf, more);
        lemma_frames_across_reads(after_first_frame(buf), more);
        assert(frames(buf + more) =~= frames(buf) + frames(remainder(buf) + more));
    } else {
        assert(frames(buf + more) =~= frames(buf) + frames(remainder(buf) + more));
    }
}

/// Takes the first frame out of `buf`, with its line feed, where `buf` holds
/// a whole frame; else leaves `buf` as it is.
pub fn take_frame(buf: &mut Vec<u8>) -> (frame: Option<Vec<u8>>)
    ensures
        match frame {
            Some(line) => {
                &&& has_frame(old(buf)@)
                &&& line@ == first_frame(old(buf)@)
                &&& final(buf)@ == after_first_frame(old(buf)@)
            },
            None => !has_frame(old(buf)@) && final(buf)@ == old(buf)@,
        },
{
    let mut at: usize = 0;
    while at < buf.len() && buf[at] != LINE_FEED
        invariant
            at <= buf.len(),
            buf@ == old(buf)@,
            forall|i: int| 0 <= i < at ==> buf[i] != LINE_FEED,
        decreases buf.len() - at,
    {
        at += 1;
    }
    proof {
        lemma_line_end_is(buf@, at as int);
    }
    if at == buf.len() {
        return None;
    }
    let mut rest = buf.split_off(at + 1);
    buf.truncate(at);
    std::mem::swap(buf, &mut rest);
    assert(rest@ =~= first_frame(old(buf)@));
    assert(buf@ =~= after_first_frame(old(buf)@));
    Some(rest)
}

/// Takes every whole frame out of `buf`, in order, and leaves the remainder.
pub fn take_frames(buf: &mut Vec<u8>) -> (lines: Vec<Vec<u8>>)
    ensures
        lines.deep_view() == frames(old(buf)@),
        final(buf)@ == remainder(old(buf)@),
{
    let mut lines: Vec<Vec<u8>> = Vec::new();
    loop
        invariant
            frames(old(buf)@) == lines.deep_view() + frames(buf@),
            remainder(old(buf)@) == remainder(buf@),
        decreases buf.len(),
    {
        let ghost before = buf@;
        let ghost taken = lines.deep_view();
        proof {
            lemma_line_end(before);
        }
        match take_frame(buf) {
            Some(line) => {
                lines.push(line);
                assert(lines.deep_view() =~~= taken.push(first_frame(before)));
                assert(lines.deep_view() + frames(buf@) =~~= taken + frames(before));
            },
            None => {
                assert(lines.deep_view() + frames(buf@) =~~= lines.deep_view());
                return lines;
            },
        }
    }
}

} // verus!
