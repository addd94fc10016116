//! Byte-level record handling.
//!
//! A record is one log line as an opaque byte sequence; nothing here parses
//! its content. Two adapters need byte work nonetheless: a container log
//! stream arrives with embedded newlines that break single-line rendering,
//! and a raw stream transport delivers several newline-separated lines in
//! one read.

use vstd::prelude::*;

verus! {

/// Newline byte.
pub const LINE_FEED: u8 = 10;

/// Space byte.
pub const SPACE: u8 = 32;

/// Scanning tail of [`split_lines`]: the lines of `s` from position `i` on,
/// with `cur` the partial line read so far.
pub open spec fn split_acc(s: Seq<u8>, i: int, cur: Seq<u8>) -> Seq<Seq<u8>>
    decreases s.len() - i,
{
    if i < 0 || i >= s.len() {
        if cur.len() > 0 {
            seq![cur]
        } else {
            Seq::empty()
        }
    } else if s[i] == LINE_FEED {
        (if cur.len() > 0 {
            seq![cur]
        } else {
            Seq::empty()
        }) + split_acc(s, i + 1, Seq::empty())
    } else {
        split_acc(s, i + 1, cur.push(s[i]))
    }
}

/// The newline-separated lines of `s`, in order, with empty lines dropped.
pub open spec fn split_lines(s: Seq<u8>) -> Seq<Seq<u8>> {
    split_acc(s, 0, Seq::empty())
}

/// A proper line: non-empty and free of newlines.
pub open spec fn line_ok(l: Seq<u8>) -> bool {
    l.len() > 0 && forall|j: int| 0 <= j < l.len() ==> l[j] != LINE_FEED
}

/// Every element is a proper line.
pub open spec fn all_lines(rs: Seq<Seq<u8>>) -> bool {
    forall|k: int| 0 <= k < rs.len() ==> line_ok(#[trigger] rs[k])
}

/// Replaces every newline in a record by a space, so a multi-line chunk
/// from a container log renders as one line.
pub fn sanitize_record(bytes: &Vec<u8>) -> (r: Vec<u8>)
    ensures
        r@.len() == bytes@.len(),
        forall|i: int|
            0 <= i < bytes@.len() ==> r@[i] == (if bytes@[i] == LINE_FEED {
                SPACE
            } else {
                bytes@[i]
            }),
{
    let mut r: Vec<u8> = Vec::new();
    let mut i: usize = 0;
    while i < bytes.len()
        invariant
            0 <= i <= bytes@.len(),
            r@.len() == i,
            forall|j: int|
                0 <= j < i ==> r@[j] == (if bytes@[j] == LINE_FEED {
                    SPACE
                } else {
                    bytes@[j]
                }),
        decreases bytes@.len() - i,
    {
        let b = bytes[i];
        if b == LINE_FEED {
            r.push(SPACE);
        } else {
            r.push(b);
        }
        i = i + 1;
    }
    r
}

/// Splits one received chunk into the records it carries: the
/// newline-separated lines, in order, with empty lines dropped.
pub fn split_records(buf: &Vec<u8>) -> (out: Vec<Vec<u8>>)
    ensures
        Seq::new(out@.len(), |k: int| out@[k]@) == split_lines(buf@),
{
    let mut out: Vec<Vec<u8>> = Vec::new();
    let mut cur: Vec<u8> = Vec::new();
    let mut i: usize = 0;
    while i < buf.len()
        invariant
            0 <= i <= buf@.len(),
            Seq::new(out@.len(), |k: int| out@[k]@) + split_acc(buf@, i as int, cur@)
                == split_lines(buf@),
        decreases buf@.len() - i,
    {
        let ghost out0 = Seq::new(out@.len(), |k: int| out@[k]@);
        let b = buf[i];
        if b == LINE_FEED {
            if cur.len() > 0 {
                let ghost c = cur@;
                let done = cur;
                cur = Vec::new();
                out.push(done);
                proof {
                    let rest = split_acc(buf@, i + 1, Seq::empty());
                    assert(split_acc(buf@, i as int, c) == seq![c] + rest);
                    assert(Seq::new(out@.len(), |k: int| out@[k]@) =~= out0 + seq![c]);
                    assert((out0 + seq![c]) + rest =~= out0 + (seq![c] + rest));
                    assert(Seq::new(out@.len(), |k: int| out@[k]@) + split_acc(
                        buf@,
                        i + 1,
                        cur@,
                    ) == split_lines(buf@));
                }
            } else {
                proof {
                    assert(cur@ =~= Seq::<u8>::empty());
                    let rest = split_acc(buf@, i + 1, Seq::empty());
                    assert(split_acc(buf@, i as int, cur@) == Seq::<Seq<u8>>::empty() + rest);
                    assert(Seq::<Seq<u8>>::empty() + rest =~= rest);
                    assert(Seq::new(out@.len(), |k: int| out@[k]@) + split_acc(
                        buf@,
                        i + 1,
                        cur@,
                    ) == split_lines(buf@));
                }
            }
        } else {
            cur.push(b);
            proof {
                assert(Seq::new(out@.len(), |k: int| out@[k]@) + split_acc(buf@, i + 1, cur@)
                    == split_lines(buf@));
            }
        }
        i = i + 1;
    }
    if cur.len() > 0 {
        let ghost out0 = Seq::new(out@.len(), |k: int| out@[k]@);
        let ghost c = cur@;
        out.push(cur);
        proof {
            assert(split_acc(buf@, buf@.len() as int, c) == seq![c]);
            assert(Seq::new(out@.len(), |k: int| out@[k]@) =~= out0 + seq![c]);
        }
    } else {
        proof {
            assert(split_acc(buf@, buf@.len() as int, cur@) == Seq::<Seq<u8>>::empty());
            assert(Seq::new(out@.len(), |k: int| out@[k]@) + Seq::<Seq<u8>>::empty() =~= Seq::new(
                out@.len(),
                |k: int| out@[k]@,
            ));
        }
    }
    out
}

/// No record that `split_lines` yields is empty, and none contains a
/// newline: splitting really separates the lines and really drops the
/// blanks.
pub proof fn lemma_split_lines_are_lines(s: Seq<u8>)
    ensures
        all_lines(split_lines(s)),
{
    lemma_split_acc_lines(s, 0, Seq::empty());
}

proof fn lemma_split_acc_lines(s: Seq<u8>, i: int, cur: Seq<u8>)
    requires
        forall|j: int| 0 <= j < cur.len() ==> cur[j] != LINE_FEED,
    ensures
        all_lines(split_acc(s, i, cur)),
    decreases s.len() - i,
{
    if i < 0 || i >= s.len() {
        if cur.len() > 0 {
            assert forall|k: int| 0 <= k < split_acc(s, i, cur).len() implies line_ok(
                #[trigger] split_acc(s, i, cur)[k],
            ) by {
                assert(split_acc(s, i, cur)[k] == cur);
            }
        } else {
            assert(split_acc(s, i, cur).len() == 0);
        }
    } else if s[i] == LINE_FEED {
        lemma_split_acc_lines(s, i + 1, Seq::empty());
        let head: Seq<Seq<u8>> = if cur.len() > 0 {
            seq![cur]
        } else {
            Seq::empty()
        };
        let rest = split_acc(s, i + 1, Seq::empty());
        assert(split_acc(s, i, cur) == head + rest);
        assert forall|k: int| 0 <= k < split_acc(s, i, cur).len() implies line_ok(
            #[trigger] split_acc(s, i, cur)[k],
        ) by {
            if k < head.len() {
                assert(split_acc(s, i, cur)[k] == cur);
            } else {
                assert(split_acc(s, i, cur)[k] == rest[k - head.len()]);
                assert(line_ok(rest[k - head.len()]));
            }
        }
    } else {
        assert forall|j: int| 0 <= j < cur.push(s[i]).len() implies cur.push(s[i])[j]
            != LINE_FEED by {
            if j < cur.len() {
                assert(cur.push(s[i])[j] == cur[j]);
            } else {
                assert(cur.push(s[i])[j] == s[i]);
            }
        }
        lemma_split_acc_lines(s, i + 1, cur.push(s[i]));
        assert(split_acc(s, i, cur) == split_acc(s, i + 1, cur.push(s[i])));
    }
}

} // verus!
