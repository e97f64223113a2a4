use vstd::prelude::*;

verus! {

/// A contiguous span of recognized speech with its transcribed text.
#[derive(Debug)]
pub struct Segment {
    pub start: i64,
    pub end: i64,
    pub text: String,
}

/// The mathematical model of a segment.
pub struct SegModel {
    pub start: int,
    pub end: int,
    pub text: Seq<char>,
}

impl View for Segment {
    type V = SegModel;

    open spec fn view(&self) -> SegModel {
        SegModel { start: self.start as int, end: self.end as int, text: self.text@ }
    }
}

/// The views of a sequence of segments.
pub open spec fn seg_views(ss: Seq<Segment>) -> Seq<SegModel> {
    ss.map_values(|s: Segment| s@)
}

/// The engine's raw per-index output for one segment: the text fetch and the
/// two timestamp fetches, each independently fallible, with the failure's
/// message on the error side.
pub struct SegmentFetch {
    pub text: Result<String, String>,
    pub start: Result<i64, String>,
    pub end: Result<i64, String>,
}

/// An index is kept exactly when both of its timestamp fetches succeeded.
pub open spec fn keeps(f: SegmentFetch) -> bool {
    f.start is Ok && f.end is Ok
}

/// The decimal digit `d` as a character.
pub open spec fn digit_char(d: int) -> char {
    if d == 0 {
        '0'
    } else if d == 1 {
        '1'
    } else if d == 2 {
        '2'
    } else if d == 3 {
        '3'
    } else if d == 4 {
        '4'
    } else if d == 5 {
        '5'
    } else if d == 6 {
        '6'
    } else if d == 7 {
        '7'
    } else if d == 8 {
        '8'
    } else {
        '9'
    }
}

/// The decimal digits of `n`, most significant first.
pub open spec fn spec_dec(n: int) -> Seq<char>
    recommends
        n >= 0,
    decreases n,
{
    if n < 10 {
        seq![digit_char(n)]
    } else {
        spec_dec(n / 10).push(digit_char(n % 10))
    }
}

/// The substitute text for a segment whose text fetch failed at index `i`
/// with message `msg`.
pub open spec fn spec_placeholder(i: int, msg: Seq<char>) -> Seq<char> {
    "["@ + spec_dec(i) + "] failed to get segment: "@ + msg
}

/// The segment assembled from a kept fetch at index `i`: the fetched
/// timestamps, and the fetched text or — when the text fetch failed — the
/// placeholder embedding the index and the failure message.
pub open spec fn seg_model(f: SegmentFetch, i: int) -> SegModel
    recommends
        keeps(f),
{
    SegModel {
        start: (match f.start {
            Ok(v) => v as int,
            Err(_) => 0,
        }),
        end: (match f.end {
            Ok(v) => v as int,
            Err(_) => 0,
        }),
        text: (match f.text {
            Ok(t) => t@,
            Err(m) => spec_placeholder(i, m@),
        }),
    }
}

/// The ordered transcript assembled from the engine's raw fetches: segments
/// for exactly the indices whose two timestamp fetches succeeded, in
/// ascending index order.
pub open spec fn spec_extract(fs: Seq<SegmentFetch>) -> Seq<SegModel>
    decreases fs.len(),
{
    if fs.len() == 0 {
        Seq::empty()
    } else {
        let rest = spec_extract(fs.drop_last());
        if keeps(fs.last()) {
            rest.push(seg_model(fs.last(), fs.len() - 1))
        } else {
            rest
        }
    }
}

/// The indices the transcript keeps, in ascending order.
pub open spec fn kept_indices(fs: Seq<SegmentFetch>) -> Seq<int>
    decreases fs.len(),
{
    if fs.len() == 0 {
        Seq::empty()
    } else {
        let rest = kept_indices(fs.drop_last());
        if keeps(fs.last()) {
            rest.push(fs.len() - 1)
        } else {
            rest
        }
    }
}

/// The partial-failure policy of transcript assembly, in full: the result
/// has one segment per kept index, never more segments than fetches; the
/// kept indices appear in strictly ascending order and are exactly those
/// whose start and end fetches both succeeded — an index whose timestamp
/// fetch failed is absent regardless of its text fetch.
pub proof fn lemma_extract_characterization(fs: Seq<SegmentFetch>)
    ensures
        spec_extract(fs).len() == kept_indices(fs).len(),
        kept_indices(fs).len() <= fs.len(),
        forall|k: int|
            0 <= k < kept_indices(fs).len() ==> 0 <= #[trigger] kept_indices(fs)[k] < fs.len()
                && keeps(fs[kept_indices(fs)[k]]) && spec_extract(fs)[k] == seg_model(
                fs[kept_indices(fs)[k]],
                kept_indices(fs)[k],
            ),
        forall|k: int|
            0 <= k < kept_indices(fs).len() - 1 ==> #[trigger] kept_indices(fs)[k] < kept_indices(
                fs,
            )[k + 1],
        forall|j: int|
            0 <= j < fs.len() && keeps(fs[j]) ==> #[trigger] kept_indices(fs).contains(j),
        forall|j: int|
            0 <= j < fs.len() && !keeps(fs[j]) ==> !(#[trigger] kept_indices(fs).contains(j)),
    decreases fs.len(),
{
    if fs.len() == 0 {
        assert forall|j: int| 0 <= j < fs.len() && keeps(fs[j]) implies #[trigger] kept_indices(
            fs,
        ).contains(j) by {}
    } else {
        let prefix = fs.drop_last();
        lemma_extract_characterization(prefix);
        assert(prefix.len() == fs.len() - 1);
        assert(forall|j: int| 0 <= j < prefix.len() ==> prefix[j] == fs[j]);
        let rest = kept_indices(prefix);
        assert forall|j: int| 0 <= j < fs.len() && keeps(fs[j]) implies #[trigger] kept_indices(
            fs,
        ).contains(j) by {
            if j < fs.len() - 1 {
                assert(rest.contains(j));
                let w = choose|w: int| 0 <= w < rest.len() && rest[w] == j;
                if keeps(fs.last()) {
                    assert(kept_indices(fs)[w] == j);
                } else {
                    assert(kept_indices(fs)[w] == j);
                }
            } else {
                assert(keeps(fs.last()));
                assert(kept_indices(fs)[kept_indices(fs).len() - 1] == j);
            }
        }
        assert forall|j: int|
            0 <= j < fs.len() && !keeps(fs[j]) implies !(#[trigger] kept_indices(fs).contains(
            j,
        )) by {
            if kept_indices(fs).contains(j) {
                let w = choose|w: int|
                    0 <= w < kept_indices(fs).len() && kept_indices(fs)[w] == j;
                if keeps(fs.last()) && w == kept_indices(fs).len() - 1 {
                    assert(j == fs.len() - 1);
                } else {
                    assert(rest[w] == j);
                    assert(rest.contains(j));
                }
            }
        }
    }
}

fn push_digit(s: &mut String, d: u64)
    requires
        d < 10,
    ensures
        final(s)@ == old(s)@ + seq![digit_char(d as int)],
{
    proof {
        reveal_strlit("0");
        reveal_strlit("1");
        reveal_strlit("2");
        reveal_strlit("3");
        reveal_strlit("4");
        reveal_strlit("5");
        reveal_strlit("6");
        reveal_strlit("7");
        reveal_strlit("8");
        reveal_strlit("9");
    }
    if d == 0 {
        s.append("0");
        proof {
            assert(s@ =~= old(s)@ + seq![digit_char(d as int)]);
        }
    } else if d == 1 {
        s.append("1");
        proof {
            assert(s@ =~= old(s)@ + seq![digit_char(d as int)]);
        }
    } else if d == 2 {
        s.append("2");
        proof {
            assert(s@ =~= old(s)@ + seq![digit_char(d as int)]);
        }
    } else if d == 3 {
        s.append("3");
        proof {
            assert(s@ =~= old(s)@ + seq![digit_char(d as int)]);
        }
    } else if d == 4 {
        s.append("4");
        proof {
            assert(s@ =~= old(s)@ + seq![digit_char(d as int)]);
        }
    } else if d == 5 {
        s.append("5");
        proof {
            assert(s@ =~= old(s)@ + seq![digit_char(d as int)]);
        }
    } else if d == 6 {
        s.append("6");
        proof {
            assert(s@ =~= old(s)@ + seq![digit_char(d as int)]);
        }
    } else if d == 7 {
        s.append("7");
        proof {
            assert(s@ =~= old(s)@ + seq![digit_char(d as int)]);
        }
    } else if d == 8 {
        s.append("8");
        proof {
            assert(s@ =~= old(s)@ + seq![digit_char(d as int)]);
        }
    } else {
        s.append("9");
        proof {
            assert(s@ =~= old(s)@ + seq![digit_char(d as int)]);
        }
    }
}

/// Formats `n` in decimal.
pub fn dec_string(n: u64) -> (r: String)
    ensures
        r@ == spec_dec(n as int),
    decreases n,
{
    if n < 10 {
        let mut s = String::new();
        push_digit(&mut s, n);
        proof {
            assert(s@ =~= spec_dec(n as int));
        }
        s
    } else {
        let mut s = dec_string(n / 10);
        push_digit(&mut s, n % 10);
        proof {
            assert(s@ =~= spec_dec(n as int));
        }
        s
    }
}

/// Builds the substitute text for a segment whose text fetch failed.
pub fn placeholder_text(i: u64, msg: &str) -> (r: String)
    ensures
        r@ == spec_placeholder(i as int, msg@),
{
    let mut s = String::from_str("[");
    let d = dec_string(i);
    s.append(d.as_str());
    s.append("] failed to get segment: ");
    s.append(msg);
    proof {
        assert(s@ =~= spec_placeholder(i as int, msg@));
    }
    s
}

/// Assembles the ordered transcript from the engine's raw per-index
/// fetches. For each index in ascending order: a failed text fetch
/// substitutes a placeholder embedding the index and the message; a failed
/// start or end fetch drops that index entirely, even when its text was
/// fetched; an index with both timestamps yields a segment. The output
/// order is exactly the engine's index order, with no re-sorting and no
/// monotonicity re-check.
pub fn extract_segments(fetches: &Vec<SegmentFetch>) -> (r: Vec<Segment>)
    ensures
        seg_views(r@) == spec_extract(fetches@),
{
    let n = fetches.len();
    let mut out: Vec<Segment> = Vec::new();
    let mut i: usize = 0;
    while i < n
        invariant
            i <= n,
            n == fetches@.len(),
            out@.len() == spec_extract(fetches@.take(i as int)).len(),
            forall|j: int|
                0 <= j < out@.len() ==> #[trigger] out@[j]@ == spec_extract(
                    fetches@.take(i as int),
                )[j],
        decreases n - i,
    {
        let f = &fetches[i];
        let keep = f.start.is_ok() && f.end.is_ok();
        if keep {
            let start: i64 = match &f.start {
                Ok(v) => *v,
                Err(_) => 0,
            };
            let end: i64 = match &f.end {
                Ok(v) => *v,
                Err(_) => 0,
            };
            let text: String = match &f.text {
                Ok(t) => t.clone(),
                Err(m) => placeholder_text(i as u64, m.as_str()),
            };
            out.push(Segment { start, end, text });
        }
        proof {
            assert(fetches@.take(i + 1).drop_last() =~= fetches@.take(i as int));
            assert(fetches@.take(i + 1).last() == fetches@[i as int]);
        }
        i = i + 1;
    }
    proof {
        assert(fetches@.take(n as int) =~= fetches@);
        assert(seg_views(out@) =~= spec_extract(fetches@));
    }
    out
}

} // verus!
