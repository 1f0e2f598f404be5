//! The command safety filter: a raw shell command line is split on `;` and
//! `&` into segments, each segment is trimmed and its internal whitespace is
//! collapsed, and the resulting canonical form is classified against a fixed
//! allow policy. Only allowed segments may be spawned.

use vstd::prelude::*;
use crate::text::str_to_chars;
use crate::text::chars_to_string;
use crate::text::chars_eq_str;
use crate::text::chars_start_with;

verus! {

/// The characters on which a raw command line is split into segments.
pub open spec fn is_separator(c: char) -> bool {
    c == ';' || c == '&'
}

/// The whitespace characters that segment trimming and collapsing recognize.
pub open spec fn is_space(c: char) -> bool {
    c == ' ' || c == '\t' || c == '\n' || c == '\r'
}

fn is_separator_char(c: char) -> (r: bool)
    ensures
        r == is_separator(c),
{
    c == ';' || c == '&'
}

fn is_space_char(c: char) -> (r: bool)
    ensures
        r == is_space(c),
{
    c == ' ' || c == '\t' || c == '\n' || c == '\r'
}

/// The pieces of `cur + s` after `cur`'s part, split on separators: the
/// accumulating piece `cur` extended until the next separator, then the
/// pieces of the rest. Empty pieces are kept.
pub open spec fn split_from(s: Seq<char>, cur: Seq<char>) -> Seq<Seq<char>>
    decreases s.len(),
{
    if s.len() == 0 {
        seq![cur]
    } else if is_separator(s[0]) {
        seq![cur] + split_from(s.drop_first(), Seq::empty())
    } else {
        split_from(s.drop_first(), cur.push(s[0]))
    }
}

/// The raw pieces of `s` between separator characters, in order, empty
/// pieces included.
pub open spec fn raw_segments(s: Seq<char>) -> Seq<Seq<char>> {
    split_from(s, Seq::empty())
}

/// The normalization of the rest of a segment: `started` says whether a word
/// character was already emitted, `pending` whether a single space is owed
/// before the next word character. Leading and trailing whitespace vanish,
/// and every internal run of whitespace becomes one space.
pub open spec fn norm_from(s: Seq<char>, started: bool, pending: bool) -> Seq<char>
    decreases s.len(),
{
    if s.len() == 0 {
        Seq::empty()
    } else if is_space(s[0]) {
        norm_from(s.drop_first(), started, started)
    } else {
        (if pending {
            seq![' ']
        } else {
            Seq::empty()
        }) + seq![s[0]] + norm_from(s.drop_first(), true, false)
    }
}

/// The canonical form of a segment: trimmed, internal whitespace collapsed.
pub open spec fn normalize_spec(s: Seq<char>) -> Seq<char> {
    norm_from(s, false, false)
}

/// The normalized, non-empty segments of the given raw pieces, in order.
pub open spec fn plan_of(pieces: Seq<Seq<char>>) -> Seq<Seq<char>>
    decreases pieces.len(),
{
    if pieces.len() == 0 {
        Seq::empty()
    } else {
        (if normalize_spec(pieces[0]).len() > 0 {
            seq![normalize_spec(pieces[0])]
        } else {
            Seq::<Seq<char>>::empty()
        }) + plan_of(pieces.drop_first())
    }
}

/// The normalized, non-empty segments of a raw command line, in order.
pub open spec fn segment_plan_spec(s: Seq<char>) -> Seq<Seq<char>> {
    plan_of(raw_segments(s))
}

/// The allow policy on one normalized segment: exactly `ls`, anything that
/// begins with `ls `, and the two literal removals of `README_old.md`.
pub open spec fn spec_is_allowed(s: Seq<char>) -> bool {
    s == "ls"@ || ("ls "@.len() <= s.len() && s.subrange(0, "ls "@.len() as int) == "ls "@)
        || s == "rm README_old.md"@ || s == "rm ./README_old.md"@
}

fn allowed_chars(v: &Vec<char>) -> (r: bool)
    ensures
        r == spec_is_allowed(v@),
{
    chars_eq_str(v, "ls") || chars_start_with(v, "ls ") || chars_eq_str(v, "rm README_old.md")
        || chars_eq_str(v, "rm ./README_old.md")
}

/// Whether one normalized segment may be executed.
pub fn is_allowed(seg_norm: &str) -> (r: bool)
    ensures
        r == spec_is_allowed(seg_norm@),
{
    let v = str_to_chars(seg_norm);
    allowed_chars(&v)
}

fn normalize_chars(v: &Vec<char>) -> (out: Vec<char>)
    ensures
        out@ == normalize_spec(v@),
{
    let mut out: Vec<char> = Vec::new();
    let mut started = false;
    let mut pending = false;
    let mut i: usize = 0;
    proof {
        assert(v@.skip(0) =~= v@);
        assert(out@ + norm_from(v@, false, false) =~= norm_from(v@, false, false));
    }
    while i < v.len()
        invariant
            i <= v@.len(),
            pending ==> started,
            started == (out@.len() > 0),
            normalize_spec(v@) == out@ + norm_from(v@.skip(i as int), started, pending),
        decreases v@.len() - i,
    {
        let c = v[i];
        proof {
            assert(v@.skip(i as int)[0] == v@[i as int]);
            assert(v@.skip(i as int).drop_first() =~= v@.skip(i + 1 as int));
        }
        if is_space_char(c) {
            if started {
                pending = true;
            }
        } else {
            let ghost old_out = out@;
            let ghost was_pending = pending;
            if pending {
                out.push(' ');
                pending = false;
            }
            out.push(c);
            started = true;
            proof {
                assert(out@ =~= old_out + (if was_pending {
                    seq![' ']
                } else {
                    Seq::<char>::empty()
                }) + seq![c]);
                assert(normalize_spec(v@) == out@ + norm_from(v@.skip(i + 1 as int), true, false))
                    by {
                    assert(old_out + ((if was_pending {
                        seq![' ']
                    } else {
                        Seq::<char>::empty()
                    }) + seq![c] + norm_from(v@.skip(i + 1 as int), true, false)) =~= out@
                        + norm_from(v@.skip(i + 1 as int), true, false));
                };
            }
        }
        i += 1;
    }
    proof {
        assert(v@.skip(v@.len() as int) =~= Seq::<char>::empty());
        assert(out@ + Seq::<char>::empty() =~= out@);
    }
    out
}

fn split_chars(v: &Vec<char>) -> (r: Vec<Vec<char>>)
    ensures
        r@.map_values(|p: Vec<char>| p@) == raw_segments(v@),
{
    let mut pieces: Vec<Vec<char>> = Vec::new();
    let mut cur: Vec<char> = Vec::new();
    let mut i: usize = 0;
    proof {
        assert(v@.skip(0) =~= v@);
        assert(cur@ =~= Seq::<char>::empty());
        assert(pieces@.map_values(|p: Vec<char>| p@) + split_from(v@, cur@) =~= split_from(
            v@,
            Seq::empty(),
        ));
    }
    while i < v.len()
        invariant
            i <= v@.len(),
            raw_segments(v@) == pieces@.map_values(|p: Vec<char>| p@) + split_from(
                v@.skip(i as int),
                cur@,
            ),
        decreases v@.len() - i,
    {
        let c = v[i];
        proof {
            assert(v@.skip(i as int)[0] == v@[i as int]);
            assert(v@.skip(i as int).drop_first() =~= v@.skip(i + 1 as int));
        }
        if is_separator_char(c) {
            let ghost old_pieces = pieces@;
            let done = cur;
            cur = Vec::new();
            pieces.push(done);
            proof {
                assert(pieces@.map_values(|p: Vec<char>| p@) =~= old_pieces.map_values(
                    |p: Vec<char>| p@,
                ).push(done@));
                assert(old_pieces.map_values(|p: Vec<char>| p@) + (seq![done@] + split_from(
                    v@.skip(i + 1 as int),
                    Seq::empty(),
                )) =~= pieces@.map_values(|p: Vec<char>| p@) + split_from(
                    v@.skip(i + 1 as int),
                    cur@,
                ));
            }
        } else {
            cur.push(c);
        }
        i += 1;
    }
    let ghost old_pieces = pieces@;
    pieces.push(cur);
    proof {
        assert(v@.skip(v@.len() as int) =~= Seq::<char>::empty());
        assert(pieces@.map_values(|p: Vec<char>| p@) =~= old_pieces.map_values(|p: Vec<char>| p@)
            + seq![cur@]);
        assert(pieces@.map_values(|p: Vec<char>| p@) =~= raw_segments(v@));
    }
    pieces
}

/// One planned segment of a shell invocation: its canonical text and whether
/// the allow policy admits it.
pub struct Segment {
    pub text: String,
    pub allowed: bool,
}

/// The mathematical value of a [`Segment`].
pub struct SegmentV {
    pub text: Seq<char>,
    pub allowed: bool,
}

impl View for Segment {
    type V = SegmentV;

    open spec fn view(&self) -> SegmentV {
        SegmentV { text: self.text@, allowed: self.allowed }
    }
}

impl Clone for Segment {
    fn clone(&self) -> (r: Self)
        ensures
            r@ == self@,
    {
        Segment { text: self.text.clone(), allowed: self.allowed }
    }
}

/// A well-formed plan: each segment carries the verdict of the allow policy
/// on its own text.
pub open spec fn plan_wf(p: Seq<SegmentV>) -> bool {
    forall|i: int| 0 <= i < p.len() ==> (#[trigger] p[i]).allowed == spec_is_allowed(p[i].text)
}

/// The texts of a plan's segments.
pub open spec fn plan_texts(p: Seq<SegmentV>) -> Seq<Seq<char>> {
    p.map_values(|g: SegmentV| g.text)
}

/// The execution plan of a raw command line, as a mathematical value: each
/// normalized non-empty segment with the allow policy's verdict on it.
pub open spec fn plan_views_of(raw: Seq<char>) -> Seq<SegmentV> {
    segment_plan_spec(raw).map_values(
        |t: Seq<char>| SegmentV { text: t, allowed: spec_is_allowed(t) },
    )
}

/// A well-formed plan whose texts are the segments of `raw` is the plan of
/// `raw`.
pub proof fn lemma_plan_views(p: Seq<SegmentV>, raw: Seq<char>)
    requires
        plan_texts(p) == segment_plan_spec(raw),
        plan_wf(p),
    ensures
        p == plan_views_of(raw),
{
    assert(plan_texts(p).len() == p.len());
    assert forall|i: int| 0 <= i < p.len() implies p[i] == plan_views_of(raw)[i] by {
        assert(plan_texts(p)[i] == p[i].text);
        assert(plan_views_of(raw)[i] == SegmentV {
            text: segment_plan_spec(raw)[i],
            allowed: spec_is_allowed(segment_plan_spec(raw)[i]),
        });
    }
    assert(p =~= plan_views_of(raw));
}

/// Splits, trims, normalizes and classifies a raw command line into its
/// execution plan: one [`Segment`] per non-empty segment, in input order.
pub fn plan_command(raw: &str) -> (p: Vec<Segment>)
    ensures
        plan_texts(p@.map_values(|g: Segment| g@)) == segment_plan_spec(raw@),
        plan_wf(p@.map_values(|g: Segment| g@)),
{
    let chars = str_to_chars(raw);
    let pieces = split_chars(&chars);
    let ghost piece_views = pieces@.map_values(|p: Vec<char>| p@);
    let mut p: Vec<Segment> = Vec::new();
    let mut i: usize = 0;
    proof {
        assert(piece_views.skip(0) =~= piece_views);
        assert(plan_texts(p@.map_values(|g: Segment| g@)) + plan_of(piece_views) =~= plan_of(
            piece_views,
        ));
    }
    while i < pieces.len()
        invariant
            i <= pieces@.len(),
            piece_views == pieces@.map_values(|p: Vec<char>| p@),
            piece_views == raw_segments(raw@),
            segment_plan_spec(raw@) == plan_texts(p@.map_values(|g: Segment| g@)) + plan_of(
                piece_views.skip(i as int),
            ),
            plan_wf(p@.map_values(|g: Segment| g@)),
        decreases pieces@.len() - i,
    {
        proof {
            assert(piece_views.skip(i as int)[0] == piece_views[i as int]);
            assert(piece_views.skip(i as int).drop_first() =~= piece_views.skip(i + 1 as int));
            assert(piece_views[i as int] == pieces@[i as int]@);
        }
        let norm = normalize_chars(&pieces[i]);
        if norm.len() > 0 {
            let allowed = allowed_chars(&norm);
            let text = chars_to_string(&norm);
            let ghost old_views = p@.map_values(|g: Segment| g@);
            p.push(Segment { text, allowed });
            proof {
                assert(p@.map_values(|g: Segment| g@) =~= old_views.push(
                    SegmentV { text: norm@, allowed },
                ));
                assert(plan_texts(p@.map_values(|g: Segment| g@)) =~= plan_texts(old_views).push(
                    norm@,
                ));
                assert(plan_texts(old_views) + (seq![normalize_spec(piece_views[i as int])]
                    + plan_of(piece_views.skip(i + 1 as int))) =~= plan_texts(
                    p@.map_values(|g: Segment| g@),
                ) + plan_of(piece_views.skip(i + 1 as int)));
            }
        } else {
            proof {
                assert(Seq::<Seq<char>>::empty() + plan_of(piece_views.skip(i + 1 as int))
                    =~= plan_of(piece_views.skip(i + 1 as int)));
            }
        }
        i += 1;
    }
    proof {
        assert(piece_views.skip(piece_views.len() as int) =~= Seq::<Seq<char>>::empty());
        assert(plan_texts(p@.map_values(|g: Segment| g@)) + Seq::<Seq<char>>::empty()
            =~= plan_texts(p@.map_values(|g: Segment| g@)));
    }
    p
}

} // verus!
