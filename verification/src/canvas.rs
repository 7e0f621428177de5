//! The canvas model: committed strokes, placed text annotations, and the
//! proximity-based erase operation.
//!
//! A stroke is an ordered sequence of points captured during one drag; a
//! stroke with no points is never persisted. An annotation is a text label
//! with an anchor, a positive size, an orientation and a resolved font
//! reference. Between `clear` calls the two sequences only ever grow, except
//! through `erase_near`.

use vstd::prelude::*;
use vstd::string::*;
use crate::geometry::{dist_sq, in_disk, point_in_disk, Point};

verus! {

/// How an annotation's text is laid out when displayed.
#[derive(Copy, Clone, PartialEq, Eq, Structural, Debug)]
pub enum Orientation {
    Horizontal,
    Vertical,
}

impl Default for Orientation {
    fn default() -> (r: Self)
        ensures
            r == Orientation::Horizontal,
    {
        Orientation::Horizontal
    }
}

/// A placed text label.
pub struct Annotation {
    pub anchor: Point,
    pub text: String,
    /// Font size in whole canvas units; always at least 1.
    pub size: u32,
    pub orientation: Orientation,
    /// The resolved font family this label was placed with.
    pub font: String,
}

impl Annotation {
    /// A persisted annotation never has empty text or a zero size.
    pub open spec fn wf(self) -> bool {
        self.text@.len() > 0 && self.size >= 1
    }

    /// The text as the renderer must draw it: vertical labels get a line
    /// break between every pair of adjacent characters.
    pub fn display_text(&self) -> (r: String)
        ensures
            r@ == display_of(self.text@, self.orientation),
    {
        display_form(self.text.as_str(), self.orientation)
    }
}

/// The first `n` characters of `t` in vertical display form: a line break
/// between every pair of adjacent characters.
pub open spec fn vertical_prefix(t: Seq<char>, n: int) -> Seq<char>
    decreases n,
{
    if n <= 0 {
        Seq::empty()
    } else if n == 1 {
        seq![t[0]]
    } else {
        vertical_prefix(t, n - 1) + seq!['\n', t[n - 1]]
    }
}

/// The display form of a text under an orientation: horizontal text is shown
/// as it is, vertical text one character per line.
pub open spec fn display_of(t: Seq<char>, o: Orientation) -> Seq<char> {
    match o {
        Orientation::Horizontal => t,
        Orientation::Vertical => vertical_prefix(t, t.len() as int),
    }
}

/// Relies on `String::push`: appends the given character to the end of the
/// string.
#[verifier::external_body]
fn push_char(s: &mut String, c: char)
    ensures
        final(s)@ == old(s)@ + seq![c],
{
    s.push(c);
}

/// Computes the display form of `text` under `o`.
#[verifier::loop_isolation(false)]
pub fn display_form(text: &str, o: Orientation) -> (r: String)
    ensures
        r@ == display_of(text@, o),
{
    match o {
        Orientation::Horizontal => text.to_owned(),
        Orientation::Vertical => {
            let n = text.unicode_len();
            let mut out = String::new();
            let mut i: usize = 0;
            while i < n
                invariant
                    i <= n,
                    out@ == vertical_prefix(text@, i as int),
                decreases n - i,
            {
                let c = text.get_char(i);
                if i > 0 {
                    push_char(&mut out, '\n');
                }
                push_char(&mut out, c);
                proof {
                    if i == 0 {
                        assert(out@ =~= vertical_prefix(text@, 1));
                    } else {
                        assert(out@ =~= vertical_prefix(text@, i as int) + seq![
                            '\n',
                            text@[i as int],
                        ]);
                    }
                }
                i = i + 1;
            }
            out
        },
    }
}

/// Whether any sample point of a stroke lies strictly inside the disk of
/// radius `r` around `c` — the stroke-side erase criterion.
pub open spec fn stroke_hit(points: Seq<Point>, c: Point, r: u32) -> bool {
    exists|i: int| 0 <= i < points.len() && in_disk(points[i], c, r)
}

/// Decides `stroke_hit` for a committed stroke.
#[verifier::loop_isolation(false)]
fn stroke_hit_exec(points: &Vec<Point>, c: Point, r: u32) -> (hit: bool)
    ensures
        hit == stroke_hit(points@, c, r),
{
    let mut j: usize = 0;
    while j < points.len()
        invariant
            j <= points@.len(),
            forall|k: int| 0 <= k < j ==> !in_disk(points@[k], c, r),
        decreases points@.len() - j,
    {
        if point_in_disk(points[j], c, r) {
            return true;
        }
        j = j + 1;
    }
    false
}

/// The strokes that survive an erase at `c` with radius `r`: exactly those
/// with no point strictly inside the open disk, in their original order.
pub open spec fn retained_strokes(ss: Seq<Seq<Point>>, c: Point, r: u32) -> Seq<Seq<Point>> {
    ss.filter(|s: Seq<Point>| !stroke_hit(s, c, r))
}

/// The annotations that survive an erase at `c` with radius `r`: exactly
/// those whose anchor lies at distance at least `r`, in their original order.
pub open spec fn retained_annotations(aa: Seq<Annotation>, c: Point, r: u32) -> Seq<Annotation> {
    aa.filter(|a: Annotation| dist_sq(a.anchor, c) >= r * r)
}

/// The canvas: the ordered committed strokes (insertion order is draw order)
/// and the ordered placed annotations.
pub struct Canvas {
    pub strokes: Vec<Vec<Point>>,
    pub annotations: Vec<Annotation>,
}

/// A consistent read-only copy of the whole canvas, for a renderer.
pub struct Snapshot {
    pub strokes: Vec<Vec<Point>>,
    pub annotations: Vec<Annotation>,
}

/// Copies a stroke's points into a fresh vector.
#[verifier::loop_isolation(false)]
pub(crate) fn copy_points(points: &Vec<Point>) -> (r: Vec<Point>)
    ensures
        r@ == points@,
{
    let mut r: Vec<Point> = Vec::new();
    let mut i: usize = 0;
    while i < points.len()
        invariant
            i <= points@.len(),
            r@ == points@.take(i as int),
        decreases points@.len() - i,
    {
        r.push(points[i]);
        proof {
            assert(points@.take(i as int).push(points@[i as int]) =~= points@.take(i as int + 1));
        }
        i = i + 1;
    }
    proof {
        assert(points@.take(points@.len() as int) =~= points@);
    }
    r
}

/// Copies an annotation field by field; the copy equals the original.
fn copy_annotation(a: &Annotation) -> (r: Annotation)
    ensures
        r == *a,
{
    Annotation {
        anchor: a.anchor,
        text: a.text.clone(),
        size: a.size,
        orientation: a.orientation,
        font: a.font.clone(),
    }
}

impl Canvas {
    /// The strokes as plain point sequences.
    pub open spec fn strokes_view(&self) -> Seq<Seq<Point>> {
        self.strokes@.map_values(|s: Vec<Point>| s@)
    }

    /// Every persisted stroke is non-empty and every persisted annotation is
    /// well formed.
    pub open spec fn wf(&self) -> bool {
        (forall|i: int| 0 <= i < self.strokes_view().len() ==> self.strokes_view()[i].len() > 0)
            && (forall|i: int| 0 <= i < self.annotations@.len() ==> self.annotations@[i].wf())
    }

    /// A canvas starts empty.
    pub fn new() -> (c: Canvas)
        ensures
            c.strokes_view() == Seq::<Seq<Point>>::empty(),
            c.annotations@ == Seq::<Annotation>::empty(),
            c.wf(),
    {
        let c = Canvas { strokes: Vec::new(), annotations: Vec::new() };
        proof {
            assert(c.strokes_view() =~= Seq::<Seq<Point>>::empty());
        }
        c
    }

    /// Appends a finished stroke. An empty point list is rejected: the canvas
    /// is left untouched.
    pub fn commit_stroke(&mut self, points: Vec<Point>) -> (committed: bool)
        ensures
            committed == (points@.len() > 0),
            points@.len() == 0 ==> *final(self) == *old(self),
            points@.len() > 0 ==> final(self).strokes_view() == old(self).strokes_view().push(
                points@,
            ),
            points@.len() > 0 ==> final(self).annotations == old(self).annotations,
            old(self).wf() ==> final(self).wf(),
    {
        if points.len() == 0 {
            return false;
        }
        proof {
            assert(self.strokes@.push(points).map_values(|s: Vec<Point>| s@)
                =~= self.strokes_view().push(points@));
        }
        self.strokes.push(points);
        true
    }

    /// Appends a text label. Empty text or an unresolved font reference is
    /// rejected: the canvas is left untouched.
    pub fn place_annotation(
        &mut self,
        anchor: Point,
        text: &String,
        size: u32,
        orientation: Orientation,
        font: &Option<String>,
    ) -> (placed: bool)
        requires
            size >= 1,
        ensures
            placed == (text@.len() > 0 && *font is Some),
            !placed ==> *final(self) == *old(self),
            placed ==> final(self).annotations@ == old(self).annotations@.push(
                (Annotation { anchor, text: *text, size, orientation, font: (*font)->0 }),
            ),
            placed ==> final(self).strokes == old(self).strokes,
            old(self).wf() ==> final(self).wf(),
    {
        if text.as_str().is_empty() {
            return false;
        }
        match font {
            None => false,
            Some(family) => {
                let a = Annotation {
                    anchor,
                    text: text.clone(),
                    size,
                    orientation,
                    font: family.clone(),
                };
                proof {
                    assert(a.wf());
                }
                self.annotations.push(a);
                proof {
                    assert(self.strokes_view() =~= old(self).strokes_view());
                    if old(self).wf() {
                        assert forall|k: int|
                            0 <= k < self.annotations@.len() implies self.annotations@[k].wf() by {
                            if k < self.annotations@.len() - 1 {
                                assert(self.annotations@[k] == old(self).annotations@[k]);
                            }
                        }
                    }
                }
                true
            },
        }
    }

    /// Removes every stroke with a sample point strictly inside the open disk
    /// of radius `r` around `c`, and every annotation whose anchor is at
    /// distance less than `r` — so it retains exactly the annotations with
    /// anchor distance at least `r`. Everything else is kept, in order.
    #[verifier::loop_isolation(false)]
    pub fn erase_near(&mut self, c: Point, r: u32)
        ensures
            final(self).strokes_view() == retained_strokes(old(self).strokes_view(), c, r),
            final(self).annotations@ == retained_annotations(old(self).annotations@, c, r),
            forall|i: int, j: int|
                0 <= i < final(self).strokes_view().len()
                    && 0 <= j < final(self).strokes_view()[i].len()
                    ==> !in_disk(#[trigger] final(self).strokes_view()[i][j], c, r),
            forall|i: int|
                0 <= i < final(self).annotations@.len() ==> dist_sq(
                    final(self).annotations@[i].anchor,
                    c,
                ) >= r * r,
            old(self).wf() ==> final(self).wf(),
    {
        let ghost stroke_pred = (|s: Seq<Point>| !stroke_hit(s, c, r));
        let ghost anno_pred = (|a: Annotation| dist_sq(a.anchor, c) >= r * r);
        let ghost all_strokes = self.strokes_view();
        let ghost all_annos = self.annotations@;

        let mut kept: Vec<Vec<Point>> = Vec::new();
        let mut i: usize = 0;
        proof {
            assert(kept@.map_values(|s: Vec<Point>| s@) =~= all_strokes.take(0).filter(
                stroke_pred,
            )) by {
                reveal(Seq::filter);
                assert(all_strokes.take(0) =~= Seq::<Seq<Point>>::empty());
            }
        }
        while i < self.strokes.len()
            invariant
                *self == *old(self),
                i <= self.strokes@.len(),
                kept@.map_values(|s: Vec<Point>| s@) == all_strokes.take(i as int).filter(
                    stroke_pred,
                ),
            decreases self.strokes@.len() - i,
        {
            if !stroke_hit_exec(&self.strokes[i], c, r) {
                let copied = copy_points(&self.strokes[i]);
                let ghost pre_views = kept@.map_values(|s: Vec<Point>| s@);
                kept.push(copied);
                proof {
                    assert(kept@.map_values(|s: Vec<Point>| s@) =~= pre_views.push(copied@));
                    lemma_filter_step(all_strokes, stroke_pred, i as int);
                }
            } else {
                proof {
                    lemma_filter_step(all_strokes, stroke_pred, i as int);
                }
            }
            i = i + 1;
        }
        proof {
            assert(all_strokes.take(all_strokes.len() as int) =~= all_strokes);
        }
        self.strokes = kept;

        let mut kept_annos: Vec<Annotation> = Vec::new();
        let mut j: usize = 0;
        proof {
            assert(kept_annos@ =~= all_annos.take(0).filter(anno_pred)) by {
                reveal(Seq::filter);
                assert(all_annos.take(0) =~= Seq::<Annotation>::empty());
            }
        }
        while j < self.annotations.len()
            invariant
                self.annotations@ == all_annos,
                j <= self.annotations@.len(),
                kept_annos@ == all_annos.take(j as int).filter(anno_pred),
            decreases self.annotations@.len() - j,
        {
            let anchor = self.annotations[j].anchor;
            if !point_in_disk(anchor, c, r) {
                let copied = copy_annotation(&self.annotations[j]);
                kept_annos.push(copied);
                proof {
                    lemma_filter_step(all_annos, anno_pred, j as int);
                }
            } else {
                proof {
                    lemma_filter_step(all_annos, anno_pred, j as int);
                }
            }
            j = j + 1;
        }
        proof {
            assert(all_annos.take(all_annos.len() as int) =~= all_annos);
        }
        self.annotations = kept_annos;

        proof {
            assert forall|i2: int, j2: int|
                0 <= i2 < self.strokes_view().len() && 0 <= j2
                    < self.strokes_view()[i2].len() implies !in_disk(
                #[trigger] self.strokes_view()[i2][j2],
                c,
                r,
            ) by {
                all_strokes.lemma_filter_pred(stroke_pred, i2);
                assert(!stroke_hit(self.strokes_view()[i2], c, r));
            }
            assert forall|i2: int|
                0 <= i2 < self.annotations@.len() implies dist_sq(self.annotations@[i2].anchor, c)
                >= r * r by {
                all_annos.lemma_filter_pred(anno_pred, i2);
            }
            if old(self).wf() {
                assert forall|i2: int|
                    0 <= i2 < self.strokes_view().len() implies self.strokes_view()[i2].len()
                    > 0 by {
                    lemma_filter_elem_from(all_strokes, stroke_pred, i2);
                    let k = choose|k: int|
                        0 <= k < all_strokes.len() && all_strokes[k] == all_strokes.filter(
                            stroke_pred,
                        )[i2];
                    assert(all_strokes[k].len() > 0);
                }
                assert forall|i2: int|
                    0 <= i2 < self.annotations@.len() implies self.annotations@[i2].wf() by {
                    lemma_filter_elem_from(all_annos, anno_pred, i2);
                    let k = choose|k: int|
                        0 <= k < all_annos.len() && all_annos[k] == all_annos.filter(anno_pred)[i2];
                    assert(all_annos[k].wf());
                }
            }
        }
    }

    /// Empties both sequences.
    pub fn clear(&mut self)
        ensures
            final(self).strokes_view() == Seq::<Seq<Point>>::empty(),
            final(self).annotations@ == Seq::<Annotation>::empty(),
            final(self).wf(),
    {
        self.strokes = Vec::new();
        self.annotations = Vec::new();
        proof {
            assert(self.strokes_view() =~= Seq::<Seq<Point>>::empty());
        }
    }

    /// A consistent read-only copy of the whole canvas.
    #[verifier::loop_isolation(false)]
    pub fn snapshot(&self) -> (snap: Snapshot)
        ensures
            snap.strokes@.map_values(|s: Vec<Point>| s@) == self.strokes_view(),
            snap.annotations@ == self.annotations@,
    {
        let mut strokes: Vec<Vec<Point>> = Vec::new();
        let mut i: usize = 0;
        while i < self.strokes.len()
            invariant
                i <= self.strokes@.len(),
                strokes@.map_values(|s: Vec<Point>| s@) == self.strokes_view().take(i as int),
            decreases self.strokes@.len() - i,
        {
            let copied = copy_points(&self.strokes[i]);
            let ghost pre_views = strokes@.map_values(|s: Vec<Point>| s@);
            strokes.push(copied);
            proof {
                assert(strokes@.map_values(|s: Vec<Point>| s@) =~= pre_views.push(copied@));
                assert(pre_views.push(copied@) =~= self.strokes_view().take(i as int + 1));
            }
            i = i + 1;
        }
        let mut annotations: Vec<Annotation> = Vec::new();
        let mut j: usize = 0;
        while j < self.annotations.len()
            invariant
                j <= self.annotations@.len(),
                annotations@ == self.annotations@.take(j as int),
            decreases self.annotations@.len() - j,
        {
            annotations.push(copy_annotation(&self.annotations[j]));
            proof {
                assert(annotations@ =~= self.annotations@.take(j as int + 1));
            }
            j = j + 1;
        }
        proof {
            assert(self.strokes_view().take(self.strokes@.len() as int) =~= self.strokes_view());
            assert(self.annotations@.take(self.annotations@.len() as int) =~= self.annotations@);
        }
        Snapshot { strokes, annotations }
    }
}

/// Every element of a filtered sequence occurs in the sequence it was
/// filtered from.
proof fn lemma_filter_elem_from<A>(s: Seq<A>, pred: spec_fn(A) -> bool, i: int)
    requires
        0 <= i < s.filter(pred).len(),
    ensures
        exists|k: int| 0 <= k < s.len() && s[k] == s.filter(pred)[i],
    decreases s.len(),
{
    reveal(Seq::filter);
    if s.len() > 0 {
        let sub = s.drop_last().filter(pred);
        if pred(s.last()) && i == sub.len() {
            assert(s[s.len() - 1] == s.filter(pred)[i]);
        } else {
            lemma_filter_elem_from(s.drop_last(), pred, i);
            let k = choose|k: int|
                0 <= k < s.drop_last().len() && s.drop_last()[k] == s.drop_last().filter(pred)[i];
            assert(s[k] == s.filter(pred)[i]);
        }
    }
}

/// One step of a filter over a growing prefix: filtering the prefix one
/// longer appends the next element exactly when it satisfies the predicate.
proof fn lemma_filter_step<A>(s: Seq<A>, pred: spec_fn(A) -> bool, i: int)
    requires
        0 <= i < s.len(),
    ensures
        pred(s[i]) ==> s.take(i + 1).filter(pred) == s.take(i).filter(pred).push(s[i]),
        !pred(s[i]) ==> s.take(i + 1).filter(pred) == s.take(i).filter(pred),
{
    reveal(Seq::filter);
    assert(s.take(i + 1).drop_last() =~= s.take(i));
    assert(s.take(i + 1).last() == s[i]);
}

} // verus!
