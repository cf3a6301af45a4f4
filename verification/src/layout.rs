//! Word layout and stitching: the central algorithm.
//!
//! Given a word and a ring radius, every consonant is assigned an evenly
//! spaced slot around the ring (the first at the top, -90 degrees) and each
//! vowel rides the most recently seen consonant. Each letter contributes its
//! base drawing and then its decoration drawings, in letter order; after
//! that, the letters with an edge are stitched in order, the first repeated
//! at the end, so the open shapes join into one continuous boundary.
//!
//! A word with no consonants has no angular step and is rejected; a word
//! with a vowel reaches the unimplemented vowel shape and is rejected; a
//! ring radius too large for a letter's gap half-width makes the law-of-
//! sines solve degenerate and is rejected. All three are reported as errors,
//! never computed through.

use vstd::prelude::*;

use crate::letter_parts::spec_base_drawing;
use crate::letter_parts::spec_decorations;
use crate::letters::letter_shape;
use crate::letters::spec_ending_angle;
use crate::letters::spec_starting_angle;
use crate::letters::GallifreyanCharacter;
use crate::letters::GallifreyanLetter;
use crate::letters::GallifreyanWord;
use crate::math_util::Degree;
use crate::math_util::Drawing;
use crate::math_util::GeometryError;
use crate::math_util::Polar;
use crate::math_util::Rational;

use vstd::pervasive::arbitrary;

verus! {

/// Largest word length and scalar component the layout accepts; far below
/// `COORD_CAP`, so every derived angle and radius stays exact.
pub const LAYOUT_CAP: i64 = 1000000;

/// How many letters of `w` are consonants.
pub open spec fn consonant_count(w: Seq<GallifreyanLetter>) -> int
    decreases w.len(),
{
    if w.len() == 0 {
        0
    } else {
        consonant_count(w.drop_last()) + if w.last().spec_is_vowel() {
            0int
        } else {
            1int
        }
    }
}

/// The ring slot of letter `i`: the number of consonants up to and including
/// it, less one. A consonant gets a slot of its own; a vowel repeats the
/// slot of the most recent consonant, and -1 stands before the first.
pub open spec fn slot_of(w: Seq<GallifreyanLetter>, i: int) -> int {
    consonant_count(w.take(i + 1)) - 1
}

/// The angle of ring slot `idx` among `n` consonants: `idx * (360/n) - 90`
/// degrees, kept exact with denominator `n`.
pub open spec fn spec_angle_at(idx: int, n: int) -> Degree {
    Degree(Rational { num: (360 * idx - 90 * n) as i64, den: n as i64 })
}

/// The polar position of letter `i` of `w` on a ring of the given radius.
pub open spec fn spec_position(w: Seq<GallifreyanLetter>, i: int, radius: Rational) -> Polar {
    Polar { radius, angle: spec_angle_at(slot_of(w, i), consonant_count(w)) }
}

/// The character of letter `i` of `w` at its assigned position; meaningful
/// only when the letter is a consonant.
pub open spec fn spec_char_at(
    w: Seq<GallifreyanLetter>,
    i: int,
    radius: Rational,
) -> GallifreyanCharacter {
    match letter_shape(w[i]) {
        Some(p) => GallifreyanCharacter {
            base: p.0,
            modifier: p.1,
            size: Rational { num: 2, den: 1 },
            position: spec_position(w, i, radius),
        },
        None => arbitrary(),
    }
}

/// All characters of `w`, in letter order.
pub open spec fn spec_chars(w: Seq<GallifreyanLetter>, radius: Rational) -> Seq<
    GallifreyanCharacter,
> {
    Seq::new(w.len(), |i: int| spec_char_at(w, i, radius))
}

/// What one character contributes to the drawing list: its base drawing,
/// then its decoration drawings.
pub open spec fn letter_drawing_seq(c: GallifreyanCharacter) -> Seq<Drawing> {
    seq![spec_base_drawing(c.base, c.position, c.size)] + spec_decorations(
        c.modifier,
        c.base,
        c.position,
        c.size,
    )
}

/// The drawings of all characters, in letter order.
pub open spec fn drawings_of(cs: Seq<GallifreyanCharacter>) -> Seq<Drawing>
    decreases cs.len(),
{
    if cs.len() == 0 {
        Seq::empty()
    } else {
        drawings_of(cs.drop_last()) + letter_drawing_seq(cs.last())
    }
}

/// The subsequence of characters with an edge, in original order.
pub open spec fn edge_chars(cs: Seq<GallifreyanCharacter>) -> Seq<GallifreyanCharacter>
    decreases cs.len(),
{
    if cs.len() == 0 {
        Seq::empty()
    } else if cs.last().spec_has_edge() {
        edge_chars(cs.drop_last()).push(cs.last())
    } else {
        edge_chars(cs.drop_last())
    }
}

/// The connecting arc from the ending edge of `a` to the starting edge of
/// `b`, at `a`'s ring radius.
pub open spec fn spec_stitch(a: GallifreyanCharacter, b: GallifreyanCharacter) -> Drawing {
    Drawing::StitchArc {
        radius: a.position.radius,
        start: spec_ending_angle(a),
        end: spec_starting_angle(b),
    }
}

/// The stitching arcs of `cs`: one per edge-bearing character, each joined
/// to the next and the last wrapping around to the first; none when no
/// character has an edge.
pub open spec fn spec_stitches(cs: Seq<GallifreyanCharacter>) -> Seq<Drawing> {
    let e = edge_chars(cs);
    Seq::new(
        e.len(),
        |i: int|
            spec_stitch(
                e[i],
                e[if i + 1 == e.len() {
                    0int
                } else {
                    i + 1
                }],
            ),
    )
}

/// The full layout of word `w` on a ring of the given radius: every
/// letter's base and decoration drawings in letter order, then the
/// stitching arcs. A word without consonants, a word with a vowel, and a
/// gap half-width outside the domain of `asin` are rejected, in that order
/// of precedence.
pub open spec fn spec_layout(w: Seq<GallifreyanLetter>, radius: Rational) -> Result<
    Seq<Drawing>,
    GeometryError,
> {
    if consonant_count(w) == 0 {
        Err(GeometryError::NoConsonants)
    } else if exists|i: int| 0 <= i < w.len() && w[i].spec_is_vowel() {
        Err(GeometryError::UnimplementedVowel)
    } else {
        let cs = spec_chars(w, radius);
        if exists|i: int|
            0 <= i < cs.len() && cs[i].spec_has_edge() && !cs[i].edge_in_range() {
            Err(GeometryError::DegenerateTriangle)
        } else {
            Ok(drawings_of(cs) + spec_stitches(cs))
        }
    }
}

/// A word fails layout for want of consonants exactly when it has none:
/// an all-vowel word is rejected, never divided through by zero.
pub proof fn lemma_layout_no_consonants(w: Seq<GallifreyanLetter>, radius: Rational)
    ensures
        consonant_count(w) == 0 <==> spec_layout(w, radius) == Err::<
            Seq<Drawing>,
            GeometryError,
        >(GeometryError::NoConsonants),
{
}

pub proof fn lemma_consonant_count_bounds(w: Seq<GallifreyanLetter>)
    ensures
        0 <= consonant_count(w) <= w.len(),
    decreases w.len(),
{
    if w.len() > 0 {
        lemma_consonant_count_bounds(w.drop_last());
    }
}

pub proof fn lemma_consonant_count_step(w: Seq<GallifreyanLetter>, i: int)
    requires
        0 <= i < w.len(),
    ensures
        consonant_count(w.take(i + 1)) == consonant_count(w.take(i)) + if w[
            i
        ].spec_is_vowel() {
            0int
        } else {
            1int
        },
{
    assert(w.take(i + 1).drop_last() =~= w.take(i));
    assert(w.take(i + 1).last() == w[i]);
}

pub proof fn lemma_consonant_count_prefix(w: Seq<GallifreyanLetter>, j: int)
    requires
        0 <= j <= w.len(),
    ensures
        0 <= consonant_count(w.take(j)) <= consonant_count(w),
    decreases w.len() - j,
{
    lemma_consonant_count_bounds(w.take(j));
    if j == w.len() {
        assert(w.take(j) =~= w);
    } else {
        lemma_consonant_count_step(w, j);
        lemma_consonant_count_prefix(w, j + 1);
    }
}

impl GallifreyanWord {
    /// How many letters of this word are consonants (vowels are excluded by
    /// the vowel predicate).
    pub fn count_consonants(&self) -> (n: usize)
        ensures
            n == consonant_count(self@),
    {
        let mut n: usize = 0;
        let mut i: usize = 0;
        proof {
            assert(self@.take(0) =~= Seq::<GallifreyanLetter>::empty());
        }
        while i < self.0.len()
            invariant
                i <= self.0.len(),
                n <= i,
                n == consonant_count(self@.take(i as int)),
            decreases self.0.len() - i,
        {
            proof {
                lemma_consonant_count_step(self@, i as int);
            }
            if !self.0[i].is_vowel() {
                n = n + 1;
            }
            i = i + 1;
        }
        proof {
            assert(self@.take(self.0.len() as int) =~= self@);
        }
        n
    }

    /// The polar position of every letter, in letter order: each consonant
    /// takes the next of `n` evenly spaced slots starting at the top of the
    /// ring, and each vowel repeats the slot of the most recent consonant.
    /// Fails when the word has no consonants, as there is then no angular
    /// step.
    pub fn letter_positions(&self, radius: Rational) -> (r: Result<Vec<Polar>, GeometryError>)
        requires
            radius.wf(),
            0 <= radius.num,
            radius.bounded(LAYOUT_CAP as int),
            self@.len() <= LAYOUT_CAP as int,
        ensures
            consonant_count(self@) == 0 <==> (r matches Err(e) && e
                == GeometryError::NoConsonants),
            consonant_count(self@) > 0 ==> (r matches Ok(v) && v@.len() == self@.len()
                && forall|i: int|
                0 <= i < self@.len() ==> v@[i] == spec_position(self@, i, radius)),
    {
        let n = self.count_consonants();
        if n == 0 {
            return Err(GeometryError::NoConsonants);
        }
        proof {
            lemma_consonant_count_bounds(self@);
        }
        let n_i64: i64 = n as i64;
        let mut positions: Vec<Polar> = Vec::new();
        let mut slot: i64 = -1;
        let mut i: usize = 0;
        proof {
            assert(self@.take(0) =~= Seq::<GallifreyanLetter>::empty());
        }
        while i < self.0.len()
            invariant
                i <= self.0.len(),
                self@.len() <= LAYOUT_CAP as int,
                radius.wf(),
                0 <= radius.num,
                radius.bounded(LAYOUT_CAP as int),
                n_i64 == n as i64,
                1 <= n <= self@.len(),
                n == consonant_count(self@),
                slot == consonant_count(self@.take(i as int)) - 1,
                positions@.len() == i as int,
                forall|j: int|
                    0 <= j < i ==> positions@[j] == spec_position(self@, j, radius),
            decreases self.0.len() - i,
        {
            proof {
                lemma_consonant_count_step(self@, i as int);
                lemma_consonant_count_prefix(self@, i as int);
                lemma_consonant_count_prefix(self@, i as int + 1);
            }
            if !self.0[i].is_vowel() {
                slot = slot + 1;
            }
            let num: i64 = 360 * slot - 90 * n_i64;
            positions.push(Polar::new(radius, Degree(Rational { num, den: n_i64 })));
            i = i + 1;
        }
        proof {
            assert(self@.take(self.0.len() as int) =~= self@);
        }
        Ok(positions)
    }
}

/// The number of drawings the letters themselves contribute: one base each
/// plus the decoration count.
pub open spec fn marks_sum(cs: Seq<GallifreyanCharacter>) -> int
    decreases cs.len(),
{
    if cs.len() == 0 {
        0
    } else {
        marks_sum(cs.drop_last()) + 1 + cs.last().modifier.count()
    }
}

/// How many characters of `cs` have an edge.
pub open spec fn edge_count(cs: Seq<GallifreyanCharacter>) -> int
    decreases cs.len(),
{
    if cs.len() == 0 {
        0
    } else {
        edge_count(cs.drop_last()) + if cs.last().spec_has_edge() {
            1int
        } else {
            0int
        }
    }
}

pub proof fn lemma_drawings_of_len(cs: Seq<GallifreyanCharacter>)
    ensures
        drawings_of(cs).len() == marks_sum(cs),
    decreases cs.len(),
{
    if cs.len() > 0 {
        lemma_drawings_of_len(cs.drop_last());
    }
}

pub proof fn lemma_edge_chars_len(cs: Seq<GallifreyanCharacter>)
    ensures
        edge_chars(cs).len() == edge_count(cs),
    decreases cs.len(),
{
    if cs.len() > 0 {
        lemma_edge_chars_len(cs.drop_last());
    }
}

/// The edge subsequence holds exactly the edge-bearing characters: each of
/// its members has an edge and occurs in `cs`, and every edge-bearing
/// member of `cs` occurs in it.
pub proof fn lemma_edge_chars_members(cs: Seq<GallifreyanCharacter>)
    ensures
        forall|j: int|
            0 <= j < edge_chars(cs).len() ==> (#[trigger] edge_chars(cs)[j]).spec_has_edge()
                && cs.contains(edge_chars(cs)[j]),
        forall|i: int|
            0 <= i < cs.len() && (#[trigger] cs[i]).spec_has_edge() ==> edge_chars(
                cs,
            ).contains(cs[i]),
    decreases cs.len(),
{
    if cs.len() > 0 {
        let prev = cs.drop_last();
        lemma_edge_chars_members(prev);
        assert forall|j: int|
            0 <= j < edge_chars(cs).len() implies (#[trigger] edge_chars(
            cs,
        )[j]).spec_has_edge() && cs.contains(edge_chars(cs)[j]) by {
            if j < edge_chars(prev).len() {
                assert(edge_chars(cs)[j] == edge_chars(prev)[j]);
                let k = choose|k: int| 0 <= k < prev.len() && prev[k] == edge_chars(prev)[j];
                assert(cs[k] == edge_chars(cs)[j]);
            } else {
                assert(cs[cs.len() - 1] == edge_chars(cs)[j]);
            }
        }
        assert forall|i: int|
            0 <= i < cs.len() && (#[trigger] cs[i]).spec_has_edge() implies edge_chars(
            cs,
        ).contains(cs[i]) by {
            if i < prev.len() {
                assert(prev[i] == cs[i]);
                let j = choose|j: int|
                    0 <= j < edge_chars(prev).len() && edge_chars(prev)[j] == prev[i];
                assert(edge_chars(cs)[j] == cs[i]);
            } else {
                assert(edge_chars(cs).last() == cs[i]);
            }
        }
    }
}

impl GallifreyanWord {
    /// Lay the word out on a ring of the given radius: every letter's base
    /// drawing followed by its decoration drawings, in letter order, then
    /// one stitching arc per edge-bearing letter connecting the open shapes
    /// into a continuous boundary (none when no letter has an edge).
    ///
    /// Fails on a word with no consonants (no angular step), on a vowel
    /// (unimplemented shape), and on a ring radius that makes a gap
    /// half-width degenerate, in that order of precedence.
    pub fn to_drawings(&self, radius: Rational) -> (r: Result<Vec<Drawing>, GeometryError>)
        requires
            radius.wf(),
            0 <= radius.num,
            radius.bounded(LAYOUT_CAP as int),
            self@.len() <= LAYOUT_CAP as int,
        ensures
            r matches Ok(v) ==> spec_layout(self@, radius) == Ok::<
                Seq<Drawing>,
                GeometryError,
            >(v@),
            r matches Err(e) ==> spec_layout(self@, radius) == Err::<
                Seq<Drawing>,
                GeometryError,
            >(e),
            consonant_count(self@) == 0 <==> (r matches Err(e) && e
                == GeometryError::NoConsonants),
    {
        let ghost w = self@;
        let n = self.count_consonants();
        if n == 0 {
            return Err(GeometryError::NoConsonants);
        }
        let positions = match self.letter_positions(radius) {
            Ok(p) => p,
            Err(e) => {
                proof {
                    assert(false);
                }
                return Err(e);
            },
        };

        // instantiate every letter from the alphabet table, rejecting the
        // unimplemented vowels
        let mut chars: Vec<GallifreyanCharacter> = Vec::new();
        let mut i: usize = 0;
        while i < self.0.len()
            invariant
                i <= self.0.len(),
                w == self@,
                self@.len() <= LAYOUT_CAP as int,
                radius.wf(),
                0 <= radius.num,
                radius.bounded(LAYOUT_CAP as int),
                n == consonant_count(w),
                1 <= n,
                positions@.len() == w.len(),
                forall|j: int| 0 <= j < w.len() ==> positions@[j] == spec_position(w, j, radius),
                chars@.len() == i as int,
                forall|j: int| 0 <= j < i ==> !w[j].spec_is_vowel(),
                forall|j: int| 0 <= j < i ==> chars@[j] == spec_char_at(w, j, radius),
                forall|j: int| 0 <= j < i ==> (#[trigger] chars@[j]).wf(),
            decreases self.0.len() - i,
        {
            let letter = self.0[i];
            if letter.is_vowel() {
                return Err(GeometryError::UnimplementedVowel);
            }
            proof {
                lemma_consonant_count_bounds(w);
                lemma_consonant_count_prefix(w, i as int + 1);
                let slot = slot_of(w, i as int);
                assert(-1 <= slot < consonant_count(w));
                assert(-0x4000_0000 <= 360 * slot - 90 * consonant_count(w) <= 0x4000_0000);
            }
            let c = letter.to_gallifreyan_character(positions[i]);
            chars.push(c);
            i = i + 1;
        }
        proof {
            assert(chars@ =~= spec_chars(w, radius));
        }

        // every letter's base drawing, then its decoration drawings
        let mut out: Vec<Drawing> = Vec::new();
        let mut i: usize = 0;
        proof {
            assert(chars@.take(0) =~= Seq::<GallifreyanCharacter>::empty());
        }
        while i < chars.len()
            invariant
                i <= chars.len(),
                forall|j: int| 0 <= j < chars@.len() ==> (#[trigger] chars@[j]).wf(),
                out@ == drawings_of(chars@.take(i as int)),
            decreases chars.len() - i,
        {
            let c = chars[i];
            out.push(c.draw_base());
            match c.draw_modifier() {
                Some(mut md) => {
                    out.append(&mut md);
                },
                None => {
                    proof {
                        assert(spec_decorations(c.modifier, c.base, c.position, c.size)
                            =~= Seq::<Drawing>::empty());
                    }
                },
            }
            proof {
                assert(chars@.take(i as int + 1).drop_last() =~= chars@.take(i as int));
                assert(chars@.take(i as int + 1).last() == chars@[i as int]);
                assert(out@ =~= drawings_of(chars@.take(i as int + 1)));
            }
            i = i + 1;
        }
        proof {
            assert(chars@.take(chars@.len() as int) =~= chars@);
        }

        // the edge-bearing subsequence, in original order
        let mut edges: Vec<GallifreyanCharacter> = Vec::new();
        let mut i: usize = 0;
        proof {
            assert(chars@.take(0) =~= Seq::<GallifreyanCharacter>::empty());
        }
        while i < chars.len()
            invariant
                i <= chars.len(),
                forall|j: int| 0 <= j < chars@.len() ==> (#[trigger] chars@[j]).wf(),
                edges@ == edge_chars(chars@.take(i as int)),
                forall|j: int|
                    0 <= j < edges@.len() ==> (#[trigger] edges@[j]).wf()
                        && edges@[j].spec_has_edge(),
            decreases chars.len() - i,
        {
            let c = chars[i];
            proof {
                assert(chars@.take(i as int + 1).drop_last() =~= chars@.take(i as int));
                assert(chars@.take(i as int + 1).last() == chars@[i as int]);
            }
            if c.has_edge() {
                edges.push(c);
            }
            i = i + 1;
        }
        proof {
            assert(chars@.take(chars@.len() as int) =~= chars@);
        }

        // stitch each open shape to the next, wrapping around to the first
        let k = edges.len();
        if k == 0 {
            proof {
                lemma_edge_chars_members(chars@);
                assert(spec_stitches(chars@) =~= Seq::<Drawing>::empty());
                assert(out@ =~= drawings_of(chars@) + spec_stitches(chars@));
            }
            return Ok(out);
        }
        let mut i: usize = 0;
        while i < k
            invariant
                i <= k,
                k == edges@.len(),
                w == self@,
                n == consonant_count(w),
                1 <= n,
                forall|j: int| 0 <= j < w.len() ==> !w[j].spec_is_vowel(),
                chars@ == spec_chars(w, radius),
                edges@ == edge_chars(chars@),
                forall|j: int|
                    0 <= j < edges@.len() ==> (#[trigger] edges@[j]).wf()
                        && edges@[j].spec_has_edge(),
                forall|j: int| 0 <= j < i ==> (#[trigger] edges@[j]).edge_in_range(),
                out@ == drawings_of(chars@) + spec_stitches(chars@).take(i as int),
            decreases k - i,
        {
            let a = edges[i];
            let next: usize = if i + 1 == k {
                0
            } else {
                i + 1
            };
            let b = edges[next];
            let ea = match a.ending_angle() {
                Ok(Some(x)) => x,
                Ok(None) => {
                    proof {
                        assert(false);
                    }
                    return Err(GeometryError::DegenerateTriangle);
                },
                Err(err) => {
                    proof {
                        lemma_edge_chars_members(chars@);
                        let idx = choose|idx: int|
                            0 <= idx < chars@.len() && chars@[idx] == a;
                        assert(chars@[idx].spec_has_edge() && !chars@[idx].edge_in_range());
                    }
                    return Err(err);
                },
            };
            let sb = match b.starting_angle() {
                Ok(Some(x)) => x,
                Ok(None) => {
                    proof {
                        assert(false);
                    }
                    return Err(GeometryError::DegenerateTriangle);
                },
                Err(err) => {
                    proof {
                        lemma_edge_chars_members(chars@);
                        let idx = choose|idx: int|
                            0 <= idx < chars@.len() && chars@[idx] == b;
                        assert(chars@[idx].spec_has_edge() && !chars@[idx].edge_in_range());
                    }
                    return Err(err);
                },
            };
            out.push(crate::math_util::draw_arc(a.position.radius(), ea, sb));
            proof {
                assert(out@ =~= drawings_of(chars@) + spec_stitches(chars@).take(i as int + 1));
            }
            i = i + 1;
        }
        proof {
            assert(spec_stitches(chars@).take(k as int) =~= spec_stitches(chars@));
            lemma_edge_chars_members(chars@);
            assert forall|idx: int|
                0 <= idx < chars@.len() && (#[trigger] chars@[idx]).spec_has_edge()
                implies chars@[idx].edge_in_range() by {
                let j = choose|j: int|
                    0 <= j < edges@.len() && edges@[j] == chars@[idx];
                assert(edges@[j].edge_in_range());
            }
        }
        Ok(out)
    }
}

/// The number of drawings the letters of `w` are owed: one base each plus
/// the letter's decoration count (vowels, having no realized shape, count
/// nothing).
pub open spec fn base_and_decoration_count(w: Seq<GallifreyanLetter>) -> int
    decreases w.len(),
{
    if w.len() == 0 {
        0
    } else {
        base_and_decoration_count(w.drop_last()) + match letter_shape(w.last()) {
            Some(p) => 1 + p.1.count(),
            None => 0,
        }
    }
}

/// How many letters of `w` have an edge-bearing (open) shape.
pub open spec fn edge_letter_count(w: Seq<GallifreyanLetter>) -> int
    decreases w.len(),
{
    if w.len() == 0 {
        0
    } else {
        edge_letter_count(w.drop_last()) + match letter_shape(w.last()) {
            Some(p) => if p.0.spec_has_edge() {
                1int
            } else {
                0int
            },
            None => 0,
        }
    }
}

proof fn lemma_counts_take(w: Seq<GallifreyanLetter>, radius: Rational, j: int)
    requires
        0 <= j <= w.len(),
        forall|i: int| 0 <= i < w.len() ==> !w[i].spec_is_vowel(),
    ensures
        marks_sum(spec_chars(w, radius).take(j)) == base_and_decoration_count(w.take(j)),
        edge_count(spec_chars(w, radius).take(j)) == edge_letter_count(w.take(j)),
    decreases j,
{
    let cs = spec_chars(w, radius);
    if j == 0 {
        assert(cs.take(0) =~= Seq::<GallifreyanCharacter>::empty());
        assert(w.take(0) =~= Seq::<GallifreyanLetter>::empty());
    } else {
        lemma_counts_take(w, radius, j - 1);
        assert(cs.take(j).drop_last() =~= cs.take(j - 1));
        assert(w.take(j).drop_last() =~= w.take(j - 1));
        assert(cs.take(j).last() == cs[j - 1]);
        assert(w.take(j).last() == w[j - 1]);
        crate::letters::lemma_alphabet_total(w[j - 1]);
    }
}

/// The drawing count of a successful layout: one base drawing plus the
/// decoration count for each letter, plus one stitching arc per
/// edge-bearing letter (the wrap-around duplication makes the arc count
/// equal the edge-bearing letter count whenever it is at least one, and
/// zero arcs when no letter has an edge).
pub proof fn lemma_layout_drawing_count(w: Seq<GallifreyanLetter>, radius: Rational)
    requires
        spec_layout(w, radius) is Ok,
    ensures
        spec_layout(w, radius) matches Ok(s) ==> s.len() == base_and_decoration_count(w)
            + edge_letter_count(w),
{
    let cs = spec_chars(w, radius);
    lemma_drawings_of_len(cs);
    lemma_edge_chars_len(cs);
    lemma_counts_take(w, radius, w.len() as int);
    assert(cs.take(cs.len() as int) =~= cs);
    assert(w.take(w.len() as int) =~= w);
}

} // verus!
