//! Letters, the alphabet table, and the word parser.
//!
//! A `GallifreyanLetter` is one of 34 letter identities: 26 single letters
//! and 8 digraphs, 5 of the single letters being vowels. The alphabet table
//! maps every consonant to exactly one base shape and decoration; vowels are
//! declared but have no realized shape (an open gap). The parser scans a
//! string left to right, greedily grouping digraphs, case-insensitively, and
//! fails as a whole on the first token with no matching letter.

use vstd::pervasive::arbitrary;
use vstd::prelude::*;
use vstd::string::StrSliceExecFns;

use crate::letter_parts::{spec_base_drawing, spec_decorations, Base, Modifier};
use crate::math_util::{
    law_of_sines_angle, sine_ratio_in_range, BaseOffset, Degree, Drawing, EdgeAngle,
    GeometryError, Polar, Rational, SineAngle, COORD_CAP,
};

verus! {

/// The error of the word parser: the offending token (uppercased, one or two
/// characters) had no matching letter.
#[derive(PartialEq, Eq, Debug)]
pub struct ParseGallifreyanLetterError {
    pub token: Vec<char>,
}

/// An enumeration for the letters in the Gallifreyan alphabet.
#[derive(Clone, Copy, PartialEq, Eq, Structural, Debug)]
pub enum GallifreyanLetter {
    E,
    A,
    I,
    O,
    U,
    B,
    CH,
    D,
    G,
    H,
    F,
    J,
    PH,
    K,
    L,
    C,
    N,
    P,
    M,
    T,
    WH,
    SH,
    R,
    V,
    W,
    S,
    TH,
    GH,
    Y,
    Z,
    Q,
    QU,
    X,
    NG,
}

impl GallifreyanLetter {
    pub open spec fn spec_is_vowel(&self) -> bool {
        ||| *self is A
        ||| *self is E
        ||| *self is I
        ||| *self is O
        ||| *self is U
    }

    /// Whether this letter is one of the five vowels; vowels take no slot of
    /// their own on the consonant ring and have no realized shape.
    #[verifier::when_used_as_spec(spec_is_vowel)]
    pub fn is_vowel(&self) -> (r: bool)
        ensures
            r == self.spec_is_vowel(),
    {
        matches!(
            self,
            GallifreyanLetter::A
                | GallifreyanLetter::E
                | GallifreyanLetter::I
                | GallifreyanLetter::O
                | GallifreyanLetter::U
        )
    }
}

/// ASCII uppercasing of the letters the alphabet knows; all other characters
/// pass through unchanged.
pub open spec fn upper_char(c: char) -> char {
    if c == 'a' {
        'A'
    } else if c == 'b' {
        'B'
    } else if c == 'c' {
        'C'
    } else if c == 'd' {
        'D'
    } else if c == 'e' {
        'E'
    } else if c == 'f' {
        'F'
    } else if c == 'g' {
        'G'
    } else if c == 'h' {
        'H'
    } else if c == 'i' {
        'I'
    } else if c == 'j' {
        'J'
    } else if c == 'k' {
        'K'
    } else if c == 'l' {
        'L'
    } else if c == 'm' {
        'M'
    } else if c == 'n' {
        'N'
    } else if c == 'o' {
        'O'
    } else if c == 'p' {
        'P'
    } else if c == 'q' {
        'Q'
    } else if c == 'r' {
        'R'
    } else if c == 's' {
        'S'
    } else if c == 't' {
        'T'
    } else if c == 'u' {
        'U'
    } else if c == 'v' {
        'V'
    } else if c == 'w' {
        'W'
    } else if c == 'x' {
        'X'
    } else if c == 'y' {
        'Y'
    } else if c == 'z' {
        'Z'
    } else {
        c
    }
}

fn to_upper(c: char) -> (r: char)
    ensures
        r == upper_char(c),
{
    match c {
        'a' => 'A',
        'b' => 'B',
        'c' => 'C',
        'd' => 'D',
        'e' => 'E',
        'f' => 'F',
        'g' => 'G',
        'h' => 'H',
        'i' => 'I',
        'j' => 'J',
        'k' => 'K',
        'l' => 'L',
        'm' => 'M',
        'n' => 'N',
        'o' => 'O',
        'p' => 'P',
        'q' => 'Q',
        'r' => 'R',
        's' => 'S',
        't' => 'T',
        'u' => 'U',
        'v' => 'V',
        'w' => 'W',
        'x' => 'X',
        'y' => 'Y',
        'z' => 'Z',
        _ => c,
    }
}

/// The character (already uppercased) that groups with `c` into a digraph:
/// `H` after one of C, P, W, S, T, G; `U` after Q; `G` after N.
pub open spec fn digraph_partner(c: char) -> Option<char> {
    if c == 'C' || c == 'P' || c == 'W' || c == 'S' || c == 'T' || c == 'G' {
        Some('H')
    } else if c == 'Q' {
        Some('U')
    } else if c == 'N' {
        Some('G')
    } else {
        None
    }
}

/// The letter of the digraph led by `c`; meaningful only when
/// `digraph_partner(c)` is some.
pub open spec fn digraph_letter(c: char) -> GallifreyanLetter {
    if c == 'C' {
        GallifreyanLetter::CH
    } else if c == 'P' {
        GallifreyanLetter::PH
    } else if c == 'W' {
        GallifreyanLetter::WH
    } else if c == 'S' {
        GallifreyanLetter::SH
    } else if c == 'T' {
        GallifreyanLetter::TH
    } else if c == 'G' {
        GallifreyanLetter::GH
    } else if c == 'Q' {
        GallifreyanLetter::QU
    } else if c == 'N' {
        GallifreyanLetter::NG
    } else {
        arbitrary()
    }
}

/// The letter of a single (already uppercased) character, if any.
pub open spec fn letter_of_char(c: char) -> Option<GallifreyanLetter> {
    if c == 'A' {
        Some(GallifreyanLetter::A)
    } else if c == 'E' {
        Some(GallifreyanLetter::E)
    } else if c == 'I' {
        Some(GallifreyanLetter::I)
    } else if c == 'O' {
        Some(GallifreyanLetter::O)
    } else if c == 'U' {
        Some(GallifreyanLetter::U)
    } else if c == 'B' {
        Some(GallifreyanLetter::B)
    } else if c == 'C' {
        Some(GallifreyanLetter::C)
    } else if c == 'D' {
        Some(GallifreyanLetter::D)
    } else if c == 'F' {
        Some(GallifreyanLetter::F)
    } else if c == 'G' {
        Some(GallifreyanLetter::G)
    } else if c == 'H' {
        Some(GallifreyanLetter::H)
    } else if c == 'J' {
        Some(GallifreyanLetter::J)
    } else if c == 'K' {
        Some(GallifreyanLetter::K)
    } else if c == 'L' {
        Some(GallifreyanLetter::L)
    } else if c == 'M' {
        Some(GallifreyanLetter::M)
    } else if c == 'N' {
        Some(GallifreyanLetter::N)
    } else if c == 'P' {
        Some(GallifreyanLetter::P)
    } else if c == 'Q' {
        Some(GallifreyanLetter::Q)
    } else if c == 'R' {
        Some(GallifreyanLetter::R)
    } else if c == 'S' {
        Some(GallifreyanLetter::S)
    } else if c == 'T' {
        Some(GallifreyanLetter::T)
    } else if c == 'V' {
        Some(GallifreyanLetter::V)
    } else if c == 'W' {
        Some(GallifreyanLetter::W)
    } else if c == 'X' {
        Some(GallifreyanLetter::X)
    } else if c == 'Y' {
        Some(GallifreyanLetter::Y)
    } else if c == 'Z' {
        Some(GallifreyanLetter::Z)
    } else {
        None
    }
}

fn digraph_check(c0: char, c1: char) -> (r: bool)
    ensures
        r == (digraph_partner(c0) == Some(c1)),
{
    match c0 {
        'C' | 'P' | 'W' | 'S' | 'T' | 'G' => c1 == 'H',
        'Q' => c1 == 'U',
        'N' => c1 == 'G',
        _ => false,
    }
}

fn digraph_letter_of(c0: char) -> (r: GallifreyanLetter)
    requires
        digraph_partner(c0) is Some,
    ensures
        r == digraph_letter(c0),
{
    match c0 {
        'C' => GallifreyanLetter::CH,
        'P' => GallifreyanLetter::PH,
        'W' => GallifreyanLetter::WH,
        'S' => GallifreyanLetter::SH,
        'T' => GallifreyanLetter::TH,
        'G' => GallifreyanLetter::GH,
        'Q' => GallifreyanLetter::QU,
        // unreachable: every digraph head is matched above
        _ => GallifreyanLetter::NG,
    }
}

fn letter_of(c: char) -> (r: Option<GallifreyanLetter>)
    ensures
        r == letter_of_char(c),
{
    match c {
        'A' => Some(GallifreyanLetter::A),
        'E' => Some(GallifreyanLetter::E),
        'I' => Some(GallifreyanLetter::I),
        'O' => Some(GallifreyanLetter::O),
        'U' => Some(GallifreyanLetter::U),
        'B' => Some(GallifreyanLetter::B),
        'C' => Some(GallifreyanLetter::C),
        'D' => Some(GallifreyanLetter::D),
        'F' => Some(GallifreyanLetter::F),
        'G' => Some(GallifreyanLetter::G),
        'H' => Some(GallifreyanLetter::H),
        'J' => Some(GallifreyanLetter::J),
        'K' => Some(GallifreyanLetter::K),
        'L' => Some(GallifreyanLetter::L),
        'M' => Some(GallifreyanLetter::M),
        'N' => Some(GallifreyanLetter::N),
        'P' => Some(GallifreyanLetter::P),
        'Q' => Some(GallifreyanLetter::Q),
        'R' => Some(GallifreyanLetter::R),
        'S' => Some(GallifreyanLetter::S),
        'T' => Some(GallifreyanLetter::T),
        'V' => Some(GallifreyanLetter::V),
        'W' => Some(GallifreyanLetter::W),
        'X' => Some(GallifreyanLetter::X),
        'Y' => Some(GallifreyanLetter::Y),
        'Z' => Some(GallifreyanLetter::Z),
        _ => None,
    }
}

/// What parsing the character sequence `s` yields: the letters in reading
/// order, or the first token (uppercased) that matches no letter. A leading
/// digraph head followed by its partner is always grouped greedily into the
/// two-character token; matching is case-insensitive.
pub open spec fn parse_chars(s: Seq<char>) -> Result<Seq<GallifreyanLetter>, Seq<char>>
    decreases s.len(),
{
    if s.len() == 0 {
        Ok(Seq::empty())
    } else {
        let c0 = upper_char(s[0]);
        if s.len() >= 2 && digraph_partner(c0) == Some(upper_char(s[1])) {
            match parse_chars(s.skip(2)) {
                Ok(rest) => Ok(seq![digraph_letter(c0)] + rest),
                Err(t) => Err(t),
            }
        } else {
            match letter_of_char(c0) {
                Some(l) => match parse_chars(s.skip(1)) {
                    Ok(rest) => Ok(seq![l] + rest),
                    Err(t) => Err(t),
                },
                None => Err(seq![c0]),
            }
        }
    }
}

/// Uppercasing a sequence character by character.
pub open spec fn upper_seq(s: Seq<char>) -> Seq<char> {
    s.map(|_i: int, c: char| upper_char(c))
}

/// Parsing is case-insensitive: a word and its uppercased form parse to the
/// same letters, or fail on the same token.
pub proof fn lemma_parse_case_insensitive(s: Seq<char>)
    ensures
        parse_chars(upper_seq(s)) == parse_chars(s),
    decreases s.len(),
{
    let u = upper_seq(s);
    assert(u.len() == s.len());
    if s.len() == 0 {
    } else {
        assert(u[0] == upper_char(s[0]));
        assert(upper_char(upper_char(s[0])) == upper_char(s[0]));
        if s.len() >= 2 {
            assert(u[1] == upper_char(s[1]));
            assert(upper_char(upper_char(s[1])) == upper_char(s[1]));
        }
        let c0 = upper_char(s[0]);
        if s.len() >= 2 && digraph_partner(c0) == Some(upper_char(s[1])) {
            lemma_parse_case_insensitive(s.skip(2));
            assert(upper_seq(s.skip(2)) =~= u.skip(2));
        } else {
            if letter_of_char(c0) is Some {
                lemma_parse_case_insensitive(s.skip(1));
                assert(upper_seq(s.skip(1)) =~= u.skip(1));
            }
        }
    }
}

/// A letter instantiated at its position on the ring: a base shape, its
/// decoration, the satellite radius, and the letter's polar position.
#[derive(Clone, Copy, PartialEq, Eq, Structural, Debug)]
pub struct GallifreyanCharacter {
    pub base: Base,
    pub modifier: Modifier,
    pub size: Rational,
    pub position: Polar,
}

/// The characteristic offset of an open base shape's gap; meaningful only
/// for shapes with an edge.
pub open spec fn base_offset_of(base: Base) -> BaseOffset {
    match base {
        Base::Crescent => BaseOffset::Crescent,
        Base::Quarter => BaseOffset::Quarter,
        _ => arbitrary(),
    }
}

/// The angular half-width of an open shape's gap as seen from the word's
/// midpoint: the law-of-sines angle of the letter's ring radius against its
/// size, at the shape's characteristic offset.
pub open spec fn spec_edge_width(c: GallifreyanCharacter) -> SineAngle {
    SineAngle { known: c.position.radius, unknown: c.size, offset: base_offset_of(c.base) }
}

/// The first gap endpoint of an open shape: the letter's angle minus the
/// gap's half-width.
pub open spec fn spec_starting_angle(c: GallifreyanCharacter) -> EdgeAngle {
    EdgeAngle { anchor: c.position.angle, width: spec_edge_width(c), positive: false }
}

/// The second gap endpoint of an open shape: the letter's angle plus the
/// gap's half-width.
pub open spec fn spec_ending_angle(c: GallifreyanCharacter) -> EdgeAngle {
    EdgeAngle { anchor: c.position.angle, width: spec_edge_width(c), positive: true }
}

impl GallifreyanCharacter {
    /// A character the drawing functions accept: a realized (non-vowel)
    /// shape, well-formed components, and scalars small enough that all
    /// derived products stay exact.
    pub open spec fn wf(&self) -> bool {
        &&& !(self.base is Vowel)
        &&& self.modifier.wf()
        &&& self.position.wf()
        &&& self.position.radius.bounded(COORD_CAP as int)
        &&& self.position.angle.0.bounded(COORD_CAP as int)
        &&& self.size.wf()
        &&& 0 <= self.size.num
        &&& self.size.bounded(COORD_CAP as int)
    }

    pub open spec fn spec_has_edge(&self) -> bool {
        self.base.spec_has_edge()
    }

    /// Whether the sine ratio of this character's gap half-width lies in the
    /// domain of `asin`, so that its edge angles exist.
    pub open spec fn edge_in_range(&self) -> bool {
        sine_ratio_in_range(self.position.radius, self.size, base_offset_of(self.base))
    }

    /// The base arc of this character.
    pub fn draw_base(&self) -> (r: Drawing)
        requires
            self.wf(),
        ensures
            r == spec_base_drawing(self.base, self.position, self.size),
    {
        self.base.to_drawing(self.position, self.size)
    }

    /// The decoration drawings of this character, in offset order; none when
    /// the modifier is blank.
    pub fn draw_modifier(&self) -> (r: Option<Vec<Drawing>>)
        requires
            self.wf(),
        ensures
            self.modifier is Blank <==> r is None,
            r matches Some(v) ==> v@ == spec_decorations(
                self.modifier,
                self.base,
                self.position,
                self.size,
            ),
    {
        match self.modifier {
            Modifier::Blank => None,
            _ => Some(self.modifier.to_drawings(self.position, self.size, self.base)),
        }
    }

    /// Whether this character's base shape is open and so has an edge to
    /// stitch.
    #[verifier::when_used_as_spec(spec_has_edge)]
    pub fn has_edge(&self) -> (r: bool)
        ensures
            r == self.spec_has_edge(),
    {
        self.base.has_edge()
    }

    /// The first gap endpoint of this character, if it has an edge; fails
    /// when the law-of-sines ratio leaves the domain of `asin`.
    pub fn starting_angle(&self) -> (r: Result<Option<EdgeAngle>, GeometryError>)
        requires
            self.wf(),
        ensures
            !self.spec_has_edge() ==> r == Ok::<Option<EdgeAngle>, GeometryError>(None),
            self.spec_has_edge() && self.edge_in_range() ==> r == Ok::<
                Option<EdgeAngle>,
                GeometryError,
            >(Some(spec_starting_angle(*self))),
            self.spec_has_edge() && !self.edge_in_range() ==> r == Err::<
                Option<EdgeAngle>,
                GeometryError,
            >(GeometryError::DegenerateTriangle),
    {
        let offset = match self.base {
            Base::Crescent => BaseOffset::Crescent,
            Base::Quarter => BaseOffset::Quarter,
            _ => {
                return Ok(None);
            },
        };
        match law_of_sines_angle(self.position.radius(), self.size, offset) {
            Ok(width) => Ok(
                Some(EdgeAngle { anchor: self.position.angle(), width, positive: false }),
            ),
            Err(e) => Err(e),
        }
    }

    /// The second gap endpoint of this character, if it has an edge; fails
    /// when the law-of-sines ratio leaves the domain of `asin`.
    pub fn ending_angle(&self) -> (r: Result<Option<EdgeAngle>, GeometryError>)
        requires
            self.wf(),
        ensures
            !self.spec_has_edge() ==> r == Ok::<Option<EdgeAngle>, GeometryError>(None),
            self.spec_has_edge() && self.edge_in_range() ==> r == Ok::<
                Option<EdgeAngle>,
                GeometryError,
            >(Some(spec_ending_angle(*self))),
            self.spec_has_edge() && !self.edge_in_range() ==> r == Err::<
                Option<EdgeAngle>,
                GeometryError,
            >(GeometryError::DegenerateTriangle),
    {
        let offset = match self.base {
            Base::Crescent => BaseOffset::Crescent,
            Base::Quarter => BaseOffset::Quarter,
            _ => {
                return Ok(None);
            },
        };
        match law_of_sines_angle(self.position.radius(), self.size, offset) {
            Ok(width) => Ok(
                Some(EdgeAngle { anchor: self.position.angle(), width, positive: true }),
            ),
            Err(e) => Err(e),
        }
    }
}

/// The alphabet table: the base shape and decoration of each letter, `None`
/// for the five vowels, whose shape is an open gap. This is the single
/// source of truth for every letter's visual form.
pub open spec fn letter_shape(l: GallifreyanLetter) -> Option<(Base, Modifier)> {
    match l {
        GallifreyanLetter::A => None,
        GallifreyanLetter::E => None,
        GallifreyanLetter::I => None,
        GallifreyanLetter::O => None,
        GallifreyanLetter::U => None,
        GallifreyanLetter::B => Some((Base::Crescent, Modifier::Blank)),
        GallifreyanLetter::CH => Some((Base::Crescent, Modifier::Dot2)),
        GallifreyanLetter::D => Some((Base::Crescent, Modifier::Dot3)),
        GallifreyanLetter::G => Some(
            (Base::Crescent, Modifier::Line1(Degree(Rational { num: 0, den: 1 }))),
        ),
        GallifreyanLetter::H => Some((Base::Crescent, Modifier::Line2)),
        GallifreyanLetter::F => Some((Base::Crescent, Modifier::Line3)),
        GallifreyanLetter::J => Some((Base::Full, Modifier::Blank)),
        GallifreyanLetter::PH => Some((Base::Full, Modifier::Dot1)),
        GallifreyanLetter::K => Some((Base::Full, Modifier::Dot2)),
        GallifreyanLetter::L => Some((Base::Full, Modifier::Dot3)),
        GallifreyanLetter::C => Some((Base::Full, Modifier::Dot4)),
        GallifreyanLetter::N => Some(
            (Base::Full, Modifier::Line1(Degree(Rational { num: 0, den: 1 }))),
        ),
        GallifreyanLetter::P => Some((Base::Full, Modifier::Line2)),
        GallifreyanLetter::M => Some((Base::Full, Modifier::Line3)),
        GallifreyanLetter::T => Some((Base::Quarter, Modifier::Blank)),
        GallifreyanLetter::WH => Some((Base::Quarter, Modifier::Dot1)),
        GallifreyanLetter::SH => Some((Base::Quarter, Modifier::Dot2)),
        GallifreyanLetter::R => Some((Base::Quarter, Modifier::Dot3)),
        GallifreyanLetter::V => Some(
            (Base::Quarter, Modifier::Line1(Degree(Rational { num: 0, den: 1 }))),
        ),
        GallifreyanLetter::W => Some((Base::Quarter, Modifier::Line2)),
        GallifreyanLetter::S => Some((Base::Quarter, Modifier::Line3)),
        GallifreyanLetter::TH => Some((Base::New, Modifier::Blank)),
        GallifreyanLetter::GH => Some((Base::New, Modifier::Dot1)),
        GallifreyanLetter::Y => Some((Base::New, Modifier::Dot2)),
        GallifreyanLetter::Z => Some((Base::New, Modifier::Dot3)),
        GallifreyanLetter::Q => Some((Base::New, Modifier::Dot4)),
        GallifreyanLetter::QU => Some(
            (Base::New, Modifier::Line1(Degree(Rational { num: 0, den: 1 }))),
        ),
        GallifreyanLetter::X => Some((Base::New, Modifier::Line2)),
        GallifreyanLetter::NG => Some((Base::New, Modifier::Line3)),
    }
}

/// The alphabet table is total on consonants and maps no vowel: a letter has
/// a realized shape exactly when it is not a vowel.
pub proof fn lemma_alphabet_total(l: GallifreyanLetter)
    ensures
        !l.spec_is_vowel() <==> letter_shape(l) is Some,
{
}

/// The table never yields an unrealized base: the shape of a consonant is
/// one of the four drawn shapes, never `Vowel`.
pub proof fn lemma_alphabet_realized(l: GallifreyanLetter)
    ensures
        letter_shape(l) matches Some(p) ==> !(p.0 is Vowel) && p.1.wf(),
{
}

/// An ordered word: the letter sequence in reading order, built once by the
/// parser.
#[derive(PartialEq, Eq, Debug)]
pub struct GallifreyanWord(pub Vec<GallifreyanLetter>);

impl View for GallifreyanWord {
    type V = Seq<GallifreyanLetter>;

    open spec fn view(&self) -> Seq<GallifreyanLetter> {
        self.0@
    }
}

impl GallifreyanWord {
    /// The empty word.
    pub fn new() -> (w: GallifreyanWord)
        ensures
            w@ == Seq::<GallifreyanLetter>::empty(),
    {
        GallifreyanWord(Vec::new())
    }

    /// Append one letter at the end of the word.
    pub fn push(&mut self, letter: GallifreyanLetter)
        ensures
            final(self)@ == old(self)@.push(letter),
    {
        self.0.push(letter);
    }

    /// Parse a word: scan left to right, greedily grouping digraphs,
    /// case-insensitively, and look every token up in the alphabet. An
    /// unmatched token fails the whole parse, naming that token.
    pub fn from(word: &str) -> (r: Result<GallifreyanWord, ParseGallifreyanLetterError>)
        ensures
            r matches Ok(w) ==> parse_chars(word@) == Ok::<
                Seq<GallifreyanLetter>,
                Seq<char>,
            >(w@),
            r matches Err(e) ==> parse_chars(word@) == Err::<
                Seq<GallifreyanLetter>,
                Seq<char>,
            >(e.token@),
    {
        let n = word.unicode_len();
        let mut letters = GallifreyanWord::new();
        let mut i: usize = 0;
        proof {
            assert(word@.skip(0) =~= word@);
            if let Ok(t) = parse_chars(word@) {
                assert(Seq::<GallifreyanLetter>::empty() + t =~= t);
            }
        }
        while i < n
            invariant
                n == word@.len(),
                i <= n,
                parse_chars(word@) == (match parse_chars(word@.skip(i as int)) {
                    Ok(t) => Ok::<Seq<GallifreyanLetter>, Seq<char>>(letters@ + t),
                    Err(t) => Err::<Seq<GallifreyanLetter>, Seq<char>>(t),
                }),
            decreases n - i,
        {
            let ghost rest = word@.skip(i as int);
            proof {
                assert(rest[0] == word@[i as int]);
            }
            let c0 = to_upper(word.get_char(i));
            if i + 1 < n {
                proof {
                    assert(rest[1] == word@[i as int + 1]);
                }
                let c1 = to_upper(word.get_char(i + 1));
                if digraph_check(c0, c1) {
                    let l = digraph_letter_of(c0);
                    let ghost prev = letters@;
                    letters.push(l);
                    proof {
                        assert(rest.skip(2) =~= word@.skip(i as int + 2));
                        if let Ok(t) = parse_chars(word@.skip(i as int + 2)) {
                            assert(prev.push(l) + t =~= prev + (seq![l] + t));
                        }
                    }
                    i = i + 2;
                    continue;
                }
            }
            match letter_of(c0) {
                Some(l) => {
                    let ghost prev = letters@;
                    letters.push(l);
                    proof {
                        assert(rest.skip(1) =~= word@.skip(i as int + 1));
                        if let Ok(t) = parse_chars(word@.skip(i as int + 1)) {
                            assert(prev.push(l) + t =~= prev + (seq![l] + t));
                        }
                    }
                    i = i + 1;
                },
                None => {
                    let mut token: Vec<char> = Vec::new();
                    token.push(c0);
                    proof {
                        assert(token@ =~= seq![c0]);
                    }
                    return Err(ParseGallifreyanLetterError { token });
                },
            }
        }
        proof {
            assert(word@.skip(n as int) =~= Seq::<char>::empty());
            assert(letters@ + Seq::<GallifreyanLetter>::empty() =~= letters@);
        }
        Ok(letters)
    }
}

impl GallifreyanLetter {
    /// Instantiate this letter at `position`: its base shape and decoration
    /// from the alphabet table, at the standard satellite radius. Vowels
    /// have no realized shape and are excluded.
    pub fn to_gallifreyan_character(&self, position: Polar) -> (r: GallifreyanCharacter)
        requires
            !self.spec_is_vowel(),
            position.wf(),
            position.radius.bounded(COORD_CAP as int),
            position.angle.0.bounded(COORD_CAP as int),
        ensures
            letter_shape(*self) matches Some(p) && r == (GallifreyanCharacter {
                base: p.0,
                modifier: p.1,
                size: Rational { num: 2, den: 1 },
                position,
            }),
            r.wf(),
            r.position == position,
    {
        let size = Rational::new(2, 1);
        match self {
            // unreachable: vowels are excluded, their shape is an open gap
            GallifreyanLetter::A
            | GallifreyanLetter::E
            | GallifreyanLetter::I
            | GallifreyanLetter::O
            | GallifreyanLetter::U => GallifreyanCharacter {
                base: Base::Crescent,
                modifier: Modifier::Blank,
                size,
                position,
            },
            GallifreyanLetter::B => GallifreyanCharacter {
                base: Base::Crescent,
                modifier: Modifier::Blank,
                size,
                position,
            },
            GallifreyanLetter::CH => GallifreyanCharacter {
                base: Base::Crescent,
                modifier: Modifier::Dot2,
                size,
                position,
            },
            GallifreyanLetter::D => GallifreyanCharacter {
                base: Base::Crescent,
                modifier: Modifier::Dot3,
                size,
                position,
            },
            GallifreyanLetter::G => GallifreyanCharacter {
                base: Base::Crescent,
                modifier: Modifier::Line1(Degree::whole(0)),
                size,
                position,
            },
            GallifreyanLetter::H => GallifreyanCharacter {
                base: Base::Crescent,
                modifier: Modifier::Line2,
                size,
                position,
            },
            GallifreyanLetter::F => GallifreyanCharacter {
                base: Base::Crescent,
                modifier: Modifier::Line3,
                size,
                position,
            },
            GallifreyanLetter::J => GallifreyanCharacter {
                base: Base::Full,
                modifier: Modifier::Blank,
                size,
                position,
            },
            GallifreyanLetter::PH => GallifreyanCharacter {
                base: Base::Full,
                modifier: Modifier::Dot1,
                size,
                position,
            },
            GallifreyanLetter::K => GallifreyanCharacter {
                base: Base::Full,
                modifier: Modifier::Dot2,
                size,
                position,
            },
            GallifreyanLetter::L => GallifreyanCharacter {
                base: Base::Full,
                modifier: Modifier::Dot3,
                size,
                position,
            },
            GallifreyanLetter::C => GallifreyanCharacter {
                base: Base::Full,
                modifier: Modifier::Dot4,
                size,
                position,
            },
            GallifreyanLetter::N => GallifreyanCharacter {
                base: Base::Full,
                modifier: Modifier::Line1(Degree::whole(0)),
                size,
                position,
            },
            GallifreyanLetter::P => GallifreyanCharacter {
                base: Base::Full,
                modifier: Modifier::Line2,
                size,
                position,
            },
            GallifreyanLetter::M => GallifreyanCharacter {
                base: Base::Full,
                modifier: Modifier::Line3,
                size,
                position,
            },
            GallifreyanLetter::T => GallifreyanCharacter {
                base: Base::Quarter,
                modifier: Modifier::Blank,
                size,
                position,
            },
            GallifreyanLetter::WH => GallifreyanCharacter {
                base: Base::Quarter,
                modifier: Modifier::Dot1,
                size,
                position,
            },
            GallifreyanLetter::SH => GallifreyanCharacter {
                base: Base::Quarter,
                modifier: Modifier::Dot2,
                size,
                position,
            },
            GallifreyanLetter::R => GallifreyanCharacter {
                base: Base::Quarter,
                modifier: Modifier::Dot3,
                size,
                position,
            },
            GallifreyanLetter::V => GallifreyanCharacter {
                base: Base::Quarter,
                modifier: Modifier::Line1(Degree::whole(0)),
                size,
                position,
            },
            GallifreyanLetter::W => GallifreyanCharacter {
                base: Base::Quarter,
                modifier: Modifier::Line2,
                size,
                position,
            },
            GallifreyanLetter::S => GallifreyanCharacter {
                base: Base::Quarter,
                modifier: Modifier::Line3,
                size,
                position,
            },
            GallifreyanLetter::TH => GallifreyanCharacter {
                base: Base::New,
                modifier: Modifier::Blank,
                size,
                position,
            },
            GallifreyanLetter::GH => GallifreyanCharacter {
                base: Base::New,
                modifier: Modifier::Dot1,
                size,
                position,
            },
            GallifreyanLetter::Y => GallifreyanCharacter {
                base: Base::New,
                modifier: Modifier::Dot2,
                size,
                position,
            },
            GallifreyanLetter::Z => GallifreyanCharacter {
                base: Base::New,
                modifier: Modifier::Dot3,
                size,
                position,
            },
            GallifreyanLetter::Q => GallifreyanCharacter {
                base: Base::New,
                modifier: Modifier::Dot4,
                size,
                position,
            },
            GallifreyanLetter::QU => GallifreyanCharacter {
                base: Base::New,
                modifier: Modifier::Line1(Degree::whole(0)),
                size,
                position,
            },
            GallifreyanLetter::X => GallifreyanCharacter {
                base: Base::New,
                modifier: Modifier::Line2,
                size,
                position,
            },
            GallifreyanLetter::NG => GallifreyanCharacter {
                base: Base::New,
                modifier: Modifier::Line3,
                size,
                position,
            },
        }
    }
}

} // verus!
