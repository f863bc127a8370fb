//! Where the filter parser cuts its text.
//!
//! The parser of `tracing_subscriber` takes a comma-separated list of
//! directives. It trims each directive of white space, walks over what is
//! left and counts byte offsets in it, and cuts the untrimmed directive at
//! those offsets. In a directive that begins with white space the offsets
//! are too small by the width of that white space, so a cut may fall inside
//! a character, where cutting a string panics. This module follows the
//! parser's walk and tells whether each of its cuts falls between two
//! characters.
//!
//! A directive reads `target[span{field}]=level`, each part optional. The
//! walk cuts at the `=` and the `[` that end the target, at the `]` or `{`
//! that ends the span, at the `}` that ends the field, and behind the `=`
//! that starts the level.
//!
//! The parser gives up on a directive for more reasons than this walk
//! knows: a first character that starts no name, a field that is no
//! pattern, a level that is none; and it reads no directive behind one
//! that it has rejected. The walk goes on where the parser has stopped, so
//! it may find a cut that the parser never makes. It does so only in text
//! that the parser rejects: in text that the parser accepts, the cuts of
//! the walk are the parser's.

use vstd::prelude::*;
use vstd::string::*;

verus! {

/// Whether `c` has the Unicode property White_Space, as `char::is_whitespace`
/// tells it. This is the white space that trimming removes.
pub uninterp spec fn is_white_space(c: char) -> bool;

/// The number of bytes that `c` takes in UTF-8.
pub open spec fn utf8_width(c: char) -> int {
    if c as u32 <= 0x7f {
        1
    } else if c as u32 <= 0x7ff {
        2
    } else if c as u32 <= 0xffff {
        3
    } else {
        4
    }
}

/// One mark for each byte of `c` in UTF-8: `true` for the first byte, where
/// the character begins, `false` for the others.
pub open spec fn byte_marks(c: char) -> Seq<bool> {
    seq![true] + Seq::new((utf8_width(c) - 1) as nat, |i: int| false)
}

/// Whether byte offset `at` falls between two characters of the text whose
/// bytes are marked in `marks`: at a character's first byte, or at the end.
pub open spec fn on_boundary(marks: Seq<bool>, at: int) -> bool {
    at == marks.len() || (0 <= at < marks.len() && marks[at])
}

/// The part of a directive that the parser's walk is in.
#[derive(Debug, Clone, Copy, PartialEq, Eq, Structural)]
pub enum Phase {
    /// In the white space that the directive begins with.
    Lead,
    /// In the target or level that the trimmed directive begins with.
    Name,
    /// In a span name, behind `[`.
    Span,
    /// In a field, behind `{`.
    Field,
    /// Behind a field's `}`.
    Fields,
    /// Behind a span's `]`.
    Target,
    /// Where no cut follows: in the level, in a directive that does not
    /// begin with white space, or behind a character that the parser
    /// rejects.
    Rest,
}

/// The parser's walk at one character of a directive.
pub struct Walk {
    pub phase: Phase,
    /// The bytes of white space that the directive begins with.
    pub shift: int,
    /// The offset, counted in the trimmed directive, at which the span or
    /// field began that the walk is in.
    pub start: int,
    /// The marks of the directive's bytes before this character.
    pub marks: Seq<bool>,
}

impl Walk {
    /// The walk at the first character of a directive.
    pub open spec fn begin() -> Walk {
        Walk { phase: Phase::Lead, shift: 0, start: 0, marks: Seq::empty() }
    }

    /// What the walk keeps between the characters of a directive: the span
    /// or field that it is in began at or before this character, and only a
    /// directive that begins with white space is walked.
    pub open spec fn well_formed(self) -> bool {
        &&& 0 <= self.shift <= self.marks.len()
        &&& self.phase == Phase::Lead ==> self.shift == self.marks.len()
        &&& self.phase != Phase::Lead && self.phase != Phase::Rest ==> self.shift >= 1
        &&& 0 <= self.start <= self.marks.len() - self.shift + 1
    }

    /// The offset of this character as the parser counts it: in the trimmed
    /// directive.
    pub open spec fn offset(self) -> int {
        self.marks.len() - self.shift
    }

    /// Whether the parser can cut the untrimmed directive at `at`.
    pub open spec fn fits(self, at: int) -> bool {
        on_boundary(self.marks, at)
    }

    /// The walk in a new phase, behind the character `c`.
    pub open spec fn pass(self, phase: Phase, c: char) -> Walk {
        Walk { phase, marks: self.marks + byte_marks(c), ..self }
    }

    /// The walk in a span or field that begins behind the character `c`.
    pub open spec fn enter(self, phase: Phase, c: char) -> Walk {
        Walk { phase, start: self.offset() + 1, marks: self.marks + byte_marks(c), ..self }
    }

    /// The walk behind the character `c`, or `None` where the parser makes
    /// a cut at `c` that falls inside a character.
    pub open spec fn step(self, c: char) -> Option<Walk> {
        let here = self.offset();
        if c == ',' {
            Some(Walk::begin())
        } else {
            match self.phase {
                Phase::Lead => if is_white_space(c) {
                    Some(
                        Walk {
                            shift: self.shift + utf8_width(c),
                            marks: self.marks + byte_marks(c),
                            ..self
                        },
                    )
                } else if self.shift == 0 {
                    Some(self.pass(Phase::Rest, c))
                } else if c == '[' {
                    Some(self.enter(Phase::Span, c))
                } else {
                    Some(self.pass(Phase::Name, c))
                },
                Phase::Name => if c == '=' {
                    if self.fits(here) && self.fits(here + 1) {
                        Some(self.pass(Phase::Rest, c))
                    } else {
                        None
                    }
                } else if c == '[' {
                    if self.fits(here) {
                        Some(self.enter(Phase::Span, c))
                    } else {
                        None
                    }
                } else {
                    Some(self.pass(Phase::Name, c))
                },
                Phase::Span => if c == ']' || c == '{' {
                    if self.fits(self.start) && self.fits(here) {
                        if c == ']' {
                            Some(self.pass(Phase::Target, c))
                        } else {
                            Some(self.enter(Phase::Field, c))
                        }
                    } else {
                        None
                    }
                } else {
                    Some(self.pass(Phase::Span, c))
                },
                Phase::Field => if c == '}' {
                    if self.fits(self.start) && self.fits(here) {
                        if self.start == here {
                            Some(self.pass(Phase::Rest, c))
                        } else {
                            Some(self.pass(Phase::Fields, c))
                        }
                    } else {
                        None
                    }
                } else {
                    Some(self.pass(Phase::Field, c))
                },
                Phase::Fields => if c == ']' {
                    Some(self.pass(Phase::Target, c))
                } else {
                    Some(self.pass(Phase::Rest, c))
                },
                Phase::Target => if c == '=' {
                    if self.fits(here + 1) {
                        Some(self.pass(Phase::Rest, c))
                    } else {
                        None
                    }
                } else {
                    Some(self.pass(Phase::Rest, c))
                },
                Phase::Rest => Some(self.pass(Phase::Rest, c)),
            }
        }
    }
}

/// Whether every cut fits that the parser makes from position `at` of
/// `text` on, where its walk stands as `walk` says.
pub open spec fn cuts_fit_from(text: Seq<char>, at: int, walk: Walk) -> bool
    decreases text.len() - at,
{
    if at < 0 || at >= text.len() {
        true
    } else {
        match walk.step(text[at]) {
            Some(next) => cuts_fit_from(text, at + 1, next),
            None => false,
        }
    }
}

/// Whether every cut that the parser makes in `text` falls between two
/// characters.
pub open spec fn cuts_fit(text: Seq<char>) -> bool {
    cuts_fit_from(text, 0, Walk::begin())
}

/// A step keeps the walk well formed.
pub proof fn lemma_step_well_formed(walk: Walk, c: char)
    requires
        walk.well_formed(),
    ensures
        walk.step(c) matches Some(next) ==> next.well_formed(),
{
}

/// In a directive that does not begin with white space no cut is checked:
/// the walk goes to its rest at the first character and stays there.
pub proof fn lemma_rest_fits(text: Seq<char>, at: int, walk: Walk)
    requires
        walk.phase == Phase::Rest || (walk.phase == Phase::Lead && walk.shift == 0),
        forall|k: int| at <= k < text.len() ==> !is_white_space(#[trigger] text[k]),
    ensures
        cuts_fit_from(text, at, walk),
    decreases text.len() - at,
{
    if 0 <= at < text.len() {
        let next = walk.step(text[at])->Some_0;
        lemma_rest_fits(text, at + 1, next);
    } else if at < 0 {
    }
}

/// Text without white space is cut where the parser counted.
pub proof fn lemma_no_white_space_cuts_fit(text: Seq<char>)
    requires
        forall|k: int| 0 <= k < text.len() ==> !is_white_space(#[trigger] text[k]),
    ensures
        cuts_fit(text),
{
    lemma_rest_fits(text, 0, Walk::begin());
}

/// In plain ASCII text every offset falls between two characters.
pub proof fn lemma_ascii_cuts_fit(text: Seq<char>)
    requires
        forall|k: int| 0 <= k < text.len() ==> #[trigger] text[k] as u32 <= 0x7f,
    ensures
        cuts_fit(text),
{
    lemma_ascii_fits_from(text, 0, Walk::begin());
}

/// The walk over plain ASCII text, where every byte is marked as a
/// character's first.
proof fn lemma_ascii_fits_from(text: Seq<char>, at: int, walk: Walk)
    requires
        0 <= at,
        walk.well_formed(),
        forall|k: int| 0 <= k < walk.marks.len() ==> walk.marks[k],
        forall|k: int| 0 <= k < text.len() ==> #[trigger] text[k] as u32 <= 0x7f,
    ensures
        cuts_fit_from(text, at, walk),
    decreases text.len() - at,
{
    if at < text.len() {
        let c = text[at];
        assert(byte_marks(c) =~= seq![true]);
        assert(walk.step(c) is Some);
        let next = walk.step(c)->Some_0;
        lemma_ascii_fits_from(text, at + 1, next);
    }
}

/// The parser's walk, as it is run.
struct Cursor {
    phase: Phase,
    shift: usize,
    start: usize,
    marks: Vec<bool>,
}

impl View for Cursor {
    type V = Walk;

    closed spec fn view(&self) -> Walk {
        Walk {
            phase: self.phase,
            shift: self.shift as int,
            start: self.start as int,
            marks: self.marks@,
        }
    }
}

impl Cursor {
    fn begin() -> (cursor: Self)
        ensures
            cursor@ == Walk::begin(),
    {
        Cursor { phase: Phase::Lead, shift: 0, start: 0, marks: Vec::new() }
    }

    /// Whether the parser can cut the untrimmed directive at `at`.
    fn fits(&self, at: usize) -> (fit: bool)
        requires
            at <= self@.marks.len(),
        ensures
            fit == self@.fits(at as int),
    {
        at == self.marks.len() || self.marks[at]
    }

    /// Marks the bytes of `c`.
    fn mark(&mut self, c: char)
        ensures
            final(self)@ == (Walk { marks: old(self)@.marks + byte_marks(c), ..old(self)@ }),
    {
        let code = c as u32;
        self.marks.push(true);
        if code > 0x7f {
            self.marks.push(false);
        }
        if code > 0x7ff {
            self.marks.push(false);
        }
        if code > 0xffff {
            self.marks.push(false);
        }
        assert(self.marks@ =~= old(self).marks@ + byte_marks(c));
    }

    /// Takes the walk over the character `c`, and tells whether the cuts
    /// that the parser makes there fit.
    fn step(&mut self, c: char) -> (fit: bool)
        requires
            old(self)@.well_formed(),
        ensures
            fit == (old(self)@.step(c) is Some),
            fit ==> final(self)@ == old(self)@.step(c)->Some_0,
    {
        if c == ',' {
            *self = Cursor::begin();
            return true;
        }
        let here = self.marks.len() - self.shift;
        match self.phase {
            Phase::Lead => {
                if char_is_whitespace(c) {
                    self.mark(c);
                    self.shift = self.marks.len();
                } else if self.shift == 0 {
                    self.phase = Phase::Rest;
                    self.mark(c);
                } else if c == '[' {
                    self.phase = Phase::Span;
                    self.start = here + 1;
                    self.mark(c);
                } else {
                    self.phase = Phase::Name;
                    self.mark(c);
                }
            },
            Phase::Name => {
                if c == '=' {
                    if !(self.fits(here) && self.fits(here + 1)) {
                        return false;
                    }
                    self.phase = Phase::Rest;
                } else if c == '[' {
                    if !self.fits(here) {
                        return false;
                    }
                    self.phase = Phase::Span;
                    self.start = here + 1;
                }
                self.mark(c);
            },
            Phase::Span => {
                if c == ']' || c == '{' {
                    if !(self.fits(self.start) && self.fits(here)) {
                        return false;
                    }
                    if c == ']' {
                        self.phase = Phase::Target;
                    } else {
                        self.phase = Phase::Field;
                        self.start = here + 1;
                    }
                }
                self.mark(c);
            },
            Phase::Field => {
                if c == '}' {
                    if !(self.fits(self.start) && self.fits(here)) {
                        return false;
                    }
                    if self.start == here {
                        self.phase = Phase::Rest;
                    } else {
                        self.phase = Phase::Fields;
                    }
                }
                self.mark(c);
            },
            Phase::Fields => {
                if c == ']' {
                    self.phase = Phase::Target;
                } else {
                    self.phase = Phase::Rest;
                }
                self.mark(c);
            },
            Phase::Target => {
                if c == '=' {
                    if !self.fits(here + 1) {
                        return false;
                    }
                }
                self.phase = Phase::Rest;
                self.mark(c);
            },
            Phase::Rest => {
                self.mark(c);
            },
        }
        true
    }
}

/// Tells whether every cut that the parser makes in `text` falls between
/// two characters.
pub fn has_fitting_cuts(text: &str) -> (fit: bool)
    ensures
        fit == cuts_fit(text@),
{
    broadcast use group_string_axioms;

    let mut cursor = Cursor::begin();
    for c in it: text.chars()
        invariant
            it.seq() == text@,
            cursor@.well_formed(),
            cuts_fit_from(text@, it.index() as int, cursor@) == cuts_fit(text@),
    {
        proof {
            lemma_step_well_formed(cursor@, c);
        }
        if !cursor.step(c) {
            return false;
        }
    }
    true
}

/// Calls `char::is_whitespace`, which tells whether a character has the
/// Unicode property White_Space. The answer depends on the character alone.
#[verifier::external_body]
fn char_is_whitespace(c: char) -> (white: bool)
    ensures
        white == is_white_space(c),
{
    c.is_whitespace()
}

} // verus!
