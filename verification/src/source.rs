//! Source locations and half-open source ranges.
//!
//! Two locations are equal when the frontend reports the same spelling
//! position for them, whatever their raw handles are, and two ranges are
//! equal when their end points are.
//!
//! Most locations are those that the translation unit holds a record of. A
//! location that the frontend gives in answer to a query, such as the
//! location at a line and a column of a file, comes with the record of the
//! answer.

use vstd::prelude::*;
use vstd::std_specs::cmp::PartialEqSpecImpl;
use crate::ast::{Ast, LocationRecord, RawFileId, RawPosition};
use crate::cursor::Cursor;
use crate::file::File;
use crate::marshal::{feed, to_string, Handle, Nullable, RawRange};
use crate::unit::TranslationUnit;

verus! {

/// The file, line, column, and character offset of a source location. The
/// file is absent where the location lies in no file.
#[derive(Copy, Clone, Debug)]
pub struct Location<'tu> {
    pub file: Option<File<'tu>>,
    pub line: u32,
    pub column: u32,
    pub offset: u32,
}

/// What identifies a position: the identifier of its file, if it lies in
/// one, and its line, column and offset.
pub struct PositionKey {
    pub file: Option<RawFileId>,
    pub line: u32,
    pub column: u32,
    pub offset: u32,
}

impl Ast {
    /// What identifies a position of this image.
    pub open spec fn key_of(&self, position: RawPosition) -> PositionKey {
        PositionKey {
            file: if position.file.null() {
                None
            } else {
                Some(self.files@[position.file.slot as int].id)
            },
            line: position.line,
            column: position.column,
            offset: position.offset,
        }
    }

    /// What identifies the position at which the location behind `handle` is
    /// spelled.
    pub open spec fn position_key(&self, handle: Handle) -> PositionKey {
        self.key_of(self.locations@[handle.slot as int].spelling)
    }

    /// Whether the two end points of `range` are spelled at one position.
    pub open spec fn is_empty_range(&self, range: RawRange) -> bool {
        self.position_key(range.begin) == self.position_key(range.end)
    }
}

impl<'tu> Location<'tu> {
    /// What identifies this position.
    pub open spec fn key(&self) -> PositionKey {
        PositionKey {
            file: match self.file {
                Some(file) => Some(file.record().id),
                None => None,
            },
            line: self.line,
            column: self.column,
            offset: self.offset,
        }
    }

    /// Whether this is the position that `raw` denotes in `tu`.
    pub open spec fn denotes(&self, raw: RawPosition, tu: &'tu TranslationUnit<'tu>) -> bool {
        &&& self.file is None <==> raw.file.null()
        &&& self.file matches Some(file) ==> file.raw() == raw.file && file.unit() == tu
        &&& self.line == raw.line
        &&& self.column == raw.column
        &&& self.offset == raw.offset
    }

    /// The position that `raw` denotes in `tu`.
    pub fn from_raw(raw: RawPosition, tu: &'tu TranslationUnit<'tu>) -> (location: Location<'tu>)
        requires
            raw.file.within(tu.ast().files@.len()),
        ensures
            location.denotes(raw, tu),
    {
        Location {
            file: File::from_nullable(raw.file, tu),
            line: raw.line,
            column: raw.column,
            offset: raw.offset,
        }
    }
}

impl<'tu> PartialEq for Location<'tu> {
    /// Two positions are equal when they lie in equal files, or both in none,
    /// at the same line, column and offset.
    fn eq(&self, other: &Location<'tu>) -> (r: bool) {
        let same_file: bool = match (self.file, other.file) {
            (Some(a), Some(b)) => a == b,
            (None, None) => true,
            _ => false,
        };
        same_file && self.line == other.line && self.column == other.column && self.offset
            == other.offset
    }
}

impl<'tu> PartialEqSpecImpl for Location<'tu> {
    open spec fn obeys_eq_spec() -> bool {
        true
    }

    open spec fn eq_spec(&self, other: &Location<'tu>) -> bool {
        self.key() == other.key()
    }
}

impl<'tu> Eq for Location<'tu> {

}

/// The words by which a position is told to a hasher: where it lies in a
/// file, 1 and the three numbers that identify the file, and 0 where it lies
/// in none; then its line, its column and its offset.
pub open spec fn position_words(key: (Option<(u64, u64, u64)>, u32, u32, u32)) -> Seq<u64> {
    match key.0 {
        Some(id) => seq![1u64, id.0, id.1, id.2, key.1 as u64, key.2 as u64, key.3 as u64],
        None => seq![0u64, key.1 as u64, key.2 as u64, key.3 as u64],
    }
}

/// Returns the words by which a position is told to a hasher.
pub fn words_of_position(key: (Option<(u64, u64, u64)>, u32, u32, u32)) -> (words: Vec<u64>)
    ensures
        words@ == position_words(key),
{
    let mut words: Vec<u64> = Vec::new();
    match key.0 {
        Some(id) => {
            words.push(1);
            words.push(id.0);
            words.push(id.1);
            words.push(id.2);
        },
        None => {
            words.push(0);
        },
    }
    words.push(key.1 as u64);
    words.push(key.2 as u64);
    words.push(key.3 as u64);
    assert(words@ =~= position_words(key));
    words
}

/// Positions that are told by the same words are the same position, so a
/// hasher is told apart whatever `==` tells apart.
pub proof fn lemma_position_words_differ(
    a: (Option<(u64, u64, u64)>, u32, u32, u32),
    b: (Option<(u64, u64, u64)>, u32, u32, u32),
)
    requires
        position_words(a) == position_words(b),
    ensures
        a == b,
{
    let x = position_words(a);
    let y = position_words(b);
    assert(x.len() == y.len());
    assert(x[0] == y[0]);
    match (a.0, b.0) {
        (Some(i), Some(j)) => {
            assert(x[1] == y[1] && x[2] == y[2] && x[3] == y[3]);
            assert(x[4] == y[4] && x[5] == y[5] && x[6] == y[6]);
        },
        (None, None) => {
            assert(x[1] == y[1] && x[2] == y[2] && x[3] == y[3]);
        },
        _ => {},
    }
}

/// Feeds what identifies a position to `state`: the words of the position,
/// in their order. What the hasher makes of them is its own matter.
fn feed_position<H: std::hash::Hasher>(
    state: &mut H,
    key: (Option<(u64, u64, u64)>, u32, u32, u32),
) {
    let words = words_of_position(key);
    let mut i: usize = 0;
    while i < words.len()
        invariant
            i <= words@.len(),
        decreases words@.len() - i,
    {
        feed(state, words[i]);
        i += 1;
    }
}

impl<'tu> std::hash::Hash for Location<'tu> {
    /// Feeds what identifies the position to `state`.
    fn hash<H: std::hash::Hasher>(&self, state: &mut H) {
        let id = match self.file {
            Some(file) => Some(file.get_id()),
            None => None,
        };
        feed_position(state, (id, self.line, self.column, self.offset));
    }
}

/// A location in a source file.
///
/// A location is either one that the translation unit holds a record of, or
/// one that the frontend gave in answer to a query, with the record of the
/// answer.
#[derive(Copy, Clone, Debug)]
pub struct SourceLocation<'tu> {
    raw: Handle,
    answer: Option<&'tu LocationRecord>,
    tu: &'tu TranslationUnit<'tu>,
}

impl<'tu> SourceLocation<'tu> {
    #[verifier::type_invariant]
    spec fn inv(&self) -> bool {
        match self.answer {
            Some(record) => self.raw.null() && record.ok(
                self.tu.ast().files@.len(),
                self.tu.ast().nodes@.len(),
            ),
            None => self.raw.valid(self.tu.ast().locations@.len()),
        }
    }

    /// The raw handle of this location: the slot of its record in the
    /// translation unit, or null where the location is an answer.
    pub closed spec fn raw(&self) -> Handle {
        self.raw
    }

    /// The record of the answer, where this location is an answer.
    pub closed spec fn answer(&self) -> Option<&'tu LocationRecord> {
        self.answer
    }

    /// The translation unit that this location belongs to.
    pub closed spec fn unit(&self) -> &'tu TranslationUnit<'tu> {
        self.tu
    }

    /// Whether this is the location of `tu` whose record stands at `raw`.
    pub open spec fn stored_at(&self, raw: Handle, tu: &'tu TranslationUnit<'tu>) -> bool {
        self.raw() == raw && self.answer() is None && self.unit() == tu
    }

    /// Whether this is the location of `tu` that the frontend described by
    /// `record` in answer to a query.
    pub open spec fn answered_by(
        &self,
        record: &'tu LocationRecord,
        tu: &'tu TranslationUnit<'tu>,
    ) -> bool {
        self.raw().null() && self.answer() == Some(record) && self.unit() == tu
    }

    /// What the frontend reports of this location.
    pub open spec fn record(&self) -> LocationRecord {
        match self.answer() {
            Some(record) => *record,
            None => self.unit().ast().locations@[self.raw().slot as int],
        }
    }

    /// What identifies the position at which this location is spelled.
    pub open spec fn key(&self) -> PositionKey {
        self.unit().ast().key_of(self.record().spelling)
    }

    /// A location is no more than its raw handle, its answer and its
    /// translation unit.
    pub proof fn lemma_same(a: SourceLocation<'tu>, b: SourceLocation<'tu>)
        requires
            a.raw() == b.raw(),
            a.answer() == b.answer(),
            a.unit() == b.unit(),
        ensures
            a == b,
    {
    }

    /// Reads the record of this location.
    fn rec(&self) -> (record: &'tu LocationRecord)
        ensures
            *record == self.record(),
            self.unit().ast().wf(),
            record.ok(self.unit().ast().files@.len(), self.unit().ast().nodes@.len()),
            self.tu == self.unit(),
    {
        proof {
            use_type_invariant(self);
        }
        let ast = self.tu.records();
        match self.answer {
            Some(record) => record,
            None => &ast.locations[self.raw.slot],
        }
    }

    /// Returns the raw handle of this location: the slot of its record in the
    /// translation unit, or null where the location is an answer.
    pub fn get_raw(&self) -> (raw: Handle)
        ensures
            raw == self.raw(),
            self.answer() is None ==> raw.valid(self.unit().ast().locations@.len()),
            self.answer() is Some ==> raw.null(),
            self.unit().ast().wf(),
    {
        proof {
            use_type_invariant(self);
        }
        let _ = self.tu.records();
        self.raw
    }

    /// The location behind a handle that names a record of `tu`.
    pub fn from_raw(raw: Handle, tu: &'tu TranslationUnit<'tu>) -> (location: SourceLocation<'tu>)
        requires
            raw.valid(tu.ast().locations@.len()),
        ensures
            location.stored_at(raw, tu),
    {
        SourceLocation { raw, answer: None, tu }
    }

    /// The location of `tu` that the frontend described by `record` in
    /// answer to a query.
    pub fn from_answer(record: &'tu LocationRecord, tu: &'tu TranslationUnit<'tu>) -> (location:
        SourceLocation<'tu>)
        requires
            record.ok(tu.ast().files@.len(), tu.ast().nodes@.len()),
        ensures
            location.answered_by(record, tu),
            location.record() == *record,
    {
        SourceLocation { raw: Handle::null_handle(), answer: Some(record), tu }
    }

    /// Returns the cursor that refers to the AST element at this source location, if any.
    pub fn get_cursor(&self) -> (r: Option<Cursor<'tu>>)
        ensures
            r is None <==> self.record().cursor.null(),
            r matches Some(cursor) ==> cursor.raw() == self.record().cursor && cursor.unit()
                == self.unit(),
    {
        Cursor::from_nullable(self.rec().cursor, self.tu)
    }

    /// Returns the file, line, column and character offset of this source location.
    ///
    /// If this source location is inside a macro expansion, the location of the macro expansion is
    /// returned instead.
    pub fn get_expansion_location(&self) -> (location: Location<'tu>)
        ensures
            location.denotes(self.record().expansion, self.unit()),
    {
        Location::from_raw(self.rec().expansion, self.tu)
    }

    /// Returns the file, line, column and character offset of this source location.
    ///
    /// If this source location is inside a macro expansion, the location of the macro expansion is
    /// returned instead unless this source location is inside a macro argument. In that case, the
    /// location of the macro argument is returned.
    pub fn get_file_location(&self) -> (location: Location<'tu>)
        ensures
            location.denotes(self.record().file_location, self.unit()),
    {
        Location::from_raw(self.rec().file_location, self.tu)
    }

    /// Returns the file path, line, and column of this source location taking line directives into
    /// account.
    pub fn get_presumed_location(&self) -> (r: (String, u32, u32))
        ensures
            r.0@ == self.record().presumed_file.text(),
            r.1 == self.record().presumed_line,
            r.2 == self.record().presumed_column,
    {
        let record = self.rec();
        (to_string(&record.presumed_file), record.presumed_line, record.presumed_column)
    }

    /// Returns the file, line, column and character offset of this source location.
    pub fn get_spelling_location(&self) -> (location: Location<'tu>)
        ensures
            location.denotes(self.record().spelling, self.unit()),
            location.key() == self.key(),
    {
        Location::from_raw(self.rec().spelling, self.tu)
    }

    /// Returns whether this source location is in the main file of its translation unit.
    pub fn is_in_main_file(&self) -> (r: bool)
        ensures
            r == self.record().main_file,
    {
        self.rec().main_file
    }

    /// Returns whether this source location is in a system header.
    pub fn is_in_system_header(&self) -> (r: bool)
        ensures
            r == self.record().system_header,
    {
        self.rec().system_header
    }

    /// Returns the value that a hash of this location is made of: the
    /// identifier of the file in which it is spelled, if any, and its line,
    /// column and offset there. Equal locations have equal values.
    pub fn hash_value(&self) -> (r: (Option<(u64, u64, u64)>, u32, u32, u32))
        ensures
            r.0 is Some <==> self.key().file is Some,
            r.0 matches Some(id) ==> id == (
                self.key().file.unwrap().first,
                self.key().file.unwrap().second,
                self.key().file.unwrap().third,
            ),
            r.1 == self.key().line,
            r.2 == self.key().column,
            r.3 == self.key().offset,
    {
        let location = self.get_spelling_location();
        let id = match location.file {
            Some(file) => Some(file.get_id()),
            None => None,
        };
        (id, location.line, location.column, location.offset)
    }
}

impl<'tu> PartialEq for SourceLocation<'tu> {
    /// Two locations are equal when they are spelled at equal positions.
    fn eq(&self, other: &SourceLocation<'tu>) -> (r: bool) {
        self.get_spelling_location() == other.get_spelling_location()
    }
}

impl<'tu> PartialEqSpecImpl for SourceLocation<'tu> {
    open spec fn obeys_eq_spec() -> bool {
        true
    }

    open spec fn eq_spec(&self, other: &SourceLocation<'tu>) -> bool {
        self.key() == other.key()
    }
}

impl<'tu> Eq for SourceLocation<'tu> {

}

impl<'tu> std::hash::Hash for SourceLocation<'tu> {
    /// Feeds the hash value of the location to `state`.
    fn hash<H: std::hash::Hasher>(&self, state: &mut H) {
        feed_position(state, self.hash_value());
    }
}

/// A half-open range in a source file: its inclusive start and its exclusive
/// end, two locations of one translation unit.
#[derive(Copy, Clone, Debug)]
pub struct SourceRange<'tu> {
    start: SourceLocation<'tu>,
    end: SourceLocation<'tu>,
}

impl<'tu> SourceRange<'tu> {
    #[verifier::type_invariant]
    spec fn inv(&self) -> bool {
        self.start.unit() == self.end.unit()
    }

    /// The inclusive start of this range.
    pub closed spec fn first(&self) -> SourceLocation<'tu> {
        self.start
    }

    /// The exclusive end of this range.
    pub closed spec fn last(&self) -> SourceLocation<'tu> {
        self.end
    }

    /// The raw value of this range: the raw handles of its two end points.
    pub open spec fn raw(&self) -> RawRange {
        RawRange { begin: self.first().raw(), end: self.last().raw() }
    }

    /// The translation unit that this range belongs to.
    pub open spec fn unit(&self) -> &'tu TranslationUnit<'tu> {
        self.first().unit()
    }

    /// Whether this is the range of `tu` whose end points stand at the two
    /// handles of `raw`.
    pub open spec fn stored_as(&self, raw: RawRange, tu: &'tu TranslationUnit<'tu>) -> bool {
        self.first().stored_at(raw.begin, tu) && self.last().stored_at(raw.end, tu)
    }

    /// What the frontend reports of the start of this range.
    pub open spec fn start(&self) -> LocationRecord {
        self.first().record()
    }

    /// What the frontend reports of the end of this range.
    pub open spec fn end(&self) -> LocationRecord {
        self.last().record()
    }

    /// What identifies the position at which the start is spelled.
    pub open spec fn start_key(&self) -> PositionKey {
        self.first().key()
    }

    /// What identifies the position at which the end is spelled.
    pub open spec fn end_key(&self) -> PositionKey {
        self.last().key()
    }

    /// Whether this range starts no later than it ends, in the order of the
    /// offsets of one file.
    pub open spec fn ordered(&self) -> bool {
        Ast::in_order(self.start().spelling, self.end().spelling)
    }

    /// The range of `tu` whose end points stand at the two handles of `raw`.
    pub closed spec fn stored(raw: RawRange, tu: &'tu TranslationUnit<'tu>) -> SourceRange<'tu> {
        SourceRange {
            start: SourceLocation { raw: raw.begin, answer: None, tu },
            end: SourceLocation { raw: raw.end, answer: None, tu },
        }
    }

    /// What `stored` gives.
    pub proof fn lemma_stored(raw: RawRange, tu: &'tu TranslationUnit<'tu>, range: SourceRange<'tu>)
        ensures
            Self::stored(raw, tu).stored_as(raw, tu),
            range.stored_as(raw, tu) ==> range == Self::stored(raw, tu),
    {
    }

    /// A range is no more than its two end points.
    pub proof fn lemma_same(a: SourceRange<'tu>, b: SourceRange<'tu>)
        requires
            a.first() == b.first(),
            a.last() == b.last(),
        ensures
            a == b,
    {
    }

    /// Returns the raw value of this range: the raw handles of its two end
    /// points, each null where the end point is an answer.
    pub fn get_raw(&self) -> (raw: RawRange)
        ensures
            raw == self.raw(),
            self.unit().ast().wf(),
    {
        RawRange { begin: self.start.get_raw(), end: self.end.get_raw() }
    }

    /// The range behind a raw range whose end points name records of `tu`.
    pub fn from_raw(raw: RawRange, tu: &'tu TranslationUnit<'tu>) -> (range: SourceRange<'tu>)
        requires
            raw.valid(tu.ast().locations@.len()),
        ensures
            range == Self::stored(raw, tu),
            range.stored_as(raw, tu),
            range.raw() == raw,
            range.unit() == tu,
    {
        SourceRange {
            start: SourceLocation::from_raw(raw.begin, tu),
            end: SourceLocation::from_raw(raw.end, tu),
        }
    }

    /// The range behind a raw range that may be null.
    pub fn from_nullable(raw: RawRange, tu: &'tu TranslationUnit<'tu>) -> (r: Option<
        SourceRange<'tu>,
    >)
        requires
            raw.within(tu.ast().locations@.len()),
        ensures
            r is None <==> raw.null(),
            r matches Some(range) ==> range == Self::stored(raw, tu) && range.stored_as(raw, tu)
                && range.raw() == raw && range.unit() == tu,
    {
        if raw.is_null() {
            None
        } else {
            Some(SourceRange::from_raw(raw, tu))
        }
    }

    /// Constructs a new `SourceRange` that spans [`start`, `end`).
    ///
    /// The two locations must belong to one translation unit.
    pub fn new(start: SourceLocation<'tu>, end: SourceLocation<'tu>) -> (range: SourceRange<'tu>)
        requires
            start.unit() == end.unit(),
        ensures
            range.first() == start,
            range.last() == end,
    {
        SourceRange { start, end }
    }

    /// Returns the exclusive end of this source range.
    pub fn get_end(&self) -> (end: SourceLocation<'tu>)
        ensures
            end == self.last(),
            end.unit() == self.unit(),
    {
        proof {
            use_type_invariant(self);
        }
        self.end
    }

    /// Returns the inclusive start of this source range.
    pub fn get_start(&self) -> (start: SourceLocation<'tu>)
        ensures
            start == self.first(),
    {
        self.start
    }

    /// Returns whether this range starts no later than it ends: both end
    /// points are spelled in one file, the start at or before the end.
    pub fn is_ordered(&self) -> (r: bool)
        ensures
            r == self.ordered(),
    {
        let begin = self.start.rec().spelling;
        let end = self.end.rec().spelling;
        begin.file.slot == end.file.slot && begin.offset <= end.offset
    }

    /// Returns whether this range is empty: it starts where it ends.
    pub fn is_empty(&self) -> (r: bool)
        ensures
            r == (self.start_key() == self.end_key()),
    {
        self.start == self.end
    }

    /// Returns the value that a hash of this range is made of: the values of
    /// its start and of its end. Equal ranges have equal values.
    pub fn hash_value(&self) -> (r: (
        (Option<(u64, u64, u64)>, u32, u32, u32),
        (Option<(u64, u64, u64)>, u32, u32, u32),
    ))
        ensures
            r.0.1 == self.start_key().line && r.0.2 == self.start_key().column && r.0.3
                == self.start_key().offset,
            r.1.1 == self.end_key().line && r.1.2 == self.end_key().column && r.1.3
                == self.end_key().offset,
            r.0.0 is Some <==> self.start_key().file is Some,
            r.1.0 is Some <==> self.end_key().file is Some,
            r.0.0 matches Some(id) ==> id == (
                self.start_key().file.unwrap().first,
                self.start_key().file.unwrap().second,
                self.start_key().file.unwrap().third,
            ),
            r.1.0 matches Some(id) ==> id == (
                self.end_key().file.unwrap().first,
                self.end_key().file.unwrap().second,
                self.end_key().file.unwrap().third,
            ),
    {
        (self.start.hash_value(), self.end.hash_value())
    }

    /// Building a range anew from the end points of a range gives the range
    /// itself.
    pub proof fn lemma_round_trip(
        self,
        start: SourceLocation<'tu>,
        end: SourceLocation<'tu>,
        rebuilt: SourceRange<'tu>,
    )
        requires
            start == self.first(),
            end == self.last(),
            rebuilt.first() == start,
            rebuilt.last() == end,
        ensures
            rebuilt == self,
            rebuilt.start_key() == self.start_key(),
            rebuilt.end_key() == self.end_key(),
    {
    }
}

impl<'tu> PartialEq for SourceRange<'tu> {
    /// Two ranges are equal when their starts are equal and their ends are.
    fn eq(&self, other: &SourceRange<'tu>) -> (r: bool) {
        self.start == other.start && self.end == other.end
    }
}

impl<'tu> PartialEqSpecImpl for SourceRange<'tu> {
    open spec fn obeys_eq_spec() -> bool {
        true
    }

    open spec fn eq_spec(&self, other: &SourceRange<'tu>) -> bool {
        self.start_key() == other.start_key() && self.end_key() == other.end_key()
    }
}

impl<'tu> Eq for SourceRange<'tu> {

}

impl<'tu> std::hash::Hash for SourceRange<'tu> {
    /// Feeds the hash values of the start and of the end to `state`.
    fn hash<H: std::hash::Hasher>(&self, state: &mut H) {
        let value = self.hash_value();
        feed_position(state, value.0);
        feed_position(state, value.1);
    }
}

} // verus!
