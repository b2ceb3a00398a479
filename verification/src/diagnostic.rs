//! Diagnostics and the edits that they suggest.

use vstd::prelude::*;
use vstd::std_specs::cmp::PartialEqSpecImpl;
use crate::ast::{DiagnosticRecord, RawFixIt};
use crate::kinds::Severity;
use crate::marshal::{to_string, Handle, Nullable, RawRange};
use crate::options::FormatOptions;
use crate::source::{SourceLocation, SourceRange};
use crate::unit::TranslationUnit;

verus! {

/// A suggested fix for an issue with a source file.
#[derive(Clone, Debug)]
pub enum FixIt<'tu> {
    /// Delete a segment of the source file.
    Deletion(SourceRange<'tu>),
    /// Insert a string into the source file.
    Insertion(SourceLocation<'tu>, String),
    /// Replace a segment of the source file with a string.
    Replacement(SourceRange<'tu>, String),
}

impl<'tu> FixIt<'tu> {
    /// Whether this is the edit that the frontend means by `range` and the
    /// text `text`. An empty range is a pure insertion at its start; a range
    /// that is not empty with an empty text is a deletion; anything else
    /// replaces the range by the text.
    pub open spec fn decodes(&self, range: SourceRange<'tu>, text: Seq<char>) -> bool {
        if range.start_key() == range.end_key() {
            self matches FixIt::Insertion(at, s) && at == range.first() && s@ == text
        } else if text.len() == 0 {
            self matches FixIt::Deletion(deleted) && deleted == range
        } else {
            self matches FixIt::Replacement(replaced, s) && replaced == range && s@ == text
        }
    }

    /// Decodes one suggested edit from the range and the text that the
    /// frontend gives for it.
    pub fn decode(range: SourceRange<'tu>, text: String) -> (r: FixIt<'tu>)
        ensures
            r.decodes(range, text@),
    {
        if range.is_empty() {
            FixIt::Insertion(range.get_start(), text)
        } else if text.as_str().is_empty() {
            FixIt::Deletion(range)
        } else {
            FixIt::Replacement(range, text)
        }
    }
}

impl<'tu> PartialEq for FixIt<'tu> {
    /// Two edits are equal when they are of one kind, over equal ranges or at
    /// equal locations, with the same text.
    fn eq(&self, other: &FixIt<'tu>) -> (r: bool) {
        match (self, other) {
            (FixIt::Deletion(a), FixIt::Deletion(b)) => *a == *b,
            (FixIt::Insertion(a, s), FixIt::Insertion(b, t)) => *a == *b && *s == *t,
            (FixIt::Replacement(a, s), FixIt::Replacement(b, t)) => *a == *b && *s == *t,
            _ => false,
        }
    }
}

impl<'tu> PartialEqSpecImpl for FixIt<'tu> {
    open spec fn obeys_eq_spec() -> bool {
        true
    }

    open spec fn eq_spec(&self, other: &FixIt<'tu>) -> bool {
        match (*self, *other) {
            (FixIt::Deletion(a), FixIt::Deletion(b)) => a.start_key() == b.start_key()
                && a.end_key() == b.end_key(),
            (FixIt::Insertion(a, s), FixIt::Insertion(b, t)) => a.key() == b.key() && s@ == t@,
            (FixIt::Replacement(a, s), FixIt::Replacement(b, t)) => a.start_key() == b.start_key()
                && a.end_key() == b.end_key() && s@ == t@,
            _ => false,
        }
    }
}

impl<'tu> Eq for FixIt<'tu> {

}

/// A message from the compiler about an issue with a source file.
#[derive(Copy, Clone, Debug)]
pub struct Diagnostic<'tu> {
    ptr: Handle,
    tu: &'tu TranslationUnit<'tu>,
}

impl<'tu> Diagnostic<'tu> {
    #[verifier::type_invariant]
    spec fn inv(&self) -> bool {
        self.ptr.valid(self.tu.ast().diagnostics@.len())
    }

    /// The raw handle of this diagnostic.
    pub closed spec fn raw(&self) -> Handle {
        self.ptr
    }

    /// The translation unit that this diagnostic belongs to.
    pub closed spec fn unit(&self) -> &'tu TranslationUnit<'tu> {
        self.tu
    }

    /// What the translation unit holds of this diagnostic.
    pub open spec fn record(&self) -> DiagnosticRecord {
        self.unit().ast().diagnostics@[self.raw().slot as int]
    }

    /// Reads the record of this diagnostic.
    fn rec(&self) -> (record: &'tu DiagnosticRecord)
        ensures
            *record == self.record(),
            self.raw().valid(self.unit().ast().diagnostics@.len()),
            self.unit().ast().wf(),
            record.ok(self.unit().ast().locations@.len()),
            self.unit().ast().diagnostic_ordered(self.raw().slot as int),
            self.tu == self.unit(),
    {
        proof {
            use_type_invariant(self);
        }
        &self.tu.records().diagnostics[self.ptr.slot]
    }

    /// The diagnostic behind a handle that names a record of `tu`.
    pub fn from_ptr(ptr: Handle, tu: &'tu TranslationUnit<'tu>) -> (diagnostic: Diagnostic<'tu>)
        requires
            ptr.valid(tu.ast().diagnostics@.len()),
        ensures
            diagnostic.raw() == ptr,
            diagnostic.unit() == tu,
    {
        Diagnostic { ptr, tu }
    }

    /// Returns the raw handle of this diagnostic.
    pub fn get_raw(&self) -> (raw: Handle)
        ensures
            raw == self.raw(),
            raw.valid(self.unit().ast().diagnostics@.len()),
            self.unit().ast().wf(),
    {
        let _ = self.rec();
        self.ptr
    }

    /// Returns this diagnostic as a formatted string: the text that the
    /// frontend gives under the display flags of `options`.
    pub fn format(&self, options: FormatOptions) -> (s: String)
        ensures
            s@ == self.record().formats@[options.flags() as int].text(),
    {
        let record = self.rec();
        let flags: u32 = options.into_flags();
        assert(record.formats@[flags as int].holds_text());
        to_string(&record.formats[flags as usize])
    }

    /// Returns this diagnostic formatted with the default options.
    pub fn to_string(&self) -> (s: String)
        ensures
            s@ == self.record().formats@[crate::options::DEFAULT_DISPLAY as int].text(),
    {
        let options = FormatOptions::default();
        proof {
            options.lemma_round_trip();
            FormatOptions::lemma_default_flags();
        }
        self.format(options)
    }

    /// Returns the fix-its for this diagnostic, in the order in which the
    /// frontend lists them.
    pub fn get_fix_its(&self) -> (fix_its: Vec<FixIt<'tu>>)
        ensures
            fix_its@.len() == self.record().fix_its@.len(),
            forall|k: int|
                0 <= k < fix_its@.len() ==> (#[trigger] fix_its@[k]).decodes(
                    SourceRange::stored(self.record().fix_its@[k].range, self.unit()),
                    self.record().fix_its@[k].text.text(),
                ),
    {
        let raw = &self.rec().fix_its;
        let mut fix_its: Vec<FixIt<'tu>> = Vec::new();
        let mut k: usize = 0;
        while k < raw.len()
            invariant
                *raw == self.record().fix_its,
                crate::ast::fix_its_valid(raw@, self.unit().ast().locations@.len()),
                self.tu == self.unit(),
                k <= raw@.len(),
                fix_its@.len() == k,
                forall|m: int|
                    0 <= m < k ==> (#[trigger] fix_its@[m]).decodes(
                        SourceRange::stored(raw@[m].range, self.unit()),
                        raw@[m].text.text(),
                    ),
            decreases raw@.len() - k,
        {
            let entry: &RawFixIt = &raw[k];
            assert(raw@[k as int].range.valid(self.unit().ast().locations@.len()));
            let range = SourceRange::from_raw(entry.range, self.tu);
            let text = to_string(&entry.text);
            fix_its.push(FixIt::decode(range, text));
            k += 1;
        }
        fix_its
    }

    /// Returns the source location of this diagnostic.
    pub fn get_location(&self) -> (location: SourceLocation<'tu>)
        ensures
            location.stored_at(self.record().location, self.unit()),
    {
        SourceLocation::from_raw(self.rec().location, self.tu)
    }

    /// Returns the source ranges of this diagnostic, in the order in which
    /// the frontend lists them.
    pub fn get_ranges(&self) -> (ranges: Vec<SourceRange<'tu>>)
        ensures
            ranges@.len() == self.record().ranges@.len(),
            forall|k: int|
                0 <= k < ranges@.len() ==> (#[trigger] ranges@[k]).stored_as(
                    self.record().ranges@[k],
                    self.unit(),
                ) && ranges@[k].ordered(),
    {
        let raw = &self.rec().ranges;
        let locations: usize = self.tu.records().locations.len();
        let mut ranges: Vec<SourceRange<'tu>> = Vec::new();
        let mut k: usize = 0;
        while k < raw.len()
            invariant
                *raw == self.record().ranges,
                locations == self.unit().ast().locations@.len(),
                crate::ast::ranges_valid(raw@, self.unit().ast().locations@.len()),
                self.unit().ast().all_ordered(raw@),
                self.tu == self.unit(),
                k <= raw@.len(),
                ranges@.len() == k,
                forall|m: int|
                    0 <= m < k ==> (#[trigger] ranges@[m]).stored_as(raw@[m], self.unit())
                        && ranges@[m].ordered(),
            decreases raw@.len() - k,
        {
            assert(raw@[k as int].valid(self.unit().ast().locations@.len()));
            assert(!raw@[k as int].null());
            ranges.push(SourceRange::from_raw(raw[k], self.tu));
            k += 1;
        }
        ranges
    }

    /// Returns the severity of this diagnostic.
    pub fn get_severity(&self) -> (severity: Severity)
        ensures
            severity.code() == self.record().severity,
    {
        match Severity::from_code(self.rec().severity) {
            Some(severity) => severity,
            None => Severity::Ignored,
        }
    }

    /// Returns the text of this diagnostic.
    pub fn get_text(&self) -> (text: String)
        ensures
            text@ == self.record().text.text(),
    {
        to_string(&self.rec().text)
    }
}

} // verus!
