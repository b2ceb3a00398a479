//! Source files.

use vstd::prelude::*;
use vstd::std_specs::cmp::PartialEqSpecImpl;
use crate::ast::{FileRecord, LocationRecord, RawFileId};
use crate::marshal::{feed, to_string, Handle, Nullable};
use crate::module::Module;
use crate::source::SourceLocation;
use crate::unit::TranslationUnit;

verus! {

/// A source file.
#[derive(Copy, Clone, Debug)]
pub struct File<'tu> {
    ptr: Handle,
    tu: &'tu TranslationUnit<'tu>,
}

impl<'tu> File<'tu> {
    #[verifier::type_invariant]
    spec fn inv(&self) -> bool {
        self.ptr.valid(self.tu.ast().files@.len())
    }

    /// The raw handle of this file.
    pub closed spec fn raw(&self) -> Handle {
        self.ptr
    }

    /// The translation unit that this file belongs to.
    pub closed spec fn unit(&self) -> &'tu TranslationUnit<'tu> {
        self.tu
    }

    /// What the translation unit holds of this file.
    pub open spec fn record(&self) -> FileRecord {
        self.unit().ast().files@[self.raw().slot as int]
    }

    /// Reads the record of this file.
    fn rec(&self) -> (record: &'tu FileRecord)
        ensures
            *record == self.record(),
            self.raw().valid(self.unit().ast().files@.len()),
            self.unit().ast().wf(),
            record.ok(self.unit().ast().modules@.len()),
            self.tu == self.unit(),
    {
        proof {
            use_type_invariant(self);
        }
        &self.tu.records().files[self.ptr.slot]
    }

    /// Returns the raw handle of this file.
    pub fn get_raw(&self) -> (raw: Handle)
        ensures
            raw == self.raw(),
            raw.valid(self.unit().ast().files@.len()),
            self.unit().ast().wf(),
    {
        let _ = self.rec();
        self.ptr
    }

    /// The file behind a handle that names a record of `tu`.
    pub fn from_ptr(ptr: Handle, tu: &'tu TranslationUnit<'tu>) -> (file: File<'tu>)
        requires
            ptr.valid(tu.ast().files@.len()),
        ensures
            file.raw() == ptr,
            file.unit() == tu,
    {
        File { ptr, tu }
    }

    /// The file behind a handle that may be null.
    pub fn from_nullable(ptr: Handle, tu: &'tu TranslationUnit<'tu>) -> (r: Option<File<'tu>>)
        requires
            ptr.within(tu.ast().files@.len()),
        ensures
            r is None <==> ptr.null(),
            r matches Some(file) ==> file.raw() == ptr && file.unit() == tu,
    {
        if ptr.is_null() {
            None
        } else {
            Some(File { ptr, tu })
        }
    }

    /// Returns a unique identifier for this file.
    pub fn get_id(&self) -> (id: (u64, u64, u64))
        ensures
            id == (self.record().id.first, self.record().id.second, self.record().id.third),
    {
        let id: RawFileId = self.rec().id;
        (id.first, id.second, id.third)
    }

    /// Returns the source location at the supplied line and column in this file: the location
    /// that the frontend gave in answer, which `answer` describes.
    ///
    /// `line` and `column` count from 1; neither may be 0.
    pub fn get_location(&self, line: u32, column: u32, answer: &'tu LocationRecord) -> (location:
        SourceLocation<'tu>)
        requires
            line != 0,
            column != 0,
            answer.ok(self.unit().ast().files@.len(), self.unit().ast().nodes@.len()),
        ensures
            location.answered_by(answer, self.unit()),
            location.record() == *answer,
    {
        let _ = self.rec();
        SourceLocation::from_answer(answer, self.tu)
    }

    /// Returns the source location at the supplied character offset in this file: the location
    /// that the frontend gave in answer, which `answer` describes.
    pub fn get_offset_location(&self, offset: u32, answer: &'tu LocationRecord) -> (location:
        SourceLocation<'tu>)
        requires
            answer.ok(self.unit().ast().files@.len(), self.unit().ast().nodes@.len()),
        ensures
            location.answered_by(answer, self.unit()),
            location.record() == *answer,
    {
        let _ = self.rec();
        SourceLocation::from_answer(answer, self.tu)
    }

    /// Returns the module containing this file, if any.
    pub fn get_module(&self) -> (r: Option<Module<'tu>>)
        ensures
            r is None <==> self.record().module.null(),
            r matches Some(module) ==> module.raw() == self.record().module && module.unit()
                == self.unit(),
    {
        let module: Handle = self.rec().module;
        Module::from_nullable(module, self.tu)
    }

    /// Returns the absolute path to this file.
    pub fn get_path(&self) -> (path: String)
        ensures
            path@ == self.record().path.text(),
    {
        to_string(&self.rec().path)
    }

    /// Returns the last modification time for this file.
    pub fn get_time(&self) -> (time: i64)
        ensures
            time == self.record().time,
    {
        self.rec().time
    }

    /// Returns whether this file is guarded against multiple inclusions.
    pub fn is_include_guarded(&self) -> (r: bool)
        ensures
            r == self.record().include_guarded,
    {
        self.rec().include_guarded
    }

    /// Returns the value that a hash of this file is made of: its unique
    /// identifier. Equal files have equal values.
    pub fn hash_value(&self) -> (id: (u64, u64, u64))
        ensures
            id == (self.record().id.first, self.record().id.second, self.record().id.third),
    {
        self.get_id()
    }
}

impl<'tu> PartialEq for File<'tu> {
    /// Two files are equal when their unique identifiers are.
    fn eq(&self, other: &File<'tu>) -> (r: bool) {
        let a: RawFileId = self.rec().id;
        let b: RawFileId = other.rec().id;
        a.first == b.first && a.second == b.second && a.third == b.third
    }
}

impl<'tu> PartialEqSpecImpl for File<'tu> {
    open spec fn obeys_eq_spec() -> bool {
        true
    }

    open spec fn eq_spec(&self, other: &File<'tu>) -> bool {
        self.record().id == other.record().id
    }
}

impl<'tu> Eq for File<'tu> {

}

impl<'tu> std::hash::Hash for File<'tu> {
    /// Feeds the unique identifier of the file to `state`.
    fn hash<H: std::hash::Hasher>(&self, state: &mut H) {
        let id = self.get_id();
        feed(state, id.0);
        feed(state, id.1);
        feed(state, id.2);
    }
}

} // verus!
