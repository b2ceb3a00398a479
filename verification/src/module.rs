//! Modules: named, possibly nested groups of headers.

use vstd::prelude::*;
use vstd::std_specs::cmp::PartialEqSpecImpl;
use crate::ast::ModuleRecord;
use crate::file::File;
use crate::marshal::{to_string, Handle, Nullable};
use crate::unit::TranslationUnit;

verus! {

/// A collection of headers.
#[derive(Copy, Clone, Debug)]
pub struct Module<'tu> {
    ptr: Handle,
    tu: &'tu TranslationUnit<'tu>,
}

impl<'tu> Module<'tu> {
    #[verifier::type_invariant]
    spec fn inv(&self) -> bool {
        self.ptr.valid(self.tu.ast().modules@.len())
    }

    /// The raw handle of this module.
    pub closed spec fn raw(&self) -> Handle {
        self.ptr
    }

    /// The translation unit that this module belongs to.
    pub closed spec fn unit(&self) -> &'tu TranslationUnit<'tu> {
        self.tu
    }

    /// What the translation unit holds of this module.
    pub open spec fn record(&self) -> ModuleRecord {
        self.unit().ast().modules@[self.raw().slot as int]
    }

    /// Reads the record of this module.
    fn rec(&self) -> (record: &'tu ModuleRecord)
        ensures
            *record == self.record(),
            self.raw().valid(self.unit().ast().modules@.len()),
            self.unit().ast().wf(),
            record.ok(self.unit().ast().files@.len(), self.unit().ast().modules@.len()),
            self.tu == self.unit(),
    {
        proof {
            use_type_invariant(self);
        }
        &self.tu.records().modules[self.ptr.slot]
    }

    /// Returns the raw handle of this module.
    pub fn get_raw(&self) -> (raw: Handle)
        ensures
            raw == self.raw(),
            raw.valid(self.unit().ast().modules@.len()),
            self.unit().ast().wf(),
    {
        let _ = self.rec();
        self.ptr
    }

    /// The module behind a handle that names a record of `tu`.
    pub fn from_ptr(ptr: Handle, tu: &'tu TranslationUnit<'tu>) -> (module: Module<'tu>)
        requires
            ptr.valid(tu.ast().modules@.len()),
        ensures
            module.raw() == ptr,
            module.unit() == tu,
    {
        Module { ptr, tu }
    }

    /// The module behind a handle that may be null.
    pub fn from_nullable(ptr: Handle, tu: &'tu TranslationUnit<'tu>) -> (r: Option<Module<'tu>>)
        requires
            ptr.within(tu.ast().modules@.len()),
        ensures
            r is None <==> ptr.null(),
            r matches Some(module) ==> module.raw() == ptr && module.unit() == tu,
    {
        if ptr.is_null() {
            None
        } else {
            Some(Module { ptr, tu })
        }
    }

    /// Returns the AST file this module came from.
    pub fn get_file(&self) -> (file: File<'tu>)
        ensures
            file.raw() == self.record().ast_file,
            file.unit() == self.unit(),
    {
        File::from_ptr(self.rec().ast_file, self.tu)
    }

    /// Returns the full name of this module (e.g., `std.vector` for the `std.vector` module).
    pub fn get_full_name(&self) -> (name: String)
        ensures
            name@ == self.record().full_name.text(),
    {
        to_string(&self.rec().full_name)
    }

    /// Returns the name of this module (e.g., `vector` for the `std.vector` module).
    pub fn get_name(&self) -> (name: String)
        ensures
            name@ == self.record().name.text(),
    {
        to_string(&self.rec().name)
    }

    /// Returns the parent of this module, if any.
    pub fn get_parent(&self) -> (r: Option<Module<'tu>>)
        ensures
            r is None <==> self.record().parent.null(),
            r matches Some(module) ==> module.raw() == self.record().parent && module.unit()
                == self.unit(),
    {
        Module::from_nullable(self.rec().parent, self.tu)
    }

    /// Returns the top-level headers in this module, in the order in which
    /// the frontend lists them.
    pub fn get_top_level_headers(&self) -> (headers: Vec<File<'tu>>)
        ensures
            headers@.len() == self.record().top_level_headers@.len(),
            forall|k: int|
                0 <= k < headers@.len() ==> (#[trigger] headers@[k]).raw()
                    == self.record().top_level_headers@[k] && headers@[k].unit() == self.unit(),
    {
        let raw = &self.rec().top_level_headers;
        let mut headers: Vec<File<'tu>> = Vec::new();
        let mut k: usize = 0;
        while k < raw.len()
            invariant
                *raw == self.record().top_level_headers,
                self.record().ok(
                    self.unit().ast().files@.len(),
                    self.unit().ast().modules@.len(),
                ),
                self.tu == self.unit(),
                k <= raw@.len(),
                headers@.len() == k,
                forall|m: int|
                    0 <= m < k ==> (#[trigger] headers@[m]).raw() == raw@[m] && headers@[m].unit()
                        == self.unit(),
            decreases raw@.len() - k,
        {
            assert(raw@[k as int].valid(self.unit().ast().files@.len()));
            headers.push(File::from_ptr(raw[k], self.tu));
            k += 1;
        }
        headers
    }

    /// Returns whether this module is a system module.
    pub fn is_system(&self) -> (r: bool)
        ensures
            r == self.record().system,
    {
        self.rec().system
    }
}

impl<'tu> PartialEq for Module<'tu> {
    /// Two modules are equal when they came from equal AST files and have
    /// the same full name.
    fn eq(&self, other: &Module<'tu>) -> (r: bool) {
        self.get_file() == other.get_file() && self.get_full_name() == other.get_full_name()
    }
}

impl<'tu> PartialEqSpecImpl for Module<'tu> {
    open spec fn obeys_eq_spec() -> bool {
        true
    }

    open spec fn eq_spec(&self, other: &Module<'tu>) -> bool {
        self.unit().ast().files@[self.record().ast_file.slot as int].id
            == other.unit().ast().files@[other.record().ast_file.slot as int].id
            && self.record().full_name.text() == other.record().full_name.text()
    }
}

impl<'tu> Eq for Module<'tu> {

}

} // verus!
