//! The translation unit: a parsed source file, owned by whoever holds it and
//! borrowed by every cursor, file, diagnostic, module, location and range
//! that is derived from it.
//!
//! A unit is built from what the frontend answered to a parse, a load or a
//! reparse. A reparse consumes the unit, so nothing derived from the old
//! content can be used afterwards.

use std::marker::PhantomData;
use vstd::prelude::*;
use crate::ast::Ast;
use crate::cursor::Cursor;
use crate::diagnostic::Diagnostic;
use crate::error::{SaveError, SourceError, PARSE_SUCCESS};
use crate::file::File;
use crate::index::Index;
use crate::kinds::MemoryUsage;
use crate::marshal::{Handle, Nullable, RawCursor};

verus! {

/// A preprocessed and parsed source file.
#[derive(Debug)]
pub struct TranslationUnit<'i> {
    ast: Ast,
    _marker: PhantomData<&'i Index<'i>>,
}

impl<'i> TranslationUnit<'i> {
    #[verifier::type_invariant]
    spec fn inv(&self) -> bool {
        self.ast.wf()
    }

    /// The image that this translation unit holds.
    pub closed spec fn ast(&self) -> Ast {
        self.ast
    }


    /// Takes ownership of a well-formed image.
    pub(crate) fn from_ptr(ast: Ast) -> (unit: TranslationUnit<'i>)
        requires
            ast.wf(),
        ensures
            unit.ast() == ast,
    {
        TranslationUnit { ast, _marker: PhantomData }
    }

    /// Constructs a new `TranslationUnit` from what the frontend loaded from
    /// an AST file: the image, or nothing where the load failed.
    ///
    /// # Failures
    ///
    /// * an unknown error occurs
    pub fn from_ast<'c>(index: &'i mut Index<'c>, image: Option<Ast>) -> (r: Result<
        TranslationUnit<'i>,
        (),
    >)
        requires
            image matches Some(ast) ==> ast.wf(),
        ensures
            r.is_ok() <==> image is Some,
            r matches Ok(unit) ==> unit.ast() == image.unwrap(),
            *final(index) == *old(index),
    {
        match image {
            Some(ast) => Ok(TranslationUnit::from_ptr(ast)),
            None => Err(()),
        }
    }

    /// Constructs a new `TranslationUnit` from what the frontend answered to
    /// the parse of a source file: its status and, on success, the image.
    ///
    /// # Failures
    ///
    /// * an error occurs while deserializing an AST file
    /// * `libclang` crashes
    /// * an unknown error occurs
    pub fn from_source<'c>(index: &'i mut Index<'c>, code: i32, image: Ast) -> (r: Result<
        TranslationUnit<'i>,
        SourceError,
    >)
        requires
            code == PARSE_SUCCESS ==> image.wf(),
        ensures
            r.is_ok() <==> code == PARSE_SUCCESS,
            r matches Ok(unit) ==> unit.ast() == image,
            r matches Err(e) ==> SourceError::decode(code) == Err::<(), SourceError>(e),
            *final(index) == *old(index),
    {
        match SourceError::from_error(code) {
            Ok(()) => Ok(TranslationUnit::from_ptr(image)),
            Err(e) => Err(e),
        }
    }

    /// Consumes this translation unit and returns the unit that the frontend
    /// answered to a reparse with: on success the unit over the new image, on
    /// failure the error, and the old content is gone either way.
    ///
    /// # Failures
    ///
    /// * an error occurs while deserializing an AST file
    /// * `libclang` crashes
    /// * an unknown error occurs
    pub fn reparse(self, code: i32, image: Ast) -> (r: Result<TranslationUnit<'i>, SourceError>)
        requires
            code == PARSE_SUCCESS ==> image.wf(),
        ensures
            r.is_ok() <==> code == PARSE_SUCCESS,
            r matches Ok(unit) ==> unit.ast() == image,
            r matches Err(e) ==> SourceError::decode(code) == Err::<(), SourceError>(e),
    {
        match SourceError::from_error(code) {
            Ok(()) => Ok(TranslationUnit::from_ptr(image)),
            Err(e) => Err(e),
        }
    }

    /// Decodes what the frontend answered to saving this translation unit to
    /// an AST file. The unit is unchanged.
    ///
    /// # Failures
    ///
    /// * errors in the translation unit prevent saving
    /// * an unknown error occurs
    pub fn save(&self, code: i32) -> (r: Result<(), SaveError>)
        ensures
            r == SaveError::decode(code),
    {
        SaveError::from_error(code)
    }

    /// Returns the image that this translation unit holds.
    pub fn records(&self) -> (ast: &Ast)
        ensures
            *ast == self.ast(),
            ast.wf(),
    {
        proof {
            use_type_invariant(self);
        }
        &self.ast
    }

    /// Returns the cursor which references this translation unit: the root of
    /// its AST.
    pub fn get_cursor(&'i self) -> (cursor: Cursor<'i>)
        ensures
            cursor.raw() == (RawCursor { node: 0, hint: 0 }),
            cursor.unit() == self,
            cursor.record().kind == crate::ast::KIND_TRANSLATION_UNIT,
    {
        proof {
            use_type_invariant(self);
        }
        Cursor::from_raw(RawCursor { node: 0, hint: 0 }, self)
    }

    /// Returns the diagnostics for this translation unit, in the order in
    /// which the frontend lists them.
    pub fn get_diagnostics(&'i self) -> (diagnostics: Vec<Diagnostic<'i>>)
        ensures
            diagnostics@.len() == self.ast().diagnostics@.len(),
            forall|k: int|
                0 <= k < diagnostics@.len() ==> (#[trigger] diagnostics@[k]).raw().slot == k
                    && diagnostics@[k].unit() == self,
    {
        let mut diagnostics: Vec<Diagnostic<'i>> = Vec::new();
        let mut k: usize = 0;
        while k < self.ast.diagnostics.len()
            invariant
                k <= self.ast.diagnostics@.len(),
                diagnostics@.len() == k,
                forall|m: int|
                    0 <= m < k ==> (#[trigger] diagnostics@[m]).raw().slot == m
                        && diagnostics@[m].unit() == self,
            decreases self.ast.diagnostics@.len() - k,
        {
            diagnostics.push(Diagnostic::from_ptr(Handle { slot: k }, self));
            k += 1;
        }
        diagnostics
    }

    /// Returns the file at the supplied path in this translation unit, if any: the file that
    /// the frontend gave in answer, which `answer` names, or nothing where the answer is null.
    pub fn get_file(&'i self, answer: Handle) -> (r: Option<File<'i>>)
        requires
            answer.within(self.ast().files@.len()),
        ensures
            r is None <==> answer.null(),
            r matches Some(file) ==> file.raw() == answer && file.unit() == self,
    {
        File::from_nullable(answer, self)
    }

    /// The entry of the memory usage report at position `k`: its category and
    /// its amount.
    pub open spec fn usage_at(&self, k: int) -> (i32, usize) {
        (self.ast().memory_usage@[k].kind, self.ast().memory_usage@[k].amount as usize)
    }

    /// Returns the memory usage of this translation unit: one entry for each
    /// entry of the frontend's report, in its order.
    pub fn get_memory_usage(&self) -> (usage: Vec<(MemoryUsage, usize)>)
        ensures
            usage@.len() == self.ast().memory_usage@.len(),
            forall|k: int|
                0 <= k < usage@.len() ==> (#[trigger] usage@[k]).0.code() == self.usage_at(k).0
                    && usage@[k].1 == self.usage_at(k).1,
    {
        proof {
            use_type_invariant(self);
        }
        let mut usage: Vec<(MemoryUsage, usize)> = Vec::new();
        let mut k: usize = 0;
        while k < self.ast.memory_usage.len()
            invariant
                self.ast.wf(),
                k <= self.ast.memory_usage@.len(),
                usage@.len() == k,
                forall|m: int|
                    0 <= m < k ==> (#[trigger] usage@[m]).0.code() == self.usage_at(m).0
                        && usage@[m].1 == self.usage_at(m).1,
            decreases self.ast.memory_usage@.len() - k,
        {
            let entry = self.ast.memory_usage[k];
            assert(MemoryUsage::known(self.ast.memory_usage@[k as int].kind));
            match MemoryUsage::from_code(entry.kind) {
                Some(kind) => {
                    usage.push((kind, entry.amount as usize));
                },
                None => {},
            }
            k += 1;
        }
        usage
    }
}

} // verus!
