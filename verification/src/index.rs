//! The analysis context that translation units are built in.

use std::marker::PhantomData;
use vstd::prelude::*;
use crate::engine::Clang;
use crate::options::BackgroundPriority;

verus! {

/// A collection of translation units.
///
/// An index borrows the token it was built from, so it cannot outlive it, and
/// every translation unit borrows its index in turn.
#[derive(Debug)]
pub struct Index<'c> {
    exclude: bool,
    diagnostics: bool,
    options: u32,
    _marker: PhantomData<&'c Clang>,
}

impl<'c> Index<'c> {
    /// Whether declarations from precompiled headers are excluded.
    pub closed spec fn excludes(&self) -> bool {
        self.exclude
    }

    /// Whether diagnostics are printed while source files are parsed.
    pub closed spec fn prints_diagnostics(&self) -> bool {
        self.diagnostics
    }

    /// The global option flags of the index.
    pub closed spec fn global_options(&self) -> u32 {
        self.options
    }

    /// Constructs a new `Index`.
    ///
    /// `exclude` determines whether declarations from precompiled headers are excluded and
    /// `diagnostics` determines whether diagnostics are printed while parsing source files.
    /// No global option is set.
    pub fn new(_clang: &'c Clang, exclude: bool, diagnostics: bool) -> (index: Index<'c>)
        ensures
            index.excludes() == exclude,
            index.prints_diagnostics() == diagnostics,
            index.global_options() == 0,
    {
        Index { exclude, diagnostics, options: 0, _marker: PhantomData }
    }

    /// Returns the two arguments that the frontend creates this index with:
    /// 1 for a flag that is set and 0 for one that is not.
    pub fn get_creation_arguments(&self) -> (r: (i32, i32))
        ensures
            r.0 == (if self.excludes() { 1i32 } else { 0i32 }),
            r.1 == (if self.prints_diagnostics() { 1i32 } else { 0i32 }),
    {
        (if self.exclude { 1 } else { 0 }, if self.diagnostics { 1 } else { 0 })
    }

    /// Returns the global option flags of the index.
    pub fn get_global_options(&self) -> (r: u32)
        ensures
            r == self.global_options(),
    {
        self.options
    }

    /// Returns which types of threads have background priority.
    pub fn get_background_priority(&self) -> (r: BackgroundPriority)
        ensures
            r == BackgroundPriority::of_flags(self.global_options()),
    {
        BackgroundPriority::from_flags(self.options)
    }

    /// Sets which types of threads have background priority.
    ///
    /// The global options become the flags of `priority` and nothing else;
    /// the configuration of the index is unchanged.
    pub fn set_background_priority(&mut self, priority: BackgroundPriority)
        ensures
            final(self).global_options() == priority.flags(),
            final(self).get_background_priority_spec() == priority,
            final(self).excludes() == old(self).excludes(),
            final(self).prints_diagnostics() == old(self).prints_diagnostics(),
    {
        proof {
            priority.lemma_round_trip();
        }
        self.options = priority.into_flags();
    }

    /// Which types of threads have background priority.
    pub open spec fn get_background_priority_spec(&self) -> BackgroundPriority {
        BackgroundPriority::of_flags(self.global_options())
    }
}

} // verus!
