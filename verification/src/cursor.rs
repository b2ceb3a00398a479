//! Cursors: references to the elements of the AST of a translation unit.

use vstd::prelude::*;
use vstd::std_specs::cmp::PartialEqSpecImpl;
use crate::ast::{NodeRecord, CODE_INVALID, KIND_TRANSLATION_UNIT};
use crate::cursor_kind::CursorKind;
use crate::kinds::{AccessSpecifier, Availability, CursorVisitResult, Language};
use crate::marshal::{to_string_option, Handle, Nullable, RawCursor, RawRange};
use crate::module::Module;
use crate::source::{SourceLocation, SourceRange};
use crate::unit::TranslationUnit;
use crate::visit::Walk;

verus! {

/// A reference to an element in the AST of a translation unit.
#[derive(Copy, Clone, Debug)]
pub struct Cursor<'tu> {
    raw: RawCursor,
    tu: &'tu TranslationUnit<'tu>,
}

impl<'tu> Cursor<'tu> {
    #[verifier::type_invariant]
    spec fn inv(&self) -> bool {
        self.raw.valid(self.tu.ast().nodes@.len())
    }

    /// The raw value of this cursor.
    pub closed spec fn raw(&self) -> RawCursor {
        self.raw
    }

    /// The translation unit that this cursor belongs to.
    pub closed spec fn unit(&self) -> &'tu TranslationUnit<'tu> {
        self.tu
    }

    /// The slot of the node that this cursor references.
    pub open spec fn node(&self) -> int {
        self.raw().node as int
    }

    /// What the translation unit holds of the node that this cursor
    /// references.
    pub open spec fn record(&self) -> NodeRecord {
        self.unit().ast().nodes@[self.node()]
    }

    /// Reads the record of this cursor.
    fn rec(&self) -> (record: &'tu NodeRecord)
        ensures
            *record == self.record(),
            self.raw().valid(self.unit().ast().nodes@.len()),
            self.unit().ast().wf(),
            record.ok(
                self.unit().ast().nodes@.len(),
                self.unit().ast().locations@.len(),
                self.unit().ast().modules@.len(),
            ),
            self.tu == self.unit(),
    {
        proof {
            use_type_invariant(self);
        }
        &self.tu.records().nodes[self.raw.node]
    }

    /// The cursor behind a raw cursor that references a node of `tu`.
    pub fn from_raw(raw: RawCursor, tu: &'tu TranslationUnit<'tu>) -> (cursor: Cursor<'tu>)
        requires
            raw.valid(tu.ast().nodes@.len()),
        ensures
            cursor.raw() == raw,
            cursor.unit() == tu,
    {
        Cursor { raw, tu }
    }

    /// The cursor behind a raw cursor that may be null.
    pub fn from_nullable(raw: RawCursor, tu: &'tu TranslationUnit<'tu>) -> (r: Option<Cursor<'tu>>)
        requires
            raw.within(tu.ast().nodes@.len()),
        ensures
            r is None <==> raw.null(),
            r matches Some(cursor) ==> cursor.raw() == raw && cursor.unit() == tu,
    {
        if raw.is_null() {
            None
        } else {
            Some(Cursor { raw, tu })
        }
    }

    /// The cursor of `tu` that references node `k` without a hint.
    pub closed spec fn plain(k: int, tu: &'tu TranslationUnit<'tu>) -> Cursor<'tu> {
        Cursor { raw: RawCursor { node: k as usize, hint: 0 }, tu }
    }

    /// The cursor of the same translation unit that references node `k`.
    pub open spec fn at(&self, k: int) -> Cursor<'tu> {
        Self::plain(k, self.unit())
    }

    /// What `plain` gives, and that a cursor is no more than its raw value
    /// and its translation unit.
    pub proof fn lemma_plain(k: int, tu: &'tu TranslationUnit<'tu>, a: Cursor<'tu>, b: Cursor<'tu>)
        ensures
            Self::plain(k, tu).raw() == (RawCursor { node: k as usize, hint: 0 }),
            Self::plain(k, tu).unit() == tu,
            a.raw() == b.raw() && a.unit() == b.unit() ==> a == b,
    {
    }

    /// Returns the raw value of this cursor.
    pub fn get_raw(&self) -> (raw: RawCursor)
        ensures
            raw == self.raw(),
            raw.valid(self.unit().ast().nodes@.len()),
            self.unit().ast().wf(),
    {
        let _ = self.rec();
        self.raw
    }

    /// Returns the accessibility of the C++ AST element this cursor references, if any.
    pub fn get_access_specifier(&self) -> (r: Option<AccessSpecifier>)
        ensures
            r is None <==> self.record().access == CODE_INVALID,
            r matches Some(access) ==> access.code() == self.record().access,
    {
        let code: i32 = self.rec().access;
        if code != CODE_INVALID {
            AccessSpecifier::from_code(code)
        } else {
            None
        }
    }

    /// Returns whether this cursor references a function or a method, so that
    /// it has arguments.
    pub fn has_arguments(&self) -> (r: bool)
        ensures
            r == (self.record().num_arguments >= 0),
    {
        self.rec().num_arguments >= 0
    }

    /// Returns the cursors that refer to the arguments of the function or method this cursor
    /// references, in order.
    ///
    /// The cursor must refer to a function or a method.
    pub fn get_arguments(&self) -> (arguments: Vec<Cursor<'tu>>)
        requires
            self.record().num_arguments >= 0,
        ensures
            arguments@.len() == self.record().num_arguments,
            arguments@.len() == self.record().arguments@.len(),
            forall|k: int|
                0 <= k < arguments@.len() ==> (#[trigger] arguments@[k]).raw()
                    == self.record().arguments@[k] && arguments@[k].unit() == self.unit(),
    {
        let raw = &self.rec().arguments;
        let mut arguments: Vec<Cursor<'tu>> = Vec::new();
        let mut k: usize = 0;
        while k < raw.len()
            invariant
                *raw == self.record().arguments,
                crate::ast::cursors_valid(raw@, self.unit().ast().nodes@.len()),
                self.tu == self.unit(),
                k <= raw@.len(),
                arguments@.len() == k,
                forall|m: int|
                    0 <= m < k ==> (#[trigger] arguments@[m]).raw() == raw@[m]
                        && arguments@[m].unit() == self.unit(),
            decreases raw@.len() - k,
        {
            assert(raw@[k as int].valid(self.unit().ast().nodes@.len()));
            arguments.push(Cursor::from_raw(raw[k], self.tu));
            k += 1;
        }
        arguments
    }

    /// Returns the availability of the AST element this cursor references.
    pub fn get_availability(&self) -> (r: Availability)
        ensures
            r.code() == self.record().availability,
    {
        match Availability::from_code(self.rec().availability) {
            Some(availability) => availability,
            None => Availability::Available,
        }
    }

    /// Returns the canonical cursor for this cursor.
    ///
    /// In the C family of languages, some types of entities can be declared mulitple times. When
    /// there are multiple declarations of the same entity, only one will be considered canonical.
    pub fn get_canonical_cursor(&self) -> (cursor: Cursor<'tu>)
        ensures
            cursor.raw() == self.record().canonical,
            cursor.unit() == self.unit(),
    {
        Cursor::from_raw(self.rec().canonical, self.tu)
    }

    /// Returns the comment associated with the AST element this cursor references, if any.
    pub fn get_comment(&self) -> (r: Option<String>)
        ensures
            r is Some <==> self.record().comment.text_option() is Some,
            r matches Some(s) ==> Some(s@) == self.record().comment.text_option(),
    {
        to_string_option(&self.rec().comment)
    }

    /// Returns the brief of the comment associated with the AST element this cursor references, if
    /// any.
    pub fn get_comment_brief(&self) -> (r: Option<String>)
        ensures
            r is Some <==> self.record().comment_brief.text_option() is Some,
            r matches Some(s) ==> Some(s@) == self.record().comment_brief.text_option(),
    {
        to_string_option(&self.rec().comment_brief)
    }

    /// Returns the source range of the comment associated with the AST element this cursor refers
    /// to, if any.
    pub fn get_comment_range(&self) -> (r: Option<SourceRange<'tu>>)
        ensures
            r is None <==> self.record().comment_range.null(),
            r matches Some(range) ==> range.stored_as(self.record().comment_range, self.unit())
                && range.ordered(),
    {
        let record = self.rec();
        assert(self.unit().ast().node_ordered(self.node()));
        SourceRange::from_nullable(record.comment_range, self.tu)
    }

    /// Returns the children of this cursor: every immediate child once, in
    /// the order of the walk.
    pub fn get_children(&self) -> (children: Vec<Cursor<'tu>>)
        ensures
            children@.len() == self.unit().ast().children(self.node()).len(),
            forall|k: int|
                0 <= k < children@.len() ==> #[trigger] children@[k] == self.at(
                    self.unit().ast().children(self.node())[k],
                ),
    {
        let stop: usize = self.rec().end;
        let ast = self.tu.records();
        let ghost all = ast.children(self.node());
        let mut children: Vec<Cursor<'tu>> = Vec::new();
        assert(self.node() < ast.end_of(self.node()) <= ast.len());
        let mut i: usize = self.raw.node + 1;
        let ghost mut done: Seq<int> = Seq::empty();
        assert(all =~= done + ast.children_from(i as int, stop as int));
        while i < stop
            invariant
                ast.layout_ok(),
                *ast == self.unit().ast(),
                self.tu == self.unit(),
                stop == ast.end_of(self.node()),
                0 <= self.node() < ast.len(),
                all == ast.children(self.node()),
                self.node() < i,
                i <= stop || done.len() == 0,
                all =~= done + ast.children_from(i as int, stop as int),
                children@.len() == done.len(),
                forall|k: int| 0 <= k < done.len() ==> #[trigger] children@[k] == self.at(done[k]),
            decreases stop - i,
        {
            assert(ast.encloses(self.node(), i as int));
            let next: usize = ast.nodes[i].end;
            children.push(Cursor { raw: RawCursor { node: i, hint: 0 }, tu: self.tu });
            proof {
                let rest = ast.children_from(next as int, stop as int);
                assert(ast.children_from(i as int, stop as int) =~= seq![i as int] + rest);
                assert(done.push(i as int) + rest =~= done + (seq![i as int] + rest));
                done = done.push(i as int);
            }
            i = next;
        }
        assert(ast.children_from(i as int, stop as int) =~= Seq::<int>::empty());
        assert(all =~= done);
        children
    }

    /// Returns the cursor that refers to the AST element that describes the definition of the AST
    /// element this cursor references, if any.
    pub fn get_definition(&self) -> (r: Option<Cursor<'tu>>)
        ensures
            r is None <==> self.record().definition.null(),
            r matches Some(cursor) ==> cursor.raw() == self.record().definition && cursor.unit()
                == self.unit(),
    {
        Cursor::from_nullable(self.rec().definition, self.tu)
    }

    /// Returns the display name of this cursor.
    ///
    /// The display name includes additional information about the entity this cursor references.
    pub fn get_display_name(&self) -> (r: Option<String>)
        ensures
            r is Some <==> self.record().display_name.text_option() is Some,
            r matches Some(s) ==> Some(s@) == self.record().display_name.text_option(),
    {
        to_string_option(&self.rec().display_name)
    }

    /// Returns the kind of AST element this cursor references.
    pub fn get_kind(&self) -> (kind: CursorKind)
        ensures
            kind.code() == self.record().kind,
    {
        match CursorKind::from_code(self.rec().kind) {
            Some(kind) => kind,
            None => CursorKind::UnexposedDecl,
        }
    }

    /// Returns whether the frontend gave a language for the AST element this
    /// cursor references, which it does for declarations.
    pub fn has_language(&self) -> (r: bool)
        ensures
            r == (self.record().language != CODE_INVALID),
    {
        self.rec().language != CODE_INVALID
    }

    /// Returns the language used by the AST element this cursor references if this cursor
    /// references a declaration.
    ///
    /// The cursor must refer to a declaration.
    pub fn get_language(&self) -> (language: Language)
        requires
            self.record().language != CODE_INVALID,
        ensures
            language.code() == self.record().language,
    {
        match Language::from_code(self.rec().language) {
            Some(language) => language,
            None => Language::C,
        }
    }

    /// Returns the cursor that refers to the lexical parent of the AST element this cursor
    /// references, if any.
    pub fn get_lexical_parent(&self) -> (r: Option<Cursor<'tu>>)
        ensures
            r is None <==> self.record().lexical_parent.null(),
            r matches Some(cursor) ==> cursor.raw() == self.record().lexical_parent && cursor.unit()
                == self.unit(),
    {
        Cursor::from_nullable(self.rec().lexical_parent, self.tu)
    }

    /// Returns the source location of the AST element this cursor references.
    ///
    /// The cursor must not refer to a translation unit.
    pub fn get_location(&self) -> (location: SourceLocation<'tu>)
        requires
            self.record().kind != KIND_TRANSLATION_UNIT,
        ensures
            location.stored_at(self.record().location, self.unit()),
    {
        SourceLocation::from_raw(self.rec().location, self.tu)
    }

    /// Returns the mangled name for the AST element this cursor references, if any.
    pub fn get_mangled_name(&self) -> (r: Option<String>)
        ensures
            r is Some <==> self.record().mangled_name.text_option() is Some,
            r matches Some(s) ==> Some(s@) == self.record().mangled_name.text_option(),
    {
        to_string_option(&self.rec().mangled_name)
    }

    /// Returns whether this cursor imports a module.
    pub fn has_module(&self) -> (r: bool)
        ensures
            r == !self.record().module.null(),
    {
        !self.rec().module.is_null()
    }

    /// Returns the module imported by the module import declaration this cursor references.
    ///
    /// The cursor must refer to a module import declaration.
    pub fn get_module(&self) -> (module: Module<'tu>)
        requires
            !self.record().module.null(),
        ensures
            module.raw() == self.record().module,
            module.unit() == self.unit(),
    {
        Module::from_ptr(self.rec().module, self.tu)
    }

    /// Returns the name for the AST element this cursor references, if any.
    pub fn get_name(&self) -> (r: Option<String>)
        ensures
            r is Some <==> self.record().name.text_option() is Some,
            r matches Some(s) ==> Some(s@) == self.record().name.text_option(),
    {
        to_string_option(&self.rec().name)
    }

    /// Whether a piece of a name counts: it is not null and starts in a file.
    pub open spec fn usable(&self, piece: RawRange) -> bool {
        !piece.null() && !self.unit().ast().locations@[piece.begin.slot as int].spelling.file.null()
    }

    /// Returns the source ranges of the name for the AST element this cursor references, if any:
    /// the pieces that the frontend gives, up to the first that is null or
    /// starts in no file.
    pub fn get_name_ranges(&self) -> (ranges: Vec<SourceRange<'tu>>)
        ensures
            ranges@.len() <= self.record().name_ranges@.len(),
            forall|k: int|
                0 <= k < ranges@.len() ==> (#[trigger] ranges@[k]).stored_as(
                    self.record().name_ranges@[k],
                    self.unit(),
                ) && ranges@[k].ordered() && self.usable(ranges@[k].raw()),
            ranges@.len() < self.record().name_ranges@.len() ==> !self.usable(
                self.record().name_ranges@[ranges@.len() as int],
            ),
    {
        let raw = &self.rec().name_ranges;
        assert(self.unit().ast().node_ordered(self.node()));
        let ast = self.tu.records();
        let mut ranges: Vec<SourceRange<'tu>> = Vec::new();
        let mut k: usize = 0;
        while k < raw.len()
            invariant
                *raw == self.record().name_ranges,
                *ast == self.unit().ast(),
                self.tu == self.unit(),
                crate::ast::ranges_within(raw@, ast.locations@.len()),
                ast.all_ordered(raw@),
                k <= raw@.len(),
                ranges@.len() == k,
                forall|m: int|
                    0 <= m < k ==> (#[trigger] ranges@[m]).stored_as(raw@[m], self.unit())
                        && ranges@[m].ordered() && self.usable(ranges@[m].raw()),
            decreases raw@.len() - k,
        {
            let piece: RawRange = raw[k];
            assert(raw@[k as int].within(ast.locations@.len()));
            if piece.is_null() {
                return ranges;
            }
            if ast.locations[piece.begin.slot].spelling.file.is_null() {
                return ranges;
            }
            ranges.push(SourceRange::from_raw(piece, self.tu));
            k += 1;
        }
        ranges
    }

    /// Returns the source range of the AST element this cursor references.
    ///
    /// The cursor must not refer to a translation unit.
    pub fn get_range(&self) -> (range: SourceRange<'tu>)
        requires
            self.record().kind != KIND_TRANSLATION_UNIT,
        ensures
            range.stored_as(self.record().extent, self.unit()),
            range.ordered(),
    {
        let record = self.rec();
        assert(self.unit().ast().node_ordered(self.node()));
        SourceRange::from_raw(record.extent, self.tu)
    }

    /// Returns the cursor that refers to the AST element referred to by the AST element this cursor
    /// references.
    pub fn get_reference(&self) -> (r: Option<Cursor<'tu>>)
        ensures
            r is None <==> self.record().referenced.null(),
            r matches Some(cursor) ==> cursor.raw() == self.record().referenced && cursor.unit()
                == self.unit(),
    {
        Cursor::from_nullable(self.rec().referenced, self.tu)
    }

    /// Returns the cursor that refers to the semantic parent of the AST element this cursor
    /// references, if any.
    pub fn get_semantic_parent(&self) -> (r: Option<Cursor<'tu>>)
        ensures
            r is None <==> self.record().semantic_parent.null(),
            r matches Some(cursor) ==> cursor.raw() == self.record().semantic_parent
                && cursor.unit() == self.unit(),
    {
        Cursor::from_nullable(self.rec().semantic_parent, self.tu)
    }

    /// Returns the translation unit which contains the AST element this cursor references.
    pub fn get_translation_unit(&self) -> (unit: &'tu TranslationUnit<'tu>)
        ensures
            unit == self.unit(),
    {
        self.tu
    }

    /// Returns whether this cursor refers to an anonymous record declaration.
    pub fn is_anonymous(&self) -> (r: bool)
        ensures
            r == self.record().anonymous,
    {
        self.rec().anonymous
    }

    /// Returns whether this cursor refers to a bit field.
    pub fn is_bit_field(&self) -> (r: bool)
        ensures
            r == self.record().bit_field,
    {
        self.rec().bit_field
    }

    /// Returns whether this cursor refers to a const method.
    pub fn is_const_method(&self) -> (r: bool)
        ensures
            r == self.record().const_method,
    {
        self.rec().const_method
    }

    /// Returns whether this cursor refers to a dynamic call.
    ///
    /// A dynamic call is either a call to a C++ virtual method or an Objective-C message where the
    /// receiver is an object instance, not `super` or a specific class.
    pub fn is_dynamic_call(&self) -> (r: bool)
        ensures
            r == self.record().dynamic_call,
    {
        self.rec().dynamic_call
    }

    /// Returns whether this cursor refers to a pure virtual method.
    pub fn is_pure_virtual_method(&self) -> (r: bool)
        ensures
            r == self.record().pure_virtual_method,
    {
        self.rec().pure_virtual_method
    }

    /// Returns whether this cursor refers to a static method.
    pub fn is_static_method(&self) -> (r: bool)
        ensures
            r == self.record().static_method,
    {
        self.rec().static_method
    }

    /// Returns whether this cursor refers to a variadic function or method.
    pub fn is_variadic(&self) -> (r: bool)
        ensures
            r == self.record().variadic,
    {
        self.rec().variadic
    }

    /// Returns whether this cursor refers to a virtual method.
    pub fn is_virtual_method(&self) -> (r: bool)
        ensures
            r == self.record().virtual_method,
    {
        self.rec().virtual_method
    }

    /// The state of the walk over the children of this cursor after the
    /// visitor gave the directives `ds`.
    pub open spec fn walk(&self, ds: Seq<CursorVisitResult>) -> Walk {
        self.unit().ast().run(self.node() + 1, self.record().end as int, ds)
    }

    /// Whether `ds` are the directives that `f` gave in a whole walk over the
    /// children of this cursor: `f` was asked about one node for each
    /// directive, it answered the k-th time with the k-th directive, to the
    /// node and its parent, and with the last directive the walk was over.
    pub open spec fn answered<F: FnMut(Cursor<'tu>, Cursor<'tu>) -> CursorVisitResult>(
        &self,
        f: F,
        ds: Seq<CursorVisitResult>,
    ) -> bool {
        let w = self.walk(ds);
        &&& w.visited.len() == ds.len()
        &&& self.unit().ast().walk_over(self.record().end as int, w)
        &&& forall|k: int|
            0 <= k < ds.len() ==> call_ensures(
                f,
                (self.at(w.visited[k]), self.at(self.unit().ast().parent_of(w.visited[k]))),
                #[trigger] ds[k],
            )
    }

    /// Visits the children of this cursor recursively and returns whether visitation was ended by
    /// the callback returning `CursorVisitResult::Break`.
    ///
    /// The first argument of the callback is the cursor being visited and the second argument is
    /// the parent of that cursor. The return value of the callback determines how visitation will
    /// proceed.
    pub fn visit_children<F: FnMut(Cursor<'tu>, Cursor<'tu>) -> CursorVisitResult>(
        &self,
        f: F,
    ) -> (stopped: bool)
        requires
            forall|k: int|
                self.node() < k < self.record().end ==> call_requires(
                    f,
                    (#[trigger] self.at(k), self.at(self.unit().ast().parent_of(k))),
                ),
        ensures
            exists|ds: Seq<CursorVisitResult>| #[trigger]
                self.answered(f, ds) && stopped == self.walk(ds).stopped,
    {
        let stop: usize = self.rec().end;
        let ast = self.tu.records();
        let ghost start = self.node() + 1;
        let ghost mut ds: Seq<CursorVisitResult> = Seq::empty();
        let ghost mut seen: Seq<int> = Seq::empty();
        let mut callback = f;
        assert(self.node() < ast.end_of(self.node()) <= ast.len());
        let mut i: usize = self.raw.node + 1;
        while i < stop
            invariant
                callback == f,
                ast.layout_ok(),
                *ast == self.unit().ast(),
                self.tu == self.unit(),
                stop == ast.end_of(self.node()),
                0 <= self.node() < ast.len(),
                start == self.node() + 1,
                start <= i,
                forall|k: int|
                    self.node() < k < stop ==> call_requires(
                        f,
                        (#[trigger] self.at(k), self.at(ast.parent_of(k))),
                    ),
                ast.run(start, stop as int, ds) == (Walk {
                    pos: i as int,
                    visited: seen,
                    stopped: false,
                }),
                seen.len() == ds.len(),
                forall|k: int|
                    0 <= k < ds.len() ==> call_ensures(
                        f,
                        (self.at(seen[k]), self.at(ast.parent_of(seen[k]))),
                        #[trigger] ds[k],
                    ),
            decreases stop - i,
        {
            assert(ast.encloses(self.node(), i as int));
            let parent: usize = ast.nodes[i].parent;
            let next: usize = ast.nodes[i].end;
            assert(0 <= ast.parent_of(i as int) < i);
            let cursor = Cursor { raw: RawCursor { node: i, hint: 0 }, tu: self.tu };
            let above = Cursor { raw: RawCursor { node: parent, hint: 0 }, tu: self.tu };
            assert(cursor == self.at(i as int));
            assert(above == self.at(ast.parent_of(i as int)));
            let d = callback(cursor, above);
            proof {
                ast.lemma_run_push(start, stop as int, ds, d);
                let ghost more = seen.push(i as int);
                assert forall|k: int| 0 <= k < ds.push(d).len() implies call_ensures(
                    f,
                    (self.at(more[k]), self.at(ast.parent_of(more[k]))),
                    #[trigger] ds.push(d)[k],
                ) by {
                    if k < ds.len() {
                        assert(more[k] == seen[k]);
                        assert(ds.push(d)[k] == ds[k]);
                    }
                }
                ds = ds.push(d);
                seen = more;
            }
            match d {
                CursorVisitResult::Break => {
                    assert(self.answered(f, ds));
                    return true;
                },
                CursorVisitResult::Continue => {
                    i = next;
                },
                CursorVisitResult::Recurse => {
                    i = i + 1;
                },
            }
        }
        assert(self.answered(f, ds));
        false
    }

    /// The value that a hash of this cursor is made of.
    pub open spec fn hash_key(&self) -> u64 {
        self.record().hash as u64
    }

    /// Returns the value that a hash of this cursor is made of: the hash that
    /// the frontend gives the node. Equal cursors have equal values.
    pub fn hash_value(&self) -> (r: u64)
        ensures
            r == self.hash_key(),
    {
        self.rec().hash as u64
    }
}

impl<'tu> PartialEq for Cursor<'tu> {
    /// Two cursors are equal when they reference the same node, by whatever
    /// way the frontend arrived at it.
    ///
    /// This is meant for cursors of one translation unit: the nodes are told
    /// apart by their slots, and two translation units each have a node in
    /// slot 0.
    fn eq(&self, other: &Cursor<'tu>) -> (r: bool) {
        self.raw.node == other.raw.node
    }
}

impl<'tu> PartialEqSpecImpl for Cursor<'tu> {
    open spec fn obeys_eq_spec() -> bool {
        true
    }

    open spec fn eq_spec(&self, other: &Cursor<'tu>) -> bool {
        self.node() == other.node()
    }
}

impl<'tu> Eq for Cursor<'tu> {

}

impl<'tu> std::hash::Hash for Cursor<'tu> {
    /// Feeds the hash value of the cursor to `state`.
    fn hash<H: std::hash::Hasher>(&self, state: &mut H) {
        crate::marshal::feed(state, self.hash_value());
    }
}

} // verus!
