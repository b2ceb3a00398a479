//! The plain-data image of a parsed translation unit: what the frontend
//! reported of every node, file, module, source location and diagnostic.
//!
//! The nodes stand in the order of a depth-first walk that visits a parent
//! before its children and siblings in declaration order. Each node records
//! its parent and the slot just behind its last descendant, so the subtree
//! of node `i` fills the slots from `i` up to `end`, and a walk moves to the
//! first child by stepping to the next slot and past a subtree by jumping to
//! its `end`.

use vstd::prelude::*;
use crate::cursor_kind::CursorKind;
use crate::kinds::{AccessSpecifier, Availability, Language, MemoryUsage, Severity};
use crate::marshal::{Handle, Nullable, RawCursor, RawRange, RawString};

verus! {

/// The number of the kind of the root node of every translation unit.
pub const KIND_TRANSLATION_UNIT: i32 = 300;

/// The number that an access or language query gives where it does not apply.
pub const CODE_INVALID: i32 = 0;

/// How many different sets of display flags there are.
pub const FORMAT_COUNT: usize = 64;

/// A file, line, column, and character offset as the frontend reports them.
/// The file is null where the position lies in no file.
#[derive(Copy, Clone, Debug, PartialEq, Eq, Hash, Structural)]
pub struct RawPosition {
    pub file: Handle,
    pub line: u32,
    pub column: u32,
    pub offset: u32,
}

/// What the frontend reports of one source location.
#[derive(Clone, Debug)]
pub struct LocationRecord {
    /// Where the characters of the location are spelled.
    pub spelling: RawPosition,
    /// Where the macro expansion that holds the location stands.
    pub expansion: RawPosition,
    /// As `expansion`, but inside a macro argument the place of the argument.
    pub file_location: RawPosition,
    /// The file name that line directives give the location.
    pub presumed_file: RawString,
    /// The line that line directives give the location.
    pub presumed_line: u32,
    /// The column of the location under line directives.
    pub presumed_column: u32,
    /// Whether the location lies in the main file of the translation unit.
    pub main_file: bool,
    /// Whether the location lies in a system header.
    pub system_header: bool,
    /// The node at the location, or the null cursor.
    pub cursor: RawCursor,
}

/// The three numbers by which the frontend identifies a file.
#[derive(Copy, Clone, Debug, PartialEq, Eq, Hash, Structural)]
pub struct RawFileId {
    pub first: u64,
    pub second: u64,
    pub third: u64,
}

/// What the frontend reports of one file.
#[derive(Clone, Debug)]
pub struct FileRecord {
    /// The three numbers that identify the file.
    pub id: RawFileId,
    /// The absolute path of the file.
    pub path: RawString,
    /// The last modification time of the file.
    pub time: i64,
    /// Whether the file is guarded against multiple inclusion.
    pub include_guarded: bool,
    /// The module that contains the file, or null.
    pub module: Handle,
}

/// What the frontend reports of one module.
#[derive(Clone, Debug)]
pub struct ModuleRecord {
    /// The AST file that the module came from.
    pub ast_file: Handle,
    /// The full dotted name of the module.
    pub full_name: RawString,
    /// The last part of the name of the module.
    pub name: RawString,
    /// The parent module, or null.
    pub parent: Handle,
    /// Whether the module is a system module.
    pub system: bool,
    /// The top-level headers of the module.
    pub top_level_headers: Vec<Handle>,
}

/// One suggested edit as the frontend reports it: a range and the text to
/// put in its place.
#[derive(Clone, Debug)]
pub struct RawFixIt {
    pub range: RawRange,
    pub text: RawString,
}

/// What the frontend reports of one diagnostic.
#[derive(Clone, Debug)]
pub struct DiagnosticRecord {
    /// The number of the severity.
    pub severity: i32,
    /// The text of the message.
    pub text: RawString,
    /// The location that the diagnostic indicates.
    pub location: Handle,
    /// The source ranges of the diagnostic.
    pub ranges: Vec<RawRange>,
    /// The suggested edits of the diagnostic.
    pub fix_its: Vec<RawFixIt>,
    /// The formatted diagnostic under each set of display flags: the entry
    /// at position `flags` is the text that those flags give.
    pub formats: Vec<RawString>,
}

/// One entry of the memory usage report: the number of a category and the
/// amount of memory in bytes.
#[derive(Copy, Clone, Debug, PartialEq, Eq, Hash, Structural)]
pub struct RawUsage {
    pub kind: i32,
    pub amount: u64,
}

/// What the frontend reports of one AST node.
#[derive(Clone, Debug)]
pub struct NodeRecord {
    /// The slot of the parent node; the root is its own parent.
    pub parent: usize,
    /// The slot just behind the last descendant of the node.
    pub end: usize,
    /// The number of the kind of the node.
    pub kind: i32,
    /// The number of the access specifier, or the invalid code.
    pub access: i32,
    /// The number of the availability.
    pub availability: i32,
    /// The number of the language, or the invalid code where the node is no
    /// declaration.
    pub language: i32,
    /// The canonical cursor for the node.
    pub canonical: RawCursor,
    /// The definition of the node, or the null cursor.
    pub definition: RawCursor,
    /// The node that this node refers to, or the null cursor.
    pub referenced: RawCursor,
    /// The lexical parent, or the null cursor.
    pub lexical_parent: RawCursor,
    /// The semantic parent, or the null cursor.
    pub semantic_parent: RawCursor,
    /// The raw comment text.
    pub comment: RawString,
    /// The brief of the comment.
    pub comment_brief: RawString,
    /// The display name.
    pub display_name: RawString,
    /// The mangled name.
    pub mangled_name: RawString,
    /// The spelling.
    pub name: RawString,
    /// The range of the comment, or the null range.
    pub comment_range: RawRange,
    /// The extent of the node.
    pub extent: RawRange,
    /// The location of the node.
    pub location: Handle,
    /// The module that a module import declaration imports, or null.
    pub module: Handle,
    /// The pieces of the spelling, as the frontend gives them piece by piece.
    pub name_ranges: Vec<RawRange>,
    /// The number of arguments, negative where the node is neither a function
    /// nor a method.
    pub num_arguments: i32,
    /// The arguments.
    pub arguments: Vec<RawCursor>,
    /// The hash that the frontend gives the node.
    pub hash: u32,
    pub anonymous: bool,
    pub bit_field: bool,
    pub const_method: bool,
    pub dynamic_call: bool,
    pub pure_virtual_method: bool,
    pub static_method: bool,
    pub variadic: bool,
    pub virtual_method: bool,
}

/// The image of a parsed translation unit.
#[derive(Clone, Debug)]
pub struct Ast {
    /// The nodes, the root first, in walk order.
    pub nodes: Vec<NodeRecord>,
    pub files: Vec<FileRecord>,
    pub modules: Vec<ModuleRecord>,
    pub locations: Vec<LocationRecord>,
    pub diagnostics: Vec<DiagnosticRecord>,
    /// The memory usage report.
    pub memory_usage: Vec<RawUsage>,
    /// The spelling of the translation unit.
    pub spelling: RawString,
}

/// Whether every cursor of `v` references one of `len` nodes.
pub open spec fn cursors_valid(v: Seq<RawCursor>, len: nat) -> bool {
    forall|k: int| 0 <= k < v.len() ==> (#[trigger] v[k]).valid(len)
}

/// Whether every range of `v` has both end points among `len` locations.
pub open spec fn ranges_valid(v: Seq<RawRange>, len: nat) -> bool {
    forall|k: int| 0 <= k < v.len() ==> (#[trigger] v[k]).valid(len)
}

/// Whether every range of `v` is null or has both end points among `len`
/// locations.
pub open spec fn ranges_within(v: Seq<RawRange>, len: nat) -> bool {
    forall|k: int| 0 <= k < v.len() ==> (#[trigger] v[k]).within(len)
}

/// Whether every handle of `v` names one of `len` records.
pub open spec fn handles_valid(v: Seq<Handle>, len: nat) -> bool {
    forall|k: int| 0 <= k < v.len() ==> (#[trigger] v[k]).valid(len)
}

/// Whether every string of `v` is not null and holds valid text.
pub open spec fn texts_held(v: Seq<RawString>) -> bool {
    forall|k: int| 0 <= k < v.len() ==> (#[trigger] v[k]).holds_text()
}

/// Whether every edit of `v` has a range among `len` locations and a text.
pub open spec fn fix_its_valid(v: Seq<RawFixIt>, len: nat) -> bool {
    forall|k: int|
        0 <= k < v.len() ==> (#[trigger] v[k]).range.valid(len) && v[k].text.holds_text()
}

fn check_cursors(v: &Vec<RawCursor>, len: usize) -> (r: bool)
    ensures
        r == cursors_valid(v@, len as nat),
{
    let mut k: usize = 0;
    while k < v.len()
        invariant
            k <= v.len(),
            forall|m: int| 0 <= m < k ==> (#[trigger] v@[m]).valid(len as nat),
        decreases v.len() - k,
    {
        if !v[k].is_valid(len) {
            return false;
        }
        k += 1;
    }
    true
}

fn check_ranges(v: &Vec<RawRange>, len: usize) -> (r: bool)
    ensures
        r == ranges_valid(v@, len as nat),
{
    let mut k: usize = 0;
    while k < v.len()
        invariant
            k <= v.len(),
            forall|m: int| 0 <= m < k ==> (#[trigger] v@[m]).valid(len as nat),
        decreases v.len() - k,
    {
        if !v[k].is_valid(len) {
            return false;
        }
        k += 1;
    }
    true
}

fn check_ranges_within(v: &Vec<RawRange>, len: usize) -> (r: bool)
    ensures
        r == ranges_within(v@, len as nat),
{
    let mut k: usize = 0;
    while k < v.len()
        invariant
            k <= v.len(),
            forall|m: int| 0 <= m < k ==> (#[trigger] v@[m]).within(len as nat),
        decreases v.len() - k,
    {
        if !v[k].is_within(len) {
            return false;
        }
        k += 1;
    }
    true
}

fn check_handles(v: &Vec<Handle>, len: usize) -> (r: bool)
    ensures
        r == handles_valid(v@, len as nat),
{
    let mut k: usize = 0;
    while k < v.len()
        invariant
            k <= v.len(),
            forall|m: int| 0 <= m < k ==> (#[trigger] v@[m]).valid(len as nat),
        decreases v.len() - k,
    {
        if !v[k].is_valid(len) {
            return false;
        }
        k += 1;
    }
    true
}

fn check_texts(v: &Vec<RawString>) -> (r: bool)
    ensures
        r == texts_held(v@),
{
    let mut k: usize = 0;
    while k < v.len()
        invariant
            k <= v.len(),
            forall|m: int| 0 <= m < k ==> (#[trigger] v@[m]).holds_text(),
        decreases v.len() - k,
    {
        if !v[k].check_holds_text() {
            return false;
        }
        k += 1;
    }
    true
}

fn check_fix_its(v: &Vec<RawFixIt>, len: usize) -> (r: bool)
    ensures
        r == fix_its_valid(v@, len as nat),
{
    let mut k: usize = 0;
    while k < v.len()
        invariant
            k <= v.len(),
            forall|m: int|
                0 <= m < k ==> (#[trigger] v@[m]).range.valid(len as nat)
                    && v@[m].text.holds_text(),
        decreases v.len() - k,
    {
        if !v[k].range.is_valid(len) || !v[k].text.check_holds_text() {
            return false;
        }
        k += 1;
    }
    true
}

impl LocationRecord {
    /// The record of a location that is spelled, expanded and presumed at one
    /// position of a file with the given name, outside the main file and any
    /// system header, with no node at it.
    pub fn new(file: Handle, name: &str, line: u32, column: u32, offset: u32) -> (r:
        LocationRecord)
        ensures
            r.spelling == (RawPosition { file, line, column, offset }),
            r.expansion == r.spelling,
            r.file_location == r.spelling,
            r.presumed_file.holds_text(),
            r.presumed_file.text() == name@,
            r.presumed_line == line,
            r.presumed_column == column,
            !r.main_file,
            !r.system_header,
            r.cursor.null(),
    {
        let position = RawPosition { file, line, column, offset };
        LocationRecord {
            spelling: position,
            expansion: position,
            file_location: position,
            presumed_file: RawString::from_text(name),
            presumed_line: line,
            presumed_column: column,
            main_file: false,
            system_header: false,
            cursor: RawCursor::null_cursor(),
        }
    }

    /// Whether the record fits a translation unit with that many files and
    /// nodes.
    pub open spec fn ok(self, files: nat, nodes: nat) -> bool {
        &&& self.spelling.file.within(files)
        &&& self.expansion.file.within(files)
        &&& self.file_location.file.within(files)
        &&& self.presumed_file.holds_text()
        &&& self.cursor.within(nodes)
    }

    /// Returns whether the record fits a translation unit with that many
    /// files and nodes.
    pub fn check(&self, files: usize, nodes: usize) -> (r: bool)
        ensures
            r == self.ok(files as nat, nodes as nat),
    {
        self.spelling.file.is_within(files) && self.expansion.file.is_within(files)
            && self.file_location.file.is_within(files) && self.presumed_file.check_holds_text()
            && self.cursor.is_within(nodes)
    }
}

impl FileRecord {
    /// The record of a file with the given identifier and path, modified at
    /// time 0, not guarded and in no module.
    pub fn new(id: RawFileId, path: &str) -> (r: FileRecord)
        ensures
            r.id == id,
            r.path.holds_text(),
            r.path.text() == path@,
            r.time == 0,
            !r.include_guarded,
            r.module.null(),
    {
        FileRecord {
            id,
            path: RawString::from_text(path),
            time: 0,
            include_guarded: false,
            module: Handle::null_handle(),
        }
    }

    /// Whether the record fits a translation unit with that many modules.
    pub open spec fn ok(self, modules: nat) -> bool {
        &&& self.path.holds_text()
        &&& self.module.within(modules)
    }

    /// Returns whether the record fits a translation unit with that many
    /// modules.
    pub fn check(&self, modules: usize) -> (r: bool)
        ensures
            r == self.ok(modules as nat),
    {
        self.path.check_holds_text() && self.module.is_within(modules)
    }
}

impl ModuleRecord {
    /// The record of a module from the given AST file, with the given full
    /// name and name, without parent or headers, and no system module.
    pub fn new(ast_file: Handle, full_name: &str, name: &str) -> (r: ModuleRecord)
        ensures
            r.ast_file == ast_file,
            r.full_name.holds_text(),
            r.full_name.text() == full_name@,
            r.name.holds_text(),
            r.name.text() == name@,
            r.parent.null(),
            !r.system,
            r.top_level_headers@.len() == 0,
    {
        ModuleRecord {
            ast_file,
            full_name: RawString::from_text(full_name),
            name: RawString::from_text(name),
            parent: Handle::null_handle(),
            system: false,
            top_level_headers: Vec::new(),
        }
    }

    /// Whether the record fits a translation unit with that many files and
    /// modules.
    pub open spec fn ok(self, files: nat, modules: nat) -> bool {
        &&& self.ast_file.valid(files)
        &&& self.full_name.holds_text()
        &&& self.name.holds_text()
        &&& self.parent.within(modules)
        &&& handles_valid(self.top_level_headers@, files)
    }

    /// Returns whether the record fits a translation unit with that many
    /// files and modules.
    pub fn check(&self, files: usize, modules: usize) -> (r: bool)
        ensures
            r == self.ok(files as nat, modules as nat),
    {
        self.ast_file.is_valid(files) && self.full_name.check_holds_text()
            && self.name.check_holds_text() && self.parent.is_within(modules) && check_handles(
            &self.top_level_headers,
            files,
        )
    }
}

impl DiagnosticRecord {
    /// Whether the record fits a translation unit with that many locations.
    pub open spec fn ok(self, locations: nat) -> bool {
        &&& Severity::known(self.severity)
        &&& self.text.holds_text()
        &&& self.location.valid(locations)
        &&& ranges_valid(self.ranges@, locations)
        &&& fix_its_valid(self.fix_its@, locations)
        &&& self.formats@.len() == FORMAT_COUNT
        &&& texts_held(self.formats@)
    }

    /// Returns whether the record fits a translation unit with that many
    /// locations.
    pub fn check(&self, locations: usize) -> (r: bool)
        ensures
            r == self.ok(locations as nat),
    {
        Severity::from_code(self.severity).is_some() && self.text.check_holds_text()
            && self.location.is_valid(locations) && check_ranges(&self.ranges, locations)
            && check_fix_its(&self.fix_its, locations) && self.formats.len() == FORMAT_COUNT
            && check_texts(&self.formats)
    }
}

impl NodeRecord {
    /// Whether nothing but the place in the tree and the kind is reported of
    /// the node at slot `index`: its canonical cursor is the node itself, it
    /// is located at the first location record, and it has no names, no
    /// links, no arguments and no property set.
    pub open spec fn is_plain(&self, index: usize) -> bool {
        &&& self.access == CODE_INVALID
        &&& self.availability == 0
        &&& self.language == CODE_INVALID
        &&& self.canonical == (RawCursor { node: index, hint: 0 })
        &&& self.definition.null() && self.referenced.null() && self.lexical_parent.null()
            && self.semantic_parent.null()
        &&& self.comment.null() && self.comment_brief.null() && self.display_name.null()
            && self.mangled_name.null() && self.name.null()
        &&& self.comment_range.null()
        &&& self.extent == (RawRange { begin: Handle { slot: 0 }, end: Handle { slot: 0 } })
        &&& self.location == (Handle { slot: 0 })
        &&& self.module.null()
        &&& self.name_ranges@.len() == 0
        &&& self.num_arguments == -1
        &&& self.arguments@.len() == 0
        &&& self.hash == 0
        &&& !self.anonymous && !self.bit_field && !self.const_method && !self.dynamic_call
            && !self.pure_virtual_method && !self.static_method && !self.variadic
            && !self.virtual_method
    }

    /// The record of a node at slot `index` with the given parent, end and
    /// kind, and with nothing else reported of it.
    pub fn new(index: usize, parent: usize, end: usize, kind: i32) -> (r: NodeRecord)
        ensures
            r.parent == parent,
            r.end == end,
            r.kind == kind,
            r.is_plain(index),
    {
        NodeRecord {
            parent,
            end,
            kind,
            access: CODE_INVALID,
            availability: 0,
            language: CODE_INVALID,
            canonical: RawCursor { node: index, hint: 0 },
            definition: RawCursor::null_cursor(),
            referenced: RawCursor::null_cursor(),
            lexical_parent: RawCursor::null_cursor(),
            semantic_parent: RawCursor::null_cursor(),
            comment: RawString::null_string(),
            comment_brief: RawString::null_string(),
            display_name: RawString::null_string(),
            mangled_name: RawString::null_string(),
            name: RawString::null_string(),
            comment_range: RawRange::null_range(),
            extent: RawRange { begin: Handle { slot: 0 }, end: Handle { slot: 0 } },
            location: Handle { slot: 0 },
            module: Handle::null_handle(),
            name_ranges: Vec::new(),
            num_arguments: -1,
            arguments: Vec::new(),
            hash: 0,
            anonymous: false,
            bit_field: false,
            const_method: false,
            dynamic_call: false,
            pure_virtual_method: false,
            static_method: false,
            variadic: false,
            virtual_method: false,
        }
    }

    /// Whether what the record holds, the place in the tree aside, fits a
    /// translation unit with that many nodes, locations and modules: every
    /// number decodes, every handle is in range, every string is text, and
    /// the arguments are as many as their count says.
    pub open spec fn ok(self, nodes: nat, locations: nat, modules: nat) -> bool {
        &&& CursorKind::known(self.kind)
        &&& (self.access == CODE_INVALID || AccessSpecifier::known(self.access))
        &&& Availability::known(self.availability)
        &&& (self.language == CODE_INVALID || Language::known(self.language))
        &&& self.canonical.valid(nodes)
        &&& self.definition.within(nodes)
        &&& self.referenced.within(nodes)
        &&& self.lexical_parent.within(nodes)
        &&& self.semantic_parent.within(nodes)
        &&& self.comment.is_text()
        &&& self.comment_brief.is_text()
        &&& self.display_name.is_text()
        &&& self.mangled_name.is_text()
        &&& self.name.is_text()
        &&& self.comment_range.within(locations)
        &&& self.extent.valid(locations)
        &&& self.location.valid(locations)
        &&& self.module.within(modules)
        &&& ranges_within(self.name_ranges@, locations)
        &&& (self.num_arguments >= 0 ==> self.arguments@.len() == self.num_arguments)
        &&& cursors_valid(self.arguments@, nodes)
    }

    /// Returns whether what the record holds, the place in the tree aside,
    /// fits a translation unit with that many nodes, locations and modules.
    pub fn check(&self, nodes: usize, locations: usize, modules: usize) -> (r: bool)
        ensures
            r == self.ok(nodes as nat, locations as nat, modules as nat),
    {
        CursorKind::from_code(self.kind).is_some() && (self.access == CODE_INVALID
            || AccessSpecifier::from_code(self.access).is_some()) && Availability::from_code(
            self.availability,
        ).is_some() && (self.language == CODE_INVALID || Language::from_code(
            self.language,
        ).is_some()) && self.canonical.is_valid(nodes) && self.definition.is_within(nodes)
            && self.referenced.is_within(nodes) && self.lexical_parent.is_within(nodes)
            && self.semantic_parent.is_within(nodes) && self.comment.check_text()
            && self.comment_brief.check_text() && self.display_name.check_text()
            && self.mangled_name.check_text() && self.name.check_text()
            && self.comment_range.is_within(locations) && self.extent.is_valid(locations)
            && self.location.is_valid(locations) && self.module.is_within(modules)
            && check_ranges_within(&self.name_ranges, locations) && (self.num_arguments < 0
            || self.arguments.len() == self.num_arguments as usize) && check_cursors(
            &self.arguments,
            nodes,
        )
    }
}

impl Ast {
    /// An image without any record.
    pub fn new() -> (r: Ast)
        ensures
            r.nodes@.len() == 0,
            r.files@.len() == 0,
            r.modules@.len() == 0,
            r.locations@.len() == 0,
            r.diagnostics@.len() == 0,
            r.memory_usage@.len() == 0,
            r.spelling.null(),
    {
        Ast {
            nodes: Vec::new(),
            files: Vec::new(),
            modules: Vec::new(),
            locations: Vec::new(),
            diagnostics: Vec::new(),
            memory_usage: Vec::new(),
            spelling: RawString::null_string(),
        }
    }

    /// The number of nodes.
    pub open spec fn len(&self) -> int {
        self.nodes@.len() as int
    }

    /// The slot just behind the last descendant of node `i`.
    pub open spec fn end_of(&self, i: int) -> int {
        self.nodes@[i].end as int
    }

    /// The slot of the parent of node `i`.
    pub open spec fn parent_of(&self, i: int) -> int {
        self.nodes@[i].parent as int
    }

    /// Whether node `j` lies in the subtree below node `i`.
    pub open spec fn encloses(&self, i: int, j: int) -> bool {
        0 <= i < j < self.len() && j < self.end_of(i)
    }

    /// Whether the nodes form trees laid out in walk order, one behind the
    /// other: the first node is the root of the first tree, a node that is
    /// its own parent is the root of a tree, every subtree is a run of slots
    /// that starts at its root, subtrees nest, and the parent of any other
    /// node is the root of the smallest subtree that holds it.
    ///
    /// The first tree is the tree of the translation unit. A tree behind it
    /// holds a node that no walk from the root of the translation unit comes
    /// to, but that a node refers to.
    pub open spec fn layout_ok(&self) -> bool {
        &&& self.len() >= 1
        &&& self.parent_of(0) == 0
        &&& forall|j: int| 0 <= j < self.len() ==> j < #[trigger] self.end_of(j) <= self.len()
        &&& forall|j: int|
            0 <= j < self.len() ==> 0 <= #[trigger] self.parent_of(j) <= j && (self.parent_of(j)
                < j ==> j < self.end_of(self.parent_of(j)))
        &&& forall|i: int, j: int| #[trigger]
            self.encloses(i, j) ==> self.end_of(j) <= self.end_of(i) && i <= self.parent_of(j)
                < j
    }

    /// Whether node `j` is the root of a tree.
    pub open spec fn is_root(&self, j: int) -> bool {
        0 <= j < self.len() && self.parent_of(j) == j
    }

    /// Whether node `j` is a child of node `p`.
    pub open spec fn is_child(&self, p: int, j: int) -> bool {
        0 <= p < j < self.len() && self.parent_of(j) == p
    }

    /// Whether every record fits the image: all handles are in range, all
    /// numbers decode and all strings are text.
    pub open spec fn records_ok(&self) -> bool {
        &&& forall|i: int|
            0 <= i < self.nodes@.len() ==> (#[trigger] self.nodes@[i]).ok(
                self.nodes@.len(),
                self.locations@.len(),
                self.modules@.len(),
            )
        &&& forall|i: int|
            0 <= i < self.files@.len() ==> (#[trigger] self.files@[i]).ok(self.modules@.len())
        &&& forall|i: int|
            0 <= i < self.modules@.len() ==> (#[trigger] self.modules@[i]).ok(
                self.files@.len(),
                self.modules@.len(),
            )
        &&& forall|i: int|
            0 <= i < self.locations@.len() ==> (#[trigger] self.locations@[i]).ok(
                self.files@.len(),
                self.nodes@.len(),
            )
        &&& forall|i: int|
            0 <= i < self.diagnostics@.len() ==> (#[trigger] self.diagnostics@[i]).ok(
                self.locations@.len(),
            )
        &&& forall|i: int|
            0 <= i < self.memory_usage@.len() ==> MemoryUsage::known(
                (#[trigger] self.memory_usage@[i]).kind,
            )
        &&& self.spelling.is_text()
    }

    /// Whether a range starts no later than it ends: both end points are
    /// spelled in one file, and the offset of the first is not behind that of
    /// the second.
    pub open spec fn ordered(&self, range: RawRange) -> bool {
        Self::in_order(
            self.locations@[range.begin.slot as int].spelling,
            self.locations@[range.end.slot as int].spelling,
        )
    }

    /// Whether the position `begin` is not behind the position `end`: both
    /// lie in one file, and the offset of the first is not behind that of the
    /// second.
    pub open spec fn in_order(begin: RawPosition, end: RawPosition) -> bool {
        begin.file == end.file && begin.offset <= end.offset
    }

    /// Whether every range of `v` that is not null is ordered.
    pub open spec fn all_ordered(&self, v: Seq<RawRange>) -> bool {
        forall|k: int| 0 <= k < v.len() && !(#[trigger] v[k]).null() ==> self.ordered(v[k])
    }

    /// Whether every edit of `v` has an ordered range.
    pub open spec fn fix_its_ordered(&self, v: Seq<RawFixIt>) -> bool {
        forall|k: int| 0 <= k < v.len() ==> self.ordered((#[trigger] v[k]).range)
    }

    /// Whether the ranges that node `i` reports are ordered.
    pub open spec fn node_ordered(&self, i: int) -> bool {
        let node = self.nodes@[i];
        &&& self.ordered(node.extent)
        &&& (!node.comment_range.null() ==> self.ordered(node.comment_range))
        &&& self.all_ordered(node.name_ranges@)
    }

    /// Whether the ranges that diagnostic `i` reports are ordered.
    pub open spec fn diagnostic_ordered(&self, i: int) -> bool {
        let diagnostic = self.diagnostics@[i];
        &&& self.all_ordered(diagnostic.ranges@)
        &&& self.fix_its_ordered(diagnostic.fix_its@)
    }

    /// Whether every range that the image reports is ordered.
    pub open spec fn ranges_ordered(&self) -> bool {
        &&& forall|i: int| 0 <= i < self.nodes@.len() ==> #[trigger] self.node_ordered(i)
        &&& forall|i: int|
            0 <= i < self.diagnostics@.len() ==> #[trigger] self.diagnostic_ordered(i)
    }

    /// Whether the image is one that a translation unit can be built on: the
    /// nodes form a tree in walk order whose root is of the translation unit
    /// kind, every record fits, and every range starts no later than it ends.
    pub open spec fn wf(&self) -> bool {
        &&& self.layout_ok()
        &&& self.nodes@[0].kind == KIND_TRANSLATION_UNIT
        &&& self.records_ok()
        &&& self.ranges_ordered()
    }

    fn check_ordered(&self, range: &RawRange) -> (r: bool)
        requires
            range.valid(self.locations@.len()),
        ensures
            r == self.ordered(*range),
    {
        let begin = self.locations[range.begin.slot].spelling;
        let end = self.locations[range.end.slot].spelling;
        begin.file.slot == end.file.slot && begin.offset <= end.offset
    }

    fn check_all_ordered(&self, v: &Vec<RawRange>) -> (r: bool)
        requires
            ranges_within(v@, self.locations@.len()),
        ensures
            r == self.all_ordered(v@),
    {
        let mut k: usize = 0;
        while k < v.len()
            invariant
                k <= v.len(),
                ranges_within(v@, self.locations@.len()),
                forall|m: int| 0 <= m < k && !(#[trigger] v@[m]).null() ==> self.ordered(v@[m]),
            decreases v.len() - k,
        {
            if !v[k].is_null() {
                if !self.check_ordered(&v[k]) {
                    return false;
                }
            }
            k += 1;
        }
        true
    }

    fn check_fix_its_ordered(&self, v: &Vec<RawFixIt>) -> (r: bool)
        requires
            fix_its_valid(v@, self.locations@.len()),
        ensures
            r == self.fix_its_ordered(v@),
    {
        let mut k: usize = 0;
        while k < v.len()
            invariant
                k <= v.len(),
                fix_its_valid(v@, self.locations@.len()),
                forall|m: int| 0 <= m < k ==> self.ordered((#[trigger] v@[m]).range),
            decreases v.len() - k,
        {
            if !self.check_ordered(&v[k].range) {
                return false;
            }
            k += 1;
        }
        true
    }

    /// Returns whether every range that the image reports is ordered.
    pub fn check_ranges_ordered(&self) -> (r: bool)
        requires
            self.records_ok(),
        ensures
            r == self.ranges_ordered(),
    {
        let mut i: usize = 0;
        while i < self.nodes.len()
            invariant
                self.records_ok(),
                i <= self.nodes@.len(),
                forall|k: int| 0 <= k < i ==> #[trigger] self.node_ordered(k),
            decreases self.nodes@.len() - i,
        {
            let node = &self.nodes[i];
            assert(self.nodes@[i as int].ok(
                self.nodes@.len(),
                self.locations@.len(),
                self.modules@.len(),
            ));
            if !self.check_ordered(&node.extent) {
                assert(!self.node_ordered(i as int));
                return false;
            }
            if !node.comment_range.is_null() {
                if !self.check_ordered(&node.comment_range) {
                    assert(!self.node_ordered(i as int));
                    return false;
                }
            }
            if !self.check_all_ordered(&node.name_ranges) {
                assert(!self.node_ordered(i as int));
                return false;
            }
            i += 1;
        }
        i = 0;
        while i < self.diagnostics.len()
            invariant
                self.records_ok(),
                i <= self.diagnostics@.len(),
                forall|k: int| 0 <= k < self.nodes@.len() ==> #[trigger] self.node_ordered(k),
                forall|k: int| 0 <= k < i ==> #[trigger] self.diagnostic_ordered(k),
            decreases self.diagnostics@.len() - i,
        {
            let diagnostic = &self.diagnostics[i];
            assert(self.diagnostics@[i as int].ok(self.locations@.len()));
            assert(ranges_within(diagnostic.ranges@, self.locations@.len()));
            if !self.check_all_ordered(&diagnostic.ranges) {
                assert(!self.diagnostic_ordered(i as int));
                return false;
            }
            if !self.check_fix_its_ordered(&diagnostic.fix_its) {
                assert(!self.diagnostic_ordered(i as int));
                return false;
            }
            i += 1;
        }
        true
    }

    /// Returns whether the nodes form a tree laid out in walk order.
    ///
    /// The check goes through the nodes once and keeps the nodes whose
    /// subtree it is inside, the innermost last.
    pub fn check_layout(&self) -> (r: bool)
        ensures
            r == self.layout_ok(),
    {
        let n: usize = self.nodes.len();
        if n == 0 {
            return false;
        }
        if self.nodes[0].parent != 0 {
            return false;
        }
        let mut around: Vec<usize> = Vec::new();
        let mut j: usize = 0;
        while j < n
            invariant
                n == self.nodes@.len(),
                n >= 1,
                j <= n,
                self.parent_of(0) == 0,
                forall|k: int| 0 <= k < j ==> k < #[trigger] self.end_of(k) <= self.len(),
                forall|k: int|
                    0 <= k < j ==> 0 <= #[trigger] self.parent_of(k) <= k && (self.parent_of(k)
                        < k ==> k < self.end_of(self.parent_of(k))),
                forall|i: int, k: int|
                    k < j && #[trigger] self.encloses(i, k) ==> self.end_of(k) <= self.end_of(i)
                        && i <= self.parent_of(k) < k,
                forall|k: int|
                    0 <= k < around@.len() ==> (#[trigger] around@[k]) < j && self.end_of(
                        around@[k] as int,
                    ) >= j,
                forall|k: int, m: int|
                    0 <= k < m < around@.len() ==> around@[k] < around@[m] && self.end_of(
                        around@[k] as int,
                    ) >= self.end_of(around@[m] as int),
                forall|i: int|
                    0 <= i < j && #[trigger] self.end_of(i) >= j ==> around@.contains(i as usize),
            decreases n - j,
        {
            while around.len() > 0 && self.nodes[around[around.len() - 1]].end == j
                invariant
                    n == self.nodes@.len(),
                    j < n,
                    forall|k: int|
                        0 <= k < around@.len() ==> (#[trigger] around@[k]) < j && self.end_of(
                            around@[k] as int,
                        ) >= j,
                    forall|k: int, m: int|
                        0 <= k < m < around@.len() ==> around@[k] < around@[m] && self.end_of(
                            around@[k] as int,
                        ) >= self.end_of(around@[m] as int),
                    forall|i: int|
                        0 <= i < j && #[trigger] self.end_of(i) > j ==> around@.contains(
                            i as usize,
                        ),
                decreases around@.len(),
            {
                let ghost before = around@;
                around.pop();
                proof {
                    assert forall|i: int| 0 <= i < j && #[trigger] self.end_of(i) > j implies
                        around@.contains(i as usize) by {
                        let k = choose|k: int| 0 <= k < before.len() && before[k] == i as usize;
                        assert(around@[k] == i as usize);
                    }
                }
            }
            let depth: usize = around.len();
            proof {
                assert forall|k: int| 0 <= k < around@.len() implies self.end_of(
                    #[trigger] around@[k] as int,
                ) > j by {
                    if k < depth - 1 {
                        assert(self.end_of(around@[k] as int) >= self.end_of(
                            around@[depth - 1] as int,
                        ));
                    }
                }
            }
            let end: usize = self.nodes[j].end;
            let parent: usize = self.nodes[j].parent;
            if !(j < end && end <= n) {
                assert(!(j < self.end_of(j as int) <= self.len()));
                return false;
            }
            if depth == 0 {
                // no subtree holds the node: it must be the root of a tree
                if parent != j {
                    proof {
                        if self.layout_ok() {
                            let p = self.parent_of(j as int);
                            assert(p < j);
                            assert(self.end_of(p) > j);
                            assert(around@.contains(p as usize));
                        }
                    }
                    return false;
                }
            } else {
                let top: usize = around[depth - 1];
                if parent != top {
                    proof {
                        if self.layout_ok() {
                            assert(self.encloses(top as int, j as int));
                            let p = self.parent_of(j as int);
                            assert(self.end_of(p) > j);
                            assert(around@.contains(p as usize));
                            let k = choose|k: int| 0 <= k < around@.len() && around@[k] == p as usize;
                        }
                    }
                    return false;
                }
                if end > self.nodes[top].end {
                    assert(self.encloses(top as int, j as int));
                    return false;
                }
            }
            proof {
                assert forall|i: int| #[trigger] self.encloses(i, j as int) implies self.end_of(
                    j as int,
                ) <= self.end_of(i) && i <= self.parent_of(j as int) < j by {
                    assert(self.end_of(i) > j);
                    let k = choose|k: int| 0 <= k < around@.len() && around@[k] == i as usize;
                    if k < depth - 1 {
                        assert(around@[k] < around@[depth - 1]);
                        assert(self.end_of(around@[k] as int) >= self.end_of(
                            around@[depth - 1] as int,
                        ));
                    }
                }
            }
            let ghost before = around@;
            around.push(j);
            proof {
                assert forall|i: int| 0 <= i < j + 1 && #[trigger] self.end_of(i) >= j + 1 implies
                    around@.contains(i as usize) by {
                    if i < j {
                        let k = choose|k: int| 0 <= k < before.len() && before[k] == i as usize;
                        assert(around@[k] == i as usize);
                    } else {
                        assert(around@[depth as int] == j);
                    }
                }
                assert forall|k: int, m: int| 0 <= k < m < around@.len() implies around@[k]
                    < around@[m] && self.end_of(around@[k] as int) >= self.end_of(
                    around@[m] as int,
                ) by {
                    assert(around@[k] == before[k]);
                    if m < depth {
                        assert(around@[m] == before[m]);
                    } else {
                        if k < depth - 1 {
                            assert(self.end_of(before[k] as int) >= self.end_of(
                                before[depth - 1] as int,
                            ));
                        }
                    }
                }
                assert forall|k: int| 0 <= k < around@.len() implies (#[trigger] around@[k]) < j
                    + 1 && self.end_of(around@[k] as int) >= j + 1 by {
                    if k < depth {
                        assert(around@[k] == before[k]);
                    }
                }
            }
            j += 1;
        }
        true
    }

    /// Returns whether every record fits the image.
    pub fn check_records(&self) -> (r: bool)
        ensures
            r == self.records_ok(),
    {
        let nodes: usize = self.nodes.len();
        let files: usize = self.files.len();
        let modules: usize = self.modules.len();
        let locations: usize = self.locations.len();
        let mut i: usize = 0;
        while i < nodes
            invariant
                nodes == self.nodes@.len(),
                locations == self.locations@.len(),
                modules == self.modules@.len(),
                i <= nodes,
                forall|k: int|
                    0 <= k < i ==> (#[trigger] self.nodes@[k]).ok(
                        nodes as nat,
                        locations as nat,
                        modules as nat,
                    ),
            decreases nodes - i,
        {
            if !self.nodes[i].check(nodes, locations, modules) {
                return false;
            }
            i += 1;
        }
        i = 0;
        while i < files
            invariant
                files == self.files@.len(),
                modules == self.modules@.len(),
                i <= files,
                forall|k: int| 0 <= k < i ==> (#[trigger] self.files@[k]).ok(modules as nat),
            decreases files - i,
        {
            if !self.files[i].check(modules) {
                return false;
            }
            i += 1;
        }
        i = 0;
        while i < modules
            invariant
                files == self.files@.len(),
                modules == self.modules@.len(),
                i <= modules,
                forall|k: int|
                    0 <= k < i ==> (#[trigger] self.modules@[k]).ok(files as nat, modules as nat),
            decreases modules - i,
        {
            if !self.modules[i].check(files, modules) {
                return false;
            }
            i += 1;
        }
        i = 0;
        while i < locations
            invariant
                files == self.files@.len(),
                nodes == self.nodes@.len(),
                locations == self.locations@.len(),
                i <= locations,
                forall|k: int|
                    0 <= k < i ==> (#[trigger] self.locations@[k]).ok(files as nat, nodes as nat),
            decreases locations - i,
        {
            if !self.locations[i].check(files, nodes) {
                return false;
            }
            i += 1;
        }
        i = 0;
        while i < self.diagnostics.len()
            invariant
                locations == self.locations@.len(),
                i <= self.diagnostics@.len(),
                forall|k: int|
                    0 <= k < i ==> (#[trigger] self.diagnostics@[k]).ok(locations as nat),
            decreases self.diagnostics@.len() - i,
        {
            if !self.diagnostics[i].check(locations) {
                return false;
            }
            i += 1;
        }
        i = 0;
        while i < self.memory_usage.len()
            invariant
                i <= self.memory_usage@.len(),
                forall|k: int|
                    0 <= k < i ==> MemoryUsage::known((#[trigger] self.memory_usage@[k]).kind),
            decreases self.memory_usage@.len() - i,
        {
            if MemoryUsage::from_code(self.memory_usage[i].kind).is_none() {
                return false;
            }
            i += 1;
        }
        self.spelling.check_text()
    }

    /// Returns whether the image is one that a translation unit can be built
    /// on.
    pub fn is_well_formed(&self) -> (r: bool)
        ensures
            r == self.wf(),
    {
        self.check_layout() && self.nodes[0].kind == KIND_TRANSLATION_UNIT
            && self.check_records() && self.check_ranges_ordered()
    }

    /// Every range that a well-formed image reports starts no later than it
    /// ends: the extent, the comment range and the name pieces of every node,
    /// and the ranges and the edits of every diagnostic.
    pub proof fn lemma_ranges_ordered(&self, node: int, diagnostic: int, k: int)
        requires
            self.wf(),
        ensures
            0 <= node < self.nodes@.len() ==> self.ordered(self.nodes@[node].extent),
            0 <= node < self.nodes@.len() && !self.nodes@[node].comment_range.null()
                ==> self.ordered(self.nodes@[node].comment_range),
            0 <= node < self.nodes@.len() && 0 <= k < self.nodes@[node].name_ranges@.len()
                && !self.nodes@[node].name_ranges@[k].null() ==> self.ordered(
                self.nodes@[node].name_ranges@[k],
            ),
            0 <= diagnostic < self.diagnostics@.len() && 0 <= k
                < self.diagnostics@[diagnostic].ranges@.len() ==> self.ordered(
                self.diagnostics@[diagnostic].ranges@[k],
            ),
            0 <= diagnostic < self.diagnostics@.len() && 0 <= k
                < self.diagnostics@[diagnostic].fix_its@.len() ==> self.ordered(
                self.diagnostics@[diagnostic].fix_its@[k].range,
            ),
    {
        if 0 <= node < self.nodes@.len() {
            assert(self.node_ordered(node));
        }
        if 0 <= diagnostic < self.diagnostics@.len() {
            assert(self.diagnostic_ordered(diagnostic));
            assert(self.diagnostics@[diagnostic].ok(self.locations@.len()));
            if 0 <= k < self.diagnostics@[diagnostic].ranges@.len() {
                assert(self.diagnostics@[diagnostic].ranges@[k].valid(self.locations@.len()));
                assert(self.locations@.len() == self.locations.len());
            }
        }
    }

    /// In a tree in walk order, the slot behind a node that has descendants
    /// holds its first child, and the slot behind the subtree of a child
    /// holds the next child of the same parent unless the parent's subtree
    /// ends there.
    pub proof fn lemma_next_child(&self, p: int, j: int)
        requires
            self.layout_ok(),
            0 <= p < self.len(),
        ensures
            p + 1 < self.end_of(p) ==> self.is_child(p, p + 1),
            self.is_child(p, j) && self.end_of(j) < self.end_of(p) ==> self.is_child(
                p,
                self.end_of(j),
            ),
            self.is_child(p, j) ==> p < j < self.end_of(j) <= self.end_of(p),
    {
        if p + 1 < self.end_of(p) {
            assert(self.encloses(p, p + 1));
        }
        assert(p < self.end_of(p) <= self.len());
        if self.is_child(p, j) {
            assert(self.encloses(p, j));
            if self.end_of(j) < self.end_of(p) {
                let k = self.end_of(j);
                let q = self.parent_of(k);
                assert(self.encloses(p, k));
                assert(self.encloses(q, k));
                if q > p {
                    if q < j {
                        assert(self.encloses(q, j));
                    } else if q > j {
                        assert(self.encloses(j, q));
                    }
                }
            }
        }
    }
}

} // verus!
