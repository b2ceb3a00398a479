//! What the frontend is handed for a parse or a reparse: unsaved buffers,
//! compiler arguments and parse flags, each text as a C string.

use vstd::prelude::*;
use vstd::std_specs::cmp::PartialEqSpecImpl;
use vstd::string::StringSliceAdditionalSpecFns;
use crate::marshal::{from_string, has_nul};
use crate::options::ParseOptions;

verus! {

/// The path to and unsaved contents of a previously existing file.
#[derive(Debug)]
pub struct Unsaved {
    path: Vec<u8>,
    contents: Vec<u8>,
}

fn same_bytes(a: &Vec<u8>, b: &Vec<u8>) -> (r: bool)
    ensures
        r == (a@ == b@),
{
    if a.len() != b.len() {
        return false;
    }
    let mut i: usize = 0;
    while i < a.len()
        invariant
            a@.len() == b@.len(),
            i <= a@.len(),
            forall|k: int| 0 <= k < i ==> a@[k] == b@[k],
        decreases a@.len() - i,
    {
        if a[i] != b[i] {
            return false;
        }
        i += 1;
    }
    assert(a@ =~= b@);
    true
}

fn copy_bytes(a: &Vec<u8>) -> (r: Vec<u8>)
    ensures
        r@ == a@,
{
    let mut copy: Vec<u8> = Vec::new();
    let mut i: usize = 0;
    while i < a.len()
        invariant
            i <= a@.len(),
            copy@ == a@.take(i as int),
        decreases a@.len() - i,
    {
        copy.push(a[i]);
        assert(a@.take(i as int).push(a@[i as int]) =~= a@.take(i + 1));
        i += 1;
    }
    assert(a@.take(a@.len() as int) =~= a@);
    copy
}

impl Unsaved {
    /// The path as a C string.
    pub closed spec fn path(&self) -> Seq<u8> {
        self.path@
    }

    /// The contents as a C string.
    pub closed spec fn contents(&self) -> Seq<u8> {
        self.contents@
    }

    #[verifier::type_invariant]
    spec fn inv(&self) -> bool {
        self.path@.len() >= 1 && self.contents@.len() >= 1
    }

    /// Constructs a new `Unsaved`.
    ///
    /// Neither `path` nor `contents` may hold a NUL character.
    pub fn new(path: &str, contents: &str) -> (r: Unsaved)
        requires
            !has_nul(path.spec_bytes()),
            !has_nul(contents.spec_bytes()),
        ensures
            r.path() == path.spec_bytes().push(0),
            r.contents() == contents.spec_bytes().push(0),
    {
        Unsaved { path: from_string(path), contents: from_string(contents) }
    }

    /// Returns the path as a C string.
    pub fn get_path(&self) -> (r: &Vec<u8>)
        ensures
            r@ == self.path(),
    {
        &self.path
    }

    /// Returns the contents as a C string.
    pub fn get_contents(&self) -> (r: &Vec<u8>)
        ensures
            r@ == self.contents(),
    {
        &self.contents
    }

    /// Returns the length of the contents in bytes, the terminator not
    /// counted.
    pub fn get_length(&self) -> (r: usize)
        ensures
            r == self.contents().len() - 1,
    {
        proof {
            use_type_invariant(self);
        }
        self.contents.len() - 1
    }

}

impl Clone for Unsaved {
    /// A copy of this buffer, with the same path and contents.
    fn clone(&self) -> (r: Unsaved)
        ensures
            r.path() == self.path(),
            r.contents() == self.contents(),
    {
        proof {
            use_type_invariant(self);
        }
        Unsaved { path: copy_bytes(&self.path), contents: copy_bytes(&self.contents) }
    }
}

impl PartialEq for Unsaved {
    /// Two buffers are equal when their paths and their contents are.
    fn eq(&self, other: &Unsaved) -> (r: bool) {
        same_bytes(&self.path, &other.path) && same_bytes(&self.contents, &other.contents)
    }
}

impl PartialEqSpecImpl for Unsaved {
    open spec fn obeys_eq_spec() -> bool {
        true
    }

    open spec fn eq_spec(&self, other: &Unsaved) -> bool {
        self.path() == other.path() && self.contents() == other.contents()
    }
}

impl Eq for Unsaved {

}

/// What the frontend is handed for the parse of a source file.
#[derive(Debug)]
pub struct SourceRequest {
    /// The path of the source file, as a C string.
    pub file: Vec<u8>,
    /// The compiler arguments, each as a C string.
    pub arguments: Vec<Vec<u8>>,
    /// The unsaved buffers.
    pub unsaved: Vec<Unsaved>,
    /// The parse flags.
    pub flags: u32,
}

impl SourceRequest {
    /// Whether this is the request for parsing `file` with the given
    /// arguments, unsaved buffers and options: every text as its C string,
    /// the buffers as they are, in order, and the flags of the options.
    pub open spec fn is_for(
        &self,
        file: &str,
        arguments: &[&str],
        unsaved: &[Unsaved],
        options: ParseOptions,
    ) -> bool {
        &&& self.file@ == file.spec_bytes().push(0)
        &&& self.arguments@.len() == arguments@.len()
        &&& forall|k: int|
            0 <= k < arguments@.len() ==> (#[trigger] self.arguments@[k])@
                == arguments@[k].spec_bytes().push(0)
        &&& self.unsaved@.len() == unsaved@.len()
        &&& forall|k: int|
            0 <= k < unsaved@.len() ==> (#[trigger] self.unsaved@[k]).path() == unsaved@[k].path()
                && self.unsaved@[k].contents() == unsaved@[k].contents()
        &&& self.flags == options.flags()
    }

    /// Builds what the frontend is handed for the parse of a source file.
    ///
    /// Neither the path nor an argument may hold a NUL character.
    pub fn new(file: &str, arguments: &[&str], unsaved: &[Unsaved], options: ParseOptions) -> (r:
        SourceRequest)
        requires
            !has_nul(file.spec_bytes()),
            forall|k: int|
                0 <= k < arguments@.len() ==> !has_nul((#[trigger] arguments@[k]).spec_bytes()),
        ensures
            r.is_for(file, arguments, unsaved, options),
    {
        let mut c_arguments: Vec<Vec<u8>> = Vec::new();
        let mut k: usize = 0;
        while k < arguments.len()
            invariant
                k <= arguments@.len(),
                forall|m: int|
                    0 <= m < arguments@.len() ==> !has_nul(
                        (#[trigger] arguments@[m]).spec_bytes(),
                    ),
                c_arguments@.len() == k,
                forall|m: int|
                    0 <= m < k ==> (#[trigger] c_arguments@[m])@ == arguments@[m].spec_bytes().push(
                        0,
                    ),
            decreases arguments@.len() - k,
        {
            c_arguments.push(from_string(arguments[k]));
            k += 1;
        }
        SourceRequest {
            file: from_string(file),
            arguments: c_arguments,
            unsaved: copy_unsaved(unsaved),
            flags: options.into_flags(),
        }
    }
}

/// Copies the unsaved buffers that a parse or a reparse is handed, in order.
pub fn copy_unsaved(unsaved: &[Unsaved]) -> (r: Vec<Unsaved>)
    ensures
        r@.len() == unsaved@.len(),
        forall|k: int|
            0 <= k < unsaved@.len() ==> (#[trigger] r@[k]).path() == unsaved@[k].path()
                && r@[k].contents() == unsaved@[k].contents(),
{
    let mut copies: Vec<Unsaved> = Vec::new();
    let mut k: usize = 0;
    while k < unsaved.len()
        invariant
            k <= unsaved@.len(),
            copies@.len() == k,
            forall|m: int|
                0 <= m < k ==> (#[trigger] copies@[m]).path() == unsaved@[m].path()
                    && copies@[m].contents() == unsaved@[m].contents(),
        decreases unsaved@.len() - k,
    {
        copies.push(unsaved[k].clone());
        k += 1;
    }
    copies
}

} // verus!
