//! Raw handles as the frontend hands them out, and the marshalling of its
//! strings into owned text.
//!
//! A raw handle carries no marker of whether it is null; the types here test
//! for the null value before anything is read through a handle.

use std::marker::PhantomData;
use vstd::prelude::*;
use vstd::string::StringSliceAdditionalSpecFns;
use vstd::utf8::{decode_utf8, valid_utf8};

verus! {

/// The slot number that stands for the null handle.
pub const NULL_SLOT: usize = usize::MAX;

/// A type which may be null.
pub trait Nullable<T>: Sized {
    /// Whether this value is the null value of its type.
    spec fn null(&self) -> bool;

    /// What a value that is not null hands to the function that reads it.
    spec fn payload(self) -> T;

    /// Applies `f` to this value unless it is null.
    fn map<U, F: FnOnce(T) -> U>(self, f: F) -> (r: Option<U>)
        requires
            !self.null() ==> call_requires(f, (self.payload(),)),
        ensures
            self.null() <==> r is None,
            r matches Some(u) ==> call_ensures(f, (self.payload(),), u),
    ;
}

/// A raw handle to a file, a module, a diagnostic or a source location: the
/// slot that holds its record, or the null slot.
#[derive(Copy, Clone, Debug, PartialEq, Eq, Hash, Structural)]
pub struct Handle {
    pub slot: usize,
}

impl Handle {
    /// The null handle.
    pub fn null_handle() -> (h: Handle)
        ensures
            h.slot == NULL_SLOT,
            h.null(),
    {
        Handle { slot: NULL_SLOT }
    }

    /// Returns whether this handle is null.
    pub fn is_null(&self) -> (r: bool)
        ensures
            r == self.null(),
    {
        self.slot == NULL_SLOT
    }

    /// Whether this handle names one of `len` records.
    pub open spec fn valid(self, len: nat) -> bool {
        self.slot < len
    }

    /// Whether this handle is null or names one of `len` records.
    pub open spec fn within(self, len: nat) -> bool {
        self.slot == NULL_SLOT || self.slot < len
    }

    /// Returns whether this handle names one of `len` records.
    pub fn is_valid(&self, len: usize) -> (r: bool)
        ensures
            r == self.valid(len as nat),
    {
        self.slot < len
    }

    /// Returns whether this handle is null or names one of `len` records.
    pub fn is_within(&self, len: usize) -> (r: bool)
        ensures
            r == self.within(len as nat),
    {
        self.slot == NULL_SLOT || self.slot < len
    }
}

impl Nullable<Handle> for Handle {
    open spec fn null(&self) -> bool {
        self.slot == NULL_SLOT
    }

    open spec fn payload(self) -> Handle {
        self
    }

    fn map<U, F: FnOnce(Handle) -> U>(self, f: F) -> (r: Option<U>) {
        if self.slot == NULL_SLOT {
            None
        } else {
            Some(f(self))
        }
    }
}

/// A raw cursor: the slot of the node it references, or the null slot, and a
/// hint that records how the frontend arrived at the node. Two raw cursors
/// with one node and different hints reference the same AST element.
#[derive(Copy, Clone, Debug, PartialEq, Eq, Hash, Structural)]
pub struct RawCursor {
    pub node: usize,
    pub hint: u32,
}

impl RawCursor {
    /// The null cursor.
    pub fn null_cursor() -> (c: RawCursor)
        ensures
            c.node == NULL_SLOT,
            c.hint == 0,
            c.null(),
    {
        RawCursor { node: NULL_SLOT, hint: 0 }
    }

    /// Returns whether this cursor is null.
    pub fn is_null(&self) -> (r: bool)
        ensures
            r == self.null(),
    {
        self.node == NULL_SLOT
    }

    /// Whether this cursor references one of `len` nodes.
    pub open spec fn valid(self, len: nat) -> bool {
        self.node < len
    }

    /// Whether this cursor is null or references one of `len` nodes.
    pub open spec fn within(self, len: nat) -> bool {
        self.node == NULL_SLOT || self.node < len
    }

    /// Returns whether this cursor references one of `len` nodes.
    pub fn is_valid(&self, len: usize) -> (r: bool)
        ensures
            r == self.valid(len as nat),
    {
        self.node < len
    }

    /// Returns whether this cursor is null or references one of `len` nodes.
    pub fn is_within(&self, len: usize) -> (r: bool)
        ensures
            r == self.within(len as nat),
    {
        self.node == NULL_SLOT || self.node < len
    }
}

impl Nullable<RawCursor> for RawCursor {
    open spec fn null(&self) -> bool {
        self.node == NULL_SLOT
    }

    open spec fn payload(self) -> RawCursor {
        self
    }

    fn map<U, F: FnOnce(RawCursor) -> U>(self, f: F) -> (r: Option<U>) {
        if self.node == NULL_SLOT {
            None
        } else {
            Some(f(self))
        }
    }
}

/// A raw source range: the handles of its two end points. The null range has
/// two null end points.
#[derive(Copy, Clone, Debug, PartialEq, Eq, Hash, Structural)]
pub struct RawRange {
    pub begin: Handle,
    pub end: Handle,
}

impl RawRange {
    /// The null range.
    pub fn null_range() -> (r: RawRange)
        ensures
            r.null(),
    {
        RawRange { begin: Handle { slot: NULL_SLOT }, end: Handle { slot: NULL_SLOT } }
    }

    /// Returns whether this range is null.
    pub fn is_null(&self) -> (r: bool)
        ensures
            r == self.null(),
    {
        self.begin.slot == NULL_SLOT && self.end.slot == NULL_SLOT
    }

    /// Whether both end points name one of `len` location records.
    pub open spec fn valid(self, len: nat) -> bool {
        self.begin.slot < len && self.end.slot < len
    }

    /// Whether this range is null or both its end points name one of `len`
    /// location records.
    pub open spec fn within(self, len: nat) -> bool {
        self.null() || self.valid(len)
    }

    /// Returns whether both end points name one of `len` location records.
    pub fn is_valid(&self, len: usize) -> (r: bool)
        ensures
            r == self.valid(len as nat),
    {
        self.begin.slot < len && self.end.slot < len
    }

    /// Returns whether this range is null or both its end points name one of
    /// `len` location records.
    pub fn is_within(&self, len: usize) -> (r: bool)
        ensures
            r == self.within(len as nat),
    {
        self.is_null() || self.is_valid(len)
    }
}

impl Nullable<RawRange> for RawRange {
    open spec fn null(&self) -> bool {
        self.begin.slot == NULL_SLOT && self.end.slot == NULL_SLOT
    }

    open spec fn payload(self) -> RawRange {
        self
    }

    fn map<U, F: FnOnce(RawRange) -> U>(self, f: F) -> (r: Option<U>) {
        if self.begin.slot == NULL_SLOT && self.end.slot == NULL_SLOT {
            None
        } else {
            Some(f(self))
        }
    }
}

/// A string as the frontend returns it: the bytes of its content, or nothing
/// for the null string.
#[derive(Clone, Debug)]
pub struct RawString {
    pub data: Option<Vec<u8>>,
}

impl RawString {
    /// The null string.
    pub fn null_string() -> (s: RawString)
        ensures
            s.null(),
            s.is_text(),
    {
        RawString { data: None }
    }

    /// The raw string that holds the bytes of `text`.
    pub fn from_text(text: &str) -> (s: RawString)
        ensures
            !s.null(),
            s.is_text(),
            s.text() == text@,
    {
        let bytes = text.as_bytes_vec();
        proof {
            vstd::utf8::encode_utf8_valid_utf8(text@);
            vstd::utf8::encode_utf8_decode_utf8(text@);
        }
        RawString { data: Some(bytes) }
    }

    /// Returns whether this string is null.
    pub fn is_null(&self) -> (r: bool)
        ensures
            r == self.null(),
    {
        self.data.is_none()
    }

    /// Whether the content, where there is any, is valid text.
    pub open spec fn is_text(self) -> bool {
        self.data matches Some(bytes) ==> valid_utf8(bytes@)
    }

    /// The text that the content encodes; empty for the null string.
    pub open spec fn text(self) -> Seq<char> {
        match self.data {
            Some(bytes) => decode_utf8(bytes@),
            None => Seq::empty(),
        }
    }

    /// The text as a spelling query reports it: absent where the string is
    /// null or its text is empty.
    pub open spec fn text_option(self) -> Option<Seq<char>> {
        if self.null() || self.text().len() == 0 {
            None
        } else {
            Some(self.text())
        }
    }

    /// Whether this string is not null and its content is valid text.
    pub open spec fn holds_text(self) -> bool {
        !self.null() && self.is_text()
    }

    /// Returns whether this string is not null and its content is valid text.
    pub fn check_holds_text(&self) -> (r: bool)
        ensures
            r == self.holds_text(),
    {
        match &self.data {
            Some(bytes) => decode(bytes).is_some(),
            None => false,
        }
    }

    /// Returns whether the content, where there is any, is valid text.
    pub fn check_text(&self) -> (r: bool)
        ensures
            r == self.is_text(),
    {
        match &self.data {
            Some(bytes) => decode(bytes).is_some(),
            None => true,
        }
    }
}

impl Nullable<RawString> for RawString {
    open spec fn null(&self) -> bool {
        self.data is None
    }

    open spec fn payload(self) -> RawString {
        self
    }

    fn map<U, F: FnOnce(RawString) -> U>(self, f: F) -> (r: Option<U>) {
        if self.data.is_none() {
            None
        } else {
            Some(f(self))
        }
    }
}

/// `String::from_utf8` on a copy of `bytes`: the call succeeds exactly when
/// the bytes are valid UTF-8, and the string it then returns is the text that
/// they encode.
#[verifier::external_body]
fn decode(bytes: &Vec<u8>) -> (r: Option<String>)
    ensures
        r.is_some() <==> valid_utf8(bytes@),
        r matches Some(s) ==> s@ == decode_utf8(bytes@),
{
    String::from_utf8(bytes.clone()).ok()
}

/// Copies the text out of a string that the frontend returned.
pub fn to_string(raw: &RawString) -> (s: String)
    requires
        !raw.null(),
        raw.is_text(),
    ensures
        s@ == raw.text(),
{
    match &raw.data {
        Some(bytes) => {
            match decode(bytes) {
                Some(s) => s,
                None => String::new(),
            }
        },
        None => String::new(),
    }
}

/// Copies the text out of a string that may be null: nothing where the string
/// is null or its text is empty, which is how the frontend says "no value".
pub fn to_string_option(raw: &RawString) -> (r: Option<String>)
    requires
        raw.is_text(),
    ensures
        r is Some <==> raw.text_option() is Some,
        r matches Some(s) ==> Some(s@) == raw.text_option(),
{
    if raw.is_null() {
        None
    } else {
        let s = to_string(raw);
        if s.as_str().is_empty() {
            None
        } else {
            Some(s)
        }
    }
}

/// Whether a byte of `bytes` is the terminator of a C string.
pub open spec fn has_nul(bytes: Seq<u8>) -> bool {
    exists|i: int| 0 <= i < bytes.len() && bytes[i] == 0
}

/// Returns whether `string` holds a NUL character, so that it cannot be
/// handed to the frontend as a C string.
pub fn contains_nul(string: &str) -> (r: bool)
    ensures
        r == has_nul(string.spec_bytes()),
{
    let bytes = string.as_bytes_vec();
    let mut i: usize = 0;
    while i < bytes.len()
        invariant
            bytes@ == string.spec_bytes(),
            i <= bytes@.len(),
            forall|k: int| 0 <= k < i ==> bytes@[k] != 0,
        decreases bytes@.len() - i,
    {
        if bytes[i] == 0 {
            assert(string.spec_bytes()[i as int] == 0);
            return true;
        }
        i += 1;
    }
    false
}

/// The C string that the frontend is handed for `string`: its bytes,
/// followed by the terminator.
///
/// `string` must not hold a NUL character.
pub fn from_string(string: &str) -> (r: Vec<u8>)
    requires
        !has_nul(string.spec_bytes()),
    ensures
        r@ == string.spec_bytes().push(0),
{
    let mut bytes = string.as_bytes_vec();
    bytes.push(0);
    bytes
}

/// An array that the frontend hands out by a count and an index: the count
/// is known, and an element is fetched when it is asked for, as often as it
/// is asked for.
#[verifier::reject_recursive_types(T)]
#[verifier::reject_recursive_types(F)]
pub struct Adopted<T, F: Fn(u32) -> T> {
    count: u32,
    get: F,
    _marker: PhantomData<T>,
}

impl<T, F: Fn(u32) -> T> Adopted<T, F> {
    #[verifier::type_invariant]
    spec fn inv(&self) -> bool {
        forall|i: u32| i < self.count ==> call_requires(self.get, (i,))
    }

    /// The number of elements.
    pub closed spec fn count(&self) -> u32 {
        self.count
    }

    /// The function that fetches the element at an index.
    pub closed spec fn fetcher(&self) -> F {
        self.get
    }

    /// The array with `count` elements of which `get` fetches the one at an
    /// index. Nothing is fetched yet.
    ///
    /// The count must not be negative: a negative count says that the query
    /// does not apply, which is a misuse and not an empty array.
    pub fn new(count: i64, get: F) -> (r: Adopted<T, F>)
        requires
            0 <= count <= u32::MAX,
            forall|i: u32| i < count ==> call_requires(get, (i,)),
        ensures
            r.count() == count,
            r.fetcher() == get,
    {
        Adopted { count: count as u32, get, _marker: PhantomData }
    }

    /// Returns the number of elements.
    pub fn len(&self) -> (r: u32)
        ensures
            r == self.count(),
    {
        self.count
    }

    /// Fetches the element at index `i`.
    pub fn get(&self, i: u32) -> (r: T)
        requires
            i < self.count(),
        ensures
            call_ensures(self.fetcher(), (i,), r),
    {
        proof {
            use_type_invariant(self);
        }
        (self.get)(i)
    }

    /// Fetches all elements, in order.
    pub fn collect(&self) -> (r: Vec<T>)
        ensures
            r@.len() == self.count(),
            forall|i: int|
                0 <= i < self.count() ==> call_ensures(
                    self.fetcher(),
                    (i as u32,),
                    #[trigger] r@[i],
                ),
    {
        let mut elements: Vec<T> = Vec::new();
        let mut i: u32 = 0;
        while i < self.count
            invariant
                i <= self.count,
                self.count == self.count(),
                elements@.len() == i,
                forall|k: int|
                    0 <= k < i ==> call_ensures(
                        self.fetcher(),
                        (k as u32,),
                        #[trigger] elements@[k],
                    ),
            decreases self.count - i,
        {
            let element = self.get(i);
            elements.push(element);
            i += 1;
        }
        elements
    }
}

/// Collects the elements of an array that the frontend hands out by a count
/// and an index: element `i` is what `get` gives for `i`, for each index from
/// 0 up to the count, in order.
///
/// The count must not be negative: a negative count says that the query does
/// not apply, which is a misuse and not an empty array.
pub fn adopt_array<T, F: Fn(u32) -> T>(count: i64, get: F) -> (r: Vec<T>)
    requires
        0 <= count <= u32::MAX,
        forall|i: u32| i < count ==> call_requires(get, (i,)),
    ensures
        r@.len() == count,
        forall|i: int| 0 <= i < count ==> call_ensures(get, (i as u32,), #[trigger] r@[i]),
{
    Adopted::new(count, get).collect()
}

/// `Hasher::write_u64`: feeds `value` to the hasher. Nothing is claimed of
/// the state of the hasher afterwards.
#[verifier::external_body]
pub(crate) fn feed<H: std::hash::Hasher>(state: &mut H, value: u64) {
    state.write_u64(value);
}

} // verus!
