//! Small tools for what the native library hands over: strings that may be
//! absent, lists that end in a null entry, and handles that are released
//! once.
use crate::enums::Function;
use crate::error::SigrokError;
use vstd::prelude::*;
use vstd::utf8::{decode_utf8, valid_utf8};

verus! {

/// The text that bytes stand for when every ill-formed part is replaced by
/// the replacement character: what `String::from_utf8_lossy` returns.
pub uninterp spec fn lossy_text(bytes: Seq<u8>) -> Seq<char>;

/// Calls `String::from_utf8_lossy`, which decodes the bytes and puts the
/// replacement character in place of what is no UTF-8. Bytes that are UTF-8
/// come out as the text they encode.
#[verifier::external_body]
fn from_utf8_lossy(bytes: &[u8]) -> (text: String)
    ensures
        text@ == lossy_text(bytes@),
        valid_utf8(bytes@) ==> text@ == decode_utf8(bytes@),
{
    String::from_utf8_lossy(bytes).into_owned()
}

/// The text of a native string, given as its bytes without the closing zero,
/// or as `None` where the native pointer is null: a null string reads as the
/// empty text.
pub fn c_str(bytes: Option<&[u8]>) -> (text: String)
    ensures
        text@ == (match bytes {
            Some(b) => lossy_text(b@),
            None => Seq::empty(),
        }),
        bytes matches Some(b) ==> (valid_utf8(b@) ==> text@ == decode_utf8(b@)),
{
    match bytes {
        None => String::new(),
        Some(b) => from_utf8_lossy(b),
    }
}

/// Counts the entries of a list before its first null entry.
///
/// A list without a null entry has no end, so such a list is left out.
pub fn null_list_count<T>(list: &[Option<T>]) -> (count: usize)
    requires
        exists|i: int| 0 <= i < list@.len() && list@[i] is None,
    ensures
        count < list@.len(),
        list@[count as int] is None,
        forall|i: int| 0 <= i < count ==> list@[i] is Some,
{
    let mut count: usize = 0;
    let ghost end = choose|i: int| 0 <= i < list@.len() && list@[i] is None;
    while list[count].is_some()
        invariant
            0 <= end < list@.len(),
            list@[end] is None,
            count <= end,
            forall|i: int| 0 <= i < count ==> list@[i] is Some,
        decreases end - count,
    {
        count = count + 1;
    }
    count
}

/// The device functions among some configuration keys, in their order; keys
/// that name no function are left out.
pub open spec fn functions_of(keys: Seq<u32>) -> Seq<Function>
    decreases keys.len(),
{
    if keys.len() == 0 {
        Seq::empty()
    } else {
        let before = functions_of(keys.drop_last());
        match Function::spec_from_raw(keys.last()) {
            Some(f) => before.push(f),
            None => before,
        }
    }
}

/// The functions of a driver, device or channel group, from the keys that
/// the native library enumerates for it.
///
/// `keys` is `None` where the native library gives no list at all: that is
/// the one failure, a generic error.
pub fn get_functions(keys: Option<&[u32]>) -> (r: Result<Vec<Function>, SigrokError>)
    ensures
        match r {
            Ok(functions) => keys matches Some(k) && functions@ == functions_of(k@),
            Err(e) => keys is None && e == SigrokError::Generic,
        },
{
    let keys = match keys {
        Some(k) => k,
        None => {
            return Err(SigrokError::Generic);
        },
    };
    let mut out: Vec<Function> = Vec::new();
    let mut i: usize = 0;
    while i < keys.len()
        invariant
            i <= keys.len(),
            out@ == functions_of(keys@.take(i as int)),
        decreases keys.len() - i,
    {
        assert(keys@.take(i + 1).drop_last() =~= keys@.take(i as int));
        if let Some(f) = Function::from_raw(keys[i]) {
            out.push(f);
        }
        i = i + 1;
    }
    assert(keys@.take(keys.len() as int) =~= keys@);
    Ok(out)
}

/// The owner of a native handle that must be released exactly once.
///
/// The handle is handed out for release a single time; after that the owner
/// is empty, and so is one that was made empty from the start.
#[derive(Debug)]
pub struct AutoDrop<T> {
    handle: Option<T>,
}

impl<T> AutoDrop<T> {
    /// The handle that is owned, if any.
    pub closed spec fn handle(&self) -> Option<T> {
        self.handle
    }

    /// Takes ownership of a handle. `None` stands for a null handle, which
    /// cannot be owned: that is an argument error.
    pub fn new(val: Option<T>) -> (r: Result<AutoDrop<T>, SigrokError>)
        ensures
            match r {
                Ok(owner) => val is Some && owner.handle() == val,
                Err(e) => val is None && e == SigrokError::Arg,
            },
    {
        match val {
            None => Err(SigrokError::Arg),
            Some(handle) => Ok(AutoDrop { handle: Some(handle) }),
        }
    }

    /// An owner of nothing, for which there is nothing to release.
    pub fn null() -> (r: AutoDrop<T>)
        ensures
            r.handle() is None,
    {
        AutoDrop { handle: None }
    }

    /// Whether nothing is owned.
    pub fn is_null(&self) -> (r: bool)
        ensures
            r <==> self.handle() is None,
    {
        self.handle.is_none()
    }

    /// The handle, for use while it is owned.
    pub fn get(&self) -> (r: Option<&T>)
        ensures
            match r {
                Some(h) => self.handle() == Some(*h),
                None => self.handle() is None,
            },
    {
        self.handle.as_ref()
    }

    /// Gives the handle up for release. It is handed out once: the owner is
    /// empty afterwards, and every later call returns `None`.
    pub fn release(&mut self) -> (r: Option<T>)
        ensures
            r == old(self).handle(),
            final(self).handle() is None,
    {
        self.handle.take()
    }
}

} // verus!
