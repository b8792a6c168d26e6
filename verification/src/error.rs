// SPDX-License-Identifier: MIT

use vstd::prelude::*;

verus! {

/// Why a value could not be decoded.
#[derive(Debug, Clone, Copy, PartialEq, Eq)]
pub enum Nl80211ErrorKind {
    /// The buffer is shorter than the field requires.
    Truncated,
    /// A field of fixed size was given a buffer of another length.
    WrongLength,
    /// The bytes do not form the expected structure: a string without its
    /// terminator or with invalid UTF-8, or a nested record whose header
    /// does not fit the buffer that holds it.
    Malformed,
}

/// A failure inside a list of records: what went wrong, and the position of
/// the record at which decoding stopped.
#[derive(Debug, Clone, Copy, PartialEq, Eq)]
pub struct Nl80211ListError {
    pub kind: Nl80211ErrorKind,
    pub index: usize,
}

/// A failure to decode one attribute of a message.
///
/// `attr` is the kind of the attribute that was being decoded, or `None` when
/// the attribute list itself is malformed. `index` is the position of the
/// offending record: inside the attribute's value when `attr` is a container,
/// inside the message when `attr` is `None`.
#[derive(Debug, Clone, Copy, PartialEq, Eq)]
pub struct Nl80211DecodeError {
    pub kind: Nl80211ErrorKind,
    pub attr: Option<u16>,
    pub index: Option<usize>,
}

impl Nl80211DecodeError {
    /// The error of a plain attribute of kind `attr`.
    pub open spec fn of_value(attr: u16, kind: Nl80211ErrorKind) -> Nl80211DecodeError {
        Nl80211DecodeError { kind, attr: Some(attr), index: None }
    }

    /// The error of a container attribute of kind `attr`.
    pub open spec fn of_list(attr: u16, e: Nl80211ListError) -> Nl80211DecodeError {
        Nl80211DecodeError { kind: e.kind, attr: Some(attr), index: Some(e.index) }
    }

    /// The error of a message whose record at `index` has a broken header.
    pub open spec fn of_framing(index: usize) -> Nl80211DecodeError {
        Nl80211DecodeError { kind: Nl80211ErrorKind::Malformed, attr: None, index: Some(index) }
    }
}

} // verus!
