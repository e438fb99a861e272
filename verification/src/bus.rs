//! The bus interface: reading and writing fixed-width integers at byte
//! addresses, and the errors that a device answers with.

use crate::lebytes::LeBytes;
use vstd::prelude::*;
use vstd::string::StringExecFns;

verus! {

/// Why a bus access failed.
#[derive(Debug, PartialEq, Eq, Clone, Copy, Structural)]
pub enum ErrorKind {
    /// No device covers the address, or the device has no such operation.
    Unimplemented,
    /// A device covers the address, but the access runs past its end.
    OutOfBounds,
    /// The device cannot be read in this way.
    UnsupportedRead,
    /// The device does not take this write.
    DisallowedWrite,
    /// The device has nothing to hand out yet.
    NoData,
}

/// A failed bus access: its kind and a description.
#[derive(Debug, PartialEq)]
pub struct Error {
    kind: ErrorKind,
    details: String,
}

/// What an [`Error`] holds, as a plain value.
pub struct ErrorView {
    pub kind: ErrorKind,
    pub details: Seq<char>,
}

impl View for Error {
    type V = ErrorView;

    closed spec fn view(&self) -> ErrorView {
        ErrorView { kind: self.kind, details: self.details@ }
    }
}

/// The fault of kind `kind` that is described by `msg`.
pub open spec fn spec_error(kind: ErrorKind, msg: &str) -> ErrorView {
    ErrorView { kind, details: msg@ }
}

/// The name of an error kind, as diagnostics print it.
pub open spec fn spec_kind_name(kind: ErrorKind) -> &'static str {
    match kind {
        ErrorKind::Unimplemented => "Unimplemented",
        ErrorKind::OutOfBounds => "OutOfBounds",
        ErrorKind::UnsupportedRead => "UnsupportedRead",
        ErrorKind::DisallowedWrite => "DisallowedWrite",
        ErrorKind::NoData => "NoData",
    }
}

impl ErrorKind {
    /// The name of this kind, as diagnostics print it.
    pub fn name(self) -> (name: &'static str)
        ensures
            name@ == spec_kind_name(self)@,
    {
        match self {
            ErrorKind::Unimplemented => "Unimplemented",
            ErrorKind::OutOfBounds => "OutOfBounds",
            ErrorKind::UnsupportedRead => "UnsupportedRead",
            ErrorKind::DisallowedWrite => "DisallowedWrite",
            ErrorKind::NoData => "NoData",
        }
    }
}

impl Error {
    /// An error of kind `kind` that `msg` describes.
    pub fn new(kind: ErrorKind, msg: &str) -> (error: Error)
        ensures
            error@ == spec_error(kind, msg),
    {
        Error { kind, details: msg.to_owned() }
    }

    /// The kind of this error.
    pub fn kind(&self) -> (kind: ErrorKind)
        ensures
            kind == self@.kind,
    {
        self.kind
    }

    /// The description of this error.
    pub fn details(&self) -> (details: &str)
        ensures
            details@ == self@.details,
    {
        self.details.as_str()
    }

    /// The line that reports this error: `BusError`, the kind, a colon and
    /// the description.
    pub fn message(&self) -> (line: String)
        ensures
            line@ == "BusError "@ + spec_kind_name(self@.kind)@ + ": "@ + self@.details,
    {
        let line = String::from_str("BusError ");
        let line = line.concat(self.kind.name());
        let line = line.concat(": ");
        line.concat(self.details.as_str())
    }
}

/// What an access over the bus gives: for a read the number read, or the
/// fault; and the device afterwards. A write that succeeds gives zero.
pub struct BusAccess<S> {
    pub result: Result<nat, ErrorView>,
    pub state: S,
}

/// The access that fails with a fault of kind `kind`, described by `msg`,
/// and leaves the device as it was.
pub open spec fn spec_refused<S>(state: S, kind: ErrorKind, msg: &str) -> BusAccess<S> {
    BusAccess { result: Err(spec_error(kind, msg)), state }
}

/// Whether what a read returned is what `expected` says: the value that
/// stands for the number, or an error that holds the fault.
pub open spec fn spec_read_gives<T: LeBytes<SIZE>, const SIZE: usize>(
    result: Result<T, Error>,
    expected: Result<nat, ErrorView>,
) -> bool {
    match expected {
        Ok(number) => result matches Ok(value) && value.spec_value() == number,
        Err(fault) => result matches Err(error) && error@ == fault,
    }
}

/// Whether what a write returned is what `expected` says: success, or an
/// error that holds the fault.
pub open spec fn spec_write_gives(
    result: Result<(), Error>,
    expected: Result<nat, ErrorView>,
) -> bool {
    match expected {
        Ok(_) => result is Ok,
        Err(fault) => result matches Err(error) && error@ == fault,
    }
}

/// A device that can be read and written at byte addresses, in values of
/// one, two, four or eight bytes, stored least significant byte first.
///
/// Each device says what it holds, as its view, and what an access does to
/// that: `spec_read` and `spec_write`.
pub trait Bus: View {
    /// What a read of `width` bytes at `address` gives, and what it leaves.
    spec fn spec_read(state: Self::V, address: usize, width: nat) -> BusAccess<Self::V>;

    /// What a write of the number `value` in `width` bytes at `address`
    /// gives, and what it leaves.
    spec fn spec_write(state: Self::V, address: usize, value: nat, width: nat) -> BusAccess<
        Self::V,
    >;

    /// Reads a value of `T_SIZE` bytes at `address`.
    fn read<T, const T_SIZE: usize>(&mut self, address: usize) -> (result: Result<T, Error>) where
        T: LeBytes<T_SIZE>,

        ensures
            spec_read_gives(result, Self::spec_read(old(self)@, address, T_SIZE as nat).result),
            final(self)@ == Self::spec_read(old(self)@, address, T_SIZE as nat).state,
    ;

    /// Writes `value`, `T_SIZE` bytes, at `address`.
    fn write<T, const T_SIZE: usize>(&mut self, address: usize, value: T) -> (result: Result<
        (),
        Error,
    >) where T: LeBytes<T_SIZE>
        ensures
            spec_write_gives(
                result,
                Self::spec_write(old(self)@, address, value.spec_value(), T_SIZE as nat).result,
            ),
            final(self)@ == Self::spec_write(
                old(self)@,
                address,
                value.spec_value(),
                T_SIZE as nat,
            ).state,
    ;
}

} // verus!
