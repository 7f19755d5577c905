//! The message of the `bsdiff` Protobuf package: one step of a bsdiff patch.
use vstd::prelude::*;
use crate::wharf::protobuf::{
    all_delimited, all_varint, bytes_field, fields_view, last_delimited, last_varint, parse_fields,
    varint_field, SpecWireField, StreamError,
};
use crate::wharf::pwr::spec_decoded;

verus! {

/// `Control { add = 1; copy = 2; seek = 3; eof = 4; }`
///
/// A bsdiff step adds `add` byte by byte to the old file's bytes at the
/// current position, appends `copy` as it is, then moves the position in the
/// old file by `seek`. `eof` marks the end of the file's steps.
#[derive(Debug, Clone, PartialEq, Eq)]
pub struct Control {
    pub add: Vec<u8>,
    pub copy: Vec<u8>,
    pub seek: i64,
    pub eof: bool,
}

/// The mathematical form of a [`Control`].
pub struct SpecControl {
    pub add: Seq<u8>,
    pub copy: Seq<u8>,
    pub seek: i64,
    pub eof: bool,
}

impl View for Control {
    type V = SpecControl;

    open spec fn view(&self) -> SpecControl {
        SpecControl { add: self.add@, copy: self.copy@, seek: self.seek, eof: self.eof }
    }
}

impl Control {
    pub open spec fn spec_from_fields(fs: Seq<SpecWireField>) -> Option<SpecControl> {
        if all_delimited(fs, 1) && all_delimited(fs, 2) && all_varint(fs, 3) && all_varint(fs, 4) {
            Some(
                SpecControl {
                    add: last_delimited(fs, 1),
                    copy: last_delimited(fs, 2),
                    seek: last_varint(fs, 3) as i64,
                    eof: last_varint(fs, 4) != 0,
                },
            )
        } else {
            None
        }
    }

    pub open spec fn spec_decode(bytes: Seq<u8>) -> Result<SpecControl, StreamError> {
        spec_decoded(bytes, |fs: Seq<SpecWireField>| Self::spec_from_fields(fs))
    }

    /// Decodes an encoded `Control`.
    pub fn decode(bytes: &[u8]) -> (r: Result<Control, StreamError>)
        ensures
            match Self::spec_decode(bytes@) {
                Ok(m) => r is Ok && r->Ok_0@ == m,
                Err(e) => r == Err::<Control, StreamError>(e),
            },
    {
        let fs = parse_fields(bytes)?;
        let add = bytes_field(&fs, 1)?;
        let copy = bytes_field(&fs, 2)?;
        let seek = varint_field(&fs, 3)?;
        let eof = varint_field(&fs, 4)?;
        Ok(Control { add, copy, seek: seek as i64, eof: eof != 0 })
    }
}

} // verus!
