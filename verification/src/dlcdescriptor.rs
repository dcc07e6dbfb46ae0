//! DLC descriptors: a small header and the name of the DLC.
use vstd::prelude::*;
use crate::error::ReadError;
use crate::layout::{FieldKind, Fld, dec_run, read_fields, fu32, fbytes, get_u32, get_bytes};
use crate::utils::UniqueGameId;

verus! {

/// A DLC descriptor: the name of the DLC.
#[derive(Debug, Clone, PartialEq, Eq)]
pub struct DlcDescriptor {
    pub name: Vec<u8>,
}

/// The fields of a DLC descriptor: the magic `JDLC`, three version words and the name.
pub open spec fn dlc_kinds() -> Seq<FieldKind> {
    seq![FieldKind::U32, FieldKind::U32, FieldKind::U32, FieldKind::U32, FieldKind::Str]
}

/// Whether the header of a DLC descriptor holds what the format requires: the
/// magic `JDLC` and the words 1, `0x07DF` and 1.
pub open spec fn dlc_ok(fs: Seq<Fld>) -> bool {
    &&& fu32(fs[0]) == 0x4A44_4C43
    &&& fu32(fs[1]) == 1
    &&& fu32(fs[2]) == 0x07DF
    &&& fu32(fs[3]) == 1
}

impl DlcDescriptor {
    /// Parses the DLC descriptor at `data[position..]`; returns it and the position after it.
    pub fn deserialize_at_with(data: &[u8], position: usize, _ugi: UniqueGameId) -> (r: Result<(DlcDescriptor, usize), ReadError>)
        ensures
            match dec_run(dlc_kinds(), data@, position as int) {
                Some((fs, q)) => if dlc_ok(fs) {
                    r matches Ok((d, e)) && e == q && d.name@ == fbytes(fs[4])
                } else {
                    r is Err
                },
                None => r is Err,
            },
    {
        let layout: Vec<FieldKind> = vec![FieldKind::U32, FieldKind::U32, FieldKind::U32, FieldKind::U32, FieldKind::Str];
        assert(layout@ =~= dlc_kinds());
        let (fs, q) = match read_fields(&layout, data, position) {
            Ok(x) => x,
            Err(e) => return Err(e),
        };
        if get_u32(&fs, 0) == 0x4A44_4C43 && get_u32(&fs, 1) == 1 && get_u32(&fs, 2) == 0x07DF && get_u32(&fs, 3) == 1 {
            Ok((DlcDescriptor { name: get_bytes(&fs, 4) }, q))
        } else {
            Err(ReadError)
        }
    }
}

} // verus!
