//! Which encoding a file gets, by the suffix of its name.

use vstd::prelude::*;

verus! {

/// An encoding for structured values.
#[derive(Clone, Copy, Debug, PartialEq, Eq, Structural)]
pub enum Format {
    Yaml,
    Json,
}

/// The bytes of `yaml`.
pub open spec fn yaml_suffix() -> Seq<u8> {
    seq![0x79u8, 0x61u8, 0x6du8, 0x6cu8]
}

/// The bytes of `yml`.
pub open spec fn yml_suffix() -> Seq<u8> {
    seq![0x79u8, 0x6du8, 0x6cu8]
}

/// The bytes of `json`.
pub open spec fn json_suffix() -> Seq<u8> {
    seq![0x6au8, 0x73u8, 0x6fu8, 0x6eu8]
}

/// The encoding that a suffix selects, if any. The match is exact, case
/// included.
pub open spec fn format_of(ext: Seq<u8>) -> Option<Format> {
    if ext == yaml_suffix() || ext == yml_suffix() {
        Some(Format::Yaml)
    } else if ext == json_suffix() {
        Some(Format::Json)
    } else {
        None
    }
}

/// The encoding for a file whose name ends in a dot and `ext`; `None`
/// where the suffix is unknown, an empty one included.
pub fn format_of_extension(ext: &[u8]) -> (r: Option<Format>)
    ensures
        r == format_of(ext@),
{
    let n: usize = ext.len();
    if n == 4 && ext[0] == 0x79u8 && ext[1] == 0x61u8 && ext[2] == 0x6du8 && ext[3] == 0x6cu8 {
        assert(ext@ =~= yaml_suffix());
        Some(Format::Yaml)
    } else if n == 3 && ext[0] == 0x79u8 && ext[1] == 0x6du8 && ext[2] == 0x6cu8 {
        assert(ext@ =~= yml_suffix());
        Some(Format::Yaml)
    } else if n == 4 && ext[0] == 0x6au8 && ext[1] == 0x73u8 && ext[2] == 0x6fu8 && ext[3]
        == 0x6eu8 {
        assert(ext@ =~= json_suffix());
        Some(Format::Json)
    } else {
        assert(ext@ != yaml_suffix()) by {
            if ext@ == yaml_suffix() {
                assert(ext@.len() == 4);
                assert(ext@[0] == 0x79u8 && ext@[1] == 0x61u8 && ext@[2] == 0x6du8 && ext@[3]
                    == 0x6cu8);
            }
        }
        assert(ext@ != yml_suffix()) by {
            if ext@ == yml_suffix() {
                assert(ext@.len() == 3);
                assert(ext@[0] == 0x79u8 && ext@[1] == 0x6du8 && ext@[2] == 0x6cu8);
            }
        }
        assert(ext@ != json_suffix()) by {
            if ext@ == json_suffix() {
                assert(ext@.len() == 4);
                assert(ext@[0] == 0x6au8 && ext@[1] == 0x73u8 && ext@[2] == 0x6fu8 && ext@[3]
                    == 0x6eu8);
            }
        }
        None
    }
}

} // verus!
