use vstd::prelude::*;

verus! {

/// What kind of file a name stands for.
#[derive(Debug, Clone, Copy, PartialEq, Eq, Structural)]
pub enum FileKind {
    /// A music file: a snapshot of the sound processor.
    Spc,
    /// Saved parameters.
    Json,
    /// Anything else.
    Unsupported,
}

/// A byte with an upper-case letter of the basic alphabet made lower-case.
pub open spec fn spec_lower(byte: u8) -> u8 {
    if 0x41 <= byte <= 0x5A {
        (byte + 0x20) as u8
    } else {
        byte
    }
}

/// Whether `extension` spells `word`, upper and lower case alike.
pub open spec fn spec_spells(extension: Seq<u8>, word: Seq<u8>) -> bool {
    extension.len() == word.len() && forall|i: int|
        0 <= i < word.len() ==> spec_lower(#[trigger] extension[i]) == word[i]
}

/// The kind of file that an extension stands for: `spc` a music file,
/// `json` saved parameters, upper and lower case alike.
pub open spec fn spec_file_kind(extension: Seq<u8>) -> FileKind {
    if spec_spells(extension, seq![0x73u8, 0x70u8, 0x63u8]) {
        FileKind::Spc
    } else if spec_spells(extension, seq![0x6Au8, 0x73u8, 0x6Fu8, 0x6Eu8]) {
        FileKind::Json
    } else {
        FileKind::Unsupported
    }
}

/// A byte with an upper-case letter of the basic alphabet made lower-case.
pub fn lower(byte: u8) -> (lowered: u8)
    ensures
        lowered == spec_lower(byte),
{
    if 0x41 <= byte && byte <= 0x5A {
        byte + 0x20
    } else {
        byte
    }
}

/// The kind of file that the extension of a file name stands for.
pub fn file_kind(extension: &[u8]) -> (kind: FileKind)
    ensures
        kind == spec_file_kind(extension@),
{
    if extension.len() == 3 {
        if lower(extension[0]) == 0x73 && lower(extension[1]) == 0x70 && lower(extension[2])
            == 0x63 {
            return FileKind::Spc;
        }
        assert(!spec_spells(extension@, seq![0x73u8, 0x70u8, 0x63u8])) by {
            let word = seq![0x73u8, 0x70u8, 0x63u8];
            if spec_spells(extension@, word) {
                assert(spec_lower(extension@[0]) == word[0]);
                assert(spec_lower(extension@[1]) == word[1]);
                assert(spec_lower(extension@[2]) == word[2]);
            }
        }
        FileKind::Unsupported
    } else if extension.len() == 4 {
        if lower(extension[0]) == 0x6A && lower(extension[1]) == 0x73 && lower(extension[2])
            == 0x6F && lower(extension[3]) == 0x6E {
            return FileKind::Json;
        }
        assert(!spec_spells(extension@, seq![0x6Au8, 0x73u8, 0x6Fu8, 0x6Eu8])) by {
            let word = seq![0x6Au8, 0x73u8, 0x6Fu8, 0x6Eu8];
            if spec_spells(extension@, word) {
                assert(spec_lower(extension@[0]) == word[0]);
                assert(spec_lower(extension@[1]) == word[1]);
                assert(spec_lower(extension@[2]) == word[2]);
                assert(spec_lower(extension@[3]) == word[3]);
            }
        }
        FileKind::Unsupported
    } else {
        FileKind::Unsupported
    }
}

} // verus!
