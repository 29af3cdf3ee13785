//! The format of a data archive: a header of 12 bytes, the lumps, and a
//! directory with one entry of 16 bytes for each lump. All numbers are
//! stored with the least significant byte first.

use byteorder::{ByteOrder, LittleEndian};
use vstd::prelude::*;
use vstd::slice::slice_subrange;
use vstd::string::*;

use crate::error::StartupError;

verus! {

/// Length of the header of a data archive, in bytes.
pub const HEADER_LENGTH: usize = 12;

/// Length of one entry of the directory, in bytes.
pub const ENTRY_LENGTH: usize = 16;

/// Header of a data archive.
#[derive(Debug, Clone, Copy)]
pub struct WadInfo {
    /// `IWAD` for a main archive, `PWAD` for a patch.
    pub identification: [u8; 4],
    /// Number of entries of the directory.
    pub numlumps: i32,
    /// Where in the file the directory begins.
    pub infotableofs: i32,
}

/// One entry of the directory of a data archive.
#[derive(Debug, Clone, Copy)]
pub struct FileLump {
    /// Where in the file the lump begins.
    pub filepos: i32,
    /// Length of the lump in bytes.
    pub size: i32,
    /// Name of the lump, filled up with zero bytes.
    pub name: [u8; 8],
}

/// Where a data archive was named.
#[derive(Debug, Clone, Copy, PartialEq, Eq, Structural)]
pub enum WadSource {
    Iwad,
    Pre,
    AutoLoad,
    Pwad,
    Lmp,
    Net,
    Deh,
    /// The archive could not be placed.
    Invalid,
}

/// A data archive that the game loads.
#[derive(Debug)]
pub struct WadFileInfo {
    pub name: String,
    pub src: WadSource,
    pub handle: i32,
}

/// The number that four bytes hold, least significant byte first, read
/// without a sign.
pub open spec fn le_u32(b: Seq<u8>) -> int
    recommends
        b.len() >= 4,
{
    b[0] + 0x100 * b[1] + 0x1_0000 * b[2] + 0x100_0000 * b[3]
}

/// The number that four bytes hold, least significant byte first, read
/// in two's complement.
pub open spec fn le_i32(b: Seq<u8>) -> int
    recommends
        b.len() >= 4,
{
    if le_u32(b) >= 0x8000_0000 {
        le_u32(b) - 0x1_0000_0000
    } else {
        le_u32(b)
    }
}

/// `byteorder::LittleEndian::read_i32`: reads the first four bytes of
/// `buf` as a signed number, least significant byte first. The function
/// panics on fewer than four bytes, which `requires` rules out.
#[verifier::external_body]
fn read_i32_le(buf: &[u8]) -> (r: i32)
    requires
        buf@.len() >= 4,
    ensures
        r == le_i32(buf@),
{
    LittleEndian::read_i32(buf)
}

/// The header that the first 12 bytes of `bytes` hold.
pub open spec fn header_of(bytes: Seq<u8>) -> WadInfo
    recommends
        bytes.len() >= 12,
{
    WadInfo {
        identification: [bytes[0], bytes[1], bytes[2], bytes[3]],
        numlumps: le_i32(bytes.subrange(4, 8)) as i32,
        infotableofs: le_i32(bytes.subrange(8, 12)) as i32,
    }
}

/// The directory entry that `bytes` hold from index `at` on.
pub open spec fn entry_at(bytes: Seq<u8>, at: int) -> FileLump
    recommends
        0 <= at,
        at + 16 <= bytes.len(),
{
    FileLump {
        filepos: le_i32(bytes.subrange(at, at + 4)) as i32,
        size: le_i32(bytes.subrange(at + 4, at + 8)) as i32,
        name: [
            bytes[at + 8],
            bytes[at + 9],
            bytes[at + 10],
            bytes[at + 11],
            bytes[at + 12],
            bytes[at + 13],
            bytes[at + 14],
            bytes[at + 15],
        ],
    }
}

/// Reads the header from the beginning of a data archive. A file that is
/// shorter than a header is refused.
pub fn read_wadinfo(bytes: &[u8]) -> (r: Result<WadInfo, StartupError>)
    ensures
        r is Ok <==> bytes@.len() >= 12,
        r matches Ok(info) ==> info == header_of(bytes@),
        r matches Err(e) ==> e == StartupError::DirectoryReadFailure,
{
    if bytes.len() < HEADER_LENGTH {
        return Err(StartupError::DirectoryReadFailure);
    }
    let identification: [u8; 4] = [bytes[0], bytes[1], bytes[2], bytes[3]];
    let numlumps = read_i32_le(slice_subrange(bytes, 4, 8));
    let infotableofs = read_i32_le(slice_subrange(bytes, 8, 12));
    assert(identification@ =~= header_of(bytes@).identification@);
    Ok(WadInfo { identification, numlumps, infotableofs })
}

/// Reads the directory entry that begins at index `at`. An entry that
/// the file does not hold in full is refused.
pub fn read_filelump(bytes: &[u8], at: usize) -> (r: Result<FileLump, StartupError>)
    ensures
        r is Ok <==> at + 16 <= bytes@.len(),
        r matches Ok(lump) ==> lump == entry_at(bytes@, at as int),
        r matches Err(e) ==> e == StartupError::DirectoryReadFailure,
{
    if bytes.len() < ENTRY_LENGTH || at > bytes.len() - ENTRY_LENGTH {
        return Err(StartupError::DirectoryReadFailure);
    }
    let filepos = read_i32_le(slice_subrange(bytes, at, at + 4));
    let size = read_i32_le(slice_subrange(bytes, at + 4, at + 8));
    let name: [u8; 8] = [
        bytes[at + 8],
        bytes[at + 9],
        bytes[at + 10],
        bytes[at + 11],
        bytes[at + 12],
        bytes[at + 13],
        bytes[at + 14],
        bytes[at + 15],
    ];
    assert(name@ =~= entry_at(bytes@, at as int).name@);
    Ok(FileLump { filepos, size, name })
}

/// Number of entries that a header announces. A negative count stands
/// for an empty directory.
pub open spec fn entry_count(info: WadInfo) -> int {
    if info.numlumps > 0 {
        info.numlumps as int
    } else {
        0
    }
}

/// Whether `bytes` hold the whole directory that `info` announces: the
/// directory begins within the file, and each of its entries ends within
/// the file.
pub open spec fn holds_directory(bytes: Seq<u8>, info: WadInfo) -> bool {
    &&& 0 <= info.infotableofs
    &&& info.infotableofs + 16 * entry_count(info) <= bytes.len()
}

/// The directory that `bytes` hold as `info` announces it.
pub open spec fn directory_of(bytes: Seq<u8>, info: WadInfo) -> Seq<FileLump>
    recommends
        holds_directory(bytes, info),
{
    Seq::new(entry_count(info) as nat, |i: int| entry_at(bytes, info.infotableofs + 16 * i))
}

/// Reads the directory that the header announces, entry by entry in the
/// order of the file.
pub fn read_directory(bytes: &[u8], info: &WadInfo) -> (r: Result<Vec<FileLump>, StartupError>)
    ensures
        r is Ok <==> holds_directory(bytes@, *info),
        r matches Ok(directory) ==> directory@ == directory_of(bytes@, *info),
        r matches Err(e) ==> e == StartupError::DirectoryReadFailure,
{
    if info.infotableofs < 0 {
        return Err(StartupError::DirectoryReadFailure);
    }
    let start: usize = info.infotableofs as usize;
    if start > bytes.len() {
        return Err(StartupError::DirectoryReadFailure);
    }
    let count: usize = if info.numlumps > 0 { info.numlumps as usize } else { 0 };
    if count > (bytes.len() - start) / ENTRY_LENGTH {
        return Err(StartupError::DirectoryReadFailure);
    }
    let mut directory: Vec<FileLump> = Vec::new();
    let mut i: usize = 0;
    while i < count
        invariant
            i <= count,
            count == entry_count(*info),
            start == info.infotableofs,
            start + 16 * count <= bytes@.len() <= usize::MAX,
            directory@.len() == i,
            forall|k: int|
                0 <= k < i ==> #[trigger] directory@[k] == entry_at(bytes@, start + 16 * k),
        decreases count - i,
    {
        let at: usize = start + ENTRY_LENGTH * i;
        match read_filelump(bytes, at) {
            Ok(lump) => {
                directory.push(lump);
            },
            Err(e) => {
                return Err(e);
            },
        }
        i = i + 1;
    }
    assert(directory@ =~= directory_of(bytes@, *info));
    Ok(directory)
}

/// Whether `b` parts the components of a path: a slash or a backslash.
pub open spec fn is_separator(b: u8) -> bool {
    b == 0x2f || b == 0x5c
}

/// Whether the last component of a path holds a dot, so that the file
/// already has an extension.
pub open spec fn has_extension(path: Seq<u8>) -> bool {
    exists|i: int|
        0 <= i < path.len() && #[trigger] path[i] == 0x2e && forall|j: int|
            i < j < path.len() ==> !is_separator(#[trigger] path[j])
}

/// The path with the extension added, if its last component has none.
/// The dot before the extension is added too where `ext` does not bring
/// its own.
pub open spec fn with_default_extension(path: &str, ext: &str) -> Seq<char> {
    if has_extension(path.spec_bytes()) {
        path@
    } else if ext.spec_bytes().len() > 0 && ext.spec_bytes()[0] == 0x2e {
        path@ + ext@
    } else {
        path@ + "."@ + ext@
    }
}

/// Adds the extension `ext` to a path whose last component has none, and
/// leaves any other path as it is.
pub fn add_default_extension(path: &str, ext: &str) -> (r: String)
    ensures
        r@ == with_default_extension(path, ext),
{
    let pb = path.as_bytes();
    let mut p: usize = pb.len();
    while p > 0 && pb[p - 1] != 0x2f && pb[p - 1] != 0x5c
        invariant
            p <= pb@.len(),
            pb@ == path.spec_bytes(),
            forall|j: int| p <= j < pb@.len() ==> !is_separator(#[trigger] pb@[j]),
            forall|j: int| p <= j < pb@.len() ==> #[trigger] pb@[j] != 0x2e,
        decreases p,
    {
        p = p - 1;
        if pb[p] == 0x2e {
            assert(has_extension(pb@)) by {
                assert(pb@[p as int] == 0x2e);
            }
            return path.to_owned();
        }
    }
    assert(!has_extension(pb@)) by {
        if has_extension(pb@) {
            let i = choose|i: int|
                0 <= i < pb@.len() && #[trigger] pb@[i] == 0x2e && forall|j: int|
                    i < j < pb@.len() ==> !is_separator(#[trigger] pb@[j]);
            if i < p {
                assert(is_separator(pb@[p - 1]));
            }
        }
    }
    let mut r = path.to_owned();
    let eb = ext.as_bytes();
    if !(eb.len() > 0 && eb[0] == 0x2e) {
        r.append(".");
    }
    r.append(ext);
    r
}

} // verus!
