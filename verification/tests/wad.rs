use ezboom::error::StartupError;
use ezboom::wad::{add_default_extension, read_directory, read_filelump, read_wadinfo, WadInfo};

fn archive(tag: &[u8; 4], numlumps: i32, infotableofs: i32, entries: &[(i32, i32, &str)]) -> Vec<u8> {
    let mut bytes = Vec::new();
    bytes.extend_from_slice(tag);
    bytes.extend_from_slice(&numlumps.to_le_bytes());
    bytes.extend_from_slice(&infotableofs.to_le_bytes());
    for (filepos, size, name) in entries {
        bytes.extend_from_slice(&filepos.to_le_bytes());
        bytes.extend_from_slice(&size.to_le_bytes());
        let mut padded = [0u8; 8];
        padded[..name.len()].copy_from_slice(name.as_bytes());
        bytes.extend_from_slice(&padded);
    }
    bytes
}

#[test]
fn header_is_read_least_significant_byte_first() {
    let bytes = [b'I', b'W', b'A', b'D', 0x01, 0x02, 0x00, 0x00, 0x0c, 0x00, 0x00, 0x01];
    let info = read_wadinfo(&bytes).unwrap();
    assert_eq!(&info.identification, b"IWAD");
    assert_eq!(info.numlumps, 513);
    assert_eq!(info.infotableofs, 0x0100_000c);
}

#[test]
fn header_numbers_are_signed() {
    let bytes = [b'P', b'W', b'A', b'D', 0xff, 0xff, 0xff, 0xff, 0x00, 0x00, 0x00, 0x80];
    let info = read_wadinfo(&bytes).unwrap();
    assert_eq!(&info.identification, b"PWAD");
    assert_eq!(info.numlumps, -1);
    assert_eq!(info.infotableofs, i32::MIN);
}

#[test]
fn short_header_is_refused() {
    assert_eq!(read_wadinfo(&[]).err(), Some(StartupError::DirectoryReadFailure));
    assert_eq!(read_wadinfo(&[0u8; 11]).err(), Some(StartupError::DirectoryReadFailure));
    assert!(read_wadinfo(&[0u8; 12]).is_ok());
}

#[test]
fn directory_entry_is_read_at_its_place() {
    let bytes = archive(b"IWAD", 2, 12, &[(100, 20, "E1M1"), (-2, 7, "DMENUPIC")]);
    let first = read_filelump(&bytes, 12).unwrap();
    assert_eq!(first.filepos, 100);
    assert_eq!(first.size, 20);
    assert_eq!(&first.name, b"E1M1\0\0\0\0");
    let second = read_filelump(&bytes, 28).unwrap();
    assert_eq!(second.filepos, -2);
    assert_eq!(second.size, 7);
    assert_eq!(&second.name, b"DMENUPIC");
    assert_eq!(read_filelump(&bytes, 29).err(), Some(StartupError::DirectoryReadFailure));
    assert_eq!(read_filelump(&bytes, usize::MAX).err(), Some(StartupError::DirectoryReadFailure));
}

#[test]
fn directory_is_read_in_the_order_of_the_file() {
    let bytes = archive(b"IWAD", 3, 12, &[(1, 2, "A"), (3, 4, "B"), (5, 6, "C")]);
    let info = read_wadinfo(&bytes).unwrap();
    let directory = read_directory(&bytes, &info).unwrap();
    assert_eq!(directory.len(), 3);
    assert_eq!(directory[0].filepos, 1);
    assert_eq!(directory[1].size, 4);
    assert_eq!(&directory[2].name, b"C\0\0\0\0\0\0\0");
}

#[test]
fn directory_that_is_cut_short_is_refused() {
    let mut bytes = archive(b"IWAD", 3, 12, &[(1, 2, "A"), (3, 4, "B"), (5, 6, "C")]);
    bytes.pop();
    let info = read_wadinfo(&bytes).unwrap();
    assert_eq!(read_directory(&bytes, &info).err(), Some(StartupError::DirectoryReadFailure));
}

#[test]
fn directory_outside_the_file_is_refused() {
    let bytes = archive(b"IWAD", 1, 12, &[(1, 2, "A")]);
    let beyond = WadInfo { identification: *b"IWAD", numlumps: 1, infotableofs: 13 };
    assert_eq!(read_directory(&bytes, &beyond).err(), Some(StartupError::DirectoryReadFailure));
    let negative = WadInfo { identification: *b"IWAD", numlumps: 0, infotableofs: -1 };
    assert_eq!(read_directory(&bytes, &negative).err(), Some(StartupError::DirectoryReadFailure));
    let far = WadInfo { identification: *b"IWAD", numlumps: 0, infotableofs: 29 };
    assert_eq!(read_directory(&bytes, &far).err(), Some(StartupError::DirectoryReadFailure));
}

#[test]
fn negative_count_is_an_empty_directory() {
    let bytes = archive(b"IWAD", -5, 12, &[]);
    let info = read_wadinfo(&bytes).unwrap();
    assert_eq!(read_directory(&bytes, &info).unwrap().len(), 0);
    let at_end = WadInfo { identification: *b"IWAD", numlumps: 0, infotableofs: 12 };
    assert_eq!(read_directory(&bytes, &at_end).unwrap().len(), 0);
}

#[test]
fn extension_is_added_where_there_is_none() {
    assert_eq!(add_default_extension("doom2", ".wad"), "doom2.wad");
    assert_eq!(add_default_extension("doom2", "wad"), "doom2.wad");
    assert_eq!(add_default_extension("doom2.wad", ".wad"), "doom2.wad");
    assert_eq!(add_default_extension("doom2.deh", ".wad"), "doom2.deh");
    assert_eq!(add_default_extension("my.dir/doom2", ".wad"), "my.dir/doom2.wad");
    assert_eq!(add_default_extension("my.dir\\doom2", ".wad"), "my.dir\\doom2.wad");
    assert_eq!(add_default_extension("dir/.hidden", ".wad"), "dir/.hidden");
    assert_eq!(add_default_extension("", ".wad"), ".wad");
    assert_eq!(add_default_extension("dir/", "wad"), "dir/.wad");
    assert_eq!(add_default_extension("doom2", ""), "doom2.");
}
