use julios::fs::iso::iso9660::bytes_equal;
use julios::fs::iso::iso9660::find_entry;
use julios::fs::iso::iso9660::sector_at;
use julios::fs::iso::iso9660::IsoDir;
use julios::fs::iso::iso9660::IsoFileType;
use julios::fs::iso::iso9660::IsoPrimVolDesc;
use julios::fs::iso::iso9660::MultiEndian16;
use julios::fs::iso::iso9660::MultiEndian32;
use julios::fs::iso::iso9660::ISO_BLOCK_SIZE;
use julios::fs::iso::iso9660::ISO_DIR_HEADER_LEN;
use julios::fs::iso::iso9660::ISO_PRIM_VOLDESC_BLOCK;
use julios::fs::iso::iso9660::ISO_ROOT_DIR_OFFSET;

fn record(name: &[u8], lba: u32, size: u32, flags: u8) -> Vec<u8> {
    let mut len = 33 + name.len();
    if len % 2 == 1 {
        len += 1;
    }
    let mut r = vec![0u8; len];
    r[0] = len as u8;
    r[1] = 0;
    r[2..6].copy_from_slice(&lba.to_le_bytes());
    r[6..10].copy_from_slice(&lba.to_be_bytes());
    r[10..14].copy_from_slice(&size.to_le_bytes());
    r[14..18].copy_from_slice(&size.to_be_bytes());
    r[18..25].copy_from_slice(&[122, 10, 28, 12, 30, 45, 4]);
    r[25] = flags;
    r[26] = 0;
    r[27] = 0;
    r[28..30].copy_from_slice(&1u16.to_le_bytes());
    r[30..32].copy_from_slice(&1u16.to_be_bytes());
    r[32] = name.len() as u8;
    r[33..33 + name.len()].copy_from_slice(name);
    r
}

fn directory(records: &[Vec<u8>]) -> Vec<u8> {
    let mut sector = Vec::new();
    for r in records {
        sector.extend_from_slice(r);
    }
    assert!(sector.len() <= 2048);
    sector.resize(2048, 0);
    sector
}

fn descriptor(root_lba: u32, root_size: u32) -> Vec<u8> {
    let mut sector = vec![0u8; 2048];
    sector[0] = 1;
    sector[1..6].copy_from_slice(b"CD001");
    sector[6] = 1;
    sector[80..84].copy_from_slice(&1000u32.to_le_bytes());
    sector[84..88].copy_from_slice(&1000u32.to_be_bytes());
    sector[120..122].copy_from_slice(&1u16.to_le_bytes());
    sector[122..124].copy_from_slice(&1u16.to_be_bytes());
    sector[124..126].copy_from_slice(&1u16.to_le_bytes());
    sector[126..128].copy_from_slice(&1u16.to_be_bytes());
    sector[128..130].copy_from_slice(&2048u16.to_le_bytes());
    sector[130..132].copy_from_slice(&2048u16.to_be_bytes());
    sector[132..136].copy_from_slice(&10u32.to_le_bytes());
    sector[136..140].copy_from_slice(&10u32.to_be_bytes());
    sector[140..144].copy_from_slice(&18u32.to_le_bytes());
    sector[144..148].copy_from_slice(&0u32.to_le_bytes());
    sector[148..152].copy_from_slice(&19u32.to_be_bytes());
    sector[152..156].copy_from_slice(&0u32.to_be_bytes());
    let root = record(&[0], root_lba, root_size, 0x02);
    sector[156..156 + root.len()].copy_from_slice(&root);
    sector[881] = 1;
    sector
}

#[test]
fn constants_of_the_format() {
    assert_eq!(ISO_BLOCK_SIZE, 2048);
    assert_eq!(ISO_PRIM_VOLDESC_BLOCK, 16);
    assert_eq!(ISO_DIR_HEADER_LEN, 33);
    assert_eq!(ISO_ROOT_DIR_OFFSET, 156);
}

#[test]
fn file_type_bits() {
    assert_eq!(IsoFileType::HIDDEN.bits(), 0x01);
    assert_eq!(IsoFileType::ISDIR.bits(), 0x02);
    assert_eq!(IsoFileType::ASSOCIAT.bits(), 0x04);
    assert_eq!(IsoFileType::USEEXT.bits(), 0x08);
    assert_eq!(IsoFileType::USEPERM.bits(), 0x10);
    assert_eq!(IsoFileType::MULTIDIR.bits(), 0x80);
}

#[test]
fn multi_endian_pairs_decode_both_copies() {
    let bytes = [0x78, 0x56, 0x34, 0x12, 0x12, 0x34, 0x56, 0x78, 0xcd, 0xab, 0xab, 0xcd];
    assert_eq!(
        MultiEndian32::parse(&bytes, 0),
        Some(MultiEndian32 { le: 0x1234_5678, be: 0x1234_5678 })
    );
    assert_eq!(
        MultiEndian32::parse(&bytes, 4),
        Some(MultiEndian32 { le: 0x7856_3412, be: 0xcdab_abcd })
    );
    assert_eq!(MultiEndian32::parse(&bytes, 5), None);
    assert_eq!(MultiEndian32::parse(&bytes, usize::MAX), None);
    assert_eq!(MultiEndian16::parse(&bytes, 8), Some(MultiEndian16 { le: 0xabcd, be: 0xabcd }));
    assert_eq!(MultiEndian16::parse(&bytes, 9), None);
}

#[test]
fn record_fields_are_decoded() {
    let sector = directory(&[record(b"GRUB.CFG;1", 0x0102_0304, 47, 0x01)]);
    let r = IsoDir::parse(&sector, 0).unwrap();
    assert_eq!(r.dir_size, 44);
    assert_eq!(r.ext_size, 0);
    assert_eq!(r.data_blk, MultiEndian32 { le: 0x0102_0304, be: 0x0102_0304 });
    assert_eq!(r.file_size, MultiEndian32 { le: 47, be: 47 });
    assert_eq!(r.date, [122, 10, 28, 12, 30, 45, 4]);
    assert_eq!(r.file_type, 0x01);
    assert_eq!(r.unit_size, 0);
    assert_eq!(r.gap_size, 0);
    assert_eq!(r.vol_seq, MultiEndian16 { le: 1, be: 1 });
    assert_eq!(r.idf_len, 10);
    assert_eq!(r.idf, b"GRUB.CFG;1".to_vec());
    assert!(r.has_type(IsoFileType::HIDDEN));
    assert!(!r.has_type(IsoFileType::ISDIR));
}

#[test]
fn record_must_lie_inside_the_sector() {
    let mut sector = directory(&[record(b"A", 1, 1, 0)]);
    assert!(IsoDir::parse(&sector, 2048 - 33).is_some());
    assert!(IsoDir::parse(&sector, 2048 - 32).is_none());
    assert!(IsoDir::parse(&sector, 2048).is_none());
    assert!(IsoDir::parse(&sector, usize::MAX).is_none());
    sector[2047] = 1;
    assert!(IsoDir::parse(&sector, 2048 - 33).is_none());
    assert!(IsoDir::parse(&[], 0).is_none());
}

#[test]
fn version_suffix_is_stripped() {
    let sector = directory(&[
        record(b"A.TXT;1", 1, 1, 0),
        record(b";1", 2, 2, 0),
        record(b"B;2", 3, 3, 0),
        record(b"1", 4, 4, 0),
        record(b"C;1;1", 5, 5, 0),
    ]);
    let mut at = 0;
    let mut names: Vec<Vec<u8>> = Vec::new();
    let mut r = IsoDir::parse(&sector, 0).unwrap();
    loop {
        names.push(r.get_idf().to_vec());
        match r.next_entry(&sector, at) {
            Some(next) if next.idf_len != 0 => {
                at += r.dir_size as usize;
                r = next;
            }
            _ => break,
        }
    }
    assert_eq!(
        names,
        vec![b"A.TXT".to_vec(), b"".to_vec(), b"B;2".to_vec(), b"1".to_vec(), b"C;1".to_vec()]
    );
}

#[test]
fn matches_compares_raw_bytes() {
    let sector = directory(&[record(b"BOOT", 21, 2048, 0x02)]);
    let r = IsoDir::parse(&sector, 0).unwrap();
    assert!(r.matches("BOOT"));
    assert!(!r.matches("boot"));
    assert!(!r.matches("BOO"));
    assert!(!r.matches("BOOT;1"));
    assert!(r.matches_bytes(b"BOOT"));
    assert!(!r.matches_bytes(b""));
    let file = IsoDir::parse(&directory(&[record(b"GRUB.CFG;1", 23, 47, 0)]), 0).unwrap();
    assert!(file.matches("GRUB.CFG"));
    assert!(!file.matches("GRUB.CFG;1"));
}

#[test]
fn next_entry_follows_record_sizes() {
    let sector = directory(&[record(&[0], 20, 2048, 2), record(&[1], 20, 2048, 2), record(b"X", 9, 9, 0)]);
    let first = IsoDir::parse(&sector, 0).unwrap();
    assert_eq!(first.dir_size, 34);
    let second = first.next_entry(&sector, 0).unwrap();
    assert_eq!(second.idf, vec![1]);
    let third = second.next_entry(&sector, 34).unwrap();
    assert_eq!(third.idf, b"X".to_vec());
    let end = third.next_entry(&sector, 68).unwrap();
    assert_eq!(end.idf_len, 0);
    assert_eq!(end.dir_size, 0);
    assert!(end.next_entry(&sector, 102).is_none());
}

#[test]
fn find_entry_returns_the_first_match() {
    let sector = directory(&[
        record(&[0], 20, 2048, 2),
        record(&[1], 20, 2048, 2),
        record(b"BOOT", 21, 2048, 2),
        record(b"README.TXT;1", 30, 100, 0),
        record(b"BOOT", 99, 1, 0),
    ]);
    let found = find_entry(&sector, b"BOOT").unwrap();
    assert_eq!(found.data_blk.le, 21);
    let readme = find_entry(&sector, b"README.TXT").unwrap();
    assert_eq!(readme.file_size.le, 100);
    assert!(find_entry(&sector, b"README.TXT;1").is_none());
    assert!(find_entry(&sector, b"MISSING").is_none());
    assert!(find_entry(&sector, b"").is_none());
    assert!(find_entry(&[], b"BOOT").is_none());
}

#[test]
fn a_zero_size_or_empty_name_ends_the_directory() {
    let mut sector = directory(&[record(b"A", 1, 1, 0), record(b"B", 2, 2, 0), record(b"C", 3, 3, 0)]);
    assert!(find_entry(&sector, b"C").is_some());
    sector[34 + 32] = 0;
    assert!(find_entry(&sector, b"C").is_none());
    assert!(find_entry(&sector, b"A").is_some());
    sector[34 + 32] = 1;
    sector[34] = 0;
    assert!(find_entry(&sector, b"B").is_none());
    assert!(find_entry(&sector, b"C").is_none());
}

#[test]
fn a_record_that_leaves_the_sector_ends_the_directory() {
    let mut sector = vec![0u8; 2048];
    let r = record(b"LAST", 7, 7, 0);
    let at = 2048 - r.len();
    let first = record(b"FIRST", 1, 1, 0);
    sector[..first.len()].copy_from_slice(&first);
    sector[0] = at as u8;
    assert!(at > 255);
    assert!(find_entry(&sector, b"LAST").is_none());
    let mut short = directory(&[record(b"FIRST", 1, 1, 0)]);
    short.truncate(60);
    short[0] = 200;
    assert!(find_entry(&short, b"FIRST").is_some());
    assert!(find_entry(&short, b"OTHER").is_none());
}

#[test]
fn volume_descriptor_is_decoded() {
    let sector = descriptor(20, 2048);
    let desc = IsoPrimVolDesc::parse(&sector).unwrap();
    assert!(desc.is_iso());
    assert_eq!(desc.vol_desc_type, 1);
    assert_eq!(&desc.std_identifier, b"CD001");
    assert_eq!(desc.vol_desc_version, 1);
    assert_eq!(desc.vol_blk_count, MultiEndian32 { le: 1000, be: 1000 });
    assert_eq!(desc.vol_set_size, MultiEndian16 { le: 1, be: 1 });
    assert_eq!(desc.vol_seq_num, MultiEndian16 { le: 1, be: 1 });
    assert_eq!(desc.vol_blk_size, MultiEndian16 { le: 2048, be: 2048 });
    assert_eq!(desc.path_table_size, MultiEndian32 { le: 10, be: 10 });
    assert_eq!(desc.le_path_table_blk, 18);
    assert_eq!(desc.le_opt_path_table_blk, 0);
    assert_eq!(desc.be_path_table_blk, 19);
    assert_eq!(desc.be_opt_path_table_blk, 0);
    assert_eq!(desc.root_dir.data_blk.le, 20);
    assert_eq!(desc.root_dir.file_size.le, 2048);
    assert!(desc.root_dir.has_type(IsoFileType::ISDIR));
    assert_eq!(desc.file_struct_version, 1);
}

#[test]
fn volume_descriptor_needs_a_whole_block_and_the_signature() {
    let mut sector = descriptor(20, 2048);
    assert!(IsoPrimVolDesc::parse(&sector[..2047]).is_none());
    sector[5] = b'2';
    assert!(!IsoPrimVolDesc::parse(&sector).unwrap().is_iso());
    sector[5] = b'1';
    sector[1] = b'c';
    assert!(!IsoPrimVolDesc::parse(&sector).unwrap().is_iso());
}

#[test]
fn sector_at_cuts_whole_blocks() {
    let mut medium = vec![0u8; 2048 * 3 + 100];
    for (i, b) in medium.iter_mut().enumerate() {
        *b = (i / 2048) as u8 + 1;
    }
    assert_eq!(sector_at(&medium, 0).unwrap(), &[1u8; 2048][..]);
    assert_eq!(sector_at(&medium, 2).unwrap(), &[3u8; 2048][..]);
    assert!(sector_at(&medium, 3).is_none());
    assert!(sector_at(&medium, u32::MAX).is_none());
    assert!(sector_at(&[], 0).is_none());
}

#[test]
fn bytes_equal_is_equality() {
    assert!(bytes_equal(b"", b""));
    assert!(bytes_equal(b"abc", b"abc"));
    assert!(!bytes_equal(b"abc", b"abd"));
    assert!(!bytes_equal(b"abc", b"ab"));
    assert!(!bytes_equal(b"", b"a"));
}
