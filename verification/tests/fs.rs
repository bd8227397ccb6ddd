use julios::fd::FDId;
use julios::fd::FDTable;
use julios::fd::FDt;
use julios::fd::FileDescriptor;
use julios::fs::iso::fd::IsoFD;
use julios::fs::iso::fd::ReadStep;
use julios::fs::iso::open_record;
use julios::fs::iso::fd::SEEK_CUR;
use julios::fs::iso::fd::SEEK_END;
use julios::fs::iso::fd::SEEK_SET;
use julios::fs::iso::iso9660::IsoDir;
use julios::fs::iso::IsoFS;
use julios::fs::iso::IsoOpen;
use julios::fs::iso::OpenError;
use julios::fs::iso::OpenStep;
use julios::fs::iso::O_RDONLY;
use julios::fs::path::split_path;
use julios::fs::FSt;
use julios::fs::FileSystem;
use julios::fs::VirtualFS;

const CONTENT: &[u8; 47] = b"set timeout=0\nmenuentry \"julios\" { boot }\n#end\n";

fn record(name: &[u8], lba: u32, size: u32, flags: u8) -> Vec<u8> {
    let mut len = 33 + name.len();
    if len % 2 == 1 {
        len += 1;
    }
    let mut r = vec![0u8; len];
    r[0] = len as u8;
    r[2..6].copy_from_slice(&lba.to_le_bytes());
    r[6..10].copy_from_slice(&lba.to_be_bytes());
    r[10..14].copy_from_slice(&size.to_le_bytes());
    r[14..18].copy_from_slice(&size.to_be_bytes());
    r[25] = flags;
    r[28..30].copy_from_slice(&1u16.to_le_bytes());
    r[30..32].copy_from_slice(&1u16.to_be_bytes());
    r[32] = name.len() as u8;
    r[33..33 + name.len()].copy_from_slice(name);
    r
}

fn put(medium: &mut Vec<u8>, lba: usize, bytes: &[u8]) {
    medium[lba * 2048..lba * 2048 + bytes.len()].copy_from_slice(bytes);
}

fn put_directory(medium: &mut Vec<u8>, lba: usize, records: &[Vec<u8>]) {
    let mut at = lba * 2048;
    for r in records {
        medium[at..at + r.len()].copy_from_slice(r);
        at += r.len();
    }
}

fn big_file() -> Vec<u8> {
    (0..5000u32).map(|i| (i * 7 + i / 256) as u8).collect()
}

/// A volume with /BOOT/GRUB/GRUB.CFG (47 bytes at block 23), /BIG.BIN (5000
/// bytes from block 24 on) and /NOTES.TXT (a file, block 27).
fn volume() -> Vec<u8> {
    let mut medium = vec![0u8; 2048 * 28];
    medium[16 * 2048] = 1;
    put(&mut medium, 16, &[1, b'C', b'D', b'0', b'0', b'1', 1]);
    let root = record(&[0], 20, 2048, 2);
    medium[16 * 2048 + 156..16 * 2048 + 156 + root.len()].copy_from_slice(&root);
    put_directory(
        &mut medium,
        20,
        &[
            record(&[0], 20, 2048, 2),
            record(&[1], 20, 2048, 2),
            record(b"BIG.BIN;1", 24, 5000, 0),
            record(b"BOOT", 21, 2048, 2),
            record(b"NOTES.TXT;1", 27, 5, 0),
        ],
    );
    put_directory(
        &mut medium,
        21,
        &[record(&[0], 21, 2048, 2), record(&[1], 20, 2048, 2), record(b"GRUB", 22, 2048, 2)],
    );
    put_directory(
        &mut medium,
        22,
        &[record(&[0], 22, 2048, 2), record(&[1], 21, 2048, 2), record(b"GRUB.CFG;1", 23, 47, 0)],
    );
    put(&mut medium, 23, CONTENT);
    put(&mut medium, 24, &big_file());
    put(&mut medium, 27, b"notes");
    medium
}

fn iso_fd(table: &FDTable, id: FDId) -> IsoFD {
    match table.get(id).unwrap() {
        FDt::Iso(fd) => fd,
    }
}

fn names(path: &str) -> Vec<String> {
    split_path(path)
}

#[test]
fn split_path_drops_empty_pieces() {
    assert_eq!(names("/mnt/iso//boot/grub//grub.cfg"), vec!["mnt", "iso", "boot", "grub", "grub.cfg"]);
    assert_eq!(names(""), Vec::<String>::new());
    assert_eq!(names("/"), Vec::<String>::new());
    assert_eq!(names("////"), Vec::<String>::new());
    assert_eq!(names("a"), vec!["a"]);
    assert_eq!(names("a/"), vec!["a"]);
    assert_eq!(names("/a"), vec!["a"]);
    assert_eq!(names("a//b"), vec!["a", "b"]);
    assert_eq!(names("é/ü/"), vec!["é", "ü"]);
}

#[test]
fn split_path_of_extra_slashes_equals_canonical_form() {
    for (messy, clean) in [
        ("/mnt/iso//boot/grub//grub.cfg", "/mnt/iso/boot/grub/grub.cfg"),
        ("//a///b/", "/a/b"),
        ("a/b//", "/a/b"),
        ("/", ""),
    ] {
        assert_eq!(names(messy), names(clean));
    }
}

#[test]
fn open_file_and_read_it() {
    let medium = volume();
    let mut vfs = VirtualFS::new();
    let mut fds = FDTable::new();
    let id = vfs.open(&medium, &mut fds, "/mnt/iso//boot/grub//grub.cfg", O_RDONLY).unwrap();
    let fd = iso_fd(&fds, id);
    assert_eq!(fd.lba(), 23);
    assert_eq!(fd.size(), 47);
    assert_eq!(fd.offset(), 0);
    assert_eq!(fd.get_fd(), id);
    let mut buf = vec![0xeeu8; 100];
    assert_eq!(fds.read(id, &medium, &mut buf, 100), 47);
    assert_eq!(&buf[..47], &medium[23 * 2048..23 * 2048 + 47]);
    assert_eq!(&buf[..47], &CONTENT[..]);
    assert_eq!(&buf[47..], &[0xeeu8; 53][..]);
    assert_eq!(iso_fd(&fds, id).offset(), 47);
}

#[test]
fn seek_and_read_again() {
    let medium = volume();
    let mut vfs = VirtualFS::new();
    let mut fds = FDTable::new();
    let id = vfs.open(&medium, &mut fds, "/mnt/iso//boot/grub//grub.cfg", O_RDONLY).unwrap();
    let mut buf = vec![0u8; 100];
    assert_eq!(fds.read(id, &medium, &mut buf, 100), 47);
    assert_eq!(fds.lseek(id, 10, SEEK_SET), 10);
    let mut again = vec![0u8; 100];
    assert_eq!(fds.read(id, &medium, &mut again, 100), 37);
    assert_eq!(&again[..37], &CONTENT[10..47]);
    assert!(fds.close(id));
    assert!(fds.get(id).is_none());
}

#[test]
fn volume_descriptor_acceptance() {
    let medium = volume();
    assert_eq!(medium[16 * 2048], 0x01);
    assert_eq!(&medium[16 * 2048 + 1..16 * 2048 + 6], &[0x43, 0x44, 0x30, 0x30, 0x31]);
    let mut fs = IsoFS {};
    let mut fds = FDTable::new();
    assert_eq!(fs.open(&medium, &mut fds, "/anything_missing", O_RDONLY), None);
    let boot = fs.open(&medium, &mut fds, "/BOOT", O_RDONLY).unwrap();
    assert_eq!(iso_fd(&fds, boot).lba(), 21);
    let mut without = medium.clone();
    let at = 20 * 2048 + 34 + 34 + 42;
    assert_eq!(&without[at + 33..at + 37], b"BOOT");
    without[at + 33] = b'R';
    assert_eq!(fs.open(&without, &mut fds, "/BOOT", O_RDONLY), None);
    assert_eq!(fs.open(&without, &mut fds, "/BOOT/GRUB", O_RDONLY), None);
}

#[test]
fn a_volume_without_signature_is_rejected() {
    let mut medium = volume();
    medium[16 * 2048 + 3] = b'X';
    let mut fs = IsoFS {};
    let mut fds = FDTable::new();
    assert_eq!(fs.open(&medium, &mut fds, "/BOOT", O_RDONLY), None);
    assert_eq!(fs.resolve(&medium, "/BOOT", O_RDONLY).unwrap_err(), OpenError::NotIso);
}

#[test]
fn every_open_error_has_its_input() {
    let medium = volume();
    let fs = IsoFS {};
    assert_eq!(fs.resolve(&medium, "/BOOT", 1).unwrap_err(), OpenError::NotReadOnly);
    assert_eq!(fs.resolve(&medium, "/BOOT", 0x40).unwrap_err(), OpenError::NotReadOnly);
    assert_eq!(fs.resolve(&medium[..2048 * 16], "/BOOT", O_RDONLY).unwrap_err(), OpenError::Unreadable);
    assert_eq!(fs.resolve(&medium[..2048 * 20], "/BOOT", O_RDONLY).unwrap_err(), OpenError::Unreadable);
    assert_eq!(fs.resolve(&medium, "/NOPE", O_RDONLY).unwrap_err(), OpenError::NotFound);
    assert_eq!(fs.resolve(&medium, "/BOOT/NOPE/X", O_RDONLY).unwrap_err(), OpenError::NotFound);
    assert_eq!(
        fs.resolve(&medium, "/NOTES.TXT/X", O_RDONLY).unwrap_err(),
        OpenError::NotADirectory
    );
    let (mut walk, first) = IsoOpen::new("/BOOT", 7);
    assert!(matches!(first, OpenStep::Failed(OpenError::NotReadOnly)));
    assert!(matches!(walk.advance(&medium[..2048]), OpenStep::Failed(OpenError::Finished)));
}

#[test]
fn the_walk_asks_for_one_block_per_name() {
    let medium = volume();
    let (mut walk, first) = IsoOpen::new("/boot/grub/grub.cfg", O_RDONLY);
    let mut asked = Vec::new();
    let mut step = first;
    let found: IsoDir = loop {
        match step {
            OpenStep::Read(lba) => {
                asked.push(lba);
                let at = lba as usize * 2048;
                step = walk.advance(&medium[at..at + 2048]);
            }
            OpenStep::Found(record) => break record,
            OpenStep::Failed(e) => panic!("{:?}", e),
        }
    };
    assert_eq!(asked, vec![16, 20, 21, 22]);
    assert_eq!(found.data_blk.le, 23);
    assert_eq!(found.file_size.le, 47);
    assert!(matches!(walk.advance(&medium[..2048]), OpenStep::Failed(OpenError::Finished)));
}

#[test]
fn a_path_without_names_gives_the_first_record_of_the_root() {
    let medium = volume();
    let fs = IsoFS {};
    for path in ["", "/", "//"] {
        let root = fs.resolve(&medium, path, O_RDONLY).unwrap();
        assert_eq!(root.idf, vec![0]);
        assert_eq!(root.data_blk.le, 20);
    }
}

#[test]
fn the_last_name_may_be_a_file_or_a_directory() {
    let medium = volume();
    let fs = IsoFS {};
    assert_eq!(fs.resolve(&medium, "/boot/grub", O_RDONLY).unwrap().data_blk.le, 22);
    assert_eq!(fs.resolve(&medium, "/notes.txt", O_RDONLY).unwrap().data_blk.le, 27);
    assert_eq!(fs.resolve(&medium, "/BOOT/BOOT", O_RDONLY).unwrap_err(), OpenError::NotFound);
}

#[test]
fn extra_slashes_do_not_change_what_is_opened() {
    let medium = volume();
    let fs = IsoFS {};
    let plain = fs.resolve(&medium, "/boot/grub/grub.cfg", O_RDONLY).unwrap();
    for path in [
        "boot/grub/grub.cfg",
        "//boot/grub/grub.cfg",
        "/boot//grub/grub.cfg",
        "/boot/grub//grub.cfg/",
        "///boot///grub///grub.cfg///",
    ] {
        assert_eq!(fs.resolve(&medium, path, O_RDONLY).unwrap(), plain);
    }
}

#[test]
fn the_case_of_a_path_does_not_count() {
    let medium = volume();
    let fs = IsoFS {};
    let plain = fs.resolve(&medium, "/BOOT/GRUB/GRUB.CFG", O_RDONLY).unwrap();
    for path in ["/boot/grub/grub.cfg", "/Boot/Grub/Grub.Cfg", "/bOOt/gRUB/grub.CFG"] {
        assert_eq!(fs.resolve(&medium, path, O_RDONLY).unwrap(), plain);
    }
}

#[test]
fn a_name_in_lower_case_on_the_disc_is_not_found() {
    let mut medium = volume();
    let at = 20 * 2048 + 34 + 34 + 42 + 33;
    assert_eq!(&medium[at..at + 4], b"BOOT");
    medium[at..at + 4].copy_from_slice(b"boot");
    let fs = IsoFS {};
    assert_eq!(fs.resolve(&medium, "/boot", O_RDONLY).unwrap_err(), OpenError::NotFound);
    assert_eq!(fs.resolve(&medium, "/BOOT", O_RDONLY).unwrap_err(), OpenError::NotFound);
}

#[test]
fn reopening_gives_a_new_identifier_for_the_same_file() {
    let medium = volume();
    let mut vfs = VirtualFS::new();
    let mut fds = FDTable::new();
    let first = vfs.open(&medium, &mut fds, "/boot/grub/grub.cfg", O_RDONLY).unwrap();
    let a = iso_fd(&fds, first);
    assert!(fds.close(first));
    assert!(!fds.close(first));
    let second = vfs.open(&medium, &mut fds, "/boot/grub/grub.cfg", O_RDONLY).unwrap();
    let b = iso_fd(&fds, second);
    assert_ne!(first, second);
    assert_eq!((a.lba(), a.size()), (b.lba(), b.size()));
    assert_eq!(first, FDId(0));
    assert_eq!(second, FDId(1));
    assert!(fds.get(first).is_none());
}

#[test]
fn a_failed_open_takes_no_identifier() {
    let medium = volume();
    let mut vfs = VirtualFS::new();
    let mut fds = FDTable::new();
    assert_eq!(vfs.open(&medium, &mut fds, "/nope", O_RDONLY), None);
    assert_eq!(vfs.open(&medium, &mut fds, "/boot", 2), None);
    assert_eq!(vfs.open(&medium, &mut fds, "/boot", O_RDONLY), Some(FDId(0)));
}

#[test]
fn identifiers_count_up_and_wrap() {
    let mut counter = 0u32;
    assert_eq!(FDId::new(&mut counter), FDId(0));
    assert_eq!(FDId::new(&mut counter), FDId(1));
    assert_eq!(counter, 2);
    counter = u32::MAX;
    assert_eq!(FDId::new(&mut counter), FDId(u32::MAX));
    assert_eq!(counter, 0);
    let mut fds = FDTable::new();
    assert_eq!(fds.allocate(), FDId(0));
    assert_eq!(fds.allocate(), FDId(1));
}

#[test]
fn reading_at_the_end_returns_nothing() {
    let medium = volume();
    let mut fs = IsoFS {};
    let mut fds = FDTable::new();
    let id = fs.open(&medium, &mut fds, "/boot/grub/grub.cfg", O_RDONLY).unwrap();
    assert_eq!(fds.lseek(id, 0, SEEK_END), 47);
    let mut buf = vec![7u8; 16];
    assert_eq!(fds.read(id, &medium, &mut buf, 16), 0);
    assert_eq!(buf, vec![7u8; 16]);
    assert_eq!(iso_fd(&fds, id).offset(), 47);
    assert_eq!(fds.lseek(id, 0, SEEK_SET), 0);
    assert_eq!(fds.read(id, &medium, &mut buf, 0), 0);
}

#[test]
fn a_read_across_sectors_is_contiguous() {
    let medium = volume();
    let big = big_file();
    let mut fs = IsoFS {};
    let mut fds = FDTable::new();
    let id = fs.open(&medium, &mut fds, "/big.bin", O_RDONLY).unwrap();
    let mut buf = vec![0u8; 6000];
    assert_eq!(fds.lseek(id, 2000, SEEK_SET), 2000);
    assert_eq!(fds.read(id, &medium, &mut buf, 100), 100);
    assert_eq!(&buf[..100], &big[2000..2100]);
    assert_eq!(fds.read(id, &medium, &mut buf, 6000), 2900);
    assert_eq!(&buf[..2900], &big[2100..5000]);
    assert_eq!(fds.read(id, &medium, &mut buf, 1), 0);
    assert_eq!(fds.lseek(id, 0, SEEK_SET), 0);
    assert_eq!(fds.read(id, &medium, &mut buf, 5000), 5000);
    assert_eq!(&buf[..5000], &big[..]);
    assert_eq!(fds.lseek(id, 2047, SEEK_SET), 2047);
    assert_eq!(fds.read(id, &medium, &mut buf, 2), 2);
    assert_eq!(&buf[..2], &big[2047..2049]);
    assert_eq!(fds.read(id, &medium, &mut buf, 2048), 2048);
    assert_eq!(&buf[..2048], &big[2049..4097]);
}

#[test]
fn a_read_stops_where_the_medium_ends() {
    let medium = volume();
    let big = big_file();
    let mut fs = IsoFS {};
    let mut fds = FDTable::new();
    let id = fs.open(&medium, &mut fds, "/big.bin", O_RDONLY).unwrap();
    let cut = &medium[..2048 * 25 + 10];
    let mut buf = vec![0u8; 6000];
    assert_eq!(fds.read(id, cut, &mut buf, 6000), 2048);
    assert_eq!(&buf[..2048], &big[..2048]);
    assert_eq!(fds.read(id, cut, &mut buf, 6000), -1);
    assert_eq!(iso_fd(&fds, id).offset(), 2048);
    assert_eq!(fds.read(id, &medium, &mut buf, 6000), 2952);
}

#[test]
fn write_is_refused() {
    let medium = volume();
    let mut fs = IsoFS {};
    let mut fds = FDTable::new();
    let id = fs.open(&medium, &mut fds, "/notes.txt", O_RDONLY).unwrap();
    assert_eq!(fds.write(id, b"hello", 5), -1);
    assert_eq!(fds.write(FDId(99), b"hello", 5), -1);
    let mut fd = iso_fd(&fds, id);
    assert_eq!(fd.write(b"x", 1), -1);
    assert_eq!(fd.offset(), 0);
    let mut any = FDt::Iso(fd);
    assert_eq!(any.write(b"", 0), -1);
    assert_eq!(any.get_fd(), id);
}

#[test]
fn lseek_clamps_to_the_file() {
    let medium = volume();
    let mut fs = IsoFS {};
    let mut fds = FDTable::new();
    let id = fs.open(&medium, &mut fds, "/boot/grub/grub.cfg", O_RDONLY).unwrap();
    assert_eq!(fds.lseek(id, 10, SEEK_SET), 10);
    assert_eq!(fds.lseek(id, 10, SEEK_SET), 10);
    assert_eq!(fds.lseek(id, 5, SEEK_CUR), 15);
    assert_eq!(fds.lseek(id, -20, SEEK_CUR), 0);
    assert_eq!(fds.lseek(id, 100, SEEK_CUR), 47);
    assert_eq!(fds.lseek(id, -7, SEEK_END), 40);
    assert_eq!(fds.lseek(id, 1, SEEK_END), 47);
    assert_eq!(fds.lseek(id, -1, SEEK_SET), 0);
    assert_eq!(fds.lseek(id, i64::MAX, SEEK_CUR), 47);
    assert_eq!(fds.lseek(id, i64::MIN, SEEK_END), 0);
    assert_eq!(fds.lseek(id, 48, SEEK_SET), 47);
    assert_eq!(fds.lseek(id, 3, 3), -1);
    assert_eq!(iso_fd(&fds, id).offset(), 47);
    assert_eq!(fds.lseek(FDId(5), 0, SEEK_SET), -1);
}

#[test]
fn operations_on_a_closed_descriptor_fail() {
    let medium = volume();
    let mut fs = IsoFS {};
    let mut fds = FDTable::new();
    let id = fs.open(&medium, &mut fds, "/notes.txt", O_RDONLY).unwrap();
    let other = fs.open(&medium, &mut fds, "/big.bin", O_RDONLY).unwrap();
    assert!(fds.unregister_fd(id).is_some());
    assert!(fds.unregister_fd(id).is_none());
    let mut buf = vec![1u8; 8];
    assert_eq!(fds.read(id, &medium, &mut buf, 8), -1);
    assert_eq!(buf, vec![1u8; 8]);
    assert_eq!(fds.read(other, &medium, &mut buf, 8), 8);
    assert_eq!(iso_fd(&fds, other).offset(), 8);
}

#[test]
fn descriptors_do_not_disturb_each_other() {
    let medium = volume();
    let mut fs = IsoFS {};
    let mut fds = FDTable::new();
    let a = fs.open(&medium, &mut fds, "/notes.txt", O_RDONLY).unwrap();
    let b = fs.open(&medium, &mut fds, "/notes.txt", O_RDONLY).unwrap();
    let mut buf = vec![0u8; 8];
    assert_eq!(fds.read(a, &medium, &mut buf, 2), 2);
    assert_eq!(&buf[..2], b"no");
    assert_eq!(fds.read(b, &medium, &mut buf, 8), 5);
    assert_eq!(&buf[..5], b"notes");
    assert_eq!(fds.read(a, &medium, &mut buf, 8), 3);
    assert_eq!(&buf[..3], b"tes");
    let mut copy = iso_fd(&fds, a);
    assert_eq!(copy.next_block(1), None);
    assert_eq!(copy.lseek(0, SEEK_SET), 0);
    assert_eq!(copy.next_block(1), Some(27));
    assert_eq!(copy.next_block(0), None);
    let mut out = vec![0u8; 4];
    assert_eq!(copy.copy_from(&medium[27 * 2048..28 * 2048], &mut out, 1, 3), 3);
    assert_eq!(out, vec![0, b'n', b'o', b't']);
}

#[test]
fn the_mount_table_takes_the_longest_mount() {
    let vfs = VirtualFS::new();
    assert_eq!(vfs.resolve("/mnt/iso//boot/grub//grub.cfg"), Some((1, "/boot/grub/grub.cfg".to_string())));
    assert_eq!(vfs.resolve("/mnt/iso"), Some((1, "".to_string())));
    assert_eq!(vfs.resolve("/mnt/iso/"), Some((1, "".to_string())));
    assert_eq!(vfs.resolve("/mnt"), Some((0, "/mnt".to_string())));
    assert_eq!(vfs.resolve("/mnt/isolated/x"), Some((0, "/mnt/isolated/x".to_string())));
    assert_eq!(vfs.resolve("/boot"), Some((0, "/boot".to_string())));
    assert_eq!(vfs.resolve(""), Some((0, "".to_string())));
}

#[test]
fn without_a_mount_nothing_is_opened() {
    let medium = volume();
    let mut vfs = VirtualFS::empty();
    let mut fds = FDTable::new();
    assert_eq!(vfs.resolve("/boot"), None);
    assert_eq!(vfs.resolve(""), None);
    assert_eq!(vfs.open(&medium, &mut fds, "/boot", O_RDONLY), None);
    vfs.mount("/cd", FSt::Iso(IsoFS {}));
    assert_eq!(vfs.resolve("/boot"), None);
    assert_eq!(vfs.resolve("/cd/boot"), Some((0, "/boot".to_string())));
    assert_eq!(vfs.open(&medium, &mut fds, "/boot", O_RDONLY), None);
    assert_eq!(vfs.open(&medium, &mut fds, "/cd/boot/grub/grub.cfg", O_RDONLY), Some(FDId(0)));
}

#[test]
fn mounting_again_replaces_the_mount() {
    let mut vfs = VirtualFS::empty();
    vfs.mount("/a/b", FSt::Iso(IsoFS {}));
    vfs.mount("/a", FSt::Iso(IsoFS {}));
    vfs.mount("a//b/", FSt::Iso(IsoFS {}));
    assert_eq!(vfs.resolve("/a/b/c"), Some((2, "/c".to_string())));
    assert_eq!(vfs.resolve("/a/c"), Some((1, "/c".to_string())));
    assert_eq!(vfs.resolve("/b"), None);
}

#[test]
fn a_read_asks_for_one_block_after_the_other() {
    let medium = volume();
    let big = big_file();
    let mut fs = IsoFS {};
    let mut fds = FDTable::new();
    let id = fs.open(&medium, &mut fds, "/big.bin", O_RDONLY).unwrap();
    assert_eq!(fds.lseek(id, 2040, SEEK_SET), 2040);
    let fd = iso_fd(&fds, id);
    let mut read = fd.begin_read(2100);
    let mut buf = vec![0u8; 2100];
    assert_eq!(read.step(), ReadStep::Read(24));
    assert_eq!(read.advance(Some(&medium[24 * 2048..25 * 2048]), &mut buf), ReadStep::Read(25));
    assert_eq!(read.descriptor().offset(), 2048);
    assert_eq!(read.advance(Some(&medium[25 * 2048..26 * 2048]), &mut buf), ReadStep::Read(26));
    assert_eq!(read.advance(Some(&medium[26 * 2048..27 * 2048]), &mut buf), ReadStep::Done(2100));
    assert_eq!(read.advance(None, &mut buf), ReadStep::Done(2100));
    assert_eq!(read.descriptor().offset(), 4140);
    assert_eq!(&buf[..], &big[2040..4140]);
}

#[test]
fn a_block_that_cannot_be_read_ends_the_read() {
    let medium = volume();
    let big = big_file();
    let mut fs = IsoFS {};
    let mut fds = FDTable::new();
    let id = fs.open(&medium, &mut fds, "/big.bin", O_RDONLY).unwrap();
    let fd = iso_fd(&fds, id);
    let mut none = fd.begin_read(10);
    let mut buf = vec![9u8; 4096];
    assert_eq!(none.advance(None, &mut buf), ReadStep::Done(-1));
    assert_eq!(none.step(), ReadStep::Done(-1));
    assert_eq!(none.descriptor().offset(), 0);
    assert_eq!(buf, vec![9u8; 4096]);
    let mut some = fd.begin_read(4096);
    assert_eq!(some.advance(Some(&medium[24 * 2048..25 * 2048]), &mut buf), ReadStep::Read(25));
    assert_eq!(some.advance(None, &mut buf), ReadStep::Done(2048));
    assert_eq!(some.advance(Some(&medium[25 * 2048..26 * 2048]), &mut buf), ReadStep::Done(2048));
    assert_eq!(&buf[..2048], &big[..2048]);
    assert_eq!(&buf[2048..], &[9u8; 2048][..]);
    let empty = fd.begin_read(0);
    assert_eq!(empty.step(), ReadStep::Done(0));
}

#[test]
fn a_record_is_opened_under_the_next_identifier() {
    let medium = volume();
    let fs = IsoFS {};
    let record = fs.resolve(&medium, "/notes.txt", O_RDONLY).unwrap();
    let mut fds = FDTable::new();
    assert_eq!(open_record(&record, &mut fds), FDId(0));
    assert_eq!(open_record(&record, &mut fds), FDId(1));
    let fd = iso_fd(&fds, FDId(1));
    assert_eq!((fd.get_fd(), fd.lba(), fd.size(), fd.offset()), (FDId(1), 27, 5, 0));
}
