use megos::fs::filesys::{
    ErrorKind, FileManager, FileType, FsDriver, FsRawDirEntry, FsRawFileControlBlock,
    FsRawMetaData, FsRawReadDir, INodeType, OffsetType, Whence,
};
use megos::text::{decimal, push_decimal};

struct Ram;

impl FsDriver for Ram {
    fn root_dir(&self) -> INodeType {
        INodeType(1)
    }

    fn read_dir(&self, dir: INodeType, index: usize) -> Option<FsRawDirEntry> {
        if dir == INodeType(1) && index < 2 {
            Some(FsRawDirEntry::new(INodeType(10 + index as u64), ["a", "b"][index], None))
        } else {
            None
        }
    }

    fn find_file(&self, dir: INodeType, name: &str) -> Result<INodeType, ErrorKind> {
        match (dir.get(), name) {
            (1, "bin") => Ok(INodeType(2)),
            (2, "sh") => Ok(INodeType(3)),
            _ => Err(ErrorKind::NotFound),
        }
    }

    fn open(&self, inode: INodeType) -> Result<INodeType, ErrorKind> {
        Ok(inode)
    }

    fn close(&self, _inode: INodeType) -> Result<(), ErrorKind> {
        Ok(())
    }

    fn stat(&self, inode: INodeType) -> Option<FsRawMetaData> {
        if inode == INodeType(3) {
            Some(FsRawMetaData::new(FileType::File, 100))
        } else {
            None
        }
    }

    fn read_data(
        &self,
        _inode: INodeType,
        offset: OffsetType,
        buf: &mut [u8],
    ) -> Result<usize, ErrorKind> {
        if offset >= 100 {
            return Err(ErrorKind::InvalidInput);
        }
        if let Some(last) = buf.last_mut() {
            *last = 7;
        }
        Ok(40)
    }

    fn write_data(
        &self,
        _inode: INodeType,
        _offset: OffsetType,
        buf: &[u8],
    ) -> Result<usize, ErrorKind> {
        Ok(buf.len())
    }
}

fn canonical(path: &str) -> String {
    FileManager::<Ram>::canonical_path(path).unwrap()
}

#[test]
fn canonical_paths() {
    assert_eq!(canonical(""), "/");
    assert_eq!(canonical("/"), "/");
    assert_eq!(canonical("a"), "/a");
    assert_eq!(canonical("/a/b/c"), "/a/b/c");
    assert_eq!(canonical("//a///b/"), "/a/b");
    assert_eq!(canonical("/a/./b/."), "/a/b");
    assert_eq!(canonical("/a/b/../c"), "/a/c");
    assert_eq!(canonical("/a/../../.."), "/");
    assert_eq!(canonical("../x"), "/x");
    assert_eq!(canonical("/a/.../b"), "/a/.../b");
    assert_eq!(canonical("/a/..b/.c"), "/a/..b/.c");
    assert_eq!(canonical("/日本/語/../x"), "/日本/x");
}

#[test]
fn canonical_components_with_prefix_and_domain() {
    let c = |domain: &str, prefix: &str, path: &str| {
        FileManager::<Ram>::_canonical_path_components(domain, prefix, path)
    };
    assert_eq!(c("", "/home/me", "docs/x.txt"), Ok(vec!["home".into(), "me".into(), "docs".into(), "x.txt".into()]));
    assert_eq!(c("", "/home/me", "/etc"), Ok(vec![String::from("etc")]));
    assert_eq!(c("", "/home/me", "../you"), Ok(vec!["home".into(), "you".into()]));
    assert_eq!(c("/home", "/home/me", "../../etc"), Err(ErrorKind::PermissionDenied));
    assert_eq!(c("/home", "/home/me", ".."), Ok(vec![String::from("home")]));
    assert_eq!(c("/", "", ""), Ok(vec![]));
    let parts = vec![String::from("a"), String::from("b")];
    assert_eq!(FileManager::<Ram>::_join_path(&parts), "/a/b");
    assert_eq!(FileManager::<Ram>::_join_path(&vec![]), "/");
}

#[test]
fn files_through_a_driver() {
    let mut fm = FileManager::<Ram>::new();
    assert_eq!(fm.open("/bin/sh").err(), Some(ErrorKind::NotConnected));
    assert_eq!(fm.read_dir("/").err(), Some(ErrorKind::NotConnected));
    fm.rootfs = Some(Ram);
    let fs = Ram;
    assert_eq!(fm.open("/bin/ls").err(), Some(ErrorKind::NotFound));
    assert_eq!(fm.open("/bin").err(), Some(ErrorKind::InvalidData));
    let mut file = fm.open("/usr/../bin/./sh").unwrap();
    assert_eq!(file, FsRawFileControlBlock { inode: INodeType(3), file_pos: 0, file_size: 100 });
    let mut buf: Vec<u8> = Vec::new();
    assert_eq!(file.read(&fs, &mut buf), Ok(40));
    assert_eq!(file.file_pos, 40);
    assert_eq!(file.write(&fs, &vec![1, 2, 3]), Ok(3));
    assert_eq!(file.file_pos, 43);
    assert_eq!(file.lseek(-10, Whence::SeekEnd), 90);
    assert_eq!(file.lseek(15, Whence::SeekCur), 105);
    assert_eq!(file.read(&fs, &mut buf), Err(ErrorKind::InvalidInput));
    assert_eq!(file.file_pos, 105);
    assert_eq!(file.lseek(5, Whence::SeekSet), 5);
    let mut rest = vec![1, 2, 3];
    assert_eq!(file.read_to_end(&fs, &mut rest), Ok(40));
    assert_eq!(rest.len(), 40);
    assert_eq!(&rest[..3], &[1, 2, 3]);
    assert_eq!(file.file_pos, 45);
    assert_eq!(file.lseek(5, Whence::SeekSet), 5);
    assert_eq!(file.stat(&fs), Some(FsRawMetaData { file_type: FileType::File, len: 100 }));
    assert_eq!(file.stat(&fs).unwrap().len(), 100);
    assert_eq!(file.stat(&fs).unwrap().file_type(), FileType::File);
    let mut dir = fm.read_dir("/").unwrap();
    assert_eq!(dir, FsRawReadDir { dir: INodeType(1), index: 0 });
    let first = dir.next(&fs).unwrap();
    assert_eq!(first.name(), "a");
    assert_eq!(first.inode(), INodeType(10));
    assert!(first.metadata().is_none());
    assert_eq!(first.into_metadata(), None);
    assert_eq!(dir.next(&fs).unwrap().name(), "b");
    assert!(dir.next(&fs).is_none());
    assert_eq!(dir.index, 2);
}

#[test]
fn inode_numbers_and_whence() {
    assert_eq!(INodeType::new(0), None);
    assert_eq!(INodeType::new(7).map(|i| i.get()), Some(7));
    assert_eq!(INodeType::new_unchecked(9), INodeType(9));
    assert_eq!(Whence::from_usize(0), Whence::SeekSet);
    assert_eq!(Whence::from_usize(1), Whence::SeekCur);
    assert_eq!(Whence::from_usize(2), Whence::SeekEnd);
    assert_eq!(Whence::from_usize(3), Whence::SeekSet);
}

#[test]
fn decimal_text() {
    assert_eq!(decimal(0), vec!['0']);
    assert_eq!(decimal(1907), vec!['1', '9', '0', '7']);
    let mut s = String::from("x");
    push_decimal(&mut s, 7, 3, ' ');
    push_decimal(&mut s, 5, 2, '0');
    push_decimal(&mut s, 12345, 2, '0');
    push_decimal(&mut s, 0, 0, ' ');
    assert_eq!(s, "x  705123450");
}

#[test]
fn driver_answers_move_the_position() {
    let mut file = FsRawFileControlBlock::new(INodeType(3), 100);
    assert_eq!(file.transferred(Ok(30)), Ok(30));
    assert_eq!(file.file_pos, 30);
    assert_eq!(file.transferred(Err(ErrorKind::NotFound)), Err(ErrorKind::NotFound));
    assert_eq!(file, FsRawFileControlBlock { inode: INodeType(3), file_pos: 30, file_size: 100 });
    assert_eq!(file.transferred(Ok(0)), Ok(0));
    assert_eq!(file.file_pos, 30);
    file.file_pos = OffsetType::MAX;
    assert_eq!(file.transferred(Ok(1)), Ok(1));
    assert_eq!(file.file_pos, OffsetType::MIN);

    let mut dir = FsRawReadDir::new(INodeType(1));
    assert!(dir.took(None).is_none());
    assert_eq!(dir.index, 0);
    let entry = FsRawDirEntry::new(INodeType(9), "x", None);
    assert_eq!(dir.took(Some(entry)).map(|e| e.inode()), Some(INodeType(9)));
    assert_eq!(dir, FsRawReadDir { dir: INodeType(1), index: 1 });

    assert_eq!(
        FsRawFileControlBlock::opened(INodeType(3), Some(FsRawMetaData::new(FileType::File, 64))),
        Ok(FsRawFileControlBlock { inode: INodeType(3), file_pos: 0, file_size: 64 })
    );
    assert_eq!(FsRawFileControlBlock::opened(INodeType(3), None), Err(ErrorKind::InvalidData));
}

#[test]
fn read_to_end_sizes_the_buffer() {
    let mut cut = vec![1, 2, 3, 4, 5];
    assert_eq!(FsRawFileControlBlock::fitted(&mut cut, Ok(2)), Ok(2));
    assert_eq!(cut, vec![1, 2]);
    assert_eq!(FsRawFileControlBlock::fitted(&mut cut, Ok(4)), Ok(4));
    assert_eq!(cut, vec![1, 2, 0, 0]);
    assert_eq!(
        FsRawFileControlBlock::fitted(&mut cut, Err(ErrorKind::NotFound)),
        Err(ErrorKind::NotFound)
    );
    assert_eq!(cut, vec![1, 2, 0, 0]);

    let fs = Ram;
    let mut file = FsRawFileControlBlock::new(INodeType(3), 100);
    assert_eq!(file.lseek(90, Whence::SeekSet), 90);
    let mut short = vec![9];
    assert_eq!(file.read_to_end(&fs, &mut short), Ok(40));
    assert_eq!(short.len(), 40);
    assert_eq!(short[0], 9);
    assert_eq!(short[9], 7);
    assert_eq!(short[10], 0);
    assert_eq!(file.file_pos, 130);

    let mut file = FsRawFileControlBlock::new(INodeType(3), 120);
    assert_eq!(file.lseek(100, Whence::SeekSet), 100);
    let mut failed = vec![9];
    assert_eq!(file.read_to_end(&fs, &mut failed), Err(ErrorKind::InvalidInput));
    assert_eq!(failed.len(), 20);
    assert_eq!(failed[0], 9);
    assert_eq!(file.file_pos, 100);

    let mut buf = [0u8; 8];
    let mut file = FsRawFileControlBlock::new(INodeType(3), 100);
    assert_eq!(file.read(&fs, &mut buf), Ok(40));
    assert_eq!(buf, [0, 0, 0, 0, 0, 0, 0, 7]);
}

#[test]
fn root_directory_needs_no_lookup() {
    let mut fm = FileManager::<Ram>::new();
    assert_eq!(fm.resolv(&vec![]), Err(ErrorKind::NotConnected));
    fm.rootfs = Some(Ram);
    assert_eq!(fm.resolv(&vec![]), Ok(INodeType(1)));
    assert_eq!(fm.read_dir("").map(|d| d.dir), Ok(INodeType(1)));
    assert_eq!(fm.read_dir("/a/..").map(|d| d.dir), Ok(INodeType(1)));
    assert_eq!(fm.read_dir("/bin").map(|d| d.dir), Ok(INodeType(2)));
    assert_eq!(fm.read_dir("/etc").err(), Some(ErrorKind::NotFound));
}
