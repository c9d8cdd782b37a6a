//! Paths, and files as a driver of a file system presents them.

use vstd::prelude::*;
use vstd::std_specs::convert::FromSpecImpl;
use vstd::string::StrSliceExecFns;

verus! {

/// A position in a file, or a length.
pub type OffsetType = i64;

/// Why an operation on a file failed.
#[derive(Debug, Copy, Clone, PartialEq, Eq, Structural)]
pub enum ErrorKind {
    NotFound,
    PermissionDenied,
    NotConnected,
    InvalidData,
    InvalidInput,
    Unsupported,
    Other,
}

/// The kind of a file.
#[derive(Debug, Copy, Clone, PartialEq, Eq, Structural)]
pub enum FileType {
    File,
    Dir,
    Device,
}

/// The number of a file within its file system; never zero.
#[derive(Debug, Clone, Copy, PartialEq, Eq, Structural, PartialOrd, Ord)]
pub struct INodeType(pub u64);

impl INodeType {
    /// The number `val`, which must not be zero.
    pub fn new_unchecked(val: u64) -> (r: Self)
        requires
            val != 0,
        ensures
            r.0 == val,
    {
        INodeType(val)
    }

    /// The number `val`; zero is no number of a file.
    pub fn new(val: u64) -> (r: Option<Self>)
        ensures
            r == if val == 0 {
                None
            } else {
                Some(INodeType(val))
            },
    {
        if val == 0 {
            None
        } else {
            Some(INodeType(val))
        }
    }

    pub fn get(&self) -> (r: u64)
        ensures
            r == self.0,
    {
        self.0
    }
}

/// What a file system tells about a file.
#[derive(Debug, Copy, Clone, PartialEq, Eq, Structural)]
pub struct FsRawMetaData {
    pub file_type: FileType,
    pub len: OffsetType,
}

impl FsRawMetaData {
    pub fn new(file_type: FileType, len: OffsetType) -> (r: Self)
        ensures
            r == (FsRawMetaData { file_type, len }),
    {
        FsRawMetaData { file_type, len }
    }

    pub fn len(&self) -> (r: OffsetType)
        ensures
            r == self.len,
    {
        self.len
    }

    pub fn file_type(&self) -> (r: FileType)
        ensures
            r == self.file_type,
    {
        self.file_type
    }
}

/// An entry of a directory.
pub struct FsRawDirEntry {
    pub inode: INodeType,
    pub name: String,
    pub metadata: Option<FsRawMetaData>,
}

impl FsRawDirEntry {
    pub fn new(inode: INodeType, name: &str, metadata: Option<FsRawMetaData>) -> (r: Self)
        ensures
            r.inode == inode,
            r.name@ == name@,
            r.metadata == metadata,
    {
        FsRawDirEntry { inode, name: name.to_owned(), metadata }
    }

    pub fn inode(&self) -> (r: INodeType)
        ensures
            r == self.inode,
    {
        self.inode
    }

    pub fn name(&self) -> (r: &str)
        ensures
            r@ == self.name@,
    {
        self.name.as_str()
    }

    pub fn metadata(&self) -> (r: Option<&FsRawMetaData>)
        ensures
            r.is_some() == self.metadata.is_some(),
            r matches Some(m) ==> Some(*m) == self.metadata,
    {
        self.metadata.as_ref()
    }

    pub fn into_metadata(self) -> (r: Option<FsRawMetaData>)
        ensures
            r == self.metadata,
    {
        self.metadata
    }
}

/// A file system. The library calls a driver and promises nothing about
/// what it answers, but that a read leaves the buffer as long as it was.
pub trait FsDriver {
    /// The root directory.
    fn root_dir(&self) -> INodeType;

    /// The entry at position `index` of the directory.
    fn read_dir(&self, dir: INodeType, index: usize) -> Option<FsRawDirEntry>;

    /// The file with the given name in the directory.
    fn find_file(&self, dir: INodeType, name: &str) -> Result<INodeType, ErrorKind>;

    fn open(&self, inode: INodeType) -> Result<INodeType, ErrorKind>;

    fn close(&self, inode: INodeType) -> Result<(), ErrorKind>;

    fn stat(&self, inode: INodeType) -> Option<FsRawMetaData>;

    /// Reads from `offset` on into `buf`; returns the number of bytes read.
    /// The driver writes into the room that it is handed: a slice keeps its
    /// length, whatever is done to its bytes.
    fn read_data(&self, inode: INodeType, offset: OffsetType, buf: &mut [u8]) -> (r: Result<
        usize,
        ErrorKind,
    >)
        ensures
            final(buf)@.len() == old(buf)@.len(),
    ;

    /// Writes `buf` from `offset` on; returns the number of bytes written.
    fn write_data(&self, inode: INodeType, offset: OffsetType, buf: &[u8]) -> Result<
        usize,
        ErrorKind,
    >;
}

/// Where a seek starts from.
#[derive(Debug, Copy, Clone, PartialEq, Eq, Structural, PartialOrd, Ord)]
pub enum Whence {
    SeekSet,
    SeekCur,
    SeekEnd,
}

impl Whence {
    /// The start that a program names by `v`: 1 names the current position,
    /// 2 the end, anything else the beginning.
    pub fn from_usize(v: usize) -> (r: Self)
        ensures
            r == if v == 1 {
                Whence::SeekCur
            } else if v == 2 {
                Whence::SeekEnd
            } else {
                Whence::SeekSet
            },
    {
        if v == 1 {
            Whence::SeekCur
        } else if v == 2 {
            Whence::SeekEnd
        } else {
            Whence::SeekSet
        }
    }
}

impl From<usize> for Whence {
    fn from(v: usize) -> (r: Whence) {
        Whence::from_usize(v)
    }
}

impl FromSpecImpl<usize> for Whence {
    open spec fn obeys_from_spec() -> bool {
        true
    }

    open spec fn from_spec(v: usize) -> Whence {
        if v == 1 {
            Whence::SeekCur
        } else if v == 2 {
            Whence::SeekEnd
        } else {
            Whence::SeekSet
        }
    }
}

/// A handle of an open file.
#[derive(Debug, Clone, Copy, PartialEq, Eq, Structural, PartialOrd, Ord)]
pub struct FsFileHandle(pub usize);

// ----- paths -----

/// The parts of a path between its separators. A path without a separator
/// is one part; two separators in a row enclose an empty part.
pub open spec fn split(path: Seq<char>) -> Seq<Seq<char>>
    decreases path.len(),
{
    if path.len() == 0 {
        seq![Seq::empty()]
    } else if path.last() == '/' {
        split(path.drop_last()).push(Seq::empty())
    } else {
        let before = split(path.drop_last());
        before.drop_last().push(before.last().push(path.last()))
    }
}

/// The components of a path after one more part was read: an empty part and
/// `.` change nothing, `..` drops the last component if there is one, any
/// other part becomes the last component.
pub open spec fn step(components: Seq<Seq<char>>, part: Seq<char>) -> Seq<Seq<char>> {
    if part.len() == 0 || part == seq!['.'] {
        components
    } else if part == seq!['.', '.'] {
        if components.len() > 0 {
            components.drop_last()
        } else {
            components
        }
    } else {
        components.push(part)
    }
}

/// The components that the given parts of a path lead to, read from first to
/// last.
pub open spec fn resolve(parts: Seq<Seq<char>>) -> Seq<Seq<char>>
    decreases parts.len(),
{
    if parts.len() == 0 {
        Seq::empty()
    } else {
        step(resolve(parts.drop_last()), parts.last())
    }
}

/// The path made of a separator and the given components with separators
/// between them.
pub open spec fn join(components: Seq<Seq<char>>) -> Seq<char>
    decreases components.len(),
{
    if components.len() == 0 {
        seq!['/']
    } else if components.len() == 1 {
        seq!['/'] + components[0]
    } else {
        join(components.drop_last()).push('/') + components.last()
    }
}

/// The path that `path` names when it is read in the directory `prefix`: the
/// path itself if it begins with a separator, else the prefix, a separator
/// and the path.
pub open spec fn absolute(prefix: Seq<char>, path: Seq<char>) -> Seq<char> {
    if path.len() > 0 && path[0] == '/' {
        path
    } else {
        prefix.push('/') + path
    }
}

/// Whether `text` begins with `head`.
pub open spec fn begins_with(text: Seq<char>, head: Seq<char>) -> bool {
    head.len() <= text.len() && text.take(head.len() as int) == head
}

/// The canonical components of `path`, read in the directory `prefix`.
pub open spec fn canonical_components(prefix: Seq<char>, path: Seq<char>) -> Seq<Seq<char>> {
    resolve(split(absolute(prefix, path)))
}

/// The views of the given strings.
pub open spec fn views(strings: Seq<String>) -> Seq<Seq<char>> {
    strings.map_values(|s: String| s@)
}

/// The views of the given character vectors.
pub open spec fn vec_views(vecs: Seq<Vec<char>>) -> Seq<Seq<char>> {
    vecs.map_values(|v: Vec<char>| v@)
}

/// The characters of a string.
fn to_chars(s: &str) -> (r: Vec<char>)
    ensures
        r@ == s@,
{
    let n = s.unicode_len();
    let mut out: Vec<char> = Vec::new();
    let mut i: usize = 0;
    while i < n
        invariant
            n == s@.len(),
            i <= n,
            out@ == s@.take(i as int),
        decreases n - i,
    {
        out.push(s.get_char(i));
        i = i + 1;
        assert(out@ =~= s@.take(i as int));
    }
    assert(s@.take(n as int) =~= s@);
    out
}

/// The string of the given characters.
fn to_string(chars: &Vec<char>) -> (r: String)
    ensures
        r@ == chars@,
{
    let mut out = String::new();
    let mut i: usize = 0;
    while i < chars.len()
        invariant
            i <= chars@.len(),
            out@ == chars@.take(i as int),
        decreases chars@.len() - i,
    {
        out.push(chars[i]);
        i = i + 1;
        assert(out@ =~= chars@.take(i as int));
    }
    assert(chars@.take(chars@.len() as int) =~= chars@);
    out
}

/// Whether the two character vectors hold the same characters.
fn same_chars(a: &Vec<char>, b: &Vec<char>) -> (r: bool)
    ensures
        r == (a@ == b@),
{
    if a.len() != b.len() {
        return false;
    }
    let mut i: usize = 0;
    while i < a.len()
        invariant
            a@.len() == b@.len(),
            i <= a@.len(),
            a@.take(i as int) == b@.take(i as int),
        decreases a@.len() - i,
    {
        if a[i] != b[i] {
            assert(a@[i as int] != b@[i as int]);
            return false;
        }
        i = i + 1;
        assert(a@.take(i as int) =~= a@.take(i - 1).push(a@[i - 1]));
        assert(b@.take(i as int) =~= b@.take(i - 1).push(b@[i - 1]));
    }
    assert(a@.take(a@.len() as int) =~= a@);
    assert(b@.take(b@.len() as int) =~= b@);
    true
}

/// Reads one more part of a path.
fn apply_step(components: &mut Vec<Vec<char>>, part: Vec<char>)
    ensures
        vec_views(final(components)@) == step(vec_views(old(components)@), part@),
{
    let ghost before = vec_views(components@);
    if part.len() == 0 {
        return ;
    }
    if part.len() == 1 && part[0] == '.' {
        assert(part@ =~= seq!['.']);
        return ;
    }
    if part.len() == 2 && part[0] == '.' && part[1] == '.' {
        assert(part@ =~= seq!['.', '.']);
        if components.len() > 0 {
            let _ = components.pop();
            assert(vec_views(components@) =~= before.drop_last());
        }
        return ;
    }
    proof {
        if part@ == seq!['.'] {
            assert(part@.len() == 1 && part@[0] == '.');
        }
        if part@ == seq!['.', '.'] {
            assert(part@.len() == 2 && part@[0] == '.' && part@[1] == '.');
        }
    }
    components.push(part);
    assert(vec_views(components@) =~= before.push(part@));
}

/// The components that the given characters of a path lead to.
fn resolve_chars(path: &Vec<char>) -> (r: Vec<Vec<char>>)
    ensures
        vec_views(r@) == resolve(split(path@)),
{
    let mut components: Vec<Vec<char>> = Vec::new();
    let mut current: Vec<char> = Vec::new();
    let mut i: usize = 0;
    proof {
        assert(path@.take(0) =~= Seq::empty());
        assert(split(path@.take(0)).drop_last() =~= Seq::empty());
        assert(vec_views(components@) =~= Seq::empty());
    }
    while i < path.len()
        invariant
            i <= path@.len(),
            split(path@.take(i as int)).len() > 0,
            current@ == split(path@.take(i as int)).last(),
            vec_views(components@) == resolve(split(path@.take(i as int)).drop_last()),
        decreases path@.len() - i,
    {
        let ghost head_part = path@.take(i as int);
        let ghost next_part = path@.take(i + 1);
        proof {
            assert(next_part.drop_last() =~= head_part);
            assert(next_part.last() == path@[i as int]);
        }
        let c = path[i];
        if c == '/' {
            let mut part: Vec<char> = Vec::new();
            core::mem::swap(&mut part, &mut current);
            apply_step(&mut components, part);
            proof {
                assert(split(next_part) == split(head_part).push(Seq::empty()));
                assert(split(next_part).drop_last() =~= split(head_part));
                assert(split(head_part).drop_last().push(split(head_part).last()) =~= split(head_part));
                assert(resolve(split(head_part)) == step(
                    resolve(split(head_part).drop_last()),
                    split(head_part).last(),
                ));
            }
        } else {
            current.push(c);
            proof {
                let before = split(head_part);
                assert(split(next_part) == before.drop_last().push(before.last().push(c)));
                assert(split(next_part).drop_last() =~= before.drop_last());
            }
        }
        i = i + 1;
    }
    proof {
        assert(path@.take(path@.len() as int) =~= path@);
        let all = split(path@);
        assert(all.drop_last().push(all.last()) =~= all);
    }
    apply_step(&mut components, current);
    components
}

/// Appends the path made of the given components.
fn join_chars(components: &Vec<Vec<char>>) -> (r: Vec<char>)
    ensures
        r@ == join(vec_views(components@)),
{
    let mut out: Vec<char> = Vec::new();
    out.push('/');
    let mut i: usize = 0;
    proof {
        assert(vec_views(components@).take(0) =~= Seq::empty());
        assert(out@ =~= seq!['/']);
    }
    while i < components.len()
        invariant
            i <= components@.len(),
            out@ == join(vec_views(components@).take(i as int)),
        decreases components@.len() - i,
    {
        let ghost done = vec_views(components@).take(i as int);
        let ghost next = vec_views(components@).take(i + 1);
        proof {
            assert(next.drop_last() =~= done);
            assert(next.last() == components@[i as int]@);
        }
        if i > 0 {
            out.push('/');
        }
        let ghost head = out@;
        let part = &components[i];
        let mut j: usize = 0;
        while j < part.len()
            invariant
                j <= part@.len(),
                out@ == head + part@.take(j as int),
            decreases part@.len() - j,
        {
            out.push(part[j]);
            j = j + 1;
            assert(out@ =~= head + part@.take(j as int));
        }
        assert(part@.take(part@.len() as int) =~= part@);
        i = i + 1;
    }
    assert(vec_views(components@).take(components@.len() as int) =~= vec_views(components@));
    out
}

/// Whether `text` begins with `head`.
fn starts_with(text: &Vec<char>, head: &Vec<char>) -> (r: bool)
    ensures
        r == begins_with(text@, head@),
{
    if head.len() > text.len() {
        return false;
    }
    let mut i: usize = 0;
    while i < head.len()
        invariant
            head@.len() <= text@.len(),
            i <= head@.len(),
            text@.take(i as int) == head@.take(i as int),
        decreases head@.len() - i,
    {
        if text[i] != head[i] {
            assert(text@.take(head@.len() as int)[i as int] != head@[i as int]);
            return false;
        }
        i = i + 1;
        assert(text@.take(i as int) =~= text@.take(i - 1).push(text@[i - 1]));
        assert(head@.take(i as int) =~= head@.take(i - 1).push(head@[i - 1]));
    }
    assert(head@.take(head@.len() as int) =~= head@);
    true
}

/// An open directory: the entries are read one after the other.
#[derive(Debug, Copy, Clone, PartialEq, Eq, Structural)]
pub struct FsRawReadDir {
    pub dir: INodeType,
    pub index: usize,
}

impl FsRawReadDir {
    /// The directory, before any entry was read.
    pub fn new(dir: INodeType) -> (r: Self)
        ensures
            r == (FsRawReadDir { dir, index: 0 }),
    {
        FsRawReadDir { dir, index: 0 }
    }

    /// The reader after the driver was asked for the entry at its position:
    /// one position further if there was an entry, unchanged if not.
    pub open spec fn after(self, found: bool) -> Self {
        if found {
            FsRawReadDir { index: (self.index + 1) as usize, ..self }
        } else {
            self
        }
    }

    /// Takes the driver's answer for the entry at the position: hands it on
    /// and moves past the entry if there was one.
    pub fn took(&mut self, answer: Option<FsRawDirEntry>) -> (r: Option<FsRawDirEntry>)
        requires
            old(self).index < usize::MAX,
        ensures
            r == answer,
            *final(self) == old(self).after(answer.is_some()),
    {
        if answer.is_some() {
            self.index = self.index + 1;
        }
        answer
    }

    /// Asks the driver for the entry at the position, hands its answer on
    /// and moves past the entry if the driver gave one. Whether there is an
    /// entry is the driver's to say; `took` says what follows from either
    /// answer.
    pub fn next<D: FsDriver>(&mut self, fs: &D) -> (r: Option<FsRawDirEntry>)
        requires
            old(self).index < usize::MAX,
        ensures
            *final(self) == old(self).after(r.is_some()),
    {
        let answer = fs.read_dir(self.dir, self.index);
        self.took(answer)
    }
}

/// An open file: its number, the position of the next read or write, and
/// its size.
#[derive(Debug, Copy, Clone, PartialEq, Eq, Structural)]
pub struct FsRawFileControlBlock {
    pub inode: INodeType,
    pub file_pos: OffsetType,
    pub file_size: OffsetType,
}

impl FsRawFileControlBlock {
    /// The file, positioned at its beginning.
    pub fn new(inode: INodeType, file_size: OffsetType) -> (r: Self)
        ensures
            r == (FsRawFileControlBlock { inode, file_pos: 0, file_size }),
    {
        FsRawFileControlBlock { inode, file_pos: 0, file_size }
    }

    /// Takes what the driver tells about the file that it opened: the file
    /// positioned at its beginning, of the size that the driver tells, or
    /// `InvalidData` if the driver tells nothing.
    pub fn opened(inode: INodeType, stat: Option<FsRawMetaData>) -> (r: Result<Self, ErrorKind>)
        ensures
            r == match stat {
                Some(meta) => Ok(FsRawFileControlBlock { inode, file_pos: 0, file_size: meta.len }),
                None => Err(ErrorKind::InvalidData),
            },
    {
        match stat {
            Some(meta) => Ok(FsRawFileControlBlock::new(inode, meta.len())),
            None => Err(ErrorKind::InvalidData),
        }
    }

    /// The position after `count` bytes were read or written at `pos`. It
    /// wraps round at the end of the range of positions.
    pub open spec fn advanced(pos: OffsetType, count: usize) -> OffsetType {
        pos.wrapping_add(count as i64)
    }

    /// Moves the position on by `count` bytes.
    pub fn advance(&mut self, count: usize)
        ensures
            *final(self) == (FsRawFileControlBlock {
                file_pos: Self::advanced(old(self).file_pos, count),
                ..*old(self)
            }),
    {
        self.file_pos = self.file_pos.wrapping_add(
            #[verifier::truncate]
            (count as i64),
        );
    }

    /// The file after a read or a write that the driver answered with
    /// `outcome`: the position is moved on by the number of bytes that the
    /// driver reports, and stays where it was if the driver failed.
    pub open spec fn after_transfer(self, outcome: Result<usize, ErrorKind>) -> Self {
        match outcome {
            Ok(count) => FsRawFileControlBlock {
                file_pos: Self::advanced(self.file_pos, count),
                ..self
            },
            Err(_) => self,
        }
    }

    /// Takes the driver's answer to a read or a write at the position: hands
    /// it on and moves the position on by the bytes reported.
    pub fn transferred(&mut self, outcome: Result<usize, ErrorKind>) -> (r: Result<
        usize,
        ErrorKind,
    >)
        ensures
            r == outcome,
            *final(self) == old(self).after_transfer(outcome),
    {
        match outcome {
            Ok(count) => {
                self.advance(count);
                Ok(count)
            },
            Err(e) => Err(e),
        }
    }

    /// Lets the driver read into `buf` at the position, hands its answer on
    /// and moves the position on by the number of bytes that the driver says
    /// it read. The position stays where it is if the driver fails. The
    /// buffer keeps its length. How many bytes there are to read is the
    /// driver's to say; `transferred` says what follows from each answer.
    pub fn read<D: FsDriver>(&mut self, fs: &D, buf: &mut [u8]) -> (r: Result<usize, ErrorKind>)
        ensures
            *final(self) == old(self).after_transfer(r),
            final(buf)@.len() == old(buf)@.len(),
    {
        let outcome = fs.read_data(self.inode, self.file_pos, buf);
        self.transferred(outcome)
    }

    /// The number of bytes from the position to the end of the file.
    pub open spec fn remaining(self) -> int {
        self.file_size - self.file_pos
    }

    /// `bytes` cut or filled up with zeros to the length `len`.
    pub open spec fn resized(bytes: Seq<u8>, len: usize) -> Seq<u8> {
        if len <= bytes.len() {
            bytes.take(len as int)
        } else {
            bytes + Seq::new((len - bytes.len()) as nat, |i: int| 0u8)
        }
    }

    /// Takes the driver's answer to a read into `vec`: hands it on and
    /// brings `vec` to the number of bytes that the driver says it read.
    /// `vec` stays as it is if the driver failed.
    pub fn fitted(vec: &mut Vec<u8>, outcome: Result<usize, ErrorKind>) -> (r: Result<
        usize,
        ErrorKind,
    >)
        ensures
            r == outcome,
            final(vec)@ == match outcome {
                Ok(count) => Self::resized(old(vec)@, count),
                Err(_) => old(vec)@,
            },
    {
        match outcome {
            Ok(count) => {
                vec.resize(count, 0);
                assert(vec@ =~= Self::resized(old(vec)@, count));
                Ok(count)
            },
            Err(e) => Err(e),
        }
    }

    /// Reads what is left of the file into `vec`: makes room in `vec` for
    /// the bytes from the position to the end of the file, lets the driver
    /// read into that room, and brings `vec` to the number of bytes that the
    /// driver says it read. If the driver fails, `vec` is left with the room
    /// that was made and the position stays where it is.
    pub fn read_to_end<D: FsDriver>(&mut self, fs: &D, vec: &mut Vec<u8>) -> (r: Result<
        usize,
        ErrorKind,
    >)
        requires
            0 <= old(self).file_pos <= old(self).file_size,
            old(self).file_size - old(self).file_pos <= usize::MAX,
        ensures
            *final(self) == old(self).after_transfer(r),
            final(vec)@.len() == match r {
                Ok(count) => count as int,
                Err(_) => old(self).remaining(),
            },
    {
        let size = (self.file_size - self.file_pos) as usize;
        vec.resize(size, 0);
        let outcome = self.read(fs, vec.as_mut_slice());
        Self::fitted(vec, outcome)
    }

    /// Lets the driver write `buf` at the position, hands its answer on and
    /// moves the position on by the number of bytes that the driver says it
    /// wrote. The position stays where it is if the driver fails. How many
    /// bytes are written is the driver's to say; `transferred` says what
    /// follows from each answer.
    pub fn write<D: FsDriver>(&mut self, fs: &D, buf: &[u8]) -> (r: Result<usize, ErrorKind>)
        ensures
            *final(self) == old(self).after_transfer(r),
    {
        let outcome = fs.write_data(self.inode, self.file_pos, buf);
        self.transferred(outcome)
    }

    /// The position after a seek. It wraps round at the end of the range of
    /// positions.
    pub open spec fn sought(self, offset: OffsetType, whence: Whence) -> OffsetType {
        match whence {
            Whence::SeekSet => offset,
            Whence::SeekCur => self.file_pos.wrapping_add(offset),
            Whence::SeekEnd => self.file_size.wrapping_add(offset),
        }
    }

    /// Sets the position: to `offset`, or `offset` from the current position
    /// or from the end of the file. Returns the new position.
    pub fn lseek(&mut self, offset: OffsetType, whence: Whence) -> (r: OffsetType)
        ensures
            r == old(self).sought(offset, whence),
            *final(self) == (FsRawFileControlBlock { file_pos: r, ..*old(self) }),
    {
        match whence {
            Whence::SeekSet => self.file_pos = offset,
            Whence::SeekCur => self.file_pos = self.file_pos.wrapping_add(offset),
            Whence::SeekEnd => self.file_pos = self.file_size.wrapping_add(offset),
        }
        self.file_pos
    }

    /// What the driver tells about the file.
    pub fn stat<D: FsDriver>(&self, fs: &D) -> Option<FsRawMetaData> {
        fs.stat(self.inode)
    }
}

/// The files of the system: the root file system, if one is mounted.
pub struct FileManager<D: FsDriver> {
    pub rootfs: Option<D>,
}

impl<D: FsDriver> FileManager<D> {
    /// The manager before a file system was mounted.
    pub fn new() -> (r: Self)
        ensures
            r.rootfs.is_none(),
    {
        FileManager { rootfs: None }
    }

    /// The canonical form of `path`: a separator, then the components of the
    /// path with separators between them, where empty parts and `.` are
    /// left out and `..` takes back the component before it.
    pub fn canonical_path(path: &str) -> (r: Result<String, ErrorKind>)
        ensures
            r matches Ok(s) && s@ == join(canonical_components(Seq::empty(), path@)),
    {
        let empty: Vec<char> = Vec::new();
        let chars = to_chars(path);
        match Self::canonical_chars(&empty, &empty, &chars) {
            Ok(components) => Ok(to_string(&join_chars(&components))),
            Err(e) => {
                proof {
                    assert(begins_with(
                        join(canonical_components(Seq::empty(), path@)),
                        Seq::empty(),
                    )) by {
                        assert(join(canonical_components(Seq::empty(), path@)).take(0)
                            =~= Seq::<char>::empty());
                    }
                }
                Err(e)
            },
        }
    }

    /// The path made of a separator and the given components with
    /// separators between them.
    pub fn _join_path(path_components: &Vec<String>) -> (r: String)
        ensures
            r@ == join(views(path_components@)),
    {
        let mut chars: Vec<Vec<char>> = Vec::new();
        let mut i: usize = 0;
        while i < path_components.len()
            invariant
                i <= path_components@.len(),
                chars@.len() == i,
                vec_views(chars@) == views(path_components@).take(i as int),
            decreases path_components@.len() - i,
        {
            let ghost before = chars@;
            let part = to_chars(path_components[i].as_str());
            chars.push(part);
            i = i + 1;
            assert forall|k: int| 0 <= k < i implies vec_views(chars@)[k] == views(
                path_components@,
            ).take(i as int)[k] by {
                if k < i - 1 {
                    assert(vec_views(before)[k] == views(path_components@).take(i - 1)[k]);
                    assert(chars@[k] == before[k]);
                }
            }
            assert(vec_views(chars@) =~= views(path_components@).take(i as int));
        }
        assert(views(path_components@).take(path_components@.len() as int) =~= views(
            path_components@,
        ));
        to_string(&join_chars(&chars))
    }

    /// The canonical components of a path given as characters.
    fn canonical_chars(security_domain: &Vec<char>, prefix: &Vec<char>, path: &Vec<char>) -> (r:
        Result<Vec<Vec<char>>, ErrorKind>)
        ensures
            begins_with(join(canonical_components(prefix@, path@)), security_domain@) ==> (
            r matches Ok(c) && vec_views(c@) == canonical_components(prefix@, path@)),
            !begins_with(join(canonical_components(prefix@, path@)), security_domain@) ==> r
                == Err::<Vec<Vec<char>>, ErrorKind>(ErrorKind::PermissionDenied),
    {
        let mut full: Vec<char> = Vec::new();
        if path.len() > 0 && path[0] == '/' {
            let mut i: usize = 0;
            while i < path.len()
                invariant
                    i <= path@.len(),
                    full@ == path@.take(i as int),
                decreases path@.len() - i,
            {
                full.push(path[i]);
                i = i + 1;
                assert(full@ =~= path@.take(i as int));
            }
            assert(path@.take(path@.len() as int) =~= path@);
        } else {
            let mut i: usize = 0;
            while i < prefix.len()
                invariant
                    i <= prefix@.len(),
                    full@ == prefix@.take(i as int),
                decreases prefix@.len() - i,
            {
                full.push(prefix[i]);
                i = i + 1;
                assert(full@ =~= prefix@.take(i as int));
            }
            assert(prefix@.take(prefix@.len() as int) =~= prefix@);
            full.push('/');
            let ghost head = full@;
            let mut j: usize = 0;
            while j < path.len()
                invariant
                    j <= path@.len(),
                    full@ == head + path@.take(j as int),
                decreases path@.len() - j,
            {
                full.push(path[j]);
                j = j + 1;
                assert(full@ =~= head + path@.take(j as int));
            }
            assert(path@.take(path@.len() as int) =~= path@);
        }
        assert(full@ == absolute(prefix@, path@));
        let components = resolve_chars(&full);
        let joined = join_chars(&components);
        if !starts_with(&joined, security_domain) {
            return Err(ErrorKind::PermissionDenied);
        }
        Ok(components)
    }

    /// The canonical components of `path`, read in the directory `prefix`.
    /// The path is refused if its canonical form does not begin with
    /// `security_domain`.
    pub fn _canonical_path_components(security_domain: &str, prefix: &str, path: &str) -> (r:
        Result<Vec<String>, ErrorKind>)
        ensures
            begins_with(join(canonical_components(prefix@, path@)), security_domain@) ==> (
            r matches Ok(c) && views(c@) == canonical_components(prefix@, path@)),
            !begins_with(join(canonical_components(prefix@, path@)), security_domain@) ==> r
                matches Err(ErrorKind::PermissionDenied),
    {
        let domain = to_chars(security_domain);
        let prefix_chars = to_chars(prefix);
        let path_chars = to_chars(path);
        match Self::canonical_chars(&domain, &prefix_chars, &path_chars) {
            Ok(components) => {
                let mut out: Vec<String> = Vec::new();
                let mut i: usize = 0;
                while i < components.len()
                    invariant
                        i <= components@.len(),
                        out@.len() == i,
                        views(out@) == vec_views(components@).take(i as int),
                    decreases components@.len() - i,
                {
                    let ghost before = out@;
                    let part = to_string(&components[i]);
                    out.push(part);
                    i = i + 1;
                    assert forall|k: int| 0 <= k < i implies views(out@)[k] == vec_views(
                        components@,
                    ).take(i as int)[k] by {
                        if k < i - 1 {
                            assert(views(before)[k] == vec_views(components@).take(i - 1)[k]);
                            assert(out@[k] == before[k]);
                        }
                    }
                    assert(views(out@) =~= vec_views(components@).take(i as int));
                }
                assert(vec_views(components@).take(components@.len() as int) =~= vec_views(
                    components@,
                ));
                Ok(out)
            },
            Err(e) => Err(e),
        }
    }

    /// Walks from the root directory along the given components. Fails with
    /// `NotConnected` without a file system, and with what the driver says
    /// where it does not find a component. With a file system and no
    /// component it succeeds, with the driver's root directory.
    pub fn resolv(&self, path_components: &Vec<String>) -> (r: Result<INodeType, ErrorKind>)
        ensures
            self.rootfs.is_none() ==> r == Err::<INodeType, ErrorKind>(ErrorKind::NotConnected),
            self.rootfs.is_some() && path_components@.len() == 0 ==> r.is_ok(),
    {
        let fs = match &self.rootfs {
            Some(v) => v,
            None => {
                return Err(ErrorKind::NotConnected);
            },
        };
        let mut dir = fs.root_dir();
        let mut i: usize = 0;
        while i < path_components.len()
            invariant
                i <= path_components@.len(),
                self.rootfs.is_some(),
            decreases path_components@.len() - i,
        {
            dir = match fs.find_file(dir, path_components[i].as_str()) {
                Ok(d) => d,
                Err(e) => {
                    return Err(e);
                },
            };
            i = i + 1;
        }
        Ok(dir)
    }

    /// Opens the directory at `path`, for reading from its first entry on.
    /// Fails with `NotConnected` without a file system, and with what the
    /// driver says where it does not find a component of the path. With a
    /// file system, a path that names the root directory is opened.
    pub fn read_dir(&self, path: &str) -> (r: Result<FsRawReadDir, ErrorKind>)
        ensures
            self.rootfs.is_none() ==> r == Err::<FsRawReadDir, ErrorKind>(ErrorKind::NotConnected),
            self.rootfs.is_some() && canonical_components(Seq::empty(), path@).len() == 0
                ==> r.is_ok(),
            r matches Ok(d) ==> d.index == 0,
    {
        proof {
            reveal_strlit("");
            assert(""@ =~= Seq::<char>::empty());
        }
        let components = match Self::_canonical_path_components("", "", path) {
            Ok(c) => c,
            Err(e) => {
                proof {
                    assert(join(canonical_components(""@, path@)).take(0) =~= ""@);
                }
                return Err(e);
            },
        };
        assert(components@.len() == views(components@).len());
        match self.resolv(&components) {
            Ok(dir) => Ok(FsRawReadDir::new(dir)),
            Err(e) => Err(e),
        }
    }

    /// Opens the file at `path`: resolves the path, asks the driver to open
    /// the file and takes the file's size from what the driver tells about
    /// it. Fails with `InvalidData` if the driver tells nothing.
    pub fn open(&self, path: &str) -> (r: Result<FsRawFileControlBlock, ErrorKind>)
        ensures
            self.rootfs.is_none() ==> r == Err::<FsRawFileControlBlock, ErrorKind>(
                ErrorKind::NotConnected,
            ),
            r matches Ok(f) ==> f.file_pos == 0,
    {
        let components = match Self::_canonical_path_components("", "", path) {
            Ok(c) => c,
            Err(e) => {
                proof {
                    reveal_strlit("");
                    assert(join(canonical_components(""@, path@)).take(0) =~= ""@);
                }
                return Err(e);
            },
        };
        let inode = match self.resolv(&components) {
            Ok(i) => i,
            Err(e) => {
                return Err(e);
            },
        };
        let fs = match &self.rootfs {
            Some(v) => v,
            None => {
                return Err(ErrorKind::NotConnected);
            },
        };
        let inode = match fs.open(inode) {
            Ok(i) => i,
            Err(e) => {
                return Err(e);
            },
        };
        FsRawFileControlBlock::opened(inode, fs.stat(inode))
    }
}

} // verus!
