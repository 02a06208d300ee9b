use vstd::prelude::*;
use vstd::string::StringExecFns;

use crate::model::{
    appended, closed, container_of, opened, size_sum, ArchiverState, Record,
};

verus! {

/// The compression applied to containers.
#[derive(Clone, Copy, Debug, PartialEq, Eq, Structural)]
#[non_exhaustive]
pub enum CompressAlgorithm {
    Uncompressed,
    Lz4Flex,
}

/// Settings of the archiver.
pub struct Options {
    /// The directory that receives the containers.
    pub stash_dir: String,
    /// Files strictly larger than this many bytes bypass containers.
    pub threshold_huge_file: usize,
    /// A container is finalized once its content exceeds this many bytes.
    pub threshold_split_tar: usize,
    /// The compression of the containers.
    pub compress_algorithm: CompressAlgorithm,
}

impl Default for Options {
    /// Containers go to `backup`, no file is huge, no container is split, and
    /// nothing is compressed.
    fn default() -> (r: Self)
        ensures
            r.stash_dir@ == "backup"@,
            r.threshold_huge_file == usize::MAX,
            r.threshold_split_tar == usize::MAX,
            r.compress_algorithm == CompressAlgorithm::Uncompressed,
    {
        Options {
            stash_dir: String::from_str("backup"),
            threshold_huge_file: usize::MAX,
            threshold_split_tar: usize::MAX,
            compress_algorithm: CompressAlgorithm::Uncompressed,
        }
    }
}

/// How an emitted archive holds its content.
#[derive(Clone, Copy, Debug, PartialEq, Eq, Structural)]
pub enum ArchiveType {
    /// A single file, backed up as it is.
    Plain,
    /// A container of files.
    Tar,
}

/// A completed piece of output.
#[derive(Debug)]
pub struct Archive {
    /// Where the archive is on disk.
    pub path: String,
    pub archive_type: ArchiveType,
    /// The sum of the uncompressed sizes of the files it holds.
    pub content_size: usize,
}

/// Why the archiver could not go on.
#[derive(Clone, Copy, Debug, PartialEq, Eq, Structural)]
pub enum ArchiveError {
    /// The content of the open container no longer fits in a `usize`.
    SizeOverflow,
    /// No further container can be numbered.
    CounterOverflow,
}

/// What the caller does with a file handed to the archiver.
#[derive(Debug)]
pub enum FileAction {
    /// Emit this archive: the file bypasses containers.
    Bypass(Archive),
    /// Append the file to the open container, after opening one at the given
    /// path when there is one.
    Append { open_at: Option<String> },
}

pub open spec fn digit_char(d: nat) -> char {
    if d == 0 {
        '0'
    } else if d == 1 {
        '1'
    } else if d == 2 {
        '2'
    } else if d == 3 {
        '3'
    } else if d == 4 {
        '4'
    } else if d == 5 {
        '5'
    } else if d == 6 {
        '6'
    } else if d == 7 {
        '7'
    } else if d == 8 {
        '8'
    } else {
        '9'
    }
}

/// The decimal digits of `n`, without leading zeros.
pub open spec fn decimal(n: nat) -> Seq<char>
    decreases n,
{
    if n < 10 {
        seq![digit_char(n)]
    } else {
        decimal(n / 10).push(digit_char(n % 10))
    }
}

/// `name` placed in directory `dir`: a separator goes between them unless
/// `dir` is empty or already ends with one.
pub open spec fn join(dir: Seq<char>, name: Seq<char>) -> Seq<char> {
    if dir.len() == 0 {
        name
    } else if dir.last() == '/' {
        dir + name
    } else {
        dir + seq!['/'] + name
    }
}

/// The file extension of a container under a compression.
pub open spec fn extension(alg: CompressAlgorithm) -> Seq<char> {
    match alg {
        CompressAlgorithm::Uncompressed => "tar"@,
        CompressAlgorithm::Lz4Flex => "tar.lz4"@,
    }
}

/// The path of the container numbered `counter`.
pub open spec fn tar_path(dir: Seq<char>, counter: nat, alg: CompressAlgorithm) -> Seq<char> {
    join(dir, decimal(counter)) + seq!['.'] + extension(alg)
}

/// Relies on `usize`'s `to_string`: the decimal digits of the number.
#[verifier::external_body]
fn decimal_string(n: usize) -> (r: String)
    ensures
        r@ == decimal(n as nat),
{
    n.to_string()
}

/// The archiver's decisions: which file bypasses containers, when a container
/// opens, when it is full, and what is emitted for it.
pub struct BackupContext {
    option: Options,
    open: bool,
    cur_tar_size: usize,
    tar_cnt: usize,
    members: Ghost<Seq<nat>>,
}

impl BackupContext {
    /// The archiver's abstract state.
    pub closed spec fn view(&self) -> ArchiverState {
        ArchiverState { open: self.open, members: self.members@, counter: self.tar_cnt as nat }
    }

    pub closed spec fn options(&self) -> &Options {
        &self.option
    }

    /// The running content size matches what was appended, and a closed
    /// container holds nothing.
    pub closed spec fn wf(&self) -> bool {
        &&& self.cur_tar_size == size_sum(self.members@)
        &&& !self.open ==> self.members@ == Seq::<nat>::empty()
    }

    /// Whether `a` is what is emitted for the record `r`.
    pub open spec fn describes(&self, a: &Archive, r: Record) -> bool {
        match r {
            Record::Plain { size } => a.archive_type == ArchiveType::Plain && a.content_size
                == size,
            Record::Container { members, counter } => {
                &&& a.archive_type == ArchiveType::Tar
                &&& a.content_size == size_sum(members)
                &&& a.path@ == tar_path(
                    self.options().stash_dir@,
                    counter,
                    self.options().compress_algorithm,
                )
            },
        }
    }

    pub fn new(option: Options) -> (r: Self)
        ensures
            r.wf(),
            r@ == crate::model::initial_state(),
            r.options() == &option,
    {
        BackupContext { option, open: false, cur_tar_size: 0, tar_cnt: 0, members: Ghost(Seq::empty()) }
    }

    /// Whether a container is open.
    pub fn is_open(&self) -> (r: bool)
        ensures
            r == self@.open,
    {
        self.open
    }

    /// The path of the container with the current counter value.
    pub fn cur_tar_path(&self) -> (r: String)
        ensures
            r@ == tar_path(
                self.options().stash_dir@,
                self@.counter,
                self.options().compress_algorithm,
            ),
    {
        let dir = self.option.stash_dir.as_str();
        let n = dir.unicode_len();
        let mut path = String::from_str(dir);
        if n > 0 && dir.get_char(n - 1) != '/' {
            path.append("/");
        }
        let digits = decimal_string(self.tar_cnt);
        path.append(digits.as_str());
        path.append(".");
        match self.option.compress_algorithm {
            CompressAlgorithm::Uncompressed => path.append("tar"),
            CompressAlgorithm::Lz4Flex => path.append("tar.lz4"),
        }
        proof {
            reveal_strlit("/");
            reveal_strlit(".");
            reveal_strlit("tar");
            reveal_strlit("tar.lz4");
            if n > 0 {
                assert(dir@.last() == dir@[n - 1]);
            }
            assert(path@ =~= tar_path(
                self.options().stash_dir@,
                self@.counter,
                self.options().compress_algorithm,
            ));
        }
        path
    }

    /// Advances the counter and returns the path of the container it names.
    pub fn next_tar_path(&mut self) -> (r: Result<String, ArchiveError>)
        requires
            old(self).wf(),
        ensures
            final(self).wf(),
            final(self).options() == old(self).options(),
            old(self)@.counter < usize::MAX ==> {
                &&& r is Ok
                &&& final(self)@ == ArchiverState { counter: old(self)@.counter + 1, ..old(self)@ }
                &&& r->Ok_0@ == tar_path(
                    old(self).options().stash_dir@,
                    old(self)@.counter + 1,
                    old(self).options().compress_algorithm,
                )
            },
            old(self)@.counter == usize::MAX ==> r == Err::<String, ArchiveError>(
                ArchiveError::CounterOverflow,
            ) && final(self)@ == old(self)@,
    {
        if self.tar_cnt == usize::MAX {
            return Err(ArchiveError::CounterOverflow);
        }
        self.tar_cnt = self.tar_cnt + 1;
        Ok(self.cur_tar_path())
    }

    /// Decides what happens to a file of `file_size` bytes at `path`: a file
    /// above the huge-file threshold bypasses containers and is emitted as a
    /// plain archive at once, the state untouched; any other is to be appended
    /// to the open container, which is opened first (under the next counter
    /// value) when none is.
    pub fn archive_single_file(&mut self, path: String, file_size: usize) -> (r: Result<
        FileAction,
        ArchiveError,
    >)
        requires
            old(self).wf(),
        ensures
            final(self).wf(),
            final(self).options() == old(self).options(),
            file_size > old(self).options().threshold_huge_file ==> {
                &&& final(self)@ == old(self)@
                &&& r matches Ok(FileAction::Bypass(a))
                &&& a.path == path
                &&& old(self).describes(&a, Record::Plain { size: file_size as nat })
            },
            file_size <= old(self).options().threshold_huge_file && old(self)@.open ==> {
                &&& final(self)@ == old(self)@
                &&& r == Ok::<FileAction, ArchiveError>(FileAction::Append { open_at: None })
            },
            file_size <= old(self).options().threshold_huge_file && !old(self)@.open
                && old(self)@.counter < usize::MAX ==> {
                &&& final(self)@ == opened(old(self)@)
                &&& r matches Ok(FileAction::Append { open_at: Some(p) })
                &&& p@ == tar_path(
                    old(self).options().stash_dir@,
                    opened(old(self)@).counter,
                    old(self).options().compress_algorithm,
                )
            },
            file_size <= old(self).options().threshold_huge_file && !old(self)@.open
                && old(self)@.counter == usize::MAX ==> {
                &&& final(self)@ == old(self)@
                &&& r == Err::<FileAction, ArchiveError>(ArchiveError::CounterOverflow)
            },
    {
        if file_size > self.option.threshold_huge_file {
            let a = Archive { path, archive_type: ArchiveType::Plain, content_size: file_size };
            return Ok(FileAction::Bypass(a));
        }
        if self.open {
            return Ok(FileAction::Append { open_at: None });
        }
        let p = self.next_tar_path()?;
        self.open = true;
        self.cur_tar_size = 0;
        self.members = Ghost(Seq::empty());
        Ok(FileAction::Append { open_at: Some(p) })
    }

    /// Records that `appended` bytes of a file were added to the open
    /// container, and tells whether its content now exceeds the split
    /// threshold (the container is then to be finalized).
    pub fn record_append(&mut self, appended_size: usize) -> (r: Result<bool, ArchiveError>)
        requires
            old(self).wf(),
            old(self)@.open,
        ensures
            final(self).wf(),
            final(self).options() == old(self).options(),
            size_sum(old(self)@.members) + appended_size <= usize::MAX ==> {
                &&& final(self)@ == appended(old(self)@, appended_size as nat)
                &&& r == Ok::<bool, ArchiveError>(
                    size_sum(final(self)@.members) > old(self).options().threshold_split_tar,
                )
            },
            size_sum(old(self)@.members) + appended_size > usize::MAX ==> {
                &&& final(self)@ == old(self)@
                &&& r == Err::<bool, ArchiveError>(ArchiveError::SizeOverflow)
            },
    {
        if appended_size > usize::MAX - self.cur_tar_size {
            return Err(ArchiveError::SizeOverflow);
        }
        self.cur_tar_size = self.cur_tar_size + appended_size;
        self.members = Ghost(self.members@.push(appended_size as nat));
        proof {
            assert(self.members@.drop_last() =~= old(self).members@);
        }
        Ok(self.cur_tar_size > self.option.threshold_split_tar)
    }

    /// Finalizes the open container, if any: returns the archive that
    /// describes it, with the sum of the sizes appended to it, and leaves no
    /// container open.
    pub fn retrieve_cur_tar(&mut self) -> (r: Option<Archive>)
        requires
            old(self).wf(),
        ensures
            final(self).wf(),
            final(self).options() == old(self).options(),
            old(self)@.open ==> {
                &&& final(self)@ == closed(old(self)@)
                &&& r matches Some(a)
                &&& old(self).describes(&a, container_of(old(self)@))
            },
            !old(self)@.open ==> r is None && final(self)@ == old(self)@,
    {
        if !self.open {
            return None;
        }
        let archive = Archive {
            path: self.cur_tar_path(),
            archive_type: ArchiveType::Tar,
            content_size: self.cur_tar_size,
        };
        self.open = false;
        self.cur_tar_size = 0;
        self.members = Ghost(Seq::empty());
        Some(archive)
    }
}

} // verus!
