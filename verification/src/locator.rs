//! Choosing the host among the running processes.
//!
//! The caller lists the processes that bear the host's image name and finds
//! out about each what the system can tell: where its executable lies, how
//! wide its pointers are, which process started it, and whether the files
//! that belong to a real installation are in place. This module judges the
//! candidates and picks the first that is the host itself.

use crate::injector::{terminated_size, InjectAction, InjectConfig, Injection, PayloadArtifact};
use crate::platform::{Os, Platform, PointerWidth};
use vstd::prelude::*;
use vstd::utf8::encode_utf8;

verus! {

/// What could be found out about the process that started a candidate.
pub enum ParentProbe {
    /// The candidate has no parent.
    NoParent,
    /// The parent's image name.
    Named(Vec<u8>),
    /// The parent could not be looked up.
    Unknown,
}

/// `ParentProbe` as a plain value.
pub enum ParentFacts {
    NoParent,
    Named(Seq<u8>),
    Unknown,
}

impl View for ParentProbe {
    type V = ParentFacts;

    open spec fn view(&self) -> ParentFacts {
        match self {
            ParentProbe::NoParent => ParentFacts::NoParent,
            ParentProbe::Named(name) => ParentFacts::Named(name@),
            ParentProbe::Unknown => ParentFacts::Unknown,
        }
    }
}

/// A running process that bears the host's image name.
pub struct Candidate {
    /// The process id, where it could be read.
    pub pid: Option<u32>,
    /// The names along the path of the executable, outermost first and the
    /// file's own name last, without drive or root.
    pub exe_path: Vec<Vec<u8>>,
    /// Whether the process is a 32-bit one, where that could be found out.
    pub x86: Option<bool>,
    /// The process that started this one.
    pub parent: ParentProbe,
    /// Whether the game's content directory lies in the game root.
    pub has_game_dir: bool,
    /// Whether the payload file exists.
    pub payload_present: bool,
}

/// `Candidate` as a plain value.
pub struct CandidateFacts {
    pub pid: Option<u32>,
    pub names: Seq<Seq<u8>>,
    pub x86: Option<bool>,
    pub parent: ParentFacts,
    pub has_game_dir: bool,
    pub payload_present: bool,
}

/// The names of a path as byte sequences.
pub open spec fn names_of(path: Seq<Vec<u8>>) -> Seq<Seq<u8>> {
    Seq::new(path.len(), |i: int| path[i]@)
}

impl View for Candidate {
    type V = CandidateFacts;

    open spec fn view(&self) -> CandidateFacts {
        CandidateFacts {
            pid: self.pid,
            names: names_of(self.exe_path@),
            x86: self.x86,
            parent: self.parent@,
            has_game_dir: self.has_game_dir,
            payload_present: self.payload_present,
        }
    }
}

/// Whether `name` ends in `suffix`.
pub open spec fn ends_with(name: Seq<u8>, suffix: Seq<u8>) -> bool {
    name.len() >= suffix.len() && name.skip(name.len() - suffix.len()) == suffix
}

/// The extension of an executable, with its dot.
pub open spec fn exe_suffix() -> Seq<u8> {
    encode_utf8(".exe"@)
}

/// The name of the directory in which a 64-bit host keeps its executable.
pub open spec fn win64_name() -> Seq<u8> {
    encode_utf8("win64"@)
}

/// Whether a file of this name is an executable: something, then `.exe`.
pub open spec fn is_executable_name(name: Seq<u8>) -> bool {
    name.len() > exe_suffix().len() && ends_with(name, exe_suffix())
}

/// How many of the leading names of the executable's path make up the game
/// root. The root is the directory of the executable, or, where that
/// directory is named `win64`, the directory two levels above it. There is
/// no root where the path does not end in an executable's name, or where
/// the levels above `win64` are missing.
pub open spec fn game_root_of(names: Seq<Seq<u8>>) -> Option<nat> {
    if names.len() == 0 || !is_executable_name(names.last()) {
        None
    } else {
        let directories = names.len() - 1;
        if directories >= 1 && names[directories - 1] == win64_name() {
            if directories >= 2 {
                Some((directories - 2) as nat)
            } else {
                None
            }
        } else {
            Some(directories as nat)
        }
    }
}

/// Whether the candidate was started by a process of its own image name,
/// where that can be told.
pub open spec fn is_subprocess(candidate: CandidateFacts) -> Option<bool> {
    match candidate.parent {
        ParentFacts::NoParent => Some(false),
        ParentFacts::Named(name) => Some(
            candidate.names.len() > 0 && name == candidate.names.last(),
        ),
        ParentFacts::Unknown => None,
    }
}

/// Whether the candidate is the host: its executable lies where a game root
/// can be told from, its pointer width is known, it is known not to be a
/// helper that another instance started, and the game's content directory
/// and the payload file are in place.
pub open spec fn qualifies(candidate: CandidateFacts) -> bool {
    &&& game_root_of(candidate.names) is Some
    &&& candidate.x86 is Some
    &&& is_subprocess(candidate) == Some(false)
    &&& candidate.has_game_dir
    &&& candidate.payload_present
}

/// Compares two names byte for byte.
fn bytes_equal(left: &[u8], right: &[u8]) -> (equal: bool)
    ensures
        equal == (left@ == right@),
{
    if left.len() != right.len() {
        return false;
    }
    let mut i: usize = 0;
    while i < left.len()
        invariant
            i <= left@.len() == right@.len(),
            forall|k: int| 0 <= k < i ==> left@[k] == right@[k],
        decreases left@.len() - i,
    {
        if left[i] != right[i] {
            return false;
        }
        i = i + 1;
    }
    assert(left@ =~= right@);
    true
}

/// Looks whether `name` ends in `suffix`.
fn has_suffix(name: &[u8], suffix: &[u8]) -> (ends: bool)
    ensures
        ends == ends_with(name@, suffix@),
{
    if name.len() < suffix.len() {
        return false;
    }
    bytes_equal(&name[name.len() - suffix.len()..name.len()], suffix)
}

/// Finds the game root in the path of an executable: how many of the
/// leading names of `exe_path` lead to it.
pub fn game_root(exe_path: &Vec<Vec<u8>>) -> (depth: Option<usize>)
    ensures
        match depth {
            Some(levels) => game_root_of(names_of(exe_path@)) == Some(levels as nat),
            None => game_root_of(names_of(exe_path@)) is None,
        },
{
    let count: usize = exe_path.len();
    if count == 0 {
        return None;
    }
    let suffix = ".exe".as_bytes();
    let file = exe_path[count - 1].as_slice();
    if file.len() <= suffix.len() || !has_suffix(file, suffix) {
        return None;
    }
    let directories: usize = count - 1;
    if directories >= 1 && bytes_equal(exe_path[directories - 1].as_slice(), "win64".as_bytes()) {
        if directories >= 2 {
            Some(directories - 2)
        } else {
            None
        }
    } else {
        Some(directories)
    }
}

/// Looks whether the candidate's parent bears the candidate's image name.
fn started_by_own_image(candidate: &Candidate) -> (started: Option<bool>)
    ensures
        started == is_subprocess(candidate@),
{
    match &candidate.parent {
        ParentProbe::NoParent => Some(false),
        ParentProbe::Named(name) => {
            let count: usize = candidate.exe_path.len();
            if count == 0 {
                Some(false)
            } else {
                Some(bytes_equal(name.as_slice(), candidate.exe_path[count - 1].as_slice()))
            }
        },
        ParentProbe::Unknown => None,
    }
}

/// The host process that was found.
#[derive(Clone, Copy, Debug, PartialEq, Eq)]
pub struct Gmod {
    /// Which of the candidates it is.
    pub candidate: usize,
    /// Its process id, where it could be read.
    pub process_id: Option<u32>,
    /// Whether it is a 32-bit process.
    pub x86: bool,
    /// How many of the leading names of its executable's path lead to the
    /// game root.
    pub root_depth: usize,
}

/// Whether `found` is what there is to find among `candidates`: the first
/// that qualifies, with what is known of it, or nothing where none does.
pub open spec fn is_first_host(candidates: Seq<Candidate>, found: Option<Gmod>) -> bool {
    match found {
        Some(gmod) => {
            &&& gmod.candidate < candidates.len()
            &&& qualifies(candidates[gmod.candidate as int]@)
            &&& forall|j: int| 0 <= j < gmod.candidate ==> !qualifies(#[trigger] candidates[j]@)
            &&& gmod.process_id == candidates[gmod.candidate as int].pid
            &&& Some(gmod.x86) == candidates[gmod.candidate as int].x86
            &&& Some(gmod.root_depth as nat) == game_root_of(
                candidates[gmod.candidate as int]@.names,
            )
        },
        None => forall|j: int| 0 <= j < candidates.len() ==> !qualifies(#[trigger] candidates[j]@),
    }
}

impl Gmod {
    /// Picks the host among the candidates: the first one that qualifies.
    /// Where none does there is nothing to inject into yet, and the caller
    /// looks again later.
    pub fn find(candidates: &Vec<Candidate>) -> (found: Option<Gmod>)
        ensures
            is_first_host(candidates@, found),
    {
        let mut index: usize = 0;
        while index < candidates.len()
            invariant
                index <= candidates@.len(),
                forall|j: int| 0 <= j < index ==> !qualifies(#[trigger] candidates@[j]@),
            decreases candidates@.len() - index,
        {
            let candidate = &candidates[index];
            if candidate.has_game_dir && candidate.payload_present {
                let root = game_root(&candidate.exe_path);
                match (root, candidate.x86, started_by_own_image(candidate)) {
                    (Some(root_depth), Some(x86), Some(false)) => {
                        return Some(
                            Gmod { candidate: index, process_id: candidate.pid, x86, root_depth },
                        );
                    },
                    _ => {},
                }
            }
            index = index + 1;
        }
        None
    }

    /// The host's process id, where it could be read.
    pub fn pid(&self) -> (pid: Option<u32>)
        ensures
            pid == self.process_id,
    {
        self.process_id
    }

    /// The platform of the host, which decides on the payload and on the
    /// signatures.
    pub fn platform(&self) -> (platform: Platform)
        ensures
            platform == (Platform {
                os: Os::Windows,
                width: if self.x86 {
                    PointerWidth::Bits32
                } else {
                    PointerWidth::Bits64
                },
            }),
    {
        Platform {
            os: Os::Windows,
            width: if self.x86 {
                PointerWidth::Bits32
            } else {
                PointerWidth::Bits64
            },
        }
    }

    /// Begins to load `payload` into the host. `file_size` is what the file
    /// system says of the payload file now. The plan that is returned says
    /// what to do first; where the payload file is missing or empty it is
    /// over at once, and the host is not touched.
    pub fn inject(
        &self,
        payload: &PayloadArtifact,
        file_size: Option<u64>,
        config: InjectConfig,
    ) -> (begun: (Injection, InjectAction))
        ensures
            begun == Injection::begin(terminated_size(payload@.len()) as usize, file_size, config),
            begun.0.consistent(),
            begun.1 is Finish <==> file_size is None || file_size == Some(0u64),
    {
        Injection::start(payload, file_size, config)
    }
}

/// Helpers of the host are left alone: a candidate whose parent bears the
/// candidate's own image name never qualifies, and one whose parent bears
/// another name is judged as if it had no parent.
pub proof fn lemma_subprocess_filter(candidate: CandidateFacts, parent_name: Seq<u8>)
    requires
        candidate.names.len() > 0,
    ensures
        !qualifies(
            CandidateFacts { parent: ParentFacts::Named(candidate.names.last()), ..candidate },
        ),
        parent_name != candidate.names.last() ==> qualifies(
            CandidateFacts { parent: ParentFacts::Named(parent_name), ..candidate },
        ) == qualifies(CandidateFacts { parent: ParentFacts::NoParent, ..candidate }),
{
}

} // verus!
