//! The integrity check of the Lua files that DCS-gRPC installs: each file's hash must be
//! the one recorded when the server was built.
use std::collections::hash_map::DefaultHasher;
use std::hash::Hasher;
use vstd::prelude::*;
use vstd::std_specs::hash::DefaultHasherAdditionalSpecFns;

verus! {

/// The size of the pieces in which a file is fed to the hasher.
pub open spec fn hash_chunk_len() -> nat {
    1024
}

/// The pieces in which `data` is fed to the hasher: 1024 bytes each, the last one shorter.
pub open spec fn hash_chunks(data: Seq<u8>) -> Seq<Seq<u8>>
    decreases data.len(),
{
    if data.len() == 0 {
        Seq::empty()
    } else if data.len() <= hash_chunk_len() {
        seq![data]
    } else {
        seq![data.subrange(0, hash_chunk_len() as int)] + hash_chunks(
            data.subrange(hash_chunk_len() as int, data.len() as int),
        )
    }
}

/// The hash of a file's contents: std's `DefaultHasher`, fed in pieces of 1024 bytes.
pub fn file_hash(data: &[u8]) -> (r: u64)
    ensures
        r == DefaultHasher::spec_finish(hash_chunks(data@)),
{
    let mut hasher = DefaultHasher::new();
    let n = data.len();
    let mut pos: usize = 0;
    assert(data@.subrange(0, n as int) =~= data@);
    while pos < n
        invariant
            n == data@.len(),
            pos <= n,
            hasher@ + hash_chunks(data@.subrange(pos as int, n as int)) == hash_chunks(data@),
        decreases n - pos,
    {
        let end = if n - pos > 1024 {
            pos + 1024
        } else {
            n
        };
        let chunk = vstd::slice::slice_subrange(data, pos, end);
        proof {
            let rest = data@.subrange(pos as int, n as int);
            assert(rest.subrange(0, (end - pos) as int) =~= chunk@);
            if n - pos > 1024 {
                assert(rest.subrange(1024, rest.len() as int) =~= data@.subrange(
                    end as int,
                    n as int,
                ));
                assert(hash_chunks(rest) == seq![chunk@] + hash_chunks(
                    data@.subrange(end as int, n as int),
                ));
            } else {
                assert(rest =~= chunk@);
                assert(data@.subrange(end as int, n as int) =~= Seq::<u8>::empty());
                assert(hash_chunks(rest) == seq![chunk@]);
            }
        }
        let ghost before = hasher@;
        hasher.write(chunk);
        proof {
            assert(hasher@ =~= before.push(chunk@));
            assert(hasher@ + hash_chunks(data@.subrange(end as int, n as int)) =~= before
                + hash_chunks(data@.subrange(pos as int, n as int)));
        }
        pos = end;
    }
    proof {
        assert(data@.subrange(n as int, n as int) =~= Seq::<u8>::empty());
        assert(hasher@ =~= hash_chunks(data@));
    }
    hasher.finish()
}

/// Why the integrity check failed.
#[derive(Clone, Debug)]
pub enum IntegrityError {
    /// The file at `path` could not be opened, for the reason `error`.
    Read { path: String, error: String },
    /// The file at `path` could not be read to the end, for the reason `error`.
    Hash { path: String, error: String },
    /// The file at `path` is not the one that was installed.
    HashMismatch { path: String },
}

/// The text of an integrity error.
pub open spec fn integrity_error_text(e: IntegrityError) -> Seq<char> {
    "integrity check failed "@ + match e {
        IntegrityError::Read { path, error } => "(could not read `"@ + path@ + "`: "@ + error@
            + ")"@,
        IntegrityError::Hash { path, error } => "(could not create hash for `"@ + path@ + "`: "@
            + error@ + ")"@,
        IntegrityError::HashMismatch { path } => "(hash mismatch of `"@ + path@ + "`)"@,
    } + ", DCS-gRPC is not started, please check your installation"@
}

impl IntegrityError {
    /// The text of the error.
    pub fn message(&self) -> (r: String)
        ensures
            r@ == integrity_error_text(*self),
    {
        let mut s = String::from_str("integrity check failed ");
        match self {
            IntegrityError::Read { path, error } => {
                s.append("(could not read `");
                s.append(path.as_str());
                s.append("`: ");
                s.append(error.as_str());
                s.append(")");
            },
            IntegrityError::Hash { path, error } => {
                s.append("(could not create hash for `");
                s.append(path.as_str());
                s.append("`: ");
                s.append(error.as_str());
                s.append(")");
            },
            IntegrityError::HashMismatch { path } => {
                s.append("(hash mismatch of `");
                s.append(path.as_str());
                s.append("`)");
            },
        }
        s.append(", DCS-gRPC is not started, please check your installation");
        assert(s@ =~= integrity_error_text(*self));
        s
    }
}

/// What reading one of the checked files gave.
#[derive(Clone, Debug)]
pub enum FileRead {
    /// The file could not be opened, for the reason given.
    OpenFailed(String),
    /// The file could not be read to the end, for the reason given.
    ReadFailed(String),
    /// The file's contents.
    Contents(Vec<u8>),
}

/// Checks one file against its recorded hash: a file that cannot be opened or read, or whose
/// hash is not the recorded one, fails the check.
pub fn check_file(path: String, expected_hash: u64, read: FileRead) -> (r: Result<
    (),
    IntegrityError,
>)
    ensures
        match read {
            FileRead::OpenFailed(e) => r matches Err(IntegrityError::Read { path: p, error })
                && p@ == path@ && error@ == e@,
            FileRead::ReadFailed(e) => r matches Err(IntegrityError::Hash { path: p, error })
                && p@ == path@ && error@ == e@,
            FileRead::Contents(data) => if DefaultHasher::spec_finish(hash_chunks(data@))
                == expected_hash {
                r is Ok
            } else {
                r matches Err(IntegrityError::HashMismatch { path: p }) && p@ == path@
            },
        },
{
    match read {
        FileRead::OpenFailed(error) => Err(IntegrityError::Read { path, error }),
        FileRead::ReadFailed(error) => Err(IntegrityError::Hash { path, error }),
        FileRead::Contents(data) => {
            let hash = file_hash(data.as_slice());
            if hash != expected_hash {
                return Err(IntegrityError::HashMismatch { path });
            }
            Ok(())
        },
    }
}

} // verus!
