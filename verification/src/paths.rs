//! File-system paths as the library handles them: opaque values carried
//! through configuration and errors, and component sequences compared when
//! checking whether two configured files are the same.

use std::path::PathBuf;
use vstd::prelude::*;

verus! {

/// Lets paths stand in signatures and fields; their contents are never read
/// by the library.
#[verifier::external_type_specification]
#[verifier::external_body]
pub struct ExPathBuf(PathBuf);

/// `PathBuf::clone` returns a copy of the path: the same path value.
pub assume_specification[ <PathBuf as Clone>::clone ](path: &PathBuf) -> (duplicate: PathBuf)
    ensures
        duplicate == *path,
;

/// One component of a path, with names held as the platform's encoded bytes.
#[derive(Clone, Debug, PartialEq, Eq)]
pub enum PathPart {
    /// A Windows path prefix such as `C:`.
    Prefix(Vec<u8>),
    /// The root directory separator.
    RootDir,
    /// A `.` component.
    CurDir,
    /// A `..` component.
    ParentDir,
    /// An ordinary name.
    Normal(Vec<u8>),
}

/// Plain-value image of a path component, used in specifications.
pub enum PathPartView {
    /// A Windows path prefix.
    Prefix(Seq<u8>),
    /// The root directory.
    RootDir,
    /// A `.` component.
    CurDir,
    /// A `..` component.
    ParentDir,
    /// An ordinary name.
    Normal(Seq<u8>),
}

impl View for PathPart {
    type V = PathPartView;

    open spec fn view(&self) -> PathPartView {
        match self {
            PathPart::Prefix(bytes) => PathPartView::Prefix(bytes@),
            PathPart::RootDir => PathPartView::RootDir,
            PathPart::CurDir => PathPartView::CurDir,
            PathPart::ParentDir => PathPartView::ParentDir,
            PathPart::Normal(bytes) => PathPartView::Normal(bytes@),
        }
    }
}

/// The views of a sequence of components.
pub open spec fn parts_view(parts: Seq<PathPart>) -> Seq<PathPartView> {
    parts.map_values(|part: PathPart| part@)
}

/// Lexical normalization of a component sequence: `.` is dropped and `..`
/// removes the preceding ordinary name when there is one (a root or prefix
/// is never removed); every other component is kept.
pub open spec fn normalized_parts(parts: Seq<PathPartView>) -> Seq<PathPartView>
    decreases parts.len(),
{
    if parts.len() == 0 {
        seq![]
    } else {
        let done = normalized_parts(parts.drop_last());
        match parts.last() {
            PathPartView::CurDir => done,
            PathPartView::ParentDir => if done.len() > 0 && done.last() is Normal {
                done.drop_last()
            } else {
                done
            },
            other => done.push(other),
        }
    }
}

/// A normalized sequence holds no `.` or `..` component.
pub open spec fn is_normalized(parts: Seq<PathPartView>) -> bool {
    forall|i: int| 0 <= i < parts.len() ==> !(parts[i] is CurDir) && !(parts[i] is ParentDir)
}

/// Normalizing a sequence never leaves a `.` or `..` component.
pub proof fn lemma_normalized_parts_is_normalized(parts: Seq<PathPartView>)
    ensures
        is_normalized(normalized_parts(parts)),
    decreases parts.len(),
{
    if parts.len() > 0 {
        lemma_normalized_parts_is_normalized(parts.drop_last());
    }
}

/// Normalizing twice is the same as normalizing once.
pub proof fn lemma_normalized_parts_idempotent(parts: Seq<PathPartView>)
    ensures
        normalized_parts(normalized_parts(parts)) == normalized_parts(parts),
{
    lemma_normalized_parts_is_normalized(parts);
    lemma_normalized_fixed_point(normalized_parts(parts));
}

/// A sequence without `.` or `..` components is left unchanged.
pub proof fn lemma_normalized_fixed_point(parts: Seq<PathPartView>)
    requires
        is_normalized(parts),
    ensures
        normalized_parts(parts) == parts,
    decreases parts.len(),
{
    if parts.len() > 0 {
        let init = parts.drop_last();
        assert(is_normalized(init)) by {
            assert forall|i: int| 0 <= i < init.len() implies !(init[i] is CurDir) && !(init[i] is ParentDir) by {
                assert(init[i] == parts[i]);
            }
        }
        lemma_normalized_fixed_point(init);
        assert(parts.last() == parts[parts.len() - 1]);
        assert(init.push(parts.last()) =~= parts);
    }
}

/// Normalizes a path lexically, without consulting the file system.
///
/// `.` components are dropped and `..` removes the preceding ordinary name;
/// a root directory or prefix is never removed.
pub fn normalize_lexically(parts: Vec<PathPart>) -> (normalized: Vec<PathPart>)
    ensures
        parts_view(normalized@) == normalized_parts(parts_view(parts@)),
{
    let mut normalized: Vec<PathPart> = Vec::new();
    let mut rest = parts;
    let ghost original = parts_view(rest@);
    let ghost mut done_len: int = 0;
    while rest.len() > 0
        invariant
            0 <= done_len <= original.len(),
            rest.len() == original.len() - done_len,
            parts_view(rest@) == original.subrange(done_len, original.len() as int),
            parts_view(normalized@) == normalized_parts(original.subrange(0, done_len)),
        decreases rest.len(),
    {
        let ghost rest_before = rest@;
        let part = rest.remove(0);
        let ghost before = parts_view(normalized@);
        proof {
            assert(rest_before[0] == part);
            assert(parts_view(rest_before)[0] == rest_before[0]@);
            assert(parts_view(rest_before)[0] == original.subrange(done_len, original.len() as int)[0]);
            assert(part@ == original[done_len]);
            assert(rest@ =~= rest_before.subrange(1, rest_before.len() as int));
            assert forall|i: int| 0 <= i < rest@.len() implies parts_view(rest@)[i]
                == original.subrange(done_len + 1, original.len() as int)[i] by {
                assert(parts_view(rest@)[i] == rest@[i]@);
                assert(rest@[i] == rest_before[i + 1]);
                assert(parts_view(rest_before)[i + 1] == rest_before[i + 1]@);
                assert(parts_view(rest_before)[i + 1] == original.subrange(done_len, original.len() as int)[i + 1]);
            }
            assert(parts_view(rest@) =~= original.subrange(done_len + 1, original.len() as int));
            assert(original.subrange(0, done_len + 1).drop_last() =~= original.subrange(0, done_len));
            assert(original.subrange(0, done_len + 1).last() == original[done_len]);
        }
        match part {
            PathPart::CurDir => {},
            PathPart::ParentDir => {
                let pop = match normalized.last() {
                    Some(PathPart::Normal(_)) => true,
                    _ => false,
                };
                if pop {
                    normalized.pop();
                    proof {
                        assert(parts_view(normalized@) =~= before.drop_last());
                    }
                }
            },
            other => {
                normalized.push(other);
                proof {
                    assert(parts_view(normalized@) =~= before.push(part@));
                }
            },
        }
        proof {
            done_len = done_len + 1;
        }
    }
    proof {
        assert(original.subrange(0, done_len) =~= original);
    }
    normalized
}

} // verus!
