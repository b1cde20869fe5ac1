//! Counting artifacts: the generator drops its output files directly into
//! the target directory, and progress is measured as the number of entries
//! whose name carries the artifact extension (`zip`). File names are handled
//! as raw bytes, so any name the directory can hold is counted exactly; the
//! directory walk itself happens outside the library, which is handed the
//! plain list of names.

use vstd::prelude::*;

verus! {

/// The byte of `'.'`, the extension separator.
pub const DOT: u8 = 46;

/// The artifact extension, as bytes: `zip`.
pub open spec fn artifact_extension() -> Seq<u8> {
    seq![122u8, 105u8, 112u8]
}

/// Whether a file name carries `ext` as its extension, with the usual path
/// semantics: the extension is everything after the last `.`, and it exists
/// only when that last `.` is neither absent nor the name's first byte (a
/// leading-dot name with no other dot, like `.zip`, has no extension).
pub open spec fn has_extension(name: Seq<u8>, ext: Seq<u8>) -> bool {
    exists|i: int|
        0 < i < name.len() && name[i] == DOT && (forall|j: int|
            i < j < name.len() ==> name[j] != DOT) && name.skip(i + 1) =~= ext
}

/// Whether a file name counts as an artifact.
pub open spec fn is_artifact_name(name: Seq<u8>) -> bool {
    has_extension(name, artifact_extension())
}

/// How many of the names are artifact names.
pub open spec fn artifact_count(names: Seq<Seq<u8>>) -> nat
    decreases names.len(),
{
    if names.len() == 0 {
        0
    } else {
        artifact_count(names.drop_last()) + if is_artifact_name(names.last()) {
            1nat
        } else {
            0nat
        }
    }
}

/// The position of the last `.` in the name, or `None` when it has none.
fn last_dot(name: &Vec<u8>) -> (r: Option<usize>)
    ensures
        match r {
            Some(i) => i < name@.len() && name@[i as int] == DOT && (forall|j: int|
                i < j < name@.len() ==> name@[j] != DOT),
            None => forall|j: int| 0 <= j < name@.len() ==> name@[j] != DOT,
        },
{
    let mut i: usize = name.len();
    while i > 0
        invariant
            i <= name@.len(),
            forall|j: int| i <= j < name@.len() ==> name@[j] != DOT,
        decreases i,
    {
        i = i - 1;
        if name[i] == DOT {
            return Some(i);
        }
    }
    None
}

/// There is at most one "last dot": whenever a name has an extension at all,
/// it lies just after the dot that has no dot behind it.
proof fn lemma_extension_at_last_dot(name: Seq<u8>, ext: Seq<u8>, i: int)
    requires
        0 <= i < name.len(),
        name[i] == DOT,
        forall|j: int| i < j < name.len() ==> name[j] != DOT,
        has_extension(name, ext),
    ensures
        i > 0,
        name.skip(i + 1) =~= ext,
{
    let m = choose|m: int|
        0 < m < name.len() && name[m] == DOT && (forall|j: int|
            m < j < name.len() ==> name[j] != DOT) && name.skip(m + 1) =~= ext;
    if m < i {
        assert(name[i] == DOT);
        assert(false);
    }
    if m > i {
        assert(name[m] != DOT);
        assert(false);
    }
}

/// Whether the name's extension is exactly `ext`.
pub fn name_has_extension(name: &Vec<u8>, ext: &Vec<u8>) -> (r: bool)
    ensures
        r == has_extension(name@, ext@),
{
    match last_dot(name) {
        None => {
            assert(!has_extension(name@, ext@));
            false
        },
        Some(i) => {
            if i == 0 {
                assert(!has_extension(name@, ext@)) by {
                    if has_extension(name@, ext@) {
                        lemma_extension_at_last_dot(name@, ext@, 0);
                    }
                }
                return false;
            }
            let suffix_len = name.len() - i - 1;
            if suffix_len != ext.len() {
                assert(!has_extension(name@, ext@)) by {
                    if has_extension(name@, ext@) {
                        lemma_extension_at_last_dot(name@, ext@, i as int);
                        assert(name@.skip(i + 1).len() == ext@.len());
                    }
                }
                return false;
            }
            let mut k: usize = 0;
            while k < suffix_len
                invariant
                    k <= suffix_len,
                    0 < i < name@.len(),
                    name@.len() <= usize::MAX,
                    name@[i as int] == DOT,
                    forall|j: int| i < j < name@.len() ==> name@[j] != DOT,
                    suffix_len == name@.len() - i - 1,
                    suffix_len == ext@.len(),
                    forall|j: int| 0 <= j < k ==> name@[i + 1 + j] == ext@[j],
                decreases suffix_len - k,
            {
                if name[i + 1 + k] != ext[k] {
                    assert(!has_extension(name@, ext@)) by {
                        if has_extension(name@, ext@) {
                            lemma_extension_at_last_dot(name@, ext@, i as int);
                            assert(name@.skip(i + 1)[k as int] == ext@[k as int]);
                        }
                    }
                    return false;
                }
                k = k + 1;
            }
            assert(name@.skip(i + 1) =~= ext@);
            assert(has_extension(name@, ext@));
            true
        },
    }
}

/// Whether a file name counts as an artifact: its extension is `zip`.
pub fn is_artifact(name: &Vec<u8>) -> (r: bool)
    ensures
        r == is_artifact_name(name@),
{
    let mut ext: Vec<u8> = Vec::new();
    ext.push(122);
    ext.push(105);
    ext.push(112);
    assert(ext@ =~= artifact_extension());
    name_has_extension(name, &ext)
}

/// Count the artifact names in a directory listing. This is the whole
/// completion measurement: the count is derived fresh from the names handed
/// in, never cached.
pub fn count_artifacts(names: &Vec<Vec<u8>>) -> (r: usize)
    ensures
        r == artifact_count(names@.map_values(|n: Vec<u8>| n@)),
{
    let ghost vnames = names@.map_values(|n: Vec<u8>| n@);
    let mut count: usize = 0;
    let mut idx: usize = 0;
    assert(vnames.take(0) =~= Seq::<Seq<u8>>::empty());
    while idx < names.len()
        invariant
            idx <= names@.len(),
            vnames == names@.map_values(|n: Vec<u8>| n@),
            count <= idx,
            count == artifact_count(vnames.take(idx as int)),
        decreases names@.len() - idx,
    {
        let hit = is_artifact(&names[idx]);
        proof {
            assert(vnames.take(idx + 1).drop_last() =~= vnames.take(idx as int));
            assert(vnames.take(idx + 1).last() == vnames[idx as int]);
            assert(vnames[idx as int] == names@[idx as int]@);
        }
        if hit {
            count = count + 1;
        }
        idx = idx + 1;
    }
    assert(vnames.take(names@.len() as int) =~= vnames);
    count
}

} // verus!
