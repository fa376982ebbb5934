//! Paths as the bytes that a Unix system uses for them.

use vstd::prelude::*;
use vstd::utf8::*;

verus! {

/// The byte that separates the components of a path.
pub const SEPARATOR: u8 = 0x2f;

/// The path of `name` as seen from `dir`: `name` itself if it is absolute, else
/// `dir` with `name` appended, parted by one separator unless `dir` is empty or
/// ends with one.
pub open spec fn joined(dir: Seq<u8>, name: Seq<u8>) -> Seq<u8> {
    if name.len() > 0 && name.first() == SEPARATOR {
        name
    } else if dir.len() == 0 || dir.last() == SEPARATOR {
        dir + name
    } else {
        dir.push(SEPARATOR) + name
    }
}

pub fn join(dir: &Vec<u8>, name: &[u8]) -> (path: Vec<u8>)
    ensures
        path@ == joined(dir@, name@),
{
    let mut path: Vec<u8> = Vec::new();
    if name.len() == 0 || name[0] != SEPARATOR {
        let mut i: usize = 0;
        while i < dir.len()
            invariant
                i <= dir.len(),
                path@ == dir@.take(i as int),
            decreases dir.len() - i,
        {
            path.push(dir[i]);
            i = i + 1;
        }
        if dir.len() > 0 && dir[dir.len() - 1] != SEPARATOR {
            path.push(SEPARATOR);
        }
    }
    let ghost base = path@;
    let mut i: usize = 0;
    while i < name.len()
        invariant
            i <= name.len(),
            path@ == base + name@.take(i as int),
        decreases name.len() - i,
    {
        path.push(name[i]);
        i = i + 1;
    }
    assert(dir@.take(dir@.len() as int) =~= dir@);
    assert(name@.take(name@.len() as int) =~= name@);
    path
}

/// What `String::from_utf8_lossy` makes of `bytes`.
pub uninterp spec fn utf8_lossy(bytes: Seq<u8>) -> Seq<char>;

/// The text of a path, by `String::from_utf8_lossy`, which depends on the bytes
/// alone. Bytes that are valid UTF-8 are decoded; what stands in the place of
/// any others is not stated.
#[verifier::external_body]
pub(crate) fn display(path: &Vec<u8>) -> (text: String)
    ensures
        text@ == utf8_lossy(path@),
        valid_utf8(path@) ==> text@ == decode_utf8(path@),
{
    String::from_utf8_lossy(path).into_owned()
}

/// A relative name joined to a directory leaves the directory's path in front
/// and the name at the end.
pub proof fn joined_lies_below(dir: Seq<u8>, name: Seq<u8>)
    requires
        name.len() > 0,
        name.first() != SEPARATOR,
    ensures
        dir.is_prefix_of(joined(dir, name)),
        name.is_suffix_of(joined(dir, name)),
{
}

/// Different relative names joined to one directory give different paths.
pub proof fn joined_is_injective(dir: Seq<u8>, name: Seq<u8>, other: Seq<u8>)
    requires
        name.len() > 0,
        name.first() != SEPARATOR,
        other.len() > 0,
        other.first() != SEPARATOR,
        joined(dir, name) == joined(dir, other),
    ensures
        name == other,
{
    let base = if dir.len() == 0 || dir.last() == SEPARATOR {
        dir
    } else {
        dir.push(SEPARATOR)
    };
    assert(name =~= joined(dir, name).skip(base.len() as int));
    assert(other =~= joined(dir, other).skip(base.len() as int));
}

/// A path is joined from its parts: an absolute name stands alone; before any
/// other stands all of the directory's path, and between the two a single slash,
/// unless the directory's path is empty or has one at its end.
pub proof fn joined_is_made_of_its_parts(dir: Seq<u8>, name: Seq<u8>) -> (slashes: nat)
    ensures
        name.len() > 0 && name[0] == 0x2fu8 ==> joined(dir, name) == name,
        name.len() == 0 || name[0] != 0x2fu8 ==> {
            &&& joined(dir, name).len() == dir.len() + slashes + name.len()
            &&& joined(dir, name).take(dir.len() as int) == dir
            &&& joined(dir, name).skip((dir.len() + slashes) as int) == name
            &&& slashes == 1 ==> joined(dir, name)[dir.len() as int] == 0x2fu8
            &&& slashes == if dir.len() == 0 || dir[dir.len() - 1] == 0x2fu8 {
                0nat
            } else {
                1nat
            }
        },
{
    let slashes: nat = if dir.len() == 0 || dir[dir.len() - 1] == 0x2fu8 {
        0
    } else {
        1
    };
    if name.len() == 0 || name[0] != 0x2fu8 {
        assert(joined(dir, name).take(dir.len() as int) =~= dir);
        assert(joined(dir, name).skip((dir.len() + slashes) as int) =~= name);
    }
    slashes
}

} // verus!
