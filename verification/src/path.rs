//! Host paths as the bytes that Unix gives them, taken apart as `std::path::Path` does there.

use vstd::prelude::*;
use vstd::slice::slice_subrange;
use vstd::slice::slice_to_vec;

use crate::text::printable;
use crate::text::std_from_utf8;
use crate::text::std_from_utf8_lossy;
use crate::text::text_of;

verus! {

/// The path separator, `/`.
pub const SLASH: u8 = 0x2f;

/// The separator of a file name and its extension, `.`.
pub const DOT: u8 = 0x2e;

/// Where the last component of `path` starts: just behind its last separator.
pub open spec fn name_start(path: Seq<u8>) -> int
    decreases path.len(),
{
    if path.len() == 0 || path.last() == SLASH {
        path.len() as int
    } else {
        name_start(path.drop_last())
    }
}

/// The final component of `path`, if it names a file.
///
/// Trailing separators and trailing `.` components do not count; a path that ends in `..`, is `.`
/// or consists of separators has no file name.
pub open spec fn file_name(path: Seq<u8>) -> Option<Seq<u8>>
    decreases path.len(),
{
    if path.len() == 0 {
        None
    } else if path.last() == SLASH {
        file_name(path.drop_last())
    } else {
        let start = name_start(path);
        let name = path.skip(start);
        if name == seq![DOT] {
            if start == 0 {
                None
            } else {
                file_name(path.drop_last())
            }
        } else if name == seq![DOT, DOT] {
            None
        } else {
            Some(name)
        }
    }
}

/// The position of the last dot in `name`, -1 where it has none.
pub open spec fn last_dot(name: Seq<u8>) -> int
    decreases name.len(),
{
    if name.len() == 0 {
        -1
    } else if name.last() == DOT {
        name.len() - 1
    } else {
        last_dot(name.drop_last())
    }
}

/// What follows the last dot of the file name; a leading dot does not start an extension.
pub open spec fn extension(path: Seq<u8>) -> Option<Seq<u8>> {
    match file_name(path) {
        Some(name) => if last_dot(name) <= 0 {
            None
        } else {
            Some(name.skip(last_dot(name) + 1))
        },
        None => None,
    }
}

/// A path on the host, which need not be UTF-8.
pub struct HostPath {
    bytes: Vec<u8>,
}

impl View for HostPath {
    type V = Seq<u8>;

    closed spec fn view(&self) -> Seq<u8> {
        self.bytes@
    }
}

impl Clone for HostPath {
    fn clone(&self) -> (copy: Self)
        ensures
            copy@ == self@,
    {
        HostPath { bytes: self.bytes.clone() }
    }
}

impl HostPath {
    /// The path made of `bytes`.
    pub fn new(bytes: Vec<u8>) -> (path: Self)
        ensures
            path@ == bytes@,
    {
        HostPath { bytes }
    }

    /// The bytes of the path.
    pub fn as_bytes(&self) -> (bytes: &[u8])
        ensures
            bytes@ == self@,
    {
        self.bytes.as_slice()
    }

    /// The path as text, if it is UTF-8.
    pub fn to_text(&self) -> (text: Option<String>)
        ensures
            text is Some <==> text_of(self@) is Some,
            text matches Some(t) ==> text_of(self@) == Some(t@),
    {
        std_from_utf8(self.bytes.as_slice())
    }

    /// The path as it appears in messages.
    pub fn display(&self) -> (text: String)
        ensures
            text@ == printable(self@),
    {
        std_from_utf8_lossy(self.bytes.as_slice())
    }

    /// Where the file name stands in the path, as start and end.
    fn file_name_bounds(&self) -> (bounds: Option<(usize, usize)>)
        ensures
            bounds is Some <==> file_name(self@) is Some,
            bounds matches Some((start, end)) ==> {
                &&& start <= end <= self@.len()
                &&& file_name(self@) == Some(self@.subrange(start as int, end as int))
            },
    {
        let mut end: usize = self.bytes.len();
        assert(self@.take(end as int) =~= self@);
        while end > 0
            invariant
                end <= self.bytes@.len(),
                file_name(self@) == file_name(self@.take(end as int)),
            decreases end,
        {
            let ghost path = self@.take(end as int);
            assert(path.drop_last() =~= self@.take(end - 1));
            if self.bytes[end - 1] == SLASH {
                end = end - 1;
            } else {
                let mut start: usize = end;
                while start > 0 && self.bytes[start - 1] != SLASH
                    invariant
                        start <= end <= self.bytes@.len(),
                        name_start(self@.take(end as int)) == name_start(self@.take(start as int)),
                    decreases start,
                {
                    assert(self@.take(start as int).drop_last() =~= self@.take(start - 1));
                    start = start - 1;
                }
                assert(name_start(path) == start);
                let ghost name = path.skip(start as int);
                assert(name =~= self@.subrange(start as int, end as int));
                if end - start == 1 && self.bytes[start] == DOT {
                    assert(name =~= seq![DOT]);
                    if start == 0 {
                        return None;
                    }
                    end = end - 1;
                } else if end - start == 2 && self.bytes[start] == DOT && self.bytes[start + 1] == DOT {
                    assert(name =~= seq![DOT, DOT]);
                    return None;
                } else {
                    assert(name != seq![DOT] && name != seq![DOT, DOT]) by {
                        assert(name.len() == end - start);
                        assert(name[0] == self@[start as int]);
                        assert(end - start == 2 ==> name[1] == self@[start + 1]);
                        assert(seq![DOT][0] == DOT && seq![DOT, DOT][1] == DOT);
                    }
                    return Some((start, end));
                }
            }
        }
        None
    }

    /// What follows the last dot of the file name.
    pub fn extension(&self) -> (ext: Option<Vec<u8>>)
        ensures
            ext is Some <==> extension(self@) is Some,
            ext matches Some(e) ==> extension(self@) == Some(e@),
    {
        match self.file_name_bounds() {
            None => None,
            Some((start, end)) => {
                let ghost name = self@.subrange(start as int, end as int);
                let mut dot: usize = end;
                assert(name.take(dot - start) =~= name);
                while dot > start && self.bytes[dot - 1] != DOT
                    invariant
                        start <= dot <= end <= self.bytes@.len(),
                        name == self@.subrange(start as int, end as int),
                        last_dot(name) == last_dot(name.take(dot - start)),
                    decreases dot,
                {
                    assert(name.take(dot - start).drop_last() =~= name.take(dot - 1 - start));
                    dot = dot - 1;
                }
                if dot - start <= 1 {
                    None
                } else {
                    let ext = slice_to_vec(slice_subrange(self.bytes.as_slice(), dot, end));
                    assert(ext@ =~= name.skip(last_dot(name) + 1));
                    Some(ext)
                }
            },
        }
    }
}

proof fn name_start_bounds(path: Seq<u8>)
    ensures
        0 <= name_start(path) <= path.len(),
        path.len() > 0 && path.last() != SLASH ==> name_start(path) < path.len(),
    decreases path.len(),
{
    if path.len() > 0 && path.last() != SLASH {
        name_start_bounds(path.drop_last());
    }
}

proof fn name_start_before_suffix(path: Seq<u8>, suffix: Seq<u8>)
    requires
        !suffix.contains(SLASH),
    ensures
        name_start(path + suffix) == name_start(path),
    decreases suffix.len(),
{
    if suffix.len() == 0 {
        assert(path + suffix =~= path);
    } else {
        assert(suffix.contains(suffix.last()));
        assert((path + suffix).drop_last() =~= path + suffix.drop_last());
        assert forall|b: u8| suffix.drop_last().contains(b) implies suffix.contains(b) by {
            let i = choose|i: int| 0 <= i < suffix.drop_last().len() && suffix.drop_last()[i] == b;
            assert(suffix[i] == b);
        }
        name_start_before_suffix(path, suffix.drop_last());
    }
}

proof fn last_dot_before_suffix(name: Seq<u8>, suffix: Seq<u8>)
    requires
        !suffix.contains(DOT),
    ensures
        last_dot(name + suffix) == last_dot(name),
    decreases suffix.len(),
{
    if suffix.len() == 0 {
        assert(name + suffix =~= name);
    } else {
        assert(suffix.contains(suffix.last()));
        assert((name + suffix).drop_last() =~= name + suffix.drop_last());
        assert forall|b: u8| suffix.drop_last().contains(b) implies suffix.contains(b) by {
            let i = choose|i: int| 0 <= i < suffix.drop_last().len() && suffix.drop_last()[i] == b;
            assert(suffix[i] == b);
        }
        last_dot_before_suffix(name, suffix.drop_last());
    }
}

/// A file whose name is a stem, a dot and `ext` has the extension `ext`, wherever it lies and
/// whatever its stem.
pub proof fn extension_follows_the_last_dot(stem: Seq<u8>, ext: Seq<u8>)
    requires
        stem.len() > 0,
        stem.last() != SLASH,
        ext.len() > 0,
        !ext.contains(SLASH),
        !ext.contains(DOT),
    ensures
        extension(stem + seq![DOT] + ext) == Some(ext),
{
    let path = stem + seq![DOT] + ext;
    let suffix = seq![DOT] + ext;
    assert(path =~= stem + suffix);
    assert(ext.contains(ext.last()));
    assert(!suffix.contains(SLASH)) by {
        if suffix.contains(SLASH) {
            let i = choose|i: int| 0 <= i < suffix.len() && suffix[i] == SLASH;
            assert(ext[i - 1] == SLASH);
        }
    }
    name_start_bounds(stem);
    name_start_before_suffix(stem, suffix);
    let start = name_start(path);
    let name = path.skip(start);
    assert(name.len() >= 3);
    let front = stem.skip(start) + seq![DOT];
    assert(name =~= front + ext);
    last_dot_before_suffix(front, ext);
    assert(front.last() == DOT);
    assert(last_dot(name) == front.len() - 1);
    assert(name.skip(last_dot(name) + 1) =~= ext);
}

/// A dot that is found is there, and it is found wherever there is one.
proof fn last_dot_is_a_dot(name: Seq<u8>)
    ensures
        -1 <= last_dot(name) < name.len(),
        last_dot(name) >= 0 ==> name[last_dot(name)] == DOT,
    decreases name.len(),
{
    if name.len() > 0 && name.last() != DOT {
        last_dot_is_a_dot(name.drop_last());
    }
}

/// What stands behind the last separator is the file name.
proof fn last_component_is_the_file_name(dir: Seq<u8>, name: Seq<u8>)
    requires
        dir.len() == 0 || dir.last() == SLASH,
        name.len() > 0,
        !name.contains(SLASH),
        name != seq![DOT],
    ensures
        file_name(dir + name) == if name == seq![DOT, DOT] {
            None
        } else {
            Some(name)
        },
{
    let path = dir + name;
    assert(name.contains(name.last()));
    assert(path.last() == name.last());
    name_start_before_suffix(dir, name);
    assert(path.skip(dir.len() as int) =~= name);
}

/// In whatever directory, a file name that is split by its last dot has the part behind it as its
/// extension, be it empty; a dot that the name begins with does not split it.
pub proof fn extension_is_behind_the_last_dot(dir: Seq<u8>, stem: Seq<u8>, ext: Seq<u8>)
    requires
        dir.len() == 0 || dir.last() == 0x2f,
        stem.len() > 0,
        !stem.contains(0x2f),
        !ext.contains(0x2f),
        !ext.contains(0x2e),
        stem != seq![0x2eu8] || ext.len() > 0,
    ensures
        extension(dir + (stem + seq![0x2eu8] + ext)) == Some(ext),
{
    let front = stem + seq![DOT];
    let name = front + ext;
    assert(name =~= stem + seq![0x2eu8] + ext);
    assert(!name.contains(SLASH)) by {
        if name.contains(SLASH) {
            let i = choose|i: int| 0 <= i < name.len() && name[i] == SLASH;
            if i < stem.len() {
                assert(stem[i] == SLASH);
            } else {
                assert(ext[i - front.len()] == SLASH);
            }
        }
    }
    assert(name.len() >= 2);
    assert(name != seq![DOT, DOT]) by {
        if name == seq![DOT, DOT] {
            assert(name[0] == stem[0]);
            assert(stem =~= seq![DOT]);
        }
    }
    last_component_is_the_file_name(dir, name);
    last_dot_before_suffix(front, ext);
    assert(front.last() == DOT);
    assert(name.skip(last_dot(name) + 1) =~= ext);
}

/// In whatever directory, a file name without a dot, or with none but the one that it begins with,
/// has no extension.
pub proof fn name_without_a_dot_has_no_extension(dir: Seq<u8>, name: Seq<u8>)
    requires
        dir.len() == 0 || dir.last() == 0x2f,
        name.len() > 0,
        !name.contains(0x2f),
        name != seq![0x2eu8],
        forall|i: int| 0 < i < name.len() ==> name[i] != 0x2e,
    ensures
        extension(dir + name) is None,
{
    last_component_is_the_file_name(dir, name);
    last_dot_is_a_dot(name);
}

/// Separators and `.` components at the end of a path do not count; a path that ends in `..`, and
/// one that is empty or `.`, has no extension.
pub proof fn end_of_a_path(path: Seq<u8>, dir: Seq<u8>)
    requires
        dir.len() == 0 || dir.last() == 0x2f,
    ensures
        extension(path + seq![0x2fu8]) == extension(path),
        extension(path + seq![0x2fu8, 0x2eu8]) == extension(path),
        extension(dir + seq![0x2eu8, 0x2eu8]) is None,
        extension(Seq::empty()) is None,
        extension(seq![0x2eu8]) is None,
{
    let slashed = path + seq![SLASH];
    assert(slashed.drop_last() =~= path);
    let dotted = path + seq![SLASH, DOT];
    assert(dotted.drop_last() =~= slashed);
    assert(dotted.skip(slashed.len() as int) =~= seq![DOT]);
    assert(slashed.last() == SLASH);
    assert(dotted.last() == DOT);
    assert(name_start(slashed) == slashed.len());
    assert(name_start(dotted) == slashed.len());
    assert(file_name(dotted) == file_name(slashed));
    last_component_is_the_file_name(dir, seq![DOT, DOT]);
    let dot = seq![DOT];
    assert(dot.drop_last() =~= Seq::<u8>::empty());
    assert(dot.skip(0) =~= dot);
    assert(name_start(dot.drop_last()) == 0);
    assert(dot.last() != SLASH);
    assert(name_start(dot) == 0);
}

} // verus!
