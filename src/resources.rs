//! Text resources: how a logical resource name maps to a path under the
//! resource root, and which file contents make a valid shader text.

use vstd::prelude::*;

verus! {

/// Declares `std::io::Error`, carried unchanged as the cause of a failed
/// read; nothing is assumed of what it holds.
#[verifier::external_type_specification]
#[verifier::external_body]
pub struct ExIoError(std::io::Error);

/// Why a resource could not be loaded.
#[derive(Debug)]
pub enum Error {
    /// Reading the file failed.
    Io(std::io::Error),
    /// The directory of the running executable could not be found.
    FailedToGetExePath,
    /// The file holds a NUL byte, so it cannot be handed to the driver as text.
    FileContainsNil,
}

/// The resource root, a directory whose files are named by logical paths.
pub struct Resources {
    root_path: String,
}

/// The segments of a path joined with `/`.
pub open spec fn join_segments(segments: Seq<Seq<char>>) -> Seq<char>
    decreases segments.len(),
{
    if segments.len() == 0 {
        seq![]
    } else if segments.len() == 1 {
        segments[0]
    } else {
        join_segments(segments.drop_last()) + seq!['/'] + segments.last()
    }
}

/// The views of a list of strings.
pub open spec fn views(strings: Seq<String>) -> Seq<Seq<char>> {
    strings.map_values(|s: String| s@)
}

/// A list of path components under `root`: `root` itself first, then the
/// slash-free segments of `location`, which joined with `/` give `location`
/// back.
pub open spec fn is_resource_path(path: Seq<String>, root: Seq<char>, location: Seq<char>) -> bool {
    &&& path.len() >= 2
    &&& path[0]@ == root
    &&& join_segments(views(path.skip(1))) == location
    &&& forall|i: int| 1 <= i < path.len() ==> !(#[trigger] path[i]@).contains('/')
}

proof fn lemma_join_extend(segments: Seq<Seq<char>>, last: Seq<char>, c: char)
    ensures
        join_segments(segments.push(last.push(c))) == join_segments(segments.push(last)).push(c),
{
    assert(segments.push(last.push(c)).drop_last() =~= segments);
    assert(segments.push(last).drop_last() =~= segments);
    if segments.len() > 0 {
        assert(join_segments(segments) + seq!['/'] + last.push(c) =~= (join_segments(segments)
            + seq!['/'] + last).push(c));
    }
}

proof fn lemma_join_split(segments: Seq<Seq<char>>, last: Seq<char>)
    ensures
        join_segments(segments.push(last).push(seq![])) == join_segments(segments.push(last)).push(
            '/',
        ),
{
    assert(segments.push(last).push(seq![]).drop_last() =~= segments.push(last));
    assert(join_segments(segments.push(last)) + seq!['/'] + Seq::<char>::empty() =~= join_segments(
        segments.push(last),
    ).push('/'));
}

/// The path of the resource `location` under `root_dir`: `root_dir`, then
/// each `/`-separated part of `location`.
pub fn resource_name_to_path(root_dir: &String, location: &str) -> (r: Vec<String>)
    ensures
        is_resource_path(r@, root_dir@, location@),
{
    let n = location.unicode_len();
    let mut path: Vec<String> = Vec::new();
    path.push(root_dir.clone());
    let mut start: usize = 0;
    let mut i: usize = 0;
    while i < n
        invariant
            n == location@.len(),
            start <= i <= n,
            path@.len() >= 1,
            path@[0]@ == root_dir@,
            join_segments(views(path@.skip(1)).push(location@.subrange(start as int, i as int)))
                == location@.subrange(0, i as int),
            forall|k: int| 1 <= k < path@.len() ==> !(#[trigger] path@[k]@).contains('/'),
            !location@.subrange(start as int, i as int).contains('/'),
        decreases n - i,
    {
        let c = location.get_char(i);
        let ghost before = views(path@.skip(1));
        let ghost cur = location@.subrange(start as int, i as int);
        if c == '/' {
            let seg = location.substring_char(start, i).to_owned();
            path.push(seg);
            start = i + 1;
            proof {
                assert(views(path@.skip(1)) =~= before.push(cur));
                lemma_join_split(before, cur);
                assert(location@.subrange(start as int, i as int + 1) =~= Seq::<char>::empty());
                assert(location@.subrange(0, i as int + 1) =~= location@.subrange(0, i as int).push(
                    c,
                ));
            }
        } else {
            proof {
                lemma_join_extend(before, cur, c);
                assert(location@.subrange(start as int, i as int + 1) =~= cur.push(c));
                assert(location@.subrange(0, i as int + 1) =~= location@.subrange(0, i as int).push(
                    c,
                ));
                assert forall|j: int| 0 <= j < cur.push(c).len() implies cur.push(c)[j] != '/' by {
                    if j < cur.len() {
                        assert(cur[j] == cur.push(c)[j]);
                    }
                }
            }
        }
        i = i + 1;
    }
    let ghost before = views(path@.skip(1));
    let last = location.substring_char(start, n).to_owned();
    path.push(last);
    proof {
        assert(views(path@.skip(1)) =~= before.push(location@.subrange(start as int, n as int)));
        assert(location@.subrange(0, n as int) =~= location@);
    }
    path
}

/// Whether `bytes` holds a zero byte.
pub open spec fn contains_nul(bytes: Seq<u8>) -> bool {
    exists|i: int| 0 <= i < bytes.len() && bytes[i] == 0
}

/// Accepts file contents as shader text: any bytes but NUL.
pub fn cstring_from_bytes(bytes: Vec<u8>) -> (r: Result<Vec<u8>, Error>)
    ensures
        !contains_nul(bytes@) ==> (r matches Ok(b) && b@ == bytes@),
        contains_nul(bytes@) ==> r matches Err(Error::FileContainsNil),
{
    let mut i: usize = 0;
    while i < bytes.len()
        invariant
            i <= bytes@.len(),
            forall|k: int| 0 <= k < i ==> bytes@[k] != 0,
        decreases bytes@.len() - i,
    {
        if bytes[i] == 0 {
            return Err(Error::FileContainsNil);
        }
        i = i + 1;
    }
    Ok(bytes)
}

impl Resources {
    /// A resource root at `root_path`.
    pub fn new(root_path: String) -> (r: Resources)
        ensures
            r.root()@ == root_path@,
    {
        Resources { root_path }
    }

    pub closed spec fn root(&self) -> String {
        self.root_path
    }

    pub fn root_path(&self) -> (r: &String)
        ensures
            *r == self.root(),
    {
        &self.root_path
    }

    /// The path components of the resource `resource_name`.
    pub fn path_of(&self, resource_name: &str) -> (r: Vec<String>)
        ensures
            is_resource_path(r@, self.root()@, resource_name@),
    {
        resource_name_to_path(&self.root_path, resource_name)
    }
}

} // verus!
