//! Path resolution: from the path of a request to the path of a file.

use crate::text::{find_last, last_char, last_index_of};
use vstd::prelude::*;

verus! {

/// Where the query of `p` begins: the index of its first `?`, or the
/// length of `p` if it has none.
pub open spec fn query_start(p: Seq<char>) -> int {
    match p.index_of_first('?') {
        Some(i) => i,
        None => p.len() as int,
    }
}

/// `p` without its query: everything before the first `?`.
pub open spec fn strip_query(p: Seq<char>) -> Seq<char> {
    p.take(query_start(p))
}

/// `segment` appended to `base`, with one `/` between them unless `base`
/// is empty or already ends with one.
pub open spec fn join(base: Seq<char>, segment: Seq<char>) -> Seq<char> {
    if base.len() == 0 || base.last() == '/' {
        base + segment
    } else {
        base + seq!['/'] + segment
    }
}

/// The name of the file that is served for a directory.
pub open spec fn index_file() -> Seq<char> {
    "index.html"@
}

/// The file path that a request path resolves to under `root_dir`: nothing
/// unless the request path begins with `/`; otherwise the root joined with
/// what stands between that `/` and the query, and then with the index
/// file's name if that part ends with `/`.
pub open spec fn resolve(request_path: Seq<char>, root_dir: Seq<char>) -> Option<Seq<char>> {
    if request_path.len() == 0 || request_path[0] != '/' {
        None
    } else {
        let trimmed = strip_query(request_path);
        let joined = join(root_dir, trimmed.skip(1));
        if trimmed.last() == '/' {
            Some(join(joined, index_file()))
        } else {
            Some(joined)
        }
    }
}

/// The last segment of `path`: what follows its last `/`.
pub open spec fn file_name(path: Seq<char>) -> Seq<char> {
    path.skip(last_index_of(path, '/') + 1)
}

/// The extension of `path`: what follows the last `.` of its file name.
/// A file name without a `.`, or whose only `.` is its first character,
/// has no extension.
pub open spec fn extension(path: Seq<char>) -> Option<Seq<char>> {
    let name = file_name(path);
    let dot = last_index_of(name, '.');
    if dot <= 0 {
        None
    } else {
        Some(name.skip(dot + 1))
    }
}

/// `query_start(p)` is the one index with no `?` before it that is either
/// the end of `p` or the place of a `?`.
pub proof fn lemma_query_start(p: Seq<char>, i: int)
    requires
        0 <= i <= p.len(),
        forall|j: int| 0 <= j < i ==> p[j] != '?',
        i < p.len() ==> p[i] == '?',
    ensures
        query_start(p) == i,
{
    p.index_of_first_ensures('?');
}

/// A request path that begins with `/` and, once its query is dropped,
/// does not end with `/` resolves to the root joined with what stands
/// between the leading `/` and the query.
pub proof fn lemma_resolve_file(request_path: Seq<char>, root_dir: Seq<char>)
    requires
        request_path.len() > 0,
        request_path[0] == '/',
        strip_query(request_path).last() != '/',
    ensures
        resolve(request_path, root_dir) == Some(
            join(root_dir, strip_query(request_path).skip(1)),
        ),
{
}

/// A request path that begins with `/` and, once its query is dropped,
/// ends with `/` resolves to the index file in the directory that the
/// path without that query names.
pub proof fn lemma_resolve_directory(request_path: Seq<char>, root_dir: Seq<char>)
    requires
        request_path.len() > 0,
        request_path[0] == '/',
        strip_query(request_path).last() == '/',
    ensures
        resolve(request_path, root_dir) == Some(
            join(join(root_dir, strip_query(request_path).skip(1)), index_file()),
        ),
{
}

/// A request path resolves to nothing exactly when it does not begin
/// with `/`.
pub proof fn lemma_resolve_needs_leading_slash(request_path: Seq<char>, root_dir: Seq<char>)
    ensures
        resolve(request_path, root_dir) is None <==> (request_path.len() == 0 || request_path[0]
            != '/'),
{
}

/// A query does not change what a path resolves to.
pub proof fn lemma_resolve_ignores_query(path: Seq<char>, query: Seq<char>, root_dir: Seq<char>)
    requires
        !path.contains('?'),
    ensures
        strip_query(path + seq!['?'] + query) == path,
        strip_query(path) == path,
        resolve(path + seq!['?'] + query, root_dir) == resolve(path, root_dir),
{
    let full = path + seq!['?'] + query;
    assert forall|j: int| 0 <= j < path.len() implies full[j] != '?' by {
        assert(full[j] == path[j]);
        assert(path.contains(path[j]));
    }
    lemma_query_start(full, path.len() as int);
    assert(full.take(path.len() as int) =~= path);
    assert forall|j: int| 0 <= j < path.len() implies path[j] != '?' by {
        assert(path.contains(path[j]));
    }
    lemma_query_start(path, path.len() as int);
    assert(path.take(path.len() as int) =~= path);
}

/// Every resolved path begins with the root: resolution adds to the root
/// and takes nothing from it.
pub proof fn lemma_resolved_under_root(request_path: Seq<char>, root_dir: Seq<char>)
    ensures
        match resolve(request_path, root_dir) {
            Some(p) => root_dir.is_prefix_of(p),
            None => true,
        },
{
    if let Some(p) = resolve(request_path, root_dir) {
        let rest = strip_query(request_path).skip(1);
        let joined = join(root_dir, rest);
        assert(root_dir.is_prefix_of(joined));
        assert(joined.is_prefix_of(join(joined, index_file())));
        assert(root_dir.is_prefix_of(p));
    }
}

/// Finds where the query of `p` begins.
pub fn find_query(p: &str) -> (end: usize)
    ensures
        end == query_start(p@),
{
    let n: usize = p.unicode_len();
    let mut i: usize = 0;
    let mut found: Option<usize> = None;
    for c in it: p.chars()
        invariant
            n == p@.len(),
            it.seq() == p@,
            i == it.index(),
            found is None ==> forall|j: int| 0 <= j < i ==> p@[j] != '?',
            found matches Some(k) ==> k < i && p@[k as int] == '?' && forall|j: int|
                0 <= j < k ==> p@[j] != '?',
    {
        if found.is_none() && c == '?' {
            found = Some(i);
        }
        i += 1;
    }
    let end: usize = match found {
        Some(k) => k,
        None => i,
    };
    proof {
        lemma_query_start(p@, end as int);
    }
    end
}

/// Appends `segment` to `path` as `join` describes.
pub fn push_segment(path: &mut String, segment: &str)
    ensures
        final(path)@ == join(old(path)@, segment@),
{
    let needs_separator = match last_char(path.as_str()) {
        Some(c) => c != '/',
        None => false,
    };
    if needs_separator {
        proof {
            reveal_strlit("/");
        }
        assert("/"@ =~= seq!['/']);
        path.append("/");
    }
    path.append(segment);
}

/// Resolves the path of a request to the path of a file under `root_dir`.
///
/// The query is dropped, the leading `/` is removed, and the rest is
/// appended to the root as it stands: nothing is decoded or normalised.
/// A path that ends with `/` names a directory and resolves to the index
/// file in it. A request path that does not begin with `/` resolves to
/// nothing.
pub fn local_path_for_request(request_path: &str, root_dir: &str) -> (resolved: Option<String>)
    ensures
        match resolved {
            Some(p) => resolve(request_path@, root_dir@) == Some(p@),
            None => resolve(request_path@, root_dir@) is None,
        },
{
    let n: usize = request_path.unicode_len();
    if n == 0 || request_path.get_char(0) != '/' {
        return None;
    }
    let end: usize = find_query(request_path);
    proof {
        request_path@.index_of_first_ensures('?');
    }
    let trimmed = request_path.substring_char(0, end);
    let rest = request_path.substring_char(1, end);
    assert(rest@ == strip_query(request_path@).skip(1));
    let mut path = root_dir.to_owned();
    push_segment(&mut path, rest);
    if last_char(trimmed) == Some('/') {
        push_segment(&mut path, "index.html");
    }
    Some(path)
}

/// The extension of the file that `path` names, if it has one.
pub fn path_extension(path: &str) -> (ext: Option<&str>)
    ensures
        match ext {
            Some(e) => extension(path@) == Some(e@),
            None => extension(path@) is None,
        },
{
    let n: usize = path.unicode_len();
    let start: usize = match find_last(path, '/') {
        Some(i) => i + 1,
        None => 0,
    };
    let name = path.substring_char(start, n);
    match find_last(name, '.') {
        Some(dot) => if dot == 0 {
            None
        } else {
            Some(name.substring_char(dot + 1, name.unicode_len()))
        },
        None => None,
    }
}

} // verus!
