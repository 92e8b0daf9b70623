//! Where a stored image is found: the storage directory joined with a single
//! path segment that cannot leave it.
use vstd::prelude::*;
use crate::errors::ServiceError;

verus! {

/// A file name that names an entry of the storage directory itself: not
/// empty, without `/`, and neither `.` nor `..`.
pub open spec fn is_safe_segment(s: Seq<char>) -> bool {
    &&& s.len() > 0
    &&& !s.contains('/')
    &&& s != seq!['.']
    &&& s != seq!['.', '.']
}

/// `dir` joined with a relative `name`, as `std::path::Path::join` does: no
/// separator is added after an empty directory or one that ends in `/`.
pub open spec fn join_path_of(dir: Seq<char>, name: Seq<char>) -> Seq<char> {
    if dir.len() == 0 {
        name
    } else if dir.last() == '/' {
        dir + name
    } else {
        dir + seq!['/'] + name
    }
}

/// The path a retrieval of `name` reads, or `None` for a name that would
/// reach outside the storage directory.
pub open spec fn retrieval_path_of(dir: Seq<char>, name: Seq<char>) -> Option<Seq<char>> {
    if is_safe_segment(name) {
        Some(join_path_of(dir, name))
    } else {
        None
    }
}

/// Whether `s` is a safe path segment.
pub fn safe_segment(s: &str) -> (r: bool)
    ensures
        r == is_safe_segment(s@),
{
    let n = s.unicode_len();
    if n == 0 {
        return false;
    }
    let mut i: usize = 0;
    while i < n
        invariant
            n == s@.len(),
            i <= n,
            forall|j: int| 0 <= j < i ==> s@[j] != '/',
        decreases n - i,
    {
        if s.get_char(i) == '/' {
            return false;
        }
        i = i + 1;
    }
    if n <= 2 {
        let first = s.get_char(0);
        let last = s.get_char(n - 1);
        if first == '.' && last == '.' {
            assert(n == 1 ==> s@ =~= seq!['.']);
            assert(n == 2 ==> s@ =~= seq!['.', '.']);
            return false;
        }
    }
    proof {
        lemma_safe_after_scan(s, n);
    }
    true
}

proof fn lemma_safe_after_scan(s: &str, n: usize)
    requires
        n == s@.len(),
        n > 0,
        forall|j: int| 0 <= j < n ==> s@[j] != '/',
        n <= 2 ==> !(s@[0] == '.' && s@[n - 1] == '.'),
    ensures
        is_safe_segment(s@),
{
    if s@ == seq!['.'] {
        assert(s@[0] == '.');
    }
    if s@ == seq!['.', '.'] {
        assert(s@[0] == '.' && s@[1] == '.');
    }
}

/// `dir` joined with the relative path `name`.
pub fn join_path(dir: &str, name: &str) -> (r: String)
    ensures
        r@ == join_path_of(dir@, name@),
{
    let n = dir.unicode_len();
    let mut r = String::from_str(dir);
    if n > 0 && dir.get_char(n - 1) != '/' {
        r.append("/");
        proof {
            reveal_strlit("/");
        }
    }
    r.append(name);
    r
}

/// The file to read for a request of `filename` under `storage_path`; a name
/// that would leave the storage directory is answered as absent.
pub fn retrieval_path(storage_path: &str, filename: &str) -> (r: Result<String, ServiceError>)
    ensures
        match retrieval_path_of(storage_path@, filename@) {
            Some(p) => r is Ok && r.unwrap()@ == p,
            None => r == Err::<String, ServiceError>(ServiceError::NotFound),
        },
{
    if safe_segment(filename) {
        Ok(join_path(storage_path, filename))
    } else {
        Err(ServiceError::NotFound)
    }
}

/// The condition a failed read of a stored image ends in: `NotFound` when the
/// file does not exist, a storage failure otherwise.
pub fn read_failure(missing: bool) -> (r: ServiceError)
    ensures
        r == (if missing { ServiceError::NotFound } else { ServiceError::StorageIo }),
{
    if missing {
        ServiceError::NotFound
    } else {
        ServiceError::StorageIo
    }
}

} // verus!
