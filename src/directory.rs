//! The data directory as a map from relative path to contents, and what the
//! three commands do to it.
use vstd::prelude::*;

verus! {

/// The data directory: each relative path that names a file, with its text.
pub type Dir = Map<Seq<char>, Seq<char>>;

/// The reply to a read of a file that does not exist: an empty JSON array.
pub open spec fn empty_document() -> Seq<char> {
    seq!['[', ']']
}

/// What a read replies, given the file at the path (`None` where there is none).
pub open spec fn read_reply(file: Option<Seq<char>>) -> Seq<char> {
    match file {
        Some(c) => c,
        None => empty_document(),
    }
}

/// The file at `p` in `d`, if any.
pub open spec fn file_at(d: Dir, p: Seq<char>) -> Option<Seq<char>> {
    if d.contains_key(p) {
        Some(d[p])
    } else {
        None
    }
}

/// What a successful read of `p` replies.
pub open spec fn read_spec(d: Dir, p: Seq<char>) -> Seq<char> {
    read_reply(file_at(d, p))
}

/// The directory after a successful write of `c` to `p`: created or overwritten.
pub open spec fn write_spec(d: Dir, p: Seq<char>, c: Seq<char>) -> Dir {
    d.insert(p, c)
}

/// The directory after a successful delete of `p`: the file is gone, if it was there.
pub open spec fn delete_spec(d: Dir, p: Seq<char>) -> Dir {
    d.remove(p)
}

/// A path that holds no file reads as the empty document.
pub proof fn lemma_unwritten_reads_empty(d: Dir, p: Seq<char>)
    requires
        !d.contains_key(p),
    ensures
        read_spec(d, p) == empty_document(),
{
}

/// What was written to a path is what a read of it then returns.
pub proof fn lemma_write_then_read(d: Dir, p: Seq<char>, c: Seq<char>)
    ensures
        read_spec(write_spec(d, p, c), p) == c,
{
}

/// Deleting a path that holds no file leaves the directory as it was.
pub proof fn lemma_delete_absent_unchanged(d: Dir, p: Seq<char>)
    requires
        !d.contains_key(p),
    ensures
        delete_spec(d, p) == d,
{
    assert(d.remove(p) =~= d);
}

/// Of two writes to one path, the later one is what a read returns.
pub proof fn lemma_last_write_wins(d: Dir, p: Seq<char>, c1: Seq<char>, c2: Seq<char>)
    ensures
        read_spec(write_spec(write_spec(d, p, c1), p, c2), p) == c2,
{
}

/// After a write and then a delete of one path, a read of it returns the empty document.
pub proof fn lemma_delete_after_write_reads_empty(d: Dir, p: Seq<char>, c: Seq<char>)
    ensures
        read_spec(delete_spec(write_spec(d, p, c), p), p) == empty_document(),
{
}

/// A write or delete of one path leaves every other path as it was.
pub proof fn lemma_other_paths_unchanged(d: Dir, p: Seq<char>, q: Seq<char>, c: Seq<char>)
    requires
        p != q,
    ensures
        read_spec(write_spec(d, p, c), q) == read_spec(d, q),
        read_spec(delete_spec(d, p), q) == read_spec(d, q),
{
}

} // verus!
