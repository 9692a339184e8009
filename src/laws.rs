use vstd::prelude::*;

use crate::archive::{EntryView, SiteError, decodes, first_match, listing, no_match, serves};
use crate::response::{
    ReplyModel, STATUS_METHOD_NOT_ALLOWED, STATUS_NOT_FOUND, STATUS_OK, answers, plain, redirect,
    served,
};
use crate::route::{is_absolute, is_root, lookup_key};

verus! {

/// A request with a method other than GET is refused with 405 and an empty
/// body, whatever its path and whatever the archive holds.
pub proof fn other_methods_are_refused(path: Seq<char>, site: Seq<u8>, r: Result<ReplyModel, SiteError>)
    requires
        answers(false, path, site, r),
    ensures
        r == Ok::<ReplyModel, SiteError>(plain(STATUS_METHOD_NOT_ALLOWED)),
{
}

/// A GET request for `/` is redirected to the canonical document with an
/// empty body, whatever the archive holds.
pub proof fn root_is_redirected(site: Seq<u8>, r: Result<ReplyModel, SiteError>)
    requires
        answers(true, seq!['/'], site, r),
    ensures
        r == Ok::<ReplyModel, SiteError>(ReplyModel { head: redirect(), body: None }),
{
}

/// Two entries that are both the first to serve a key are the same entry.
proof fn first_match_is_unique(l: Seq<EntryView>, key: Seq<char>, i: int, j: int)
    requires
        first_match(l, key, i),
        first_match(l, key, j),
    ensures
        i == j,
{
    if i < j {
        assert(!serves(l[i].0, key));
    } else if j < i {
        assert(!serves(l[j].0, key));
    }
}

/// A GET request for a path at which the archive stores a regular file is
/// answered with 200, the type guessed from the path, the file's size as
/// its length, and the file's content as its body; where several files are
/// stored at the path, the first of them.
pub proof fn stored_file_is_served(path: Seq<char>, site: Seq<u8>, i: int, r: Result<ReplyModel, SiteError>)
    requires
        is_absolute(path),
        !is_root(path),
        first_match(listing(site), lookup_key(path), i),
        answers(true, path, site, r),
    ensures
        r == Ok::<ReplyModel, SiteError>(served(lookup_key(path), listing(site)[i])),
{
    let l = listing(site);
    let key = lookup_key(path);
    assert(serves(l[i].0, key));
    match r {
        Ok(m) => {
            if m.head.status == STATUS_OK {
                let j = choose|j: int| first_match(l, key, j) && m == served(key, #[trigger] l[j]);
                first_match_is_unique(l, key, i, j);
            }
        },
        Err(_) => {},
    }
}

/// A GET request for a path at which the archive stores no regular file
/// (a directory's path included) is answered with 404 and an empty body
/// where the archive decodes, and fails where it does not.
pub proof fn missing_file_is_not_found(path: Seq<char>, site: Seq<u8>, r: Result<ReplyModel, SiteError>)
    requires
        is_absolute(path),
        !is_root(path),
        no_match(listing(site), lookup_key(path)),
        answers(true, path, site, r),
    ensures
        decodes(site) ==> r == Ok::<ReplyModel, SiteError>(plain(STATUS_NOT_FOUND)),
        !decodes(site) ==> r is Err,
{
    let l = listing(site);
    let key = lookup_key(path);
    match r {
        Ok(m) => {
            if m.head.status == STATUS_OK {
                let j = choose|j: int| first_match(l, key, j) && m == served(key, #[trigger] l[j]);
                assert(!serves(l[j].0, key));
            }
        },
        Err(_) => {},
    }
}

/// Two requests for the same path that both serve a file carry the same
/// content type.
pub proof fn content_type_is_deterministic(
    path: Seq<char>,
    site1: Seq<u8>,
    site2: Seq<u8>,
    m1: ReplyModel,
    m2: ReplyModel,
)
    requires
        answers(true, path, site1, Ok(m1)),
        answers(true, path, site2, Ok(m2)),
        m1.head.status == STATUS_OK,
        m2.head.status == STATUS_OK,
    ensures
        m1.head.content_type == m2.head.content_type,
        m1.head.content_type is Some,
{
}

} // verus!
