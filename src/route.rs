use vstd::prelude::*;
use vstd::utf8::*;

verus! {

/// Where a request goes, decided from its method and path alone.
pub enum Route {
    /// The method is not GET.
    NotAllowed,
    /// The path is exactly `/`: redirect to the canonical document.
    Redirect,
    /// Look up the file at this path, relative to the archive's root.
    Lookup(String),
}

/// Whether a request path is the site root `/`.
pub open spec fn is_root(path: Seq<char>) -> bool {
    path.len() == 1 && path[0] == '/'
}

/// A request path starts with `/`.
pub open spec fn is_absolute(path: Seq<char>) -> bool {
    path.len() > 0 && path[0] == '/'
}

/// The lookup key of an absolute request path: the path without its leading `/`.
pub open spec fn lookup_key(path: Seq<char>) -> Seq<char> {
    path.drop_first()
}

/// The route of a request, as a function of the method and the path.
pub open spec fn route_of(is_get: bool, path: Seq<char>, r: Route) -> bool {
    if !is_get {
        r is NotAllowed
    } else if is_root(path) {
        r is Redirect
    } else {
        r matches Route::Lookup(key) && key@ == lookup_key(path)
    }
}

/// A leading `/` takes one byte in UTF-8, and a character starts right after it.
proof fn lemma_leading_slash(s: Seq<char>)
    requires
        is_absolute(s),
    ensures
        encode_utf8(s) == seq![47u8] + encode_utf8(s.drop_first()),
        is_char_boundary(encode_utf8(s), 1),
        encode_utf8(s).len() == 1 <==> s.len() == 1,
{
    encode_utf8_first_scalar(s);
    encode_utf8_valid_utf8(s);
    assert(('/' as u32) == 47u32);
    assert((47u32 & 0x7F) as u8 == 47u8) by (bit_vector);
    assert(encode_scalar('/' as u32) =~= seq![47u8]);
    assert(encode_utf8(s) =~= seq![47u8] + encode_utf8(s.drop_first()));
    assert(is_char_boundary(pop_first_scalar(encode_utf8(s)), 0));
    if s.len() > 1 {
        encode_utf8_first_scalar(s.drop_first());
    }
}

/// Decides where a request goes. A GET request's path is absolute, as the
/// runtime guarantees.
pub fn route(is_get: bool, path: &str) -> (r: Route)
    requires
        is_get ==> is_absolute(path@),
    ensures
        route_of(is_get, path@, r),
{
    if !is_get {
        return Route::NotAllowed;
    }
    proof {
        lemma_leading_slash(path@);
    }
    if path.as_bytes().len() == 1 {
        assert(path@.len() == 1);
        return Route::Redirect;
    }
    let (_, rest) = path.split_at(1);
    proof {
        encode_utf8_decode_utf8(rest@);
        encode_utf8_decode_utf8(path@.drop_first());
        assert(encode_utf8(rest@) =~= encode_utf8(path@.drop_first()));
    }
    Route::Lookup(rest.to_owned())
}

} // verus!
