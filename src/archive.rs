use vstd::prelude::*;

verus! {

/// The decompressing reader that the archive is read through.
pub type SiteReader = flate2::bufread::GzDecoder<&'static [u8]>;

#[verifier::external_type_specification]
#[verifier::external_body]
pub struct ExIoError(std::io::Error);

/// A cursor over the entries of the archive, as tar's `Entries` yields them,
/// holding the entry it last yielded. tar's types are held behind this
/// struct: Verus does not accept their `Read` bound.
#[verifier::external_body]
pub struct SiteEntries {
    inner: tar::Entries<'static, SiteReader>,
    current: Option<tar::Entry<'static, SiteReader>>,
}

/// One entry of the archive; reading from it yields the entry's content.
#[verifier::external_body]
pub struct SiteEntry {
    inner: tar::Entry<'static, SiteReader>,
}

/// The bytes that reading `e` yields from here on, before it reports the
/// end of the content or fails.
pub uninterp spec fn unread(e: SiteEntry) -> Seq<u8>;

/// Relies on `std::io::Read::read` of tar's `Entry`, which reads the entry's
/// decompressed content: at most `buf.len()` bytes, the next ones of the
/// content, placed at the start of `buf`; `Ok(0)` once the content has
/// ended. tar drops the rest of the content on a read into an empty buffer,
/// so `buf` is not empty.
#[verifier::external_body]
fn read_entry(e: &mut SiteEntry, buf: &mut [u8]) -> (r: Result<usize, std::io::Error>)
    requires
        old(buf)@.len() > 0,
    ensures
        final(buf)@.len() == old(buf)@.len(),
        r matches Ok(n) ==> n <= old(buf)@.len() && n <= unread(*old(e)).len()
            && final(buf)@.subrange(0, n as int) == unread(*old(e)).subrange(0, n as int)
            && unread(*final(e)) == unread(*old(e)).subrange(n as int, unread(*old(e)).len() as int)
            && (n == 0 ==> unread(*old(e)).len() == 0),
        r is Err ==> unread(*old(e)).len() == 0,
{
    std::io::Read::read(&mut e.inner, buf)
}

impl SiteEntry {
    /// Reads the next bytes of the entry's content into the start of `buf`,
    /// and returns how many were read; 0, for a non-empty `buf`, once the
    /// content has all been read. An empty `buf` reads nothing and leaves the
    /// content as it was. The content is read a piece at a time, never as a
    /// whole.
    pub fn read_into(&mut self, buf: &mut [u8]) -> (r: Result<usize, SiteError>)
        ensures
            final(buf)@.len() == old(buf)@.len(),
            r matches Ok(n) ==> n <= old(buf)@.len() && n <= unread(*old(self)).len()
                && final(buf)@.subrange(0, n as int) == unread(*old(self)).subrange(0, n as int)
                && unread(*final(self)) == unread(*old(self)).subrange(n as int, unread(*old(self)).len() as int)
                && (n == 0 && old(buf)@.len() > 0 ==> unread(*old(self)).len() == 0),
            r is Err ==> unread(*old(self)).len() == 0,
    {
        if buf.len() == 0 {
            assert(unread(*self).subrange(0, unread(*self).len() as int) =~= unread(*self));
            return Ok(0);
        }
        match read_entry(self, buf) {
            Ok(n) => Ok(n),
            Err(_) => Err(SiteError::Archive),
        }
    }
}

/// What the logic reads of one entry's header: its path (`None` where tar
/// cannot read it or it is not valid UTF-8, so that it equals no request
/// path), whether it is a regular file, and its size (from a pax record
/// where there is one, else from the header).
pub struct EntryHead {
    pub path: Option<String>,
    pub is_file: bool,
    pub size: u64,
}

/// An entry header as plain values.
pub type HeadView = (Option<Seq<char>>, bool, u64);

/// An entry as plain values: its header and its content.
pub type EntryView = (HeadView, Seq<u8>);

impl View for EntryHead {
    type V = HeadView;

    open spec fn view(&self) -> HeadView {
        (
            match self.path {
                Some(p) => Some(p@),
                None => None,
            },
            self.is_file,
            self.size,
        )
    }
}

/// The entries that `e` is still to yield, in order, before it ends or
/// fails; the content of each is what reading it yields right after it is
/// yielded.
pub uninterp spec fn pending(e: SiteEntries) -> Seq<EntryView>;

/// Whether `e`, advanced to the end, ends without failing.
pub uninterp spec fn ends_cleanly(e: SiteEntries) -> bool;

/// The content that reading the entry `e` last yielded gives, where there is
/// one.
pub uninterp spec fn current_data(e: SiteEntries) -> Option<Seq<u8>>;

/// Relies on tar's `Entries::next`: yields the next entry of the archive,
/// `None` once the archive has ended, or an error where it fails to decode;
/// after either it yields nothing more. The entry is kept as the current one,
/// and its header is handed out as plain values, read with tar's
/// `Entry::path`, `Header::entry_type` with `EntryType::is_file`, and
/// `Entry::size`.
#[verifier::external_body]
fn next_entry(es: &mut SiteEntries) -> (r: Option<Result<EntryHead, std::io::Error>>)
    ensures
        r is None ==> pending(*old(es)).len() == 0 && ends_cleanly(*old(es)),
        r matches Some(Err(_)) ==> pending(*old(es)).len() == 0 && !ends_cleanly(*old(es)),
        r matches Some(Ok(h)) ==> pending(*old(es)).len() > 0 && h@ == pending(*old(es))[0].0
            && current_data(*final(es)) == Some(pending(*old(es))[0].1)
            && pending(*final(es)) == pending(*old(es)).drop_first()
            && ends_cleanly(*final(es)) == ends_cleanly(*old(es)),
{
    es.inner.next().map(|r| r.map(|e| {
        let head = EntryHead {
            path: e.path().ok().and_then(|p| p.to_str().map(|s| s.to_string())),
            is_file: e.header().entry_type().is_file(),
            size: e.size(),
        };
        es.current = Some(e);
        head
    }))
}

/// Gives up the cursor for the entry it last yielded, so that the archive
/// is not advanced while the entry is read.
#[verifier::external_body]
fn into_current(es: SiteEntries) -> (r: Option<SiteEntry>)
    ensures
        r is Some <==> current_data(es) is Some,
        r matches Some(e) ==> unread(e) == current_data(es)->0,
{
    es.current.map(|inner| SiteEntry { inner })
}

/// The entries that tar yields from the gzip-compressed archive `bytes`, in
/// order, before the archive ends or fails to decode; the content of each is
/// what reading it yields right after it is yielded.
pub uninterp spec fn listing(bytes: Seq<u8>) -> Seq<EntryView>;

/// Whether tar reads the gzip-compressed archive `bytes` to its end without
/// failing.
pub uninterp spec fn decodes(bytes: Seq<u8>) -> bool;

/// Relies on flate2's `bufread::GzDecoder::new` and tar's `Archive::new` and
/// `Archive::entries`: the entries are read from the start of the decompressed
/// bytes. The archive is kept for the rest of the process, which serves one
/// request.
#[verifier::external_body]
fn open_entries(bytes: &'static [u8]) -> (r: Result<SiteEntries, std::io::Error>)
    ensures
        r matches Ok(es) ==> pending(es) == listing(bytes@) && ends_cleanly(es) == decodes(bytes@),
        r is Err ==> listing(bytes@).len() == 0 && !decodes(bytes@),
{
    let archive = Box::leak(Box::new(tar::Archive::new(flate2::bufread::GzDecoder::new(bytes))));
    archive.entries().map(|inner| SiteEntries { inner, current: None })
}

/// The length of the first `/`-separated piece of a path.
pub open spec fn piece_len(s: Seq<char>) -> nat
    decreases s.len(),
{
    if s.len() == 0 || s[0] == '/' {
        0
    } else {
        1 + piece_len(s.drop_first())
    }
}

/// The named components of a path, `..` included: its `/`-separated pieces,
/// without the empty ones and without `.`.
pub open spec fn names(s: Seq<char>) -> Seq<Seq<char>>
    decreases s.len(),
{
    if s.len() == 0 {
        seq![]
    } else {
        let n = piece_len(s);
        let piece = s.subrange(0, n as int);
        let rest = if n < s.len() {
            s.subrange(n + 1 as int, s.len() as int)
        } else {
            seq![]
        };
        if piece.len() == 0 || piece == seq!['.'] {
            names(rest)
        } else {
            seq![piece] + names(rest)
        }
    }
}

/// The components of a path as `std::path::Path` reads them on Unix: whether
/// it starts at the root, whether it starts with `.` as a component (kept
/// only where there is no root), and its named components.
pub open spec fn components(s: Seq<char>) -> (bool, bool, Seq<Seq<char>>) {
    let root = s.len() > 0 && s[0] == '/';
    let cur = !root && s.len() > 0 && s[0] == '.' && (s.len() == 1 || s[1] == '/');
    (root, cur, names(s))
}

/// Relies on the equality of `std::path::Path`, which compares paths
/// component by component; `Path::components` drops repeated and trailing
/// separators, and `.` but at the start.
#[verifier::external_body]
fn same_path(a: &str, b: &str) -> (r: bool)
    ensures
        r == (components(a@) == components(b@)),
{
    std::path::Path::new(a) == std::path::Path::new(b)
}

/// Whether an entry is a regular file stored at `target`.
pub open spec fn serves(h: HeadView, target: Seq<char>) -> bool {
    h.1 && (h.0 matches Some(p) && components(p) == components(target))
}

/// Entry `i` is the first of `l` that serves `target`.
pub open spec fn first_match(l: Seq<EntryView>, target: Seq<char>, i: int) -> bool {
    &&& 0 <= i < l.len()
    &&& serves(l[i].0, target)
    &&& forall|j: int| 0 <= j < i ==> !serves(#[trigger] l[j].0, target)
}

/// No entry of `l` serves `target`.
pub open spec fn no_match(l: Seq<EntryView>, target: Seq<char>) -> bool {
    forall|j: int| 0 <= j < l.len() ==> !serves(#[trigger] l[j].0, target)
}

/// Why a file could not be served from the archive.
#[derive(Debug, PartialEq, Eq, Structural)]
pub enum SiteError {
    /// The archive could not be decompressed or its entries or content not
    /// read.
    Archive,
}

/// A file found in the archive, ready to be streamed.
pub struct Found {
    /// The entry; reading from it yields the file's content.
    pub entry: SiteEntry,
    /// The file's size, as its entry declares it.
    pub size: u64,
}

/// Entry `i` of `l` is the one found, with its size and content.
pub open spec fn found_is(l: Seq<EntryView>, i: int, f: Found) -> bool {
    f.size == l[i].0.2 && unread(f.entry) == l[i].1
}

/// Scans the archive `bytes` for the first regular file stored at `target`;
/// entries after it are not read. Each call decompresses the archive anew,
/// and keeps its decompressor for the rest of the process.
pub fn find_file(bytes: &'static [u8], target: &str) -> (r: Result<Option<Found>, SiteError>)
    ensures
        r matches Ok(Some(f)) ==> exists|i: int|
            first_match(listing(bytes@), target@, i) && #[trigger] found_is(listing(bytes@), i, f),
        r matches Ok(None) ==> no_match(listing(bytes@), target@) && decodes(bytes@),
        r is Err ==> no_match(listing(bytes@), target@) && !decodes(bytes@),
{
    let mut es = match open_entries(bytes) {
        Ok(es) => es,
        Err(_) => return Err(SiteError::Archive),
    };
    let ghost all = listing(bytes@);
    let ghost mut seen: int = 0;
    loop
        invariant
            all == listing(bytes@),
            0 <= seen <= all.len(),
            pending(es) == all.subrange(seen, all.len() as int),
            ends_cleanly(es) == decodes(bytes@),
            forall|j: int| 0 <= j < seen ==> !serves(#[trigger] all[j].0, target@),
        decreases pending(es).len(),
    {
        match next_entry(&mut es) {
            None => {
                assert(seen == all.len());
                return Ok(None);
            },
            Some(Err(_)) => {
                assert(seen == all.len());
                return Err(SiteError::Archive);
            },
            Some(Ok(head)) => {
                assert(head@ == all[seen].0);
                if head.is_file {
                    if let Some(p) = &head.path {
                        if same_path(p.as_str(), target) {
                            assert(first_match(all, target@, seen));
                            return match into_current(es) {
                                Some(entry) => {
                                    let f = Found { entry, size: head.size };
                                    assert(found_is(listing(bytes@), seen, f));
                                    assert(first_match(listing(bytes@), target@, seen));
                                    let r = Ok(Some(f));
                                    assert(r matches Ok(Some(g)) && found_is(listing(bytes@), seen, g));
                                    r
                                },
                                None => Err(SiteError::Archive),
                            };
                        }
                    }
                }
                proof {
                    seen = seen + 1;
                }
                assert(pending(es) =~= all.subrange(seen, all.len() as int));
            },
        }
    }
}

} // verus!
