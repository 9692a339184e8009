use flate2::write::GzEncoder;
use flate2::Compression;
use site_server::archive::{SiteError, find_file};
use site_server::response::{
    Reply, SITE_ROOT, STATUS_METHOD_NOT_ALLOWED, STATUS_NOT_FOUND, STATUS_OK,
    STATUS_PERMANENT_REDIRECT, bare_head, file_head, redirect_head, respond,
};
use site_server::route::{Route, route};

enum Item<'a> {
    Dir(&'a str),
    File(&'a str, &'a [u8]),
}

fn build_site(items: &[Item]) -> &'static [u8] {
    let mut builder = tar::Builder::new(GzEncoder::new(Vec::new(), Compression::default()));
    for item in items {
        let mut header = tar::Header::new_gnu();
        match item {
            Item::Dir(path) => {
                header.set_entry_type(tar::EntryType::Directory);
                header.set_size(0);
                header.set_mode(0o755);
                builder.append_data(&mut header, path, std::io::empty()).unwrap();
            }
            Item::File(path, data) => {
                header.set_entry_type(tar::EntryType::Regular);
                header.set_size(data.len() as u64);
                header.set_mode(0o644);
                builder.append_data(&mut header, path, *data).unwrap();
            }
        }
    }
    let bytes = builder.into_inner().unwrap().finish().unwrap();
    Box::leak(bytes.into_boxed_slice())
}

fn docs_site() -> &'static [u8] {
    build_site(&[
        Item::Dir("doc/"),
        Item::Dir("doc/fastly/"),
        Item::File("doc/fastly/index.html", b"hello docs"),
        Item::File("doc/fastly/style.css", b"body {}"),
        Item::File("doc/fastly/data.unknownext", b"\x00\x01\x02"),
    ])
}

fn read_body(reply: Reply) -> Vec<u8> {
    let mut entry = reply.body.expect("a body");
    let mut out = Vec::new();
    let mut buf = [0u8; 4];
    loop {
        let n = entry.read_into(&mut buf).unwrap();
        if n == 0 {
            break;
        }
        out.extend_from_slice(&buf[..n]);
    }
    out
}

#[test]
fn get_index_serves_file() {
    let reply = respond(true, "/doc/fastly/index.html", docs_site()).unwrap();
    assert_eq!(reply.head.status, STATUS_OK);
    assert_eq!(reply.head.status, 200);
    assert_eq!(reply.head.content_length, Some(10));
    assert_eq!(reply.head.content_type.as_deref(), Some("text/html"));
    assert_eq!(reply.head.location, None);
    assert_eq!(read_body(reply), b"hello docs".to_vec());
}

#[test]
fn get_root_redirects() {
    let reply = respond(true, "/", docs_site()).unwrap();
    assert_eq!(reply.head.status, STATUS_PERMANENT_REDIRECT);
    assert_eq!(reply.head.status, 308);
    assert_eq!(reply.head.location.as_deref(), Some("/doc/fastly/index.html"));
    assert_eq!(reply.head.content_length, None);
    assert!(reply.body.is_none());
}

#[test]
fn get_missing_is_not_found() {
    let reply = respond(true, "/missing.txt", docs_site()).unwrap();
    assert_eq!(reply.head.status, STATUS_NOT_FOUND);
    assert_eq!(reply.head.status, 404);
    assert_eq!(reply.head.content_length, None);
    assert!(reply.body.is_none());
}

#[test]
fn post_is_not_allowed() {
    let reply = respond(false, "/doc/fastly/index.html", docs_site()).unwrap();
    assert_eq!(reply.head.status, STATUS_METHOD_NOT_ALLOWED);
    assert_eq!(reply.head.status, 405);
    assert_eq!(reply.head.location, None);
    assert!(reply.body.is_none());
}

#[test]
fn other_methods_refused_on_any_path() {
    for path in ["/", "/missing.txt", "relative", ""] {
        let reply = respond(false, path, docs_site()).unwrap();
        assert_eq!(reply.head.status, 405);
        assert!(reply.body.is_none());
    }
}

#[test]
fn other_methods_refused_even_on_broken_archive() {
    let reply = respond(false, "/doc/fastly/index.html", b"not an archive").unwrap();
    assert_eq!(reply.head.status, 405);
}

#[test]
fn root_redirects_even_on_broken_archive() {
    let reply = respond(true, "/", b"not an archive").unwrap();
    assert_eq!(reply.head.status, 308);
    assert_eq!(reply.head.location.as_deref(), Some(SITE_ROOT));
}

#[test]
fn directory_path_is_not_found() {
    for path in ["/doc/fastly", "/doc/fastly/", "/doc"] {
        let reply = respond(true, path, docs_site()).unwrap();
        assert_eq!(reply.head.status, 404);
        assert!(reply.body.is_none());
    }
}

#[test]
fn lookup_is_component_wise() {
    let reply = respond(true, "/doc//fastly/index.html", docs_site()).unwrap();
    assert_eq!(reply.head.status, 200);
    assert_eq!(read_body(reply), b"hello docs".to_vec());
}

#[test]
fn lookup_is_not_by_prefix() {
    let reply = respond(true, "/doc/fastly/index.htm", docs_site()).unwrap();
    assert_eq!(reply.head.status, 404);
    let reply = respond(true, "/fastly/index.html", docs_site()).unwrap();
    assert_eq!(reply.head.status, 404);
}

#[test]
fn content_type_guessed_from_extension() {
    let reply = respond(true, "/doc/fastly/style.css", docs_site()).unwrap();
    assert_eq!(reply.head.content_type.as_deref(), Some("text/css"));
    assert_eq!(reply.head.content_length, Some(7));
    assert_eq!(read_body(reply), b"body {}".to_vec());
}

#[test]
fn unknown_extension_is_octet_stream() {
    let reply = respond(true, "/doc/fastly/data.unknownext", docs_site()).unwrap();
    assert_eq!(reply.head.status, 200);
    assert_eq!(reply.head.content_type.as_deref(), Some("application/octet-stream"));
    assert_eq!(read_body(reply), vec![0u8, 1, 2]);
}

#[test]
fn content_type_is_the_same_twice() {
    let site = docs_site();
    let first = respond(true, "/doc/fastly/index.html", site).unwrap();
    let second = respond(true, "/doc/fastly/index.html", site).unwrap();
    assert_eq!(first.head.content_type, second.head.content_type);
    assert_eq!(first.head.content_length, second.head.content_length);
}

#[test]
fn duplicate_paths_first_wins() {
    let site = build_site(&[
        Item::File("dup.txt", b"first"),
        Item::File("dup.txt", b"second one"),
    ]);
    let reply = respond(true, "/dup.txt", site).unwrap();
    assert_eq!(reply.head.content_length, Some(5));
    assert_eq!(read_body(reply), b"first".to_vec());
}

#[test]
fn empty_file_is_served() {
    let site = build_site(&[Item::File("empty.txt", b"")]);
    let reply = respond(true, "/empty.txt", site).unwrap();
    assert_eq!(reply.head.status, 200);
    assert_eq!(reply.head.content_length, Some(0));
    assert_eq!(reply.head.content_type.as_deref(), Some("text/plain"));
    assert_eq!(read_body(reply), Vec::<u8>::new());
}

#[test]
fn empty_archive_is_not_found() {
    let site = build_site(&[]);
    let reply = respond(true, "/index.html", site).unwrap();
    assert_eq!(reply.head.status, 404);
}

#[test]
fn large_file_streams_in_pieces() {
    let data: Vec<u8> = (0..200_000u32).map(|i| (i % 251) as u8).collect();
    let site = build_site(&[Item::File("big.bin", &data)]);
    let reply = respond(true, "/big.bin", site).unwrap();
    assert_eq!(reply.head.content_length, Some(200_000));
    let mut entry = reply.body.unwrap();
    let mut buf = vec![0u8; 1024];
    let mut total: usize = 0;
    loop {
        let n = entry.read_into(&mut buf).unwrap();
        assert!(n <= 1024);
        if n == 0 {
            break;
        }
        assert_eq!(&buf[..n], &data[total..total + n]);
        total += n;
    }
    assert_eq!(total, data.len());
}

#[test]
fn broken_archive_is_an_error() {
    let result = respond(true, "/index.html", b"not an archive");
    assert!(matches!(result, Err(SiteError::Archive)));
}

#[test]
fn find_file_reports_size() {
    let found = find_file(docs_site(), "doc/fastly/index.html").unwrap().unwrap();
    assert_eq!(found.size, 10);
    assert!(find_file(docs_site(), "doc/fastly").unwrap().is_none());
    assert!(find_file(docs_site(), "nothing").unwrap().is_none());
}

#[test]
fn route_decides_by_method_and_path() {
    assert!(matches!(route(false, "/a"), Route::NotAllowed));
    assert!(matches!(route(false, ""), Route::NotAllowed));
    assert!(matches!(route(true, "/"), Route::Redirect));
    match route(true, "/a/b.html") {
        Route::Lookup(key) => assert_eq!(key, "a/b.html"),
        _ => panic!("expected a lookup"),
    }
    match route(true, "/é/x") {
        Route::Lookup(key) => assert_eq!(key, "é/x"),
        _ => panic!("expected a lookup"),
    }
    match route(true, "//") {
        Route::Lookup(key) => assert_eq!(key, "/"),
        _ => panic!("expected a lookup"),
    }
}

#[test]
fn heads_are_exact() {
    let h = bare_head(404);
    assert_eq!((h.status, h.location, h.content_type, h.content_length), (404, None, None, None));
    let h = redirect_head();
    assert_eq!(h.status, 308);
    assert_eq!(h.location.as_deref(), Some("/doc/fastly/index.html"));
    let h = file_head("text/html".to_string(), 10);
    assert_eq!(h.status, 200);
    assert_eq!(h.content_type.as_deref(), Some("text/html"));
    assert_eq!(h.content_length, Some(10));
    assert_eq!(h.location, None);
}

#[test]
fn inner_dot_components_are_dropped() {
    let reply = respond(true, "/doc/./fastly/index.html/", docs_site()).unwrap();
    assert_eq!(reply.head.status, 200);
    assert_eq!(read_body(reply), b"hello docs".to_vec());
}

#[test]
fn leading_dot_component_is_kept() {
    let reply = respond(true, "/./doc/fastly/index.html", docs_site()).unwrap();
    assert_eq!(reply.head.status, 404);
    assert!(reply.body.is_none());
}

#[test]
fn empty_buffer_reads_nothing() {
    let reply = respond(true, "/doc/fastly/index.html", docs_site()).unwrap();
    let mut entry = reply.body.unwrap();
    let mut empty: [u8; 0] = [];
    assert_eq!(entry.read_into(&mut empty).unwrap(), 0);
    let mut buf = [0u8; 64];
    let n = entry.read_into(&mut buf).unwrap();
    assert_eq!(&buf[..n], b"hello docs");
}
