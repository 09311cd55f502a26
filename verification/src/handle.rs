//! The per-request core of the upload service.
//!
//! For one request the service checks the method, finds the boundary in
//! the content type, parses the body as a single-field multipart
//! stream, derives the storage path from the declared filename, and
//! decides the response.  [`upload_service`] makes every one of those
//! decisions from plain values; the caller only moves bytes in and out
//! and performs the file write it is handed.
//!
//! Two points are deliberate policy.  Only `POST` may write: the method
//! check does not let `HEAD` through.  And a field must declare a
//! filename: a field without one is rejected as a bad request rather
//! than stored under a generated name.

use vstd::prelude::*;
use crate::multipart::{ascii_bytes, ctype_pre, spec_parse, SpecParse, parse_upload,
    ParseOutcome};
use crate::search::{match_at, is_match_at, sub_vec};
use vstd::utf8::is_ascii_chars;

verus! {

// ---------------------------------------------------------------------
// Splitting a declared filename into a subdirectory and a name.
// ---------------------------------------------------------------------

/// The position of the first `c` in `s` at or after `from`.
pub open spec fn find_char(s: Seq<char>, c: char, from: int) -> Option<int>
    decreases s.len() - from,
{
    if from < 0 || from >= s.len() {
        None
    } else if s[from] == c {
        Some(from)
    } else {
        find_char(s, c, from + 1)
    }
}

/// The position of the last `c` in `s` before `upto`.
pub open spec fn rfind_char(s: Seq<char>, c: char, upto: int) -> Option<int>
    decreases upto,
{
    if upto <= 0 || upto > s.len() {
        None
    } else if s[upto - 1] == c {
        Some(upto - 1)
    } else {
        rfind_char(s, c, upto - 1)
    }
}

/// The characters of `s` before the first `c`: the whole of `s` when
/// `c` does not occur.
pub open spec fn first_segment(s: Seq<char>, c: char) -> Seq<char> {
    match find_char(s, c, 0) {
        None => s,
        Some(i) => s.take(i),
    }
}

/// The characters of `s` after the last `c`: the whole of `s` when `c`
/// does not occur.
pub open spec fn last_segment(s: Seq<char>, c: char) -> Seq<char> {
    match rfind_char(s, c, s.len() as int) {
        None => s,
        Some(i) => s.skip(i + 1),
    }
}

/// The position of the first `c` in `s`.
pub fn str_find(s: &str, c: char) -> (r: Option<usize>)
    ensures
        match r {
            Some(i) => find_char(s@, c, 0) == Some(i as int) && i < s@.len(),
            None => find_char(s@, c, 0) is None,
        },
{
    let n = s.unicode_len();
    let mut i: usize = 0;
    while i < n
        invariant
            n == s@.len(),
            0 <= i <= n,
            find_char(s@, c, 0) == find_char(s@, c, i as int),
        decreases n - i,
    {
        if s.get_char(i) == c {
            return Some(i);
        }
        i += 1;
    }
    None
}

/// The position of the last `c` in `s`.
pub fn str_rfind(s: &str, c: char) -> (r: Option<usize>)
    ensures
        match r {
            Some(i) => rfind_char(s@, c, s@.len() as int) == Some(i as int) && i < s@.len(),
            None => rfind_char(s@, c, s@.len() as int) is None,
        },
{
    let n = s.unicode_len();
    let mut j: usize = n;
    while j > 0
        invariant
            n == s@.len(),
            0 <= j <= n,
            rfind_char(s@, c, n as int) == rfind_char(s@, c, j as int),
        decreases j,
    {
        if s.get_char(j - 1) == c {
            return Some(j - 1);
        }
        j -= 1;
    }
    None
}

/// Splits a declared filename on the separator: the first segment
/// names the subdirectory, the last segment names the file, and any
/// middle segments are dropped.  A filename without the separator is
/// both segments at once.
pub fn get_subdir_and_name(s: &str, separator: &str) -> (r: (String, String))
    requires
        separator@.len() == 1,
    ensures
        r.0@ == first_segment(s@, separator@[0]),
        r.1@ == last_segment(s@, separator@[0]),
{
    let c = separator.get_char(0);
    let n = s.unicode_len();
    let first = match str_find(s, c) {
        None => {
            let w = s.substring_char(0, n).to_owned();
            proof {
                assert(s@.subrange(0, n as int) =~= s@);
            }
            w
        },
        Some(i) => {
            let w = s.substring_char(0, i).to_owned();
            proof {
                assert(s@.subrange(0, i as int) =~= s@.take(i as int));
            }
            w
        },
    };
    let last = match str_rfind(s, c) {
        None => {
            let w = s.substring_char(0, n).to_owned();
            proof {
                assert(s@.subrange(0, n as int) =~= s@);
            }
            w
        },
        Some(j) => {
            let w = s.substring_char(j + 1, n).to_owned();
            proof {
                assert(s@.subrange(j + 1 as int, n as int) =~= s@.skip(j + 1 as int));
            }
            w
        },
    };
    (first, last)
}

/// The bytes of `s` before the first `c`.
pub open spec fn find_byte(s: Seq<u8>, c: u8, from: int) -> Option<int>
    decreases s.len() - from,
{
    if from < 0 || from >= s.len() {
        None
    } else if s[from] == c {
        Some(from)
    } else {
        find_byte(s, c, from + 1)
    }
}

/// The position of the last `c` in `s` before `upto`.
pub open spec fn rfind_byte(s: Seq<u8>, c: u8, upto: int) -> Option<int>
    decreases upto,
{
    if upto <= 0 || upto > s.len() {
        None
    } else if s[upto - 1] == c {
        Some(upto - 1)
    } else {
        rfind_byte(s, c, upto - 1)
    }
}

/// The byte of the path separator.
pub open spec fn slash() -> u8 {
    47u8
}

/// The bytes of a declared filename before the first separator.
pub open spec fn first_seg(f: Seq<u8>) -> Seq<u8> {
    match find_byte(f, slash(), 0) {
        None => f,
        Some(i) => f.take(i),
    }
}

/// The bytes of a declared filename after the last separator.
pub open spec fn last_seg(f: Seq<u8>) -> Seq<u8> {
    match rfind_byte(f, slash(), f.len() as int) {
        None => f,
        Some(i) => f.skip(i + 1),
    }
}

/// The bytes of `f` before the first separator.
pub fn first_seg_vec(f: &Vec<u8>) -> (r: Vec<u8>)
    ensures
        r@ == first_seg(f@),
{
    let n = f.len();
    let mut i: usize = 0;
    loop
        invariant
            n == f@.len(),
            0 <= i <= n,
            find_byte(f@, slash(), 0) == find_byte(f@, slash(), i as int),
        decreases n - i,
    {
        if i >= n {
            let r = sub_vec(f, 0, n);
            assert(r@ =~= f@);
            return r;
        }
        if f[i] == 47u8 {
            let r = sub_vec(f, 0, i);
            assert(r@ =~= f@.take(i as int));
            return r;
        }
        i += 1;
    }
}

/// The bytes of `f` after the last separator.
pub fn last_seg_vec(f: &Vec<u8>) -> (r: Vec<u8>)
    ensures
        r@ == last_seg(f@),
{
    let n = f.len();
    let mut j: usize = n;
    loop
        invariant
            n == f@.len(),
            0 <= j <= n,
            rfind_byte(f@, slash(), n as int) == rfind_byte(f@, slash(), j as int),
        decreases j,
    {
        if j == 0 {
            let r = sub_vec(f, 0, n);
            assert(r@ =~= f@);
            return r;
        }
        if f[j - 1] == 47u8 {
            let r = sub_vec(f, j, n);
            assert(r@ =~= f@.skip(j as int));
            return r;
        }
        j -= 1;
    }
}

// ---------------------------------------------------------------------
// The request decision.
// ---------------------------------------------------------------------

/// The file write a successful upload asks for: the content bytes go
/// to `subdir/file_name` under the storage root.
pub struct StoreCmd {
    pub subdir: Vec<u8>,
    pub file_name: Vec<u8>,
    pub bytes: Vec<u8>,
}

/// The decision for one request: the response status, and the file
/// write to perform when the upload was accepted.
pub struct UploadResponse {
    pub status: u16,
    pub store: Option<StoreCmd>,
}

/// The mathematical image of a store command.
pub struct SpecStore {
    pub subdir: Seq<u8>,
    pub file_name: Seq<u8>,
    pub bytes: Seq<u8>,
}

/// The mathematical image of an upload decision.
pub struct SpecResponse {
    pub status: u16,
    pub store: Option<SpecStore>,
}

impl View for StoreCmd {
    type V = SpecStore;

    open spec fn view(&self) -> SpecStore {
        SpecStore { subdir: self.subdir@, file_name: self.file_name@, bytes: self.bytes@ }
    }
}

impl View for UploadResponse {
    type V = SpecResponse;

    open spec fn view(&self) -> SpecResponse {
        SpecResponse {
            status: self.status,
            store: match self.store {
                Some(c) => Some(c@),
                None => None,
            },
        }
    }
}

/// The boundary a content type declares: everything after the fixed
/// prefix, provided it is not empty.
pub open spec fn spec_boundary_of(c: Seq<u8>) -> Option<Seq<u8>> {
    if match_at(c, ctype_pre(), 0) && c.len() > ctype_pre().len() {
        Some(c.subrange(ctype_pre().len() as int, c.len() as int))
    } else {
        None
    }
}

/// Extracts the boundary from a content type.
pub fn boundary_of(c: &Vec<u8>) -> (r: Option<Vec<u8>>)
    ensures
        match r {
            Some(b) => spec_boundary_of(c@) == Some(b@),
            None => spec_boundary_of(c@) is None,
        },
{
    proof {
        reveal_strlit("multipart/form-data; boundary=");
        assert(vstd::string::is_ascii("multipart/form-data; boundary="));
    }
    let pre = crate::multipart::ascii_vec("multipart/form-data; boundary=");
    if is_match_at(c, &pre, 0) && c.len() > pre.len() {
        Some(sub_vec(c, pre.len(), c.len()))
    } else {
        None
    }
}

/// Whether two strings hold the same characters.
pub fn str_eq(a: &str, b: &str) -> (r: bool)
    ensures
        r == (a@ == b@),
{
    let n = a.unicode_len();
    if n != b.unicode_len() {
        return false;
    }
    let mut i: usize = 0;
    while i < n
        invariant
            n == a@.len() == b@.len(),
            0 <= i <= n,
            forall|k: int| 0 <= k < i ==> a@[k] == b@[k],
        decreases n - i,
    {
        if a.get_char(i) != b.get_char(i) {
            return false;
        }
        i += 1;
    }
    proof {
        assert(a@ =~= b@);
    }
    true
}

/// What the service decides for a request with the given method,
/// content type and body: `405` for any method but `POST`; `400` when
/// the content type declares no boundary, the body is malformed or
/// holds no field, the field declares no filename, or the content is
/// empty; otherwise `200` together with the file write, whose path is
/// the first and last segment of the declared filename.
pub open spec fn spec_upload(method: Seq<char>, ctype: Seq<u8>, body: Seq<u8>) -> SpecResponse {
    if method != "POST"@ {
        SpecResponse { status: 405, store: None }
    } else {
        match spec_boundary_of(ctype) {
            None => SpecResponse { status: 400, store: None },
            Some(b) => match spec_parse(body, b) {
                SpecParse::BadBody => SpecResponse { status: 400, store: None },
                SpecParse::NoField => SpecResponse { status: 400, store: None },
                SpecParse::Field(f) => match f.file_name {
                    None => SpecResponse { status: 400, store: None },
                    Some(fname) => if f.bytes.len() == 0 {
                        SpecResponse { status: 400, store: None }
                    } else {
                        SpecResponse {
                            status: 200,
                            store: Some(
                                SpecStore {
                                    subdir: first_seg(fname),
                                    file_name: last_seg(fname),
                                    bytes: f.bytes,
                                },
                            ),
                        }
                    },
                },
            },
        }
    }
}

/// Decides one upload request.  The caller hands in the request method,
/// the content type and the whole body, and receives the response
/// status together with the file write to perform, if any.
pub fn upload_service(method: &str, content_type: &Vec<u8>, body: &Vec<u8>) -> (r:
    UploadResponse)
    ensures
        r@ == spec_upload(method@, content_type@, body@),
{
    if !str_eq(method, "POST") {
        return UploadResponse { status: 405, store: None };
    }
    let b = match boundary_of(content_type) {
        None => {
            return UploadResponse { status: 400, store: None };
        },
        Some(b) => b,
    };
    match parse_upload(body, &b) {
        ParseOutcome::BadBody => UploadResponse { status: 400, store: None },
        ParseOutcome::NoField => UploadResponse { status: 400, store: None },
        ParseOutcome::Field(f) => {
            let fname = match f.file_name {
                None => {
                    return UploadResponse { status: 400, store: None };
                },
                Some(fname) => fname,
            };
            if f.bytes.len() == 0 {
                return UploadResponse { status: 400, store: None };
            }
            let subdir = first_seg_vec(&fname);
            let file_name = last_seg_vec(&fname);
            UploadResponse {
                status: 200,
                store: Some(StoreCmd { subdir, file_name, bytes: f.bytes }),
            }
        },
    }
}

/// The path a stored file is written to: the storage root, the
/// subdirectory and the filename, joined by the separator.
pub fn target_path(root: &str, subdir: &str, name: &str) -> (r: String)
    ensures
        r@ == root@ + "/"@ + subdir@ + "/"@ + name@,
{
    let mut out = root.to_owned();
    out.append("/");
    out.append(subdir);
    out.append("/");
    out.append(name);
    out
}

/// Whether the status of the upload response reports success.
pub fn upload_succeeded(status: u16) -> (r: bool)
    ensures
        r == (200 <= status < 300),
{
    200 <= status && status < 300
}

proof fn lemma_find_agree(s: Seq<char>, f: Seq<u8>, from: int)
    requires
        is_ascii_chars(s),
        f == ascii_bytes(s),
    ensures
        find_byte(f, slash(), from) == find_char(s, '/', from),
        find_char(s, '/', from) matches Some(r) ==> from <= r < s.len(),
    decreases s.len() - from,
{
    if from < 0 || from >= s.len() {
    } else {
        assert(f[from] == slash() <==> s[from] == '/');
        if s[from] != '/' {
            lemma_find_agree(s, f, from + 1);
        }
    }
}

proof fn lemma_rfind_agree(s: Seq<char>, f: Seq<u8>, upto: int)
    requires
        is_ascii_chars(s),
        f == ascii_bytes(s),
    ensures
        rfind_byte(f, slash(), upto) == rfind_char(s, '/', upto),
        rfind_char(s, '/', upto) matches Some(r) ==> 0 <= r < upto && r < s.len(),
    decreases upto,
{
    if upto <= 0 || upto > s.len() {
    } else {
        assert(f[upto - 1] == slash() <==> s[upto - 1] == '/');
        if s[upto - 1] != '/' {
            lemma_rfind_agree(s, f, upto - 1);
        }
    }
}

/// The string-level split behind [`get_subdir_and_name`] and the
/// byte-level split behind [`upload_service`] are one rule: on an
/// ascii filename they derive the same subdirectory and the same
/// filename, byte for byte.
pub proof fn lemma_splits_agree(s: Seq<char>)
    requires
        is_ascii_chars(s),
    ensures
        ascii_bytes(first_segment(s, '/')) == first_seg(ascii_bytes(s)),
        ascii_bytes(last_segment(s, '/')) == last_seg(ascii_bytes(s)),
{
    let f = ascii_bytes(s);
    lemma_find_agree(s, f, 0);
    lemma_rfind_agree(s, f, s.len() as int);
    match find_char(s, '/', 0) {
        None => {
            assert(ascii_bytes(first_segment(s, '/')) =~= first_seg(f));
        },
        Some(i) => {
            assert(ascii_bytes(s.take(i)) =~= f.take(i));
        },
    }
    match rfind_char(s, '/', s.len() as int) {
        None => {
            assert(ascii_bytes(last_segment(s, '/')) =~= last_seg(f));
        },
        Some(i) => {
            assert(ascii_bytes(s.skip(i + 1)) =~= f.skip(i + 1));
        },
    }
}

} // verus!
