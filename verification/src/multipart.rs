//! The multipart/form-data wire format of the upload service.
//!
//! The grammar accepted here covers the single-part bodies the service
//! works with: the body opens with `--` and the boundary; a body whose
//! boundary line closes at once (`--boundary--`) carries no field; an
//! ordinary part carries a `Content-Disposition: form-data` line naming
//! the field and, optionally, a declared filename, further header lines
//! up to an empty line, and then the content bytes, which run up to the
//! next boundary line.  The encoder below produces exactly the envelope
//! the upload client sends: a single field named `file` with declared
//! filename `upload.txt` and content type `text/plain`, under a fixed
//! boundary.

use vstd::prelude::*;
use crate::search::{match_at, find_from, lemma_find_from_some, is_match_at, find_pattern,
    sub_vec};

verus! {

/// The bytes of an ascii character sequence, character by character.
pub open spec fn ascii_bytes(s: Seq<char>) -> Seq<u8> {
    s.map_values(|c: char| c as u8)
}

/// Appends the bytes of the ascii string `s` to `out`.
pub fn append_ascii(out: &mut Vec<u8>, s: &str)
    requires
        vstd::string::is_ascii(s),
    ensures
        final(out)@ == old(out)@ + ascii_bytes(s@),
{
    let ghost out0 = old(out)@;
    let n = s.unicode_len();
    let mut i: usize = 0;
    while i < n
        invariant
            vstd::string::is_ascii(s),
            n == s@.len(),
            i <= n,
            out@ == out0 + ascii_bytes(s@).take(i as int),
        decreases n - i,
    {
        out.push(s.get_ascii(i));
        assert(out@ =~= out0 + ascii_bytes(s@).take(i + 1 as int));
        i += 1;
    }
    assert(out@ =~= out0 + ascii_bytes(s@));
}

/// The bytes of the ascii string `s` as a fresh vector.
pub fn ascii_vec(s: &str) -> (r: Vec<u8>)
    requires
        vstd::string::is_ascii(s),
    ensures
        r@ == ascii_bytes(s@),
{
    let mut out: Vec<u8> = Vec::new();
    append_ascii(&mut out, s);
    assert(out@ =~= ascii_bytes(s@));
    out
}

/// Appends the bytes of `s` to `out`.
pub fn append_bytes(out: &mut Vec<u8>, s: &Vec<u8>)
    ensures
        final(out)@ == old(out)@ + s@,
{
    let ghost out0 = old(out)@;
    let mut i: usize = 0;
    while i < s.len()
        invariant
            i <= s@.len(),
            out@ == out0 + s@.take(i as int),
        decreases s@.len() - i,
    {
        out.push(s[i]);
        assert(out@ =~= out0 + s@.take(i + 1 as int));
        i += 1;
    }
    assert(out@ =~= out0 + s@);
}

// ---------------------------------------------------------------------
// The tokens of the grammar.
// ---------------------------------------------------------------------

/// Two dashes, the boundary marker.
pub open spec fn dd() -> Seq<u8> {
    ascii_bytes("--"@)
}

/// A line break.
pub open spec fn crlf() -> Seq<u8> {
    ascii_bytes("\r\n"@)
}

/// The empty line that separates the part headers from the content.
pub open spec fn crlf2() -> Seq<u8> {
    ascii_bytes("\r\n\r\n"@)
}

/// A double quote, closing a field name or a filename.
pub open spec fn quote() -> Seq<u8> {
    ascii_bytes("\""@)
}

/// The start of the disposition line, up to the field name.
pub open spec fn disp_pre() -> Seq<u8> {
    ascii_bytes("Content-Disposition: form-data; name=\""@)
}

/// The token between the field name and the declared filename.
pub open spec fn fname_pre() -> Seq<u8> {
    ascii_bytes("; filename=\""@)
}

/// The line that closes the content of a part: a line break, two
/// dashes and the boundary.
pub open spec fn close_pat(b: Seq<u8>) -> Seq<u8> {
    crlf() + dd() + b
}

/// The start of the content type of a multipart request, up to the
/// boundary.
pub open spec fn ctype_pre() -> Seq<u8> {
    ascii_bytes("multipart/form-data; boundary="@)
}

/// The lengths of the fixed tokens of the grammar.
pub proof fn lemma_token_lens()
    ensures
        dd().len() == 2,
        crlf().len() == 2,
        crlf2().len() == 4,
        quote().len() == 1,
        disp_pre().len() == 38,
        fname_pre().len() == 12,
        ctype_pre().len() == 30,
        dd()[0] == 45,
        crlf()[0] == 13,
{
    reveal_strlit("--");
    reveal_strlit("\r\n");
    reveal_strlit("\r\n\r\n");
    reveal_strlit("\"");
    reveal_strlit("Content-Disposition: form-data; name=\"");
    reveal_strlit("; filename=\"");
    reveal_strlit("multipart/form-data; boundary=");
}

fn dd_vec() -> (r: Vec<u8>)
    ensures
        r@ == dd(),
{
    proof {
        reveal_strlit("--");
        assert(vstd::string::is_ascii("--"));
    }
    ascii_vec("--")
}

fn crlf_vec() -> (r: Vec<u8>)
    ensures
        r@ == crlf(),
{
    proof {
        reveal_strlit("\r\n");
        assert(vstd::string::is_ascii("\r\n"));
    }
    ascii_vec("\r\n")
}

fn crlf2_vec() -> (r: Vec<u8>)
    ensures
        r@ == crlf2(),
{
    proof {
        reveal_strlit("\r\n\r\n");
        assert(vstd::string::is_ascii("\r\n\r\n"));
    }
    ascii_vec("\r\n\r\n")
}

fn quote_vec() -> (r: Vec<u8>)
    ensures
        r@ == quote(),
{
    proof {
        reveal_strlit("\"");
        assert(vstd::string::is_ascii("\""));
    }
    ascii_vec("\"")
}

fn disp_pre_vec() -> (r: Vec<u8>)
    ensures
        r@ == disp_pre(),
{
    proof {
        reveal_strlit("Content-Disposition: form-data; name=\"");
        assert(vstd::string::is_ascii("Content-Disposition: form-data; name=\""));
    }
    ascii_vec("Content-Disposition: form-data; name=\"")
}

fn fname_pre_vec() -> (r: Vec<u8>)
    ensures
        r@ == fname_pre(),
{
    proof {
        reveal_strlit("; filename=\"");
        assert(vstd::string::is_ascii("; filename=\""));
    }
    ascii_vec("; filename=\"")
}

// ---------------------------------------------------------------------
// Parsing.
// ---------------------------------------------------------------------

/// One field of a multipart body: its name, its declared filename if
/// one was given, and its content bytes.
pub struct UploadField {
    pub name: Vec<u8>,
    pub file_name: Option<Vec<u8>>,
    pub bytes: Vec<u8>,
}

/// What parsing a body yields: a malformed body, a body without any
/// field, or the first field.
pub enum ParseOutcome {
    BadBody,
    NoField,
    Field(UploadField),
}

/// The mathematical image of a parsed field.
pub struct SpecField {
    pub name: Seq<u8>,
    pub file_name: Option<Seq<u8>>,
    pub bytes: Seq<u8>,
}

/// The mathematical image of a parse outcome.
pub enum SpecParse {
    BadBody,
    NoField,
    Field(SpecField),
}

impl View for UploadField {
    type V = SpecField;

    open spec fn view(&self) -> SpecField {
        SpecField {
            name: self.name@,
            file_name: match self.file_name {
                Some(v) => Some(v@),
                None => None,
            },
            bytes: self.bytes@,
        }
    }
}

impl View for ParseOutcome {
    type V = SpecParse;

    open spec fn view(&self) -> SpecParse {
        match self {
            ParseOutcome::BadBody => SpecParse::BadBody,
            ParseOutcome::NoField => SpecParse::NoField,
            ParseOutcome::Field(f) => SpecParse::Field(f@),
        }
    }
}

/// Parses the disposition line from the start of the field name at `i`,
/// then the content; `s` is the body and `b` the boundary.
pub open spec fn spec_parse_name(s: Seq<u8>, b: Seq<u8>, i: int) -> SpecParse {
    match find_from(s, quote(), i) {
        None => SpecParse::BadBody,
        Some(q) => {
            let name = s.subrange(i, q);
            if match_at(s, fname_pre(), q + 1) {
                match find_from(s, quote(), q + 1 + fname_pre().len()) {
                    None => SpecParse::BadBody,
                    Some(q2) => spec_parse_content(
                        s,
                        b,
                        q2 + 1,
                        name,
                        Some(s.subrange(q + 1 + fname_pre().len(), q2)),
                    ),
                }
            } else {
                spec_parse_content(s, b, q + 1, name, None)
            }
        },
    }
}

/// Parses the content of the field: the remaining header lines run up
/// to the first empty line after `i`, and the content bytes up to the
/// next boundary line.
pub open spec fn spec_parse_content(
    s: Seq<u8>,
    b: Seq<u8>,
    i: int,
    name: Seq<u8>,
    file_name: Option<Seq<u8>>,
) -> SpecParse {
    match find_from(s, crlf2(), i) {
        None => SpecParse::BadBody,
        Some(h) => match find_from(s, close_pat(b), h + 4) {
            None => SpecParse::BadBody,
            Some(m) => SpecParse::Field(
                SpecField { name, file_name, bytes: s.subrange(h + 4, m) },
            ),
        },
    }
}

/// What parsing the body `s` under the boundary `b` yields.
pub open spec fn spec_parse(s: Seq<u8>, b: Seq<u8>) -> SpecParse {
    let open = dd() + b;
    if !match_at(s, open, 0) {
        SpecParse::BadBody
    } else if match_at(s, dd(), open.len() as int) {
        SpecParse::NoField
    } else if !match_at(s, crlf(), open.len() as int) {
        SpecParse::BadBody
    } else if !match_at(s, disp_pre(), open.len() as int + 2) {
        SpecParse::BadBody
    } else {
        spec_parse_name(s, b, open.len() as int + 2 + disp_pre().len() as int)
    }
}

/// Parses the body `s` under the boundary `b` and returns the first
/// field, or says why there is none.
pub fn parse_upload(s: &Vec<u8>, b: &Vec<u8>) -> (r: ParseOutcome)
    ensures
        r@ == spec_parse(s@, b@),
{
    proof {
        lemma_token_lens();
        assert(s.len() == s@.len());
    }
    let mut open = dd_vec();
    append_bytes(&mut open, b);
    if !is_match_at(s, &open, 0) {
        return ParseOutcome::BadBody;
    }
    let dd2 = dd_vec();
    if is_match_at(s, &dd2, open.len()) {
        return ParseOutcome::NoField;
    }
    let crlf1 = crlf_vec();
    if !is_match_at(s, &crlf1, open.len()) {
        return ParseOutcome::BadBody;
    }
    let disp = disp_pre_vec();
    if !is_match_at(s, &disp, open.len() + 2) {
        return ParseOutcome::BadBody;
    }
    let i = open.len() + 2 + disp.len();
    parse_name(s, b, i)
}

/// The executable mirror of [`spec_parse_name`].
fn parse_name(s: &Vec<u8>, b: &Vec<u8>, i: usize) -> (r: ParseOutcome)
    ensures
        r@ == spec_parse_name(s@, b@, i as int),
{
    proof {
        lemma_token_lens();
        assert(s.len() == s@.len());
    }
    let q1 = quote_vec();
    let q = match find_pattern(s, &q1, i) {
        None => {
            return ParseOutcome::BadBody;
        },
        Some(q) => q,
    };
    proof {
        lemma_find_from_some(s@, quote(), i as int, q as int);
    }
    let name = sub_vec(s, i, q);
    let fpre = fname_pre_vec();
    if is_match_at(s, &fpre, q + 1) {
        let j = q + 1 + fpre.len();
        let q2 = match find_pattern(s, &q1, j) {
            None => {
                return ParseOutcome::BadBody;
            },
            Some(q2) => q2,
        };
        proof {
            lemma_find_from_some(s@, quote(), j as int, q2 as int);
        }
        let fname = sub_vec(s, j, q2);
        parse_content(s, b, q2 + 1, name, Some(fname))
    } else {
        parse_content(s, b, q + 1, name, None)
    }
}

/// The executable mirror of [`spec_parse_content`].
fn parse_content(s: &Vec<u8>, b: &Vec<u8>, i: usize, name: Vec<u8>, file_name: Option<
    Vec<u8>,
>) -> (r: ParseOutcome)
    ensures
        ({
            let fv = match file_name {
                Some(v) => Some(v@),
                None => None,
            };
            r@ == spec_parse_content(s@, b@, i as int, name@, fv)
        }),
{
    proof {
        lemma_token_lens();
        assert(s.len() == s@.len());
    }
    let sep = crlf2_vec();
    let h = match find_pattern(s, &sep, i) {
        None => {
            return ParseOutcome::BadBody;
        },
        Some(h) => h,
    };
    proof {
        lemma_find_from_some(s@, crlf2(), i as int, h as int);
    }
    let mut close = crlf_vec();
    let dd2 = dd_vec();
    append_bytes(&mut close, &dd2);
    append_bytes(&mut close, b);
    let m = match find_pattern(s, &close, h + 4) {
        None => {
            return ParseOutcome::BadBody;
        },
        Some(m) => m,
    };
    proof {
        lemma_find_from_some(s@, close_pat(b@), h + 4 as int, m as int);
    }
    let bytes = sub_vec(s, h + 4, m);
    ParseOutcome::Field(UploadField { name, file_name, bytes })
}

// ---------------------------------------------------------------------
// The client's envelope.
// ---------------------------------------------------------------------

/// The boundary the upload client delimits its envelope with.
pub open spec fn client_boundary() -> Seq<u8> {
    ascii_bytes("------------------------ea3bbcf87c101592"@)
}

/// The boundary as a vector, for building requests.
pub fn client_boundary_vec() -> (r: Vec<u8>)
    ensures
        r@ == client_boundary(),
{
    proof {
        reveal_strlit("------------------------ea3bbcf87c101592");
        assert(vstd::string::is_ascii("------------------------ea3bbcf87c101592"));
    }
    ascii_vec("------------------------ea3bbcf87c101592")
}

/// Everything of the client's envelope that precedes the file bytes:
/// the opening boundary line, the disposition line declaring the field
/// `file` and the filename `upload.txt`, the content type line, and
/// the empty line.
pub open spec fn client_head() -> Seq<u8> {
    dd() + client_boundary() + crlf() + disp_pre() + ascii_bytes("file"@) + quote() + fname_pre()
        + ascii_bytes("upload.txt"@) + quote() + crlf() + ascii_bytes(
        "Content-Type: text/plain"@,
    ) + crlf() + crlf()
}

/// Everything of the client's envelope that follows the file bytes:
/// the closing boundary line.
pub open spec fn client_tail() -> Seq<u8> {
    close_pat(client_boundary()) + dd() + crlf()
}

/// The whole envelope the client sends for the file bytes `data`.
pub open spec fn client_envelope(data: Seq<u8>) -> Seq<u8> {
    client_head() + data + client_tail()
}

/// The content type the client declares: the multipart prefix and its
/// own boundary.
pub open spec fn client_content_type() -> Seq<u8> {
    ctype_pre() + client_boundary()
}

/// The content type as a vector, for building requests.
pub fn client_content_type_vec() -> (r: Vec<u8>)
    ensures
        r@ == client_content_type(),
{
    proof {
        reveal_strlit("multipart/form-data; boundary=");
        assert(vstd::string::is_ascii("multipart/form-data; boundary="));
    }
    let mut out = ascii_vec("multipart/form-data; boundary=");
    let b = client_boundary_vec();
    append_bytes(&mut out, &b);
    out
}

/// Builds the multipart envelope for the file bytes `data`, exactly as
/// the upload client sends it.
pub fn encode_upload(data: &Vec<u8>) -> (r: Vec<u8>)
    ensures
        r@ == client_envelope(data@),
{
    proof {
        reveal_strlit("file");
        assert(vstd::string::is_ascii("file"));
        reveal_strlit("upload.txt");
        assert(vstd::string::is_ascii("upload.txt"));
        reveal_strlit("Content-Type: text/plain");
        assert(vstd::string::is_ascii("Content-Type: text/plain"));
    }
    let b = client_boundary_vec();
    let dd2 = dd_vec();
    let nl = crlf_vec();
    let mut out = dd_vec();
    append_bytes(&mut out, &b);
    append_bytes(&mut out, &nl);
    let disp = disp_pre_vec();
    append_bytes(&mut out, &disp);
    append_ascii(&mut out, "file");
    let q = quote_vec();
    append_bytes(&mut out, &q);
    let fpre = fname_pre_vec();
    append_bytes(&mut out, &fpre);
    append_ascii(&mut out, "upload.txt");
    append_bytes(&mut out, &q);
    append_bytes(&mut out, &nl);
    append_ascii(&mut out, "Content-Type: text/plain");
    append_bytes(&mut out, &nl);
    append_bytes(&mut out, &nl);
    assert(out@ =~= client_head());
    append_bytes(&mut out, data);
    append_bytes(&mut out, &nl);
    append_bytes(&mut out, &dd2);
    append_bytes(&mut out, &b);
    append_bytes(&mut out, &dd2);
    append_bytes(&mut out, &nl);
    assert(out@ =~= client_envelope(data@));
    out
}

} // verus!
