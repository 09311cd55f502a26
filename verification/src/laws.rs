//! The round trip of the wire format.
//!
//! The envelope the upload client builds and the parser the upload
//! service runs are both specified in this crate, so their agreement
//! is a theorem: a posted envelope comes back out of the service as a
//! store of exactly the bytes that went in.

use vstd::prelude::*;
use crate::search::{match_at, find_from, lemma_find_from_first, lemma_prefix_match,
    lemma_prefix_find, lemma_mismatch, lemma_find_step};
use crate::multipart::{ascii_bytes, dd, crlf, crlf2, quote, disp_pre, fname_pre, close_pat,
    ctype_pre, lemma_token_lens, client_boundary, client_head, client_tail, client_envelope,
    client_content_type, spec_parse, SpecParse, SpecField};
use crate::handle::{spec_upload, spec_boundary_of, SpecResponse, SpecStore, first_seg, last_seg,
    find_byte, rfind_byte};

verus! {

/// The layout of the head of the client's envelope: its length, the
/// tokens it opens with, and where the field name and the declared
/// filename lie in it.
proof fn lemma_head_shape()
    ensures
        client_boundary().len() == 40,
        client_head().len() == 140,
        client_tail().len() == 48,
        match_at(client_head(), dd() + client_boundary(), 0),
        client_head()[42] == 13,
        match_at(client_head(), crlf(), 42),
        match_at(client_head(), disp_pre(), 44),
        match_at(client_head(), fname_pre(), 87),
        client_head().subrange(82, 86) == ascii_bytes("file"@),
        client_head().subrange(99, 109) == ascii_bytes("upload.txt"@),
{
    lemma_token_lens();
    reveal_strlit("------------------------ea3bbcf87c101592");
    reveal_strlit("file");
    reveal_strlit("upload.txt");
    reveal_strlit("Content-Type: text/plain");
    assert(client_head().subrange(82, 86) =~= ascii_bytes("file"@));
    assert(client_head().subrange(99, 109) =~= ascii_bytes("upload.txt"@));
}

/// The field name of the envelope closes at position 86.
#[verifier::rlimit(60)]
proof fn lemma_head_quote_name()
    ensures
        find_from(client_head(), quote(), 82) == Some(86int),
{
    lemma_token_lens();
    reveal_strlit("--");
    reveal_strlit("\r\n");
    reveal_strlit("\r\n\r\n");
    reveal_strlit("\"");
    reveal_strlit("Content-Disposition: form-data; name=\"");
    reveal_strlit("; filename=\"");
    reveal_strlit("------------------------ea3bbcf87c101592");
    reveal_strlit("file");
    reveal_strlit("upload.txt");
    reveal_strlit("Content-Type: text/plain");
    let h = client_head();
    assert(h.len() == 140);
    lemma_mismatch(h, quote(), 82, 0);
    lemma_find_step(h, quote(), 82);
    lemma_mismatch(h, quote(), 83, 0);
    lemma_find_step(h, quote(), 83);
    lemma_mismatch(h, quote(), 84, 0);
    lemma_find_step(h, quote(), 84);
    lemma_mismatch(h, quote(), 85, 0);
    lemma_find_step(h, quote(), 85);
    assert(match_at(h, quote(), 86));
    assert(find_from(h, quote(), 86) == Some(86int));
}

/// The declared filename of the envelope closes at position 109.
#[verifier::rlimit(60)]
proof fn lemma_head_quote_filename()
    ensures
        find_from(client_head(), quote(), 99) == Some(109int),
{
    lemma_token_lens();
    reveal_strlit("--");
    reveal_strlit("\r\n");
    reveal_strlit("\r\n\r\n");
    reveal_strlit("\"");
    reveal_strlit("Content-Disposition: form-data; name=\"");
    reveal_strlit("; filename=\"");
    reveal_strlit("------------------------ea3bbcf87c101592");
    reveal_strlit("file");
    reveal_strlit("upload.txt");
    reveal_strlit("Content-Type: text/plain");
    let h = client_head();
    assert(h.len() == 140);
    lemma_mismatch(h, quote(), 99, 0);
    lemma_find_step(h, quote(), 99);
    lemma_mismatch(h, quote(), 100, 0);
    lemma_find_step(h, quote(), 100);
    lemma_mismatch(h, quote(), 101, 0);
    lemma_find_step(h, quote(), 101);
    lemma_mismatch(h, quote(), 102, 0);
    lemma_find_step(h, quote(), 102);
    lemma_mismatch(h, quote(), 103, 0);
    lemma_find_step(h, quote(), 103);
    lemma_mismatch(h, quote(), 104, 0);
    lemma_find_step(h, quote(), 104);
    lemma_mismatch(h, quote(), 105, 0);
    lemma_find_step(h, quote(), 105);
    lemma_mismatch(h, quote(), 106, 0);
    lemma_find_step(h, quote(), 106);
    lemma_mismatch(h, quote(), 107, 0);
    lemma_find_step(h, quote(), 107);
    lemma_mismatch(h, quote(), 108, 0);
    lemma_find_step(h, quote(), 108);
    assert(match_at(h, quote(), 109));
    assert(find_from(h, quote(), 109) == Some(109int));
}

/// The empty line that ends the headers of the envelope lies at
/// position 136.
#[verifier::rlimit(100)]
proof fn lemma_head_empty_line()
    ensures
        find_from(client_head(), crlf2(), 110) == Some(136int),
{
    lemma_token_lens();
    reveal_strlit("--");
    reveal_strlit("\r\n");
    reveal_strlit("\r\n\r\n");
    reveal_strlit("\"");
    reveal_strlit("Content-Disposition: form-data; name=\"");
    reveal_strlit("; filename=\"");
    reveal_strlit("------------------------ea3bbcf87c101592");
    reveal_strlit("file");
    reveal_strlit("upload.txt");
    reveal_strlit("Content-Type: text/plain");
    let h = client_head();
    assert(h.len() == 140);
    lemma_mismatch(h, crlf2(), 110, 2);
    lemma_find_step(h, crlf2(), 110);
    lemma_mismatch(h, crlf2(), 111, 0);
    lemma_find_step(h, crlf2(), 111);
    lemma_mismatch(h, crlf2(), 112, 0);
    lemma_find_step(h, crlf2(), 112);
    lemma_mismatch(h, crlf2(), 113, 0);
    lemma_find_step(h, crlf2(), 113);
    lemma_mismatch(h, crlf2(), 114, 0);
    lemma_find_step(h, crlf2(), 114);
    lemma_mismatch(h, crlf2(), 115, 0);
    lemma_find_step(h, crlf2(), 115);
    lemma_mismatch(h, crlf2(), 116, 0);
    lemma_find_step(h, crlf2(), 116);
    lemma_mismatch(h, crlf2(), 117, 0);
    lemma_find_step(h, crlf2(), 117);
    lemma_mismatch(h, crlf2(), 118, 0);
    lemma_find_step(h, crlf2(), 118);
    lemma_mismatch(h, crlf2(), 119, 0);
    lemma_find_step(h, crlf2(), 119);
    lemma_mismatch(h, crlf2(), 120, 0);
    lemma_find_step(h, crlf2(), 120);
    lemma_mismatch(h, crlf2(), 121, 0);
    lemma_find_step(h, crlf2(), 121);
    lemma_mismatch(h, crlf2(), 122, 0);
    lemma_find_step(h, crlf2(), 122);
    lemma_mismatch(h, crlf2(), 123, 0);
    lemma_find_step(h, crlf2(), 123);
    lemma_mismatch(h, crlf2(), 124, 0);
    lemma_find_step(h, crlf2(), 124);
    lemma_mismatch(h, crlf2(), 125, 0);
    lemma_find_step(h, crlf2(), 125);
    lemma_mismatch(h, crlf2(), 126, 0);
    lemma_find_step(h, crlf2(), 126);
    lemma_mismatch(h, crlf2(), 127, 0);
    lemma_find_step(h, crlf2(), 127);
    lemma_mismatch(h, crlf2(), 128, 0);
    lemma_find_step(h, crlf2(), 128);
    lemma_mismatch(h, crlf2(), 129, 0);
    lemma_find_step(h, crlf2(), 129);
    lemma_mismatch(h, crlf2(), 130, 0);
    lemma_find_step(h, crlf2(), 130);
    lemma_mismatch(h, crlf2(), 131, 0);
    lemma_find_step(h, crlf2(), 131);
    lemma_mismatch(h, crlf2(), 132, 0);
    lemma_find_step(h, crlf2(), 132);
    lemma_mismatch(h, crlf2(), 133, 0);
    lemma_find_step(h, crlf2(), 133);
    lemma_mismatch(h, crlf2(), 134, 0);
    lemma_find_step(h, crlf2(), 134);
    lemma_mismatch(h, crlf2(), 135, 0);
    lemma_find_step(h, crlf2(), 135);
    assert(match_at(h, crlf2(), 136));
    assert(find_from(h, crlf2(), 136) == Some(136int));
}

/// The boundary comes back out of the content type the client sends.
proof fn lemma_ctype()
    ensures
        spec_boundary_of(client_content_type()) == Some(client_boundary()),
{
    lemma_token_lens();
    reveal_strlit("multipart/form-data; boundary=");
    reveal_strlit("------------------------ea3bbcf87c101592");
    let c = client_content_type();
    assert(c.len() == 70);
    assert(match_at(c, ctype_pre(), 0));
    assert(c.subrange(30, 70) =~= client_boundary());
}

/// The declared filename `upload.txt` holds no separator, so it is
/// both the subdirectory and the filename of the store.
proof fn lemma_upload_txt_segments()
    ensures
        first_seg(ascii_bytes("upload.txt"@)) == ascii_bytes("upload.txt"@),
        last_seg(ascii_bytes("upload.txt"@)) == ascii_bytes("upload.txt"@),
{
    reveal_strlit("upload.txt");
    assert(ascii_bytes("upload.txt"@).len() == 10);
    assert(find_byte(ascii_bytes("upload.txt"@), 47u8, 0) is None) by {
        reveal_with_fuel(find_byte, 12);
    }
    assert(rfind_byte(ascii_bytes("upload.txt"@), 47u8, 10) is None) by {
        reveal_with_fuel(rfind_byte, 12);
    }
}

/// Round trip of an upload: when the client packages file bytes
/// `data` and posts them, the service accepts the request with status
/// `200` and stores exactly `data`, under the subdirectory and the
/// filename that both equal the declared name `upload.txt`, which
/// holds no separator.  The file must not be empty, and its bytes must
/// not contain the closing boundary line of the envelope: the wire
/// format cannot carry content that spells out its own delimiter.
#[verifier::rlimit(100)]
pub proof fn lemma_upload_round_trip(data: Seq<u8>)
    requires
        data.len() > 0,
        forall|j: int|
            0 <= j < data.len() ==> !match_at(
                data + close_pat(client_boundary()),
                close_pat(client_boundary()),
                j,
            ),
    ensures
        spec_upload("POST"@, client_content_type(), client_envelope(data)) == (SpecResponse {
            status: 200,
            store: Some(
                SpecStore {
                    subdir: ascii_bytes("upload.txt"@),
                    file_name: ascii_bytes("upload.txt"@),
                    bytes: data,
                },
            ),
        }),
{
    lemma_token_lens();
    lemma_head_shape();
    lemma_ctype();
    let h = client_head();
    let t = client_tail();
    let b = client_boundary();
    let cp = close_pat(b);
    let dl = data.len() as int;
    let rest = data + t;
    let s = client_envelope(data);
    assert(s =~= h + rest);
    assert(s.len() == 188 + dl);
    assert(cp.len() == 44);

    // The head of the envelope parses position by position.
    lemma_prefix_match(h, rest, dd() + b, 0);
    lemma_prefix_match(h, rest, dd(), 42);
    assert(!match_at(h, dd(), 42)) by {
        if match_at(h, dd(), 42) {
            assert(h[42int + 0] == dd()[0]);
        }
    }
    lemma_prefix_match(h, rest, crlf(), 42);
    lemma_prefix_match(h, rest, disp_pre(), 44);
    lemma_head_quote_name();
    lemma_prefix_find(h, rest, quote(), 82, 86);
    assert(s.subrange(82, 86) =~= h.subrange(82, 86));
    lemma_prefix_match(h, rest, fname_pre(), 87);
    lemma_head_quote_filename();
    lemma_prefix_find(h, rest, quote(), 99, 109);
    assert(s.subrange(99, 109) =~= h.subrange(99, 109));
    lemma_head_empty_line();
    lemma_prefix_find(h, rest, crlf2(), 110, 136);

    // The content runs from the empty line to the closing boundary
    // line, whose first occurrence delimits exactly `data`.
    assert(match_at(s, cp, 140 + dl)) by {
        assert forall|k: int| 0 <= k < 44 implies s[140 + dl + k] == cp[k] by {
            assert(s[140 + dl + k] == t[k]);
        }
    }
    assert forall|j: int| 140 <= j < 140 + dl implies !match_at(s, cp, j) by {
        let jj = j - 140;
        if match_at(s, cp, j) {
            assert forall|k: int| 0 <= k < 44 implies (data + cp)[jj + k] == cp[k] by {
                assert(s[j + k] == cp[k]);
                if jj + k < dl {
                    assert(s[j + k] == data[jj + k]);
                } else {
                    assert(s[j + k] == t[jj + k - dl]);
                    assert(t[jj + k - dl] == cp[jj + k - dl]);
                }
            }
            assert(match_at(data + cp, cp, jj));
        }
    }
    lemma_find_from_first(s, cp, 140, 140 + dl);
    assert(s.subrange(140, 140 + dl) =~= data);

    // The parse result assembles, and the filename splits into itself.
    assert(spec_parse(s, b) == SpecParse::Field(
        SpecField {
            name: ascii_bytes("file"@),
            file_name: Some(ascii_bytes("upload.txt"@)),
            bytes: data,
        },
    ));
    lemma_upload_txt_segments();
}

} // verus!
