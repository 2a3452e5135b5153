//! Piece-fetch locator handling: splitting a combined remote locator into
//! its host and file parts, and rendering the query string of the fetch
//! request. The HTTP transport itself is a driver concern; only the
//! computations live here.

use vstd::prelude::*;

verus! {

/// A remote locator that does not have the `host|file` shape.
#[derive(Debug)]
pub struct InvalidRemoteFileUrl {
    pub message: String,
}

/// How many `'|'` separators a character sequence holds.
pub open spec fn pipe_count(s: Seq<char>) -> nat
    decreases s.len(),
{
    if s.len() == 0 {
        0nat
    } else {
        pipe_count(s.drop_last()) + (if s.last() == '|' {
            1nat
        } else {
            0nat
        })
    }
}

/// Splits a combined remote locator of the shape `host|file` into the host
/// and the file part. Exactly the locators with a single `'|'` separator are
/// accepted, and the two parts are returned verbatim: the input is the host,
/// the separator, and the file, in that order.
pub fn get_host_and_file(remote_file_url: &str) -> (r: Result<(String, String), InvalidRemoteFileUrl>)
    ensures
        match r {
            Ok(parts) => pipe_count(remote_file_url@) == 1 && remote_file_url@ == parts.0@ + seq![
                '|',
            ] + parts.1@,
            Err(_) => pipe_count(remote_file_url@) != 1,
        },
{
    let n = remote_file_url.unicode_len();
    let mut count: usize = 0;
    let mut first: usize = 0;
    let mut i: usize = 0;
    while i < n
        invariant
            n == remote_file_url@.len(),
            i <= n,
            count <= i,
            count as nat == pipe_count(remote_file_url@.take(i as int)),
            count > 0 ==> first < i && remote_file_url@[first as int] == '|',
        decreases n - i,
    {
        let c = remote_file_url.get_char(i);
        proof {
            assert(remote_file_url@.take(i + 1 as int).drop_last() =~= remote_file_url@.take(
                i as int,
            ));
            assert(remote_file_url@.take(i + 1 as int).last() == remote_file_url@[i as int]);
        }
        if c == '|' {
            if count == 0 {
                first = i;
            }
            count = count + 1;
        }
        i = i + 1;
    }
    proof {
        assert(remote_file_url@.take(n as int) =~= remote_file_url@);
    }
    if count != 1 {
        let message = String::from_str("unknown remote file url: ").concat(remote_file_url);
        return Err(InvalidRemoteFileUrl { message });
    }
    let host = remote_file_url.substring_char(0, first).to_owned();
    let file = remote_file_url.substring_char(first + 1, n).to_owned();
    proof {
        assert(remote_file_url@ =~= host@ + seq!['|'] + file@);
    }
    Ok((host, file))
}

/// The form-urlencoded rendering of a list of key/value pairs, as the
/// urlencoded serializer produces it. It depends on the pairs alone.
pub uninterp spec fn form_encoding_of(pairs: Seq<(Seq<char>, Seq<char>)>) -> Seq<char>;

/// Relies on serde_urlencoded::to_string: renders the pairs in
/// `application/x-www-form-urlencoded` form, a function of the pairs alone.
/// On a list of string pairs the serializer has no failure path (its errors
/// come only from unsupported shapes), so the call always succeeds.
#[verifier::external_body]
fn encode_pairs(pairs: &Vec<(String, String)>) -> (r: Result<String, serde_urlencoded::ser::Error>)
    ensures
        r is Ok,
        (r matches Ok(s) ==> s@ == form_encoding_of(
            pairs@.map_values(|p: (String, String)| (p.0@, p.1@)),
        )),
{
    serde_urlencoded::to_string(pairs)
}

/// Declares the urlencoded serializer's error type so the wrapper can hand
/// it back unchanged.
#[verifier::external_type_specification]
#[verifier::external_body]
pub struct ExUrlSerError(serde_urlencoded::ser::Error);

/// The query pairs of a piece-fetch request for `file`: the file itself and
/// the confirmation-offer flag.
pub open spec fn fetch_query_pairs(file: Seq<char>) -> Seq<(Seq<char>, Seq<char>)> {
    seq![("file"@, file), ("offer_confirmation"@, "true"@)]
}

/// Renders the query string of a piece-fetch request for `file`.
pub fn fetch_query(file: &str) -> (q: String)
    ensures
        q@ == form_encoding_of(fetch_query_pairs(file@)),
{
    let mut pairs: Vec<(String, String)> = Vec::new();
    pairs.push((String::from_str("file"), file.to_owned()));
    pairs.push((String::from_str("offer_confirmation"), String::from_str("true")));
    proof {
        assert(pairs@.map_values(|p: (String, String)| (p.0@, p.1@)) =~= fetch_query_pairs(
            file@,
        ));
    }
    match encode_pairs(&pairs) {
        Ok(q) => q,
        Err(_) => unreached(),
    }
}

/// The relative path the piece-fetch request is issued against.
pub fn fetch_path() -> (r: &'static str)
    ensures
        r@ == "/api/file_opt/fetch"@,
{
    "/api/file_opt/fetch"
}

} // verus!
