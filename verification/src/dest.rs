//! Parsing of destination URIs and authorities, through hyper's parser.
//!
//! The parser itself is hyper's; its results are named by uninterpreted
//! spec functions, since what exactly parses as a URI takes pages to state.
//! Everything around the calls — stripping the leading slash, choosing the
//! error — is verified.
use crate::types::opt_view;
use std::str::FromStr;
use vstd::prelude::*;

verus! {

use vstd::utf8::char_is_scalar;
use vstd::utf8::char_u32_cast;
use vstd::utf8::encode_scalar;
use vstd::utf8::encode_utf8;
use vstd::utf8::encode_utf8_decode_utf8;
use vstd::utf8::encode_utf8_first_scalar;
use vstd::utf8::encode_utf8_valid_utf8;
use vstd::utf8::is_char_boundary;
use vstd::utf8::is_leading_byte_width_1;
use vstd::utf8::length_of_first_scalar;
use vstd::string::StringSliceAdditionalSpecFns;

/// What hyper's URI parser makes of a string: `None` when the string is no
/// URI at all; otherwise the URI's authority and its path with query, either
/// of which a URI may lack.
pub uninterp spec fn uri_parse(s: Seq<char>) -> Option<(Option<Seq<char>>, Option<Seq<char>>)>;

/// What hyper's authority parser makes of a string: the parsed
/// `host[:port]`, or `None` when the string is no authority.
pub uninterp spec fn authority_parse(s: Seq<char>) -> Option<Seq<char>>;

/// Relies on `http::Uri::from_str` (hyper re-exports it as `hyper::Uri`),
/// reading the parts back through `Uri::authority`, `Uri::path_and_query`
/// and their `as_str`: the parse depends on the characters alone.
#[verifier::external_body]
pub(crate) fn parse_uri_str(s: &str) -> (r: Option<(Option<String>, Option<String>)>)
    ensures
        match r {
            Some(p) => uri_parse(s@) == Some((opt_view(p.0), opt_view(p.1))),
            None => uri_parse(s@) is None,
        },
{
    match hyper::Uri::from_str(s) {
        Ok(u) => {
            let authority = match u.authority() {
                Some(a) => Some(a.as_str().to_owned()),
                None => None,
            };
            let path_and_query = match u.path_and_query() {
                Some(p) => Some(p.as_str().to_owned()),
                None => None,
            };
            Some((authority, path_and_query))
        },
        Err(_) => None,
    }
}

/// Relies on `http::uri::Authority::from_str` (via hyper) and
/// `Authority::as_str`: the parse depends on the characters alone.
#[verifier::external_body]
pub(crate) fn parse_authority_str(s: &str) -> (r: Option<String>)
    ensures
        opt_view(r) == authority_parse(s@),
{
    match hyper::http::uri::Authority::from_str(s) {
        Ok(a) => Some(a.as_str().to_owned()),
        Err(_) => None,
    }
}

/// A string starts with `/` exactly when its first byte is 47; then that
/// byte encodes the whole first character.
proof fn lemma_first_byte_slash(chars: Seq<char>)
    requires
        chars.len() > 0,
    ensures
        (encode_utf8(chars)[0] == 47) <==> (chars[0] == '/'),
        chars[0] == '/' ==> length_of_first_scalar(encode_utf8(chars)) == 1,
        chars[0] == '/' ==> encode_utf8(chars).subrange(1, encode_utf8(chars).len() as int)
            =~= encode_utf8(chars.drop_first()),
        encode_utf8(chars).len() > 0,
{
    let c0 = chars[0] as u32;
    char_is_scalar(chars[0]);
    let bytes = encode_utf8(chars);
    let e0 = encode_scalar(c0);
    assert(bytes == e0 + encode_utf8(chars.drop_first()));
    assert(e0.len() >= 1);
    assert(bytes[0] == e0[0]);
    assert(('/' as u32) == 47);
    if bytes[0] == 47 {
        assert(is_leading_byte_width_1(47));
        encode_utf8_first_scalar(chars);
        assert(47u8 & 0x7f == 47u8) by (bit_vector);
        assert(vstd::utf8::decode_first_scalar(bytes) == 47);
        assert(c0 == 47);
        char_u32_cast(chars[0], c0);
        char_u32_cast('/', 47);
        assert(chars[0] == '/');
    }
    if chars[0] == '/' {
        assert(c0 == 47);
        assert(vstd::utf8::has_width_1_encoding(47));
        assert(c0 & 0x7f == c0) by (bit_vector)
            requires
                c0 == 47,
        ;
        assert(e0 == seq![vstd::utf8::leading_byte_width_1(c0)]);
        assert(bytes[0] == 47);
        encode_utf8_first_scalar(chars);
        assert(length_of_first_scalar(bytes) == encode_scalar(c0).len() == 1);
        assert(bytes.subrange(1, bytes.len() as int) =~= encode_utf8(chars.drop_first()));
    }
}

/// Removes the leading slash from a request path, if there is one.
pub fn strip_leading_slash<'a>(s: &'a str) -> (r: Option<&'a str>)
    ensures
        match r {
            Some(t) => s@.len() > 0 && s@[0] == '/' && t@ == s@.drop_first(),
            None => s@.len() == 0 || s@[0] != '/',
        },
{
    broadcast use encode_utf8_valid_utf8;

    let b = s.as_bytes();
    if b.len() == 0 {
        proof {
            if s@.len() > 0 {
                lemma_first_byte_slash(s@);
            }
        }
        return None;
    }
    proof {
        if s@.len() == 0 {
            assert(s.spec_bytes() =~= Seq::<u8>::empty());
        }
        lemma_first_byte_slash(s@);
    }
    if b[0] == 47 {
        proof {
            assert(s@[0] == '/');
            assert(length_of_first_scalar(s.spec_bytes()) == 1);
            assert(vstd::utf8::pop_first_scalar(s.spec_bytes()) == s.spec_bytes().subrange(
                1,
                s.spec_bytes().len() as int,
            ));
            reveal_with_fuel(is_char_boundary, 2);
            assert(is_char_boundary(s.spec_bytes(), 1));
        }
        let (_head, tail) = s.split_at(1);
        proof {
            assert(tail.spec_bytes() =~= encode_utf8(s@.drop_first()));
            encode_utf8_decode_utf8(tail@);
            encode_utf8_decode_utf8(s@.drop_first());
            assert(tail@ == s@.drop_first());
        }
        Some(tail)
    } else {
        None
    }
}

} // verus!
