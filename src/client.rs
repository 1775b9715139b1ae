//! The client handle and what every generated request builder shares: the
//! encoding of URL path parts, the query string, and request headers.
use vstd::prelude::*;
use vstd::string::*;
use crate::coerce::bool_text;
use crate::text::{join_commas, push_char};

verus! {

/// A client for one Elasticsearch node.
#[derive(Clone, Debug)]
pub struct Elasticsearch {
    /// The node's base URL, such as `http://localhost:9200`.
    pub address: String,
}

impl Elasticsearch {
    /// Creates a client for the node at `address`.
    pub fn new(address: String) -> (r: Self)
        ensures
            r.address@ == address@,
    {
        Elasticsearch { address }
    }
}

/// The HTTP method of a request.
#[derive(PartialEq, Eq, Structural, Clone, Copy, Debug)]
pub enum Method {
    Get,
    Post,
    Put,
    Delete,
}

/// What a builder sends: its method, its path, its query parameters in
/// order, and its headers.
#[derive(Debug, Clone, PartialEq)]
pub struct ApiRequest {
    pub method: Method,
    pub path: String,
    pub query: Vec<(String, String)>,
    pub headers: Vec<(String, String)>,
}

/// Whether a byte of a path part must be written as `%XX`: control
/// characters, non-ASCII bytes, and the characters that end or split a path
/// segment.
pub open spec fn must_encode(b: u8) -> bool {
    b < 0x20 || b >= 0x7f || b == 0x20 || b == 0x22 || b == 0x23 || b == 0x25 || b == 0x2f
        || b == 0x3c || b == 0x3e || b == 0x3f || b == 0x60 || b == 0x7b || b == 0x7d
}

/// The upper-case hexadecimal digit for `d`.
pub open spec fn hex_digit(d: u8) -> char {
    if d < 10 {
        (0x30 + d) as char
    } else {
        (0x37 + d) as char
    }
}

/// How one byte of a path part is written.
pub open spec fn encode_byte(b: u8) -> Seq<char> {
    if must_encode(b) {
        seq!['%', hex_digit(b / 16), hex_digit(b % 16)]
    } else {
        seq![b as char]
    }
}

/// The percent-encoded form of a path part's bytes.
pub open spec fn percent_encoded(bytes: Seq<u8>) -> Seq<char>
    decreases bytes.len(),
{
    if bytes.len() == 0 {
        Seq::empty()
    } else {
        percent_encoded(bytes.drop_last()) + encode_byte(bytes.last())
    }
}

/// The percent-encoded form of a path part.
pub open spec fn encoded_part(s: Seq<char>) -> Seq<char> {
    percent_encoded(vstd::utf8::encode_utf8(s))
}

fn hex_of(d: u8) -> (c: char)
    requires
        d < 16,
    ensures
        c == hex_digit(d),
{
    if d < 10 {
        (0x30 + d) as char
    } else {
        (0x37 + d) as char
    }
}

/// Percent-encodes a path part, byte by byte of its UTF-8 form.
pub fn encode_part(s: &str) -> (r: String)
    ensures
        r@ == encoded_part(s@),
{
    let bytes = s.as_bytes();
    let mut out = String::new();
    let mut i: usize = 0;
    while i < bytes.len()
        invariant
            i <= bytes@.len(),
            bytes@ == vstd::utf8::encode_utf8(s@),
            out@ == percent_encoded(bytes@.take(i as int)),
        decreases bytes@.len() - i,
    {
        let b = bytes[i];
        assert(bytes@.take(i + 1).drop_last() == bytes@.take(i as int));
        let ghost before = out@;
        if b < 0x20 || b >= 0x7f || b == 0x20 || b == 0x22 || b == 0x23 || b == 0x25 || b == 0x2f
            || b == 0x3c || b == 0x3e || b == 0x3f || b == 0x60 || b == 0x7b || b == 0x7d {
            push_char(&mut out, '%');
            push_char(&mut out, hex_of(b / 16));
            push_char(&mut out, hex_of(b % 16));
            assert(out@ =~= before + encode_byte(b));
        } else {
            push_char(&mut out, b as char);
            assert(out@ =~= before + encode_byte(b));
        }
        i = i + 1;
    }
    assert(bytes@.take(bytes@.len() as int) == bytes@);
    out
}

/// The view of a list of text pairs.
pub open spec fn pair_views(v: Seq<(String, String)>) -> Seq<(Seq<char>, Seq<char>)> {
    v.map_values(|p: (String, String)| (p.0@, p.1@))
}

/// The headers that a list of assignments leaves, a later one for a name
/// replacing an earlier one.
pub open spec fn header_map(h: Seq<(Seq<char>, Seq<char>)>) -> Map<Seq<char>, Seq<char>>
    decreases h.len(),
{
    if h.len() == 0 {
        Map::empty()
    } else {
        header_map(h.drop_last()).insert(h.last().0, h.last().1)
    }
}

/// Sets a header, replacing any earlier value for the same name.
pub fn set_header(headers: &mut Vec<(String, String)>, key: String, value: String)
    ensures
        header_map(pair_views(final(headers)@)) == header_map(pair_views(old(headers)@)).insert(
            key@,
            value@,
        ),
{
    let ghost before = pair_views(headers@);
    let ghost k = key@;
    let ghost v = value@;
    headers.push((key, value));
    assert(pair_views(headers@).drop_last() =~= before);
}

/// The texts of a list of string slices.
pub open spec fn slice_views(s: Seq<&str>) -> Seq<Seq<char>> {
    s.map_values(|x: &str| x@)
}

/// A query entry for a flag, if it is set.
pub open spec fn flag_entry(name: Seq<char>, v: Option<bool>) -> Seq<(Seq<char>, Seq<char>)> {
    match v {
        Some(b) => seq![(name, bool_text(b))],
        None => Seq::empty(),
    }
}

/// A query entry for a text, if it is set.
pub open spec fn text_entry(name: Seq<char>, v: Option<&str>) -> Seq<(Seq<char>, Seq<char>)> {
    match v {
        Some(s) => seq![(name, s@)],
        None => Seq::empty(),
    }
}

/// A query entry for a list, if it is set: its items joined with commas.
pub open spec fn list_entry(name: Seq<char>, v: Option<&[&str]>) -> Seq<(Seq<char>, Seq<char>)> {
    match v {
        Some(s) => seq![(name, join_commas(slice_views(s@)))],
        None => Seq::empty(),
    }
}

/// Adds the query entry for a flag, if it is set.
pub fn push_flag(query: &mut Vec<(String, String)>, name: &str, v: Option<bool>)
    ensures
        pair_views(final(query)@) == pair_views(old(query)@) + flag_entry(name@, v),
{
    let ghost before = pair_views(query@);
    match v {
        Some(b) => {
            let text = if b { "true" } else { "false" };
            query.push((String::from_str(name), String::from_str(text)));
        },
        None => {},
    }
    assert(pair_views(query@) =~= before + flag_entry(name@, v));
}

/// Adds the query entry for a text, if it is set.
pub fn push_text(query: &mut Vec<(String, String)>, name: &str, v: Option<&str>)
    ensures
        pair_views(final(query)@) == pair_views(old(query)@) + text_entry(name@, v),
{
    let ghost before = pair_views(query@);
    match v {
        Some(s) => {
            query.push((String::from_str(name), String::from_str(s)));
        },
        None => {},
    }
    assert(pair_views(query@) =~= before + text_entry(name@, v));
}

/// Adds the query entry for a list, if it is set.
pub fn push_list(query: &mut Vec<(String, String)>, name: &str, v: Option<&[&str]>)
    ensures
        pair_views(final(query)@) == pair_views(old(query)@) + list_entry(name@, v),
{
    let ghost before = pair_views(query@);
    match v {
        Some(items) => {
            let mut joined = String::new();
            let mut i: usize = 0;
            while i < items.len()
                invariant
                    i <= items@.len(),
                    joined@ == join_commas(slice_views(items@.take(i as int))),
                decreases items@.len() - i,
            {
                proof {
                    let t = slice_views(items@.take(i + 1));
                    assert(t.drop_last() =~= slice_views(items@.take(i as int)));
                    assert(t.last() == items@[i as int]@);
                }
                if i > 0 {
                    push_char(&mut joined, ',');
                }
                joined.append(items[i]);
                i = i + 1;
            }
            assert(items@.take(items@.len() as int) == items@);
            query.push((String::from_str(name), joined));
        },
        None => {},
    }
    assert(pair_views(query@) =~= before + list_entry(name@, v));
}

/// Copies a list of text pairs.
pub fn copy_pairs(v: &Vec<(String, String)>) -> (r: Vec<(String, String)>)
    ensures
        pair_views(r@) == pair_views(v@),
{
    let mut out: Vec<(String, String)> = Vec::new();
    let mut i: usize = 0;
    while i < v.len()
        invariant
            i <= v@.len(),
            pair_views(out@) == pair_views(v@.take(i as int)),
        decreases v@.len() - i,
    {
        let ghost before = pair_views(out@);
        out.push((v[i].0.clone(), v[i].1.clone()));
        assert(pair_views(out@) =~= before.push((v@[i as int].0@, v@[i as int].1@)));
        assert(pair_views(v@.take(i + 1)) =~= pair_views(v@.take(i as int)).push(
            (v@[i as int].0@, v@[i as int].1@),
        ));
        i = i + 1;
    }
    assert(v@.take(v@.len() as int) == v@);
    out
}

} // verus!
