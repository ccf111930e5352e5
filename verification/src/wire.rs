//! Responses on the wire.
//!
//! A response is one bencode dictionary. Byte strings are encoded by `bendy`;
//! the dictionaries and lists around them are put together here, keys in
//! ascending order, as canonical bencode wants them. Encoding a response
//! does not fail; the result type follows the encoder's.

use crate::protocol::namespace_views;
use crate::protocol::status_text;
use crate::protocol::var_views;
use crate::protocol::DescribeResponse;
use crate::protocol::DescribeView;
use crate::protocol::ErrorResponse;
use crate::protocol::ErrorView;
use crate::protocol::InvokeResponse;
use crate::protocol::InvokeView;
use crate::protocol::Namespace;
use crate::protocol::NamespaceView;
use crate::protocol::Response;
use crate::protocol::ResponseView;
use crate::protocol::Var;
use crate::protocol::VarView;
use crate::text::decimal;
use crate::text::push_all;
use crate::text::utf8;
use bendy::encoding::AsString;
use bendy::encoding::ToBencode;
use vstd::prelude::*;

verus! {

/// A byte string on the wire: its length in decimal, a colon, the bytes.
pub open spec fn byte_string(bytes: Seq<u8>) -> Seq<u8> {
    decimal(bytes.len()) + seq![58u8] + bytes
}

/// A text on the wire: the byte string of its UTF-8 encoding.
pub open spec fn text_string(text: Seq<char>) -> Seq<u8> {
    byte_string(utf8(text))
}

/// A dictionary entry: the key as a text, then the encoded value.
pub open spec fn entry(key: Seq<char>, value: Seq<u8>) -> Seq<u8> {
    text_string(key) + value
}

/// A dictionary around its encoded entries.
pub open spec fn dict(entries: Seq<u8>) -> Seq<u8> {
    seq![100u8] + entries + seq![101u8]
}

/// A list around its encoded items.
pub open spec fn list(items: Seq<u8>) -> Seq<u8> {
    seq![108u8] + items + seq![101u8]
}

/// A capability on the wire: a dictionary with its name.
pub open spec fn var_wire(v: VarView) -> Seq<u8> {
    dict(entry("name"@, text_string(v.name)))
}

/// Capabilities on the wire, one after the other.
pub open spec fn vars_wire(vars: Seq<VarView>) -> Seq<u8>
    decreases vars.len(),
{
    if vars.len() == 0 {
        Seq::empty()
    } else {
        vars_wire(vars.drop_last()) + var_wire(vars.last())
    }
}

/// A namespace on the wire: a dictionary with its name and the list of
/// its capabilities.
pub open spec fn namespace_wire(n: NamespaceView) -> Seq<u8> {
    dict(entry("name"@, text_string(n.name)) + entry("vars"@, list(vars_wire(n.vars))))
}

/// Namespaces on the wire, one after the other.
pub open spec fn namespaces_wire(namespaces: Seq<NamespaceView>) -> Seq<u8>
    decreases namespaces.len(),
{
    if namespaces.len() == 0 {
        Seq::empty()
    } else {
        namespaces_wire(namespaces.drop_last()) + namespace_wire(namespaces.last())
    }
}

/// A describe response on the wire: the format and the list of namespaces.
pub open spec fn describe_wire(d: DescribeView) -> Seq<u8> {
    dict(
        entry("format"@, text_string(d.format)) + entry(
            "ns"@,
            list(namespaces_wire(d.namespaces)),
        ),
    )
}

/// An invoke response on the wire: the id, the status and the value, the
/// value as a byte string.
pub open spec fn invoke_wire(i: InvokeView) -> Seq<u8> {
    dict(
        entry("id"@, text_string(i.id)) + entry("status"@, text_string(status_text(i.status)))
            + entry("value"@, byte_string(i.value)),
    )
}

/// An error response on the wire. An absent id leaves no entry.
pub open spec fn error_wire(e: ErrorView) -> Seq<u8> {
    dict(
        entry("ex-message"@, text_string(e.ex_message)) + (match e.id {
            Some(id) => entry("id"@, text_string(id)),
            None => Seq::empty(),
        }) + entry("status"@, text_string(status_text(e.status))),
    )
}

/// The bytes that stand for a response on the wire.
pub open spec fn response_wire(r: ResponseView) -> Seq<u8> {
    match r {
        ResponseView::Describe(d) => describe_wire(d),
        ResponseView::Invoke(i) => invoke_wire(i),
        ResponseView::Error(e) => error_wire(e),
    }
}

/// Every response is one dictionary on the wire: it opens with `d` and
/// closes with the terminator `e`, so that a peer that frames by the
/// terminator finds its end.
pub proof fn response_is_a_dictionary(r: ResponseView)
    ensures
        response_wire(r).len() >= 2,
        response_wire(r).first() == 100u8,
        response_wire(r).last() == 101u8,
{
}

/// Why a response could not be encoded.
#[derive(Debug, PartialEq, Eq)]
pub struct EncodeError {
    pub message: String,
}

/// `ToBencode::to_bencode` of `bendy`, on `AsString(bytes)`. A byte string
/// is an atom: it has no keys to sort and no depth, which are all that the
/// encoder refuses a value for. So the call succeeds, and its result is the
/// length of `bytes` in decimal, a colon, and `bytes`. The type still
/// allows for an error, which would be handed on as its message.
#[verifier::external_body]
fn encode_byte_string(bytes: &[u8]) -> (r: Result<Vec<u8>, String>)
    ensures
        match r {
            Ok(encoded) => encoded@ == byte_string(bytes@),
            Err(_) => false,
        },
{
    AsString(bytes).to_bencode().map_err(|error| error.to_string())
}

/// Appends `bytes` to `out` as a byte string.
fn put_bytes(out: &mut Vec<u8>, bytes: &[u8]) -> (r: Result<(), EncodeError>)
    ensures
        r is Ok,
        final(out)@ == old(out)@ + byte_string(bytes@),
{
    match encode_byte_string(bytes) {
        Ok(encoded) => {
            push_all(out, encoded.as_slice());
            Ok(())
        },
        Err(message) => Err(EncodeError { message }),
    }
}

/// Appends `text` to `out` as a byte string.
fn put_text(out: &mut Vec<u8>, text: &str) -> (r: Result<(), EncodeError>)
    ensures
        r is Ok,
        final(out)@ == old(out)@ + text_string(text@),
{
    put_bytes(out, text.as_bytes())
}

/// Appends the entry `key`: `text` to `out`.
fn put_text_entry(out: &mut Vec<u8>, key: &str, text: &str) -> (r: Result<(), EncodeError>)
    ensures
        r is Ok,
        final(out)@ == old(out)@ + entry(key@, text_string(text@)),
{
    match put_text(out, key) {
        Ok(()) => {},
        Err(e) => { return Err(e); },
    }
    match put_text(out, text) {
        Ok(()) => {},
        Err(e) => { return Err(e); },
    }
    assert(out@ =~= old(out)@ + entry(key@, text_string(text@)));
    Ok(())
}

/// Appends `v` to `out`.
fn put_var(out: &mut Vec<u8>, v: &Var) -> (r: Result<(), EncodeError>)
    ensures
        r is Ok,
        final(out)@ == old(out)@ + var_wire(v@),
{
    out.push(100u8);
    match put_text_entry(out, "name", v.name.as_str()) {
        Ok(()) => {},
        Err(e) => { return Err(e); },
    }
    out.push(101u8);
    assert(out@ =~= old(out)@ + var_wire(v@));
    Ok(())
}

/// Appends the list of `vars` to `out`.
fn put_vars(out: &mut Vec<u8>, vars: &Vec<Var>) -> (r: Result<(), EncodeError>)
    ensures
        r is Ok,
        final(out)@ == old(out)@ + list(vars_wire(var_views(vars@))),
{
    out.push(108u8);
    let mut i: usize = 0;
    while i < vars.len()
        invariant
            i <= vars.len(),
            out@ == old(out)@ + seq![108u8] + vars_wire(var_views(vars@).take(i as int)),
        decreases vars.len() - i,
    {
        let ghost before = out@;
        match put_var(out, &vars[i]) {
            Ok(()) => {},
            Err(e) => { return Err(e); },
        }
        proof {
            let views = var_views(vars@);
            assert(views.take(i + 1).drop_last() =~= views.take(i as int));
            assert(views.take(i + 1).last() == vars@[i as int]@);
            assert(out@ =~= old(out)@ + seq![108u8] + vars_wire(views.take(i + 1)));
        }
        i = i + 1;
    }
    out.push(101u8);
    proof {
        let views = var_views(vars@);
        assert(views.take(vars.len() as int) =~= views);
        assert(out@ =~= old(out)@ + list(vars_wire(views)));
    }
    Ok(())
}

/// Appends `n` to `out`.
fn put_namespace(out: &mut Vec<u8>, n: &Namespace) -> (r: Result<(), EncodeError>)
    ensures
        r is Ok,
        final(out)@ == old(out)@ + namespace_wire(n@),
{
    out.push(100u8);
    match put_text_entry(out, "name", n.name.as_str()) {
        Ok(()) => {},
        Err(e) => { return Err(e); },
    }
    match put_text(out, "vars") {
        Ok(()) => {},
        Err(e) => { return Err(e); },
    }
    match put_vars(out, &n.vars) {
        Ok(()) => {},
        Err(e) => { return Err(e); },
    }
    out.push(101u8);
    assert(out@ =~= old(out)@ + namespace_wire(n@));
    Ok(())
}

/// Appends the list of `namespaces` to `out`.
fn put_namespaces(out: &mut Vec<u8>, namespaces: &Vec<Namespace>) -> (r: Result<(), EncodeError>)
    ensures
        r is Ok,
        final(out)@ == old(out)@ + list(
            namespaces_wire(namespace_views(namespaces@)),
        ),
{
    out.push(108u8);
    let mut i: usize = 0;
    while i < namespaces.len()
        invariant
            i <= namespaces.len(),
            out@ == old(out)@ + seq![108u8] + namespaces_wire(
                namespace_views(namespaces@).take(i as int),
            ),
        decreases namespaces.len() - i,
    {
        match put_namespace(out, &namespaces[i]) {
            Ok(()) => {},
            Err(e) => { return Err(e); },
        }
        proof {
            let views = namespace_views(namespaces@);
            assert(views.take(i + 1).drop_last() =~= views.take(i as int));
            assert(views.take(i + 1).last() == namespaces@[i as int]@);
            assert(out@ =~= old(out)@ + seq![108u8] + namespaces_wire(views.take(i + 1)));
        }
        i = i + 1;
    }
    out.push(101u8);
    proof {
        let views = namespace_views(namespaces@);
        assert(views.take(namespaces.len() as int) =~= views);
        assert(out@ =~= old(out)@ + list(namespaces_wire(views)));
    }
    Ok(())
}

impl DescribeResponse {
    /// This response as one bencode dictionary.
    pub fn to_bencode(&self) -> (r: Result<Vec<u8>, EncodeError>)
        ensures
            r matches Ok(bytes) && bytes@ == describe_wire(self@),
    {
        let mut out: Vec<u8> = Vec::new();
        out.push(100u8);
        match put_text_entry(&mut out, "format", self.format.as_str()) {
            Ok(()) => {},
            Err(e) => { return Err(e); },
        }
        match put_text(&mut out, "ns") {
            Ok(()) => {},
            Err(e) => { return Err(e); },
        }
        match put_namespaces(&mut out, &self.namespaces) {
            Ok(()) => {},
            Err(e) => { return Err(e); },
        }
        out.push(101u8);
        assert(out@ =~= describe_wire(self@));
        Ok(out)
    }
}

impl InvokeResponse {
    /// This response as one bencode dictionary.
    pub fn to_bencode(&self) -> (r: Result<Vec<u8>, EncodeError>)
        ensures
            r matches Ok(bytes) && bytes@ == invoke_wire(self@),
    {
        let mut out: Vec<u8> = Vec::new();
        out.push(100u8);
        match put_text_entry(&mut out, "id", self.id.as_str()) {
            Ok(()) => {},
            Err(e) => { return Err(e); },
        }
        match put_text_entry(&mut out, "status", self.status.as_str()) {
            Ok(()) => {},
            Err(e) => { return Err(e); },
        }
        match put_text(&mut out, "value") {
            Ok(()) => {},
            Err(e) => { return Err(e); },
        }
        match put_bytes(&mut out, self.value.as_slice()) {
            Ok(()) => {},
            Err(e) => { return Err(e); },
        }
        out.push(101u8);
        assert(out@ =~= invoke_wire(self@));
        Ok(out)
    }
}

impl ErrorResponse {
    /// This response as one bencode dictionary.
    pub fn to_bencode(&self) -> (r: Result<Vec<u8>, EncodeError>)
        ensures
            r matches Ok(bytes) && bytes@ == error_wire(self@),
    {
        let mut out: Vec<u8> = Vec::new();
        out.push(100u8);
        match put_text_entry(&mut out, "ex-message", self.ex_message.as_str()) {
            Ok(()) => {},
            Err(e) => { return Err(e); },
        }
        match &self.id {
            Some(id) => {
                match put_text_entry(&mut out, "id", id.as_str()) {
                    Ok(()) => {},
                    Err(e) => { return Err(e); },
                }
            },
            None => {},
        }
        match put_text_entry(&mut out, "status", self.status.as_str()) {
            Ok(()) => {},
            Err(e) => { return Err(e); },
        }
        out.push(101u8);
        assert(out@ =~= error_wire(self@));
        Ok(out)
    }
}

impl Response {
    /// This response as one bencode dictionary.
    pub fn to_bencode(&self) -> (r: Result<Vec<u8>, EncodeError>)
        ensures
            r matches Ok(bytes) && bytes@ == response_wire(self@),
    {
        match self {
            Response::Describe(d) => d.to_bencode(),
            Response::Invoke(i) => i.to_bencode(),
            Response::Error(e) => e.to_bencode(),
        }
    }
}

} // verus!
