//! Requests off the wire.
//!
//! A request is one bencode dictionary, and nothing after it, with the keys
//! `op`, `id`, `var` and `args`, each a UTF-8 byte string; `op` must be
//! there, the others may be missing, and other keys are passed over with
//! whatever they hold. The tokens come from `bendy` (see [`crate::tokens`]);
//! what is made of them is decided here, one token at a time.

use crate::protocol::invalid_operation;
use crate::protocol::op_named;
use crate::protocol::op_text;
use crate::protocol::op_text_names_op;
use crate::protocol::text_of;
use crate::protocol::Op;
use crate::protocol::Request;
use crate::protocol::RequestView;
use crate::text::bytes_eq;
use crate::text::concat_text;
use crate::text::utf8;
use crate::text::utf8_is_injective;
use crate::tokens::next_token;
use crate::tokens::open_tokens;
use crate::tokens::pending;
use crate::tokens::token_stream;
use crate::tokens::TokenView;
use crate::tokens::WireToken;
use vstd::prelude::*;
use vstd::utf8::*;

verus! {

/// The byte that ends a dictionary: `e`.
pub const TERMINATOR: u8 = 101;

/// How deep lists and dictionaries under a passed-over key are followed.
/// The tokenizer itself stops earlier.
pub const NESTING_LIMIT: usize = 2048;

/// A key of the request dictionary that means something.
#[derive(Debug, Clone, Copy, PartialEq, Eq, Structural)]
pub enum Field {
    Op,
    Id,
    Var,
    Args,
}

/// The place a dictionary key points to: a field, or nowhere.
#[derive(Debug, Clone, Copy, PartialEq, Eq, Structural)]
pub enum Slot {
    Known(Field),
    Other,
}

/// What the reader waits for.
#[derive(Debug, Clone, Copy, PartialEq, Eq, Structural)]
pub enum Expect {
    /// The token that opens the message.
    Message,
    /// A key of the request dictionary, or its end.
    Key,
    /// The value under the key just read.
    Value(Slot),
    /// The rest of a passed-over list or dictionary, this many levels deep.
    Nested(usize),
}

/// Why a buffer is no request.
#[derive(Debug, PartialEq, Eq)]
pub enum DecodeError {
    /// The buffer is empty or does not end with the terminator: it may be
    /// unfinished, and no attempt was made.
    KeepReading,
    /// The bencode is broken; the text is the tokenizer's complaint.
    Malformed(String),
    /// The message is not a dictionary.
    NotADictionary,
    /// The tokens stop before the dictionary ends, or go on as they cannot.
    Incomplete,
    /// A field holds something other than a byte string.
    WrongType(Field),
    /// A field holds bytes that are not UTF-8.
    InvalidUtf8(Field),
    /// Lists and dictionaries under a passed-over key nest too deep.
    TooDeep,
    /// `op` names no operation; the text is the name.
    InvalidOp(String),
    /// There is no `op`.
    MissingOp,
    /// Something follows the request dictionary.
    TrailingData,
}

/// What [`DecodeError`] holds, in contracts.
pub enum DecodeErrorView {
    KeepReading,
    Malformed(Seq<char>),
    NotADictionary,
    Incomplete,
    WrongType(Field),
    InvalidUtf8(Field),
    TooDeep,
    InvalidOp(Seq<char>),
    MissingOp,
    TrailingData,
}

impl View for DecodeError {
    type V = DecodeErrorView;

    open spec fn view(&self) -> DecodeErrorView {
        match self {
            DecodeError::KeepReading => DecodeErrorView::KeepReading,
            DecodeError::Malformed(m) => DecodeErrorView::Malformed(m@),
            DecodeError::NotADictionary => DecodeErrorView::NotADictionary,
            DecodeError::Incomplete => DecodeErrorView::Incomplete,
            DecodeError::WrongType(f) => DecodeErrorView::WrongType(*f),
            DecodeError::InvalidUtf8(f) => DecodeErrorView::InvalidUtf8(*f),
            DecodeError::TooDeep => DecodeErrorView::TooDeep,
            DecodeError::InvalidOp(name) => DecodeErrorView::InvalidOp(name@),
            DecodeError::MissingOp => DecodeErrorView::MissingOp,
            DecodeError::TrailingData => DecodeErrorView::TrailingData,
        }
    }
}

/// The key that stands for `field` on the wire.
pub open spec fn field_name(field: Field) -> Seq<char> {
    match field {
        Field::Op => "op"@,
        Field::Id => "id"@,
        Field::Var => "var"@,
        Field::Args => "args"@,
    }
}

/// What a [`DecodeError`] says.
pub open spec fn decode_error_text(e: DecodeErrorView) -> Seq<char> {
    match e {
        DecodeErrorView::KeepReading => "keep reading"@,
        DecodeErrorView::Malformed(complaint) => complaint,
        DecodeErrorView::NotADictionary => "message is not a dictionary"@,
        DecodeErrorView::Incomplete => "message is incomplete"@,
        DecodeErrorView::WrongType(field) => "not a byte string: "@ + field_name(field),
        DecodeErrorView::InvalidUtf8(field) => "not UTF-8: "@ + field_name(field),
        DecodeErrorView::TooDeep => "nested too deep"@,
        DecodeErrorView::InvalidOp(name) => invalid_operation(name),
        DecodeErrorView::MissingOp => "missing field: op"@,
        DecodeErrorView::TrailingData => "something follows the message"@,
    }
}

impl Field {
    /// The key that stands for this field on the wire.
    pub fn name(&self) -> (key: &'static str)
        ensures
            key@ == field_name(*self),
    {
        match self {
            Field::Op => "op",
            Field::Id => "id",
            Field::Var => "var",
            Field::Args => "args",
        }
    }
}

impl DecodeError {
    /// What this error says.
    pub fn message(&self) -> (text: String)
        ensures
            text@ == decode_error_text(self@),
    {
        match self {
            DecodeError::KeepReading => String::from_str("keep reading"),
            DecodeError::Malformed(complaint) => complaint.clone(),
            DecodeError::NotADictionary => String::from_str("message is not a dictionary"),
            DecodeError::Incomplete => String::from_str("message is incomplete"),
            DecodeError::WrongType(field) => concat_text("not a byte string: ", field.name()),
            DecodeError::InvalidUtf8(field) => concat_text("not UTF-8: ", field.name()),
            DecodeError::TooDeep => String::from_str("nested too deep"),
            DecodeError::InvalidOp(name) => concat_text("Invalid operation: ", name.as_str()),
            DecodeError::MissingOp => String::from_str("missing field: op"),
            DecodeError::TrailingData => String::from_str("something follows the message"),
        }
    }
}

/// What a decoding attempt gives, in contracts.
pub open spec fn outcome_view(r: Result<Request, DecodeError>) -> Result<
    RequestView,
    DecodeErrorView,
> {
    match r {
        Ok(request) => Ok(request@),
        Err(e) => Err(e@),
    }
}

/// The reader of one request: what it waits for and what it has so far.
pub struct Reader {
    pub expect: Expect,
    pub op: Option<Op>,
    pub id: Option<String>,
    pub var: Option<String>,
    pub args: Option<String>,
}

/// What [`Reader`] holds, in contracts.
pub struct ReaderView {
    pub expect: Expect,
    pub op: Option<Op>,
    pub id: Option<Seq<char>>,
    pub var: Option<Seq<char>>,
    pub args: Option<Seq<char>>,
}

impl View for Reader {
    type V = ReaderView;

    open spec fn view(&self) -> ReaderView {
        ReaderView {
            expect: self.expect,
            op: self.op,
            id: text_of(self.id),
            var: text_of(self.var),
            args: text_of(self.args),
        }
    }
}

/// Where a reader stands after a token.
pub enum Progress {
    /// It wants another token.
    More(Reader),
    /// It is done, one way or the other.
    Done(Result<Request, DecodeError>),
}

/// What [`Progress`] holds, in contracts.
pub enum ProgressView {
    More(ReaderView),
    Done(Result<RequestView, DecodeErrorView>),
}

impl View for Progress {
    type V = ProgressView;

    open spec fn view(&self) -> ProgressView {
        match self {
            Progress::More(reader) => ProgressView::More(reader@),
            Progress::Done(r) => ProgressView::Done(outcome_view(*r)),
        }
    }
}

/// The reader before the first token.
pub open spec fn fresh() -> ReaderView {
    ReaderView { expect: Expect::Message, op: None, id: None, var: None, args: None }
}

/// The place that `key` points to.
pub open spec fn slot_of(key: Seq<u8>) -> Slot {
    if key == utf8(field_name(Field::Op)) {
        Slot::Known(Field::Op)
    } else if key == utf8(field_name(Field::Id)) {
        Slot::Known(Field::Id)
    } else if key == utf8(field_name(Field::Var)) {
        Slot::Known(Field::Var)
    } else if key == utf8(field_name(Field::Args)) {
        Slot::Known(Field::Args)
    } else {
        Slot::Other
    }
}

/// The reader with `text` stored under `field`, or the refusal of an `op`
/// that names no operation.
pub open spec fn store(reader: ReaderView, field: Field, text: Seq<char>) -> ProgressView {
    let next = ReaderView { expect: Expect::Key, ..reader };
    match field {
        Field::Op => match op_named(text) {
            Some(op) => ProgressView::More(ReaderView { op: Some(op), ..next }),
            None => ProgressView::Done(Err(DecodeErrorView::InvalidOp(text))),
        },
        Field::Id => ProgressView::More(ReaderView { id: Some(text), ..next }),
        Field::Var => ProgressView::More(ReaderView { var: Some(text), ..next }),
        Field::Args => ProgressView::More(ReaderView { args: Some(text), ..next }),
    }
}

/// The request that a reader holds when its dictionary ends.
pub open spec fn finish(reader: ReaderView) -> Result<RequestView, DecodeErrorView> {
    match reader.op {
        Some(op) => Ok(RequestView { op, id: reader.id, var: reader.var, args: reader.args }),
        None => Err(DecodeErrorView::MissingOp),
    }
}

/// One step of the reader: where it stands after `token`.
pub open spec fn step(reader: ReaderView, token: TokenView) -> ProgressView {
    let fail = |e: DecodeErrorView| ProgressView::Done(Err(e));
    let wait = |expect: Expect| ProgressView::More(ReaderView { expect, ..reader });
    match token {
        TokenView::Malformed(complaint) => fail(DecodeErrorView::Malformed(complaint)),
        _ => match reader.expect {
            Expect::Message => match token {
                TokenView::Dict => wait(Expect::Key),
                _ => fail(DecodeErrorView::NotADictionary),
            },
            Expect::Key => match token {
                TokenView::End => ProgressView::Done(finish(reader)),
                TokenView::Bytes(key) => wait(Expect::Value(slot_of(key))),
                _ => fail(DecodeErrorView::Incomplete),
            },
            Expect::Value(Slot::Known(field)) => match token {
                TokenView::Bytes(bytes) => if valid_utf8(bytes) {
                    store(reader, field, decode_utf8(bytes))
                } else {
                    fail(DecodeErrorView::InvalidUtf8(field))
                },
                TokenView::End => fail(DecodeErrorView::Incomplete),
                _ => fail(DecodeErrorView::WrongType(field)),
            },
            Expect::Value(Slot::Other) => match token {
                TokenView::List | TokenView::Dict => wait(Expect::Nested(1)),
                TokenView::End => fail(DecodeErrorView::Incomplete),
                _ => wait(Expect::Key),
            },
            Expect::Nested(depth) => match token {
                TokenView::List | TokenView::Dict => if depth >= NESTING_LIMIT {
                    fail(DecodeErrorView::TooDeep)
                } else {
                    wait(Expect::Nested((depth + 1) as usize))
                },
                TokenView::End => if depth <= 1 {
                    wait(Expect::Key)
                } else {
                    wait(Expect::Nested((depth - 1) as usize))
                },
                _ => wait(Expect::Nested(depth)),
            },
        },
    }
}

/// What the tokens from `at` on make of a reader. The request dictionary
/// has to be all there is: a token after its end, broken or not, spoils it.
pub open spec fn read_from(tokens: Seq<TokenView>, at: int, reader: ReaderView) -> Result<
    RequestView,
    DecodeErrorView,
>
    decreases tokens.len() - at,
{
    if at < 0 || at >= tokens.len() {
        Err(DecodeErrorView::Incomplete)
    } else {
        match step(reader, tokens[at]) {
            ProgressView::More(next) => read_from(tokens, at + 1, next),
            ProgressView::Done(Ok(request)) => if at + 1 == tokens.len() {
                Ok(request)
            } else {
                Err(DecodeErrorView::TrailingData)
            },
            ProgressView::Done(Err(e)) => Err(e),
        }
    }
}

/// The request that a token stream holds.
pub open spec fn request_of(tokens: Seq<TokenView>) -> Result<RequestView, DecodeErrorView> {
    read_from(tokens, 0, fresh())
}

/// The request that `buffer` holds: the one that its tokens hold.
pub open spec fn parsed(buffer: Seq<u8>) -> Result<RequestView, DecodeErrorView> {
    request_of(token_stream(buffer))
}

/// What a decoding attempt on a buffer that may be unfinished gives:
/// nothing is tried unless the last byte is the terminator.
pub open spec fn decoded(buffer: Seq<u8>) -> Result<RequestView, DecodeErrorView> {
    if buffer.len() > 0 && buffer.last() == TERMINATOR {
        parsed(buffer)
    } else {
        Err(DecodeErrorView::KeepReading)
    }
}

/// The tokens of one field of a request: its key and its text, or nothing
/// where the field is absent.
pub open spec fn field_tokens(field: Field, text: Option<Seq<char>>) -> Seq<TokenView> {
    match text {
        Some(t) => seq![TokenView::Bytes(utf8(field_name(field))), TokenView::Bytes(utf8(t))],
        None => Seq::empty(),
    }
}

/// The tokens of a request as a peer writes it: a dictionary with the
/// fields that are there, keys in ascending order.
pub open spec fn request_tokens(request: RequestView) -> Seq<TokenView> {
    seq![TokenView::Dict] + field_tokens(Field::Args, request.args) + field_tokens(
        Field::Id,
        request.id,
    ) + field_tokens(Field::Op, Some(op_text(request.op))) + field_tokens(
        Field::Var,
        request.var,
    ) + seq![TokenView::End]
}

/// Each key points to its own field.
pub proof fn keys_point_to_their_fields(field: Field)
    ensures
        slot_of(utf8(field_name(field))) == Slot::Known(field),
{
    reveal_strlit("op");
    reveal_strlit("id");
    reveal_strlit("var");
    reveal_strlit("args");
    assert("op"@.len() == 2 && "id"@.len() == 2 && "var"@.len() == 3 && "args"@.len() == 4);
    assert("op"@[0] == 'o' && "id"@[0] == 'i');
    if field != Field::Op && utf8(field_name(field)) == utf8(field_name(Field::Op)) {
        utf8_is_injective(field_name(field), field_name(Field::Op));
    }
    if field != Field::Id && utf8(field_name(field)) == utf8(field_name(Field::Id)) {
        utf8_is_injective(field_name(field), field_name(Field::Id));
    }
    if field != Field::Var && utf8(field_name(field)) == utf8(field_name(Field::Var)) {
        utf8_is_injective(field_name(field), field_name(Field::Var));
    }
}

/// The reader with an optional text stored under a field other than `op`.
pub open spec fn with_field(reader: ReaderView, field: Field, text: Option<Seq<char>>) -> ReaderView {
    match text {
        None => reader,
        Some(t) => match field {
            Field::Op => reader,
            Field::Id => ReaderView { id: Some(t), ..reader },
            Field::Var => ReaderView { var: Some(t), ..reader },
            Field::Args => ReaderView { args: Some(t), ..reader },
        },
    }
}

/// A field that is there is read into the reader; one that is not leaves
/// the reader as it was.
proof fn reads_field(
    tokens: Seq<TokenView>,
    at: int,
    reader: ReaderView,
    field: Field,
    text: Option<Seq<char>>,
)
    requires
        0 <= at,
        at + field_tokens(field, text).len() <= tokens.len(),
        tokens.subrange(at, at + field_tokens(field, text).len()) == field_tokens(field, text),
        reader.expect == Expect::Key,
        field != Field::Op,
    ensures
        read_from(tokens, at, reader) == read_from(
            tokens,
            at + field_tokens(field, text).len(),
            with_field(reader, field, text),
        ),
{
    match text {
        None => {},
        Some(t) => {
            let part = tokens.subrange(at, at + 2);
            assert(tokens[at] == part[0]);
            assert(tokens[at + 1] == part[1]);
            keys_point_to_their_fields(field);
            encode_utf8_valid_utf8(t);
            encode_utf8_decode_utf8(t);
            let keyed = ReaderView { expect: Expect::Value(Slot::Known(field)), ..reader };
            assert(step(reader, tokens[at]) == ProgressView::More(keyed));
            assert(step(keyed, tokens[at + 1]) == ProgressView::More(
                with_field(reader, field, text),
            ));
            assert(read_from(tokens, at, reader) == read_from(tokens, at + 1, keyed));
        },
    }
}

/// A request as a peer writes it is read back as it was, and refused where
/// anything follows it in the stream.
pub proof fn written_request_is_read_back(request: RequestView, rest: Seq<TokenView>)
    ensures
        request_of(request_tokens(request) + rest) == (if rest.len() == 0 {
            Ok::<RequestView, DecodeErrorView>(request)
        } else {
            Err::<RequestView, DecodeErrorView>(DecodeErrorView::TrailingData)
        }),
{
    let args = field_tokens(Field::Args, request.args);
    let id = field_tokens(Field::Id, request.id);
    let op = field_tokens(Field::Op, Some(op_text(request.op)));
    let var = field_tokens(Field::Var, request.var);
    let tokens = request_tokens(request) + rest;
    let at_args: int = 1;
    let at_id = at_args + args.len();
    let at_op = at_id + id.len();
    let at_var = at_op + 2;
    let at_end = at_var + var.len();

    let opened = ReaderView { expect: Expect::Key, ..fresh() };
    assert(tokens[0] == TokenView::Dict);
    assert(read_from(tokens, 0, fresh()) == read_from(tokens, 1, opened));

    assert(tokens.subrange(at_args, at_args + args.len()) =~= args);
    reads_field(tokens, at_args, opened, Field::Args, request.args);
    let with_args = with_field(opened, Field::Args, request.args);

    assert(tokens.subrange(at_id, at_id + id.len()) =~= id);
    reads_field(tokens, at_id, with_args, Field::Id, request.id);
    let with_id = with_field(with_args, Field::Id, request.id);

    assert(tokens[at_op] == op[0]);
    assert(tokens[at_op + 1] == op[1]);
    keys_point_to_their_fields(Field::Op);
    op_text_names_op(request.op);
    encode_utf8_valid_utf8(op_text(request.op));
    encode_utf8_decode_utf8(op_text(request.op));
    let keyed = ReaderView { expect: Expect::Value(Slot::Known(Field::Op)), ..with_id };
    let with_op = ReaderView { op: Some(request.op), ..with_id };
    assert(step(with_id, tokens[at_op]) == ProgressView::More(keyed));
    assert(step(keyed, tokens[at_op + 1]) == ProgressView::More(with_op));
    assert(read_from(tokens, at_op, with_id) == read_from(tokens, at_op + 1, keyed));
    assert(read_from(tokens, at_op + 1, keyed) == read_from(tokens, at_var, with_op));

    assert(tokens.subrange(at_var, at_var + var.len()) =~= var);
    reads_field(tokens, at_var, with_op, Field::Var, request.var);
    let with_var = with_field(with_op, Field::Var, request.var);

    assert(tokens[at_end] == TokenView::End);
    assert(finish(with_var) == Ok::<RequestView, DecodeErrorView>(request));
    assert(step(with_var, tokens[at_end]) == ProgressView::Done(finish(with_var)));
    assert(tokens.len() == at_end + 1 + rest.len());
}

/// A reader that ends well on a stream has run out of tokens on every
/// shorter one.
proof fn reader_needs_all_tokens(tokens: Seq<TokenView>, at: int, reader: ReaderView, k: int)
    requires
        0 <= at <= k < tokens.len(),
        read_from(tokens, at, reader) is Ok,
    ensures
        read_from(tokens.take(k), at, reader) == Err::<RequestView, DecodeErrorView>(
            DecodeErrorView::Incomplete,
        ),
    decreases k - at,
{
    if at < k {
        assert(tokens.take(k)[at] == tokens[at]);
        match step(reader, tokens[at]) {
            ProgressView::More(next) => {
                reader_needs_all_tokens(tokens, at + 1, next, k);
            },
            ProgressView::Done(_) => {},
        }
    }
}

/// No request is read before its last token: where a stream holds a
/// request, no shorter stream that begins like it holds one.
pub proof fn no_request_before_its_last_token(tokens: Seq<TokenView>, k: int)
    requires
        request_of(tokens) is Ok,
        0 <= k < tokens.len(),
    ensures
        request_of(tokens.take(k)) == Err::<RequestView, DecodeErrorView>(
            DecodeErrorView::Incomplete,
        ),
{
    reader_needs_all_tokens(tokens, 0, fresh(), k);
}

/// `String::from_utf8` of std: the text that `bytes` encode, if they are
/// valid UTF-8, and nothing if they are not.
#[verifier::external_body]
fn text_from_utf8(bytes: Vec<u8>) -> (text: Option<String>)
    ensures
        match text {
            Some(t) => valid_utf8(bytes@) && t@ == decode_utf8(bytes@),
            None => !valid_utf8(bytes@),
        },
{
    match String::from_utf8(bytes) {
        Ok(text) => Some(text),
        Err(_) => None,
    }
}

/// The place that `key` points to.
fn slot_for(key: &[u8]) -> (slot: Slot)
    ensures
        slot == slot_of(key@),
{
    if bytes_eq(key, Field::Op.name().as_bytes()) {
        Slot::Known(Field::Op)
    } else if bytes_eq(key, Field::Id.name().as_bytes()) {
        Slot::Known(Field::Id)
    } else if bytes_eq(key, Field::Var.name().as_bytes()) {
        Slot::Known(Field::Var)
    } else if bytes_eq(key, Field::Args.name().as_bytes()) {
        Slot::Known(Field::Args)
    } else {
        Slot::Other
    }
}

impl Reader {
    /// A reader before the first token.
    pub fn new() -> (reader: Reader)
        ensures
            reader@ == fresh(),
    {
        Reader { expect: Expect::Message, op: None, id: None, var: None, args: None }
    }

    /// This reader, waiting for something else.
    fn wait(self, expect: Expect) -> (p: Progress)
        ensures
            p@ == ProgressView::More(ReaderView { expect, ..self@ }),
    {
        Progress::More(Reader { expect, op: self.op, id: self.id, var: self.var, args: self.args })
    }

    /// This reader with `text` under `field`.
    fn store(self, field: Field, text: String) -> (p: Progress)
        ensures
            p@ == store(self@, field, text@),
    {
        match field {
            Field::Op => match Op::from_str(text.as_str()) {
                Ok(op) => Progress::More(
                    Reader {
                        expect: Expect::Key,
                        op: Some(op),
                        id: self.id,
                        var: self.var,
                        args: self.args,
                    },
                ),
                Err(_) => Progress::Done(Err(DecodeError::InvalidOp(text))),
            },
            Field::Id => Progress::More(
                Reader {
                    expect: Expect::Key,
                    op: self.op,
                    id: Some(text),
                    var: self.var,
                    args: self.args,
                },
            ),
            Field::Var => Progress::More(
                Reader {
                    expect: Expect::Key,
                    op: self.op,
                    id: self.id,
                    var: Some(text),
                    args: self.args,
                },
            ),
            Field::Args => Progress::More(
                Reader {
                    expect: Expect::Key,
                    op: self.op,
                    id: self.id,
                    var: self.var,
                    args: Some(text),
                },
            ),
        }
    }

    /// The request that this reader holds when its dictionary ends.
    fn finish(self) -> (r: Result<Request, DecodeError>)
        ensures
            outcome_view(r) == finish(self@),
    {
        match self.op {
            Some(op) => Ok(Request { op, id: self.id, var: self.var, args: self.args }),
            None => Err(DecodeError::MissingOp),
        }
    }

    /// Takes one token.
    pub fn advance(self, token: WireToken) -> (p: Progress)
        ensures
            p@ == step(self@, token@),
    {
        match token {
            WireToken::Malformed(complaint) => Progress::Done(
                Err(DecodeError::Malformed(complaint)),
            ),
            WireToken::Dict => match self.expect {
                Expect::Message => self.wait(Expect::Key),
                Expect::Key => Progress::Done(Err(DecodeError::Incomplete)),
                Expect::Value(Slot::Known(field)) => Progress::Done(
                    Err(DecodeError::WrongType(field)),
                ),
                Expect::Value(Slot::Other) => self.wait(Expect::Nested(1)),
                Expect::Nested(depth) => self.descend(depth),
            },
            WireToken::List => match self.expect {
                Expect::Message => Progress::Done(Err(DecodeError::NotADictionary)),
                Expect::Key => Progress::Done(Err(DecodeError::Incomplete)),
                Expect::Value(Slot::Known(field)) => Progress::Done(
                    Err(DecodeError::WrongType(field)),
                ),
                Expect::Value(Slot::Other) => self.wait(Expect::Nested(1)),
                Expect::Nested(depth) => self.descend(depth),
            },
            WireToken::Num(_) => match self.expect {
                Expect::Message => Progress::Done(Err(DecodeError::NotADictionary)),
                Expect::Key => Progress::Done(Err(DecodeError::Incomplete)),
                Expect::Value(Slot::Known(field)) => Progress::Done(
                    Err(DecodeError::WrongType(field)),
                ),
                Expect::Value(Slot::Other) => self.wait(Expect::Key),
                Expect::Nested(depth) => self.wait(Expect::Nested(depth)),
            },
            WireToken::End => match self.expect {
                Expect::Message => Progress::Done(Err(DecodeError::NotADictionary)),
                Expect::Key => Progress::Done(self.finish()),
                Expect::Value(_) => Progress::Done(Err(DecodeError::Incomplete)),
                Expect::Nested(depth) => if depth <= 1 {
                    self.wait(Expect::Key)
                } else {
                    self.wait(Expect::Nested(depth - 1))
                },
            },
            WireToken::Bytes(bytes) => match self.expect {
                Expect::Message => Progress::Done(Err(DecodeError::NotADictionary)),
                Expect::Key => {
                    let slot = slot_for(bytes.as_slice());
                    self.wait(Expect::Value(slot))
                },
                Expect::Value(Slot::Known(field)) => match text_from_utf8(bytes) {
                    Some(text) => self.store(field, text),
                    None => Progress::Done(Err(DecodeError::InvalidUtf8(field))),
                },
                Expect::Value(Slot::Other) => self.wait(Expect::Key),
                Expect::Nested(depth) => self.wait(Expect::Nested(depth)),
            },
        }
    }

    /// One level further into a passed-over value, if the limit allows.
    fn descend(self, depth: usize) -> (p: Progress)
        ensures
            p@ == (if depth >= NESTING_LIMIT {
                ProgressView::Done(Err(DecodeErrorView::TooDeep))
            } else {
                ProgressView::More(
                    ReaderView { expect: Expect::Nested((depth + 1) as usize), ..self@ },
                )
            }),
    {
        if depth >= NESTING_LIMIT {
            Progress::Done(Err(DecodeError::TooDeep))
        } else {
            self.wait(Expect::Nested(depth + 1))
        }
    }
}

impl Request {
    /// Decodes `buffer` as one request: the whole of it has to be one
    /// request dictionary.
    pub fn from_bencode(buffer: &[u8]) -> (r: Result<Request, DecodeError>)
        ensures
            outcome_view(r) == parsed(buffer@),
    {
        let mut tokens = open_tokens(buffer);
        let mut reader = Reader::new();
        let ghost stream = token_stream(buffer@);
        let ghost mut at: int = 0;
        loop
            invariant
                0 <= at <= stream.len(),
                stream == token_stream(buffer@),
                pending(tokens) == stream.skip(at),
                read_from(stream, at, reader@) == request_of(stream),
            decreases stream.len() - at,
        {
            match next_token(&mut tokens) {
                None => {
                    return Err(DecodeError::Incomplete);
                },
                Some(token) => {
                    assert(token@ == stream[at]);
                    match reader.advance(token) {
                        Progress::More(next) => {
                            reader = next;
                            proof {
                                assert(stream.skip(at).skip(1) =~= stream.skip(at + 1));
                                at = at + 1;
                            }
                        },
                        Progress::Done(Ok(request)) => {
                            proof {
                                assert(stream.skip(at).skip(1) =~= stream.skip(at + 1));
                            }
                            return match next_token(&mut tokens) {
                                None => Ok(request),
                                Some(_) => Err(DecodeError::TrailingData),
                            };
                        },
                        Progress::Done(Err(e)) => {
                            return Err(e);
                        },
                    }
                },
            }
        }
    }
}

/// Attempts to decode a buffer that may be unfinished as one request.
///
/// Nothing is tried unless the buffer ends with the terminator byte; then
/// the buffer is decoded as [`Request::from_bencode`] decodes it.
pub fn decode_request(buffer: &[u8]) -> (r: Result<Request, DecodeError>)
    ensures
        outcome_view(r) == decoded(buffer@),
{
    if buffer.len() == 0 || buffer[buffer.len() - 1] != TERMINATOR {
        return Err(DecodeError::KeepReading);
    }
    Request::from_bencode(buffer)
}

} // verus!
