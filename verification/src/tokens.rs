//! Bencode tokens, read with `bendy`.
//!
//! `bendy` splits a buffer into tokens and checks, while doing so, that the
//! tokens form valid bencode (sorted dictionary keys, bounded nesting, no
//! unfinished value). The functions here hand those tokens to verified code,
//! one at a time.

use bendy::decoding::Decoder;
use bendy::decoding::Tokens;
use bendy::state_tracker::Token;
use vstd::prelude::*;

verus! {

/// One item of a token stream.
#[derive(Debug, PartialEq, Eq)]
pub enum WireToken {
    /// `l`: a list begins.
    List,
    /// `d`: a dictionary begins.
    Dict,
    /// A byte string.
    Bytes(Vec<u8>),
    /// An integer, as its digits.
    Num(String),
    /// `e`: the innermost open list or dictionary ends.
    End,
    /// The stream is broken here; the text says why. Nothing follows it.
    Malformed(String),
}

/// What a [`WireToken`] stands for in contracts.
pub enum TokenView {
    List,
    Dict,
    Bytes(Seq<u8>),
    Num(Seq<char>),
    End,
    Malformed(Seq<char>),
}

impl View for WireToken {
    type V = TokenView;

    open spec fn view(&self) -> TokenView {
        match self {
            WireToken::List => TokenView::List,
            WireToken::Dict => TokenView::Dict,
            WireToken::Bytes(b) => TokenView::Bytes(b@),
            WireToken::Num(n) => TokenView::Num(n@),
            WireToken::End => TokenView::End,
            WireToken::Malformed(m) => TokenView::Malformed(m@),
        }
    }
}

/// `bendy`'s iterator over the tokens of a buffer. Nothing of its inside
/// is known here.
#[verifier::external_type_specification]
#[verifier::external_body]
pub struct ExTokens<'a>(Tokens<'a>);

/// `bendy`'s token, which the iterator yields. It does not leave this
/// file: `next_token` hands out a [`WireToken`] in its place.
#[verifier::external_type_specification]
#[verifier::external_body]
pub struct ExToken<'a>(Token<'a>);

/// `bendy`'s decoding error, which the iterator yields in place of a
/// token it cannot read. It does not leave this file either: `next_token`
/// hands out its message.
#[verifier::external_type_specification]
#[verifier::external_body]
pub struct ExDecodingError(bendy::decoding::Error);

/// The items that `bendy`'s token iterator yields for `buffer`, in order,
/// an error being the last item and rendered as its message.
pub uninterp spec fn token_stream(buffer: Seq<u8>) -> Seq<TokenView>;

/// The items that a token iterator has yet to yield.
pub uninterp spec fn pending(tokens: Tokens) -> Seq<TokenView>;

/// `Decoder::new(buffer).tokens()`: an iterator over the tokens of `buffer`.
/// Nothing is read yet; the iterator will yield `token_stream(buffer)`.
#[verifier::external_body]
pub(crate) fn open_tokens<'a>(buffer: &'a [u8]) -> (tokens: Tokens<'a>)
    ensures
        pending(tokens) == token_stream(buffer@),
{
    Decoder::new(buffer).tokens()
}

/// `Tokens::next`: the next item, if any. The iterator yields its items in
/// order and an error only once, as its last item.
#[verifier::external_body]
pub(crate) fn next_token<'a>(tokens: &mut Tokens<'a>) -> (item: Option<WireToken>)
    ensures
        match item {
            Some(t) => pending(*old(tokens)).len() > 0 && t@ == pending(*old(tokens))[0]
                && pending(*final(tokens)) == pending(*old(tokens)).skip(1),
            None => pending(*old(tokens)).len() == 0 && pending(*final(tokens)).len() == 0,
        },
{
    tokens.next().map(|item| match item {
        Ok(Token::List) => WireToken::List,
        Ok(Token::Dict) => WireToken::Dict,
        Ok(Token::String(bytes)) => WireToken::Bytes(bytes.to_vec()),
        Ok(Token::Num(digits)) => WireToken::Num(digits.to_string()),
        Ok(Token::End) => WireToken::End,
        Err(error) => WireToken::Malformed(error.to_string()),
    })
}

} // verus!
