//! The message builder of the chat platform's client library, as the rest of
//! this library sees it: a buffer of text that only grows.
//!
//! Nothing in this file is proved. Each function makes one call into
//! `serenity::utils::MessageBuilder`, and its contract says what that call
//! does to the buffer.

use serenity::model::id::UserId;
use serenity::utils::MessageBuilder;
use vstd::prelude::*;

use crate::text::decimal;

verus! {

#[verifier::external_type_specification]
#[verifier::external_body]
pub struct ExMessageBuilder(MessageBuilder);

/// The text that a builder holds.
pub uninterp spec fn built_text(builder: MessageBuilder) -> Seq<char>;

/// How a user is mentioned in a message: `<@`, the user's id in base ten, `>`.
pub open spec fn user_mention(user: u64) -> Seq<char> {
    seq!['<', '@'] + decimal(user as nat) + seq!['>']
}

/// `MessageBuilder::new`: a builder that holds no text.
#[verifier::external_body]
pub(crate) fn new_builder() -> (builder: MessageBuilder)
    ensures
        built_text(builder) == Seq::<char>::empty(),
{
    MessageBuilder::new()
}

/// `MessageBuilder::mention`, given a `UserId`: appends the mention of that
/// user, which the client library formats as `<@{id}>`.
#[verifier::external_body]
pub(crate) fn mention(builder: &mut MessageBuilder, user: u64)
    ensures
        built_text(*final(builder)) == built_text(*old(builder)) + user_mention(user),
{
    builder.mention(&UserId(user));
}

/// `MessageBuilder::push`, given a string: appends it as it is.
#[verifier::external_body]
pub(crate) fn push(builder: &mut MessageBuilder, content: &str)
    ensures
        built_text(*final(builder)) == built_text(*old(builder)) + content@,
{
    builder.push(content);
}

/// `MessageBuilder::push_line`, given a string: appends it and a line feed.
#[verifier::external_body]
pub(crate) fn push_line(builder: &mut MessageBuilder, content: &str)
    ensures
        built_text(*final(builder)) == built_text(*old(builder)) + content@ + seq!['\n'],
{
    builder.push_line(content);
}

/// `MessageBuilder::push_quote_line`, given a string: appends `> `, the
/// string as it is, and a line feed. Line feeds inside the string get no
/// quote mark of their own.
#[verifier::external_body]
pub(crate) fn push_quote_line(builder: &mut MessageBuilder, content: &str)
    ensures
        built_text(*final(builder)) == built_text(*old(builder)) + seq!['>', ' '] + content@
            + seq!['\n'],
{
    builder.push_quote_line(content);
}

/// `MessageBuilder::build`: a copy of the text; the builder keeps its own.
#[verifier::external_body]
pub(crate) fn build(builder: &mut MessageBuilder) -> (text: String)
    ensures
        text@ == built_text(*old(builder)),
        built_text(*final(builder)) == built_text(*old(builder)),
{
    builder.build()
}

} // verus!
