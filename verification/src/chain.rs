//! The causal chain of an error, kept in an `anyhow::Error`.
//!
//! A chain is a sequence of links, outermost first. The links that this
//! library adds are pieces of text: the category's description and whatever
//! context callers attach. Behind them may stand links that are errors of
//! other libraries, whose wording is theirs. The contracts here speak of the
//! text links exactly, and of the others by their number and by what they
//! are written out as.

use vstd::prelude::*;

verus! {

/// anyhow's error, which holds a chain. Nothing of its inside is known here.
#[verifier::external_type_specification]
#[verifier::external_body]
pub struct ExAnyhowError(anyhow::Error);

/// The text links at the front of the chain, outermost first, each as the
/// text it shows. A text link is one that shows a `String` which was handed
/// to `anyhow::Error::msg` or to `anyhow::Error::context`; the front ends at
/// the first link that is anything else.
pub uninterp spec fn text_layers(chain: anyhow::Error) -> Seq<Seq<char>>;

/// The number of links that stand behind the text links at the front.
pub uninterp spec fn opaque_causes(chain: anyhow::Error) -> nat;

/// What the links behind the text front are written out as, one after the
/// other with the separator between them, where the links themselves settle
/// that. It is `None` where no link stands behind the front, and where one
/// of them takes its words from elsewhere, as an error of the operating
/// system does, which the C library words by the locale of the process.
pub uninterp spec fn cause_wording(chain: anyhow::Error) -> Option<Seq<char>>;

/// What separates two links when a chain is written out.
pub open spec fn separator() -> Seq<char> {
    seq![':', ' ']
}

/// The messages written one after the other, outermost first, with the
/// separator between neighbours.
pub open spec fn joined(messages: Seq<Seq<char>>) -> Seq<char>
    decreases messages.len(),
{
    if messages.len() == 0 {
        Seq::empty()
    } else if messages.len() == 1 {
        messages[0]
    } else {
        messages[0] + separator() + joined(messages.drop_first())
    }
}

/// Whether `text` is what a chain may be written out as, given its text
/// links, the number of links behind them and their wording. Where nothing
/// stands behind the text links, it is the joined text links. Where
/// something does, it is the joined text links, a separator and the wording
/// of the links behind; of a wording that is not settled, only that it
/// follows the separator.
pub open spec fn renders(
    messages: Seq<Seq<char>>,
    causes: nat,
    wording: Option<Seq<char>>,
    text: Seq<char>,
) -> bool {
    if causes == 0 {
        text == joined(messages)
    } else if messages.len() == 0 {
        wording matches Some(words) ==> text == words
    } else {
        match wording {
            Some(words) => text == joined(messages) + separator() + words,
            None => (joined(messages) + separator()).is_prefix_of(text),
        }
    }
}

/// Whether `needle` stands somewhere in `text`, unbroken.
pub open spec fn occurs_in(needle: Seq<char>, text: Seq<char>) -> bool {
    exists|from: int, to: int| 0 <= from <= to <= text.len() && text.subrange(from, to) == needle
}

/// A piece that stands in `text` also stands in `text` with more written
/// before and after it.
pub proof fn lemma_occurs_in_middle(
    needle: Seq<char>,
    before: Seq<char>,
    text: Seq<char>,
    after: Seq<char>,
)
    requires
        occurs_in(needle, text),
    ensures
        occurs_in(needle, before + text + after),
{
    let (from, to) = choose|from: int, to: int|
        0 <= from <= to <= text.len() && text.subrange(from, to) == needle;
    let whole = before + text + after;
    assert(whole.subrange(before.len() + from, before.len() + to) =~= needle);
}

/// Every message stands in the text that the messages are joined to.
pub proof fn lemma_joined_holds_each(messages: Seq<Seq<char>>, at: int)
    requires
        0 <= at < messages.len(),
    ensures
        occurs_in(messages[at], joined(messages)),
    decreases messages.len(),
{
    let first = messages[0];
    if at == 0 {
        assert(joined(messages).subrange(0, first.len() as int) =~= first);
    } else {
        let rest = messages.drop_first();
        lemma_joined_holds_each(rest, at - 1);
        lemma_occurs_in_middle(rest[at - 1], first + separator(), joined(rest), Seq::empty());
        assert(first + separator() + joined(rest) + Seq::<char>::empty() =~= joined(messages));
    }
}

/// The joined text starts with the first message.
pub proof fn lemma_joined_starts_with_first(messages: Seq<Seq<char>>)
    requires
        messages.len() > 0,
    ensures
        messages[0].is_prefix_of(joined(messages)),
        messages.len() > 1 ==> (messages[0] + separator()).is_prefix_of(joined(messages)),
{
    if messages.len() > 1 {
        let head = messages[0] + separator();
        assert(joined(messages) == head + joined(messages.drop_first()));
        assert(joined(messages).subrange(0, head.len() as int) =~= head);
        assert(joined(messages).subrange(0, messages[0].len() as int) =~= messages[0]);
    }
}

/// A chain with text links in front and links behind them is written out
/// as the joined text links, a separator, and something after it.
pub proof fn lemma_rendering_starts_with_texts(
    messages: Seq<Seq<char>>,
    causes: nat,
    wording: Option<Seq<char>>,
    text: Seq<char>,
)
    requires
        messages.len() > 0,
        causes > 0,
        renders(messages, causes, wording, text),
    ensures
        (joined(messages) + separator()).is_prefix_of(text),
{
    if let Some(words) = wording {
        let head = joined(messages) + separator();
        assert(text.subrange(0, head.len() as int) =~= head);
    }
}

/// However a chain is written out, the outermost text link comes first, and
/// a separator follows it unless it is all there is.
pub proof fn lemma_rendering_starts_with_first(
    messages: Seq<Seq<char>>,
    causes: nat,
    wording: Option<Seq<char>>,
    text: Seq<char>,
)
    requires
        messages.len() > 0,
        renders(messages, causes, wording, text),
    ensures
        messages[0].is_prefix_of(text),
        messages.len() > 1 || causes > 0 ==> (messages[0] + separator()).is_prefix_of(text),
{
    lemma_joined_starts_with_first(messages);
    if causes > 0 {
        lemma_rendering_starts_with_texts(messages, causes, wording, text);
        let whole = joined(messages) + separator();
        assert(text.subrange(0, whole.len() as int) == whole);
        assert(whole.subrange(0, messages[0].len() as int) =~= messages[0]);
        assert(text.subrange(0, messages[0].len() as int) =~= messages[0]);
        if messages.len() > 1 {
            let head = messages[0] + separator();
            assert(whole.subrange(0, head.len() as int) =~= head);
            assert(text.subrange(0, head.len() as int) =~= head);
        } else {
            assert(whole =~= messages[0] + separator());
        }
    }
}

/// However a chain is written out, each of its text links can be read in
/// the result.
pub proof fn lemma_rendering_holds_each(
    messages: Seq<Seq<char>>,
    causes: nat,
    wording: Option<Seq<char>>,
    text: Seq<char>,
    at: int,
)
    requires
        0 <= at < messages.len(),
        renders(messages, causes, wording, text),
    ensures
        occurs_in(messages[at], text),
{
    lemma_joined_holds_each(messages, at);
    if causes > 0 {
        lemma_rendering_starts_with_texts(messages, causes, wording, text);
        let head = joined(messages) + separator();
        let tail = text.subrange(head.len() as int, text.len() as int);
        assert(text =~= head + tail);
        lemma_occurs_in_middle(messages[at], Seq::empty(), joined(messages), separator() + tail);
        assert(Seq::<char>::empty() + joined(messages) + (separator() + tail) =~= text);
    }
}

/// Where links stand behind the text links and their wording is settled,
/// the chain is written out with that wording at its end.
pub proof fn lemma_rendering_holds_wording(
    messages: Seq<Seq<char>>,
    causes: nat,
    words: Seq<char>,
    text: Seq<char>,
)
    requires
        causes > 0,
        renders(messages, causes, Some(words), text),
    ensures
        occurs_in(words, text),
        text.len() >= words.len(),
        text.subrange(text.len() - words.len(), text.len() as int) == words,
{
    if messages.len() > 0 {
        let head = joined(messages) + separator();
        assert(text.subrange(head.len() as int, text.len() as int) =~= words);
    } else {
        assert(text.subrange(0, text.len() as int) =~= words);
    }
}

/// Calls `anyhow::Error::msg` with a `String`. The chain it makes has one
/// link, which holds that string, and none behind it.
#[verifier::external_body]
pub(crate) fn chain_from_message(message: String) -> (chain: anyhow::Error)
    ensures
        text_layers(chain) == seq![message@],
        opaque_causes(chain) == 0,
        cause_wording(chain) is None,
{
    anyhow::Error::msg(message)
}

/// Calls `anyhow::Error::context` with a `String`. The new chain is the old
/// one with one text link put in front; what stands behind the text is
/// untouched.
#[verifier::external_body]
pub(crate) fn push_context(chain: anyhow::Error, context: String) -> (extended: anyhow::Error)
    ensures
        text_layers(extended) == seq![context@] + text_layers(chain),
        opaque_causes(extended) == opaque_causes(chain),
        cause_wording(extended) == cause_wording(chain),
{
    chain.context(context)
}

/// Formats the chain with anyhow's alternate `Display`, which writes every
/// link's message, outermost first, with `": "` between neighbours.
#[verifier::external_body]
pub(crate) fn render_chain(chain: &anyhow::Error) -> (text: String)
    ensures
        renders(text_layers(*chain), opaque_causes(*chain), cause_wording(*chain), text@),
{
    format!("{:#}", chain)
}

} // verus!
