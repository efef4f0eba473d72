//! The error type that the network layer hands to its callers.

use vstd::prelude::*;
use crate::chain::{
    cause_wording, chain_from_message, joined, lemma_rendering_holds_each,
    lemma_rendering_holds_wording, lemma_rendering_starts_with_first, occurs_in, opaque_causes,
    push_context, render_chain, renders, separator, text_layers,
};
use crate::kind::NetworkErrorKind;
use crate::native::NativeError;

verus! {

/// What a [`NetworkError`] stands for.
pub ghost struct NetworkErrorView {
    /// The category of the failure.
    pub kind: NetworkErrorKind,
    /// The text links of the causal chain, outermost first: the context
    /// that callers attached, the category's description, and the text of
    /// the cause where the cause is text.
    pub messages: Seq<Seq<char>>,
    /// The number of links behind the text links: errors of other
    /// libraries, kept as they came.
    pub opaque_causes: nat,
    /// What the links behind the text links are written out as, where they
    /// settle that themselves.
    pub cause_wording: Option<Seq<char>>,
}

/// Errors propagated from the network module.
#[derive(Debug)]
pub struct NetworkError {
    kind: NetworkErrorKind,
    inner: anyhow::Error,
}

impl View for NetworkError {
    type V = NetworkErrorView;

    closed spec fn view(&self) -> NetworkErrorView {
        NetworkErrorView {
            kind: self.kind,
            messages: text_layers(self.inner),
            opaque_causes: opaque_causes(self.inner),
            cause_wording: cause_wording(self.inner),
        }
    }
}

impl NetworkError {
    /// The chain always names the category it was filed under.
    #[verifier::type_invariant]
    closed spec fn names_its_kind(self) -> bool {
        text_layers(self.inner).contains(self.kind.description())
    }

    /// Files `cause` under `kind`: the category's description becomes the
    /// outermost link of the chain, with the cause behind it.
    pub fn new(kind: NetworkErrorKind, cause: anyhow::Error) -> (error: NetworkError)
        ensures
            error@.kind == kind,
            error@.messages == seq![kind.description()] + text_layers(cause),
            error@.opaque_causes == opaque_causes(cause),
            error@.cause_wording == cause_wording(cause),
    {
        let inner = push_context(cause, kind.to_string());
        assert(text_layers(inner)[0] == kind.description());
        NetworkError { kind, inner }
    }

    /// An error of the given category with nothing behind it.
    pub fn from_kind(kind: NetworkErrorKind) -> (error: NetworkError)
        ensures
            error@.kind == kind,
            error@.messages == seq![kind.description()],
            error@.opaque_causes == 0,
            error@.cause_wording is None,
    {
        let inner = chain_from_message(kind.to_string());
        assert(text_layers(inner)[0] == kind.description());
        NetworkError { kind, inner }
    }

    /// The category of the failure. Its description is one of the text
    /// links of the chain, whatever context has been attached since.
    pub fn kind(&self) -> (kind: NetworkErrorKind)
        ensures
            kind == self@.kind,
            self@.messages.contains(kind.description()),
    {
        proof {
            use_type_invariant(self);
        }
        self.kind
    }

    /// Says what was being done when the failure came up. The context
    /// becomes the outermost link; the category and the rest of the chain
    /// stay as they were.
    pub fn with_context(self, context: String) -> (error: NetworkError)
        ensures
            error@.kind == self@.kind,
            error@.messages == seq![context@] + self@.messages,
            error@.opaque_causes == self@.opaque_causes,
            error@.cause_wording == self@.cause_wording,
    {
        proof {
            use_type_invariant(&self);
        }
        let ghost before = text_layers(self.inner);
        let kind = self.kind;
        let inner = push_context(self.inner, context);
        proof {
            let at = choose|i: int| 0 <= i < before.len() && before[i] == kind.description();
            assert(text_layers(inner)[at + 1] == kind.description());
        }
        NetworkError { kind, inner }
    }

    /// The error written out: the context, the category's description and
    /// the causes behind it, outermost first.
    pub fn to_string(&self) -> (text: String)
        ensures
            renders(self@.messages, self@.opaque_causes, self@.cause_wording, text@),
            occurs_in(self@.kind.description(), text@),
    {
        let text = render_chain(&self.inner);
        proof {
            use_type_invariant(self);
            let links = text_layers(self.inner);
            let at = choose|i: int| 0 <= i < links.len() && links[i] == self.kind.description();
            lemma_rendering_holds_each(
                links,
                opaque_causes(self.inner),
                cause_wording(self.inner),
                text@,
                at,
            );
        }
        text
    }

    /// Wraps a failure of a collaborating subsystem: files it under the
    /// category that its kind calls for and keeps it as the cause.
    pub fn classify(native: NativeError) -> (error: NetworkError)
        ensures
            error@.kind == native.kind(),
            error@.messages == seq![native.kind().description()] + native.texts(),
            native.admits_causes(error@.opaque_causes),
            error@.cause_wording == native.wording(),
    {
        match native {
            NativeError::Io(failure) => NetworkError::from(failure),
            NativeError::Signature(failure) => NetworkError::from(failure),
            NativeError::Encode(failure) => NetworkError::from(failure),
            NativeError::Decode(failure) => NetworkError::from(failure),
            NativeError::Multiaddr(failure) => NetworkError::from(failure),
            NativeError::ChannelSend(failure) => NetworkError::from(failure),
            NativeError::ChannelCanceled(failure) => NetworkError::from(failure),
            NativeError::Elapsed(failure) => NetworkError::from(failure),
            NativeError::PeerManager(failure) => NetworkError::from(failure),
        }
    }
}

/// What can be read in a classified failure once it is written out. The
/// text starts with the category's description; every piece of text that the
/// failure brought stands in it; where the failure brought anything at all,
/// a separator follows the description; and where the failure is an error
/// of another library whose wording is settled, the text ends with that
/// wording.
pub proof fn lemma_classified_rendering(
    native: NativeError,
    error: NetworkErrorView,
    text: Seq<char>,
    at: int,
)
    requires
        error.kind == native.kind(),
        error.messages == seq![native.kind().description()] + native.texts(),
        native.admits_causes(error.opaque_causes),
        error.cause_wording == native.wording(),
        renders(error.messages, error.opaque_causes, error.cause_wording, text),
    ensures
        native.kind().description().is_prefix_of(text),
        0 <= at < native.texts().len() ==> occurs_in(native.texts()[at], text),
        native.texts().len() > 0 || error.opaque_causes > 0 ==> (native.kind().description()
            + separator()).is_prefix_of(text),
        error.opaque_causes > 0 ==> (native.wording() matches Some(words) ==> {
            &&& text == joined(error.messages) + separator() + words
            &&& occurs_in(words, text)
        }),
{
    lemma_rendering_starts_with_first(
        error.messages,
        error.opaque_causes,
        error.cause_wording,
        text,
    );
    if 0 <= at < native.texts().len() {
        assert(error.messages[at + 1] == native.texts()[at]);
        lemma_rendering_holds_each(
            error.messages,
            error.opaque_causes,
            error.cause_wording,
            text,
            at + 1,
        );
    }
    if error.opaque_causes > 0 {
        if let Some(words) = native.wording() {
            lemma_rendering_holds_wording(error.messages, error.opaque_causes, words, text);
        }
    }
}

/// Context that is attached to an error is what a reader sees first: the
/// error is then written as the context, a separator, and what it was
/// written as before. Where the wording of the causes is not settled, the
/// context and the separator still come first.
pub proof fn lemma_context_is_written_first(
    before: NetworkErrorView,
    earlier: Seq<char>,
    context: Seq<char>,
    after: NetworkErrorView,
    text: Seq<char>,
)
    requires
        before.messages.len() > 0,
        renders(before.messages, before.opaque_causes, before.cause_wording, earlier),
        after.messages == seq![context] + before.messages,
        after.opaque_causes == before.opaque_causes,
        after.cause_wording == before.cause_wording,
        renders(after.messages, after.opaque_causes, after.cause_wording, text),
    ensures
        (context + separator()).is_prefix_of(text),
        before.opaque_causes == 0 || before.cause_wording is Some ==> text == context
            + separator() + earlier,
{
    lemma_rendering_starts_with_first(
        after.messages,
        after.opaque_causes,
        after.cause_wording,
        text,
    );
    assert(after.messages.drop_first() =~= before.messages);
    assert(joined(after.messages) == context + separator() + joined(before.messages));
    if before.opaque_causes == 0 {
    } else if let Some(words) = before.cause_wording {
        assert(text =~= context + separator() + earlier);
    }
}

} // verus!
