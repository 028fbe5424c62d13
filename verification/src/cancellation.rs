//! The cancellation tokens of a transport session, and which of them a cancellation reaches.
use vstd::prelude::*;

verus! {

/// The part of a Solana-to-Axelar transport session that a token stops.
#[derive(Clone, Copy, Debug, PartialEq, Eq, Structural)]
pub enum Scope {
    /// The whole session.
    Transport,
    /// The Solana sentinel and whatever it has started.
    Sentinel,
    /// The Axelar verifier.
    Verifier,
    /// The transaction scanner, which the sentinel starts.
    Scanner,
}

/// A cancellation token together with the scope that it stops and the tokens that it derives from.
pub struct ScopedToken {
    scope: Scope,
    ancestors: Ghost<Seq<(Scope, tokio_util::sync::CancellationToken)>>,
    inner: tokio_util::sync::CancellationToken,
}

impl ScopedToken {
    /// The scope that the token stops.
    pub closed spec fn scope(self) -> Scope {
        self.scope
    }

    /// The tokens that this one derives from, each with its scope, from the root down.
    pub closed spec fn ancestors(self) -> Seq<(Scope, tokio_util::sync::CancellationToken)> {
        self.ancestors@
    }

    /// The token itself, to be awaited or cancelled.
    pub closed spec fn handle(self) -> tokio_util::sync::CancellationToken {
        self.inner
    }

    /// Whether cancelling this token cancels `other`: a cancellation reaches the token itself and
    /// all that derive from it.
    pub open spec fn reaches(self, other: ScopedToken) -> bool {
        ||| self.scope() == other.scope() && self.handle() == other.handle()
        ||| other.ancestors().contains((self.scope(), self.handle()))
    }

    /// Whether this token derives from no other.
    pub open spec fn is_root(self) -> bool {
        self.ancestors().len() == 0
    }

    /// Whether this token derives directly from `parent`.
    pub open spec fn is_child_of(self, parent: ScopedToken) -> bool {
        self.ancestors() == parent.ancestors().push((parent.scope(), parent.handle()))
    }

    /// Calls `tokio_util::sync::CancellationToken::new`, which makes a token that derives from no
    /// other. The scope is what the caller means it for.
    #[verifier::external_body]
    pub(crate) fn new(scope: Scope) -> (token: ScopedToken)
        ensures
            token.scope() == scope,
            token.is_root(),
    {
        let inner = tokio_util::sync::CancellationToken::new();
        ScopedToken { scope, ancestors: Ghost(Seq::empty()), inner }
    }

    /// Calls `tokio_util::sync::CancellationToken::child_token`, which makes a token that is
    /// cancelled whenever this one is, and whose own cancellation leaves this one alone. The scope
    /// is what the caller means it for.
    #[verifier::external_body]
    pub(crate) fn child_token(&self, scope: Scope) -> (token: ScopedToken)
        ensures
            token.scope() == scope,
            token.is_child_of(*self),
    {
        let inner = self.inner.child_token();
        ScopedToken {
            scope,
            ancestors: Ghost(self.ancestors@.push((self.scope, self.inner))),
            inner,
        }
    }

    /// The token itself, to be awaited or cancelled.
    pub fn inner(&self) -> (token: &tokio_util::sync::CancellationToken)
        ensures
            *token == self.handle(),
    {
        &self.inner
    }
}

/// The root token of a new transport session.
pub fn transport_token() -> (token: ScopedToken)
    ensures
        token.scope() == Scope::Transport,
        token.is_root(),
{
    ScopedToken::new(Scope::Transport)
}

/// The tokens of the two actors of a session, derived from its root token.
pub fn actor_tokens(root: &ScopedToken) -> (tokens: (ScopedToken, ScopedToken))
    ensures
        tokens.0.scope() == Scope::Sentinel,
        tokens.0.is_child_of(*root),
        tokens.1.scope() == Scope::Verifier,
        tokens.1.is_child_of(*root),
{
    let sentinel = root.child_token(Scope::Sentinel);
    let verifier = root.child_token(Scope::Verifier);
    (sentinel, verifier)
}

/// Cancelling a token cancels the token itself and, with any token that it reaches, whatever
/// derives from that one.
pub proof fn cancellation_reaches_descendants(
    token: ScopedToken,
    reached: ScopedToken,
    child: ScopedToken,
)
    requires
        token.reaches(reached),
        child.is_child_of(reached),
    ensures
        token.reaches(token),
        token.reaches(child),
{
    let own = (token.scope(), token.handle());
    if reached.ancestors().contains(own) {
        let at = reached.ancestors().index_of(own);
        assert(child.ancestors()[at] == own);
    } else {
        assert(child.ancestors().last() == own);
    }
}

/// In a session whose actors hold tokens derived from its root, cancelling the root reaches both
/// actors, and cancelling one actor's token reaches neither the root nor the other actor.
pub proof fn session_cancellation(root: ScopedToken, sentinel: ScopedToken, verifier: ScopedToken)
    requires
        root.is_root(),
        root.scope() == Scope::Transport,
        sentinel.is_child_of(root),
        sentinel.scope() == Scope::Sentinel,
        verifier.is_child_of(root),
        verifier.scope() == Scope::Verifier,
    ensures
        root.reaches(sentinel),
        root.reaches(verifier),
        !sentinel.reaches(root),
        !sentinel.reaches(verifier),
        !verifier.reaches(root),
        !verifier.reaches(sentinel),
{
    let own = (root.scope(), root.handle());
    assert(sentinel.ancestors() =~= seq![own]);
    assert(verifier.ancestors() =~= seq![own]);
    assert(sentinel.ancestors()[0] == own);
    assert(verifier.ancestors()[0] == own);
}

} // verus!
