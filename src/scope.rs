//! Cancellation scopes: the tree of tokens through which shutdown reaches every task.

use vstd::prelude::*;

verus! {

#[verifier::external_type_specification]
#[verifier::external_body]
pub struct ExCancellationToken(tokio_util::sync::CancellationToken);

#[verifier::external_type_specification]
#[verifier::external_body]
pub struct ExDropGuard(tokio_util::sync::DropGuard);

/// Relies on tokio_util's CancellationToken::new, to make a root scope. No property
/// of the token is stated.
pub assume_specification[ tokio_util::sync::CancellationToken::new ]() -> tokio_util::sync::CancellationToken;

/// Relies on tokio_util's CancellationToken::child_token, to make a scope below this
/// one. No property of the token is stated.
pub assume_specification[ tokio_util::sync::CancellationToken::child_token ](
    token: &tokio_util::sync::CancellationToken,
) -> tokio_util::sync::CancellationToken;

/// Relies on tokio_util's CancellationToken::cancel, to cancel a scope. Nothing is
/// stated of the token's state afterwards.
pub assume_specification[ tokio_util::sync::CancellationToken::cancel ](
    token: &tokio_util::sync::CancellationToken,
);

} // verus!
