//! The steps by which the access token for the backup is obtained. The
//! exchange with the provider is the caller's business; which step comes
//! next is decided here.

use vstd::prelude::*;

verus! {

/// What to do next to get hold of the token.
#[derive(Debug)]
pub enum TokenStep {
    /// The token is at hand.
    Use(String),
    /// No token is stored: run the authorization, then look again.
    Authorize,
    /// The authorization has run and still no token is stored.
    Missing,
}

/// A step, with its token as a sequence of characters.
pub enum TokenStepView {
    Use(Seq<char>),
    Authorize,
    Missing,
}

impl View for TokenStep {
    type V = TokenStepView;

    open spec fn view(&self) -> TokenStepView {
        match self {
            TokenStep::Use(token) => TokenStepView::Use(token@),
            TokenStep::Authorize => TokenStepView::Authorize,
            TokenStep::Missing => TokenStepView::Missing,
        }
    }
}

/// The next step, given the token that is stored, if one is, and whether
/// the authorization has already run: a stored token is used as it is,
/// and the authorization runs at most once.
pub fn get_token(stored: Option<String>, authorized: bool) -> (r: TokenStep)
    ensures
        r@ == match stored {
            Some(token) => TokenStepView::Use(token@),
            None => if authorized {
                TokenStepView::Missing
            } else {
                TokenStepView::Authorize
            },
        },
{
    match stored {
        Some(token) => TokenStep::Use(token),
        None => if authorized {
            TokenStep::Missing
        } else {
            TokenStep::Authorize
        },
    }
}

} // verus!
