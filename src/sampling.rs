//! The sampling filter: whether an inbound message is answered at all.

use rand::Rng;
use vstd::prelude::*;

verus! {

/// The odds of skipping a message that is not directed at the responder:
/// `SKIP_NUMERATOR` in `SKIP_DENOMINATOR`.
pub const SKIP_NUMERATOR: u32 = 10;

pub const SKIP_DENOMINATOR: u32 = 11;

/// Whether an author's message is directed at the responder, as far as the
/// platform could tell: `None` where the check itself failed.
pub type Directed = Option<bool>;

/// The sampling rule, given the outcome of the random draw: bot authors are
/// never answered, a failed mention check is not answered, a message directed
/// at the responder always is, and any other message unless the draw says skip.
pub open spec fn admits(from_bot: bool, directed: Directed, skip: bool) -> bool {
    !from_bot && match directed {
        Some(true) => true,
        Some(false) => !skip,
        None => false,
    }
}

/// Relies on rand's thread_rng and Rng::gen_ratio, which yields `true` with
/// odds `numerator` in `denominator` (it panics unless
/// `0 < denominator` and `numerator <= denominator`); nothing about one draw
/// is known in advance.
#[verifier::external_body]
fn draw(numerator: u32, denominator: u32) -> (r: bool)
    requires
        0 < denominator,
        numerator <= denominator,
{
    rand::thread_rng().gen_ratio(numerator, denominator)
}

/// The sampling rule for a given draw.
pub fn decide(from_bot: bool, directed: Directed, skip: bool) -> (r: bool)
    ensures
        r == admits(from_bot, directed, skip),
{
    if from_bot {
        return false;
    }
    match directed {
        Some(true) => true,
        Some(false) => !skip,
        None => false,
    }
}

/// The sampling filter: draws only for a message from a person that is not directed at
/// the responder.
pub fn should_process(from_bot: bool, directed: Directed) -> (r: bool)
    ensures
        exists|skip: bool| r == admits(from_bot, directed, skip),
        from_bot ==> !r,
        directed is None ==> !r,
        !from_bot && directed == Some(true) ==> r,
{
    if from_bot || !matches!(directed, Some(false)) {
        let r = decide(from_bot, directed, true);
        assert(r == admits(from_bot, directed, true));
        r
    } else {
        let skip = draw(SKIP_NUMERATOR, SKIP_DENOMINATOR);
        let r = decide(from_bot, directed, skip);
        assert(r == admits(from_bot, directed, skip));
        r
    }
}

/// A message directed at the responder from a person passes the filter
/// whatever the draw.
pub proof fn directed_always_passes(skip: bool)
    ensures
        admits(false, Some(true), skip),
{
}

/// A message from a bot never passes the filter, whatever the mention check
/// and the draw gave.
pub proof fn bot_never_passes(directed: Directed, skip: bool)
    ensures
        !admits(true, directed, skip),
{
}

} // verus!
