//! What holds of the store whatever is asked of it, and in whatever order.

use vstd::prelude::*;
use crate::amount::{lemma_scaling_fits_by_product, pow10, tokens_for_score};
use crate::error::GameError;
use crate::model::{ClaimRequest, LedgerView, Request};

verus! {

/// A well-formed store stays well-formed under every request.
pub proof fn lemma_step_preserves_wf(ledger: LedgerView, request: Request)
    requires
        ledger.wf(),
    ensures
        ledger.step(request).wf(),
{
}

/// A well-formed store stays well-formed under every sequence of requests.
pub proof fn lemma_run_preserves_wf(ledger: LedgerView, requests: Seq<Request>)
    requires
        ledger.wf(),
    ensures
        ledger.run(requests).wf(),
    decreases requests.len(),
{
    if requests.len() > 0 {
        lemma_run_preserves_wf(ledger, requests.drop_last());
        lemma_step_preserves_wf(ledger.run(requests.drop_last()), requests.last());
    }
}

/// A claim signed by anyone but the game's authority is refused with
/// `UnauthorizedClaim`, whatever else it asks for, and changes nothing.
pub proof fn lemma_unauthorized_claim_changes_nothing(ledger: LedgerView, claim: ClaimRequest)
    requires
        ledger.games.contains_key(claim.mint),
        claim.authority != ledger.games[claim.mint].authority,
    ensures
        ledger.claim_verdict(claim) == Err::<u64, GameError>(GameError::UnauthorizedClaim),
        ledger.after_claim(claim) == ledger,
{
}

/// A request to hand the authority on that is signed by anyone but the game's
/// authority is refused with `UnauthorizedAdmin` and changes nothing: the
/// authority stays who it was.
pub proof fn lemma_unauthorized_admin_changes_nothing(
    ledger: LedgerView,
    mint: Seq<u8>,
    signer: Seq<u8>,
    new_admin: Seq<u8>,
)
    requires
        ledger.games.contains_key(mint),
        signer != ledger.games[mint].authority,
    ensures
        ledger.admin_verdict(mint, signer) == Err::<(), GameError>(GameError::UnauthorizedAdmin),
        ledger.after_add_admin(mint, signer, new_admin) == ledger,
{
}

/// What a claim mints is decided by the score and the game's decimals alone:
/// where the game's authority signs a claim for a session without a record,
/// a score under 100 is refused with `InvalidScore`, a higher one whose
/// scaled amount leaves the 64-bit range with `Overflow`, and every other is
/// granted `floor(score / 100) * 10^decimals` base units.
pub proof fn lemma_amount_is_determined(ledger: LedgerView, claim: ClaimRequest)
    requires
        ledger.games.contains_key(claim.mint),
        claim.authority == ledger.games[claim.mint].authority,
        !ledger.claims.contains_key(claim.session_id),
    ensures
        claim.score < 100 ==> ledger.claim_verdict(claim) == Err::<u64, GameError>(
            GameError::InvalidScore,
        ),
        claim.score >= 100 && (claim.score / 100) * pow10(
            ledger.games[claim.mint].decimals as nat,
        ) > u64::MAX ==> ledger.claim_verdict(claim) == Err::<u64, GameError>(
            GameError::Overflow,
        ),
        claim.score >= 100 && (claim.score / 100) * pow10(
            ledger.games[claim.mint].decimals as nat,
        ) <= u64::MAX ==> ledger.claim_verdict(claim) is Ok && ledger.claim_verdict(
            claim,
        )->Ok_0 == (claim.score / 100) * pow10(ledger.games[claim.mint].decimals as nat),
{
    if claim.score >= 100 {
        lemma_scaling_fits_by_product(
            tokens_for_score(claim.score),
            ledger.games[claim.mint].decimals,
        );
    }
}

/// A claim that is not granted, for whatever reason, leaves the whole store
/// as it was: no record is stored and no counter moves. So does a claim whose
/// scaling leaves the 64-bit range.
pub proof fn lemma_refused_claim_changes_nothing(ledger: LedgerView, claim: ClaimRequest)
    requires
        ledger.games.contains_key(claim.mint),
        ledger.claim_verdict(claim) is Err,
    ensures
        ledger.after_claim(claim) == ledger,
        ledger.after_claim(claim).claims.contains_key(claim.session_id)
            == ledger.claims.contains_key(claim.session_id),
        ledger.after_claim(claim).games[claim.mint] == ledger.games[claim.mint],
{
}

/// Once a claim record is stored, no request changes or removes it.
pub proof fn lemma_claim_record_is_permanent(
    ledger: LedgerView,
    request: Request,
    session_id: Seq<u8>,
)
    requires
        ledger.claims.contains_key(session_id),
    ensures
        ledger.step(request).claims.contains_key(session_id),
        ledger.step(request).claims[session_id] == ledger.claims[session_id],
{
}

/// Once a game is set up, no request removes it, gives it another token type
/// or other decimals, or lowers one of its counters.
pub proof fn lemma_game_is_permanent(ledger: LedgerView, request: Request, mint: Seq<u8>)
    requires
        ledger.games.contains_key(mint),
    ensures
        ledger.step(request).games.contains_key(mint),
        ledger.step(request).games[mint].mint == ledger.games[mint].mint,
        ledger.step(request).games[mint].decimals == ledger.games[mint].decimals,
        ledger.step(request).games[mint].game_name == ledger.games[mint].game_name,
        ledger.step(request).games[mint].reward_symbol == ledger.games[mint].reward_symbol,
        ledger.step(request).games[mint].total_claims >= ledger.games[mint].total_claims,
        ledger.step(request).games[mint].total_rewards_distributed
            >= ledger.games[mint].total_rewards_distributed,
{
}

/// In a session that has a record, every further claim is refused and
/// changes nothing: with `SessionAlreadyClaimed` where the game's authority
/// signed it, with `UnauthorizedClaim` where another did.
pub proof fn lemma_claimed_session_is_refused(ledger: LedgerView, claim: ClaimRequest)
    requires
        ledger.games.contains_key(claim.mint),
        ledger.claims.contains_key(claim.session_id),
    ensures
        !ledger.grants(claim),
        ledger.after_claim(claim) == ledger,
        claim.authority == ledger.games[claim.mint].authority ==> ledger.claim_verdict(claim)
            == Err::<u64, GameError>(GameError::SessionAlreadyClaimed),
        claim.authority != ledger.games[claim.mint].authority ==> ledger.claim_verdict(claim)
            == Err::<u64, GameError>(GameError::UnauthorizedClaim),
{
}

/// Among any requests, taken in any order from any store, at most one claim
/// is granted for a session, and none where the session has a record at the
/// start. The session of a granted claim has a record from then on, and a
/// record that was there at the start is there, unchanged, at the end.
pub proof fn lemma_session_granted_at_most_once(
    ledger: LedgerView,
    requests: Seq<Request>,
    session_id: Seq<u8>,
)
    ensures
        ledger.grants_for_session(requests, session_id) <= 1,
        ledger.claims.contains_key(session_id) ==> ledger.grants_for_session(
            requests,
            session_id,
        ) == 0,
        ledger.grants_for_session(requests, session_id) == 1 ==> ledger.run(
            requests,
        ).claims.contains_key(session_id) && ledger.run(requests).claims[session_id].is_claimed,
        ledger.claims.contains_key(session_id) ==> ledger.run(requests).claims.contains_key(
            session_id,
        ) && ledger.run(requests).claims[session_id] == ledger.claims[session_id],
    decreases requests.len(),
{
    if requests.len() > 0 {
        let earlier = requests.drop_last();
        lemma_session_granted_at_most_once(ledger, earlier, session_id);
        let reached = ledger.run(earlier);
        if reached.claims.contains_key(session_id) {
            lemma_claim_record_is_permanent(reached, requests.last(), session_id);
        }
    }
}

/// After a granted claim, and whatever is asked in between, a second claim
/// for the same session is refused and changes nothing: with
/// `SessionAlreadyClaimed` where the authority of its game signed it.
pub proof fn lemma_second_claim_is_refused(
    ledger: LedgerView,
    first: ClaimRequest,
    between: Seq<Request>,
    second: ClaimRequest,
)
    requires
        ledger.grants(first),
        second.session_id == first.session_id,
        ledger.after_claim(first).run(between).games.contains_key(second.mint),
    ensures
        !ledger.after_claim(first).run(between).grants(second),
        ledger.after_claim(first).run(between).after_claim(second) == ledger.after_claim(
            first,
        ).run(between),
        second.authority == ledger.after_claim(first).run(between).games[second.mint].authority
            ==> ledger.after_claim(first).run(between).claim_verdict(second) == Err::<
            u64,
            GameError,
        >(GameError::SessionAlreadyClaimed),
{
    let claimed = ledger.after_claim(first);
    lemma_session_granted_at_most_once(claimed, between, first.session_id);
    lemma_claimed_session_is_refused(claimed.run(between), second);
}

/// The counters of a game count its granted claims: after any requests, taken
/// in any order, the game has counted as many claims more as were granted
/// in it, and as many whole tokens more as those claims were worth together.
pub proof fn lemma_counters_follow_grants(
    ledger: LedgerView,
    requests: Seq<Request>,
    mint: Seq<u8>,
)
    requires
        ledger.games.contains_key(mint),
    ensures
        ledger.run(requests).games.contains_key(mint),
        ledger.run(requests).games[mint].total_claims == ledger.games[mint].total_claims
            + ledger.grants_in_game(requests, mint),
        ledger.run(requests).games[mint].total_rewards_distributed
            == ledger.games[mint].total_rewards_distributed + ledger.tokens_in_game(
            requests,
            mint,
        ),
    decreases requests.len(),
{
    if requests.len() > 0 {
        lemma_counters_follow_grants(ledger, requests.drop_last(), mint);
    }
}

/// In a game that has granted nothing yet, the counters are the number of
/// the claims granted since and the sum of their whole tokens.
pub proof fn lemma_new_game_counts_its_claims(
    ledger: LedgerView,
    requests: Seq<Request>,
    mint: Seq<u8>,
)
    requires
        ledger.games.contains_key(mint),
        ledger.games[mint].total_claims == 0,
        ledger.games[mint].total_rewards_distributed == 0,
    ensures
        ledger.run(requests).games[mint].total_claims == ledger.grants_in_game(requests, mint),
        ledger.run(requests).games[mint].total_rewards_distributed == ledger.tokens_in_game(
            requests,
            mint,
        ),
{
    lemma_counters_follow_grants(ledger, requests, mint);
}

} // verus!
