//! The player program: player details and the barns a player buys and
//! builds.

use vstd::prelude::*;
use crate::cpi::{PdaAuthority, PdaSigner, TokenCpi};

verus! {

/// Base units of the token that one barn costs: one whole token of nine
/// decimals.
pub const BARN_PRICE: u64 = 1_000_000_000;

/// A player's details account.
#[derive(Clone, Debug, PartialEq, Eq)]
pub struct Details {
    pub username: String,
    pub bump: u8,
    pub built_barns: u8,
    pub unbuilt_barns: u8,
}

/// The barn authority's account.
#[derive(Clone, Copy, Debug, PartialEq, Eq, Structural)]
pub struct BarnAuthorityData {
    pub bump: u8,
}

/// The accounts of the player initialisation that hold state.
#[derive(Clone, Debug, PartialEq, Eq)]
pub struct InitializePlayer {
    pub details: Details,
}

/// The accounts of the player update that hold state.
#[derive(Clone, Debug, PartialEq, Eq)]
pub struct UpdatePlayer {
    pub details: Details,
}

/// The accounts of the barn purchase: the player's details, the barn
/// authority, and the addresses of the accounts the payment is made with.
#[derive(Clone, Debug, PartialEq, Eq)]
pub struct BuyBarn {
    pub user_acf_account: [u8; 32],
    pub collection_account: [u8; 32],
    pub authority: [u8; 32],
    pub token_program: [u8; 32],
    pub details: Details,
    pub barn_authority: BarnAuthorityData,
}

/// The accounts of the barn construction that hold state.
#[derive(Clone, Debug, PartialEq, Eq)]
pub struct BuildBarn {
    pub details: Details,
}

/// The accounts of the barn-authority initialisation that hold state.
#[derive(Clone, Copy, Debug, PartialEq, Eq, Structural)]
pub struct InitializeBarnAuthority {
    pub authority_data: BarnAuthorityData,
}

/// Records the bump of a player's details account.
pub fn initialize_player(ctx: &mut InitializePlayer, pi_bump: u8)
    ensures
        final(ctx).details == (Details { bump: pi_bump, ..old(ctx).details }),
{
    ctx.details.bump = pi_bump;
}

/// The details after the player takes the name `username`: their barns,
/// built and unbuilt, are cleared.
pub open spec fn renamed(d: Details, username: String) -> Details {
    Details { username, built_barns: 0, unbuilt_barns: 0, ..d }
}

/// Sets the player's name and clears their barns, built and unbuilt.
pub fn update_player(ctx: &mut UpdatePlayer, username: String)
    ensures
        final(ctx).details == renamed(old(ctx).details, username),
{
    ctx.details.username = username;
    ctx.details.unbuilt_barns = 0;
    ctx.details.built_barns = 0;
}

/// The details after one more barn is bought.
pub open spec fn barn_bought(d: Details) -> Details {
    Details { unbuilt_barns: (d.unbuilt_barns + 1) as u8, ..d }
}

/// The details after one bought barn is built.
pub open spec fn barn_built(d: Details) -> Details {
    Details { unbuilt_barns: (d.unbuilt_barns - 1) as u8, built_barns: (d.built_barns + 1) as u8, ..d }
}

/// A barn can be bought: the count of unbuilt barns has room for one more.
pub open spec fn can_buy_barn(d: Details) -> bool {
    d.unbuilt_barns < 255
}

/// A barn can be built: one was bought and not built yet, and the count of
/// built barns has room for one more.
pub open spec fn can_build_barn(d: Details) -> bool {
    d.unbuilt_barns > 0 && d.built_barns < 255
}

/// Buys a barn: the returned transfer of the barn price from
/// `user_acf_account` to `collection_account`, authorised by the player and
/// signed by the barn authority, is what it costs, and the player has one more unbuilt barn.
/// A player who already holds 255 unbuilt barns cannot buy another.
pub fn buy_barn_space(ctx: &mut BuyBarn) -> (r: TokenCpi)
    requires
        can_buy_barn(old(ctx).details),
    ensures
        r == (TokenCpi::Transfer {
            token_program: old(ctx).token_program,
            from: old(ctx).user_acf_account,
            to: old(ctx).collection_account,
            authority: old(ctx).authority,
            amount: BARN_PRICE,
            signer: Some(PdaSigner { authority: PdaAuthority::Barn, bump: old(ctx).barn_authority.bump }),
        }),
        *final(ctx) == (BuyBarn { details: barn_bought(old(ctx).details), ..*old(ctx) }),
{
    let transfer = TokenCpi::Transfer {
        token_program: ctx.token_program,
        from: ctx.user_acf_account,
        to: ctx.collection_account,
        authority: ctx.authority,
        amount: BARN_PRICE,
        signer: Some(PdaSigner { authority: PdaAuthority::Barn, bump: ctx.barn_authority.bump }),
    };
    ctx.details.unbuilt_barns = ctx.details.unbuilt_barns + 1;
    transfer
}

/// Builds one of the barns the player bought. There must be a bought,
/// unbuilt barn, and room for one more built barn in the count.
pub fn build_barn_space(ctx: &mut BuildBarn)
    requires
        can_build_barn(old(ctx).details),
    ensures
        final(ctx).details == barn_built(old(ctx).details),
{
    ctx.details.unbuilt_barns = ctx.details.unbuilt_barns - 1;
    ctx.details.built_barns = ctx.details.built_barns + 1;
}

/// Records the bump of the barn authority.
pub fn initialize_barn_authority(ctx: &mut InitializeBarnAuthority, auth_bump: u8)
    ensures
        final(ctx).authority_data.bump == auth_bump,
{
    ctx.authority_data.bump = auth_bump;
}

/// Buying a barn adds exactly one unbuilt barn: the built barns, the name
/// and the bump stay as they were.
pub proof fn buying_adds_one_unbuilt_barn(d: Details)
    requires
        d.unbuilt_barns < 255,
    ensures
        barn_bought(d).unbuilt_barns == d.unbuilt_barns + 1,
        barn_bought(d).built_barns == d.built_barns,
        barn_bought(d).username == d.username,
        barn_bought(d).bump == d.bump,
{
}

/// Building turns exactly one unbuilt barn into a built one: one fewer
/// unbuilt, one more built, and the name and bump stay as they were.
pub proof fn building_turns_one_barn(d: Details)
    requires
        d.unbuilt_barns > 0,
        d.built_barns < 255,
    ensures
        barn_built(d).unbuilt_barns == d.unbuilt_barns - 1,
        barn_built(d).built_barns == d.built_barns + 1,
        barn_built(d).username == d.username,
        barn_built(d).bump == d.bump,
{
}

/// The total number of barns a player has, built or not.
pub open spec fn barns_total(d: Details) -> int {
    d.built_barns + d.unbuilt_barns
}

/// One instruction that changes a player's barns.
#[derive(Clone, Debug)]
pub enum BarnEvent {
    /// A barn purchase.
    Buy,
    /// The construction of a bought barn.
    Build,
    /// A change of name.
    Rename { username: String },
}

/// The event can be carried out on `d`: a purchase needs room for one more
/// unbuilt barn, a construction needs a bought, unbuilt barn and room for one
/// more built one.
pub open spec fn barn_event_allowed(d: Details, e: BarnEvent) -> bool {
    match e {
        BarnEvent::Buy => can_buy_barn(d),
        BarnEvent::Build => can_build_barn(d),
        BarnEvent::Rename { .. } => true,
    }
}

/// The details after one event.
pub open spec fn barn_step(d: Details, e: BarnEvent) -> Details {
    match e {
        BarnEvent::Buy => barn_bought(d),
        BarnEvent::Build => barn_built(d),
        BarnEvent::Rename { username } => renamed(d, username),
    }
}

/// Every event can be carried out in turn.
pub open spec fn barn_history_allowed(d: Details, events: Seq<BarnEvent>) -> bool
    decreases events.len(),
{
    events.len() == 0 || (barn_event_allowed(d, events[0]) && barn_history_allowed(barn_step(d, events[0]), events.drop_first()))
}

/// The details after the events, applied in order.
pub open spec fn barn_run(d: Details, events: Seq<BarnEvent>) -> Details
    decreases events.len(),
{
    if events.len() == 0 { d } else { barn_run(barn_step(d, events[0]), events.drop_first()) }
}

/// How many barns the events buy after the last change of name, if any,
/// and otherwise in all.
pub open spec fn purchases_since_rename(events: Seq<BarnEvent>) -> int
    decreases events.len(),
{
    if events.len() == 0 {
        0
    } else {
        match events.last() {
            BarnEvent::Buy => purchases_since_rename(events.drop_last()) + 1,
            BarnEvent::Build => purchases_since_rename(events.drop_last()),
            BarnEvent::Rename { .. } => 0,
        }
    }
}

/// Some event is a change of name.
pub open spec fn has_rename(events: Seq<BarnEvent>) -> bool {
    exists|i: int| 0 <= i < events.len() && events[i] is Rename
}

/// Every barn a player has was bought: through any history of allowed
/// purchases, constructions and renames, the barns they hold, built or not,
/// are exactly those bought since their last change of name, or, when they
/// never changed it, those they started with and those bought since.
pub proof fn barns_are_bought(d: Details, events: Seq<BarnEvent>)
    requires
        barn_history_allowed(d, events),
    ensures
        barns_total(barn_run(d, events)) == (if has_rename(events) { 0 } else { barns_total(d) })
            + purchases_since_rename(events),
    decreases events.len(),
{
    if events.len() > 0 {
        let prefix = events.drop_last();
        let e = events.last();
        assert(events =~= prefix.push(e));
        lemma_run_snoc(d, prefix, e);
        lemma_allowed_prefix(d, prefix, e);
        barns_are_bought(d, prefix);
        assert(prefix =~= events.drop_last());
        if has_rename(prefix) {
            let i = choose|i: int| 0 <= i < prefix.len() && prefix[i] is Rename;
            assert(events[i] is Rename);
        }
        if !has_rename(prefix) && !(e is Rename) {
            assert forall|i: int| 0 <= i < events.len() implies !(events[i] is Rename) by {
                if i < prefix.len() {
                    assert(events[i] == prefix[i]);
                }
            }
        }
        if e is Rename {
            assert(events[events.len() - 1] is Rename);
        }
    }
}

/// Running a history with one more event runs that event last.
proof fn lemma_run_snoc(d: Details, prefix: Seq<BarnEvent>, e: BarnEvent)
    ensures
        barn_run(d, prefix.push(e)) == barn_step(barn_run(d, prefix), e),
    decreases prefix.len(),
{
    if prefix.len() > 0 {
        assert(prefix.push(e).drop_first() =~= prefix.drop_first().push(e));
        assert(prefix.push(e)[0] == prefix[0]);
        lemma_run_snoc(barn_step(d, prefix[0]), prefix.drop_first(), e);
    } else {
        assert(prefix.push(e).drop_first() =~= Seq::<BarnEvent>::empty());
        assert(barn_run(barn_step(d, e), Seq::<BarnEvent>::empty()) == barn_step(d, e));
        assert(prefix.push(e)[0] == e);
    }
}

/// An allowed history stays allowed without its last event, and that event
/// is allowed where the rest leaves the details.
proof fn lemma_allowed_prefix(d: Details, prefix: Seq<BarnEvent>, e: BarnEvent)
    requires
        barn_history_allowed(d, prefix.push(e)),
    ensures
        barn_history_allowed(d, prefix),
        barn_event_allowed(barn_run(d, prefix), e),
    decreases prefix.len(),
{
    if prefix.len() > 0 {
        assert(prefix.push(e).drop_first() =~= prefix.drop_first().push(e));
        assert(prefix.push(e)[0] == prefix[0]);
        lemma_allowed_prefix(barn_step(d, prefix[0]), prefix.drop_first(), e);
    } else {
        assert(prefix.push(e).drop_first() =~= Seq::<BarnEvent>::empty());
    }
}

} // verus!
