//! Stream gateway: binds one authenticated connection to one event bus
//! subscription.
//!
//! On connect the presented access token is verified first; only a valid
//! token opens a subscription, and a rejected connection leaves the bus
//! untouched. On teardown — client disconnect, write error, or a forced
//! close — the subscription is released.

use vstd::prelude::*;
use crate::bus::{SubModel, spec_closed_sub};
use crate::session::SessionManager;
use crate::token::{TokenError, spec_decode, spec_tag, verify_access_token};

verus! {

/// Authenticate a connection and open its subscription.
///
/// The token is verified against the manager's key at time `now`; on any
/// token failure the connection is rejected with that failure and no
/// subscription is created. On success the new subscription's handle is
/// returned: live, empty, routed to the token's subject.
pub fn connect_stream(m: &mut SessionManager, token: &Vec<u8>, now: u64) -> (r: Result<usize, TokenError>)
    ensures
        final(m).users == old(m).users,
        final(m).store == old(m).store,
        final(m).key == old(m).key,
        final(m).bus.capacity == old(m).bus.capacity,
        match spec_decode(token@) {
            Option::None => {
                &&& r == Result::<usize, TokenError>::Err(TokenError::Malformed)
                &&& final(m).bus == old(m).bus
            },
            Option::Some(parsed) => {
                let (c, sent_tag) = parsed;
                if sent_tag != spec_tag(c, old(m).key) {
                    &&& r == Result::<usize, TokenError>::Err(TokenError::SignatureInvalid)
                    &&& final(m).bus == old(m).bus
                } else if now >= c.exp {
                    &&& r == Result::<usize, TokenError>::Err(TokenError::Expired)
                    &&& final(m).bus == old(m).bus
                } else {
                    &&& r == Result::<usize, TokenError>::Ok(old(m).bus.model().len() as usize)
                    &&& final(m).bus.model() == old(m).bus.model().push(
                        (SubModel { user_id: c.sub, open: true, buffer: Seq::empty() }))
                }
            },
        },
{
    let verified = verify_access_token(token, m.key, now);
    match verified {
        Err(e) => Err(e),
        Ok(user_id) => {
            let h = m.bus.subscribe(user_id);
            Ok(h)
        },
    }
}

/// Release a connection's subscription: idempotent, safe after a forced
/// close, and a no-op for an unknown handle.
pub fn disconnect_stream(m: &mut SessionManager, h: usize)
    ensures
        final(m).users == old(m).users,
        final(m).store == old(m).store,
        final(m).key == old(m).key,
        final(m).bus.capacity == old(m).bus.capacity,
        h < old(m).bus.model().len() ==> final(m).bus.model()
            == old(m).bus.model().update(h as int, spec_closed_sub(old(m).bus.model()[h as int])),
        h >= old(m).bus.model().len() ==> final(m).bus.model() == old(m).bus.model(),
{
    m.bus.unsubscribe(h);
}

} // verus!
