//! Service and game-server token provisioning: issue a NEX-class session
//! for the authenticated account and, for the game-server flow, pair it with
//! the server's address and the account's stored NEX password.

use vstd::prelude::*;
use crate::account::User;
use crate::codec::{AesKey, TokenData, spec_encode};
use crate::error::ServiceError;
use crate::store::{TokenStore, TokenType, spec_created_row, create_token};
use crate::text::{dec_of, push_dec_u32, str_eq};

verus! {

/// The body of a service-token response.
pub struct ServiceToken {
    pub token: String,
}

/// The body of a game-server-token response.
#[derive(Debug)]
pub struct NexToken {
    pub host: String,
    pub nex_password: String,
    pub pid: i32,
    pub port: u16,
    pub token: String,
}

/// One registered game server: its identifier, its address where it is
/// reachable over IPv4, and its port.
pub struct NexServer {
    pub game_server_id: String,
    pub address: Option<(u8, u8, u8, u8)>,
    pub port: u16,
}

impl Clone for NexServer {
    fn clone(&self) -> (r: Self)
        ensures
            r == *self,
    {
        NexServer {
            game_server_id: self.game_server_id.clone(),
            address: self.address,
            port: self.port,
        }
    }
}

/// The first registered server with the given identifier, if any.
pub open spec fn find_server(s: Seq<NexServer>, id: Seq<char>) -> Option<NexServer>
    decreases s.len(),
{
    if s.len() == 0 {
        None
    } else if s.first().game_server_id@ == id {
        Some(s.first())
    } else {
        find_server(s.drop_first(), id)
    }
}

fn lookup_server(servers: &Vec<NexServer>, id: &str) -> (r: Option<NexServer>)
    ensures
        r == find_server(servers@, id@),
{
    let n = servers.len();
    let mut i: usize = 0;
    proof {
        assert(servers@.skip(0) =~= servers@);
    }
    while i < n
        invariant
            i <= n,
            n == servers@.len(),
            find_server(servers@, id@) == find_server(servers@.skip(i as int), id@),
        decreases n - i,
    {
        proof {
            assert(servers@.skip(i as int).drop_first() =~= servers@.skip(i + 1));
            assert(servers@.skip(i as int).first() == servers@[i as int]);
        }
        if str_eq(servers[i].game_server_id.as_str(), id) {
            return Some(servers[i].clone());
        }
        i = i + 1;
    }
    proof {
        assert(servers@.skip(n as int) =~= Seq::<NexServer>::empty());
    }
    None
}

/// The dotted-quad rendering of an IPv4 address.
pub open spec fn dotted_quad(a: u8, b: u8, c: u8, d: u8) -> Seq<char> {
    dec_of(a as nat) + seq!['.'] + dec_of(b as nat) + seq!['.'] + dec_of(c as nat) + seq!['.']
        + dec_of(d as nat)
}

fn format_ipv4(a: u8, b: u8, c: u8, d: u8) -> (r: String)
    ensures
        r@ == dotted_quad(a, b, c, d),
{
    let mut out = String::new();
    push_dec_u32(&mut out, a as u32);
    out.push('.');
    push_dec_u32(&mut out, b as u32);
    out.push('.');
    push_dec_u32(&mut out, c as u32);
    out.push('.');
    push_dec_u32(&mut out, d as u32);
    proof {
        assert(out@ =~= dotted_quad(a, b, c, d));
    }
    out
}

/// Issue a NEX-class session for the authenticated account and return the
/// opaque token.
pub fn get_service_token(store: &mut TokenStore, key: &AesKey, pid: i32) -> (r: ServiceToken)
    requires
        old(store).wf(),
        old(store).next_token_id < i64::MAX,
        key.wf(),
    ensures
        final(store).wf(),
        crate::store::spec_created_token(
            *old(store),
            *final(store),
            key@,
            pid,
            TokenType::Nex,
            None,
            None,
            r.token@,
        ),
{
    let token = create_token(store, key, pid, TokenType::Nex, None, None);
    ServiceToken { token }
}

/// Issue a NEX-class session bound to a registered game server. An unknown
/// server is refused before issuing; a server without an IPv4 address is
/// refused after — the session row stays behind, as in the deployment.
pub fn get_nex_token(servers: &Vec<NexServer>, store: &mut TokenStore, key: &AesKey,
    user: &User, game_server_id: &str) -> (r: Result<NexToken, Option<ServiceError>>)
    requires
        old(store).wf(),
        old(store).next_token_id < i64::MAX,
        key.wf(),
    ensures
        final(store).wf(),
        match find_server(servers@, game_server_id@) {
            None => r == Err::<NexToken, Option<ServiceError>>(
                Some(ServiceError::ServerNotFound),
            ) && *final(store) == *old(store),
            Some(srv) => {
                &&& spec_created_row(
                    *old(store),
                    *final(store),
                    user.pid,
                    TokenType::Nex,
                    None,
                    None,
                )
                &&& match srv.address {
                    None => r == Err::<NexToken, Option<ServiceError>>(
                        Some(ServiceError::NotIpv4),
                    ),
                    Some((a, b, c, d)) => r matches Ok(nt) && nt.host@ == dotted_quad(
                        a,
                        b,
                        c,
                        d,
                    ) && nt.port == srv.port && nt.pid == user.pid && nt.nex_password@
                        == user.nex_password@ && nt.token@ == spec_encode(
                        key@,
                        TokenData {
                            pid: user.pid,
                            random: final(store).rows@.last().random,
                            token_id: old(store).next_token_id,
                        },
                    ),
                }
            },
        },
{
    let server = match lookup_server(servers, game_server_id) {
        Some(s) => s,
        None => {
            return Err(Some(ServiceError::ServerNotFound));
        },
    };
    let token = create_token(store, key, user.pid, TokenType::Nex, None, None);
    let (a, b, c, d) = match server.address {
        Some(q) => q,
        None => {
            return Err(Some(ServiceError::NotIpv4));
        },
    };
    let host = format_ipv4(a, b, c, d);
    Ok(NexToken {
        host,
        port: server.port,
        nex_password: user.nex_password.clone(),
        pid: user.pid,
        token,
    })
}

} // verus!
