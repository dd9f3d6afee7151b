//! Checks on the server's configuration: the required values are present and
//! the addresses that the media engine listens on are usable.

use vstd::prelude::*;

use crate::text::{split_spec, split_text, views};

verus! {

/// An IP address, as its bytes (version 4) or its 16-bit groups (version 6).
#[derive(Clone, Copy, Debug, PartialEq, Eq)]
pub enum IpAddress {
    V4([u8; 4]),
    V6([u16; 8]),
}

/// Whether an address is the unspecified one: all zeros.
pub open spec fn unspecified(ip: IpAddress) -> bool {
    match ip {
        IpAddress::V4(b) => b[0] == 0 && b[1] == 0 && b[2] == 0 && b[3] == 0,
        IpAddress::V6(g) => g[0] == 0 && g[1] == 0 && g[2] == 0 && g[3] == 0 && g[4] == 0 && g[5]
            == 0 && g[6] == 0 && g[7] == 0,
    }
}

impl IpAddress {
    /// Whether this is the unspecified address
    pub fn is_unspecified(&self) -> (r: bool)
        ensures
            r == unspecified(*self),
    {
        match *self {
            IpAddress::V4(b) => b[0] == 0 && b[1] == 0 && b[2] == 0 && b[3] == 0,
            IpAddress::V6(g) => g[0] == 0 && g[1] == 0 && g[2] == 0 && g[3] == 0 && g[4] == 0
                && g[5] == 0 && g[6] == 0 && g[7] == 0,
        }
    }
}

/// An address that the media engine listens on, and the address announced to
/// clients in its place
#[derive(Clone, Copy, Debug, PartialEq, Eq)]
pub struct ListenIp {
    pub ip: IpAddress,
    pub announced_ip: Option<IpAddress>,
}

/// A configuration that cannot be run with
#[derive(Clone, Copy, Debug, PartialEq, Eq, Structural)]
pub enum ConfigError {
    MissingWsUrl,
    MissingManageToken,
    MissingRtcIps,
    NoListenIp,
    /// Listening on the unspecified address without announcing another one
    AnnouncementRequired,
    /// Announcing the unspecified address
    UnspecifiedAnnouncement,
}

/// One entry of the list of listen addresses: the listen address, and the
/// announced address if the entry has one.
pub open spec fn listen_pair(piece: Seq<char>) -> (Seq<char>, Option<Seq<char>>) {
    let parts = split_spec(piece, ',');
    (parts[0], if parts.len() > 1 { Some(parts[1]) } else { None })
}

/// Split a list of listen addresses, written `listen_ip[,announced_ip]` and
/// separated by `;`, into its entries.
pub fn split_listen_ips(list: &str) -> (r: Vec<(String, Option<String>)>)
    ensures
        r@.len() == split_spec(list@, ';').len(),
        forall|k: int|
            0 <= k < r@.len() ==> (#[trigger] r@[k]).0@ == listen_pair(split_spec(list@, ';')[k]).0
                && match r@[k].1 {
                Some(a) => listen_pair(split_spec(list@, ';')[k]).1 == Some(a@),
                None => listen_pair(split_spec(list@, ';')[k]).1 is None,
            },
{
    let pieces = split_text(list, ';');
    let mut r: Vec<(String, Option<String>)> = Vec::new();
    let mut k: usize = 0;
    while k < pieces.len()
        invariant
            k <= pieces.len(),
            views(pieces@) == split_spec(list@, ';'),
            r@.len() == k,
            forall|x: int|
                0 <= x < k ==> (#[trigger] r@[x]).0@ == listen_pair(split_spec(list@, ';')[x]).0
                    && match r@[x].1 {
                    Some(a) => listen_pair(split_spec(list@, ';')[x]).1 == Some(a@),
                    None => listen_pair(split_spec(list@, ';')[x]).1 is None,
                },
        decreases pieces.len() - k,
    {
        assert(views(pieces@)[k as int] == pieces@[k as int]@);
        let mut parts = split_text(pieces[k].as_str(), ',');
        let ghost whole = views(parts@);
        assert(whole[0] == parts@[0]@);
        assert(parts@.len() > 1 ==> whole[1] == parts@[1]@);
        let announced = if parts.len() > 1 {
            Some(parts.remove(1))
        } else {
            None
        };
        let ip = parts.remove(0);
        r.push((ip, announced));
        k = k + 1;
    }
    r
}

/// Check one listen address: the unspecified address must come with an
/// announced address, and the announced address must not be unspecified.
pub fn check_listen_ip(ip: IpAddress, announced_ip: Option<IpAddress>) -> (r: Result<
    ListenIp,
    ConfigError,
>)
    ensures
        unspecified(ip) && announced_ip is None ==> r == Err::<ListenIp, ConfigError>(
            ConfigError::AnnouncementRequired,
        ),
        (announced_ip matches Some(a) && unspecified(a)) ==> r == Err::<ListenIp, ConfigError>(
            ConfigError::UnspecifiedAnnouncement,
        ),
        !(unspecified(ip) && announced_ip is None) && !(announced_ip matches Some(a) && unspecified(
            a,
        )) ==> r == Ok::<ListenIp, ConfigError>(ListenIp { ip, announced_ip }),
{
    if ip.is_unspecified() && announced_ip.is_none() {
        return Err(ConfigError::AnnouncementRequired);
    }
    if let Some(a) = announced_ip {
        if a.is_unspecified() {
            return Err(ConfigError::UnspecifiedAnnouncement);
        }
    }
    Ok(ListenIp { ip, announced_ip })
}

/// Check that the values the server cannot start without are there: the
/// WebSocket URL, the management token and at least one listen address, in
/// that order.
pub fn preflight_checks(
    ws_url: &Option<String>,
    manage_token: &Option<String>,
    rtc_ips: &Option<Vec<ListenIp>>,
) -> (r: Result<(), ConfigError>)
    ensures
        r == (if ws_url is None {
            Err(ConfigError::MissingWsUrl)
        } else if manage_token is None {
            Err(ConfigError::MissingManageToken)
        } else {
            match rtc_ips {
                None => Err(ConfigError::MissingRtcIps),
                Some(ips) => if ips@.len() == 0 {
                    Err(ConfigError::NoListenIp)
                } else {
                    Ok(())
                },
            }
        }),
{
    if ws_url.is_none() {
        return Err(ConfigError::MissingWsUrl);
    }
    if manage_token.is_none() {
        return Err(ConfigError::MissingManageToken);
    }
    match rtc_ips {
        None => Err(ConfigError::MissingRtcIps),
        Some(ips) => if ips.len() == 0 {
            Err(ConfigError::NoListenIp)
        } else {
            Ok(())
        },
    }
}

} // verus!
