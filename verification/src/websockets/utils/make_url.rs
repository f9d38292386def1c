use vstd::prelude::*;

use vstd::string::StringExecFns;

use crate::errors::krist::KristError;
use crate::ids::{spec_uuid_text, uuid_text};
use crate::text::str_eq;

verus! {

/// Whether the server speaks without transport security. The setting is on
/// unless it is set to something other than `true`.
pub open spec fn spec_insecure(force_insecure: Option<&str>) -> bool {
    match force_insecure {
        Some(value) => value@ == "true"@,
        None => true,
    }
}

/// The address a client opens its socket at.
pub open spec fn spec_url(insecure: bool, public_url: Seq<char>, uuid: u128) -> Seq<char> {
    (if insecure {
        "ws"@
    } else {
        "wss"@
    }) + "://"@ + public_url + "/api/krist/ws/gateway/"@ + spec_uuid_text(uuid)
}

/// The server's public addresses: its base, and the base of its socket API.
pub open spec fn spec_motd_urls(insecure: bool, public_url: Seq<char>) -> Seq<Seq<char>> {
    let scheme = if insecure {
        "http"@
    } else {
        "https"@
    };
    seq![scheme + "://"@ + public_url, scheme + "://"@ + public_url + "/api/krist/ws/"@]
}

fn insecure(force_insecure: Option<&str>) -> (r: bool)
    ensures
        r == spec_insecure(force_insecure),
{
    match force_insecure {
        Some(value) => str_eq(value, "true"),
        None => true,
    }
}

/// The address at which the token `uuid` opens a socket, from the two
/// settings that shape it: `force_insecure` (`FORCE_WS_INSECURE`) and
/// `public_url` (`PUBLIC_URL`), each as the environment holds it. Without a
/// public address there is none.
pub fn make_url(force_insecure: Option<&str>, public_url: Option<&str>, uuid: u128) -> (r: Result<
    String,
    KristError,
>)
    ensures
        match r {
            Ok(url) => public_url.is_some() && url@ == spec_url(
                spec_insecure(force_insecure),
                public_url.unwrap()@,
                uuid,
            ),
            Err(e) => public_url.is_none() && e == KristError::ServerConfigError,
        },
{
    let schema = if insecure(force_insecure) {
        "ws"
    } else {
        "wss"
    };
    let server_url = match public_url {
        Some(url) => url,
        None => {
            return Err(KristError::ServerConfigError);
        },
    };
    let mut out = String::from_str(schema);
    out.append("://");
    out.append(server_url);
    out.append("/api/krist/ws/gateway/");
    let id = uuid_text(uuid);
    out.append(id.as_str());
    Ok(out)
}

/// The server's public addresses for the message of the day, from the same
/// two settings as [`make_url`].
pub fn make_motd_urls(force_insecure: Option<&str>, public_url: Option<&str>) -> (r: Result<
    Vec<String>,
    KristError,
>)
    ensures
        match r {
            Ok(urls) => public_url.is_some() && urls.deep_view() == spec_motd_urls(
                spec_insecure(force_insecure),
                public_url.unwrap()@,
            ),
            Err(e) => public_url.is_none() && e == KristError::ServerConfigError,
        },
{
    let schema = if insecure(force_insecure) {
        "http"
    } else {
        "https"
    };
    let server_url = match public_url {
        Some(url) => url,
        None => {
            return Err(KristError::ServerConfigError);
        },
    };
    let mut base = String::from_str(schema);
    base.append("://");
    base.append(server_url);
    let mut sockets = base.clone();
    sockets.append("/api/krist/ws/");
    let urls = vec![base, sockets];
    assert(urls.deep_view() =~= spec_motd_urls(
        spec_insecure(force_insecure),
        public_url.unwrap()@,
    ));
    Ok(urls)
}

} // verus!
