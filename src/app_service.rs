use vstd::prelude::*;

verus! {

/// The body of the protected page, granted to a holder of a valid session.
pub struct ProtectedRouteResponse {
    pub img_url: String,
}

/// The image shown to a holder of a valid session.
pub const CERTIFICATE_IMAGE_URL: &'static str = "https://i.ibb.co/YP90j68/Light-Live-Bootcamp-Certificate.png";

/// The host that serves the auth routes: the configured one, else
/// `localhost`; from inside the container network `localhost` is reached as
/// `auth-service`.
pub open spec fn auth_host(configured: Option<Seq<char>>, ipc: bool) -> Seq<char> {
    let host = match configured {
        Some(h) => if h.len() == 0 {
            "localhost"@
        } else {
            h
        },
        None => "localhost"@,
    };
    if host == "localhost"@ && ipc {
        "auth-service"@
    } else {
        host
    }
}

/// The address of an auth route: plain HTTP on port 3000 when no prefix is
/// forwarded (local runs), HTTPS under `/auth` otherwise.
pub open spec fn auth_address(configured: Option<Seq<char>>, prefix: Seq<char>, path: Seq<char>, ipc: bool) -> Seq<char> {
    if prefix.len() == 0 {
        "http://"@ + auth_host(configured, ipc) + ":3000"@ + path
    } else {
        "https://"@ + auth_host(configured, ipc) + "/auth"@ + path
    }
}

/// The address of the auth route `path`, given the configured host (if any)
/// and the forwarded prefix.
pub fn get_auth_address(configured_host: Option<String>, prefix: &str, path: &str, ipc: bool) -> (r: String)
    ensures
        r@ == auth_address(
            match configured_host {
                Some(h) => Some(h@),
                None => None,
            },
            prefix@,
            path@,
            ipc,
        ),
{
    let localhost = "localhost".to_owned();
    let mut address = match configured_host {
        Some(h) => if h.as_str().is_empty() {
            localhost.clone()
        } else {
            h
        },
        None => localhost.clone(),
    };
    if address == localhost && ipc {
        address = "auth-service".to_owned();
    }
    let mut out = if prefix.is_empty() {
        "http://".to_owned()
    } else {
        "https://".to_owned()
    };
    out.append(address.as_str());
    if prefix.is_empty() {
        out.append(":3000");
    } else {
        out.append("/auth");
    }
    out.append(path);
    out
}

/// Answers a request for the protected page: without a session cookie it is
/// refused with 401; when the token check could not be made, 500; when the
/// check answered 200 the page is granted, else the check's status is passed on.
pub fn protected_response(has_cookie: bool, verify_status: Option<u16>) -> (r: Result<ProtectedRouteResponse, u16>)
    ensures
        !has_cookie ==> r == Err::<ProtectedRouteResponse, u16>(401),
        has_cookie && verify_status is None ==> r == Err::<ProtectedRouteResponse, u16>(500),
        has_cookie && verify_status == Some(200u16) ==> (r matches Ok(p) && p.img_url@
            == CERTIFICATE_IMAGE_URL@),
        has_cookie && verify_status is Some && verify_status->Some_0 != 200 ==> r == Err::<
            ProtectedRouteResponse,
            u16,
        >(verify_status->Some_0),
{
    if !has_cookie {
        return Err(401);
    }
    match verify_status {
        None => Err(500),
        Some(200) => Ok(ProtectedRouteResponse { img_url: CERTIFICATE_IMAGE_URL.to_owned() }),
        Some(status) => Err(status),
    }
}

} // verus!
