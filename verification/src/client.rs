//! The VCL object that makes a bucket available as a backend, and the settings of the HTTP
//! client behind it.
use crate::aws::S3;
use crate::backend::VCLBackend;
use crate::external::{proxy_http, proxy_https};
use std::time::Duration;
use vstd::prelude::*;
use vstd::string::*;

verus! {

/// What to do with a redirection.
#[derive(Debug)]
pub enum Redirect {
    /// Hand it to the caller.
    Never,
    /// Follow it, up to this many in a row.
    Limited(usize),
}

/// The settings of an HTTP client. A setting that is `None` is left at its default.
#[derive(Debug)]
pub struct Settings {
    pub brotli: bool,
    pub deflate: bool,
    pub gzip: bool,
    pub accept_invalid_certs: bool,
    pub accept_invalid_hostnames: bool,
    pub timeout: Option<Duration>,
    pub connect_timeout: Option<Duration>,
    pub http_proxy: Option<reqwest::Proxy>,
    pub https_proxy: Option<reqwest::Proxy>,
    pub redirect: Redirect,
}

/// A client that could not be made: the message, and the error behind it.
#[derive(Debug)]
pub struct InitError {
    pub message: String,
    pub cause: reqwest::Error,
}

/// A client, under the name it has in VCL.
#[allow(non_camel_case_types)]
#[derive(Debug)]
pub struct client {
    pub name: String,
    pub be: VCLBackend,
    pub settings: Settings,
}

/// Redirections are followed only if a positive number of them is allowed.
pub open spec fn redirect_of(follow: i64) -> Redirect {
    if follow <= 0 {
        Redirect::Never
    } else {
        Redirect::Limited(follow as usize)
    }
}

/// The message for a client whose proxy, of the kind given, is not usable.
pub open spec fn proxy_message(vcl_name: Seq<char>, kind: Seq<char>) -> Seq<char> {
    "reqwest: couldn't initialize "@ + vcl_name + "'s "@ + kind + " proxy"@
}

/// The message for a client that cannot be made.
pub open spec fn client_message(vcl_name: Seq<char>) -> Seq<char> {
    "reqwest: couldn't initialize "@ + vcl_name
}

/// What reading the URL of the proxy for HTTP came to, where there is a URL.
pub open spec fn http_parsed(url: Option<&str>) -> Option<Result<reqwest::Proxy, reqwest::Error>> {
    match url {
        Some(url) => Some(crate::external::http_proxy(url@)),
        None => None,
    }
}

/// What reading the URL of the proxy for HTTPS came to, where there is a URL.
pub open spec fn https_parsed(url: Option<&str>) -> Option<Result<reqwest::Proxy, reqwest::Error>> {
    match url {
        Some(url) => Some(crate::external::https_proxy(url@)),
        None => None,
    }
}

/// The proxy, where there is one and its URL could be read.
pub open spec fn usable(
    proxy: Option<Result<reqwest::Proxy, reqwest::Error>>,
) -> Option<reqwest::Proxy> {
    match proxy {
        Some(Ok(proxy)) => Some(proxy),
        _ => None,
    }
}

impl InitError {
    /// The failure of a client whose HTTP client could not be built.
    pub fn of_client(vcl_name: &str, cause: reqwest::Error) -> (r: InitError)
        ensures
            r.message@ == client_message(vcl_name@),
            r.cause == cause,
    {
        InitError {
            message: String::from_str("reqwest: couldn't initialize ").concat(vcl_name),
            cause,
        }
    }

    fn of_proxy(vcl_name: &str, kind: &str, cause: reqwest::Error) -> (r: InitError)
        ensures
            r.message@ == proxy_message(vcl_name@, kind@),
            r.cause == cause,
    {
        InitError {
            message: String::from_str("reqwest: couldn't initialize ").concat(vcl_name).concat(
                "'s ",
            ).concat(kind).concat(" proxy"),
            cause,
        }
    }
}

impl Settings {
    /// The settings with the proxies, unless one of them is not usable; the one for HTTP is
    /// looked at first.
    pub fn with_proxies(
        self,
        vcl_name: &str,
        http: Option<Result<reqwest::Proxy, reqwest::Error>>,
        https: Option<Result<reqwest::Proxy, reqwest::Error>>,
    ) -> (r: Result<Settings, InitError>)
        ensures
            match (http, https) {
                (Some(Err(e)), _) => {
                    &&& r is Err
                    &&& r->Err_0.message@ == proxy_message(vcl_name@, "HTTP"@)
                    &&& r->Err_0.cause == e
                },
                (_, Some(Err(e))) => {
                    &&& r is Err
                    &&& r->Err_0.message@ == proxy_message(vcl_name@, "HTTPS"@)
                    &&& r->Err_0.cause == e
                },
                _ => r == Ok::<Settings, InitError>(
                    Settings { http_proxy: usable(http), https_proxy: usable(https), ..self },
                ),
            },
    {
        let mut settings = self;
        settings.http_proxy = match http {
            Some(Ok(proxy)) => Some(proxy),
            Some(Err(e)) => {
                return Err(InitError::of_proxy(vcl_name, "HTTP", e));
            },
            None => None,
        };
        settings.https_proxy = match https {
            Some(Ok(proxy)) => Some(proxy),
            Some(Err(e)) => {
                return Err(InitError::of_proxy(vcl_name, "HTTPS", e));
            },
            None => None,
        };
        Ok(settings)
    }
}

impl client {
    /// The client `vcl_name` for a bucket, or what is wrong with one of its proxies.
    pub fn new(
        vcl_name: &str,
        s3_bucket: &str,
        region: &str,
        follow: i64,
        timeout: Option<Duration>,
        connect_timeout: Option<Duration>,
        auto_gzip: bool,
        auto_deflate: bool,
        auto_brotli: bool,
        accept_invalid_certs: bool,
        accept_invalid_hostnames: bool,
        http_proxy: Option<&str>,
        https_proxy: Option<&str>,
    ) -> (r: Result<client, InitError>)
        ensures
            ({
                let http = http_parsed(http_proxy);
                let https = https_parsed(https_proxy);
                match (http, https) {
                    (Some(Err(e)), _) => {
                        &&& r is Err
                        &&& r->Err_0.message@ == proxy_message(vcl_name@, "HTTP"@)
                        &&& r->Err_0.cause == e
                    },
                    (_, Some(Err(e))) => {
                        &&& r is Err
                        &&& r->Err_0.message@ == proxy_message(vcl_name@, "HTTPS"@)
                        &&& r->Err_0.cause == e
                    },
                    _ => {
                        &&& r is Ok
                        &&& r->Ok_0.name@ == vcl_name@
                        &&& r->Ok_0.be.name@ == vcl_name@
                        &&& r->Ok_0.be.aws_s3_client.bucket@ == s3_bucket@
                        &&& r->Ok_0.be.aws_s3_client.region@ == region@
                        &&& r->Ok_0.settings == Settings {
                            brotli: auto_brotli,
                            deflate: auto_deflate,
                            gzip: auto_gzip,
                            accept_invalid_certs,
                            accept_invalid_hostnames,
                            timeout,
                            connect_timeout,
                            http_proxy: usable(http),
                            https_proxy: usable(https),
                            redirect: redirect_of(follow),
                        }
                    },
                }
            }),
    {
        let redirect = if follow <= 0 {
            Redirect::Never
        } else {
            Redirect::Limited(
                #[verifier::truncate]
                (follow as usize),
            )
        };
        let plain = Settings {
            brotli: auto_brotli,
            deflate: auto_deflate,
            gzip: auto_gzip,
            accept_invalid_certs,
            accept_invalid_hostnames,
            timeout,
            connect_timeout,
            http_proxy: None,
            https_proxy: None,
            redirect,
        };
        let http = match http_proxy {
            Some(url) => Some(proxy_http(url)),
            None => None,
        };
        let https = match https_proxy {
            Some(url) => Some(proxy_https(url)),
            None => None,
        };
        match plain.with_proxies(vcl_name, http, https) {
            Ok(settings) => Ok(
                client {
                    name: vcl_name.to_owned(),
                    be: VCLBackend {
                        name: vcl_name.to_owned(),
                        aws_s3_client: S3::new(s3_bucket.to_owned(), region.to_owned()),
                    },
                    settings,
                },
            ),
            Err(e) => Err(e),
        }
    }
}

/// A client is made unless the URL of one of its proxies cannot be read, and it is what was
/// asked for: each setting is the one given for it, each proxy the one read from its URL, and
/// redirections are followed up to the number given, if that is positive.
pub proof fn law_client_is_what_was_asked_for(
    vcl_name: &str,
    s3_bucket: &str,
    region: &str,
    follow: i64,
    timeout: Option<Duration>,
    connect_timeout: Option<Duration>,
    auto_gzip: bool,
    auto_deflate: bool,
    auto_brotli: bool,
    accept_invalid_certs: bool,
    accept_invalid_hostnames: bool,
    http_url: Option<&str>,
    https_url: Option<&str>,
    made: Result<client, InitError>,
)
    requires
        call_ensures(
            client::new,
            (
                vcl_name,
                s3_bucket,
                region,
                follow,
                timeout,
                connect_timeout,
                auto_gzip,
                auto_deflate,
                auto_brotli,
                accept_invalid_certs,
                accept_invalid_hostnames,
                http_url,
                https_url,
            ),
            made,
        ),
    ensures
        made is Ok <==> {
            &&& http_url matches Some(url) ==> crate::external::http_proxy(url@) is Ok
            &&& https_url matches Some(url) ==> crate::external::https_proxy(url@) is Ok
        },
        made matches Ok(c) ==> {
            &&& c.name@ == vcl_name@
            &&& c.be.name@ == vcl_name@
            &&& c.be.aws_s3_client.bucket@ == s3_bucket@
            &&& c.be.aws_s3_client.region@ == region@
            &&& c.settings.gzip == auto_gzip
            &&& c.settings.deflate == auto_deflate
            &&& c.settings.brotli == auto_brotli
            &&& c.settings.accept_invalid_certs == accept_invalid_certs
            &&& c.settings.accept_invalid_hostnames == accept_invalid_hostnames
            &&& c.settings.timeout == timeout
            &&& c.settings.connect_timeout == connect_timeout
            &&& http_url is None <==> c.settings.http_proxy is None
            &&& https_url is None <==> c.settings.https_proxy is None
            &&& c.settings.http_proxy matches Some(proxy) ==> crate::external::http_proxy(
                http_url->0@,
            ) == Ok::<reqwest::Proxy, reqwest::Error>(proxy)
            &&& c.settings.https_proxy matches Some(proxy) ==> crate::external::https_proxy(
                https_url->0@,
            ) == Ok::<reqwest::Proxy, reqwest::Error>(proxy)
            &&& follow <= 0 <==> c.settings.redirect is Never
            &&& c.settings.redirect matches Redirect::Limited(limit) ==> (follow <= usize::MAX
                ==> limit == follow)
        },
{
}

/// A proxy whose URL cannot be read is reported with the error behind it, under the name of
/// the client; the one for HTTPS only if that for HTTP is not at fault.
pub proof fn law_unusable_proxy_is_reported(
    vcl_name: &str,
    s3_bucket: &str,
    region: &str,
    follow: i64,
    timeout: Option<Duration>,
    connect_timeout: Option<Duration>,
    auto_gzip: bool,
    auto_deflate: bool,
    auto_brotli: bool,
    accept_invalid_certs: bool,
    accept_invalid_hostnames: bool,
    http_url: Option<&str>,
    https_url: Option<&str>,
    made: Result<client, InitError>,
)
    requires
        call_ensures(
            client::new,
            (
                vcl_name,
                s3_bucket,
                region,
                follow,
                timeout,
                connect_timeout,
                auto_gzip,
                auto_deflate,
                auto_brotli,
                accept_invalid_certs,
                accept_invalid_hostnames,
                http_url,
                https_url,
            ),
            made,
        ),
    ensures
        (http_url matches Some(url) && crate::external::http_proxy(url@) is Err) ==> {
            &&& made matches Err(e)
            &&& e.message@ == "reqwest: couldn't initialize "@ + vcl_name@ + "'s HTTP proxy"@
            &&& e.cause == crate::external::http_proxy(http_url->0@)->Err_0
        },
        (https_url matches Some(url) && crate::external::https_proxy(url@) is Err) && (
        http_url matches Some(url) ==> crate::external::http_proxy(url@) is Ok) ==> {
            &&& made matches Err(e)
            &&& e.message@ == "reqwest: couldn't initialize "@ + vcl_name@ + "'s HTTPS proxy"@
            &&& e.cause == crate::external::https_proxy(https_url->0@)->Err_0
        },
{
    lemma_proxy_words();
    if let Err(e) = made {
        assert("reqwest: couldn't initialize "@ + vcl_name@ + "'s "@ + "HTTP"@ + " proxy"@
            =~= "reqwest: couldn't initialize "@ + vcl_name@ + ("'s "@ + "HTTP"@ + " proxy"@));
        assert("reqwest: couldn't initialize "@ + vcl_name@ + "'s "@ + "HTTPS"@ + " proxy"@
            =~= "reqwest: couldn't initialize "@ + vcl_name@ + ("'s "@ + "HTTPS"@ + " proxy"@));
    }
}

proof fn lemma_proxy_words()
    ensures
        "'s "@ + "HTTP"@ + " proxy"@ == "'s HTTP proxy"@,
        "'s "@ + "HTTPS"@ + " proxy"@ == "'s HTTPS proxy"@,
{
    reveal_strlit("'s ");
    reveal_strlit("HTTP");
    reveal_strlit("HTTPS");
    reveal_strlit(" proxy");
    reveal_strlit("'s HTTP proxy");
    reveal_strlit("'s HTTPS proxy");
    assert("'s "@ + "HTTP"@ + " proxy"@ =~= "'s HTTP proxy"@);
    assert("'s "@ + "HTTPS"@ + " proxy"@ =~= "'s HTTPS proxy"@);
}

/// Putting in the proxies changes the proxies alone, and each goes to its own scheme; it
/// succeeds unless one of them could not be read.
pub proof fn law_proxies_are_put_in(
    plain: Settings,
    vcl_name: &str,
    http: Option<Result<reqwest::Proxy, reqwest::Error>>,
    https: Option<Result<reqwest::Proxy, reqwest::Error>>,
    put: Result<Settings, InitError>,
)
    requires
        call_ensures(Settings::with_proxies, (plain, vcl_name, http, https), put),
    ensures
        put is Err <==> (http matches Some(Err(_))) || (https matches Some(Err(_))),
        http matches Some(Err(cause)) ==> {
            &&& put->Err_0.cause == cause
            &&& put->Err_0.message@ == "reqwest: couldn't initialize "@ + vcl_name@
                + "'s HTTP proxy"@
        },
        https matches Some(Err(cause)) ==> !(http matches Some(Err(_))) ==> {
            &&& put->Err_0.cause == cause
            &&& put->Err_0.message@ == "reqwest: couldn't initialize "@ + vcl_name@
                + "'s HTTPS proxy"@
        },
        put matches Ok(settings) ==> {
            &&& http is None ==> settings.http_proxy is None
            &&& https is None ==> settings.https_proxy is None
            &&& http matches Some(Ok(proxy)) ==> settings.http_proxy == Some(proxy)
            &&& https matches Some(Ok(proxy)) ==> settings.https_proxy == Some(proxy)
            &&& settings == Settings {
                http_proxy: settings.http_proxy,
                https_proxy: settings.https_proxy,
                ..plain
            }
        },
{
    lemma_proxy_words();
    assert("reqwest: couldn't initialize "@ + vcl_name@ + "'s "@ + "HTTP"@ + " proxy"@
        =~= "reqwest: couldn't initialize "@ + vcl_name@ + ("'s "@ + "HTTP"@ + " proxy"@));
    assert("reqwest: couldn't initialize "@ + vcl_name@ + "'s "@ + "HTTPS"@ + " proxy"@
        =~= "reqwest: couldn't initialize "@ + vcl_name@ + ("'s "@ + "HTTPS"@ + " proxy"@));
}

/// A client that cannot be built is reported under its name, with the error behind it.
pub proof fn law_failed_client_is_reported(vcl_name: &str, cause: reqwest::Error, e: InitError)
    requires
        call_ensures(InitError::of_client, (vcl_name, cause), e),
    ensures
        e.message@ == "reqwest: couldn't initialize "@ + vcl_name@,
        e.cause == cause,
{
}

} // verus!
