//! The gateway's request handling: response formats, header construction,
//! and the content response for a `/ipfs/<cid>[/<path>]` request.

use crate::client::Client;
use crate::config::Config;
use crate::error::{GatewayError, GatewayErrorV};
use crate::headers::Headers;
use crate::kvseq::kv_map;
use crate::response::{GatewayResponse, GatewayResponseV, ResponseFormat};
use crate::strutil::{last_segment, str_eq};
use vstd::prelude::*;
use vstd::string::StringExecFns;

verus! {

/// The query parameters of a gateway request.
#[derive(Debug)]
pub struct GetParams {
    pub format: Option<String>,
    pub filename: Option<String>,
    pub download: Option<String>,
}

/// The gateway's request handler: its configuration and content client.
#[derive(Debug)]
pub struct Handler {
    pub config: Config,
    pub client: Client,
}

/// What `mime_guess::from_path(name).first_or_octet_stream()` prints: the
/// guessed media type of the path, from a fixed extension table, a
/// function of the path alone.
pub uninterp spec fn mime_of(name: Seq<char>) -> Seq<char>;

/// Relies on `mime_guess::from_path` and `first_or_octet_stream`: the
/// guess comes from a static extension table, so it depends on the path
/// alone.
#[verifier::external_body]
fn guess_mime(name: &str) -> (r: String)
    ensures
        r@ == mime_of(name@),
{
    mime_guess::from_path(name).first_or_octet_stream().to_string()
}

/// The response format a format parameter names, or the error message for
/// an unknown one.
pub open spec fn response_format_spec(format: Seq<char>) -> Result<ResponseFormat, Seq<char>> {
    if format == "raw"@ {
        Ok(ResponseFormat::Raw)
    } else if format == "car"@ {
        Ok(ResponseFormat::Car)
    } else if format == "html"@ {
        Ok(ResponseFormat::HTML)
    } else if format == ""@ {
        Ok(ResponseFormat::FS)
    } else {
        Err("format not supported"@)
    }
}

/// The headers every response of a format starts from.
pub open spec fn format_headers_spec(format: ResponseFormat) -> Map<Seq<char>, Seq<char>> {
    match format {
        ResponseFormat::Raw => Map::empty().insert("Content-Type"@, "application/vnd.ipld.raw"@)
            .insert("X-Content-Type-Options"@, "nosniff"@),
        ResponseFormat::Car => Map::empty().insert(
            "Content-Type"@,
            "application/vnd.ipld.car; version=1"@,
        ).insert("X-Content-Type-Options"@, "nosniff"@),
        ResponseFormat::HTML => Map::empty().insert("Content-Type"@, "text/html"@),
        ResponseFormat::FS => Map::empty().insert("Content-Type"@, "application/vnd.ipld.raw"@),
    }
}

/// The content-disposition header value.
pub open spec fn disposition_of(disposition: Seq<char>, filename: Seq<char>) -> Seq<char> {
    disposition + "; filename="@ + filename
}

/// The full content path of a request.
pub open spec fn full_path_of(cid: Seq<char>, cpath: Seq<char>) -> Seq<char> {
    "/ipfs/"@ + cid + cpath
}

/// A query parameter's string, the empty string when absent.
pub open spec fn param_view(p: Option<String>) -> Seq<char> {
    match p {
        Some(s) => s@,
        None => ""@,
    }
}

/// The headers every content response starts from: the format's base
/// headers, the content path, and the user-configured headers on top.
pub open spec fn gateway_base_headers(
    config_headers: Map<Seq<char>, Seq<char>>,
    f: ResponseFormat,
    cid: Seq<char>,
    cpath: Seq<char>,
) -> Map<Seq<char>, Seq<char>> {
    format_headers_spec(f).insert("X-Ipfs-Path"@, full_path_of(cid, cpath)).union_prefer_right(
        config_headers,
    )
}

/// The gateway's answer to a content request.
pub open spec fn get_ipfs_spec(
    config_headers: Map<Seq<char>, Seq<char>>,
    cid: Seq<char>,
    cpath: Seq<char>,
    format: Seq<char>,
    filename: Seq<char>,
    download: bool,
) -> Result<GatewayResponseV, GatewayErrorV> {
    match response_format_spec(format) {
        Err(m) => Err(GatewayErrorV { status_code: 400, message: m }),
        Ok(f) => {
            let base = gateway_base_headers(config_headers, f, cid, cpath);
            let body = full_path_of(cid, cpath);
            match f {
                ResponseFormat::Raw => Ok(GatewayResponseV {
                    status_code: 200,
                    body,
                    headers: base.insert(
                        "Content-Disposition"@,
                        disposition_of("attachment"@, cid + ".bin"@),
                    ),
                }),
                ResponseFormat::Car => Ok(GatewayResponseV {
                    status_code: 200,
                    body,
                    headers: base.insert(
                        "Content-Disposition"@,
                        disposition_of("attachment"@, cid + ".car"@),
                    ),
                }),
                ResponseFormat::HTML => Ok(GatewayResponseV {
                    status_code: 200,
                    body: "<p>"@ + cid + "</p>"@,
                    headers: base,
                }),
                ResponseFormat::FS => {
                    let name = if filename.len() > 0 {
                        filename
                    } else {
                        last_segment(cpath)
                    };
                    let with_disposition = if filename.len() > 0 {
                        base.insert(
                            "Content-Disposition"@,
                            disposition_of(
                                if download {
                                    "attachment"@
                                } else {
                                    "inline"@
                                },
                                filename,
                            ),
                        )
                    } else {
                        base
                    };
                    Ok(GatewayResponseV {
                        status_code: 200,
                        body,
                        headers: with_disposition.insert("Content-Type"@, mime_of(name)),
                    })
                },
            }
        },
    }
}

impl Handler {
    /// A handler over a fresh content client.
    pub fn new(config: Config) -> (r: Handler)
        ensures
            r.config == config,
    {
        Handler { config, client: Client::new() }
    }

    /// Parses the `format` query parameter.
    pub fn response_format(format: &str) -> (r: Result<ResponseFormat, String>)
        ensures
            match r {
                Ok(f) => response_format_spec(format@) == Ok::<ResponseFormat, Seq<char>>(f),
                Err(m) => response_format_spec(format@) == Err::<ResponseFormat, Seq<char>>(m@),
            },
    {
        if str_eq(format, "raw") {
            Ok(ResponseFormat::Raw)
        } else if str_eq(format, "car") {
            Ok(ResponseFormat::Car)
        } else if str_eq(format, "html") {
            Ok(ResponseFormat::HTML)
        } else if str_eq(format, "") {
            Ok(ResponseFormat::FS)
        } else {
            Err(String::from_str("format not supported"))
        }
    }

    /// The headers every response of this format starts from.
    pub fn format_headers(format: &ResponseFormat) -> (r: Headers)
        ensures
            r.wf(),
            r@ == format_headers_spec(*format),
    {
        let mut headers = Headers::new();
        match format {
            ResponseFormat::Raw => {
                headers.insert(
                    String::from_str("Content-Type"),
                    String::from_str("application/vnd.ipld.raw"),
                );
                headers.insert(
                    String::from_str("X-Content-Type-Options"),
                    String::from_str("nosniff"),
                );
            },
            ResponseFormat::Car => {
                headers.insert(
                    String::from_str("Content-Type"),
                    String::from_str("application/vnd.ipld.car; version=1"),
                );
                headers.insert(
                    String::from_str("X-Content-Type-Options"),
                    String::from_str("nosniff"),
                );
            },
            ResponseFormat::HTML => {
                headers.insert(String::from_str("Content-Type"), String::from_str("text/html"));
            },
            ResponseFormat::FS => {
                headers.insert(
                    String::from_str("Content-Type"),
                    String::from_str("application/vnd.ipld.raw"),
                );
            },
        }
        headers
    }

    /// The base headers with the user-configured headers laid over them.
    pub fn add_user_headers(headers: &Headers, user_headers: &Headers) -> (r: Headers)
        requires
            headers.wf(),
            user_headers.wf(),
        ensures
            r.wf(),
            r@ == headers@.union_prefer_right(user_headers@),
    {
        let mut out = headers.duplicate();
        let pairs = user_headers.pairs();
        let n = pairs.len();
        let mut i: usize = 0;
        proof {
            assert(out@ =~= headers@.union_prefer_right(
                kv_map(crate::headers::pairs_view(pairs@).take(0)),
            ));
        }
        while i < n
            invariant
                n == pairs@.len(),
                i <= n,
                out.wf(),
                out@ == headers@.union_prefer_right(
                    kv_map(crate::headers::pairs_view(pairs@).take(i as int)),
                ),
            decreases n - i,
        {
            let ghost pv = crate::headers::pairs_view(pairs@);
            out.insert(pairs[i].0.clone(), pairs[i].1.clone());
            proof {
                assert(pv.take(i as int + 1).drop_last() =~= pv.take(i as int));
                assert(pv.take(i as int + 1).last() == pv[i as int]);
                assert(pv[i as int] == (pairs@[i as int].0@, pairs@[i as int].1@));
                assert(out@ =~= headers@.union_prefer_right(kv_map(pv.take(i as int + 1))));
            }
            i = i + 1;
        }
        proof {
            let pv = crate::headers::pairs_view(pairs@);
            assert(pv.take(n as int) =~= pv);
            assert(kv_map(pv) == user_headers@);
        }
        out
    }

    /// The headers with the content type guessed from the file name.
    pub fn add_content_type_headers(headers: &Headers, name: &str) -> (r: Headers)
        requires
            headers.wf(),
        ensures
            r.wf(),
            r@ == headers@.insert("Content-Type"@, mime_of(name@)),
    {
        let mut out = headers.duplicate();
        out.insert(String::from_str("Content-Type"), guess_mime(name));
        out
    }

    /// The file name a download should be saved under, and the headers
    /// carrying the disposition: an explicit `filename` parameter wins over
    /// the last segment of the content path and sets the disposition.
    pub fn add_content_disposition_headers(
        headers: &Headers,
        filename: &str,
        content_path: &str,
        download: bool,
    ) -> (r: (String, Headers))
        requires
            headers.wf(),
        ensures
            r.1.wf(),
            filename@.len() == 0 ==> r.0@ == last_segment(content_path@) && r.1@ == headers@,
            filename@.len() > 0 ==> r.0@ == filename@ && r.1@ == headers@.insert(
                "Content-Disposition"@,
                disposition_of(if download { "attachment"@ } else { "inline"@ }, filename@),
            ),
    {
        if filename.unicode_len() > 0 {
            let disposition = if download {
                "attachment"
            } else {
                "inline"
            };
            let name = filename.to_owned();
            let with_disposition = Handler::set_content_disposition_headers(
                headers,
                filename,
                disposition,
            );
            (name, with_disposition)
        } else {
            let name = crate::strutil::last_path_segment(content_path);
            (name, headers.duplicate())
        }
    }

    /// The headers with a content-disposition of the given kind and file
    /// name.
    pub fn set_content_disposition_headers(headers: &Headers, filename: &str, disposition: &str)
        -> (r: Headers)
        requires
            headers.wf(),
        ensures
            r.wf(),
            r@ == headers@.insert("Content-Disposition"@, disposition_of(disposition@, filename@)),
    {
        let mut out = headers.duplicate();
        let value = disposition.to_owned().concat("; filename=").concat(filename);
        out.insert(String::from_str("Content-Disposition"), value);
        out
    }

    /// The last non-empty segment of a content path.
    pub fn get_filename(content_path: &str) -> (r: String)
        ensures
            r@ == last_segment(content_path@),
    {
        crate::strutil::last_path_segment(content_path)
    }

    /// A successful response.
    pub fn response(status_code: u16, body: String, headers: Headers) -> (r: Result<
        GatewayResponse,
        GatewayError,
    >)
        requires
            headers.wf(),
        ensures
            r matches Ok(resp) && resp@ == (GatewayResponseV {
                status_code,
                body: body@,
                headers: headers@,
            }) && resp.wf(),
    {
        Ok(GatewayResponse { status_code, body, headers })
    }

    /// The response to a `/ipfs/<cid>[/<cpath>]` request: the requested
    /// content under the headers the format and query parameters call for,
    /// or a `400` error for an unknown format.
    pub fn get_ipfs(config: &Config, client: &Client, cid: &str, cpath: &str, params: GetParams)
        -> (r: Result<GatewayResponse, GatewayError>)
        requires
            config.wf(),
        ensures
            match r {
                Ok(resp) => resp.wf() && get_ipfs_spec(
                    config.headers@,
                    cid@,
                    cpath@,
                    param_view(params.format),
                    param_view(params.filename),
                    param_view(params.download) == "true"@,
                ) == Ok::<GatewayResponseV, GatewayErrorV>(resp@),
                Err(e) => get_ipfs_spec(
                    config.headers@,
                    cid@,
                    cpath@,
                    param_view(params.format),
                    param_view(params.filename),
                    param_view(params.download) == "true"@,
                ) == Err::<GatewayResponseV, GatewayErrorV>(e@),
            },
    {
        let full_content_path = String::from_str("/ipfs/").concat(cid).concat(cpath);
        let format_s = match &params.format {
            Some(s) => s.as_str(),
            None => "",
        };
        let format = match Handler::response_format(format_s) {
            Ok(f) => f,
            Err(error) => {
                return Handler::error(400, error.as_str());
            },
        };
        let filename_s = match &params.filename {
            Some(s) => s.as_str(),
            None => "",
        };
        let download_s = match &params.download {
            Some(s) => s.as_str(),
            None => "",
        };
        let download = str_eq(download_s, "true");

        let mut base = Handler::format_headers(&format);
        base.insert(String::from_str("X-Ipfs-Path"), full_content_path.clone());
        let headers = Handler::add_user_headers(&base, &config.headers);

        match format {
            ResponseFormat::Raw => {
                let body = match client.get_file(full_content_path.as_str()) {
                    Ok(b) => b,
                    Err(e) => {
                        return Handler::error(500, e.as_str());
                    },
                };
                let filename = cid.to_owned().concat(".bin");
                let with_disposition = Handler::set_content_disposition_headers(
                    &headers,
                    filename.as_str(),
                    "attachment",
                );
                Handler::response(200, body, with_disposition)
            },
            ResponseFormat::Car => {
                let body = match client.get_file(full_content_path.as_str()) {
                    Ok(b) => b,
                    Err(e) => {
                        return Handler::error(500, e.as_str());
                    },
                };
                let filename = cid.to_owned().concat(".car");
                let with_disposition = Handler::set_content_disposition_headers(
                    &headers,
                    filename.as_str(),
                    "attachment",
                );
                Handler::response(200, body, with_disposition)
            },
            ResponseFormat::HTML => {
                let body = String::from_str("<p>").concat(cid).concat("</p>");
                Handler::response(200, body, headers)
            },
            ResponseFormat::FS => {
                let body = match client.get_file(full_content_path.as_str()) {
                    Ok(b) => b,
                    Err(e) => {
                        return Handler::error(500, e.as_str());
                    },
                };
                let (name, with_disposition) = Handler::add_content_disposition_headers(
                    &headers,
                    filename_s,
                    cpath,
                    download,
                );
                let with_type = Handler::add_content_type_headers(
                    &with_disposition,
                    name.as_str(),
                );
                Handler::response(200, body, with_type)
            },
        }
    }

    /// An error response.
    pub fn error(status_code: u16, message: &str) -> (r: Result<GatewayResponse, GatewayError>)
        ensures
            r matches Err(e) && e@ == (GatewayErrorV { status_code, message: message@ }),
    {
        Err(GatewayError { status_code, message: message.to_owned() })
    }
}

} // verus!
