//! The page on which an operator enters a network, as far as it is words:
//! what is served and what is answered.

use crate::text::{push_str, string_of};
use vstd::prelude::*;

verus! {

/// The network that an operator entered.
#[derive(Debug, Clone, PartialEq, Eq)]
pub struct WifiConfig {
    pub ssid: String,
    pub password: String,
}

/// The answer to a request of a program.
#[derive(Debug, Clone, PartialEq, Eq)]
pub struct ApiResponse {
    pub success: bool,
    pub message: String,
}

/// The server of the page.
#[derive(Debug, Clone, Copy, PartialEq, Eq)]
pub struct WebServer;

impl WebServer {
    /// The page that is served when no page is installed.
    pub open spec fn fallback_page() -> Seq<char> {
        "<!DOCTYPE html>\n<html><head><title>WiFi Config</title></head>\n<body>\n<h1>WiFi Configuration</h1>\n<form action=\"/configure\" method=\"POST\">\n<label>SSID: <input type=\"text\" name=\"ssid\" required></label><br><br>\n<label>Password: <input type=\"password\" name=\"password\" required></label><br><br>\n<button type=\"submit\">Configure</button>\n</form>\n</body></html>"@
    }

    /// What is answered when a network was entered: that it is configured,
    /// or why it is not.
    pub open spec fn configured(ssid: Seq<char>, failure: Option<Seq<char>>) -> (bool, Seq<char>) {
        match failure {
            None => (true, "WiFi network '"@ + ssid + "' configured successfully"@),
            Some(reason) => (false, "Failed to configure WiFi: "@ + reason),
        }
    }

    pub fn new() -> (r: Self) {
        Self
    }

    /// The port that the page is served on when the daemon brings it up.
    pub fn default_port() -> (r: u16)
        ensures
            r == 8080,
    {
        8080
    }

    /// The page: the installed one, if it could be read, or a plain form.
    pub fn serve_config_page(installed: Option<String>) -> (r: String)
        ensures
            r@ == match installed {
                Some(page) => page@,
                None => WebServer::fallback_page(),
            },
    {
        match installed {
            Some(page) => page,
            None => {
                "<!DOCTYPE html>\n<html><head><title>WiFi Config</title></head>\n<body>\n<h1>WiFi Configuration</h1>\n<form action=\"/configure\" method=\"POST\">\n<label>SSID: <input type=\"text\" name=\"ssid\" required></label><br><br>\n<label>Password: <input type=\"password\" name=\"password\" required></label><br><br>\n<button type=\"submit\">Configure</button>\n</form>\n</body></html>".to_owned()
            },
        }
    }

    /// The answer to a program that entered a network; `failure` is why the
    /// network could not be configured, if it could not.
    pub fn api_configure_wifi(config: &WifiConfig, failure: Option<&str>) -> (r: ApiResponse)
        ensures
            (r.success, r.message@) == WebServer::configured(
                config.ssid@,
                match failure {
                    Some(reason) => Some(reason@),
                    None => None,
                },
            ),
    {
        let mut out: Vec<char> = Vec::new();
        match failure {
            None => {
                push_str(&mut out, "WiFi network '");
                push_str(&mut out, config.ssid.as_str());
                push_str(&mut out, "' configured successfully");
                assert(out@ =~= "WiFi network '"@ + config.ssid@ + "' configured successfully"@);
                ApiResponse { success: true, message: string_of(out.as_slice()) }
            },
            Some(reason) => {
                push_str(&mut out, "Failed to configure WiFi: ");
                push_str(&mut out, reason);
                ApiResponse { success: false, message: string_of(out.as_slice()) }
            },
        }
    }

    /// The answer to a program that asks whether the server runs.
    pub fn api_status() -> (r: ApiResponse)
        ensures
            r.success,
            r.message@ == "WiFi configuration server is running"@,
    {
        ApiResponse { success: true, message: "WiFi configuration server is running".to_owned() }
    }
}

} // verus!
