//! Where traces are exported to.
use vstd::prelude::*;
use crate::outside;
use crate::outside::{UriParts, UriView};
use crate::settings;
use crate::text;

verus! {

/// What is wrong with the endpoint that traces are to be exported to.
#[derive(Debug)]
pub enum EndpointFault {
    /// It is no URI, with the text of the error.
    NotAUri(String),
    /// It is a URI, but none of HTTP with an authority.
    NotHttp,
}

/// What is wrong with the endpoint that traces are to be exported to.
pub ghost enum FaultView {
    NotAUri(Seq<char>),
    NotHttp,
}

impl View for EndpointFault {
    type V = FaultView;

    open spec fn view(&self) -> FaultView {
        match self {
            EndpointFault::NotAUri(error) => FaultView::NotAUri(error@),
            EndpointFault::NotHttp => FaultView::NotHttp,
        }
    }
}

/// What an operator is told of a fault.
pub open spec fn fault_message(fault: FaultView) -> Seq<char> {
    match fault {
        FaultView::NotAUri(_) => "OTEL_EXPORTER_OTLP_ENDPOINT is not a valid URI"@,
        FaultView::NotHttp => {
            "OTEL_EXPORTER_OTLP_ENDPOINT must be an http(s) OTLP/gRPC endpoint"@
        },
    }
}

impl EndpointFault {
    /// What an operator is told of the fault.
    pub fn message(&self) -> (r: &'static str)
        ensures
            r@ == fault_message(self@),
    {
        match self {
            EndpointFault::NotAUri(_) => "OTEL_EXPORTER_OTLP_ENDPOINT is not a valid URI",
            EndpointFault::NotHttp => {
                "OTEL_EXPORTER_OTLP_ENDPOINT must be an http(s) OTLP/gRPC endpoint"
            },
        }
    }
}

/// What keeps traces from being exported to a URI: its scheme must be that of
/// HTTP or HTTPS, and it must have an authority.
pub open spec fn endpoint_fault(uri: Result<UriView, Seq<char>>) -> Option<FaultView> {
    match uri {
        Err(error) => Some(FaultView::NotAUri(error)),
        Ok(parts) => if (parts.scheme == Some("http"@) || parts.scheme == Some("https"@))
            && parts.has_authority {
            None
        } else {
            Some(FaultView::NotHttp)
        },
    }
}

/// The meaning of an optional fault.
pub open spec fn opt_fault(r: Option<EndpointFault>) -> Option<FaultView> {
    match r {
        Some(fault) => Some(fault@),
        None => None,
    }
}

/// What keeps traces from being exported to a parsed URI.
pub fn judge_endpoint(uri: Result<UriParts, String>) -> (r: Option<EndpointFault>)
    ensures
        opt_fault(r) == endpoint_fault(outside::uri_view(uri)),
{
    match uri {
        Err(error) => Some(EndpointFault::NotAUri(error)),
        Ok(parts) => {
            let web = match &parts.scheme {
                Some(scheme) => text::text_eq(scheme.as_str(), "http") || text::text_eq(
                    scheme.as_str(),
                    "https",
                ),
                None => false,
            };
            if web && parts.has_authority {
                None
            } else {
                Some(EndpointFault::NotHttp)
            }
        },
    }
}

/// Checks an endpoint that traces are to be exported to.
pub fn check_export_endpoint(endpoint: &str) -> (r: Result<(), EndpointFault>)
    ensures
        match r {
            Ok(_) => endpoint_fault(outside::uri_of(endpoint@)) is None,
            Err(fault) => endpoint_fault(outside::uri_of(endpoint@)) == Some(fault@),
        },
{
    match judge_endpoint(outside::parse_uri(endpoint)) {
        Some(fault) => Err(fault),
        None => Ok(()),
    }
}

/// The endpoint that traces are exported to: none where the setting is blank.
pub fn export_endpoint(setting: Option<&str>) -> (r: Result<Option<String>, EndpointFault>)
    ensures
        match settings::solid_setting(text::opt_str_view(setting)) {
            None => r matches Ok(None),
            Some(endpoint) => match endpoint_fault(outside::uri_of(endpoint)) {
                Some(fault) => r matches Err(found) && found@ == fault,
                None => r matches Ok(Some(found)) && found@ == endpoint,
            },
        },
{
    match settings::env_solid(setting) {
        None => Ok(None),
        Some(endpoint) => match check_export_endpoint(endpoint.as_str()) {
            Ok(_) => Ok(Some(endpoint)),
            Err(fault) => Err(fault),
        },
    }
}

} // verus!
