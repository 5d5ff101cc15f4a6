//! Requests and responses of the sync protocol, to and from their messages.

use vstd::prelude::*;
use crate::certificate::{
    decode_synced_value, decode_synced_value_spec, encode_certificate_panics, encode_synced_value,
    encode_synced_value_spec,
};
use crate::error::{
    missing, missing_field, other, other_error, result_deep_view, result_view, ProtoError,
    ProtoErrorView,
};
use crate::proto;
use crate::types::{Height, Request, Response, ResponseView, ValueRequest, ValueResponse, ValueResponseView};

verus! {

/// The request read from its message: a value request is read, a vote-set request is
/// refused.
pub open spec fn decode_sync_request_spec<R>(p: proto::SyncRequest<R>) -> Result<Request, ProtoErrorView> {
    match p.request {
        None => Err(missing("SyncRequest", "request")),
        Some(proto::SyncRequestBody::ValueRequest(v)) => Ok(
            Request::ValueRequest(ValueRequest { height: Height(v.height) }),
        ),
        Some(proto::SyncRequestBody::VoteSetRequest(_)) => Err(other("VoteSetRequest not supported")),
    }
}

/// The message of a request.
pub open spec fn encode_sync_request_spec<R>(request: Request) -> proto::SyncRequest<R> {
    match request {
        Request::ValueRequest(v) => proto::SyncRequest {
            request: Some(proto::SyncRequestBody::ValueRequest(proto::ValueRequest { height: v.height.0 })),
        },
    }
}

/// Reads a sync request from its message.
///
/// The message must hold a request; a value request gives the request for its height,
/// a vote-set request is not supported.
pub fn decode_sync_request<R>(proto_request: proto::SyncRequest<R>) -> (r: Result<Request, ProtoError>)
    ensures
        result_view(r) == decode_sync_request_spec(proto_request),
{
    let request = match proto_request.request {
        None => return Err(missing_field("SyncRequest", "request")),
        Some(request) => request,
    };
    match request {
        proto::SyncRequestBody::ValueRequest(value_request) => Ok(
            Request::ValueRequest(ValueRequest { height: Height::new(value_request.height) }),
        ),
        proto::SyncRequestBody::VoteSetRequest(_) => Err(other_error("VoteSetRequest not supported")),
    }
}

/// Writes a sync request into its message; this always succeeds.
pub fn encode_sync_request<R>(request: &Request) -> (r: Result<proto::SyncRequest<R>, ProtoError>)
    ensures
        r == Ok::<proto::SyncRequest<R>, ProtoError>(encode_sync_request_spec(*request)),
{
    let proto_request = match request {
        Request::ValueRequest(value_request) => proto::SyncRequest {
            request: Some(
                proto::SyncRequestBody::ValueRequest(
                    proto::ValueRequest { height: value_request.height.as_u64() },
                ),
            ),
        },
    };
    Ok(proto_request)
}

/// The response read from its message: a value response is read with its value, if any;
/// a vote-set response is refused.
pub open spec fn decode_sync_response_spec<I, A, R>(
    p: proto::SyncResponseView<Result<I, ProtoError>, Result<A, ProtoError>, R>,
) -> Result<ResponseView<I, A>, ProtoErrorView> {
    match p.response {
        None => Err(missing("SyncResponse", "response")),
        Some(proto::SyncResponseBodyView::ValueResponse(v)) => match v.value {
            None => Ok(ResponseView::ValueResponse(ValueResponseView { height: Height(v.height), value: None })),
            Some(s) => match decode_synced_value_spec(s) {
                Err(e) => Err(e),
                Ok(d) => Ok(
                    ResponseView::ValueResponse(ValueResponseView { height: Height(v.height), value: Some(d) }),
                ),
            },
        },
        Some(proto::SyncResponseBodyView::VoteSetResponse(_)) => Err(other("VoteSetResponse not supported")),
    }
}

/// Writing a response stops where writing its value's certificate does.
pub open spec fn encode_sync_response_panics<I, A>(
    response: ResponseView<Result<I, ProtoError>, Result<A, ProtoError>>,
) -> bool {
    match response {
        ResponseView::ValueResponse(v) => match v.value {
            Some(d) => encode_certificate_panics(d.certificate),
            None => false,
        },
    }
}

/// The message of a response.
pub open spec fn encode_sync_response_spec<I, A, R>(
    response: ResponseView<Result<I, ProtoError>, Result<A, ProtoError>>,
) -> Result<proto::SyncResponseView<I, A, R>, ProtoErrorView> {
    match response {
        ResponseView::ValueResponse(v) => match v.value {
            None => Ok(
                proto::SyncResponseView {
                    response: Some(
                        proto::SyncResponseBodyView::ValueResponse(
                            proto::ValueResponseView { height: v.height.0, value: None },
                        ),
                    ),
                },
            ),
            Some(d) => match encode_synced_value_spec(d) {
                Err(e) => Err(e),
                Ok(s) => Ok(
                    proto::SyncResponseView {
                        response: Some(
                            proto::SyncResponseBodyView::ValueResponse(
                                proto::ValueResponseView { height: v.height.0, value: Some(s) },
                            ),
                        ),
                    },
                ),
            },
        },
    }
}

/// Reads a sync response from its message.
///
/// The message must hold a response; a value response gives the response for its height
/// with its decided value, which must read if present; a vote-set response is not
/// supported.
pub fn decode_sync_response<I, A, R>(
    proto_response: proto::SyncResponse<Result<I, ProtoError>, Result<A, ProtoError>, R>,
) -> (r: Result<Response<I, A>, ProtoError>)
    ensures
        result_deep_view(r) == decode_sync_response_spec(proto_response@),
{
    let response = match proto_response.response {
        None => return Err(missing_field("SyncResponse", "response")),
        Some(response) => response,
    };
    match response {
        proto::SyncResponseBody::ValueResponse(value_response) => {
            let value = match value_response.value {
                None => None,
                Some(v) => match decode_synced_value(v) {
                    Err(e) => return Err(e),
                    Ok(d) => Some(d),
                },
            };
            Ok(Response::ValueResponse(ValueResponse { height: Height::new(value_response.height), value }))
        },
        proto::SyncResponseBody::VoteSetResponse(_) => Err(other_error("VoteSetResponse not supported")),
    }
}

/// Writes a sync response into its message.
///
/// The value id and the validator addresses of the value's certificate, if there is a
/// value, arrive as the results of their own conversions; the first that failed gives
/// the error.
pub fn encode_sync_response<I, A, R>(
    response: Response<Result<I, ProtoError>, Result<A, ProtoError>>,
) -> (r: Result<proto::SyncResponse<I, A, R>, ProtoError>)
    requires
        !encode_sync_response_panics(response@),
    ensures
        result_deep_view(r) == encode_sync_response_spec::<I, A, R>(response@),
{
    let proto = match response {
        Response::ValueResponse(value_response) => {
            let value = match value_response.value {
                None => None,
                Some(d) => match encode_synced_value(d) {
                    Err(e) => return Err(e),
                    Ok(s) => Some(s),
                },
            };
            proto::SyncResponse {
                response: Some(
                    proto::SyncResponseBody::ValueResponse(
                        proto::ValueResponse { height: value_response.height.as_u64(), value },
                    ),
                ),
            }
        },
    };
    Ok(proto)
}

} // verus!
