use vstd::prelude::*;

verus! {

/// What a handler decides to send, before any byte goes out: either the
/// head of a streaming reply (the body is the file's bytes, delivered by
/// the process edge), or a complete text reply.
#[derive(Debug)]
pub enum Reply {
    Stream { status: u16, content_type: String, content_disposition: String },
    Text { status: u16, body: String },
}

/// The body of the sole error reply: the underlying error's description,
/// prefixed for diagnostics.
pub open spec fn spec_error_body(err: Seq<char>) -> Seq<char> {
    "File not found: "@ + err
}

/// A successful stream head: status 200 and the two fixed header values.
pub open spec fn spec_stream_ok_reply(r: Reply) -> bool {
    &&& r matches Reply::Stream { status, content_type, content_disposition }
    &&& status == 200
    &&& content_type@ == "binary/hints"@
    &&& content_disposition@ == "file"@
}

/// The error reply for an open failure with description `err`: status 404
/// and a non-empty diagnostic text body.
pub open spec fn spec_stream_err_reply(r: Reply, err: Seq<char>) -> bool {
    &&& r matches Reply::Text { status, body }
    &&& status == 404
    &&& body@ == spec_error_body(err)
    &&& body@.len() > 0
}

/// Terminal step of the per-request state machine: the outcome of opening
/// the hint file decides the reply. Success streams with the two fixed
/// headers; every open failure — missing file, permission, any I/O error —
/// collapses to the one 404 reply carrying the error's text.
pub fn stream_hints_reply(opened: Result<(), String>) -> (r: Reply)
    ensures
        opened matches Ok(_) ==> spec_stream_ok_reply(r),
        opened matches Err(e) ==> spec_stream_err_reply(r, e@),
{
    match opened {
        Ok(_) => Reply::Stream {
            status: 200,
            content_type: String::from_str("binary/hints"),
            content_disposition: String::from_str("file"),
        },
        Err(err) => {
            proof {
                reveal_strlit("File not found: ");
            }
            let mut body = String::from_str("File not found: ");
            body.append(err.as_str());
            Reply::Text { status: 404, body }
        }
    }
}

/// The informational reply for the root route: status 200 and a fixed,
/// non-empty human-readable body. It takes no input, so it cannot depend
/// on whether any hint file exists.
pub fn root_reply() -> (r: Reply)
    ensures
        (r matches Reply::Text { status, body } && status == 200
            && body@ == "SwiftSync hints assistant."@ && body@.len() > 0),
{
    proof {
        reveal_strlit("SwiftSync hints assistant.");
    }
    Reply::Text { status: 200, body: String::from_str("SwiftSync hints assistant.") }
}

} // verus!
