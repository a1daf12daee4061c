//! The handling of one request as a state machine.
//!
//! A request passes through six stages: received, rendering, fetching
//! attachments, assembling, delivering, responded. They follow each other
//! strictly in this order, except that any failure leads straight to the
//! response. Rendering and assembling need nothing from outside, so the
//! machine rests in three places only, each with a type of its own:
//! [`Fetching`], [`Delivering`] and the final [`Response`].
//!
//! [`start`] takes a request that was received and renders it. The
//! attachments are then asked for one at a time, in declared order; when the
//! last one has come, the message is assembled and offered for delivery; the
//! delivery's outcome gives the response.
//!
//! The machine does no I/O: each [`Step`] tells the caller what to do, and the
//! caller hands the outcome back.

use vstd::prelude::*;
use crate::address::header_text;
use crate::error::{AssemblyError, FetchError, TransportError};
use crate::markdown::{render, rendered_html};
use crate::message::{assemble, assembles, deliverable, AssembledEmail};
use crate::part::{resolved_of, Resolved, ResolvedAttachment};
use crate::request::{AttachmentSpec, EmailRequest, RequestView};
use crate::response::{
    assembly_failure, fetch_failure, send_failure, success, Response, ResponseView,
};

verus! {

/// A request that waits for an attachment.
pub struct Fetching {
    request: EmailRequest,
    html: String,
    resolved: Vec<ResolvedAttachment>,
}

/// A request whose message waits to be delivered.
pub struct Delivering {
    pub email: AssembledEmail,
}

/// What the caller has to do next.
pub enum Step {
    /// Fetch the bytes at [`Fetching::url`] and call [`Fetching::resume`].
    Fetch(Fetching),
    /// Hand the message to the transport and call [`Delivering::finish`].
    Deliver(Delivering),
    /// Answer the request; nothing else is left to do.
    Respond(Response),
}

/// The `From` header of a request.
pub open spec fn from_header(request: RequestView) -> Seq<char> {
    header_text(request.sender_name, request.sender_email)
}

/// The `To` header of a request.
pub open spec fn to_header(request: RequestView) -> Seq<char> {
    header_text(request.recipient_name, request.recipient_email)
}

/// The step that ends the fetching of a request with the rendered body `html`
/// and the attachments `resolved`: the delivery of the message assembled from
/// them, or, where the addresses do not allow one, the response that says so.
/// No further fetch follows.
pub open spec fn concludes(
    step: Step,
    request: RequestView,
    html: Seq<char>,
    resolved: Seq<Resolved>,
) -> bool {
    if deliverable(from_header(request), to_header(request)) {
        step matches Step::Deliver(delivering) && assembles(
            Ok(delivering.email),
            from_header(request),
            to_header(request),
            request.subject,
            html,
            resolved,
        )
    } else {
        step matches Step::Respond(response) && response@ == assembly_failure(
            AssemblyError::InvalidAddress,
        )
    }
}

/// Assembles the message and says what follows.
fn conclude(request: &EmailRequest, html: &str, resolved: &Vec<ResolvedAttachment>) -> (step: Step)
    ensures
        concludes(step, request@, html@, resolved_of(resolved@)),
{
    let assembled = assemble(
        request.sender_name.as_str(),
        request.sender_email.as_str(),
        request.recipient_name.as_str(),
        request.recipient_email.as_str(),
        request.subject.as_str(),
        html,
        resolved,
    );
    match assembled {
        Ok(email) => Step::Deliver(Delivering { email }),
        Err(error) => Step::Respond(Response::assembly_failed(error)),
    }
}

/// What taking up `request` leads to: the fetch of the first attachment
/// with the body rendered, or, where none is declared, the end of fetching.
pub open spec fn starts(request: RequestView, step: Step) -> bool {
    if request.attachments.len() > 0 {
        step matches Step::Fetch(fetching) && fetching.begins(request)
    } else {
        concludes(step, request, rendered_html(request.body), Seq::<Resolved>::empty())
    }
}

/// Takes up a request: renders its body and asks for the first attachment,
/// or, where none is declared, goes on to assemble the message.
pub fn start(request: EmailRequest) -> (step: Step)
    ensures
        starts(request@, step),
{
    let html = render(request.body.as_str());
    let resolved: Vec<ResolvedAttachment> = Vec::new();
    assert(resolved_of(resolved@) =~= Seq::<Resolved>::empty());
    if request.attachment_count() > 0 {
        Step::Fetch(Fetching { request, html, resolved })
    } else {
        conclude(&request, html.as_str(), &resolved)
    }
}

impl Fetching {
    #[verifier::type_invariant]
    spec fn pending(self) -> bool {
        self.resolved@.len() < self.request@.attachments.len()
    }

    /// The request being handled.
    pub closed spec fn request(self) -> RequestView {
        self.request@
    }

    /// The rendered body of the request.
    pub closed spec fn html(self) -> Seq<char> {
        self.html@
    }

    /// The attachments fetched so far, in declared order.
    pub closed spec fn resolved(self) -> Seq<Resolved> {
        resolved_of(self.resolved@)
    }

    /// At least one declared attachment is still to be fetched. This holds of
    /// every `Fetching` that the machine hands out.
    pub open spec fn wf(self) -> bool {
        self.resolved().len() < self.request().attachments.len()
    }

    /// The attachment that is waited for: the first one not yet fetched.
    pub open spec fn awaited(self) -> AttachmentSpec {
        self.request().attachments[self.resolved().len() as int]
    }

    /// The attachment that is waited for, with the bytes that came for it.
    pub open spec fn arrival(self, bytes: Seq<u8>) -> Resolved {
        Resolved {
            filename: self.awaited().filename,
            mime_type: self.awaited().mime_type,
            bytes,
        }
    }

    /// `self` is the state in which the handling of `request` begins to
    /// fetch: the body is rendered and nothing has been fetched yet.
    pub open spec fn begins(self, request: RequestView) -> bool {
        &&& self.request() == request
        &&& self.html() == rendered_html(request.body)
        &&& self.resolved() == Seq::<Resolved>::empty()
    }

    /// `after` is the state that follows `self` once `bytes` have come for
    /// the awaited attachment.
    pub open spec fn leads_to(self, bytes: Seq<u8>, after: Fetching) -> bool {
        &&& after.request() == self.request()
        &&& after.html() == self.html()
        &&& after.resolved() == self.resolved().push(self.arrival(bytes))
    }

    /// The address to fetch next.
    pub fn url(&self) -> (url: &str)
        ensures
            self.wf(),
            url@ == self.awaited().url,
    {
        proof {
            use_type_invariant(self);
        }
        self.request.attachment(self.resolved.len()).url.as_str()
    }

    /// What the outcome of the awaited fetch leads to.
    ///
    /// A failure ends the handling: the response tells its cause, nothing
    /// more is fetched and no message is assembled. Bytes are kept for the
    /// awaited attachment; the next attachment is then asked for, or, after
    /// the last one, fetching ends.
    pub open spec fn resumes(self, outcome: Result<Vec<u8>, FetchError>, step: Step) -> bool {
        match outcome {
            Err(error) => step matches Step::Respond(response) && response@ == fetch_failure(
                error.cause@,
            ),
            Ok(bytes) => {
                let resolved = self.resolved().push(self.arrival(bytes@));
                if resolved.len() < self.request().attachments.len() {
                    step matches Step::Fetch(next) && self.leads_to(bytes@, next)
                } else {
                    concludes(step, self.request(), self.html(), resolved)
                }
            },
        }
    }

    /// Takes the outcome of the fetch that was asked for.
    pub fn resume(self, outcome: Result<Vec<u8>, FetchError>) -> (step: Step)
        ensures
            self.wf(),
            self.resumes(outcome, step),
    {
        proof {
            use_type_invariant(&self);
        }
        match outcome {
            Err(error) => Step::Respond(Response::fetch_failed(error)),
            Ok(bytes) => {
                let Fetching { request, html, mut resolved } = self;
                let declared = request.attachment(resolved.len());
                let arrived = ResolvedAttachment {
                    filename: declared.filename.clone(),
                    mime_type: declared.mime_type.clone(),
                    bytes,
                };
                let ghost before = resolved@;
                resolved.push(arrived);
                assert(resolved_of(resolved@) =~= resolved_of(before).push(arrived@));
                if resolved.len() < request.attachment_count() {
                    Step::Fetch(Fetching { request, html, resolved })
                } else {
                    conclude(&request, html.as_str(), &resolved)
                }
            },
        }
    }
}

/// The response to the outcome of a delivery.
pub open spec fn delivery_response(outcome: Result<(), TransportError>) -> ResponseView {
    match outcome {
        Ok(_) => success(),
        Err(error) => send_failure(error.cause@),
    }
}

impl Delivering {
    /// Takes the outcome of the delivery and gives the response.
    pub fn finish(self, outcome: Result<(), TransportError>) -> (response: Response)
        ensures
            response@ == delivery_response(outcome),
    {
        match outcome {
            Ok(_) => Response::sent(),
            Err(error) => Response::send_failed(error),
        }
    }
}

} // verus!
