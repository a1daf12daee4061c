//! What holds of the handling of every request.

use vstd::prelude::*;
use crate::error::{AssemblyError, FetchError};
use crate::handler::{from_header, starts, to_header, Fetching, Step};
use crate::markdown::rendered_html;
use crate::media_type::{effective_media_type, media_type_is_valid, FALLBACK_MEDIA_TYPE};
use crate::message::deliverable;
use crate::part::{attachment_part, expected_parts, parts_of, PartView, Resolved};
use crate::request::{AttachmentSpec, EmailRequest, RequestView};
use crate::response::{assembly_failure, fetch_failure};
use crate::text::crlf;

verus! {

/// Rendering is a function of the source alone: two renderings of the same
/// source are the same fragment.
pub proof fn rendering_is_deterministic(
    first_source: Seq<char>,
    first_html: Seq<char>,
    second_source: Seq<char>,
    second_html: Seq<char>,
)
    requires
        first_html == rendered_html(first_source),
        second_html == rendered_html(second_source),
        first_source == second_source,
    ensures
        first_html == second_html,
{
}

/// A request that declares no attachments, whether the list is absent or
/// empty, is never asked to fetch. Where its address headers allow a
/// message, the message is offered for delivery and holds exactly one part,
/// the rendered body with mail line ends; where they do not, the handling
/// ends with the response to an invalid address.
pub proof fn without_attachments_one_part(request: EmailRequest, step: Step)
    requires
        request.attachments matches Some(list) ==> list@.len() == 0,
        starts(request@, step),
    ensures
        !(step is Fetch),
        deliverable(from_header(request@), to_header(request@)) ==> {
            &&& step matches Step::Deliver(delivering)
            &&& parts_of(delivering.email.parts@) == seq![
                (PartView::Html { html: crlf(rendered_html(request@.body)) }),
            ]
            &&& delivering.email.wf()
        },
        !deliverable(from_header(request@), to_header(request@)) ==> {
            &&& step matches Step::Respond(response)
            &&& response@ == assembly_failure(AssemblyError::InvalidAddress)
        },
{
    let html = rendered_html(request@.body);
    assert(expected_parts(html, Seq::<Resolved>::empty()) =~= seq![
        PartView::Html { html: crlf(html) },
    ]);
}

/// The first `contents.len()` declared attachments, each with the bytes that
/// came for it.
pub open spec fn paired(specs: Seq<AttachmentSpec>, contents: Seq<Vec<u8>>) -> Seq<Resolved> {
    Seq::new(
        contents.len(),
        |i: int|
            Resolved {
                filename: specs[i].filename,
                mime_type: specs[i].mime_type,
                bytes: contents[i]@,
            },
    )
}

/// The state at `i`, resumed with the bytes of its fetch, leads to the state
/// that comes next.
pub open spec fn fetch_succeeds(states: Seq<Fetching>, contents: Seq<Vec<u8>>, i: int) -> bool {
    states[i].resumes(Ok(contents[i]), Step::Fetch(states[i + 1]))
}

/// `states` are the states that the handling of `request` goes through while
/// the fetches succeed with `contents`, one after the other: the first state
/// is the one that taking up the request leads to, and each state resumed
/// with the bytes of its fetch leads to the next.
pub open spec fn fetch_run(
    request: RequestView,
    states: Seq<Fetching>,
    contents: Seq<Vec<u8>>,
) -> bool {
    &&& states.len() > 0
    &&& contents.len() + 1 >= states.len()
    &&& starts(request, Step::Fetch(states[0]))
    &&& forall|i: int| 0 <= i < states.len() - 1 ==> #[trigger] fetch_succeeds(states, contents, i)
}

/// After `k` fetches have succeeded, the machine holds the first `k` declared
/// attachments, in declared order, each with the bytes of its own fetch. It
/// still has the request and its rendered body, and waits for the declared
/// attachment that comes next.
pub proof fn fetches_keep_order(
    request: RequestView,
    states: Seq<Fetching>,
    contents: Seq<Vec<u8>>,
    k: int,
)
    requires
        fetch_run(request, states, contents),
        0 <= k < states.len(),
    ensures
        states[k].request() == request,
        states[k].html() == rendered_html(request.body),
        states[k].resolved() == paired(request.attachments, contents.take(k)),
        states[k].wf(),
        states[k].awaited() == request.attachments[k],
    decreases k,
{
    if k == 0 {
        assert(states[0].resolved() =~= paired(request.attachments, contents.take(0)));
    } else {
        fetches_keep_order(request, states, contents, k - 1);
        assert(fetch_succeeds(states, contents, k - 1));
        assert(states[k].resolved() =~= paired(request.attachments, contents.take(k)));
    }
}

/// Where all `n` declared attachments are fetched, each was asked for at its
/// declared address, in declared order. Where the address headers allow a
/// message, the message is then offered for delivery and holds `n + 1`
/// parts: the rendered body first, then one part for each attachment in
/// declared order, with the declared file name, the bytes that came for its
/// address, and the declared media type as lettre keeps it, or the fallback.
/// Where the headers do not allow a message, the handling ends with the
/// response to an invalid address.
pub proof fn all_fetched_all_attached(
    request: RequestView,
    states: Seq<Fetching>,
    contents: Seq<Vec<u8>>,
    last: Step,
)
    requires
        fetch_run(request, states, contents),
        states.len() == request.attachments.len(),
        contents.len() == request.attachments.len(),
        states.last().resumes(Ok(contents.last()), last),
    ensures
        forall|i: int|
            0 <= i < states.len() ==> (#[trigger] states[i]).awaited().url
                == request.attachments[i].url,
        !(last is Fetch),
        deliverable(from_header(request), to_header(request)) ==> {
            &&& last matches Step::Deliver(delivering)
            &&& delivering.email.wf()
            &&& parts_of(delivering.email.parts@).len() == request.attachments.len() + 1
            &&& parts_of(delivering.email.parts@)[0] == (PartView::Html {
                html: crlf(rendered_html(request.body)),
            })
            &&& forall|i: int|
                0 <= i < request.attachments.len() ==> #[trigger] parts_of(
                    delivering.email.parts@,
                )[i + 1] == (PartView::Attachment {
                    filename: request.attachments[i].filename,
                    media_type: effective_media_type(request.attachments[i].mime_type),
                    bytes: contents[i]@,
                })
        },
        !deliverable(from_header(request), to_header(request)) ==> {
            &&& last matches Step::Respond(response)
            &&& response@ == assembly_failure(AssemblyError::InvalidAddress)
        },
{
    let n = states.len() as int;
    fetches_keep_order(request, states, contents, n - 1);
    assert forall|i: int| 0 <= i < states.len() implies (#[trigger] states[i]).awaited().url
        == request.attachments[i].url by {
        fetches_keep_order(request, states, contents, i);
    }
    let resolved = states.last().resolved().push(states.last().arrival(contents.last()@));
    assert(resolved =~= paired(request.attachments, contents));
    if deliverable(from_header(request), to_header(request)) {
        let parts = parts_of(last->Deliver_0.email.parts@);
        assert(parts == expected_parts(rendered_html(request.body), resolved));
        assert forall|i: int| 0 <= i < request.attachments.len() implies #[trigger] parts[i + 1]
            == (PartView::Attachment {
            filename: request.attachments[i].filename,
            media_type: effective_media_type(request.attachments[i].mime_type),
            bytes: contents[i]@,
        }) by {
            assert(parts[i + 1] == attachment_part(resolved[i]));
        }
    }
}

/// A failed fetch ends the handling, whichever attachment it concerns: what
/// follows is the response that tells the cause. No other attachment is
/// asked for and no message is offered for delivery.
pub proof fn failed_fetch_ends_handling(state: Fetching, error: FetchError, step: Step)
    requires
        state.resumes(Err(error), step),
    ensures
        !(step is Fetch),
        !(step is Deliver),
        step matches Step::Respond(response) && response@ == fetch_failure(error.cause@),
{
}

/// An attachment whose declared media type does not parse still gets its
/// part, with its file name and bytes, under `application/octet-stream`.
pub proof fn unparsable_type_falls_back(html: Seq<char>, attachments: Seq<Resolved>, i: int)
    requires
        0 <= i < attachments.len(),
        !media_type_is_valid(attachments[i].mime_type),
    ensures
        expected_parts(html, attachments).len() == attachments.len() + 1,
        expected_parts(html, attachments)[i + 1] == (PartView::Attachment {
            filename: attachments[i].filename,
            media_type: FALLBACK_MEDIA_TYPE@,
            bytes: attachments[i].bytes,
        }),
{
}

} // verus!
