//! What holds of every ticket and of every request, whatever happens to it.

use crate::calendar::date_text;
use crate::error::TicketError;
use crate::json::object_encoding;
use crate::logo::LogoSize;
use crate::pipeline::{
    abandon, beginning, failure_reply, logo_file_name, transition, ActionView, EnvelopeView,
    EventView, PipelineView, StageView,
};
use crate::ticket::{
    composition, framed, rendering, status_bytes, ticket_content, token_document, token_outcome,
    Ticket, TicketStatus, TicketView,
};
use crate::token::{gateway_address, token_file_name, token_members};
use vstd::bytes::{
    lemma_auto_spec_u64_to_from_le_bytes, spec_u64_from_le_bytes, spec_u64_to_le_bytes,
};
use vstd::multiset::Multiset;
use vstd::prelude::*;
use vstd::seq_lib::{to_multiset_build, to_multiset_remove};
use vstd::utf8::{encode_utf8, encode_utf8_decode_utf8};

verus! {

/// Where a request stands after `events` have been reported one after the
/// other, and the actions it has given out on the way, the first for the
/// first event.
pub open spec fn run(pipeline: PipelineView, events: Seq<EventView>) -> (
    PipelineView,
    Seq<ActionView>,
)
    decreases events.len(),
{
    if events.len() == 0 {
        (pipeline, Seq::empty())
    } else {
        let (next, action) = transition(pipeline, events.first());
        let (last, actions) = run(next, events.drop_first());
        (last, seq![action] + actions)
    }
}

/// The local files that a request in this stage has had written and has not
/// yet had removed. A file counts from the action that writes it to the
/// action that removes it.
pub open spec fn local_files(stage: StageView) -> Seq<Seq<char>> {
    match stage {
        StageView::FetchingHome => seq![],
        StageView::StoringHome { home_file, .. } => seq![home_file],
        StageView::FetchingGuest { home_file, .. } => seq![home_file],
        StageView::StoringGuest { home_file, guest_file, .. } => seq![home_file, guest_file],
        StageView::Drawing { home_file, guest_file, image_file } => seq![
            home_file,
            guest_file,
            image_file,
        ],
        StageView::RemovingHomeLogo { guest_file, image_file } => seq![guest_file, image_file],
        StageView::RemovingGuestLogo { image_file } => seq![image_file],
        StageView::PublishingImage { image_file } => seq![image_file],
        StageView::RemovingImage { .. } => seq![],
        StageView::StoringToken { token_file } => seq![token_file],
        StageView::PublishingToken { token_file } => seq![token_file],
        StageView::RemovingToken { .. } => seq![],
        StageView::Failing { leftover, .. } => leftover,
        StageView::Finished { .. } => seq![],
    }
}

/// The file that an action has written, if it has one written.
pub open spec fn written(action: ActionView) -> Multiset<Seq<char>> {
    match action {
        ActionView::WriteFile { name, .. } => Multiset::singleton(name),
        ActionView::Draw { image, .. } => Multiset::singleton(image.file_name),
        _ => Multiset::empty(),
    }
}

/// The file that an action has removed, if it has one removed.
pub open spec fn removed(action: ActionView) -> Multiset<Seq<char>> {
    match action {
        ActionView::RemoveFile { name } => Multiset::singleton(name),
        _ => Multiset::empty(),
    }
}

/// The files that these actions have written, each as often as it is written.
pub open spec fn all_written(actions: Seq<ActionView>) -> Multiset<Seq<char>>
    decreases actions.len(),
{
    if actions.len() == 0 {
        Multiset::empty()
    } else {
        written(actions.first()).add(all_written(actions.drop_first()))
    }
}

/// The files that these actions have removed, each as often as it is
/// removed.
pub open spec fn all_removed(actions: Seq<ActionView>) -> Multiset<Seq<char>>
    decreases actions.len(),
{
    if actions.len() == 0 {
        Multiset::empty()
    } else {
        removed(actions.first()).add(all_removed(actions.drop_first()))
    }
}

/// Whether an action does no more than wind a failed request down: it
/// removes a file, or answers with the failure.
pub open spec fn winds_down(action: ActionView, error: TicketError) -> bool {
    action is RemoveFile || action == ActionView::Respond(failure_reply(error))
}

/// Whether a request has failed with `error` and is being wound down, or has
/// been answered with that failure.
pub open spec fn has_failed(stage: StageView, error: TicketError) -> bool {
    match stage {
        StageView::Failing { error: cause, .. } => cause == error,
        StageView::Finished { reply } => reply == failure_reply(error),
        _ => false,
    }
}

proof fn lemma_small_multisets(first: Seq<char>, second: Seq<char>, third: Seq<char>)
    ensures
        Seq::<Seq<char>>::empty().to_multiset() == Multiset::<Seq<char>>::empty(),
        seq![first].to_multiset() == Multiset::<Seq<char>>::empty().insert(first),
        seq![first, second].to_multiset() == Multiset::<Seq<char>>::empty().insert(first).insert(
            second,
        ),
        seq![first, second, third].to_multiset() == Multiset::<Seq<char>>::empty().insert(
            first,
        ).insert(second).insert(third),
{
    let none = Seq::<Seq<char>>::empty();
    none.to_multiset_ensures();
    assert(none.to_multiset() =~= Multiset::<Seq<char>>::empty());
    to_multiset_build(none, first);
    assert(seq![first] =~= none.push(first));
    to_multiset_build(seq![first], second);
    assert(seq![first, second] =~= seq![first].push(second));
    to_multiset_build(seq![first, second], third);
    assert(seq![first, second, third] =~= seq![first, second].push(third));
}

proof fn lemma_abandon_accounts_for_files(
    ticket: TicketView,
    error: TicketError,
    leftover: Seq<Seq<char>>,
)
    ensures
        ({
            let (next, action) = abandon(ticket, error, leftover);
            &&& local_files(next.stage).to_multiset().add(removed(action))
                =~= leftover.to_multiset()
            &&& written(action) == Multiset::<Seq<char>>::empty()
            &&& winds_down(action, error)
            &&& has_failed(next.stage, error)
        }),
{
    lemma_small_multisets(seq![], seq![], seq![]);
    if leftover.len() > 0 {
        leftover.to_multiset_ensures();
        to_multiset_remove(leftover, 0);
        assert(leftover.remove(0) =~= leftover.drop_first());
        assert(leftover.contains(leftover[0]));
        assert(leftover.to_multiset().count(leftover[0]) > 0);
    } else {
        assert(leftover =~= Seq::<Seq<char>>::empty());
    }
}

/// Every step keeps the books on local files: the files held after it,
/// with the one it has removed, are the files held before it, with the one
/// it has written.
pub proof fn lemma_step_accounts_for_files(pipeline: PipelineView, event: EventView)
    ensures
        ({
            let (next, action) = transition(pipeline, event);
            local_files(next.stage).to_multiset().add(removed(action)) =~= local_files(
                pipeline.stage,
            ).to_multiset().add(written(action))
        }),
{
    let ticket = pipeline.ticket;
    let (next, action) = transition(pipeline, event);
    let none = Seq::<char>::empty();
    match pipeline.stage {
        StageView::FetchingHome => {
            lemma_abandon_accounts_for_files(ticket, TicketError::Fetch, seq![]);
            if let EventView::Downloaded(bytes) = event {
                lemma_small_multisets(next.stage->StoringHome_home_file, none, none);
            }
        },
        StageView::StoringHome { home_logo, home_file } => {
            lemma_abandon_accounts_for_files(ticket, TicketError::Fetch, seq![home_file]);
        },
        StageView::FetchingGuest { home_logo, home_file } => {
            lemma_abandon_accounts_for_files(ticket, TicketError::Fetch, seq![home_file]);
            if let EventView::Downloaded(bytes) = event {
                lemma_small_multisets(home_file, next.stage->StoringGuest_guest_file, none);
            }
        },
        StageView::StoringGuest { home_logo, home_file, guest_logo, guest_file } => {
            lemma_abandon_accounts_for_files(ticket, TicketError::Fetch, seq![home_file, guest_file]);
            match rendering(ticket, home_logo, guest_logo) {
                Ok(image) => {
                    lemma_small_multisets(home_file, guest_file, image.file_name);
                },
                Err(error) => {
                    lemma_abandon_accounts_for_files(ticket, error, seq![home_file, guest_file]);
                },
            }
        },
        StageView::Drawing { home_file, guest_file, image_file } => {
            lemma_abandon_accounts_for_files(
                ticket,
                TicketError::Render,
                seq![home_file, guest_file, image_file],
            );
            lemma_small_multisets(home_file, guest_file, image_file);
            lemma_small_multisets(guest_file, image_file, none);
        },
        StageView::RemovingHomeLogo { guest_file, image_file } => {
            lemma_small_multisets(guest_file, image_file, none);
            lemma_small_multisets(image_file, none, none);
        },
        StageView::RemovingGuestLogo { image_file } => {},
        StageView::PublishingImage { image_file } => {
            lemma_abandon_accounts_for_files(ticket, TicketError::Publish, seq![image_file]);
            lemma_small_multisets(image_file, none, none);
        },
        StageView::RemovingImage { image_address } => {
            match token_outcome(ticket, gateway_address(image_address)) {
                Ok((name, bytes)) => {
                    lemma_small_multisets(name, none, none);
                },
                Err(error) => {
                    lemma_abandon_accounts_for_files(ticket, error, seq![]);
                },
            }
        },
        StageView::StoringToken { token_file } => {
            lemma_abandon_accounts_for_files(ticket, TicketError::Filesystem, seq![token_file]);
        },
        StageView::PublishingToken { token_file } => {
            lemma_abandon_accounts_for_files(ticket, TicketError::Publish, seq![token_file]);
            lemma_small_multisets(token_file, none, none);
        },
        StageView::RemovingToken { token_uri } => {},
        StageView::Failing { error, leftover } => {
            lemma_abandon_accounts_for_files(ticket, error, leftover);
        },
        StageView::Finished { reply } => {},
    }
}

/// The books stay right over any number of steps: the files held at the
/// start with all that were written since are the files held at the end with
/// all that were removed.
pub proof fn lemma_run_accounts_for_files(pipeline: PipelineView, events: Seq<EventView>)
    ensures
        ({
            let (last, actions) = run(pipeline, events);
            local_files(pipeline.stage).to_multiset().add(all_written(actions)) =~= local_files(
                last.stage,
            ).to_multiset().add(all_removed(actions))
        }),
    decreases events.len(),
{
    if events.len() > 0 {
        let (next, action) = transition(pipeline, events.first());
        let (last, actions) = run(next, events.drop_first());
        lemma_step_accounts_for_files(pipeline, events.first());
        lemma_run_accounts_for_files(next, events.drop_first());
        let all = seq![action] + actions;
        assert(all.first() == action);
        assert(all.drop_first() =~= actions);
        assert(all_written(all) == written(action).add(all_written(actions)));
        assert(all_removed(all) == removed(action).add(all_removed(actions)));
        let held = local_files(pipeline.stage).to_multiset();
        let between = local_files(next.stage).to_multiset();
        let kept = local_files(last.stage).to_multiset();
        assert(between.add(removed(action)) =~= held.add(written(action)));
        assert(between.add(all_written(actions)) =~= kept.add(all_removed(actions)));
        assert(held.add(all_written(all)) =~= held.add(written(action)).add(
            all_written(actions),
        ));
        assert(kept.add(all_removed(all)) =~= kept.add(all_removed(actions)).add(
            removed(action),
        ));
        assert(held.add(written(action)).add(all_written(actions)) =~= between.add(
            all_written(actions),
        ).add(removed(action)));
    } else {
        assert(run(pipeline, events).1 =~= Seq::<ActionView>::empty());
    }
}

/// A request that has been answered has had every file removed that it had
/// written, as often as it was written.
pub proof fn lemma_answered_request_leaves_no_file(
    ticket: TicketView,
    events: Seq<EventView>,
)
    requires
        run(beginning(ticket).0, events).0.stage is Finished,
    ensures
        written(beginning(ticket).1) == Multiset::<Seq<char>>::empty(),
        all_written(run(beginning(ticket).0, events).1) == all_removed(
            run(beginning(ticket).0, events).1,
        ),
{
    lemma_run_accounts_for_files(beginning(ticket).0, events);
    lemma_small_multisets(seq![], seq![], seq![]);
    let actions = run(beginning(ticket).0, events).1;
    assert(all_written(actions) =~= Multiset::<Seq<char>>::empty().add(all_written(actions)));
    assert(all_removed(actions) =~= Multiset::<Seq<char>>::empty().add(all_removed(actions)));
}

/// A request that has failed does nothing but wind down, whatever is
/// reported to it: it downloads, writes, draws and publishes nothing more,
/// and its answer is the failure.
pub proof fn lemma_failed_request_only_winds_down(
    pipeline: PipelineView,
    error: TicketError,
    events: Seq<EventView>,
)
    requires
        has_failed(pipeline.stage, error),
    ensures
        has_failed(run(pipeline, events).0.stage, error),
        forall|i: int|
            0 <= i < run(pipeline, events).1.len() ==> winds_down(
                #[trigger] run(pipeline, events).1[i],
                error,
            ),
    decreases events.len(),
{
    if events.len() > 0 {
        let (next, action) = transition(pipeline, events.first());
        let (last, actions) = run(next, events.drop_first());
        if let StageView::Failing { error: cause, leftover } = pipeline.stage {
            lemma_abandon_accounts_for_files(pipeline.ticket, error, leftover);
        }
        lemma_failed_request_only_winds_down(next, error, events.drop_first());
        let all = seq![action] + actions;
        assert forall|i: int| 0 <= i < all.len() implies winds_down(#[trigger] all[i], error) by {
            if i > 0 {
                assert(all[i] == actions[i - 1]);
            }
        }
    }
}

/// A request that has failed is answered once each file that is left has
/// been removed: after one report for each of them, and one more.
pub proof fn lemma_failed_request_is_answered(
    pipeline: PipelineView,
    error: TicketError,
    events: Seq<EventView>,
)
    requires
        has_failed(pipeline.stage, error),
        events.len() > local_files(pipeline.stage).len(),
    ensures
        run(pipeline, events).0.stage == (StageView::Finished { reply: failure_reply(error) }),
    decreases events.len(),
{
    let (next, action) = transition(pipeline, events.first());
    if let StageView::Failing { error: cause, leftover } = pipeline.stage {
        lemma_abandon_accounts_for_files(pipeline.ticket, error, leftover);
    }
    if events.len() > 1 {
        lemma_failed_request_is_answered(next, error, events.drop_first());
    } else {
        assert(run(next, events.drop_first()).0 == next);
    }
}

/// Whether `event` reports that the logo awaited in `stage` was not
/// fetched: it could not be downloaded, or could not be written to its file.
pub open spec fn fetch_fails(stage: StageView, event: EventView) -> bool {
    match stage {
        StageView::FetchingHome => !(event is Downloaded),
        StageView::FetchingGuest { .. } => !(event is Downloaded),
        StageView::StoringHome { .. } => !(event is Done),
        StageView::StoringGuest { .. } => !(event is Done),
        _ => false,
    }
}

/// Where a logo is not fetched, nothing is drawn and nothing is published:
/// every action from then on removes a file or answers with the failure to
/// fetch, and the request is answered at the latest after two more reports,
/// one for the file of each logo.
pub proof fn lemma_failed_fetch_only_winds_down(
    pipeline: PipelineView,
    failure: EventView,
    later: Seq<EventView>,
)
    requires
        fetch_fails(pipeline.stage, failure),
    ensures
        has_failed(run(pipeline, seq![failure] + later).0.stage, TicketError::Fetch),
        forall|i: int|
            0 <= i < run(pipeline, seq![failure] + later).1.len() ==> winds_down(
                #[trigger] run(pipeline, seq![failure] + later).1[i],
                TicketError::Fetch,
            ),
        later.len() >= 2 ==> run(pipeline, seq![failure] + later).0.stage == (StageView::Finished {
            reply: failure_reply(TicketError::Fetch),
        }),
{
    let events = seq![failure] + later;
    assert(events.first() == failure);
    assert(events.drop_first() =~= later);
    let (next, action) = transition(pipeline, failure);
    let (last, actions) = run(next, later);
    lemma_abandon_accounts_for_files(pipeline.ticket, TicketError::Fetch, local_files(pipeline.stage));
    lemma_failed_request_only_winds_down(next, TicketError::Fetch, later);
    let all = seq![action] + actions;
    assert forall|i: int| 0 <= i < all.len() implies winds_down(
        #[trigger] all[i],
        TicketError::Fetch,
    ) by {
        if i > 0 {
            assert(all[i] == actions[i - 1]);
        }
    }
    if later.len() >= 2 {
        lemma_failed_request_is_answered(next, TicketError::Fetch, later);
    }
}

/// The token that is written after the image was published points at that
/// image: its document holds the gateway address of the very address that
/// the storage network has just reported, and the file written is that
/// document, encoded.
pub proof fn lemma_token_points_at_published_image(
    pipeline: PipelineView,
    address: Seq<char>,
    report: EventView,
)
    requires
        pipeline.stage is PublishingImage,
    ensures
        ({
            let published = transition(pipeline, EventView::Published(address)).0;
            let action = transition(published, report).1;
            match date_text(pipeline.ticket.date) {
                Some(date) => {
                    let document = token_document(
                        pipeline.ticket,
                        gateway_address(address),
                        date,
                    );
                    &&& document.image == gateway_address(address)
                    &&& match object_encoding(token_members(document)) {
                        Some(bytes) => action == (ActionView::WriteFile {
                            name: token_file_name(bytes),
                            bytes,
                        }),
                        None => action == ActionView::Respond(
                            failure_reply(TicketError::Serialization),
                        ),
                    }
                },
                None => action == ActionView::Respond(
                    failure_reply(TicketError::InvalidTimestamp),
                ),
            }
        }),
{
}

/// Two tickets that hold the same are rendered alike and give the same
/// token: what is made of a ticket depends on its content alone.
pub proof fn lemma_equal_tickets_give_equal_artifacts(
    first: Ticket,
    second: Ticket,
    home_logo: Seq<u8>,
    guest_logo: Seq<u8>,
    image_uri: Seq<char>,
)
    requires
        first@ == second@,
    ensures
        rendering(first@, home_logo, guest_logo) == rendering(second@, home_logo, guest_logo),
        token_outcome(first@, image_uri) == token_outcome(second@, image_uri),
{
}

/// The file of the image is named after the ticket alone: neither the logos
/// nor the written date change the name.
pub proof fn lemma_image_name_depends_on_ticket_alone(
    ticket: Ticket,
    home: LogoSize,
    guest: LogoSize,
    date: Seq<char>,
    other_home: LogoSize,
    other_guest: LogoSize,
    other_date: Seq<char>,
)
    ensures
        composition(ticket@, home, guest, date).file_name == composition(
            ticket@,
            other_home,
            other_guest,
            other_date,
        ).file_name,
{
}

/// Serving the same ticket twice, with the same reports from outside, gives
/// the same actions in the same order and ends in the same stage: the same
/// files with the same bytes, and the same answer.
pub proof fn lemma_equal_requests_run_alike(first: Ticket, second: Ticket, events: Seq<EventView>)
    requires
        first@ == second@,
    ensures
        beginning(first@) == beginning(second@),
        run(beginning(first@).0, events) == run(beginning(second@).0, events),
{
}

/// The reports of a request that meets no failure: both logos arrive and
/// are written, the image is drawn and published at `image_address`, the
/// token is written and published at `token_address`. What is reported of
/// the four removals does not matter.
pub open spec fn unhindered(
    home_logo: Seq<u8>,
    guest_logo: Seq<u8>,
    image_address: Seq<char>,
    token_address: Seq<char>,
    removals: Seq<EventView>,
) -> Seq<EventView> {
    seq![
        EventView::Downloaded(home_logo),
        EventView::Done,
        EventView::Downloaded(guest_logo),
        EventView::Done,
        EventView::Done,
        removals[0],
        removals[1],
        EventView::Published(image_address),
        removals[2],
        EventView::Done,
        EventView::Published(token_address),
        removals[3],
    ]
}

/// A request that meets no failure takes its steps in one order: it writes
/// the home logo, fetches and writes the guest logo, draws the image,
/// removes both logos, publishes the image and removes it, writes the token
/// that points at the image, publishes and removes it, and answers with the
/// gateway address of the token.
pub proof fn lemma_unhindered_request_is_answered(
    ticket: TicketView,
    home_logo: Seq<u8>,
    guest_logo: Seq<u8>,
    image_address: Seq<char>,
    token_address: Seq<char>,
    removals: Seq<EventView>,
)
    requires
        removals.len() == 4,
        rendering(ticket, home_logo, guest_logo) is Ok,
        token_outcome(ticket, gateway_address(image_address)) is Ok,
    ensures
        ({
            let events = unhindered(
                home_logo,
                guest_logo,
                image_address,
                token_address,
                removals,
            );
            let image = rendering(ticket, home_logo, guest_logo)->Ok_0;
            let token = token_outcome(ticket, gateway_address(image_address))->Ok_0;
            let reply = EnvelopeView::Response { token_uri: gateway_address(token_address) };
            &&& run(beginning(ticket).0, events).0.stage == (StageView::Finished { reply })
            &&& run(beginning(ticket).0, events).1 == seq![
                ActionView::WriteFile { name: logo_file_name(home_logo), bytes: home_logo },
                ActionView::Download { url: ticket.guest_team.logo_url },
                ActionView::WriteFile { name: logo_file_name(guest_logo), bytes: guest_logo },
                ActionView::Draw {
                    image,
                    home_logo: logo_file_name(home_logo),
                    guest_logo: logo_file_name(guest_logo),
                },
                ActionView::RemoveFile { name: logo_file_name(home_logo) },
                ActionView::RemoveFile { name: logo_file_name(guest_logo) },
                ActionView::Publish { file: image.file_name },
                ActionView::RemoveFile { name: image.file_name },
                ActionView::WriteFile { name: token.0, bytes: token.1 },
                ActionView::Publish { file: token.0 },
                ActionView::RemoveFile { name: token.0 },
                ActionView::Respond(reply),
            ]
        }),
{
    let events = unhindered(home_logo, guest_logo, image_address, token_address, removals);
    let image = rendering(ticket, home_logo, guest_logo)->Ok_0;
    let token = token_outcome(ticket, gateway_address(image_address))->Ok_0;
    let home_file = logo_file_name(home_logo);
    let guest_file = logo_file_name(guest_logo);
    let image_file = image.file_name;
    let token_uri = gateway_address(token_address);
    let reply = EnvelopeView::Response { token_uri };
    let stages = seq![
        StageView::FetchingHome,
        StageView::StoringHome { home_logo, home_file },
        StageView::FetchingGuest { home_logo, home_file },
        StageView::StoringGuest { home_logo, home_file, guest_logo, guest_file },
        StageView::Drawing { home_file, guest_file, image_file },
        StageView::RemovingHomeLogo { guest_file, image_file },
        StageView::RemovingGuestLogo { image_file },
        StageView::PublishingImage { image_file },
        StageView::RemovingImage { image_address },
        StageView::StoringToken { token_file: token.0 },
        StageView::PublishingToken { token_file: token.0 },
        StageView::RemovingToken { token_uri },
        StageView::Finished { reply },
    ];
    let actions = seq![
        ActionView::WriteFile { name: home_file, bytes: home_logo },
        ActionView::Download { url: ticket.guest_team.logo_url },
        ActionView::WriteFile { name: guest_file, bytes: guest_logo },
        ActionView::Draw { image, home_logo: home_file, guest_logo: guest_file },
        ActionView::RemoveFile { name: home_file },
        ActionView::RemoveFile { name: guest_file },
        ActionView::Publish { file: image_file },
        ActionView::RemoveFile { name: image_file },
        ActionView::WriteFile { name: token.0, bytes: token.1 },
        ActionView::Publish { file: token.0 },
        ActionView::RemoveFile { name: token.0 },
        ActionView::Respond(reply),
    ];
    assert forall|i: int| 0 <= i < 12 implies transition(
        PipelineView { ticket, stage: stages[i] },
        #[trigger] events[i],
    ) == (PipelineView { ticket, stage: stages[i + 1] }, actions[i]) by {
        if i == 0 {
        } else if i == 1 {
        } else if i == 2 {
        } else if i == 3 {
        } else if i == 4 {
        } else if i == 5 {
        } else if i == 6 {
        } else if i == 7 {
        } else if i == 8 {
        } else if i == 9 {
        } else if i == 10 {
        } else {
        }
    }
    lemma_run_follows_its_steps(ticket, stages, events, actions);
}

proof fn lemma_run_follows_its_steps(
    ticket: TicketView,
    stages: Seq<StageView>,
    events: Seq<EventView>,
    actions: Seq<ActionView>,
)
    requires
        stages.len() == events.len() + 1,
        actions.len() == events.len(),
        forall|i: int|
            0 <= i < events.len() ==> transition(
                PipelineView { ticket, stage: stages[i] },
                #[trigger] events[i],
            ) == (PipelineView { ticket, stage: stages[i + 1] }, actions[i]),
    ensures
        run(PipelineView { ticket, stage: stages[0] }, events) == (
            PipelineView { ticket, stage: stages.last() },
            actions,
        ),
    decreases events.len(),
{
    if events.len() == 0 {
        assert(actions =~= Seq::<ActionView>::empty());
    } else {
        let rest = stages.drop_first();
        let later = events.drop_first();
        assert forall|i: int| 0 <= i < later.len() implies transition(
            PipelineView { ticket, stage: rest[i] },
            #[trigger] later[i],
        ) == (PipelineView { ticket, stage: rest[i + 1] }, actions.drop_first()[i]) by {
            assert(later[i] == events[i + 1]);
            assert(rest[i] == stages[i + 1]);
            assert(rest[i + 1] == stages[i + 2]);
        }
        assert(events.first() == events[0]);
        lemma_run_follows_its_steps(ticket, rest, events.drop_first(), actions.drop_first());
        assert(rest[0] == stages[1]);
        assert(rest.last() == stages.last());
        assert(seq![actions[0]] + actions.drop_first() =~= actions);
    }
}

/// Whether a text is short enough for its length to be written in eight
/// bytes. Every text that a program holds is.
pub open spec fn fits(text: Seq<char>) -> bool {
    encode_utf8(text).len() <= u64::MAX
}

proof fn lemma_number_is_read_back(first: u64, second: u64)
    ensures
        spec_u64_to_le_bytes(first).len() == 8,
        spec_u64_to_le_bytes(second).len() == 8,
        spec_u64_to_le_bytes(first) == spec_u64_to_le_bytes(second) ==> first == second,
{
    lemma_auto_spec_u64_to_from_le_bytes();
    assert(spec_u64_from_le_bytes(spec_u64_to_le_bytes(first)) == first);
    assert(spec_u64_from_le_bytes(spec_u64_to_le_bytes(second)) == second);
}

proof fn lemma_framed_text_is_read_back(
    first: Seq<char>,
    after_first: Seq<u8>,
    second: Seq<char>,
    after_second: Seq<u8>,
)
    requires
        fits(first),
        fits(second),
        framed(first) + after_first == framed(second) + after_second,
    ensures
        first == second,
        after_first == after_second,
{
    let whole = framed(first) + after_first;
    let first_length = encode_utf8(first).len() as int;
    let second_length = encode_utf8(second).len() as int;
    lemma_number_is_read_back(first_length as u64, second_length as u64);
    assert(whole.subrange(0, 8) =~= spec_u64_to_le_bytes(first_length as u64));
    assert((framed(second) + after_second).subrange(0, 8) =~= spec_u64_to_le_bytes(
        second_length as u64,
    ));
    assert(first_length == second_length);
    assert(whole.subrange(8, 8 + first_length) =~= encode_utf8(first));
    assert((framed(second) + after_second).subrange(8, 8 + second_length) =~= encode_utf8(
        second,
    ));
    encode_utf8_decode_utf8(first);
    encode_utf8_decode_utf8(second);
    assert(whole.subrange(8 + first_length, whole.len() as int) =~= after_first);
    assert((framed(second) + after_second).subrange(
        8 + second_length,
        whole.len() as int,
    ) =~= after_second);
}

proof fn lemma_status_is_read_back(first: TicketStatus, second: TicketStatus)
    requires
        status_bytes(first) == status_bytes(second),
    ensures
        first == second,
{
    if let TicketStatus::Finished { home_score, away_score } = first {
        lemma_number_is_read_back(home_score, away_score);
        assert(status_bytes(first).len() == 17);
    }
    if let TicketStatus::Finished { home_score, away_score } = second {
        lemma_number_is_read_back(home_score, away_score);
        assert(status_bytes(second).len() == 17);
    }
    match (first, second) {
        (
            TicketStatus::Finished { home_score, away_score },
            TicketStatus::Finished { home_score: other_home, away_score: other_away },
        ) => {
            lemma_number_is_read_back(home_score, other_home);
            lemma_number_is_read_back(away_score, other_away);
            assert(status_bytes(first).subrange(1, 9) =~= spec_u64_to_le_bytes(home_score));
            assert(status_bytes(second).subrange(1, 9) =~= spec_u64_to_le_bytes(other_home));
            assert(status_bytes(first).subrange(9, 17) =~= spec_u64_to_le_bytes(away_score));
            assert(status_bytes(second).subrange(9, 17) =~= spec_u64_to_le_bytes(other_away));
        },
        _ => {},
    }
}

proof fn lemma_join_is_associative(first: Seq<u8>, second: Seq<u8>, third: Seq<u8>)
    ensures
        (first + second) + third == first + (second + third),
{
    assert((first + second) + third =~= first + (second + third));
}

/// The bytes of a ticket, read as the first field followed by all the rest.
spec fn content_from(ticket: TicketView, field: int) -> Seq<u8>
    decreases 6 - field,
{
    if field == 0 {
        framed(ticket.id) + content_from(ticket, 1)
    } else if field == 1 {
        framed(ticket.host_team.name) + content_from(ticket, 2)
    } else if field == 2 {
        framed(ticket.host_team.logo_url) + content_from(ticket, 3)
    } else if field == 3 {
        framed(ticket.guest_team.name) + content_from(ticket, 4)
    } else if field == 4 {
        framed(ticket.guest_team.logo_url) + content_from(ticket, 5)
    } else if field == 5 {
        spec_u64_to_le_bytes(ticket.date) + content_from(ticket, 6)
    } else {
        status_bytes(ticket.status)
    }
}

proof fn lemma_content_is_its_fields_in_order(ticket: TicketView)
    ensures
        ticket_content(ticket) == content_from(ticket, 0),
{
    let id = framed(ticket.id);
    let host = framed(ticket.host_team.name);
    let host_logo = framed(ticket.host_team.logo_url);
    let guest = framed(ticket.guest_team.name);
    let guest_logo = framed(ticket.guest_team.logo_url);
    let date = spec_u64_to_le_bytes(ticket.date);
    let status = status_bytes(ticket.status);
    assert(content_from(ticket, 6) == status);
    assert(content_from(ticket, 5) == date + status);
    assert(content_from(ticket, 4) == guest_logo + (date + status));
    assert(content_from(ticket, 3) == guest + content_from(ticket, 4));
    assert(content_from(ticket, 2) == host_logo + content_from(ticket, 3));
    assert(content_from(ticket, 1) == host + content_from(ticket, 2));
    lemma_join_is_associative(id + host + host_logo + guest + guest_logo, date, status);
    lemma_join_is_associative(id + host + host_logo + guest, guest_logo, date + status);
    lemma_join_is_associative(id + host + host_logo, guest, content_from(ticket, 4));
    lemma_join_is_associative(id + host, host_logo, content_from(ticket, 3));
    lemma_join_is_associative(id, host, content_from(ticket, 2));
}

/// Tickets that differ in anything they hold differ in the bytes that are
/// hashed for them: from those bytes every field can be read back.
pub proof fn lemma_ticket_content_tells_tickets_apart(first: TicketView, second: TicketView)
    requires
        fits(first.id),
        fits(first.host_team.name),
        fits(first.host_team.logo_url),
        fits(first.guest_team.name),
        fits(first.guest_team.logo_url),
        fits(second.id),
        fits(second.host_team.name),
        fits(second.host_team.logo_url),
        fits(second.guest_team.name),
        fits(second.guest_team.logo_url),
        ticket_content(first) == ticket_content(second),
    ensures
        first == second,
{
    lemma_content_is_its_fields_in_order(first);
    lemma_content_is_its_fields_in_order(second);
    lemma_framed_text_is_read_back(
        first.id,
        content_from(first, 1),
        second.id,
        content_from(second, 1),
    );
    lemma_framed_text_is_read_back(
        first.host_team.name,
        content_from(first, 2),
        second.host_team.name,
        content_from(second, 2),
    );
    lemma_framed_text_is_read_back(
        first.host_team.logo_url,
        content_from(first, 3),
        second.host_team.logo_url,
        content_from(second, 3),
    );
    lemma_framed_text_is_read_back(
        first.guest_team.name,
        content_from(first, 4),
        second.guest_team.name,
        content_from(second, 4),
    );
    lemma_framed_text_is_read_back(
        first.guest_team.logo_url,
        content_from(first, 5),
        second.guest_team.logo_url,
        content_from(second, 5),
    );
    assert(content_from(first, 6) == status_bytes(first.status));
    assert(content_from(second, 6) == status_bytes(second.status));
    assert(content_from(first, 5) == spec_u64_to_le_bytes(first.date) + content_from(first, 6));
    assert(content_from(second, 5) == spec_u64_to_le_bytes(second.date) + content_from(
        second,
        6,
    ));
    lemma_date_and_status_are_read_back(first, second);
}

proof fn lemma_date_and_status_are_read_back(first: TicketView, second: TicketView)
    requires
        spec_u64_to_le_bytes(first.date) + status_bytes(first.status) == spec_u64_to_le_bytes(
            second.date,
        ) + status_bytes(second.status),
    ensures
        first.date == second.date,
        first.status == second.status,
{
    let first_end = spec_u64_to_le_bytes(first.date) + status_bytes(first.status);
    let second_end = spec_u64_to_le_bytes(second.date) + status_bytes(second.status);
    lemma_number_is_read_back(first.date, second.date);
    assert(first_end.subrange(0, 8) =~= spec_u64_to_le_bytes(first.date));
    assert(second_end.subrange(0, 8) =~= spec_u64_to_le_bytes(second.date));
    assert(first_end.subrange(8, first_end.len() as int) =~= status_bytes(first.status));
    assert(second_end.subrange(8, second_end.len() as int) =~= status_bytes(second.status));
    lemma_status_is_read_back(first.status, second.status);
}

} // verus!
