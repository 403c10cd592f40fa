//! The sequence of steps that serves one request: fetch both logos, draw the
//! image, publish it, make the token that points at it, publish the token,
//! and answer, with every temporary file removed on the way.
//!
//! The library decides; its caller acts. [`Pipeline::begin`] and
//! [`Pipeline::step`] each return the next [`Action`]. The caller performs it
//! and reports what happened as an [`Event`] to the next call of `step`,
//! until the action is [`Action::Respond`].

use crate::composition::{Composition, CompositionView};
use crate::digest::{hashed_name, name_file};
use crate::error::TicketError;
use crate::ticket::{rendering, token_outcome, Ticket, TicketView};
use crate::token::{gateway_address, gateway_url};
use vstd::prelude::*;
use vstd::slice::slice_to_vec;

verus! {

/// The answer to a request.
#[derive(Debug, PartialEq, Eq)]
pub enum Envelope {
    /// Both files were published; the token is found at `token_uri`.
    Response { token_uri: String },
    /// The request failed; `msg` says why.
    Error { msg: String },
}

/// What an [`Envelope`] holds.
pub enum EnvelopeView {
    Response { token_uri: Seq<char> },
    Error { msg: Seq<char> },
}

impl View for Envelope {
    type V = EnvelopeView;

    open spec fn view(&self) -> EnvelopeView {
        match self {
            Envelope::Response { token_uri } => EnvelopeView::Response { token_uri: token_uri@ },
            Envelope::Error { msg } => EnvelopeView::Error { msg: msg@ },
        }
    }
}

impl Envelope {
    /// A second copy of this answer.
    pub fn duplicate(&self) -> (copy: Envelope)
        ensures
            copy@ == self@,
    {
        match self {
            Envelope::Response { token_uri } => Envelope::Response { token_uri: token_uri.clone() },
            Envelope::Error { msg } => Envelope::Error { msg: msg.clone() },
        }
    }
}

/// What the caller reports of the action it was given.
#[derive(Debug, PartialEq, Eq)]
pub enum Event {
    /// The download yielded these bytes.
    Downloaded(Vec<u8>),
    /// The storage network took the file and gave it this address.
    Published(String),
    /// The action was carried out and has nothing to hand back.
    Done,
    /// The action could not be carried out.
    Failed,
}

/// What an [`Event`] holds.
pub enum EventView {
    Downloaded(Seq<u8>),
    Published(Seq<char>),
    Done,
    Failed,
}

impl View for Event {
    type V = EventView;

    open spec fn view(&self) -> EventView {
        match self {
            Event::Downloaded(bytes) => EventView::Downloaded(bytes@),
            Event::Published(address) => EventView::Published(address@),
            Event::Done => EventView::Done,
            Event::Failed => EventView::Failed,
        }
    }
}

/// What the caller is to do next.
#[derive(Debug)]
pub enum Action {
    /// Fetch what is found at `url`; report [`Event::Downloaded`].
    Download { url: String },
    /// Write `bytes` to the local file `name`; report [`Event::Done`].
    WriteFile { name: String, bytes: Vec<u8> },
    /// Draw `image` with the logos held in the two local files and write it
    /// to the local file that `image` names; report [`Event::Done`].
    Draw { image: Composition, home_logo: String, guest_logo: String },
    /// Hand the bytes of the local file `file` to the storage network;
    /// report [`Event::Published`].
    Publish { file: String },
    /// Remove the local file `name`; report [`Event::Done`], or
    /// [`Event::Failed`], which is noted and changes nothing.
    RemoveFile { name: String },
    /// Answer the request. Nothing is left to do.
    Respond(Envelope),
}

/// What an [`Action`] holds.
pub enum ActionView {
    Download { url: Seq<char> },
    WriteFile { name: Seq<char>, bytes: Seq<u8> },
    Draw { image: CompositionView, home_logo: Seq<char>, guest_logo: Seq<char> },
    Publish { file: Seq<char> },
    RemoveFile { name: Seq<char> },
    Respond(EnvelopeView),
}

impl View for Action {
    type V = ActionView;

    open spec fn view(&self) -> ActionView {
        match self {
            Action::Download { url } => ActionView::Download { url: url@ },
            Action::WriteFile { name, bytes } => ActionView::WriteFile {
                name: name@,
                bytes: bytes@,
            },
            Action::Draw { image, home_logo, guest_logo } => ActionView::Draw {
                image: image@,
                home_logo: home_logo@,
                guest_logo: guest_logo@,
            },
            Action::Publish { file } => ActionView::Publish { file: file@ },
            Action::RemoveFile { name } => ActionView::RemoveFile { name: name@ },
            Action::Respond(envelope) => ActionView::Respond(envelope@),
        }
    }
}

/// How far a request has come. Each stage but the last waits for the event
/// that reports on the action given out when the stage was entered.
#[derive(Debug)]
pub enum Stage {
    /// The home logo is being downloaded.
    FetchingHome,
    /// The home logo is being written to its file.
    StoringHome { home_logo: Vec<u8>, home_file: String },
    /// The guest logo is being downloaded.
    FetchingGuest { home_logo: Vec<u8>, home_file: String },
    /// The guest logo is being written to its file.
    StoringGuest { home_logo: Vec<u8>, home_file: String, guest_logo: Vec<u8>, guest_file: String },
    /// The image is being drawn and written to its file.
    Drawing { home_file: String, guest_file: String, image_file: String },
    /// The file of the home logo is being removed.
    RemovingHomeLogo { guest_file: String, image_file: String },
    /// The file of the guest logo is being removed.
    RemovingGuestLogo { image_file: String },
    /// The image is being published.
    PublishingImage { image_file: String },
    /// The file of the image, published at `image_address`, is being removed.
    RemovingImage { image_address: String },
    /// The token document is being written to its file.
    StoringToken { token_file: String },
    /// The token document is being published.
    PublishingToken { token_file: String },
    /// The file of the token, found at `token_uri`, is being removed.
    RemovingToken { token_uri: String },
    /// A step failed with `error`. One file is being removed, and the files
    /// in `leftover` are still to be.
    Failing { error: TicketError, leftover: Vec<String> },
    /// The request has been answered with `reply`.
    Finished { reply: Envelope },
}

/// What a [`Stage`] holds.
pub enum StageView {
    FetchingHome,
    StoringHome { home_logo: Seq<u8>, home_file: Seq<char> },
    FetchingGuest { home_logo: Seq<u8>, home_file: Seq<char> },
    StoringGuest {
        home_logo: Seq<u8>,
        home_file: Seq<char>,
        guest_logo: Seq<u8>,
        guest_file: Seq<char>,
    },
    Drawing { home_file: Seq<char>, guest_file: Seq<char>, image_file: Seq<char> },
    RemovingHomeLogo { guest_file: Seq<char>, image_file: Seq<char> },
    RemovingGuestLogo { image_file: Seq<char> },
    PublishingImage { image_file: Seq<char> },
    RemovingImage { image_address: Seq<char> },
    StoringToken { token_file: Seq<char> },
    PublishingToken { token_file: Seq<char> },
    RemovingToken { token_uri: Seq<char> },
    Failing { error: TicketError, leftover: Seq<Seq<char>> },
    Finished { reply: EnvelopeView },
}

/// The names in `files`, each as a sequence of characters.
pub open spec fn names(files: Seq<String>) -> Seq<Seq<char>> {
    Seq::new(files.len(), |i: int| files[i]@)
}

impl View for Stage {
    type V = StageView;

    open spec fn view(&self) -> StageView {
        match self {
            Stage::FetchingHome => StageView::FetchingHome,
            Stage::StoringHome { home_logo, home_file } => StageView::StoringHome {
                home_logo: home_logo@,
                home_file: home_file@,
            },
            Stage::FetchingGuest { home_logo, home_file } => StageView::FetchingGuest {
                home_logo: home_logo@,
                home_file: home_file@,
            },
            Stage::StoringGuest {
                home_logo,
                home_file,
                guest_logo,
                guest_file,
            } => StageView::StoringGuest {
                home_logo: home_logo@,
                home_file: home_file@,
                guest_logo: guest_logo@,
                guest_file: guest_file@,
            },
            Stage::Drawing { home_file, guest_file, image_file } => StageView::Drawing {
                home_file: home_file@,
                guest_file: guest_file@,
                image_file: image_file@,
            },
            Stage::RemovingHomeLogo { guest_file, image_file } => StageView::RemovingHomeLogo {
                guest_file: guest_file@,
                image_file: image_file@,
            },
            Stage::RemovingGuestLogo { image_file } => StageView::RemovingGuestLogo {
                image_file: image_file@,
            },
            Stage::PublishingImage { image_file } => StageView::PublishingImage {
                image_file: image_file@,
            },
            Stage::RemovingImage { image_address } => StageView::RemovingImage {
                image_address: image_address@,
            },
            Stage::StoringToken { token_file } => StageView::StoringToken {
                token_file: token_file@,
            },
            Stage::PublishingToken { token_file } => StageView::PublishingToken {
                token_file: token_file@,
            },
            Stage::RemovingToken { token_uri } => StageView::RemovingToken { token_uri: token_uri@ },
            Stage::Failing { error, leftover } => StageView::Failing {
                error: *error,
                leftover: names(leftover@),
            },
            Stage::Finished { reply } => StageView::Finished { reply: reply@ },
        }
    }
}

/// One request on its way: the ticket it is about, and how far it has come.
#[derive(Debug)]
pub struct Pipeline {
    pub ticket: Ticket,
    pub stage: Stage,
}

/// What a [`Pipeline`] holds.
pub struct PipelineView {
    pub ticket: TicketView,
    pub stage: StageView,
}

impl View for Pipeline {
    type V = PipelineView;

    open spec fn view(&self) -> PipelineView {
        PipelineView { ticket: self.ticket@, stage: self.stage@ }
    }
}

/// The name of the file that holds a downloaded logo: it is named after the
/// digest of its bytes.
pub open spec fn logo_file_name(bytes: Seq<u8>) -> Seq<char> {
    hashed_name(bytes, ".png"@)
}

/// The answer to a request that failed with `error`.
pub open spec fn failure_reply(error: TicketError) -> EnvelopeView {
    EnvelopeView::Error { msg: error.message_text() }
}

/// How a request that has failed goes on: while a file is left, the first of
/// them is removed; then the request is answered with the failure.
pub open spec fn abandon(ticket: TicketView, error: TicketError, leftover: Seq<Seq<char>>) -> (
    PipelineView,
    ActionView,
) {
    if leftover.len() > 0 {
        (
            PipelineView {
                ticket,
                stage: StageView::Failing { error, leftover: leftover.drop_first() },
            },
            ActionView::RemoveFile { name: leftover[0] },
        )
    } else {
        (
            PipelineView { ticket, stage: StageView::Finished { reply: failure_reply(error) } },
            ActionView::Respond(failure_reply(error)),
        )
    }
}

/// How a request starts: with the download of the home logo.
pub open spec fn beginning(ticket: TicketView) -> (PipelineView, ActionView) {
    (
        PipelineView { ticket, stage: StageView::FetchingHome },
        ActionView::Download { url: ticket.host_team.logo_url },
    )
}

/// The stage that follows `pipeline` on `event`, and the action to perform.
///
/// A step that waits for a result fails on every event but that result. A
/// logo that cannot be downloaded or cannot be written has not been fetched.
/// A removal is followed by the next step whatever is reported of it.
pub open spec fn transition(pipeline: PipelineView, event: EventView) -> (PipelineView, ActionView) {
    let ticket = pipeline.ticket;
    match pipeline.stage {
        StageView::FetchingHome => match event {
            EventView::Downloaded(bytes) => (
                PipelineView {
                    ticket,
                    stage: StageView::StoringHome {
                        home_logo: bytes,
                        home_file: logo_file_name(bytes),
                    },
                },
                ActionView::WriteFile { name: logo_file_name(bytes), bytes },
            ),
            _ => abandon(ticket, TicketError::Fetch, seq![]),
        },
        StageView::StoringHome { home_logo, home_file } => match event {
            EventView::Done => (
                PipelineView { ticket, stage: StageView::FetchingGuest { home_logo, home_file } },
                ActionView::Download { url: ticket.guest_team.logo_url },
            ),
            _ => abandon(ticket, TicketError::Fetch, seq![home_file]),
        },
        StageView::FetchingGuest { home_logo, home_file } => match event {
            EventView::Downloaded(bytes) => (
                PipelineView {
                    ticket,
                    stage: StageView::StoringGuest {
                        home_logo,
                        home_file,
                        guest_logo: bytes,
                        guest_file: logo_file_name(bytes),
                    },
                },
                ActionView::WriteFile { name: logo_file_name(bytes), bytes },
            ),
            _ => abandon(ticket, TicketError::Fetch, seq![home_file]),
        },
        StageView::StoringGuest { home_logo, home_file, guest_logo, guest_file } => match event {
            EventView::Done => match rendering(ticket, home_logo, guest_logo) {
                Ok(image) => (
                    PipelineView {
                        ticket,
                        stage: StageView::Drawing {
                            home_file,
                            guest_file,
                            image_file: image.file_name,
                        },
                    },
                    ActionView::Draw { image, home_logo: home_file, guest_logo: guest_file },
                ),
                Err(error) => abandon(ticket, error, seq![home_file, guest_file]),
            },
            _ => abandon(ticket, TicketError::Fetch, seq![home_file, guest_file]),
        },
        StageView::Drawing { home_file, guest_file, image_file } => match event {
            EventView::Done => (
                PipelineView {
                    ticket,
                    stage: StageView::RemovingHomeLogo { guest_file, image_file },
                },
                ActionView::RemoveFile { name: home_file },
            ),
            _ => abandon(ticket, TicketError::Render, seq![home_file, guest_file, image_file]),
        },
        StageView::RemovingHomeLogo { guest_file, image_file } => (
            PipelineView { ticket, stage: StageView::RemovingGuestLogo { image_file } },
            ActionView::RemoveFile { name: guest_file },
        ),
        StageView::RemovingGuestLogo { image_file } => (
            PipelineView { ticket, stage: StageView::PublishingImage { image_file } },
            ActionView::Publish { file: image_file },
        ),
        StageView::PublishingImage { image_file } => match event {
            EventView::Published(address) => (
                PipelineView { ticket, stage: StageView::RemovingImage { image_address: address } },
                ActionView::RemoveFile { name: image_file },
            ),
            _ => abandon(ticket, TicketError::Publish, seq![image_file]),
        },
        StageView::RemovingImage { image_address } => match token_outcome(
            ticket,
            gateway_address(image_address),
        ) {
            Ok((name, bytes)) => (
                PipelineView { ticket, stage: StageView::StoringToken { token_file: name } },
                ActionView::WriteFile { name, bytes },
            ),
            Err(error) => abandon(ticket, error, seq![]),
        },
        StageView::StoringToken { token_file } => match event {
            EventView::Done => (
                PipelineView { ticket, stage: StageView::PublishingToken { token_file } },
                ActionView::Publish { file: token_file },
            ),
            _ => abandon(ticket, TicketError::Filesystem, seq![token_file]),
        },
        StageView::PublishingToken { token_file } => match event {
            EventView::Published(address) => (
                PipelineView {
                    ticket,
                    stage: StageView::RemovingToken { token_uri: gateway_address(address) },
                },
                ActionView::RemoveFile { name: token_file },
            ),
            _ => abandon(ticket, TicketError::Publish, seq![token_file]),
        },
        StageView::RemovingToken { token_uri } => (
            PipelineView {
                ticket,
                stage: StageView::Finished { reply: EnvelopeView::Response { token_uri } },
            },
            ActionView::Respond(EnvelopeView::Response { token_uri }),
        ),
        StageView::Failing { error, leftover } => abandon(ticket, error, leftover),
        StageView::Finished { reply } => (pipeline, ActionView::Respond(reply)),
    }
}

fn abandon_request(ticket: Ticket, error: TicketError, leftover: Vec<String>) -> (next: (
    Pipeline,
    Action,
))
    ensures
        (next.0@, next.1@) == abandon(ticket@, error, names(leftover@)),
{
    let mut leftover = leftover;
    let ghost before = names(leftover@);
    if leftover.len() > 0 {
        let name = leftover.remove(0);
        assert(names(leftover@) =~= before.drop_first());
        (Pipeline { ticket, stage: Stage::Failing { error, leftover } }, Action::RemoveFile { name })
    } else {
        let reply = Envelope::Error { msg: error.message() };
        let answer = reply.duplicate();
        (Pipeline { ticket, stage: Stage::Finished { reply } }, Action::Respond(answer))
    }
}

fn no_files() -> (files: Vec<String>)
    ensures
        names(files@) == Seq::<Seq<char>>::empty(),
{
    let files: Vec<String> = Vec::new();
    assert(names(files@) =~= Seq::<Seq<char>>::empty());
    files
}

fn one_file(first: String) -> (files: Vec<String>)
    ensures
        names(files@) == seq![first@],
{
    let mut files: Vec<String> = Vec::new();
    files.push(first);
    assert(names(files@) =~= seq![first@]);
    files
}

fn two_files(first: String, second: String) -> (files: Vec<String>)
    ensures
        names(files@) == seq![first@, second@],
{
    let mut files: Vec<String> = Vec::new();
    files.push(first);
    files.push(second);
    assert(names(files@) =~= seq![first@, second@]);
    files
}

fn three_files(first: String, second: String, third: String) -> (files: Vec<String>)
    ensures
        names(files@) == seq![first@, second@, third@],
{
    let mut files: Vec<String> = Vec::new();
    files.push(first);
    files.push(second);
    files.push(third);
    assert(names(files@) =~= seq![first@, second@, third@]);
    files
}

fn store_logo(bytes: &Vec<u8>) -> (stored: (String, Action))
    ensures
        stored.0@ == logo_file_name(bytes@),
        stored.1@ == (ActionView::WriteFile { name: logo_file_name(bytes@), bytes: bytes@ }),
{
    let name = name_file(bytes.as_slice(), ".png");
    let action = Action::WriteFile { name: name.clone(), bytes: slice_to_vec(bytes.as_slice()) };
    (name, action)
}

impl Pipeline {
    /// Takes up the request for `ticket`. The first action is the download
    /// of the home logo.
    pub fn begin(ticket: Ticket) -> (next: (Pipeline, Action))
        ensures
            (next.0@, next.1@) == beginning(ticket@),
    {
        let url = ticket.host_team.logo_url.clone();
        (Pipeline { ticket, stage: Stage::FetchingHome }, Action::Download { url })
    }

    /// Whether the request has been answered.
    pub fn is_finished(&self) -> (finished: bool)
        ensures
            finished == (self@.stage is Finished),
    {
        match &self.stage {
            Stage::Finished { .. } => true,
            _ => false,
        }
    }

    /// Takes the report on the last action and decides on the next one.
    pub fn step(self, event: Event) -> (next: (Pipeline, Action))
        ensures
            (next.0@, next.1@) == transition(self@, event@),
    {
        let Pipeline { ticket, stage } = self;
        match stage {
            Stage::FetchingHome => match event {
                Event::Downloaded(bytes) => {
                    let (home_file, action) = store_logo(&bytes);
                    (
                        Pipeline { ticket, stage: Stage::StoringHome { home_logo: bytes, home_file } },
                        action,
                    )
                },
                _ => abandon_request(ticket, TicketError::Fetch, no_files()),
            },
            Stage::StoringHome { home_logo, home_file } => match event {
                Event::Done => {
                    let url = ticket.guest_team.logo_url.clone();
                    (
                        Pipeline { ticket, stage: Stage::FetchingGuest { home_logo, home_file } },
                        Action::Download { url },
                    )
                },
                _ => abandon_request(ticket, TicketError::Fetch, one_file(home_file)),
            },
            Stage::FetchingGuest { home_logo, home_file } => match event {
                Event::Downloaded(bytes) => {
                    let (guest_file, action) = store_logo(&bytes);
                    (
                        Pipeline {
                            ticket,
                            stage: Stage::StoringGuest {
                                home_logo,
                                home_file,
                                guest_logo: bytes,
                                guest_file,
                            },
                        },
                        action,
                    )
                },
                _ => abandon_request(ticket, TicketError::Fetch, one_file(home_file)),
            },
            Stage::StoringGuest { home_logo, home_file, guest_logo, guest_file } => match event {
                Event::Done => match ticket.render(home_logo.as_slice(), guest_logo.as_slice()) {
                    Ok(image) => {
                        let image_file = image.file_name.clone();
                        let action = Action::Draw {
                            image,
                            home_logo: home_file.clone(),
                            guest_logo: guest_file.clone(),
                        };
                        (
                            Pipeline {
                                ticket,
                                stage: Stage::Drawing { home_file, guest_file, image_file },
                            },
                            action,
                        )
                    },
                    Err(error) => abandon_request(ticket, error, two_files(home_file, guest_file)),
                },
                _ => abandon_request(ticket, TicketError::Fetch, two_files(home_file, guest_file)),
            },
            Stage::Drawing { home_file, guest_file, image_file } => match event {
                Event::Done => (
                    Pipeline { ticket, stage: Stage::RemovingHomeLogo { guest_file, image_file } },
                    Action::RemoveFile { name: home_file },
                ),
                _ => abandon_request(
                    ticket,
                    TicketError::Render,
                    three_files(home_file, guest_file, image_file),
                ),
            },
            Stage::RemovingHomeLogo { guest_file, image_file } => (
                Pipeline { ticket, stage: Stage::RemovingGuestLogo { image_file } },
                Action::RemoveFile { name: guest_file },
            ),
            Stage::RemovingGuestLogo { image_file } => {
                let file = image_file.clone();
                (
                    Pipeline { ticket, stage: Stage::PublishingImage { image_file } },
                    Action::Publish { file },
                )
            },
            Stage::PublishingImage { image_file } => match event {
                Event::Published(address) => (
                    Pipeline { ticket, stage: Stage::RemovingImage { image_address: address } },
                    Action::RemoveFile { name: image_file },
                ),
                _ => abandon_request(ticket, TicketError::Publish, one_file(image_file)),
            },
            Stage::RemovingImage { image_address } => {
                let image_uri = gateway_url(image_address.as_str());
                match ticket.make_token(image_uri.as_str()) {
                    Ok(file) => {
                        let token_file = file.name.clone();
                        (
                            Pipeline { ticket, stage: Stage::StoringToken { token_file } },
                            Action::WriteFile { name: file.name, bytes: file.bytes },
                        )
                    },
                    Err(error) => abandon_request(ticket, error, no_files()),
                }
            },
            Stage::StoringToken { token_file } => match event {
                Event::Done => {
                    let file = token_file.clone();
                    (
                        Pipeline { ticket, stage: Stage::PublishingToken { token_file } },
                        Action::Publish { file },
                    )
                },
                _ => abandon_request(ticket, TicketError::Filesystem, one_file(token_file)),
            },
            Stage::PublishingToken { token_file } => match event {
                Event::Published(address) => {
                    let token_uri = gateway_url(address.as_str());
                    (
                        Pipeline { ticket, stage: Stage::RemovingToken { token_uri } },
                        Action::RemoveFile { name: token_file },
                    )
                },
                _ => abandon_request(ticket, TicketError::Publish, one_file(token_file)),
            },
            Stage::RemovingToken { token_uri } => {
                let reply = Envelope::Response { token_uri };
                let answer = reply.duplicate();
                (Pipeline { ticket, stage: Stage::Finished { reply } }, Action::Respond(answer))
            },
            Stage::Failing { error, leftover } => abandon_request(ticket, error, leftover),
            Stage::Finished { reply } => {
                let answer = reply.duplicate();
                (Pipeline { ticket, stage: Stage::Finished { reply } }, Action::Respond(answer))
            },
        }
    }
}

} // verus!
