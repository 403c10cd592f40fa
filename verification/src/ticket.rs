//! The ticket: a match between two teams, its date and its status.

use crate::calendar::{date_text, format_date};
use crate::composition::{
    date_caption, guest_placement, home_placement, lay_out_date, lay_out_score, place_guest_logo,
    place_home_logo, score_caption, Composition, CompositionView, Ink, IMAGE_HEIGHT, IMAGE_WIDTH,
};
use crate::digest::{hashed_name, name_file};
use crate::error::TicketError;
use crate::logo::{logo_size, measure_logo, LogoSize};
use crate::text::{decimal, decimal_text};
use crate::token::{
    describe_token, name_token, token_description, token_file, token_name, TokenDocument,
    TokenFile, TokenView,
};
use vstd::bytes::{spec_u64_to_le_bytes, u64_to_le_bytes};
use vstd::prelude::*;
use vstd::slice::slice_to_vec;
use vstd::string::{StringExecFns, StringSliceAdditionalSpecFns};
use vstd::utf8::encode_utf8;

verus! {

/// One of the two teams of a match.
#[derive(Debug, Hash)]
pub struct Team {
    pub name: String,
    pub logo_url: String,
}

/// What a [`Team`] holds, as sequences of characters.
pub struct TeamView {
    pub name: Seq<char>,
    pub logo_url: Seq<char>,
}

impl View for Team {
    type V = TeamView;

    open spec fn view(&self) -> TeamView {
        TeamView { name: self.name@, logo_url: self.logo_url@ }
    }
}

/// Whether the match has been played, and with what result.
#[derive(Clone, Copy, Debug, PartialEq, Eq, Structural, Hash)]
pub enum TicketStatus {
    Finished { home_score: u64, away_score: u64 },
    Active,
}

/// The description of a match from which the image and the token are made.
#[derive(Debug, Hash)]
pub struct Ticket {
    pub id: String,
    pub host_team: Team,
    pub guest_team: Team,
    /// Seconds since the start of 1970, UTC.
    pub date: u64,
    pub status: TicketStatus,
}

/// What a [`Ticket`] holds.
pub struct TicketView {
    pub id: Seq<char>,
    pub host_team: TeamView,
    pub guest_team: TeamView,
    pub date: u64,
    pub status: TicketStatus,
}

impl View for Ticket {
    type V = TicketView;

    open spec fn view(&self) -> TicketView {
        TicketView {
            id: self.id@,
            host_team: self.host_team@,
            guest_team: self.guest_team@,
            date: self.date,
            status: self.status,
        }
    }
}

impl Default for Team {
    /// A team without a name and without a logo.
    fn default() -> (team: Team)
        ensures
            team@ == (TeamView { name: Seq::empty(), logo_url: Seq::empty() }),
    {
        Team { name: String::new(), logo_url: String::new() }
    }
}

impl Default for TicketStatus {
    /// A match is active until it is reported as finished.
    fn default() -> (status: TicketStatus)
        ensures
            status == TicketStatus::Active,
    {
        TicketStatus::Active
    }
}

impl Default for Ticket {
    /// An active match at the start of 1970 between two teams without names.
    fn default() -> (ticket: Ticket)
        ensures
            ticket@ == (TicketView {
                id: Seq::empty(),
                host_team: TeamView { name: Seq::empty(), logo_url: Seq::empty() },
                guest_team: TeamView { name: Seq::empty(), logo_url: Seq::empty() },
                date: 0,
                status: TicketStatus::Active,
            }),
    {
        Ticket {
            id: String::new(),
            host_team: Team::default(),
            guest_team: Team::default(),
            date: 0,
            status: TicketStatus::Active,
        }
    }
}

/// The goals of the home team and of the away team. A match that has not been
/// played counts as nil to nil.
pub open spec fn scores(status: TicketStatus) -> (nat, nat) {
    match status {
        TicketStatus::Finished { home_score, away_score } => (home_score as nat, away_score as nat),
        TicketStatus::Active => (0, 0),
    }
}

/// The score as it is written on the image and in the token: both numbers in
/// decimal, the home team first, with `" - "` between them.
pub open spec fn score_text(status: TicketStatus) -> Seq<char> {
    decimal(scores(status).0) + seq![' ', '-', ' '] + decimal(scores(status).1)
}

/// Renders the score of a match.
pub fn score(status: &TicketStatus) -> (text: String)
    ensures
        text@ == score_text(*status),
{
    proof {
        reveal_strlit(" - ");
        reveal_strlit("0 - 0");
    }
    match status {
        TicketStatus::Finished { home_score, away_score } => {
            let mut text = decimal_text(*home_score);
            text.append(" - ");
            let away = decimal_text(*away_score);
            text.append(away.as_str());
            assert(" - "@ =~= seq![' ', '-', ' ']);
            text
        },
        TicketStatus::Active => {
            assert("0 - 0"@ =~= score_text(TicketStatus::Active));
            String::from_str("0 - 0")
        },
    }
}

/// A text as bytes that say where they end: the length of its UTF-8 form in
/// eight bytes, low byte first, then that form.
pub open spec fn framed(text: Seq<char>) -> Seq<u8> {
    spec_u64_to_le_bytes(encode_utf8(text).len() as u64) + encode_utf8(text)
}

/// A status as bytes: a tag, then the two scores where there are any, each in
/// eight bytes, low byte first.
pub open spec fn status_bytes(status: TicketStatus) -> Seq<u8> {
    match status {
        TicketStatus::Active => seq![0u8],
        TicketStatus::Finished { home_score, away_score } => seq![1u8] + spec_u64_to_le_bytes(
            home_score,
        ) + spec_u64_to_le_bytes(away_score),
    }
}

/// Everything a ticket holds, as one run of bytes: the identifier, both teams
/// with name and logo address, the date and the status, in this order.
pub open spec fn ticket_content(ticket: TicketView) -> Seq<u8> {
    framed(ticket.id) + framed(ticket.host_team.name) + framed(ticket.host_team.logo_url) + framed(
        ticket.guest_team.name,
    ) + framed(ticket.guest_team.logo_url) + spec_u64_to_le_bytes(ticket.date) + status_bytes(
        ticket.status,
    )
}

/// The name of the file that holds the image of a ticket.
pub open spec fn image_file_name(ticket: TicketView) -> Seq<char> {
    hashed_name(ticket_content(ticket), ".png"@)
}

/// The image of a ticket whose logos have the sizes `home` and `guest` and
/// whose date is written `date`.
pub open spec fn composition(
    ticket: TicketView,
    home: LogoSize,
    guest: LogoSize,
    date: Seq<char>,
) -> CompositionView {
    CompositionView {
        width: IMAGE_WIDTH,
        height: IMAGE_HEIGHT,
        background: Ink::White,
        home_logo: home_placement(home),
        score: score_caption(score_text(ticket.status)),
        date: date_caption(date),
        guest_logo: guest_placement(guest),
        file_name: image_file_name(ticket),
    }
}

/// The outcome of rendering a ticket from the bytes of its two logos: no
/// image where a logo is no picture, none where the date cannot be read, and
/// else the image laid out for the logos' sizes.
pub open spec fn rendering(ticket: TicketView, home_logo: Seq<u8>, guest_logo: Seq<u8>) -> Result<
    CompositionView,
    TicketError,
> {
    match (logo_size(home_logo), logo_size(guest_logo), date_text(ticket.date)) {
        (Some(home), Some(guest), Some(date)) => Ok(composition(ticket, home, guest, date)),
        (Some(_), Some(_), None) => Err(TicketError::InvalidTimestamp),
        _ => Err(TicketError::Decode),
    }
}

/// The token document of a ticket whose image is found at `image_uri` and
/// whose date is written `date`.
pub open spec fn token_document(ticket: TicketView, image_uri: Seq<char>, date: Seq<char>)
    -> TokenView {
    TokenView {
        image: image_uri,
        name: token_name(ticket.host_team.name, ticket.guest_team.name),
        description: token_description(
            ticket.host_team.name,
            ticket.guest_team.name,
            date,
            score_text(ticket.status),
        ),
    }
}

/// The outcome of making the token of a ticket: no token where the date
/// cannot be read, none where the encoder reports an error, and else the
/// encoded document with the name of its file.
pub open spec fn token_outcome(ticket: TicketView, image_uri: Seq<char>) -> Result<
    (Seq<char>, Seq<u8>),
    TicketError,
> {
    match date_text(ticket.date) {
        Some(date) => token_file(token_document(ticket, image_uri, date)),
        None => Err(TicketError::InvalidTimestamp),
    }
}

fn push_framed(out: &mut Vec<u8>, text: &str)
    ensures
        final(out)@ == old(out)@ + framed(text@),
{
    let bytes = text.as_bytes();
    let mut length = u64_to_le_bytes(bytes.len() as u64);
    let mut body = slice_to_vec(bytes);
    out.append(&mut length);
    out.append(&mut body);
    assert(final(out)@ =~= old(out)@ + framed(text@));
}

fn push_status(out: &mut Vec<u8>, status: &TicketStatus)
    ensures
        final(out)@ == old(out)@ + status_bytes(*status),
{
    match status {
        TicketStatus::Active => {
            out.push(0u8);
        },
        TicketStatus::Finished { home_score, away_score } => {
            let mut home = u64_to_le_bytes(*home_score);
            let mut away = u64_to_le_bytes(*away_score);
            out.push(1u8);
            out.append(&mut home);
            out.append(&mut away);
        },
    }
    assert(final(out)@ =~= old(out)@ + status_bytes(*status));
}

impl Ticket {
    /// Everything this ticket holds, as one run of bytes.
    pub fn content_bytes(&self) -> (content: Vec<u8>)
        ensures
            content@ == ticket_content(self@),
    {
        let mut content: Vec<u8> = Vec::new();
        push_framed(&mut content, self.id.as_str());
        push_framed(&mut content, self.host_team.name.as_str());
        push_framed(&mut content, self.host_team.logo_url.as_str());
        push_framed(&mut content, self.guest_team.name.as_str());
        push_framed(&mut content, self.guest_team.logo_url.as_str());
        let mut date = u64_to_le_bytes(self.date);
        content.append(&mut date);
        push_status(&mut content, &self.status);
        assert(content@ =~= ticket_content(self@));
        content
    }

    /// Lays out the image of this ticket for logos of the sizes `home` and
    /// `guest` and the date written `date`, and names its file after the
    /// content of the ticket.
    pub fn compose(&self, home: LogoSize, guest: LogoSize, date: &str) -> (image: Composition)
        ensures
            image@ == composition(self@, home, guest, date@),
    {
        let content = self.content_bytes();
        Composition {
            width: IMAGE_WIDTH,
            height: IMAGE_HEIGHT,
            background: Ink::White,
            home_logo: place_home_logo(home),
            score: lay_out_score(score(&self.status)),
            date: lay_out_date(String::from_str(date)),
            guest_logo: place_guest_logo(guest),
            file_name: name_file(content.as_slice(), ".png"),
        }
    }

    /// Renders this ticket from the downloaded bytes of its two logos.
    ///
    /// Fails with [`TicketError::Decode`] where a logo is no picture, and
    /// with [`TicketError::InvalidTimestamp`] where both are and the date
    /// cannot be read.
    pub fn render(&self, home_logo: &[u8], guest_logo: &[u8]) -> (image: Result<
        Composition,
        TicketError,
    >)
        ensures
            match image {
                Ok(laid_out) => rendering(self@, home_logo@, guest_logo@) == Ok::<_, TicketError>(
                    laid_out@,
                ),
                Err(error) => rendering(self@, home_logo@, guest_logo@) == Err::<
                    CompositionView,
                    _,
                >(error),
            },
    {
        let home = match measure_logo(home_logo) {
            Ok(size) => size,
            Err(error) => {
                return Err(error);
            },
        };
        let guest = match measure_logo(guest_logo) {
            Ok(size) => size,
            Err(error) => {
                return Err(error);
            },
        };
        let date = match format_date(self.date) {
            Ok(text) => text,
            Err(error) => {
                return Err(error);
            },
        };
        Ok(self.compose(home, guest, date.as_str()))
    }

    /// Fills in the token document of this ticket for the image found at
    /// `image_uri` and the date written `date`.
    pub fn build_token(&self, image_uri: &str, date: &str) -> (document: TokenDocument)
        ensures
            document@ == token_document(self@, image_uri@, date@),
    {
        let score = score(&self.status);
        TokenDocument {
            image: String::from_str(image_uri),
            name: name_token(self.host_team.name.as_str(), self.guest_team.name.as_str()),
            description: describe_token(
                self.host_team.name.as_str(),
                self.guest_team.name.as_str(),
                date,
                score.as_str(),
            ),
        }
    }

    /// Makes the token of this ticket for the image found at `image_uri`:
    /// the encoded document and the name of the file that is to hold it.
    ///
    /// Fails with [`TicketError::InvalidTimestamp`] where the date cannot be
    /// read, and with [`TicketError::Serialization`] where it can and the
    /// encoder reports an error.
    pub fn make_token(&self, image_uri: &str) -> (file: Result<TokenFile, TicketError>)
        ensures
            match file {
                Ok(written) => token_outcome(self@, image_uri@) == Ok::<_, TicketError>(
                    (written.name@, written.bytes@),
                ),
                Err(error) => token_outcome(self@, image_uri@) == Err::<
                    (Seq<char>, Seq<u8>),
                    _,
                >(error),
            },
    {
        let date = match format_date(self.date) {
            Ok(text) => text,
            Err(error) => {
                return Err(error);
            },
        };
        self.build_token(image_uri, date.as_str()).to_file()
    }
}

} // verus!
