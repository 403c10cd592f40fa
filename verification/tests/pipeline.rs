use match_ticket::digest::calculate_hash;
use match_ticket::error::TicketError;
use match_ticket::pipeline::{Action, Envelope, Event, Pipeline, Stage};
use match_ticket::ticket::{Team, Ticket, TicketStatus};
use std::io::Cursor;

fn png(width: u32, height: u32) -> Vec<u8> {
    let picture = image::DynamicImage::ImageRgba8(image::RgbaImage::new(width, height));
    let mut bytes = Vec::new();
    picture
        .write_to(&mut Cursor::new(&mut bytes), image::ImageOutputFormat::Png)
        .expect("a blank picture can be encoded");
    bytes
}

fn ticket(date: u64) -> Ticket {
    Ticket {
        id: String::from("m-17"),
        host_team: Team {
            name: String::from("Lions"),
            logo_url: String::from("http://logos.test/lions.png"),
        },
        guest_team: Team {
            name: String::from("Bears"),
            logo_url: String::from("http://logos.test/bears.png"),
        },
        date,
        status: TicketStatus::Finished { home_score: 2, away_score: 2 },
    }
}

/// What a run of the pipeline did to the world around it.
struct World {
    downloads: Vec<String>,
    files: Vec<String>,
    written: Vec<(String, Vec<u8>)>,
    drawn: usize,
    published: Vec<String>,
    reply: Option<Envelope>,
}

/// Serves `ticket` with a storage network that gives every file the address
/// `Qmtest`. `fails` says, by the number of the action, which one fails.
fn serve(ticket: Ticket, home: &[u8], guest: &[u8], fails: Option<usize>) -> World {
    let mut world = World {
        downloads: Vec::new(),
        files: Vec::new(),
        written: Vec::new(),
        drawn: 0,
        published: Vec::new(),
        reply: None,
    };
    let (mut pipeline, mut action) = Pipeline::begin(ticket);
    for number in 0..64 {
        let failed = fails == Some(number);
        let event = match action {
            Action::Download { url } => {
                let bytes = if world.downloads.is_empty() { home } else { guest };
                world.downloads.push(url);
                if failed { Event::Failed } else { Event::Downloaded(bytes.to_vec()) }
            }
            Action::WriteFile { name, bytes } => {
                world.files.push(name.clone());
                world.written.push((name, bytes));
                if failed { Event::Failed } else { Event::Done }
            }
            Action::Draw { image, home_logo, guest_logo } => {
                assert!(world.files.contains(&home_logo));
                assert!(world.files.contains(&guest_logo));
                world.files.push(image.file_name.clone());
                world.drawn += 1;
                if failed { Event::Failed } else { Event::Done }
            }
            Action::Publish { file } => {
                assert!(world.files.contains(&file));
                world.published.push(file);
                if failed { Event::Failed } else { Event::Published(String::from("Qmtest")) }
            }
            Action::RemoveFile { name } => {
                let at = world.files.iter().position(|file| *file == name);
                world.files.remove(at.expect("only a file that exists is removed"));
                if failed { Event::Failed } else { Event::Done }
            }
            Action::Respond(envelope) => {
                assert!(pipeline.is_finished());
                world.reply = Some(envelope);
                return world;
            }
        };
        assert!(!pipeline.is_finished());
        let next = pipeline.step(event);
        pipeline = next.0;
        action = next.1;
    }
    panic!("the request was not answered");
}

fn failure(error: TicketError) -> Option<Envelope> {
    Some(Envelope::Error { msg: error.message() })
}

#[test]
fn a_request_that_meets_no_failure_is_answered_with_the_address_of_the_token() {
    let world = serve(ticket(1_700_000_000), &png(4, 4), &png(6, 6), None);
    assert_eq!(
        world.reply,
        Some(Envelope::Response { token_uri: String::from("https://ipfs.io/ipfs/Qmtest") })
    );
    assert!(world.files.is_empty());
    assert_eq!(world.written.len(), 3);
    assert_eq!(world.drawn, 1);
    assert_eq!(world.published.len(), 2);
}

#[test]
fn the_answer_is_the_envelope_that_the_client_expects() {
    let world = serve(ticket(1_700_000_000), &png(4, 4), &png(6, 6), None);
    let token_uri = match world.reply {
        Some(Envelope::Response { token_uri }) => token_uri,
        other => panic!("the request failed: {:?}", other),
    };
    let mut inner = serde_json::Map::new();
    inner.insert(String::from("token_uri"), serde_json::Value::String(token_uri));
    let mut outer = serde_json::Map::new();
    outer.insert(String::from("response"), serde_json::Value::Object(inner));
    assert_eq!(
        serde_json::to_string(&outer).expect("a value can be encoded"),
        r#"{"response":{"token_uri":"https://ipfs.io/ipfs/Qmtest"}}"#
    );
}

#[test]
fn the_steps_come_in_their_order() {
    let home = png(4, 4);
    let guest = png(6, 6);
    let subject = ticket(1_700_000_000);
    let image_name = format!("{}.png", calculate_hash(&subject.content_bytes()));
    let world = serve(subject, &home, &guest, None);
    assert_eq!(world.downloads, ["http://logos.test/lions.png", "http://logos.test/bears.png"]);
    assert_eq!(world.written[0], (format!("{}.png", calculate_hash(&home)), home));
    assert_eq!(world.written[1], (format!("{}.png", calculate_hash(&guest)), guest));
    assert_eq!(world.written[2].0, format!("{}.json", calculate_hash(&world.written[2].1)));
    assert_eq!(world.published, [image_name, world.written[2].0.clone()]);
}

#[test]
fn the_token_points_at_the_address_that_the_image_was_given() {
    let (pipeline, _) = Pipeline::begin(ticket(1_700_000_000));
    let pipeline = Pipeline {
        ticket: pipeline.ticket,
        stage: Stage::PublishingImage { image_file: String::from("1.png") },
    };
    let (pipeline, removal) = pipeline.step(Event::Published(String::from("QmFresh")));
    assert!(matches!(removal, Action::RemoveFile { name } if name == "1.png"));
    let (_, writing) = pipeline.step(Event::Done);
    let bytes = match writing {
        Action::WriteFile { bytes, .. } => bytes,
        other => panic!("no token was written: {:?}", other),
    };
    let text = String::from_utf8(bytes).expect("json is text");
    assert!(text.contains("\"image\":\"https://ipfs.io/ipfs/QmFresh\""));
}

#[test]
fn a_failed_download_of_the_home_logo_ends_the_request_at_once() {
    let world = serve(ticket(1_700_000_000), &png(4, 4), &png(6, 6), Some(0));
    assert_eq!(world.reply, failure(TicketError::Fetch));
    assert_eq!(world.downloads.len(), 1);
    assert!(world.written.is_empty());
    assert_eq!(world.drawn, 0);
    assert!(world.published.is_empty());
    assert!(world.files.is_empty());
}

#[test]
fn a_failed_download_of_the_guest_logo_removes_the_home_logo() {
    let world = serve(ticket(1_700_000_000), &png(4, 4), &png(6, 6), Some(2));
    assert_eq!(world.reply, failure(TicketError::Fetch));
    assert_eq!(world.written.len(), 1);
    assert_eq!(world.drawn, 0);
    assert!(world.published.is_empty());
    assert!(world.files.is_empty());
}

#[test]
fn a_logo_that_cannot_be_written_has_not_been_fetched() {
    for writing in [1, 3] {
        let world = serve(ticket(1_700_000_000), &png(4, 4), &png(6, 6), Some(writing));
        assert_eq!(world.reply, failure(TicketError::Fetch));
        assert_eq!(world.drawn, 0);
        assert!(world.published.is_empty());
        assert!(world.files.is_empty());
    }
}

#[test]
fn a_token_that_cannot_be_written_ends_the_request() {
    let world = serve(ticket(1_700_000_000), &png(4, 4), &png(6, 6), Some(9));
    assert_eq!(world.reply, failure(TicketError::Filesystem));
    assert_eq!(world.published.len(), 1);
    assert!(world.files.is_empty());
}

#[test]
fn a_logo_that_is_no_picture_ends_the_request_before_anything_is_drawn() {
    let world = serve(ticket(1_700_000_000), &png(4, 4), b"no picture", None);
    assert_eq!(world.reply, failure(TicketError::Decode));
    assert_eq!(world.drawn, 0);
    assert!(world.published.is_empty());
    assert!(world.files.is_empty());
}

#[test]
fn a_date_out_of_range_ends_the_request_before_anything_is_drawn() {
    let world = serve(ticket(u64::MAX), &png(4, 4), &png(6, 6), None);
    assert_eq!(world.reply, failure(TicketError::InvalidTimestamp));
    assert_eq!(world.drawn, 0);
    assert!(world.files.is_empty());
}

#[test]
fn an_image_that_cannot_be_drawn_ends_the_request() {
    let world = serve(ticket(1_700_000_000), &png(4, 4), &png(6, 6), Some(4));
    assert_eq!(world.reply, failure(TicketError::Render));
    assert!(world.published.is_empty());
    assert!(world.files.is_empty());
}

#[test]
fn an_image_that_cannot_be_published_ends_the_request_without_a_token() {
    let world = serve(ticket(1_700_000_000), &png(4, 4), &png(6, 6), Some(7));
    assert_eq!(world.reply, failure(TicketError::Publish));
    assert_eq!(world.published.len(), 1);
    assert_eq!(world.written.len(), 2);
    assert!(world.files.is_empty());
}

#[test]
fn a_token_that_cannot_be_published_ends_the_request() {
    let world = serve(ticket(1_700_000_000), &png(4, 4), &png(6, 6), Some(10));
    assert_eq!(world.reply, failure(TicketError::Publish));
    assert_eq!(world.published.len(), 2);
    assert!(world.files.is_empty());
}

#[test]
fn a_file_that_cannot_be_removed_does_not_end_the_request() {
    for removal in [5, 6, 8, 11] {
        let world = serve(ticket(1_700_000_000), &png(4, 4), &png(6, 6), Some(removal));
        assert_eq!(
            world.reply,
            Some(Envelope::Response { token_uri: String::from("https://ipfs.io/ipfs/Qmtest") })
        );
    }
}

#[test]
fn serving_the_same_ticket_twice_writes_the_same_files() {
    let one = serve(ticket(1_700_000_000), &png(4, 4), &png(6, 6), None);
    let other = serve(ticket(1_700_000_000), &png(4, 4), &png(6, 6), None);
    assert_eq!(one.written, other.written);
    assert_eq!(one.published, other.published);
    assert_eq!(one.reply, other.reply);
}

#[test]
fn two_logos_with_the_same_bytes_are_both_removed() {
    let logo = png(4, 4);
    let world = serve(ticket(1_700_000_000), &logo, &logo, None);
    assert!(world.reply.is_some());
    assert!(world.files.is_empty());
}

#[test]
fn an_answered_request_repeats_its_answer() {
    let (pipeline, _) = Pipeline::begin(ticket(1_700_000_000));
    let (pipeline, first) = pipeline.step(Event::Failed);
    assert!(pipeline.is_finished());
    let (pipeline, second) = pipeline.step(Event::Done);
    assert!(pipeline.is_finished());
    match (first, second) {
        (Action::Respond(one), Action::Respond(other)) => assert_eq!(one, other),
        other => panic!("no answer: {:?}", other),
    }
}

#[test]
fn a_report_of_the_wrong_kind_counts_as_a_failure() {
    let (pipeline, _) = Pipeline::begin(ticket(1_700_000_000));
    let (_, action) = pipeline.step(Event::Published(String::from("Qm")));
    assert!(matches!(action, Action::Respond(Envelope::Error { msg })
        if msg == TicketError::Fetch.message()));
}
