//! The token document: the metadata of the collectible that a ticket becomes.

use crate::digest::{hashed_name, name_file};
use crate::error::TicketError;
use crate::json::{encode_object, members_model, object_encoding, JsonModel, JsonValue, Member};
use vstd::prelude::*;
use vstd::string::StringExecFns;

verus! {

/// The address of published content at the public gateway.
pub open spec fn gateway_address(address: Seq<char>) -> Seq<char> {
    "https://ipfs.io/ipfs/"@ + address
}

/// Wraps a content address into the URL at which the public gateway serves
/// the content.
pub fn gateway_url(address: &str) -> (url: String)
    ensures
        url@ == gateway_address(address@),
{
    let mut url = String::from_str("https://ipfs.io/ipfs/");
    url.append(address);
    url
}

/// The fields of a token document that differ from ticket to ticket.
#[derive(Debug)]
pub struct TokenDocument {
    pub image: String,
    pub name: String,
    pub description: String,
}

/// What a [`TokenDocument`] holds.
pub struct TokenView {
    pub image: Seq<char>,
    pub name: Seq<char>,
    pub description: Seq<char>,
}

impl View for TokenDocument {
    type V = TokenView;

    open spec fn view(&self) -> TokenView {
        TokenView { image: self.image@, name: self.name@, description: self.description@ }
    }
}

/// The name of the token of a match between `host` and `guest`.
pub open spec fn token_name(host: Seq<char>, guest: Seq<char>) -> Seq<char> {
    host + " vs "@ + guest + " ticket"@
}

/// The sentence that describes a match.
pub open spec fn token_description(
    host: Seq<char>,
    guest: Seq<char>,
    date: Seq<char>,
    score: Seq<char>,
) -> Seq<char> {
    "The match between "@ + host + " and "@ + guest + " took place on "@ + date
        + ". The final score was "@ + score
}

/// The members of the JSON object that is the token document: the three
/// texts, no external link, no animation, and no traits.
pub open spec fn token_members(document: TokenView) -> Seq<(Seq<char>, JsonModel)> {
    seq![
        ("image"@, JsonModel::Text(document.image)),
        ("name"@, JsonModel::Text(document.name)),
        ("description"@, JsonModel::Text(document.description)),
        ("external_link"@, JsonModel::Null),
        ("animation_url"@, JsonModel::Null),
        ("traits"@, JsonModel::EmptyList),
    ]
}

/// A token document as bytes, with the name of the file that holds them.
#[derive(Debug)]
pub struct TokenFile {
    pub name: String,
    pub bytes: Vec<u8>,
}

/// The file that holds the encoded token document `bytes`: it is named after
/// their digest.
pub open spec fn token_file_name(bytes: Seq<u8>) -> Seq<char> {
    hashed_name(bytes, ".json"@)
}

/// The outcome of writing a token document down: the name and the bytes of
/// its file, or a failure where the encoder reports an error.
pub open spec fn token_file(document: TokenView) -> Result<(Seq<char>, Seq<u8>), TicketError> {
    match object_encoding(token_members(document)) {
        Some(bytes) => Ok((token_file_name(bytes), bytes)),
        None => Err(TicketError::Serialization),
    }
}

/// Writes the name of a token.
pub fn name_token(host: &str, guest: &str) -> (name: String)
    ensures
        name@ == token_name(host@, guest@),
{
    let mut name = String::from_str(host);
    name.append(" vs ");
    name.append(guest);
    name.append(" ticket");
    name
}

/// Writes the description of a token.
pub fn describe_token(host: &str, guest: &str, date: &str, score: &str) -> (description: String)
    ensures
        description@ == token_description(host@, guest@, date@, score@),
{
    let mut description = String::from_str("The match between ");
    description.append(host);
    description.append(" and ");
    description.append(guest);
    description.append(" took place on ");
    description.append(date);
    description.append(". The final score was ");
    description.append(score);
    description
}

fn text_member(key: &str, text: &String) -> (member: Member)
    ensures
        member@ == (key@, JsonModel::Text(text@)),
{
    Member { key: String::from_str(key), value: JsonValue::Text(text.clone()) }
}

impl TokenDocument {
    /// The members of the JSON object that this document is.
    pub fn members(&self) -> (members: Vec<Member>)
        ensures
            members_model(members@) == token_members(self@),
    {
        let mut members: Vec<Member> = Vec::new();
        members.push(text_member("image", &self.image));
        members.push(text_member("name", &self.name));
        members.push(text_member("description", &self.description));
        members.push(Member { key: String::from_str("external_link"), value: JsonValue::Null });
        members.push(Member { key: String::from_str("animation_url"), value: JsonValue::Null });
        members.push(Member { key: String::from_str("traits"), value: JsonValue::EmptyList });
        assert(members_model(members@) =~= token_members(self@));
        members
    }

    /// Encodes this document and names the file that is to hold it.
    ///
    /// Fails with [`TicketError::Serialization`] exactly where the encoder
    /// reports an error.
    pub fn to_file(&self) -> (file: Result<TokenFile, TicketError>)
        ensures
            match file {
                Ok(written) => token_file(self@) == Ok::<_, TicketError>(
                    (written.name@, written.bytes@),
                ),
                Err(error) => token_file(self@) == Err::<(Seq<char>, Seq<u8>), _>(error),
            },
    {
        let members = self.members();
        match encode_object(&members) {
            Ok(bytes) => {
                let name = name_file(bytes.as_slice(), ".json");
                Ok(TokenFile { name, bytes })
            },
            Err(error) => Err(error),
        }
    }
}

} // verus!
