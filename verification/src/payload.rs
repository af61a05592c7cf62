//! The JSON payloads of the commands that send something.
//!
//! The library frames each payload itself, member by member. The texts and
//! the JSON values inside a payload are written by `serde_json`.

use crate::executor::optional_text;
use crate::json::{
    json_error_message, json_error_text, json_string, json_text, string_to_json, value_to_json,
};
use crate::text::concat2;
use vstd::prelude::*;
use vstd::string::*;

verus! {

/// A rich message. Nothing in it is checked: the remote API owns its schema.
#[derive(Debug)]
pub struct EmbedData {
    pub title: Option<String>,
    pub description: Option<String>,
    pub color: Option<String>,
    /// A free-form mapping, held as a JSON value.
    pub thumbnail: Option<serde_json::Value>,
    /// A free-form mapping, held as a JSON value.
    pub image: Option<serde_json::Value>,
    /// A free-form mapping, held as a JSON value.
    pub footer: Option<serde_json::Value>,
    /// A free-form mapping, held as a JSON value.
    pub author: Option<serde_json::Value>,
    /// The fields in their order, each a free-form mapping held as a JSON
    /// value.
    pub fields: Option<Vec<serde_json::Value>>,
    pub timestamp: Option<String>,
}

/// A plain message to a channel.
#[derive(Debug)]
pub struct SendMessageRequest {
    pub channel_id: String,
    pub message: String,
}

/// A rich message to a channel or to a user.
#[derive(Debug)]
pub struct SendEmbedRequest {
    pub channel_id: Option<String>,
    pub user_id: Option<String>,
    pub embed_data: EmbedData,
    /// `"channel"` or `"dm"`.
    pub message_type: String,
}

/// The error text for a payload that could not be written as JSON.
pub open spec fn serialization_failure_text(detail: Seq<char>) -> Seq<char> {
    "Failed to serialize payload: "@ + detail
}

/// The payload was written, and it is `text`.
pub open spec fn wrote(written: Result<String, String>, text: Seq<char>) -> bool {
    written matches Ok(t) && t@ == text
}

/// A text as a JSON string, or `null` where there is none.
pub open spec fn optional_json_string(text: Option<Seq<char>>) -> Seq<char> {
    match text {
        Some(t) => json_string(t),
        None => "null"@,
    }
}

/// The JSON text of a value, or `null` where there is none.
pub open spec fn optional_json_text(value: Option<serde_json::Value>) -> Seq<char> {
    match value {
        Some(v) => json_text(v),
        None => "null"@,
    }
}

/// The texts in a row, with a comma between each two.
pub open spec fn comma_separated(items: Seq<Seq<char>>) -> Seq<char>
    decreases items.len(),
{
    if items.len() == 0 {
        Seq::empty()
    } else if items.len() == 1 {
        items[0]
    } else {
        comma_separated(items.drop_last()) + ","@ + items.last()
    }
}

/// The views of a list of texts.
pub open spec fn text_views(texts: Seq<String>) -> Seq<Seq<char>> {
    Seq::new(texts.len(), |i: int| texts[i]@)
}

/// The JSON texts of a list of values.
pub open spec fn json_texts(values: Seq<serde_json::Value>) -> Seq<Seq<char>> {
    Seq::new(values.len(), |i: int| json_text(values[i]))
}

/// A JSON array of items that are JSON texts already.
pub open spec fn array_of(items: Seq<Seq<char>>) -> Seq<char> {
    "["@ + comma_separated(items) + "]"@
}

/// The values as a JSON array.
pub open spec fn json_array(values: Seq<serde_json::Value>) -> Seq<char> {
    array_of(json_texts(values))
}

/// The values as a JSON array, or `null` where there are none.
pub open spec fn optional_json_array(values: Option<Vec<serde_json::Value>>) -> Seq<char> {
    match values {
        Some(v) => json_array(v@),
        None => "null"@,
    }
}

/// The object of a plain message, of members that are JSON texts already:
/// the addressee, under the name that `opening` holds, and the message.
pub open spec fn message_object(
    opening: Seq<char>,
    addressee: Seq<char>,
    message: Seq<char>,
) -> Seq<char> {
    opening + addressee + ",\"message\":"@ + message + "}"@
}

/// The payload of a plain message to a channel.
pub open spec fn channel_message_json(channel_id: Seq<char>, message: Seq<char>) -> Seq<char> {
    message_object("{\"channelId\":"@, json_string(channel_id), json_string(message))
}

/// The payload of a plain message to a user.
pub open spec fn direct_message_json(user_id: Seq<char>, message: Seq<char>) -> Seq<char> {
    message_object("{\"userId\":"@, json_string(user_id), json_string(message))
}

/// The members of a rich message, each a JSON text already.
pub ghost struct EmbedMembers {
    pub title: Seq<char>,
    pub description: Seq<char>,
    pub color: Seq<char>,
    pub thumbnail: Seq<char>,
    pub image: Seq<char>,
    pub footer: Seq<char>,
    pub author: Seq<char>,
    pub fields: Seq<char>,
    pub timestamp: Seq<char>,
}

/// The object of a rich message, of its members.
pub open spec fn embed_object(members: EmbedMembers) -> Seq<char> {
    "{\"title\":"@ + members.title + ",\"description\":"@ + members.description + ",\"color\":"@
        + members.color + ",\"thumbnail\":"@ + members.thumbnail + ",\"image\":"@ + members.image
        + ",\"footer\":"@ + members.footer + ",\"author\":"@ + members.author + ",\"fields\":"@
        + members.fields + ",\"timestamp\":"@ + members.timestamp + "}"@
}

/// The members of a rich message as JSON texts: `null` where the message has
/// nothing for one.
pub open spec fn embed_members(embed: EmbedData) -> EmbedMembers {
    EmbedMembers {
        title: optional_json_string(optional_text(embed.title)),
        description: optional_json_string(optional_text(embed.description)),
        color: optional_json_string(optional_text(embed.color)),
        thumbnail: optional_json_text(embed.thumbnail),
        image: optional_json_text(embed.image),
        footer: optional_json_text(embed.footer),
        author: optional_json_text(embed.author),
        fields: optional_json_array(embed.fields),
        timestamp: optional_json_string(optional_text(embed.timestamp)),
    }
}

/// A rich message as a JSON object: every member is there, `null` where the
/// message has nothing for it.
pub open spec fn embed_json(embed: EmbedData) -> Seq<char> {
    embed_object(embed_members(embed))
}

/// The object of a rich message's payload, of members that are JSON texts
/// already.
pub open spec fn embed_request_object(
    channel_id: Seq<char>,
    user_id: Seq<char>,
    embed: Seq<char>,
    message_type: Seq<char>,
) -> Seq<char> {
    "{\"channelId\":"@ + channel_id + ",\"userId\":"@ + user_id + ",\"embedData\":"@ + embed
        + ",\"type\":"@ + message_type + "}"@
}

/// The payload of a rich message: both addressees, `null` where one is
/// missing, the message itself and its type.
pub open spec fn embed_request_json(
    channel_id: Option<Seq<char>>,
    user_id: Option<Seq<char>>,
    embed: EmbedData,
    message_type: Seq<char>,
) -> Seq<char> {
    embed_request_object(
        optional_json_string(channel_id),
        optional_json_string(user_id),
        embed_json(embed),
        json_string(message_type),
    )
}

/// Reads what `serde_json` made of a payload: the text that it wrote, or the
/// error text that reports its failure.
pub fn written_or_failure(written: Result<String, serde_json::Error>) -> (read: Result<
    String,
    String,
>)
    ensures
        match written {
            Ok(text) => read matches Ok(t) && t@ == text@,
            Err(failure) => read matches Err(error) && error@ == serialization_failure_text(
                json_error_text(failure),
            ),
        },
{
    match written {
        Ok(text) => Ok(text),
        Err(failure) => {
            let detail = json_error_message(&failure);
            Err(concat2("Failed to serialize payload: ", detail.as_str()))
        },
    }
}

/// Writes a text as a JSON string.
pub fn quoted(text: &str) -> (written: Result<String, String>)
    ensures
        wrote(written, json_string(text@)),
{
    written_or_failure(string_to_json(text))
}

/// Writes a text as a JSON string, and `null` where there is none.
pub fn optional_quoted(text: &Option<String>) -> (written: Result<String, String>)
    ensures
        wrote(written, optional_json_string(optional_text(*text))),
{
    match text {
        Some(t) => quoted(t.as_str()),
        None => Ok(String::from_str("null")),
    }
}

/// Writes a JSON value.
pub fn value_json(value: &serde_json::Value) -> (written: Result<String, String>)
    ensures
        wrote(written, json_text(*value)),
{
    written_or_failure(value_to_json(value))
}

/// Writes a JSON value, and `null` where there is none.
pub fn optional_value_json(value: &Option<serde_json::Value>) -> (written: Result<String, String>)
    ensures
        wrote(written, optional_json_text(*value)),
{
    match value {
        Some(v) => value_json(v),
        None => Ok(String::from_str("null")),
    }
}

/// Frames a JSON array of items that are JSON texts already, in their order.
pub fn frame_array(items: &Vec<String>) -> (framed: String)
    ensures
        framed@ == array_of(text_views(items@)),
{
    let mut out = String::from_str("[");
    let mut done: usize = 0;
    while done < items.len()
        invariant
            done <= items.len(),
            out@ == "["@ + comma_separated(text_views(items@).subrange(0, done as int)),
        decreases items.len() - done,
    {
        proof {
            let before = text_views(items@).subrange(0, done as int);
            let after = text_views(items@).subrange(0, done + 1);
            assert(after.drop_last() == before);
            assert(after.last() == items@[done as int]@);
            if done == 0 {
                assert("["@ + comma_separated(before) + after.last() == "["@ + comma_separated(
                    after,
                ));
            } else {
                assert("["@ + comma_separated(before) + ","@ + after.last() == "["@
                    + comma_separated(after));
            }
        }
        if done > 0 {
            out.append(",");
        }
        out.append(items[done].as_str());
        done = done + 1;
    }
    assert(text_views(items@).subrange(0, done as int) == text_views(items@));
    out.append("]");
    out
}

/// Writes the values as a JSON array, in their order.
pub fn array_json(values: &Vec<serde_json::Value>) -> (written: Result<String, String>)
    ensures
        wrote(written, json_array(values@)),
{
    let mut items: Vec<String> = Vec::new();
    let mut done: usize = 0;
    while done < values.len()
        invariant
            done <= values.len(),
            items@.len() == done,
            forall|i: int| 0 <= i < done ==> (#[trigger] items@[i])@ == json_text(values@[i]),
        decreases values.len() - done,
    {
        let item = match value_json(&values[done]) {
            Ok(text) => text,
            Err(error) => {
                return Err(error);
            },
        };
        items.push(item);
        done = done + 1;
    }
    assert(text_views(items@) =~= json_texts(values@));
    Ok(frame_array(&items))
}

/// Writes the values as a JSON array, and `null` where there are none.
pub fn optional_array_json(values: &Option<Vec<serde_json::Value>>) -> (written: Result<
    String,
    String,
>)
    ensures
        wrote(written, optional_json_array(*values)),
{
    match values {
        Some(v) => array_json(v),
        None => Ok(String::from_str("null")),
    }
}

/// Frames the object of a plain message, of members that are JSON texts
/// already.
pub fn frame_message(opening: &str, addressee: &str, message: &str) -> (framed: String)
    ensures
        framed@ == message_object(opening@, addressee@, message@),
{
    let mut out = String::from_str(opening);
    out.append(addressee);
    out.append(",\"message\":");
    out.append(message);
    out.append("}");
    out
}

/// Frames the object of a rich message's payload, of members that are JSON
/// texts already.
pub fn frame_embed_request(channel_id: &str, user_id: &str, embed: &str, message_type: &str) -> (framed:
    String)
    ensures
        framed@ == embed_request_object(channel_id@, user_id@, embed@, message_type@),
{
    let mut out = String::from_str("{\"channelId\":");
    out.append(channel_id);
    out.append(",\"userId\":");
    out.append(user_id);
    out.append(",\"embedData\":");
    out.append(embed);
    out.append(",\"type\":");
    out.append(message_type);
    out.append("}");
    out
}

/// Writes the payload of a plain message to a user.
pub fn direct_message_to_json(user_id: &str, message: &str) -> (written: Result<String, String>)
    ensures
        wrote(written, direct_message_json(user_id@, message@)),
{
    let addressee = quoted(user_id)?;
    let text = quoted(message)?;
    Ok(frame_message("{\"userId\":", addressee.as_str(), text.as_str()))
}

impl SendMessageRequest {
    /// Writes the payload of this message.
    pub fn to_json(&self) -> (written: Result<String, String>)
        ensures
            wrote(written, channel_message_json(self.channel_id@, self.message@)),
    {
        let addressee = quoted(self.channel_id.as_str())?;
        let text = quoted(self.message.as_str())?;
        Ok(frame_message("{\"channelId\":", addressee.as_str(), text.as_str()))
    }
}

/// The members of a rich message, each written as JSON.
pub struct WrittenEmbed {
    pub title: String,
    pub description: String,
    pub color: String,
    pub thumbnail: String,
    pub image: String,
    pub footer: String,
    pub author: String,
    pub fields: String,
    pub timestamp: String,
}

impl View for WrittenEmbed {
    type V = EmbedMembers;

    open spec fn view(&self) -> EmbedMembers {
        EmbedMembers {
            title: self.title@,
            description: self.description@,
            color: self.color@,
            thumbnail: self.thumbnail@,
            image: self.image@,
            footer: self.footer@,
            author: self.author@,
            fields: self.fields@,
            timestamp: self.timestamp@,
        }
    }
}

impl WrittenEmbed {
    /// Frames the object of a rich message, of its written members.
    pub fn frame(&self) -> (framed: String)
        ensures
            framed@ == embed_object(self@),
    {
        let mut out = String::from_str("{\"title\":");
        out.append(self.title.as_str());
        out.append(",\"description\":");
        out.append(self.description.as_str());
        out.append(",\"color\":");
        out.append(self.color.as_str());
        out.append(",\"thumbnail\":");
        out.append(self.thumbnail.as_str());
        out.append(",\"image\":");
        out.append(self.image.as_str());
        out.append(",\"footer\":");
        out.append(self.footer.as_str());
        out.append(",\"author\":");
        out.append(self.author.as_str());
        out.append(",\"fields\":");
        out.append(self.fields.as_str());
        out.append(",\"timestamp\":");
        out.append(self.timestamp.as_str());
        out.append("}");
        out
    }
}

impl EmbedData {
    /// Writes this message as a JSON object.
    pub fn to_json(&self) -> (written: Result<String, String>)
        ensures
            wrote(written, embed_json(*self)),
    {
        let members = WrittenEmbed {
            title: optional_quoted(&self.title)?,
            description: optional_quoted(&self.description)?,
            color: optional_quoted(&self.color)?,
            thumbnail: optional_value_json(&self.thumbnail)?,
            image: optional_value_json(&self.image)?,
            footer: optional_value_json(&self.footer)?,
            author: optional_value_json(&self.author)?,
            fields: optional_array_json(&self.fields)?,
            timestamp: optional_quoted(&self.timestamp)?,
        };
        Ok(members.frame())
    }
}

impl SendEmbedRequest {
    /// Writes the payload of this message.
    pub fn to_json(&self) -> (written: Result<String, String>)
        ensures
            wrote(
                written,
                embed_request_json(
                    optional_text(self.channel_id),
                    optional_text(self.user_id),
                    self.embed_data,
                    self.message_type@,
                ),
            ),
    {
        let channel_id = optional_quoted(&self.channel_id)?;
        let user_id = optional_quoted(&self.user_id)?;
        let embed = self.embed_data.to_json()?;
        let message_type = quoted(self.message_type.as_str())?;
        Ok(
            frame_embed_request(
                channel_id.as_str(),
                user_id.as_str(),
                embed.as_str(),
                message_type.as_str(),
            ),
        )
    }
}

} // verus!
