//! Whether a client accepts every media type a responder may answer with.

use vstd::prelude::*;

use crate::text::str_equal;

verus! {

/// A media type or media range, `type/subtype`, where either part may be `*`.
#[derive(Clone, Debug)]
pub struct MimeType {
    pub type_: String,
    pub subtype: String,
}

/// The type and subtype of the media type `text`, as the mime crate reads
/// it, or `None` where `text` is none.
pub uninterp spec fn parsed_media_type(text: Seq<char>) -> Option<(Seq<char>, Seq<char>)>;

/// `text.parse::<mime::Mime>()`, with the `type_` and `subtype` of the
/// result, which the crate keeps in lowercase.
#[verifier::external_body]
fn parse_mime(text: &str) -> (r: Option<MimeType>)
    ensures
        match r {
            Some(m) => parsed_media_type(text@) == Some((m.type_@, m.subtype@)),
            None => parsed_media_type(text@) is None,
        },
{
    let m: mime::Mime = text.parse().ok()?;
    Some(MimeType { type_: m.type_().as_str().to_string(), subtype: m.subtype().as_str().to_string() })
}

impl MimeType {
    /// Reads `text` as a media type.
    pub fn parse(text: &str) -> (r: Option<MimeType>)
        ensures
            match r {
                Some(m) => parsed_media_type(text@) == Some((m.type_@, m.subtype@)),
                None => parsed_media_type(text@) is None,
            },
    {
        parse_mime(text)
    }
}

/// The media range `choice` takes in `mime`: any type, or the type of `mime`
/// with any subtype or with its subtype.
pub open spec fn range_accepts(choice: MimeType, mime: MimeType) -> bool {
    ||| choice.type_@ == "*"@
    ||| (choice.type_@ == mime.type_@ && (choice.subtype@ == "*"@ || choice.subtype@
        == mime.subtype@))
}

/// One of `choices` takes in `mime`.
pub open spec fn accepts_spec(choices: Seq<MimeType>, mime: MimeType) -> bool {
    exists|i: int| 0 <= i < choices.len() && range_accepts(#[trigger] choices[i], mime)
}

/// Whether one of the media ranges `choices` takes in `mime`.
pub fn accepts(choices: &Vec<MimeType>, mime: &MimeType) -> (b: bool)
    ensures
        b == accepts_spec(choices@, *mime),
{
    let mut i: usize = 0;
    while i < choices.len()
        invariant
            i <= choices.len(),
            forall|k: int| 0 <= k < i ==> !range_accepts(#[trigger] choices@[k], *mime),
        decreases choices.len() - i,
    {
        let choice = &choices[i];
        if str_equal(choice.type_.as_str(), "*") {
            assert(range_accepts(choices@[i as int], *mime));
            return true;
        }
        if str_equal(choice.type_.as_str(), mime.type_.as_str()) {
            if str_equal(choice.subtype.as_str(), "*") || str_equal(
                choice.subtype.as_str(),
                mime.subtype.as_str(),
            ) {
                assert(range_accepts(choices@[i as int], *mime));
                return true;
            }
        }
        i = i + 1;
    }
    false
}

/// Whether a client accepts every media type asked about.
#[derive(Clone, Debug)]
pub enum Conclusion {
    AllAcceptable,
    /// The client's `Accept` header could not be read.
    ErrorParsingHeader { message: String },
    NotAllAcceptable,
}

/// Whether the client whose `Accept` header gave the media ranges `ranked`
/// (or failed to be read, with a message) accepts every one of `mimes`.
pub fn accepts_all(ranked: Result<Vec<MimeType>, String>, mimes: Vec<MimeType>) -> (c: Conclusion)
    ensures
        match ranked {
            Err(message) => c matches Conclusion::ErrorParsingHeader { message: m } && m == message,
            Ok(choices) => if forall|i: int|
                0 <= i < mimes@.len() ==> accepts_spec(choices@, #[trigger] mimes@[i]) {
                c is AllAcceptable
            } else {
                c is NotAllAcceptable
            },
        },
{
    match &ranked {
        Ok(choices) => {
            let mut i: usize = 0;
            while i < mimes.len()
                invariant
                    i <= mimes.len(),
                    ranked matches Ok(c) && c == *choices,
                    forall|k: int| 0 <= k < i ==> accepts_spec(choices@, #[trigger] mimes@[k]),
                decreases mimes.len() - i,
            {
                if !accepts(choices, &mimes[i]) {
                    return Conclusion::NotAllAcceptable;
                }
                i = i + 1;
            }
            Conclusion::AllAcceptable
        },
        Err(message) => Conclusion::ErrorParsingHeader { message: message.clone() },
    }
}

} // verus!
